//! The bounding volume hierarchy of the path tracer: the tree that the build
//! step makes is laid out depth first in one array, which the traversal walks
//! with a small stack. Bounds are carried as the bit patterns of their `f32`
//! corners.
use vstd::prelude::*;

verus! {

/// A node of the laid-out hierarchy. A leaf holds `primitive_count`
/// primitives from `offset` on; an interior node (`primitive_count == 0`)
/// splits along `axis`, has its first child right after it and its second
/// child at `offset`.
#[derive(Clone, Copy, Debug, Default, PartialEq, Eq)]
pub struct Node {
    pub bounds_mn: [u32; 3],
    pub bounds_mx: [u32; 3],
    pub offset: u32,
    pub primitive_count: u8,
    pub axis: u8,
    pub pad: u16,
}

/// A node of the tree as the build step makes it: a leaf, with the range of
/// its primitives in the ordered primitive list, or an interior node, with
/// its split axis and the indices of its two children.
#[derive(Clone, Copy, Debug, PartialEq, Eq)]
pub struct BuildNode {
    pub bounds_mn: [u32; 3],
    pub bounds_mx: [u32; 3],
    pub children: Option<[usize; 2]>,
    pub split_axis: Option<usize>,
    pub first_primitive_offset: Option<usize>,
    pub primitive_count: Option<usize>,
}

/// Bit pattern of `f32::MAX`, the lower corner of an empty box.
pub const F32_MAX_BITS: u32 = 0x7f7f_ffff;

/// Bit pattern of `-f32::MAX`, the upper corner of an empty box.
pub const F32_NEG_MAX_BITS: u32 = 0xff7f_ffff;

/// A build node not yet made a leaf or an interior node: an empty box and no
/// contents.
pub open spec fn fresh_build_node() -> BuildNode {
    BuildNode {
        bounds_mn: [F32_MAX_BITS, F32_MAX_BITS, F32_MAX_BITS],
        bounds_mx: [F32_NEG_MAX_BITS, F32_NEG_MAX_BITS, F32_NEG_MAX_BITS],
        children: None,
        split_axis: None,
        first_primitive_offset: None,
        primitive_count: None,
    }
}

impl Default for BuildNode {
    fn default() -> (node: Self)
        ensures
            node == fresh_build_node(),
    {
        BuildNode {
            bounds_mn: [F32_MAX_BITS, F32_MAX_BITS, F32_MAX_BITS],
            bounds_mx: [F32_NEG_MAX_BITS, F32_NEG_MAX_BITS, F32_NEG_MAX_BITS],
            children: None,
            split_axis: None,
            first_primitive_offset: None,
            primitive_count: None,
        }
    }
}

impl BuildNode {
    /// Makes a fresh node a leaf holding `primitive_count` primitives of the
    /// ordered list from `first_primitive_offset` on.
    pub fn set_leaf(
        &mut self,
        first_primitive_offset: usize,
        primitive_count: usize,
        bounds_mn: [u32; 3],
        bounds_mx: [u32; 3],
    )
        requires
            *old(self) == fresh_build_node(),
        ensures
            *final(self) == (BuildNode {
                bounds_mn,
                bounds_mx,
                first_primitive_offset: Some(first_primitive_offset),
                primitive_count: Some(primitive_count),
                ..*old(self)
            }),
    {
        self.bounds_mn = bounds_mn;
        self.bounds_mx = bounds_mx;
        self.first_primitive_offset = Some(first_primitive_offset);
        self.primitive_count = Some(primitive_count);
    }

    /// Makes a fresh node an interior node split along `split_axis`, with the
    /// build nodes `children` as its children.
    pub fn set_interior(
        &mut self,
        split_axis: usize,
        children: [usize; 2],
        bounds_mn: [u32; 3],
        bounds_mx: [u32; 3],
    )
        requires
            *old(self) == fresh_build_node(),
        ensures
            *final(self) == (BuildNode {
                bounds_mn,
                bounds_mx,
                children: Some(children),
                split_axis: Some(split_axis),
                ..*old(self)
            }),
    {
        self.bounds_mn = bounds_mn;
        self.bounds_mx = bounds_mx;
        self.children = Some(children);
        self.split_axis = Some(split_axis);
    }
}

/// Whether `child` can be a child of node `parent` in a build list: the
/// build step makes a node before its children.
pub open spec fn child_after(build: Seq<BuildNode>, parent: int, child: int) -> bool {
    parent < child < build.len()
}

/// A build list that can be laid out: a leaf knows where its primitives
/// start, and an interior node knows its axis and has two children, both made
/// after it.
pub open spec fn build_is_valid(build: Seq<BuildNode>) -> bool {
    forall|i: int|
        0 <= i < build.len() ==> {
            let node = #[trigger] build[i];
            if node.primitive_count is Some {
                node.first_primitive_offset is Some
            } else {
                &&& node.split_axis is Some
                &&& node.children is Some
                &&& child_after(build, i, node.children.unwrap()[0] as int)
                &&& child_after(build, i, node.children.unwrap()[1] as int)
            }
        }
}

/// The laid-out node of a leaf.
pub open spec fn leaf_node(b: BuildNode) -> Node {
    Node {
        bounds_mn: b.bounds_mn,
        bounds_mx: b.bounds_mx,
        offset: b.first_primitive_offset.unwrap() as u32,
        primitive_count: b.primitive_count.unwrap() as u8,
        axis: 0,
        pad: 0,
    }
}

/// The laid-out node of an interior node whose second child is at `offset`.
pub open spec fn interior_node(b: BuildNode, offset: int) -> Node {
    Node {
        bounds_mn: b.bounds_mn,
        bounds_mx: b.bounds_mx,
        offset: offset as u32,
        primitive_count: 0,
        axis: b.split_axis.unwrap() as u8,
        pad: 0,
    }
}

/// The subtree of build node `parent` laid out depth first, its first node
/// at position `start` of the array: the node, the subtree of its first
/// child, then that of its second child.
pub open spec fn spec_flatten(build: Seq<BuildNode>, parent: int, start: int) -> Seq<Node>
    decreases build.len() - parent,
{
    if 0 <= parent < build.len() {
        let b = build[parent];
        if b.primitive_count is Some {
            seq![leaf_node(b)]
        } else {
            let c = b.children.unwrap();
            let left = if child_after(build, parent, c[0] as int) {
                spec_flatten(build, c[0] as int, start + 1)
            } else {
                Seq::empty()
            };
            let right = if child_after(build, parent, c[1] as int) {
                spec_flatten(build, c[1] as int, start + 1 + left.len())
            } else {
                Seq::empty()
            };
            seq![interior_node(b, start + 1 + left.len())] + left + right
        }
    } else {
        Seq::empty()
    }
}

/// Lays out the subtree of build node `parent` depth first at the end of
/// `nodes`, and returns the position of its first node.
pub fn flatten(build_nodes: &[BuildNode], parent: usize, nodes: &mut Vec<Node>) -> (curr: usize)
    requires
        build_is_valid(build_nodes@),
        parent < build_nodes@.len(),
        old(nodes)@.len() + spec_flatten(build_nodes@, parent as int, old(nodes)@.len() as int).len()
            <= usize::MAX,
    ensures
        curr == old(nodes)@.len(),
        final(nodes)@ == old(nodes)@ + spec_flatten(
            build_nodes@,
            parent as int,
            old(nodes)@.len() as int,
        ),
    decreases build_nodes@.len() - parent,
{
    let ghost build = build_nodes@;
    let ghost start = nodes@.len() as int;
    let curr = nodes.len();
    let b = build_nodes[parent];
    assert(build[parent as int] == b);
    match b.primitive_count {
        Some(count) => {
            let first = b.first_primitive_offset.unwrap();
            nodes.push(
                Node {
                    bounds_mn: b.bounds_mn,
                    bounds_mx: b.bounds_mx,
                    offset: first as u32,
                    primitive_count: count as u8,
                    axis: 0,
                    pad: 0,
                },
            );
            assert(nodes@ =~= old(nodes)@ + seq![leaf_node(b)]);
        },
        None => {
            let axis = b.split_axis.unwrap();
            let children = b.children.unwrap();
            nodes.push(
                Node {
                    bounds_mn: b.bounds_mn,
                    bounds_mx: b.bounds_mx,
                    offset: 0,
                    primitive_count: 0,
                    axis: axis as u8,
                    pad: 0,
                },
            );
            let ghost left = spec_flatten(build, children[0] as int, start + 1);
            let ghost right = spec_flatten(build, children[1] as int, start + 1 + left.len());
            assert(spec_flatten(build, parent as int, start) == seq![
                interior_node(b, start + 1 + left.len()),
            ] + left + right);
            let ghost after_push = nodes@;
            flatten(build_nodes, children[0], nodes);
            let ghost after_left = nodes@;
            let second = flatten(build_nodes, children[1], nodes);
            assert(second == start + 1 + left.len());
            let mut header = nodes[curr];
            header.offset = second as u32;
            nodes.set(curr, header);
            assert(header == interior_node(b, start + 1 + left.len()));
            assert(nodes@ =~= old(nodes)@ + spec_flatten(build, parent as int, start));
        },
    }
    curr
}

/// Every leaf of a build list holds between one and 255 primitives, as many
/// as a laid-out node can count.
pub open spec fn leaves_are_countable(build: Seq<BuildNode>) -> bool {
    forall|i: int|
        0 <= i < build.len() && (#[trigger] build[i]).primitive_count is Some ==> 1
            <= build[i].primitive_count.unwrap() <= 255
}

/// The links of a laid-out hierarchy whose first node is at position
/// `start`: the second child of every interior node lies after its first
/// child and inside the hierarchy.
pub open spec fn links_in_range(flat: Seq<Node>, start: int) -> bool {
    forall|k: int|
        0 <= k < flat.len() && (#[trigger] flat[k]).primitive_count == 0 ==> start + k + 1
            < flat[k].offset < start + flat.len()
}

/// Law: when the leaves of a valid build list hold between one and 255
/// primitives and the positions fit in 32 bits, a laid-out subtree is not
/// empty and the traversal, which goes from an interior node to the next
/// position and to the node's offset, stays inside it.
pub proof fn lemma_flatten_links_in_range(build: Seq<BuildNode>, parent: int, start: int)
    requires
        build_is_valid(build),
        leaves_are_countable(build),
        0 <= parent < build.len(),
        0 <= start,
        start + spec_flatten(build, parent, start).len() <= u32::MAX,
    ensures
        spec_flatten(build, parent, start).len() >= 1,
        links_in_range(spec_flatten(build, parent, start), start),
    decreases build.len() - parent,
{
    let flat = spec_flatten(build, parent, start);
    let b = build[parent];
    if b.primitive_count is Some {
        assert(1 <= b.primitive_count.unwrap() <= 255);
        assert(flat[0].primitive_count != 0);
    } else {
        let c = b.children.unwrap();
        let left = spec_flatten(build, c[0] as int, start + 1);
        let right = spec_flatten(build, c[1] as int, start + 1 + left.len());
        assert(flat == seq![interior_node(b, start + 1 + left.len())] + left + right);
        lemma_flatten_links_in_range(build, c[0] as int, start + 1);
        lemma_flatten_links_in_range(build, c[1] as int, start + 1 + left.len());
        assert forall|k: int|
            0 <= k < flat.len() && (#[trigger] flat[k]).primitive_count == 0 implies start + k + 1
            < flat[k].offset < start + flat.len() by {
            if k == 0 {
                assert(flat[0].offset == start + 1 + left.len());
            } else if k < 1 + left.len() {
                assert(flat[k] == left[k - 1]);
            } else {
                assert(flat[k] == right[k - 1 - left.len()]);
            }
        }
    }
}

/// Lays out a built tree, whose root is its first build node, and puts the
/// triangles in the order in which the leaves take their primitives.
pub fn create<T: Copy>(build_nodes: &[BuildNode], ordered_primitives: &[usize], triangles: &[T]) -> (out: (
    Vec<Node>,
    Vec<T>,
))
    requires
        build_is_valid(build_nodes@),
        build_nodes@.len() > 0,
        spec_flatten(build_nodes@, 0, 0).len() <= usize::MAX,
        forall|i: int|
            0 <= i < ordered_primitives@.len() ==> #[trigger] ordered_primitives@[i]
                < triangles@.len(),
    ensures
        out.0@ == spec_flatten(build_nodes@, 0, 0),
        out.1@.len() == ordered_primitives@.len(),
        forall|i: int|
            0 <= i < ordered_primitives@.len() ==> #[trigger] out.1@[i]
                == triangles@[ordered_primitives@[i] as int],
{
    let mut nodes: Vec<Node> = Vec::new();
    flatten(build_nodes, 0, &mut nodes);
    assert(nodes@ =~= spec_flatten(build_nodes@, 0, 0));
    let mut ordered: Vec<T> = Vec::new();
    let mut i: usize = 0;
    while i < ordered_primitives.len()
        invariant
            i <= ordered_primitives@.len(),
            ordered@.len() == i,
            forall|j: int|
                0 <= j < ordered_primitives@.len() ==> #[trigger] ordered_primitives@[j]
                    < triangles@.len(),
            forall|j: int|
                0 <= j < i ==> #[trigger] ordered@[j] == triangles@[ordered_primitives@[j] as int],
        decreases ordered_primitives@.len() - i,
    {
        ordered.push(triangles[ordered_primitives[i]]);
        i += 1;
    }
    (nodes, ordered)
}

/// Law: laying out a subtree keeps every box: its first node carries the
/// box of the build node it starts from, and every laid-out node carries the
/// box of some build node of the list, interior nodes as well as leaves.
pub proof fn lemma_flatten_keeps_bounds(build: Seq<BuildNode>, parent: int, start: int)
    requires
        build_is_valid(build),
        0 <= parent < build.len(),
    ensures
        spec_flatten(build, parent, start).len() >= 1,
        spec_flatten(build, parent, start)[0].bounds_mn == build[parent].bounds_mn,
        spec_flatten(build, parent, start)[0].bounds_mx == build[parent].bounds_mx,
        forall|k: int|
            0 <= k < spec_flatten(build, parent, start).len() ==> exists|i: int|
                0 <= i < build.len() && (#[trigger] spec_flatten(build, parent, start)[k]).bounds_mn
                    == build[i].bounds_mn && spec_flatten(build, parent, start)[k].bounds_mx
                    == build[i].bounds_mx,
    decreases build.len() - parent,
{
    let flat = spec_flatten(build, parent, start);
    let b = build[parent];
    if b.primitive_count is Some {
        assert(flat[0].bounds_mn == build[parent].bounds_mn);
    } else {
        let c = b.children.unwrap();
        let left = spec_flatten(build, c[0] as int, start + 1);
        let right = spec_flatten(build, c[1] as int, start + 1 + left.len());
        assert(flat == seq![interior_node(b, start + 1 + left.len())] + left + right);
        lemma_flatten_keeps_bounds(build, c[0] as int, start + 1);
        lemma_flatten_keeps_bounds(build, c[1] as int, start + 1 + left.len());
        assert forall|k: int| 0 <= k < flat.len() implies exists|i: int|
            0 <= i < build.len() && (#[trigger] flat[k]).bounds_mn == build[i].bounds_mn
                && flat[k].bounds_mx == build[i].bounds_mx by {
            if k == 0 {
                assert(flat[0].bounds_mn == build[parent].bounds_mn);
            } else if k < 1 + left.len() {
                assert(flat[k] == left[k - 1]);
            } else {
                assert(flat[k] == right[k - 1 - left.len()]);
            }
        }
    }
}

} // verus!
