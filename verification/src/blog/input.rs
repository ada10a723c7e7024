//! Posts: one directory per post, named `YYYYMMDD-HHMMSS-[link_name]`.
use vstd::prelude::*;
use vstd::string::{StringExecFns, StringSliceAdditionalSpecFns};
use vstd::utf8::{decode_utf8, is_char_boundary};

use crate::text::substring_bytes;

verus! {

/// A post found on disk.
#[derive(Clone, Debug)]
pub struct Post {
    pub dir_name: String,
    pub timestamp: String,
    pub date: String,
    pub link_name: String,
    pub markdown: String,
}

/// Why a post directory was refused.
#[derive(Clone, Copy, Debug, PartialEq, Eq, Structural)]
pub enum PostError {
    /// The directory name is not longer than the timestamp and its dash.
    DirNameTooShort,
}

/// The byte positions at which a post directory name is cut are character
/// boundaries: after the year, the month, the day, the timestamp and its dash.
pub open spec fn dir_name_cuttable(b: Seq<u8>) -> bool {
    b.len() > 16 ==> {
        &&& is_char_boundary(b, 4)
        &&& is_char_boundary(b, 6)
        &&& is_char_boundary(b, 8)
        &&& is_char_boundary(b, 15)
        &&& is_char_boundary(b, 16)
    }
}

/// Reads a post from its directory name and its Markdown: the first fifteen
/// bytes of the name are the timestamp, its first eight bytes the date
/// (written `YYYY-MM-DD`), and what follows the timestamp and a separator the
/// link name.
pub fn post_from_dir(dir_name: &str, markdown: String) -> (res: Result<Post, PostError>)
    requires
        dir_name_cuttable(dir_name.spec_bytes()),
    ensures
        ({
            let b = dir_name.spec_bytes();
            match res {
                Err(e) => e == PostError::DirNameTooShort && b.len() <= 16,
                Ok(post) => {
                    &&& b.len() > 16
                    &&& post.dir_name@ == dir_name@
                    &&& post.timestamp@ == decode_utf8(b.subrange(0, 15))
                    &&& post.date@ == decode_utf8(b.subrange(0, 4)) + "-"@ + decode_utf8(
                        b.subrange(4, 6),
                    ) + "-"@ + decode_utf8(b.subrange(6, 8))
                    &&& post.link_name@ == decode_utf8(b.subrange(16, b.len() as int))
                    &&& post.markdown == markdown
                },
            }
        }),
{
    let n = dir_name.as_bytes().len();
    let ghost b = dir_name.spec_bytes();
    assert(n == b.len());
    if n <= 16 {
        return Err(PostError::DirNameTooShort);
    }
    proof {
        vstd::utf8::encode_utf8_valid_utf8(dir_name@);
        vstd::utf8::is_char_boundary_start_end_of_seq(b);
        assert(vstd::utf8::is_char_boundary(b, b.len() as int));
    }
    let timestamp = substring_bytes(dir_name, 0, 15);
    let year = substring_bytes(dir_name, 0, 4);
    let month = substring_bytes(dir_name, 4, 6);
    let day = substring_bytes(dir_name, 6, 8);
    let link_name = substring_bytes(dir_name, 16, n);
    let mut date = String::from_str(year);
    date.append("-");
    date.append(month);
    date.append("-");
    date.append(day);
    Ok(
        Post {
            dir_name: dir_name.to_owned(),
            timestamp: timestamp.to_owned(),
            date,
            link_name: link_name.to_owned(),
            markdown,
        },
    )
}

/// `a` comes before `b` in byte-wise lexicographic order.
pub open spec fn bytes_lt(a: Seq<u8>, b: Seq<u8>) -> bool
    decreases a.len(),
{
    if a.len() == 0 {
        b.len() > 0
    } else if b.len() == 0 {
        false
    } else if a[0] != b[0] {
        a[0] < b[0]
    } else {
        bytes_lt(a.drop_first(), b.drop_first())
    }
}

/// The sort key of a post: the bytes of its timestamp.
pub open spec fn post_key(p: Post) -> Seq<u8> {
    vstd::utf8::encode_utf8(p.timestamp@)
}

/// Whether `a` comes before `b` in byte-wise lexicographic order.
fn lt_bytes(a: &[u8], b: &[u8]) -> (r: bool)
    ensures
        r == bytes_lt(a@, b@),
{
    let mut i: usize = 0;
    assert(a@.skip(0) =~= a@);
    assert(b@.skip(0) =~= b@);
    while i < a.len() && i < b.len()
        invariant
            0 <= i <= a@.len(),
            i <= b@.len(),
            forall|j: int| 0 <= j < i ==> a@[j] == b@[j],
            bytes_lt(a@, b@) == bytes_lt(a@.skip(i as int), b@.skip(i as int)),
        decreases a@.len() - i,
    {
        if a[i] != b[i] {
            return a[i] < b[i];
        }
        assert(a@.skip(i as int).drop_first() =~= a@.skip(i + 1));
        assert(b@.skip(i as int).drop_first() =~= b@.skip(i + 1));
        i += 1;
    }
    i < b.len()
}

/// Posts ordered from the newest to the oldest: no post has a timestamp
/// that comes after the timestamp of a post before it.
pub open spec fn newest_first(posts: Seq<Post>) -> bool {
    forall|i: int, j: int|
        0 <= i < j < posts.len() ==> !bytes_lt(post_key(posts[i]), post_key(posts[j]))
}

/// `bytes_lt` is irreflexive.
proof fn lemma_bytes_lt_irreflexive(a: Seq<u8>)
    ensures
        !bytes_lt(a, a),
    decreases a.len(),
{
    if a.len() > 0 {
        lemma_bytes_lt_irreflexive(a.drop_first());
    }
}

/// `bytes_lt` is total on distinct sequences.
proof fn lemma_bytes_lt_total(a: Seq<u8>, b: Seq<u8>)
    ensures
        a != b ==> bytes_lt(a, b) || bytes_lt(b, a),
    decreases a.len(),
{
    if a.len() > 0 && b.len() > 0 && a[0] == b[0] {
        lemma_bytes_lt_total(a.drop_first(), b.drop_first());
        if a.drop_first() == b.drop_first() {
            assert(a =~= seq![a[0]] + a.drop_first());
            assert(b =~= seq![b[0]] + b.drop_first());
        }
    } else if a.len() == 0 && b.len() == 0 {
        assert(a =~= b);
    }
}

/// `bytes_lt` is transitive.
proof fn lemma_bytes_lt_transitive(a: Seq<u8>, b: Seq<u8>, c: Seq<u8>)
    requires
        bytes_lt(a, b),
        bytes_lt(b, c),
    ensures
        bytes_lt(a, c),
    decreases a.len(),
{
    if a.len() > 0 && b.len() > 0 && c.len() > 0 && a[0] == b[0] && b[0] == c[0] {
        lemma_bytes_lt_transitive(a.drop_first(), b.drop_first(), c.drop_first());
    }
}

/// Not coming before is transitive: when `b` does not come before `a` and
/// `c` does not come before `b`, `c` does not come before `a`.
proof fn lemma_not_lt_transitive(a: Seq<u8>, b: Seq<u8>, c: Seq<u8>)
    requires
        !bytes_lt(a, b),
        !bytes_lt(b, c),
    ensures
        !bytes_lt(a, c),
{
    lemma_bytes_lt_total(a, b);
    lemma_bytes_lt_total(b, c);
    if bytes_lt(a, c) {
        if a == b {
        } else if b == c {
        } else {
            lemma_bytes_lt_transitive(c, b, a);
            lemma_bytes_lt_transitive(a, c, a);
            lemma_bytes_lt_irreflexive(a);
        }
    }
}

/// `after` holds the posts of `before` in another order, the post at
/// position `k` of `after` coming from position `perm[k]` of `before`, and
/// posts with the same timestamp keep their relative order.
pub open spec fn stable_reorder(perm: Seq<int>, before: Seq<Post>, after: Seq<Post>) -> bool {
    &&& perm.len() == before.len()
    &&& after.len() == before.len()
    &&& forall|k: int|
        0 <= k < after.len() ==> 0 <= #[trigger] perm[k] < before.len() && after[k] == before[perm[k]]
    &&& forall|a: int, b: int|
        0 <= a < b < after.len() ==> #[trigger] perm[a] != #[trigger] perm[b]
    &&& forall|a: int, b: int|
        0 <= a < b < after.len() && post_key(#[trigger] after[a]) == post_key(#[trigger] after[b])
            ==> perm[a] < perm[b]
}

/// Sorts posts from the newest to the oldest timestamp, by insertion; posts
/// with the same timestamp keep their order.
pub fn sort_posts(posts: &mut Vec<Post>)
    ensures
        final(posts)@.to_multiset() == old(posts)@.to_multiset(),
        newest_first(final(posts)@),
        exists|perm: Seq<int>| stable_reorder(perm, old(posts)@, final(posts)@),
{
    let ghost initial = posts@;
    let n = posts.len();
    let ghost mut perm: Seq<int> = Seq::new(n as nat, |k: int| k);
    if n == 0 {
        assert(newest_first(posts@));
        assert(stable_reorder(perm, initial, posts@));
        return;
    }
    let mut i: usize = 1;
    while i < n
        invariant
            n == posts@.len(),
            1 <= i <= n,
            posts@.to_multiset() == initial.to_multiset(),
            forall|a: int, b: int|
                0 <= a < b < i ==> !bytes_lt(post_key(#[trigger] posts@[a]), post_key(
                    #[trigger] posts@[b],
                )),
            perm.len() == n,
            initial.len() == n,
            forall|k: int| 0 <= k < n ==> posts@[k] == initial[#[trigger] perm[k]],
            forall|k: int| 0 <= k < i ==> 0 <= #[trigger] perm[k] < i,
            forall|k: int| i <= k < n ==> #[trigger] perm[k] == k,
            forall|a: int, b: int| 0 <= a < b < i ==> #[trigger] perm[a] != #[trigger] perm[b],
            forall|a: int, b: int|
                0 <= a < b < i && post_key(#[trigger] posts@[a]) == post_key(#[trigger] posts@[b])
                    ==> perm[a] < perm[b],
        decreases n - i,
    {
        let mut j: usize = i;
        while j > 0 && lt_bytes(
            posts[j - 1].timestamp.as_str().as_bytes(),
            posts[j].timestamp.as_str().as_bytes(),
        )
            invariant
                n == posts@.len(),
                0 <= j <= i < n,
                posts@.to_multiset() == initial.to_multiset(),
                forall|a: int, b: int|
                    0 <= a < b <= i && a != j && b != j ==> !bytes_lt(
                        post_key(#[trigger] posts@[a]),
                        post_key(#[trigger] posts@[b]),
                    ),
                forall|b: int|
                    j < b <= i ==> bytes_lt(post_key(#[trigger] posts@[b]), post_key(posts@[j as int])),
                forall|b: int|
                    j < b <= i && j > 0 ==> !bytes_lt(
                        post_key(posts@[j - 1]),
                        post_key(#[trigger] posts@[b]),
                    ),
                perm.len() == n,
                initial.len() == n,
                forall|k: int| 0 <= k < n ==> posts@[k] == initial[#[trigger] perm[k]],
                perm[j as int] == i,
                forall|k: int| 0 <= k <= i && k != j ==> 0 <= #[trigger] perm[k] < i,
                forall|k: int| i < k < n ==> #[trigger] perm[k] == k,
                forall|a: int, b: int|
                    0 <= a < b <= i && a != j && b != j ==> #[trigger] perm[a] != #[trigger] perm[b],
                forall|a: int, b: int|
                    0 <= a < b <= i && a != j && b != j && post_key(#[trigger] posts@[a]) == post_key(
                        #[trigger] posts@[b],
                    ) ==> perm[a] < perm[b],
            decreases j,
        {
            let ghost before = posts@;
            let ghost before_perm = perm;
            assert(bytes_lt(post_key(before[j - 1]), post_key(before[j as int])));
            let x = posts.remove(j);
            posts.insert(j - 1, x);
            proof {
                let after = posts@;
                assert(after =~= before.update(j - 1, before[j as int]).update(
                    j as int,
                    before[j - 1],
                ));
                perm = before_perm.update(j - 1, before_perm[j as int]).update(
                    j as int,
                    before_perm[j - 1],
                );
                let x = before[j as int];
                assert(after =~= before.remove(j as int).insert(j - 1, x));
                vstd::seq_lib::to_multiset_remove(before, j as int);
                vstd::seq_lib::to_multiset_insert(before.remove(j as int), j - 1, x);
                vstd::seq_lib::to_multiset_contains(before, x);
                assert(before.to_multiset().remove(x).insert(x) =~= before.to_multiset());
                lemma_bytes_lt_total(post_key(before[j - 1]), post_key(before[j as int]));
                lemma_bytes_lt_irreflexive(post_key(before[j as int]));
                if bytes_lt(post_key(before[j as int]), post_key(before[j - 1])) {
                    lemma_bytes_lt_transitive(
                        post_key(before[j as int]),
                        post_key(before[j - 1]),
                        post_key(before[j as int]),
                    );
                }
                assert forall|b: int| j - 1 < b <= i implies bytes_lt(
                    post_key(#[trigger] posts@[b]),
                    post_key(posts@[j - 1]),
                ) by {
                    if b == j {
                    } else {
                        assert(posts@[b] == before[b]);
                    }
                }
                assert forall|a: int, b: int|
                    0 <= a < b <= i && a != j - 1 && b != j - 1 && post_key(
                        #[trigger] posts@[a],
                    ) == post_key(#[trigger] posts@[b]) implies perm[a] < perm[b] by {
                    if a == j {
                        assert(bytes_lt(post_key(before[b]), post_key(before[j as int])));
                        lemma_bytes_lt_irreflexive(post_key(before[b]));
                    } else if b == j {
                    } else {
                    }
                }
            }
            j -= 1;
        }
        proof {
            assert forall|a: int, b: int| 0 <= a < b < i + 1 implies !bytes_lt(
                post_key(#[trigger] posts@[a]),
                post_key(#[trigger] posts@[b]),
            ) by {
                if a != j && b != j {
                } else if a == j {
                    assert(bytes_lt(post_key(posts@[b]), post_key(posts@[j as int])));
                    lemma_bytes_lt_irreflexive(post_key(posts@[b]));
                    if bytes_lt(post_key(posts@[j as int]), post_key(posts@[b])) {
                        lemma_bytes_lt_transitive(
                            post_key(posts@[b]),
                            post_key(posts@[j as int]),
                            post_key(posts@[b]),
                        );
                    }
                } else if a == j - 1 {
                } else {
                    lemma_not_lt_transitive(
                        post_key(posts@[a]),
                        post_key(posts@[j - 1]),
                        post_key(posts@[b]),
                    );
                }
            }
            assert forall|a: int, b: int|
                0 <= a < b < i + 1 && post_key(#[trigger] posts@[a]) == post_key(#[trigger] posts@[b])
                    implies perm[a] < perm[b] by {
                if a == j {
                    assert(bytes_lt(post_key(posts@[b]), post_key(posts@[j as int])));
                    lemma_bytes_lt_irreflexive(post_key(posts@[b]));
                } else if b == j {
                } else {
                }
            }
            assert forall|a: int, b: int| 0 <= a < b < i + 1 implies #[trigger] perm[a]
                != #[trigger] perm[b] by {
                if a == j {
                } else if b == j {
                } else {
                }
            }
        }
        i += 1;
    }
    assert(stable_reorder(perm, initial, posts@));
}

} // verus!
