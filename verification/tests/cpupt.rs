use raydiance::cpupt::bsdf::DiffuseModel;
use raydiance::cpupt::bvh::{create, flatten, BuildNode, Node, F32_MAX_BITS, F32_NEG_MAX_BITS};
use raydiance::cpupt::bxdfs::Model;
use raydiance::cpupt::intersection::RayBvhHitStats;
use raydiance::cpupt::progress::{RenderStep, SampleProgress};
use raydiance::cpupt::sampling::HemisphereSampler;
use raydiance::cpupt::tiles::{pixel_tile_count, PixelTile, PixelTiles, PIXEL_TILE_SIZE};
use raydiance::cpupt::{image_pixel_index, image_size_is_valid, pixel_seed, Params};

#[test]
fn tile_iterator() {
    let image_w = 800_u32;
    let image_h = 450_u32;
    let mut hit_pixels: bitvec::vec::BitVec = bitvec::vec::BitVec::new();
    hit_pixels.resize((image_w * image_h) as usize, false);
    let mut tiles = PixelTiles::new(image_w, image_h);
    while let Some(tile) = tiles.next() {
        for y in tile.start_y..tile.end_y {
            for x in tile.start_x..tile.end_x {
                hit_pixels.set((x + y * image_w) as usize, true);
            }
        }
    }
    assert!(hit_pixels.all());
}

#[test]
fn tiles_cover_each_pixel_exactly_once() {
    let image_w = 37_u32;
    let image_h = 21_u32;
    let mut hits = vec![0_u32; (image_w * image_h) as usize];
    for tile in PixelTiles::new(image_w, image_h).into_vec() {
        for index in tile.pixel_indices(image_w) {
            hits[index] += 1;
        }
    }
    assert!(hits.iter().all(|&h| h == 1));
}

#[test]
fn tiles_come_in_row_major_order_cut_at_the_border() {
    let tiles = PixelTiles::new(40, 20).into_vec();
    assert_eq!(tiles.len(), 6);
    assert_eq!(tiles[0], PixelTile { start_x: 0, end_x: 16, start_y: 0, end_y: 16 });
    assert_eq!(tiles[1], PixelTile { start_x: 16, end_x: 32, start_y: 0, end_y: 16 });
    assert_eq!(tiles[2], PixelTile { start_x: 32, end_x: 40, start_y: 0, end_y: 16 });
    assert_eq!(tiles[3], PixelTile { start_x: 0, end_x: 16, start_y: 16, end_y: 20 });
    assert_eq!(tiles[5], PixelTile { start_x: 32, end_x: 40, start_y: 16, end_y: 20 });
}

#[test]
fn tiles_end_with_none() {
    let mut tiles = PixelTiles::new(1, 1);
    assert_eq!(tiles.next(), Some(PixelTile { start_x: 0, end_x: 1, start_y: 0, end_y: 1 }));
    assert_eq!(tiles.next(), None);
    assert_eq!(tiles.next(), None);
}

#[test]
fn tile_pixel_indices_walk_rows() {
    let tile = PixelTile { start_x: 2, end_x: 4, start_y: 1, end_y: 3 };
    assert_eq!(tile.pixel_indices(10), vec![12, 13, 22, 23]);
}

#[test]
fn full_tile_pixel_count() {
    assert_eq!(PIXEL_TILE_SIZE, 16);
    assert_eq!(pixel_tile_count(), 256);
}

#[test]
fn pixel_seed_puts_the_sample_above_the_pixel_index() {
    assert_eq!(pixel_seed((3, 2), (10, 5), 0), 23);
    assert_eq!(pixel_seed((3, 2), (10, 5), 4), (4 << 32) + 23);
    assert_eq!(pixel_seed((0, 0), (10, 5), 7), 7 << 32);
    assert_eq!(pixel_seed((0, 0), (10, 5), 0), 0);
    assert_eq!(pixel_seed((1, 0), (1, 1), u32::MAX), u64::MAX - (1 << 32) + 2);
}

#[test]
fn seeds_are_unique_over_pixels_and_samples() {
    let mut seeds: Vec<u64> = (0..5).flat_map(|y| (0..10).map(move |x| pixel_seed((x, y), (10, 5), 3))).collect();
    seeds.sort();
    seeds.dedup();
    assert_eq!(seeds.len(), 50);
    let mut all: Vec<u64> = (0..4)
        .flat_map(|s| (0..4).flat_map(move |y| (0..4).map(move |x| pixel_seed((x, y), (4, 4), s))))
        .collect();
    all.sort();
    all.dedup();
    assert_eq!(all.len(), 64);
}

#[test]
fn image_pixel_index_is_row_major() {
    assert_eq!(image_pixel_index(3, 2, 10), 23);
    assert_eq!(image_pixel_index(0, 0, 10), 0);
}

#[test]
fn image_size_needs_pixels_both_ways() {
    assert!(image_size_is_valid((1, 1)));
    assert!(!image_size_is_valid((0, 5)));
    assert!(!image_size_is_valid((5, 0)));
}

#[test]
fn default_params() {
    let p = Params::default();
    assert_eq!(p.samples_per_pixel, 64);
    assert_eq!(p.max_bounce_count, 5);
    assert_eq!(p.seed, 0);
}

#[test]
fn model_names() {
    assert_eq!(DiffuseModel::Lambert.name(), "Lambert");
    assert_eq!(DiffuseModel::default(), DiffuseModel::Disney);
    assert_eq!(DiffuseModel::Disney.name(), "Disney");
    assert_eq!(HemisphereSampler::Uniform.name(), "Uniform");
    assert_eq!(HemisphereSampler::Cosine.name(), "Cosine");
    assert_eq!(HemisphereSampler::default(), HemisphereSampler::Cosine);
    assert_eq!(Model::Lambertian.name(), "lambertian");
    assert_eq!(Model::DisneyDiffuse.name(), "disney-diffuse");
    assert_eq!(Model::DisneySpecular.name(), "disney-specular");
    assert_eq!(Model::DisneySheen.name(), "disney-sheen");
}

#[test]
fn stats_take_the_counters_and_keep_the_rays() {
    let mut stats = RayBvhHitStats::new();
    stats.rays = 7;
    stats.ray_aabb_tests = 100;
    let rhs = RayBvhHitStats {
        rays: 1,
        ray_triangle_tests: 2,
        ray_triangle_hits: 3,
        ray_aabb_tests: 4,
        ray_aabb_hits: 5,
    };
    stats.add_assign(rhs);
    assert_eq!(
        stats,
        RayBvhHitStats {
            rays: 7,
            ray_triangle_tests: 2,
            ray_triangle_hits: 3,
            ray_aabb_tests: 4,
            ray_aabb_hits: 5,
        }
    );
}

fn leaf(first: usize, count: usize, corner: u32) -> BuildNode {
    BuildNode {
        bounds_mn: [corner; 3],
        bounds_mx: [corner + 1; 3],
        children: None,
        split_axis: None,
        first_primitive_offset: Some(first),
        primitive_count: Some(count),
    }
}

fn interior(axis: usize, left: usize, right: usize) -> BuildNode {
    BuildNode {
        bounds_mn: [0; 3],
        bounds_mx: [9; 3],
        children: Some([left, right]),
        split_axis: Some(axis),
        first_primitive_offset: None,
        primitive_count: None,
    }
}

// The build step makes a node, then the subtree of its first child, then
// that of its second child.
fn sample_build() -> Vec<BuildNode> {
    vec![
        interior(1, 1, 4),
        interior(0, 2, 3),
        leaf(0, 2, 1),
        leaf(2, 1, 2),
        leaf(3, 3, 3),
    ]
}

#[test]
fn flatten_lays_out_depth_first() {
    let build = sample_build();
    let mut nodes = Vec::new();
    let root = flatten(&build, 0, &mut nodes);
    assert_eq!(root, 0);
    assert_eq!(nodes.len(), 5);
    assert_eq!((nodes[0].primitive_count, nodes[0].axis, nodes[0].offset), (0, 1, 4));
    assert_eq!((nodes[1].primitive_count, nodes[1].axis, nodes[1].offset), (0, 0, 3));
    assert_eq!((nodes[2].primitive_count, nodes[2].offset), (2, 0));
    assert_eq!((nodes[3].primitive_count, nodes[3].offset), (1, 2));
    assert_eq!((nodes[4].primitive_count, nodes[4].offset), (3, 3));
    assert_eq!(nodes[4].bounds_mn, [3; 3]);
    assert_eq!(nodes[4].bounds_mx, [4; 3]);
}

#[test]
fn flatten_appends_and_numbers_from_the_end() {
    let build = sample_build();
    let mut nodes = vec![Node::default(); 3];
    let first = flatten(&build, 1, &mut nodes);
    assert_eq!(first, 3);
    assert_eq!(nodes.len(), 6);
    assert_eq!(nodes[3].offset, 5);
    assert_eq!(nodes[4].offset, 0);
    assert_eq!(nodes[5].offset, 2);
}

#[test]
fn flattened_links_stay_inside() {
    let build = sample_build();
    let (nodes, _) = create(&build, &[], &[0_u8; 0]);
    for (k, node) in nodes.iter().enumerate() {
        if node.primitive_count == 0 {
            assert!(k + 1 < node.offset as usize && (node.offset as usize) < nodes.len());
        }
    }
}

#[test]
fn create_orders_the_triangles() {
    let build = vec![leaf(0, 3, 0)];
    let (nodes, triangles) = create(&build, &[2, 0, 1], &['a', 'b', 'c']);
    assert_eq!(nodes.len(), 1);
    assert_eq!(nodes[0].primitive_count, 3);
    assert_eq!(triangles, vec!['c', 'a', 'b']);
}

#[test]
fn samples_are_rendered_once_in_order() {
    let mut progress = SampleProgress::new();
    assert_eq!(progress.step(true, true, 3), RenderStep::Render { sample_index: 0, done: false });
    assert_eq!(progress.step(false, true, 3), RenderStep::Render { sample_index: 1, done: false });
    assert_eq!(progress.step(false, true, 3), RenderStep::Render { sample_index: 2, done: true });
    assert_eq!(progress.step(false, true, 3), RenderStep::Idle);
    assert_eq!(progress.step(false, true, 3), RenderStep::Idle);
    assert_eq!(progress.sample_index, 3);
}

#[test]
fn a_changed_input_starts_over() {
    let mut progress = SampleProgress::new();
    progress.step(true, true, 8);
    progress.step(false, true, 8);
    assert_eq!(progress.step(true, true, 8), RenderStep::Render { sample_index: 0, done: false });
}

#[test]
fn invalid_inputs_are_skipped() {
    let mut progress = SampleProgress { sample_index: 5 };
    assert_eq!(progress.step(true, false, 8), RenderStep::Skip);
    assert_eq!(progress.sample_index, 0);
    assert_eq!(progress.step(false, false, 8), RenderStep::Skip);
    assert_eq!(progress.step(false, true, 1), RenderStep::Render { sample_index: 0, done: true });
    assert_eq!(SampleProgress::new().step(false, true, 0), RenderStep::Idle);
}

#[test]
fn build_nodes_start_empty_and_are_set_once() {
    let fresh = BuildNode::default();
    assert_eq!(fresh.bounds_mn, [f32::MAX.to_bits(); 3]);
    assert_eq!(fresh.bounds_mx, [(-f32::MAX).to_bits(); 3]);
    assert_eq!((F32_MAX_BITS, F32_NEG_MAX_BITS), (f32::MAX.to_bits(), (-f32::MAX).to_bits()));
    assert_eq!(fresh.children, None);
    assert_eq!(fresh.primitive_count, None);

    let mut root = BuildNode::default();
    root.set_interior(2, [1, 2], [0; 3], [5; 3]);
    let mut left = BuildNode::default();
    left.set_leaf(0, 1, [0; 3], [1; 3]);
    let mut right = BuildNode::default();
    right.set_leaf(1, 4, [2; 3], [5; 3]);
    assert_eq!(root.children, Some([1, 2]));
    assert_eq!(root.split_axis, Some(2));
    assert_eq!(right.first_primitive_offset, Some(1));
    assert_eq!(right.primitive_count, Some(4));
    assert_eq!(right.children, None);

    let mut nodes = Vec::new();
    flatten(&[root, left, right], 0, &mut nodes);
    assert_eq!(nodes.len(), 3);
    assert_eq!((nodes[0].axis, nodes[0].offset, nodes[0].primitive_count), (2, 2, 0));
    assert_eq!((nodes[2].offset, nodes[2].primitive_count), (1, 4));
}

#[test]
fn tiles_of_the_widest_image() {
    let w = u32::MAX - 15;
    let mut tiles = PixelTiles::new(w, 16);
    assert_eq!(tiles.next(), Some(PixelTile { start_x: 0, end_x: 16, start_y: 0, end_y: 16 }));
    assert_eq!(PixelTiles::new(800, 450).into_vec().len(), 1450);
}
