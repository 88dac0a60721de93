use generative::cubemap::cubemap_direction;
use generative::hierarchy::Hierarchy;
use generative::terrain::{
    is_interior, terrain_indices, vertex_heights, vertex_index, MAX_TERRAIN_SIZE, TERRAIN_SCALE,
    TERRAIN_SIZE, TEXTURE_TILE_FACTOR,
};
use std::collections::HashSet;

#[test]
fn face_axes_follow_the_opengl_layout() {
    // size 2: pixel centres lie at -1 and +1 on an axis from -2 to 2.
    assert_eq!(cubemap_direction(0, 0, 0, 2), (2, 1, 1));
    assert_eq!(cubemap_direction(0, 1, 0, 2), (2, 1, -1));
    assert_eq!(cubemap_direction(1, 0, 0, 2), (-2, 1, -1));
    assert_eq!(cubemap_direction(2, 0, 0, 2), (-1, 2, -1));
    assert_eq!(cubemap_direction(3, 0, 0, 2), (-1, -2, 1));
    assert_eq!(cubemap_direction(4, 0, 0, 2), (-1, 1, 2));
    assert_eq!(cubemap_direction(5, 0, 0, 2), (1, 1, -2));
    assert_eq!(cubemap_direction(4, 1, 1, 2), (1, -1, 2));
    assert_eq!(cubemap_direction(6, 0, 0, 2), (0, 0, 0));
    assert_eq!(cubemap_direction(4, 1, 1, 3), (0, 0, 3));
}

#[test]
fn every_pixel_has_its_own_direction() {
    let size = 5u32;
    let mut seen = HashSet::new();
    for face in 0..6u32 {
        for y in 0..size {
            for x in 0..size {
                let (dx, dy, dz) = cubemap_direction(face, x, y, size);
                let longest = dx.abs().max(dy.abs()).max(dz.abs());
                assert_eq!(longest, size as i64);
                assert!(seen.insert((dx, dy, dz)));
            }
        }
    }
    assert_eq!(seen.len(), 6 * 25);
}

#[test]
fn terrain_constants() {
    assert_eq!(TERRAIN_SIZE, 200);
    assert_eq!(TERRAIN_SCALE, 2);
    assert_eq!(TEXTURE_TILE_FACTOR, 20);
    assert_eq!(MAX_TERRAIN_SIZE, 65536);
}

#[test]
fn three_by_three_terrain_has_eight_triangles() {
    let indices = terrain_indices(3);
    assert_eq!(
        indices,
        vec![
            0, 3, 1, 1, 3, 4, //
            1, 4, 2, 2, 4, 5, //
            3, 6, 4, 4, 6, 7, //
            4, 7, 5, 5, 7, 8,
        ]
    );
}

#[test]
fn terrain_index_count_and_range() {
    assert!(terrain_indices(0).is_empty());
    assert!(terrain_indices(1).is_empty());
    assert_eq!(terrain_indices(2), vec![0, 2, 1, 1, 2, 3]);
    let indices = terrain_indices(TERRAIN_SIZE);
    assert_eq!(indices.len(), 199 * 199 * 6);
    assert!(indices.iter().all(|i| *i < 200 * 200));
    assert_eq!(&indices[indices.len() - 6..], &[39798, 39998, 39799, 39799, 39998, 39999]);
}

#[test]
fn vertices_are_numbered_row_by_row() {
    assert_eq!(vertex_index(200, 0, 0), 0);
    assert_eq!(vertex_index(200, 199, 0), 199);
    assert_eq!(vertex_index(200, 3, 2), 403);
    assert_eq!(vertex_index(65536, 65535, 65535), u32::MAX);
}

#[test]
fn rim_vertices_are_not_interior() {
    assert!(is_interior(200, 1, 1));
    assert!(is_interior(200, 198, 198));
    assert!(!is_interior(200, 0, 5));
    assert!(!is_interior(200, 5, 0));
    assert!(!is_interior(200, 199, 5));
    assert!(!is_interior(200, 5, 199));
    assert!(!is_interior(2, 1, 1));
    assert!(!is_interior(0, 0, 0));
    assert!(!is_interior(u32::MAX, u32::MAX, 1));
}

#[test]
fn descendants_reach_every_depth() {
    // 0 -> 1, 2; 1 -> 3; 3 -> 4; 5 stands alone.
    let hierarchy = Hierarchy {
        children: vec![vec![1, 2], vec![3], vec![], vec![4], vec![], vec![]],
    };
    let mut below_root = hierarchy.descendants(0);
    assert_eq!(below_root.len(), 4);
    below_root.sort();
    assert_eq!(below_root, vec![1, 2, 3, 4]);
    assert_eq!(hierarchy.descendants(1), vec![3, 4]);
    assert!(hierarchy.descendants(2).is_empty());
    assert!(hierarchy.descendants(5).is_empty());
    assert!(hierarchy.descendants(17).is_empty());
}

#[test]
fn descendants_tolerate_cycles_and_dangling_children() {
    let hierarchy = Hierarchy { children: vec![vec![1, 1, 9], vec![0, 2], vec![1]] };
    let mut found = hierarchy.descendants(0);
    found.sort();
    assert_eq!(found, vec![0, 1, 2]);
    let mut from_two = hierarchy.descendants(2);
    from_two.sort();
    assert_eq!(from_two, vec![0, 1, 2]);
}

#[test]
fn vertex_heights_follow_the_vertex_order() {
    // heights[x][z] = 10 x + z
    let heights: Vec<Vec<i32>> = (0..3).map(|x| (0..3).map(|z| 10 * x + z).collect()).collect();
    let laid_out = vertex_heights(&heights, 3);
    assert_eq!(laid_out, vec![0, 10, 20, 1, 11, 21, 2, 12, 22]);
    for z in 0..3u32 {
        for x in 0..3u32 {
            assert_eq!(laid_out[vertex_index(3, x, z) as usize], heights[x as usize][z as usize]);
        }
    }
    assert!(vertex_heights::<i32>(&vec![], 0).is_empty());
}
