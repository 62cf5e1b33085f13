use frequency::mesh::{
    grid_indices, grid_vertex_numerators, CANVAS_HEIGHT, CANVAS_WIDTH, VERTEX_DENOMINATOR,
};

#[test]
fn vertex_numerators_cover_the_grid() {
    let v = grid_vertex_numerators();
    assert_eq!(v.len(), 2 * CANVAS_HEIGHT * CANVAS_WIDTH);
    for h in 0..CANVAS_HEIGHT {
        for w in 0..CANVAS_WIDTH {
            let k = 2 * (h * CANVAS_WIDTH + w);
            assert_eq!(v[k] as usize, 2 * w + 1);
            assert_eq!(v[k + 1] as usize, 2 * h + 1);
        }
    }
}

#[test]
fn vertex_numerators_give_cell_centers() {
    let v = grid_vertex_numerators();
    // The first vertex sits half a cell in from the origin, the last half a
    // cell shy of the far corner.
    let d = VERTEX_DENOMINATOR as f32;
    assert_eq!(v[0] as f32 / d, 1.0 / 512.0);
    assert_eq!(v[1] as f32 / d, 1.0 / 512.0);
    let n = v.len();
    assert_eq!(v[n - 2] as f32 / d, 511.0 / 512.0);
    assert_eq!(v[n - 1] as f32 / d, 511.0 / 512.0);
    // The cell (h = 0, w = 1) sits one cell step further along x.
    assert_eq!(v[2] as f32 / d, 1.0 / 256.0 + 1.0 / 512.0);
}

#[test]
fn indices_list_two_triangles_per_cell() {
    let idx = grid_indices();
    assert_eq!(idx.len(), 6 * (CANVAS_HEIGHT - 1) * (CANVAS_WIDTH - 1));
    for h in 0..CANVAS_HEIGHT - 1 {
        for w in 0..CANVAS_WIDTH - 1 {
            let o = h * CANVAS_WIDTH + w;
            let o1 = (h + 1) * CANVAS_WIDTH + w;
            let k = 6 * (h * (CANVAS_WIDTH - 1) + w);
            assert_eq!(idx[k] as usize, o);
            assert_eq!(idx[k + 1] as usize, o + 1);
            assert_eq!(idx[k + 2] as usize, o1 + 1);
            assert_eq!(idx[k + 3] as usize, o);
            assert_eq!(idx[k + 4] as usize, o1);
            assert_eq!(idx[k + 5] as usize, o1 + 1);
        }
    }
}

#[test]
fn indices_stay_inside_the_vertex_buffer() {
    let idx = grid_indices();
    let vertex_count = CANVAS_HEIGHT * CANVAS_WIDTH;
    for i in idx {
        assert!((i as usize) < vertex_count);
    }
}
