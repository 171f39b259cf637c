use render_core::chunk::Chunk;

#[test]
fn new_chunk_is_air() {
    let chunk = Chunk::new(3, 4, 5);
    assert_eq!((chunk.nx(), chunk.ny(), chunk.nz()), (3, 4, 5));
    for x in 0..3 {
        for y in 0..4 {
            for z in 0..5 {
                assert_eq!(chunk.get(x, y, z), 0);
                assert!(!chunk.solid(x, y, z));
            }
        }
    }
}

#[test]
fn empty_chunk_has_no_cells() {
    let mut chunk = Chunk::new(0, 4, 5);
    chunk.fill_hollow_box();
    chunk.fill_sphere();
    assert_eq!(chunk.nx(), 0);
}

#[test]
fn set_changes_one_cell() {
    let mut chunk = Chunk::new(3, 4, 5);
    chunk.set(1, 2, 3, 9);
    chunk.set(2, 3, 4, 7);
    for x in 0..3 {
        for y in 0..4 {
            for z in 0..5 {
                let expected = match (x, y, z) {
                    (1, 2, 3) => 9,
                    (2, 3, 4) => 7,
                    _ => 0,
                };
                assert_eq!(chunk.get(x, y, z), expected);
                assert_eq!(chunk.solid(x, y, z), expected != 0);
            }
        }
    }
    chunk.set(1, 2, 3, 0);
    assert_eq!(chunk.get(1, 2, 3), 0);
}

#[test]
fn cells_are_stored_x_fastest() {
    let mut chunk = Chunk::new(3, 4, 5);
    chunk.set(3, 0, 0, 5);
    assert_eq!(chunk.get(0, 1, 0), 5);
    chunk.set(0, 4, 0, 6);
    assert_eq!(chunk.get(0, 0, 1), 6);
}

#[test]
fn hollow_box_fills_the_faces_only() {
    let mut chunk = Chunk::new(4, 5, 6);
    chunk.set(1, 1, 1, 42);
    chunk.set(0, 0, 0, 42);
    chunk.fill_hollow_box();
    for x in 0..4 {
        for y in 0..5 {
            for z in 0..6 {
                let boundary = x == 0 || x == 3 || y == 0 || y == 4 || z == 0 || z == 5;
                let expected = if boundary {
                    1
                } else if (x, y, z) == (1, 1, 1) {
                    42
                } else {
                    0
                };
                assert_eq!(chunk.get(x, y, z), expected);
            }
        }
    }
}

#[test]
fn thin_box_is_all_boundary() {
    let mut chunk = Chunk::new(1, 3, 3);
    chunk.fill_hollow_box();
    for y in 0..3 {
        for z in 0..3 {
            assert_eq!(chunk.get(0, y, z), 1);
        }
    }
}

#[test]
fn sphere_in_a_cube_of_five() {
    let mut chunk = Chunk::new(5, 5, 5);
    chunk.set(0, 0, 0, 3);
    chunk.fill_sphere();
    let mut filled = 0;
    for x in 0..5usize {
        for y in 0..5usize {
            for z in 0..5usize {
                let d = |v: usize| (v as i32 - 2) * (v as i32 - 2);
                let inside = 100 * (d(x) + d(y) + d(z)) <= 81 * 4;
                let expected = if inside {
                    1
                } else if (x, y, z) == (0, 0, 0) {
                    3
                } else {
                    0
                };
                assert_eq!(chunk.get(x, y, z), expected);
                filled += inside as u32;
            }
        }
    }
    assert_eq!(filled, 27);
    assert_eq!(chunk.get(2, 2, 2), 1);
    assert_eq!(chunk.get(2, 2, 3), 1);
    assert_eq!(chunk.get(2, 2, 4), 0);
    assert_eq!(chunk.get(1, 1, 1), 1);
    assert_eq!(chunk.get(3, 3, 1), 1);
    assert_eq!(chunk.get(0, 2, 2), 0);
}

#[test]
fn sphere_matches_the_distance_in_floating_point() {
    for (nx, ny, nz) in [(8usize, 8usize, 8usize), (7, 9, 12), (21, 21, 21), (1, 1, 1), (2, 6, 3)] {
        let mut chunk = Chunk::new(nx, ny, nz);
        chunk.fill_sphere();
        let cx = (nx as f64 - 1.0) * 0.5;
        let cy = (ny as f64 - 1.0) * 0.5;
        let cz = (nz as f64 - 1.0) * 0.5;
        let r = cx.min(cy).min(cz) * 0.9;
        for x in 0..nx {
            for y in 0..ny {
                for z in 0..nz {
                    let dx = x as f64 - cx;
                    let dy = y as f64 - cy;
                    let dz = z as f64 - cz;
                    let d2 = dx * dx + dy * dy + dz * dz;
                    if (d2 - r * r).abs() > 1e-9 {
                        assert_eq!(chunk.solid(x, y, z), d2 <= r * r);
                    }
                }
            }
        }
    }
}

#[test]
fn sphere_boundary_cell_is_inside() {
    let mut chunk = Chunk::new(21, 21, 21);
    chunk.fill_sphere();
    assert!(chunk.solid(19, 10, 10));
    assert!(chunk.solid(1, 10, 10));
    assert!(!chunk.solid(20, 10, 10));
    assert!(chunk.solid(11, 14, 18));
    assert!(chunk.solid(16, 16, 13));
    assert!(!chunk.solid(11, 14, 19));
    assert!(!chunk.solid(14, 14, 18));
}
