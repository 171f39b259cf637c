use render_core::chunk::Chunk;
use render_core::fast_rand::FastRand;
use render_core::mesh::{ChunkMesh, Quad};

fn quad(direction: usize, layer: usize, a: usize, b: usize, w: usize, h: usize) -> Quad {
    Quad { direction, layer, a, b, w, h }
}

fn cell(axis: usize, c: usize, a: usize, b: usize) -> (usize, usize, usize) {
    match axis {
        0 => (c, a, b),
        1 => (a, c, b),
        _ => (a, b, c),
    }
}

fn layer_extent(chunk: &Chunk, axis: usize) -> (usize, usize, usize) {
    match axis {
        0 => (chunk.ny(), chunk.nz(), chunk.nx()),
        1 => (chunk.nx(), chunk.nz(), chunk.ny()),
        _ => (chunk.nx(), chunk.ny(), chunk.nz()),
    }
}

fn drawn(chunk: &Chunk, direction: usize, c: usize, a: usize, b: usize) -> bool {
    let axis = direction / 2;
    let (_, _, dc) = layer_extent(chunk, axis);
    let (x, y, z) = cell(axis, c, a, b);
    if !chunk.solid(x, y, z) {
        return false;
    }
    let to = if direction % 2 == 0 {
        if c + 1 >= dc {
            return false;
        }
        c + 1
    } else {
        if c == 0 {
            return false;
        }
        c - 1
    };
    let (x, y, z) = cell(axis, to, a, b);
    !chunk.solid(x, y, z)
}

#[test]
fn air_has_no_mesh() {
    let chunk = Chunk::new(3, 3, 3);
    assert!(chunk.greedy_quads().is_empty());
    let (vertices, indices) = chunk.build_greedy_mesh();
    assert!(vertices.is_empty());
    assert!(indices.is_empty());
    assert!(!ChunkMesh::from_chunk(&chunk).upload_to_gpu());
}

#[test]
fn solid_chunk_has_no_mesh() {
    let mut chunk = Chunk::new(2, 3, 4);
    for x in 0..2 {
        for y in 0..3 {
            for z in 0..4 {
                chunk.set(x, y, z, 1);
            }
        }
    }
    assert!(chunk.greedy_quads().is_empty());
}

#[test]
fn lone_cell_in_a_corner() {
    let mut chunk = Chunk::new(2, 2, 2);
    chunk.set(0, 0, 0, 1);
    assert_eq!(
        chunk.greedy_quads(),
        vec![quad(0, 0, 0, 0, 1, 1), quad(2, 0, 0, 0, 1, 1), quad(4, 0, 0, 0, 1, 1)]
    );
    let (vertices, indices) = chunk.build_greedy_mesh();
    assert_eq!(
        vertices,
        vec![
            1, 0, 0, 1, 0, 0, 1, 1, 0, 1, 0, 0, 1, 1, 1, 1, 0, 0, 1, 0, 1, 1, 0, 0, //
            0, 1, 0, 0, 1, 0, 0, 1, 1, 0, 1, 0, 1, 1, 1, 0, 1, 0, 1, 1, 0, 0, 1, 0, //
            0, 0, 1, 0, 0, 1, 0, 1, 1, 0, 0, 1, 1, 1, 1, 0, 0, 1, 1, 0, 1, 0, 0, 1,
        ]
    );
    assert_eq!(
        indices,
        vec![0, 1, 2, 0, 2, 3, 4, 5, 6, 4, 6, 7, 8, 9, 10, 8, 10, 11]
    );
}

#[test]
fn lone_cell_in_the_far_corner_looks_down() {
    let mut chunk = Chunk::new(2, 2, 2);
    chunk.set(1, 1, 1, 1);
    assert_eq!(
        chunk.greedy_quads(),
        vec![quad(1, 1, 1, 1, 1, 1), quad(3, 1, 1, 1, 1, 1), quad(5, 1, 1, 1, 1, 1)]
    );
    let (vertices, _) = chunk.build_greedy_mesh();
    assert_eq!(
        vertices[..24],
        [1, 1, 1, -1, 0, 0, 1, 2, 1, -1, 0, 0, 1, 2, 2, -1, 0, 0, 1, 1, 2, -1, 0, 0]
    );
    assert_eq!(vertices[24 + 3..24 + 6], [0, -1, 0]);
    assert_eq!(vertices[48..54], [1, 1, 1, 0, 0, -1]);
}

#[test]
fn faces_on_the_hull_are_not_drawn() {
    let mut chunk = Chunk::new(1, 1, 1);
    chunk.set(0, 0, 0, 1);
    assert!(chunk.greedy_quads().is_empty());
    let mut hollow = Chunk::new(4, 4, 4);
    hollow.fill_hollow_box();
    let quads = hollow.greedy_quads();
    assert_eq!(
        quads,
        vec![
            quad(0, 0, 1, 1, 2, 2),
            quad(1, 3, 1, 1, 2, 2),
            quad(2, 0, 1, 1, 2, 2),
            quad(3, 3, 1, 1, 2, 2),
            quad(4, 0, 1, 1, 2, 2),
            quad(5, 3, 1, 1, 2, 2),
        ]
    );
}

#[test]
fn a_slab_becomes_one_rectangle() {
    let mut chunk = Chunk::new(4, 4, 2);
    for x in 0..4 {
        for y in 0..4 {
            chunk.set(x, y, 0, 1);
        }
    }
    assert_eq!(chunk.greedy_quads(), vec![quad(4, 0, 0, 0, 4, 4)]);
    let mesh = ChunkMesh::from_chunk(&chunk);
    assert!(mesh.upload_to_gpu());
    assert_eq!(
        mesh.vertices,
        vec![0, 0, 1, 0, 0, 1, 0, 4, 1, 0, 0, 1, 4, 4, 1, 0, 0, 1, 4, 0, 1, 0, 0, 1]
    );
    assert_eq!(mesh.indices, vec![0, 1, 2, 0, 2, 3]);
}

#[test]
fn a_step_is_split_in_two() {
    let mut chunk = Chunk::new(3, 2, 2);
    for (x, y) in [(0, 0), (1, 0), (0, 1), (1, 1), (2, 1)] {
        chunk.set(x, y, 0, 1);
    }
    assert_eq!(
        chunk.greedy_quads(),
        vec![
            quad(0, 1, 0, 0, 1, 1),
            quad(3, 1, 2, 0, 1, 1),
            quad(4, 0, 0, 0, 2, 2),
            quad(4, 0, 2, 1, 1, 1),
        ]
    );
}

#[test]
fn a_later_rectangle_may_reach_into_an_earlier_one() {
    let mut chunk = Chunk::new(3, 2, 2);
    for (x, y) in [(1, 0), (2, 0), (0, 1), (1, 1), (2, 1)] {
        chunk.set(x, y, 0, 1);
    }
    let up: Vec<Quad> = chunk.greedy_quads().into_iter().filter(|q| q.direction == 4).collect();
    assert_eq!(up, vec![quad(4, 0, 1, 0, 2, 2), quad(4, 0, 0, 1, 3, 1)]);
}

#[test]
fn mesh_covers_the_drawn_faces_and_nothing_else() {
    let mut rng = FastRand::new(12345);
    for (nx, ny, nz) in [(5usize, 4usize, 3usize), (1, 6, 2), (7, 7, 7)] {
        let mut chunk = Chunk::new(nx, ny, nz);
        for x in 0..nx {
            for y in 0..ny {
                for z in 0..nz {
                    if rng.urand() & 0x0040_0000 != 0 {
                        chunk.set(x, y, z, 1);
                    }
                }
            }
        }
        let quads = chunk.greedy_quads();
        for q in &quads {
            assert!(q.direction < 6 && q.w >= 1 && q.h >= 1);
            let (da, db, dc) = layer_extent(&chunk, q.direction / 2);
            assert!(q.layer < dc && q.a + q.w <= da && q.b + q.h <= db);
            for a in q.a..q.a + q.w {
                for b in q.b..q.b + q.h {
                    assert!(drawn(&chunk, q.direction, q.layer, a, b));
                }
            }
        }
        let mut faces = 0;
        for direction in 0..6 {
            let (da, db, dc) = layer_extent(&chunk, direction / 2);
            for c in 0..dc {
                for a in 0..da {
                    for b in 0..db {
                        if drawn(&chunk, direction, c, a, b) {
                            faces += 1;
                            assert!(quads.iter().any(|q| q.direction == direction
                                && q.layer == c
                                && (q.a..q.a + q.w).contains(&a)
                                && (q.b..q.b + q.h).contains(&b)));
                        }
                    }
                }
            }
        }
        assert!(faces > 0);
        assert!(quads.len() <= faces);
        let (vertices, indices) = chunk.build_greedy_mesh();
        assert_eq!(vertices.len(), 24 * quads.len());
        assert_eq!(indices.len(), 6 * quads.len());
        assert!(indices.iter().all(|i| (*i as usize) < 4 * quads.len()));
        let starts: Vec<(usize, usize, usize, usize)> =
            quads.iter().map(|q| (q.direction, q.layer, q.b, q.a)).collect();
        let mut sorted = starts.clone();
        sorted.sort();
        sorted.dedup();
        assert_eq!(starts, sorted);
    }
}

#[test]
fn meshable_chunks() {
    assert!(Chunk::new(0, 0, 0).is_meshable());
    assert!(Chunk::new(7, 7, 7).is_meshable());
    assert!(Chunk::new(178_956_970, 1, 1).is_meshable());
    assert!(!Chunk::new(178_956_971, 1, 1).is_meshable());
    assert!(Chunk::new(i32::MAX as usize - 1, 0, 1).is_meshable());
    assert!(!Chunk::new(i32::MAX as usize, 0, 1).is_meshable());
    assert!(!Chunk::new(1, i32::MAX as usize, 0).is_meshable());
    assert!(!Chunk::new(0, 1, i32::MAX as usize).is_meshable());
}

#[test]
fn mesh_numbers_are_coordinates_of_the_chunk() {
    let mut chunk = Chunk::new(6, 5, 4);
    chunk.fill_hollow_box();
    chunk.set(2, 2, 2, 1);
    let quads = chunk.greedy_quads();
    let (vertices, indices) = chunk.build_greedy_mesh();
    assert!(quads.len() <= 6 * chunk.volume());
    assert_eq!(vertices.len(), 24 * quads.len());
    for (k, q) in quads.iter().enumerate() {
        let axis = q.direction / 2;
        let plane = (q.layer + (q.direction % 2 == 0) as usize) as i32;
        for corner in 0..4 {
            let at = 24 * k + 6 * corner;
            assert_eq!(vertices[at + axis], plane);
            let normal = &vertices[at + 3..at + 6];
            for (i, n) in normal.iter().enumerate() {
                let expected = if i != axis {
                    0
                } else if q.direction % 2 == 0 {
                    1
                } else {
                    -1
                };
                assert_eq!(*n, expected);
            }
            for i in 0..3 {
                let extent = [6, 5, 4][i];
                assert!((0..=extent).contains(&vertices[at + i]));
            }
        }
        let base = 4 * k as u32;
        assert_eq!(
            indices[6 * k..6 * k + 6],
            [base, base + 1, base + 2, base, base + 2, base + 3]
        );
    }
}
