//! Voxel chunk: a box of cells, each air (0) or solid (anything else).

use vstd::prelude::*;

verus! {

/// Position of cell `(x, y, z)` in the storage of a chunk that is `nx`
/// wide and `ny` deep: x runs fastest, z slowest.
pub open spec fn linear(nx: int, ny: int, x: int, y: int, z: int) -> int {
    x + y * nx + z * nx * ny
}

/// In a box of `nx` by `ny` by `nz`, every cell has a position of its own
/// within the storage.
pub proof fn lemma_linear_in_range(nx: int, ny: int, nz: int, x: int, y: int, z: int)
    requires
        0 <= x < nx,
        0 <= y < ny,
        0 <= z < nz,
    ensures
        0 <= linear(nx, ny, x, y, z) < nx * ny * nz,
        0 <= y * nx <= linear(nx, ny, x, y, z),
        0 <= z * nx <= z * nx * ny <= linear(nx, ny, x, y, z),
{
    assert(0 <= y * nx && y * nx + nx <= ny * nx) by (nonlinear_arith)
        requires
            0 <= y < ny,
            0 < nx,
    ;
    assert(0 <= z * nx <= z * nx * ny && z * nx * ny + nx * ny <= nx * ny * nz)
        by (nonlinear_arith)
        requires
            0 <= z < nz,
            0 < nx,
            0 < ny,
    ;
    assert(ny * nx == nx * ny) by (nonlinear_arith);
}

/// Two cells of a box that share a position are the same cell.
pub proof fn lemma_linear_unique(
    nx: int,
    ny: int,
    x: int,
    y: int,
    z: int,
    x2: int,
    y2: int,
    z2: int,
)
    requires
        0 <= x < nx,
        0 <= y < ny,
        0 <= x2 < nx,
        0 <= y2 < ny,
        0 <= z,
        0 <= z2,
        linear(nx, ny, x, y, z) == linear(nx, ny, x2, y2, z2),
    ensures
        x == x2 && y == y2 && z == z2,
{
    let row = y + z * ny;
    let row2 = y2 + z2 * ny;
    assert(linear(nx, ny, x, y, z) == x + row * nx) by (nonlinear_arith)
        requires
            row == y + z * ny,
    ;
    assert(linear(nx, ny, x2, y2, z2) == x2 + row2 * nx) by (nonlinear_arith)
        requires
            row2 == y2 + z2 * ny,
    ;
    assert(row == row2 && x == x2) by (nonlinear_arith)
        requires
            x + row * nx == x2 + row2 * nx,
            0 <= x < nx,
            0 <= x2 < nx,
    ;
    assert(z == z2 && y == y2) by (nonlinear_arith)
        requires
            y + z * ny == y2 + z2 * ny,
            0 <= y < ny,
            0 <= y2 < ny,
    ;
}

/// Twice the signed distance of cell `i` from the middle of an axis with
/// `n` cells.
pub open spec fn from_middle(n: int, i: int) -> int {
    2 * i - (n - 1)
}

/// One less than the least of the three extents: twice the distance from
/// the middle of the shortest axis to its end.
pub open spec fn least_span(nx: int, ny: int, nz: int) -> int {
    let m = if nx <= ny && nx <= nz {
        nx
    } else if ny <= nz {
        ny
    } else {
        nz
    };
    m - 1
}

/// Whether cell `(x, y, z)` lies in the ball around the middle of the box
/// whose radius is nine tenths of half the least span.
pub open spec fn in_ball(nx: int, ny: int, nz: int, x: int, y: int, z: int) -> bool {
    let dx = from_middle(nx, x);
    let dy = from_middle(ny, y);
    let dz = from_middle(nz, z);
    let m = least_span(nx, ny, nz);
    100 * (dx * dx + dy * dy + dz * dz) <= 81 * (m * m)
}

/// Whether cell `(x, y, z)` lies on a face of the box.
pub open spec fn on_boundary(nx: int, ny: int, nz: int, x: int, y: int, z: int) -> bool {
    x == 0 || x == nx - 1 || y == 0 || y == ny - 1 || z == 0 || z == nz - 1
}

/// Whether `(a, b, c)` comes before `(x, y, z)` when the cells are walked
/// with x outermost and z innermost.
pub open spec fn walked(a: int, b: int, c: int, x: int, y: int, z: int) -> bool {
    a < x || (a == x && (b < y || (b == y && c < z)))
}

/// 3D grid of voxels. 0 is air, anything else is solid.
#[derive(Debug)]
pub struct Chunk {
    nx: usize,
    ny: usize,
    nz: usize,
    data: Vec<u8>,
}

impl View for Chunk {
    type V = Seq<u8>;

    /// The cells in storage order.
    closed spec fn view(&self) -> Seq<u8> {
        self.data@
    }
}

impl Chunk {
    #[verifier::type_invariant]
    spec fn inv(self) -> bool {
        self.data@.len() == self.nx * self.ny * self.nz
    }

    /// The extents along x, y and z.
    pub closed spec fn dims(self) -> (usize, usize, usize) {
        (self.nx, self.ny, self.nz)
    }

    /// Whether `(x, y, z)` is a cell of the chunk.
    pub open spec fn contains(self, x: int, y: int, z: int) -> bool {
        0 <= x < self.dims().0 && 0 <= y < self.dims().1 && 0 <= z < self.dims().2
    }

    /// Position of `(x, y, z)` in storage.
    pub open spec fn index_of(self, x: int, y: int, z: int) -> int {
        linear(self.dims().0 as int, self.dims().1 as int, x, y, z)
    }

    /// The value of cell `(x, y, z)`.
    pub open spec fn cell(self, x: int, y: int, z: int) -> u8 {
        self@[self.index_of(x, y, z)]
    }

    /// Whether the chunk has the shape its extents call for. Holds of
    /// every chunk.
    pub open spec fn well_formed(self) -> bool {
        self@.len() == self.dims().0 * self.dims().1 * self.dims().2
    }

    /// A chunk of the given extents, all air.
    pub fn new(nx: usize, ny: usize, nz: usize) -> (chunk: Self)
        requires
            nx * ny <= usize::MAX,
            nx * ny * nz <= usize::MAX,
        ensures
            chunk.dims() == (nx, ny, nz),
            chunk.well_formed(),
            forall|i: int| 0 <= i < chunk@.len() ==> chunk@[i] == 0,
    {
        Chunk { nx, ny, nz, data: vec![0u8; nx * ny * nz] }
    }

    /// Extent along x.
    pub fn nx(&self) -> (n: usize)
        ensures
            n == self.dims().0,
            self.well_formed(),
    {
        proof {
            use_type_invariant(self);
        }
        self.nx
    }

    /// Extent along y.
    pub fn ny(&self) -> (n: usize)
        ensures
            n == self.dims().1,
            self.well_formed(),
    {
        proof {
            use_type_invariant(self);
        }
        self.ny
    }

    /// Extent along z.
    pub fn nz(&self) -> (n: usize)
        ensures
            n == self.dims().2,
            self.well_formed(),
    {
        proof {
            use_type_invariant(self);
        }
        self.nz
    }

    /// Number of cells.
    pub fn volume(&self) -> (n: usize)
        ensures
            n == self@.len(),
            n == self.dims().0 * self.dims().1 * self.dims().2,
            self.well_formed(),
    {
        proof {
            use_type_invariant(self);
        }
        self.data.len()
    }

    proof fn lemma_position_fits(self, x: int, y: int, z: int)
        requires
            self.well_formed(),
            0 <= x,
            0 <= y,
            0 <= z,
            self.index_of(x, y, z) < self@.len(),
        ensures
            0 <= y * self.dims().0 <= self.index_of(x, y, z),
            0 <= z * self.dims().0 <= z * self.dims().0 * self.dims().1 <= self.index_of(x, y, z),
    {
        let nx = self.dims().0 as int;
        let ny = self.dims().1 as int;
        let nz = self.dims().2 as int;
        assert(0 <= y * nx && 0 <= z * nx && 0 <= z * nx * ny) by (nonlinear_arith)
            requires
                0 <= y,
                0 <= z,
                0 <= nx,
                0 <= ny,
        ;
        assert(ny > 0) by (nonlinear_arith)
            requires
                nx * ny * nz > 0,
                0 <= ny,
        ;
        assert(z * nx <= z * nx * ny) by (nonlinear_arith)
            requires
                0 <= z * nx,
                ny > 0,
        ;
    }

    fn index(&self, x: usize, y: usize, z: usize) -> (i: usize)
        requires
            self.index_of(x as int, y as int, z as int) < self@.len(),
        ensures
            i == self.index_of(x as int, y as int, z as int),
    {
        let len = self.data.len();
        proof {
            use_type_invariant(self);
            self.lemma_position_fits(x as int, y as int, z as int);
            assert(self.index_of(x as int, y as int, z as int) < len);
        }
        x + y * self.nx + z * self.nx * self.ny
    }

    /// The value of cell `(x, y, z)`.
    ///
    /// The position computed from the three coordinates has to lie within
    /// the storage; every cell of the chunk meets that.
    pub fn get(&self, x: usize, y: usize, z: usize) -> (v: u8)
        requires
            self.index_of(x as int, y as int, z as int) < self@.len(),
        ensures
            v == self.cell(x as int, y as int, z as int),
    {
        let i = self.index(x, y, z);
        self.data[i]
    }

    /// Sets cell `(x, y, z)` to `v` and leaves every other position as it is.
    pub fn set(&mut self, x: usize, y: usize, z: usize, v: u8)
        requires
            old(self).index_of(x as int, y as int, z as int) < old(self)@.len(),
        ensures
            final(self).dims() == old(self).dims(),
            final(self)@ == old(self)@.update(old(self).index_of(x as int, y as int, z as int), v),
    {
        proof {
            use_type_invariant(&*self);
        }
        let i = self.index(x, y, z);
        self.data[i] = v;
    }

    /// Whether cell `(x, y, z)` is solid.
    pub fn solid(&self, x: usize, y: usize, z: usize) -> (s: bool)
        requires
            self.index_of(x as int, y as int, z as int) < self@.len(),
        ensures
            s == (self.cell(x as int, y as int, z as int) != 0),
    {
        self.get(x, y, z) != 0
    }

    /// Every cell of the chunk has a position within the storage.
    pub proof fn lemma_cell_in_storage(self, x: int, y: int, z: int)
        requires
            self.well_formed(),
            self.contains(x, y, z),
        ensures
            0 <= self.index_of(x, y, z) < self@.len(),
    {
        lemma_linear_in_range(
            self.dims().0 as int,
            self.dims().1 as int,
            self.dims().2 as int,
            x,
            y,
            z,
        );
    }

    /// Fills the faces of the box with 1 and leaves the inside as it is.
    pub fn fill_hollow_box(&mut self)
        ensures
            final(self).dims() == old(self).dims(),
            final(self)@.len() == old(self)@.len(),
            forall|x: int, y: int, z: int|
                old(self).contains(x, y, z) ==> #[trigger] final(self).cell(x, y, z) == if on_boundary(
                    old(self).dims().0 as int,
                    old(self).dims().1 as int,
                    old(self).dims().2 as int,
                    x,
                    y,
                    z,
                ) {
                    1u8
                } else {
                    old(self).cell(x, y, z)
                },
    {
        proof {
            use_type_invariant(&*self);
        }
        let nx = self.nx;
        let ny = self.ny;
        let nz = self.nz;
        let mut x: usize = 0;
        while x < nx
            invariant
                x <= nx,
                self.dims() == (nx, ny, nz),
                old(self).dims() == (nx, ny, nz),
                self.well_formed(),
                old(self).well_formed(),
                forall|a: int, b: int, c: int|
                    old(self).contains(a, b, c) ==> #[trigger] self.cell(a, b, c) == if walked(
                        a,
                        b,
                        c,
                        x as int,
                        0,
                        0,
                    ) && on_boundary(nx as int, ny as int, nz as int, a, b, c) {
                        1u8
                    } else {
                        old(self).cell(a, b, c)
                    },
            decreases nx - x,
        {
            let mut y: usize = 0;
            while y < ny
                invariant
                    x < nx,
                    y <= ny,
                    self.dims() == (nx, ny, nz),
                    old(self).dims() == (nx, ny, nz),
                    self.well_formed(),
                    old(self).well_formed(),
                    forall|a: int, b: int, c: int|
                        old(self).contains(a, b, c) ==> #[trigger] self.cell(a, b, c) == if walked(
                            a,
                            b,
                            c,
                            x as int,
                            y as int,
                            0,
                        ) && on_boundary(nx as int, ny as int, nz as int, a, b, c) {
                            1u8
                        } else {
                            old(self).cell(a, b, c)
                        },
                decreases ny - y,
            {
                let mut z: usize = 0;
                while z < nz
                    invariant
                        x < nx,
                        y < ny,
                        z <= nz,
                        self.dims() == (nx, ny, nz),
                        old(self).dims() == (nx, ny, nz),
                        self.well_formed(),
                        old(self).well_formed(),
                        forall|a: int, b: int, c: int|
                            old(self).contains(a, b, c) ==> #[trigger] self.cell(a, b, c)
                                == if walked(a, b, c, x as int, y as int, z as int) && on_boundary(
                                nx as int,
                                ny as int,
                                nz as int,
                                a,
                                b,
                                c,
                            ) {
                                1u8
                            } else {
                                old(self).cell(a, b, c)
                            },
                    decreases nz - z,
                {
                    let boundary = x == 0 || x == nx - 1 || y == 0 || y == ny - 1 || z == 0 || z
                        == nz - 1;
                    if boundary {
                        let ghost before = *self;
                        proof {
                            self.lemma_cell_in_storage(x as int, y as int, z as int);
                        }
                        self.set(x, y, z, 1);
                        proof {
                            assert forall|a: int, b: int, c: int|
                                old(self).contains(a, b, c) implies #[trigger] self.cell(a, b, c)
                                == if a == x && b == y && c == z {
                                1u8
                            } else {
                                before.cell(a, b, c)
                            } by {
                                before.lemma_cell_in_storage(a, b, c);
                                if !(a == x && b == y && c == z) {
                                    if before.index_of(a, b, c) == before.index_of(
                                        x as int,
                                        y as int,
                                        z as int,
                                    ) {
                                        lemma_linear_unique(
                                            nx as int,
                                            ny as int,
                                            a,
                                            b,
                                            c,
                                            x as int,
                                            y as int,
                                            z as int,
                                        );
                                    }
                                }
                            }
                        }
                    }
                    z = z + 1;
                }
                y = y + 1;
            }
            x = x + 1;
        }
    }

    /// Fills a ball around the middle of the box with 1 and leaves the
    /// rest as it is. The radius is nine tenths of the distance from the
    /// middle of the shortest axis to the middle of its last cell; a cell
    /// belongs to the ball where its middle is no further from the middle
    /// of the box than that.
    pub fn fill_sphere(&mut self)
        ensures
            final(self).dims() == old(self).dims(),
            final(self)@.len() == old(self)@.len(),
            forall|x: int, y: int, z: int|
                old(self).contains(x, y, z) ==> #[trigger] final(self).cell(x, y, z) == if in_ball(
                    old(self).dims().0 as int,
                    old(self).dims().1 as int,
                    old(self).dims().2 as int,
                    x,
                    y,
                    z,
                ) {
                    1u8
                } else {
                    old(self).cell(x, y, z)
                },
    {
        proof {
            use_type_invariant(&*self);
        }
        let nx = self.nx;
        let ny = self.ny;
        let nz = self.nz;
        if nx == 0 || ny == 0 || nz == 0 {
            return ;
        }
        let least = if nx <= ny && nx <= nz {
            nx
        } else if ny <= nz {
            ny
        } else {
            nz
        };
        let span: usize = least - 1;
        let len = self.data.len();
        proof {
            assert(nx * ny * nz == len);
            lemma_span_is_small(nx as int, ny as int, nz as int);
        }
        let limit: u64 = 81 * ((span as u64) * (span as u64));
        let mut x: usize = 0;
        while x < nx
            invariant
                x <= nx,
                0 < nx && 0 < ny && 0 < nz,
                span == least_span(nx as int, ny as int, nz as int),
                span < 0x40_0000,
                limit == 81 * (span * span),
                self.dims() == (nx, ny, nz),
                old(self).dims() == (nx, ny, nz),
                self.well_formed(),
                old(self).well_formed(),
                forall|a: int, b: int, c: int|
                    old(self).contains(a, b, c) ==> #[trigger] self.cell(a, b, c) == if walked(
                        a,
                        b,
                        c,
                        x as int,
                        0,
                        0,
                    ) && in_ball(nx as int, ny as int, nz as int, a, b, c) {
                        1u8
                    } else {
                        old(self).cell(a, b, c)
                    },
            decreases nx - x,
        {
            let mut y: usize = 0;
            while y < ny
                invariant
                    x < nx,
                    y <= ny,
                    0 < nx && 0 < ny && 0 < nz,
                    span == least_span(nx as int, ny as int, nz as int),
                    span < 0x40_0000,
                    limit == 81 * (span * span),
                    self.dims() == (nx, ny, nz),
                    old(self).dims() == (nx, ny, nz),
                    self.well_formed(),
                    old(self).well_formed(),
                    forall|a: int, b: int, c: int|
                        old(self).contains(a, b, c) ==> #[trigger] self.cell(a, b, c) == if walked(
                            a,
                            b,
                            c,
                            x as int,
                            y as int,
                            0,
                        ) && in_ball(nx as int, ny as int, nz as int, a, b, c) {
                            1u8
                        } else {
                            old(self).cell(a, b, c)
                        },
                decreases ny - y,
            {
                let mut z: usize = 0;
                while z < nz
                    invariant
                        x < nx,
                        y < ny,
                        z <= nz,
                        0 < nx && 0 < ny && 0 < nz,
                        span == least_span(nx as int, ny as int, nz as int),
                        span < 0x40_0000,
                        limit == 81 * (span * span),
                        self.dims() == (nx, ny, nz),
                        old(self).dims() == (nx, ny, nz),
                        self.well_formed(),
                        old(self).well_formed(),
                        forall|a: int, b: int, c: int|
                            old(self).contains(a, b, c) ==> #[trigger] self.cell(a, b, c)
                                == if walked(a, b, c, x as int, y as int, z as int) && in_ball(
                                nx as int,
                                ny as int,
                                nz as int,
                                a,
                                b,
                                c,
                            ) {
                                1u8
                            } else {
                                old(self).cell(a, b, c)
                            },
                    decreases nz - z,
                {
                    let dx = spread(nx, x);
                    let dy = spread(ny, y);
                    let dz = spread(nz, z);
                    let inside = if dx > span || dy > span || dz > span {
                        proof {
                            lemma_far_cell_is_outside(
                                from_middle(nx as int, x as int),
                                from_middle(ny as int, y as int),
                                from_middle(nz as int, z as int),
                                span as int,
                            );
                        }
                        false
                    } else {
                        let dx = dx as u64;
                        let dy = dy as u64;
                        let dz = dz as u64;
                        assert(dx * dx <= 0x1000_0000_0000 && dy * dy <= 0x1000_0000_0000 && dz
                            * dz <= 0x1000_0000_0000) by (nonlinear_arith)
                            requires
                                dx < 0x40_0000,
                                dy < 0x40_0000,
                                dz < 0x40_0000,
                        ;
                        assert(dx * dx == from_middle(nx as int, x as int) * from_middle(
                            nx as int,
                            x as int,
                        )) by (nonlinear_arith)
                            requires
                                dx == from_middle(nx as int, x as int) || dx == -from_middle(
                                    nx as int,
                                    x as int,
                                ),
                        ;
                        assert(dy * dy == from_middle(ny as int, y as int) * from_middle(
                            ny as int,
                            y as int,
                        )) by (nonlinear_arith)
                            requires
                                dy == from_middle(ny as int, y as int) || dy == -from_middle(
                                    ny as int,
                                    y as int,
                                ),
                        ;
                        assert(dz * dz == from_middle(nz as int, z as int) * from_middle(
                            nz as int,
                            z as int,
                        )) by (nonlinear_arith)
                            requires
                                dz == from_middle(nz as int, z as int) || dz == -from_middle(
                                    nz as int,
                                    z as int,
                                ),
                        ;
                        100 * (dx * dx + dy * dy + dz * dz) <= limit
                    };
                    assert(inside == in_ball(
                        nx as int,
                        ny as int,
                        nz as int,
                        x as int,
                        y as int,
                        z as int,
                    ));
                    if inside {
                        let ghost before = *self;
                        proof {
                            self.lemma_cell_in_storage(x as int, y as int, z as int);
                        }
                        self.set(x, y, z, 1);
                        proof {
                            assert forall|a: int, b: int, c: int|
                                old(self).contains(a, b, c) implies #[trigger] self.cell(a, b, c)
                                == if a == x && b == y && c == z {
                                1u8
                            } else {
                                before.cell(a, b, c)
                            } by {
                                before.lemma_cell_in_storage(a, b, c);
                                if !(a == x && b == y && c == z) {
                                    if before.index_of(a, b, c) == before.index_of(
                                        x as int,
                                        y as int,
                                        z as int,
                                    ) {
                                        lemma_linear_unique(
                                            nx as int,
                                            ny as int,
                                            a,
                                            b,
                                            c,
                                            x as int,
                                            y as int,
                                            z as int,
                                        );
                                    }
                                }
                            }
                        }
                    }
                    z = z + 1;
                }
                y = y + 1;
            }
            x = x + 1;
        }
    }
}

/// Magnitude of twice the distance of cell `i` from the middle of an axis
/// with `n` cells.
fn spread(n: usize, i: usize) -> (d: usize)
    requires
        i < n,
    ensures
        d == from_middle(n as int, i as int) || d == -from_middle(n as int, i as int),
        d >= 0,
{
    let after: usize = n - 1 - i;
    if i >= after {
        i - after
    } else {
        after - i
    }
}

proof fn lemma_span_is_small(nx: int, ny: int, nz: int)
    requires
        0 < nx,
        0 < ny,
        0 < nz,
        nx * ny * nz <= usize::MAX,
    ensures
        0 <= least_span(nx, ny, nz) < 0x40_0000,
        81 * (least_span(nx, ny, nz) * least_span(nx, ny, nz)) <= 0x8_0000_0000_0000,
{
    let m = least_span(nx, ny, nz) + 1;
    assert(0 < m * m <= nx * ny) by (nonlinear_arith)
        requires
            0 < m <= nx,
            m <= ny,
    ;
    assert(m * m * m <= nx * ny * nz) by (nonlinear_arith)
        requires
            0 < m <= nz,
            0 < m * m <= nx * ny,
    ;
    if m >= 0x40_0000 {
        assert(m * m >= 0x1000_0000_0000) by (nonlinear_arith)
            requires
                m >= 0x40_0000,
        ;
        assert(m * m * m >= 0x4_0000_0000_0000_0000) by (nonlinear_arith)
            requires
                m >= 0x40_0000,
                m * m >= 0x1000_0000_0000,
        ;
    }
    assert(81 * ((m - 1) * (m - 1)) <= 0x8_0000_0000_0000) by (nonlinear_arith)
        requires
            0 < m < 0x40_0000,
    ;
}

proof fn lemma_far_cell_is_outside(dx: int, dy: int, dz: int, span: int)
    requires
        0 <= span,
        dx > span || -dx > span || dy > span || -dy > span || dz > span || -dz > span,
    ensures
        !(100 * (dx * dx + dy * dy + dz * dz) <= 81 * (span * span)),
{
    assert(dx * dx >= 0 && dy * dy >= 0 && dz * dz >= 0) by (nonlinear_arith);
    if dx > span || -dx > span {
        assert(dx * dx > span * span) by (nonlinear_arith)
            requires
                0 <= span,
                dx > span || -dx > span,
        ;
    } else if dy > span || -dy > span {
        assert(dy * dy > span * span) by (nonlinear_arith)
            requires
                0 <= span,
                dy > span || -dy > span,
        ;
    } else {
        assert(dz * dz > span * span) by (nonlinear_arith)
            requires
                0 <= span,
                dz > span || -dz > span,
        ;
    }
    assert(span * span >= 0) by (nonlinear_arith);
}

} // verus!
