//! Greedy meshing of a chunk: only faces between a solid cell and an air
//! cell are drawn, and faces that lie side by side in a layer are merged
//! into rectangles.

use vstd::prelude::*;
use vstd::arithmetic::div_mod::{lemma_fundamental_div_mod, lemma_fundamental_div_mod_converse};
use crate::chunk::Chunk;

verus! {

/// A rectangle of merged faces.
///
/// `direction` counts +x, -x, +y, -y, +z, -z from 0. `layer` is the
/// position along the axis of the direction; `a`, `b` is the corner of the
/// rectangle within the layer and `w`, `h` its extent.
#[derive(Clone, Copy, Debug, PartialEq, Eq, Structural)]
pub struct Quad {
    pub direction: usize,
    pub layer: usize,
    pub a: usize,
    pub b: usize,
    pub w: usize,
    pub h: usize,
}

/// Position of `(a, b)` in a layer that is `da` wide: a runs fastest.
pub open spec fn flat(da: int, a: int, b: int) -> int {
    a + b * da
}

/// In a layer of `da` by `db`, position and coordinates determine each other.
pub proof fn lemma_flat(da: int, db: int, a: int, b: int)
    requires
        0 <= a < da,
        0 <= b < db,
    ensures
        0 <= flat(da, a, b) < da * db,
        0 <= b * da,
        b * da + da <= da * db,
        flat(da, a, b) % da == a,
        flat(da, a, b) / da == b,
{
    assert(0 <= b * da && b * da + da <= da * db) by (nonlinear_arith)
        requires
            0 <= b < db,
            0 < da,
    ;
    lemma_fundamental_div_mod_converse(flat(da, a, b), da, b, a);
}

/// Every position of a layer of `da` by `db` has coordinates within it.
pub proof fn lemma_unflat(da: int, db: int, i: int)
    requires
        0 < da,
        0 <= i < da * db,
    ensures
        0 <= i % da < da,
        0 <= i / da < db,
        flat(da, i % da, i / da) == i,
{
    lemma_fundamental_div_mod(i, da);
    let q = i / da;
    let r = i % da;
    assert(0 <= r < da);
    assert(i == da * q + r);
    assert(da * q == q * da) by (nonlinear_arith);
    assert(0 <= q < db) by (nonlinear_arith)
        requires
            0 <= q * da + r < da * db,
            0 <= r < da,
            0 < da,
    ;
}

/// Number of faces in a row from `(a, b)` on, up to the first gap or the
/// end of the row.
pub open spec fn run_width(mask: Seq<bool>, da: int, a: int, b: int) -> int
    decreases da - a,
{
    if 0 <= a < da && mask[flat(da, a, b)] {
        1 + run_width(mask, da, a + 1, b)
    } else {
        0
    }
}

/// A run is never of negative length.
pub proof fn lemma_run_width_nonnegative(mask: Seq<bool>, da: int, a: int, b: int)
    ensures
        run_width(mask, da, a, b) >= 0,
    decreases da - a,
{
    if 0 <= a < da && mask[flat(da, a, b)] {
        lemma_run_width_nonnegative(mask, da, a + 1, b);
    }
}

/// Whether row `b` has a face in each of the `w` columns from `a` on.
pub open spec fn row_full(mask: Seq<bool>, da: int, a: int, w: int, b: int) -> bool {
    forall|p: int| a <= p < a + w ==> #[trigger] mask[flat(da, p, b)]
}

/// Number of rows from `b` on that have a face in each of the `w` columns
/// from `a` on, up to the first row that has a gap or the end of the layer.
pub open spec fn run_height(mask: Seq<bool>, da: int, db: int, a: int, w: int, b: int) -> int
    decreases db - b,
{
    if 0 <= b < db && row_full(mask, da, a, w, b) {
        1 + run_height(mask, da, db, a, w, b + 1)
    } else {
        0
    }
}

/// A run is never of negative length.
pub proof fn lemma_run_height_nonnegative(
    mask: Seq<bool>,
    da: int,
    db: int,
    a: int,
    w: int,
    b: int,
)
    ensures
        run_height(mask, da, db, a, w, b) >= 0,
    decreases db - b,
{
    if 0 <= b < db && row_full(mask, da, a, w, b) {
        lemma_run_height_nonnegative(mask, da, db, a, w, b + 1);
    }
}

/// Whether position `i` of a layer lies in the rectangle at `(a, b)` of
/// `w` by `h`.
pub open spec fn in_rect(da: int, i: int, a: int, b: int, w: int, h: int) -> bool {
    a <= i % da < a + w && b <= i / da < b + h
}

/// The positions taken so far, with those of the rectangle added.
pub open spec fn marked(used: Seq<bool>, da: int, a: int, b: int, w: int, h: int) -> Seq<bool> {
    Seq::new(used.len(), |i: int| used[i] || in_rect(da, i, a, b, w, h))
}

/// The rectangle that starts at position `pos` of the layer: as wide as
/// the row of faces allows, then as high as rows of that width allow.
pub open spec fn quad_at(
    mask: Seq<bool>,
    da: int,
    db: int,
    pos: int,
    direction: usize,
    layer: usize,
) -> Quad {
    let a = pos % da;
    let b = pos / da;
    let w = run_width(mask, da, a, b);
    let h = run_height(mask, da, db, a, w, b);
    Quad { direction, layer, a: a as usize, b: b as usize, w: w as usize, h: h as usize }
}

/// The rectangles that a walk over the layer from position `pos` on
/// yields, row by row: at every face that no rectangle has taken yet a
/// new rectangle starts and takes all positions it covers.
pub open spec fn scan(
    mask: Seq<bool>,
    used: Seq<bool>,
    da: int,
    db: int,
    pos: int,
    direction: usize,
    layer: usize,
) -> Seq<Quad>
    decreases da * db - pos,
{
    if pos < 0 || pos >= da * db {
        seq![]
    } else if mask[pos] && !used[pos] {
        let q = quad_at(mask, da, db, pos, direction, layer);
        seq![q] + scan(
            mask,
            marked(used, da, q.a as int, q.b as int, q.w as int, q.h as int),
            da,
            db,
            pos + 1,
            direction,
            layer,
        )
    } else {
        scan(mask, used, da, db, pos + 1, direction, layer)
    }
}

/// The rectangles of a whole layer.
pub open spec fn layer_quads(mask: Seq<bool>, da: int, db: int, direction: usize, layer: usize) -> Seq<
    Quad,
> {
    scan(mask, Seq::new(mask.len(), |i: int| false), da, db, 0, direction, layer)
}

fn measure_width(mask: &Vec<bool>, da: usize, db: usize, a: usize, b: usize) -> (w: usize)
    requires
        mask@.len() == da * db,
        a < da,
        b < db,
    ensures
        w == run_width(mask@, da as int, a as int, b as int),
        a + w <= da,
        forall|p: int| a <= p < a + w ==> #[trigger] mask@[flat(da as int, p, b as int)],
{
    let mut w: usize = 0;
    let total = mask.len();
    proof {
        lemma_flat(da as int, db as int, a as int, b as int);
    }
    let row: usize = b * da;
    loop
        invariant_except_break
            mask@.len() == da * db,
            a < da,
            b < db,
            a + w <= da,
            row == b * da,
            row + da <= da * db,
            total == mask@.len(),
            run_width(mask@, da as int, a as int, b as int) == w + run_width(
                mask@,
                da as int,
                a + w,
                b as int,
            ),
            forall|p: int| a <= p < a + w ==> #[trigger] mask@[flat(da as int, p, b as int)],
        ensures
            a + w <= da,
            w == run_width(mask@, da as int, a as int, b as int),
            forall|p: int| a <= p < a + w ==> #[trigger] mask@[flat(da as int, p, b as int)],
        decreases da - (a + w),
    {
        if !(a + w < da) {
            break ;
        }
        if !mask[a + w + row] {
            break ;
        }
        proof {
            lemma_run_width_nonnegative(mask@, da as int, a + w + 1, b as int);
        }
        w = w + 1;
    }
    w
}

fn row_is_full(mask: &Vec<bool>, da: usize, db: usize, a: usize, w: usize, b: usize) -> (full: bool)
    requires
        mask@.len() == da * db,
        a + w <= da,
        b < db,
    ensures
        full == row_full(mask@, da as int, a as int, w as int, b as int),
{
    if w == 0 {
        return true;
    }
    let total = mask.len();
    proof {
        lemma_flat(da as int, db as int, a as int, b as int);
    }
    let row: usize = b * da;
    let mut k: usize = 0;
    while k < w
        invariant
            mask@.len() == da * db,
            a + w <= da,
            b < db,
            k <= w,
            row == b * da,
            row + da <= da * db,
            total == mask@.len(),
            forall|p: int| a <= p < a + k ==> #[trigger] mask@[flat(da as int, p, b as int)],
        decreases w - k,
    {
        if !mask[a + k + row] {
            assert(!mask@[flat(da as int, a + k, b as int)]);
            return false;
        }
        k = k + 1;
    }
    true
}

fn measure_height(mask: &Vec<bool>, da: usize, db: usize, a: usize, w: usize, b: usize) -> (h:
    usize)
    requires
        mask@.len() == da * db,
        a + w <= da,
        b < db,
    ensures
        h == run_height(mask@, da as int, db as int, a as int, w as int, b as int),
        b + h <= db,
        forall|r: int| b <= r < b + h ==> #[trigger] row_full(mask@, da as int, a as int, w as int, r),
{
    let mut h: usize = 0;
    loop
        invariant_except_break
            mask@.len() == da * db,
            a + w <= da,
            b < db,
            b + h <= db,
            run_height(mask@, da as int, db as int, a as int, w as int, b as int) == h + run_height(
                mask@,
                da as int,
                db as int,
                a as int,
                w as int,
                b + h,
            ),
            forall|r: int| b <= r < b + h ==> #[trigger] row_full(mask@, da as int, a as int, w as int, r),
        ensures
            b + h <= db,
            h == run_height(mask@, da as int, db as int, a as int, w as int, b as int),
            forall|r: int| b <= r < b + h ==> #[trigger] row_full(mask@, da as int, a as int, w as int, r),
        decreases db - (b + h),
    {
        if !(b + h < db) {
            break ;
        }
        if !row_is_full(mask, da, db, a, w, b + h) {
            break ;
        }
        h = h + 1;
    }
    h
}

fn mark(used: &mut Vec<bool>, da: usize, db: usize, a: usize, b: usize, w: usize, h: usize)
    requires
        old(used)@.len() == da * db,
        a + w <= da,
        b + h <= db,
    ensures
        final(used)@ == marked(old(used)@, da as int, a as int, b as int, w as int, h as int),
{
    let total = used.len();
    let mut hh: usize = 0;
    while hh < h
        invariant
            used@.len() == da * db,
            old(used)@.len() == da * db,
            total == da * db,
            a + w <= da,
            b + h <= db,
            hh <= h,
            forall|i: int|
                0 <= i < used@.len() ==> used@[i] == (old(used)@[i] || in_rect(
                    da as int,
                    i,
                    a as int,
                    b as int,
                    w as int,
                    hh as int,
                )),
        decreases h - hh,
    {
        let mut ww: usize = 0;
        proof {
            if w > 0 {
                lemma_flat(da as int, db as int, a as int, b + hh);
            }
        }
        while ww < w
            invariant
                used@.len() == da * db,
                old(used)@.len() == da * db,
                total == da * db,
                a + w <= da,
                b + h <= db,
                hh < h,
                ww <= w,
                forall|i: int|
                    0 <= i < used@.len() ==> used@[i] == (old(used)@[i] || in_rect(
                        da as int,
                        i,
                        a as int,
                        b as int,
                        w as int,
                        hh as int,
                    ) || in_rect(da as int, i, a as int, b + hh, ww as int, 1)),
            decreases w - ww,
        {
            proof {
                lemma_flat(da as int, db as int, a + ww, b + hh);
            }
            let idx: usize = (a + ww) + (b + hh) * da;
            let ghost before = used@;
            used[idx] = true;
            proof {
                assert forall|i: int| 0 <= i < used@.len() implies used@[i] == (old(used)@[i]
                    || in_rect(da as int, i, a as int, b as int, w as int, hh as int) || in_rect(
                    da as int,
                    i,
                    a as int,
                    b + hh,
                    ww + 1,
                    1,
                )) by {
                    lemma_fundamental_div_mod(i, da as int);
                    assert(da * (i / (da as int)) == (i / (da as int)) * da) by (nonlinear_arith);
                    if i != idx {
                        assert(used@[i] == before[i]);
                    }
                }
            }
            ww = ww + 1;
        }
        hh = hh + 1;
    }
    assert(used@ =~= marked(old(used)@, da as int, a as int, b as int, w as int, h as int));
}

/// Whether a rectangle lies within a layer of `da` by `db` and is not empty.
pub open spec fn fits(q: Quad, da: int, db: int) -> bool {
    q.w >= 1 && q.h >= 1 && q.a + q.w <= da && q.b + q.h <= db
}

/// Appends the rectangles of one layer to `quads`.
fn scan_layer(
    mask: &Vec<bool>,
    da: usize,
    db: usize,
    direction: usize,
    layer: usize,
    quads: &mut Vec<Quad>,
)
    requires
        mask@.len() == da * db,
    ensures
        final(quads)@ == old(quads)@ + layer_quads(
            mask@,
            da as int,
            db as int,
            direction,
            layer,
        ),
        final(quads)@.len() <= old(quads)@.len() + da * db,
        forall|k: int|
            old(quads)@.len() <= k < final(quads)@.len() ==> fits(
                #[trigger] final(quads)@[k],
                da as int,
                db as int,
            ) && final(quads)@[k].direction == direction && final(quads)@[k].layer == layer,
{
    let total: usize = mask.len();
    let mut used: Vec<bool> = vec![false; total];
    let ghost start = quads@;
    let ghost whole = layer_quads(mask@, da as int, db as int, direction, layer);
    assert(used@ =~= Seq::new(mask@.len(), |i: int| false));
    assert(start + whole =~= quads@ + whole);
    let mut pos: usize = 0;
    while pos < total
        invariant
            total == da * db,
            mask@.len() == total,
            used@.len() == total,
            pos <= total,
            quads@.len() <= start.len() + pos,
            start.len() <= quads@.len(),
            start + whole == quads@ + scan(
                mask@,
                used@,
                da as int,
                db as int,
                pos as int,
                direction,
                layer,
            ),
            forall|k: int|
                0 <= k < start.len() ==> quads@[k] == start[k],
            forall|k: int|
                start.len() <= k < quads@.len() ==> fits(#[trigger] quads@[k], da as int, db as int)
                    && quads@[k].direction == direction && quads@[k].layer == layer,
        decreases total - pos,
    {
        if mask[pos] && !used[pos] {
            assert(da > 0) by (nonlinear_arith)
                requires
                    pos < da * db,
            ;
            let a: usize = pos % da;
            let b: usize = pos / da;
            proof {
                lemma_unflat(da as int, db as int, pos as int);
            }
            let w = measure_width(mask, da, db, a, b);
            let h = measure_height(mask, da, db, a, w, b);
            let q = Quad { direction, layer, a, b, w, h };
            proof {
                lemma_run_width_nonnegative(mask@, da as int, a + 1, b as int);
                assert(w >= 1);
                assert(row_full(mask@, da as int, a as int, w as int, b as int));
                lemma_run_height_nonnegative(
                    mask@,
                    da as int,
                    db as int,
                    a as int,
                    w as int,
                    b + 1,
                );
                assert(h >= 1);
                assert(q == quad_at(mask@, da as int, db as int, pos as int, direction, layer));
            }
            let ghost rest = scan(
                mask@,
                marked(used@, da as int, a as int, b as int, w as int, h as int),
                da as int,
                db as int,
                pos + 1,
                direction,
                layer,
            );
            assert(quads@ + (seq![q] + rest) =~= quads@.push(q) + rest);
            mark(&mut used, da, db, a, b, w, h);
            quads.push(q);
        }
        pos = pos + 1;
    }
    assert(quads@ + Seq::<Quad>::empty() =~= quads@);
}

/// Whether position `i` of a layer lies in the rectangle `q`.
pub open spec fn covers(q: Quad, da: int, i: int) -> bool {
    in_rect(da, i, q.a as int, q.b as int, q.w as int, q.h as int)
}

/// Whether some rectangle of `quads` covers position `i`.
pub open spec fn covered(quads: Seq<Quad>, da: int, i: int) -> bool {
    exists|k: int| 0 <= k < quads.len() && #[trigger] covers(quads[k], da, i)
}

/// Whether every position of the rectangle `q` is a face.
pub open spec fn lies_on_faces(mask: Seq<bool>, da: int, q: Quad) -> bool {
    forall|p: int, r: int|
        q.a <= p < q.a + q.w && q.b <= r < q.b + q.h ==> #[trigger] mask[flat(da, p, r)]
}

/// A run of faces stays within its row and holds nothing but faces.
pub proof fn lemma_run_width_faces(mask: Seq<bool>, da: int, a: int, b: int)
    requires
        0 <= a <= da,
    ensures
        0 <= run_width(mask, da, a, b),
        a + run_width(mask, da, a, b) <= da,
        row_full(mask, da, a, run_width(mask, da, a, b), b),
    decreases da - a,
{
    if a < da && mask[flat(da, a, b)] {
        lemma_run_width_faces(mask, da, a + 1, b);
    }
}

/// A run of rows stays within the layer and holds nothing but full rows.
pub proof fn lemma_run_height_rows(mask: Seq<bool>, da: int, db: int, a: int, w: int, b: int)
    requires
        0 <= b <= db,
    ensures
        0 <= run_height(mask, da, db, a, w, b),
        b + run_height(mask, da, db, a, w, b) <= db,
        forall|r: int|
            b <= r < b + run_height(mask, da, db, a, w, b) ==> #[trigger] row_full(
                mask,
                da,
                a,
                w,
                r,
            ),
    decreases db - b,
{
    if b < db && row_full(mask, da, a, w, b) {
        lemma_run_height_rows(mask, da, db, a, w, b + 1);
    }
}

/// The rectangle that starts at a face is not empty, lies within the
/// layer, covers the face it starts at and holds nothing but faces.
pub proof fn lemma_quad_at(
    mask: Seq<bool>,
    da: int,
    db: int,
    pos: int,
    direction: usize,
    layer: usize,
)
    requires
        0 < da <= usize::MAX,
        0 <= db <= usize::MAX,
        0 <= pos < da * db,
        mask[pos],
    ensures
        fits(quad_at(mask, da, db, pos, direction, layer), da, db),
        quad_at(mask, da, db, pos, direction, layer).direction == direction,
        quad_at(mask, da, db, pos, direction, layer).layer == layer,
        quad_at(mask, da, db, pos, direction, layer).a == pos % da,
        quad_at(mask, da, db, pos, direction, layer).b == pos / da,
        covers(quad_at(mask, da, db, pos, direction, layer), da, pos),
        lies_on_faces(mask, da, quad_at(mask, da, db, pos, direction, layer)),
{
    lemma_unflat(da, db, pos);
    let a = pos % da;
    let b = pos / da;
    let w = run_width(mask, da, a, b);
    lemma_run_width_faces(mask, da, a, b);
    lemma_run_width_faces(mask, da, a + 1, b);
    assert(w >= 1);
    let h = run_height(mask, da, db, a, w, b);
    lemma_run_height_rows(mask, da, db, a, w, b);
    lemma_run_height_rows(mask, da, db, a, w, b + 1);
    assert(row_full(mask, da, a, w, b));
    assert(h >= 1);
    let q = quad_at(mask, da, db, pos, direction, layer);
    assert(q.a == a && q.b == b && q.w == w && q.h == h);
    assert forall|p: int, r: int|
        q.a <= p < q.a + q.w && q.b <= r < q.b + q.h implies #[trigger] mask[flat(da, p, r)] by {
        assert(row_full(mask, da, a, w, r));
    }
}

/// What a walk over a layer yields from position `pos` on: rectangles
/// that lie within the layer, carry the direction and layer of the walk
/// and hold nothing but faces; and among them one for every face from
/// `pos` on that no earlier rectangle has taken.
pub proof fn lemma_scan(
    mask: Seq<bool>,
    used: Seq<bool>,
    da: int,
    db: int,
    pos: int,
    direction: usize,
    layer: usize,
)
    requires
        0 <= da <= usize::MAX,
        0 <= db <= usize::MAX,
        0 <= pos,
        mask.len() == da * db,
        used.len() == da * db,
    ensures
        forall|k: int|
            0 <= k < scan(mask, used, da, db, pos, direction, layer).len() ==> {
                let q = #[trigger] scan(mask, used, da, db, pos, direction, layer)[k];
                &&& fits(q, da, db)
                &&& q.direction == direction
                &&& q.layer == layer
                &&& lies_on_faces(mask, da, q)
            },
        forall|i: int|
            pos <= i < da * db && mask[i] && !used[i] ==> #[trigger] covered(
                scan(mask, used, da, db, pos, direction, layer),
                da,
                i,
            ),
    decreases da * db - pos,
{
    let found = scan(mask, used, da, db, pos, direction, layer);
    if pos >= da * db {
        assert(found =~= Seq::<Quad>::empty());
    } else {
        assert(da > 0) by (nonlinear_arith)
            requires
                0 <= pos < da * db,
                0 <= da,
        ;
        if mask[pos] && !used[pos] {
            let q = quad_at(mask, da, db, pos, direction, layer);
            lemma_quad_at(mask, da, db, pos, direction, layer);
            let taken = marked(used, da, q.a as int, q.b as int, q.w as int, q.h as int);
            let rest = scan(mask, taken, da, db, pos + 1, direction, layer);
            lemma_scan(mask, taken, da, db, pos + 1, direction, layer);
            assert(found == seq![q] + rest);
            assert forall|k: int| 0 <= k < found.len() implies {
                let f = #[trigger] found[k];
                &&& fits(f, da, db)
                &&& f.direction == direction
                &&& f.layer == layer
                &&& lies_on_faces(mask, da, f)
            } by {
                if k > 0 {
                    assert(found[k] == rest[k - 1]);
                }
            }
            assert forall|i: int| pos <= i < da * db && mask[i] && !used[i] implies #[trigger] covered(
                found,
                da,
                i,
            ) by {
                if covers(q, da, i) {
                    assert(covers(found[0], da, i));
                } else {
                    assert(i != pos);
                    assert(!taken[i]);
                    assert(covered(rest, da, i));
                    let k = choose|k: int| 0 <= k < rest.len() && #[trigger] covers(rest[k], da, i);
                    assert(found[k + 1] == rest[k]);
                    assert(covers(found[k + 1], da, i));
                }
            }
        } else {
            lemma_scan(mask, used, da, db, pos + 1, direction, layer);
            assert(found == scan(mask, used, da, db, pos + 1, direction, layer));
            assert forall|i: int| pos <= i < da * db && mask[i] && !used[i] implies #[trigger] covered(
                found,
                da,
                i,
            ) by {
                assert(i != pos);
            }
        }
    }
}

/// The rectangles of a layer hold nothing but faces, and every face of
/// the layer lies in one of them.
pub proof fn lemma_layer_quads(mask: Seq<bool>, da: int, db: int, direction: usize, layer: usize)
    requires
        0 <= da <= usize::MAX,
        0 <= db <= usize::MAX,
        mask.len() == da * db,
    ensures
        forall|k: int|
            0 <= k < layer_quads(mask, da, db, direction, layer).len() ==> {
                let q = #[trigger] layer_quads(mask, da, db, direction, layer)[k];
                &&& fits(q, da, db)
                &&& q.direction == direction
                &&& q.layer == layer
                &&& lies_on_faces(mask, da, q)
            },
        forall|i: int|
            0 <= i < da * db && mask[i] ==> #[trigger] covered(
                layer_quads(mask, da, db, direction, layer),
                da,
                i,
            ),
{
    lemma_scan(mask, Seq::new(mask.len(), |i: int| false), da, db, 0, direction, layer);
}

/// Number of face directions.
pub const DIRECTIONS: usize = 6;

/// Numbers per vertex: position and normal.
pub const VERTEX_STRIDE: usize = 6;

/// Numbers per rectangle: four vertices.
pub const QUAD_STRIDE: usize = 24;

/// Indices per rectangle: two triangles.
pub const QUAD_INDICES: usize = 6;

/// The axis that faces of a direction are normal to: 0 for x, 1 for y, 2 for z.
pub open spec fn axis_of(direction: int) -> int {
    direction / 2
}

/// Whether faces of a direction look up the axis.
pub open spec fn looks_up(direction: int) -> bool {
    direction % 2 == 0
}

/// Width and height of a layer normal to `axis`, and the number of such
/// layers, in a chunk of the given extents.
pub open spec fn layer_extent(dims: (usize, usize, usize), axis: int) -> (int, int, int) {
    if axis == 0 {
        (dims.1 as int, dims.2 as int, dims.0 as int)
    } else if axis == 1 {
        (dims.0 as int, dims.2 as int, dims.1 as int)
    } else {
        (dims.0 as int, dims.1 as int, dims.2 as int)
    }
}

/// The cell at `(a, b)` of layer `c` normal to `axis`.
pub open spec fn cell_of(axis: int, c: int, a: int, b: int) -> (int, int, int) {
    if axis == 0 {
        (c, a, b)
    } else if axis == 1 {
        (a, c, b)
    } else {
        (a, b, c)
    }
}

proof fn lemma_layer_within_volume(dims: (usize, usize, usize), axis: int, c: int)
    requires
        0 <= c < layer_extent(dims, axis).2,
    ensures
        0 <= layer_extent(dims, axis).0 * layer_extent(dims, axis).1 <= dims.0 * dims.1 * dims.2,
        layer_extent(dims, axis).0 * layer_extent(dims, axis).1 * layer_extent(dims, axis).2
            == dims.0 * dims.1 * dims.2,
        (c + 1) * (layer_extent(dims, axis).0 * layer_extent(dims, axis).1) <= dims.0 * dims.1
            * dims.2,
{
    let (da, db, dc) = layer_extent(dims, axis);
    let nx = dims.0 as int;
    let ny = dims.1 as int;
    let nz = dims.2 as int;
    assert(da * db * dc == nx * ny * nz) by (nonlinear_arith)
        requires
            (da == ny && db == nz && dc == nx) || (da == nx && db == nz && dc == ny) || (da == nx
                && db == ny && dc == nz),
    ;
    assert(0 <= da * db && (c + 1) * (da * db) <= da * db * dc && da * db <= da * db * dc)
        by (nonlinear_arith)
        requires
            0 <= da,
            0 <= db,
            0 <= c < dc,
    ;
}

impl Chunk {
    /// Whether the face of cell `(a, b)` of layer `c` that looks in
    /// `direction` is drawn: the cell is solid, and the cell it looks at
    /// lies within the chunk and is air.
    pub open spec fn face_visible(self, direction: int, c: int, a: int, b: int) -> bool {
        let axis = axis_of(direction);
        let here = cell_of(axis, c, a, b);
        let to = cell_of(
            axis,
            if looks_up(direction) {
                c + 1
            } else {
                c - 1
            },
            a,
            b,
        );
        &&& self.cell(here.0, here.1, here.2) != 0
        &&& self.contains(to.0, to.1, to.2)
        &&& self.cell(to.0, to.1, to.2) == 0
    }

    /// The faces of layer `c` that look in `direction`, row by row.
    pub open spec fn layer_mask(self, direction: int, c: int) -> Seq<bool> {
        let (da, db, dc) = layer_extent(self.dims(), axis_of(direction));
        Seq::new((da * db) as nat, |i: int| self.face_visible(direction, c, i % da, i / da))
    }

    /// The rectangles of the layers from `c` on that look in `direction`.
    pub open spec fn quads_from_layer(self, direction: int, c: int) -> Seq<Quad>
        decreases layer_extent(self.dims(), axis_of(direction)).2 - c,
    {
        let (da, db, dc) = layer_extent(self.dims(), axis_of(direction));
        if c < 0 || c >= dc {
            seq![]
        } else {
            layer_quads(self.layer_mask(direction, c), da, db, direction as usize, c as usize)
                + self.quads_from_layer(direction, c + 1)
        }
    }

    /// The rectangles of the directions from `direction` on.
    pub open spec fn quads_from_direction(self, direction: int) -> Seq<Quad>
        decreases DIRECTIONS - direction,
    {
        if direction < 0 || direction >= DIRECTIONS {
            seq![]
        } else {
            self.quads_from_layer(direction, 0) + self.quads_from_direction(direction + 1)
        }
    }

    /// The rectangles of the whole chunk: direction by direction, layer by
    /// layer, and within a layer in the order in which they start.
    pub open spec fn mesh_quads(self) -> Seq<Quad> {
        self.quads_from_direction(0)
    }

    /// Whether a rectangle lies within the layers of its direction.
    pub open spec fn holds(self, q: Quad) -> bool {
        &&& q.direction < DIRECTIONS
        &&& q.layer < layer_extent(self.dims(), axis_of(q.direction as int)).2
        &&& fits(
            q,
            layer_extent(self.dims(), axis_of(q.direction as int)).0,
            layer_extent(self.dims(), axis_of(q.direction as int)).1,
        )
    }

    fn layer_of(&self, direction: usize, c: usize) -> (mask: Vec<bool>)
        requires
            direction < DIRECTIONS,
            c < layer_extent(self.dims(), axis_of(direction as int)).2,
        ensures
            mask@ == self.layer_mask(direction as int, c as int),
            mask@.len() == layer_extent(self.dims(), axis_of(direction as int)).0 * layer_extent(
                self.dims(),
                axis_of(direction as int),
            ).1,
    {
        let axis: usize = direction / 2;
        let up: bool = direction % 2 == 0;
        let nx = self.nx();
        let ny = self.ny();
        let nz = self.nz();
        let volume = self.volume();
        let (da, db, dc) = if axis == 0 {
            (ny, nz, nx)
        } else if axis == 1 {
            (nx, nz, ny)
        } else {
            (nx, ny, nz)
        };
        proof {
            lemma_layer_within_volume(self.dims(), axis as int, c as int);
        }
        let total: usize = da * db;
        let mut mask: Vec<bool> = Vec::new();
        let mut i: usize = 0;
        while i < total
            invariant
                i <= total,
                total == da * db,
                direction < DIRECTIONS,
                axis == axis_of(direction as int),
                up == looks_up(direction as int),
                (da as int, db as int, dc as int) == layer_extent(self.dims(), axis as int),
                self.dims() == (nx, ny, nz),
                self.well_formed(),
                c < dc,
                mask@.len() == i,
                forall|k: int|
                    0 <= k < i ==> mask@[k] == self.face_visible(
                        direction as int,
                        c as int,
                        k % (da as int),
                        k / (da as int),
                    ),
            decreases total - i,
        {
            assert(da > 0) by (nonlinear_arith)
                requires
                    i < da * db,
            ;
            let a: usize = i % da;
            let b: usize = i / da;
            proof {
                lemma_unflat(da as int, db as int, i as int);
            }
            let (x, y, z) = if axis == 0 {
                (c, a, b)
            } else if axis == 1 {
                (a, c, b)
            } else {
                (a, b, c)
            };
            proof {
                self.lemma_cell_in_storage(x as int, y as int, z as int);
            }
            let mut visible = self.solid(x, y, z);
            if visible {
                if up {
                    if c + 1 < dc {
                        let (x2, y2, z2) = if axis == 0 {
                            (c + 1, a, b)
                        } else if axis == 1 {
                            (a, c + 1, b)
                        } else {
                            (a, b, c + 1)
                        };
                        proof {
                            self.lemma_cell_in_storage(x2 as int, y2 as int, z2 as int);
                        }
                        visible = !self.solid(x2, y2, z2);
                    } else {
                        visible = false;
                    }
                } else {
                    if c > 0 {
                        let (x2, y2, z2) = if axis == 0 {
                            (c - 1, a, b)
                        } else if axis == 1 {
                            (a, c - 1, b)
                        } else {
                            (a, b, c - 1)
                        };
                        proof {
                            self.lemma_cell_in_storage(x2 as int, y2 as int, z2 as int);
                        }
                        visible = !self.solid(x2, y2, z2);
                    } else {
                        visible = false;
                    }
                }
            }
            mask.push(visible);
            i = i + 1;
        }
        assert(mask@ =~= self.layer_mask(direction as int, c as int));
        mask
    }

    /// The rectangles of the greedy mesh.
    ///
    /// Faces are taken direction by direction (+x, -x, +y, -y, +z, -z) and
    /// layer by layer. Within a layer the faces are walked row by row; a
    /// face that no rectangle covers yet starts one, which is made as wide
    /// as the faces of its row allow and then as high as rows of that
    /// width allow.
    pub fn greedy_quads(&self) -> (quads: Vec<Quad>)
        ensures
            quads@ == self.mesh_quads(),
            quads@.len() <= DIRECTIONS * self@.len(),
            forall|k: int| 0 <= k < quads@.len() ==> self.holds(#[trigger] quads@[k]),
    {
        let nx = self.nx();
        let ny = self.ny();
        let nz = self.nz();
        let volume = self.volume();
        let mut quads: Vec<Quad> = Vec::new();
        let ghost whole = self.mesh_quads();
        assert(whole =~= quads@ + self.quads_from_direction(0));
        let mut direction: usize = 0;
        while direction < DIRECTIONS
            invariant
                direction <= DIRECTIONS,
                self.dims() == (nx, ny, nz),
                self.well_formed(),
                volume == self@.len(),
                whole == quads@ + self.quads_from_direction(direction as int),
                quads@.len() <= direction * volume,
                forall|k: int| 0 <= k < quads@.len() ==> self.holds(#[trigger] quads@[k]),
            decreases DIRECTIONS - direction,
        {
            let axis: usize = direction / 2;
            let (da, db, dc) = if axis == 0 {
                (ny, nz, nx)
            } else if axis == 1 {
                (nx, nz, ny)
            } else {
                (nx, ny, nz)
            };
            let ghost later = self.quads_from_direction(direction + 1);
            assert(quads@ + (self.quads_from_layer(direction as int, 0) + later) =~= quads@
                + self.quads_from_layer(direction as int, 0) + later);
            let mut c: usize = 0;
            while c < dc
                invariant
                    c <= dc,
                    direction < DIRECTIONS,
                    axis == axis_of(direction as int),
                    (da as int, db as int, dc as int) == layer_extent(self.dims(), axis as int),
                    self.dims() == (nx, ny, nz),
                    self.well_formed(),
                    volume == self@.len(),
                    later == self.quads_from_direction(direction + 1),
                    whole == quads@ + self.quads_from_layer(direction as int, c as int) + later,
                    quads@.len() <= direction * volume + c * (da * db),
                    c * (da * db) <= volume,
                    forall|k: int| 0 <= k < quads@.len() ==> self.holds(#[trigger] quads@[k]),
                decreases dc - c,
            {
                proof {
                    lemma_layer_within_volume(self.dims(), axis as int, c as int);
                    assert((c + 1) * (da * db) == c * (da * db) + da * db) by (nonlinear_arith);
                }
                let mask = self.layer_of(direction, c);
                let ghost before = quads@;
                let ghost here = layer_quads(mask@, da as int, db as int, direction, c);
                let ghost deeper = self.quads_from_layer(direction as int, c + 1);
                assert(before + (here + deeper) + later =~= before + here + deeper + later);
                scan_layer(&mask, da, db, direction, c, &mut quads);
                c = c + 1;
            }
            assert(quads@ + Seq::<Quad>::empty() + later =~= quads@ + later);
            assert((direction + 1) * volume == direction * volume + volume) by (nonlinear_arith);
            direction = direction + 1;
        }
        assert(quads@ + Seq::<Quad>::empty() =~= quads@);
        quads
    }
}

/// Position of corner `corner` of a rectangle: the plane of the face, and
/// within it the four corners of the rectangle in drawing order.
pub open spec fn corner_of(q: Quad, corner: int) -> (int, int, int) {
    let axis = axis_of(q.direction as int);
    let plane = if looks_up(q.direction as int) {
        q.layer + 1
    } else {
        q.layer as int
    };
    let a0 = q.a as int;
    let a1 = q.a + q.w;
    let b0 = q.b as int;
    let b1 = q.b + q.h;
    if axis == 0 {
        if corner == 0 {
            (plane, a0, b0)
        } else if corner == 1 {
            (plane, a1, b0)
        } else if corner == 2 {
            (plane, a1, b1)
        } else {
            (plane, a0, b1)
        }
    } else if axis == 1 {
        if corner == 0 {
            (a0, plane, b0)
        } else if corner == 1 {
            (a0, plane, b1)
        } else if corner == 2 {
            (a1, plane, b1)
        } else {
            (a1, plane, b0)
        }
    } else {
        if corner == 0 {
            (a0, b0, plane)
        } else if corner == 1 {
            (a0, b1, plane)
        } else if corner == 2 {
            (a1, b1, plane)
        } else {
            (a1, b0, plane)
        }
    }
}

/// The unit normal of the faces of a direction.
pub open spec fn normal_of(direction: int) -> (int, int, int) {
    let sign: int = if looks_up(direction) {
        1
    } else {
        -1
    };
    let axis = axis_of(direction);
    if axis == 0 {
        (sign, 0, 0)
    } else if axis == 1 {
        (0, sign, 0)
    } else {
        (0, 0, sign)
    }
}

/// Number `j` of the 24 that a rectangle contributes to the vertex data:
/// for each of its four corners the position, then the normal.
pub open spec fn vertex_number(q: Quad, j: int) -> int {
    let corner = corner_of(q, j / 6);
    let normal = normal_of(q.direction as int);
    let part = j % 6;
    if part == 0 {
        corner.0
    } else if part == 1 {
        corner.1
    } else if part == 2 {
        corner.2
    } else if part == 3 {
        normal.0
    } else if part == 4 {
        normal.1
    } else {
        normal.2
    }
}

/// The vertex data of the first `n` rectangles.
pub open spec fn vertices_of(quads: Seq<Quad>, n: int) -> Seq<i32> {
    Seq::new((QUAD_STRIDE * n) as nat, |i: int| vertex_number(quads[i / 24], i % 24) as i32)
}

/// Index `j` of the six that the rectangle with number `k` contributes:
/// the triangles 0, 1, 2 and 0, 2, 3 of its four vertices.
pub open spec fn index_number(k: int, j: int) -> int {
    4 * k + if j == 0 {
        0int
    } else if j == 1 {
        1
    } else if j == 2 {
        2
    } else if j == 3 {
        0
    } else if j == 4 {
        2
    } else {
        3
    }
}

/// The triangle indices of the first `n` rectangles.
pub open spec fn indices_of(n: int) -> Seq<u32> {
    Seq::new((QUAD_INDICES * n) as nat, |i: int| index_number(i / 6, i % 6) as u32)
}

/// Whether the mesh of a chunk of these extents can be numbered: every
/// coordinate fits a signed 32-bit number and every vertex index an
/// unsigned one.
pub open spec fn meshable(dims: (usize, usize, usize)) -> bool {
    &&& dims.0 < i32::MAX
    &&& dims.1 < i32::MAX
    &&& dims.2 < i32::MAX
    &&& QUAD_STRIDE * (dims.0 * dims.1 * dims.2) <= u32::MAX
}

/// Whether the numbers of the mesh of `quads` are what the vertex data and
/// the indices hold: none of them is cut off on its way into 32 bits.
pub open spec fn numbered(quads: Seq<Quad>, vertices: Seq<i32>, indices: Seq<u32>) -> bool {
    &&& vertices.len() == QUAD_STRIDE * quads.len()
    &&& indices.len() == QUAD_INDICES * quads.len()
    &&& forall|i: int|
        0 <= i < vertices.len() ==> (#[trigger] vertices[i]) as int == vertex_number(
            quads[i / 24],
            i % 24,
        )
    &&& forall|i: int|
        0 <= i < indices.len() ==> (#[trigger] indices[i]) as int == index_number(i / 6, i % 6)
}

/// The numbers of a rectangle that lies within a chunk whose mesh can be
/// numbered are coordinates of the chunk or components of a unit normal,
/// and fit a signed 32-bit number.
pub proof fn lemma_vertex_number_fits(dims: (usize, usize, usize), q: Quad, j: int)
    requires
        meshable(dims),
        q.direction < DIRECTIONS,
        q.layer < layer_extent(dims, axis_of(q.direction as int)).2,
        fits(
            q,
            layer_extent(dims, axis_of(q.direction as int)).0,
            layer_extent(dims, axis_of(q.direction as int)).1,
        ),
        0 <= j < QUAD_STRIDE,
    ensures
        -1 <= vertex_number(q, j) < i32::MAX,
{
}

/// The six numbers of corner `corner` of a rectangle.
pub open spec fn vertex_block(q: Quad, corner: int) -> Seq<i32> {
    Seq::new(VERTEX_STRIDE as nat, |j: int| vertex_number(q, 6 * corner + j) as i32)
}

/// The 24 numbers of a rectangle.
pub open spec fn quad_block(q: Quad) -> Seq<i32> {
    Seq::new(QUAD_STRIDE as nat, |j: int| vertex_number(q, j) as i32)
}

/// The six indices of the rectangle with number `k`.
pub open spec fn index_block(k: int) -> Seq<u32> {
    Seq::new(QUAD_INDICES as nat, |j: int| index_number(k, j) as u32)
}

proof fn lemma_vertices_step(quads: Seq<Quad>, k: int)
    requires
        0 <= k < quads.len(),
    ensures
        vertices_of(quads, k + 1) == vertices_of(quads, k) + quad_block(quads[k]),
        indices_of(k + 1) == indices_of(k) + index_block(k),
{
    assert(vertices_of(quads, k + 1) =~= vertices_of(quads, k) + quad_block(quads[k]));
    assert(indices_of(k + 1) =~= indices_of(k) + index_block(k));
}

proof fn lemma_quad_block(q: Quad, before: Seq<i32>, corner: int)
    requires
        0 <= corner < 4,
        before == quad_block(q).subrange(0, 6 * corner),
    ensures
        before + vertex_block(q, corner) == quad_block(q).subrange(0, 6 * corner + 6),
{
    assert(before + vertex_block(q, corner) =~= quad_block(q).subrange(0, 6 * corner + 6));
}

fn corner_position(q: Quad, corner: usize) -> (position: (i32, i32, i32))
    requires
        corner < 4,
        q.direction < DIRECTIONS,
        q.layer < i32::MAX,
        q.a + q.w <= i32::MAX,
        q.b + q.h <= i32::MAX,
    ensures
        (position.0 as int, position.1 as int, position.2 as int) == corner_of(q, corner as int),
{
    let axis: usize = q.direction / 2;
    let plane: i32 = if q.direction % 2 == 0 {
        (q.layer + 1) as i32
    } else {
        q.layer as i32
    };
    let a0: i32 = q.a as i32;
    let a1: i32 = (q.a + q.w) as i32;
    let b0: i32 = q.b as i32;
    let b1: i32 = (q.b + q.h) as i32;
    let far_a = if axis == 0 {
        corner == 1 || corner == 2
    } else {
        corner >= 2
    };
    let far_b = if axis == 0 {
        corner >= 2
    } else {
        corner == 1 || corner == 2
    };
    let a = if far_a {
        a1
    } else {
        a0
    };
    let b = if far_b {
        b1
    } else {
        b0
    };
    if axis == 0 {
        (plane, a, b)
    } else if axis == 1 {
        (a, plane, b)
    } else {
        (a, b, plane)
    }
}

fn normal(direction: usize) -> (n: (i32, i32, i32))
    requires
        direction < DIRECTIONS,
    ensures
        (n.0 as int, n.1 as int, n.2 as int) == normal_of(direction as int),
{
    let sign: i32 = if direction % 2 == 0 {
        1
    } else {
        -1
    };
    let axis: usize = direction / 2;
    if axis == 0 {
        (sign, 0, 0)
    } else if axis == 1 {
        (0, sign, 0)
    } else {
        (0, 0, sign)
    }
}

fn push_vertex(vertices: &mut Vec<i32>, q: Quad, corner: usize)
    requires
        corner < 4,
        q.direction < DIRECTIONS,
        q.layer < i32::MAX,
        q.a + q.w <= i32::MAX,
        q.b + q.h <= i32::MAX,
    ensures
        final(vertices)@ == old(vertices)@ + vertex_block(q, corner as int),
{
    let position = corner_position(q, corner);
    let n = normal(q.direction);
    vertices.push(position.0);
    vertices.push(position.1);
    vertices.push(position.2);
    vertices.push(n.0);
    vertices.push(n.1);
    vertices.push(n.2);
    assert(vertices@ =~= old(vertices)@ + vertex_block(q, corner as int));
}

fn push_quad(vertices: &mut Vec<i32>, indices: &mut Vec<u32>, q: Quad, k: usize)
    requires
        q.direction < DIRECTIONS,
        q.layer < i32::MAX,
        q.a + q.w <= i32::MAX,
        q.b + q.h <= i32::MAX,
        4 * k + 3 <= u32::MAX,
    ensures
        final(vertices)@ == old(vertices)@ + quad_block(q),
        final(indices)@ == old(indices)@ + index_block(k as int),
{
    let ghost start = vertices@;
    let ghost block: Seq<i32> = Seq::empty();
    assert(block =~= quad_block(q).subrange(0, 0));
    assert(vertices@ =~= start + block);
    let mut corner: usize = 0;
    while corner < 4
        invariant
            corner <= 4,
            q.direction < DIRECTIONS,
            q.layer < i32::MAX,
            q.a + q.w <= i32::MAX,
            q.b + q.h <= i32::MAX,
            block == quad_block(q).subrange(0, 6 * corner),
            vertices@ == start + block,
        decreases 4 - corner,
    {
        push_vertex(vertices, q, corner);
        proof {
            lemma_quad_block(q, block, corner as int);
            assert(start + block + vertex_block(q, corner as int) =~= start + (block
                + vertex_block(q, corner as int)));
            block = block + vertex_block(q, corner as int);
        }
        corner = corner + 1;
    }
    assert(quad_block(q).subrange(0, 24) =~= quad_block(q));
    let base: u32 = (4 * k) as u32;
    indices.push(base);
    indices.push(base + 1);
    indices.push(base + 2);
    indices.push(base);
    indices.push(base + 2);
    indices.push(base + 3);
    assert(indices@ =~= old(indices)@ + index_block(k as int));
}

impl Chunk {
    /// Greedy mesh: vertex data and triangle indices.
    ///
    /// Every rectangle of the mesh gives four vertices of six numbers each,
    /// the position and the normal, and six indices for its two triangles.
    /// Positions are in cells, with the origin at the corner of the chunk.
    pub fn build_greedy_mesh(&self) -> (mesh: (Vec<i32>, Vec<u32>))
        requires
            meshable(self.dims()),
        ensures
            mesh.0@ == vertices_of(self.mesh_quads(), self.mesh_quads().len() as int),
            mesh.1@ == indices_of(self.mesh_quads().len() as int),
            self.mesh_quads().len() <= DIRECTIONS * self@.len(),
            forall|k: int|
                0 <= k < self.mesh_quads().len() ==> self.holds(#[trigger] self.mesh_quads()[k]),
            numbered(self.mesh_quads(), mesh.0@, mesh.1@),
    {
        let quads = self.greedy_quads();
        let volume = self.volume();
        let mut vertices: Vec<i32> = Vec::new();
        let mut indices: Vec<u32> = Vec::new();
        assert(vertices@ =~= vertices_of(quads@, 0));
        assert(indices@ =~= indices_of(0));
        let mut k: usize = 0;
        while k < quads.len()
            invariant
                k <= quads@.len(),
                quads@ == self.mesh_quads(),
                quads@.len() <= DIRECTIONS * volume,
                volume == self.dims().0 * self.dims().1 * self.dims().2,
                meshable(self.dims()),
                forall|j: int| 0 <= j < quads@.len() ==> self.holds(#[trigger] quads@[j]),
                vertices@ == vertices_of(quads@, k as int),
                indices@ == indices_of(k as int),
            decreases quads@.len() - k,
        {
            let q = quads[k];
            proof {
                assert(self.holds(quads@[k as int]));
                lemma_vertices_step(quads@, k as int);
            }
            push_quad(&mut vertices, &mut indices, q, k);
            k = k + 1;
        }
        proof {
            assert forall|i: int| 0 <= i < vertices@.len() implies (#[trigger] vertices@[i]) as int
                == vertex_number(quads@[i / 24], i % 24) by {
                assert(self.holds(quads@[i / 24]));
                lemma_vertex_number_fits(self.dims(), quads@[i / 24], i % 24);
            }
            assert forall|i: int| 0 <= i < indices@.len() implies (#[trigger] indices@[i]) as int
                == index_number(i / 6, i % 6) by {
                assert(0 <= index_number(i / 6, i % 6) <= 4 * (i / 6) + 3);
            }
        }
        (vertices, indices)
    }

    /// Whether the mesh of the chunk can be numbered: every extent is
    /// below the largest signed 32-bit number, and 24 numbers per cell
    /// stay within the unsigned ones.
    pub fn is_meshable(&self) -> (ok: bool)
        ensures
            ok == meshable(self.dims()),
    {
        let nx = self.nx();
        let ny = self.ny();
        let nz = self.nz();
        let volume = self.volume();
        nx < 0x7fff_ffff && ny < 0x7fff_ffff && nz < 0x7fff_ffff && volume <= 178_956_970
    }
}

/// Mesh data of a chunk: the rectangles of its greedy mesh as vertex data
/// and triangle indices.
#[derive(Debug)]
pub struct ChunkMesh {
    /// Position and normal per vertex, six numbers each.
    pub vertices: Vec<i32>,
    /// Triangle indices.
    pub indices: Vec<u32>,
}

impl ChunkMesh {
    /// Builds the mesh of a chunk.
    pub fn from_chunk(chunk: &Chunk) -> (mesh: Self)
        requires
            meshable(chunk.dims()),
        ensures
            mesh.vertices@ == vertices_of(chunk.mesh_quads(), chunk.mesh_quads().len() as int),
            mesh.indices@ == indices_of(chunk.mesh_quads().len() as int),
            chunk.mesh_quads().len() <= DIRECTIONS * chunk@.len(),
            forall|k: int|
                0 <= k < chunk.mesh_quads().len() ==> chunk.holds(
                    #[trigger] chunk.mesh_quads()[k],
                ),
            numbered(chunk.mesh_quads(), mesh.vertices@, mesh.indices@),
    {
        let (vertices, indices) = chunk.build_greedy_mesh();
        ChunkMesh { vertices, indices }
    }

    /// Whether there is anything to hand to the graphics device: a mesh
    /// without vertices or without indices is not uploaded.
    pub fn upload_to_gpu(&self) -> (upload: bool)
        ensures
            upload == (self.vertices@.len() > 0 && self.indices@.len() > 0),
    {
        !(self.vertices.len() == 0 || self.indices.len() == 0)
    }
}

/// Whether the rectangle `q` looks in `direction`, lies in layer `c` and
/// holds position `(a, b)`.
pub open spec fn spans(q: Quad, direction: int, c: int, a: int, b: int) -> bool {
    q.direction == direction && q.layer == c && q.a <= a < q.a + q.w && q.b <= b < q.b + q.h
}

/// Whether some rectangle of `quads` spans the face at `(a, b)` of layer
/// `c` that looks in `direction`.
pub open spec fn meshed(quads: Seq<Quad>, direction: int, c: int, a: int, b: int) -> bool {
    exists|k: int| 0 <= k < quads.len() && #[trigger] spans(quads[k], direction, c, a, b)
}

proof fn lemma_meshed_in_front(front: Seq<Quad>, back: Seq<Quad>, d: int, c: int, a: int, b: int)
    requires
        meshed(front, d, c, a, b),
    ensures
        meshed(front + back, d, c, a, b),
{
    let k = choose|k: int| 0 <= k < front.len() && #[trigger] spans(front[k], d, c, a, b);
    assert((front + back)[k] == front[k]);
    assert(spans((front + back)[k], d, c, a, b));
}

proof fn lemma_meshed_in_back(front: Seq<Quad>, back: Seq<Quad>, d: int, c: int, a: int, b: int)
    requires
        meshed(back, d, c, a, b),
    ensures
        meshed(front + back, d, c, a, b),
{
    let k = choose|k: int| 0 <= k < back.len() && #[trigger] spans(back[k], d, c, a, b);
    assert((front + back)[front.len() + k] == back[k]);
    assert(spans((front + back)[front.len() + k], d, c, a, b));
}

impl Chunk {
    /// Whether the rectangle `q` lies within the chunk and every position
    /// of it is a drawn face.
    pub open spec fn sound(self, q: Quad) -> bool {
        &&& self.holds(q)
        &&& forall|a: int, b: int|
            q.a <= a < q.a + q.w && q.b <= b < q.b + q.h ==> #[trigger] self.face_visible(
                q.direction as int,
                q.layer as int,
                a,
                b,
            )
    }

    /// Whether `(a, b)` is a position of layer `c` of `direction`.
    pub open spec fn has_face(self, direction: int, c: int, a: int, b: int) -> bool {
        &&& 0 <= direction < DIRECTIONS
        &&& 0 <= a < layer_extent(self.dims(), axis_of(direction)).0
        &&& 0 <= b < layer_extent(self.dims(), axis_of(direction)).1
        &&& 0 <= c < layer_extent(self.dims(), axis_of(direction)).2
    }

    proof fn lemma_layer(self, d: int, c: int)
        requires
            0 <= d < DIRECTIONS,
            0 <= c < layer_extent(self.dims(), axis_of(d)).2,
        ensures
            forall|k: int|
                0 <= k < layer_quads(
                    self.layer_mask(d, c),
                    layer_extent(self.dims(), axis_of(d)).0,
                    layer_extent(self.dims(), axis_of(d)).1,
                    d as usize,
                    c as usize,
                ).len() ==> self.sound(
                    #[trigger] layer_quads(
                        self.layer_mask(d, c),
                        layer_extent(self.dims(), axis_of(d)).0,
                        layer_extent(self.dims(), axis_of(d)).1,
                        d as usize,
                        c as usize,
                    )[k],
                ),
            forall|a: int, b: int|
                self.has_face(d, c, a, b) && #[trigger] self.face_visible(d, c, a, b) ==> meshed(
                    layer_quads(
                        self.layer_mask(d, c),
                        layer_extent(self.dims(), axis_of(d)).0,
                        layer_extent(self.dims(), axis_of(d)).1,
                        d as usize,
                        c as usize,
                    ),
                    d,
                    c,
                    a,
                    b,
                ),
    {
        let (da, db, dc) = layer_extent(self.dims(), axis_of(d));
        let mask = self.layer_mask(d, c);
        let found = layer_quads(mask, da, db, d as usize, c as usize);
        assert(0 <= da * db) by (nonlinear_arith)
            requires
                0 <= da,
                0 <= db,
        ;
        lemma_layer_quads(mask, da, db, d as usize, c as usize);
        assert forall|k: int| 0 <= k < found.len() implies self.sound(#[trigger] found[k]) by {
            let q = found[k];
            assert(lies_on_faces(mask, da, q));
            assert forall|a: int, b: int|
                q.a <= a < q.a + q.w && q.b <= b < q.b + q.h implies #[trigger] self.face_visible(
                q.direction as int,
                q.layer as int,
                a,
                b,
            ) by {
                lemma_flat(da, db, a, b);
                assert(mask[flat(da, a, b)]);
            }
        }
        assert forall|a: int, b: int|
            self.has_face(d, c, a, b) && #[trigger] self.face_visible(d, c, a, b) implies meshed(
            found,
            d,
            c,
            a,
            b,
        ) by {
            lemma_flat(da, db, a, b);
            let i = flat(da, a, b);
            assert(mask[i]);
            assert(covered(found, da, i));
            let k = choose|k: int| 0 <= k < found.len() && #[trigger] covers(found[k], da, i);
            assert(spans(found[k], d, c, a, b));
        }
    }

    proof fn lemma_from_layer(self, d: int, first: int)
        requires
            0 <= d < DIRECTIONS,
            0 <= first,
        ensures
            forall|k: int|
                0 <= k < self.quads_from_layer(d, first).len() ==> self.sound(
                    #[trigger] self.quads_from_layer(d, first)[k],
                ),
            forall|c: int, a: int, b: int|
                first <= c && self.has_face(d, c, a, b) && #[trigger] self.face_visible(d, c, a, b)
                    ==> meshed(self.quads_from_layer(d, first), d, c, a, b),
        decreases layer_extent(self.dims(), axis_of(d)).2 - first,
    {
        let (da, db, dc) = layer_extent(self.dims(), axis_of(d));
        let all = self.quads_from_layer(d, first);
        if first < dc {
            let here = layer_quads(self.layer_mask(d, first), da, db, d as usize, first as usize);
            let deeper = self.quads_from_layer(d, first + 1);
            self.lemma_layer(d, first);
            self.lemma_from_layer(d, first + 1);
            assert(all == here + deeper);
            assert forall|k: int| 0 <= k < all.len() implies self.sound(#[trigger] all[k]) by {
                if k < here.len() {
                    assert(all[k] == here[k]);
                } else {
                    assert(all[k] == deeper[k - here.len()]);
                }
            }
            assert forall|c: int, a: int, b: int|
                first <= c && self.has_face(d, c, a, b) && #[trigger] self.face_visible(
                    d,
                    c,
                    a,
                    b,
                ) implies meshed(all, d, c, a, b) by {
                if c == first {
                    lemma_meshed_in_front(here, deeper, d, c, a, b);
                } else {
                    lemma_meshed_in_back(here, deeper, d, c, a, b);
                }
            }
        } else {
            assert(all =~= Seq::<Quad>::empty());
        }
    }

    proof fn lemma_from_direction(self, first: int)
        requires
            0 <= first,
        ensures
            forall|k: int|
                0 <= k < self.quads_from_direction(first).len() ==> self.sound(
                    #[trigger] self.quads_from_direction(first)[k],
                ),
            forall|d: int, c: int, a: int, b: int|
                first <= d && self.has_face(d, c, a, b) && #[trigger] self.face_visible(d, c, a, b)
                    ==> meshed(self.quads_from_direction(first), d, c, a, b),
        decreases DIRECTIONS - first,
    {
        let all = self.quads_from_direction(first);
        if first < DIRECTIONS {
            let here = self.quads_from_layer(first, 0);
            let later = self.quads_from_direction(first + 1);
            self.lemma_from_layer(first, 0);
            self.lemma_from_direction(first + 1);
            assert(all == here + later);
            assert forall|k: int| 0 <= k < all.len() implies self.sound(#[trigger] all[k]) by {
                if k < here.len() {
                    assert(all[k] == here[k]);
                } else {
                    assert(all[k] == later[k - here.len()]);
                }
            }
            assert forall|d: int, c: int, a: int, b: int|
                first <= d && self.has_face(d, c, a, b) && #[trigger] self.face_visible(
                    d,
                    c,
                    a,
                    b,
                ) implies meshed(all, d, c, a, b) by {
                if d == first {
                    lemma_meshed_in_front(here, later, d, c, a, b);
                } else {
                    lemma_meshed_in_back(here, later, d, c, a, b);
                }
            }
        } else {
            assert(all =~= Seq::<Quad>::empty());
        }
    }

    /// Every rectangle of the mesh lies within the chunk, and every
    /// position of it is a face that is drawn: the face of a solid cell
    /// that looks at an air cell of the chunk.
    pub proof fn lemma_mesh_sound(self, k: int)
        requires
            0 <= k < self.mesh_quads().len(),
        ensures
            self.sound(self.mesh_quads()[k]),
    {
        self.lemma_from_direction(0);
    }

    /// Every face that is drawn lies in a rectangle of the mesh that has
    /// its direction and its layer.
    pub proof fn lemma_mesh_complete(self, direction: int, c: int, a: int, b: int)
        requires
            self.has_face(direction, c, a, b),
            self.face_visible(direction, c, a, b),
        ensures
            meshed(self.mesh_quads(), direction, c, a, b),
    {
        self.lemma_from_direction(0);
    }
}

} // verus!
