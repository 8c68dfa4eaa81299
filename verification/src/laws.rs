//! Engine-wide laws, stated and proved over the layout model.

use crate::command::{cross_line_model, CmdModel, DrawCommand};
use crate::geometry::{rat_le, CoordV, PointV, Rat};
use crate::input::RcBeamDrawing;
use crate::output::{
    bottom_y_model, layout_model, outline_model, rat, rebar_coords_model, row_x_model,
    web_cmds_model, web_coords_model, web_guide_model,
};
use vstd::prelude::*;

verus! {

/// Corner `k` of the outline rectangle, counted counter-clockwise from the
/// origin: `(0,0), (w,0), (w,h), (0,h)`.
pub open spec fn outline_corner(inp: RcBeamDrawing, k: int) -> PointV {
    let w = inp.dimension.beam_width as int;
    let h = inp.dimension.beam_height as int;
    let x = if k == 1 || k == 2 {
        w
    } else {
        0
    };
    let y = if k == 2 || k == 3 {
        h
    } else {
        0
    };
    PointV {
        x: CoordV { a: rat(x), b: rat(0) },
        y: CoordV { a: rat(y), b: rat(0) },
    }
}

/// The outline is a closed four-vertex polygon: its commands are exactly
/// four lines on the concrete layer, line `j` running from corner `j` to
/// corner `j + 1` (mod 4), so consecutive lines share a vertex and the
/// last returns to `(0,0)`. They also open the full command sequence.
pub proof fn lemma_outline_closed_rectangle(inp: RcBeamDrawing)
    ensures
        outline_model(inp).len() == 4,
        forall|j: int|
            0 <= j < 4 ==> #[trigger] outline_model(inp)[j] == (CmdModel::Line {
                p1: outline_corner(inp, j),
                p2: outline_corner(inp, if j == 3 {
                    0
                } else {
                    j + 1
                }),
                layer: inp.layer_name.concrete@,
            }),
        forall|j: int| 0 <= j < 4 ==> layout_model(inp)[j] == outline_model(inp)[j],
{
    assert forall|j: int| 0 <= j < 4 implies #[trigger] outline_model(inp)[j] == (CmdModel::Line {
        p1: outline_corner(inp, j),
        p2: outline_corner(inp, if j == 3 {
            0
        } else {
            j + 1
        }),
        layer: inp.layer_name.concrete@,
    }) by {
        if j == 0 {
        } else if j == 1 {
        } else if j == 2 {
        } else {
        }
    }
}

/// Every bar of a first row has a mirror bar in the same row: the two x
/// coordinates share the denominator `2 * (n - 1)` and their numerators
/// sum to `w * (2 * (n - 1))`, so the two values sum to `w` and the row
/// is symmetric about `w / 2`.
pub proof fn lemma_row_x_symmetric(n: int, w: int, d: int, dia: int, i: int)
    requires
        2 <= n,
        0 <= i < n,
    ensures
        row_x_model(i, n, w, d, dia).den == 2 * (n - 1),
        exists|j: int|
            0 <= j < n && #[trigger] row_x_model(j, n, w, d, dia).num + row_x_model(
                i,
                n,
                w,
                d,
                dia,
            ).num == w * (2 * (n - 1)),
{
    let span = w - 2 * d - dia;
    if i % 2 == 0 && i + 1 < n {
        let j = i + 1;
        assert((2 * d + dia) * (n - 1) + 2 * (i / 2) * span + ((2 * w - 2 * d - dia) * (n - 1) - 2
            * (j / 2) * span) == w * (2 * (n - 1))) by (nonlinear_arith)
            requires
                j == i + 1,
                i % 2 == 0,
                0 <= i,
                span == w - 2 * d - dia,
        ;
        assert(row_x_model(j, n, w, d, dia).num + row_x_model(i, n, w, d, dia).num == w * (2 * (n
            - 1)));
    } else if i % 2 == 0 {
        // The lone middle bar of an odd-count row mirrors itself.
        assert(2 * (i / 2) == n - 1);
        assert((2 * d + dia) * (n - 1) + (n - 1) * span + ((2 * d + dia) * (n - 1) + (n - 1)
            * span) == w * (2 * (n - 1))) by (nonlinear_arith)
            requires
                span == w - 2 * d - dia,
        ;
        assert(row_x_model(i, n, w, d, dia).num + row_x_model(i, n, w, d, dia).num == w * (2 * (n
            - 1))) by {
            assert(2 * (i / 2) * span == (n - 1) * span) by (nonlinear_arith)
                requires
                    2 * (i / 2) == n - 1,
            ;
        }
    } else {
        let j = i - 1;
        assert(j % 2 == 0 && j / 2 == i / 2);
        assert((2 * d + dia) * (n - 1) + 2 * (j / 2) * span + ((2 * w - 2 * d - dia) * (n - 1) - 2
            * (i / 2) * span) == w * (2 * (n - 1))) by (nonlinear_arith)
            requires
                j / 2 == i / 2,
                span == w - 2 * d - dia,
        ;
        assert(row_x_model(j, n, w, d, dia).num + row_x_model(i, n, w, d, dia).num == w * (2 * (n
            - 1)));
    }
}

/// Every bar of a first row lies between `cover + diameter/2` and
/// `w - cover - diameter/2`, and bars 0 and 1 sit exactly on those two
/// extremes.
pub proof fn lemma_row_x_bounds(n: int, w: int, d: int, dia: int, i: int)
    requires
        2 <= n,
        0 <= i < n,
        w >= 2 * d + dia,
    ensures
        row_x_model(i, n, w, d, dia).den == 2 * (n - 1),
        rat_le(Rat { num: 2 * d + dia, den: 2 }, row_x_model(i, n, w, d, dia)),
        rat_le(row_x_model(i, n, w, d, dia), Rat { num: 2 * w - 2 * d - dia, den: 2 }),
        row_x_model(0, n, w, d, dia).num == (2 * d + dia) * (n - 1),
        row_x_model(1, n, w, d, dia).num == (2 * w - 2 * d - dia) * (n - 1),
{
    let span = w - 2 * d - dia;
    let lo = (2 * d + dia) * (n - 1);
    let hi = (2 * w - 2 * d - dia) * (n - 1);
    assert(2 * (0int / 2) * span == 0) by (nonlinear_arith);
    assert(2 * (1int / 2) * span == 0) by (nonlinear_arith);
    let num = row_x_model(i, n, w, d, dia).num;
    assert(lo <= num <= hi) by (nonlinear_arith)
        requires
            num == if i % 2 == 0 {
                lo + 2 * (i / 2) * span
            } else {
                hi - 2 * (i / 2) * span
            },
            lo == (2 * d + dia) * (n - 1),
            hi == (2 * w - 2 * d - dia) * (n - 1),
            span == w - 2 * d - dia,
            0 <= span,
            2 <= n,
            0 <= i < n,
    ;
    assert(rat_le(Rat { num: 2 * d + dia, den: 2 }, row_x_model(i, n, w, d, dia))
        && rat_le(row_x_model(i, n, w, d, dia), Rat { num: 2 * w - 2 * d - dia, den: 2 }))
        by (nonlinear_arith)
        requires
            lo <= num <= hi,
            lo == (2 * d + dia) * (n - 1),
            hi == (2 * w - 2 * d - dia) * (n - 1),
            row_x_model(i, n, w, d, dia).num == num,
            row_x_model(i, n, w, d, dia).den == 2 * (n - 1),
            2 <= n,
    ;
}

/// The bottom first row of a valid description: the first `bottom_1`
/// entries of the coordinate sequence are that row, all at the first
/// bottom height, with the symmetric x coordinates of
/// [`lemma_row_x_symmetric`] and the extremes of [`lemma_row_x_bounds`].
pub proof fn lemma_bottom_row_symmetric(inp: RcBeamDrawing, i: int)
    requires
        inp.valid(),
        0 <= i < inp.main_rebar.bottom_1,
    ensures
        rebar_coords_model(inp).len() >= inp.main_rebar.bottom_1,
        rebar_coords_model(inp)[i].0 == row_x_model(
            i,
            inp.main_rebar.bottom_1 as int,
            inp.dimension.beam_width as int,
            inp.dimension.cover_depth as int,
            inp.main_rebar.diameter as int,
        ),
        rebar_coords_model(inp)[i].1 == bottom_y_model(inp, 0),
        exists|j: int|
            0 <= j < inp.main_rebar.bottom_1 && rat_eq_sum_to_width(inp, i, j),
        rat_le(
            Rat {
                num: 2 * inp.dimension.cover_depth + inp.main_rebar.diameter,
                den: 2,
            },
            rebar_coords_model(inp)[i].0,
        ),
        rat_le(
            rebar_coords_model(inp)[i].0,
            Rat {
                num: 2 * inp.dimension.beam_width - 2 * inp.dimension.cover_depth
                    - inp.main_rebar.diameter,
                den: 2,
            },
        ),
{
    let n = inp.main_rebar.bottom_1 as int;
    let w = inp.dimension.beam_width as int;
    let d = inp.dimension.cover_depth as int;
    let dia = inp.main_rebar.diameter as int;
    lemma_row_x_symmetric(n, w, d, dia, i);
    lemma_row_x_bounds(n, w, d, dia, i);
    let j = choose|j: int|
        0 <= j < n && #[trigger] row_x_model(j, n, w, d, dia).num + row_x_model(
            i,
            n,
            w,
            d,
            dia,
        ).num == w * (2 * (n - 1));
    assert(rebar_coords_model(inp)[j].0 == row_x_model(j, n, w, d, dia));
    assert(rat_eq_sum_to_width(inp, i, j));
}

/// Bars `i` and `j` of the bottom first row mirror each other about
/// `w / 2`: their x values sum to the beam width.
pub open spec fn rat_eq_sum_to_width(inp: RcBeamDrawing, i: int, j: int) -> bool {
    let xi = rebar_coords_model(inp)[i].0;
    let xj = rebar_coords_model(inp)[j].0;
    &&& xi.den == xj.den
    &&& xi.num + xj.num == inp.dimension.beam_width * xi.den
}

/// Web-rebar command counts: no rows means no commands; `n` rows yield
/// exactly `5 * n` commands - a cross-mark (two line segments) on each of
/// the `2 * n` mark points, then one guide line per row.
pub proof fn lemma_web_rebar_counts(inp: RcBeamDrawing)
    ensures
        inp.web_rebar.num_row == 0 ==> web_cmds_model(inp) =~= Seq::<CmdModel>::empty(),
        web_cmds_model(inp).len() == 5 * inp.web_rebar.num_row,
        forall|j: int|
            0 <= j < 4 * inp.web_rebar.num_row ==> #[trigger] web_cmds_model(inp)[j]
                == cross_line_model(
                web_coords_model(inp)[j / 2].0,
                web_coords_model(inp)[j / 2].1,
                rat(10),
                j % 2,
                inp.layer_name.rebar@,
            ),
        forall|p: int|
            0 <= p < inp.web_rebar.num_row ==> #[trigger] web_cmds_model(inp)[4
                * inp.web_rebar.num_row + p] == web_guide_model(inp, p),
{
}

/// The engine is deterministic: two command sequences that both match the
/// layout of one description are equal element by element - every
/// coordinate, radius, text and layer name agrees; the sequences differ at
/// most in the heap identity of their strings.
pub proof fn lemma_engine_deterministic(
    inp: RcBeamDrawing,
    c1: Seq<DrawCommand>,
    c2: Seq<DrawCommand>,
)
    requires
        c1.len() == layout_model(inp).len(),
        forall|j: int| 0 <= j < c1.len() ==> (#[trigger] c1[j])@ == layout_model(inp)[j],
        c2.len() == layout_model(inp).len(),
        forall|j: int| 0 <= j < c2.len() ==> (#[trigger] c2[j])@ == layout_model(inp)[j],
    ensures
        c1.len() == c2.len(),
        forall|j: int| 0 <= j < c1.len() ==> (#[trigger] c1[j])@ == c2[j]@,
{
}

/// A first-row count below two can never pass validation, so the engine
/// rejects it before producing any command.
pub proof fn lemma_row_count_must_be_two(inp: RcBeamDrawing)
    ensures
        inp.main_rebar.bottom_1 < 2 || inp.main_rebar.top_1 < 2 ==> !inp.valid()
            && inp.validate_spec() is Err,
{
}

} // verus!
