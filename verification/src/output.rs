//! The layout engine: from a beam description to the ordered drawing
//! commands, with the exact coordinates of every primitive.
//!
//! Emission order is fixed: outline, main rebar, web rebar, stirrup,
//! annotation text. Consumers may rely on it.

use crate::command::{cross_line_model, line_model, make_cross_line, make_line, CmdModel, DrawCommand};
use crate::geometry::{lemma_mul_bounds, mul_i128, Coord, CoordV, Frac, Point, PointV, Rat};
use crate::input::{ConfigValidationError, RcBeamDrawing};
use crate::textfmt::{dec_str, u64_dec};
use vstd::prelude::*;

verus! {

/// The whole number `n` as a rational.
pub open spec fn rat(n: int) -> Rat {
    Rat { num: n, den: 1 }
}

/// The outline: the four sides of the rectangle with corners
/// `(0,0), (w,0), (w,h), (0,h)`, drawn in that cyclic order on the
/// concrete layer.
pub open spec fn outline_model(inp: RcBeamDrawing) -> Seq<CmdModel> {
    let w = inp.dimension.beam_width as int;
    let h = inp.dimension.beam_height as int;
    let ly = inp.layer_name.concrete@;
    seq![
        line_model(rat(0), rat(0), rat(w), rat(0), ly),
        line_model(rat(w), rat(0), rat(w), rat(h), ly),
        line_model(rat(w), rat(h), rat(0), rat(h), ly),
        line_model(rat(0), rat(h), rat(0), rat(0), ly),
    ]
}

/// Draws the outline of the cross-section.
pub fn write_concrete(input: &RcBeamDrawing) -> (r: Vec<DrawCommand>)
    ensures
        r@.len() == outline_model(*input).len(),
        forall|j: int| 0 <= j < r@.len() ==> (#[trigger] r@[j])@ == outline_model(*input)[j],
{
    let zero = Frac::from_int(0);
    let w = Frac::from_int(input.dimension.beam_width as i128);
    let h = Frac::from_int(input.dimension.beam_height as i128);
    let mut r: Vec<DrawCommand> = Vec::new();
    r.push(make_line(zero, zero, w, zero, input.layer_name.concrete.clone()));
    r.push(make_line(w, zero, w, h, input.layer_name.concrete.clone()));
    r.push(make_line(w, h, zero, h, input.layer_name.concrete.clone()));
    r.push(make_line(zero, h, zero, zero, input.layer_name.concrete.clone()));
    r
}

/// The `i`-th x coordinate of a main-rebar row of the group whose first row
/// holds `n1` bars. Bars fill the row from both edges inward, alternating:
/// even indices start at `cover + diameter/2` and step right by the pitch
/// `(w - 2*cover - diameter) / (n1 - 1)` once per index pair, odd indices
/// start at `w - cover - diameter/2` and step left the same way.
pub open spec fn row_x_model(i: int, n1: int, w: int, d: int, dia: int) -> Rat {
    let span = w - 2 * d - dia;
    if i % 2 == 0 {
        Rat { num: (2 * d + dia) * (n1 - 1) + 2 * (i / 2) * span, den: 2 * (n1 - 1) }
    } else {
        Rat { num: (2 * w - 2 * d - dia) * (n1 - 1) - 2 * (i / 2) * span, den: 2 * (n1 - 1) }
    }
}

/// The centre height of bottom-group row `k` (row 0 is nearest the bottom
/// face, rows stack upward by the gap).
pub open spec fn bottom_y_model(inp: RcBeamDrawing, k: int) -> Rat {
    let d = inp.dimension.cover_depth as int;
    let dia = inp.main_rebar.diameter as int;
    let g = inp.main_rebar.gap as int;
    Rat { num: 2 * d + dia + 2 * k * g, den: 2 }
}

/// The centre height of top-group row `k` (row 0 is nearest the top face,
/// rows stack downward by the gap).
pub open spec fn top_y_model(inp: RcBeamDrawing, k: int) -> Rat {
    let h = inp.dimension.beam_height as int;
    let d = inp.dimension.cover_depth as int;
    let dia = inp.main_rebar.diameter as int;
    let g = inp.main_rebar.gap as int;
    Rat { num: 2 * h - 2 * d - dia - 2 * k * g, den: 2 }
}

/// One row of `n` rebar centres at height `y`.
pub open spec fn row_coords_model(n: int, n1: int, w: int, d: int, dia: int, y: Rat) -> Seq<(Rat, Rat)> {
    Seq::new(n as nat, |i: int| (row_x_model(i, n1, w, d, dia), y))
}

/// Every main-rebar centre, in emission order: the three bottom rows from
/// the bottom face upward, then the three top rows from the top face
/// downward. Both groups use the pitch of their own first row.
pub open spec fn rebar_coords_model(inp: RcBeamDrawing) -> Seq<(Rat, Rat)> {
    let w = inp.dimension.beam_width as int;
    let d = inp.dimension.cover_depth as int;
    let dia = inp.main_rebar.diameter as int;
    let b1 = inp.main_rebar.bottom_1 as int;
    let t1 = inp.main_rebar.top_1 as int;
    row_coords_model(b1, b1, w, d, dia, bottom_y_model(inp, 0))
        + row_coords_model(inp.main_rebar.bottom_2 as int, b1, w, d, dia, bottom_y_model(inp, 1))
        + row_coords_model(inp.main_rebar.bottom_3 as int, b1, w, d, dia, bottom_y_model(inp, 2))
        + row_coords_model(t1, t1, w, d, dia, top_y_model(inp, 0))
        + row_coords_model(inp.main_rebar.top_2 as int, t1, w, d, dia, top_y_model(inp, 1))
        + row_coords_model(inp.main_rebar.top_3 as int, t1, w, d, dia, top_y_model(inp, 2))
}

/// Appends one row of `n` rebar centres at height `y` to `dst`.
fn push_row(dst: &mut Vec<(Frac, Frac)>, n: u32, n1: u32, w: u32, d: u32, dia: u32, y: Frac)
    requires
        n1 >= 2,
        y.wf(),
    ensures
        final(dst)@.len() == old(dst)@.len() + n,
        forall|j: int| 0 <= j < old(dst)@.len() ==> #[trigger] final(dst)@[j] == old(dst)@[j],
        forall|j: int| old(dst)@.len() <= j < final(dst)@.len() ==> {
            let p = #[trigger] final(dst)@[j];
            &&& p.0.wf()
            &&& p.1.wf()
            &&& -0x100_0000_0000_0000_0000 <= p.0.num <= 0x100_0000_0000_0000_0000
            &&& p.0@ == row_x_model(j - old(dst)@.len(), n1 as int, w as int, d as int, dia as int)
            &&& p.1 == y
        },
{
    let ghost orig = dst@;
    let wi = w as i128;
    let di = d as i128;
    let diai = dia as i128;
    let n1m1 = (n1 - 1) as i128;
    let span = wi - 2 * di - diai;
    let den = 2 * n1m1;
    proof {
        lemma_mul_bounds(2 * di + diai, n1m1 as int, 0x3_0000_0000, 0x1_0000_0000);
        lemma_mul_bounds(2 * wi - 2 * di - diai, n1m1 as int, 0x5_0000_0000, 0x1_0000_0000);
    }
    let base_even = mul_i128(2 * di + diai, n1m1);
    let base_odd = mul_i128(2 * wi - 2 * di - diai, n1m1);
    let mut i: u32 = 0;
    while i < n
        invariant
            i <= n,
            n1 >= 2,
            y.wf(),
            wi == w as i128,
            di == d as i128,
            diai == dia as i128,
            n1m1 == n1 - 1,
            span == wi - 2 * di - diai,
            den == 2 * n1m1,
            base_even == (2 * di + diai) * n1m1,
            base_odd == (2 * wi - 2 * di - diai) * n1m1,
            -0x3_0000_0000_0000_0000 <= base_even <= 0x3_0000_0000_0000_0000,
            -0x5_0000_0000_0000_0000 <= base_odd <= 0x5_0000_0000_0000_0000,
            dst@.len() == orig.len() + i,
            forall|j: int| 0 <= j < orig.len() ==> #[trigger] dst@[j] == orig[j],
            forall|j: int| orig.len() <= j < dst@.len() ==> {
                let p = #[trigger] dst@[j];
                &&& p.0.wf()
                &&& p.1.wf()
                &&& -0x100_0000_0000_0000_0000 <= p.0.num <= 0x100_0000_0000_0000_0000
                &&& p.0@ == row_x_model(j - orig.len(), n1 as int, w as int, d as int, dia as int)
                &&& p.1 == y
            },
        decreases n - i,
    {
        proof {
            lemma_mul_bounds(span as int, 2 * ((i / 2) as int), 0x5_0000_0000, 0x1_0000_0000);
        }
        let step = mul_i128(span, 2 * ((i / 2) as i128));
        proof {
            let ii = i as int;
            assert((span as int) * (2 * (ii / 2)) == 2 * (ii / 2) * (span as int))
                by (nonlinear_arith);
        }
        let num = if i % 2 == 0 {
            base_even + step
        } else {
            base_odd - step
        };
        dst.push((Frac { num, den }, y));
        i = i + 1;
    }
}

/// Computes every main-rebar centre, bottom group then top group.
pub fn get_rebar_coord(input: &RcBeamDrawing) -> (r: Vec<(Frac, Frac)>)
    requires
        input.main_rebar.bottom_1 >= 2,
        input.main_rebar.top_1 >= 2,
    ensures
        r@.len() == rebar_coords_model(*input).len(),
        forall|j: int| 0 <= j < r@.len() ==> {
            let p = #[trigger] r@[j];
            let m = rebar_coords_model(*input)[j];
            &&& p.0.wf()
            &&& p.1.wf()
            &&& -0x100_0000_0000_0000_0000 <= p.0.num <= 0x100_0000_0000_0000_0000
            &&& p.0@ == m.0
            &&& p.1@ == m.1
        },
{
    let w = input.dimension.beam_width;
    let d = input.dimension.cover_depth;
    let dia = input.main_rebar.diameter;
    let di = d as i128;
    let diai = dia as i128;
    let hi = input.dimension.beam_height as i128;
    let gi = input.main_rebar.gap as i128;
    let b1 = input.main_rebar.bottom_1;
    let t1 = input.main_rebar.top_1;

    let yb0 = Frac { num: 2 * di + diai, den: 2 };
    let yb1 = Frac { num: 2 * di + diai + 2 * gi, den: 2 };
    let yb2 = Frac { num: 2 * di + diai + 4 * gi, den: 2 };
    let yt0 = Frac { num: 2 * hi - 2 * di - diai, den: 2 };
    let yt1 = Frac { num: 2 * hi - 2 * di - diai - 2 * gi, den: 2 };
    let yt2 = Frac { num: 2 * hi - 2 * di - diai - 4 * gi, den: 2 };

    let mut r: Vec<(Frac, Frac)> = Vec::new();
    push_row(&mut r, b1, b1, w, d, dia, yb0);
    push_row(&mut r, input.main_rebar.bottom_2, b1, w, d, dia, yb1);
    push_row(&mut r, input.main_rebar.bottom_3, b1, w, d, dia, yb2);
    push_row(&mut r, t1, t1, w, d, dia, yt0);
    push_row(&mut r, input.main_rebar.top_2, t1, w, d, dia, yt1);
    push_row(&mut r, input.main_rebar.top_3, t1, w, d, dia, yt2);
    r
}

/// The `j`-th main-rebar command: each centre yields a circle of radius
/// `diameter / 2` and the two 45° cross-mark lines of half-length
/// `diameter / 2 + 1`, all on the rebar layer.
pub open spec fn main_cmd_model(inp: RcBeamDrawing, j: int) -> CmdModel {
    let c = rebar_coords_model(inp)[j / 3];
    let dia = inp.main_rebar.diameter as int;
    let ly = inp.layer_name.rebar@;
    let half = Rat { num: dia + 2, den: 2 };
    if j % 3 == 0 {
        CmdModel::Circle {
            center: PointV {
                x: CoordV { a: c.0, b: rat(0) },
                y: CoordV { a: c.1, b: rat(0) },
            },
            radius: Rat { num: dia, den: 2 },
            layer: ly,
        }
    } else if j % 3 == 1 {
        cross_line_model(c.0, c.1, half, 0, ly)
    } else {
        cross_line_model(c.0, c.1, half, 1, ly)
    }
}

/// All main-rebar commands, three per centre, in centre order.
pub open spec fn main_rebar_model(inp: RcBeamDrawing) -> Seq<CmdModel> {
    Seq::new(3 * rebar_coords_model(inp).len(), |j: int| main_cmd_model(inp, j))
}

/// Draws every main rebar: a circle plus a cross-mark on each centre.
pub fn write_main_rebar(input: &RcBeamDrawing) -> (r: Vec<DrawCommand>)
    requires
        input.main_rebar.bottom_1 >= 2,
        input.main_rebar.top_1 >= 2,
    ensures
        r@.len() == main_rebar_model(*input).len(),
        forall|j: int| 0 <= j < r@.len() ==> (#[trigger] r@[j])@ == main_rebar_model(*input)[j],
{
    let coords = get_rebar_coord(input);
    let diai = input.main_rebar.diameter as i128;
    let radius = Frac { num: diai, den: 2 };
    let half = Frac { num: diai + 2, den: 2 };
    let mut r: Vec<DrawCommand> = Vec::new();
    let mut idx: usize = 0;
    while idx < coords.len()
        invariant
            idx <= coords.len(),
            input.main_rebar.bottom_1 >= 2,
            input.main_rebar.top_1 >= 2,
            diai == input.main_rebar.diameter as i128,
            radius.num == diai && radius.den == 2,
            half.num == diai + 2 && half.den == 2,
            half.wf(),
            coords@.len() == rebar_coords_model(*input).len(),
            forall|j: int| 0 <= j < coords@.len() ==> {
                let p = #[trigger] coords@[j];
                let m = rebar_coords_model(*input)[j];
                &&& p.0.wf()
                &&& p.1.wf()
                &&& p.0@ == m.0
                &&& p.1@ == m.1
            },
            r@.len() == 3 * idx,
            forall|j: int| 0 <= j < r@.len() ==> (#[trigger] r@[j])@ == main_rebar_model(*input)[j],
        decreases coords.len() - idx,
    {
        let c = coords[idx];
        r.push(DrawCommand::Circle {
            center: Point { x: Coord::exact(c.0), y: Coord::exact(c.1) },
            radius,
            layer: input.layer_name.rebar.clone(),
        });
        r.push(make_cross_line(c.0, c.1, half, false, input.layer_name.rebar.clone()));
        r.push(make_cross_line(c.0, c.1, half, true, input.layer_name.rebar.clone()));
        idx = idx + 1;
    }
    r
}

/// The `c`-th web-rebar mark point. Marks come in left/right pairs
/// (even/odd index) at fixed offsets `cover + 10` and `w - cover - 10`;
/// pair `p` sits at height `cover + diameter + (p + 1) * dy` with
/// `dy = (h - 2*cover - 2*diameter) / (num_row + 1)`.
pub open spec fn web_coord_model(inp: RcBeamDrawing, c: int) -> (Rat, Rat) {
    let w = inp.dimension.beam_width as int;
    let h = inp.dimension.beam_height as int;
    let d = inp.dimension.cover_depth as int;
    let dd = inp.main_rebar.diameter as int;
    let n = inp.web_rebar.num_row as int;
    let x = if c % 2 == 0 {
        rat(d + 10)
    } else {
        rat(w - d - 10)
    };
    let y = Rat {
        num: (d + dd) * (n + 1) + (c / 2 + 1) * (h - 2 * d - 2 * dd),
        den: n + 1,
    };
    (x, y)
}

/// Every web-rebar mark point, two per row, rows from bottom to top.
pub open spec fn web_coords_model(inp: RcBeamDrawing) -> Seq<(Rat, Rat)> {
    Seq::new((2 * inp.web_rebar.num_row) as nat, |c: int| web_coord_model(inp, c))
}

/// Computes every web-rebar mark point; empty when no web rows are asked for.
pub fn get_web_rebar_coord(input: &RcBeamDrawing) -> (r: Vec<(Frac, Frac)>)
    ensures
        r@.len() == web_coords_model(*input).len(),
        forall|j: int| 0 <= j < r@.len() ==> {
            let p = #[trigger] r@[j];
            let m = web_coords_model(*input)[j];
            &&& p.0.wf()
            &&& p.1.wf()
            &&& -0x100_0000_0000_0000_0000 <= p.0.num <= 0x100_0000_0000_0000_0000
            &&& -0x100_0000_0000_0000_0000 <= p.1.num <= 0x100_0000_0000_0000_0000
            &&& p.0@ == m.0
            &&& p.1@ == m.1
        },
{
    let mut r: Vec<(Frac, Frac)> = Vec::new();
    let n = input.web_rebar.num_row;
    if n == 0 {
        return r;
    }
    let wi = input.dimension.beam_width as i128;
    let hi = input.dimension.beam_height as i128;
    let di = input.dimension.cover_depth as i128;
    let ddi = input.main_rebar.diameter as i128;
    let den = (n as i128) + 1;
    let rise = hi - 2 * di - 2 * ddi;
    proof {
        lemma_mul_bounds(di + ddi, den as int, 0x2_0000_0000, 0x2_0000_0000);
    }
    let ybase = mul_i128(di + ddi, den);
    let xl = Frac { num: di + 10, den: 1 };
    let xr = Frac { num: wi - di - 10, den: 1 };
    let mut i: u32 = 0;
    while i < n
        invariant
            i <= n,
            n == input.web_rebar.num_row,
            n > 0,
            wi == input.dimension.beam_width as i128,
            hi == input.dimension.beam_height as i128,
            di == input.dimension.cover_depth as i128,
            ddi == input.main_rebar.diameter as i128,
            den == n + 1,
            rise == hi - 2 * di - 2 * ddi,
            ybase == (di + ddi) * (n + 1),
            -0x4_0000_0000_0000_0000 <= ybase <= 0x4_0000_0000_0000_0000,
            xl.num == di + 10 && xl.den == 1,
            xr.num == wi - di - 10 && xr.den == 1,
            r@.len() == 2 * i,
            forall|j: int| 0 <= j < r@.len() ==> {
                let p = #[trigger] r@[j];
                let m = web_coords_model(*input)[j];
                &&& p.0.wf()
                &&& p.1.wf()
                &&& -0x100_0000_0000_0000_0000 <= p.0.num <= 0x100_0000_0000_0000_0000
                &&& -0x100_0000_0000_0000_0000 <= p.1.num <= 0x100_0000_0000_0000_0000
                &&& p.0@ == m.0
                &&& p.1@ == m.1
            },
        decreases n - i,
    {
        proof {
            lemma_mul_bounds((i + 1) as int, rise as int, 0x1_0000_0000, 0x6_0000_0000);
            let ii = i as int;
            assert(((i + 1) as i128) as int * (rise as int) == (ii + 1) * (rise as int))
                by (nonlinear_arith)
                requires
                    ((i + 1) as i128) as int == ii + 1,
            ;
        }
        let ynum = ybase + mul_i128((i as i128) + 1, rise);
        let y = Frac { num: ynum, den };
        r.push((xl, y));
        r.push((xr, y));
        i = i + 1;
    }
    r
}

/// The guide line of web-rebar pair `p`: one horizontal line 10 above the
/// pair's height, overshooting each mark by 10.
pub open spec fn web_guide_model(inp: RcBeamDrawing, p: int) -> CmdModel {
    let w = inp.dimension.beam_width as int;
    let d = inp.dimension.cover_depth as int;
    let left = web_coord_model(inp, 2 * p);
    let right = web_coord_model(inp, 2 * p + 1);
    let y = Rat { num: left.1.num + 10 * left.1.den, den: left.1.den };
    line_model(rat(d), y, rat(w - d), y, inp.layer_name.rebar@)
}

/// All web-rebar commands: first a cross-mark of half-length 10 on every
/// mark point (two lines each), then one guide line per left/right pair.
/// No web rows means no commands at all.
pub open spec fn web_cmds_model(inp: RcBeamDrawing) -> Seq<CmdModel> {
    let coords = web_coords_model(inp);
    let ly = inp.layer_name.rebar@;
    Seq::new(2 * coords.len(), |j: int| cross_line_model(coords[j / 2].0, coords[j / 2].1, rat(10), j % 2, ly))
        + Seq::new(inp.web_rebar.num_row as nat, |p: int| web_guide_model(inp, p))
}

/// Draws the web rebar: cross-marks on every mark point, then the guide
/// line of each left/right pair.
pub fn write_web_rebar(input: &RcBeamDrawing) -> (r: Vec<DrawCommand>)
    ensures
        r@.len() == web_cmds_model(*input).len(),
        forall|j: int| 0 <= j < r@.len() ==> (#[trigger] r@[j])@ == web_cmds_model(*input)[j],
{
    let coords = get_web_rebar_coord(input);
    let ten = Frac { num: 10, den: 1 };
    let mut r: Vec<DrawCommand> = Vec::new();
    let mut idx: usize = 0;
    while idx < coords.len()
        invariant
            idx <= coords.len(),
            ten.num == 10 && ten.den == 1,
            coords@.len() == web_coords_model(*input).len(),
            forall|j: int| 0 <= j < coords@.len() ==> {
                let p = #[trigger] coords@[j];
                let m = web_coords_model(*input)[j];
                &&& p.0.wf()
                &&& p.1.wf()
                &&& -0x100_0000_0000_0000_0000 <= p.0.num <= 0x100_0000_0000_0000_0000
                &&& -0x100_0000_0000_0000_0000 <= p.1.num <= 0x100_0000_0000_0000_0000
                &&& p.0@ == m.0
                &&& p.1@ == m.1
            },
            r@.len() == 2 * idx,
            forall|j: int| 0 <= j < r@.len() ==> (#[trigger] r@[j])@ == web_cmds_model(*input)[j],
        decreases coords.len() - idx,
    {
        let c = coords[idx];
        r.push(make_cross_line(c.0, c.1, ten, false, input.layer_name.rebar.clone()));
        r.push(make_cross_line(c.0, c.1, ten, true, input.layer_name.rebar.clone()));
        idx = idx + 1;
    }
    let ghost crosses = r@.len() as int;
    let mut i: usize = 0;
    while i < coords.len()
        invariant
            i <= coords.len(),
            i % 2 == 0,
            coords@.len() == web_coords_model(*input).len(),
            web_coords_model(*input).len() == 2 * (input.web_rebar.num_row as int),
            forall|j: int| 0 <= j < coords@.len() ==> {
                let p = #[trigger] coords@[j];
                let m = web_coords_model(*input)[j];
                &&& p.0.wf()
                &&& p.1.wf()
                &&& -0x100_0000_0000_0000_0000 <= p.0.num <= 0x100_0000_0000_0000_0000
                &&& -0x100_0000_0000_0000_0000 <= p.1.num <= 0x100_0000_0000_0000_0000
                &&& p.0@ == m.0
                &&& p.1@ == m.1
            },
            crosses == 2 * coords@.len(),
            r@.len() == crosses + i / 2,
            forall|j: int| 0 <= j < r@.len() ==> (#[trigger] r@[j])@ == web_cmds_model(*input)[j],
        decreases coords.len() - i,
    {
        let c0 = coords[i];
        let c1 = coords[i + 1];
        let x1 = c0.0.add_int(-10);
        let y1 = c0.1.add_int(10);
        let x2 = c1.0.add_int(10);
        let y2 = c1.1.add_int(10);
        r.push(make_line(x1, y1, x2, y2, input.layer_name.rebar.clone()));
        i = i + 2;
    }
    r
}

/// The stirrup: the inset rectangle (horizontal edges inset by the rebar
/// radius `diameter / 2` from the cover line, vertical edges running
/// between the radius-inset heights), plus one tie line per occupied
/// overflow row, offset from that group's first row by one gap per row.
pub open spec fn stirrup_model(inp: RcBeamDrawing) -> Seq<CmdModel> {
    let w = inp.dimension.beam_width as int;
    let h = inp.dimension.beam_height as int;
    let d = inp.dimension.cover_depth as int;
    let dia = inp.main_rebar.diameter as int;
    let g = inp.main_rebar.gap as int;
    let ly = inp.layer_name.rebar@;
    let xl = Rat { num: 2 * d + dia, den: 2 };
    let xr = Rat { num: 2 * w - 2 * d - dia, den: 2 };
    let yb = Rat { num: 2 * d + dia, den: 2 };
    let yt = Rat { num: 2 * h - 2 * d - dia, den: 2 };
    seq![
        line_model(xl, rat(d), xr, rat(d), ly),
        line_model(xl, rat(h - d), xr, rat(h - d), ly),
        line_model(rat(d), yb, rat(d), yt, ly),
        line_model(rat(w - d), yb, rat(w - d), yt, ly),
    ]
        + (if inp.main_rebar.bottom_2 > 0 {
            seq![line_model(xl, rat(d + g), xr, rat(d + g), ly)]
        } else {
            Seq::<CmdModel>::empty()
        })
        + (if inp.main_rebar.bottom_3 > 0 {
            seq![line_model(xl, rat(d + 2 * g), xr, rat(d + 2 * g), ly)]
        } else {
            Seq::<CmdModel>::empty()
        })
        + (if inp.main_rebar.top_2 > 0 {
            seq![line_model(xl, rat(h - d - dia - g), xr, rat(h - d - dia - g), ly)]
        } else {
            Seq::<CmdModel>::empty()
        })
        + (if inp.main_rebar.top_3 > 0 {
            seq![line_model(xl, rat(h - d - dia - 2 * g), xr, rat(h - d - dia - 2 * g), ly)]
        } else {
            Seq::<CmdModel>::empty()
        })
}

/// Draws the stirrup rectangle and the tie lines of the occupied overflow
/// rows.
pub fn write_stirrup(input: &RcBeamDrawing) -> (r: Vec<DrawCommand>)
    ensures
        r@.len() == stirrup_model(*input).len(),
        forall|j: int| 0 <= j < r@.len() ==> (#[trigger] r@[j])@ == stirrup_model(*input)[j],
{
    let wi = input.dimension.beam_width as i128;
    let hi = input.dimension.beam_height as i128;
    let di = input.dimension.cover_depth as i128;
    let diai = input.main_rebar.diameter as i128;
    let gi = input.main_rebar.gap as i128;
    let xl = Frac { num: 2 * di + diai, den: 2 };
    let xr = Frac { num: 2 * wi - 2 * di - diai, den: 2 };
    let yb = Frac { num: 2 * di + diai, den: 2 };
    let yt = Frac { num: 2 * hi - 2 * di - diai, den: 2 };
    let dfr = Frac { num: di, den: 1 };
    let hmd = Frac { num: hi - di, den: 1 };
    let wmd = Frac { num: wi - di, den: 1 };
    let mut r: Vec<DrawCommand> = Vec::new();
    r.push(make_line(xl, dfr, xr, dfr, input.layer_name.rebar.clone()));
    r.push(make_line(xl, hmd, xr, hmd, input.layer_name.rebar.clone()));
    r.push(make_line(dfr, yb, dfr, yt, input.layer_name.rebar.clone()));
    r.push(make_line(wmd, yb, wmd, yt, input.layer_name.rebar.clone()));
    if input.main_rebar.bottom_2 > 0 {
        let y = Frac { num: di + gi, den: 1 };
        r.push(make_line(xl, y, xr, y, input.layer_name.rebar.clone()));
    }
    if input.main_rebar.bottom_3 > 0 {
        let y = Frac { num: di + 2 * gi, den: 1 };
        r.push(make_line(xl, y, xr, y, input.layer_name.rebar.clone()));
    }
    if input.main_rebar.top_2 > 0 {
        let y = Frac { num: hi - di - diai - gi, den: 1 };
        r.push(make_line(xl, y, xr, y, input.layer_name.rebar.clone()));
    }
    if input.main_rebar.top_3 > 0 {
        let y = Frac { num: hi - di - diai - 2 * gi, den: 1 };
        r.push(make_line(xl, y, xr, y, input.layer_name.rebar.clone()));
    }
    r
}

/// One annotation line at `x = 0`, height `th`, on the text layer.
pub open spec fn text_model(y: int, th: int, value: Seq<char>, layer: Seq<char>) -> CmdModel {
    CmdModel::Text {
        position: PointV {
            x: CoordV { a: rat(0), b: rat(0) },
            y: CoordV { a: rat(y), b: rat(0) },
        },
        height: Rat { num: th, den: 1 },
        value,
        layer,
    }
}

/// `"{w}x{h}"`: the outer dimensions summary.
pub open spec fn size_text_model(inp: RcBeamDrawing) -> Seq<char> {
    dec_str(inp.dimension.beam_width as nat) + seq!['x'] + dec_str(
        inp.dimension.beam_height as nat,
    )
}

/// `"{n}-D{dia}"`: a bar-count and diameter summary.
pub open spec fn group_text_model(n: int, dia: int) -> Seq<char> {
    dec_str(n as nat) + seq!['-', 'D'] + dec_str(dia as nat)
}

/// `"{n}-D{dia}@{pitch}"`: the stirrup summary.
pub open spec fn stirrup_text_model(inp: RcBeamDrawing) -> Seq<char> {
    group_text_model(inp.stirrup.num as int, inp.stirrup.diameter as int) + seq!['@'] + dec_str(
        inp.stirrup.pitch as nat,
    )
}

/// The annotation block: six text lines stacked downward from `y = -1000`
/// by twice the text height - beam name, outer size, total top bars, total
/// bottom bars, stirrup summary, and web-rebar summary.
pub open spec fn texts_model(inp: RcBeamDrawing) -> Seq<CmdModel> {
    let th = inp.layout.text_height as int;
    let ly = inp.layer_name.text@;
    let m = inp.main_rebar;
    seq![
        text_model(-1000, th, inp.beam_name@, ly),
        text_model(-1000 - 2 * th, th, size_text_model(inp), ly),
        text_model(
            -1000 - 4 * th,
            th,
            group_text_model(
                m.top_1 as int + m.top_2 as int + m.top_3 as int,
                m.diameter as int,
            ),
            ly,
        ),
        text_model(
            -1000 - 6 * th,
            th,
            group_text_model(
                m.bottom_1 as int + m.bottom_2 as int + m.bottom_3 as int,
                m.diameter as int,
            ),
            ly,
        ),
        text_model(-1000 - 8 * th, th, stirrup_text_model(inp), ly),
        text_model(
            -1000 - 10 * th,
            th,
            group_text_model(
                2 * inp.web_rebar.num_row as int,
                inp.web_rebar.diameter as int,
            ),
            ly,
        ),
    ]
}

/// Formats `"{n}-D{dia}"`.
fn group_text(n: u64, dia: u64) -> (s: String)
    ensures
        s@ == group_text_model(n as int, dia as int),
{
    let mut s = u64_dec(n);
    s.append("-D");
    let ds = u64_dec(dia);
    s.append(ds.as_str());
    proof {
        reveal_strlit("-D");
        assert(s@ =~= dec_str(n as nat) + seq!['-', 'D'] + dec_str(dia as nat));
    }
    s
}

/// Builds one annotation command.
fn make_text(y: Frac, th: Frac, value: String, layer: String) -> (r: DrawCommand)
    requires
        y.wf(),
        th.wf(),
    ensures
        r@ == (CmdModel::Text {
            position: PointV {
                x: CoordV { a: rat(0), b: rat(0) },
                y: CoordV { a: y@, b: rat(0) },
            },
            height: th@,
            value: value@,
            layer: layer@,
        }),
{
    let zero = Frac { num: 0, den: 1 };
    DrawCommand::Text {
        position: Point { x: Coord::exact(zero), y: Coord::exact(y) },
        height: th,
        value,
        layer,
    }
}

/// Draws the annotation block below the section.
pub fn write_texts(input: &RcBeamDrawing) -> (r: Vec<DrawCommand>)
    ensures
        r@.len() == texts_model(*input).len(),
        forall|j: int| 0 <= j < r@.len() ==> (#[trigger] r@[j])@ == texts_model(*input)[j],
{
    let thi = input.layout.text_height as i128;
    let th = Frac { num: thi, den: 1 };
    let m = &input.main_rebar;

    let name = input.beam_name.clone();

    let mut size_s = u64_dec(input.dimension.beam_width as u64);
    size_s.append("x");
    let hs = u64_dec(input.dimension.beam_height as u64);
    size_s.append(hs.as_str());
    proof {
        reveal_strlit("x");
        assert(size_s@ =~= size_text_model(*input));
    }

    let top_s = group_text(
        m.top_1 as u64 + m.top_2 as u64 + m.top_3 as u64,
        m.diameter as u64,
    );
    let bottom_s = group_text(
        m.bottom_1 as u64 + m.bottom_2 as u64 + m.bottom_3 as u64,
        m.diameter as u64,
    );

    let mut st_s = group_text(input.stirrup.num as u64, input.stirrup.diameter as u64);
    st_s.append("@");
    let ps = u64_dec(input.stirrup.pitch as u64);
    st_s.append(ps.as_str());
    proof {
        reveal_strlit("@");
        assert(st_s@ =~= stirrup_text_model(*input));
    }

    let web_s = group_text(
        2 * (input.web_rebar.num_row as u64),
        input.web_rebar.diameter as u64,
    );

    let mut r: Vec<DrawCommand> = Vec::new();
    r.push(make_text(Frac { num: -1000, den: 1 }, th, name, input.layer_name.text.clone()));
    r.push(make_text(
        Frac { num: -1000 - 2 * thi, den: 1 },
        th,
        size_s,
        input.layer_name.text.clone(),
    ));
    r.push(make_text(
        Frac { num: -1000 - 4 * thi, den: 1 },
        th,
        top_s,
        input.layer_name.text.clone(),
    ));
    r.push(make_text(
        Frac { num: -1000 - 6 * thi, den: 1 },
        th,
        bottom_s,
        input.layer_name.text.clone(),
    ));
    r.push(make_text(
        Frac { num: -1000 - 8 * thi, den: 1 },
        th,
        st_s,
        input.layer_name.text.clone(),
    ));
    r.push(make_text(
        Frac { num: -1000 - 10 * thi, den: 1 },
        th,
        web_s,
        input.layer_name.text.clone(),
    ));
    r
}

/// Everything the engine draws for a valid description, in emission order:
/// outline, main rebar, web rebar, stirrup, annotation text.
pub open spec fn layout_model(inp: RcBeamDrawing) -> Seq<CmdModel> {
    outline_model(inp) + main_rebar_model(inp) + web_cmds_model(inp) + stirrup_model(inp)
        + texts_model(inp)
}

/// The layout engine. For a valid description it returns the full command
/// sequence of [`layout_model`]; for an invalid one it returns the first
/// violated constraint and no commands at all.
pub fn draw(input: &RcBeamDrawing) -> (r: Result<Vec<DrawCommand>, ConfigValidationError>)
    ensures
        r is Ok <==> input.valid(),
        r matches Ok(cmds) ==> {
            &&& cmds@.len() == layout_model(*input).len()
            &&& forall|j: int|
                0 <= j < cmds@.len() ==> (#[trigger] cmds@[j])@ == layout_model(*input)[j]
        },
        r matches Err(e) ==> input.validate_spec() == Err::<(), ConfigValidationError>(e),
{
    if let Err(e) = input.validate() {
        return Err(e);
    }
    let mut cmds = write_concrete(input);
    let ghost s0 = cmds@;
    let mut main = write_main_rebar(input);
    let ghost m1 = main@;
    cmds.append(&mut main);
    let mut web = write_web_rebar(input);
    let ghost m2 = web@;
    cmds.append(&mut web);
    let mut stirrup = write_stirrup(input);
    let ghost m3 = stirrup@;
    cmds.append(&mut stirrup);
    let mut texts = write_texts(input);
    let ghost m4 = texts@;
    cmds.append(&mut texts);
    proof {
        assert(cmds@ == s0 + m1 + m2 + m3 + m4);
        assert forall|j: int| 0 <= j < cmds@.len() implies (#[trigger] cmds@[j])@
            == layout_model(*input)[j] by {
            let n0 = s0.len() as int;
            let n1 = m1.len() as int;
            let n2 = m2.len() as int;
            let n3 = m3.len() as int;
            if j < n0 {
                assert(cmds@[j] == s0[j]);
            } else if j < n0 + n1 {
                assert(cmds@[j] == m1[j - n0]);
            } else if j < n0 + n1 + n2 {
                assert(cmds@[j] == m2[j - n0 - n1]);
            } else if j < n0 + n1 + n2 + n3 {
                assert(cmds@[j] == m3[j - n0 - n1 - n2]);
            } else {
                assert(cmds@[j] == m4[j - n0 - n1 - n2 - n3]);
            }
        }
    }
    Ok(cmds)
}

} // verus!
