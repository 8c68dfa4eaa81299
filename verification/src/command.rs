//! Drawing commands: the engine's output, consumed by a drawing sink.

use crate::geometry::{Coord, CoordV, Frac, Point, PointV, Rat};
use vstd::prelude::*;

verus! {

/// One drawing primitive, tagged with the name of the layer it belongs on.
/// The engine produces these in a fixed order; a sink serialises them and
/// owns them from then on.
#[derive(Debug, PartialEq)]
pub enum DrawCommand {
    Line { p1: Point, p2: Point, layer: String },
    Circle { center: Point, radius: Frac, layer: String },
    Polyline { points: Vec<Point>, closed: bool, layer: String },
    Text { position: Point, height: Frac, value: String, layer: String },
}

/// The mathematical value of a [`DrawCommand`]: the same shape with text
/// and layer names as character sequences.
pub enum CmdModel {
    Line { p1: PointV, p2: PointV, layer: Seq<char> },
    Circle { center: PointV, radius: Rat, layer: Seq<char> },
    Polyline { points: Seq<PointV>, closed: bool, layer: Seq<char> },
    Text { position: PointV, height: Rat, value: Seq<char>, layer: Seq<char> },
}

impl View for DrawCommand {
    type V = CmdModel;

    open spec fn view(&self) -> CmdModel {
        match self {
            DrawCommand::Line { p1, p2, layer } => CmdModel::Line {
                p1: p1@,
                p2: p2@,
                layer: layer@,
            },
            DrawCommand::Circle { center, radius, layer } => CmdModel::Circle {
                center: center@,
                radius: radius@,
                layer: layer@,
            },
            DrawCommand::Polyline { points, closed, layer } => CmdModel::Polyline {
                points: points@.map_values(|p: Point| p@),
                closed: *closed,
                layer: layer@,
            },
            DrawCommand::Text { position, height, value, layer } => CmdModel::Text {
                position: position@,
                height: height@,
                value: value@,
                layer: layer@,
            },
        }
    }
}

/// A line between two purely rational points, at the specification level.
pub open spec fn line_model(x1: Rat, y1: Rat, x2: Rat, y2: Rat, layer: Seq<char>) -> CmdModel {
    CmdModel::Line {
        p1: PointV {
            x: CoordV { a: x1, b: Rat { num: 0, den: 1 } },
            y: CoordV { a: y1, b: Rat { num: 0, den: 1 } },
        },
        p2: PointV {
            x: CoordV { a: x2, b: Rat { num: 0, den: 1 } },
            y: CoordV { a: y2, b: Rat { num: 0, den: 1 } },
        },
        layer,
    }
}

/// A line between two purely rational points, built in executable code.
pub fn make_line(x1: Frac, y1: Frac, x2: Frac, y2: Frac, layer: String) -> (r: DrawCommand)
    requires
        x1.wf(),
        y1.wf(),
        x2.wf(),
        y2.wf(),
    ensures
        r@ == line_model(x1@, y1@, x2@, y2@, layer@),
{
    DrawCommand::Line {
        p1: Point { x: Coord::exact(x1), y: Coord::exact(y1) },
        p2: Point { x: Coord::exact(x2), y: Coord::exact(y2) },
        layer,
    }
}

/// The two 45° cross-mark lines centred on `(x, y)` with half-length `half`,
/// at the specification level. `which` selects the first or the second line,
/// in the order the engine draws them: first from upper-left to lower-right,
/// then from lower-left to upper-right.
pub open spec fn cross_line_model(x: Rat, y: Rat, half: Rat, which: int, layer: Seq<char>) -> CmdModel {
    let neg = Rat { num: -half.num, den: half.den };
    if which == 0 {
        CmdModel::Line {
            p1: PointV { x: CoordV { a: x, b: neg }, y: CoordV { a: y, b: half } },
            p2: PointV { x: CoordV { a: x, b: half }, y: CoordV { a: y, b: neg } },
            layer,
        }
    } else {
        CmdModel::Line {
            p1: PointV { x: CoordV { a: x, b: neg }, y: CoordV { a: y, b: neg } },
            p2: PointV { x: CoordV { a: x, b: half }, y: CoordV { a: y, b: half } },
            layer,
        }
    }
}

/// One of the two cross-mark lines, built in executable code.
pub fn make_cross_line(x: Frac, y: Frac, half: Frac, which: bool, layer: String) -> (r: DrawCommand)
    requires
        x.wf(),
        y.wf(),
        half.wf(),
    ensures
        r@ == cross_line_model(x@, y@, half@, if which { 1int } else { 0int }, layer@),
{
    let neg = Frac { num: -half.num, den: half.den };
    if !which {
        DrawCommand::Line {
            p1: Point { x: Coord { a: x, b: neg }, y: Coord { a: y, b: half } },
            p2: Point { x: Coord { a: x, b: half }, y: Coord { a: y, b: neg } },
            layer,
        }
    } else {
        DrawCommand::Line {
            p1: Point { x: Coord { a: x, b: neg }, y: Coord { a: y, b: neg } },
            p2: Point { x: Coord { a: x, b: half }, y: Coord { a: y, b: half } },
            layer,
        }
    }
}

} // verus!
