use stdr_rcbeam::command::DrawCommand;
use stdr_rcbeam::geometry::{Coord, Frac, Point};
use stdr_rcbeam::input::{
    ConfigValidationError, Dimension, LayerName, Layout, MainRebar, RcBeamDrawing, Stirrup,
    WebRebar,
};
use stdr_rcbeam::output::draw;
use stdr_rcbeam::textfmt::u64_dec;

/// The worked example: 400x600 section, cover 40, D20 bars, gap 80,
/// three bottom and two top bars, no overflow rows, no web rebar.
fn base_input() -> RcBeamDrawing {
    RcBeamDrawing {
        beam_name: "G1".to_string(),
        dimension: Dimension { beam_width: 400, beam_height: 600, cover_depth: 40 },
        main_rebar: MainRebar {
            diameter: 20,
            gap: 80,
            top_1: 2,
            top_2: 0,
            top_3: 0,
            bottom_1: 3,
            bottom_2: 0,
            bottom_3: 0,
        },
        stirrup: Stirrup { num: 4, diameter: 10, pitch: 200 },
        web_rebar: WebRebar { diameter: 10, num_row: 0 },
        layer_name: LayerName::default(),
        layout: Layout { text_height: 100 },
    }
}

fn fr_is(f: &Frac, num: i128, den: i128) -> bool {
    assert!(f.den > 0 && den > 0);
    f.num * den == num * f.den
}

fn coord_is(c: &Coord, num: i128, den: i128) -> bool {
    fr_is(&c.a, num, den) && c.b.num == 0
}

fn pt_is(p: &Point, xn: i128, xd: i128, yn: i128, yd: i128) -> bool {
    coord_is(&p.x, xn, xd) && coord_is(&p.y, yn, yd)
}

fn as_line(cmd: &DrawCommand) -> (&Point, &Point, &str) {
    match cmd {
        DrawCommand::Line { p1, p2, layer } => (p1, p2, layer.as_str()),
        _ => panic!("expected a line"),
    }
}

fn as_circle(cmd: &DrawCommand) -> (&Point, &Frac, &str) {
    match cmd {
        DrawCommand::Circle { center, radius, layer } => (center, radius, layer.as_str()),
        _ => panic!("expected a circle"),
    }
}

fn as_text(cmd: &DrawCommand) -> (&Point, &Frac, &str, &str) {
    match cmd {
        DrawCommand::Text { position, height, value, layer } => {
            (position, height, value.as_str(), layer.as_str())
        }
        _ => panic!("expected a text"),
    }
}

/// Checks the two cross-mark lines at `cmds[at]` and `cmds[at + 1]`:
/// centred on `(xn/xd, yn/yd)`, half-length `hn/hd`, 45° diagonals.
fn check_cross(cmds: &[DrawCommand], at: usize, xn: i128, xd: i128, yn: i128, yd: i128, hn: i128, hd: i128) {
    let (p1, p2, _) = as_line(&cmds[at]);
    assert!(fr_is(&p1.x.a, xn, xd) && fr_is(&p1.x.b, -hn, hd));
    assert!(fr_is(&p1.y.a, yn, yd) && fr_is(&p1.y.b, hn, hd));
    assert!(fr_is(&p2.x.a, xn, xd) && fr_is(&p2.x.b, hn, hd));
    assert!(fr_is(&p2.y.a, yn, yd) && fr_is(&p2.y.b, -hn, hd));
    let (q1, q2, _) = as_line(&cmds[at + 1]);
    assert!(fr_is(&q1.x.a, xn, xd) && fr_is(&q1.x.b, -hn, hd));
    assert!(fr_is(&q1.y.a, yn, yd) && fr_is(&q1.y.b, -hn, hd));
    assert!(fr_is(&q2.x.a, xn, xd) && fr_is(&q2.x.b, hn, hd));
    assert!(fr_is(&q2.y.a, yn, yd) && fr_is(&q2.y.b, hn, hd));
}

#[test]
fn outline_is_closed_rectangle() {
    let cmds = draw(&base_input()).unwrap();
    let corners: [(i128, i128); 4] = [(0, 0), (400, 0), (400, 600), (0, 600)];
    for j in 0..4 {
        let (p1, p2, layer) = as_line(&cmds[j]);
        let (x1, y1) = corners[j];
        let (x2, y2) = corners[(j + 1) % 4];
        assert!(pt_is(p1, x1, 1, y1, 1));
        assert!(pt_is(p2, x2, 1, y2, 1));
        assert_eq!(layer, "RC大梁");
    }
}

#[test]
fn end_to_end_example() {
    let cmds = draw(&base_input()).unwrap();
    // 4 outline + 5 bars * 3 + 0 web + 4 stirrup + 6 texts
    assert_eq!(cmds.len(), 29);

    // Bottom row: x = 50, 350, 200 (alternating fill, pitch 150), y = 50.
    // Top row: x = 50, 350, y = 550. Circle radius 10, cross half-length 11.
    let bars: [(i128, i128); 5] = [(50, 50), (350, 50), (200, 50), (50, 550), (350, 550)];
    for (k, (x, y)) in bars.iter().enumerate() {
        let at = 4 + 3 * k;
        let (center, radius, layer) = as_circle(&cmds[at]);
        assert!(pt_is(center, *x, 1, *y, 1));
        assert!(fr_is(radius, 10, 1));
        assert_eq!(layer, "RC鉄筋");
        check_cross(&cmds, at + 1, *x, 1, *y, 1, 11, 1);
    }

    // Stirrup rectangle: no overflow rows, so exactly four lines.
    let stirrup: [((i128, i128), (i128, i128)); 4] = [
        ((50, 40), (350, 40)),
        ((50, 560), (350, 560)),
        ((40, 50), (40, 550)),
        ((360, 50), (360, 550)),
    ];
    for (j, ((x1, y1), (x2, y2))) in stirrup.iter().enumerate() {
        let (p1, p2, layer) = as_line(&cmds[19 + j]);
        assert!(pt_is(p1, *x1, 1, *y1, 1));
        assert!(pt_is(p2, *x2, 1, *y2, 1));
        assert_eq!(layer, "RC鉄筋");
    }

    // Annotation block: six lines stacked down from -1000 by 200.
    let texts = ["G1", "400x600", "2-D20", "3-D20", "4-D10@200", "0-D10"];
    for (j, expect) in texts.iter().enumerate() {
        let (pos, height, value, layer) = as_text(&cmds[23 + j]);
        assert!(pt_is(pos, 0, 1, -1000 - 200 * j as i128, 1));
        assert!(fr_is(height, 100, 1));
        assert_eq!(value, *expect);
        assert_eq!(layer, "注釈");
    }
}

#[test]
fn bottom_row_symmetric_and_bounded() {
    let mut input = base_input();
    input.main_rebar.bottom_1 = 5;
    let cmds = draw(&input).unwrap();
    // Bottom-row circles are at indices 4, 7, 10, 13, 16.
    let mut xs = Vec::new();
    for k in 0..5 {
        let (center, _, _) = as_circle(&cmds[4 + 3 * k]);
        assert!(coord_is(&center.y, 50, 1));
        assert_eq!(center.x.a.den, 8); // 2 * (5 - 1)
        xs.push(center.x.a.num);
    }
    // Pitch (400 - 80 - 20) / 4 = 75: alternating fill order.
    let expect: [i128; 5] = [50, 350, 125, 275, 200];
    for k in 0..5 {
        assert_eq!(xs[k], expect[k] * 8);
    }
    // Symmetric about w/2 = 200: every bar has a mirror bar.
    for k in 0..5 {
        assert!(xs.iter().any(|x| x + xs[k] == 400 * 8));
    }
    // Extremes are cover + r and w - cover - r, and all bars lie between.
    assert_eq!(*xs.iter().min().unwrap(), 50 * 8);
    assert_eq!(*xs.iter().max().unwrap(), 350 * 8);
}

#[test]
fn web_rebar_zero_rows_draws_nothing() {
    let cmds = draw(&base_input()).unwrap();
    // 29 commands total means the web block is empty (see end_to_end_example).
    assert_eq!(cmds.len(), 29);
}

#[test]
fn web_rebar_two_rows() {
    let mut input = base_input();
    input.web_rebar.num_row = 2;
    let cmds = draw(&input).unwrap();
    // Web block: 2 rows * (2 cross-marks * 2 lines) + 2 guide lines = 10.
    assert_eq!(cmds.len(), 39);
    // dy = (600 - 80 - 40) / 3 = 160; rows at y = 60 + 160 = 220 and 380.
    let marks: [(i128, i128); 4] = [(50, 220), (350, 220), (50, 380), (350, 380)];
    for (k, (x, y)) in marks.iter().enumerate() {
        check_cross(&cmds, 19 + 2 * k, *x, 1, *y, 1, 10, 1);
    }
    // Guide lines 10 above each row, overshooting the marks by 10.
    for (p, y) in [(0usize, 230i128), (1, 390)] {
        let (p1, p2, layer) = as_line(&cmds[27 + p]);
        assert!(coord_is(&p1.x, 40, 1) && coord_is(&p1.y, y, 1));
        assert!(coord_is(&p2.x, 360, 1) && coord_is(&p2.y, y, 1));
        assert_eq!(layer, "RC鉄筋");
    }
    // Web summary text counts both bars of each row.
    let (_, _, value, _) = as_text(&cmds[39 - 1]);
    assert_eq!(value, "4-D10");
}

#[test]
fn stirrup_tie_lines_for_overflow_rows() {
    let mut input = base_input();
    input.main_rebar.bottom_2 = 2;
    input.main_rebar.bottom_3 = 2;
    input.main_rebar.top_2 = 2;
    let cmds = draw(&input).unwrap();
    // 4 outline + 11 bars * 3 + 7 stirrup + 6 texts
    assert_eq!(cmds.len(), 50);
    // Bar rows stack by the gap: bottom rows at y = 50, 130, 210 going up,
    // top rows at y = 550, 470 going down; overflow rows reuse the first
    // row's anchors, so their bars sit at x = 50 and 350.
    let (c, _, _) = as_circle(&cmds[4 + 3 * 3]);
    assert!(coord_is(&c.x, 50, 1) && coord_is(&c.y, 130, 1));
    let (c, _, _) = as_circle(&cmds[4 + 3 * 5]);
    assert!(coord_is(&c.x, 50, 1) && coord_is(&c.y, 210, 1));
    let (c, _, _) = as_circle(&cmds[4 + 3 * 7]);
    assert!(coord_is(&c.x, 50, 1) && coord_is(&c.y, 550, 1));
    let (c, _, _) = as_circle(&cmds[4 + 3 * 9]);
    assert!(coord_is(&c.x, 50, 1) && coord_is(&c.y, 470, 1));
    // Tie lines follow the four stirrup edges, in bottom-2, bottom-3,
    // top-2 order, offset from each group's first row by the gap.
    let ties: [i128; 3] = [120, 200, 460];
    for (j, y) in ties.iter().enumerate() {
        let (p1, p2, _) = as_line(&cmds[4 + 33 + 4 + j]);
        assert!(fr_is(&p1.x.a, 50, 1) && fr_is(&p1.y.a, *y, 1));
        assert!(fr_is(&p2.x.a, 350, 1) && fr_is(&p2.y.a, *y, 1));
    }
    // The bar-count texts sum every row of the group.
    let (_, _, top_text, _) = as_text(&cmds[4 + 33 + 7 + 2]);
    assert_eq!(top_text, "4-D20");
    let (_, _, bottom_text, _) = as_text(&cmds[4 + 33 + 7 + 3]);
    assert_eq!(bottom_text, "7-D20");
}

#[test]
fn engine_is_deterministic() {
    let input = base_input();
    let c1 = draw(&input).unwrap();
    let c2 = draw(&input).unwrap();
    assert_eq!(c1, c2);
}

#[test]
fn degenerate_bottom_row_fails() {
    let mut input = base_input();
    input.main_rebar.bottom_1 = 1;
    assert_eq!(draw(&input).unwrap_err(), ConfigValidationError::BottomRowTooSmall);
}

#[test]
fn degenerate_top_row_fails() {
    let mut input = base_input();
    input.main_rebar.top_1 = 0;
    assert_eq!(draw(&input).unwrap_err(), ConfigValidationError::TopRowTooSmall);
}

#[test]
fn zero_dimensions_fail() {
    let mut input = base_input();
    input.dimension.beam_width = 0;
    assert_eq!(draw(&input).unwrap_err(), ConfigValidationError::BeamWidthNotPositive);
    let mut input = base_input();
    input.dimension.beam_height = 0;
    assert_eq!(draw(&input).unwrap_err(), ConfigValidationError::BeamHeightNotPositive);
    let mut input = base_input();
    input.dimension.cover_depth = 0;
    assert_eq!(draw(&input).unwrap_err(), ConfigValidationError::CoverDepthNotPositive);
}

#[test]
fn too_small_sections_fail() {
    let mut input = base_input();
    input.dimension.beam_width = 100;
    assert_eq!(draw(&input).unwrap_err(), ConfigValidationError::WidthTooSmall);
    let mut input = base_input();
    input.dimension.beam_height = 99;
    assert_eq!(draw(&input).unwrap_err(), ConfigValidationError::HeightTooSmall);
}

#[test]
fn validate_accepts_the_example() {
    assert!(base_input().validate().is_ok());
}

#[test]
fn fraction_equality_crosses_representations() {
    let a = Frac { num: 200, den: 4 };
    let b = Frac { num: 50, den: 1 };
    assert!(a.eq_frac(&b));
    let c = Frac { num: 51, den: 1 };
    assert!(!a.eq_frac(&c));
}

#[test]
fn decimal_formatting() {
    assert_eq!(u64_dec(0), "0");
    assert_eq!(u64_dec(7), "7");
    assert_eq!(u64_dec(400), "400");
    assert_eq!(u64_dec(1234567890), "1234567890");
}

#[test]
fn default_layer_names() {
    let names = LayerName::default();
    assert_eq!(names.concrete, "RC大梁");
    assert_eq!(names.rebar, "RC鉄筋");
    assert_eq!(names.text, "注釈");
}
