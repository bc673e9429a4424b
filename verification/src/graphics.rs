//! The three render paths and their geometry.
//!
//! Each `render_*` function is a pure dispatcher step: from the
//! current and previous point sets, the frame counter and the panel
//! geometry it computes the exact list of drawing commands for one
//! frame.  `WaveGraphics` draws the animated area in one of three
//! modes; `ControlGraphics` draws the numeric readout overlay.

use vstd::arithmetic::div_mod::lemma_fundamental_div_mod_converse_div;
use vstd::prelude::*;
use vstd::string::StringExecFns;

use crate::commands::{
    clear_cmds,
    cmd_is_fill_rect,
    cmd_is_fill_text,
    cmd_is_line_to,
    cmd_is_move_to,
    cmd_is_rotate,
    cmd_is_set_fill,
    cmd_is_set_font,
    cmd_is_set_stroke,
    cmd_is_translate,
    DrawCmd,
};
use crate::constants::{FULL_CYCLE, MAX_DIM, NORMAL_WIDTH, PI_MICRO, SCALE, SCALE2, SEGMENTS};
use crate::cycle::{
    ease_in_out_quad,
    relative_pos_full,
    relative_pos_half,
    sp_ease_in_out_quad,
    sp_rel_full,
    sp_rel_half,
};
use crate::fixed::{
    lemma_div_bound,
    lemma_mul_ratio_bound,
    lemma_mul_ratio_in_range,
    lerp_fixed,
    mul_ratio,
    round_fixed,
    sp_lerp,
    sp_mul_ratio,
    sp_round_fixed,
};
use crate::text::{format_fixed5, sp_digits, sp_format_fixed5, u64_to_string};
use crate::types::Point;

verus! {

/// The vertical amplification of noise values: one fifth of the panel
/// height (the 0.2 amplitude factor of the animation).
pub open spec fn sp_amplify(h: int) -> int {
    h / 5
}

/// The vertical center line of a panel.
pub open spec fn sp_half_h(h: int) -> int {
    h / 2
}

/// Where a point's nominal x position falls within the 0..=1 span.
pub open spec fn sp_x_ratio(px: int) -> int {
    px * SCALE / (NORMAL_WIDTH as int)
}

/// A point's x position scaled from the nominal domain onto a panel of
/// width `w` and rounded to a whole pixel.
pub open spec fn sp_screen_x(px: int, w: int) -> int {
    sp_round_fixed(sp_mul_ratio(w, sp_x_ratio(px), SCALE as int))
}

/// The eased triangular progress ratio at frame `c`, at squared scale.
pub open spec fn sp_eased(c: int) -> int {
    sp_ease_in_out_quad(sp_rel_half(c))
}

/// The waveform y position of a point: its noise value scaled by the
/// eased progress, amplified, centered on the panel and rounded.
pub open spec fn sp_radio_y(py: int, c: int, h: int) -> int {
    sp_round_fixed(
        sp_mul_ratio(sp_mul_ratio(py, sp_eased(c), SCALE2 as int), sp_amplify(h), SCALE as int)
            + sp_half_h(h),
    )
}

/// The half-height of a mirrored bar: the previous noise value blended
/// into the current one by the cycle progress, amplified and rounded.
pub open spec fn sp_bar_h(py_prev: int, py_cur: int, c: int, h: int) -> int {
    sp_round_fixed(
        sp_mul_ratio(
            sp_lerp(py_prev, py_cur, sp_rel_full(c), SCALE as int),
            sp_amplify(h),
            SCALE as int,
        ),
    )
}

/// A noise value mapped from -1..=1 into 0..=1.
pub open spec fn sp_norm(py: int) -> int {
    (py + SCALE) / 2
}

/// The length of a solar bar: the normalized previous and current
/// noise values blended by the cycle progress, scaled onto the
/// available radial length and rounded.
pub open spec fn sp_solar_len(py_prev: int, py_cur: int, c: int, max_length: int) -> int {
    sp_round_fixed(
        sp_mul_ratio(
            max_length,
            sp_lerp(sp_norm(py_prev), sp_norm(py_cur), sp_rel_full(c), SCALE as int),
            SCALE as int,
        ),
    )
}

/// The commands of one waveform (radio) frame: a stroked polyline from
/// the left center anchor through every point to the right center
/// anchor.
pub open spec fn radio_cmds(
    s: Seq<DrawCmd>,
    points: Seq<Point>,
    c: int,
    w: int,
    h: int,
    color: Seq<char>,
) -> bool {
    let n = points.len() as int;
    &&& s.len() == n + 7
    &&& s[0] == DrawCmd::Save
    &&& cmd_is_set_stroke(s[1], color)
    &&& s[2] == DrawCmd::BeginPath
    &&& cmd_is_move_to(s[3], 0, sp_round_fixed(sp_half_h(h)))
    &&& forall|i: int|
        0 <= i < n ==> cmd_is_line_to(
            #[trigger] s[4 + i],
            sp_screen_x(points[i].x as int, w),
            sp_radio_y(points[i].y as int, c, h),
        )
    &&& cmd_is_line_to(s[n + 4], w, sp_half_h(h))
    &&& s[n + 5] == DrawCmd::Stroke
    &&& s[n + 6] == DrawCmd::Restore
}

/// The commands of one bars frame: per point two mirrored rectangles
/// above and below the center line.
pub open spec fn bars_cmds(
    s: Seq<DrawCmd>,
    points: Seq<Point>,
    prev: Seq<Point>,
    c: int,
    w: int,
    h: int,
    color: Seq<char>,
) -> bool {
    let n = points.len() as int;
    let hh = sp_round_fixed(sp_half_h(h));
    let uw = sp_round_fixed(w / (SEGMENTS as int) - 2 * SCALE);
    &&& s.len() == 2 * n + 3
    &&& s[0] == DrawCmd::Save
    &&& cmd_is_set_fill(s[1], color)
    &&& forall|i: int|
        0 <= i < n ==> cmd_is_fill_rect(
            #[trigger] s[2 + 2 * i],
            sp_screen_x(points[i].x as int, w),
            hh,
            uw,
            sp_bar_h(prev[i].y as int, points[i].y as int, c, h),
        )
    &&& forall|i: int|
        0 <= i < n ==> cmd_is_fill_rect(
            #[trigger] s[3 + 2 * i],
            sp_screen_x(points[i].x as int, w),
            hh,
            uw,
            -sp_bar_h(prev[i].y as int, points[i].y as int, c, h),
        )
    &&& s[2 * n + 2] == DrawCmd::Restore
}

/// The commands of one solar frame: the origin moved to the panel
/// center, then per angular segment an independently rotated radial
/// bar.
pub open spec fn solar_cmds(
    s: Seq<DrawCmd>,
    points: Seq<Point>,
    prev: Seq<Point>,
    c: int,
    w: int,
    h: int,
    color: Seq<char>,
    sol: SolarInfo,
) -> bool {
    let n = sol.num_of_bars as int;
    let bar_h = sp_round_fixed(sol.size as int);
    let bar_y = -sp_round_fixed(bar_h / 2);
    let bar_x = sp_round_fixed(sol.radius_inner as int);
    &&& s.len() == 4 * n + 4
    &&& s[0] == DrawCmd::Save
    &&& cmd_is_set_fill(s[1], color)
    &&& cmd_is_translate(s[2], w / 2, h / 2)
    &&& forall|i: int| 0 <= i < n ==> #[trigger] s[3 + 4 * i] == DrawCmd::Save
    &&& forall|i: int| 0 <= i < n ==> cmd_is_rotate(#[trigger] s[4 + 4 * i], i * 360, n)
    &&& forall|i: int|
        0 <= i < n ==> cmd_is_fill_rect(
            #[trigger] s[5 + 4 * i],
            bar_x,
            bar_y,
            sp_solar_len(prev[i].y as int, points[i].y as int, c, sol.max_length as int),
            bar_h,
        )
    &&& forall|i: int| 0 <= i < n ==> #[trigger] s[6 + 4 * i] == DrawCmd::Restore
    &&& s[4 * n + 3] == DrawCmd::Restore
}

/// The commands of one readout frame: the first point's amplitude,
/// times ten, printed with five decimal places.
pub open spec fn control_cmds(
    s: Seq<DrawCmd>,
    points: Seq<Point>,
    font_px: int,
    font: Seq<char>,
    color: Seq<char>,
) -> bool {
    let y0 = points[0].y as int;
    let shown = (if y0 >= 0 {
        y0
    } else {
        -y0
    }) * 10;
    &&& s.len() == 5
    &&& s[0] == DrawCmd::Save
    &&& cmd_is_set_fill(s[1], color)
    &&& cmd_is_set_font(s[2], font)
    &&& cmd_is_fill_text(s[3], sp_format_fixed5(shown), 5 * SCALE, font_px * SCALE)
    &&& s[4] == DrawCmd::Restore
}

/// How many radial bars the solar mode draws: two fifths of the
/// segment count, rounded to the nearest integer.
pub fn solar_bar_count() -> (n: i64)
    ensures
        n == (SEGMENTS as int * 4 + 5) / 10,
        1 <= n <= SEGMENTS,
{
    proof {
        lemma_fundamental_div_mod_converse_div(SEGMENTS as int * 4 + 5, 10, 44, 5);
    }
    (SEGMENTS as i64 * 4 + 5) / 10
}

/// Precomputed polar geometry for the solar render path, derived once
/// from the panel height and the number of radial bars.
#[derive(Clone, Copy, PartialEq, Eq, Structural, Debug)]
pub struct SolarInfo {
    /// Number of radial bars; the angular step is `360 / num_of_bars`
    /// degrees.
    pub num_of_bars: i64,
    /// Blank border between the disc and the panel edge.
    pub margin: i64,
    /// Outer radius of the disc.
    pub radius: i64,
    /// Radius where the bars start.
    pub radius_inner: i64,
    /// Longest possible bar, `radius - radius_inner`.
    pub max_length: i64,
    /// Thickness of one bar.
    pub size: i64,
}

impl SolarInfo {
    /// The geometric invariant: bars fit between the inner radius and
    /// the rim, and every field is bounded by the panel limits.
    pub open spec fn wf(&self) -> bool {
        &&& 1 <= self.num_of_bars <= SEGMENTS
        &&& 0 <= self.radius_inner < self.radius <= MAX_DIM
        &&& self.max_length == self.radius - self.radius_inner
        &&& 0 <= self.margin <= MAX_DIM
        &&& 0 <= self.size <= MAX_DIM
    }

    /// Derives the polar geometry from the panel height: the disc
    /// spans 99% of the height, bars start at 55% of the radius, and
    /// bar thickness divides a fifth of the circumference among the
    /// bars.
    pub fn new(canvas_height: i64, num_of_bars: i64) -> (sol: SolarInfo)
        requires
            SCALE <= canvas_height <= MAX_DIM,
            1 <= num_of_bars <= SEGMENTS,
        ensures
            sol.wf(),
            sol.num_of_bars == num_of_bars,
            sol.margin == (canvas_height - canvas_height * 99 / 100) as int / 2,
            sol.radius == canvas_height * 99 / 100 / 2,
            sol.radius_inner == sol.radius * 55 / 100,
            sol.max_length == sol.radius - sol.radius_inner,
            sol.size == sp_mul_ratio(
                canvas_height * 99 / 100 / (num_of_bars as int) / 5,
                PI_MICRO as int,
                SCALE as int,
            ),
    {
        let diameter: i64 = (canvas_height * 99) / 100;
        proof {
            lemma_div_bound(canvas_height * 99, MAX_DIM as int, 100);
            assert(canvas_height * 99 <= MAX_DIM * 100) by (nonlinear_arith)
                requires
                    canvas_height <= MAX_DIM,
            ;
            assert(canvas_height * 99 >= 0) by (nonlinear_arith)
                requires
                    canvas_height >= 0,
            ;
            lemma_div_bound(canvas_height * 99, canvas_height as int, 100);
            assert(canvas_height * 99 <= canvas_height * 100) by (nonlinear_arith)
                requires
                    canvas_height >= 0,
            ;
            assert(canvas_height * 99 >= 100 * 100) by (nonlinear_arith)
                requires
                    canvas_height >= SCALE,
            ;
            lemma_div_bound(100int * 100, canvas_height * 99 / 100, 100);
        }
        let margin: i64 = (canvas_height - diameter) / 2;
        let radius: i64 = diameter / 2;
        proof {
            lemma_div_bound(diameter as int, MAX_DIM as int, 2);
            assert(diameter >= 100) by {
                lemma_div_bound(100int * 100, 100, 100);
                vstd::arithmetic::div_mod::lemma_div_is_ordered(
                    100int * 100,
                    canvas_height * 99,
                    100,
                );
            }
            lemma_div_bound(100int, radius as int, 2);
        }
        let radius_inner: i64 = (radius * 55) / 100;
        proof {
            assert(radius * 55 >= 0) by (nonlinear_arith)
                requires
                    radius >= 0,
            ;
            assert(radius * 55 <= (radius - 1) * 100) by (nonlinear_arith)
                requires
                    radius >= 50,
            ;
            lemma_div_bound(radius * 55, radius - 1, 100);
        }
        let max_length: i64 = radius - radius_inner;
        let t0: i64 = diameter / num_of_bars;
        let t1: i64 = t0 / 5;
        proof {
            assert(diameter <= diameter * num_of_bars) by (nonlinear_arith)
                requires
                    diameter >= 0,
                    num_of_bars >= 1,
            ;
            lemma_div_bound(diameter as int, diameter as int, num_of_bars as int);
            lemma_div_bound(t0 as int, 2_000_000_000, 5);
            assert(t1 * PI_MICRO <= 6_300_000_000_000_000) by (nonlinear_arith)
                requires
                    0 <= t1 <= 2_000_000_000,
                    PI_MICRO == 3_141_593,
            ;
        }
        let size: i64 = mul_ratio(t1, PI_MICRO, SCALE);
        proof {
            lemma_mul_ratio_bound(t1 as int, PI_MICRO as int, SCALE as int, MAX_DIM as int);
        }
        SolarInfo { num_of_bars, margin, radius, radius_inner, max_length, size }
    }

    /// The angular step between consecutive bars, as the exact
    /// rational `360 / num_of_bars` in degrees.
    pub fn angle_step(&self) -> (step: (i64, i64))
        ensures
            step.0 == 360,
            step.1 == self.num_of_bars,
    {
        (360, self.num_of_bars)
    }
}

/// The solar geometry derived from a panel height: what
/// `SolarInfo::new` computes for the configured bar count.
pub open spec fn sp_solar_info(h: int) -> SolarInfo {
    let nb = (SEGMENTS as int * 4 + 5) / 10;
    let diameter = h * 99 / 100;
    let radius = diameter / 2;
    let inner = radius * 55 / 100;
    SolarInfo {
        num_of_bars: nb as i64,
        margin: ((h - diameter) / 2) as i64,
        radius: radius as i64,
        radius_inner: inner as i64,
        max_length: (radius - inner) as i64,
        size: sp_mul_ratio(diameter / nb / 5, PI_MICRO as int, SCALE as int) as i64,
    }
}

/// The pixel the font size truncates to: 80% of the panel height.
pub open spec fn sp_font_px(h: int) -> int {
    h * 4 / 5 / (SCALE as int)
}

/// A point's x position scaled onto a panel of width `w` and rounded
/// to a whole pixel.
fn screen_x(px: i64, w: i64) -> (x: i64)
    requires
        0 <= px <= NORMAL_WIDTH,
        SCALE <= w <= MAX_DIM,
    ensures
        x == sp_screen_x(px as int, w as int),
        -MAX_DIM - SCALE <= x <= MAX_DIM + SCALE,
{
    proof {
        assert(px * SCALE <= 550_000_000_000_000) by (nonlinear_arith)
            requires
                0 <= px <= 550_000_000,
                SCALE == 1_000_000,
        ;
        assert(px * SCALE >= 0) by (nonlinear_arith)
            requires
                px >= 0,
                SCALE == 1_000_000,
        ;
        lemma_div_bound(px * SCALE, SCALE as int, NORMAL_WIDTH as int);
    }
    let ratio: i64 = (px * SCALE) / NORMAL_WIDTH;
    proof {
        assert(w * ratio <= 10_000_000_000_000_000) by (nonlinear_arith)
            requires
                0 <= w <= 10_000_000_000,
                0 <= ratio <= 1_000_000,
        ;
        lemma_mul_ratio_in_range(w as int, ratio as int, SCALE as int);
    }
    let x: i64 = mul_ratio(w, ratio, SCALE);
    round_fixed(x)
}

/// The animated drawing area of one panel: its size, its colors and
/// the polar geometry for the solar mode.  Each render method turns
/// the point sets and the frame counter into one frame of commands.
pub struct WaveGraphics {
    /// Panel width in fixed-point pixels.
    pub width: i64,
    /// Panel height in fixed-point pixels.
    pub height: i64,
    /// Background color, repainted by `clear`.
    pub bgcolor: String,
    /// Foreground color for strokes and fills.
    pub color: String,
    /// Polar geometry for the solar mode, fixed at construction.
    pub solar_info: SolarInfo,
}

impl WaveGraphics {
    /// Dimensions within the configured limits and sound solar
    /// geometry.
    pub open spec fn wf(&self) -> bool {
        &&& SCALE <= self.width <= MAX_DIM
        &&& SCALE <= self.height <= MAX_DIM
        &&& self.solar_info.wf()
    }

    /// A drawing area of the given size and colors, with the solar
    /// geometry derived from the height.
    pub fn new(width: i64, height: i64, bgcolor: &str, color: &str) -> (g: WaveGraphics)
        requires
            SCALE <= width <= MAX_DIM,
            SCALE <= height <= MAX_DIM,
        ensures
            g.wf(),
            g.width == width,
            g.height == height,
            g.bgcolor@ == bgcolor@,
            g.color@ == color@,
            g.solar_info == sp_solar_info(height as int),
    {
        let num_of_bars = solar_bar_count();
        let solar_info = SolarInfo::new(height, num_of_bars);
        proof {
            assert(solar_info == sp_solar_info(height as int));
        }
        WaveGraphics {
            width,
            height,
            bgcolor: bgcolor.to_owned(),
            color: color.to_owned(),
            solar_info,
        }
    }

    /// Re-applies the panel size, as on a host resize at a cycle
    /// boundary.  The solar geometry keeps its construction-time
    /// values.
    pub fn reset(&mut self, width: i64, height: i64)
        requires
            old(self).wf(),
            SCALE <= width <= MAX_DIM,
            SCALE <= height <= MAX_DIM,
        ensures
            final(self).wf(),
            final(self).width == width,
            final(self).height == height,
            final(self).bgcolor == old(self).bgcolor,
            final(self).color == old(self).color,
            final(self).solar_info == old(self).solar_info,
    {
        self.width = width;
        self.height = height;
    }

    /// The vertical amplification: one fifth of the panel height.
    pub fn amplify_value(&self) -> (a: i64)
        requires
            self.wf(),
        ensures
            a == sp_amplify(self.height as int),
            0 <= a <= 2_000_000_000,
    {
        proof {
            lemma_div_bound(self.height as int, 2_000_000_000, 5);
        }
        self.height / 5
    }

    /// Wipes the surface and repaints the background.
    pub fn clear(&self) -> (cmds: Vec<DrawCmd>)
        ensures
            clear_cmds(cmds@, self.width as int, self.height as int, self.bgcolor@),
    {
        let mut cmds: Vec<DrawCmd> = Vec::new();
        cmds.push(DrawCmd::ClearRect { x: 0, y: 0, w: self.width, h: self.height });
        cmds.push(DrawCmd::SetFillColor { color: self.bgcolor.clone() });
        cmds.push(DrawCmd::FillRect { x: 0, y: 0, w: self.width, h: self.height });
        cmds
    }

    /// One frame of the continuous waveform: a polyline from the left
    /// center anchor through every point, eased toward its noise shape,
    /// back to the right center anchor.
    pub fn render_radio(&self, points: &Vec<Point>, counter: u32) -> (cmds: Vec<DrawCmd>)
        requires
            self.wf(),
            counter <= FULL_CYCLE,
            forall|i: int| 0 <= i < points@.len() ==> (#[trigger] points@[i]).wf(),
        ensures
            radio_cmds(
                cmds@,
                points@,
                counter as int,
                self.width as int,
                self.height as int,
                self.color@,
            ),
    {
        let half_h: i64 = self.height / 2;
        let amplify: i64 = self.amplify_value();
        let rel_pos: i64 = ease_in_out_quad(relative_pos_half(counter));
        proof {
            lemma_div_bound(self.height as int, MAX_DIM as int, 2);
        }
        let mut cmds: Vec<DrawCmd> = Vec::new();
        cmds.push(DrawCmd::Save);
        cmds.push(DrawCmd::SetStrokeColor { color: self.color.clone() });
        cmds.push(DrawCmd::BeginPath);
        cmds.push(DrawCmd::MoveTo { x: 0, y: round_fixed(half_h) });
        let n = points.len();
        let mut i: usize = 0;
        while i < n
            invariant
                self.wf(),
                counter <= FULL_CYCLE,
                n == points@.len(),
                forall|k: int| 0 <= k < n ==> (#[trigger] points@[k]).wf(),
                half_h == sp_half_h(self.height as int),
                0 <= half_h <= MAX_DIM,
                amplify == sp_amplify(self.height as int),
                0 <= amplify <= 2_000_000_000,
                rel_pos == sp_eased(counter as int),
                0 <= rel_pos <= SCALE2,
                i <= n,
                cmds@.len() == 4 + i,
                cmds@[0] == DrawCmd::Save,
                cmd_is_set_stroke(cmds@[1], self.color@),
                cmds@[2] == DrawCmd::BeginPath,
                cmd_is_move_to(cmds@[3], 0, sp_round_fixed(sp_half_h(self.height as int))),
                forall|k: int|
                    0 <= k < i ==> cmd_is_line_to(
                        #[trigger] cmds@[4 + k],
                        sp_screen_x(points@[k].x as int, self.width as int),
                        sp_radio_y(points@[k].y as int, counter as int, self.height as int),
                    ),
            decreases n - i,
        {
            let p = points[i];
            let x: i64 = screen_x(p.x, self.width);
            proof {
                assert(p.y * rel_pos <= 1_000_000_000_000_000_000 && -1_000_000_000_000_000_000
                    <= p.y * rel_pos) by (nonlinear_arith)
                    requires
                        -1_000_000 <= p.y <= 1_000_000,
                        0 <= rel_pos <= 1_000_000_000_000,
                ;
                lemma_mul_ratio_in_range(p.y as int, rel_pos as int, SCALE2 as int);
            }
            let y1: i64 = mul_ratio(p.y, rel_pos, SCALE2);
            proof {
                assert(y1 * amplify <= 2_000_000_000_000_000 && -2_000_000_000_000_000 <= y1
                    * amplify) by (nonlinear_arith)
                    requires
                        -1_000_000 <= y1 <= 1_000_000,
                        0 <= amplify <= 2_000_000_000,
                ;
                assert((if y1 >= 0 {
                    y1 as int
                } else {
                    -y1 as int
                }) * amplify <= 2_000_000_000_000_000) by (nonlinear_arith)
                    requires
                        -1_000_000 <= y1 <= 1_000_000,
                        0 <= amplify <= 2_000_000_000,
                ;
                lemma_mul_ratio_bound(y1 as int, amplify as int, SCALE as int, 2_000_000_000);
            }
            let y2: i64 = mul_ratio(y1, amplify, SCALE);
            let y: i64 = round_fixed(y2 + half_h);
            cmds.push(DrawCmd::LineTo { x, y });
            i = i + 1;
        }
        cmds.push(DrawCmd::LineTo { x: self.width, y: half_h });
        cmds.push(DrawCmd::Stroke);
        cmds.push(DrawCmd::Restore);
        cmds
    }

    /// One frame of the mirrored bars: per point two rectangles above
    /// and below the center line, their height blended from the
    /// previous toward the current noise value across the cycle.
    pub fn render_bars(&self, points: &Vec<Point>, points_prev: &Vec<Point>, counter: u32) -> (cmds:
        Vec<DrawCmd>)
        requires
            self.wf(),
            counter <= FULL_CYCLE,
            points@.len() == points_prev@.len(),
            forall|i: int| 0 <= i < points@.len() ==> (#[trigger] points@[i]).wf(),
            forall|i: int| 0 <= i < points_prev@.len() ==> (#[trigger] points_prev@[i]).wf(),
        ensures
            bars_cmds(
                cmds@,
                points@,
                points_prev@,
                counter as int,
                self.width as int,
                self.height as int,
                self.color@,
            ),
    {
        proof {
            lemma_div_bound(self.width as int, MAX_DIM as int, SEGMENTS as int);
            lemma_div_bound(self.height as int, MAX_DIM as int, 2);
        }
        let unit_w: i64 = round_fixed(self.width / (SEGMENTS as i64) - 2 * SCALE);
        let half_h: i64 = round_fixed(self.height / 2);
        let amplify: i64 = self.amplify_value();
        let rel_pos: i64 = relative_pos_full(counter);
        let mut cmds: Vec<DrawCmd> = Vec::new();
        cmds.push(DrawCmd::Save);
        cmds.push(DrawCmd::SetFillColor { color: self.color.clone() });
        let n = points.len();
        let mut i: usize = 0;
        while i < n
            invariant
                self.wf(),
                counter <= FULL_CYCLE,
                n == points@.len(),
                n == points_prev@.len(),
                forall|k: int| 0 <= k < n ==> (#[trigger] points@[k]).wf(),
                forall|k: int| 0 <= k < n ==> (#[trigger] points_prev@[k]).wf(),
                unit_w == sp_round_fixed(self.width as int / (SEGMENTS as int) - 2 * SCALE),
                half_h == sp_round_fixed(sp_half_h(self.height as int)),
                amplify == sp_amplify(self.height as int),
                0 <= amplify <= 2_000_000_000,
                rel_pos == sp_rel_full(counter as int),
                0 <= rel_pos <= SCALE,
                i <= n,
                cmds@.len() == 2 + 2 * i,
                cmds@[0] == DrawCmd::Save,
                cmd_is_set_fill(cmds@[1], self.color@),
                forall|k: int|
                    0 <= k < i ==> cmd_is_fill_rect(
                        #[trigger] cmds@[2 + 2 * k],
                        sp_screen_x(points@[k].x as int, self.width as int),
                        sp_round_fixed(sp_half_h(self.height as int)),
                        sp_round_fixed(self.width as int / (SEGMENTS as int) - 2 * SCALE),
                        sp_bar_h(
                            points_prev@[k].y as int,
                            points@[k].y as int,
                            counter as int,
                            self.height as int,
                        ),
                    ),
                forall|k: int|
                    0 <= k < i ==> cmd_is_fill_rect(
                        #[trigger] cmds@[3 + 2 * k],
                        sp_screen_x(points@[k].x as int, self.width as int),
                        sp_round_fixed(sp_half_h(self.height as int)),
                        sp_round_fixed(self.width as int / (SEGMENTS as int) - 2 * SCALE),
                        -sp_bar_h(
                            points_prev@[k].y as int,
                            points@[k].y as int,
                            counter as int,
                            self.height as int,
                        ),
                    ),
            decreases n - i,
        {
            let p = points[i];
            let q = points_prev[i];
            let x: i64 = screen_x(p.x, self.width);
            proof {
                assert((p.y - q.y) * rel_pos <= 2_000_000_000_000 && -2_000_000_000_000 <= (p.y
                    - q.y) * rel_pos) by (nonlinear_arith)
                    requires
                        -2_000_000 <= p.y - q.y <= 2_000_000,
                        0 <= rel_pos <= 1_000_000,
                ;
            }
            let y1: i64 = lerp_fixed(q.y, p.y, rel_pos, SCALE);
            proof {
                assert(y1 * amplify <= 2_000_000_000_000_000 && -2_000_000_000_000_000 <= y1
                    * amplify) by (nonlinear_arith)
                    requires
                        -1_000_000 <= y1 <= 1_000_000,
                        0 <= amplify <= 2_000_000_000,
                ;
                assert((if y1 >= 0 {
                    y1 as int
                } else {
                    -y1 as int
                }) * amplify <= 2_000_000_000_000_000) by (nonlinear_arith)
                    requires
                        -1_000_000 <= y1 <= 1_000_000,
                        0 <= amplify <= 2_000_000_000,
                ;
                lemma_mul_ratio_bound(y1 as int, amplify as int, SCALE as int, 2_000_000_000);
            }
            let y2: i64 = mul_ratio(y1, amplify, SCALE);
            let y: i64 = round_fixed(y2);
            cmds.push(DrawCmd::FillRect { x, y: half_h, w: unit_w, h: y });
            cmds.push(DrawCmd::FillRect { x, y: half_h, w: unit_w, h: -y });
            i = i + 1;
        }
        cmds.push(DrawCmd::Restore);
        cmds
    }

    /// One frame of the solar pattern: the origin moved to the panel
    /// center, then per angular segment one radial bar, each rotated
    /// to its own angle between a save/restore pair.
    pub fn render_solar(
        &self,
        points: &Vec<Point>,
        points_prev: &Vec<Point>,
        counter: u32,
    ) -> (cmds: Vec<DrawCmd>)
        requires
            self.wf(),
            counter <= FULL_CYCLE,
            points@.len() == points_prev@.len(),
            self.solar_info.num_of_bars <= points@.len(),
            forall|i: int| 0 <= i < points@.len() ==> (#[trigger] points@[i]).wf(),
            forall|i: int| 0 <= i < points_prev@.len() ==> (#[trigger] points_prev@[i]).wf(),
        ensures
            solar_cmds(
                cmds@,
                points@,
                points_prev@,
                counter as int,
                self.width as int,
                self.height as int,
                self.color@,
                self.solar_info,
            ),
    {
        let sol = self.solar_info;
        let offset_x: i64 = self.width / 2;
        let offset_y: i64 = self.height / 2;
        let rel_pos: i64 = relative_pos_full(counter);
        let bar_h: i64 = round_fixed(sol.size);
        let bar_y: i64 = -round_fixed(bar_h / 2);
        let bar_x: i64 = round_fixed(sol.radius_inner);
        let mut cmds: Vec<DrawCmd> = Vec::new();
        cmds.push(DrawCmd::Save);
        cmds.push(DrawCmd::SetFillColor { color: self.color.clone() });
        cmds.push(DrawCmd::Translate { x: offset_x, y: offset_y });
        let n: usize = sol.num_of_bars as usize;
        let mut i: usize = 0;
        while i < n
            invariant
                self.wf(),
                counter <= FULL_CYCLE,
                sol == self.solar_info,
                n == sol.num_of_bars,
                n <= points@.len(),
                points@.len() == points_prev@.len(),
                forall|k: int| 0 <= k < points@.len() ==> (#[trigger] points@[k]).wf(),
                forall|k: int| 0 <= k < points_prev@.len() ==> (#[trigger] points_prev@[k]).wf(),
                rel_pos == sp_rel_full(counter as int),
                0 <= rel_pos <= SCALE,
                bar_h == sp_round_fixed(sol.size as int),
                bar_y == -sp_round_fixed(sp_round_fixed(sol.size as int) / 2),
                bar_x == sp_round_fixed(sol.radius_inner as int),
                i <= n,
                cmds@.len() == 3 + 4 * i,
                cmds@[0] == DrawCmd::Save,
                cmd_is_set_fill(cmds@[1], self.color@),
                cmd_is_translate(cmds@[2], self.width as int / 2, self.height as int / 2),
                forall|k: int| 0 <= k < i ==> #[trigger] cmds@[3 + 4 * k] == DrawCmd::Save,
                forall|k: int|
                    0 <= k < i ==> cmd_is_rotate(
                        #[trigger] cmds@[4 + 4 * k],
                        k * 360,
                        sol.num_of_bars as int,
                    ),
                forall|k: int|
                    0 <= k < i ==> cmd_is_fill_rect(
                        #[trigger] cmds@[5 + 4 * k],
                        sp_round_fixed(sol.radius_inner as int),
                        -sp_round_fixed(sp_round_fixed(sol.size as int) / 2),
                        sp_solar_len(
                            points_prev@[k].y as int,
                            points@[k].y as int,
                            counter as int,
                            sol.max_length as int,
                        ),
                        sp_round_fixed(sol.size as int),
                    ),
                forall|k: int| 0 <= k < i ==> #[trigger] cmds@[6 + 4 * k] == DrawCmd::Restore,
            decreases n - i,
        {
            let p = points[i];
            let q = points_prev[i];
            cmds.push(DrawCmd::Save);
            cmds.push(
                DrawCmd::Rotate { deg_num: (i as i64) * 360, deg_den: sol.num_of_bars },
            );
            let np = q.normalize();
            let nc = p.normalize();
            proof {
                assert((nc.y - np.y) * rel_pos <= 2_000_000_000_000 && -2_000_000_000_000 <= (nc.y
                    - np.y) * rel_pos) by (nonlinear_arith)
                    requires
                        -1_000_000 <= nc.y - np.y <= 1_000_000,
                        0 <= rel_pos <= 1_000_000,
                ;
            }
            let wr: i64 = lerp_fixed(np.y, nc.y, rel_pos, SCALE);
            proof {
                assert(sol.max_length * wr <= 10_000_000_000_000_000 && 0 <= sol.max_length * wr)
                    by (nonlinear_arith)
                    requires
                        0 <= sol.max_length <= 10_000_000_000,
                        0 <= wr <= 1_000_000,
                ;
                lemma_mul_ratio_in_range(sol.max_length as int, wr as int, SCALE as int);
            }
            let bar_len: i64 = round_fixed(mul_ratio(sol.max_length, wr, SCALE));
            cmds.push(DrawCmd::FillRect { x: bar_x, y: bar_y, w: bar_len, h: bar_h });
            cmds.push(DrawCmd::Restore);
            i = i + 1;
        }
        cmds.push(DrawCmd::Restore);
        cmds
    }
}

/// The readout overlay of one panel: prints the first point's
/// amplitude as a five-decimal diagnostic number.
pub struct ControlGraphics {
    /// Panel width in fixed-point pixels.
    pub width: i64,
    /// Panel height in fixed-point pixels.
    pub height: i64,
    /// Background color, repainted by `clear`.
    pub bgcolor: String,
    /// Text color.
    pub color: String,
    /// Font size in whole pixels: 80% of the panel height.
    pub font_px: u64,
    /// The font specification built from `font_px`.
    pub font: String,
}

impl ControlGraphics {
    /// Dimensions within the configured limits, the font string
    /// consistent with the stored font size, which is bounded by 80%
    /// of the largest panel height.
    pub open spec fn wf(&self) -> bool {
        &&& SCALE <= self.width <= MAX_DIM
        &&& SCALE <= self.height <= MAX_DIM
        &&& self.font_px <= 8_000
        &&& self.font@ == sp_digits(self.font_px as nat) + "px serif"@
    }

    /// A readout area of the given size and colors.
    pub fn new(width: i64, height: i64, bgcolor: &str, color: &str) -> (g: ControlGraphics)
        requires
            SCALE <= width <= MAX_DIM,
            SCALE <= height <= MAX_DIM,
        ensures
            g.wf(),
            g.width == width,
            g.height == height,
            g.bgcolor@ == bgcolor@,
            g.color@ == color@,
            g.font_px == sp_font_px(height as int),
    {
        proof {
            lemma_div_bound(height * 4, 8_000_000_000, 5);
            lemma_div_bound(height as int * 4 / 5, 8_000, SCALE as int);
        }
        let font_px: u64 = (((height * 4) / 5) / SCALE) as u64;
        let mut font = u64_to_string(font_px);
        font.append("px serif");
        ControlGraphics {
            width,
            height,
            bgcolor: bgcolor.to_owned(),
            color: color.to_owned(),
            font_px,
            font,
        }
    }

    /// Re-applies the panel size, as on a host resize at a cycle
    /// boundary.  The font keeps its construction-time size.
    pub fn reset(&mut self, width: i64, height: i64)
        requires
            old(self).wf(),
            SCALE <= width <= MAX_DIM,
            SCALE <= height <= MAX_DIM,
        ensures
            final(self).wf(),
            final(self).width == width,
            final(self).height == height,
            final(self).bgcolor == old(self).bgcolor,
            final(self).color == old(self).color,
            final(self).font_px == old(self).font_px,
            final(self).font == old(self).font,
    {
        self.width = width;
        self.height = height;
    }

    /// Wipes the surface and repaints the background.
    pub fn clear(&self) -> (cmds: Vec<DrawCmd>)
        ensures
            clear_cmds(cmds@, self.width as int, self.height as int, self.bgcolor@),
    {
        let mut cmds: Vec<DrawCmd> = Vec::new();
        cmds.push(DrawCmd::ClearRect { x: 0, y: 0, w: self.width, h: self.height });
        cmds.push(DrawCmd::SetFillColor { color: self.bgcolor.clone() });
        cmds.push(DrawCmd::FillRect { x: 0, y: 0, w: self.width, h: self.height });
        cmds
    }

    /// One frame of the readout: the first point's amplitude, times
    /// ten, printed with five decimal places at the configured font.
    pub fn render_control(&self, points: &Vec<Point>) -> (cmds: Vec<DrawCmd>)
        requires
            self.wf(),
            points@.len() >= 1,
            points@[0].wf(),
        ensures
            control_cmds(cmds@, points@, self.font_px as int, self.font@, self.color@),
    {
        let y0: i64 = points[0].y;
        let shown: i64 = if y0 >= 0 {
            y0 * 10
        } else {
            (-y0) * 10
        };
        let text = format_fixed5(shown);
        let mut cmds: Vec<DrawCmd> = Vec::new();
        cmds.push(DrawCmd::Save);
        cmds.push(DrawCmd::SetFillColor { color: self.color.clone() });
        cmds.push(DrawCmd::SetFont { font: self.font.clone() });
        cmds.push(
            DrawCmd::FillText { text, x: 5 * SCALE, y: (self.font_px as i64) * SCALE },
        );
        cmds.push(DrawCmd::Restore);
        cmds
    }
}

/// The bars of one solar frame sweep the full circle.  Bar `i` stands
/// at the exact rational angle `i * 360 / num_of_bars` degrees, each
/// bar is one step of `360 / num_of_bars` degrees past the one before
/// (over the common denominator `num_of_bars`), and `num_of_bars` such
/// steps add up to exactly 360 degrees.
pub proof fn lemma_solar_full_sweep(sol: SolarInfo)
    requires
        sol.wf(),
    ensures
        (sol.num_of_bars * 360) / (sol.num_of_bars as int) == 360,
        forall|i: int|
            0 <= i < sol.num_of_bars ==> #[trigger] ((i + 1) * 360) == i * 360 + 360,
{
    vstd::arithmetic::div_mod::lemma_div_multiples_vanish(360, sol.num_of_bars as int);
    assert(sol.num_of_bars * 360 == (sol.num_of_bars as int) * 360);
    assert forall|i: int| 0 <= i < sol.num_of_bars implies #[trigger] ((i + 1) * 360) == i * 360
        + 360 by {
        assert((i + 1) * 360 == i * 360 + 360) by (nonlinear_arith);
    }
}

} // verus!
