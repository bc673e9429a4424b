//! Primitive drawing instructions.
//!
//! A render pass produces a list of these commands instead of touching
//! a surface; the host replays them against its 2D drawing context.
//! All coordinates are fixed-point pixels (multiples of `1 / SCALE` of
//! a pixel); angles are exact rationals in degrees.

use vstd::prelude::*;

verus! {

/// One primitive operation on a 2D drawing surface.
#[derive(PartialEq, Debug)]
pub enum DrawCmd {
    /// Clears the axis-aligned rectangle.
    ClearRect { x: i64, y: i64, w: i64, h: i64 },
    /// Selects the fill color for subsequent fills.
    SetFillColor { color: String },
    /// Selects the stroke color for subsequent strokes.
    SetStrokeColor { color: String },
    /// Selects the font for subsequent text.
    SetFont { font: String },
    /// Fills the axis-aligned rectangle; width or height may be
    /// negative, extending left or up as on a canvas.
    FillRect { x: i64, y: i64, w: i64, h: i64 },
    /// Draws text with its anchor at the given position.
    FillText { text: String, x: i64, y: i64 },
    /// Starts a fresh path.
    BeginPath,
    /// Moves the path cursor without drawing.
    MoveTo { x: i64, y: i64 },
    /// Extends the path with a straight segment.
    LineTo { x: i64, y: i64 },
    /// Strokes the current path.
    Stroke,
    /// Pushes the transform state.
    Save,
    /// Pops the transform state.
    Restore,
    /// Shifts the origin by the given offset.
    Translate { x: i64, y: i64 },
    /// Rotates the surface by `deg_num / deg_den` degrees.
    Rotate { deg_num: i64, deg_den: i64 },
}

/// `c` clears the rectangle at `(x, y)` sized `w` by `h`.
pub open spec fn cmd_is_clear_rect(c: DrawCmd, x: int, y: int, w: int, h: int) -> bool {
    c matches DrawCmd::ClearRect { x: cx, y: cy, w: cw, h: ch } && cx == x && cy == y && cw == w
        && ch == h
}

/// `c` selects the fill color `color`.
pub open spec fn cmd_is_set_fill(c: DrawCmd, color: Seq<char>) -> bool {
    c matches DrawCmd::SetFillColor { color: cc } && cc@ == color
}

/// `c` selects the stroke color `color`.
pub open spec fn cmd_is_set_stroke(c: DrawCmd, color: Seq<char>) -> bool {
    c matches DrawCmd::SetStrokeColor { color: cc } && cc@ == color
}

/// `c` selects the font `font`.
pub open spec fn cmd_is_set_font(c: DrawCmd, font: Seq<char>) -> bool {
    c matches DrawCmd::SetFont { font: cf } && cf@ == font
}

/// `c` fills the rectangle at `(x, y)` sized `w` by `h`.
pub open spec fn cmd_is_fill_rect(c: DrawCmd, x: int, y: int, w: int, h: int) -> bool {
    c matches DrawCmd::FillRect { x: cx, y: cy, w: cw, h: ch } && cx == x && cy == y && cw == w
        && ch == h
}

/// `c` draws the text `text` at `(x, y)`.
pub open spec fn cmd_is_fill_text(c: DrawCmd, text: Seq<char>, x: int, y: int) -> bool {
    c matches DrawCmd::FillText { text: ct, x: cx, y: cy } && ct@ == text && cx == x && cy == y
}

/// `c` moves the path cursor to `(x, y)`.
pub open spec fn cmd_is_move_to(c: DrawCmd, x: int, y: int) -> bool {
    c matches DrawCmd::MoveTo { x: cx, y: cy } && cx == x && cy == y
}

/// `c` extends the path to `(x, y)`.
pub open spec fn cmd_is_line_to(c: DrawCmd, x: int, y: int) -> bool {
    c matches DrawCmd::LineTo { x: cx, y: cy } && cx == x && cy == y
}

/// `c` shifts the origin by `(x, y)`.
pub open spec fn cmd_is_translate(c: DrawCmd, x: int, y: int) -> bool {
    c matches DrawCmd::Translate { x: cx, y: cy } && cx == x && cy == y
}

/// `c` rotates by exactly `num / den` degrees.
pub open spec fn cmd_is_rotate(c: DrawCmd, num: int, den: int) -> bool {
    c matches DrawCmd::Rotate { deg_num: cn, deg_den: cd } && cn == num && cd == den
}

/// The three commands every render pass starts with: wipe the surface
/// and repaint the background.
pub open spec fn clear_cmds(s: Seq<DrawCmd>, w: int, h: int, bgcolor: Seq<char>) -> bool {
    &&& s.len() == 3
    &&& cmd_is_clear_rect(s[0], 0, 0, w, h)
    &&& cmd_is_set_fill(s[1], bgcolor)
    &&& cmd_is_fill_rect(s[2], 0, 0, w, h)
}

} // verus!
