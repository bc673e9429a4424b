//! Panels: the render-mode state machine and the two panel kinds.
//!
//! A wave panel owns a drawing area and the active render mode; a
//! control panel owns a readout area.  The host toggles a wave panel's
//! mode on a click notification; each frame, `draw` turns the point
//! sets and the counter into that panel's command list.

use vstd::prelude::*;

use crate::commands::{clear_cmds, DrawCmd};
use crate::constants::{FULL_CYCLE, MAX_DIM, SCALE, SEGMENTS};
use crate::graphics::{
    bars_cmds,
    control_cmds,
    radio_cmds,
    solar_cmds,
    ControlGraphics,
    WaveGraphics,
};
use crate::types::Point;

verus! {

/// The closed set of render modes, toggled in a fixed cyclic order.
#[derive(Clone, Copy, PartialEq, Eq, Structural, Debug)]
pub enum GraphType {
    /// The continuous waveform.
    Radio,
    /// The mirrored bars.
    Bars,
    /// The radial solar pattern.
    Solar,
}

/// The cyclic successor of a render mode.
pub open spec fn sp_toggle(t: GraphType) -> GraphType {
    match t {
        GraphType::Radio => GraphType::Bars,
        GraphType::Bars => GraphType::Solar,
        GraphType::Solar => GraphType::Radio,
    }
}

impl GraphType {
    /// The next render mode in the fixed cyclic order.
    pub fn toggle(&self) -> (t: GraphType)
        ensures
            t == sp_toggle(*self),
    {
        match self {
            GraphType::Radio => GraphType::Bars,
            GraphType::Bars => GraphType::Solar,
            GraphType::Solar => GraphType::Radio,
        }
    }
}

/// Toggling is a cyclic permutation of period three: three toggles
/// return any mode to itself, and no mode is repeated or skipped
/// within one period.
pub proof fn lemma_toggle_cyclic(t: GraphType)
    ensures
        sp_toggle(sp_toggle(sp_toggle(t))) == t,
        sp_toggle(t) != t,
        sp_toggle(sp_toggle(t)) != t,
        sp_toggle(sp_toggle(t)) != sp_toggle(t),
{
}

/// The animated panel: a drawing area plus the active render mode.
pub struct WavePanel {
    /// The drawing area and its geometry.
    pub g: WaveGraphics,
    /// The active render mode; the host's click notifications advance
    /// it, the draw step only reads it.
    pub graph_type: GraphType,
}

/// The commands of one wave-panel frame: a clear followed by the
/// frame of the active render mode.
pub open spec fn wave_panel_cmds(
    s: Seq<DrawCmd>,
    p: WavePanel,
    points: Seq<Point>,
    prev: Seq<Point>,
    c: int,
) -> bool {
    let w = p.g.width as int;
    let h = p.g.height as int;
    &&& s.len() >= 3
    &&& clear_cmds(s.subrange(0, 3), w, h, p.g.bgcolor@)
    &&& match p.graph_type {
        GraphType::Radio => radio_cmds(s.skip(3), points, c, w, h, p.g.color@),
        GraphType::Bars => bars_cmds(s.skip(3), points, prev, c, w, h, p.g.color@),
        GraphType::Solar => solar_cmds(s.skip(3), points, prev, c, w, h, p.g.color@, p.g.solar_info),
    }
}

impl WavePanel {
    /// A sound drawing area.
    pub open spec fn wf(&self) -> bool {
        self.g.wf()
    }

    /// A wave panel of the given size and colors, starting in the
    /// waveform mode.
    pub fn new(width: i64, height: i64, bgcolor: &str, color: &str) -> (p: WavePanel)
        requires
            SCALE <= width <= MAX_DIM,
            SCALE <= height <= MAX_DIM,
        ensures
            p.wf(),
            p.g.width == width,
            p.g.height == height,
            p.g.bgcolor@ == bgcolor@,
            p.g.color@ == color@,
            p.g.solar_info == crate::graphics::sp_solar_info(height as int),
            p.graph_type == GraphType::Radio,
    {
        WavePanel { g: WaveGraphics::new(width, height, bgcolor, color), graph_type: GraphType::Radio }
    }

    /// Advances the render mode to its cyclic successor; the host
    /// calls this for each click notification, between frames.
    pub fn toggle(&mut self)
        ensures
            final(self).g == old(self).g,
            final(self).graph_type == sp_toggle(old(self).graph_type),
    {
        self.graph_type = self.graph_type.toggle();
    }

    /// Re-applies the panel size at a cycle boundary.
    pub fn reset(&mut self, width: i64, height: i64)
        requires
            old(self).wf(),
            SCALE <= width <= MAX_DIM,
            SCALE <= height <= MAX_DIM,
        ensures
            final(self).wf(),
            final(self).g.width == width,
            final(self).g.height == height,
            final(self).g.bgcolor == old(self).g.bgcolor,
            final(self).g.color == old(self).g.color,
            final(self).g.solar_info == old(self).g.solar_info,
            final(self).graph_type == old(self).graph_type,
    {
        self.g.reset(width, height);
    }

    /// One frame of this panel: clear, then the active mode's frame.
    pub fn draw(&self, points: &Vec<Point>, points_prev: &Vec<Point>, counter: u32) -> (cmds: Vec<
        DrawCmd,
    >)
        requires
            self.wf(),
            counter <= FULL_CYCLE,
            points@.len() == points_prev@.len(),
            points@.len() >= SEGMENTS,
            forall|i: int| 0 <= i < points@.len() ==> (#[trigger] points@[i]).wf(),
            forall|i: int| 0 <= i < points_prev@.len() ==> (#[trigger] points_prev@[i]).wf(),
        ensures
            wave_panel_cmds(cmds@, *self, points@, points_prev@, counter as int),
    {
        let mut cmds = self.g.clear();
        let mut rest = match self.graph_type {
            GraphType::Radio => self.g.render_radio(points, counter),
            GraphType::Bars => self.g.render_bars(points, points_prev, counter),
            GraphType::Solar => self.g.render_solar(points, points_prev, counter),
        };
        let ghost pre = cmds@;
        let ghost tail = rest@;
        cmds.append(&mut rest);
        proof {
            assert(cmds@.subrange(0, 3) =~= pre);
            assert(cmds@.skip(3) =~= tail);
        }
        cmds
    }
}

/// The readout panel: a readout area, no mode of its own.
pub struct ControlPanel {
    /// The readout area.
    pub g: ControlGraphics,
}

/// The commands of one control-panel frame: a clear followed by the
/// readout frame.
pub open spec fn control_panel_cmds(s: Seq<DrawCmd>, p: ControlPanel, points: Seq<Point>) -> bool {
    &&& s.len() >= 3
    &&& clear_cmds(s.subrange(0, 3), p.g.width as int, p.g.height as int, p.g.bgcolor@)
    &&& control_cmds(s.skip(3), points, p.g.font_px as int, p.g.font@, p.g.color@)
}

impl ControlPanel {
    /// A sound readout area.
    pub open spec fn wf(&self) -> bool {
        self.g.wf()
    }

    /// A control panel of the given size and colors.
    pub fn new(width: i64, height: i64, bgcolor: &str, color: &str) -> (p: ControlPanel)
        requires
            SCALE <= width <= MAX_DIM,
            SCALE <= height <= MAX_DIM,
        ensures
            p.wf(),
            p.g.width == width,
            p.g.height == height,
            p.g.bgcolor@ == bgcolor@,
            p.g.color@ == color@,
            p.g.font_px == crate::graphics::sp_font_px(height as int),
    {
        ControlPanel { g: ControlGraphics::new(width, height, bgcolor, color) }
    }

    /// Re-applies the panel size at a cycle boundary.
    pub fn reset(&mut self, width: i64, height: i64)
        requires
            old(self).wf(),
            SCALE <= width <= MAX_DIM,
            SCALE <= height <= MAX_DIM,
        ensures
            final(self).wf(),
            final(self).g.width == width,
            final(self).g.height == height,
            final(self).g.bgcolor == old(self).g.bgcolor,
            final(self).g.color == old(self).g.color,
            final(self).g.font_px == old(self).g.font_px,
            final(self).g.font == old(self).g.font,
    {
        self.g.reset(width, height);
    }

    /// One frame of this panel: clear, then the readout.
    pub fn draw(&self, points: &Vec<Point>) -> (cmds: Vec<DrawCmd>)
        requires
            self.wf(),
            points@.len() >= 1,
            points@[0].wf(),
        ensures
            control_panel_cmds(cmds@, *self, points@),
    {
        let mut cmds = self.g.clear();
        let mut rest = self.g.render_control(points);
        let ghost pre = cmds@;
        let ghost tail = rest@;
        cmds.append(&mut rest);
        proof {
            assert(cmds@.subrange(0, 3) =~= pre);
            assert(cmds@.skip(3) =~= tail);
        }
        cmds
    }
}

/// One rendering target of the animation: the closed set of panel
/// kinds, dispatched by matching.
pub enum Panel {
    /// The animated wave area.
    Wave(WavePanel),
    /// The numeric readout area.
    Control(ControlPanel),
}

/// The commands one panel contributes to a frame.
pub open spec fn panel_cmds(
    s: Seq<DrawCmd>,
    p: Panel,
    points: Seq<Point>,
    prev: Seq<Point>,
    c: int,
) -> bool {
    match p {
        Panel::Wave(wp) => wave_panel_cmds(s, wp, points, prev, c),
        Panel::Control(cp) => control_panel_cmds(s, cp, points),
    }
}

impl Panel {
    /// A sound panel of either kind.
    pub open spec fn wf(&self) -> bool {
        match self {
            Panel::Wave(p) => p.wf(),
            Panel::Control(p) => p.wf(),
        }
    }

    /// One frame of this panel.
    pub fn draw(&self, points: &Vec<Point>, points_prev: &Vec<Point>, counter: u32) -> (cmds: Vec<
        DrawCmd,
    >)
        requires
            self.wf(),
            counter <= FULL_CYCLE,
            points@.len() == points_prev@.len(),
            points@.len() >= SEGMENTS,
            forall|i: int| 0 <= i < points@.len() ==> (#[trigger] points@[i]).wf(),
            forall|i: int| 0 <= i < points_prev@.len() ==> (#[trigger] points_prev@[i]).wf(),
        ensures
            panel_cmds(cmds@, *self, points@, points_prev@, counter as int),
    {
        match self {
            Panel::Wave(p) => p.draw(points, points_prev, counter),
            Panel::Control(p) => p.draw(points),
        }
    }
}

} // verus!
