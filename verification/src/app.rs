//! The engine: panel construction from configuration, the point-set
//! double buffer and the per-frame dispatch.
//!
//! The `App` owns the current and previous point sets and the panels.
//! Once per cycle the host draws a fresh noise offset, samples the
//! noise field and calls `reset`, which archives the current set and
//! installs the new one.  Every frame it calls `draw`, which yields
//! one command list per panel.  Click notifications arrive between
//! frames through `toggle`, so exactly one mutator is ever active.

use vstd::prelude::*;

use crate::constants::{FULL_CYCLE, MAX_DIM, NORMAL_WIDTH, SCALE, SEGMENTS};
use crate::graphics::sp_solar_info;
use crate::panels::{panel_cmds, ControlPanel, GraphType, Panel, sp_toggle, WavePanel};
use crate::points::{generate, sp_sample_x, zero_points};
use crate::text::str_eq;
use crate::types::{sp_lookup, sp_px_ok, sp_px_val, Config, ConfigError, PanelSettings};
use crate::commands::DrawCmd;
use crate::types::Point;

verus! {

/// True when one panel's settings are complete and valid: an `id`
/// naming a known panel kind, parsable `width` and `height`, a
/// `color`.
pub open spec fn sp_settings_ok(p: PanelSettings) -> bool {
    &&& sp_lookup(p.entries@, "id"@) matches Some(id) && (id == "wave"@ || id == "control"@)
    &&& sp_lookup(p.entries@, "width"@) matches Some(w) && sp_px_ok(w)
    &&& sp_lookup(p.entries@, "height"@) matches Some(h) && sp_px_ok(h)
    &&& sp_lookup(p.entries@, "color"@) is Some
}

/// The error that invalid settings produce, fields checked in the
/// fixed order `id`, `width`, `height`, `color`, then the panel kind.
pub open spec fn sp_settings_err(p: PanelSettings, e: ConfigError) -> bool {
    let id = sp_lookup(p.entries@, "id"@);
    let w = sp_lookup(p.entries@, "width"@);
    let h = sp_lookup(p.entries@, "height"@);
    let c = sp_lookup(p.entries@, "color"@);
    if id is None {
        e matches ConfigError::MissingField { key } && key@ == "id"@
    } else if w is None {
        e matches ConfigError::MissingField { key } && key@ == "width"@
    } else if !sp_px_ok(w->Some_0) {
        e matches ConfigError::InvalidNumber { key } && key@ == "width"@
    } else if h is None {
        e matches ConfigError::MissingField { key } && key@ == "height"@
    } else if !sp_px_ok(h->Some_0) {
        e matches ConfigError::InvalidNumber { key } && key@ == "height"@
    } else if c is None {
        e matches ConfigError::MissingField { key } && key@ == "color"@
    } else if id->Some_0 != "wave"@ && id->Some_0 != "control"@ {
        e matches ConfigError::UnknownPanel { id: pid } && pid@ == id->Some_0
    } else {
        false
    }
}

/// The panel that valid settings construct: the kind chosen by `id`,
/// the dimensions and colors taken over, a wave panel starting in the
/// waveform mode with its solar geometry derived from the height.
pub open spec fn sp_panel_matches(panel: Panel, bg: Seq<char>, p: PanelSettings) -> bool {
    let id = sp_lookup(p.entries@, "id"@)->Some_0;
    let w = sp_px_val(sp_lookup(p.entries@, "width"@)->Some_0);
    let h = sp_px_val(sp_lookup(p.entries@, "height"@)->Some_0);
    let color = sp_lookup(p.entries@, "color"@)->Some_0;
    if id == "wave"@ {
        panel matches Panel::Wave(wp) && {
            &&& wp.g.width == w
            &&& wp.g.height == h
            &&& wp.g.bgcolor@ == bg
            &&& wp.g.color@ == color
            &&& wp.g.solar_info == sp_solar_info(h)
            &&& wp.graph_type == GraphType::Radio
        }
    } else {
        panel matches Panel::Control(cp) && {
            &&& cp.g.width == w
            &&& cp.g.height == h
            &&& cp.g.bgcolor@ == bg
            &&& cp.g.color@ == color
            &&& cp.g.font_px == crate::graphics::sp_font_px(h)
        }
    }
}

/// A panel with the given size re-applied; everything else, the
/// render mode and the construction-time font and solar geometry
/// included, stays.
pub open spec fn sp_panel_resize(p: Panel, w: int, h: int) -> Panel {
    match p {
        Panel::Wave(wp) => Panel::Wave(
            WavePanel {
                g: crate::graphics::WaveGraphics {
                    width: w as i64,
                    height: h as i64,
                    bgcolor: wp.g.bgcolor,
                    color: wp.g.color,
                    solar_info: wp.g.solar_info,
                },
                graph_type: wp.graph_type,
            },
        ),
        Panel::Control(cp) => Panel::Control(
            ControlPanel {
                g: crate::graphics::ControlGraphics {
                    width: w as i64,
                    height: h as i64,
                    bgcolor: cp.g.bgcolor,
                    color: cp.g.color,
                    font_px: cp.g.font_px,
                    font: cp.g.font,
                },
            },
        ),
    }
}

/// A panel with its render mode advanced, if it has one.
pub open spec fn sp_panel_toggle(p: Panel) -> Panel {
    match p {
        Panel::Wave(wp) => Panel::Wave(
            WavePanel { g: wp.g, graph_type: sp_toggle(wp.graph_type) },
        ),
        Panel::Control(cp) => Panel::Control(cp),
    }
}

/// The engine state: the point-set double buffer and the panels.
pub struct App {
    /// The point set of the running cycle, regenerated at each wrap.
    pub points: Vec<Point>,
    /// The point set of the prior completed cycle, all zeros before
    /// the first cycle.
    pub points_prev: Vec<Point>,
    /// The rendering targets, in configuration order.
    pub panels: Vec<Panel>,
}

impl App {
    /// The double-buffer invariant: both sets empty before the first
    /// cycle, both of full length afterwards, every point sound, every
    /// panel sound.
    pub open spec fn wf(&self) -> bool {
        &&& self.points@.len() == self.points_prev@.len()
        &&& (self.points@.len() == 0 || self.points@.len() == SEGMENTS)
        &&& forall|i: int| 0 <= i < self.points@.len() ==> (#[trigger] self.points@[i]).wf()
        &&& forall|i: int|
            0 <= i < self.points_prev@.len() ==> (#[trigger] self.points_prev@[i]).wf()
        &&& forall|i: int| 0 <= i < self.panels@.len() ==> (#[trigger] self.panels@[i]).wf()
    }

    /// True once the first cycle has begun and the buffers are filled.
    pub open spec fn ready(&self) -> bool {
        self.points@.len() == SEGMENTS
    }

    /// Builds the engine from a configuration: one panel per settings
    /// entry, in order.  Returns the first configuration error, if
    /// any, before any panel of a later entry is looked at.
    pub fn new(config: &Config) -> (r: Result<App, ConfigError>)
        ensures
            r matches Ok(app) ==> {
                &&& app.wf()
                &&& app.points@.len() == 0
                &&& app.points_prev@.len() == 0
                &&& app.panels@.len() == config.panels@.len()
                &&& forall|i: int|
                    0 <= i < config.panels@.len() ==> sp_settings_ok(#[trigger] config.panels@[i])
                        && sp_panel_matches(app.panels@[i], config.bgcolor@, config.panels@[i])
            },
            r matches Err(e) ==> exists|i: int|
                {
                    &&& 0 <= i < config.panels@.len()
                    &&& sp_settings_err(#[trigger] config.panels@[i], e)
                    &&& forall|j: int| 0 <= j < i ==> sp_settings_ok(#[trigger] config.panels@[j])
                },
    {
        let mut panels: Vec<Panel> = Vec::new();
        let n = config.panels.len();
        let mut i: usize = 0;
        while i < n
            invariant
                0 <= i <= n,
                n == config.panels@.len(),
                panels@.len() == i,
                forall|j: int| 0 <= j < i ==> (#[trigger] panels@[j]).wf(),
                forall|j: int|
                    0 <= j < i ==> sp_settings_ok(#[trigger] config.panels@[j]) && sp_panel_matches(
                        panels@[j],
                        config.bgcolor@,
                        config.panels@[j],
                    ),
            decreases n - i,
        {
            let settings = &config.panels[i];
            let id = match settings.ok("id") {
                Ok(v) => v,
                Err(e) => {
                    return Err(e);
                },
            };
            let width = match settings.ok_px("width") {
                Ok(v) => v,
                Err(e) => {
                    return Err(e);
                },
            };
            let height = match settings.ok_px("height") {
                Ok(v) => v,
                Err(e) => {
                    return Err(e);
                },
            };
            let color = match settings.ok("color") {
                Ok(v) => v,
                Err(e) => {
                    return Err(e);
                },
            };
            if str_eq(id.as_str(), "wave") {
                let panel = WavePanel::new(
                    width,
                    height,
                    config.bgcolor.as_str(),
                    color.as_str(),
                );
                panels.push(Panel::Wave(panel));
            } else if str_eq(id.as_str(), "control") {
                let panel = ControlPanel::new(
                    width,
                    height,
                    config.bgcolor.as_str(),
                    color.as_str(),
                );
                panels.push(Panel::Control(panel));
            } else {
                return Err(ConfigError::UnknownPanel { id });
            }
            i = i + 1;
        }
        Ok(App { points: Vec::new(), points_prev: Vec::new(), panels })
    }

    /// Begins a new cycle: archives the current point set as the
    /// previous one (an all-zero set before the first cycle) and
    /// installs the set generated from the host's noise samples.
    /// Panels are untouched; the host re-applies their sizes itself
    /// when it has new measurements.
    pub fn reset(&mut self, ys: &Vec<i64>)
        requires
            old(self).wf(),
            ys@.len() == SEGMENTS,
            forall|i: int| 0 <= i < ys@.len() ==> -SCALE <= #[trigger] ys@[i] <= SCALE,
        ensures
            final(self).wf(),
            final(self).ready(),
            final(self).panels == old(self).panels,
            final(self).points@.len() == SEGMENTS,
            forall|i: int|
                0 <= i < SEGMENTS ==> #[trigger] final(self).points@[i] == (Point {
                    x: sp_sample_x(i, SEGMENTS as int, NORMAL_WIDTH as int) as i64,
                    y: ys@[i],
                }),
            old(self).points@.len() == 0 ==> (final(self).points_prev@.len() == SEGMENTS
                && forall|i: int|
                0 <= i < SEGMENTS ==> #[trigger] final(self).points_prev@[i] == (Point {
                    x: 0i64,
                    y: 0i64,
                })),
            old(self).points@.len() != 0 ==> final(self).points_prev == old(self).points,
    {
        let mut fresh = generate(SEGMENTS, NORMAL_WIDTH, ys);
        core::mem::swap(&mut self.points, &mut fresh);
        if fresh.len() == 0 {
            self.points_prev = zero_points(SEGMENTS);
        } else {
            self.points_prev = fresh;
        }
    }

    /// One frame: the command list of every panel, in panel order, all
    /// from the same current/previous pair and counter.
    pub fn draw(&self, counter: u32) -> (frames: Vec<Vec<DrawCmd>>)
        requires
            self.wf(),
            self.ready(),
            counter <= FULL_CYCLE,
        ensures
            frames@.len() == self.panels@.len(),
            forall|i: int|
                0 <= i < frames@.len() ==> panel_cmds(
                    #[trigger] frames@[i]@,
                    self.panels@[i],
                    self.points@,
                    self.points_prev@,
                    counter as int,
                ),
    {
        let mut frames: Vec<Vec<DrawCmd>> = Vec::new();
        let n = self.panels.len();
        let mut i: usize = 0;
        while i < n
            invariant
                0 <= i <= n,
                self.wf(),
                self.ready(),
                counter <= FULL_CYCLE,
                n == self.panels@.len(),
                frames@.len() == i,
                forall|k: int|
                    0 <= k < i ==> panel_cmds(
                        #[trigger] frames@[k]@,
                        self.panels@[k],
                        self.points@,
                        self.points_prev@,
                        counter as int,
                    ),
            decreases n - i,
        {
            let panel = &self.panels[i];
            let cmds = panel.draw(&self.points, &self.points_prev, counter);
            frames.push(cmds);
            i = i + 1;
        }
        frames
    }

    /// Applies one queued click notification: advances the render mode
    /// of the addressed panel, if it is a wave panel.  The host drains
    /// its click queue between frames, never during a draw.
    pub fn toggle(&mut self, index: usize)
        requires
            old(self).wf(),
            index < old(self).panels@.len(),
        ensures
            final(self).wf(),
            final(self).points == old(self).points,
            final(self).points_prev == old(self).points_prev,
            final(self).panels@.len() == old(self).panels@.len(),
            final(self).panels@[index as int] == sp_panel_toggle(
                old(self).panels@[index as int],
            ),
            forall|j: int|
                0 <= j < old(self).panels@.len() && j != index ==> final(self).panels@[j] == old(
                    self,
                ).panels@[j],
    {
        let panel = self.panels.remove(index);
        let toggled = match panel {
            Panel::Wave(mut wp) => {
                wp.toggle();
                Panel::Wave(wp)
            },
            other => other,
        };
        self.panels.insert(index, toggled);
        proof {
            assert(self.panels@ =~= old(self).panels@.update(
                index as int,
                sp_panel_toggle(old(self).panels@[index as int]),
            ));
        }
    }

    /// Re-applies one panel's size, as measured by the host at a
    /// cycle boundary.  Colors, render mode and construction-time
    /// geometry are kept.
    pub fn reset_panel(&mut self, index: usize, width: i64, height: i64)
        requires
            old(self).wf(),
            index < old(self).panels@.len(),
            SCALE <= width <= MAX_DIM,
            SCALE <= height <= MAX_DIM,
        ensures
            final(self).wf(),
            final(self).points == old(self).points,
            final(self).points_prev == old(self).points_prev,
            final(self).panels@.len() == old(self).panels@.len(),
            final(self).panels@[index as int] == sp_panel_resize(
                old(self).panels@[index as int],
                width as int,
                height as int,
            ),
            forall|j: int|
                0 <= j < old(self).panels@.len() && j != index ==> final(self).panels@[j] == old(
                    self,
                ).panels@[j],
    {
        let panel = self.panels.remove(index);
        let applied = match panel {
            Panel::Wave(mut wp) => {
                wp.reset(width, height);
                Panel::Wave(wp)
            },
            Panel::Control(mut cp) => {
                cp.reset(width, height);
                Panel::Control(cp)
            },
        };
        self.panels.insert(index, applied);
        proof {
            assert(self.panels@ =~= old(self).panels@.update(
                index as int,
                sp_panel_resize(old(self).panels@[index as int], width as int, height as int),
            ));
        }
    }
}

} // verus!
