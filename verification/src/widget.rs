//! The progress-ring widget state and its two events.
//!
//! The state is constructed once from an init record and then changes only
//! through `update`. The current percentage is kept in milli-percent, so a
//! value of 100% is stored as `100_000`; a host that works in real-valued
//! percent multiplies by one thousand. Updates obey a latch, not a clamp:
//! a new value is accepted only while the stored value is at most 100%, so
//! a value that once passes 100% is frozen for good.

use crate::color::Color;
use crate::render::DrawCmd;
use crate::render::FULL_TURN_PM;
use crate::render::draw;
use crate::render::draw_seq;
use crate::render::render_args_wf;
use vstd::prelude::*;

verus! {

/// The state of one progress ring.
#[derive(Debug)]
pub struct CircleProgressBar {
    /// Effective start angle in degrees: the requested start angle minus the
    /// fixed cosmetic offset of 25 baked in at construction.
    pub start_at: i64,
    /// Current percentage in milli-percent.
    pub value_pm: i64,
    /// Ring thickness in pixels.
    pub thickness: i64,
    /// Whether the progress arc grows clockwise from angle zero.
    pub clockwise: bool,
    /// Side length of the square drawing area in pixels.
    pub size: i32,
    /// Color of the progress arc.
    pub percentage_color: Color,
    /// Color of the background ring.
    pub background_color: Color,
    /// Fixed display string, used when `use_label` holds.
    pub label: String,
    /// Whether the fixed label replaces the live percentage display.
    pub use_label: bool,
}

/// The two inbound events: a repaint request and a value update.
#[derive(Clone, Copy, Debug, PartialEq, Eq, Structural)]
pub enum CircleProgressBarEvents {
    Draw,
    UpdateValue(i64),
}

/// The construction-time parameters of one progress ring, with the
/// percentage in milli-percent.
#[derive(Debug)]
pub struct CircleProgressBarInit {
    pub start_at: i64,
    pub value_pm: i64,
    pub thickness: i64,
    pub clockwise: bool,
    pub size: i32,
    pub percentage_color: Color,
    pub background_color: Color,
    pub label: Option<String>,
}

/// The latch rule: a new value is taken only while the old one is at most
/// the full turn, otherwise the old value stays.
pub open spec fn latched(old_pm: i64, new_pm: i64) -> i64 {
    if old_pm <= FULL_TURN_PM {
        new_pm
    } else {
        old_pm
    }
}

impl CircleProgressBar {
    /// The bounds under which this state can be rendered and updated
    /// without leaving `i64`.
    pub open spec fn wf(self) -> bool {
        render_args_wf(self.size, self.thickness, self.start_at, self.value_pm)
    }

    /// The state after one event: a repaint request changes nothing, a value
    /// update applies the latch rule and nothing else.
    pub open spec fn stepped(self, msg: CircleProgressBarEvents) -> CircleProgressBar {
        match msg {
            CircleProgressBarEvents::Draw => self,
            CircleProgressBarEvents::UpdateValue(new_pm) => CircleProgressBar {
                value_pm: latched(self.value_pm, new_pm),
                ..self
            },
        }
    }

    /// Builds the state from an init record: the start angle is stored with
    /// the fixed offset of 25 degrees subtracted, a missing label becomes
    /// the empty string, and everything else is taken as given.
    pub fn init(init: CircleProgressBarInit) -> (model: CircleProgressBar)
        requires
            i64::MIN + 25 <= init.start_at,
            render_args_wf(init.size, init.thickness, (init.start_at - 25) as i64, init.value_pm),
        ensures
            model.start_at == init.start_at - 25,
            model.value_pm == init.value_pm,
            model.thickness == init.thickness,
            model.clockwise == init.clockwise,
            model.size == init.size,
            model.percentage_color == init.percentage_color,
            model.background_color == init.background_color,
            (init.label matches Some(l) ==> model.label@ == l@ && model.use_label),
            (init.label is None ==> model.label@ == Seq::<char>::empty() && !model.use_label),
            model.wf(),
    {
        let use_label = init.label.is_some();
        let label = match init.label {
            Some(l) => l,
            None => String::new(),
        };
        CircleProgressBar {
            size: init.size,
            start_at: init.start_at - 25,
            value_pm: init.value_pm,
            thickness: init.thickness,
            clockwise: init.clockwise,
            percentage_color: init.percentage_color,
            background_color: init.background_color,
            label,
            use_label,
        }
    }

    /// Handles one event and repaints: a value update applies the latch
    /// rule, a repaint request leaves the state alone; either way the
    /// result is the command sequence that paints the resulting state.
    pub fn update(&mut self, msg: CircleProgressBarEvents) -> (cmds: Vec<DrawCmd>)
        requires
            old(self).wf(),
            (msg matches CircleProgressBarEvents::UpdateValue(new_pm) ==> i64::MIN
                <= FULL_TURN_PM - new_pm <= i64::MAX),
        ensures
            *final(self) == old(self).stepped(msg),
            final(self).wf(),
            cmds@ == draw_seq(
                final(self).clockwise,
                final(self).size,
                final(self).thickness,
                final(self).start_at,
                final(self).value_pm,
                final(self).percentage_color,
                final(self).background_color,
            ),
    {
        match msg {
            CircleProgressBarEvents::UpdateValue(new_value) => {
                if self.value_pm <= FULL_TURN_PM {
                    self.value_pm = new_value;
                }
            },
            _ => {},
        }
        draw(
            self.clockwise,
            self.size,
            self.thickness,
            self.start_at,
            self.value_pm,
            &self.percentage_color,
            &self.background_color,
        )
    }
}

/// The value latch: once the stored value has passed one full turn, no
/// update event changes the state again — the value is frozen, not clamped;
/// while the stored value is at most one full turn, an update always takes
/// the new value.
pub proof fn lemma_value_latched(s: CircleProgressBar, new_pm: i64)
    ensures
        s.value_pm > FULL_TURN_PM ==> s.stepped(CircleProgressBarEvents::UpdateValue(new_pm))
            == s,
        s.value_pm <= FULL_TURN_PM ==> s.stepped(
            CircleProgressBarEvents::UpdateValue(new_pm),
        ).value_pm == new_pm,
{
}

} // verus!
