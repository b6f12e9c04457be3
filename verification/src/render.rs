//! The drawing routine: from one widget state to the exact sequence of
//! vector drawing commands that paints a progress ring.
//!
//! The drawing backend works in pixels and radians; both are real-valued, so
//! the command sequence carries them in exact integer units instead:
//!
//! * Angles are milli-percent of a full turn. The backend maps an angle `a`
//!   to `(a / 100_000) * 2 * pi` radians, the same map that takes a
//!   percentage to its share of the circle.
//! * Lengths and coordinates are half-pixels, since every coordinate the
//!   routine produces is a multiple of one half: the center of a ring of
//!   side `size` sits at `size / 2`. The backend divides by two.
//!
//! The ring is painted in two passes inside one saved, rotated coordinate
//! frame: a full background annulus, then the foreground annulus over the
//! progress arc alone. Each annulus is two concentric arcs, each preceded by
//! a move to the center so that they close into separate loops, filled under
//! the even-odd rule, which leaves the ring between them.

use crate::color::Color;
use vstd::prelude::*;

verus! {

/// One full turn, in milli-percent of the circle.
pub const FULL_TURN_PM: i64 = 100_000;

/// One command against a 2D drawing context with a transform stack, in the
/// integer units above.
#[derive(Clone, Copy, Debug, PartialEq, Eq, Structural)]
pub enum DrawCmd {
    /// Push the current transform state.
    Save,
    /// Translate the frame; coordinates in half-pixels.
    Translate { x_half: i64, y_half: i64 },
    /// Rotate the frame; angle in milli-percent of a full turn.
    Rotate { angle_pm: i64 },
    /// Begin a new sub-path at a point; coordinates in half-pixels.
    MoveTo { x_half: i64, y_half: i64 },
    /// A circular arc around a center, between two angles.
    Arc { cx_half: i64, cy_half: i64, radius_half: i64, start_pm: i64, end_pm: i64 },
    /// Select the source color for the following fill.
    SetSourceColor { color: Color },
    /// Select the even-odd winding rule for the following fill.
    SetFillRuleEvenOdd,
    /// Fill the current path and clear it.
    Fill,
    /// Pop the transform state pushed by the matching save.
    Restore,
}

/// Where the foreground arc begins. Clockwise it grows forward from angle
/// zero; counter-clockwise it occupies the end of the circle, starting at
/// the complement of the value.
pub open spec fn fg_start_pm(clockwise: bool, value_pm: i64) -> int {
    if clockwise {
        0
    } else {
        FULL_TURN_PM - value_pm
    }
}

/// Where the foreground arc ends: at the value's share of the turn when
/// clockwise, at the full turn when counter-clockwise.
pub open spec fn fg_end_pm(clockwise: bool, value_pm: i64) -> int {
    if clockwise {
        value_pm as int
    } else {
        FULL_TURN_PM as int
    }
}

/// The bounds under which the drawing arithmetic stays inside `i64`:
/// the start-angle rotation, the inner radius, and the counter-clockwise
/// start angle must be representable.
pub open spec fn render_args_wf(size: i32, thickness: i64, start_at: i64, value_pm: i64) -> bool {
    &&& i64::MIN <= start_at * 1000 <= i64::MAX
    &&& i64::MIN <= 2 * thickness <= i64::MAX
    &&& i64::MIN <= size - 2 * thickness <= i64::MAX
    &&& i64::MIN <= FULL_TURN_PM - value_pm <= i64::MAX
}

/// The command sequence that paints one ring: save, rotate the frame about
/// the center by the start angle, paint the full background annulus, paint
/// the foreground annulus over the progress arc, restore.
pub open spec fn draw_seq(
    clockwise: bool,
    size: i32,
    thickness: i64,
    start_at: i64,
    value_pm: i64,
    percentage_color: Color,
    background_color: Color,
) -> Seq<DrawCmd> {
    let center: i64 = size as i64;
    let outer: i64 = size as i64;
    let inner: i64 = (size - 2 * thickness) as i64;
    let rotation: i64 = (start_at * 1000) as i64;
    let start: i64 = fg_start_pm(clockwise, value_pm) as i64;
    let end: i64 = fg_end_pm(clockwise, value_pm) as i64;
    seq![
        DrawCmd::Save,
        DrawCmd::Translate { x_half: center, y_half: center },
        DrawCmd::Rotate { angle_pm: rotation },
        DrawCmd::Translate { x_half: (-(size as int)) as i64, y_half: (-(size as int)) as i64 },
        DrawCmd::MoveTo { x_half: center, y_half: center },
        DrawCmd::Arc {
            cx_half: center,
            cy_half: center,
            radius_half: outer,
            start_pm: 0,
            end_pm: FULL_TURN_PM,
        },
        DrawCmd::SetSourceColor { color: background_color },
        DrawCmd::MoveTo { x_half: center, y_half: center },
        DrawCmd::Arc {
            cx_half: center,
            cy_half: center,
            radius_half: inner,
            start_pm: 0,
            end_pm: FULL_TURN_PM,
        },
        DrawCmd::SetFillRuleEvenOdd,
        DrawCmd::Fill,
        DrawCmd::MoveTo { x_half: center, y_half: center },
        DrawCmd::Arc {
            cx_half: center,
            cy_half: center,
            radius_half: outer,
            start_pm: start,
            end_pm: end,
        },
        DrawCmd::SetSourceColor { color: percentage_color },
        DrawCmd::MoveTo { x_half: center, y_half: center },
        DrawCmd::Arc {
            cx_half: center,
            cy_half: center,
            radius_half: inner,
            start_pm: start,
            end_pm: end,
        },
        DrawCmd::SetFillRuleEvenOdd,
        DrawCmd::Fill,
        DrawCmd::Restore,
    ]
}

/// Computes the command sequence for one ring, exactly as `draw_seq` states
/// it.
pub fn draw(
    clockwise: bool,
    size: i32,
    thickness: i64,
    start_at: i64,
    value_pm: i64,
    percentage_color: &Color,
    background_color: &Color,
) -> (cmds: Vec<DrawCmd>)
    requires
        render_args_wf(size, thickness, start_at, value_pm),
    ensures
        cmds@ == draw_seq(
            clockwise,
            size,
            thickness,
            start_at,
            value_pm,
            *percentage_color,
            *background_color,
        ),
{
    let start: i64;
    let end: i64;
    if clockwise {
        start = 0;
        end = value_pm;
    } else {
        start = FULL_TURN_PM - value_pm;
        end = FULL_TURN_PM;
    }
    let center: i64 = size as i64;
    let outer: i64 = size as i64;
    let inner: i64 = size as i64 - 2 * thickness;
    let rotation: i64 = start_at * 1000;
    let back: i64 = -center;
    let cmds: Vec<DrawCmd> = vec![
        DrawCmd::Save,
        DrawCmd::Translate { x_half: center, y_half: center },
        DrawCmd::Rotate { angle_pm: rotation },
        DrawCmd::Translate { x_half: back, y_half: back },
        DrawCmd::MoveTo { x_half: center, y_half: center },
        DrawCmd::Arc {
            cx_half: center,
            cy_half: center,
            radius_half: outer,
            start_pm: 0,
            end_pm: FULL_TURN_PM,
        },
        DrawCmd::SetSourceColor { color: *background_color },
        DrawCmd::MoveTo { x_half: center, y_half: center },
        DrawCmd::Arc {
            cx_half: center,
            cy_half: center,
            radius_half: inner,
            start_pm: 0,
            end_pm: FULL_TURN_PM,
        },
        DrawCmd::SetFillRuleEvenOdd,
        DrawCmd::Fill,
        DrawCmd::MoveTo { x_half: center, y_half: center },
        DrawCmd::Arc {
            cx_half: center,
            cy_half: center,
            radius_half: outer,
            start_pm: start,
            end_pm: end,
        },
        DrawCmd::SetSourceColor { color: *percentage_color },
        DrawCmd::MoveTo { x_half: center, y_half: center },
        DrawCmd::Arc {
            cx_half: center,
            cy_half: center,
            radius_half: inner,
            start_pm: start,
            end_pm: end,
        },
        DrawCmd::SetFillRuleEvenOdd,
        DrawCmd::Fill,
        DrawCmd::Restore,
    ];
    proof {
        assert(cmds@ =~= draw_seq(
            clockwise,
            size,
            thickness,
            start_at,
            value_pm,
            *percentage_color,
            *background_color,
        ));
    }
    cmds
}

/// Clockwise, for every value within one full turn, the foreground arcs of
/// the painted sequence span exactly from angle zero to the value's share of
/// the full turn, and the angular length of that span grows monotonically
/// with the value.
pub proof fn lemma_clockwise_foreground_span(
    size: i32,
    thickness: i64,
    start_at: i64,
    v1: i64,
    v2: i64,
    pc: Color,
    bc: Color,
)
    requires
        0 <= v1 <= FULL_TURN_PM,
        0 <= v2 <= FULL_TURN_PM,
        v1 <= v2,
    ensures
        fg_start_pm(true, v1) == 0,
        fg_end_pm(true, v1) == v1,
        (draw_seq(true, size, thickness, start_at, v1, pc, bc)[12] matches DrawCmd::Arc {
            start_pm,
            end_pm,
            ..
        } && start_pm == 0 && end_pm == v1),
        (draw_seq(true, size, thickness, start_at, v1, pc, bc)[15] matches DrawCmd::Arc {
            start_pm,
            end_pm,
            ..
        } && start_pm == 0 && end_pm == v1),
        fg_end_pm(true, v1) - fg_start_pm(true, v1) <= fg_end_pm(true, v2) - fg_start_pm(
            true,
            v2,
        ),
{
}

/// Counter-clockwise, for every value within one full turn, the foreground
/// arcs of the painted sequence span exactly from the complement of the
/// value to the full turn, and the start angle of that span decreases
/// monotonically toward zero as the value grows: the arc grows backward
/// from the end of the circle.
pub proof fn lemma_counter_clockwise_foreground_span(
    size: i32,
    thickness: i64,
    start_at: i64,
    v1: i64,
    v2: i64,
    pc: Color,
    bc: Color,
)
    requires
        0 <= v1 <= FULL_TURN_PM,
        0 <= v2 <= FULL_TURN_PM,
        v1 <= v2,
    ensures
        fg_start_pm(false, v1) == FULL_TURN_PM - v1,
        fg_end_pm(false, v1) == FULL_TURN_PM,
        (draw_seq(false, size, thickness, start_at, v1, pc, bc)[12] matches DrawCmd::Arc {
            start_pm,
            end_pm,
            ..
        } && start_pm == FULL_TURN_PM - v1 && end_pm == FULL_TURN_PM),
        (draw_seq(false, size, thickness, start_at, v1, pc, bc)[15] matches DrawCmd::Arc {
            start_pm,
            end_pm,
            ..
        } && start_pm == FULL_TURN_PM - v1 && end_pm == FULL_TURN_PM),
        fg_start_pm(false, v2) <= fg_start_pm(false, v1),
{
}

/// The drawing routine is idempotent with respect to the context it paints
/// against: two invocations on the same state yield the very same command
/// sequence, so no transform drift accumulates between repaints.
pub proof fn lemma_draw_idempotent(
    c1: Seq<DrawCmd>,
    c2: Seq<DrawCmd>,
    clockwise: bool,
    size: i32,
    thickness: i64,
    start_at: i64,
    value_pm: i64,
    pc: Color,
    bc: Color,
)
    requires
        c1 == draw_seq(clockwise, size, thickness, start_at, value_pm, pc, bc),
        c2 == draw_seq(clockwise, size, thickness, start_at, value_pm, pc, bc),
    ensures
        c1 == c2,
{
}

/// Every painted sequence leaves the context's transform stack as it found
/// it: it opens by saving the context state, closes by restoring it, and
/// touches the stack nowhere in between.
pub proof fn lemma_draw_restores_transform(
    cmds: Seq<DrawCmd>,
    clockwise: bool,
    size: i32,
    thickness: i64,
    start_at: i64,
    value_pm: i64,
    pc: Color,
    bc: Color,
)
    requires
        cmds == draw_seq(clockwise, size, thickness, start_at, value_pm, pc, bc),
    ensures
        cmds.len() == 19,
        cmds[0] is Save,
        cmds[18] is Restore,
        forall|i: int| 0 < i < 18 ==> !((#[trigger] cmds[i]) is Save) && !(cmds[i] is Restore),
{
    assert forall|i: int| 0 < i < 18 implies !((#[trigger] cmds[i]) is Save) && !(cmds[i]
        is Restore) by {}
}

} // verus!
