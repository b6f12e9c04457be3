use circle_progress_bar::color::Color;
use circle_progress_bar::render::draw;
use circle_progress_bar::render::DrawCmd;
use circle_progress_bar::render::FULL_TURN_PM;

const WHITE: Color = Color { r: 255, g: 255, b: 255 };
const GRAY: Color = Color { r: 85, g: 86, b: 87 };

fn pm_to_degrees(pm: i64) -> f64 {
    pm as f64 / FULL_TURN_PM as f64 * 360.0
}

fn foreground_arc_span(cmds: &[DrawCmd]) -> (i64, i64) {
    match cmds[12] {
        DrawCmd::Arc { start_pm, end_pm, .. } => (start_pm, end_pm),
        _ => panic!("expected the foreground outer arc"),
    }
}

#[test]
fn clockwise_foreground_arc_grows_from_zero() {
    for value in [0i64, 25_000, 50_000, 64_000, 100_000] {
        let cmds = draw(true, 200, 5, 0, value, &WHITE, &GRAY);
        let (start_pm, end_pm) = foreground_arc_span(&cmds);
        assert_eq!(start_pm, 0);
        assert_eq!(end_pm, value);
    }
}

#[test]
fn clockwise_span_is_monotone_in_the_value() {
    let mut previous: i64 = -1;
    for value in [0i64, 10_000, 20_000, 64_000, 99_000, 100_000] {
        let cmds = draw(true, 200, 5, 0, value, &WHITE, &GRAY);
        let (start_pm, end_pm) = foreground_arc_span(&cmds);
        assert!(end_pm - start_pm > previous);
        previous = end_pm - start_pm;
    }
}

#[test]
fn counter_clockwise_arc_grows_backward_from_full() {
    let mut previous_start = FULL_TURN_PM + 1;
    for value in [0i64, 25_000, 50_000, 75_000, 100_000] {
        let cmds = draw(false, 200, 5, 0, value, &WHITE, &GRAY);
        let (start_pm, end_pm) = foreground_arc_span(&cmds);
        assert_eq!(start_pm, FULL_TURN_PM - value);
        assert_eq!(end_pm, FULL_TURN_PM);
        assert!(start_pm < previous_start);
        previous_start = start_pm;
    }
}

#[test]
fn sixty_four_percent_spans_to_230_point_4_degrees() {
    let cmds = draw(true, 200, 5, 0, 64_000, &WHITE, &GRAY);
    let (start_pm, end_pm) = foreground_arc_span(&cmds);
    assert_eq!(pm_to_degrees(start_pm), 0.0);
    assert!((pm_to_degrees(end_pm) - 230.4).abs() < 1e-9);
}

#[test]
fn command_sequence_paints_background_then_foreground() {
    let cmds = draw(true, 200, 5, 0, 64_000, &WHITE, &GRAY);
    assert_eq!(cmds.len(), 19);
    // One saved and rotated frame around the whole painting.
    assert_eq!(cmds[0], DrawCmd::Save);
    assert_eq!(cmds[1], DrawCmd::Translate { x_half: 200, y_half: 200 });
    assert_eq!(cmds[2], DrawCmd::Rotate { angle_pm: 0 });
    assert_eq!(cmds[3], DrawCmd::Translate { x_half: -200, y_half: -200 });
    // Background pass: both concentric arcs run the full turn.
    assert_eq!(cmds[4], DrawCmd::MoveTo { x_half: 200, y_half: 200 });
    assert_eq!(
        cmds[5],
        DrawCmd::Arc { cx_half: 200, cy_half: 200, radius_half: 200, start_pm: 0, end_pm: 100_000 }
    );
    assert_eq!(cmds[6], DrawCmd::SetSourceColor { color: GRAY });
    assert_eq!(cmds[7], DrawCmd::MoveTo { x_half: 200, y_half: 200 });
    assert_eq!(
        cmds[8],
        DrawCmd::Arc { cx_half: 200, cy_half: 200, radius_half: 190, start_pm: 0, end_pm: 100_000 }
    );
    assert_eq!(cmds[9], DrawCmd::SetFillRuleEvenOdd);
    assert_eq!(cmds[10], DrawCmd::Fill);
    // Foreground pass: the same annulus across the progress span only.
    assert_eq!(cmds[11], DrawCmd::MoveTo { x_half: 200, y_half: 200 });
    assert_eq!(
        cmds[12],
        DrawCmd::Arc { cx_half: 200, cy_half: 200, radius_half: 200, start_pm: 0, end_pm: 64_000 }
    );
    assert_eq!(cmds[13], DrawCmd::SetSourceColor { color: WHITE });
    assert_eq!(cmds[14], DrawCmd::MoveTo { x_half: 200, y_half: 200 });
    assert_eq!(
        cmds[15],
        DrawCmd::Arc { cx_half: 200, cy_half: 200, radius_half: 190, start_pm: 0, end_pm: 64_000 }
    );
    assert_eq!(cmds[16], DrawCmd::SetFillRuleEvenOdd);
    assert_eq!(cmds[17], DrawCmd::Fill);
    assert_eq!(cmds[18], DrawCmd::Restore);
}

#[test]
fn start_angle_rotates_the_frame_as_percent_of_a_turn() {
    let cmds = draw(true, 200, 5, -25, 50_000, &WHITE, &GRAY);
    assert_eq!(cmds[2], DrawCmd::Rotate { angle_pm: -25_000 });
}

#[test]
fn rendering_twice_gives_identical_sequences() {
    let first = draw(false, 200, 100, -25, 46_000, &WHITE, &GRAY);
    let second = draw(false, 200, 100, -25, 46_000, &WHITE, &GRAY);
    assert_eq!(first, second);
    assert_eq!(first[0], DrawCmd::Save);
    assert_eq!(first[18], DrawCmd::Restore);
    for cmd in &first[1..18] {
        assert!(*cmd != DrawCmd::Save);
        assert!(*cmd != DrawCmd::Restore);
    }
}
