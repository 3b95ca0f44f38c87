use idb_tap_simple::calibration::{
    default_targets, frame_file_name, CalibrationTarget, Command, FrameSlot, Sequencer, StepFailure,
    CAPTURE_SETTLE_MS, FINAL_SETTLE_MS, START_DELAY_MS, TARGET_GAP_AFTER_CAPTURE_MS, TARGET_GAP_MS,
    TOUCH_HOLD_MS,
};
use idb_tap_simple::ffi::IdbError;
use idb_tap_simple::proto::HidDirection;

/// Runs a sequencer to its end; `fail_at` gives the position of the
/// command that fails and its error. Returns the commands handed out and
/// the end of the run.
fn drive(
    targets: &Vec<CalibrationTarget>,
    capture: bool,
    fail_at: Option<(usize, IdbError)>,
) -> (Vec<Command>, Result<(), StepFailure>) {
    let mut seq = Sequencer::new(targets, capture);
    let mut issued = Vec::new();
    while let Some(cmd) = seq.next_command() {
        let outcome = match &fail_at {
            Some((at, e)) if *at == issued.len() => Err(e.clone()),
            _ => Ok(()),
        };
        issued.push(cmd);
        seq.report(outcome);
    }
    (issued, seq.finish().expect("the run has ended"))
}

fn taps(cmds: &[Command]) -> Vec<(HidDirection, usize, i32, i32)> {
    cmds.iter()
        .filter_map(|c| match *c {
            Command::Touch { direction, target, x, y } => Some((direction, target, x, y)),
            _ => None,
        })
        .collect()
}

fn captures(cmds: &[Command]) -> Vec<FrameSlot> {
    cmds.iter()
        .filter_map(|c| match *c {
            Command::Capture { slot } => Some(slot),
            _ => None,
        })
        .collect()
}

fn two_targets() -> Vec<CalibrationTarget> {
    vec![
        CalibrationTarget::new(88, 236, "Target 1 (Top-left)"),
        CalibrationTarget::new(352, 236, "Target 2 (Top-right)"),
    ]
}

#[test]
fn two_targets_without_capture() {
    let (cmds, end) = drive(&two_targets(), false, None);
    assert!(end.is_ok());
    assert_eq!(
        taps(&cmds),
        vec![
            (HidDirection::Down, 0, 88, 236),
            (HidDirection::Up, 0, 88, 236),
            (HidDirection::Down, 1, 352, 236),
            (HidDirection::Up, 1, 352, 236),
        ]
    );
    assert!(captures(&cmds).is_empty());
}

#[test]
fn plan_without_capture_is_exact() {
    let (cmds, _) = drive(&two_targets(), false, None);
    let down = |i: usize, x: i32| Command::Touch { direction: HidDirection::Down, target: i, x, y: 236 };
    let up = |i: usize, x: i32| Command::Touch { direction: HidDirection::Up, target: i, x, y: 236 };
    assert_eq!(
        cmds,
        vec![
            Command::Pause { millis: START_DELAY_MS },
            down(0, 88),
            Command::Pause { millis: TOUCH_HOLD_MS },
            up(0, 88),
            Command::Pause { millis: TARGET_GAP_MS },
            down(1, 352),
            Command::Pause { millis: TOUCH_HOLD_MS },
            up(1, 352),
        ]
    );
    assert_eq!(START_DELAY_MS, 2000);
    assert_eq!(TOUCH_HOLD_MS, 50);
    assert_eq!(TARGET_GAP_MS, 1500);
}

#[test]
fn plan_with_capture_is_exact() {
    let targets = vec![CalibrationTarget::new(10, 20, "only")];
    let (cmds, end) = drive(&targets, true, None);
    assert!(end.is_ok());
    assert_eq!(
        cmds,
        vec![
            Command::Capture { slot: FrameSlot::Initial },
            Command::Pause { millis: START_DELAY_MS },
            Command::Touch { direction: HidDirection::Down, target: 0, x: 10, y: 20 },
            Command::Pause { millis: TOUCH_HOLD_MS },
            Command::Touch { direction: HidDirection::Up, target: 0, x: 10, y: 20 },
            Command::Pause { millis: CAPTURE_SETTLE_MS },
            Command::Capture { slot: FrameSlot::AfterTap(0) },
            Command::Pause { millis: FINAL_SETTLE_MS },
            Command::Capture { slot: FrameSlot::Final },
        ]
    );
}

#[test]
fn taps_alternate_in_list_order() {
    let targets = default_targets();
    let (cmds, _) = drive(&targets, true, None);
    let t = taps(&cmds);
    assert_eq!(t.len(), 2 * targets.len());
    for (j, (direction, target, x, y)) in t.iter().enumerate() {
        let expected = if j % 2 == 0 { HidDirection::Down } else { HidDirection::Up };
        assert_eq!(*direction, expected);
        assert_eq!(*target, j / 2);
        assert_eq!((*x, *y), (targets[j / 2].x, targets[j / 2].y));
    }
}

#[test]
fn capture_takes_n_plus_two_frames() {
    let targets = default_targets();
    let (cmds, _) = drive(&targets, true, None);
    assert_eq!(
        captures(&cmds),
        vec![
            FrameSlot::Initial,
            FrameSlot::AfterTap(0),
            FrameSlot::AfterTap(1),
            FrameSlot::AfterTap(2),
            FrameSlot::AfterTap(3),
            FrameSlot::AfterTap(4),
            FrameSlot::Final,
        ]
    );
    for (p, c) in cmds.iter().enumerate() {
        if let Command::Capture { slot: FrameSlot::AfterTap(i) } = *c {
            let next = if i + 1 < targets.len() { TARGET_GAP_AFTER_CAPTURE_MS } else { FINAL_SETTLE_MS };
            assert_eq!(cmds[p + 1], Command::Pause { millis: next });
        }
    }
}

#[test]
fn hold_comes_between_down_and_up() {
    let (cmds, _) = drive(&default_targets(), false, None);
    for (p, c) in cmds.iter().enumerate() {
        if let Command::Touch { direction: HidDirection::Down, target, x, y } = *c {
            assert_eq!(cmds[p + 1], Command::Pause { millis: TOUCH_HOLD_MS });
            assert_eq!(cmds[p + 2], Command::Touch { direction: HidDirection::Up, target, x, y });
        }
    }
}

#[test]
fn failed_down_sends_no_up() {
    let targets = vec![CalibrationTarget::new(88, 236, "Target 1 (Top-left)")];
    let failure = IdbError::OperationFailed("touch rejected".to_string());
    // Position 0 is the start pause, 1 the touch down.
    let (cmds, end) = drive(&targets, false, Some((1, failure)));
    assert_eq!(taps(&cmds), vec![(HidDirection::Down, 0, 88, 236)]);
    let f = end.unwrap_err();
    assert_eq!(f.step, 1);
    assert_eq!(f.command, Command::Touch { direction: HidDirection::Down, target: 0, x: 88, y: 236 });
    assert_eq!(f.error, IdbError::OperationFailed("touch rejected".to_string()));
}

#[test]
fn failed_tap_stops_later_targets() {
    let targets = default_targets();
    // 0 start pause; target 0: 1..=4; target 1 down at 5, hold 6, up 7.
    let (cmds, end) = drive(&targets, false, Some((7, IdbError::Timeout)));
    let t = taps(&cmds);
    assert_eq!(t.len(), 4);
    assert!(t.iter().all(|(_, target, _, _)| *target <= 1));
    assert_eq!(cmds.len(), 8);
    let f = end.unwrap_err();
    assert_eq!(f.step, 7);
    assert_eq!(f.error, IdbError::Timeout);
}

#[test]
fn failed_capture_ends_run() {
    let targets = two_targets();
    let (cmds, end) = drive(&targets, true, Some((0, IdbError::DeviceNotFound)));
    assert_eq!(cmds, vec![Command::Capture { slot: FrameSlot::Initial }]);
    assert!(taps(&cmds).is_empty());
    assert_eq!(end.unwrap_err().error, IdbError::DeviceNotFound);
}

#[test]
fn report_after_end_changes_nothing() {
    let targets = vec![CalibrationTarget::new(1, 2, "t")];
    let mut seq = Sequencer::new(&targets, false);
    seq.report(Err(IdbError::OutOfMemory));
    assert_eq!(seq.next_command(), None);
    seq.report(Ok(()));
    assert_eq!(seq.next_command(), None);
    let f = seq.finish().unwrap().unwrap_err();
    assert_eq!(f.step, 0);
    assert_eq!(f.command, Command::Pause { millis: START_DELAY_MS });
}

#[test]
fn unfinished_run_has_no_result() {
    let seq = Sequencer::new(&two_targets(), false);
    assert!(seq.finish().is_none());
}

#[test]
fn empty_target_list_only_pauses() {
    let (cmds, end) = drive(&Vec::new(), false, None);
    assert!(end.is_ok());
    assert_eq!(cmds, vec![Command::Pause { millis: START_DELAY_MS }]);
}

#[test]
fn default_targets_are_flipped_and_offset() {
    let t = default_targets();
    let points: Vec<(i32, i32)> = t.iter().map(|c| (c.x, c.y)).collect();
    assert_eq!(points, vec![(88, 690), (352, 690), (220, 432), (88, 174), (352, 174)]);
    assert_eq!(t[2].name, "Target 3 (Center)");
}

#[test]
fn frame_names() {
    let t = default_targets();
    assert_eq!(frame_file_name("calibration", FrameSlot::Initial, &t), "calibration_0_initial.png");
    assert_eq!(
        frame_file_name("calibration", FrameSlot::AfterTap(0), &t),
        "calibration_1_after_Target_1_Top-left.png"
    );
    assert_eq!(
        frame_file_name("ffi_calibration", FrameSlot::AfterTap(4), &t),
        "ffi_calibration_5_after_Target_5_Bottom-right.png"
    );
    assert_eq!(frame_file_name("calibration", FrameSlot::Final, &t), "calibration_6_final.png");
}

#[test]
fn frame_number_has_several_digits() {
    let t: Vec<CalibrationTarget> = (0..12).map(|i| CalibrationTarget::new(i, i, "a (b) c")).collect();
    assert_eq!(frame_file_name("f", FrameSlot::AfterTap(10), &t), "f_11_after_a_b_c.png");
    assert_eq!(frame_file_name("f", FrameSlot::Final, &t), "f_13_final.png");
}
