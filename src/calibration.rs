//! The calibration sequencer: taps an ordered list of targets, each with a
//! touch down, a short hold and a touch up, and optionally captures a frame
//! before the sequence, after each tap and after the sequence.
//!
//! The whole run is planned up front as a list of commands. The caller
//! performs the commands one at a time and reports each outcome; the first
//! failure ends the run.

use vstd::prelude::*;
use crate::ffi::IdbError;
use crate::naming::{decimal, push_decimal, push_sanitized, sanitized};
use crate::proto::HidDirection;

verus! {

/// Pause before the first tap, in milliseconds.
pub const START_DELAY_MS: u64 = 2000;

/// How long a touch is held between down and up, in milliseconds.
pub const TOUCH_HOLD_MS: u64 = 50;

/// Pause between a tap and the frame captured after it, in milliseconds.
pub const CAPTURE_SETTLE_MS: u64 = 500;

/// Pause between two targets when no frame is captured, in milliseconds.
pub const TARGET_GAP_MS: u64 = 1500;

/// Pause between two targets after the frame of the first, in
/// milliseconds; with the settle pause it keeps the taps as far apart as
/// without capture.
pub const TARGET_GAP_AFTER_CAPTURE_MS: u64 = 1000;

/// Pause before the final frame, in milliseconds.
pub const FINAL_SETTLE_MS: u64 = 1000;

/// A point to tap, in the companion's screen points, with a label.
#[derive(Debug, Clone)]
pub struct CalibrationTarget {
    pub x: i32,
    pub y: i32,
    pub name: String,
}

impl CalibrationTarget {
    pub fn new(x: i32, y: i32, name: &str) -> (r: CalibrationTarget)
        ensures
            r.x == x,
            r.y == y,
            r.name@ == name@,
    {
        CalibrationTarget { x, y, name: String::from_str(name) }
    }
}

/// Height of the calibration screen's layout, in points.
pub const SCREEN_HEIGHT: i32 = 800;

/// Offset between the layout's rows and the companion's vertical axis,
/// observed on the calibration screen.
pub const Y_OFFSET: i32 = 62;

/// The companion's vertical coordinate for layout row `y`: the axis runs
/// the other way and is shifted by `Y_OFFSET`.
pub open spec fn companion_y(y: int) -> int {
    SCREEN_HEIGHT - y + Y_OFFSET
}

/// The five targets of the calibration screen: the four corners of the
/// grid and its centre, in the companion's coordinates.
pub fn default_targets() -> (r: Vec<CalibrationTarget>)
    ensures
        r@.len() == 5,
        r@[0].x == 88 && r@[0].y == companion_y(172) && r@[0].name@ == "Target 1 (Top-left)"@,
        r@[1].x == 352 && r@[1].y == companion_y(172) && r@[1].name@ == "Target 2 (Top-right)"@,
        r@[2].x == 220 && r@[2].y == companion_y(430) && r@[2].name@ == "Target 3 (Center)"@,
        r@[3].x == 88 && r@[3].y == companion_y(688) && r@[3].name@ == "Target 4 (Bottom-left)"@,
        r@[4].x == 352 && r@[4].y == companion_y(688) && r@[4].name@
            == "Target 5 (Bottom-right)"@,
{
    let mut r: Vec<CalibrationTarget> = Vec::new();
    r.push(CalibrationTarget::new(88, SCREEN_HEIGHT - 172 + Y_OFFSET, "Target 1 (Top-left)"));
    r.push(CalibrationTarget::new(352, SCREEN_HEIGHT - 172 + Y_OFFSET, "Target 2 (Top-right)"));
    r.push(CalibrationTarget::new(220, SCREEN_HEIGHT - 430 + Y_OFFSET, "Target 3 (Center)"));
    r.push(CalibrationTarget::new(88, SCREEN_HEIGHT - 688 + Y_OFFSET, "Target 4 (Bottom-left)"));
    r.push(CalibrationTarget::new(352, SCREEN_HEIGHT - 688 + Y_OFFSET, "Target 5 (Bottom-right)"));
    r
}

/// Which frame of a run a capture is.
#[derive(Debug, Clone, Copy, PartialEq, Eq, Structural)]
pub enum FrameSlot {
    /// Before the first tap.
    Initial,
    /// After the tap of the target with this index.
    AfterTap(usize),
    /// After the last tap.
    Final,
}

/// One step of a calibration run.
#[derive(Debug, Clone, Copy, PartialEq, Eq, Structural)]
pub enum Command {
    /// Send a touch event at the point of the target with index `target`.
    Touch { direction: HidDirection, target: usize, x: i32, y: i32 },
    /// Wait this long.
    Pause { millis: u64 },
    /// Capture a frame and store it under the name of `slot`.
    Capture { slot: FrameSlot },
}

/// The touch event of `direction` at target `i`.
pub open spec fn touch(ts: Seq<CalibrationTarget>, i: int, direction: HidDirection) -> Command {
    Command::Touch { direction, target: i as usize, x: ts[i].x, y: ts[i].y }
}

/// The pause between two targets.
pub open spec fn target_gap(capture: bool) -> u64 {
    if capture {
        TARGET_GAP_AFTER_CAPTURE_MS
    } else {
        TARGET_GAP_MS
    }
}

/// The commands before the first target.
pub open spec fn opening(capture: bool) -> Seq<Command> {
    if capture {
        seq![
            Command::Capture { slot: FrameSlot::Initial },
            Command::Pause { millis: START_DELAY_MS },
        ]
    } else {
        seq![Command::Pause { millis: START_DELAY_MS }]
    }
}

/// The commands for target `i`: down, hold, up; then the frame after the
/// tap if frames are captured; then the gap if another target follows.
pub open spec fn target_steps(ts: Seq<CalibrationTarget>, i: int, capture: bool) -> Seq<Command> {
    seq![
        touch(ts, i, HidDirection::Down),
        Command::Pause { millis: TOUCH_HOLD_MS },
        touch(ts, i, HidDirection::Up),
    ] + (if capture {
        seq![
            Command::Pause { millis: CAPTURE_SETTLE_MS },
            Command::Capture { slot: FrameSlot::AfterTap(i as usize) },
        ]
    } else {
        seq![]
    }) + (if i + 1 < ts.len() {
        seq![Command::Pause { millis: target_gap(capture) }]
    } else {
        seq![]
    })
}

/// The commands for the first `k` targets, in order.
pub open spec fn steps_through(ts: Seq<CalibrationTarget>, k: nat, capture: bool) -> Seq<Command>
    decreases k,
{
    if k == 0 {
        seq![]
    } else {
        steps_through(ts, (k - 1) as nat, capture) + target_steps(ts, k - 1, capture)
    }
}

/// The commands after the last target.
pub open spec fn closing(capture: bool) -> Seq<Command> {
    if capture {
        seq![
            Command::Pause { millis: FINAL_SETTLE_MS },
            Command::Capture { slot: FrameSlot::Final },
        ]
    } else {
        seq![]
    }
}

/// The whole run for targets `ts`.
pub open spec fn plan(ts: Seq<CalibrationTarget>, capture: bool) -> Seq<Command> {
    opening(capture) + steps_through(ts, ts.len(), capture) + closing(capture)
}

/// Plans the run for `targets`, with frames captured if `capture`.
pub fn plan_run(targets: &Vec<CalibrationTarget>, capture: bool) -> (r: Vec<Command>)
    ensures
        r@ == plan(targets@, capture),
{
    let mut cmds: Vec<Command> = Vec::new();
    if capture {
        cmds.push(Command::Capture { slot: FrameSlot::Initial });
    }
    cmds.push(Command::Pause { millis: START_DELAY_MS });
    assert(cmds@ =~= opening(capture));
    let n = targets.len();
    let mut i: usize = 0;
    while i < n
        invariant
            n == targets@.len(),
            i <= n,
            cmds@ == opening(capture) + steps_through(targets@, i as nat, capture),
        decreases n - i,
    {
        let ghost before = cmds@;
        let t = &targets[i];
        cmds.push(Command::Touch { direction: HidDirection::Down, target: i, x: t.x, y: t.y });
        cmds.push(Command::Pause { millis: TOUCH_HOLD_MS });
        cmds.push(Command::Touch { direction: HidDirection::Up, target: i, x: t.x, y: t.y });
        if capture {
            cmds.push(Command::Pause { millis: CAPTURE_SETTLE_MS });
            cmds.push(Command::Capture { slot: FrameSlot::AfterTap(i) });
        }
        if i + 1 < n {
            let gap = if capture {
                TARGET_GAP_AFTER_CAPTURE_MS
            } else {
                TARGET_GAP_MS
            };
            cmds.push(Command::Pause { millis: gap });
        }
        proof {
            assert(cmds@ =~= before + target_steps(targets@, i as int, capture));
            assert(steps_through(targets@, (i + 1) as nat, capture) == steps_through(
                targets@,
                i as nat,
                capture,
            ) + target_steps(targets@, i as int, capture));
            assert(opening(capture) + steps_through(targets@, (i + 1) as nat, capture) =~= before
                + target_steps(targets@, i as int, capture));
        }
        i = i + 1;
    }
    if capture {
        cmds.push(Command::Pause { millis: FINAL_SETTLE_MS });
        cmds.push(Command::Capture { slot: FrameSlot::Final });
    }
    assert(cmds@ =~= plan(targets@, capture));
    cmds
}

/// Why a run ended early: the command at position `step` of the plan
/// failed with `error`.
#[derive(Debug, Clone)]
pub struct StepFailure {
    pub step: usize,
    pub command: Command,
    pub error: IdbError,
}

/// A run in progress, as a plan, the number of commands that succeeded,
/// and the failure that ended the run, if any.
pub struct SequencerView {
    pub plan: Seq<Command>,
    pub done: nat,
    pub failure: Option<StepFailure>,
}

/// The command to perform next: none once the run has failed or every
/// command succeeded.
pub open spec fn pending(v: SequencerView) -> Option<Command> {
    if v.failure is None && v.done < v.plan.len() {
        Some(v.plan[v.done as int])
    } else {
        None
    }
}

/// The state after the pending command (if any) ended with `outcome`.
pub open spec fn after(v: SequencerView, outcome: Result<(), IdbError>) -> SequencerView {
    if pending(v) is None {
        v
    } else {
        match outcome {
            Ok(()) => SequencerView { done: v.done + 1, ..v },
            Err(e) => SequencerView {
                failure: Some(
                    StepFailure { step: v.done as usize, command: v.plan[v.done as int], error: e },
                ),
                ..v
            },
        }
    }
}

/// The commands handed out so far: those that succeeded and the one that
/// failed.
pub open spec fn performed(v: SequencerView) -> Seq<Command> {
    if v.failure is Some {
        v.plan.take(v.done + 1int)
    } else {
        v.plan.take(v.done as int)
    }
}

/// Steps through a planned run: hands out one command at a time and takes
/// back its outcome. The first failure ends the run; nothing is retried.
pub struct Sequencer {
    plan: Vec<Command>,
    done: usize,
    failure: Option<StepFailure>,
}

impl View for Sequencer {
    type V = SequencerView;

    closed spec fn view(&self) -> SequencerView {
        SequencerView { plan: self.plan@, done: self.done as nat, failure: self.failure }
    }
}

impl Sequencer {
    #[verifier::type_invariant]
    spec fn well_formed(self) -> bool {
        &&& self.done <= self.plan@.len()
        &&& self.failure matches Some(f) ==> {
            &&& f.step == self.done
            &&& self.done < self.plan@.len()
            &&& f.command == self.plan@[self.done as int]
        }
    }

    /// A run over `targets`, with frames captured if `capture`, before its
    /// first command.
    pub fn new(targets: &Vec<CalibrationTarget>, capture: bool) -> (r: Sequencer)
        ensures
            r@.plan == plan(targets@, capture),
            r@.done == 0,
            r@.failure is None,
    {
        Sequencer { plan: plan_run(targets, capture), done: 0, failure: None }
    }

    /// The command to perform next, if the run goes on.
    pub fn next_command(&self) -> (r: Option<Command>)
        ensures
            r == pending(self@),
    {
        proof {
            use_type_invariant(self);
        }
        if self.failure.is_none() && self.done < self.plan.len() {
            Some(self.plan[self.done])
        } else {
            None
        }
    }

    /// Takes the outcome of the command last handed out. Success moves on
    /// to the next command; a failure ends the run. Once the run has ended
    /// nothing changes.
    pub fn report(&mut self, outcome: Result<(), IdbError>)
        ensures
            final(self)@ == after(old(self)@, outcome),
    {
        proof {
            use_type_invariant(&*self);
        }
        if self.failure.is_none() && self.done < self.plan.len() {
            match outcome {
                Ok(()) => {
                    self.done = self.done + 1;
                },
                Err(e) => {
                    let command = self.plan[self.done];
                    self.failure = Some(StepFailure { step: self.done, command, error: e });
                },
            }
        }
    }

    /// The end of the run: `None` while commands remain, the failure that
    /// ended it, or `Ok` once every command succeeded.
    pub fn finish(self) -> (r: Option<Result<(), StepFailure>>)
        ensures
            self@.failure matches Some(f) ==> r == Some(Err::<(), StepFailure>(f)),
            self@.failure is None && self@.done == self@.plan.len() ==> r == Some(
                Ok::<(), StepFailure>(()),
            ),
            self@.failure is None && self@.done < self@.plan.len() ==> r is None,
    {
        proof {
            use_type_invariant(&self);
        }
        let done = self.done;
        let len = self.plan.len();
        match self.failure {
            Some(f) => Some(Err(f)),
            None => if done == len {
                Some(Ok(()))
            } else {
                None
            },
        }
    }
}

/// The number a frame carries in its file name: 0 before the run, the
/// target's position (from 1) after its tap, one past the last target at
/// the end.
pub open spec fn frame_number(slot: FrameSlot, target_count: nat) -> nat {
    match slot {
        FrameSlot::Initial => 0,
        FrameSlot::AfterTap(i) => (i + 1) as nat,
        FrameSlot::Final => target_count + 1,
    }
}

/// The file name of the frame of `slot`:
/// `<prefix>_<number>_initial.png`, `<prefix>_<number>_after_<label>.png`
/// or `<prefix>_<number>_final.png`.
pub open spec fn frame_name(prefix: Seq<char>, slot: FrameSlot, ts: Seq<CalibrationTarget>) -> Seq<char> {
    let head = prefix + "_"@ + decimal(frame_number(slot, ts.len()));
    match slot {
        FrameSlot::Initial => head + "_initial.png"@,
        FrameSlot::AfterTap(i) => head + "_after_"@ + sanitized(ts[i as int].name@) + ".png"@,
        FrameSlot::Final => head + "_final.png"@,
    }
}

/// The file name of the frame of `slot` in a run over `targets`.
pub fn frame_file_name(prefix: &str, slot: FrameSlot, targets: &Vec<CalibrationTarget>) -> (r: String)
    requires
        slot matches FrameSlot::AfterTap(i) ==> i < targets@.len(),
        targets@.len() < usize::MAX,
    ensures
        r@ == frame_name(prefix@, slot, targets@),
{
    let mut out = String::from_str(prefix);
    out.append("_");
    match slot {
        FrameSlot::Initial => {
            push_decimal(&mut out, 0);
            out.append("_initial.png");
        },
        FrameSlot::AfterTap(i) => {
            push_decimal(&mut out, i + 1);
            out.append("_after_");
            push_sanitized(&mut out, targets[i].name.as_str());
            out.append(".png");
        },
        FrameSlot::Final => {
            push_decimal(&mut out, targets.len() + 1);
            out.append("_final.png");
        },
    }
    out
}

} // verus!
