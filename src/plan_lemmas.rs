//! What every calibration plan guarantees: the order of its touch events,
//! the frames it captures, the hold inside each tap, and that a failed tap
//! ends the taps.

use vstd::prelude::*;
use crate::calibration::{
    after, closing, opening, pending, performed, plan, steps_through, target_gap, target_steps,
    touch, CalibrationTarget, Command, FrameSlot, SequencerView, StepFailure, CAPTURE_SETTLE_MS,
    TOUCH_HOLD_MS,
};
use crate::ffi::IdbError;
use crate::proto::HidDirection;

verus! {

/// The touch events of `s`, in order.
pub open spec fn touches(s: Seq<Command>) -> Seq<Command>
    decreases s.len(),
{
    if s.len() == 0 {
        seq![]
    } else if s.last() is Touch {
        touches(s.drop_last()).push(s.last())
    } else {
        touches(s.drop_last())
    }
}

/// The frames that `s` captures, in order.
pub open spec fn frames(s: Seq<Command>) -> Seq<FrameSlot>
    decreases s.len(),
{
    if s.len() == 0 {
        seq![]
    } else if let Command::Capture { slot } = s.last() {
        frames(s.drop_last()).push(slot)
    } else {
        frames(s.drop_last())
    }
}

/// The `j`-th touch event of a run over `ts`: down for even `j`, up for odd
/// `j`, at target `j / 2`.
pub open spec fn tap_event(ts: Seq<CalibrationTarget>, j: int) -> Command {
    touch(ts, j / 2, if j % 2 == 0 { HidDirection::Down } else { HidDirection::Up })
}

/// The touch events of a run over `ts`: one down-up pair per target, in
/// list order.
pub open spec fn tap_sequence(ts: Seq<CalibrationTarget>) -> Seq<Command> {
    Seq::new(2 * ts.len(), |j: int| tap_event(ts, j))
}

/// The frames of a run over `n` targets that captures: one before, one
/// after each tap, one after the last.
pub open spec fn frame_sequence(n: nat) -> Seq<FrameSlot> {
    seq![FrameSlot::Initial] + Seq::new(n, |i: int| FrameSlot::AfterTap(i as usize)) + seq![
        FrameSlot::Final,
    ]
}

proof fn lemma_touches_add(a: Seq<Command>, b: Seq<Command>)
    ensures
        touches(a + b) == touches(a) + touches(b),
    decreases b.len(),
{
    if b.len() == 0 {
        assert(a + b =~= a);
        assert(touches(b) =~= seq![]);
        assert(touches(a) + touches(b) =~= touches(a));
    } else {
        assert((a + b).drop_last() =~= a + b.drop_last());
        lemma_touches_add(a, b.drop_last());
        if b.last() is Touch {
            assert(touches(a) + touches(b) =~= (touches(a) + touches(b.drop_last())).push(b.last()));
        } else {
            assert(touches(a) + touches(b) =~= touches(a) + touches(b.drop_last()));
        }
    }
}

proof fn lemma_frames_add(a: Seq<Command>, b: Seq<Command>)
    ensures
        frames(a + b) == frames(a) + frames(b),
    decreases b.len(),
{
    if b.len() == 0 {
        assert(a + b =~= a);
        assert(frames(b) =~= seq![]);
        assert(frames(a) + frames(b) =~= frames(a));
    } else {
        assert((a + b).drop_last() =~= a + b.drop_last());
        lemma_frames_add(a, b.drop_last());
        if let Command::Capture { slot } = b.last() {
            assert(frames(a) + frames(b) =~= (frames(a) + frames(b.drop_last())).push(slot));
        } else {
            assert(frames(a) + frames(b) =~= frames(a) + frames(b.drop_last()));
        }
    }
}

proof fn lemma_target_steps_events(ts: Seq<CalibrationTarget>, i: int, capture: bool)
    ensures
        touches(target_steps(ts, i, capture)) == seq![
            touch(ts, i, HidDirection::Down),
            touch(ts, i, HidDirection::Up),
        ],
        frames(target_steps(ts, i, capture)) == if capture {
            seq![FrameSlot::AfterTap(i as usize)]
        } else {
            seq![]
        },
{
    let tap = seq![
        touch(ts, i, HidDirection::Down),
        Command::Pause { millis: TOUCH_HOLD_MS },
        touch(ts, i, HidDirection::Up),
    ];
    let shot = if capture {
        seq![
            Command::Pause { millis: CAPTURE_SETTLE_MS },
            Command::Capture { slot: FrameSlot::AfterTap(i as usize) },
        ]
    } else {
        seq![]
    };
    let gap = if i + 1 < ts.len() {
        seq![Command::Pause { millis: target_gap(capture) }]
    } else {
        seq![]
    };
    assert(target_steps(ts, i, capture) == tap + shot + gap);
    lemma_touches_add(tap + shot, gap);
    lemma_touches_add(tap, shot);
    lemma_frames_add(tap + shot, gap);
    lemma_frames_add(tap, shot);
    reveal_with_fuel(touches, 4);
    reveal_with_fuel(frames, 4);
    assert(tap.drop_last().drop_last().drop_last() =~= seq![]);
    assert(tap.drop_last().drop_last() =~= seq![touch(ts, i, HidDirection::Down)]);
    assert(shot.len() > 0 ==> shot.drop_last().drop_last() =~= seq![]);
    assert(gap.len() > 0 ==> gap.drop_last() =~= seq![]);
    assert(touches(tap) =~= seq![touch(ts, i, HidDirection::Down), touch(ts, i, HidDirection::Up)]);
    assert(touches(shot) =~= seq![]);
    assert(touches(gap) =~= seq![]);
    assert(frames(tap) =~= seq![]);
    assert(frames(gap) =~= seq![]);
    if capture {
        assert(frames(shot) =~= seq![FrameSlot::AfterTap(i as usize)]);
    } else {
        assert(frames(shot) =~= seq![]);
    }
}

proof fn lemma_steps_through_events(ts: Seq<CalibrationTarget>, k: nat, capture: bool)
    requires
        k <= ts.len(),
    ensures
        touches(steps_through(ts, k, capture)) == Seq::new(2 * k, |j: int| tap_event(ts, j)),
        frames(steps_through(ts, k, capture)) == if capture {
            Seq::new(k, |i: int| FrameSlot::AfterTap(i as usize))
        } else {
            seq![]
        },
    decreases k,
{
    if k == 0 {
        assert(touches(steps_through(ts, k, capture)) =~= Seq::new(2 * k, |j: int| tap_event(ts, j)));
        assert(frames(steps_through(ts, k, capture)) =~= seq![]);
        assert(Seq::new(k, |i: int| FrameSlot::AfterTap(i as usize)) =~= seq![]);
    } else {
        let prev = steps_through(ts, (k - 1) as nat, capture);
        let block = target_steps(ts, k - 1, capture);
        lemma_steps_through_events(ts, (k - 1) as nat, capture);
        lemma_target_steps_events(ts, k - 1, capture);
        lemma_touches_add(prev, block);
        lemma_frames_add(prev, block);
        let want = Seq::new(2 * k, |j: int| tap_event(ts, j));
        let got = touches(prev) + touches(block);
        assert forall|j: int| 0 <= j < 2 * k implies got[j] == want[j] by {
            if j < 2 * (k - 1) {
            } else if j == 2 * (k - 1) {
                assert(j / 2 == k - 1 && j % 2 == 0);
            } else {
                assert(j == 2 * k - 1);
                assert(j / 2 == k - 1 && j % 2 == 1);
            }
        }
        assert(got =~= want);
        if capture {
            assert(frames(prev) + frames(block) =~= Seq::new(
                k,
                |i: int| FrameSlot::AfterTap(i as usize),
            ));
        } else {
            assert(frames(prev) + frames(block) =~= seq![]);
        }
    }
}

proof fn lemma_plan_events(ts: Seq<CalibrationTarget>, capture: bool)
    ensures
        touches(plan(ts, capture)) == tap_sequence(ts),
        frames(plan(ts, capture)) == if capture {
            frame_sequence(ts.len())
        } else {
            seq![]
        },
{
    let open = opening(capture);
    let body = steps_through(ts, ts.len(), capture);
    let close = closing(capture);
    lemma_steps_through_events(ts, ts.len(), capture);
    lemma_touches_add(open + body, close);
    lemma_touches_add(open, body);
    lemma_frames_add(open + body, close);
    lemma_frames_add(open, body);
    reveal_with_fuel(touches, 3);
    reveal_with_fuel(frames, 3);
    assert(open.len() > 0 ==> open.drop_last().len() == 0 || open.drop_last().drop_last() =~= seq![]);
    assert(close.len() > 0 ==> close.drop_last().drop_last() =~= seq![]);
    assert(touches(open) =~= seq![]);
    assert(touches(close) =~= seq![]);
    assert(touches(plan(ts, capture)) =~= tap_sequence(ts));
    if capture {
        assert(open.drop_last() =~= seq![Command::Capture { slot: FrameSlot::Initial }]);
        assert(frames(open) =~= seq![FrameSlot::Initial]);
        assert(frames(close) =~= seq![FrameSlot::Final]);
        assert(frames(plan(ts, capture)) =~= frame_sequence(ts.len()));
    } else {
        assert(frames(open) =~= seq![]);
        assert(frames(close) =~= seq![]);
        assert(frames(plan(ts, capture)) =~= seq![]);
    }
}

/// A run over `n` targets sends exactly `2 n` touch events, alternating
/// down and up, one pair per target, in list order.
pub proof fn lemma_taps_in_order(ts: Seq<CalibrationTarget>, capture: bool)
    ensures
        touches(plan(ts, capture)).len() == 2 * ts.len(),
        forall|j: int|
            0 <= j < 2 * ts.len() ==> #[trigger] touches(plan(ts, capture))[j] == touch(
                ts,
                j / 2,
                if j % 2 == 0 {
                    HidDirection::Down
                } else {
                    HidDirection::Up
                },
            ),
{
    lemma_plan_events(ts, capture);
}

/// A run over `n` targets that captures takes exactly `n + 2` frames: one
/// before the first tap, one after each tap, one after the last; a run
/// that does not capture takes none.
pub proof fn lemma_frame_count(ts: Seq<CalibrationTarget>, capture: bool)
    ensures
        frames(plan(ts, capture)).len() == if capture {
            ts.len() + 2
        } else {
            0
        },
        capture ==> frames(plan(ts, capture)) == frame_sequence(ts.len()),
{
    lemma_plan_events(ts, capture);
}

/// The touch up that ends the touch `c` began.
pub open spec fn release_of(c: Command) -> Command {
    match c {
        Command::Touch { direction, target, x, y } => Command::Touch {
            direction: HidDirection::Up,
            target,
            x,
            y,
        },
        _ => c,
    }
}

/// Whether `c` is a touch down.
pub open spec fn is_press(c: Command) -> bool {
    c matches Command::Touch { direction: HidDirection::Down, .. }
}

/// At position `p` of `s`, a touch down is followed by the hold pause and
/// then by the touch up at the same target.
pub open spec fn held_at(s: Seq<Command>, p: int) -> bool {
    is_press(s[p]) ==> {
        &&& p + 2 < s.len()
        &&& s[p + 1] == Command::Pause { millis: TOUCH_HOLD_MS }
        &&& s[p + 2] == release_of(s[p])
    }
}

proof fn lemma_steps_through_held(ts: Seq<CalibrationTarget>, k: nat, capture: bool)
    ensures
        forall|p: int|
            0 <= p < steps_through(ts, k, capture).len() ==> held_at(
                #[trigger] steps_through(ts, k, capture),
                p,
            ),
    decreases k,
{
    if k > 0 {
        let prev = steps_through(ts, (k - 1) as nat, capture);
        let block = target_steps(ts, k - 1, capture);
        let all = steps_through(ts, k, capture);
        lemma_steps_through_held(ts, (k - 1) as nat, capture);
        assert(all == prev + block);
        assert forall|p: int| 0 <= p < all.len() implies held_at(all, p) by {
            if p < prev.len() {
                assert(held_at(prev, p));
                if is_press(prev[p]) {
                    assert(all[p + 1] == prev[p + 1]);
                    assert(all[p + 2] == prev[p + 2]);
                }
            } else {
                let q = p - prev.len();
                assert(all[p] == block[q]);
                if q == 0 {
                    assert(all[p + 1] == block[1]);
                    assert(all[p + 2] == block[2]);
                } else {
                    assert(!is_press(block[q]));
                }
            }
        }
    }
}

/// Inside every tap of a run, the touch down is followed by the hold pause
/// and then by the touch up at the same point; nothing else comes between.
pub proof fn lemma_hold_inside_tap(ts: Seq<CalibrationTarget>, capture: bool, p: int)
    requires
        0 <= p < plan(ts, capture).len(),
        is_press(plan(ts, capture)[p]),
    ensures
        p + 2 < plan(ts, capture).len(),
        plan(ts, capture)[p + 1] == (Command::Pause { millis: TOUCH_HOLD_MS }),
        plan(ts, capture)[p + 2] == release_of(plan(ts, capture)[p]),
{
    let open = opening(capture);
    let body = steps_through(ts, ts.len(), capture);
    let close = closing(capture);
    let all = plan(ts, capture);
    lemma_steps_through_held(ts, ts.len(), capture);
    assert(all == open + body + close);
    if p < open.len() {
        assert(all[p] == open[p]);
    } else if p < open.len() + body.len() {
        let q = p - open.len();
        assert(all[p] == body[q]);
        assert(held_at(body, q));
        assert(all[p + 1] == body[q + 1]);
        assert(all[p + 2] == body[q + 2]);
    } else {
        assert(all[p] == close[p - open.len() - body.len()]);
    }
}

proof fn lemma_touches_of_prefix(s: Seq<Command>, q: int)
    requires
        0 <= q < s.len(),
        s[q] is Touch,
    ensures
        touches(s.take(q + 1)).len() >= 1,
        touches(s.take(q + 1)).len() <= touches(s).len(),
        touches(s).take(touches(s.take(q + 1)).len() as int).last() == s[q],
{
    assert(s.take(q + 1).drop_last() =~= s.take(q));
    assert(s.take(q + 1).last() == s[q]);
    assert(s =~= s.take(q + 1) + s.skip(q + 1));
    lemma_touches_add(s.take(q + 1), s.skip(q + 1));
    let m = touches(s.take(q + 1)).len() as int;
    assert(touches(s.take(q + 1)) =~= touches(s).take(m));
}

proof fn lemma_touches_len_monotone(s: Seq<Command>, q: int, p: int)
    requires
        0 <= q <= p < s.len(),
    ensures
        touches(s.take(q + 1)).len() <= touches(s.take(p + 1)).len(),
{
    assert(s.take(p + 1) =~= s.take(q + 1) + s.subrange(q + 1, p + 1));
    lemma_touches_add(s.take(q + 1), s.subrange(q + 1, p + 1));
}

/// Up to and including a tap event of target `k`, a run taps no target
/// after `k`.
pub proof fn lemma_taps_up_to(ts: Seq<CalibrationTarget>, capture: bool, p: int)
    requires
        ts.len() <= usize::MAX,
        0 <= p < plan(ts, capture).len(),
        plan(ts, capture)[p] is Touch,
    ensures
        forall|q: int|
            0 <= q <= p && (#[trigger] plan(ts, capture)[q]) is Touch ==> plan(ts, capture)[q]->target
                <= plan(ts, capture)[p]->target,
{
    let all = plan(ts, capture);
    lemma_plan_events(ts, capture);
    lemma_touches_of_prefix(all, p);
    let mp = touches(all.take(p + 1)).len() as int;
    assert(all[p] == tap_sequence(ts)[mp - 1]);
    assert forall|q: int| 0 <= q <= p && (#[trigger] all[q]) is Touch implies all[q]->target
        <= all[p]->target by {
        lemma_touches_of_prefix(all, q);
        lemma_touches_len_monotone(all, q, p);
        let mq = touches(all.take(q + 1)).len() as int;
        assert(all[q] == tap_sequence(ts)[mq - 1]);
        assert((mq - 1) / 2 <= (mp - 1) / 2);
    }
}

/// Once the tap event of target `k` fails, the run hands out no further
/// command, reports the failure, and none of the commands it handed out
/// taps a target after `k`.
pub proof fn lemma_failed_tap_ends_taps(
    ts: Seq<CalibrationTarget>,
    capture: bool,
    v: SequencerView,
    e: IdbError,
)
    requires
        ts.len() <= usize::MAX,
        v.plan == plan(ts, capture),
        pending(v) matches Some(c) && c is Touch,
    ensures
        ({
            let w = after(v, Err(e));
            &&& w.failure == Some(
                StepFailure { step: v.done as usize, command: v.plan[v.done as int], error: e },
            )
            &&& pending(w) is None
            &&& forall|outcome: Result<(), IdbError>| #[trigger] after(w, outcome) == w
            &&& forall|q: int|
                0 <= q < performed(w).len() && (#[trigger] performed(w)[q]) is Touch
                    ==> performed(w)[q]->target <= v.plan[v.done as int]->target
        }),
{
    let w = after(v, Err(e));
    lemma_taps_up_to(ts, capture, v.done as int);
    assert forall|q: int| 0 <= q < performed(w).len() && (#[trigger] performed(w)[q]) is Touch
        implies performed(w)[q]->target <= v.plan[v.done as int]->target by {
        assert(performed(w)[q] == v.plan[q]);
    }
}

} // verus!
