//! Laws of the session clock, stated over the spec-level transition
//! functions `tick_next`, `tick_out`, `jump_next` and `jump_fires` that the
//! contracts of `tick` and `record_jump_input` tie to the executable code.

use vstd::prelude::*;

use crate::clock::GameEvent;
use crate::clock::SessionClock;
use crate::clock::SCORE_PERIOD;
use crate::clock::SCORE_STEP;
use crate::clock::SPEED_FLOOR_TENTHS;
use crate::clock::SPEED_STEP_TENTHS;

verus! {

/// An inactive clock is inert: a tick changes nothing and reports
/// nothing, and a jump input neither registers nor changes anything.
pub proof fn lemma_inactive_clock_is_silent(c: SessionClock, now: u64)
    requires
        !c.active,
    ensures
        c.tick_next(now) == c,
        c.tick_out(now) =~= Seq::<GameEvent>::empty(),
        !c.jump_fires(),
        c.jump_next(now) == c,
{
}

/// The first tick after a start, at any time `t0`, spawns the obstacle:
/// it records `t0` as the obstacle's start, reports exactly one
/// notification, the obstacle appearing, and changes nothing else.
pub proof fn lemma_first_tick_spawns(c: SessionClock, t0: u64)
    requires
        c.active,
        c.trigger_started_at is None,
    ensures
        c.tick_next(t0) == (SessionClock { trigger_started_at: Some(t0), ..c }),
        c.tick_out(t0) =~= seq![GameEvent::Trigger(true)],
{
}

/// A tick that lands in the punish band while no jump is in progress ends
/// the session: the one notification of that tick is the end report, the
/// clock goes inactive, and every later tick is silent and changes
/// nothing, until a fresh start.
pub proof fn lemma_punish_band_ends_session(c: SessionClock, now: u64)
    requires
        c.active,
        c.jump_started_at is None,
        c.in_punish_band(now),
    ensures
        c.tick_out(now) =~= seq![GameEvent::End],
        !c.tick_next(now).active,
        forall|t2: u64| #[trigger] c.tick_next(now).tick_out(t2).len() == 0,
        forall|t2: u64| #[trigger] c.tick_next(now).tick_next(t2) == c.tick_next(now),
{
}

/// A scoring tick that lifts the score to a multiple of the period while
/// the speed is above its floor also drops the speed by one step, and
/// reports the new speed as the last notification of that tick.
pub proof fn lemma_milestone_tick_drops_speed(c: SessionClock, now: u64)
    requires
        c.active,
        c.trigger_started_at is Some,
        !c.ends(now),
        c.trigger_expires(now),
        (c.score + SCORE_STEP) % (SCORE_PERIOD as int) == 0,
        c.speed_tenths > SPEED_FLOOR_TENTHS,
    ensures
        c.tick_next(now).speed_tenths == c.speed_tenths - SPEED_STEP_TENTHS,
        c.tick_out(now).last() == GameEvent::SpeedChange((c.speed_tenths - SPEED_STEP_TENTHS) as u32),
{
}

/// The speed never drops to or below its floor: once it sits at the
/// floor it stays there, scoring ticks still report the new score, and
/// no tick ever reports a speed change again.
pub proof fn lemma_speed_stops_at_floor(c: SessionClock, now: u64)
    requires
        c.speed_tenths == SPEED_FLOOR_TENTHS,
    ensures
        c.tick_next(now).speed_tenths == SPEED_FLOOR_TENTHS,
        forall|i: int|
            0 <= i < c.tick_out(now).len() ==> !(#[trigger] c.tick_out(now)[i] is SpeedChange),
        c.active && c.trigger_started_at is Some && !c.ends(now) && c.trigger_expires(now)
            ==> c.tick_out(now).contains(GameEvent::ScoreChange((c.score + SCORE_STEP) as u32)),
{
    if c.active && c.trigger_started_at is Some && !c.ends(now) && c.trigger_expires(now) {
        let out = c.tick_out(now);
        let scored = GameEvent::ScoreChange((c.score + SCORE_STEP) as u32);
        if c.jump_expires(now) {
            assert(out[2] == scored);
        } else {
            assert(out[1] == scored);
        }
    }
}

/// Jump inputs are debounced: while a session runs with no jump pending,
/// the first input registers, and a second input before the jump expires
/// registers nothing and changes nothing.
pub proof fn lemma_jump_input_debounced(c: SessionClock, n1: u64, n2: u64)
    requires
        c.jump_fires(),
    ensures
        !c.jump_next(n1).jump_fires(),
        c.jump_next(n1).jump_next(n2) == c.jump_next(n1),
{
}

/// A tick is quiet when it neither lands in the punish band nor expires
/// the obstacle window: such a tick can spawn an obstacle or end a jump,
/// but it never scores, ends the session, or changes the speed.
pub open spec fn quiet(c: SessionClock, now: u64) -> bool {
    !c.ends(now) && !c.trigger_expires(now)
}

/// The clock after ticking once at each time in `times`, in order.
pub open spec fn run_ticks(c: SessionClock, times: Seq<u64>) -> SessionClock
    decreases times.len(),
{
    if times.len() == 0 {
        c
    } else {
        run_ticks(c.tick_next(times[0]), times.drop_first())
    }
}

/// Every tick of the run at `times` is quiet for the state it meets.
pub open spec fn all_quiet(c: SessionClock, times: Seq<u64>) -> bool
    decreases times.len(),
{
    times.len() == 0
        || (quiet(c, times[0]) && all_quiet(c.tick_next(times[0]), times.drop_first()))
}

/// A run of quiet ticks leaves the score and the speed exactly where
/// they were: after a start they stay at their initial values until an
/// obstacle window expires or the session ends.
pub proof fn lemma_quiet_run_keeps_score_and_speed(c: SessionClock, times: Seq<u64>)
    requires
        all_quiet(c, times),
    ensures
        run_ticks(c, times).score == c.score,
        run_ticks(c, times).speed_tenths == c.speed_tenths,
        run_ticks(c, times).active ==> c.active,
    decreases times.len(),
{
    if times.len() > 0 {
        lemma_quiet_run_keeps_score_and_speed(c.tick_next(times[0]), times.drop_first());
    }
}

/// One tick preserves well-formedness, never raises the speed, and never
/// lowers the score: while a session runs the speed is non-increasing
/// and the score non-decreasing, and both respect their bounds.
pub proof fn lemma_tick_preserves_invariants(c: SessionClock, now: u64)
    requires
        c.wf(),
        c.score + SCORE_STEP <= u32::MAX,
    ensures
        c.tick_next(now).wf(),
        c.tick_next(now).speed_tenths <= c.speed_tenths,
        c.tick_next(now).score >= c.score,
{
}

} // verus!
