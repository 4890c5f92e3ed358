//! The session clock: one reflex-game session, advanced by timer ticks.
//!
//! All durations are measured in whole milliseconds. The obstacle-window
//! multiplier ("speed") is kept in tenths, so a displayed speed of `5.0`
//! is stored as `50`. With these units every window length and every
//! progress percentage is an exact integer comparison:
//!
//! * the jump window lasts `width` milliseconds;
//! * the obstacle (trigger) window lasts `width * speed` milliseconds,
//!   that is `width * speed_tenths` tenths of a millisecond;
//! * the progress of an obstacle, as a percentage of its window, lies in
//!   the punish band `[57.5, 62.5]` exactly when
//!   `575 * width * speed_tenths <= 10000 * elapsed <= 625 * width * speed_tenths`.

use vstd::prelude::*;
use vstd::string::StrSliceExecFns;

verus! {

/// Required length of a session identifier, in characters.
pub const SESSION_ID_LEN: u32 = 32;

/// Smallest accepted display width.
pub const MIN_WIDTH: u32 = 100;

/// Initial speed, in tenths: a multiplier of 5.0.
pub const SPEED_START_TENTHS: u32 = 50;

/// Speed floor, in tenths: decrements stop once the speed would reach 1.0.
pub const SPEED_FLOOR_TENTHS: u32 = 10;

/// Amount by which the speed drops at a milestone, in tenths: 0.5.
pub const SPEED_STEP_TENTHS: u32 = 5;

/// Points awarded each time an obstacle window expires.
pub const SCORE_STEP: u32 = 10;

/// A speed drop fires whenever the score reaches a multiple of this.
pub const SCORE_PERIOD: u32 = 50;

/// Start of the punish band, in tenths of a percent of the obstacle window.
pub const BAND_START_TENTH_PERCENT: u32 = 575;

/// End of the punish band, in tenths of a percent of the obstacle window.
pub const BAND_END_TENTH_PERCENT: u32 = 625;

/// A notification produced by the clock for the presentation layer.
///
/// `Trigger(true)`/`Trigger(false)` report an obstacle appearing and
/// expiring, `Jump` the start and end of a jump, `ScoreChange` the new
/// score, `SpeedChange` the new speed in tenths, and `End` that the
/// session is over (the session id stays readable on the clock).
#[derive(Clone, Copy, Debug, PartialEq, Eq, Structural)]
pub enum GameEvent {
    Trigger(bool),
    Jump(bool),
    ScoreChange(u32),
    SpeedChange(u32),
    End,
}

/// State of one game session.
///
/// At most one session runs at a time: `start` replaces the whole state,
/// `tick` and `record_jump_input` mutate it, and the punish band sets
/// `active` to false for good. Pending timestamps are explicit options,
/// so a legitimate timestamp of zero is not mistaken for "none".
pub struct SessionClock {
    /// Whether a session is currently running.
    pub active: bool,
    /// Opaque identifier supplied at start; exactly 32 characters.
    pub session_id: String,
    /// Difficulty/scale parameter supplied at start; at least 100.
    pub width: u32,
    /// When the current obstacle window began, if one is pending.
    pub trigger_started_at: Option<u64>,
    /// When the current jump began, if one is in progress.
    pub jump_started_at: Option<u64>,
    /// Obstacle-window multiplier in tenths; from 50 down to the floor 10.
    pub speed_tenths: u32,
    /// Accumulated score; advances in increments of 10.
    pub score: u32,
}

impl SessionClock {
    /// Well-formedness: established by `new` and `start`, preserved by
    /// every mutating method.
    pub open spec fn wf(self) -> bool {
        &&& self.active ==> self.width >= MIN_WIDTH
        &&& self.active ==> self.session_id@.len() == SESSION_ID_LEN
        &&& SPEED_FLOOR_TENTHS <= self.speed_tenths <= SPEED_START_TENTHS
        &&& self.speed_tenths % SPEED_STEP_TENTHS == 0
        &&& self.score % SCORE_STEP == 0
        &&& self.trigger_started_at is Some ==> self.active
        &&& self.jump_started_at is Some ==> self.active
    }

    /// Both pending timestamps, if any, lie at or before `now`. The host
    /// clock is monotonic, so this holds of every timestamp it hands in
    /// after the one that was stored.
    pub open spec fn times_le(self, now: u64) -> bool {
        &&& self.trigger_started_at matches Some(t) ==> t <= now
        &&& self.jump_started_at matches Some(j) ==> j <= now
    }

    /// Length of the obstacle window, in tenths of a millisecond.
    pub open spec fn trigger_window_tenths(self) -> int {
        (self.width as int) * (self.speed_tenths as int)
    }

    /// Length of the jump window, in milliseconds.
    pub open spec fn jump_window_ms(self) -> int {
        self.width as int
    }

    /// A tick spawns an obstacle: the session runs and none is pending.
    pub open spec fn spawns(self) -> bool {
        self.active && self.trigger_started_at is None
    }

    /// The obstacle's progress at `now` lies in the punish band
    /// `[57.5%, 62.5%]` of its window.
    pub open spec fn in_punish_band(self, now: u64) -> bool {
        self.trigger_started_at matches Some(t)
            && (BAND_START_TENTH_PERCENT as int) * self.trigger_window_tenths() <= 10000 * (now - t)
            && 10000 * (now - t) <= (BAND_END_TENTH_PERCENT as int) * self.trigger_window_tenths()
    }

    /// A tick at `now` ends the session: an obstacle is pending, no jump
    /// is in progress, and the obstacle sits in the punish band.
    pub open spec fn ends(self, now: u64) -> bool {
        &&& self.active
        &&& self.trigger_started_at is Some
        &&& self.jump_started_at is None
        &&& self.in_punish_band(now)
    }

    /// The pending jump, if any, has outlived the jump window at `now`.
    pub open spec fn jump_expires(self, now: u64) -> bool {
        self.jump_started_at matches Some(j) && now - j > self.jump_window_ms()
    }

    /// The pending obstacle, if any, has outlived its window at `now`.
    pub open spec fn trigger_expires(self, now: u64) -> bool {
        self.trigger_started_at matches Some(t)
            && 10 * (now - t) > self.trigger_window_tenths()
    }

    /// A scoring tick also drops the speed: the new score is a positive
    /// multiple of `SCORE_PERIOD` and the speed is still above its floor.
    pub open spec fn speed_drops(self) -> bool {
        &&& self.score + SCORE_STEP > 0
        &&& (self.score + SCORE_STEP) % (SCORE_PERIOD as int) == 0
        &&& self.speed_tenths > SPEED_FLOOR_TENTHS
    }

    /// The state after a tick at `now`.
    pub open spec fn tick_next(self, now: u64) -> SessionClock {
        if !self.active {
            self
        } else if self.spawns() {
            SessionClock { trigger_started_at: Some(now), ..self }
        } else if self.ends(now) {
            SessionClock { active: false, trigger_started_at: None, ..self }
        } else {
            let after_jump = if self.jump_expires(now) {
                SessionClock { jump_started_at: None, ..self }
            } else {
                self
            };
            if self.trigger_expires(now) {
                SessionClock {
                    trigger_started_at: None,
                    score: (self.score + SCORE_STEP) as u32,
                    speed_tenths: if self.speed_drops() {
                        (self.speed_tenths - SPEED_STEP_TENTHS) as u32
                    } else {
                        self.speed_tenths
                    },
                    ..after_jump
                }
            } else {
                after_jump
            }
        }
    }

    /// The notifications a tick at `now` produces, in order.
    pub open spec fn tick_out(self, now: u64) -> Seq<GameEvent> {
        if !self.active {
            Seq::<GameEvent>::empty()
        } else if self.spawns() {
            seq![GameEvent::Trigger(true)]
        } else if self.ends(now) {
            seq![GameEvent::End]
        } else {
            let jump_part = if self.jump_expires(now) {
                seq![GameEvent::Jump(false)]
            } else {
                Seq::<GameEvent>::empty()
            };
            if self.trigger_expires(now) {
                let scored = jump_part
                    + seq![
                    GameEvent::Trigger(false),
                    GameEvent::ScoreChange((self.score + SCORE_STEP) as u32),
                ];
                if self.speed_drops() {
                    scored + seq![GameEvent::SpeedChange((self.speed_tenths - SPEED_STEP_TENTHS) as u32)]
                } else {
                    scored
                }
            } else {
                jump_part
            }
        }
    }

    /// A jump input registers: the session runs and no jump is pending.
    pub open spec fn jump_fires(self) -> bool {
        self.active && self.jump_started_at is None
    }

    /// The state after a jump input at `now`.
    pub open spec fn jump_next(self, now: u64) -> SessionClock {
        if self.jump_fires() {
            SessionClock { jump_started_at: Some(now), ..self }
        } else {
            self
        }
    }

    /// A fresh, inactive clock: no session has been started yet.
    pub fn new() -> (clock: SessionClock)
        ensures
            !clock.active,
            clock.session_id@ == Seq::<char>::empty(),
            clock.width == 0,
            clock.trigger_started_at is None,
            clock.jump_started_at is None,
            clock.speed_tenths == SPEED_START_TENTHS,
            clock.score == 0,
            clock.wf(),
    {
        SessionClock {
            active: false,
            session_id: String::new(),
            width: 0,
            trigger_started_at: None,
            jump_started_at: None,
            speed_tenths: SPEED_START_TENTHS,
            score: 0,
        }
    }

    /// Start a session. Succeeds exactly when `session_id` has 32
    /// characters and `width` is at least 100; on success the whole state
    /// is replaced, never merged with a prior session. On failure nothing
    /// changes.
    pub fn start(&mut self, session_id: String, width: u32) -> (ok: bool)
        ensures
            ok == (session_id@.len() == SESSION_ID_LEN && width >= MIN_WIDTH),
            ok ==> *final(self) == (SessionClock {
                active: true,
                session_id: session_id,
                width: width,
                trigger_started_at: None,
                jump_started_at: None,
                speed_tenths: SPEED_START_TENTHS,
                score: 0,
            }),
            !ok ==> *final(self) == *old(self),
            ok ==> final(self).wf(),
            old(self).wf() ==> final(self).wf(),
    {
        if session_id.as_str().unicode_len() != SESSION_ID_LEN as usize {
            return false;
        }
        if width < MIN_WIDTH {
            return false;
        }
        self.active = true;
        self.session_id = session_id;
        self.width = width;
        self.trigger_started_at = None;
        self.jump_started_at = None;
        self.speed_tenths = SPEED_START_TENTHS;
        self.score = 0;
        true
    }

    /// Record a jump input at `now`. Registers exactly when a session is
    /// running and no jump is in progress (rapid repeated presses during
    /// a jump are debounced); the caller reports a jump start to the
    /// presentation layer exactly when this returns true.
    pub fn record_jump_input(&mut self, now: u64) -> (jumped: bool)
        ensures
            jumped == old(self).jump_fires(),
            *final(self) == old(self).jump_next(now),
            old(self).wf() ==> final(self).wf(),
    {
        if self.active && self.jump_started_at.is_none() {
            self.jump_started_at = Some(now);
            true
        } else {
            false
        }
    }

    /// Advance the session to time `now` and return the notifications this
    /// produces, in order. A tick on an inactive clock does nothing. An
    /// active tick either spawns an obstacle, or ends the session in the
    /// punish band, or expires the jump and obstacle windows, scoring and
    /// dropping the speed as the windows close.
    ///
    /// The host clock is monotonic, so `now` is never behind a stored
    /// timestamp; the score bound keeps one more increment within `u32`.
    pub fn tick(&mut self, now: u64) -> (events: Vec<GameEvent>)
        requires
            old(self).wf(),
            old(self).times_le(now),
            old(self).active ==> old(self).score <= u32::MAX - SCORE_STEP,
        ensures
            *final(self) == old(self).tick_next(now),
            events@ =~= old(self).tick_out(now),
            final(self).wf(),
            final(self).speed_tenths <= old(self).speed_tenths,
            final(self).score >= old(self).score,
            final(self).active ==> old(self).active,
    {
        let mut events: Vec<GameEvent> = Vec::new();
        if !self.active {
            return events;
        }
        let t = match self.trigger_started_at {
            None => {
                self.trigger_started_at = Some(now);
                events.push(GameEvent::Trigger(true));
                return events;
            },
            Some(t) => t,
        };
        let window_tenths: u64 = trigger_window(self.width, self.speed_tenths);
        let elapsed: u64 = now - t;
        if self.jump_started_at.is_none() {
            let scaled: u128 = 10000u128 * (elapsed as u128);
            if (BAND_START_TENTH_PERCENT as u128) * (window_tenths as u128) <= scaled
                && scaled <= (BAND_END_TENTH_PERCENT as u128) * (window_tenths as u128)
            {
                self.active = false;
                self.trigger_started_at = None;
                events.push(GameEvent::End);
                return events;
            }
        }
        if let Some(j) = self.jump_started_at {
            if now - j > self.width as u64 {
                self.jump_started_at = None;
                events.push(GameEvent::Jump(false));
            }
        }
        if 10u128 * (elapsed as u128) > window_tenths as u128 {
            self.trigger_started_at = None;
            events.push(GameEvent::Trigger(false));
            self.score = self.score + SCORE_STEP;
            events.push(GameEvent::ScoreChange(self.score));
            if self.score > 0 && self.score % SCORE_PERIOD == 0 && self.speed_tenths > SPEED_FLOOR_TENTHS
            {
                self.speed_tenths = self.speed_tenths - SPEED_STEP_TENTHS;
                events.push(GameEvent::SpeedChange(self.speed_tenths));
            }
        }
        events
    }
}

/// The obstacle-window length in tenths of a millisecond. Fits in `u64`
/// because the speed never exceeds its starting value.
fn trigger_window(width: u32, speed_tenths: u32) -> (w: u64)
    requires
        speed_tenths <= SPEED_START_TENTHS,
    ensures
        w == (width as int) * (speed_tenths as int),
{
    proof {
        assert((width as int) * (speed_tenths as int) <= 0xffff_ffff * 50) by (nonlinear_arith)
            requires
                width <= 0xffff_ffff,
                speed_tenths <= 50,
        ;
    }
    (width as u64) * (speed_tenths as u64)
}

} // verus!
