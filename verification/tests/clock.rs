use dinodao::GameEvent;
use dinodao::SessionClock;

fn sid() -> String {
    "x".repeat(32)
}

/// Start a 100-wide session and spawn its first obstacle at `t0`.
fn started(t0: u64) -> SessionClock {
    let mut c = SessionClock::new();
    assert!(c.start(sid(), 100));
    assert_eq!(c.tick(t0), vec![GameEvent::Trigger(true)]);
    c
}

/// Run one full obstacle cycle (spawn, then expiry) starting at `t`, and
/// return the time of the expiry tick together with the expiry events.
fn score_cycle(c: &mut SessionClock, t: u64) -> (u64, Vec<GameEvent>) {
    assert_eq!(c.tick(t), vec![GameEvent::Trigger(true)]);
    let window_ms = (c.width as u64) * (c.speed_tenths as u64) / 10;
    let t_expire = t + window_ms + 1;
    let events = c.tick(t_expire);
    (t_expire, events)
}

#[test]
fn start_rejects_short_session_id() {
    let mut c = SessionClock::new();
    assert!(!c.start("x".repeat(31), 100));
    assert!(!c.active);
}

#[test]
fn start_rejects_long_session_id() {
    let mut c = SessionClock::new();
    assert!(!c.start("x".repeat(33), 100));
    assert!(!c.active);
}

#[test]
fn start_rejects_small_width() {
    let mut c = SessionClock::new();
    assert!(!c.start(sid(), 99));
    assert!(!c.active);
}

#[test]
fn failed_start_leaves_prior_session_untouched() {
    let mut c = SessionClock::new();
    assert!(c.start(sid(), 100));
    let (_, events) = score_cycle(&mut c, 0);
    assert_eq!(
        events,
        vec![GameEvent::Trigger(false), GameEvent::ScoreChange(10)]
    );

    assert!(!c.start("y".repeat(31), 200));
    assert!(c.active);
    assert_eq!(c.score, 10);
    assert_eq!(c.speed_tenths, 50);
    assert_eq!(c.width, 100);
    assert_eq!(c.session_id, sid());

    assert!(!c.start("y".repeat(32), 99));
    assert!(c.active);
    assert_eq!(c.score, 10);
    assert_eq!(c.speed_tenths, 50);
}

#[test]
fn start_initializes_session() {
    let mut c = SessionClock::new();
    assert!(c.start(sid(), 100));
    assert!(c.active);
    assert_eq!(c.score, 0);
    assert_eq!(c.speed_tenths, 50);
    assert_eq!(c.trigger_started_at, None);
    assert_eq!(c.jump_started_at, None);
    assert_eq!(c.session_id, sid());
    assert_eq!(c.width, 100);
}

#[test]
fn start_replaces_prior_session_completely() {
    let mut c = SessionClock::new();
    assert!(c.start(sid(), 100));
    let _ = score_cycle(&mut c, 0);
    assert_eq!(c.score, 10);

    assert!(c.start("y".repeat(32), 250));
    assert!(c.active);
    assert_eq!(c.score, 0);
    assert_eq!(c.speed_tenths, 50);
    assert_eq!(c.trigger_started_at, None);
    assert_eq!(c.session_id, "y".repeat(32));
    assert_eq!(c.width, 250);
}

#[test]
fn first_tick_spawns_obstacle() {
    let mut c = SessionClock::new();
    assert!(c.start(sid(), 100));
    assert_eq!(c.tick(12345), vec![GameEvent::Trigger(true)]);
    assert_eq!(c.trigger_started_at, Some(12345));
    assert_eq!(c.score, 0);
    assert_eq!(c.speed_tenths, 50);
}

#[test]
fn first_tick_spawns_at_time_zero_too() {
    let mut c = SessionClock::new();
    assert!(c.start(sid(), 100));
    assert_eq!(c.tick(0), vec![GameEvent::Trigger(true)]);
    assert_eq!(c.trigger_started_at, Some(0));
}

#[test]
fn obstacle_expiry_scores_without_speed_change() {
    // width 100 and speed 5.0 give a 500 ms obstacle window.
    let mut c = started(1000);
    let events = c.tick(1000 + 501);
    assert_eq!(
        events,
        vec![GameEvent::Trigger(false), GameEvent::ScoreChange(10)]
    );
    assert_eq!(c.score, 10);
    assert_eq!(c.speed_tenths, 50);
    assert_eq!(c.trigger_started_at, None);
}

#[test]
fn obstacle_window_boundary_is_exclusive() {
    let mut c = started(0);
    // exactly 500 ms: the window has not yet been outlived
    assert_eq!(c.tick(500), Vec::<GameEvent>::new());
    assert_eq!(c.score, 0);
    // one more millisecond: it has
    let events = c.tick(501);
    assert_eq!(
        events,
        vec![GameEvent::Trigger(false), GameEvent::ScoreChange(10)]
    );
}

#[test]
fn fifth_scoring_tick_drops_speed() {
    let mut c = SessionClock::new();
    assert!(c.start(sid(), 100));
    let mut t: u64 = 0;
    for _ in 0..4 {
        let (t_expire, _) = score_cycle(&mut c, t);
        t = t_expire + 1;
    }
    assert_eq!(c.score, 40);
    assert_eq!(c.speed_tenths, 50);
    let (_, events) = score_cycle(&mut c, t);
    assert_eq!(
        events,
        vec![
            GameEvent::Trigger(false),
            GameEvent::ScoreChange(50),
            GameEvent::SpeedChange(45),
        ]
    );
    assert_eq!(c.score, 50);
    assert_eq!(c.speed_tenths, 45);
}

#[test]
fn speed_stops_at_floor() {
    let mut c = SessionClock::new();
    assert!(c.start(sid(), 100));
    let mut t: u64 = 0;
    // eight milestones (scores 50, 100, ..., 400) walk the speed from
    // 5.0 down to the floor 1.0
    for _ in 0..40 {
        let (t_expire, _) = score_cycle(&mut c, t);
        t = t_expire + 1;
    }
    assert_eq!(c.score, 400);
    assert_eq!(c.speed_tenths, 10);
    // the next milestone still scores but no longer changes the speed
    for _ in 0..4 {
        let (t_expire, _) = score_cycle(&mut c, t);
        t = t_expire + 1;
    }
    let (_, events) = score_cycle(&mut c, t);
    assert_eq!(
        events,
        vec![GameEvent::Trigger(false), GameEvent::ScoreChange(450)]
    );
    assert_eq!(c.speed_tenths, 10);
}

#[test]
fn punish_band_ends_session() {
    // band for a 500 ms window: elapsed/500 in [57.5%, 62.5%]
    let mut c = started(0);
    let events = c.tick(300);
    assert_eq!(events, vec![GameEvent::End]);
    assert!(!c.active);
    assert_eq!(c.session_id, sid());
    // a dead session produces nothing more
    assert_eq!(c.tick(400), Vec::<GameEvent>::new());
    assert_eq!(c.tick(9999), Vec::<GameEvent>::new());
    assert!(!c.active);
}

#[test]
fn punish_band_boundaries() {
    // 57.5% of 500 ms is 287.5 ms: 287 is out, 288 is in
    let mut c = started(0);
    assert_eq!(c.tick(287), Vec::<GameEvent>::new());
    assert!(c.active);
    assert_eq!(c.tick(288), vec![GameEvent::End]);
    assert!(!c.active);

    // 62.5% of 500 ms is 312.5 ms: 312 is in, 313 is out
    let mut d = started(0);
    assert_eq!(d.tick(312), vec![GameEvent::End]);
    assert!(!d.active);

    let mut e = started(0);
    assert_eq!(e.tick(313), Vec::<GameEvent>::new());
    assert!(e.active);
}

#[test]
fn jump_input_on_inactive_clock_is_a_noop() {
    let mut c = SessionClock::new();
    assert!(!c.record_jump_input(10));
    assert_eq!(c.jump_started_at, None);
}

#[test]
fn jump_input_after_game_end_is_a_noop() {
    let mut c = started(0);
    assert_eq!(c.tick(300), vec![GameEvent::End]);
    assert!(!c.record_jump_input(310));
    assert_eq!(c.jump_started_at, None);
}

#[test]
fn jump_inputs_are_debounced() {
    let mut c = started(0);
    assert!(c.record_jump_input(10));
    assert_eq!(c.jump_started_at, Some(10));
    assert!(!c.record_jump_input(20));
    assert_eq!(c.jump_started_at, Some(10));
}

#[test]
fn jump_in_progress_suppresses_punish_band() {
    let mut c = started(0);
    assert!(c.record_jump_input(250));
    // 300 lies in the punish band, but a jump is in progress: no game
    // end, and the jump has not outlived its 100 ms window either
    assert_eq!(c.tick(300), Vec::<GameEvent>::new());
    assert!(c.active);
}

#[test]
fn jump_expires_after_its_window() {
    let mut c = started(0);
    assert!(c.record_jump_input(10));
    // exactly 100 ms after the jump: still in the air
    assert_eq!(c.tick(110), Vec::<GameEvent>::new());
    assert_eq!(c.jump_started_at, Some(10));
    // one millisecond later the jump ends
    assert_eq!(c.tick(111), vec![GameEvent::Jump(false)]);
    assert_eq!(c.jump_started_at, None);
}

#[test]
fn jump_and_obstacle_expire_on_the_same_tick() {
    let mut c = started(0);
    assert!(c.record_jump_input(450));
    let events = c.tick(551);
    assert_eq!(
        events,
        vec![
            GameEvent::Jump(false),
            GameEvent::Trigger(false),
            GameEvent::ScoreChange(10),
        ]
    );
    assert_eq!(c.jump_started_at, None);
    assert_eq!(c.trigger_started_at, None);
}

#[test]
fn expired_jump_no_longer_suppresses_punish_band() {
    let mut c = started(0);
    assert!(c.record_jump_input(10));
    // the jump expires at 111; the band check at 300 then sees no jump
    assert_eq!(c.tick(111), vec![GameEvent::Jump(false)]);
    assert_eq!(c.tick(300), vec![GameEvent::End]);
    assert!(!c.active);
}

#[test]
fn quiet_ticks_keep_score_and_speed() {
    let mut c = started(0);
    for t in [50u64, 100, 150, 200, 250] {
        assert_eq!(c.tick(t), Vec::<GameEvent>::new());
    }
    assert!(c.active);
    assert_eq!(c.score, 0);
    assert_eq!(c.speed_tenths, 50);
}
