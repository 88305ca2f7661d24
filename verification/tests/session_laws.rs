use oxitimer::{Duration, SessionState, SessionType, TimerSession};

fn skip(session: &mut TimerSession) {
    session.complete_session();
    session.advance_to_next_session();
}

#[test]
fn limited_run_has_max_work_sessions_and_no_last_break() {
    let mut session = TimerSession::new(30, 10, Some(3));
    let expected = [
        (SessionType::Work, 1),
        (SessionType::Break, 1),
        (SessionType::Work, 2),
        (SessionType::Break, 2),
        (SessionType::Work, 3),
    ];
    for (i, (t, c)) in expected.iter().enumerate() {
        assert_eq!(session.state(), SessionState::Running, "step {}", i);
        assert_eq!(session.session_type(), *t);
        assert_eq!(session.cycle_count(), *c);
        let full = if *t == SessionType::Work { 30 } else { 10 };
        assert_eq!(session.remaining().as_secs(), full);
        skip(&mut session);
    }
    assert_eq!(session.state(), SessionState::Finished);
    assert_eq!(session.cycle_count(), 3);
    assert!(session.is_finished());
}

#[test]
fn unlimited_run_never_finishes() {
    let mut session = TimerSession::new(5, 3, None);
    for j in 0..40usize {
        assert_eq!(session.state(), SessionState::Running);
        assert_eq!(session.cycle_count(), j / 2 + 1);
        let t = if j % 2 == 0 { SessionType::Work } else { SessionType::Break };
        assert_eq!(session.session_type(), t);
        assert!(!session.is_finished());
        skip(&mut session);
    }
}

#[test]
fn zero_cycles_finish_at_first_skip() {
    let mut session = TimerSession::new(5, 3, Some(0));
    assert!(session.is_finished());
    assert_eq!(session.state(), SessionState::Running);
    skip(&mut session);
    assert_eq!(session.state(), SessionState::Finished);
    assert_eq!(session.cycle_count(), 1);
}

#[test]
fn finished_timer_stays_finished() {
    let mut session = TimerSession::new(1, 1, Some(1));
    skip(&mut session);
    assert_eq!(session.state(), SessionState::Finished);
    session.toggle_pause();
    assert_eq!(session.state(), SessionState::Finished);
    assert!(!session.update());
    assert!(!session.update_with_elapsed(Duration::from_secs(100)));
    assert_eq!(session.state(), SessionState::Finished);
    session.advance_to_next_session();
    assert_eq!(session.state(), SessionState::Finished);
    session.advance_to_next_session();
    assert_eq!(session.state(), SessionState::Finished);
}

#[test]
fn resuming_continues_from_the_time_left_at_the_pause() {
    let t = std::time::Instant::now();
    let mut session = TimerSession::new_at(10, 5, None, t);
    assert!(!session.update_with_elapsed(Duration::from_secs(4)));
    assert_eq!(session.remaining().as_secs(), 6);
    session.toggle_pause_at(t);
    assert_eq!(session.state(), SessionState::Paused);
    // The clock does not count while paused.
    assert!(!session.update_with_elapsed(Duration::from_secs(100)));
    assert_eq!(session.remaining().as_secs(), 6);
    session.toggle_pause_at(t);
    assert_eq!(session.state(), SessionState::Running);
    assert!(!session.update_with_elapsed(Duration::from_secs(1)));
    assert_eq!(session.remaining().as_secs(), 5);
    assert!(session.update_with_elapsed(Duration::from_secs(6)));
    assert_eq!(session.state(), SessionState::Completed);
    assert_eq!(session.remaining(), Duration::zero());
}

#[test]
fn resuming_with_the_clock_keeps_the_time_left() {
    let mut session = TimerSession::new(100, 50, None);
    session.update_with_elapsed(Duration::from_secs(70));
    session.toggle_pause();
    session.toggle_pause();
    assert!(!session.update());
    assert!(session.remaining().as_secs() <= 30);
    assert!(session.remaining().as_secs() >= 20);
}

#[test]
fn moving_on_starts_the_next_session_from_its_full_length() {
    let t = std::time::Instant::now();
    let mut session = TimerSession::new_at(10, 5, None, t);
    session.toggle_pause_at(t);
    session.toggle_pause_at(t);
    assert!(session.update_with_elapsed(Duration::from_secs(10)));
    session.advance_to_next_session_at(t);
    assert_eq!(session.session_type(), SessionType::Break);
    assert!(!session.update_with_elapsed(Duration::from_secs(1)));
    assert_eq!(session.remaining().as_secs(), 4);
}

#[test]
fn pausing_twice_gives_the_session_back() {
    let mut session = TimerSession::new(100, 50, Some(2));
    session.update_with_elapsed(Duration::from_secs(30));
    let before = (session.session_type(), session.remaining(), session.cycle_count());
    session.toggle_pause();
    assert_eq!(session.state(), SessionState::Paused);
    session.toggle_pause();
    assert_eq!(session.state(), SessionState::Running);
    assert_eq!((session.session_type(), session.remaining(), session.cycle_count()), before);
}

#[test]
fn toggling_a_completed_session_does_nothing() {
    let mut session = TimerSession::new(100, 50, None);
    session.complete_session();
    session.toggle_pause();
    assert_eq!(session.state(), SessionState::Completed);
}

#[test]
fn update_counts_down_and_completes_at_the_length() {
    let mut session = TimerSession::new(10, 5, None);
    assert!(!session.update_with_elapsed(Duration::from_secs(3)));
    assert_eq!(session.remaining(), Duration::from_secs(7));
    assert_eq!(session.state(), SessionState::Running);

    assert!(!session.update_with_elapsed(Duration::new(9, 500_000_000)));
    assert_eq!(session.remaining(), Duration::new(0, 500_000_000));
    assert_eq!(session.format_remaining(), "00:00");

    assert!(session.update_with_elapsed(Duration::from_secs(10)));
    assert_eq!(session.remaining(), Duration::zero());
    assert_eq!(session.state(), SessionState::Completed);

    // A completed session no longer changes with the clock.
    assert!(!session.update_with_elapsed(Duration::from_secs(20)));
    assert_eq!(session.state(), SessionState::Completed);
}

#[test]
fn update_past_the_length_completes() {
    let mut session = TimerSession::new(10, 5, None);
    assert!(session.update_with_elapsed(Duration::from_secs(11)));
    assert_eq!(session.remaining().as_secs(), 0);
}

#[test]
fn paused_session_ignores_the_clock() {
    let mut session = TimerSession::new(10, 5, None);
    session.toggle_pause();
    assert!(!session.update_with_elapsed(Duration::from_secs(4)));
    assert_eq!(session.remaining().as_secs(), 10);
}

#[test]
fn break_runs_from_its_own_length() {
    let mut session = TimerSession::new(10, 5, None);
    assert!(session.update_with_elapsed(Duration::from_secs(10)));
    session.advance_to_next_session();
    assert_eq!(session.session_type(), SessionType::Break);
    assert_eq!(session.current_duration(), Duration::from_secs(5));
    assert_eq!(session.remaining().as_secs(), 5);
    assert!(!session.update_with_elapsed(Duration::from_secs(2)));
    assert_eq!(session.remaining().as_secs(), 3);
}

#[test]
fn update_with_the_clock_right_after_start() {
    let mut session = TimerSession::new(100, 50, None);
    assert!(!session.update());
    assert_eq!(session.state(), SessionState::Running);
    assert!(session.remaining().as_secs() <= 100);
    assert!(session.remaining().as_secs() >= 90);
}

#[test]
fn update_with_the_clock_completes_an_empty_session() {
    let mut session = TimerSession::new(0, 50, None);
    assert!(session.update());
    assert_eq!(session.state(), SessionState::Completed);
    assert_eq!(session.remaining(), Duration::zero());
}

#[test]
fn format_remaining_pads_and_counts_minutes_past_an_hour() {
    assert_eq!(TimerSession::new(59, 1, None).format_remaining(), "00:59");
    assert_eq!(TimerSession::new(600, 1, None).format_remaining(), "10:00");
    assert_eq!(TimerSession::new(6000, 1, None).format_remaining(), "100:00");
}
