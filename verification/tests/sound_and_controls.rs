use oxitimer::controls::{
    countdown_beeps, countdown_runs, finish_key_exits, finish_screen_timed_out, running_key_action,
};
use oxitimer::Duration;
use oxitimer::sound::find_sound_file;
use oxitimer::{Key, KeyAction, Reaction, SessionState, SoundEvent, TimerSession};

fn ext(s: &str) -> Option<String> {
    Some(s.to_string())
}

#[test]
fn sound_directories() {
    assert_eq!(SoundEvent::WorkEnd.directory_name(), "work_end");
    assert_eq!(SoundEvent::BreakEnd.directory_name(), "break_end");
    assert_eq!(SoundEvent::Finish.directory_name(), "at_finish");
    assert_eq!(SoundEvent::Countdown.directory_name(), "countdown");
    assert_eq!(SoundEvent::CountdownBeep.directory_name(), "");
    assert_eq!(
        SoundEvent::all_events(),
        vec![SoundEvent::WorkEnd, SoundEvent::BreakEnd, SoundEvent::Finish, SoundEvent::Countdown]
    );
}

#[test]
fn wav_is_preferred_over_an_earlier_mp3() {
    let files = vec![ext("txt"), ext("mp3"), None, ext("wav"), ext("wav")];
    assert_eq!(find_sound_file(SoundEvent::WorkEnd, &files), Some(3));
}

#[test]
fn first_mp3_without_wav() {
    let files = vec![ext("ogg"), ext("mp3"), ext("mp3")];
    assert_eq!(find_sound_file(SoundEvent::Finish, &files), Some(1));
}

#[test]
fn no_sound_file() {
    let files = vec![ext("ogg"), None, ext("WAV"), ext("mp33")];
    assert_eq!(find_sound_file(SoundEvent::Countdown, &files), None);
    assert_eq!(find_sound_file(SoundEvent::Countdown, &Vec::new()), None);
}

#[test]
fn countdown_beep_never_has_a_file() {
    let files = vec![ext("wav")];
    assert_eq!(find_sound_file(SoundEvent::CountdownBeep, &files), None);
}

#[test]
fn keys_while_running() {
    assert_eq!(running_key_action(Key::Char('q')), KeyAction::Quit);
    assert_eq!(running_key_action(Key::Char('Q')), KeyAction::Quit);
    assert_eq!(running_key_action(Key::Char(' ')), KeyAction::TogglePause);
    assert_eq!(running_key_action(Key::Enter), KeyAction::Skip);
    assert_eq!(running_key_action(Key::Char('x')), KeyAction::Ignore);
    assert_eq!(running_key_action(Key::Other), KeyAction::Ignore);
}

#[test]
fn keys_on_the_finish_screen() {
    assert!(finish_key_exits(Key::Char('q')));
    assert!(finish_key_exits(Key::Char('Q')));
    assert!(finish_key_exits(Key::Enter));
    assert!(!finish_key_exits(Key::Char(' ')));
    assert!(!finish_key_exits(Key::Other));
}

#[test]
fn countdown_beeps_in_the_last_three_seconds() {
    assert!(!countdown_beeps(5));
    assert!(!countdown_beeps(4));
    assert!(countdown_beeps(3));
    assert!(countdown_beeps(2));
    assert!(countdown_beeps(1));
}

#[test]
fn sounds_at_the_natural_end_of_sessions() {
    let mut session = TimerSession::new(1, 1, Some(2));
    session.complete_session();
    session.advance_to_next_session();
    // Work ended, a break follows.
    assert_eq!(session.natural_end_reaction(), Reaction { sound: Some(SoundEvent::WorkEnd), stop: false });
    session.complete_session();
    session.advance_to_next_session();
    // The break ended, work follows.
    assert_eq!(session.natural_end_reaction(), Reaction { sound: Some(SoundEvent::BreakEnd), stop: false });
    session.complete_session();
    session.advance_to_next_session();
    // The last work ended: only the finish sound.
    assert_eq!(session.state(), SessionState::Finished);
    assert_eq!(session.natural_end_reaction(), Reaction { sound: Some(SoundEvent::Finish), stop: true });
}

#[test]
fn sounds_after_a_skip() {
    let mut session = TimerSession::new(10, 10, Some(1));
    let mut unlimited = TimerSession::new(10, 10, None);
    unlimited.complete_session();
    unlimited.advance_to_next_session();
    assert_eq!(unlimited.skip_reaction(), Reaction { sound: None, stop: false });
    session.complete_session();
    session.advance_to_next_session();
    assert_eq!(session.skip_reaction(), Reaction { sound: Some(SoundEvent::Finish), stop: true });
}

#[test]
fn countdown_runs_only_for_a_positive_length() {
    assert!(!countdown_runs(0));
    assert!(countdown_runs(1));
    assert!(countdown_runs(5));
}

#[test]
fn finish_screen_closes_after_five_seconds() {
    assert!(!finish_screen_timed_out(Duration::zero()));
    assert!(!finish_screen_timed_out(Duration::new(4, 999_999_999)));
    assert!(finish_screen_timed_out(Duration::from_secs(5)));
    assert!(finish_screen_timed_out(Duration::from_secs(6)));
}
