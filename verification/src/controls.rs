use vstd::prelude::*;

use crate::session_state::SessionState;
use crate::session_type::SessionType;
use crate::sound::SoundEvent;
use crate::time::{Duration, NANOS_PER_SEC};
use crate::timer_session::{advanced, completed, consistent, TimerSession, TimerView};

verus! {

/// A key the user pressed, as far as the timer tells keys apart.
#[derive(Debug, Clone, Copy, PartialEq, Eq, Structural)]
pub enum Key {
    Char(char),
    Enter,
    Other,
}

/// What a key asks of a running timer.
#[derive(Debug, Clone, Copy, PartialEq, Eq, Structural)]
pub enum KeyAction {
    Quit,
    TogglePause,
    /// Skip to the next session.
    Skip,
    Ignore,
}

/// What the timer loop does after a session has ended and the timer has
/// moved on: the sound to play, if any, and whether the loop stops.
#[derive(Debug, Clone, Copy, PartialEq, Eq, Structural)]
pub struct Reaction {
    pub sound: Option<SoundEvent>,
    pub stop: bool,
}

/// `q` or `Q` quits, space pauses or resumes, Enter skips; other keys do
/// nothing.
pub open spec fn spec_running_key_action(key: Key) -> KeyAction {
    match key {
        Key::Char(c) => if c == 'q' || c == 'Q' {
            KeyAction::Quit
        } else if c == ' ' {
            KeyAction::TogglePause
        } else {
            KeyAction::Ignore
        },
        Key::Enter => KeyAction::Skip,
        Key::Other => KeyAction::Ignore,
    }
}

/// On the finish screen, `q`, `Q` and Enter leave at once.
pub open spec fn spec_finish_key_exits(key: Key) -> bool {
    key == Key::Char('q') || key == Key::Char('Q') || key == Key::Enter
}

/// After a session ran out and the timer moved on to `v`: a finished timer
/// plays the finish sound alone and stops; otherwise the sound of the
/// session that just ended plays (work ended when a break follows, and a
/// break ended when work follows).
pub open spec fn natural_end_reaction(v: TimerView) -> Reaction {
    if v.state == SessionState::Finished {
        Reaction { sound: Some(SoundEvent::Finish), stop: true }
    } else {
        match v.session_type {
            SessionType::Work => Reaction { sound: Some(SoundEvent::BreakEnd), stop: false },
            SessionType::Break => Reaction { sound: Some(SoundEvent::WorkEnd), stop: false },
        }
    }
}

/// After a skip and the move to `v` (the skip itself beeps): a finished timer
/// plays the finish sound and stops; otherwise nothing more plays.
pub open spec fn skip_reaction(v: TimerView) -> Reaction {
    if v.state == SessionState::Finished {
        Reaction { sound: Some(SoundEvent::Finish), stop: true }
    } else {
        Reaction { sound: None, stop: false }
    }
}

pub fn running_key_action(key: Key) -> (a: KeyAction)
    ensures
        a == spec_running_key_action(key),
{
    match key {
        Key::Char(c) => {
            if c == 'q' || c == 'Q' {
                KeyAction::Quit
            } else if c == ' ' {
                KeyAction::TogglePause
            } else {
                KeyAction::Ignore
            }
        },
        Key::Enter => KeyAction::Skip,
        Key::Other => KeyAction::Ignore,
    }
}

pub fn finish_key_exits(key: Key) -> (b: bool)
    ensures
        b == spec_finish_key_exits(key),
{
    match key {
        Key::Char(c) => c == 'q' || c == 'Q',
        Key::Enter => true,
        Key::Other => false,
    }
}

/// Seconds the finish screen stays up before the program exits by itself.
pub const FINISH_SCREEN_SECS: u64 = 5;

/// A countdown runs before the timer when it lasts at least a second.
pub fn countdown_runs(countdown_seconds: u64) -> (b: bool)
    ensures
        b == (countdown_seconds > 0),
{
    countdown_seconds > 0
}

/// The finish screen closes by itself once it has been up for five seconds.
pub fn finish_screen_timed_out(shown_for: Duration) -> (b: bool)
    ensures
        b == (shown_for@ >= FINISH_SCREEN_SECS as int * NANOS_PER_SEC as int),
{
    shown_for.at_least(&Duration::from_secs(FINISH_SCREEN_SECS))
}

/// The countdown beeps in its last three seconds.
pub fn countdown_beeps(seconds_left: u64) -> (b: bool)
    ensures
        b == (seconds_left <= 3),
{
    seconds_left <= 3
}

impl TimerSession {
    /// What to do once a session that ran out has been moved on from.
    pub fn natural_end_reaction(&self) -> (r: Reaction)
        ensures
            r == natural_end_reaction(self@),
    {
        if self.state() == SessionState::Finished {
            Reaction { sound: Some(SoundEvent::Finish), stop: true }
        } else {
            match self.session_type() {
                SessionType::Work => Reaction { sound: Some(SoundEvent::BreakEnd), stop: false },
                SessionType::Break => Reaction { sound: Some(SoundEvent::WorkEnd), stop: false },
            }
        }
    }

    /// What to do once a skipped session has been moved on from.
    pub fn skip_reaction(&self) -> (r: Reaction)
        ensures
            r == skip_reaction(self@),
    {
        if self.state() == SessionState::Finished {
            Reaction { sound: Some(SoundEvent::Finish), stop: true }
        } else {
            Reaction { sound: None, stop: false }
        }
    }
}

/// When a session runs out and the timer moves on, the sound names the
/// session that ended, unless the timer finished, which plays the finish
/// sound alone: the last work session of a limited run never plays the
/// work-end sound.
pub proof fn lemma_end_sound_names_ended_session(v: TimerView, now: std::time::Instant)
    requires
        consistent(v),
        v.state == SessionState::Completed,
    ensures
        advanced(v, now).state == SessionState::Finished ==> natural_end_reaction(advanced(v, now))
            == (Reaction { sound: Some(SoundEvent::Finish), stop: true }),
        advanced(v, now).state != SessionState::Finished && v.session_type == SessionType::Work
            ==> natural_end_reaction(advanced(v, now)) == (Reaction {
            sound: Some(SoundEvent::WorkEnd),
            stop: false,
        }),
        advanced(v, now).state != SessionState::Finished && v.session_type == SessionType::Break
            ==> natural_end_reaction(advanced(v, now)) == (Reaction {
            sound: Some(SoundEvent::BreakEnd),
            stop: false,
        }),
{
}

/// A skip never plays an end-of-session sound: only the finish sound, when
/// the skip finishes the timer.
pub proof fn lemma_skip_plays_no_end_sound(v: TimerView, now: std::time::Instant)
    ensures
        skip_reaction(advanced(completed(v), now)).sound != Some(SoundEvent::WorkEnd),
        skip_reaction(advanced(completed(v), now)).sound != Some(SoundEvent::BreakEnd),
        skip_reaction(advanced(completed(v), now)).stop <==> advanced(completed(v), now).state
            == SessionState::Finished,
{
}

} // verus!
