//! A work/break interval timer: the session model, the screens it draws,
//! the choice of sounds and the reading of its command line.

pub mod cli;
pub mod controls;
pub mod digit_display;
pub mod session_state;
pub mod session_type;
pub mod sound;
pub mod terminal_ui;
pub mod text;
pub mod time;
pub mod timer_session;

pub use cli::{Cli, CliError, Commands};
pub use controls::{Key, KeyAction, Reaction};
pub use digit_display::DigitDisplay;
pub use session_state::SessionState;
pub use session_type::{SessionType, UiColor};
pub use sound::SoundEvent;
pub use terminal_ui::{ScreenText, TerminalUI};
pub use time::Duration;
pub use timer_session::TimerSession;
