use vstd::prelude::*;

use crate::digit_display::{time_row, DigitDisplay};
use crate::session_state::SessionState;
use crate::session_type::{SessionType, UiColor};
use crate::text::{centered, decimal, decimal_string};
use crate::time::NANOS_PER_SEC;
use crate::timer_session::{updated, TimerSession, TimerView};

verus! {

pub const BANNER_TOP: &'static str = "╔═══════════════════════════════════════════╗";
pub const BANNER_BOTTOM: &'static str = "╚═══════════════════════════════════════════╝";
pub const BANNER_SIDE: &'static str = "║";
/// Width of the text between the banner's sides.
pub const BANNER_WIDTH: usize = 43;
pub const RULE: &'static str = "━━━━━━━━━━━━━━━━━━━━━━━━━━━━━━━━━━━━━━━━━━━━━";
pub const RUNNING_CONTROLS: &'static str = "  [SPACE] Pause/Resume  │  [ENTER] Skip  │  [Q] Quit";
pub const FINISH_BANNER: &'static str = "║           🎉  FINISHED!  🎉               ║";
pub const CONGRATULATIONS: &'static str = "Great work! You've completed all cycles.";
pub const CYCLES_COMPLETED: &'static str = "Total cycles completed: ";
pub const CYCLE_PREFIX: &'static str = "Cycle: ";
pub const FINISH_CONTROLS: &'static str = "  [ENTER] or [Q] Exit  │  Auto-exit in 5 seconds...";
pub const DONE_ART: [&'static str; 5] = [
    "████    ███   █   █ ████",
    "█   █  █   █  ██  █ █   ",
    "█   █  █   █  █ █ █ ███ ",
    "█   █  █   █  █  ██ █   ",
    "████    ███   █   █ ████",
];

/// A piece of text to draw at a column and row of the terminal, in a colour.
pub struct ScreenText {
    pub col: u16,
    pub row: u16,
    pub color: UiColor,
    pub text: String,
}

/// A piece of text as the layout describes it: column, row, colour, characters.
pub type TextSpec = (u16, u16, UiColor, Seq<char>);

pub open spec fn text_spec(t: ScreenText) -> TextSpec {
    (t.col, t.row, t.color, t.text@)
}

/// The label of a session state.
pub open spec fn state_label(s: SessionState) -> Seq<char> {
    match s {
        SessionState::Running => "▶ Running"@,
        SessionState::Paused => "⏸ PAUSED"@,
        SessionState::Completed => "✓ Completed"@,
        SessionState::Finished => "★ Finished"@,
    }
}

/// The colour of a session state's label.
pub open spec fn state_color(s: SessionState) -> UiColor {
    match s {
        SessionState::Running => UiColor::Green,
        SessionState::Paused => UiColor::Yellow,
        SessionState::Completed => UiColor::Blue,
        SessionState::Finished => UiColor::Magenta,
    }
}

/// `Cycle: N/MAX`, or `Cycle: N` without a limit.
pub open spec fn cycle_label(v: TimerView) -> Seq<char> {
    match v.max_cycles {
        Some(max) => CYCLE_PREFIX@ + decimal(v.cycle_count as nat) + "/"@ + decimal(max as nat),
        None => CYCLE_PREFIX@ + decimal(v.cycle_count as nat),
    }
}

/// The whole seconds left in the session.
pub open spec fn remaining_secs(v: TimerView) -> int {
    v.remaining / NANOS_PER_SEC as int
}

/// The screen of a session under way: its type in a banner, its state, the
/// time left in large digits, the cycle and the controls.
pub open spec fn running_screen(v: TimerView) -> Seq<TextSpec> {
    let color = v.session_type.spec_color();
    let minutes = (remaining_secs(v) / 60) as nat;
    let seconds = (remaining_secs(v) % 60) as nat;
    seq![
        (2u16, 1u16, color, BANNER_TOP@),
        (2u16, 2u16, color, BANNER_SIDE@ + centered(v.session_type.spec_display_name(), 43) + BANNER_SIDE@),
        (2u16, 3u16, color, BANNER_BOTTOM@),
        (16u16, 5u16, state_color(v.state), "["@ + state_label(v.state) + "]"@),
        (6u16, 7u16, color, time_row(minutes, seconds, 0)),
        (6u16, 8u16, color, time_row(minutes, seconds, 1)),
        (6u16, 9u16, color, time_row(minutes, seconds, 2)),
        (6u16, 10u16, color, time_row(minutes, seconds, 3)),
        (6u16, 11u16, color, time_row(minutes, seconds, 4)),
        (18u16, 13u16, UiColor::DarkGrey, cycle_label(v)),
        (2u16, 16u16, UiColor::DarkGrey, RULE@),
        (2u16, 17u16, UiColor::DarkGrey, RUNNING_CONTROLS@),
    ]
}

/// The screen of a finished timer: a banner, congratulations with the
/// number of cycles, DONE in large letters and the exit controls.
pub open spec fn finish_screen(v: TimerView) -> Seq<TextSpec> {
    seq![
        (2u16, 1u16, UiColor::Magenta, BANNER_TOP@),
        (2u16, 2u16, UiColor::Magenta, FINISH_BANNER@),
        (2u16, 3u16, UiColor::Magenta, BANNER_BOTTOM@),
        (8u16, 7u16, UiColor::White, CONGRATULATIONS@),
        (8u16, 8u16, UiColor::White, ""@),
        (8u16, 9u16, UiColor::White, CYCLES_COMPLETED@ + decimal(v.cycle_count as nat)),
        (10u16, 12u16, UiColor::Cyan, DONE_ART@[0]@),
        (10u16, 13u16, UiColor::Cyan, DONE_ART@[1]@),
        (10u16, 14u16, UiColor::Cyan, DONE_ART@[2]@),
        (10u16, 15u16, UiColor::Cyan, DONE_ART@[3]@),
        (10u16, 16u16, UiColor::Cyan, DONE_ART@[4]@),
        (2u16, 19u16, UiColor::DarkGrey, RULE@),
        (2u16, 20u16, UiColor::DarkGrey, FINISH_CONTROLS@),
    ]
}

/// The screen for a session: the finish screen once the timer has finished.
pub open spec fn screen(v: TimerView) -> Seq<TextSpec> {
    if v.state == SessionState::Finished {
        finish_screen(v)
    } else {
        running_screen(v)
    }
}

/// `count` spaces.
fn spaces(count: usize) -> (s: String)
    ensures
        s@ == Seq::new(count as nat, |i: int| ' '),
{
    let mut s = String::new();
    let mut i: usize = 0;
    while i < count
        invariant
            i <= count,
            s@ == Seq::new(i as nat, |j: int| ' '),
        decreases count - i,
    {
        s.append(" ");
        proof {
            reveal_strlit(" ");
        }
        i = i + 1;
        assert(s@ =~= Seq::new(i as nat, |j: int| ' '));
    }
    s
}

fn text_at(col: u16, row: u16, color: UiColor, text: String) -> (t: ScreenText)
    ensures
        text_spec(t) == (col, row, color, text@),
{
    ScreenText { col, row, color, text }
}

/// Terminal user interface: what the screen shows.
pub struct TerminalUI;

impl TerminalUI {
    /// The banner line with the session type's name centred in it.
    fn session_line(t: SessionType) -> (s: String)
        ensures
            s@ == BANNER_SIDE@ + centered(t.spec_display_name(), 43) + BANNER_SIDE@,
    {
        let name = t.display_name();
        let len = name.unicode_len();
        proof {
            reveal_strlit("WORK");
            reveal_strlit("BREAK");
        }
        let pad = BANNER_WIDTH - len;
        let mut s = String::from_str(BANNER_SIDE);
        let left = spaces(pad / 2);
        let right = spaces(pad - pad / 2);
        s.append(left.as_str());
        s.append(name);
        s.append(right.as_str());
        s.append(BANNER_SIDE);
        s
    }

    fn state_text(s: SessionState) -> (t: &'static str)
        ensures
            t@ == state_label(s),
    {
        match s {
            SessionState::Running => "▶ Running",
            SessionState::Paused => "⏸ PAUSED",
            SessionState::Completed => "✓ Completed",
            SessionState::Finished => "★ Finished",
        }
    }

    fn state_ui_color(s: SessionState) -> (c: UiColor)
        ensures
            c == state_color(s),
    {
        match s {
            SessionState::Running => UiColor::Green,
            SessionState::Paused => UiColor::Yellow,
            SessionState::Completed => UiColor::Blue,
            SessionState::Finished => UiColor::Magenta,
        }
    }

    fn cycle_info(session: &TimerSession) -> (s: String)
        ensures
            s@ == cycle_label(session@),
    {
        let mut s = String::from_str(CYCLE_PREFIX);
        let count = decimal_string(session.cycle_count() as u64);
        s.append(count.as_str());
        if let Some(max) = session.max_cycles() {
            let limit = decimal_string(max as u64);
            s.append("/");
            s.append(limit.as_str());
        }
        s
    }

    /// What the screen shows for a session under way, top to bottom.
    pub fn running_layout(session: &TimerSession) -> (items: Vec<ScreenText>)
        ensures
            items@.map_values(|t: ScreenText| text_spec(t)) == running_screen(session@),
            items.len() == 12,
            forall|row: int|
                0 <= row < 5 ==> (#[trigger] items@[4 + row]).text@ == time_row(
                    ((session@.remaining / NANOS_PER_SEC as int) / 60) as nat,
                    ((session@.remaining / NANOS_PER_SEC as int) % 60) as nat,
                    row,
                ) && items@[4 + row].row == 7 + row && items@[4 + row].col == 6,
            items@[9].text@ == "Cycle: "@ + decimal(session@.cycle_count as nat) + match session@.max_cycles {
                Some(max) => "/"@ + decimal(max as nat),
                None => Seq::<char>::empty(),
            },
            items@[3].text@ == "["@ + state_label(session@.state) + "]"@,
            items@[1].text@ == BANNER_SIDE@ + centered(session@.session_type.spec_display_name(), 43)
                + BANNER_SIDE@,
    {
        let color = session.session_type().color();
        let total_secs = session.remaining().as_secs();
        let minutes = total_secs / 60;
        let seconds = total_secs % 60;

        let ghost layout = running_screen(session@);
        let mut items: Vec<ScreenText> = Vec::new();
        items.push(text_at(2, 1, color, String::from_str(BANNER_TOP)));
        items.push(text_at(2, 2, color, Self::session_line(session.session_type())));
        items.push(text_at(2, 3, color, String::from_str(BANNER_BOTTOM)));

        let state = session.state();
        let mut state_line = String::from_str("[");
        state_line.append(Self::state_text(state));
        state_line.append("]");
        items.push(text_at(16, 5, Self::state_ui_color(state), state_line));
        assert(forall|k: int| 0 <= k < 4 ==> text_spec(#[trigger] items@[k]) == layout[k]);

        let mut time_lines = DigitDisplay::render_time(minutes, seconds);
        let ghost digit_lines = time_lines@;
        let mut i: usize = 0;
        while i < 5
            invariant
                i <= 5,
                layout == running_screen(session@),
                minutes as int == remaining_secs(session@) / 60,
                seconds as int == remaining_secs(session@) % 60,
                color == session@.session_type.spec_color(),
                time_lines.len() == 5 - i,
                forall|k: int| 0 <= k < 5 - i ==> #[trigger] time_lines@[k] == digit_lines[k + i],
                forall|row: int|
                    0 <= row < 5 ==> #[trigger] digit_lines[row]@ == time_row(
                        minutes as nat,
                        seconds as nat,
                        row,
                    ),
                items.len() == 4 + i,
                forall|k: int| 0 <= k < 4 + i ==> text_spec(#[trigger] items@[k]) == layout[k],
            decreases 5 - i,
        {
            let line = time_lines.remove(0);
            items.push(text_at(6, 7 + i as u16, color, line));
            i = i + 1;
        }

        items.push(text_at(18, 13, UiColor::DarkGrey, Self::cycle_info(session)));
        items.push(text_at(2, 16, UiColor::DarkGrey, String::from_str(RULE)));
        items.push(text_at(2, 17, UiColor::DarkGrey, String::from_str(RUNNING_CONTROLS)));
        assert(items@.map_values(|t: ScreenText| text_spec(t)) =~= layout);
        proof {
            reveal_strlit("Cycle: ");
            assert(CYCLE_PREFIX@ == "Cycle: "@);
            assert forall|row: int| 0 <= row < 5 implies (#[trigger] items@[4 + row]).text@ == time_row(
                ((session@.remaining / NANOS_PER_SEC as int) / 60) as nat,
                ((session@.remaining / NANOS_PER_SEC as int) % 60) as nat,
                row,
            ) && items@[4 + row].row == 7 + row && items@[4 + row].col == 6 by {
                assert(text_spec(items@[4 + row]) == layout[4 + row]);
            }
            assert(text_spec(items@[9]) == layout[9]);
            assert(text_spec(items@[3]) == layout[3]);
            assert(text_spec(items@[1]) == layout[1]);
            match session@.max_cycles {
                Some(max) => {},
                None => {
                    assert(items@[9].text@ =~= "Cycle: "@ + decimal(session@.cycle_count as nat)
                        + Seq::<char>::empty());
                },
            }
        }
        items
    }

    /// What the screen shows once the timer has finished, top to bottom.
    pub fn finish_layout(session: &TimerSession) -> (items: Vec<ScreenText>)
        ensures
            items@.map_values(|t: ScreenText| text_spec(t)) == finish_screen(session@),
            items.len() == 13,
            items@[5].text@ == "Total cycles completed: "@ + decimal(session@.cycle_count as nat),
    {
        let ghost layout = finish_screen(session@);
        let mut items: Vec<ScreenText> = Vec::new();
        items.push(text_at(2, 1, UiColor::Magenta, String::from_str(BANNER_TOP)));
        items.push(text_at(2, 2, UiColor::Magenta, String::from_str(FINISH_BANNER)));
        items.push(text_at(2, 3, UiColor::Magenta, String::from_str(BANNER_BOTTOM)));

        let mut cycles_info = String::from_str(CYCLES_COMPLETED);
        let count = decimal_string(session.cycle_count() as u64);
        cycles_info.append(count.as_str());
        items.push(text_at(8, 7, UiColor::White, String::from_str(CONGRATULATIONS)));
        items.push(text_at(8, 8, UiColor::White, String::new()));
        items.push(text_at(8, 9, UiColor::White, cycles_info));
        proof {
            reveal_strlit("");
        }
        assert(forall|k: int| 0 <= k < 6 ==> text_spec(#[trigger] items@[k]) == layout[k]);

        let mut i: usize = 0;
        while i < 5
            invariant
                i <= 5,
                layout == finish_screen(session@),
                items.len() == 6 + i,
                forall|k: int| 0 <= k < 6 + i ==> text_spec(#[trigger] items@[k]) == layout[k],
            decreases 5 - i,
        {
            items.push(text_at(10, 12 + i as u16, UiColor::Cyan, String::from_str(DONE_ART[i])));
            i = i + 1;
        }

        items.push(text_at(2, 19, UiColor::DarkGrey, String::from_str(RULE)));
        items.push(text_at(2, 20, UiColor::DarkGrey, String::from_str(FINISH_CONTROLS)));
        assert(items@.map_values(|t: ScreenText| text_spec(t)) =~= layout);
        proof {
            reveal_strlit("Total cycles completed: ");
            assert(text_spec(items@[5]) == layout[5]);
        }
        items
    }

    /// What the screen shows for a session: the finish screen once the timer
    /// has finished, else the session under way.
    pub fn layout(session: &TimerSession) -> (items: Vec<ScreenText>)
        ensures
            items@.map_values(|t: ScreenText| text_spec(t)) == screen(session@),
            session@.state != SessionState::Finished ==> items.len() == 12 && forall|row: int|
                0 <= row < 5 ==> (#[trigger] items@[4 + row]).text@ == time_row(
                    ((session@.remaining / NANOS_PER_SEC as int) / 60) as nat,
                    ((session@.remaining / NANOS_PER_SEC as int) % 60) as nat,
                    row,
                ),
            session@.state == SessionState::Finished ==> items.len() == 13 && items@[5].text@
                == "Total cycles completed: "@ + decimal(session@.cycle_count as nat),
    {
        if session.state() == SessionState::Finished {
            Self::finish_layout(session)
        } else {
            Self::running_layout(session)
        }
    }
}

/// The big digits of a session's screen show the whole seconds it has
/// left, as minutes and seconds, on rows 7 to 11 at column 6, until the
/// timer finishes.
pub proof fn lemma_screen_shows_time_left(v: TimerView, row: int)
    requires
        v.state != SessionState::Finished,
        0 <= row < 5,
    ensures
        screen(v).len() == 12,
        screen(v)[4 + row] == (
            6u16,
            (7 + row) as u16,
            v.session_type.spec_color(),
            time_row(
                ((v.remaining / NANOS_PER_SEC as int) / 60) as nat,
                ((v.remaining / NANOS_PER_SEC as int) % 60) as nat,
                row,
            ),
        ),
{
}

/// The screen counts down with the clock: once `elapsed` has passed since a
/// running session's clock started, short of what was left then, its big
/// digits show what is left of that.
pub proof fn lemma_screen_counts_down(v: TimerView, elapsed: int, row: int)
    requires
        v.state == SessionState::Running,
        v.start is Some,
        0 <= elapsed < v.left_at_start,
        0 <= row < 5,
    ensures
        screen(updated(v, elapsed).0)[4 + row].3 == time_row(
            (((v.left_at_start - elapsed) / NANOS_PER_SEC as int) / 60) as nat,
            (((v.left_at_start - elapsed) / NANOS_PER_SEC as int) % 60) as nat,
            row,
        ),
{
    lemma_screen_shows_time_left(updated(v, elapsed).0, row);
}

/// The finish screen reports the cycles counted.
pub proof fn lemma_finish_screen_reports_cycles(v: TimerView)
    requires
        v.state == SessionState::Finished,
    ensures
        screen(v)[5].3 == CYCLES_COMPLETED@ + decimal(v.cycle_count as nat),
{
}

} // verus!
