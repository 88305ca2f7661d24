use oxitimer::digit_display::{COLON, DIGITS};
use oxitimer::{DigitDisplay, SessionType, TerminalUI, TimerSession, UiColor, Duration};

#[test]
fn rendered_rows_are_glyph_rows_two_spaces_apart() {
    let lines = DigitDisplay::render_time(7, 59);
    for row in 0..5 {
        let expected = format!(
            "{}  {}  {}  {}  {}",
            DIGITS[0][row], DIGITS[7][row], COLON[row], DIGITS[5][row], DIGITS[9][row]
        );
        assert_eq!(lines[row], expected);
        assert_eq!(lines[row].chars().count(), 30);
    }
    assert_eq!(lines[0], " ███   █████      █████   ███ ");
}

#[test]
fn running_screen_layout() {
    let session = TimerSession::new(125, 50, Some(3));
    let items = TerminalUI::layout(&session);
    assert_eq!(items.len(), 12);
    assert_eq!((items[0].col, items[0].row, items[0].color), (2, 1, UiColor::Green));
    assert_eq!(items[1].text, format!("║{:^43}║", "WORK"));
    assert_eq!(items[3].text, "[▶ Running]");
    assert_eq!(items[3].color, UiColor::Green);
    let digits = DigitDisplay::render_time(2, 5);
    for i in 0..5 {
        assert_eq!(items[4 + i].text, digits[i]);
        assert_eq!((items[4 + i].col, items[4 + i].row), (6, 7 + i as u16));
    }
    assert_eq!(items[9].text, "Cycle: 1/3");
    assert_eq!((items[9].col, items[9].row, items[9].color), (18, 13, UiColor::DarkGrey));
    assert_eq!(items[11].text, "  [SPACE] Pause/Resume  │  [ENTER] Skip  │  [Q] Quit");
}

#[test]
fn paused_break_screen_layout() {
    let mut session = TimerSession::new(10, 50, None);
    session.update_with_elapsed(Duration::from_secs(10));
    session.advance_to_next_session();
    session.toggle_pause();
    let items = TerminalUI::layout(&session);
    assert_eq!(items[1].text, format!("║{:^43}║", "BREAK"));
    assert_eq!(items[1].color, SessionType::Break.color());
    assert_eq!(items[3].text, "[⏸ PAUSED]");
    assert_eq!(items[3].color, UiColor::Yellow);
    assert_eq!(items[9].text, "Cycle: 1");
}

#[test]
fn finish_screen_layout() {
    let mut session = TimerSession::new(1, 1, Some(2));
    for _ in 0..3 {
        session.complete_session();
        session.advance_to_next_session();
    }
    let items = TerminalUI::layout(&session);
    assert_eq!(items.len(), 13);
    assert_eq!(items[1].text, "║           🎉  FINISHED!  🎉               ║");
    assert_eq!(items[1].color, UiColor::Magenta);
    assert_eq!(items[3].text, "Great work! You've completed all cycles.");
    assert_eq!(items[4].text, "");
    assert_eq!(items[5].text, "Total cycles completed: 2");
    assert_eq!((items[6].col, items[6].row, items[6].color), (10, 12, UiColor::Cyan));
    assert_eq!(items[12].text, "  [ENTER] or [Q] Exit  │  Auto-exit in 5 seconds...");
}

#[test]
fn minutes_past_ninety_nine_get_three_large_digits() {
    let lines = DigitDisplay::render_time(120, 5);
    for row in 0..5 {
        let expected = format!(
            "{}  {}  {}  {}  {}  {}",
            DIGITS[1][row], DIGITS[2][row], DIGITS[0][row], COLON[row], DIGITS[0][row], DIGITS[5][row]
        );
        assert_eq!(lines[row], expected);
        assert_eq!(lines[row].chars().count(), 37);
        assert!(lines[row].chars().all(|c| c == '█' || c == ' '));
    }
}

#[test]
fn two_hour_session_can_be_laid_out() {
    let session = TimerSession::new(7200, 60, None);
    let items = TerminalUI::layout(&session);
    assert_eq!(items.len(), 12);
    let digits = DigitDisplay::render_time(120, 0);
    for i in 0..5 {
        assert_eq!(items[4 + i].text, digits[i]);
    }
}
