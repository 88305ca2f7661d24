use oxitimer::{SessionType, UiColor};

#[test]
fn test_session_type_transition() {
    assert_eq!(SessionType::Work.next(), SessionType::Break);
    assert_eq!(SessionType::Break.next(), SessionType::Work);
}

#[test]
fn test_session_colors() {
    assert_eq!(SessionType::Work.color(), UiColor::Green);
    assert_eq!(SessionType::Break.color(), UiColor::Cyan);
}

#[test]
fn test_session_display_names() {
    assert_eq!(SessionType::Work.display_name(), "WORK");
    assert_eq!(SessionType::Break.display_name(), "BREAK");
}

#[test]
fn next_twice_gives_the_type_back() {
    for t in [SessionType::Work, SessionType::Break] {
        assert_eq!(t.next().next(), t);
        assert_ne!(t.next(), t);
    }
}
