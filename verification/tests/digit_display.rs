use oxitimer::DigitDisplay;

#[test]
fn test_digit_display_rendering() {
    let lines = DigitDisplay::render_time(12, 34);

    // Should produce 5 lines
    assert_eq!(lines.len(), 5);

    // Each line should be non-empty
    for line in &lines {
        assert!(!line.is_empty());
    }

    // Basic sanity check for format
    // Lines should contain digit characters and spaces
    for line in &lines {
        assert!(line.chars().all(|c| c == '█' || c == ' '));
    }
}
