use rusync::console_info::human_seconds;
use rusync::console_info::truncate_lossy;

#[test]
fn test_truncate_string() {
    let new_text = truncate_lossy("ééé", 2);
    assert_eq!(new_text, "é");
}

#[test]
fn test_human_seconds() {
    assert_eq!("00:00:05", human_seconds(5));
    assert_eq!("00:00:42", human_seconds(42));
    assert_eq!("00:03:05", human_seconds(185));
    assert_eq!("02:04:05", human_seconds(7445));
    assert_eq!("200:00:02", human_seconds(720_002));
}

#[test]
fn human_seconds_zero() {
    assert_eq!("00:00:00", human_seconds(0));
}

#[test]
fn truncate_lossy_keeps_short_text() {
    assert_eq!("abc", truncate_lossy("abc", 10));
    assert_eq!("abc", truncate_lossy("abc", 3));
}

#[test]
fn truncate_lossy_replaces_half_a_char() {
    // three bytes keep one full two-byte char and half of the next one
    let truncated = truncate_lossy("ééé", 3);
    assert_eq!(truncated, "é\u{FFFD}");
}

#[test]
fn truncate_lossy_to_nothing() {
    assert_eq!("", truncate_lossy("abc", 0));
}
