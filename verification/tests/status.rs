use text_editor::status::StatusMessage;

#[test]
fn a_new_message_is_shown() {
    let mut status = StatusMessage::new(String::from("hello"));
    assert_eq!(status.message().map(|m| m.as_str()), Some("hello"));
    assert_eq!(status.message().map(|m| m.as_str()), Some("hello"));
    assert!(status.set_time.is_some());
}

#[test]
fn set_message_replaces_the_message() {
    let mut status = StatusMessage::new(String::from("first"));
    status.set_message(String::from("second"));
    assert_eq!(status.message().map(|m| m.as_str()), Some("second"));
}

#[test]
fn a_message_is_shown_for_five_seconds() {
    let mut status = StatusMessage::new(String::from("hello"));
    assert_eq!(status.message_after(0).map(|m| m.as_str()), Some("hello"));
    assert_eq!(status.message_after(4_999_999_999).map(|m| m.as_str()), Some("hello"));
    assert_eq!(status.message_after(5_000_000_000).map(|m| m.as_str()), Some("hello"));
    assert!(status.message.is_some());
    assert!(status.set_time.is_some());
}

#[test]
fn a_message_is_forgotten_after_five_seconds() {
    let mut status = StatusMessage::new(String::from("hello"));
    assert!(status.message_after(5_000_000_001).is_none());
    assert!(status.message.is_none());
    assert!(status.set_time.is_none());
    assert!(status.message_after(0).is_none());
    assert!(status.message().is_none());
}

#[test]
fn a_forgotten_message_can_be_set_again() {
    let mut status = StatusMessage::new(String::from("hello"));
    assert!(status.message_after(u128::MAX).is_none());
    status.set_message(String::from("again"));
    assert_eq!(status.message().map(|m| m.as_str()), Some("again"));
}
