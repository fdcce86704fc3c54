use tgbot::session::Sessions;
use tgbot::types::Mode;

#[test]
fn modes_default_to_video_and_remember_the_last_choice() {
    let mut s = Sessions::new();
    assert_eq!(s.mode_of(5), Mode::Video);
    s.set_mode(5, Mode::Audio);
    assert_eq!(s.mode_of(5), Mode::Audio);
    assert_eq!(s.mode_of(6), Mode::Video);
    s.set_mode(5, Mode::Video);
    assert_eq!(s.mode_of(5), Mode::Video);
}

#[test]
fn pending_links_are_taken_once() {
    let mut s = Sessions::new();
    s.remember_pending(1, "https://youtu.be/a".to_string());
    s.remember_pending(2, "https://youtu.be/b".to_string());
    s.set_mode(1, Mode::Audio);
    assert_eq!(s.take_pending(1), Some("https://youtu.be/a".to_string()));
    assert_eq!(s.take_pending(1), None);
    assert_eq!(s.take_pending(2), Some("https://youtu.be/b".to_string()));
    assert_eq!(s.mode_of(1), Mode::Audio);
}

#[test]
fn a_newer_pending_link_replaces_the_older() {
    let mut s = Sessions::new();
    s.remember_pending(1, "old".to_string());
    s.remember_pending(1, "new".to_string());
    assert_eq!(s.take_pending(1), Some("new".to_string()));
}
