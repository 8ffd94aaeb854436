use oxiplayer::audio::AudioPlayer;
use oxiplayer::order::str_le;
use oxiplayer::text::usize_to_string;

#[test]
fn decimal_rendering_exact_values() {
    assert_eq!(usize_to_string(0), "0");
    assert_eq!(usize_to_string(7), "7");
    assert_eq!(usize_to_string(10), "10");
    assert_eq!(usize_to_string(100), "100");
    assert_eq!(usize_to_string(12345), "12345");
}

#[test]
fn ordinal_order_is_case_sensitive_and_total() {
    assert!(str_le("a", "b"));
    assert!(!str_le("b", "a"));
    assert!(str_le("a", "ab"));
    assert!(!str_le("ab", "a"));
    assert!(str_le("", "a"));
    assert!(str_le("abc", "abc"));
    // Ordinal, not case-folded: capitals sort before lower case.
    assert!(str_le("B", "a"));
    assert!(!str_le("a", "B"));
}

#[test]
fn backend_transitions() {
    let mut p = AudioPlayer::new();
    assert!(p.session.is_none());
    assert!(!p.is_paused());
    assert!(p.is_empty(false));
    p.play(true);
    assert!(p.session.is_some());
    assert_eq!(p.streams, 1);
    assert!(!p.is_empty(false));
    assert!(p.is_empty(true));
    p.pause();
    assert!(p.is_paused());
    p.resume();
    assert!(!p.is_paused());
    p.stop();
    assert!(p.session.is_none());
    assert_eq!(p.streams, 0);
    assert!(p.is_empty(false));
}

#[test]
fn backend_play_failure_returns_to_idle() {
    let mut p = AudioPlayer::new();
    p.play(true);
    p.play(false);
    assert!(p.session.is_none());
    assert_eq!(p.streams, 0);
}

#[test]
fn backend_volume_is_clamped_and_remembered() {
    let mut p = AudioPlayer::new();
    assert_eq!(p.volume, 100);
    p.set_volume(55);
    assert_eq!(p.volume, 55);
    p.set_volume(200);
    assert_eq!(p.volume, 100);
    p.play(true);
    assert_eq!(p.volume, 100);
}
