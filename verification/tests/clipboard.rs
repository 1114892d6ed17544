//! The clipboard guard.

use luksbox_gui::clipboard_guard::{
    is_unchanged, tick_clipboard_guard, try_clear_if_unchanged, ClipboardTick, Guard, Span,
};

#[test]
fn guard_matches_only_its_own_payload() {
    let g = Guard::for_payload("correct horse battery staple", Span::from_secs(30));
    assert!(g.matches("correct horse battery staple"));
    assert!(!g.matches("something else"));
    assert!(!g.matches(""));
}

#[test]
fn guard_seconds_remaining_decreases() {
    let g = Guard::for_payload("x", Span::from_millis(50));
    assert!(g.seconds_remaining() <= 30);
    let start = std::time::Instant::now();
    while start.elapsed().as_millis() < 60 {}
    assert!(g.expired());
}

#[test]
fn the_stored_hash_is_sha256() {
    let g = Guard::for_payload("abc", Span::from_secs(1));
    assert_eq!(
        g.expected_hash,
        [
            0xba, 0x78, 0x16, 0xbf, 0x8f, 0x01, 0xcf, 0xea, 0x41, 0x41, 0x40, 0xde, 0x5d, 0xae,
            0x22, 0x23, 0xb0, 0x03, 0x61, 0xa3, 0x96, 0x17, 0x7a, 0x9c, 0xb4, 0x10, 0xff, 0x61,
            0xf2, 0x00, 0x15, 0xad,
        ]
    );
}

#[test]
fn countdown_saturates() {
    let g = Guard::for_payload("x", Span::from_secs(30));
    assert_eq!(g.seconds_remaining_after(0), 30);
    assert_eq!(g.seconds_remaining_after(1), 29);
    assert_eq!(g.seconds_remaining_after(29_000_000_000), 1);
    assert_eq!(g.seconds_remaining_after(30_000_000_000), 0);
    assert_eq!(g.seconds_remaining_after(u128::MAX), 0);
    assert!(!g.expired_after(29_999_999_999));
    assert!(g.expired_after(30_000_000_000));
}

#[test]
fn only_an_unchanged_clipboard_is_wiped() {
    let g = Guard::for_payload("secret", Span::from_secs(30));
    assert!(is_unchanged(&g, Some("secret")));
    assert!(!is_unchanged(&g, Some("other")));
    assert!(!is_unchanged(&g, None));
    assert!(try_clear_if_unchanged(&g, Some("secret"), true));
    assert!(!try_clear_if_unchanged(&g, Some("secret"), false));
    assert!(!try_clear_if_unchanged(&g, Some("other"), true));
    assert!(!try_clear_if_unchanged(&g, None, true));
}

#[test]
fn ticks_follow_the_deadline() {
    let g = Guard::for_payload("secret", Span::from_secs(30));
    assert_eq!(tick_clipboard_guard(None, 0), ClipboardTick::Idle);
    assert_eq!(tick_clipboard_guard(Some(&g), 0), ClipboardTick::Wait);
    assert_eq!(tick_clipboard_guard(Some(&g), 30_000_000_000), ClipboardTick::Check);
}
