use hcs_12ss59t::animation::{Cycle, LeftRight, ScrollingText};

fn window(w: Vec<char>) -> String {
    w.into_iter().collect()
}

#[test]
fn cycle_wraps_thirteen_char_text() {
    let text = "ABCDEFGHIJKLM";
    let mut s = ScrollingText::new(text, false, Cycle);
    assert_eq!(window(s.get_next()), "ABCDEFGHIJKL");
    assert_eq!(window(s.get_next()), "BCDEFGHIJKLM");
    for _ in 2..12 {
        s.get_next();
    }
    // The cursor has reached the last character: this window wraps around the
    // end of the text, and the one after it starts over at the beginning.
    assert_eq!(window(s.get_next()), "MABCDEFGHIJK");
    assert_eq!(window(s.get_next()), "ABCDEFGHIJKL");
}

#[test]
fn cycle_short_text_stays_static_by_default() {
    let mut s = ScrollingText::new("HELLO", false, Cycle);
    for _ in 0..5 {
        assert_eq!(window(s.get_next()), "HELLO");
    }
}

#[test]
fn cycle_short_text_scrolls_when_requested() {
    let mut s = ScrollingText::new("AB", true, Cycle);
    assert_eq!(window(s.get_next()), "ABABABABABAB");
    assert_eq!(window(s.get_next()), "BABABABABABA");
    assert_eq!(window(s.get_next()), "ABABABABABAB");
}

#[test]
fn cycle_empty_text_yields_empty_window() {
    let mut s = ScrollingText::new("", true, Cycle);
    assert_eq!(window(s.get_next()), "");
    assert_eq!(window(s.get_next()), "");
}

#[test]
fn ping_pong_bounces_between_text_bounds() {
    let text = "ABCDEFGHIJKLMN";
    let mut s = ScrollingText::new(text, false, LeftRight);
    // Forward until the window reaches the text end, then backward to the
    // start, then forward again: direction flips exactly at the bounds.
    let expected = [
        "ABCDEFGHIJKL", // cursor 0, forward
        "BCDEFGHIJKLM", // cursor 1, forward
        "CDEFGHIJKLMN", // cursor 2: window reached the end, direction flips
        "BCDEFGHIJKLM", // cursor 1, backward
        "ABCDEFGHIJKL", // cursor 0: direction flips forward again
        "BCDEFGHIJKLM", // cursor 1, forward
        "CDEFGHIJKLMN", // cursor 2, flip again
        "BCDEFGHIJKLM", // cursor 1, backward
    ];
    for e in expected {
        assert_eq!(window(s.get_next()), e);
    }
}

#[test]
fn ping_pong_short_text_is_always_returned_whole() {
    let mut s = ScrollingText::new("HELLO", false, LeftRight);
    for _ in 0..6 {
        assert_eq!(window(s.get_next()), "HELLO");
    }
    // The short-text-scrolling request is not supported by this policy.
    let mut t = ScrollingText::new("HELLO", true, LeftRight);
    for _ in 0..6 {
        assert_eq!(window(t.get_next()), "HELLO");
    }
}

#[test]
fn ping_pong_exact_width_text_is_static() {
    let mut s = ScrollingText::new("ABCDEFGHIJKL", false, LeftRight);
    for _ in 0..3 {
        assert_eq!(window(s.get_next()), "ABCDEFGHIJKL");
    }
}

#[test]
fn windows_are_character_based_for_multibyte_text() {
    // 13 characters; the first occupies two bytes in UTF-8. Windows move by
    // characters, not bytes.
    let text = "\u{C4}BCDEFGHIJKLM";
    let mut s = ScrollingText::new(text, false, LeftRight);
    assert_eq!(window(s.get_next()), "\u{C4}BCDEFGHIJKL");
    assert_eq!(window(s.get_next()), "BCDEFGHIJKLM");
    assert_eq!(window(s.get_next()), "\u{C4}BCDEFGHIJKL");
}

#[test]
fn ping_pong_empty_text_yields_empty_window() {
    let mut s = ScrollingText::new("", false, LeftRight);
    assert_eq!(window(s.get_next()), "");
    assert_eq!(window(s.get_next()), "");
}
