use eframe_text_agent::geometry::{f32_bits_equal, RectBits};
use eframe_text_agent::utf16::{char_to_utf16, utf16_len_u32, utf16_to_char, utf16_width};

const MIXED: &str = "a\u{1F600}b";

#[test]
fn width_of_bmp_and_astral_chars() {
    assert_eq!(utf16_width('a'), 1);
    assert_eq!(utf16_width('\u{e9}'), 1);
    assert_eq!(utf16_width('\u{FFFF}'), 1);
    assert_eq!(utf16_width('\u{10000}'), 2);
    assert_eq!(utf16_width('\u{1F600}'), 2);
    for c in ['a', '\u{e9}', '\u{4e2d}', '\u{1F600}', '\u{10FFFF}'] {
        assert_eq!(utf16_width(c) as usize, c.len_utf16());
    }
}

#[test]
fn char_to_utf16_counts_surrogate_pairs() {
    assert_eq!(char_to_utf16(MIXED, 0), 0);
    assert_eq!(char_to_utf16(MIXED, 1), 1);
    assert_eq!(char_to_utf16(MIXED, 2), 3);
    assert_eq!(char_to_utf16(MIXED, 3), 4);
}

#[test]
fn char_to_utf16_past_end_counts_whole_text() {
    assert_eq!(char_to_utf16(MIXED, 10), 4);
    assert_eq!(char_to_utf16("", 5), 0);
    assert_eq!(char_to_utf16("h\u{e9}llo", usize::MAX), 5);
}

#[test]
fn utf16_to_char_on_boundaries() {
    assert_eq!(utf16_to_char(MIXED, 0), 0);
    assert_eq!(utf16_to_char(MIXED, 1), 1);
    assert_eq!(utf16_to_char(MIXED, 3), 2);
    assert_eq!(utf16_to_char(MIXED, 4), 3);
}

#[test]
fn utf16_to_char_inside_surrogate_pair_snaps_forward() {
    assert_eq!(utf16_to_char(MIXED, 2), 2);
}

#[test]
fn utf16_to_char_past_end_is_char_count() {
    assert_eq!(utf16_to_char(MIXED, 5), 3);
    assert_eq!(utf16_to_char(MIXED, u32::MAX), 3);
    assert_eq!(utf16_to_char("", 0), 0);
    assert_eq!(utf16_to_char("", 7), 0);
}

#[test]
fn bmp_text_offsets_agree() {
    let t = "h\u{e9}llo w\u{f6}rld";
    for k in 0..=t.chars().count() {
        assert_eq!(char_to_utf16(t, k) as usize, k);
        assert_eq!(utf16_to_char(t, k as u32), k);
    }
}

#[test]
fn cursor_round_trip() {
    let t = "\u{1F600}x\u{1F44D}\u{1F3FD}y";
    let n = t.chars().count();
    for k in 0..n + 3 {
        let u = char_to_utf16(t, k);
        assert_eq!(utf16_to_char(t, u), k.min(n));
    }
}

#[test]
fn utf16_len_matches_encode_utf16() {
    for t in ["", "abc", MIXED, "\u{1F44D}\u{1F3FD}", "\u{4e2d}\u{6587}"] {
        assert_eq!(utf16_len_u32(t) as usize, t.encode_utf16().count());
    }
}

#[test]
fn f32_equality_on_bits() {
    assert!(f32_bits_equal(1.5f32.to_bits(), 1.5f32.to_bits()));
    assert!(f32_bits_equal(0.0f32.to_bits(), (-0.0f32).to_bits()));
    assert!(!f32_bits_equal(f32::NAN.to_bits(), f32::NAN.to_bits()));
    assert!(!f32_bits_equal(1.0f32.to_bits(), 2.0f32.to_bits()));
    assert!(f32_bits_equal(f32::INFINITY.to_bits(), f32::INFINITY.to_bits()));
    let vals = [0.0f32, -0.0, 1.0, -1.0, f32::NAN, f32::INFINITY, 3.25, f32::MIN_POSITIVE];
    for a in vals {
        for b in vals {
            assert_eq!(f32_bits_equal(a.to_bits(), b.to_bits()), a == b);
        }
    }
}

#[test]
fn rect_equality_is_float_equality() {
    let r = RectBits { min_x: 0.0f32.to_bits(), min_y: 1.0f32.to_bits(), max_x: 2.0f32.to_bits(), max_y: 3.0f32.to_bits() };
    let s = RectBits { min_x: (-0.0f32).to_bits(), ..r };
    assert!(r.same_as(&s));
    let n = RectBits { max_y: f32::NAN.to_bits(), ..r };
    assert!(!n.same_as(&n));
}
