//! Conversions between character offsets (what egui counts) and UTF-16
//! code-unit offsets (what the browser's EditContext counts).
use vstd::prelude::*;

verus! {

/// Modulus of a `u32`: UTF-16 offsets are narrowed to `u32` with `as u32`.
pub open spec fn u32_modulus() -> int {
    0x1_0000_0000
}

/// Number of UTF-16 code units that encode `c`: two for a character outside the
/// Basic Multilingual Plane (a surrogate pair), one otherwise.
pub open spec fn char_utf16_width(c: char) -> nat {
    if (c as u32) >= 0x10000 {
        2
    } else {
        1
    }
}

/// Number of UTF-16 code units that encode the first `n` characters of `s`.
pub open spec fn utf16_prefix_len(s: Seq<char>, n: int) -> nat
    decreases n,
{
    if n <= 0 {
        0
    } else {
        utf16_prefix_len(s, n - 1) + char_utf16_width(s[n - 1])
    }
}

/// Number of UTF-16 code units that encode the whole of `s`.
pub open spec fn utf16_len(s: Seq<char>) -> nat {
    utf16_prefix_len(s, s.len() as int)
}

/// The UTF-16 offset of character offset `k` in `s`; offsets past the end
/// stand for the end of the text.
pub open spec fn utf16_offset(s: Seq<char>, k: int) -> nat {
    if k <= s.len() {
        utf16_prefix_len(s, k)
    } else {
        utf16_len(s)
    }
}

/// `r` is the character offset that UTF-16 offset `off` maps to in `s`: the
/// first character boundary whose UTF-16 offset reaches `off`, or the end of the
/// text when no boundary before the end does.
pub open spec fn is_char_index_for(s: Seq<char>, off: int, r: int) -> bool {
    &&& 0 <= r <= s.len()
    &&& r < s.len() ==> utf16_prefix_len(s, r) >= off
    &&& forall|j: int| 0 <= j < r ==> #[trigger] utf16_prefix_len(s, j) < off
}

/// Every character of `s` lies in the Basic Multilingual Plane.
pub open spec fn all_bmp(s: Seq<char>) -> bool {
    forall|i: int| 0 <= i < s.len() ==> (#[trigger] s[i] as u32) < 0x10000
}

/// The UTF-16 width of a character (what `char::len_utf16` returns).
pub fn utf16_width(c: char) -> (w: u32)
    ensures
        w == char_utf16_width(c),
        1 <= w <= 2,
{
    if (c as u32) >= 0x10000 {
        2
    } else {
        1
    }
}

/// Converts a UTF-16 code-unit offset into `text` to a character offset: the
/// first character boundary at or after `utf16_offset`, or the number of
/// characters when the offset lies at or past the end.
pub fn utf16_to_char(text: &str, utf16_offset: u32) -> (r: usize)
    ensures
        is_char_index_for(text@, utf16_offset as int, r as int),
{
    broadcast use vstd::string::axiom_spec_iter;

    let n = text.unicode_len();
    let mut units: u64 = 0;
    let mut i: usize = 0;
    for c in it: text.chars()
        invariant
            n == text@.len(),
            it.seq() == text@,
            i == it.index(),
            i <= n,
            units == utf16_prefix_len(text@, i as int),
            units <= utf16_offset as int + 1,
            forall|j: int| 0 <= j < i ==> #[trigger] utf16_prefix_len(text@, j) < utf16_offset,
    {
        assert(c == text@[i as int]);
        if units >= utf16_offset as u64 {
            return i;
        }
        assert(utf16_prefix_len(text@, i as int) < utf16_offset);
        units = units + utf16_width(c) as u64;
        i = i + 1;
    }
    n
}

/// Converts a character offset into `text` to a UTF-16 code-unit offset,
/// narrowed to `u32` as the browser API takes it. An offset past the end
/// counts the whole text.
pub fn char_to_utf16(text: &str, char_offset: usize) -> (r: u32)
    ensures
        r as int == (utf16_offset(text@, char_offset as int) as int) % u32_modulus(),
{
    broadcast use vstd::string::axiom_spec_iter;

    let n = text.unicode_len();
    let mut units: u32 = 0;
    let mut i: usize = 0;
    for c in it: text.chars()
        invariant
            n == text@.len(),
            it.seq() == text@,
            i == it.index(),
            i <= n,
            i <= char_offset,
            units as int == (utf16_prefix_len(text@, i as int) as int) % u32_modulus(),
    {
        assert(c == text@[i as int]);
        if i >= char_offset {
            return units;
        }
        let w = utf16_width(c);
        assert(units as int + w == ((utf16_prefix_len(text@, i as int) as int) % u32_modulus()) + w);
        proof {
            lemma_add_mod(utf16_prefix_len(text@, i as int) as int, w as int);
        }
        units = units.wrapping_add(w);
        i = i + 1;
    }
    units
}

/// Number of UTF-16 code units of `text`, narrowed to `u32` (what
/// `text.encode_utf16().count() as u32` gives).
pub fn utf16_len_u32(text: &str) -> (r: u32)
    ensures
        r as int == (utf16_len(text@) as int) % u32_modulus(),
{
    let n = text.unicode_len();
    char_to_utf16(text, n)
}

proof fn lemma_add_mod(a: int, w: int)
    requires
        0 <= a,
        0 <= w,
    ensures
        (a + w) % u32_modulus() == ((a % u32_modulus()) + w) % u32_modulus(),
{
    vstd::arithmetic::div_mod::lemma_add_mod_noop(a, w, u32_modulus());
    vstd::arithmetic::div_mod::lemma_mod_twice(w, u32_modulus());
    vstd::arithmetic::div_mod::lemma_add_mod_noop(a % u32_modulus(), w, u32_modulus());
}

/// Between two character boundaries `i <= j` lie at least `j - i` and at most
/// `2 * (j - i)` UTF-16 code units.
pub proof fn lemma_prefix_growth(s: Seq<char>, i: int, j: int)
    requires
        0 <= i <= j <= s.len(),
    ensures
        j - i <= utf16_prefix_len(s, j) - utf16_prefix_len(s, i) <= 2 * (j - i),
    decreases j - i,
{
    if i < j {
        lemma_prefix_growth(s, i, j - 1);
    }
}

/// Character offsets and their UTF-16 offsets rise together: a later boundary
/// always lies strictly further into the UTF-16 text.
pub proof fn law_utf16_offset_strictly_increasing(s: Seq<char>, i: int, j: int)
    requires
        0 <= i < j <= s.len(),
    ensures
        utf16_prefix_len(s, i) < utf16_prefix_len(s, j),
{
    lemma_prefix_growth(s, i, j);
}

/// At most one character offset answers a UTF-16 offset.
pub proof fn law_char_index_unique(s: Seq<char>, off: int, r1: int, r2: int)
    requires
        is_char_index_for(s, off, r1),
        is_char_index_for(s, off, r2),
    ensures
        r1 == r2,
{
    if r1 < r2 {
        assert(utf16_prefix_len(s, r1) < off);
    } else if r2 < r1 {
        assert(utf16_prefix_len(s, r2) < off);
    }
}

/// Converting a character offset to UTF-16 and back gives the offset again,
/// clamped to the end of the text.
pub proof fn law_char_offset_round_trip(s: Seq<char>, k: int)
    requires
        0 <= k,
    ensures
        is_char_index_for(s, utf16_offset(s, k) as int, if k <= s.len() { k } else { s.len() as int }),
{
    let m = if k <= s.len() { k } else { s.len() as int };
    assert forall|j: int| 0 <= j < m implies #[trigger] utf16_prefix_len(s, j) < utf16_offset(s, k) by {
        law_utf16_offset_strictly_increasing(s, j, m);
    }
}

/// The cursor that the browser reports back for a cursor that was handed to it
/// is that cursor again (clamped to the text), as long as the UTF-16 offset fits
/// in a `u32`: `utf16_to_char(t, char_to_utf16(t, k))` is `min(k, len)`.
pub proof fn law_cursor_round_trip(s: Seq<char>, k: int, sent: int, r: int)
    requires
        0 <= k,
        utf16_offset(s, k) < u32_modulus(),
        sent == (utf16_offset(s, k) as int) % u32_modulus(),
        is_char_index_for(s, sent, r),
    ensures
        r == (if k <= s.len() { k } else { s.len() as int }),
{
    vstd::arithmetic::div_mod::lemma_small_mod(utf16_offset(s, k), u32_modulus() as nat);
    law_char_offset_round_trip(s, k);
    law_char_index_unique(s, sent, r, if k <= s.len() { k } else { s.len() as int });
}

/// A UTF-16 offset inside the text maps to the first character boundary at or
/// after it, and that character offset never exceeds the UTF-16 offset.
pub proof fn law_utf16_offset_snaps_forward(s: Seq<char>, off: int, r: int)
    requires
        0 <= off <= utf16_len(s),
        is_char_index_for(s, off, r),
    ensures
        utf16_prefix_len(s, r) >= off,
        r > 0 ==> utf16_prefix_len(s, r - 1) < off,
        r <= off,
{
    if r > 0 {
        assert(utf16_prefix_len(s, r - 1) < off);
        lemma_prefix_growth(s, 0, r - 1);
    }
}

/// In text without surrogate pairs, character offsets and UTF-16 offsets agree.
pub proof fn law_bmp_offsets_agree(s: Seq<char>, k: int)
    requires
        all_bmp(s),
        0 <= k <= s.len(),
    ensures
        utf16_prefix_len(s, k) == k,
    decreases k,
{
    if k > 0 {
        assert((s[k - 1] as u32) < 0x10000);
        law_bmp_offsets_agree(s, k - 1);
    }
}

/// The UTF-16 length of one character is its width, and the UTF-16 length of
/// a concatenation is the sum of the lengths; together these fix `utf16_len`.
pub proof fn law_utf16_len_additive(s: Seq<char>, t: Seq<char>, c: char)
    ensures
        utf16_len(seq![c]) == char_utf16_width(c),
        utf16_len(s + t) == utf16_len(s) + utf16_len(t),
{
    assert(seq![c][0] == c);
    assert(utf16_prefix_len(seq![c], 0) == 0);
    lemma_prefix_concat(s, t, (s.len() + t.len()) as int);
    assert((s + t).len() == s.len() + t.len());
}

proof fn lemma_prefix_concat(s: Seq<char>, t: Seq<char>, n: int)
    requires
        0 <= n <= s.len() + t.len(),
    ensures
        n <= s.len() ==> utf16_prefix_len(s + t, n) == utf16_prefix_len(s, n),
        n > s.len() ==> utf16_prefix_len(s + t, n) == utf16_len(s) + utf16_prefix_len(
            t,
            n - s.len(),
        ),
    decreases n,
{
    if n > 0 {
        lemma_prefix_concat(s, t, n - 1);
        if n - 1 < s.len() {
            assert((s + t)[n - 1] == s[n - 1]);
        } else {
            assert((s + t)[n - 1] == t[n - 1 - s.len()]);
            assert(utf16_prefix_len(t, n - s.len()) == utf16_prefix_len(t, n - 1 - s.len())
                + char_utf16_width(t[n - 1 - s.len()]));
            assert(utf16_prefix_len(t, 0) == 0);
        }
    }
}

/// A character offset past the end of the text stands for the end: its UTF-16
/// offset is the UTF-16 length of the whole text; inside the text it is the
/// length of the prefix.
pub proof fn law_utf16_offset_clamps(s: Seq<char>, k: int)
    requires
        0 <= k,
    ensures
        k >= s.len() ==> utf16_offset(s, k) == utf16_len(s),
        k <= s.len() ==> utf16_offset(s, k) == utf16_len(s.take(k)),
{
    if k <= s.len() {
        lemma_prefix_take(s, k, k);
    }
}

proof fn lemma_prefix_take(s: Seq<char>, k: int, n: int)
    requires
        0 <= n <= k <= s.len(),
    ensures
        utf16_prefix_len(s.take(k), n) == utf16_prefix_len(s, n),
    decreases n,
{
    if n > 0 {
        lemma_prefix_take(s, k, n - 1);
        assert(s.take(k)[n - 1] == s[n - 1]);
    }
}

} // verus!
