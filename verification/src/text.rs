//! Byte-level text helpers: case-blind matching, exact comparison, and the
//! digits that numbers are written with.

use vstd::prelude::*;
use vstd::string::StringSliceAdditionalSpecFns;
use vstd::utf8::encode_utf8;

verus! {

broadcast use vstd::utf8::encode_utf8_decode_utf8;

/// One byte, lowercased the way ASCII lowercases; every other byte unchanged.
pub open spec fn lower(b: u8) -> u8 {
    if 65 <= b <= 90 {
        (b + 32) as u8
    } else {
        b
    }
}

/// Two byte strings that agree once their ASCII letters are lowercased.
pub open spec fn same_ignoring_case(a: Seq<u8>, b: Seq<u8>) -> bool {
    &&& a.len() == b.len()
    &&& forall|i: int| 0 <= i < a.len() ==> lower(#[trigger] a[i]) == lower(b[i])
}

/// `needle` sits in `hay` at byte offset `at`, ignoring ASCII case.
pub open spec fn window_matches(hay: Seq<u8>, needle: Seq<u8>, at: int) -> bool {
    &&& 0 <= at
    &&& at + needle.len() <= hay.len()
    &&& same_ignoring_case(hay.subrange(at, at + needle.len()), needle)
}

/// Whether `hay` contains `needle`, comparing ASCII letters case-blind. An
/// empty needle is contained in everything.
pub open spec fn contains_ignoring_case(hay: Seq<u8>, needle: Seq<u8>) -> bool {
    needle.len() == 0 || exists|at: int| #[trigger] window_matches(hay, needle, at)
}

/// The character that writes digit `d`, lowercase above nine.
pub open spec fn digit_char(d: nat) -> char {
    if d < 10 {
        (48 + d) as char
    } else {
        (87 + d) as char
    }
}

/// `n` in decimal, with no leading zeros.
pub open spec fn decimal_text(n: nat) -> Seq<char>
    decreases n,
{
    if n < 10 {
        seq![digit_char(n)]
    } else {
        decimal_text(n / 10).push(digit_char(n % 10))
    }
}

/// The last `k` hex digits of `n`, lowercase and zero-padded.
pub open spec fn hex_text(n: nat, k: nat) -> Seq<char>
    decreases k,
{
    if k == 0 {
        Seq::empty()
    } else {
        hex_text(n / 16, (k - 1) as nat).push(digit_char(n % 16))
    }
}

/// `s` followed by spaces up to `width` characters.
pub open spec fn pad_right(s: Seq<char>, width: nat) -> Seq<char> {
    if s.len() < width {
        s + Seq::new((width - s.len()) as nat, |i: int| ' ')
    } else {
        s
    }
}

/// `s` preceded by spaces up to `width` characters.
pub open spec fn pad_left(s: Seq<char>, width: nat) -> Seq<char> {
    if s.len() < width {
        Seq::new((width - s.len()) as nat, |i: int| ' ') + s
    } else {
        s
    }
}

/// Every byte of `s`, lowercased as ASCII.
pub open spec fn lowered(s: Seq<u8>) -> Seq<u8> {
    s.map_values(|b: u8| lower(b))
}

/// Comparing case-blind gives the same answer whether or not either side was
/// lowercased first.
proof fn lemma_same_ignoring_case_lowered(a: Seq<u8>, b: Seq<u8>)
    ensures
        same_ignoring_case(a, b) == same_ignoring_case(lowered(a), lowered(b)),
        same_ignoring_case(a, b) == same_ignoring_case(lowered(a), b),
        same_ignoring_case(a, b) == same_ignoring_case(a, lowered(b)),
{
    assert forall|x: u8| #[trigger] lower(lower(x)) == lower(x) by {}
    if a.len() == b.len() {
        assert forall|i: int| 0 <= i < a.len() implies #[trigger] lowered(a)[i] == lower(a[i])
            && lowered(b)[i] == lower(b[i]) by {}
        if same_ignoring_case(a, b) {
            assert forall|i: int| 0 <= i < a.len() implies lower(#[trigger] lowered(a)[i]) == lower(
                lowered(b)[i],
            ) && lower(lowered(a)[i]) == lower(b[i]) && lower(a[i]) == lower(lowered(b)[i]) by {
                assert(lower(a[i]) == lower(b[i]));
            }
        }
        if same_ignoring_case(lowered(a), lowered(b)) {
            assert forall|i: int| 0 <= i < a.len() implies lower(#[trigger] a[i]) == lower(b[i]) by {
                assert(lower(lowered(a)[i]) == lower(lowered(b)[i]));
            }
        }
        if same_ignoring_case(lowered(a), b) {
            assert forall|i: int| 0 <= i < a.len() implies lower(#[trigger] a[i]) == lower(b[i]) by {
                assert(lower(lowered(a)[i]) == lower(b[i]));
            }
        }
        if same_ignoring_case(a, lowered(b)) {
            assert forall|i: int| 0 <= i < a.len() implies lower(#[trigger] a[i]) == lower(b[i]) by {
                assert(lower(a[i]) == lower(lowered(b)[i]));
            }
        }
    }
}

/// The match is blind to ASCII case: lowercasing the card, the needle, or
/// both, never changes whether the needle is found.
pub proof fn lemma_match_ignores_case(hay: Seq<u8>, needle: Seq<u8>)
    ensures
        contains_ignoring_case(hay, needle) == contains_ignoring_case(lowered(hay), lowered(needle)),
        contains_ignoring_case(hay, needle) == contains_ignoring_case(lowered(hay), needle),
        contains_ignoring_case(hay, needle) == contains_ignoring_case(hay, lowered(needle)),
{
    assert forall|a: u8| #[trigger] lower(lower(a)) == lower(a) by {}
    assert forall|at: int| #[trigger] window_matches(hay, needle, at) == window_matches(lowered(hay), lowered(needle), at)
        && window_matches(hay, needle, at) == window_matches(lowered(hay), needle, at)
        && window_matches(hay, needle, at) == window_matches(hay, lowered(needle), at) by {
        if 0 <= at && at + needle.len() <= hay.len() {
            let w = hay.subrange(at, at + needle.len());
            assert(lowered(hay).subrange(at, at + needle.len()) =~= lowered(w));
            lemma_same_ignoring_case_lowered(w, needle);
        }
    }
    if contains_ignoring_case(hay, needle) && needle.len() > 0 {
        let at = choose|at: int| #[trigger] window_matches(hay, needle, at);
        assert(window_matches(lowered(hay), lowered(needle), at));
        assert(window_matches(lowered(hay), needle, at));
        assert(window_matches(hay, lowered(needle), at));
    }
    if contains_ignoring_case(lowered(hay), lowered(needle)) && needle.len() > 0 {
        let at = choose|at: int| #[trigger] window_matches(lowered(hay), lowered(needle), at);
        assert(window_matches(hay, needle, at));
    }
    if contains_ignoring_case(lowered(hay), needle) && needle.len() > 0 {
        let at = choose|at: int| #[trigger] window_matches(lowered(hay), needle, at);
        assert(window_matches(hay, needle, at));
    }
    if contains_ignoring_case(hay, lowered(needle)) && needle.len() > 0 {
        let at = choose|at: int| #[trigger] window_matches(hay, lowered(needle), at);
        assert(window_matches(hay, needle, at));
    }
}

/// `a` comes strictly before `b` in character order, as strings compare.
pub open spec fn text_before(a: Seq<char>, b: Seq<char>) -> bool
    decreases a.len(),
{
    if b.len() == 0 {
        false
    } else if a.len() == 0 {
        true
    } else if a[0] != b[0] {
        (a[0] as int) < (b[0] as int)
    } else {
        text_before(a.drop_first(), b.drop_first())
    }
}

/// No text comes before itself.
pub proof fn lemma_text_before_irreflexive(a: Seq<char>)
    ensures
        !text_before(a, a),
    decreases a.len(),
{
    if a.len() > 0 {
        lemma_text_before_irreflexive(a.drop_first());
    }
}

/// Character order is transitive.
pub proof fn lemma_text_before_transitive(a: Seq<char>, b: Seq<char>, c: Seq<char>)
    requires
        text_before(a, b),
        text_before(b, c),
    ensures
        text_before(a, c),
    decreases a.len(),
{
    if a.len() > 0 && b.len() > 0 && c.len() > 0 && a[0] == b[0] && b[0] == c[0] {
        lemma_text_before_transitive(a.drop_first(), b.drop_first(), c.drop_first());
    }
}

/// A character that card text may hold: ASCII, not NUL, and neither of the
/// two separators of a flat record.
pub open spec fn plain_char(c: char) -> bool {
    &&& 0 < (c as int) < 128
    &&& c != '\u{1e}'
    &&& c != '\u{1f}'
}

/// Every character of `s` from position `i` on is plain.
pub open spec fn plain_from_char(s: Seq<char>, i: int) -> bool
    decreases s.len() - i,
{
    if i < 0 || i >= s.len() {
        true
    } else {
        plain_char(s[i]) && plain_from_char(s, i + 1)
    }
}

/// Every character of `s` is plain.
pub open spec fn plain_text(s: Seq<char>) -> bool {
    plain_from_char(s, 0)
}

/// Text plain from `i` on is plain at every position from `i` on.
proof fn lemma_plain_from_char(s: Seq<char>, i: int)
    requires
        0 <= i,
        plain_from_char(s, i),
    ensures
        forall|j: int| i <= j < s.len() ==> plain_char(#[trigger] s[j]),
    decreases s.len() - i,
{
    if i < s.len() {
        lemma_plain_from_char(s, i + 1);
    }
}

/// Plain text is plain at every position, so it is ASCII, and its UTF-8
/// bytes are its characters one for one.
pub proof fn lemma_plain_text_is_ascii(s: Seq<char>)
    requires
        plain_text(s),
    ensures
        forall|i: int| 0 <= i < s.len() ==> plain_char(#[trigger] s[i]),
        vstd::utf8::is_ascii_chars(s),
        encode_utf8(s).len() == s.len(),
        forall|i: int| 0 <= i < s.len() ==> s[i] as u8 == #[trigger] encode_utf8(s)[i],
{
    lemma_plain_from_char(s, 0);
    assert(vstd::utf8::is_ascii_chars(s)) by {
        assert forall|i: int| 0 <= i < s.len() implies '\0' <= #[trigger] s[i] <= '\u{7f}' by {
            assert(plain_char(s[i]));
        }
    }
    vstd::utf8::is_ascii_chars_encode_utf8(s);
}

/// One byte, uppercased the way ASCII uppercases: `a` to `z` become `A` to
/// `Z`; every other byte is unchanged.
pub open spec fn upper(b: u8) -> u8 {
    if 97 <= b <= 122 {
        (b - 32) as u8
    } else {
        b
    }
}

/// Every byte of `s`, uppercased as ASCII.
pub open spec fn uppered(s: Seq<u8>) -> Seq<u8> {
    s.map_values(|b: u8| upper(b))
}

/// Two byte strings agree case-blind exactly when they agree with either or
/// both of them uppercased.
proof fn lemma_same_ignoring_case_uppered(a: Seq<u8>, b: Seq<u8>)
    ensures
        same_ignoring_case(a, b) == same_ignoring_case(uppered(a), uppered(b)),
        same_ignoring_case(a, b) == same_ignoring_case(uppered(a), b),
        same_ignoring_case(a, b) == same_ignoring_case(a, uppered(b)),
{
    assert forall|x: u8| #[trigger] lower(upper(x)) == lower(x) by {}
    if a.len() == b.len() {
        assert forall|i: int| 0 <= i < a.len() implies #[trigger] uppered(a)[i] == upper(a[i])
            && uppered(b)[i] == upper(b[i]) by {}
        if same_ignoring_case(a, b) {
            assert forall|i: int| 0 <= i < a.len() implies lower(#[trigger] uppered(a)[i]) == lower(
                uppered(b)[i],
            ) && lower(uppered(a)[i]) == lower(b[i]) && lower(a[i]) == lower(uppered(b)[i]) by {
                assert(lower(a[i]) == lower(b[i]));
            }
        }
        if same_ignoring_case(uppered(a), uppered(b)) {
            assert forall|i: int| 0 <= i < a.len() implies lower(#[trigger] a[i]) == lower(b[i]) by {
                assert(lower(uppered(a)[i]) == lower(uppered(b)[i]));
            }
        }
        if same_ignoring_case(uppered(a), b) {
            assert forall|i: int| 0 <= i < a.len() implies lower(#[trigger] a[i]) == lower(b[i]) by {
                assert(lower(uppered(a)[i]) == lower(b[i]));
            }
        }
        if same_ignoring_case(a, uppered(b)) {
            assert forall|i: int| 0 <= i < a.len() implies lower(#[trigger] a[i]) == lower(b[i]) by {
                assert(lower(a[i]) == lower(uppered(b)[i]));
            }
        }
    }
}

/// The match is blind to case whichever way it is changed: uppercasing the
/// card, the needle, or both, never changes whether the needle is found. So
/// every ASCII letter matches its other case.
pub proof fn lemma_match_ignores_uppercase(hay: Seq<u8>, needle: Seq<u8>)
    ensures
        contains_ignoring_case(hay, needle) == contains_ignoring_case(uppered(hay), uppered(needle)),
        contains_ignoring_case(hay, needle) == contains_ignoring_case(uppered(hay), needle),
        contains_ignoring_case(hay, needle) == contains_ignoring_case(hay, uppered(needle)),
{
    assert forall|at: int| #[trigger] window_matches(hay, needle, at) == window_matches(uppered(hay), uppered(needle), at)
        && window_matches(hay, needle, at) == window_matches(uppered(hay), needle, at)
        && window_matches(hay, needle, at) == window_matches(hay, uppered(needle), at) by {
        if 0 <= at && at + needle.len() <= hay.len() {
            let w = hay.subrange(at, at + needle.len());
            assert(uppered(hay).subrange(at, at + needle.len()) =~= uppered(w));
            lemma_same_ignoring_case_uppered(w, needle);
        }
    }
    if contains_ignoring_case(hay, needle) && needle.len() > 0 {
        let at = choose|at: int| #[trigger] window_matches(hay, needle, at);
        assert(window_matches(uppered(hay), uppered(needle), at));
        assert(window_matches(uppered(hay), needle, at));
        assert(window_matches(hay, uppered(needle), at));
    }
    if contains_ignoring_case(uppered(hay), uppered(needle)) && needle.len() > 0 {
        let at = choose|at: int| #[trigger] window_matches(uppered(hay), uppered(needle), at);
        assert(window_matches(hay, needle, at));
    }
    if contains_ignoring_case(uppered(hay), needle) && needle.len() > 0 {
        let at = choose|at: int| #[trigger] window_matches(uppered(hay), needle, at);
        assert(window_matches(hay, needle, at));
    }
    if contains_ignoring_case(hay, uppered(needle)) && needle.len() > 0 {
        let at = choose|at: int| #[trigger] window_matches(hay, uppered(needle), at);
        assert(window_matches(hay, needle, at));
    }
}

/// `b`, lowercased as ASCII.
pub fn lower_byte(b: u8) -> (r: u8)
    ensures
        r == lower(b),
{
    if 65 <= b && b <= 90 {
        b + 32
    } else {
        b
    }
}

/// Whether `needle` sits in `hay` at `at`, ignoring ASCII case.
fn window_eq(hay: &[u8], needle: &[u8], at: usize) -> (r: bool)
    requires
        at + needle@.len() <= hay@.len(),
    ensures
        r == window_matches(hay@, needle@, at as int),
{
    let ghost window = hay@.subrange(at as int, at + needle@.len());
    let hay_len = hay.len();
    let mut i: usize = 0;
    while i < needle.len()
        invariant
            i <= needle@.len(),
            at + needle@.len() <= hay@.len(),
            hay_len == hay@.len(),
            window == hay@.subrange(at as int, at + needle@.len()),
            forall|j: int| 0 <= j < i ==> lower(#[trigger] window[j]) == lower(needle@[j]),
        decreases needle@.len() - i,
    {
        if lower_byte(hay[at + i]) != lower_byte(needle[i]) {
            assert(window[i as int] == hay@[at + i]);
            return false;
        }
        assert(window[i as int] == hay@[at + i]);
        i += 1;
    }
    true
}

/// Whether `haystack` contains `needle`, comparing ASCII letters case-blind.
///
/// Every card in the crate is ASCII, so this is the whole of the matching
/// rule, and it allocates nothing.
pub fn contains_ignore_ascii_case(haystack: &str, needle: &str) -> (r: bool)
    ensures
        r == contains_ignoring_case(haystack.spec_bytes(), needle.spec_bytes()),
{
    let hay = haystack.as_bytes();
    let nee = needle.as_bytes();
    if nee.len() == 0 {
        return true;
    }
    if nee.len() > hay.len() {
        assert forall|at: int| !window_matches(hay@, nee@, at) by {}
        return false;
    }
    let hay_len = hay.len();
    let last = hay_len - nee.len();
    let mut at: usize = 0;
    while at <= last
        invariant
            hay@ == haystack.spec_bytes(),
            nee@ == needle.spec_bytes(),
            last + nee@.len() == hay@.len(),
            hay_len == hay@.len(),
            nee@.len() > 0,
            at <= last + 1,
            forall|k: int| 0 <= k < at ==> !#[trigger] window_matches(hay@, nee@, k),
        decreases last + 1 - at,
    {
        if window_eq(hay, nee, at) {
            return true;
        }
        at += 1;
    }
    assert forall|k: int| !#[trigger] window_matches(hay@, nee@, k) by {
        if 0 <= k && k < at {
        }
    }
    false
}

/// Whether two strings hold the same text.
pub fn same_text(a: &str, b: &str) -> (r: bool)
    ensures
        r == (a@ == b@),
{
    let x = a.as_bytes();
    let y = b.as_bytes();
    if x.len() != y.len() {
        return false;
    }
    let mut i: usize = 0;
    while i < x.len()
        invariant
            x@.len() == y@.len(),
            x@ == a.spec_bytes(),
            y@ == b.spec_bytes(),
            forall|j: int| 0 <= j < i ==> x@[j] == y@[j],
        decreases x@.len() - i,
    {
        if x[i] != y[i] {
            return false;
        }
        i += 1;
    }
    assert(x@ =~= y@);
    assert(vstd::utf8::decode_utf8(a.spec_bytes()) == a@);
    assert(vstd::utf8::decode_utf8(b.spec_bytes()) == b@);
    true
}

/// The one-character string for digit `d`.
pub fn digit_str(d: u64) -> (r: &'static str)
    requires
        d < 16,
    ensures
        r@ == seq![digit_char(d as nat)],
{
    proof {
        reveal_strlit("0");
        reveal_strlit("1");
        reveal_strlit("2");
        reveal_strlit("3");
        reveal_strlit("4");
        reveal_strlit("5");
        reveal_strlit("6");
        reveal_strlit("7");
        reveal_strlit("8");
        reveal_strlit("9");
        reveal_strlit("a");
        reveal_strlit("b");
        reveal_strlit("c");
        reveal_strlit("d");
        reveal_strlit("e");
        reveal_strlit("f");
    }
    let r = match d {
        0 => "0",
        1 => "1",
        2 => "2",
        3 => "3",
        4 => "4",
        5 => "5",
        6 => "6",
        7 => "7",
        8 => "8",
        9 => "9",
        10 => "a",
        11 => "b",
        12 => "c",
        13 => "d",
        14 => "e",
        _ => "f",
    };
    assert(r@ =~= seq![digit_char(d as nat)]);
    r
}

/// Append `n` in decimal to `out`.
pub fn push_decimal(out: &mut String, n: u64)
    ensures
        final(out)@ == old(out)@ + decimal_text(n as nat),
    decreases n,
{
    if n >= 10 {
        push_decimal(out, n / 10);
    }
    out.append(digit_str(n % 10));
}

/// Append the last `k` hex digits of `n` to `out`, zero-padded.
pub fn push_hex(out: &mut String, n: u64, k: u64)
    ensures
        final(out)@ == old(out)@ + hex_text(n as nat, k as nat),
    decreases k,
{
    if k > 0 {
        push_hex(out, n / 16, k - 1);
        out.append(digit_str(n % 16));
    }
}

/// Append `count` spaces to `out`.
pub fn push_spaces(out: &mut String, count: usize)
    ensures
        final(out)@ == old(out)@ + Seq::new(count as nat, |i: int| ' '),
{
    let mut i: usize = 0;
    while i < count
        invariant
            i <= count,
            out@ == old(out)@ + Seq::new(i as nat, |j: int| ' '),
        decreases count - i,
    {
        let ghost before = out@;
        proof {
            reveal_strlit(" ");
        }
        assert(" "@ =~= seq![' ']);
        out.append(" ");
        assert(out@ == before + seq![' ']);
        i += 1;
        assert(out@ =~= old(out)@ + Seq::new(i as nat, |j: int| ' '));
    }
}

} // verus!
