//! A stable handle for one card.
//!
//! A card's position in its deck is a poor handle: an index moves whenever a
//! card is added or removed above it. So an id is derived instead, from the
//! deck's id and the card's own text: it survives cards being added, removed
//! or reordered around it, and it changes when the card itself is reworded,
//! because a reworded card is a different card.

use vstd::prelude::*;
use vstd::string::StringSliceAdditionalSpecFns;
use vstd::utf8::encode_utf8;
use crate::text::{digit_char, hex_text, push_hex};

verus! {

broadcast use vstd::string::is_ascii_spec_bytes, vstd::utf8::is_ascii_chars_encode_utf8;

/// The FNV-1a 64-bit offset basis.
pub const OFFSET_BASIS: u64 = 0xcbf2_9ce4_8422_2325;

/// The FNV-1a 64-bit prime, 0x100000001b3: eleven hex digits, which is why it
/// does not group into fours.
pub const PRIME: u64 = 0x100_0000_01b3;

/// One FNV-1a round: fold in a byte, then multiply by the prime, wrapping.
pub open spec fn fnv_step(hash: u64, byte: u8) -> u64 {
    (((hash ^ (byte as u64)) as nat * PRIME as nat) % 0x1_0000_0000_0000_0000nat) as u64
}

/// FNV-1a over `bytes`, starting from `hash`.
pub open spec fn fnv(hash: u64, bytes: Seq<u8>) -> u64
    decreases bytes.len(),
{
    if bytes.len() == 0 {
        hash
    } else {
        fnv_step(fnv(hash, bytes.drop_last()), bytes.last())
    }
}

/// The hash behind a card's id: FNV-1a over the deck id's bytes, a zero byte,
/// then the card's bytes.
pub open spec fn card_hash(deck_id: Seq<char>, card: Seq<char>) -> u64 {
    fnv(fnv(fnv(OFFSET_BASIS, encode_utf8(deck_id)), seq![0u8]), encode_utf8(card))
}

/// The value of one hex digit byte, either case, or `None`.
pub open spec fn hex_digit_value(b: u8) -> Option<nat> {
    if 48 <= b <= 57 {
        Some((b - 48) as nat)
    } else if 97 <= b <= 102 {
        Some((b - 87) as nat)
    } else if 65 <= b <= 70 {
        Some((b - 55) as nat)
    } else {
        None
    }
}

/// Hashing two runs of bytes one after the other is hashing them joined, so
/// a card's hash is FNV-1a over one run: the deck id's bytes, a zero byte,
/// then the card's bytes. Hashing nothing changes nothing, and one byte is one
/// round.
pub proof fn lemma_fnv_concatenates(h: u64, a: Seq<u8>, b: Seq<u8>)
    ensures
        fnv(h, a + b) == fnv(fnv(h, a), b),
        fnv(h, Seq::empty()) == h,
        forall|x: u8| #[trigger] fnv(h, seq![x]) == fnv_step(h, x),
        forall|d: Seq<char>, c: Seq<char>|
            #[trigger] card_hash(d, c) == fnv(OFFSET_BASIS, encode_utf8(d) + seq![0u8] + encode_utf8(c)),
{
    lemma_fnv_concatenates_once(h, a, b);
    assert forall|x: u8| #[trigger] fnv(h, seq![x]) == fnv_step(h, x) by {
        assert(seq![x].drop_last() =~= Seq::<u8>::empty());
        assert(fnv(h, Seq::<u8>::empty()) == h);
        assert(seq![x].last() == x);
    }
    assert forall|d: Seq<char>, c: Seq<char>| #[trigger] card_hash(d, c) == fnv(
        OFFSET_BASIS,
        encode_utf8(d) + seq![0u8] + encode_utf8(c),
    ) by {
        lemma_fnv_concatenates_once(OFFSET_BASIS, encode_utf8(d), seq![0u8]);
        lemma_fnv_concatenates_once(OFFSET_BASIS, encode_utf8(d) + seq![0u8], encode_utf8(c));
    }
}

/// `fnv(h, a + b) == fnv(fnv(h, a), b)`, by induction on `b`.
proof fn lemma_fnv_concatenates_once(h: u64, a: Seq<u8>, b: Seq<u8>)
    ensures
        fnv(h, a + b) == fnv(fnv(h, a), b),
    decreases b.len(),
{
    if b.len() > 0 {
        lemma_fnv_concatenates_once(h, a, b.drop_last());
        assert((a + b).drop_last() =~= a + b.drop_last());
        assert((a + b).last() == b.last());
    } else {
        assert(a + b =~= a);
    }
}

/// A hex digit reads the same in either case.
proof fn lemma_hex_digit_either_case(b: u8)
    ensures
        hex_digit_value(crate::text::upper(b)) == hex_digit_value(b),
{
}

/// Uppercasing the letters of a run of bytes changes neither whether they are
/// all hex digits nor the number they write.
proof fn lemma_hex_value_either_case(bytes: Seq<u8>)
    ensures
        all_hex(crate::text::uppered(bytes)) == all_hex(bytes),
        hex_value(crate::text::uppered(bytes)) == hex_value(bytes),
    decreases bytes.len(),
{
    let up = crate::text::uppered(bytes);
    assert forall|i: int| 0 <= i < bytes.len() implies #[trigger] hex_digit_value(up[i])
        == hex_digit_value(bytes[i]) by {
        lemma_hex_digit_either_case(bytes[i]);
    }
    if bytes.len() > 0 {
        lemma_hex_value_either_case(bytes.drop_last());
        assert(up.drop_last() =~= crate::text::uppered(bytes.drop_last()));
        assert(up.last() == crate::text::upper(bytes.last()));
        lemma_hex_digit_either_case(bytes.last());
    }
    if all_hex(bytes) {
        assert forall|i: int| 0 <= i < up.len() implies #[trigger] hex_digit_value(up[i]) is Some by {
            assert(hex_digit_value(up[i]) == hex_digit_value(bytes[i]));
        }
    }
    if all_hex(up) {
        assert forall|i: int| 0 <= i < bytes.len() implies #[trigger] hex_digit_value(bytes[i]) is Some by {
            assert(hex_digit_value(up[i]) == hex_digit_value(bytes[i]));
        }
    }
}

/// Every byte is a hex digit.
pub open spec fn all_hex(bytes: Seq<u8>) -> bool {
    forall|i: int| 0 <= i < bytes.len() ==> #[trigger] hex_digit_value(bytes[i]) is Some
}

/// The number that a run of hex digits writes, most significant first.
pub open spec fn hex_value(bytes: Seq<u8>) -> nat
    decreases bytes.len(),
{
    if bytes.len() == 0 {
        0
    } else {
        hex_value(bytes.drop_last()) * 16 + hex_digit_value(bytes.last()).unwrap_or(0)
    }
}

/// How a written id reads back: exactly sixteen hex digits, of either case,
/// and nothing else.
pub open spec fn parse_hex16(bytes: Seq<u8>) -> Option<u64> {
    if bytes.len() == 16 && all_hex(bytes) {
        Some(hex_value(bytes) as u64)
    } else {
        None
    }
}

/// Sixteen to the `k`.
pub open spec fn pow16(k: nat) -> nat
    decreases k,
{
    if k == 0 {
        1
    } else {
        16 * pow16((k - 1) as nat)
    }
}

/// A stable handle for one card, derived from its deck and its text.
///
/// It is not a checksum of the deck and it is not an index. Rewording a card
/// changes its id; adding, removing or reordering other cards does not.
#[derive(Debug, Clone, Copy, PartialEq, Eq, Hash, PartialOrd, Ord, Structural)]
pub struct CardId(u64);

/// Why a written id could not be read back.
#[derive(Debug, Clone, Copy, PartialEq, Eq, Structural)]
pub struct ParseCardIdError;

impl ParseCardIdError {
    /// What went wrong, in words.
    pub fn to_string(&self) -> (r: String)
        ensures
            r@ == "a card id is sixteen hex digits"@,
    {
        "a card id is sixteen hex digits".to_string()
    }
}

impl CardId {
    /// The number behind the id.
    pub closed spec fn value(self) -> u64 {
        self.0
    }

    /// The id whose number is `v`.
    pub closed spec fn from_value(v: u64) -> CardId {
        CardId(v)
    }

    /// An id is its number: the id built from `v` reads back as `v`, every
    /// id is the id built from its own number, and so two ids are equal
    /// exactly when their numbers are. In particular the id of a card is
    /// `card_hash` of its deck id and text, and two cards have equal ids
    /// exactly when those hashes are equal.
    pub proof fn lemma_id_is_its_number(v: u64)
        ensures
            CardId::from_value(v).value() == v,
            forall|id: CardId| #[trigger] CardId::from_value(id.value()) == id,
            forall|a: u64, b: u64|
                #[trigger] CardId::from_value(a) == #[trigger] CardId::from_value(b) <==> a == b,
            forall|d: Seq<char>, c: Seq<char>|
                #[trigger] CardId::spec_of(d, c).value() == card_hash(d, c),
    {
        assert forall|a: u64, b: u64|
            #[trigger] CardId::from_value(a) == #[trigger] CardId::from_value(b) implies a == b by {
            assert(CardId::from_value(a).value() == a);
            assert(CardId::from_value(b).value() == b);
        }
    }

    /// The id of the card with text `card` in the deck called `deck_id`.
    pub open spec fn spec_of(deck_id: Seq<char>, card: Seq<char>) -> CardId {
        CardId::from_value(card_hash(deck_id, card))
    }

    /// What `parse` gives back for these bytes.
    pub open spec fn spec_parse(bytes: Seq<u8>) -> Result<CardId, ParseCardIdError> {
        match parse_hex16(bytes) {
            Some(v) => Ok(CardId::from_value(v)),
            None => Err(ParseCardIdError),
        }
    }

    /// How an id is written: sixteen lowercase hex digits, zero-padded.
    pub open spec fn spec_text(self) -> Seq<char> {
        hex_text(self.value() as nat, 16)
    }

    /// An id written down reads back as the same id, and is always sixteen
    /// characters long.
    pub proof fn lemma_written_id_reads_back(self)
        ensures
            self.spec_text().len() == 16,
            CardId::spec_parse(encode_utf8(self.spec_text())) == Ok::<CardId, ParseCardIdError>(self),
    {
        let v = self.value() as nat;
        let chars = hex_text(v, 16);
        lemma_hex_text_reads_back(v, 16);
        assert(vstd::utf8::is_ascii_chars(chars)) by {
            assert forall|i: int| 0 <= i < chars.len() implies '\0' <= #[trigger] chars[i] <= '\u{7f}' by {
                assert(is_hex_char(chars[i]));
            }
        }
        let bytes = encode_utf8(chars);
        assert(bytes =~= ascii_bytes(chars));
        assert(pow16(16) == 0x1_0000_0000_0000_0000) by {
            reveal_with_fuel(pow16, 17);
        }
        assert(v % pow16(16) == v);
    }

    /// A written id reads back the same whatever the case of its letters:
    /// uppercasing the text either gives the same id or fails alike, and in
    /// particular an id written down and uppercased reads back as itself.
    pub proof fn lemma_parse_ignores_case(self, bytes: Seq<u8>)
        ensures
            CardId::spec_parse(crate::text::uppered(bytes)) == CardId::spec_parse(bytes),
            CardId::spec_parse(crate::text::uppered(encode_utf8(self.spec_text()))) == Ok::<
                CardId,
                ParseCardIdError,
            >(self),
    {
        lemma_hex_value_either_case(bytes);
        lemma_hex_value_either_case(encode_utf8(self.spec_text()));
        self.lemma_written_id_reads_back();
    }

    /// The id of `card` in the deck called `deck_id`.
    ///
    /// FNV-1a over the deck id, a zero byte, then the card. The zero byte is
    /// the separator: without it `("ab", "c")` and `("a", "bc")` would hash
    /// alike.
    pub fn of(deck_id: &str, card: &str) -> (r: CardId)
        ensures
            r == CardId::spec_of(deck_id@, card@),
    {
        let hash = Self::eat(OFFSET_BASIS, deck_id.as_bytes());
        let zero: [u8; 1] = [0];
        assert(zero@ =~= seq![0u8]);
        let hash = Self::eat(hash, &zero);
        CardId(Self::eat(hash, card.as_bytes()))
    }

    /// FNV-1a over `bytes`, starting from `hash`.
    fn eat(hash: u64, bytes: &[u8]) -> (r: u64)
        ensures
            r == fnv(hash, bytes@),
    {
        let mut hash_now = hash;
        let mut index: usize = 0;
        while index < bytes.len()
            invariant
                index <= bytes@.len(),
                hash_now == fnv(hash, bytes@.take(index as int)),
            decreases bytes@.len() - index,
        {
            assert(bytes@.take(index + 1).drop_last() =~= bytes@.take(index as int));
            hash_now = hash_now ^ (bytes[index] as u64);
            hash_now = hash_now.wrapping_mul(PRIME);
            index += 1;
        }
        assert(bytes@.take(index as int) =~= bytes@);
        hash_now
    }

    /// Sixteen lowercase hex digits, zero-padded, so ids sort and align.
    pub fn to_string(&self) -> (r: String)
        ensures
            r@ == self.spec_text(),
    {
        let mut out = String::new();
        push_hex(&mut out, self.0, 16);
        out
    }

    /// Read back what `to_string` wrote.
    ///
    /// Strict about the length: a shorter string would parse as a different id
    /// and quietly find the wrong card, or more likely none at all.
    pub fn parse(text: &str) -> (r: Result<CardId, ParseCardIdError>)
        ensures
            r == CardId::spec_parse(text.spec_bytes()),
    {
        let bytes = text.as_bytes();
        if bytes.len() != 16 {
            return Err(ParseCardIdError);
        }
        let mut value: u64 = 0;
        let mut index: usize = 0;
        while index < 16
            invariant
                bytes@.len() == 16,
                bytes@ == text.spec_bytes(),
                index <= 16,
                all_hex(bytes@.take(index as int)),
                value as nat == hex_value(bytes@.take(index as int)),
                (value as nat) < pow16(index as nat),
            decreases 16 - index,
        {
            let b = bytes[index];
            let d: u64 = if 48 <= b && b <= 57 {
                (b - 48) as u64
            } else if 97 <= b && b <= 102 {
                (b - 87) as u64
            } else if 65 <= b && b <= 70 {
                (b - 55) as u64
            } else {
                assert(!all_hex(bytes@)) by {
                    assert(hex_digit_value(bytes@[index as int]) is None);
                }
                return Err(ParseCardIdError);
            };
            let ghost k = index as nat;
            assert(bytes@.take((k + 1) as int).drop_last() =~= bytes@.take(k as int));
            assert(bytes@.take((k + 1) as int).last() == b);
            proof {
                lemma_pow16_bound(k);
                assert(value * 16 + d < pow16(k + 1)) by (nonlinear_arith)
                    requires
                        (value as nat) < pow16(k),
                        d < 16,
                        pow16(k + 1) == 16 * pow16(k),
                ;
            }
            value = value * 16 + d;
            index += 1;
            assert(all_hex(bytes@.take(index as int))) by {
                assert forall|i: int| 0 <= i < bytes@.take(index as int).len() implies
                    #[trigger] hex_digit_value(bytes@.take(index as int)[i]) is Some by {
                    if i < k {
                        assert(bytes@.take(index as int)[i] == bytes@.take(k as int)[i]);
                    }
                }
            }
        }
        assert(bytes@.take(16) =~= bytes@);
        Ok(CardId(value))
    }
}

/// The bytes of an ASCII character sequence, one per character.
pub open spec fn ascii_bytes(chars: Seq<char>) -> Seq<u8> {
    Seq::new(chars.len(), |i: int| chars[i] as u8)
}

/// A lowercase hex digit character.
pub open spec fn is_hex_char(c: char) -> bool {
    ('0' <= c <= '9') || ('a' <= c <= 'f')
}

/// The last `k` hex digits of `n` are `k` hex characters that read back as
/// `n` modulo `16^k`.
proof fn lemma_hex_text_reads_back(n: nat, k: nat)
    ensures
        hex_text(n, k).len() == k,
        forall|i: int| 0 <= i < k ==> is_hex_char(#[trigger] hex_text(n, k)[i]),
        all_hex(ascii_bytes(hex_text(n, k))),
        hex_value(ascii_bytes(hex_text(n, k))) == n % pow16(k),
    decreases k,
{
    if k > 0 {
        let prev = hex_text(n / 16, (k - 1) as nat);
        let d = n % 16;
        lemma_hex_text_reads_back(n / 16, (k - 1) as nat);
        let c = digit_char(d);
        assert(hex_text(n, k) == prev.push(c));
        assert(d < 16);
        assert(c as u8 == (if d < 10 { 48 + d } else { 87 + d }));
        assert(hex_digit_value(c as u8) == Some(d));
        let bytes = ascii_bytes(prev.push(c));
        assert(bytes.drop_last() =~= ascii_bytes(prev));
        assert(bytes.last() == c as u8);
        assert forall|i: int| 0 <= i < bytes.len() implies #[trigger] hex_digit_value(bytes[i]) is Some by {
            if i < k - 1 {
                assert(bytes[i] == ascii_bytes(prev)[i]);
            }
        }
        lemma_pow16_mono((k - 1) as nat, (k - 1) as nat);
        vstd::arithmetic::div_mod::lemma_mod_breakdown(n as int, 16, pow16((k - 1) as nat) as int);
        assert(hex_value(bytes) == hex_value(ascii_bytes(prev)) * 16 + d);
    }
}

impl std::str::FromStr for CardId {
    type Err = ParseCardIdError;

    /// Read back what `CardId::to_string` wrote; see `CardId::parse`.
    fn from_str(text: &str) -> (r: Result<CardId, ParseCardIdError>)
        ensures
            r == CardId::spec_parse(text.spec_bytes()),
    {
        CardId::parse(text)
    }
}

/// `16^k` fits a `u64` for every `k` up to sixteen, and grows with `k`.
proof fn lemma_pow16_bound(k: nat)
    requires
        k <= 15,
    ensures
        pow16(k + 1) == 16 * pow16(k),
        pow16(k + 1) <= 0x1_0000_0000_0000_0000,
        pow16(k) >= 1,
    decreases k,
{
    if k > 0 {
        lemma_pow16_bound((k - 1) as nat);
    }
    assert(pow16(16) == 0x1_0000_0000_0000_0000) by {
        reveal_with_fuel(pow16, 17);
    }
    lemma_pow16_mono(k + 1, 16);
}

/// `16^a <= 16^b` when `a <= b`.
proof fn lemma_pow16_mono(a: nat, b: nat)
    requires
        a <= b,
    ensures
        pow16(a) <= pow16(b),
        pow16(a) >= 1,
    decreases b,
{
    if a < b {
        lemma_pow16_mono(a, (b - 1) as nat);
    } else if a > 0 {
        lemma_pow16_mono((a - 1) as nat, (a - 1) as nat);
    }
}

} // verus!
