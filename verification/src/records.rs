//! Decks and draws as one flat string each, for a host on the far side of a
//! foreign-function boundary that wants a single string back.
//!
//! Cards carry embedded newlines and tabs, so the separators are ASCII control
//! codes that cannot occur in card text: the unit separator between the
//! fields of a record, the record separator between records. The host splits
//! on the same two.

use vstd::prelude::*;
use crate::deck::{dealt, min, valid_picks, Deck};
use crate::search::first_match;
use crate::text::{decimal_text, push_decimal};
use crate::{deck_by_id, deck_named, decks, lemma_every_deck_holds_a_card, registry};

verus! {

/// Between the fields of one record.
pub const FIELD_SEPARATOR: &'static str = "\u{1f}";

/// Between records.
pub const RECORD_SEPARATOR: &'static str = "\u{1e}";

/// `parts` joined, with `separator` between each two.
pub open spec fn joined(parts: Seq<Seq<char>>, separator: Seq<char>) -> Seq<char>
    decreases parts.len(),
{
    if parts.len() == 0 {
        Seq::empty()
    } else if parts.len() == 1 {
        parts[0]
    } else {
        joined(parts.drop_last(), separator) + separator + parts.last()
    }
}

/// One deck's record: `id`, `name`, card count, `blurb` and where the text
/// came from, separated by the unit separator.
pub open spec fn deck_record(deck: Deck) -> Seq<char> {
    let sep = FIELD_SEPARATOR@;
    deck.id@ + sep + deck.name@ + sep + decimal_text(deck.cards@.len()) + sep + deck.blurb@ + sep
        + deck.provenance.spec_describe()
}

/// The cards' texts.
pub open spec fn card_texts(cards: Seq<&'static str>) -> Seq<Seq<char>> {
    cards.map_values(|card: &'static str| card@)
}

/// How many cards a requested count asks for: a negative one asks for none.
pub open spec fn requested(count: i32) -> nat {
    if count < 0 {
        0
    } else {
        count as nat
    }
}

/// Every deck compiled in, one record each, separated by the record
/// separator.
pub fn deck_records() -> (r: String)
    ensures
        r@ == joined(registry().map_values(|deck: Deck| deck_record(deck)), RECORD_SEPARATOR@),
{
    let all = decks();
    let ghost records = all@.map_values(|deck: Deck| deck_record(deck));
    let mut out = String::new();
    let mut i: usize = 0;
    while i < all.len()
        invariant
            i <= all@.len(),
            records == all@.map_values(|deck: Deck| deck_record(deck)),
            out@ == joined(records.take(i as int), RECORD_SEPARATOR@),
        decreases all@.len() - i,
    {
        let deck = all[i];
        let ghost before = out@;
        assert(records.take(i + 1).drop_last() =~= records.take(i as int));
        if i > 0 {
            out.append(RECORD_SEPARATOR);
        } else {
            assert(before =~= Seq::<char>::empty());
        }
        out.append(deck.id);
        out.append(FIELD_SEPARATOR);
        out.append(deck.name);
        out.append(FIELD_SEPARATOR);
        push_decimal(&mut out, deck.cards.len() as u64);
        out.append(FIELD_SEPARATOR);
        out.append(deck.blurb);
        out.append(FIELD_SEPARATOR);
        let provenance = deck.provenance.describe();
        out.append(provenance.as_str());
        proof {
            let record = deck_record(deck);
            assert(records.take(i + 1).last() == record);
            if i > 0 {
                assert(out@ =~= before + RECORD_SEPARATOR@ + record);
            } else {
                assert(out@ =~= record);
            }
        }
        i += 1;
    }
    assert(records.take(i as int) =~= records);
    out
}

/// `count` cards of the deck called `deck_id`, drawn at random without
/// replacement, separated by the record separator. An unknown deck, like a
/// count of none, gives the empty string; a negative count asks for none.
pub fn drawn_cards(deck_id: &str, count: i32) -> (r: String)
    ensures
        match first_match(registry(), deck_named(deck_id@)) {
            None => r@ == Seq::<char>::empty(),
            Some(deck) => exists|picks: Seq<usize>|
                valid_picks(picks, deck.cards@.len()) && picks.len() == min(
                    requested(count),
                    deck.cards@.len(),
                ) && r@ == joined(card_texts(#[trigger] dealt(deck.cards@, picks)), RECORD_SEPARATOR@),
        },
{
    let wanted: usize = if count < 0 {
        0
    } else {
        count as usize
    };
    match deck_by_id(deck_id) {
        None => String::new(),
        Some(deck) => {
            proof {
                lemma_every_deck_holds_a_card();
                crate::search::lemma_first_match(registry(), deck_named(deck_id@));
            }
            let drawn = deck.random_n_str(wanted);
            let out = join_cards(&drawn);
            out
        },
    }
}

/// The cards joined by the record separator.
fn join_cards(cards: &Vec<&'static str>) -> (r: String)
    ensures
        r@ == joined(card_texts(cards@), RECORD_SEPARATOR@),
{
    let ghost texts = card_texts(cards@);
    let mut out = String::new();
    let mut i: usize = 0;
    while i < cards.len()
        invariant
            i <= cards@.len(),
            texts == card_texts(cards@),
            out@ == joined(texts.take(i as int), RECORD_SEPARATOR@),
        decreases cards@.len() - i,
    {
        let ghost before = out@;
        assert(texts.take(i + 1).drop_last() =~= texts.take(i as int));
        if i > 0 {
            out.append(RECORD_SEPARATOR);
        } else {
            assert(before =~= Seq::<char>::empty());
        }
        out.append(cards[i]);
        proof {
            if i > 0 {
                assert(out@ =~= before + RECORD_SEPARATOR@ + texts.take(i + 1).last());
            } else {
                assert(out@ =~= texts.take(1)[0]);
            }
        }
        i += 1;
    }
    assert(texts.take(i as int) =~= texts);
    out
}

} // verus!
