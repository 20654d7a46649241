//! Decks of cards for when the work will not move, drawn at random.
//!
//! The crate holds one deck per module under [`mod@decks`], each drawn by the
//! same mechanism; use [`decks()`] or [`deck_by_id()`] to reach them.
//!
//! Cards that carry several lines of text contain embedded newline and tab
//! characters; print them as-is and they will render the way the card reads.

use vstd::prelude::*;

pub mod cli;
mod deck;
pub mod decks;
pub mod identity;
mod random;
mod shoe;
pub mod records;
pub mod search;
pub mod text;

pub use deck::{Deck, Provenance};
pub use identity::{CardId, ParseCardIdError};
pub use shoe::{Shoe, ShoeView};

use search::{first_match, lemma_first_match, lemma_first_match_extends, lemma_first_match_step};

verus! {

/// Every deck compiled into this build, in the order `decks()` gives them.
pub open spec fn registry() -> Seq<Deck> {
    seq![decks::absurd::deck(), decks::memento::deck(), decks::dramatis::deck(), decks::stuck::deck()]
}

/// The decks whose id reads `id`.
pub open spec fn deck_named(id: Seq<char>) -> spec_fn(Deck) -> bool {
    |deck: Deck| deck.id@ == id
}

/// The decks holding a card whose id is `id`.
pub open spec fn deck_holding(id: CardId) -> spec_fn(Deck) -> bool {
    |deck: Deck| deck.spec_card_by_id(id) is Some
}

/// The card with id `id` and its deck: the first deck, in registry order, that
/// holds such a card, and that deck's first such card.
pub open spec fn spec_card_by_id(id: CardId) -> Option<(Deck, &'static str)> {
    match first_match(registry(), deck_holding(id)) {
        Some(deck) => Some((deck, deck.spec_card_by_id(id)->0)),
        None => None,
    }
}

/// Every deck compiled into this build.
pub fn decks() -> (r: Vec<Deck>)
    ensures
        r@ == registry(),
{
    let mut all: Vec<Deck> = Vec::new();
    all.push(decks::absurd::deck());
    all.push(decks::memento::deck());
    all.push(decks::dramatis::deck());
    all.push(decks::stuck::deck());
    assert(all@ =~= registry());
    all
}

/// Look a deck up by its id.
///
/// Returns `None` if no such deck exists, or if it was not compiled into this
/// build.
pub fn deck_by_id(id: &str) -> (r: Option<Deck>)
    ensures
        r == first_match(registry(), deck_named(id@)),
{
    let all = decks();
    let ghost pred = deck_named(id@);
    let mut i: usize = 0;
    while i < all.len()
        invariant
            all@ == registry(),
            i <= all@.len(),
            pred == deck_named(id@),
            first_match(all@.take(i as int), pred) is None,
        decreases all@.len() - i,
    {
        let deck = all[i];
        proof {
            lemma_first_match_step(all@, pred, i as int);
        }
        if text::same_text(deck.id, id) {
            proof {
                lemma_first_match_extends(all@, pred, i + 1, all@.len() as int);
                assert(all@.take(all@.len() as int) =~= all@);
            }
            return Some(deck);
        }
        i += 1;
    }
    assert(all@.take(i as int) =~= all@);
    None
}

/// The card with this id, and the deck it belongs to.
///
/// Searches every deck compiled in. A card saved by id in one build and looked
/// up in another finds nothing if its deck was not compiled in, or if the card
/// itself has been reworded since.
pub fn card_by_id(id: CardId) -> (r: Option<(Deck, &'static str)>)
    ensures
        r == spec_card_by_id(id),
{
    let all = decks();
    let ghost pred = deck_holding(id);
    let mut i: usize = 0;
    while i < all.len()
        invariant
            all@ == registry(),
            i <= all@.len(),
            pred == deck_holding(id),
            first_match(all@.take(i as int), pred) is None,
        decreases all@.len() - i,
    {
        let deck = all[i];
        proof {
            lemma_first_match_step(all@, pred, i as int);
        }
        match deck.card_by_id(id) {
            Some(card) => {
                proof {
                    lemma_first_match_extends(all@, pred, i + 1, all@.len() as int);
                    assert(all@.take(all@.len() as int) =~= all@);
                }
                return Some((deck, card));
            },
            None => {},
        }
        i += 1;
    }
    assert(all@.take(i as int) =~= all@);
    None
}

/// Every deck compiled in holds at least one card, so a draw from any of them
/// always has a card to give.
pub proof fn lemma_every_deck_holds_a_card()
    ensures
        forall|k: int| 0 <= k < registry().len() ==> (#[trigger] registry()[k]).cards@.len() > 0,
{
    broadcast use vstd::array::group_array_axioms;

    assert(registry()[0].cards@.len() == 86);
    assert(registry()[1].cards@.len() == 76);
    assert(registry()[2].cards@.len() == 104);
    assert(registry()[3].cards@.len() == 90);
}

/// No deck compiled in holds two cards that read alike: each deck's cards are
/// in strictly increasing text order. So the laws that ask for distinct card
/// texts (a shoe never deals the same card twice running, nor twice within a
/// pass) hold of every deck built in.
pub proof fn lemma_compiled_cards_differ()
    ensures
        forall|k: int| 0 <= k < registry().len() ==> (#[trigger] registry()[k]).texts_distinct(),
{
    decks::absurd::lemma_cards_in_order();
    decks::memento::lemma_cards_in_order();
    decks::dramatis::lemma_cards_in_order();
    decks::stuck::lemma_cards_in_order();
    deck::lemma_in_order_cards_differ(registry()[0].cards@);
    deck::lemma_in_order_cards_differ(registry()[1].cards@);
    deck::lemma_in_order_cards_differ(registry()[2].cards@);
    deck::lemma_in_order_cards_differ(registry()[3].cards@);
}

/// Every card compiled in is plain text: ASCII, with no NUL and neither of
/// the two record separators. So case-blind matching on its bytes is matching
/// on its characters, and a flat record of cards splits back into the cards.
pub proof fn lemma_compiled_cards_are_plain()
    ensures
        forall|k: int, i: int|
            0 <= k < registry().len() && 0 <= i < registry()[k].cards@.len() ==> text::plain_text(
                #[trigger] registry()[k].cards@[i]@,
            ),
{
    decks::absurd::lemma_cards_plain();
    decks::memento::lemma_cards_plain();
    decks::dramatis::lemma_cards_plain();
    decks::stuck::lemma_cards_plain();
    deck::lemma_plain_cards(registry()[0].cards@, 0);
    deck::lemma_plain_cards(registry()[1].cards@, 0);
    deck::lemma_plain_cards(registry()[2].cards@, 0);
    deck::lemma_plain_cards(registry()[3].cards@, 0);
    assert forall|k: int, i: int|
        0 <= k < registry().len() && 0 <= i < registry()[k].cards@.len() implies text::plain_text(
        #[trigger] registry()[k].cards@[i]@,
    ) by {
        if k == 0 {
            assert(text::plain_text(registry()[0].cards@[i]@));
        } else if k == 1 {
            assert(text::plain_text(registry()[1].cards@[i]@));
        } else if k == 2 {
            assert(text::plain_text(registry()[2].cards@[i]@));
        } else {
            assert(text::plain_text(registry()[3].cards@[i]@));
        }
    }
}

/// No two decks share an id.
pub proof fn lemma_deck_ids_are_unique()
    ensures
        forall|i: int, j: int|
            0 <= i < registry().len() && 0 <= j < registry().len() && i != j
                ==> #[trigger] registry()[i].id@ != #[trigger] registry()[j].id@,
{
    reveal_strlit("absurd");
    reveal_strlit("memento");
    reveal_strlit("dramatis");
    reveal_strlit("stuck");
    assert("absurd"@[0] != "memento"@[0]);
    assert("absurd"@[0] != "dramatis"@[0]);
    assert("absurd"@[0] != "stuck"@[0]);
    assert("memento"@[0] != "dramatis"@[0]);
    assert("memento"@[0] != "stuck"@[0]);
    assert("dramatis"@[0] != "stuck"@[0]);
}

/// Every deck compiled in is found by its own id.
pub proof fn lemma_every_deck_is_reachable_by_id(i: int)
    requires
        0 <= i < registry().len(),
    ensures
        first_match(registry(), deck_named(registry()[i].id@)) == Some(registry()[i]),
{
    lemma_deck_ids_are_unique();
    let pred = deck_named(registry()[i].id@);
    lemma_first_match(registry(), pred);
    let found = first_match(registry(), pred);
    let k = choose|k: int|
        0 <= k < registry().len() && registry()[k] == found->0 && pred(registry()[k])
            && forall|j: int| 0 <= j < k ==> !pred(#[trigger] registry()[j]);
    assert(k == i);
}

/// A card whose id no other card compiled in shares is found again, with its
/// deck, by that id: what `id_of` writes down, `card_by_id` reads back.
pub proof fn lemma_card_found_by_its_own_id(k: int, i: int)
    requires
        0 <= k < registry().len(),
        0 <= i < registry()[k].cards@.len(),
        forall|k2: int, j: int|
            0 <= k2 < registry().len() && 0 <= j < registry()[k2].cards@.len() && (k2 != k
                || j != i) ==> CardId::spec_of(registry()[k2].id@, #[trigger] registry()[k2].cards@[j]@)
                != CardId::spec_of(registry()[k].id@, registry()[k].cards@[i]@),
    ensures
        spec_card_by_id(CardId::spec_of(registry()[k].id@, registry()[k].cards@[i]@)) == Some(
            (registry()[k], registry()[k].cards@[i]),
        ),
{
    let deck = registry()[k];
    let id = CardId::spec_of(deck.id@, deck.cards@[i]@);
    let pred = deck_holding(id);
    assert forall|k2: int| 0 <= k2 < k implies !pred(#[trigger] registry().take(k)[k2]) by {
        let other = registry()[k2];
        assert(registry().take(k)[k2] == other);
        let card_pred = deck::has_card_id(other.id@, id);
        lemma_first_match(other.cards@, card_pred);
        assert forall|j: int| 0 <= j < other.cards@.len() implies !card_pred(
            #[trigger] other.cards@[j],
        ) by {
            assert(CardId::spec_of(registry()[k2].id@, registry()[k2].cards@[j]@) != id);
        }
    }
    lemma_first_match(registry().take(k), pred);
    deck.lemma_found_by_its_own_id(i);
    lemma_first_match_step(registry(), pred, k);
    lemma_first_match_extends(registry(), pred, k + 1, registry().len() as int);
    assert(registry().take(registry().len() as int) =~= registry());
}

} // verus!
