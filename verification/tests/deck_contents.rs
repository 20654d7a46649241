//! The invariants every deck must hold, whatever its content.

use sortes::Deck;

fn first_lines(deck: &Deck) -> Vec<&'static str> {
    deck.cards
        .iter()
        .map(|card| card.lines().next().unwrap_or(card))
        .collect()
}

fn has_expected_count(deck: Deck, expected: usize) {
    assert_eq!(deck.count(), expected);
}

fn no_empty_entries(deck: Deck) {
    assert!(deck.cards.iter().all(|s| !s.is_empty()));
}

fn entries_are_tidy(deck: Deck) {
    for card in deck.cards {
        assert_eq!(card.trim(), *card, "card has leading or trailing whitespace: {card:?}");
        assert!(
            !card.contains("  "),
            "card has a run of spaces; use \\n\\t formatting instead: {card:?}"
        );
        for line in card.lines().skip(1) {
            assert!(line.starts_with('\t'), "continuation line missing tab indent: {card:?}");
        }
    }
}

fn no_duplicate_entries(deck: Deck) {
    let unique: std::collections::HashSet<_> = deck.cards.iter().collect();
    assert_eq!(unique.len(), deck.count());
}

fn sorted_by_first_line(deck: Deck) {
    let keys = first_lines(&deck);
    let mut sorted = keys.clone();
    sorted.sort_unstable();
    assert_eq!(keys, sorted, "deck {} is not sorted by first line", deck.id);
}

fn cards_are_within_max_length(deck: Deck, max_len: usize) {
    for card in deck.cards {
        let escaped = card.replace('\n', "\\n").replace('\t', "\\t");
        assert!(
            escaped.chars().count() <= max_len,
            "card is longer than {max_len} for this deck: {card:?}"
        );
    }
}

fn draws_are_in_deck(deck: Deck) {
    for card in deck.random_n(5) {
        assert!(deck.cards.contains(&card.as_str()));
    }
}

fn draws_are_without_replacement(deck: Deck) {
    let drawn = deck.random_n_str(5);
    let unique: std::collections::HashSet<_> = drawn.iter().collect();
    assert_eq!(unique.len(), drawn.len(), "a card was drawn twice: {drawn:?}");
}

fn holds_every_invariant(deck: Deck, expected: usize, max_len: usize) {
    has_expected_count(deck, expected);
    no_empty_entries(deck);
    entries_are_tidy(deck);
    no_duplicate_entries(deck);
    sorted_by_first_line(deck);
    cards_are_within_max_length(deck, max_len);
    draws_are_in_deck(deck);
    draws_are_without_replacement(deck);
}

#[test]
fn absurd_holds_the_deck_invariants() {
    holds_every_invariant(sortes::decks::absurd::deck(), 86, 120);
}

#[test]
fn memento_holds_the_deck_invariants() {
    holds_every_invariant(sortes::decks::memento::deck(), 76, 110);
}

#[test]
fn dramatis_holds_the_deck_invariants() {
    holds_every_invariant(sortes::decks::dramatis::deck(), 104, 90);
}

#[test]
fn stuck_holds_the_deck_invariants() {
    holds_every_invariant(sortes::decks::stuck::deck(), 90, 80);
}

#[test]
fn the_decks_say_who_they_are() {
    let absurd = sortes::decks::absurd::deck();
    assert_eq!((absurd.id, absurd.name), ("absurd", "The Absurd"));
    assert_eq!(absurd.provenance, sortes::Provenance::Original);
    let memento = sortes::decks::memento::deck();
    assert_eq!((memento.id, memento.name), ("memento", "Memento"));
    let stuck = sortes::decks::stuck::deck();
    assert_eq!(stuck.id, "stuck");
    let dramatis = sortes::decks::dramatis::deck();
    assert_eq!(dramatis.id, "dramatis");
    assert_eq!(dramatis.cards()[0], "A Bold Leader, an Object, and an Adversary");
}
