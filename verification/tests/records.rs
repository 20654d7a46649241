use sortes::records::{deck_records, drawn_cards, FIELD_SEPARATOR, RECORD_SEPARATOR};

#[test]
fn the_separators_are_the_ascii_unit_and_record_separators() {
    assert_eq!(FIELD_SEPARATOR, "\u{1f}");
    assert_eq!(RECORD_SEPARATOR, "\u{1e}");
    for deck in sortes::decks() {
        for card in deck.cards() {
            assert!(!card.contains(FIELD_SEPARATOR) && !card.contains(RECORD_SEPARATOR));
        }
    }
}

#[test]
fn every_deck_is_one_record_of_five_fields() {
    let text = deck_records();
    let records: Vec<&str> = text.split(RECORD_SEPARATOR).collect();
    let decks = sortes::decks();
    assert_eq!(records.len(), decks.len());
    for (record, deck) in records.iter().zip(&decks) {
        let fields: Vec<&str> = record.split(FIELD_SEPARATOR).collect();
        assert_eq!(fields.len(), 5);
        assert_eq!(fields[0], deck.id);
        assert_eq!(fields[1], deck.name);
        assert_eq!(fields[2], deck.count().to_string());
        assert_eq!(fields[3], deck.blurb);
        assert_eq!(fields[4], deck.provenance.describe());
    }
}

#[test]
fn the_first_record_reads_exactly() {
    let text = deck_records();
    let first = text.split(RECORD_SEPARATOR).next().expect("a deck is always compiled in");
    assert_eq!(
        first,
        "absurd\u{1f}The Absurd\u{1f}86\u{1f}Freedom, finitude, and the stories you tell to avoid both.\u{1f}Text written for this crate."
    );
}

#[test]
fn a_draw_is_that_many_distinct_cards_of_the_deck() {
    let deck = sortes::decks::stuck::deck();
    let text = drawn_cards("stuck", 4);
    let cards: Vec<&str> = text.split(RECORD_SEPARATOR).collect();
    assert_eq!(cards.len(), 4);
    let unique: std::collections::HashSet<_> = cards.iter().collect();
    assert_eq!(unique.len(), 4);
    for card in cards {
        assert!(deck.cards().contains(&card));
    }
}

#[test]
fn a_draw_larger_than_the_deck_is_the_whole_deck() {
    let deck = sortes::decks::absurd::deck();
    let text = drawn_cards("absurd", 1000);
    let mut cards: Vec<&str> = text.split(RECORD_SEPARATOR).collect();
    cards.sort_unstable();
    let mut expected = deck.cards().to_vec();
    expected.sort_unstable();
    assert_eq!(cards, expected);
}

#[test]
fn nothing_comes_back_for_an_unknown_deck_or_no_cards() {
    assert_eq!(drawn_cards("no-such-deck", 3), "");
    assert_eq!(drawn_cards("stuck", 0), "");
    assert_eq!(drawn_cards("stuck", -5), "");
    assert_eq!(drawn_cards("", 1), "");
}

#[test]
fn one_card_is_the_card_itself() {
    let deck = sortes::decks::memento::deck();
    let card = drawn_cards("memento", 1);
    assert!(deck.cards().contains(&card.as_str()));
}
