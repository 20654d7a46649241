use sortes::CardId;

/// The one guarantee everything else rests on. A collision would hand two
/// different cards the same handle.
#[test]
fn every_card_in_the_crate_has_its_own_id() {
    let mut seen: std::collections::HashMap<CardId, (&str, &str)> = std::collections::HashMap::new();
    for deck in sortes::decks() {
        for card in deck.cards() {
            let id = CardId::of(deck.id, card);
            if let Some((other_deck, other_card)) = seen.insert(id, (deck.id, card)) {
                panic!(
                    "{} is both {other_deck}/{other_card:?} and {}/{card:?}",
                    id.to_string(),
                    deck.id
                );
            }
        }
    }
    assert_eq!(
        seen.len(),
        sortes::decks().iter().map(|deck| deck.count()).sum::<usize>()
    );
}

/// Pins the algorithm: ids are written down by anything that saves a card, so
/// changing how they are derived silently invalidates every one of them.
#[test]
fn the_derivation_is_pinned() {
    let card = "Honor thy error as a hidden intention";
    assert_eq!(CardId::of("oblique", card).to_string(), "5c66739aa6ee7004");
}

/// The deck is part of the id, so the same words in two decks are two cards.
#[test]
fn the_deck_is_part_of_the_id() {
    assert_ne!(CardId::of("one", "same words"), CardId::of("two", "same words"));
}

/// Without the separator, ("ab", "c") and ("a", "bc") would hash alike.
#[test]
fn the_deck_and_the_card_cannot_run_together() {
    assert_ne!(CardId::of("ab", "c"), CardId::of("a", "bc"));
}

#[test]
fn ids_survive_a_round_trip_through_text() {
    for deck in sortes::decks() {
        for card in deck.cards() {
            let id = CardId::of(deck.id, card);
            assert_eq!(id.to_string().parse::<CardId>(), Ok(id));
        }
    }
}

#[test]
fn malformed_ids_are_rejected() {
    for bad in ["", "0123", "not a hex id!!!!", "0123456789abcdefg", "  0123456789abcd"] {
        assert!(bad.parse::<CardId>().is_err(), "{bad:?} should not parse");
    }
}

/// The id must not depend on where the card sits.
#[test]
fn the_id_does_not_depend_on_position() {
    let decks = sortes::decks();
    let deck = decks.first().copied().expect("a deck is always compiled in");
    let first = deck.cards()[0];
    let last = deck.cards()[deck.count() - 1];
    assert_eq!(CardId::of(deck.id, first), deck.id_of(first).expect("in the deck"));
    assert_eq!(CardId::of(deck.id, last), deck.id_of(last).expect("in the deck"));
}

#[test]
fn an_id_is_sixteen_lowercase_hex_digits() {
    assert_eq!(CardId::of("", "").to_string(), "af63bd4c8601b7df");
    assert_eq!(CardId::of("a", "").to_string().len(), 16);
    for deck in sortes::decks() {
        for card in deck.cards() {
            let written = CardId::of(deck.id, card).to_string();
            assert_eq!(written.len(), 16);
            assert!(written.bytes().all(|b| b.is_ascii_digit() || (b'a'..=b'f').contains(&b)));
        }
    }
}

#[test]
fn an_id_is_exactly_sixteen_hex_digits() {
    let id = CardId::of("oblique", "Honor thy error as a hidden intention");
    assert_eq!("5C66739AA6EE7004".parse::<CardId>(), Ok(id));
    assert_eq!(CardId::parse("5c66739aa6ee7004"), Ok(id));
    let small = "00000000000000ff".parse::<CardId>().expect("sixteen hex digits");
    assert_eq!(small.to_string(), "00000000000000ff");
    // A sign is not a hex digit.
    assert!("+0123456789abcde".parse::<CardId>().is_err());
    assert!("+0000000000000ff".parse::<CardId>().is_err());
    assert!("+".repeat(16).parse::<CardId>().is_err());
    assert!("000000000000000g".parse::<CardId>().is_err());
    assert!("-000000000000001".parse::<CardId>().is_err());
}

#[test]
fn the_parse_error_says_what_an_id_is() {
    let error = "zz".parse::<CardId>().expect_err("not an id");
    assert!(error.to_string().contains("hex"));
    assert_eq!(error.to_string(), "a card id is sixteen hex digits");
}

#[test]
fn a_card_is_found_again_by_its_id() {
    for deck in sortes::decks() {
        for card in deck.cards() {
            let id = deck.id_of(card).expect("the card is in the deck");
            assert_eq!(deck.card_by_id(id), Some(*card));
            assert_eq!(sortes::card_by_id(id), Some((deck, *card)));
        }
    }
    assert_eq!(sortes::decks()[0].id_of("not a card in any deck"), None);
    assert_eq!(sortes::card_by_id(CardId::of("no-such-deck", "no such card")), None);
}
