use sortes::{card_by_id, deck_by_id, decks, CardId, Deck, Provenance};

fn first_deck() -> Deck {
    decks().first().copied().expect("a deck is always compiled in")
}

/// Whether `card` uses `word` as a whole word, ignoring case.
fn uses_word(card: &str, word: &str) -> bool {
    card.split(|c: char| !c.is_alphanumeric() && c != '\'')
        .any(|found| found.eq_ignore_ascii_case(word))
}

/// What a deck that points away from the reader must never say.
const SECOND_PERSON: &[&str] = &["you", "your", "yours", "yourself", "yourselves"];

#[test]
fn absurd_speaks_to_the_reader() {
    for card in sortes::decks::absurd::deck().cards {
        assert!(
            SECOND_PERSON.iter().any(|pronoun| uses_word(card, pronoun)),
            "absurd card does not address the reader: {card:?}"
        );
    }
}

#[test]
fn memento_only_states() {
    for card in sortes::decks::memento::deck().cards {
        assert!(!card.contains('?'), "memento card asks a question: {card:?}");
    }
}

#[test]
fn dramatis_cards_are_labels() {
    for card in sortes::decks::dramatis::deck().cards {
        let last = card.chars().next_back().expect("cards are never empty");
        assert!(
            !matches!(last, '.' | '!' | '?'),
            "dramatis card carries terminal punctuation: {card:?}"
        );
        for pronoun in SECOND_PERSON {
            assert!(
                !uses_word(card, pronoun),
                "dramatis card addresses the reader: {card:?}"
            );
        }
    }
}

#[test]
fn dramatis_is_attributed() {
    let deck = sortes::decks::dramatis::deck();
    assert!(matches!(deck.provenance, Provenance::PublicDomain(_)));
    assert!(deck.provenance.attribution().is_some());
}

#[test]
fn find_matches_case_blind_and_keeps_deck_order() {
    for deck in decks() {
        for card in deck.cards().iter().take(5) {
            assert!(deck.find(card).contains(card));
            assert!(
                deck.find(&card.to_uppercase()).contains(card),
                "case-blind match failed: {card:?}"
            );
            assert!(
                deck.find(&card.to_lowercase()).contains(card),
                "case-blind match failed: {card:?}"
            );
        }
        let all = deck.find("");
        assert_eq!(all.len(), deck.count());
        assert_eq!(all, deck.cards().to_vec());
        assert!(deck.find("no card says this and none ever will").is_empty());
    }
}

#[test]
fn find_needle_longer_than_the_card_does_not_match() {
    let deck = first_deck();
    let long = "x".repeat(1000);
    assert!(deck.find(&long).is_empty());
}

#[test]
fn small_draws_stay_uniform_and_distinct() {
    for deck in decks() {
        for count in [0, 1, 2, 3, 7] {
            let drawn = deck.random_n_str(count);
            assert_eq!(drawn.len(), count.min(deck.count()));
            let unique: std::collections::HashSet<_> = drawn.iter().collect();
            assert_eq!(unique.len(), drawn.len(), "a card was drawn twice: {drawn:?}");
            for card in &drawn {
                assert!(deck.cards().contains(card));
            }
        }
        assert_eq!(deck.random_n_str(deck.count() + 10).len(), deck.count());
    }
}

#[test]
fn one_card_draws_reach_the_whole_deck() {
    let deck = first_deck();
    let mut seen: std::collections::HashSet<&str> = std::collections::HashSet::new();
    for _ in 0..(deck.count() * 40) {
        seen.extend(deck.random_n_str(1));
    }
    assert_eq!(
        seen.len(),
        deck.count(),
        "single-card draws never reached {} cards",
        deck.count()
    );
}

#[test]
fn at_least_one_deck() {
    assert!(!decks().is_empty());
}

#[test]
fn deck_ids_are_unique() {
    let ids: std::collections::HashSet<_> = decks().iter().map(|d| d.id).collect();
    assert_eq!(ids.len(), decks().len());
}

#[test]
fn every_deck_is_reachable_by_id() {
    for deck in decks() {
        assert_eq!(deck_by_id(deck.id), Some(deck));
    }
}

#[test]
fn unknown_deck_id() {
    assert_eq!(deck_by_id("no-such-deck"), None);
}

// ---- Further cases --------------------------------------------------

#[test]
fn the_decks_come_in_registry_order() {
    let ids: Vec<&str> = decks().iter().map(|deck| deck.id).collect();
    assert_eq!(ids, vec!["absurd", "memento", "dramatis", "stuck"]);
    let counts: Vec<usize> = decks().iter().map(|deck| deck.count()).collect();
    assert_eq!(counts, vec![86, 76, 104, 90]);
}

#[test]
fn deck_lookup_is_exact_about_case_and_length() {
    assert_eq!(deck_by_id("Absurd"), None);
    assert_eq!(deck_by_id("absur"), None);
    assert_eq!(deck_by_id("absurdx"), None);
    assert_eq!(deck_by_id(""), None);
    assert_eq!(deck_by_id("stuck").map(|deck| deck.name), Some("Stuck"));
}

#[test]
fn provenance_credits_everyone_but_this_crate() {
    assert_eq!(Provenance::Original.attribution(), None);
    assert_eq!(Provenance::Attributed("Eno").attribution(), Some("Eno"));
    assert_eq!(Provenance::PublicDomain("Polti").attribution(), Some("Polti"));
    assert_eq!(Provenance::Technique("Pomodoro").attribution(), Some("Pomodoro"));
}

#[test]
fn provenance_describes_itself_in_a_sentence() {
    assert_eq!(Provenance::Original.describe(), "Text written for this crate.");
    assert_eq!(
        Provenance::Attributed("Eno").describe(),
        "Text by Eno, reproduced with attribution."
    );
    assert_eq!(
        Provenance::PublicDomain("Polti").describe(),
        "Text from the public domain: Polti."
    );
    assert_eq!(
        Provenance::Technique("Pomodoro").describe(),
        "Methods restated in original words: Pomodoro."
    );
}

#[test]
fn a_deck_prints_as_its_name_and_id() {
    for deck in decks() {
        assert_eq!(deck.to_string(), format!("{} ({})", deck.name, deck.id));
    }
    assert_eq!(first_deck().to_string(), "The Absurd (absurd)");
}

#[test]
fn a_single_card_is_always_one_of_the_deck() {
    for deck in decks() {
        assert!(deck.cards().contains(&deck.random_str()));
        let owned = deck.random();
        assert!(deck.cards().contains(&owned.as_str()));
    }
}

#[test]
fn asking_for_the_whole_deck_shuffles_it_without_loss() {
    for deck in decks() {
        let mut drawn = deck.random_n_str(deck.count());
        drawn.sort_unstable();
        let mut cards = deck.cards().to_vec();
        cards.sort_unstable();
        assert_eq!(drawn, cards);
        let mut owned = deck.random_n(usize::MAX);
        owned.sort_unstable();
        let cards: Vec<String> = cards.iter().map(|card| (*card).to_string()).collect();
        assert_eq!(owned, cards);
    }
}

#[test]
fn owned_draws_follow_the_borrowed_rules() {
    let deck = first_deck();
    assert!(deck.random_n(0).is_empty());
    assert_eq!(deck.random_n(1).len(), 1);
    let drawn = deck.random_n(5);
    assert_eq!(drawn.len(), 5);
    let unique: std::collections::HashSet<_> = drawn.iter().collect();
    assert_eq!(unique.len(), 5);
}

#[test]
fn a_card_is_found_again_by_its_id_across_the_crate() {
    for deck in decks() {
        for card in deck.cards() {
            let id = deck.id_of(card).expect("the card is in the deck");
            assert_eq!(id, CardId::of(deck.id, card));
            assert_eq!(deck.card_by_id(id), Some(*card));
            assert_eq!(card_by_id(id), Some((deck, *card)));
        }
    }
}

#[test]
fn text_that_is_no_card_has_no_id() {
    let deck = first_deck();
    assert_eq!(deck.id_of("not a card in any deck"), None);
    let card = deck.cards()[0];
    assert_eq!(deck.id_of(&card.to_uppercase()), None);
    let stranger: CardId = "0000000000000000".parse().expect("sixteen hex digits");
    assert_eq!(deck.card_by_id(stranger), None);
    assert_eq!(card_by_id(stranger), None);
}

#[test]
fn a_card_of_one_deck_is_not_found_in_another() {
    let absurd = sortes::decks::absurd::deck();
    let stuck = sortes::decks::stuck::deck();
    let id = absurd.id_of(absurd.cards()[0]).expect("the card is in the deck");
    assert_eq!(stuck.card_by_id(id), None);
}

#[test]
fn dealing_follows_the_picks_exactly() {
    let deck = sortes::decks::memento::deck();
    let cards = deck.cards();
    // No picks, no cards.
    assert!(deck.deal(&[]).is_empty());
    // Picks of zero leave every card where it is.
    assert_eq!(deck.deal(&[0, 0, 0]), vec![cards[0], cards[1], cards[2]]);
    // One pick is the card that many places down.
    assert_eq!(deck.deal(&[5]), vec![cards[5]]);
    assert_eq!(deck.deal(&[75]), vec![cards[75]]);
    // Exchanging 0 with 2, then taking the card now at 1.
    assert_eq!(deck.deal(&[2, 0]), vec![cards[2], cards[1]]);
    // Exchanging 0 with 1, then 1 with 2: the old first card moves on down.
    assert_eq!(deck.deal(&[1, 1, 0]), vec![cards[1], cards[2], cards[0]]);
}

#[test]
fn dealing_the_whole_deck_is_a_rearrangement() {
    let deck = sortes::decks::stuck::deck();
    let picks: Vec<usize> = (0..deck.count()).map(|i| (i * 7) % (deck.count() - i)).collect();
    let mut dealt = deck.deal(&picks);
    assert_eq!(dealt.len(), deck.count());
    dealt.sort_unstable();
    let mut cards = deck.cards().to_vec();
    cards.sort_unstable();
    assert_eq!(dealt, cards);
}

#[test]
fn every_compiled_card_is_plain_ascii_and_decks_are_in_text_order() {
    for deck in decks() {
        for card in deck.cards() {
            assert!(card.is_ascii());
            assert!(!card.contains(['\0', '\u{1e}', '\u{1f}']));
        }
        for pair in deck.cards().windows(2) {
            assert!(pair[0] < pair[1], "{:?} is not before {:?}", pair[0], pair[1]);
        }
    }
}
