use sortes::{decks, Deck};

fn deck() -> Deck {
    decks().first().copied().expect("a deck is always compiled in")
}

#[test]
fn a_pass_deals_every_card_exactly_once() {
    let deck = deck();
    let mut shoe = deck.shoe();
    let pass = shoe.draw_n(deck.count());
    let unique: std::collections::HashSet<_> = pass.iter().collect();
    assert_eq!(unique.len(), deck.count(), "a card came up twice within one pass");
    for card in &pass {
        assert!(deck.cards().contains(card));
    }
}

#[test]
fn the_same_seed_deals_the_same_sequence() {
    let deck = deck();
    let one = deck.shoe_with_seed(0x5EED).draw_n(40);
    let two = deck.shoe_with_seed(0x5EED).draw_n(40);
    assert_eq!(one, two);
}

#[test]
fn different_seeds_deal_differently() {
    let deck = deck();
    assert_ne!(deck.shoe_with_seed(1).draw_n(40), deck.shoe_with_seed(2).draw_n(40));
}

#[test]
fn the_shoe_refills_rather_than_running_out() {
    let deck = deck();
    let mut shoe = deck.shoe_with_seed(7);
    let drawn = shoe.draw_n(deck.count() * 2 + 5);
    assert_eq!(drawn.len(), deck.count() * 2 + 5);
}

#[test]
fn no_card_repeats_across_the_seam() {
    let deck = deck();
    for seed in 0..64 {
        let mut shoe = deck.shoe_with_seed(seed);
        let drawn = shoe.draw_n(deck.count() * 3);
        for pair in drawn.windows(2) {
            assert_ne!(pair[0], pair[1], "seed {seed} dealt the same card twice running");
        }
    }
}

#[test]
fn remaining_counts_down_and_wraps() {
    let deck = deck();
    let mut shoe = deck.shoe();
    assert_eq!(shoe.remaining(), deck.count());
    shoe.draw_n(deck.count());
    assert_eq!(shoe.remaining(), 0);
    shoe.draw();
    assert_eq!(shoe.remaining(), deck.count() - 1);
}

#[test]
fn drawing_nothing_is_allowed() {
    assert!(deck().shoe().draw_n(0).is_empty());
}

#[test]
fn a_shoe_knows_its_deck() {
    let deck = deck();
    assert_eq!(deck.shoe().deck(), deck);
}

// ---- Further cases --------------------------------------------------

#[test]
fn a_seeded_shoe_is_actually_shuffled() {
    // A shuffle that handed the order back untouched would deal the deck as
    // printed; for decks this size no seed should do that.
    for deck in decks() {
        for seed in [0, 1, 0x5EED] {
            let pass = deck.shoe_with_seed(seed).draw_n(deck.count());
            assert_ne!(pass, deck.cards().to_vec(), "seed {seed} left {} unshuffled", deck.id);
        }
    }
}

#[test]
fn every_pass_of_a_seeded_shoe_is_the_whole_deck() {
    for deck in decks() {
        let mut shoe = deck.shoe_with_seed(11);
        for _ in 0..3 {
            let mut pass = shoe.draw_n(deck.count());
            pass.sort_unstable();
            let mut cards = deck.cards().to_vec();
            cards.sort_unstable();
            assert_eq!(pass, cards);
            assert_eq!(shoe.remaining(), 0);
        }
    }
}

#[test]
fn no_deck_repeats_a_card_across_the_seam() {
    for deck in decks() {
        for seed in 0..32 {
            let drawn = deck.shoe_with_seed(seed).draw_n(deck.count() * 2 + 1);
            for pair in drawn.windows(2) {
                assert_ne!(pair[0], pair[1], "seed {seed} repeated a card of {}", deck.id);
            }
        }
    }
}

#[test]
fn reshuffling_starts_a_full_pass() {
    let deck = deck();
    let mut shoe = deck.shoe_with_seed(3);
    shoe.draw_n(10);
    assert_eq!(shoe.remaining(), deck.count() - 10);
    shoe.reshuffle();
    assert_eq!(shoe.remaining(), deck.count());
    let mut pass = shoe.draw_n(deck.count());
    pass.sort_unstable();
    let mut cards = deck.cards().to_vec();
    cards.sort_unstable();
    assert_eq!(pass, cards);
}

#[test]
fn single_draws_and_batches_deal_alike() {
    let deck = deck();
    let batch = deck.shoe_with_seed(42).draw_n(deck.count() + 20);
    let mut shoe = deck.shoe_with_seed(42);
    let singles: Vec<&str> = (0..deck.count() + 20).map(|_| shoe.draw()).collect();
    assert_eq!(batch, singles);
}

#[test]
fn a_clone_deals_what_its_source_would() {
    let deck = deck();
    let mut shoe = deck.shoe_with_seed(9);
    shoe.draw_n(5);
    let mut twin = shoe.clone();
    assert_eq!(shoe.draw_n(100), twin.draw_n(100));
}

#[test]
fn a_deal_past_the_pass_repeats_nothing_before_the_refill() {
    let deck = deck();
    let mut shoe = deck.shoe_with_seed(21);
    shoe.draw_n(30);
    let left = shoe.remaining();
    let dealt = shoe.draw_n(left + 40);
    let before: std::collections::HashSet<_> = dealt[..left].iter().collect();
    assert_eq!(before.len(), left);
    let mut pass = dealt[left..left + deck.count().min(40)].to_vec();
    pass.sort_unstable();
    pass.dedup();
    assert_eq!(pass.len(), deck.count().min(40));
}

#[test]
fn two_whole_passes_after_a_partial_one_each_hold_the_deck() {
    let deck = deck();
    let mut shoe = deck.shoe_with_seed(77);
    shoe.draw_n(13);
    let left = shoe.remaining();
    let dealt = shoe.draw_n(left + 2 * deck.count());
    let mut cards = deck.cards().to_vec();
    cards.sort_unstable();
    for k in 0..2 {
        let mut pass = dealt[left + k * deck.count()..left + (k + 1) * deck.count()].to_vec();
        pass.sort_unstable();
        assert_eq!(pass, cards);
    }
}
