//! A dealing shoe: draws that do not repeat, and draws that can be reproduced.
//!
//! `Deck::random` and its neighbours ask the thread-local generator for a card
//! each time, so a run of draws may show the same card twice and no run can be
//! replayed. A `Shoe` keeps a shuffled order and a cursor into it instead:
//! every card comes up once before any comes up twice, and a shoe built with
//! `Deck::shoe_with_seed` deals the same sequence every time.
//!
//! The generator lives inside the shoe rather than in the deck. `Deck` is a
//! constant and stays one; the shoe is the mutable thing, and it is the only
//! place in this crate that holds state between draws.

use vstd::prelude::*;
use crate::deck::Deck;
use crate::random::{below_from, fresh_state, picked_below, shuffle_from, shuffled};
use crate::text::same_text;

verus! {

broadcast use vstd::seq_lib::group_to_multiset_ensures, vstd::seq_lib::to_multiset_update;

/// What a shoe is, as a value: the deck, the shuffled order, the cursor into
/// it, and the state of its generator.
pub ghost struct ShoeView {
    pub deck: Deck,
    pub order: Seq<&'static str>,
    pub next: nat,
    pub state: u64,
}

/// A shoe's order is a rearrangement of its deck and its cursor is inside it.
pub open spec fn well_formed(v: ShoeView) -> bool {
    &&& v.order.len() == v.deck.cards@.len()
    &&& v.order.to_multiset() == v.deck.cards@.to_multiset()
    &&& v.next <= v.order.len()
}

/// A new shoe over `deck`, its generator in state `state`: the deck shuffled
/// once, the cursor at the top.
pub open spec fn spec_new(deck: Deck, state: u64) -> ShoeView {
    let (state, order) = shuffled(state, deck.cards@);
    ShoeView { deck, order, next: 0, state }
}

/// The shoe shuffled again and started over.
pub open spec fn spec_reshuffle(v: ShoeView) -> ShoeView {
    let (state, order) = shuffled(v.state, v.order);
    ShoeView { deck: v.deck, order, next: 0, state }
}

/// The shoe shuffled for the next pass, with the card that ended the last
/// pass moved off the top of the next one.
pub open spec fn spec_refill(v: ShoeView) -> ShoeView {
    let r = spec_reshuffle(v);
    if r.order.len() > 1 && v.order.len() > 0 && r.order[0]@ == v.order.last()@ {
        let (state, k) = picked_below(r.state, (r.order.len() - 1) as usize);
        let j = k + 1;
        ShoeView {
            deck: r.deck,
            order: r.order.update(0, r.order[j]).update(j, r.order[0]),
            next: 0,
            state,
        }
    } else {
        r
    }
}

/// One card dealt: the shoe after the deal, and the card.
pub open spec fn spec_draw(v: ShoeView) -> (ShoeView, &'static str) {
    let w = if v.next >= v.order.len() {
        spec_refill(v)
    } else {
        v
    };
    (ShoeView { next: w.next + 1, ..w }, w.order[w.next as int])
}

/// `n` cards dealt one after another: the shoe after them, and the cards in
/// the order they came.
pub open spec fn spec_draw_n(v: ShoeView, n: nat) -> (ShoeView, Seq<&'static str>)
    decreases n,
{
    if n == 0 {
        (v, Seq::empty())
    } else {
        let (w, cards) = spec_draw_n(v, (n - 1) as nat);
        let (x, card) = spec_draw(w);
        (x, cards.push(card))
    }
}

/// How many cards are left before the shoe shuffles again.
pub open spec fn spec_remaining(v: ShoeView) -> int {
    v.order.len() - v.next
}

/// A deck, shuffled, with a cursor into it.
///
/// Cards come out in shuffled order until the shoe is spent, then it shuffles
/// again and carries on, so a draw repeats only after every other card has
/// been dealt. The card that ends one pass never opens the next.
#[derive(Debug)]
pub struct Shoe {
    deck: Deck,
    order: Vec<&'static str>,
    next: usize,
    state: u64,
}

impl View for Shoe {
    type V = ShoeView;

    closed spec fn view(&self) -> ShoeView {
        ShoeView { deck: self.deck, order: self.order@, next: self.next as nat, state: self.state }
    }
}

impl Clone for Shoe {
    /// A shoe in the same place, which deals what this one would.
    fn clone(&self) -> (r: Shoe)
        ensures
            r@ == self@,
    {
        proof {
            use_type_invariant(self);
        }
        Shoe {
            deck: self.deck,
            order: vstd::slice::slice_to_vec(self.order.as_slice()),
            next: self.next,
            state: self.state,
        }
    }
}

/// The `k`th whole pass in `dealt`, for passes of `size` cards of which the
/// first starts at `first`.
pub open spec fn pass_of(dealt: Seq<&'static str>, first: int, size: int, k: int) -> Seq<&'static str> {
    dealt.subrange(first + k * size, first + (k + 1) * size)
}

impl Shoe {
    /// A shoe is always well formed.
    #[verifier::type_invariant]
    spec fn is_well_formed(self) -> bool {
        well_formed(self@)
    }

    /// Build a shoe over `deck`, its generator in state `state`.
    pub(crate) fn new(deck: Deck, state: u64) -> (r: Shoe)
        ensures
            r@ == spec_new(deck, state),
            well_formed(r@),
    {
        let mut order = vstd::slice::slice_to_vec(deck.cards);
        let state = shuffle_from(state, &mut order);
        proof {
            lemma_same_items_same_len(order@, deck.cards@);
        }
        Shoe { deck, order, next: 0, state }
    }

    /// The deck this shoe deals from.
    pub fn deck(&self) -> (r: Deck)
        ensures
            r == self@.deck,
    {
        self.deck
    }

    /// How many cards are left before the shoe shuffles again.
    pub fn remaining(&self) -> (r: usize)
        ensures
            r == spec_remaining(self@),
            well_formed(self@),
    {
        proof {
            use_type_invariant(self);
        }
        self.order.len() - self.next
    }

    /// Shuffle the shoe and start over, so the next draw comes from a full
    /// deck.
    pub fn reshuffle(&mut self)
        ensures
            well_formed(old(self)@),
            final(self)@ == spec_reshuffle(old(self)@),
            (final(self)@.state, final(self)@.order) == shuffled(old(self)@.state, old(self)@.order),
            final(self)@.next == 0,
            final(self)@.deck == old(self)@.deck,
            well_formed(final(self)@),
            spec_remaining(final(self)@) == old(self)@.deck.cards@.len(),
    {
        proof {
            use_type_invariant(&*self);
        }
        let mut order = vstd::slice::slice_to_vec(self.order.as_slice());
        let state = shuffle_from(self.state, &mut order);
        proof {
            lemma_same_items_same_len(order@, self.deck.cards@);
        }
        *self = Shoe { deck: self.deck, order, next: 0, state };
    }

    /// Shuffle for the next pass, keeping the seam honest.
    fn refill(&mut self)
        ensures
            well_formed(old(self)@),
            final(self)@ == spec_refill(old(self)@),
            well_formed(final(self)@),
            old(self)@.deck.texts_distinct() && old(self)@.order.len() > 1 ==> final(self)@.order[0]@
                != old(self)@.order.last()@,
    {
        proof {
            use_type_invariant(&*self);
        }
        let len = self.order.len();
        let had_cards = len > 0;
        let last: &'static str = if had_cards {
            self.order[len - 1]
        } else {
            ""
        };
        let mut order = vstd::slice::slice_to_vec(self.order.as_slice());
        let mut state = shuffle_from(self.state, &mut order);
        proof {
            lemma_same_items_same_len(order@, self.deck.cards@);
            if self.deck.texts_distinct() {
                lemma_rearrangement_keeps_texts_distinct(order@, self.deck);
            }
        }
        // A card that ends one pass and opens the next reads as a repeat,
        // which is the one thing a shoe exists to prevent. Move it aside.
        if order.len() > 1 && had_cards && same_text(order[0], last) {
            let (moved, k) = below_from(state, order.len() - 1);
            let elsewhere = k + 1;
            state = moved;
            swap(&mut order, 0, elsewhere);
        }
        *self = Shoe { deck: self.deck, order, next: 0, state };
    }

    /// Deal the next card.
    ///
    /// When the shoe is spent it shuffles and carries on, so this never fails
    /// and never runs out. The deck must hold at least one card; every deck
    /// compiled in does.
    pub fn draw(&mut self) -> (card: &'static str)
        requires
            old(self)@.deck.cards@.len() > 0,
        ensures
            well_formed(old(self)@),
            (final(self)@, card) == spec_draw(old(self)@),
            well_formed(final(self)@),
            final(self)@.deck == old(self)@.deck,
            old(self)@.deck.cards@.contains(card),
            final(self)@.next >= 1 && final(self)@.order[final(self)@.next - 1] == card,
            old(self)@.next > 0 && old(self)@.deck.texts_distinct() && old(self)@.deck.cards@.len()
                > 1 ==> card@ != old(self)@.order[old(self)@.next - 1]@,
            spec_remaining(final(self)@) == (if spec_remaining(old(self)@) == 0 {
                old(self)@.deck.cards@.len() - 1
            } else {
                spec_remaining(old(self)@) - 1
            }),
    {
        proof {
            use_type_invariant(&*self);
        }
        let ghost before = self@;
        if self.next >= self.order.len() {
            self.refill();
        } else {
            proof {
                if before.next > 0 && before.deck.texts_distinct() {
                    lemma_rearrangement_keeps_texts_distinct(before.order, before.deck);
                }
            }
        }
        let card = self.order[self.next];
        self.next += 1;
        proof {
            assert(self.order@.contains(card));
            assert(self.order@.to_multiset().count(card) > 0);
        }
        card
    }

    /// Deal `count` cards.
    ///
    /// Unlike `Deck::random_n_str`, which stops at the size of the deck, a
    /// shoe keeps dealing: ask for more cards than the deck holds and it
    /// shuffles and continues, so the length is always `count`. Every pass
    /// that the deal covers whole holds each card of the deck exactly as
    /// often as the deck does.
    #[verifier::spinoff_prover]
    #[verifier::rlimit(60)]
    pub fn draw_n(&mut self, count: usize) -> (r: Vec<&'static str>)
        requires
            count == 0 || old(self)@.deck.cards@.len() > 0,
        ensures
            well_formed(old(self)@),
            (final(self)@, r@) == spec_draw_n(old(self)@, count as nat),
            r@.len() == count,
            well_formed(final(self)@),
            final(self)@.deck == old(self)@.deck,
            forall|i: int| 0 <= i < count ==> old(self)@.deck.cards@.contains(#[trigger] r@[i]),
            count <= spec_remaining(old(self)@) ==> r@ == old(self)@.order.subrange(
                old(self)@.next as int,
                old(self)@.next + count,
            ),
            old(self)@.deck.texts_distinct() && old(self)@.deck.cards@.len() > 1 ==> forall|i: int|
                0 <= i < count - 1 ==> (#[trigger] r@[i])@ != r@[i + 1]@,
            (old(self)@.next == 0 || spec_remaining(old(self)@) == 0) && count
                == old(self)@.deck.cards@.len() ==> r@.to_multiset()
                == old(self)@.deck.cards@.to_multiset(),
            old(self)@.deck.texts_distinct() ==> forall|i: int, j: int|
                0 <= i < j < count && j < spec_remaining(old(self)@) ==> (#[trigger] r@[i])@
                    != (#[trigger] r@[j])@,
            forall|k: int|
                0 <= k && spec_remaining(old(self)@) + (k + 1) * old(self)@.deck.cards@.len() <= count
                    ==> (#[trigger] pass_of(
                    r@,
                    spec_remaining(old(self)@),
                    old(self)@.deck.cards@.len() as int,
                    k,
                )).to_multiset() == old(self)@.deck.cards@.to_multiset(),
    {
        proof {
            use_type_invariant(&*self);
        }
        let ghost start = self@;
        let ghost rem = spec_remaining(start);
        let ghost n = start.deck.cards@.len() as int;
        let ghost mut passes: int = 0;
        let ghost mut pass_start: int = rem;
        let mut dealt: Vec<&'static str> = Vec::new();
        let mut i: usize = 0;
        while i < count
            invariant
                i <= count,
                count == 0 || start.deck.cards@.len() > 0,
                well_formed(start),
                rem == spec_remaining(start),
                n == start.deck.cards@.len(),
                (self@, dealt@) == spec_draw_n(start, i as nat),
                dealt@.len() == i,
                self@.deck == start.deck,
                well_formed(self@),
                forall|j: int| 0 <= j < i ==> start.deck.cards@.contains(#[trigger] dealt@[j]),
                i > 0 ==> self@.next >= 1 && self@.order[self@.next - 1] == dealt@[i - 1],
                i <= rem ==> self@.order == start.order && self@.next == start.next + i && dealt@
                    == start.order.subrange(start.next as int, start.next + i),
                start.deck.texts_distinct() && start.deck.cards@.len() > 1 ==> forall|j: int|
                    0 <= j < i - 1 ==> (#[trigger] dealt@[j])@ != dealt@[j + 1]@,
                0 <= passes,
                i <= rem ==> passes == 0,
                i >= rem ==> dealt@.take(rem) == start.order.subrange(
                    start.next as int,
                    start.next + rem,
                ),
                i > rem ==> pass_start == rem + passes * n && pass_start < i <= pass_start + n
                    && self@.next == i - pass_start && dealt@.subrange(pass_start, i as int)
                    == self@.order.subrange(0, self@.next as int),
                forall|k: int|
                    0 <= k < passes ==> (#[trigger] pass_of(dealt@, rem, n, k)).to_multiset()
                        == start.deck.cards@.to_multiset(),
            decreases count - i,
        {
            let ghost before = self@;
            let ghost dealt_before = dealt@;
            proof {
                if i > rem && i == pass_start + n {
                    // The pass under way is complete: record it.
                    lemma_next_pass(passes, n);
                    assert(pass_of(dealt@, rem, n, passes) == dealt@.subrange(pass_start, i as int));
                    assert(before.order.subrange(0, n) =~= before.order);
                    passes = passes + 1;
                    pass_start = i as int;
                } else if i == rem {
                    pass_start = rem;
                }
            }
            let card = self.draw();
            dealt.push(card);
            proof {
                assert forall|k: int| 0 <= k < passes implies (#[trigger] pass_of(
                    dealt@,
                    rem,
                    n,
                    k,
                )).to_multiset() == start.deck.cards@.to_multiset() by {
                    lemma_mul_mono(k + 1, passes, n);
                    lemma_mul_mono(0, k, n);
                    lemma_mul_mono(k, k + 1, n);
                    assert(0 * n == 0) by (nonlinear_arith);
                    assert(rem + (k + 1) * n <= pass_start);
                    assert(pass_of(dealt@, rem, n, k) =~= pass_of(dealt_before, rem, n, k));
                }
                if i >= rem {
                    assert(dealt@.take(rem) =~= dealt_before.take(rem));
                    if i == pass_start {
                        assert(dealt@.subrange(pass_start, i + 1) =~= self@.order.subrange(0, 1));
                    } else {
                        assert(self@.order == before.order);
                        assert(dealt@.subrange(pass_start, i + 1) =~= dealt_before.subrange(
                            pass_start,
                            i as int,
                        ).push(card));
                        assert(self@.order.subrange(0, self@.next as int) =~= before.order.subrange(
                            0,
                            before.next as int,
                        ).push(card));
                    }
                }
            }
            i += 1;
        }
        proof {
            if count == start.deck.cards@.len() {
                if start.next == 0 {
                    assert(start.order.subrange(0, count as int) =~= start.order);
                } else if rem == 0 && count == 0 {
                    assert(dealt@ =~= Seq::<&'static str>::empty());
                    assert(start.deck.cards@ =~= Seq::<&'static str>::empty());
                }
            }
            assert forall|k: int| 0 <= k && rem + (k + 1) * n <= count implies (#[trigger] pass_of(
                dealt@,
                rem,
                n,
                k,
            )).to_multiset() == start.deck.cards@.to_multiset() by {
                if n == 0 {
                    assert(pass_of(dealt@, rem, n, k) =~= Seq::<&'static str>::empty());
                    assert(start.deck.cards@ =~= Seq::<&'static str>::empty());
                } else if k >= passes {
                    lemma_next_pass(k, n);
                    lemma_next_pass(passes, n);
                    if k > passes {
                        lemma_mul_mono(passes + 2, k + 1, n);
                        lemma_next_pass(passes + 1, n);
                    }
                    assert(k == passes);
                    assert(pass_of(dealt@, rem, n, k) == dealt@.subrange(pass_start, i as int));
                    assert(self@.order.subrange(0, n) =~= self@.order);
                }
            }
            if start.deck.texts_distinct() {
                lemma_rearrangement_keeps_texts_distinct(start.order, start.deck);
                assert forall|a: int, b: int|
                    0 <= a < b < count && b < rem implies (#[trigger] dealt@[a])@
                        != (#[trigger] dealt@[b])@ by {
                    if count <= rem {
                        assert(dealt@[a] == start.order[start.next + a]);
                        assert(dealt@[b] == start.order[start.next + b]);
                    } else {
                        assert(dealt@[a] == dealt@.take(rem)[a]);
                        assert(dealt@[b] == dealt@.take(rem)[b]);
                        assert(dealt@.take(rem)[a] == start.order[start.next + a]);
                        assert(dealt@.take(rem)[b] == start.order[start.next + b]);
                    }
                }
            }
            if rem == 0 && count == n && n > 0 {
                lemma_next_pass(0, n);
                assert(pass_of(dealt@, rem, n, 0) =~= dealt@);
            }
        }
        dealt
    }
}

/// One more pass of `n` cards starts `n` cards later.
proof fn lemma_next_pass(k: int, n: int)
    ensures
        (k + 1) * n == k * n + n,
        (k + 2) * n == k * n + n + n,
{
    assert((k + 1) * n == k * n + n) by (nonlinear_arith);
    assert((k + 2) * n == k * n + n + n) by (nonlinear_arith);
}

/// Fewer passes end no later.
proof fn lemma_mul_mono(a: int, b: int, n: int)
    requires
        a <= b,
        n >= 0,
    ensures
        a * n <= b * n,
{
    assert(a * n <= b * n) by (nonlinear_arith)
        requires
            a <= b,
            n >= 0,
    ;
}

/// Each new pass is a fresh shuffle by the shoe's own generator: starting
/// over sets the order to the generator's shuffle of the current order, from
/// the generator's current state, and leaves the generator in the state that
/// shuffle leaves it in. Refilling a spent shoe deals that same shuffle,
/// save that when it would open with the card that closed the last pass, that
/// card changes places with the one the generator picks from the rest.
pub proof fn lemma_each_pass_is_a_fresh_shuffle(v: ShoeView)
    ensures
        spec_reshuffle(v).order == shuffled(v.state, v.order).1,
        spec_reshuffle(v).state == shuffled(v.state, v.order).0,
        spec_reshuffle(v).next == 0,
        spec_reshuffle(v).deck == v.deck,
        ({
            let (state, order) = shuffled(v.state, v.order);
            let moved = picked_below(state, (order.len() - 1) as usize);
            let j = moved.1 + 1;
            ||| spec_refill(v).order == order && spec_refill(v).state == state
            ||| spec_refill(v).order == order.update(0, order[j]).update(j, order[0])
                && spec_refill(v).state == moved.0 && order.len() > 1
        }),
        spec_refill(v).next == 0,
        spec_remaining(v) == 0 && v.order.len() > 0 ==> spec_draw(v).0.order == spec_refill(v).order
            && spec_draw(v).1 == spec_refill(v).order[0],
{
}

/// Within one pass, dealing `k` cards takes the next `k` of the shuffled order
/// and moves the cursor past them; nothing is reshuffled.
pub proof fn lemma_deal_within_a_pass(v: ShoeView, k: nat)
    requires
        well_formed(v),
        k <= spec_remaining(v),
    ensures
        spec_draw_n(v, k).0 == (ShoeView { next: v.next + k, ..v }),
        spec_draw_n(v, k).1 == v.order.subrange(v.next as int, (v.next + k) as int),
    decreases k,
{
    if k > 0 {
        lemma_deal_within_a_pass(v, (k - 1) as nat);
        assert(v.order.subrange(v.next as int, (v.next + k) as int) =~= v.order.subrange(
            v.next as int,
            v.next + k - 1,
        ).push(v.order[v.next + k - 1]));
    }
}

/// A pass through a freshly shuffled shoe deals every card of the deck
/// exactly once: the whole shuffled order, which holds each card of the deck
/// as often as the deck does.
pub proof fn lemma_a_pass_deals_every_card_once(v: ShoeView)
    requires
        well_formed(v),
        v.next == 0,
    ensures
        spec_draw_n(v, v.order.len()).1 == v.order,
        spec_draw_n(v, v.order.len()).1.to_multiset() == v.deck.cards@.to_multiset(),
{
    lemma_deal_within_a_pass(v, v.order.len());
    assert(v.order.subrange(0, v.order.len() as int) =~= v.order);
}

/// Two shoes built from the same deck and the same seed deal the same cards,
/// in the same order, however many are asked for.
pub proof fn lemma_same_seed_same_deal(deck: Deck, seed: u64, first: ShoeView, second: ShoeView, n: nat)
    requires
        first == spec_new(deck, seed),
        second == spec_new(deck, seed),
    ensures
        spec_draw_n(first, n).1 == spec_draw_n(second, n).1,
{
}

/// Two sequences holding the same items have the same length.
proof fn lemma_same_items_same_len(a: Seq<&'static str>, b: Seq<&'static str>)
    requires
        a.to_multiset() == b.to_multiset(),
    ensures
        a.len() == b.len(),
{
    assert(a.to_multiset().len() == a.len());
    assert(b.to_multiset().len() == b.len());
}

/// A rearrangement of a deck whose cards all read differently has cards
/// that all read differently.
proof fn lemma_rearrangement_keeps_texts_distinct(order: Seq<&'static str>, deck: Deck)
    requires
        order.to_multiset() == deck.cards@.to_multiset(),
        deck.texts_distinct(),
    ensures
        forall|i: int, j: int|
            0 <= i < order.len() && 0 <= j < order.len() && i != j ==> #[trigger] order[i]@
                != #[trigger] order[j]@,
{
    let cards = deck.cards@;
    assert(cards.no_duplicates()) by {
        assert forall|i: int, j: int| 0 <= i < cards.len() && 0 <= j < cards.len() && i != j
            implies cards[i] != cards[j] by {
            assert(cards[i]@ != cards[j]@);
        }
    }
    cards.lemma_multiset_has_no_duplicates();
    assert forall|x: &'static str| order.to_multiset().contains(x) implies order.to_multiset().count(x)
        == 1 by {}
    order.lemma_multiset_has_no_duplicates_conv();
    assert forall|i: int, j: int| 0 <= i < order.len() && 0 <= j < order.len() && i != j
        implies #[trigger] order[i]@ != #[trigger] order[j]@ by {
        assert(order.to_multiset().count(order[i]) > 0);
        assert(order.to_multiset().count(order[j]) > 0);
        assert(cards.contains(order[i]));
        assert(cards.contains(order[j]));
        let a = choose|a: int| 0 <= a < cards.len() && cards[a] == order[i];
        let b = choose|b: int| 0 <= b < cards.len() && cards[b] == order[j];
        assert(order[i] != order[j]);
        assert(a != b);
    }
}

/// Exchange two entries of `order`.
fn swap(order: &mut Vec<&'static str>, a: usize, b: usize)
    requires
        a < old(order)@.len(),
        b < old(order)@.len(),
    ensures
        final(order)@ == old(order)@.update(a as int, old(order)@[b as int]).update(
            b as int,
            old(order)@[a as int],
        ),
        final(order)@.to_multiset() == old(order)@.to_multiset(),
{
    let x = order[a];
    let y = order[b];
    let ghost before = order@;
    order.set(a, y);
    order.set(b, x);
    proof {
        let once = before.update(a as int, y);
        assert(once.to_multiset() == before.to_multiset().insert(y).remove(x));
        assert(once[b as int] == y);
        assert(order@.to_multiset() == once.to_multiset().insert(x).remove(y));
        assert(before.to_multiset().count(y) > 0);
        assert(before.to_multiset().insert(y).remove(x).insert(x).remove(y) =~= before.to_multiset());
    }
}

impl Deck {
    /// A `Shoe` over this deck, shuffled by a generator forked from the
    /// thread-local one.
    ///
    /// Use it when a run of draws should not repeat a card; use
    /// `shoe_with_seed` when the run should also be reproducible.
    pub fn shoe(&self) -> (r: Shoe)
        ensures
            exists|state: u64| r@ == spec_new(*self, state),
            well_formed(r@),
    {
        Shoe::new(*self, fresh_state())
    }

    /// A `Shoe` over this deck, shuffled from `seed`.
    ///
    /// The same seed deals the same cards in the same order, for as long as
    /// the deck's contents do not change: a card added or reworded reshuffles
    /// every seed with it.
    pub fn shoe_with_seed(&self, seed: u64) -> (r: Shoe)
        ensures
            r@ == spec_new(*self, seed),
            well_formed(r@),
    {
        Shoe::new(*self, seed)
    }
}

} // verus!
