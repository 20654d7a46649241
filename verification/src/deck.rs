//! A deck of cards, where its text came from, and drawing from it.

use vstd::prelude::*;
use vstd::string::StringSliceAdditionalSpecFns;
use crate::identity::CardId;
use crate::random::{below_from, fresh_state, picked_below, random_below};
use crate::search::{first_match, lemma_first_match, lemma_first_match_extends, lemma_first_match_step};
use crate::text::{
    contains_ignore_ascii_case, contains_ignoring_case, lemma_text_before_irreflexive,
    lemma_text_before_transitive, plain_text, same_text, text_before,
};

verus! {

broadcast use vstd::seq_lib::group_to_multiset_ensures, vstd::seq_lib::to_multiset_update;

/// Where a deck's text comes from, and who to credit for it.
///
/// Non-exhaustive: a mode added later must not break a consumer's `match`.
#[derive(Debug, Clone, Copy, PartialEq, Eq, Hash)]
#[non_exhaustive]
pub enum Provenance {
    /// Text by a named author, reproduced with attribution.
    Attributed(&'static str),
    /// Written for this crate.
    Original,
    /// Drawn from public-domain sources, named here.
    PublicDomain(&'static str),
    /// A restatement, in original words, of a technique that is itself not
    /// copyrightable. The source of the technique is named here.
    Technique(&'static str),
}

impl Provenance {
    /// The credit line, for every mode but `Original`.
    pub open spec fn spec_attribution(self) -> Option<&'static str> {
        match self {
            Provenance::Attributed(who) => Some(who),
            Provenance::PublicDomain(who) => Some(who),
            Provenance::Technique(who) => Some(who),
            Provenance::Original => None,
        }
    }

    /// The sentence that says where the text came from.
    pub open spec fn spec_describe(self) -> Seq<char> {
        match self {
            Provenance::Attributed(who) => "Text by "@ + who@ + ", reproduced with attribution."@,
            Provenance::Original => "Text written for this crate."@,
            Provenance::PublicDomain(who) => "Text from the public domain: "@ + who@ + "."@,
            Provenance::Technique(who) => "Methods restated in original words: "@ + who@ + "."@,
        }
    }

    /// The credit line for this provenance, if it has one.
    pub fn attribution(self) -> (r: Option<&'static str>)
        ensures
            r == self.spec_attribution(),
    {
        match self {
            Provenance::Attributed(who) => Some(who),
            Provenance::PublicDomain(who) => Some(who),
            Provenance::Technique(who) => Some(who),
            Provenance::Original => None,
        }
    }

    /// A sentence saying where the text came from, ready to print.
    ///
    /// The wording lives here rather than in each consumer, so a mode added
    /// later is handled in a single place.
    pub fn describe(self) -> (r: String)
        ensures
            r@ == self.spec_describe(),
    {
        match self {
            Provenance::Attributed(who) => {
                let mut text = "Text by ".to_string();
                text.append(who);
                text.append(", reproduced with attribution.");
                text
            },
            Provenance::Original => "Text written for this crate.".to_string(),
            Provenance::PublicDomain(who) => {
                let mut text = "Text from the public domain: ".to_string();
                text.append(who);
                text.append(".");
                text
            },
            Provenance::Technique(who) => {
                let mut text = "Methods restated in original words: ".to_string();
                text.append(who);
                text.append(".");
                text
            },
        }
    }
}

/// A deck of cards, drawn at random.
///
/// Non-exhaustive: decks are built by this crate rather than by literal, so
/// adding a field stays a minor release.
#[derive(Debug, Clone, Copy, PartialEq, Eq, Hash)]
#[non_exhaustive]
pub struct Deck {
    /// Short, stable, lowercase identifier. Unique across the crate.
    pub id: &'static str,
    /// Human-readable name.
    pub name: &'static str,
    /// One line on what the deck is for.
    pub blurb: &'static str,
    /// Where the text came from.
    pub provenance: Provenance,
    /// The cards themselves, sorted by their first line.
    pub cards: &'static [&'static str],
}

/// The cards that contain `needle`, ignoring ASCII case.
pub open spec fn matches_needle(needle: Seq<u8>) -> spec_fn(&'static str) -> bool {
    |card: &'static str| contains_ignoring_case(card.spec_bytes(), needle)
}

/// The cards of the deck called `deck_id` whose id is `id`.
pub open spec fn has_card_id(deck_id: Seq<char>, id: CardId) -> spec_fn(&'static str) -> bool {
    |card: &'static str| CardId::spec_of(deck_id, card@) == id
}

/// `order` with the cards at `a` and `b` exchanged.
pub open spec fn swapped(order: Seq<&'static str>, a: int, b: int) -> Seq<&'static str> {
    order.update(a, order[b]).update(b, order[a])
}

/// The first `picks.len()` steps of a Fisher-Yates shuffle of `order`: step
/// `i` exchanges the card at `i` with the card `picks[i]` places after it.
pub open spec fn shuffled_front(order: Seq<&'static str>, picks: Seq<usize>) -> Seq<&'static str>
    decreases picks.len(),
{
    if picks.len() == 0 {
        order
    } else {
        let i = picks.len() - 1;
        swapped(shuffled_front(order, picks.drop_last()), i, i + picks.last())
    }
}

/// Picks that a partial shuffle of `len` cards can use: no more than `len`
/// of them, and the one for step `i` below `len - i`.
pub open spec fn valid_picks(picks: Seq<usize>, len: nat) -> bool {
    &&& picks.len() <= len
    &&& forall|i: int| 0 <= i < picks.len() ==> #[trigger] picks[i] < len - i
}

/// Every card not yet placed can be dealt next: after any valid picks for
/// the first `i` positions, a pick of `j - i` is valid for position `i` and
/// deals there the card then at `j`, for every `j` from `i` to the end.
pub proof fn lemma_any_unplaced_card_can_come_next(
    cards: Seq<&'static str>,
    picks: Seq<usize>,
    j: int,
)
    requires
        cards.len() <= usize::MAX,
        valid_picks(picks, cards.len()),
        picks.len() <= j < cards.len(),
    ensures
        valid_picks(picks.push((j - picks.len()) as usize), cards.len()),
        dealt(cards, picks.push((j - picks.len()) as usize))[picks.len() as int]
            == shuffled_front(cards, picks)[j],
        dealt(cards, picks.push((j - picks.len()) as usize)).take(picks.len() as int) == dealt(
            cards,
            picks,
        ),
{
    let i = picks.len() as int;
    let more = picks.push((j - i) as usize);
    assert(more.drop_last() =~= picks);
    lemma_shuffled_front_len(cards, picks);
    assert forall|k: int| 0 <= k < more.len() implies #[trigger] more[k] < cards.len() - k by {
        if k < i {
            assert(more[k] == picks[k]);
        }
    }
    assert(more.last() == (j - i) as usize);
    let front = shuffled_front(cards, picks);
    assert(more.len() - 1 == i);
    assert(shuffled_front(cards, more.drop_last()) == front);
    assert(i + more.last() == j);
    assert(shuffled_front(cards, more) == swapped(
        shuffled_front(cards, more.drop_last()),
        more.len() - 1,
        more.len() - 1 + more.last(),
    ));
    assert(shuffled_front(cards, more) == swapped(front, i, j));
    assert(swapped(front, i, j)[i] == front[j]);
    assert(dealt(cards, more)[i] == front[j]);
    assert(dealt(cards, more).take(i) =~= dealt(cards, picks)) by {
        assert forall|k: int| 0 <= k < i implies #[trigger] dealt(cards, more).take(i)[k] == dealt(
            cards,
            picks,
        )[k] by {
            assert(swapped(front, i, j)[k] == front[k]);
        }
    }
}

/// A partial shuffle keeps the number of cards.
proof fn lemma_shuffled_front_len(cards: Seq<&'static str>, picks: Seq<usize>)
    requires
        valid_picks(picks, cards.len()),
    ensures
        shuffled_front(cards, picks).len() == cards.len(),
    decreases picks.len(),
{
    if picks.len() > 0 {
        assert(valid_picks(picks.drop_last(), cards.len())) by {
            assert forall|k: int| 0 <= k < picks.drop_last().len() implies #[trigger] picks.drop_last()[k]
                < cards.len() - k by {
                assert(picks.drop_last()[k] == picks[k]);
            }
        }
        lemma_shuffled_front_len(cards, picks.drop_last());
    }
}

/// The picks that a generator starting in `state` makes for a draw of
/// `count` cards from `len`, from position `i` on: the pick for each
/// position is the generator's pick below the number of cards not yet
/// placed, `len - i`, from the state the earlier picks left it in.
pub open spec fn generator_picks(state: u64, len: nat, i: nat, count: nat) -> Seq<usize>
    decreases count - i,
{
    if i >= count || i >= len {
        Seq::empty()
    } else {
        let (next, pick) = picked_below(state, (len - i) as usize);
        seq![pick] + generator_picks(next, len, i + 1, count)
    }
}

/// What a draw with these picks deals: the top of the partly shuffled cards,
/// one card per pick.
pub open spec fn dealt(order: Seq<&'static str>, picks: Seq<usize>) -> Seq<&'static str> {
    shuffled_front(order, picks).take(picks.len() as int)
}

/// From card `i` on, every card's text comes strictly before the next one's.
pub open spec fn in_order_from(cards: Seq<&'static str>, i: int) -> bool
    decreases cards.len() - i,
{
    if i < 0 || i + 1 >= cards.len() {
        true
    } else {
        text_before(cards[i]@, cards[i + 1]@) && in_order_from(cards, i + 1)
    }
}

/// From card `i` on, every card's text is plain.
pub open spec fn plain_from(cards: Seq<&'static str>, i: int) -> bool
    decreases cards.len() - i,
{
    if i < 0 || i >= cards.len() {
        true
    } else {
        plain_text(cards[i]@) && plain_from(cards, i + 1)
    }
}

/// Cards that are plain from the first on are plain, each of them.
pub proof fn lemma_plain_cards(cards: Seq<&'static str>, from: int)
    requires
        0 <= from,
        plain_from(cards, from),
    ensures
        forall|i: int| from <= i < cards.len() ==> plain_text(#[trigger] cards[i]@),
    decreases cards.len() - from,
{
    if from < cards.len() {
        lemma_plain_cards(cards, from + 1);
    }
}

/// Cards in strictly increasing text order all read differently.
pub proof fn lemma_in_order_cards_differ(cards: Seq<&'static str>)
    requires
        in_order_from(cards, 0),
    ensures
        forall|i: int, j: int|
            0 <= i < cards.len() && 0 <= j < cards.len() && i != j ==> #[trigger] cards[i]@
                != #[trigger] cards[j]@,
{
    assert forall|i: int, j: int| 0 <= i < j < cards.len() implies text_before(
        #[trigger] cards[i]@,
        #[trigger] cards[j]@,
    ) by {
        lemma_in_order_reaches(cards, 0, i, j);
    }
    assert forall|i: int, j: int|
        0 <= i < cards.len() && 0 <= j < cards.len() && i != j implies #[trigger] cards[i]@
        != #[trigger] cards[j]@ by {
        if i < j {
            lemma_text_before_irreflexive(cards[i]@);
        } else {
            lemma_text_before_irreflexive(cards[j]@);
        }
    }
}

/// In a run in order from `from`, an earlier card comes before a later one.
proof fn lemma_in_order_reaches(cards: Seq<&'static str>, from: int, i: int, j: int)
    requires
        0 <= from <= i < j < cards.len(),
        in_order_from(cards, from),
    ensures
        text_before(cards[i]@, cards[j]@),
    decreases j - from,
{
    if from < i {
        lemma_in_order_reaches(cards, from + 1, i, j);
    } else if j > i + 1 {
        lemma_in_order_reaches(cards, from + 1, i + 1, j);
        lemma_text_before_transitive(cards[i]@, cards[i + 1]@, cards[j]@);
    }
}

/// The smaller of two counts.
pub open spec fn min(a: nat, b: nat) -> nat {
    if a < b {
        a
    } else {
        b
    }
}

impl Deck {
    /// The cards' texts.
    pub open spec fn texts(self) -> Seq<Seq<char>> {
        self.cards@.map_values(|card: &'static str| card@)
    }

    /// Some card of the deck reads `text`.
    pub open spec fn holds_text(self, text: Seq<char>) -> bool {
        exists|i: int| 0 <= i < self.cards@.len() && #[trigger] self.cards@[i]@ == text
    }

    /// No two cards of the deck read alike.
    pub open spec fn texts_distinct(self) -> bool {
        forall|i: int, j: int|
            0 <= i < self.cards@.len() && 0 <= j < self.cards@.len() && i != j
                ==> #[trigger] self.cards@[i]@ != #[trigger] self.cards@[j]@
    }

    /// `drawn` is the top of some shuffle of the deck: every card at most
    /// once.
    pub open spec fn is_top_of_a_shuffle(self, drawn: Seq<&'static str>) -> bool {
        exists|order: Seq<&'static str>|
            #[trigger] order.to_multiset() == self.cards@.to_multiset() && drawn == order.take(
                drawn.len() as int,
            )
    }

    /// Every card containing `needle`, ignoring case, in the deck's order.
    pub open spec fn spec_find(self, needle: Seq<u8>) -> Seq<&'static str> {
        self.cards@.filter(matches_needle(needle))
    }

    /// The first card, in the deck's order, whose id is `id`.
    pub open spec fn spec_card_by_id(self, id: CardId) -> Option<&'static str> {
        first_match(self.cards@, has_card_id(self.id@, id))
    }

    /// This deck's cards as a slice. Does not allocate.
    pub fn cards(&self) -> (r: &'static [&'static str])
        ensures
            r == self.cards,
    {
        self.cards
    }

    /// The number of cards in this deck.
    pub fn count(&self) -> (r: usize)
        ensures
            r == self.cards@.len(),
    {
        self.cards.len()
    }

    /// A randomly selected card.
    ///
    /// The deck must hold a card; every deck compiled in does.
    pub fn random_str(&self) -> (r: &'static str)
        requires
            self.cards@.len() > 0,
        ensures
            self.cards@.contains(r),
    {
        let picked = random_below(self.cards.len());
        self.cards[picked]
    }

    /// A randomly selected card, as an owned string.
    pub fn random(&self) -> (r: String)
        requires
            self.cards@.len() > 0,
        ensures
            self.holds_text(r@),
    {
        let card = self.random_str();
        let r = card.to_string();
        let ghost i = choose|i: int| 0 <= i < self.cards@.len() && self.cards@[i] == card;
        assert(self.cards@[i]@ == r@);
        r
    }

    /// The cards that a partial Fisher-Yates shuffle with these picks puts on
    /// top: for each position in turn, the card `picks[position]` places
    /// further down is exchanged into it.
    pub fn deal(&self, picks: &[usize]) -> (r: Vec<&'static str>)
        requires
            valid_picks(picks@, self.cards@.len()),
        ensures
            r@ == dealt(self.cards@, picks@),
            r@.len() == picks@.len(),
            self.is_top_of_a_shuffle(r@),
    {
        let mut drawn = vstd::slice::slice_to_vec(self.cards);
        let len = drawn.len();
        let take = picks.len();
        let mut position: usize = 0;
        while position < take
            invariant
                position <= take <= len,
                take == picks@.len(),
                len == self.cards@.len(),
                valid_picks(picks@, len as nat),
                drawn@ == shuffled_front(self.cards@, picks@.take(position as int)),
                drawn@.len() == len,
                drawn@.to_multiset() == self.cards@.to_multiset(),
            decreases take - position,
        {
            assert(picks@[position as int] < len - position);
            let picked = position + picks[position];
            let a = drawn[position];
            let b = drawn[picked];
            let ghost before = drawn@;
            drawn.set(position, b);
            drawn.set(picked, a);
            assert(picks@.take(position + 1).drop_last() =~= picks@.take(position as int));
            assert(picks@.take(position + 1).last() == picks@[position as int]);
            assert(drawn@ =~= swapped(before, position as int, picked as int));
            assert(drawn@.to_multiset() == before.to_multiset()) by {
                let once = before.update(position as int, b);
                assert(once.to_multiset() == before.to_multiset().insert(b).remove(a));
                assert(once[picked as int] == b);
                assert(drawn@ == once.update(picked as int, a));
                assert(drawn@.to_multiset() == once.to_multiset().insert(a).remove(b));
                assert(before.to_multiset().count(b) > 0);
                assert(before.to_multiset().insert(b).remove(a).insert(a).remove(b)
                    =~= before.to_multiset());
            }
            position += 1;
        }
        assert(picks@.take(take as int) =~= picks@);
        let ghost order = drawn@;
        drawn.truncate(take);
        assert(drawn@ =~= order.take(take as int));
        drawn
    }

    /// Up to `count` randomly selected cards, drawn without replacement. If
    /// `count` exceeds the size of the deck, the whole deck, shuffled.
    ///
    /// The picks come from a generator forked from the thread-local one: for
    /// each position in turn, one below the number of cards not yet placed.
    /// `deal` does the rest. A one-card draw needs a card to draw; every deck
    /// compiled in has one.
    pub fn random_n_str(&self, count: usize) -> (r: Vec<&'static str>)
        requires
            count != 1 || self.cards@.len() > 0,
        ensures
            r@.len() == min(count as nat, self.cards@.len()),
            self.is_top_of_a_shuffle(r@),
            exists|picks: Seq<usize>|
                valid_picks(picks, self.cards@.len()) && picks.len() == r@.len() && r@
                    == #[trigger] dealt(self.cards@, picks),
            exists|state: u64|
                r@ == dealt(
                    self.cards@,
                    #[trigger] generator_picks(state, self.cards@.len(), 0, count as nat),
                ),
    {
        let len = self.cards.len();
        let take = if count < len {
            count
        } else {
            len
        };
        let seed = fresh_state();
        let mut state = seed;
        let mut picks: Vec<usize> = Vec::new();
        let mut position: usize = 0;
        while position < take
            invariant
                position <= take <= len,
                len == self.cards@.len(),
                take == min(count as nat, len as nat),
                picks@.len() == position,
                valid_picks(picks@, len as nat),
                picks@ + generator_picks(state, len as nat, position as nat, count as nat)
                    == generator_picks(seed, len as nat, 0, count as nat),
            decreases take - position,
        {
            let ghost before = picks@;
            let ghost rest = generator_picks(state, len as nat, position as nat, count as nat);
            let (next, pick) = below_from(state, len - position);
            assert(rest == seq![pick] + generator_picks(next, len as nat, (position + 1) as nat, count as nat));
            picks.push(pick);
            assert(picks@ + generator_picks(next, len as nat, (position + 1) as nat, count as nat)
                =~= before + rest);
            state = next;
            position += 1;
        }
        assert(generator_picks(state, len as nat, position as nat, count as nat) =~= Seq::<usize>::empty());
        assert(picks@ =~= generator_picks(seed, len as nat, 0, count as nat));
        let r = self.deal(picks.as_slice());
        assert(dealt(self.cards@, picks@) == r@);
        r
    }

    /// Up to `count` randomly selected cards, drawn without replacement, as
    /// owned strings.
    pub fn random_n(&self, count: usize) -> (r: Vec<String>)
        requires
            count != 1 || self.cards@.len() > 0,
        ensures
            r@.len() == min(count as nat, self.cards@.len()),
            exists|order: Seq<&'static str>|
                #[trigger] order.to_multiset() == self.cards@.to_multiset() && forall|i: int|
                    0 <= i < r@.len() ==> #[trigger] r@[i]@ == order[i]@,
            exists|picks: Seq<usize>|
                valid_picks(picks, self.cards@.len()) && picks.len() == r@.len() && forall|i: int|
                    0 <= i < r@.len() ==> #[trigger] r@[i]@ == dealt(self.cards@, picks)[i]@,
    {
        let drawn = self.random_n_str(count);
        let ghost picks = choose|picks: Seq<usize>|
            valid_picks(picks, self.cards@.len()) && picks.len() == drawn@.len() && drawn@
                == #[trigger] dealt(self.cards@, picks);
        let ghost order = choose|order: Seq<&'static str>|
            #[trigger] order.to_multiset() == self.cards@.to_multiset() && drawn@ == order.take(
                drawn@.len() as int,
            );
        assert(order.len() == self.cards@.len()) by {
            assert(order.to_multiset().len() == order.len());
            assert(self.cards@.to_multiset().len() == self.cards@.len());
        }
        let mut out: Vec<String> = Vec::new();
        let mut i: usize = 0;
        while i < drawn.len()
            invariant
                i <= drawn@.len(),
                drawn@.len() <= order.len(),
                out@.len() == i,
                drawn@ == order.take(drawn@.len() as int),
                forall|j: int| 0 <= j < i ==> #[trigger] out@[j]@ == order[j]@,
            decreases drawn@.len() - i,
        {
            let text = drawn[i].to_string();
            assert(drawn@[i as int] == order[i as int]);
            out.push(text);
            i += 1;
        }
        assert forall|i: int| 0 <= i < out@.len() implies #[trigger] out@[i]@ == dealt(
            self.cards@,
            picks,
        )[i]@ by {
            assert(out@[i]@ == order[i]@);
        }
        out
    }

    /// Every card containing `needle`, ignoring ASCII case, in the deck's own
    /// order. An empty needle matches every card.
    pub fn find(&self, needle: &str) -> (r: Vec<&'static str>)
        ensures
            r@ == self.spec_find(needle.spec_bytes()),
    {
        let ghost pred = matches_needle(needle.spec_bytes());
        let mut found: Vec<&'static str> = Vec::new();
        let mut i: usize = 0;
        while i < self.cards.len()
            invariant
                i <= self.cards@.len(),
                pred == matches_needle(needle.spec_bytes()),
                found@ == self.cards@.take(i as int).filter(pred),
            decreases self.cards@.len() - i,
        {
            let card = self.cards[i];
            let ghost before = self.cards@.take(i as int);
            assert(self.cards@.take(i + 1) =~= before.push(card));
            proof {
                before.lemma_filter_push(card, pred);
            }
            if contains_ignore_ascii_case(card, needle) {
                found.push(card);
            }
            i += 1;
        }
        assert(self.cards@.take(i as int) =~= self.cards@);
        found
    }

    /// This card's stable id, or `None` if no card of this deck reads `card`.
    ///
    /// The id is derived from the deck id and the card's text, so it survives
    /// cards being added, removed or reordered around it, and it changes when
    /// the card itself is reworded.
    pub fn id_of(&self, card: &str) -> (r: Option<CardId>)
        ensures
            r == (if self.holds_text(card@) {
                Some(CardId::spec_of(self.id@, card@))
            } else {
                None
            }),
    {
        let mut i: usize = 0;
        while i < self.cards.len()
            invariant
                i <= self.cards@.len(),
                forall|j: int| 0 <= j < i ==> #[trigger] self.cards@[j]@ != card@,
            decreases self.cards@.len() - i,
        {
            let held = self.cards[i];
            if same_text(held, card) {
                return Some(CardId::of(self.id, held));
            }
            i += 1;
        }
        None
    }

    /// The card with this id, or `None` if this deck holds no such card.
    pub fn card_by_id(&self, id: CardId) -> (r: Option<&'static str>)
        ensures
            r == self.spec_card_by_id(id),
    {
        let ghost pred = has_card_id(self.id@, id);
        let mut i: usize = 0;
        while i < self.cards.len()
            invariant
                i <= self.cards@.len(),
                pred == has_card_id(self.id@, id),
                first_match(self.cards@.take(i as int), pred) is None,
            decreases self.cards@.len() - i,
        {
            let card = self.cards[i];
            proof {
                lemma_first_match_step(self.cards@, pred, i as int);
            }
            if CardId::of(self.id, card) == id {
                proof {
                    lemma_first_match_extends(self.cards@, pred, i + 1, self.cards@.len() as int);
                    assert(self.cards@.take(self.cards@.len() as int) =~= self.cards@);
                }
                return Some(card);
            }
            i += 1;
        }
        assert(self.cards@.take(i as int) =~= self.cards@);
        None
    }

    /// The deck's name and id, as a listing opens with.
    pub fn to_string(&self) -> (r: String)
        ensures
            r@ == self.name@ + " ("@ + self.id@ + ")"@,
    {
        let mut text = self.name.to_string();
        text.append(" (");
        text.append(self.id);
        text.append(")");
        text
    }

    /// Every card that matches `needle` is in the result, and only those:
    /// in particular an empty needle gives back the whole deck, in order.
    pub proof fn lemma_empty_needle_finds_every_card(self)
        ensures
            self.spec_find(Seq::empty()) == self.cards@,
    {
        let pred = matches_needle(Seq::<u8>::empty());
        assert forall|i: int| 0 <= i <= self.cards@.len() implies #[trigger] self.cards@.take(i).filter(pred)
            == self.cards@.take(i) by {
            lemma_filter_all(self.cards@, pred, i);
        }
        assert(self.cards@.take(self.cards@.len() as int) =~= self.cards@);
    }

    /// Search is blind to case: asking with the needle uppercased finds the
    /// very same cards, in the same order.
    pub proof fn lemma_find_ignores_case(self, needle: Seq<u8>)
        ensures
            self.spec_find(crate::text::uppered(needle)) == self.spec_find(needle),
    {
        assert forall|card: &'static str| #[trigger] matches_needle(needle)(card) == matches_needle(
            crate::text::uppered(needle),
        )(card) by {
            crate::text::lemma_match_ignores_uppercase(card.spec_bytes(), needle);
        }
        assert(matches_needle(needle) =~= matches_needle(crate::text::uppered(needle)));
    }

    /// A card is found by its own text.
    pub proof fn lemma_every_card_finds_itself(self, i: int)
        requires
            0 <= i < self.cards@.len(),
        ensures
            self.spec_find(self.cards@[i].spec_bytes()).contains(self.cards@[i]),
    {
        let card = self.cards@[i];
        let bytes = card.spec_bytes();
        assert(bytes.subrange(0, bytes.len() as int) =~= bytes);
        assert(crate::text::window_matches(bytes, bytes, 0));
        self.cards@.lemma_filter_contains(matches_needle(bytes), i);
    }

    /// What `card_by_id` finds is a card of this deck whose id is the one
    /// asked for, and it finds nothing only when no card has that id.
    pub proof fn lemma_found_card_has_that_id(self, id: CardId)
        ensures
            self.spec_card_by_id(id) matches Some(card) ==> self.cards@.contains(card)
                && CardId::spec_of(self.id@, card@) == id,
            self.spec_card_by_id(id) is None <==> forall|i: int|
                0 <= i < self.cards@.len() ==> CardId::spec_of(self.id@, #[trigger] self.cards@[i]@)
                    != id,
    {
        lemma_first_match(self.cards@, has_card_id(self.id@, id));
    }

    /// A card whose id no earlier card of the deck shares is found again by
    /// that id.
    pub proof fn lemma_found_by_its_own_id(self, i: int)
        requires
            0 <= i < self.cards@.len(),
            forall|j: int|
                0 <= j < i ==> CardId::spec_of(self.id@, #[trigger] self.cards@[j]@)
                    != CardId::spec_of(self.id@, self.cards@[i]@),
        ensures
            self.spec_card_by_id(CardId::spec_of(self.id@, self.cards@[i]@)) == Some(
                self.cards@[i],
            ),
    {
        let id = CardId::spec_of(self.id@, self.cards@[i]@);
        let pred = has_card_id(self.id@, id);
        lemma_first_match(self.cards@.take(i), pred);
        assert forall|j: int| 0 <= j < i implies !pred(#[trigger] self.cards@.take(i)[j]) by {
            assert(self.cards@.take(i)[j] == self.cards@[j]);
        }
        lemma_first_match_step(self.cards@, pred, i);
        lemma_first_match_extends(self.cards@, pred, i + 1, self.cards@.len() as int);
        assert(self.cards@.take(self.cards@.len() as int) =~= self.cards@);
    }
}

/// Filtering by a predicate that every element meets changes nothing.
proof fn lemma_filter_all(s: Seq<&'static str>, pred: spec_fn(&'static str) -> bool, i: int)
    requires
        0 <= i <= s.len(),
        forall|k: int| 0 <= k < s.len() ==> pred(#[trigger] s[k]),
    ensures
        s.take(i).filter(pred) == s.take(i),
    decreases i,
{
    if i > 0 {
        lemma_filter_all(s, pred, i - 1);
        assert(s.take(i) =~= s.take(i - 1).push(s[i - 1]));
        s.take(i - 1).lemma_filter_push(s[i - 1], pred);
    }
}

} // verus!
