//! Finitude, stated plainly.
//!
//! Every card is written for this crate. The register comes from Marcus
//! Aurelius on losing only the present, Seneca on length not being the measure
//! of a life, Montaigne on the practice of thinking about dying, and the `ars
//! moriendi` tradition of treating death as a thing one is bad at for want of
//! rehearsal. No card quotes any of them, and none touches Rilke, whose letters
//! remain in copyright.
//!
//! `absurd` also deals in finitude; the two are kept apart by mood. That deck
//! provokes - it asks and it instructs. This one only states: no card here is a
//! question, which the crate's tests hold, and none opens with an imperative,
//! which is editorial.
//!
//! The deck withholds consolation, which the tradition does too. It is not
//! bleak on purpose: a good third of the cards turn back toward the ordinary
//! afternoon, because that is what Marcus and Seneca were arguing for.

use vstd::prelude::*;
use crate::deck::{in_order_from, plain_from};
use crate::text::{plain_from_char, plain_text, text_before};
use crate::{Deck, Provenance};

verus! {

/// The cards of the memento deck, sorted by their first line.
pub const CARDS: [&'static str; 76] = [
    "A grave is tended for about as long as someone remembers why.",
    "A life is mostly weather and errands, and it still counts.",
    "A long life and a short one arrive at the same place.",
    "A person who has lived a day has seen the pattern of all of it.",
    "Almost everyone who has ever lived is dead and was ordinary.",
    "An ordinary Tuesday is most of what a life is made of.",
    "Being finite makes nothing about today less real.",
    "Being forgotten is the arrangement, not a verdict.",
    "Childhood ended and no announcement was made.",
    "Dying is done badly for lack of practice.",
    "Every relationship ends in a departure or a death.",
    "Everyone now alive will be dead within about a hundred years.",
    "Everything built is either being maintained or is coming down.",
    "Funerals continue to be attended until one of them is yours.",
    "Grudges have a shelf life and it is shorter than it looks.",
    "Illness is not an interruption of a life. It is part of one.",
    "It will not be balanced out or made up for.",
    "Knowing it does not have to be constant. It has to be occasional.",
    "Libraries burn. Copies help, though not indefinitely.",
    "Most deaths happen in a room, on an unremarkable afternoon.",
    "Most of the dead are anonymous. That is the ordinary case, not a failure.",
    "Nobody is ready. Readiness was never among the options.",
    "Nobody loses a past, and nobody loses a future. Only the present is available to lose.",
    "Not promised\n\t-tomorrow\n\t-a warning\n\t-a reason",
    "Nothing about the ending makes the middle not worth having.",
    "Nothing is arranging this on anyone's behalf.",
    "Nothing is owed by the future to the present.",
    "Nothing is taken away that was not on loan.",
    "One of these ordinary mornings is the last one.",
    "Possessions are on loan and the term is not disclosed.",
    "Postponement is the only strategy that is guaranteed to fail.",
    "Roughly a third of a life is spent asleep, and that third is also the life.",
    "Someone loved will die first, or else you will.",
    "Someone will clear the house, and they will be in a hurry.",
    "Strength is on loan and the repayment is gradual.",
    "Suffering is not payment toward anything.",
    "The body keeps a schedule that was never shown to anyone.",
    "The body wears out in a roughly fixed order.",
    "The day is on a calendar that has already been printed.",
    "The dead of every era believed their era was the important one.",
    "The dead outnumber the living and always will.",
    "The dead would take this ordinary afternoon without hesitating.",
    "The ending does not supply a meaning to what came before.",
    "The famous of one century go unread in the century after next.",
    "The fear of it is larger than it, and arrives much earlier.",
    "The good hours were not the ones announced in advance.",
    "The important conversation has a deadline that is not published.",
    "The languages that carried the important books are mostly gone.",
    "The last person who will remember you is alive now, or is not yet born.",
    "The length of a life is not the measure of it.",
    "The middle of a life is only identifiable afterwards.",
    "The number of days remaining is a specific number.",
    "The paperwork after a death is done by someone who loved the dead.",
    "The people alive alongside you are alive now, and that is the whole offer.",
    "The reconciliation happens now or does not happen.",
    "The same end reaches the diligent and the idle.",
    "The shortness is the reason it counts, not an argument against it.",
    "The species is recent and the planet is not.",
    "The stars visible tonight were visible to people who are entirely gone.",
    "The thought is duller with practice, not larger.",
    "The unfairness is not an error in the system.",
    "The work outlasts the worker, and then it does not.",
    "The years already used are not available for revision.",
    "There are people already seen for the last time.",
    "There have been about a hundred billion. The number is not comforting or cruel.",
    "There is no lesson in it. It is what happens.",
    "There is time for one or two things, which is not the same as none.",
    "There will be a last time for everything done regularly.",
    "Two facts\n\t-the day exists\n\t-the date is unknown",
    "Waiting is not a preliminary to the life. It is some of it.",
    "What goes unsaid at the end stays unsaid.",
    "What is on loan\n\t-the body\n\t-the time\n\t-the people",
    "Whether the life was long or short, what is lost is the same: now.",
    "Whole cities are under fields.",
    "Within three generations no one will remember a face.",
    "Your great-great-grandparents had names you do not know.",
];

/// The memento deck, as its contents stand.
pub open spec fn spec_deck() -> Deck {
    Deck {
        id: "memento",
        name: "Memento",
        blurb: "Finitude, stated plainly.",
        provenance: Provenance::Original,
        cards: vstd::array::spec_array_as_slice(&CARDS),
    }
}

/// The memento deck.
#[verifier::when_used_as_spec(spec_deck)]
pub fn deck() -> (d: Deck)
    ensures
        d == spec_deck(),
{
    Deck {
        id: "memento",
        name: "Memento",
        blurb: "Finitude, stated plainly.",
        provenance: Provenance::Original,
        cards: &CARDS,
    }
}

/// The cards are in strictly increasing text order, so no two read alike.
pub proof fn lemma_cards_in_order()
    ensures
        in_order_from(spec_deck().cards@, 0),
{
    broadcast use vstd::array::group_array_axioms;

    let cards = spec_deck().cards@;
    assert(cards.len() == 76);
    assert(text_before(cards[0]@, cards[1]@)) by {
        reveal_strlit("A grave is tended for about as long as someone remembers why.");
        reveal_strlit("A life is mostly weather and errands, and it still counts.");
        assert(cards[0] == "A grave is tended for about as long as someone remembers why.");
        assert(cards[1] == "A life is mostly weather and errands, and it still counts.");
        reveal_with_fuel(text_before, 4);
    }
    assert(text_before(cards[1]@, cards[2]@)) by {
        reveal_strlit("A life is mostly weather and errands, and it still counts.");
        reveal_strlit("A long life and a short one arrive at the same place.");
        assert(cards[1] == "A life is mostly weather and errands, and it still counts.");
        assert(cards[2] == "A long life and a short one arrive at the same place.");
        reveal_with_fuel(text_before, 5);
    }
    assert(text_before(cards[2]@, cards[3]@)) by {
        reveal_strlit("A long life and a short one arrive at the same place.");
        reveal_strlit("A person who has lived a day has seen the pattern of all of it.");
        assert(cards[2] == "A long life and a short one arrive at the same place.");
        assert(cards[3] == "A person who has lived a day has seen the pattern of all of it.");
        reveal_with_fuel(text_before, 4);
    }
    assert(text_before(cards[3]@, cards[4]@)) by {
        reveal_strlit("A person who has lived a day has seen the pattern of all of it.");
        reveal_strlit("Almost everyone who has ever lived is dead and was ordinary.");
        assert(cards[3] == "A person who has lived a day has seen the pattern of all of it.");
        assert(cards[4] == "Almost everyone who has ever lived is dead and was ordinary.");
        reveal_with_fuel(text_before, 3);
    }
    assert(text_before(cards[4]@, cards[5]@)) by {
        reveal_strlit("Almost everyone who has ever lived is dead and was ordinary.");
        reveal_strlit("An ordinary Tuesday is most of what a life is made of.");
        assert(cards[4] == "Almost everyone who has ever lived is dead and was ordinary.");
        assert(cards[5] == "An ordinary Tuesday is most of what a life is made of.");
        reveal_with_fuel(text_before, 3);
    }
    assert(text_before(cards[5]@, cards[6]@)) by {
        reveal_strlit("An ordinary Tuesday is most of what a life is made of.");
        reveal_strlit("Being finite makes nothing about today less real.");
        assert(cards[5] == "An ordinary Tuesday is most of what a life is made of.");
        assert(cards[6] == "Being finite makes nothing about today less real.");
        reveal_with_fuel(text_before, 2);
    }
    assert(text_before(cards[6]@, cards[7]@)) by {
        reveal_strlit("Being finite makes nothing about today less real.");
        reveal_strlit("Being forgotten is the arrangement, not a verdict.");
        assert(cards[6] == "Being finite makes nothing about today less real.");
        assert(cards[7] == "Being forgotten is the arrangement, not a verdict.");
        reveal_with_fuel(text_before, 9);
    }
    assert(text_before(cards[7]@, cards[8]@)) by {
        reveal_strlit("Being forgotten is the arrangement, not a verdict.");
        reveal_strlit("Childhood ended and no announcement was made.");
        assert(cards[7] == "Being forgotten is the arrangement, not a verdict.");
        assert(cards[8] == "Childhood ended and no announcement was made.");
        reveal_with_fuel(text_before, 2);
    }
    assert(text_before(cards[8]@, cards[9]@)) by {
        reveal_strlit("Childhood ended and no announcement was made.");
        reveal_strlit("Dying is done badly for lack of practice.");
        assert(cards[8] == "Childhood ended and no announcement was made.");
        assert(cards[9] == "Dying is done badly for lack of practice.");
        reveal_with_fuel(text_before, 2);
    }
    assert(text_before(cards[9]@, cards[10]@)) by {
        reveal_strlit("Dying is done badly for lack of practice.");
        reveal_strlit("Every relationship ends in a departure or a death.");
        assert(cards[9] == "Dying is done badly for lack of practice.");
        assert(cards[10] == "Every relationship ends in a departure or a death.");
        reveal_with_fuel(text_before, 2);
    }
    assert(text_before(cards[10]@, cards[11]@)) by {
        reveal_strlit("Every relationship ends in a departure or a death.");
        reveal_strlit("Everyone now alive will be dead within about a hundred years.");
        assert(cards[10] == "Every relationship ends in a departure or a death.");
        assert(cards[11] == "Everyone now alive will be dead within about a hundred years.");
        reveal_with_fuel(text_before, 7);
    }
    assert(text_before(cards[11]@, cards[12]@)) by {
        reveal_strlit("Everyone now alive will be dead within about a hundred years.");
        reveal_strlit("Everything built is either being maintained or is coming down.");
        assert(cards[11] == "Everyone now alive will be dead within about a hundred years.");
        assert(cards[12] == "Everything built is either being maintained or is coming down.");
        reveal_with_fuel(text_before, 7);
    }
    assert(text_before(cards[12]@, cards[13]@)) by {
        reveal_strlit("Everything built is either being maintained or is coming down.");
        reveal_strlit("Funerals continue to be attended until one of them is yours.");
        assert(cards[12] == "Everything built is either being maintained or is coming down.");
        assert(cards[13] == "Funerals continue to be attended until one of them is yours.");
        reveal_with_fuel(text_before, 2);
    }
    assert(text_before(cards[13]@, cards[14]@)) by {
        reveal_strlit("Funerals continue to be attended until one of them is yours.");
        reveal_strlit("Grudges have a shelf life and it is shorter than it looks.");
        assert(cards[13] == "Funerals continue to be attended until one of them is yours.");
        assert(cards[14] == "Grudges have a shelf life and it is shorter than it looks.");
        reveal_with_fuel(text_before, 2);
    }
    assert(text_before(cards[14]@, cards[15]@)) by {
        reveal_strlit("Grudges have a shelf life and it is shorter than it looks.");
        reveal_strlit("Illness is not an interruption of a life. It is part of one.");
        assert(cards[14] == "Grudges have a shelf life and it is shorter than it looks.");
        assert(cards[15] == "Illness is not an interruption of a life. It is part of one.");
        reveal_with_fuel(text_before, 2);
    }
    assert(text_before(cards[15]@, cards[16]@)) by {
        reveal_strlit("Illness is not an interruption of a life. It is part of one.");
        reveal_strlit("It will not be balanced out or made up for.");
        assert(cards[15] == "Illness is not an interruption of a life. It is part of one.");
        assert(cards[16] == "It will not be balanced out or made up for.");
        reveal_with_fuel(text_before, 3);
    }
    assert(text_before(cards[16]@, cards[17]@)) by {
        reveal_strlit("It will not be balanced out or made up for.");
        reveal_strlit("Knowing it does not have to be constant. It has to be occasional.");
        assert(cards[16] == "It will not be balanced out or made up for.");
        assert(cards[17] == "Knowing it does not have to be constant. It has to be occasional.");
        reveal_with_fuel(text_before, 2);
    }
    assert(text_before(cards[17]@, cards[18]@)) by {
        reveal_strlit("Knowing it does not have to be constant. It has to be occasional.");
        reveal_strlit("Libraries burn. Copies help, though not indefinitely.");
        assert(cards[17] == "Knowing it does not have to be constant. It has to be occasional.");
        assert(cards[18] == "Libraries burn. Copies help, though not indefinitely.");
        reveal_with_fuel(text_before, 2);
    }
    assert(text_before(cards[18]@, cards[19]@)) by {
        reveal_strlit("Libraries burn. Copies help, though not indefinitely.");
        reveal_strlit("Most deaths happen in a room, on an unremarkable afternoon.");
        assert(cards[18] == "Libraries burn. Copies help, though not indefinitely.");
        assert(cards[19] == "Most deaths happen in a room, on an unremarkable afternoon.");
        reveal_with_fuel(text_before, 2);
    }
    assert(text_before(cards[19]@, cards[20]@)) by {
        reveal_strlit("Most deaths happen in a room, on an unremarkable afternoon.");
        reveal_strlit("Most of the dead are anonymous. That is the ordinary case, not a failure.");
        assert(cards[19] == "Most deaths happen in a room, on an unremarkable afternoon.");
        assert(cards[20] == "Most of the dead are anonymous. That is the ordinary case, not a failure.");
        reveal_with_fuel(text_before, 7);
    }
    assert(text_before(cards[20]@, cards[21]@)) by {
        reveal_strlit("Most of the dead are anonymous. That is the ordinary case, not a failure.");
        reveal_strlit("Nobody is ready. Readiness was never among the options.");
        assert(cards[20] == "Most of the dead are anonymous. That is the ordinary case, not a failure.");
        assert(cards[21] == "Nobody is ready. Readiness was never among the options.");
        reveal_with_fuel(text_before, 2);
    }
    assert(text_before(cards[21]@, cards[22]@)) by {
        reveal_strlit("Nobody is ready. Readiness was never among the options.");
        reveal_strlit("Nobody loses a past, and nobody loses a future. Only the present is available to lose.");
        assert(cards[21] == "Nobody is ready. Readiness was never among the options.");
        assert(cards[22] == "Nobody loses a past, and nobody loses a future. Only the present is available to lose.");
        reveal_with_fuel(text_before, 9);
    }
    assert(text_before(cards[22]@, cards[23]@)) by {
        reveal_strlit("Nobody loses a past, and nobody loses a future. Only the present is available to lose.");
        reveal_strlit("Not promised\n\t-tomorrow\n\t-a warning\n\t-a reason");
        assert(cards[22] == "Nobody loses a past, and nobody loses a future. Only the present is available to lose.");
        assert(cards[23] == "Not promised\n\t-tomorrow\n\t-a warning\n\t-a reason");
        reveal_with_fuel(text_before, 4);
    }
    assert(text_before(cards[23]@, cards[24]@)) by {
        reveal_strlit("Not promised\n\t-tomorrow\n\t-a warning\n\t-a reason");
        reveal_strlit("Nothing about the ending makes the middle not worth having.");
        assert(cards[23] == "Not promised\n\t-tomorrow\n\t-a warning\n\t-a reason");
        assert(cards[24] == "Nothing about the ending makes the middle not worth having.");
        reveal_with_fuel(text_before, 5);
    }
    assert(text_before(cards[24]@, cards[25]@)) by {
        reveal_strlit("Nothing about the ending makes the middle not worth having.");
        reveal_strlit("Nothing is arranging this on anyone's behalf.");
        assert(cards[24] == "Nothing about the ending makes the middle not worth having.");
        assert(cards[25] == "Nothing is arranging this on anyone's behalf.");
        reveal_with_fuel(text_before, 10);
    }
    assert(text_before(cards[25]@, cards[26]@)) by {
        reveal_strlit("Nothing is arranging this on anyone's behalf.");
        reveal_strlit("Nothing is owed by the future to the present.");
        assert(cards[25] == "Nothing is arranging this on anyone's behalf.");
        assert(cards[26] == "Nothing is owed by the future to the present.");
        reveal_with_fuel(text_before, 13);
    }
    assert(text_before(cards[26]@, cards[27]@)) by {
        reveal_strlit("Nothing is owed by the future to the present.");
        reveal_strlit("Nothing is taken away that was not on loan.");
        assert(cards[26] == "Nothing is owed by the future to the present.");
        assert(cards[27] == "Nothing is taken away that was not on loan.");
        reveal_with_fuel(text_before, 13);
    }
    assert(text_before(cards[27]@, cards[28]@)) by {
        reveal_strlit("Nothing is taken away that was not on loan.");
        reveal_strlit("One of these ordinary mornings is the last one.");
        assert(cards[27] == "Nothing is taken away that was not on loan.");
        assert(cards[28] == "One of these ordinary mornings is the last one.");
        reveal_with_fuel(text_before, 2);
    }
    assert(text_before(cards[28]@, cards[29]@)) by {
        reveal_strlit("One of these ordinary mornings is the last one.");
        reveal_strlit("Possessions are on loan and the term is not disclosed.");
        assert(cards[28] == "One of these ordinary mornings is the last one.");
        assert(cards[29] == "Possessions are on loan and the term is not disclosed.");
        reveal_with_fuel(text_before, 2);
    }
    assert(text_before(cards[29]@, cards[30]@)) by {
        reveal_strlit("Possessions are on loan and the term is not disclosed.");
        reveal_strlit("Postponement is the only strategy that is guaranteed to fail.");
        assert(cards[29] == "Possessions are on loan and the term is not disclosed.");
        assert(cards[30] == "Postponement is the only strategy that is guaranteed to fail.");
        reveal_with_fuel(text_before, 5);
    }
    assert(text_before(cards[30]@, cards[31]@)) by {
        reveal_strlit("Postponement is the only strategy that is guaranteed to fail.");
        reveal_strlit("Roughly a third of a life is spent asleep, and that third is also the life.");
        assert(cards[30] == "Postponement is the only strategy that is guaranteed to fail.");
        assert(cards[31] == "Roughly a third of a life is spent asleep, and that third is also the life.");
        reveal_with_fuel(text_before, 2);
    }
    assert(text_before(cards[31]@, cards[32]@)) by {
        reveal_strlit("Roughly a third of a life is spent asleep, and that third is also the life.");
        reveal_strlit("Someone loved will die first, or else you will.");
        assert(cards[31] == "Roughly a third of a life is spent asleep, and that third is also the life.");
        assert(cards[32] == "Someone loved will die first, or else you will.");
        reveal_with_fuel(text_before, 2);
    }
    assert(text_before(cards[32]@, cards[33]@)) by {
        reveal_strlit("Someone loved will die first, or else you will.");
        reveal_strlit("Someone will clear the house, and they will be in a hurry.");
        assert(cards[32] == "Someone loved will die first, or else you will.");
        assert(cards[33] == "Someone will clear the house, and they will be in a hurry.");
        reveal_with_fuel(text_before, 10);
    }
    assert(text_before(cards[33]@, cards[34]@)) by {
        reveal_strlit("Someone will clear the house, and they will be in a hurry.");
        reveal_strlit("Strength is on loan and the repayment is gradual.");
        assert(cards[33] == "Someone will clear the house, and they will be in a hurry.");
        assert(cards[34] == "Strength is on loan and the repayment is gradual.");
        reveal_with_fuel(text_before, 3);
    }
    assert(text_before(cards[34]@, cards[35]@)) by {
        reveal_strlit("Strength is on loan and the repayment is gradual.");
        reveal_strlit("Suffering is not payment toward anything.");
        assert(cards[34] == "Strength is on loan and the repayment is gradual.");
        assert(cards[35] == "Suffering is not payment toward anything.");
        reveal_with_fuel(text_before, 3);
    }
    assert(text_before(cards[35]@, cards[36]@)) by {
        reveal_strlit("Suffering is not payment toward anything.");
        reveal_strlit("The body keeps a schedule that was never shown to anyone.");
        assert(cards[35] == "Suffering is not payment toward anything.");
        assert(cards[36] == "The body keeps a schedule that was never shown to anyone.");
        reveal_with_fuel(text_before, 2);
    }
    assert(text_before(cards[36]@, cards[37]@)) by {
        reveal_strlit("The body keeps a schedule that was never shown to anyone.");
        reveal_strlit("The body wears out in a roughly fixed order.");
        assert(cards[36] == "The body keeps a schedule that was never shown to anyone.");
        assert(cards[37] == "The body wears out in a roughly fixed order.");
        reveal_with_fuel(text_before, 11);
    }
    assert(text_before(cards[37]@, cards[38]@)) by {
        reveal_strlit("The body wears out in a roughly fixed order.");
        reveal_strlit("The day is on a calendar that has already been printed.");
        assert(cards[37] == "The body wears out in a roughly fixed order.");
        assert(cards[38] == "The day is on a calendar that has already been printed.");
        reveal_with_fuel(text_before, 6);
    }
    assert(text_before(cards[38]@, cards[39]@)) by {
        reveal_strlit("The day is on a calendar that has already been printed.");
        reveal_strlit("The dead of every era believed their era was the important one.");
        assert(cards[38] == "The day is on a calendar that has already been printed.");
        assert(cards[39] == "The dead of every era believed their era was the important one.");
        reveal_with_fuel(text_before, 7);
    }
    assert(text_before(cards[39]@, cards[40]@)) by {
        reveal_strlit("The dead of every era believed their era was the important one.");
        reveal_strlit("The dead outnumber the living and always will.");
        assert(cards[39] == "The dead of every era believed their era was the important one.");
        assert(cards[40] == "The dead outnumber the living and always will.");
        reveal_with_fuel(text_before, 12);
    }
    assert(text_before(cards[40]@, cards[41]@)) by {
        reveal_strlit("The dead outnumber the living and always will.");
        reveal_strlit("The dead would take this ordinary afternoon without hesitating.");
        assert(cards[40] == "The dead outnumber the living and always will.");
        assert(cards[41] == "The dead would take this ordinary afternoon without hesitating.");
        reveal_with_fuel(text_before, 11);
    }
    assert(text_before(cards[41]@, cards[42]@)) by {
        reveal_strlit("The dead would take this ordinary afternoon without hesitating.");
        reveal_strlit("The ending does not supply a meaning to what came before.");
        assert(cards[41] == "The dead would take this ordinary afternoon without hesitating.");
        assert(cards[42] == "The ending does not supply a meaning to what came before.");
        reveal_with_fuel(text_before, 6);
    }
    assert(text_before(cards[42]@, cards[43]@)) by {
        reveal_strlit("The ending does not supply a meaning to what came before.");
        reveal_strlit("The famous of one century go unread in the century after next.");
        assert(cards[42] == "The ending does not supply a meaning to what came before.");
        assert(cards[43] == "The famous of one century go unread in the century after next.");
        reveal_with_fuel(text_before, 6);
    }
    assert(text_before(cards[43]@, cards[44]@)) by {
        reveal_strlit("The famous of one century go unread in the century after next.");
        reveal_strlit("The fear of it is larger than it, and arrives much earlier.");
        assert(cards[43] == "The famous of one century go unread in the century after next.");
        assert(cards[44] == "The fear of it is larger than it, and arrives much earlier.");
        reveal_with_fuel(text_before, 7);
    }
    assert(text_before(cards[44]@, cards[45]@)) by {
        reveal_strlit("The fear of it is larger than it, and arrives much earlier.");
        reveal_strlit("The good hours were not the ones announced in advance.");
        assert(cards[44] == "The fear of it is larger than it, and arrives much earlier.");
        assert(cards[45] == "The good hours were not the ones announced in advance.");
        reveal_with_fuel(text_before, 6);
    }
    assert(text_before(cards[45]@, cards[46]@)) by {
        reveal_strlit("The good hours were not the ones announced in advance.");
        reveal_strlit("The important conversation has a deadline that is not published.");
        assert(cards[45] == "The good hours were not the ones announced in advance.");
        assert(cards[46] == "The important conversation has a deadline that is not published.");
        reveal_with_fuel(text_before, 6);
    }
    assert(text_before(cards[46]@, cards[47]@)) by {
        reveal_strlit("The important conversation has a deadline that is not published.");
        reveal_strlit("The languages that carried the important books are mostly gone.");
        assert(cards[46] == "The important conversation has a deadline that is not published.");
        assert(cards[47] == "The languages that carried the important books are mostly gone.");
        reveal_with_fuel(text_before, 6);
    }
    assert(text_before(cards[47]@, cards[48]@)) by {
        reveal_strlit("The languages that carried the important books are mostly gone.");
        reveal_strlit("The last person who will remember you is alive now, or is not yet born.");
        assert(cards[47] == "The languages that carried the important books are mostly gone.");
        assert(cards[48] == "The last person who will remember you is alive now, or is not yet born.");
        reveal_with_fuel(text_before, 8);
    }
    assert(text_before(cards[48]@, cards[49]@)) by {
        reveal_strlit("The last person who will remember you is alive now, or is not yet born.");
        reveal_strlit("The length of a life is not the measure of it.");
        assert(cards[48] == "The last person who will remember you is alive now, or is not yet born.");
        assert(cards[49] == "The length of a life is not the measure of it.");
        reveal_with_fuel(text_before, 7);
    }
    assert(text_before(cards[49]@, cards[50]@)) by {
        reveal_strlit("The length of a life is not the measure of it.");
        reveal_strlit("The middle of a life is only identifiable afterwards.");
        assert(cards[49] == "The length of a life is not the measure of it.");
        assert(cards[50] == "The middle of a life is only identifiable afterwards.");
        reveal_with_fuel(text_before, 6);
    }
    assert(text_before(cards[50]@, cards[51]@)) by {
        reveal_strlit("The middle of a life is only identifiable afterwards.");
        reveal_strlit("The number of days remaining is a specific number.");
        assert(cards[50] == "The middle of a life is only identifiable afterwards.");
        assert(cards[51] == "The number of days remaining is a specific number.");
        reveal_with_fuel(text_before, 6);
    }
    assert(text_before(cards[51]@, cards[52]@)) by {
        reveal_strlit("The number of days remaining is a specific number.");
        reveal_strlit("The paperwork after a death is done by someone who loved the dead.");
        assert(cards[51] == "The number of days remaining is a specific number.");
        assert(cards[52] == "The paperwork after a death is done by someone who loved the dead.");
        reveal_with_fuel(text_before, 6);
    }
    assert(text_before(cards[52]@, cards[53]@)) by {
        reveal_strlit("The paperwork after a death is done by someone who loved the dead.");
        reveal_strlit("The people alive alongside you are alive now, and that is the whole offer.");
        assert(cards[52] == "The paperwork after a death is done by someone who loved the dead.");
        assert(cards[53] == "The people alive alongside you are alive now, and that is the whole offer.");
        reveal_with_fuel(text_before, 7);
    }
    assert(text_before(cards[53]@, cards[54]@)) by {
        reveal_strlit("The people alive alongside you are alive now, and that is the whole offer.");
        reveal_strlit("The reconciliation happens now or does not happen.");
        assert(cards[53] == "The people alive alongside you are alive now, and that is the whole offer.");
        assert(cards[54] == "The reconciliation happens now or does not happen.");
        reveal_with_fuel(text_before, 6);
    }
    assert(text_before(cards[54]@, cards[55]@)) by {
        reveal_strlit("The reconciliation happens now or does not happen.");
        reveal_strlit("The same end reaches the diligent and the idle.");
        assert(cards[54] == "The reconciliation happens now or does not happen.");
        assert(cards[55] == "The same end reaches the diligent and the idle.");
        reveal_with_fuel(text_before, 6);
    }
    assert(text_before(cards[55]@, cards[56]@)) by {
        reveal_strlit("The same end reaches the diligent and the idle.");
        reveal_strlit("The shortness is the reason it counts, not an argument against it.");
        assert(cards[55] == "The same end reaches the diligent and the idle.");
        assert(cards[56] == "The shortness is the reason it counts, not an argument against it.");
        reveal_with_fuel(text_before, 7);
    }
    assert(text_before(cards[56]@, cards[57]@)) by {
        reveal_strlit("The shortness is the reason it counts, not an argument against it.");
        reveal_strlit("The species is recent and the planet is not.");
        assert(cards[56] == "The shortness is the reason it counts, not an argument against it.");
        assert(cards[57] == "The species is recent and the planet is not.");
        reveal_with_fuel(text_before, 7);
    }
    assert(text_before(cards[57]@, cards[58]@)) by {
        reveal_strlit("The species is recent and the planet is not.");
        reveal_strlit("The stars visible tonight were visible to people who are entirely gone.");
        assert(cards[57] == "The species is recent and the planet is not.");
        assert(cards[58] == "The stars visible tonight were visible to people who are entirely gone.");
        reveal_with_fuel(text_before, 7);
    }
    assert(text_before(cards[58]@, cards[59]@)) by {
        reveal_strlit("The stars visible tonight were visible to people who are entirely gone.");
        reveal_strlit("The thought is duller with practice, not larger.");
        assert(cards[58] == "The stars visible tonight were visible to people who are entirely gone.");
        assert(cards[59] == "The thought is duller with practice, not larger.");
        reveal_with_fuel(text_before, 6);
    }
    assert(text_before(cards[59]@, cards[60]@)) by {
        reveal_strlit("The thought is duller with practice, not larger.");
        reveal_strlit("The unfairness is not an error in the system.");
        assert(cards[59] == "The thought is duller with practice, not larger.");
        assert(cards[60] == "The unfairness is not an error in the system.");
        reveal_with_fuel(text_before, 6);
    }
    assert(text_before(cards[60]@, cards[61]@)) by {
        reveal_strlit("The unfairness is not an error in the system.");
        reveal_strlit("The work outlasts the worker, and then it does not.");
        assert(cards[60] == "The unfairness is not an error in the system.");
        assert(cards[61] == "The work outlasts the worker, and then it does not.");
        reveal_with_fuel(text_before, 6);
    }
    assert(text_before(cards[61]@, cards[62]@)) by {
        reveal_strlit("The work outlasts the worker, and then it does not.");
        reveal_strlit("The years already used are not available for revision.");
        assert(cards[61] == "The work outlasts the worker, and then it does not.");
        assert(cards[62] == "The years already used are not available for revision.");
        reveal_with_fuel(text_before, 6);
    }
    assert(text_before(cards[62]@, cards[63]@)) by {
        reveal_strlit("The years already used are not available for revision.");
        reveal_strlit("There are people already seen for the last time.");
        assert(cards[62] == "The years already used are not available for revision.");
        assert(cards[63] == "There are people already seen for the last time.");
        reveal_with_fuel(text_before, 5);
    }
    assert(text_before(cards[63]@, cards[64]@)) by {
        reveal_strlit("There are people already seen for the last time.");
        reveal_strlit("There have been about a hundred billion. The number is not comforting or cruel.");
        assert(cards[63] == "There are people already seen for the last time.");
        assert(cards[64] == "There have been about a hundred billion. The number is not comforting or cruel.");
        reveal_with_fuel(text_before, 8);
    }
    assert(text_before(cards[64]@, cards[65]@)) by {
        reveal_strlit("There have been about a hundred billion. The number is not comforting or cruel.");
        reveal_strlit("There is no lesson in it. It is what happens.");
        assert(cards[64] == "There have been about a hundred billion. The number is not comforting or cruel.");
        assert(cards[65] == "There is no lesson in it. It is what happens.");
        reveal_with_fuel(text_before, 8);
    }
    assert(text_before(cards[65]@, cards[66]@)) by {
        reveal_strlit("There is no lesson in it. It is what happens.");
        reveal_strlit("There is time for one or two things, which is not the same as none.");
        assert(cards[65] == "There is no lesson in it. It is what happens.");
        assert(cards[66] == "There is time for one or two things, which is not the same as none.");
        reveal_with_fuel(text_before, 11);
    }
    assert(text_before(cards[66]@, cards[67]@)) by {
        reveal_strlit("There is time for one or two things, which is not the same as none.");
        reveal_strlit("There will be a last time for everything done regularly.");
        assert(cards[66] == "There is time for one or two things, which is not the same as none.");
        assert(cards[67] == "There will be a last time for everything done regularly.");
        reveal_with_fuel(text_before, 8);
    }
    assert(text_before(cards[67]@, cards[68]@)) by {
        reveal_strlit("There will be a last time for everything done regularly.");
        reveal_strlit("Two facts\n\t-the day exists\n\t-the date is unknown");
        assert(cards[67] == "There will be a last time for everything done regularly.");
        assert(cards[68] == "Two facts\n\t-the day exists\n\t-the date is unknown");
        reveal_with_fuel(text_before, 3);
    }
    assert(text_before(cards[68]@, cards[69]@)) by {
        reveal_strlit("Two facts\n\t-the day exists\n\t-the date is unknown");
        reveal_strlit("Waiting is not a preliminary to the life. It is some of it.");
        assert(cards[68] == "Two facts\n\t-the day exists\n\t-the date is unknown");
        assert(cards[69] == "Waiting is not a preliminary to the life. It is some of it.");
        reveal_with_fuel(text_before, 2);
    }
    assert(text_before(cards[69]@, cards[70]@)) by {
        reveal_strlit("Waiting is not a preliminary to the life. It is some of it.");
        reveal_strlit("What goes unsaid at the end stays unsaid.");
        assert(cards[69] == "Waiting is not a preliminary to the life. It is some of it.");
        assert(cards[70] == "What goes unsaid at the end stays unsaid.");
        reveal_with_fuel(text_before, 3);
    }
    assert(text_before(cards[70]@, cards[71]@)) by {
        reveal_strlit("What goes unsaid at the end stays unsaid.");
        reveal_strlit("What is on loan\n\t-the body\n\t-the time\n\t-the people");
        assert(cards[70] == "What goes unsaid at the end stays unsaid.");
        assert(cards[71] == "What is on loan\n\t-the body\n\t-the time\n\t-the people");
        reveal_with_fuel(text_before, 7);
    }
    assert(text_before(cards[71]@, cards[72]@)) by {
        reveal_strlit("What is on loan\n\t-the body\n\t-the time\n\t-the people");
        reveal_strlit("Whether the life was long or short, what is lost is the same: now.");
        assert(cards[71] == "What is on loan\n\t-the body\n\t-the time\n\t-the people");
        assert(cards[72] == "Whether the life was long or short, what is lost is the same: now.");
        reveal_with_fuel(text_before, 4);
    }
    assert(text_before(cards[72]@, cards[73]@)) by {
        reveal_strlit("Whether the life was long or short, what is lost is the same: now.");
        reveal_strlit("Whole cities are under fields.");
        assert(cards[72] == "Whether the life was long or short, what is lost is the same: now.");
        assert(cards[73] == "Whole cities are under fields.");
        reveal_with_fuel(text_before, 4);
    }
    assert(text_before(cards[73]@, cards[74]@)) by {
        reveal_strlit("Whole cities are under fields.");
        reveal_strlit("Within three generations no one will remember a face.");
        assert(cards[73] == "Whole cities are under fields.");
        assert(cards[74] == "Within three generations no one will remember a face.");
        reveal_with_fuel(text_before, 3);
    }
    assert(text_before(cards[74]@, cards[75]@)) by {
        reveal_strlit("Within three generations no one will remember a face.");
        reveal_strlit("Your great-great-grandparents had names you do not know.");
        assert(cards[74] == "Within three generations no one will remember a face.");
        assert(cards[75] == "Your great-great-grandparents had names you do not know.");
        reveal_with_fuel(text_before, 2);
    }
    assert(in_order_from(cards, 75));
    assert(in_order_from(cards, 74));
    assert(in_order_from(cards, 73));
    assert(in_order_from(cards, 72));
    assert(in_order_from(cards, 71));
    assert(in_order_from(cards, 70));
    assert(in_order_from(cards, 69));
    assert(in_order_from(cards, 68));
    assert(in_order_from(cards, 67));
    assert(in_order_from(cards, 66));
    assert(in_order_from(cards, 65));
    assert(in_order_from(cards, 64));
    assert(in_order_from(cards, 63));
    assert(in_order_from(cards, 62));
    assert(in_order_from(cards, 61));
    assert(in_order_from(cards, 60));
    assert(in_order_from(cards, 59));
    assert(in_order_from(cards, 58));
    assert(in_order_from(cards, 57));
    assert(in_order_from(cards, 56));
    assert(in_order_from(cards, 55));
    assert(in_order_from(cards, 54));
    assert(in_order_from(cards, 53));
    assert(in_order_from(cards, 52));
    assert(in_order_from(cards, 51));
    assert(in_order_from(cards, 50));
    assert(in_order_from(cards, 49));
    assert(in_order_from(cards, 48));
    assert(in_order_from(cards, 47));
    assert(in_order_from(cards, 46));
    assert(in_order_from(cards, 45));
    assert(in_order_from(cards, 44));
    assert(in_order_from(cards, 43));
    assert(in_order_from(cards, 42));
    assert(in_order_from(cards, 41));
    assert(in_order_from(cards, 40));
    assert(in_order_from(cards, 39));
    assert(in_order_from(cards, 38));
    assert(in_order_from(cards, 37));
    assert(in_order_from(cards, 36));
    assert(in_order_from(cards, 35));
    assert(in_order_from(cards, 34));
    assert(in_order_from(cards, 33));
    assert(in_order_from(cards, 32));
    assert(in_order_from(cards, 31));
    assert(in_order_from(cards, 30));
    assert(in_order_from(cards, 29));
    assert(in_order_from(cards, 28));
    assert(in_order_from(cards, 27));
    assert(in_order_from(cards, 26));
    assert(in_order_from(cards, 25));
    assert(in_order_from(cards, 24));
    assert(in_order_from(cards, 23));
    assert(in_order_from(cards, 22));
    assert(in_order_from(cards, 21));
    assert(in_order_from(cards, 20));
    assert(in_order_from(cards, 19));
    assert(in_order_from(cards, 18));
    assert(in_order_from(cards, 17));
    assert(in_order_from(cards, 16));
    assert(in_order_from(cards, 15));
    assert(in_order_from(cards, 14));
    assert(in_order_from(cards, 13));
    assert(in_order_from(cards, 12));
    assert(in_order_from(cards, 11));
    assert(in_order_from(cards, 10));
    assert(in_order_from(cards, 9));
    assert(in_order_from(cards, 8));
    assert(in_order_from(cards, 7));
    assert(in_order_from(cards, 6));
    assert(in_order_from(cards, 5));
    assert(in_order_from(cards, 4));
    assert(in_order_from(cards, 3));
    assert(in_order_from(cards, 2));
    assert(in_order_from(cards, 1));
    assert(in_order_from(cards, 0));
}


/// Every card is plain text: ASCII, with no NUL and neither record separator.
pub proof fn lemma_cards_plain()
    ensures
        plain_from(spec_deck().cards@, 0),
{
    broadcast use vstd::array::group_array_axioms;

    let cards = spec_deck().cards@;
    assert(cards.len() == 76);
    assert(plain_text(cards[0]@)) by {
        reveal_strlit("A grave is tended for about as long as someone remembers why.");
        assert(cards[0] == "A grave is tended for about as long as someone remembers why.");
        assert(plain_from_char(cards[0]@, 40)) by {
            reveal_with_fuel(plain_from_char, 22);
        }
        reveal_with_fuel(plain_from_char, 41);
    }
    assert(plain_text(cards[1]@)) by {
        reveal_strlit("A life is mostly weather and errands, and it still counts.");
        assert(cards[1] == "A life is mostly weather and errands, and it still counts.");
        assert(plain_from_char(cards[1]@, 40)) by {
            reveal_with_fuel(plain_from_char, 19);
        }
        reveal_with_fuel(plain_from_char, 41);
    }
    assert(plain_text(cards[2]@)) by {
        reveal_strlit("A long life and a short one arrive at the same place.");
        assert(cards[2] == "A long life and a short one arrive at the same place.");
        assert(plain_from_char(cards[2]@, 40)) by {
            reveal_with_fuel(plain_from_char, 14);
        }
        reveal_with_fuel(plain_from_char, 41);
    }
    assert(plain_text(cards[3]@)) by {
        reveal_strlit("A person who has lived a day has seen the pattern of all of it.");
        assert(cards[3] == "A person who has lived a day has seen the pattern of all of it.");
        assert(plain_from_char(cards[3]@, 40)) by {
            reveal_with_fuel(plain_from_char, 24);
        }
        reveal_with_fuel(plain_from_char, 41);
    }
    assert(plain_text(cards[4]@)) by {
        reveal_strlit("Almost everyone who has ever lived is dead and was ordinary.");
        assert(cards[4] == "Almost everyone who has ever lived is dead and was ordinary.");
        assert(plain_from_char(cards[4]@, 40)) by {
            reveal_with_fuel(plain_from_char, 21);
        }
        reveal_with_fuel(plain_from_char, 41);
    }
    assert(plain_text(cards[5]@)) by {
        reveal_strlit("An ordinary Tuesday is most of what a life is made of.");
        assert(cards[5] == "An ordinary Tuesday is most of what a life is made of.");
        assert(plain_from_char(cards[5]@, 40)) by {
            reveal_with_fuel(plain_from_char, 15);
        }
        reveal_with_fuel(plain_from_char, 41);
    }
    assert(plain_text(cards[6]@)) by {
        reveal_strlit("Being finite makes nothing about today less real.");
        assert(cards[6] == "Being finite makes nothing about today less real.");
        assert(plain_from_char(cards[6]@, 40)) by {
            reveal_with_fuel(plain_from_char, 10);
        }
        reveal_with_fuel(plain_from_char, 41);
    }
    assert(plain_text(cards[7]@)) by {
        reveal_strlit("Being forgotten is the arrangement, not a verdict.");
        assert(cards[7] == "Being forgotten is the arrangement, not a verdict.");
        assert(plain_from_char(cards[7]@, 40)) by {
            reveal_with_fuel(plain_from_char, 11);
        }
        reveal_with_fuel(plain_from_char, 41);
    }
    assert(plain_text(cards[8]@)) by {
        reveal_strlit("Childhood ended and no announcement was made.");
        assert(cards[8] == "Childhood ended and no announcement was made.");
        assert(plain_from_char(cards[8]@, 40)) by {
            reveal_with_fuel(plain_from_char, 6);
        }
        reveal_with_fuel(plain_from_char, 41);
    }
    assert(plain_text(cards[9]@)) by {
        reveal_strlit("Dying is done badly for lack of practice.");
        assert(cards[9] == "Dying is done badly for lack of practice.");
        assert(plain_from_char(cards[9]@, 40)) by {
            reveal_with_fuel(plain_from_char, 2);
        }
        reveal_with_fuel(plain_from_char, 41);
    }
    assert(plain_text(cards[10]@)) by {
        reveal_strlit("Every relationship ends in a departure or a death.");
        assert(cards[10] == "Every relationship ends in a departure or a death.");
        assert(plain_from_char(cards[10]@, 40)) by {
            reveal_with_fuel(plain_from_char, 11);
        }
        reveal_with_fuel(plain_from_char, 41);
    }
    assert(plain_text(cards[11]@)) by {
        reveal_strlit("Everyone now alive will be dead within about a hundred years.");
        assert(cards[11] == "Everyone now alive will be dead within about a hundred years.");
        assert(plain_from_char(cards[11]@, 40)) by {
            reveal_with_fuel(plain_from_char, 22);
        }
        reveal_with_fuel(plain_from_char, 41);
    }
    assert(plain_text(cards[12]@)) by {
        reveal_strlit("Everything built is either being maintained or is coming down.");
        assert(cards[12] == "Everything built is either being maintained or is coming down.");
        assert(plain_from_char(cards[12]@, 40)) by {
            reveal_with_fuel(plain_from_char, 23);
        }
        reveal_with_fuel(plain_from_char, 41);
    }
    assert(plain_text(cards[13]@)) by {
        reveal_strlit("Funerals continue to be attended until one of them is yours.");
        assert(cards[13] == "Funerals continue to be attended until one of them is yours.");
        assert(plain_from_char(cards[13]@, 40)) by {
            reveal_with_fuel(plain_from_char, 21);
        }
        reveal_with_fuel(plain_from_char, 41);
    }
    assert(plain_text(cards[14]@)) by {
        reveal_strlit("Grudges have a shelf life and it is shorter than it looks.");
        assert(cards[14] == "Grudges have a shelf life and it is shorter than it looks.");
        assert(plain_from_char(cards[14]@, 40)) by {
            reveal_with_fuel(plain_from_char, 19);
        }
        reveal_with_fuel(plain_from_char, 41);
    }
    assert(plain_text(cards[15]@)) by {
        reveal_strlit("Illness is not an interruption of a life. It is part of one.");
        assert(cards[15] == "Illness is not an interruption of a life. It is part of one.");
        assert(plain_from_char(cards[15]@, 40)) by {
            reveal_with_fuel(plain_from_char, 21);
        }
        reveal_with_fuel(plain_from_char, 41);
    }
    assert(plain_text(cards[16]@)) by {
        reveal_strlit("It will not be balanced out or made up for.");
        assert(cards[16] == "It will not be balanced out or made up for.");
        assert(plain_from_char(cards[16]@, 40)) by {
            reveal_with_fuel(plain_from_char, 4);
        }
        reveal_with_fuel(plain_from_char, 41);
    }
    assert(plain_text(cards[17]@)) by {
        reveal_strlit("Knowing it does not have to be constant. It has to be occasional.");
        assert(cards[17] == "Knowing it does not have to be constant. It has to be occasional.");
        assert(plain_from_char(cards[17]@, 40)) by {
            reveal_with_fuel(plain_from_char, 26);
        }
        reveal_with_fuel(plain_from_char, 41);
    }
    assert(plain_text(cards[18]@)) by {
        reveal_strlit("Libraries burn. Copies help, though not indefinitely.");
        assert(cards[18] == "Libraries burn. Copies help, though not indefinitely.");
        assert(plain_from_char(cards[18]@, 40)) by {
            reveal_with_fuel(plain_from_char, 14);
        }
        reveal_with_fuel(plain_from_char, 41);
    }
    assert(plain_text(cards[19]@)) by {
        reveal_strlit("Most deaths happen in a room, on an unremarkable afternoon.");
        assert(cards[19] == "Most deaths happen in a room, on an unremarkable afternoon.");
        assert(plain_from_char(cards[19]@, 40)) by {
            reveal_with_fuel(plain_from_char, 20);
        }
        reveal_with_fuel(plain_from_char, 41);
    }
    assert(plain_text(cards[20]@)) by {
        reveal_strlit("Most of the dead are anonymous. That is the ordinary case, not a failure.");
        assert(cards[20] == "Most of the dead are anonymous. That is the ordinary case, not a failure.");
        assert(plain_from_char(cards[20]@, 40)) by {
            reveal_with_fuel(plain_from_char, 34);
        }
        reveal_with_fuel(plain_from_char, 41);
    }
    assert(plain_text(cards[21]@)) by {
        reveal_strlit("Nobody is ready. Readiness was never among the options.");
        assert(cards[21] == "Nobody is ready. Readiness was never among the options.");
        assert(plain_from_char(cards[21]@, 40)) by {
            reveal_with_fuel(plain_from_char, 16);
        }
        reveal_with_fuel(plain_from_char, 41);
    }
    assert(plain_text(cards[22]@)) by {
        reveal_strlit("Nobody loses a past, and nobody loses a future. Only the present is available to lose.");
        assert(cards[22] == "Nobody loses a past, and nobody loses a future. Only the present is available to lose.");
        assert(plain_from_char(cards[22]@, 80)) by {
            reveal_with_fuel(plain_from_char, 7);
        }
        assert(plain_from_char(cards[22]@, 40)) by {
            reveal_with_fuel(plain_from_char, 41);
        }
        reveal_with_fuel(plain_from_char, 41);
    }
    assert(plain_text(cards[23]@)) by {
        reveal_strlit("Not promised\n\t-tomorrow\n\t-a warning\n\t-a reason");
        assert(cards[23] == "Not promised\n\t-tomorrow\n\t-a warning\n\t-a reason");
        assert(plain_from_char(cards[23]@, 40)) by {
            reveal_with_fuel(plain_from_char, 7);
        }
        reveal_with_fuel(plain_from_char, 41);
    }
    assert(plain_text(cards[24]@)) by {
        reveal_strlit("Nothing about the ending makes the middle not worth having.");
        assert(cards[24] == "Nothing about the ending makes the middle not worth having.");
        assert(plain_from_char(cards[24]@, 40)) by {
            reveal_with_fuel(plain_from_char, 20);
        }
        reveal_with_fuel(plain_from_char, 41);
    }
    assert(plain_text(cards[25]@)) by {
        reveal_strlit("Nothing is arranging this on anyone's behalf.");
        assert(cards[25] == "Nothing is arranging this on anyone's behalf.");
        assert(plain_from_char(cards[25]@, 40)) by {
            reveal_with_fuel(plain_from_char, 6);
        }
        reveal_with_fuel(plain_from_char, 41);
    }
    assert(plain_text(cards[26]@)) by {
        reveal_strlit("Nothing is owed by the future to the present.");
        assert(cards[26] == "Nothing is owed by the future to the present.");
        assert(plain_from_char(cards[26]@, 40)) by {
            reveal_with_fuel(plain_from_char, 6);
        }
        reveal_with_fuel(plain_from_char, 41);
    }
    assert(plain_text(cards[27]@)) by {
        reveal_strlit("Nothing is taken away that was not on loan.");
        assert(cards[27] == "Nothing is taken away that was not on loan.");
        assert(plain_from_char(cards[27]@, 40)) by {
            reveal_with_fuel(plain_from_char, 4);
        }
        reveal_with_fuel(plain_from_char, 41);
    }
    assert(plain_text(cards[28]@)) by {
        reveal_strlit("One of these ordinary mornings is the last one.");
        assert(cards[28] == "One of these ordinary mornings is the last one.");
        assert(plain_from_char(cards[28]@, 40)) by {
            reveal_with_fuel(plain_from_char, 8);
        }
        reveal_with_fuel(plain_from_char, 41);
    }
    assert(plain_text(cards[29]@)) by {
        reveal_strlit("Possessions are on loan and the term is not disclosed.");
        assert(cards[29] == "Possessions are on loan and the term is not disclosed.");
        assert(plain_from_char(cards[29]@, 40)) by {
            reveal_with_fuel(plain_from_char, 15);
        }
        reveal_with_fuel(plain_from_char, 41);
    }
    assert(plain_text(cards[30]@)) by {
        reveal_strlit("Postponement is the only strategy that is guaranteed to fail.");
        assert(cards[30] == "Postponement is the only strategy that is guaranteed to fail.");
        assert(plain_from_char(cards[30]@, 40)) by {
            reveal_with_fuel(plain_from_char, 22);
        }
        reveal_with_fuel(plain_from_char, 41);
    }
    assert(plain_text(cards[31]@)) by {
        reveal_strlit("Roughly a third of a life is spent asleep, and that third is also the life.");
        assert(cards[31] == "Roughly a third of a life is spent asleep, and that third is also the life.");
        assert(plain_from_char(cards[31]@, 40)) by {
            reveal_with_fuel(plain_from_char, 36);
        }
        reveal_with_fuel(plain_from_char, 41);
    }
    assert(plain_text(cards[32]@)) by {
        reveal_strlit("Someone loved will die first, or else you will.");
        assert(cards[32] == "Someone loved will die first, or else you will.");
        assert(plain_from_char(cards[32]@, 40)) by {
            reveal_with_fuel(plain_from_char, 8);
        }
        reveal_with_fuel(plain_from_char, 41);
    }
    assert(plain_text(cards[33]@)) by {
        reveal_strlit("Someone will clear the house, and they will be in a hurry.");
        assert(cards[33] == "Someone will clear the house, and they will be in a hurry.");
        assert(plain_from_char(cards[33]@, 40)) by {
            reveal_with_fuel(plain_from_char, 19);
        }
        reveal_with_fuel(plain_from_char, 41);
    }
    assert(plain_text(cards[34]@)) by {
        reveal_strlit("Strength is on loan and the repayment is gradual.");
        assert(cards[34] == "Strength is on loan and the repayment is gradual.");
        assert(plain_from_char(cards[34]@, 40)) by {
            reveal_with_fuel(plain_from_char, 10);
        }
        reveal_with_fuel(plain_from_char, 41);
    }
    assert(plain_text(cards[35]@)) by {
        reveal_strlit("Suffering is not payment toward anything.");
        assert(cards[35] == "Suffering is not payment toward anything.");
        assert(plain_from_char(cards[35]@, 40)) by {
            reveal_with_fuel(plain_from_char, 2);
        }
        reveal_with_fuel(plain_from_char, 41);
    }
    assert(plain_text(cards[36]@)) by {
        reveal_strlit("The body keeps a schedule that was never shown to anyone.");
        assert(cards[36] == "The body keeps a schedule that was never shown to anyone.");
        assert(plain_from_char(cards[36]@, 40)) by {
            reveal_with_fuel(plain_from_char, 18);
        }
        reveal_with_fuel(plain_from_char, 41);
    }
    assert(plain_text(cards[37]@)) by {
        reveal_strlit("The body wears out in a roughly fixed order.");
        assert(cards[37] == "The body wears out in a roughly fixed order.");
        assert(plain_from_char(cards[37]@, 40)) by {
            reveal_with_fuel(plain_from_char, 5);
        }
        reveal_with_fuel(plain_from_char, 41);
    }
    assert(plain_text(cards[38]@)) by {
        reveal_strlit("The day is on a calendar that has already been printed.");
        assert(cards[38] == "The day is on a calendar that has already been printed.");
        assert(plain_from_char(cards[38]@, 40)) by {
            reveal_with_fuel(plain_from_char, 16);
        }
        reveal_with_fuel(plain_from_char, 41);
    }
    assert(plain_text(cards[39]@)) by {
        reveal_strlit("The dead of every era believed their era was the important one.");
        assert(cards[39] == "The dead of every era believed their era was the important one.");
        assert(plain_from_char(cards[39]@, 40)) by {
            reveal_with_fuel(plain_from_char, 24);
        }
        reveal_with_fuel(plain_from_char, 41);
    }
    assert(plain_text(cards[40]@)) by {
        reveal_strlit("The dead outnumber the living and always will.");
        assert(cards[40] == "The dead outnumber the living and always will.");
        assert(plain_from_char(cards[40]@, 40)) by {
            reveal_with_fuel(plain_from_char, 7);
        }
        reveal_with_fuel(plain_from_char, 41);
    }
    assert(plain_text(cards[41]@)) by {
        reveal_strlit("The dead would take this ordinary afternoon without hesitating.");
        assert(cards[41] == "The dead would take this ordinary afternoon without hesitating.");
        assert(plain_from_char(cards[41]@, 40)) by {
            reveal_with_fuel(plain_from_char, 24);
        }
        reveal_with_fuel(plain_from_char, 41);
    }
    assert(plain_text(cards[42]@)) by {
        reveal_strlit("The ending does not supply a meaning to what came before.");
        assert(cards[42] == "The ending does not supply a meaning to what came before.");
        assert(plain_from_char(cards[42]@, 40)) by {
            reveal_with_fuel(plain_from_char, 18);
        }
        reveal_with_fuel(plain_from_char, 41);
    }
    assert(plain_text(cards[43]@)) by {
        reveal_strlit("The famous of one century go unread in the century after next.");
        assert(cards[43] == "The famous of one century go unread in the century after next.");
        assert(plain_from_char(cards[43]@, 40)) by {
            reveal_with_fuel(plain_from_char, 23);
        }
        reveal_with_fuel(plain_from_char, 41);
    }
    assert(plain_text(cards[44]@)) by {
        reveal_strlit("The fear of it is larger than it, and arrives much earlier.");
        assert(cards[44] == "The fear of it is larger than it, and arrives much earlier.");
        assert(plain_from_char(cards[44]@, 40)) by {
            reveal_with_fuel(plain_from_char, 20);
        }
        reveal_with_fuel(plain_from_char, 41);
    }
    assert(plain_text(cards[45]@)) by {
        reveal_strlit("The good hours were not the ones announced in advance.");
        assert(cards[45] == "The good hours were not the ones announced in advance.");
        assert(plain_from_char(cards[45]@, 40)) by {
            reveal_with_fuel(plain_from_char, 15);
        }
        reveal_with_fuel(plain_from_char, 41);
    }
    assert(plain_text(cards[46]@)) by {
        reveal_strlit("The important conversation has a deadline that is not published.");
        assert(cards[46] == "The important conversation has a deadline that is not published.");
        assert(plain_from_char(cards[46]@, 40)) by {
            reveal_with_fuel(plain_from_char, 25);
        }
        reveal_with_fuel(plain_from_char, 41);
    }
    assert(plain_text(cards[47]@)) by {
        reveal_strlit("The languages that carried the important books are mostly gone.");
        assert(cards[47] == "The languages that carried the important books are mostly gone.");
        assert(plain_from_char(cards[47]@, 40)) by {
            reveal_with_fuel(plain_from_char, 24);
        }
        reveal_with_fuel(plain_from_char, 41);
    }
    assert(plain_text(cards[48]@)) by {
        reveal_strlit("The last person who will remember you is alive now, or is not yet born.");
        assert(cards[48] == "The last person who will remember you is alive now, or is not yet born.");
        assert(plain_from_char(cards[48]@, 40)) by {
            reveal_with_fuel(plain_from_char, 32);
        }
        reveal_with_fuel(plain_from_char, 41);
    }
    assert(plain_text(cards[49]@)) by {
        reveal_strlit("The length of a life is not the measure of it.");
        assert(cards[49] == "The length of a life is not the measure of it.");
        assert(plain_from_char(cards[49]@, 40)) by {
            reveal_with_fuel(plain_from_char, 7);
        }
        reveal_with_fuel(plain_from_char, 41);
    }
    assert(plain_text(cards[50]@)) by {
        reveal_strlit("The middle of a life is only identifiable afterwards.");
        assert(cards[50] == "The middle of a life is only identifiable afterwards.");
        assert(plain_from_char(cards[50]@, 40)) by {
            reveal_with_fuel(plain_from_char, 14);
        }
        reveal_with_fuel(plain_from_char, 41);
    }
    assert(plain_text(cards[51]@)) by {
        reveal_strlit("The number of days remaining is a specific number.");
        assert(cards[51] == "The number of days remaining is a specific number.");
        assert(plain_from_char(cards[51]@, 40)) by {
            reveal_with_fuel(plain_from_char, 11);
        }
        reveal_with_fuel(plain_from_char, 41);
    }
    assert(plain_text(cards[52]@)) by {
        reveal_strlit("The paperwork after a death is done by someone who loved the dead.");
        assert(cards[52] == "The paperwork after a death is done by someone who loved the dead.");
        assert(plain_from_char(cards[52]@, 40)) by {
            reveal_with_fuel(plain_from_char, 27);
        }
        reveal_with_fuel(plain_from_char, 41);
    }
    assert(plain_text(cards[53]@)) by {
        reveal_strlit("The people alive alongside you are alive now, and that is the whole offer.");
        assert(cards[53] == "The people alive alongside you are alive now, and that is the whole offer.");
        assert(plain_from_char(cards[53]@, 40)) by {
            reveal_with_fuel(plain_from_char, 35);
        }
        reveal_with_fuel(plain_from_char, 41);
    }
    assert(plain_text(cards[54]@)) by {
        reveal_strlit("The reconciliation happens now or does not happen.");
        assert(cards[54] == "The reconciliation happens now or does not happen.");
        assert(plain_from_char(cards[54]@, 40)) by {
            reveal_with_fuel(plain_from_char, 11);
        }
        reveal_with_fuel(plain_from_char, 41);
    }
    assert(plain_text(cards[55]@)) by {
        reveal_strlit("The same end reaches the diligent and the idle.");
        assert(cards[55] == "The same end reaches the diligent and the idle.");
        assert(plain_from_char(cards[55]@, 40)) by {
            reveal_with_fuel(plain_from_char, 8);
        }
        reveal_with_fuel(plain_from_char, 41);
    }
    assert(plain_text(cards[56]@)) by {
        reveal_strlit("The shortness is the reason it counts, not an argument against it.");
        assert(cards[56] == "The shortness is the reason it counts, not an argument against it.");
        assert(plain_from_char(cards[56]@, 40)) by {
            reveal_with_fuel(plain_from_char, 27);
        }
        reveal_with_fuel(plain_from_char, 41);
    }
    assert(plain_text(cards[57]@)) by {
        reveal_strlit("The species is recent and the planet is not.");
        assert(cards[57] == "The species is recent and the planet is not.");
        assert(plain_from_char(cards[57]@, 40)) by {
            reveal_with_fuel(plain_from_char, 5);
        }
        reveal_with_fuel(plain_from_char, 41);
    }
    assert(plain_text(cards[58]@)) by {
        reveal_strlit("The stars visible tonight were visible to people who are entirely gone.");
        assert(cards[58] == "The stars visible tonight were visible to people who are entirely gone.");
        assert(plain_from_char(cards[58]@, 40)) by {
            reveal_with_fuel(plain_from_char, 32);
        }
        reveal_with_fuel(plain_from_char, 41);
    }
    assert(plain_text(cards[59]@)) by {
        reveal_strlit("The thought is duller with practice, not larger.");
        assert(cards[59] == "The thought is duller with practice, not larger.");
        assert(plain_from_char(cards[59]@, 40)) by {
            reveal_with_fuel(plain_from_char, 9);
        }
        reveal_with_fuel(plain_from_char, 41);
    }
    assert(plain_text(cards[60]@)) by {
        reveal_strlit("The unfairness is not an error in the system.");
        assert(cards[60] == "The unfairness is not an error in the system.");
        assert(plain_from_char(cards[60]@, 40)) by {
            reveal_with_fuel(plain_from_char, 6);
        }
        reveal_with_fuel(plain_from_char, 41);
    }
    assert(plain_text(cards[61]@)) by {
        reveal_strlit("The work outlasts the worker, and then it does not.");
        assert(cards[61] == "The work outlasts the worker, and then it does not.");
        assert(plain_from_char(cards[61]@, 40)) by {
            reveal_with_fuel(plain_from_char, 12);
        }
        reveal_with_fuel(plain_from_char, 41);
    }
    assert(plain_text(cards[62]@)) by {
        reveal_strlit("The years already used are not available for revision.");
        assert(cards[62] == "The years already used are not available for revision.");
        assert(plain_from_char(cards[62]@, 40)) by {
            reveal_with_fuel(plain_from_char, 15);
        }
        reveal_with_fuel(plain_from_char, 41);
    }
    assert(plain_text(cards[63]@)) by {
        reveal_strlit("There are people already seen for the last time.");
        assert(cards[63] == "There are people already seen for the last time.");
        assert(plain_from_char(cards[63]@, 40)) by {
            reveal_with_fuel(plain_from_char, 9);
        }
        reveal_with_fuel(plain_from_char, 41);
    }
    assert(plain_text(cards[64]@)) by {
        reveal_strlit("There have been about a hundred billion. The number is not comforting or cruel.");
        assert(cards[64] == "There have been about a hundred billion. The number is not comforting or cruel.");
        assert(plain_from_char(cards[64]@, 40)) by {
            reveal_with_fuel(plain_from_char, 40);
        }
        reveal_with_fuel(plain_from_char, 41);
    }
    assert(plain_text(cards[65]@)) by {
        reveal_strlit("There is no lesson in it. It is what happens.");
        assert(cards[65] == "There is no lesson in it. It is what happens.");
        assert(plain_from_char(cards[65]@, 40)) by {
            reveal_with_fuel(plain_from_char, 6);
        }
        reveal_with_fuel(plain_from_char, 41);
    }
    assert(plain_text(cards[66]@)) by {
        reveal_strlit("There is time for one or two things, which is not the same as none.");
        assert(cards[66] == "There is time for one or two things, which is not the same as none.");
        assert(plain_from_char(cards[66]@, 40)) by {
            reveal_with_fuel(plain_from_char, 28);
        }
        reveal_with_fuel(plain_from_char, 41);
    }
    assert(plain_text(cards[67]@)) by {
        reveal_strlit("There will be a last time for everything done regularly.");
        assert(cards[67] == "There will be a last time for everything done regularly.");
        assert(plain_from_char(cards[67]@, 40)) by {
            reveal_with_fuel(plain_from_char, 17);
        }
        reveal_with_fuel(plain_from_char, 41);
    }
    assert(plain_text(cards[68]@)) by {
        reveal_strlit("Two facts\n\t-the day exists\n\t-the date is unknown");
        assert(cards[68] == "Two facts\n\t-the day exists\n\t-the date is unknown");
        assert(plain_from_char(cards[68]@, 40)) by {
            reveal_with_fuel(plain_from_char, 9);
        }
        reveal_with_fuel(plain_from_char, 41);
    }
    assert(plain_text(cards[69]@)) by {
        reveal_strlit("Waiting is not a preliminary to the life. It is some of it.");
        assert(cards[69] == "Waiting is not a preliminary to the life. It is some of it.");
        assert(plain_from_char(cards[69]@, 40)) by {
            reveal_with_fuel(plain_from_char, 20);
        }
        reveal_with_fuel(plain_from_char, 41);
    }
    assert(plain_text(cards[70]@)) by {
        reveal_strlit("What goes unsaid at the end stays unsaid.");
        assert(cards[70] == "What goes unsaid at the end stays unsaid.");
        assert(plain_from_char(cards[70]@, 40)) by {
            reveal_with_fuel(plain_from_char, 2);
        }
        reveal_with_fuel(plain_from_char, 41);
    }
    assert(plain_text(cards[71]@)) by {
        reveal_strlit("What is on loan\n\t-the body\n\t-the time\n\t-the people");
        assert(cards[71] == "What is on loan\n\t-the body\n\t-the time\n\t-the people");
        assert(plain_from_char(cards[71]@, 40)) by {
            reveal_with_fuel(plain_from_char, 11);
        }
        reveal_with_fuel(plain_from_char, 41);
    }
    assert(plain_text(cards[72]@)) by {
        reveal_strlit("Whether the life was long or short, what is lost is the same: now.");
        assert(cards[72] == "Whether the life was long or short, what is lost is the same: now.");
        assert(plain_from_char(cards[72]@, 40)) by {
            reveal_with_fuel(plain_from_char, 27);
        }
        reveal_with_fuel(plain_from_char, 41);
    }
    assert(plain_text(cards[73]@)) by {
        reveal_strlit("Whole cities are under fields.");
        assert(cards[73] == "Whole cities are under fields.");
        reveal_with_fuel(plain_from_char, 31);
    }
    assert(plain_text(cards[74]@)) by {
        reveal_strlit("Within three generations no one will remember a face.");
        assert(cards[74] == "Within three generations no one will remember a face.");
        assert(plain_from_char(cards[74]@, 40)) by {
            reveal_with_fuel(plain_from_char, 14);
        }
        reveal_with_fuel(plain_from_char, 41);
    }
    assert(plain_text(cards[75]@)) by {
        reveal_strlit("Your great-great-grandparents had names you do not know.");
        assert(cards[75] == "Your great-great-grandparents had names you do not know.");
        assert(plain_from_char(cards[75]@, 40)) by {
            reveal_with_fuel(plain_from_char, 17);
        }
        reveal_with_fuel(plain_from_char, 41);
    }
    assert(plain_from(cards, 76));
    assert(plain_from(cards, 75));
    assert(plain_from(cards, 74));
    assert(plain_from(cards, 73));
    assert(plain_from(cards, 72));
    assert(plain_from(cards, 71));
    assert(plain_from(cards, 70));
    assert(plain_from(cards, 69));
    assert(plain_from(cards, 68));
    assert(plain_from(cards, 67));
    assert(plain_from(cards, 66));
    assert(plain_from(cards, 65));
    assert(plain_from(cards, 64));
    assert(plain_from(cards, 63));
    assert(plain_from(cards, 62));
    assert(plain_from(cards, 61));
    assert(plain_from(cards, 60));
    assert(plain_from(cards, 59));
    assert(plain_from(cards, 58));
    assert(plain_from(cards, 57));
    assert(plain_from(cards, 56));
    assert(plain_from(cards, 55));
    assert(plain_from(cards, 54));
    assert(plain_from(cards, 53));
    assert(plain_from(cards, 52));
    assert(plain_from(cards, 51));
    assert(plain_from(cards, 50));
    assert(plain_from(cards, 49));
    assert(plain_from(cards, 48));
    assert(plain_from(cards, 47));
    assert(plain_from(cards, 46));
    assert(plain_from(cards, 45));
    assert(plain_from(cards, 44));
    assert(plain_from(cards, 43));
    assert(plain_from(cards, 42));
    assert(plain_from(cards, 41));
    assert(plain_from(cards, 40));
    assert(plain_from(cards, 39));
    assert(plain_from(cards, 38));
    assert(plain_from(cards, 37));
    assert(plain_from(cards, 36));
    assert(plain_from(cards, 35));
    assert(plain_from(cards, 34));
    assert(plain_from(cards, 33));
    assert(plain_from(cards, 32));
    assert(plain_from(cards, 31));
    assert(plain_from(cards, 30));
    assert(plain_from(cards, 29));
    assert(plain_from(cards, 28));
    assert(plain_from(cards, 27));
    assert(plain_from(cards, 26));
    assert(plain_from(cards, 25));
    assert(plain_from(cards, 24));
    assert(plain_from(cards, 23));
    assert(plain_from(cards, 22));
    assert(plain_from(cards, 21));
    assert(plain_from(cards, 20));
    assert(plain_from(cards, 19));
    assert(plain_from(cards, 18));
    assert(plain_from(cards, 17));
    assert(plain_from(cards, 16));
    assert(plain_from(cards, 15));
    assert(plain_from(cards, 14));
    assert(plain_from(cards, 13));
    assert(plain_from(cards, 12));
    assert(plain_from(cards, 11));
    assert(plain_from(cards, 10));
    assert(plain_from(cards, 9));
    assert(plain_from(cards, 8));
    assert(plain_from(cards, 7));
    assert(plain_from(cards, 6));
    assert(plain_from(cards, 5));
    assert(plain_from(cards, 4));
    assert(plain_from(cards, 3));
    assert(plain_from(cards, 2));
    assert(plain_from(cards, 1));
    assert(plain_from(cards, 0));
}

} // verus!
