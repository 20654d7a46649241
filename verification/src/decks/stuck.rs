//! Moves for when the work will not move.
//!
//! This deck shares its territory with the Oblique Strategies and works in the
//! opposite direction. The Oblique Strategies sidestep a problem: they hand you
//! `Water`, or tell you to do the washing up, and trust the knight's move.
//! `stuck` attacks the problem head on, with the next concrete thing to try.
//!
//! Every card is written for this crate. The method behind it is old and not
//! anyone's property: Descartes on accepting nothing unexamined, dividing a
//! difficulty into parts, and enumerating so completely that nothing is left
//! out; Polya on restating the problem, solving a simpler one first, working
//! backwards from the answer, and looking for a problem already solved that
//! resembles this one. Their wording is nobody's to borrow, and none of it is
//! here.
//!
//! Every card either asks a diagnostic question or gives an instruction.
//! Nothing here is a statement to sit with; that is what the other decks are
//! for. Which of the two a card does is an editorial rule and not a checkable
//! one, so no test holds it.

use vstd::prelude::*;
use crate::deck::{in_order_from, plain_from};
use crate::text::{plain_from_char, plain_text, text_before};
use crate::{Deck, Provenance};

verus! {

/// The cards of the stuck deck, sorted by their first line.
pub const CARDS: [&'static str; 90] = [
    "Accept nothing here that you have not checked yourself.",
    "Are you protecting the work from being seen?",
    "Are you solving this, or avoiding something else?",
    "Are you stuck, or are you tired?",
    "Ask in order\n\t-what is wanted\n\t-what is given\n\t-what joins them",
    "Ask the person who would know. Now, not later.",
    "Ask where you are stuck\n\t-starting\n\t-deciding\n\t-finishing",
    "Ask who decided it had to be this way.",
    "Assume it is solved. What must have been true?",
    "Assume the fault is in your own work.",
    "Change one thing at a time and keep the old version.",
    "Check the boundaries before the middle.",
    "Check the thing you are most certain about.",
    "Choose whichever option keeps the most doors open.",
    "Cut the part you had to explain.",
    "Cut the piece you are least sure about.",
    "Cut the problem into parts. Solve the easiest part first.",
    "Decide what is not going in.",
    "Decide what you would need to know, then go and find it.",
    "Describe it to someone who does not know the field.",
    "Do something else on purpose, and come back.",
    "Do the next physical action, not the next decision.",
    "Do the part you already know how to do.",
    "Do the worst possible version in ten minutes.",
    "Eat something and try again in an hour.",
    "Enumerate the cases. Check that you have all of them.",
    "Estimate it. Double the estimate. Decide again.",
    "Explain it aloud to someone who is not listening.",
    "Find the sentence doing the real work. Build around it.",
    "Find the smallest version that still has the difficulty in it.",
    "Flip a coin and notice which result you hoped for.",
    "Get one other pair of eyes on it before lunch.",
    "Go for a walk without taking the problem along.",
    "Halve the search space. Then halve it again.",
    "How is this solved in a field that is not yours?",
    "How long since you stood up?",
    "Is it done and you are stalling?",
    "Is the hard part the important part?",
    "Is the requirement actually a requirement?",
    "Is this reversible? Then stop deliberating.",
    "Is this worth the time it is now taking?",
    "Leave it overnight. Read it before you read your email.",
    "List everything it could be. Cross off what it is not.",
    "List your assumptions. Test the cheapest one.",
    "Lower the standard until you can begin.",
    "Make it fail faster.",
    "Name the constraint you have not written down.",
    "Name the cost of not deciding. It is never zero.",
    "Open the file. That is the whole task for now.",
    "Pick either. If they are this close, the closeness is the answer.",
    "Print the value you assumed.",
    "Read it as a stranger in a hurry would.",
    "Read the error message again, all of it.",
    "Remove things until it works, then add them back one at a time.",
    "Reproduce it reliably before trying to fix it.",
    "Say out loud, to someone, that you are stuck.",
    "Say what done looks like, concretely.",
    "Separate the problem you have from the one you expected.",
    "Set a deadline somebody else knows about.",
    "Set a timer for fifteen minutes and stop when it rings.",
    "Ship the part that is finished.",
    "Sleep on it. This is a method, not an excuse.",
    "Solve a simpler problem first, then work up.",
    "Split it until one piece is obviously doable.",
    "Start from the answer and work backwards.",
    "Start in the middle.",
    "State the problem in one sentence. Then delete half of it.",
    "Try\n\t-a smaller case\n\t-a special case\n\t-the opposite",
    "What are you taking on trust?",
    "What changed? Start there.",
    "What happens if you simply do not do it?",
    "What is the actual question? Ask it out loud.",
    "What is the last thing that has to be true before this ends?",
    "What is the laziest thing that would work?",
    "What is the standard solution? Start from it.",
    "What would count as evidence that this is solved?",
    "What would this look like if it were easy?",
    "What would you remove if you had to remove something?",
    "What would you tell someone else to do here?",
    "When did it last work?",
    "Where have you seen this shape of problem before?",
    "Which choice is easier to undo?",
    "Which constraint is real, and which is only habit?",
    "Which part is hard? Point at it.",
    "Who has already done this? Read what they did.",
    "Whose problem is this actually?",
    "Would you regret this in a year, or only on Friday?",
    "Write down what you want, not the method you had in mind.",
    "Write the part you can already see.",
    "Write the question you would post, then post it.",
];

/// The stuck deck, as its contents stand.
pub open spec fn spec_deck() -> Deck {
    Deck {
        id: "stuck",
        name: "Stuck",
        blurb: "Moves for when the work will not move.",
        provenance: Provenance::Original,
        cards: vstd::array::spec_array_as_slice(&CARDS),
    }
}

/// The stuck deck.
#[verifier::when_used_as_spec(spec_deck)]
pub fn deck() -> (d: Deck)
    ensures
        d == spec_deck(),
{
    Deck {
        id: "stuck",
        name: "Stuck",
        blurb: "Moves for when the work will not move.",
        provenance: Provenance::Original,
        cards: &CARDS,
    }
}

/// The cards are in strictly increasing text order, so no two read alike.
pub proof fn lemma_cards_in_order()
    ensures
        in_order_from(spec_deck().cards@, 0),
{
    broadcast use vstd::array::group_array_axioms;

    let cards = spec_deck().cards@;
    assert(cards.len() == 90);
    assert(text_before(cards[0]@, cards[1]@)) by {
        reveal_strlit("Accept nothing here that you have not checked yourself.");
        reveal_strlit("Are you protecting the work from being seen?");
        assert(cards[0] == "Accept nothing here that you have not checked yourself.");
        assert(cards[1] == "Are you protecting the work from being seen?");
        reveal_with_fuel(text_before, 3);
    }
    assert(text_before(cards[1]@, cards[2]@)) by {
        reveal_strlit("Are you protecting the work from being seen?");
        reveal_strlit("Are you solving this, or avoiding something else?");
        assert(cards[1] == "Are you protecting the work from being seen?");
        assert(cards[2] == "Are you solving this, or avoiding something else?");
        reveal_with_fuel(text_before, 10);
    }
    assert(text_before(cards[2]@, cards[3]@)) by {
        reveal_strlit("Are you solving this, or avoiding something else?");
        reveal_strlit("Are you stuck, or are you tired?");
        assert(cards[2] == "Are you solving this, or avoiding something else?");
        assert(cards[3] == "Are you stuck, or are you tired?");
        reveal_with_fuel(text_before, 11);
    }
    assert(text_before(cards[3]@, cards[4]@)) by {
        reveal_strlit("Are you stuck, or are you tired?");
        reveal_strlit("Ask in order\n\t-what is wanted\n\t-what is given\n\t-what joins them");
        assert(cards[3] == "Are you stuck, or are you tired?");
        assert(cards[4] == "Ask in order\n\t-what is wanted\n\t-what is given\n\t-what joins them");
        reveal_with_fuel(text_before, 3);
    }
    assert(text_before(cards[4]@, cards[5]@)) by {
        reveal_strlit("Ask in order\n\t-what is wanted\n\t-what is given\n\t-what joins them");
        reveal_strlit("Ask the person who would know. Now, not later.");
        assert(cards[4] == "Ask in order\n\t-what is wanted\n\t-what is given\n\t-what joins them");
        assert(cards[5] == "Ask the person who would know. Now, not later.");
        reveal_with_fuel(text_before, 6);
    }
    assert(text_before(cards[5]@, cards[6]@)) by {
        reveal_strlit("Ask the person who would know. Now, not later.");
        reveal_strlit("Ask where you are stuck\n\t-starting\n\t-deciding\n\t-finishing");
        assert(cards[5] == "Ask the person who would know. Now, not later.");
        assert(cards[6] == "Ask where you are stuck\n\t-starting\n\t-deciding\n\t-finishing");
        reveal_with_fuel(text_before, 6);
    }
    assert(text_before(cards[6]@, cards[7]@)) by {
        reveal_strlit("Ask where you are stuck\n\t-starting\n\t-deciding\n\t-finishing");
        reveal_strlit("Ask who decided it had to be this way.");
        assert(cards[6] == "Ask where you are stuck\n\t-starting\n\t-deciding\n\t-finishing");
        assert(cards[7] == "Ask who decided it had to be this way.");
        reveal_with_fuel(text_before, 8);
    }
    assert(text_before(cards[7]@, cards[8]@)) by {
        reveal_strlit("Ask who decided it had to be this way.");
        reveal_strlit("Assume it is solved. What must have been true?");
        assert(cards[7] == "Ask who decided it had to be this way.");
        assert(cards[8] == "Assume it is solved. What must have been true?");
        reveal_with_fuel(text_before, 4);
    }
    assert(text_before(cards[8]@, cards[9]@)) by {
        reveal_strlit("Assume it is solved. What must have been true?");
        reveal_strlit("Assume the fault is in your own work.");
        assert(cards[8] == "Assume it is solved. What must have been true?");
        assert(cards[9] == "Assume the fault is in your own work.");
        reveal_with_fuel(text_before, 9);
    }
    assert(text_before(cards[9]@, cards[10]@)) by {
        reveal_strlit("Assume the fault is in your own work.");
        reveal_strlit("Change one thing at a time and keep the old version.");
        assert(cards[9] == "Assume the fault is in your own work.");
        assert(cards[10] == "Change one thing at a time and keep the old version.");
        reveal_with_fuel(text_before, 2);
    }
    assert(text_before(cards[10]@, cards[11]@)) by {
        reveal_strlit("Change one thing at a time and keep the old version.");
        reveal_strlit("Check the boundaries before the middle.");
        assert(cards[10] == "Change one thing at a time and keep the old version.");
        assert(cards[11] == "Check the boundaries before the middle.");
        reveal_with_fuel(text_before, 4);
    }
    assert(text_before(cards[11]@, cards[12]@)) by {
        reveal_strlit("Check the boundaries before the middle.");
        reveal_strlit("Check the thing you are most certain about.");
        assert(cards[11] == "Check the boundaries before the middle.");
        assert(cards[12] == "Check the thing you are most certain about.");
        reveal_with_fuel(text_before, 12);
    }
    assert(text_before(cards[12]@, cards[13]@)) by {
        reveal_strlit("Check the thing you are most certain about.");
        reveal_strlit("Choose whichever option keeps the most doors open.");
        assert(cards[12] == "Check the thing you are most certain about.");
        assert(cards[13] == "Choose whichever option keeps the most doors open.");
        reveal_with_fuel(text_before, 4);
    }
    assert(text_before(cards[13]@, cards[14]@)) by {
        reveal_strlit("Choose whichever option keeps the most doors open.");
        reveal_strlit("Cut the part you had to explain.");
        assert(cards[13] == "Choose whichever option keeps the most doors open.");
        assert(cards[14] == "Cut the part you had to explain.");
        reveal_with_fuel(text_before, 3);
    }
    assert(text_before(cards[14]@, cards[15]@)) by {
        reveal_strlit("Cut the part you had to explain.");
        reveal_strlit("Cut the piece you are least sure about.");
        assert(cards[14] == "Cut the part you had to explain.");
        assert(cards[15] == "Cut the piece you are least sure about.");
        reveal_with_fuel(text_before, 11);
    }
    assert(text_before(cards[15]@, cards[16]@)) by {
        reveal_strlit("Cut the piece you are least sure about.");
        reveal_strlit("Cut the problem into parts. Solve the easiest part first.");
        assert(cards[15] == "Cut the piece you are least sure about.");
        assert(cards[16] == "Cut the problem into parts. Solve the easiest part first.");
        reveal_with_fuel(text_before, 11);
    }
    assert(text_before(cards[16]@, cards[17]@)) by {
        reveal_strlit("Cut the problem into parts. Solve the easiest part first.");
        reveal_strlit("Decide what is not going in.");
        assert(cards[16] == "Cut the problem into parts. Solve the easiest part first.");
        assert(cards[17] == "Decide what is not going in.");
        reveal_with_fuel(text_before, 2);
    }
    assert(text_before(cards[17]@, cards[18]@)) by {
        reveal_strlit("Decide what is not going in.");
        reveal_strlit("Decide what you would need to know, then go and find it.");
        assert(cards[17] == "Decide what is not going in.");
        assert(cards[18] == "Decide what you would need to know, then go and find it.");
        reveal_with_fuel(text_before, 14);
    }
    assert(text_before(cards[18]@, cards[19]@)) by {
        reveal_strlit("Decide what you would need to know, then go and find it.");
        reveal_strlit("Describe it to someone who does not know the field.");
        assert(cards[18] == "Decide what you would need to know, then go and find it.");
        assert(cards[19] == "Describe it to someone who does not know the field.");
        reveal_with_fuel(text_before, 4);
    }
    assert(text_before(cards[19]@, cards[20]@)) by {
        reveal_strlit("Describe it to someone who does not know the field.");
        reveal_strlit("Do something else on purpose, and come back.");
        assert(cards[19] == "Describe it to someone who does not know the field.");
        assert(cards[20] == "Do something else on purpose, and come back.");
        reveal_with_fuel(text_before, 3);
    }
    assert(text_before(cards[20]@, cards[21]@)) by {
        reveal_strlit("Do something else on purpose, and come back.");
        reveal_strlit("Do the next physical action, not the next decision.");
        assert(cards[20] == "Do something else on purpose, and come back.");
        assert(cards[21] == "Do the next physical action, not the next decision.");
        reveal_with_fuel(text_before, 5);
    }
    assert(text_before(cards[21]@, cards[22]@)) by {
        reveal_strlit("Do the next physical action, not the next decision.");
        reveal_strlit("Do the part you already know how to do.");
        assert(cards[21] == "Do the next physical action, not the next decision.");
        assert(cards[22] == "Do the part you already know how to do.");
        reveal_with_fuel(text_before, 9);
    }
    assert(text_before(cards[22]@, cards[23]@)) by {
        reveal_strlit("Do the part you already know how to do.");
        reveal_strlit("Do the worst possible version in ten minutes.");
        assert(cards[22] == "Do the part you already know how to do.");
        assert(cards[23] == "Do the worst possible version in ten minutes.");
        reveal_with_fuel(text_before, 9);
    }
    assert(text_before(cards[23]@, cards[24]@)) by {
        reveal_strlit("Do the worst possible version in ten minutes.");
        reveal_strlit("Eat something and try again in an hour.");
        assert(cards[23] == "Do the worst possible version in ten minutes.");
        assert(cards[24] == "Eat something and try again in an hour.");
        reveal_with_fuel(text_before, 2);
    }
    assert(text_before(cards[24]@, cards[25]@)) by {
        reveal_strlit("Eat something and try again in an hour.");
        reveal_strlit("Enumerate the cases. Check that you have all of them.");
        assert(cards[24] == "Eat something and try again in an hour.");
        assert(cards[25] == "Enumerate the cases. Check that you have all of them.");
        reveal_with_fuel(text_before, 3);
    }
    assert(text_before(cards[25]@, cards[26]@)) by {
        reveal_strlit("Enumerate the cases. Check that you have all of them.");
        reveal_strlit("Estimate it. Double the estimate. Decide again.");
        assert(cards[25] == "Enumerate the cases. Check that you have all of them.");
        assert(cards[26] == "Estimate it. Double the estimate. Decide again.");
        reveal_with_fuel(text_before, 3);
    }
    assert(text_before(cards[26]@, cards[27]@)) by {
        reveal_strlit("Estimate it. Double the estimate. Decide again.");
        reveal_strlit("Explain it aloud to someone who is not listening.");
        assert(cards[26] == "Estimate it. Double the estimate. Decide again.");
        assert(cards[27] == "Explain it aloud to someone who is not listening.");
        reveal_with_fuel(text_before, 3);
    }
    assert(text_before(cards[27]@, cards[28]@)) by {
        reveal_strlit("Explain it aloud to someone who is not listening.");
        reveal_strlit("Find the sentence doing the real work. Build around it.");
        assert(cards[27] == "Explain it aloud to someone who is not listening.");
        assert(cards[28] == "Find the sentence doing the real work. Build around it.");
        reveal_with_fuel(text_before, 2);
    }
    assert(text_before(cards[28]@, cards[29]@)) by {
        reveal_strlit("Find the sentence doing the real work. Build around it.");
        reveal_strlit("Find the smallest version that still has the difficulty in it.");
        assert(cards[28] == "Find the sentence doing the real work. Build around it.");
        assert(cards[29] == "Find the smallest version that still has the difficulty in it.");
        reveal_with_fuel(text_before, 12);
    }
    assert(text_before(cards[29]@, cards[30]@)) by {
        reveal_strlit("Find the smallest version that still has the difficulty in it.");
        reveal_strlit("Flip a coin and notice which result you hoped for.");
        assert(cards[29] == "Find the smallest version that still has the difficulty in it.");
        assert(cards[30] == "Flip a coin and notice which result you hoped for.");
        reveal_with_fuel(text_before, 3);
    }
    assert(text_before(cards[30]@, cards[31]@)) by {
        reveal_strlit("Flip a coin and notice which result you hoped for.");
        reveal_strlit("Get one other pair of eyes on it before lunch.");
        assert(cards[30] == "Flip a coin and notice which result you hoped for.");
        assert(cards[31] == "Get one other pair of eyes on it before lunch.");
        reveal_with_fuel(text_before, 2);
    }
    assert(text_before(cards[31]@, cards[32]@)) by {
        reveal_strlit("Get one other pair of eyes on it before lunch.");
        reveal_strlit("Go for a walk without taking the problem along.");
        assert(cards[31] == "Get one other pair of eyes on it before lunch.");
        assert(cards[32] == "Go for a walk without taking the problem along.");
        reveal_with_fuel(text_before, 3);
    }
    assert(text_before(cards[32]@, cards[33]@)) by {
        reveal_strlit("Go for a walk without taking the problem along.");
        reveal_strlit("Halve the search space. Then halve it again.");
        assert(cards[32] == "Go for a walk without taking the problem along.");
        assert(cards[33] == "Halve the search space. Then halve it again.");
        reveal_with_fuel(text_before, 2);
    }
    assert(text_before(cards[33]@, cards[34]@)) by {
        reveal_strlit("Halve the search space. Then halve it again.");
        reveal_strlit("How is this solved in a field that is not yours?");
        assert(cards[33] == "Halve the search space. Then halve it again.");
        assert(cards[34] == "How is this solved in a field that is not yours?");
        reveal_with_fuel(text_before, 3);
    }
    assert(text_before(cards[34]@, cards[35]@)) by {
        reveal_strlit("How is this solved in a field that is not yours?");
        reveal_strlit("How long since you stood up?");
        assert(cards[34] == "How is this solved in a field that is not yours?");
        assert(cards[35] == "How long since you stood up?");
        reveal_with_fuel(text_before, 6);
    }
    assert(text_before(cards[35]@, cards[36]@)) by {
        reveal_strlit("How long since you stood up?");
        reveal_strlit("Is it done and you are stalling?");
        assert(cards[35] == "How long since you stood up?");
        assert(cards[36] == "Is it done and you are stalling?");
        reveal_with_fuel(text_before, 2);
    }
    assert(text_before(cards[36]@, cards[37]@)) by {
        reveal_strlit("Is it done and you are stalling?");
        reveal_strlit("Is the hard part the important part?");
        assert(cards[36] == "Is it done and you are stalling?");
        assert(cards[37] == "Is the hard part the important part?");
        reveal_with_fuel(text_before, 5);
    }
    assert(text_before(cards[37]@, cards[38]@)) by {
        reveal_strlit("Is the hard part the important part?");
        reveal_strlit("Is the requirement actually a requirement?");
        assert(cards[37] == "Is the hard part the important part?");
        assert(cards[38] == "Is the requirement actually a requirement?");
        reveal_with_fuel(text_before, 9);
    }
    assert(text_before(cards[38]@, cards[39]@)) by {
        reveal_strlit("Is the requirement actually a requirement?");
        reveal_strlit("Is this reversible? Then stop deliberating.");
        assert(cards[38] == "Is the requirement actually a requirement?");
        assert(cards[39] == "Is this reversible? Then stop deliberating.");
        reveal_with_fuel(text_before, 7);
    }
    assert(text_before(cards[39]@, cards[40]@)) by {
        reveal_strlit("Is this reversible? Then stop deliberating.");
        reveal_strlit("Is this worth the time it is now taking?");
        assert(cards[39] == "Is this reversible? Then stop deliberating.");
        assert(cards[40] == "Is this worth the time it is now taking?");
        reveal_with_fuel(text_before, 10);
    }
    assert(text_before(cards[40]@, cards[41]@)) by {
        reveal_strlit("Is this worth the time it is now taking?");
        reveal_strlit("Leave it overnight. Read it before you read your email.");
        assert(cards[40] == "Is this worth the time it is now taking?");
        assert(cards[41] == "Leave it overnight. Read it before you read your email.");
        reveal_with_fuel(text_before, 2);
    }
    assert(text_before(cards[41]@, cards[42]@)) by {
        reveal_strlit("Leave it overnight. Read it before you read your email.");
        reveal_strlit("List everything it could be. Cross off what it is not.");
        assert(cards[41] == "Leave it overnight. Read it before you read your email.");
        assert(cards[42] == "List everything it could be. Cross off what it is not.");
        reveal_with_fuel(text_before, 3);
    }
    assert(text_before(cards[42]@, cards[43]@)) by {
        reveal_strlit("List everything it could be. Cross off what it is not.");
        reveal_strlit("List your assumptions. Test the cheapest one.");
        assert(cards[42] == "List everything it could be. Cross off what it is not.");
        assert(cards[43] == "List your assumptions. Test the cheapest one.");
        reveal_with_fuel(text_before, 7);
    }
    assert(text_before(cards[43]@, cards[44]@)) by {
        reveal_strlit("List your assumptions. Test the cheapest one.");
        reveal_strlit("Lower the standard until you can begin.");
        assert(cards[43] == "List your assumptions. Test the cheapest one.");
        assert(cards[44] == "Lower the standard until you can begin.");
        reveal_with_fuel(text_before, 3);
    }
    assert(text_before(cards[44]@, cards[45]@)) by {
        reveal_strlit("Lower the standard until you can begin.");
        reveal_strlit("Make it fail faster.");
        assert(cards[44] == "Lower the standard until you can begin.");
        assert(cards[45] == "Make it fail faster.");
        reveal_with_fuel(text_before, 2);
    }
    assert(text_before(cards[45]@, cards[46]@)) by {
        reveal_strlit("Make it fail faster.");
        reveal_strlit("Name the constraint you have not written down.");
        assert(cards[45] == "Make it fail faster.");
        assert(cards[46] == "Name the constraint you have not written down.");
        reveal_with_fuel(text_before, 2);
    }
    assert(text_before(cards[46]@, cards[47]@)) by {
        reveal_strlit("Name the constraint you have not written down.");
        reveal_strlit("Name the cost of not deciding. It is never zero.");
        assert(cards[46] == "Name the constraint you have not written down.");
        assert(cards[47] == "Name the cost of not deciding. It is never zero.");
        reveal_with_fuel(text_before, 13);
    }
    assert(text_before(cards[47]@, cards[48]@)) by {
        reveal_strlit("Name the cost of not deciding. It is never zero.");
        reveal_strlit("Open the file. That is the whole task for now.");
        assert(cards[47] == "Name the cost of not deciding. It is never zero.");
        assert(cards[48] == "Open the file. That is the whole task for now.");
        reveal_with_fuel(text_before, 2);
    }
    assert(text_before(cards[48]@, cards[49]@)) by {
        reveal_strlit("Open the file. That is the whole task for now.");
        reveal_strlit("Pick either. If they are this close, the closeness is the answer.");
        assert(cards[48] == "Open the file. That is the whole task for now.");
        assert(cards[49] == "Pick either. If they are this close, the closeness is the answer.");
        reveal_with_fuel(text_before, 2);
    }
    assert(text_before(cards[49]@, cards[50]@)) by {
        reveal_strlit("Pick either. If they are this close, the closeness is the answer.");
        reveal_strlit("Print the value you assumed.");
        assert(cards[49] == "Pick either. If they are this close, the closeness is the answer.");
        assert(cards[50] == "Print the value you assumed.");
        reveal_with_fuel(text_before, 3);
    }
    assert(text_before(cards[50]@, cards[51]@)) by {
        reveal_strlit("Print the value you assumed.");
        reveal_strlit("Read it as a stranger in a hurry would.");
        assert(cards[50] == "Print the value you assumed.");
        assert(cards[51] == "Read it as a stranger in a hurry would.");
        reveal_with_fuel(text_before, 2);
    }
    assert(text_before(cards[51]@, cards[52]@)) by {
        reveal_strlit("Read it as a stranger in a hurry would.");
        reveal_strlit("Read the error message again, all of it.");
        assert(cards[51] == "Read it as a stranger in a hurry would.");
        assert(cards[52] == "Read the error message again, all of it.");
        reveal_with_fuel(text_before, 7);
    }
    assert(text_before(cards[52]@, cards[53]@)) by {
        reveal_strlit("Read the error message again, all of it.");
        reveal_strlit("Remove things until it works, then add them back one at a time.");
        assert(cards[52] == "Read the error message again, all of it.");
        assert(cards[53] == "Remove things until it works, then add them back one at a time.");
        reveal_with_fuel(text_before, 4);
    }
    assert(text_before(cards[53]@, cards[54]@)) by {
        reveal_strlit("Remove things until it works, then add them back one at a time.");
        reveal_strlit("Reproduce it reliably before trying to fix it.");
        assert(cards[53] == "Remove things until it works, then add them back one at a time.");
        assert(cards[54] == "Reproduce it reliably before trying to fix it.");
        reveal_with_fuel(text_before, 4);
    }
    assert(text_before(cards[54]@, cards[55]@)) by {
        reveal_strlit("Reproduce it reliably before trying to fix it.");
        reveal_strlit("Say out loud, to someone, that you are stuck.");
        assert(cards[54] == "Reproduce it reliably before trying to fix it.");
        assert(cards[55] == "Say out loud, to someone, that you are stuck.");
        reveal_with_fuel(text_before, 2);
    }
    assert(text_before(cards[55]@, cards[56]@)) by {
        reveal_strlit("Say out loud, to someone, that you are stuck.");
        reveal_strlit("Say what done looks like, concretely.");
        assert(cards[55] == "Say out loud, to someone, that you are stuck.");
        assert(cards[56] == "Say what done looks like, concretely.");
        reveal_with_fuel(text_before, 6);
    }
    assert(text_before(cards[56]@, cards[57]@)) by {
        reveal_strlit("Say what done looks like, concretely.");
        reveal_strlit("Separate the problem you have from the one you expected.");
        assert(cards[56] == "Say what done looks like, concretely.");
        assert(cards[57] == "Separate the problem you have from the one you expected.");
        reveal_with_fuel(text_before, 3);
    }
    assert(text_before(cards[57]@, cards[58]@)) by {
        reveal_strlit("Separate the problem you have from the one you expected.");
        reveal_strlit("Set a deadline somebody else knows about.");
        assert(cards[57] == "Separate the problem you have from the one you expected.");
        assert(cards[58] == "Set a deadline somebody else knows about.");
        reveal_with_fuel(text_before, 4);
    }
    assert(text_before(cards[58]@, cards[59]@)) by {
        reveal_strlit("Set a deadline somebody else knows about.");
        reveal_strlit("Set a timer for fifteen minutes and stop when it rings.");
        assert(cards[58] == "Set a deadline somebody else knows about.");
        assert(cards[59] == "Set a timer for fifteen minutes and stop when it rings.");
        reveal_with_fuel(text_before, 8);
    }
    assert(text_before(cards[59]@, cards[60]@)) by {
        reveal_strlit("Set a timer for fifteen minutes and stop when it rings.");
        reveal_strlit("Ship the part that is finished.");
        assert(cards[59] == "Set a timer for fifteen minutes and stop when it rings.");
        assert(cards[60] == "Ship the part that is finished.");
        reveal_with_fuel(text_before, 3);
    }
    assert(text_before(cards[60]@, cards[61]@)) by {
        reveal_strlit("Ship the part that is finished.");
        reveal_strlit("Sleep on it. This is a method, not an excuse.");
        assert(cards[60] == "Ship the part that is finished.");
        assert(cards[61] == "Sleep on it. This is a method, not an excuse.");
        reveal_with_fuel(text_before, 3);
    }
    assert(text_before(cards[61]@, cards[62]@)) by {
        reveal_strlit("Sleep on it. This is a method, not an excuse.");
        reveal_strlit("Solve a simpler problem first, then work up.");
        assert(cards[61] == "Sleep on it. This is a method, not an excuse.");
        assert(cards[62] == "Solve a simpler problem first, then work up.");
        reveal_with_fuel(text_before, 3);
    }
    assert(text_before(cards[62]@, cards[63]@)) by {
        reveal_strlit("Solve a simpler problem first, then work up.");
        reveal_strlit("Split it until one piece is obviously doable.");
        assert(cards[62] == "Solve a simpler problem first, then work up.");
        assert(cards[63] == "Split it until one piece is obviously doable.");
        reveal_with_fuel(text_before, 3);
    }
    assert(text_before(cards[63]@, cards[64]@)) by {
        reveal_strlit("Split it until one piece is obviously doable.");
        reveal_strlit("Start from the answer and work backwards.");
        assert(cards[63] == "Split it until one piece is obviously doable.");
        assert(cards[64] == "Start from the answer and work backwards.");
        reveal_with_fuel(text_before, 3);
    }
    assert(text_before(cards[64]@, cards[65]@)) by {
        reveal_strlit("Start from the answer and work backwards.");
        reveal_strlit("Start in the middle.");
        assert(cards[64] == "Start from the answer and work backwards.");
        assert(cards[65] == "Start in the middle.");
        reveal_with_fuel(text_before, 8);
    }
    assert(text_before(cards[65]@, cards[66]@)) by {
        reveal_strlit("Start in the middle.");
        reveal_strlit("State the problem in one sentence. Then delete half of it.");
        assert(cards[65] == "Start in the middle.");
        assert(cards[66] == "State the problem in one sentence. Then delete half of it.");
        reveal_with_fuel(text_before, 5);
    }
    assert(text_before(cards[66]@, cards[67]@)) by {
        reveal_strlit("State the problem in one sentence. Then delete half of it.");
        reveal_strlit("Try\n\t-a smaller case\n\t-a special case\n\t-the opposite");
        assert(cards[66] == "State the problem in one sentence. Then delete half of it.");
        assert(cards[67] == "Try\n\t-a smaller case\n\t-a special case\n\t-the opposite");
        reveal_with_fuel(text_before, 2);
    }
    assert(text_before(cards[67]@, cards[68]@)) by {
        reveal_strlit("Try\n\t-a smaller case\n\t-a special case\n\t-the opposite");
        reveal_strlit("What are you taking on trust?");
        assert(cards[67] == "Try\n\t-a smaller case\n\t-a special case\n\t-the opposite");
        assert(cards[68] == "What are you taking on trust?");
        reveal_with_fuel(text_before, 2);
    }
    assert(text_before(cards[68]@, cards[69]@)) by {
        reveal_strlit("What are you taking on trust?");
        reveal_strlit("What changed? Start there.");
        assert(cards[68] == "What are you taking on trust?");
        assert(cards[69] == "What changed? Start there.");
        reveal_with_fuel(text_before, 7);
    }
    assert(text_before(cards[69]@, cards[70]@)) by {
        reveal_strlit("What changed? Start there.");
        reveal_strlit("What happens if you simply do not do it?");
        assert(cards[69] == "What changed? Start there.");
        assert(cards[70] == "What happens if you simply do not do it?");
        reveal_with_fuel(text_before, 7);
    }
    assert(text_before(cards[70]@, cards[71]@)) by {
        reveal_strlit("What happens if you simply do not do it?");
        reveal_strlit("What is the actual question? Ask it out loud.");
        assert(cards[70] == "What happens if you simply do not do it?");
        assert(cards[71] == "What is the actual question? Ask it out loud.");
        reveal_with_fuel(text_before, 7);
    }
    assert(text_before(cards[71]@, cards[72]@)) by {
        reveal_strlit("What is the actual question? Ask it out loud.");
        reveal_strlit("What is the last thing that has to be true before this ends?");
        assert(cards[71] == "What is the actual question? Ask it out loud.");
        assert(cards[72] == "What is the last thing that has to be true before this ends?");
        reveal_with_fuel(text_before, 14);
    }
    assert(text_before(cards[72]@, cards[73]@)) by {
        reveal_strlit("What is the last thing that has to be true before this ends?");
        reveal_strlit("What is the laziest thing that would work?");
        assert(cards[72] == "What is the last thing that has to be true before this ends?");
        assert(cards[73] == "What is the laziest thing that would work?");
        reveal_with_fuel(text_before, 16);
    }
    assert(text_before(cards[73]@, cards[74]@)) by {
        reveal_strlit("What is the laziest thing that would work?");
        reveal_strlit("What is the standard solution? Start from it.");
        assert(cards[73] == "What is the laziest thing that would work?");
        assert(cards[74] == "What is the standard solution? Start from it.");
        reveal_with_fuel(text_before, 14);
    }
    assert(text_before(cards[74]@, cards[75]@)) by {
        reveal_strlit("What is the standard solution? Start from it.");
        reveal_strlit("What would count as evidence that this is solved?");
        assert(cards[74] == "What is the standard solution? Start from it.");
        assert(cards[75] == "What would count as evidence that this is solved?");
        reveal_with_fuel(text_before, 7);
    }
    assert(text_before(cards[75]@, cards[76]@)) by {
        reveal_strlit("What would count as evidence that this is solved?");
        reveal_strlit("What would this look like if it were easy?");
        assert(cards[75] == "What would count as evidence that this is solved?");
        assert(cards[76] == "What would this look like if it were easy?");
        reveal_with_fuel(text_before, 13);
    }
    assert(text_before(cards[76]@, cards[77]@)) by {
        reveal_strlit("What would this look like if it were easy?");
        reveal_strlit("What would you remove if you had to remove something?");
        assert(cards[76] == "What would this look like if it were easy?");
        assert(cards[77] == "What would you remove if you had to remove something?");
        reveal_with_fuel(text_before, 13);
    }
    assert(text_before(cards[77]@, cards[78]@)) by {
        reveal_strlit("What would you remove if you had to remove something?");
        reveal_strlit("What would you tell someone else to do here?");
        assert(cards[77] == "What would you remove if you had to remove something?");
        assert(cards[78] == "What would you tell someone else to do here?");
        reveal_with_fuel(text_before, 17);
    }
    assert(text_before(cards[78]@, cards[79]@)) by {
        reveal_strlit("What would you tell someone else to do here?");
        reveal_strlit("When did it last work?");
        assert(cards[78] == "What would you tell someone else to do here?");
        assert(cards[79] == "When did it last work?");
        reveal_with_fuel(text_before, 4);
    }
    assert(text_before(cards[79]@, cards[80]@)) by {
        reveal_strlit("When did it last work?");
        reveal_strlit("Where have you seen this shape of problem before?");
        assert(cards[79] == "When did it last work?");
        assert(cards[80] == "Where have you seen this shape of problem before?");
        reveal_with_fuel(text_before, 5);
    }
    assert(text_before(cards[80]@, cards[81]@)) by {
        reveal_strlit("Where have you seen this shape of problem before?");
        reveal_strlit("Which choice is easier to undo?");
        assert(cards[80] == "Where have you seen this shape of problem before?");
        assert(cards[81] == "Which choice is easier to undo?");
        reveal_with_fuel(text_before, 4);
    }
    assert(text_before(cards[81]@, cards[82]@)) by {
        reveal_strlit("Which choice is easier to undo?");
        reveal_strlit("Which constraint is real, and which is only habit?");
        assert(cards[81] == "Which choice is easier to undo?");
        assert(cards[82] == "Which constraint is real, and which is only habit?");
        reveal_with_fuel(text_before, 9);
    }
    assert(text_before(cards[82]@, cards[83]@)) by {
        reveal_strlit("Which constraint is real, and which is only habit?");
        reveal_strlit("Which part is hard? Point at it.");
        assert(cards[82] == "Which constraint is real, and which is only habit?");
        assert(cards[83] == "Which part is hard? Point at it.");
        reveal_with_fuel(text_before, 8);
    }
    assert(text_before(cards[83]@, cards[84]@)) by {
        reveal_strlit("Which part is hard? Point at it.");
        reveal_strlit("Who has already done this? Read what they did.");
        assert(cards[83] == "Which part is hard? Point at it.");
        assert(cards[84] == "Who has already done this? Read what they did.");
        reveal_with_fuel(text_before, 4);
    }
    assert(text_before(cards[84]@, cards[85]@)) by {
        reveal_strlit("Who has already done this? Read what they did.");
        reveal_strlit("Whose problem is this actually?");
        assert(cards[84] == "Who has already done this? Read what they did.");
        assert(cards[85] == "Whose problem is this actually?");
        reveal_with_fuel(text_before, 5);
    }
    assert(text_before(cards[85]@, cards[86]@)) by {
        reveal_strlit("Whose problem is this actually?");
        reveal_strlit("Would you regret this in a year, or only on Friday?");
        assert(cards[85] == "Whose problem is this actually?");
        assert(cards[86] == "Would you regret this in a year, or only on Friday?");
        reveal_with_fuel(text_before, 3);
    }
    assert(text_before(cards[86]@, cards[87]@)) by {
        reveal_strlit("Would you regret this in a year, or only on Friday?");
        reveal_strlit("Write down what you want, not the method you had in mind.");
        assert(cards[86] == "Would you regret this in a year, or only on Friday?");
        assert(cards[87] == "Write down what you want, not the method you had in mind.");
        reveal_with_fuel(text_before, 3);
    }
    assert(text_before(cards[87]@, cards[88]@)) by {
        reveal_strlit("Write down what you want, not the method you had in mind.");
        reveal_strlit("Write the part you can already see.");
        assert(cards[87] == "Write down what you want, not the method you had in mind.");
        assert(cards[88] == "Write the part you can already see.");
        reveal_with_fuel(text_before, 8);
    }
    assert(text_before(cards[88]@, cards[89]@)) by {
        reveal_strlit("Write the part you can already see.");
        reveal_strlit("Write the question you would post, then post it.");
        assert(cards[88] == "Write the part you can already see.");
        assert(cards[89] == "Write the question you would post, then post it.");
        reveal_with_fuel(text_before, 12);
    }
    assert(in_order_from(cards, 89));
    assert(in_order_from(cards, 88));
    assert(in_order_from(cards, 87));
    assert(in_order_from(cards, 86));
    assert(in_order_from(cards, 85));
    assert(in_order_from(cards, 84));
    assert(in_order_from(cards, 83));
    assert(in_order_from(cards, 82));
    assert(in_order_from(cards, 81));
    assert(in_order_from(cards, 80));
    assert(in_order_from(cards, 79));
    assert(in_order_from(cards, 78));
    assert(in_order_from(cards, 77));
    assert(in_order_from(cards, 76));
    assert(in_order_from(cards, 75));
    assert(in_order_from(cards, 74));
    assert(in_order_from(cards, 73));
    assert(in_order_from(cards, 72));
    assert(in_order_from(cards, 71));
    assert(in_order_from(cards, 70));
    assert(in_order_from(cards, 69));
    assert(in_order_from(cards, 68));
    assert(in_order_from(cards, 67));
    assert(in_order_from(cards, 66));
    assert(in_order_from(cards, 65));
    assert(in_order_from(cards, 64));
    assert(in_order_from(cards, 63));
    assert(in_order_from(cards, 62));
    assert(in_order_from(cards, 61));
    assert(in_order_from(cards, 60));
    assert(in_order_from(cards, 59));
    assert(in_order_from(cards, 58));
    assert(in_order_from(cards, 57));
    assert(in_order_from(cards, 56));
    assert(in_order_from(cards, 55));
    assert(in_order_from(cards, 54));
    assert(in_order_from(cards, 53));
    assert(in_order_from(cards, 52));
    assert(in_order_from(cards, 51));
    assert(in_order_from(cards, 50));
    assert(in_order_from(cards, 49));
    assert(in_order_from(cards, 48));
    assert(in_order_from(cards, 47));
    assert(in_order_from(cards, 46));
    assert(in_order_from(cards, 45));
    assert(in_order_from(cards, 44));
    assert(in_order_from(cards, 43));
    assert(in_order_from(cards, 42));
    assert(in_order_from(cards, 41));
    assert(in_order_from(cards, 40));
    assert(in_order_from(cards, 39));
    assert(in_order_from(cards, 38));
    assert(in_order_from(cards, 37));
    assert(in_order_from(cards, 36));
    assert(in_order_from(cards, 35));
    assert(in_order_from(cards, 34));
    assert(in_order_from(cards, 33));
    assert(in_order_from(cards, 32));
    assert(in_order_from(cards, 31));
    assert(in_order_from(cards, 30));
    assert(in_order_from(cards, 29));
    assert(in_order_from(cards, 28));
    assert(in_order_from(cards, 27));
    assert(in_order_from(cards, 26));
    assert(in_order_from(cards, 25));
    assert(in_order_from(cards, 24));
    assert(in_order_from(cards, 23));
    assert(in_order_from(cards, 22));
    assert(in_order_from(cards, 21));
    assert(in_order_from(cards, 20));
    assert(in_order_from(cards, 19));
    assert(in_order_from(cards, 18));
    assert(in_order_from(cards, 17));
    assert(in_order_from(cards, 16));
    assert(in_order_from(cards, 15));
    assert(in_order_from(cards, 14));
    assert(in_order_from(cards, 13));
    assert(in_order_from(cards, 12));
    assert(in_order_from(cards, 11));
    assert(in_order_from(cards, 10));
    assert(in_order_from(cards, 9));
    assert(in_order_from(cards, 8));
    assert(in_order_from(cards, 7));
    assert(in_order_from(cards, 6));
    assert(in_order_from(cards, 5));
    assert(in_order_from(cards, 4));
    assert(in_order_from(cards, 3));
    assert(in_order_from(cards, 2));
    assert(in_order_from(cards, 1));
    assert(in_order_from(cards, 0));
}


/// Every card is plain text: ASCII, with no NUL and neither record separator.
pub proof fn lemma_cards_plain()
    ensures
        plain_from(spec_deck().cards@, 0),
{
    broadcast use vstd::array::group_array_axioms;

    let cards = spec_deck().cards@;
    assert(cards.len() == 90);
    assert(plain_text(cards[0]@)) by {
        reveal_strlit("Accept nothing here that you have not checked yourself.");
        assert(cards[0] == "Accept nothing here that you have not checked yourself.");
        assert(plain_from_char(cards[0]@, 40)) by {
            reveal_with_fuel(plain_from_char, 16);
        }
        reveal_with_fuel(plain_from_char, 41);
    }
    assert(plain_text(cards[1]@)) by {
        reveal_strlit("Are you protecting the work from being seen?");
        assert(cards[1] == "Are you protecting the work from being seen?");
        assert(plain_from_char(cards[1]@, 40)) by {
            reveal_with_fuel(plain_from_char, 5);
        }
        reveal_with_fuel(plain_from_char, 41);
    }
    assert(plain_text(cards[2]@)) by {
        reveal_strlit("Are you solving this, or avoiding something else?");
        assert(cards[2] == "Are you solving this, or avoiding something else?");
        assert(plain_from_char(cards[2]@, 40)) by {
            reveal_with_fuel(plain_from_char, 10);
        }
        reveal_with_fuel(plain_from_char, 41);
    }
    assert(plain_text(cards[3]@)) by {
        reveal_strlit("Are you stuck, or are you tired?");
        assert(cards[3] == "Are you stuck, or are you tired?");
        reveal_with_fuel(plain_from_char, 33);
    }
    assert(plain_text(cards[4]@)) by {
        reveal_strlit("Ask in order\n\t-what is wanted\n\t-what is given\n\t-what joins them");
        assert(cards[4] == "Ask in order\n\t-what is wanted\n\t-what is given\n\t-what joins them");
        assert(plain_from_char(cards[4]@, 40)) by {
            reveal_with_fuel(plain_from_char, 24);
        }
        reveal_with_fuel(plain_from_char, 41);
    }
    assert(plain_text(cards[5]@)) by {
        reveal_strlit("Ask the person who would know. Now, not later.");
        assert(cards[5] == "Ask the person who would know. Now, not later.");
        assert(plain_from_char(cards[5]@, 40)) by {
            reveal_with_fuel(plain_from_char, 7);
        }
        reveal_with_fuel(plain_from_char, 41);
    }
    assert(plain_text(cards[6]@)) by {
        reveal_strlit("Ask where you are stuck\n\t-starting\n\t-deciding\n\t-finishing");
        assert(cards[6] == "Ask where you are stuck\n\t-starting\n\t-deciding\n\t-finishing");
        assert(plain_from_char(cards[6]@, 40)) by {
            reveal_with_fuel(plain_from_char, 18);
        }
        reveal_with_fuel(plain_from_char, 41);
    }
    assert(plain_text(cards[7]@)) by {
        reveal_strlit("Ask who decided it had to be this way.");
        assert(cards[7] == "Ask who decided it had to be this way.");
        reveal_with_fuel(plain_from_char, 39);
    }
    assert(plain_text(cards[8]@)) by {
        reveal_strlit("Assume it is solved. What must have been true?");
        assert(cards[8] == "Assume it is solved. What must have been true?");
        assert(plain_from_char(cards[8]@, 40)) by {
            reveal_with_fuel(plain_from_char, 7);
        }
        reveal_with_fuel(plain_from_char, 41);
    }
    assert(plain_text(cards[9]@)) by {
        reveal_strlit("Assume the fault is in your own work.");
        assert(cards[9] == "Assume the fault is in your own work.");
        reveal_with_fuel(plain_from_char, 38);
    }
    assert(plain_text(cards[10]@)) by {
        reveal_strlit("Change one thing at a time and keep the old version.");
        assert(cards[10] == "Change one thing at a time and keep the old version.");
        assert(plain_from_char(cards[10]@, 40)) by {
            reveal_with_fuel(plain_from_char, 13);
        }
        reveal_with_fuel(plain_from_char, 41);
    }
    assert(plain_text(cards[11]@)) by {
        reveal_strlit("Check the boundaries before the middle.");
        assert(cards[11] == "Check the boundaries before the middle.");
        reveal_with_fuel(plain_from_char, 40);
    }
    assert(plain_text(cards[12]@)) by {
        reveal_strlit("Check the thing you are most certain about.");
        assert(cards[12] == "Check the thing you are most certain about.");
        assert(plain_from_char(cards[12]@, 40)) by {
            reveal_with_fuel(plain_from_char, 4);
        }
        reveal_with_fuel(plain_from_char, 41);
    }
    assert(plain_text(cards[13]@)) by {
        reveal_strlit("Choose whichever option keeps the most doors open.");
        assert(cards[13] == "Choose whichever option keeps the most doors open.");
        assert(plain_from_char(cards[13]@, 40)) by {
            reveal_with_fuel(plain_from_char, 11);
        }
        reveal_with_fuel(plain_from_char, 41);
    }
    assert(plain_text(cards[14]@)) by {
        reveal_strlit("Cut the part you had to explain.");
        assert(cards[14] == "Cut the part you had to explain.");
        reveal_with_fuel(plain_from_char, 33);
    }
    assert(plain_text(cards[15]@)) by {
        reveal_strlit("Cut the piece you are least sure about.");
        assert(cards[15] == "Cut the piece you are least sure about.");
        reveal_with_fuel(plain_from_char, 40);
    }
    assert(plain_text(cards[16]@)) by {
        reveal_strlit("Cut the problem into parts. Solve the easiest part first.");
        assert(cards[16] == "Cut the problem into parts. Solve the easiest part first.");
        assert(plain_from_char(cards[16]@, 40)) by {
            reveal_with_fuel(plain_from_char, 18);
        }
        reveal_with_fuel(plain_from_char, 41);
    }
    assert(plain_text(cards[17]@)) by {
        reveal_strlit("Decide what is not going in.");
        assert(cards[17] == "Decide what is not going in.");
        reveal_with_fuel(plain_from_char, 29);
    }
    assert(plain_text(cards[18]@)) by {
        reveal_strlit("Decide what you would need to know, then go and find it.");
        assert(cards[18] == "Decide what you would need to know, then go and find it.");
        assert(plain_from_char(cards[18]@, 40)) by {
            reveal_with_fuel(plain_from_char, 17);
        }
        reveal_with_fuel(plain_from_char, 41);
    }
    assert(plain_text(cards[19]@)) by {
        reveal_strlit("Describe it to someone who does not know the field.");
        assert(cards[19] == "Describe it to someone who does not know the field.");
        assert(plain_from_char(cards[19]@, 40)) by {
            reveal_with_fuel(plain_from_char, 12);
        }
        reveal_with_fuel(plain_from_char, 41);
    }
    assert(plain_text(cards[20]@)) by {
        reveal_strlit("Do something else on purpose, and come back.");
        assert(cards[20] == "Do something else on purpose, and come back.");
        assert(plain_from_char(cards[20]@, 40)) by {
            reveal_with_fuel(plain_from_char, 5);
        }
        reveal_with_fuel(plain_from_char, 41);
    }
    assert(plain_text(cards[21]@)) by {
        reveal_strlit("Do the next physical action, not the next decision.");
        assert(cards[21] == "Do the next physical action, not the next decision.");
        assert(plain_from_char(cards[21]@, 40)) by {
            reveal_with_fuel(plain_from_char, 12);
        }
        reveal_with_fuel(plain_from_char, 41);
    }
    assert(plain_text(cards[22]@)) by {
        reveal_strlit("Do the part you already know how to do.");
        assert(cards[22] == "Do the part you already know how to do.");
        reveal_with_fuel(plain_from_char, 40);
    }
    assert(plain_text(cards[23]@)) by {
        reveal_strlit("Do the worst possible version in ten minutes.");
        assert(cards[23] == "Do the worst possible version in ten minutes.");
        assert(plain_from_char(cards[23]@, 40)) by {
            reveal_with_fuel(plain_from_char, 6);
        }
        reveal_with_fuel(plain_from_char, 41);
    }
    assert(plain_text(cards[24]@)) by {
        reveal_strlit("Eat something and try again in an hour.");
        assert(cards[24] == "Eat something and try again in an hour.");
        reveal_with_fuel(plain_from_char, 40);
    }
    assert(plain_text(cards[25]@)) by {
        reveal_strlit("Enumerate the cases. Check that you have all of them.");
        assert(cards[25] == "Enumerate the cases. Check that you have all of them.");
        assert(plain_from_char(cards[25]@, 40)) by {
            reveal_with_fuel(plain_from_char, 14);
        }
        reveal_with_fuel(plain_from_char, 41);
    }
    assert(plain_text(cards[26]@)) by {
        reveal_strlit("Estimate it. Double the estimate. Decide again.");
        assert(cards[26] == "Estimate it. Double the estimate. Decide again.");
        assert(plain_from_char(cards[26]@, 40)) by {
            reveal_with_fuel(plain_from_char, 8);
        }
        reveal_with_fuel(plain_from_char, 41);
    }
    assert(plain_text(cards[27]@)) by {
        reveal_strlit("Explain it aloud to someone who is not listening.");
        assert(cards[27] == "Explain it aloud to someone who is not listening.");
        assert(plain_from_char(cards[27]@, 40)) by {
            reveal_with_fuel(plain_from_char, 10);
        }
        reveal_with_fuel(plain_from_char, 41);
    }
    assert(plain_text(cards[28]@)) by {
        reveal_strlit("Find the sentence doing the real work. Build around it.");
        assert(cards[28] == "Find the sentence doing the real work. Build around it.");
        assert(plain_from_char(cards[28]@, 40)) by {
            reveal_with_fuel(plain_from_char, 16);
        }
        reveal_with_fuel(plain_from_char, 41);
    }
    assert(plain_text(cards[29]@)) by {
        reveal_strlit("Find the smallest version that still has the difficulty in it.");
        assert(cards[29] == "Find the smallest version that still has the difficulty in it.");
        assert(plain_from_char(cards[29]@, 40)) by {
            reveal_with_fuel(plain_from_char, 23);
        }
        reveal_with_fuel(plain_from_char, 41);
    }
    assert(plain_text(cards[30]@)) by {
        reveal_strlit("Flip a coin and notice which result you hoped for.");
        assert(cards[30] == "Flip a coin and notice which result you hoped for.");
        assert(plain_from_char(cards[30]@, 40)) by {
            reveal_with_fuel(plain_from_char, 11);
        }
        reveal_with_fuel(plain_from_char, 41);
    }
    assert(plain_text(cards[31]@)) by {
        reveal_strlit("Get one other pair of eyes on it before lunch.");
        assert(cards[31] == "Get one other pair of eyes on it before lunch.");
        assert(plain_from_char(cards[31]@, 40)) by {
            reveal_with_fuel(plain_from_char, 7);
        }
        reveal_with_fuel(plain_from_char, 41);
    }
    assert(plain_text(cards[32]@)) by {
        reveal_strlit("Go for a walk without taking the problem along.");
        assert(cards[32] == "Go for a walk without taking the problem along.");
        assert(plain_from_char(cards[32]@, 40)) by {
            reveal_with_fuel(plain_from_char, 8);
        }
        reveal_with_fuel(plain_from_char, 41);
    }
    assert(plain_text(cards[33]@)) by {
        reveal_strlit("Halve the search space. Then halve it again.");
        assert(cards[33] == "Halve the search space. Then halve it again.");
        assert(plain_from_char(cards[33]@, 40)) by {
            reveal_with_fuel(plain_from_char, 5);
        }
        reveal_with_fuel(plain_from_char, 41);
    }
    assert(plain_text(cards[34]@)) by {
        reveal_strlit("How is this solved in a field that is not yours?");
        assert(cards[34] == "How is this solved in a field that is not yours?");
        assert(plain_from_char(cards[34]@, 40)) by {
            reveal_with_fuel(plain_from_char, 9);
        }
        reveal_with_fuel(plain_from_char, 41);
    }
    assert(plain_text(cards[35]@)) by {
        reveal_strlit("How long since you stood up?");
        assert(cards[35] == "How long since you stood up?");
        reveal_with_fuel(plain_from_char, 29);
    }
    assert(plain_text(cards[36]@)) by {
        reveal_strlit("Is it done and you are stalling?");
        assert(cards[36] == "Is it done and you are stalling?");
        reveal_with_fuel(plain_from_char, 33);
    }
    assert(plain_text(cards[37]@)) by {
        reveal_strlit("Is the hard part the important part?");
        assert(cards[37] == "Is the hard part the important part?");
        reveal_with_fuel(plain_from_char, 37);
    }
    assert(plain_text(cards[38]@)) by {
        reveal_strlit("Is the requirement actually a requirement?");
        assert(cards[38] == "Is the requirement actually a requirement?");
        assert(plain_from_char(cards[38]@, 40)) by {
            reveal_with_fuel(plain_from_char, 3);
        }
        reveal_with_fuel(plain_from_char, 41);
    }
    assert(plain_text(cards[39]@)) by {
        reveal_strlit("Is this reversible? Then stop deliberating.");
        assert(cards[39] == "Is this reversible? Then stop deliberating.");
        assert(plain_from_char(cards[39]@, 40)) by {
            reveal_with_fuel(plain_from_char, 4);
        }
        reveal_with_fuel(plain_from_char, 41);
    }
    assert(plain_text(cards[40]@)) by {
        reveal_strlit("Is this worth the time it is now taking?");
        assert(cards[40] == "Is this worth the time it is now taking?");
        reveal_with_fuel(plain_from_char, 41);
    }
    assert(plain_text(cards[41]@)) by {
        reveal_strlit("Leave it overnight. Read it before you read your email.");
        assert(cards[41] == "Leave it overnight. Read it before you read your email.");
        assert(plain_from_char(cards[41]@, 40)) by {
            reveal_with_fuel(plain_from_char, 16);
        }
        reveal_with_fuel(plain_from_char, 41);
    }
    assert(plain_text(cards[42]@)) by {
        reveal_strlit("List everything it could be. Cross off what it is not.");
        assert(cards[42] == "List everything it could be. Cross off what it is not.");
        assert(plain_from_char(cards[42]@, 40)) by {
            reveal_with_fuel(plain_from_char, 15);
        }
        reveal_with_fuel(plain_from_char, 41);
    }
    assert(plain_text(cards[43]@)) by {
        reveal_strlit("List your assumptions. Test the cheapest one.");
        assert(cards[43] == "List your assumptions. Test the cheapest one.");
        assert(plain_from_char(cards[43]@, 40)) by {
            reveal_with_fuel(plain_from_char, 6);
        }
        reveal_with_fuel(plain_from_char, 41);
    }
    assert(plain_text(cards[44]@)) by {
        reveal_strlit("Lower the standard until you can begin.");
        assert(cards[44] == "Lower the standard until you can begin.");
        reveal_with_fuel(plain_from_char, 40);
    }
    assert(plain_text(cards[45]@)) by {
        reveal_strlit("Make it fail faster.");
        assert(cards[45] == "Make it fail faster.");
        reveal_with_fuel(plain_from_char, 21);
    }
    assert(plain_text(cards[46]@)) by {
        reveal_strlit("Name the constraint you have not written down.");
        assert(cards[46] == "Name the constraint you have not written down.");
        assert(plain_from_char(cards[46]@, 40)) by {
            reveal_with_fuel(plain_from_char, 7);
        }
        reveal_with_fuel(plain_from_char, 41);
    }
    assert(plain_text(cards[47]@)) by {
        reveal_strlit("Name the cost of not deciding. It is never zero.");
        assert(cards[47] == "Name the cost of not deciding. It is never zero.");
        assert(plain_from_char(cards[47]@, 40)) by {
            reveal_with_fuel(plain_from_char, 9);
        }
        reveal_with_fuel(plain_from_char, 41);
    }
    assert(plain_text(cards[48]@)) by {
        reveal_strlit("Open the file. That is the whole task for now.");
        assert(cards[48] == "Open the file. That is the whole task for now.");
        assert(plain_from_char(cards[48]@, 40)) by {
            reveal_with_fuel(plain_from_char, 7);
        }
        reveal_with_fuel(plain_from_char, 41);
    }
    assert(plain_text(cards[49]@)) by {
        reveal_strlit("Pick either. If they are this close, the closeness is the answer.");
        assert(cards[49] == "Pick either. If they are this close, the closeness is the answer.");
        assert(plain_from_char(cards[49]@, 40)) by {
            reveal_with_fuel(plain_from_char, 26);
        }
        reveal_with_fuel(plain_from_char, 41);
    }
    assert(plain_text(cards[50]@)) by {
        reveal_strlit("Print the value you assumed.");
        assert(cards[50] == "Print the value you assumed.");
        reveal_with_fuel(plain_from_char, 29);
    }
    assert(plain_text(cards[51]@)) by {
        reveal_strlit("Read it as a stranger in a hurry would.");
        assert(cards[51] == "Read it as a stranger in a hurry would.");
        reveal_with_fuel(plain_from_char, 40);
    }
    assert(plain_text(cards[52]@)) by {
        reveal_strlit("Read the error message again, all of it.");
        assert(cards[52] == "Read the error message again, all of it.");
        reveal_with_fuel(plain_from_char, 41);
    }
    assert(plain_text(cards[53]@)) by {
        reveal_strlit("Remove things until it works, then add them back one at a time.");
        assert(cards[53] == "Remove things until it works, then add them back one at a time.");
        assert(plain_from_char(cards[53]@, 40)) by {
            reveal_with_fuel(plain_from_char, 24);
        }
        reveal_with_fuel(plain_from_char, 41);
    }
    assert(plain_text(cards[54]@)) by {
        reveal_strlit("Reproduce it reliably before trying to fix it.");
        assert(cards[54] == "Reproduce it reliably before trying to fix it.");
        assert(plain_from_char(cards[54]@, 40)) by {
            reveal_with_fuel(plain_from_char, 7);
        }
        reveal_with_fuel(plain_from_char, 41);
    }
    assert(plain_text(cards[55]@)) by {
        reveal_strlit("Say out loud, to someone, that you are stuck.");
        assert(cards[55] == "Say out loud, to someone, that you are stuck.");
        assert(plain_from_char(cards[55]@, 40)) by {
            reveal_with_fuel(plain_from_char, 6);
        }
        reveal_with_fuel(plain_from_char, 41);
    }
    assert(plain_text(cards[56]@)) by {
        reveal_strlit("Say what done looks like, concretely.");
        assert(cards[56] == "Say what done looks like, concretely.");
        reveal_with_fuel(plain_from_char, 38);
    }
    assert(plain_text(cards[57]@)) by {
        reveal_strlit("Separate the problem you have from the one you expected.");
        assert(cards[57] == "Separate the problem you have from the one you expected.");
        assert(plain_from_char(cards[57]@, 40)) by {
            reveal_with_fuel(plain_from_char, 17);
        }
        reveal_with_fuel(plain_from_char, 41);
    }
    assert(plain_text(cards[58]@)) by {
        reveal_strlit("Set a deadline somebody else knows about.");
        assert(cards[58] == "Set a deadline somebody else knows about.");
        assert(plain_from_char(cards[58]@, 40)) by {
            reveal_with_fuel(plain_from_char, 2);
        }
        reveal_with_fuel(plain_from_char, 41);
    }
    assert(plain_text(cards[59]@)) by {
        reveal_strlit("Set a timer for fifteen minutes and stop when it rings.");
        assert(cards[59] == "Set a timer for fifteen minutes and stop when it rings.");
        assert(plain_from_char(cards[59]@, 40)) by {
            reveal_with_fuel(plain_from_char, 16);
        }
        reveal_with_fuel(plain_from_char, 41);
    }
    assert(plain_text(cards[60]@)) by {
        reveal_strlit("Ship the part that is finished.");
        assert(cards[60] == "Ship the part that is finished.");
        reveal_with_fuel(plain_from_char, 32);
    }
    assert(plain_text(cards[61]@)) by {
        reveal_strlit("Sleep on it. This is a method, not an excuse.");
        assert(cards[61] == "Sleep on it. This is a method, not an excuse.");
        assert(plain_from_char(cards[61]@, 40)) by {
            reveal_with_fuel(plain_from_char, 6);
        }
        reveal_with_fuel(plain_from_char, 41);
    }
    assert(plain_text(cards[62]@)) by {
        reveal_strlit("Solve a simpler problem first, then work up.");
        assert(cards[62] == "Solve a simpler problem first, then work up.");
        assert(plain_from_char(cards[62]@, 40)) by {
            reveal_with_fuel(plain_from_char, 5);
        }
        reveal_with_fuel(plain_from_char, 41);
    }
    assert(plain_text(cards[63]@)) by {
        reveal_strlit("Split it until one piece is obviously doable.");
        assert(cards[63] == "Split it until one piece is obviously doable.");
        assert(plain_from_char(cards[63]@, 40)) by {
            reveal_with_fuel(plain_from_char, 6);
        }
        reveal_with_fuel(plain_from_char, 41);
    }
    assert(plain_text(cards[64]@)) by {
        reveal_strlit("Start from the answer and work backwards.");
        assert(cards[64] == "Start from the answer and work backwards.");
        assert(plain_from_char(cards[64]@, 40)) by {
            reveal_with_fuel(plain_from_char, 2);
        }
        reveal_with_fuel(plain_from_char, 41);
    }
    assert(plain_text(cards[65]@)) by {
        reveal_strlit("Start in the middle.");
        assert(cards[65] == "Start in the middle.");
        reveal_with_fuel(plain_from_char, 21);
    }
    assert(plain_text(cards[66]@)) by {
        reveal_strlit("State the problem in one sentence. Then delete half of it.");
        assert(cards[66] == "State the problem in one sentence. Then delete half of it.");
        assert(plain_from_char(cards[66]@, 40)) by {
            reveal_with_fuel(plain_from_char, 19);
        }
        reveal_with_fuel(plain_from_char, 41);
    }
    assert(plain_text(cards[67]@)) by {
        reveal_strlit("Try\n\t-a smaller case\n\t-a special case\n\t-the opposite");
        assert(cards[67] == "Try\n\t-a smaller case\n\t-a special case\n\t-the opposite");
        assert(plain_from_char(cards[67]@, 40)) by {
            reveal_with_fuel(plain_from_char, 13);
        }
        reveal_with_fuel(plain_from_char, 41);
    }
    assert(plain_text(cards[68]@)) by {
        reveal_strlit("What are you taking on trust?");
        assert(cards[68] == "What are you taking on trust?");
        reveal_with_fuel(plain_from_char, 30);
    }
    assert(plain_text(cards[69]@)) by {
        reveal_strlit("What changed? Start there.");
        assert(cards[69] == "What changed? Start there.");
        reveal_with_fuel(plain_from_char, 27);
    }
    assert(plain_text(cards[70]@)) by {
        reveal_strlit("What happens if you simply do not do it?");
        assert(cards[70] == "What happens if you simply do not do it?");
        reveal_with_fuel(plain_from_char, 41);
    }
    assert(plain_text(cards[71]@)) by {
        reveal_strlit("What is the actual question? Ask it out loud.");
        assert(cards[71] == "What is the actual question? Ask it out loud.");
        assert(plain_from_char(cards[71]@, 40)) by {
            reveal_with_fuel(plain_from_char, 6);
        }
        reveal_with_fuel(plain_from_char, 41);
    }
    assert(plain_text(cards[72]@)) by {
        reveal_strlit("What is the last thing that has to be true before this ends?");
        assert(cards[72] == "What is the last thing that has to be true before this ends?");
        assert(plain_from_char(cards[72]@, 40)) by {
            reveal_with_fuel(plain_from_char, 21);
        }
        reveal_with_fuel(plain_from_char, 41);
    }
    assert(plain_text(cards[73]@)) by {
        reveal_strlit("What is the laziest thing that would work?");
        assert(cards[73] == "What is the laziest thing that would work?");
        assert(plain_from_char(cards[73]@, 40)) by {
            reveal_with_fuel(plain_from_char, 3);
        }
        reveal_with_fuel(plain_from_char, 41);
    }
    assert(plain_text(cards[74]@)) by {
        reveal_strlit("What is the standard solution? Start from it.");
        assert(cards[74] == "What is the standard solution? Start from it.");
        assert(plain_from_char(cards[74]@, 40)) by {
            reveal_with_fuel(plain_from_char, 6);
        }
        reveal_with_fuel(plain_from_char, 41);
    }
    assert(plain_text(cards[75]@)) by {
        reveal_strlit("What would count as evidence that this is solved?");
        assert(cards[75] == "What would count as evidence that this is solved?");
        assert(plain_from_char(cards[75]@, 40)) by {
            reveal_with_fuel(plain_from_char, 10);
        }
        reveal_with_fuel(plain_from_char, 41);
    }
    assert(plain_text(cards[76]@)) by {
        reveal_strlit("What would this look like if it were easy?");
        assert(cards[76] == "What would this look like if it were easy?");
        assert(plain_from_char(cards[76]@, 40)) by {
            reveal_with_fuel(plain_from_char, 3);
        }
        reveal_with_fuel(plain_from_char, 41);
    }
    assert(plain_text(cards[77]@)) by {
        reveal_strlit("What would you remove if you had to remove something?");
        assert(cards[77] == "What would you remove if you had to remove something?");
        assert(plain_from_char(cards[77]@, 40)) by {
            reveal_with_fuel(plain_from_char, 14);
        }
        reveal_with_fuel(plain_from_char, 41);
    }
    assert(plain_text(cards[78]@)) by {
        reveal_strlit("What would you tell someone else to do here?");
        assert(cards[78] == "What would you tell someone else to do here?");
        assert(plain_from_char(cards[78]@, 40)) by {
            reveal_with_fuel(plain_from_char, 5);
        }
        reveal_with_fuel(plain_from_char, 41);
    }
    assert(plain_text(cards[79]@)) by {
        reveal_strlit("When did it last work?");
        assert(cards[79] == "When did it last work?");
        reveal_with_fuel(plain_from_char, 23);
    }
    assert(plain_text(cards[80]@)) by {
        reveal_strlit("Where have you seen this shape of problem before?");
        assert(cards[80] == "Where have you seen this shape of problem before?");
        assert(plain_from_char(cards[80]@, 40)) by {
            reveal_with_fuel(plain_from_char, 10);
        }
        reveal_with_fuel(plain_from_char, 41);
    }
    assert(plain_text(cards[81]@)) by {
        reveal_strlit("Which choice is easier to undo?");
        assert(cards[81] == "Which choice is easier to undo?");
        reveal_with_fuel(plain_from_char, 32);
    }
    assert(plain_text(cards[82]@)) by {
        reveal_strlit("Which constraint is real, and which is only habit?");
        assert(cards[82] == "Which constraint is real, and which is only habit?");
        assert(plain_from_char(cards[82]@, 40)) by {
            reveal_with_fuel(plain_from_char, 11);
        }
        reveal_with_fuel(plain_from_char, 41);
    }
    assert(plain_text(cards[83]@)) by {
        reveal_strlit("Which part is hard? Point at it.");
        assert(cards[83] == "Which part is hard? Point at it.");
        reveal_with_fuel(plain_from_char, 33);
    }
    assert(plain_text(cards[84]@)) by {
        reveal_strlit("Who has already done this? Read what they did.");
        assert(cards[84] == "Who has already done this? Read what they did.");
        assert(plain_from_char(cards[84]@, 40)) by {
            reveal_with_fuel(plain_from_char, 7);
        }
        reveal_with_fuel(plain_from_char, 41);
    }
    assert(plain_text(cards[85]@)) by {
        reveal_strlit("Whose problem is this actually?");
        assert(cards[85] == "Whose problem is this actually?");
        reveal_with_fuel(plain_from_char, 32);
    }
    assert(plain_text(cards[86]@)) by {
        reveal_strlit("Would you regret this in a year, or only on Friday?");
        assert(cards[86] == "Would you regret this in a year, or only on Friday?");
        assert(plain_from_char(cards[86]@, 40)) by {
            reveal_with_fuel(plain_from_char, 12);
        }
        reveal_with_fuel(plain_from_char, 41);
    }
    assert(plain_text(cards[87]@)) by {
        reveal_strlit("Write down what you want, not the method you had in mind.");
        assert(cards[87] == "Write down what you want, not the method you had in mind.");
        assert(plain_from_char(cards[87]@, 40)) by {
            reveal_with_fuel(plain_from_char, 18);
        }
        reveal_with_fuel(plain_from_char, 41);
    }
    assert(plain_text(cards[88]@)) by {
        reveal_strlit("Write the part you can already see.");
        assert(cards[88] == "Write the part you can already see.");
        reveal_with_fuel(plain_from_char, 36);
    }
    assert(plain_text(cards[89]@)) by {
        reveal_strlit("Write the question you would post, then post it.");
        assert(cards[89] == "Write the question you would post, then post it.");
        assert(plain_from_char(cards[89]@, 40)) by {
            reveal_with_fuel(plain_from_char, 9);
        }
        reveal_with_fuel(plain_from_char, 41);
    }
    assert(plain_from(cards, 90));
    assert(plain_from(cards, 89));
    assert(plain_from(cards, 88));
    assert(plain_from(cards, 87));
    assert(plain_from(cards, 86));
    assert(plain_from(cards, 85));
    assert(plain_from(cards, 84));
    assert(plain_from(cards, 83));
    assert(plain_from(cards, 82));
    assert(plain_from(cards, 81));
    assert(plain_from(cards, 80));
    assert(plain_from(cards, 79));
    assert(plain_from(cards, 78));
    assert(plain_from(cards, 77));
    assert(plain_from(cards, 76));
    assert(plain_from(cards, 75));
    assert(plain_from(cards, 74));
    assert(plain_from(cards, 73));
    assert(plain_from(cards, 72));
    assert(plain_from(cards, 71));
    assert(plain_from(cards, 70));
    assert(plain_from(cards, 69));
    assert(plain_from(cards, 68));
    assert(plain_from(cards, 67));
    assert(plain_from(cards, 66));
    assert(plain_from(cards, 65));
    assert(plain_from(cards, 64));
    assert(plain_from(cards, 63));
    assert(plain_from(cards, 62));
    assert(plain_from(cards, 61));
    assert(plain_from(cards, 60));
    assert(plain_from(cards, 59));
    assert(plain_from(cards, 58));
    assert(plain_from(cards, 57));
    assert(plain_from(cards, 56));
    assert(plain_from(cards, 55));
    assert(plain_from(cards, 54));
    assert(plain_from(cards, 53));
    assert(plain_from(cards, 52));
    assert(plain_from(cards, 51));
    assert(plain_from(cards, 50));
    assert(plain_from(cards, 49));
    assert(plain_from(cards, 48));
    assert(plain_from(cards, 47));
    assert(plain_from(cards, 46));
    assert(plain_from(cards, 45));
    assert(plain_from(cards, 44));
    assert(plain_from(cards, 43));
    assert(plain_from(cards, 42));
    assert(plain_from(cards, 41));
    assert(plain_from(cards, 40));
    assert(plain_from(cards, 39));
    assert(plain_from(cards, 38));
    assert(plain_from(cards, 37));
    assert(plain_from(cards, 36));
    assert(plain_from(cards, 35));
    assert(plain_from(cards, 34));
    assert(plain_from(cards, 33));
    assert(plain_from(cards, 32));
    assert(plain_from(cards, 31));
    assert(plain_from(cards, 30));
    assert(plain_from(cards, 29));
    assert(plain_from(cards, 28));
    assert(plain_from(cards, 27));
    assert(plain_from(cards, 26));
    assert(plain_from(cards, 25));
    assert(plain_from(cards, 24));
    assert(plain_from(cards, 23));
    assert(plain_from(cards, 22));
    assert(plain_from(cards, 21));
    assert(plain_from(cards, 20));
    assert(plain_from(cards, 19));
    assert(plain_from(cards, 18));
    assert(plain_from(cards, 17));
    assert(plain_from(cards, 16));
    assert(plain_from(cards, 15));
    assert(plain_from(cards, 14));
    assert(plain_from(cards, 13));
    assert(plain_from(cards, 12));
    assert(plain_from(cards, 11));
    assert(plain_from(cards, 10));
    assert(plain_from(cards, 9));
    assert(plain_from(cards, 8));
    assert(plain_from(cards, 7));
    assert(plain_from(cards, 6));
    assert(plain_from(cards, 5));
    assert(plain_from(cards, 4));
    assert(plain_from(cards, 3));
    assert(plain_from(cards, 2));
    assert(plain_from(cards, 1));
    assert(plain_from(cards, 0));
}

} // verus!
