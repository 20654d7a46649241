//! The absurd: freedom, finitude, and the stories you tell to avoid both.
//!
//! Every card is written for this crate. The register is drawn from the
//! existentialist line rather than its texts - Kierkegaard on anxiety, the
//! crowd, and deciding without certainty; Nietzsche on whether you would take
//! this life again; Heraclitus on standing in nothing that holds still;
//! Ecclesiastes on being forgotten; Montaigne on how little you actually know.
//! Camus and Sartre are in copyright, so their themes are here and none of
//! their formulations are; any card that drifted toward a borrowed phrasing
//! was rewritten before it went in.
//!
//! The deck addresses you directly and does not soften. Every card says `you`
//! in one form or another, and the crate's tests enforce it; that rule is what
//! keeps it apart from the decks that only state. Not softening is editorial,
//! and no test holds it.
//!
//! It is meant to push toward acting, which is what the tradition was always
//! for.

use vstd::prelude::*;
use crate::deck::{in_order_from, plain_from};
use crate::text::{plain_from_char, plain_text, text_before};
use crate::{Deck, Provenance};

verus! {

/// The cards of the absurd deck, sorted by their first line.
pub const CARDS: [&'static str; 86] = [
    "Anxiety is not a warning. It is the sound of your freedom. Ask what it is pointing at.",
    "Choose which to keep\n\t-your comfort\n\t-your reasons",
    "Count the summers you have left. Now answer the question again.",
    "Do the small honest thing before you attempt the large sincere one.",
    "Everyone agrees with you. That should trouble you more than it does.",
    "Everything you build will be kept up by someone who did not care to.",
    "If it counted for nothing, would you still do it? That answer matters.",
    "In three generations nobody will know your name. What do you do this afternoon?",
    "Name both\n\t-what you fear\n\t-what you would do without it",
    "Nobody is coming to give you permission.",
    "Nothing hands your life a meaning. You are going to have to.",
    "Nothing you are standing on is holding still.",
    "Some of what you call impossible is only expensive. Which part?",
    "Somebody thinks about you more than you would guess. Behave as if that is so.",
    "Someone is waiting for a sentence from you. You know which sentence.",
    "Something you do most weeks, you will do for the last time and not notice.",
    "Suppose you had to live this exact day again without end. Would you change the day, or your objection to it?",
    "The excuse you use most often: is it true?",
    "The most honest sentence about your situation is one you have not said aloud.",
    "The task will not stay done. Do it anyway, or stop saying you will.",
    "The thing you would do if you were braver is smaller than you think.",
    "The thing you would do unpaid answers a question you keep avoiding.",
    "What do you know, as against what you were told?",
    "What you are avoiding will still be there when you are older and tireder.",
    "What you call your personality may be a set of habits you never revisited.",
    "Whatever you decide, decide it as yourself and not as the type of person you are.",
    "Whose approval are you saving up? Spend it.",
    "Whose part are you playing so well that you forgot it was a part?",
    "Would you take this life again, unaltered? Answer before you start improving it.",
    "Write down your true reason. Show it to nobody.",
    "You are\n\t-what you do\n\t-not what you meant",
    "You are afraid of the wrong item on the list. Find the right one.",
    "You are angry with someone for a thing you also do.",
    "You are being reasonable, which is how you were talked out of it.",
    "You are being vague on purpose. Be specific and see what happens.",
    "You are certain. Of how much, and on whose word?",
    "You are consistent. You may only be repeating yourself.",
    "You are free in ways you have never once tested.",
    "You are halfway through something and you do not know which half.",
    "You are in a body, in a room, on a particular day. Start there.",
    "You are keeping a grudge in good repair. Ask what it is for.",
    "You are keeping something alive that died a while ago. Which?",
    "You are living a life you would not have chosen for someone you love.",
    "You are looking for a purpose the way you look for keys you are holding.",
    "You are not going back. There is no back.",
    "You are not required to resolve it today. You are required to look at it.",
    "You are not the person who started this sentence.",
    "You are older than you have ever been. Act like someone who noticed.",
    "You are paying for this with days. Check the price against the thing.",
    "You are performing for people who are performing for you.",
    "You are pretending not to know something. Name it.",
    "You are protecting yourself from a piece of information you already have.",
    "You are saving it up. For whom, and for when?",
    "You are waiting for a better version of yourself to show up and act.",
    "You are waiting to be certain. You are not going to be certain.",
    "You believe it because you have believed it for a long time.",
    "You borrowed your standards. Ask whether you would have chosen them.",
    "You call it an obligation. Name the person who would actually stop you.",
    "You cannot think your way to this. You will have to do something.",
    "You chose this. Say it out loud and see whether it holds.",
    "You do the same thing daily and call it a life. Is the objection to the repetition or to the thing?",
    "You explain yourself with a story. Ask who wrote it.",
    "You finished it and nothing happened. What did you expect to happen?",
    "You had a reason ready. That is what makes it suspect.",
    "You have\n\t-time you can count\n\t-time you cannot",
    "You have a finite number of mornings and have spent one of them here.",
    "You have been deciding not to decide. It counted as a decision.",
    "You have been kind in ways that cost you nothing. Try the other kind.",
    "You have been rehearsing. The rehearsal was the life.",
    "You have changed your mind about everything once already.",
    "You have enough information. You have had enough for a while.",
    "You have never checked the thing your whole plan rests on.",
    "You keep the name and replace everything else. Say what makes it still you.",
    "You keep your life in a drawer marked later.",
    "You know what to do. You are haggling over the price.",
    "You said you had no time. Account for yesterday.",
    "You say it is simply who you are. When did you decide that?",
    "You want the good parts kept and the rest revised. It does not come apart.",
    "You want your life to matter to someone not yet born.",
    "You will not find it by looking harder in the same place.",
    "You will not get this decade back. Say what it is for.",
    "You would not accept your own explanation from anyone else.",
    "You would not spend money the way you are spending this week.",
    "You would rather be certain and wrong than uncertain and moving.",
    "You would tell a friend the truth about this in one sentence. Say it to yourself.",
    "Your dread is about the choice, not the outcome.",
];

/// The absurd deck, as its contents stand.
pub open spec fn spec_deck() -> Deck {
    Deck {
        id: "absurd",
        name: "The Absurd",
        blurb: "Freedom, finitude, and the stories you tell to avoid both.",
        provenance: Provenance::Original,
        cards: vstd::array::spec_array_as_slice(&CARDS),
    }
}

/// The absurd deck.
#[verifier::when_used_as_spec(spec_deck)]
pub fn deck() -> (d: Deck)
    ensures
        d == spec_deck(),
{
    Deck {
        id: "absurd",
        name: "The Absurd",
        blurb: "Freedom, finitude, and the stories you tell to avoid both.",
        provenance: Provenance::Original,
        cards: &CARDS,
    }
}

/// The cards are in strictly increasing text order, so no two read alike.
pub proof fn lemma_cards_in_order()
    ensures
        in_order_from(spec_deck().cards@, 0),
{
    broadcast use vstd::array::group_array_axioms;

    let cards = spec_deck().cards@;
    assert(cards.len() == 86);
    assert(text_before(cards[0]@, cards[1]@)) by {
        reveal_strlit("Anxiety is not a warning. It is the sound of your freedom. Ask what it is pointing at.");
        reveal_strlit("Choose which to keep\n\t-your comfort\n\t-your reasons");
        assert(cards[0] == "Anxiety is not a warning. It is the sound of your freedom. Ask what it is pointing at.");
        assert(cards[1] == "Choose which to keep\n\t-your comfort\n\t-your reasons");
        reveal_with_fuel(text_before, 2);
    }
    assert(text_before(cards[1]@, cards[2]@)) by {
        reveal_strlit("Choose which to keep\n\t-your comfort\n\t-your reasons");
        reveal_strlit("Count the summers you have left. Now answer the question again.");
        assert(cards[1] == "Choose which to keep\n\t-your comfort\n\t-your reasons");
        assert(cards[2] == "Count the summers you have left. Now answer the question again.");
        reveal_with_fuel(text_before, 3);
    }
    assert(text_before(cards[2]@, cards[3]@)) by {
        reveal_strlit("Count the summers you have left. Now answer the question again.");
        reveal_strlit("Do the small honest thing before you attempt the large sincere one.");
        assert(cards[2] == "Count the summers you have left. Now answer the question again.");
        assert(cards[3] == "Do the small honest thing before you attempt the large sincere one.");
        reveal_with_fuel(text_before, 2);
    }
    assert(text_before(cards[3]@, cards[4]@)) by {
        reveal_strlit("Do the small honest thing before you attempt the large sincere one.");
        reveal_strlit("Everyone agrees with you. That should trouble you more than it does.");
        assert(cards[3] == "Do the small honest thing before you attempt the large sincere one.");
        assert(cards[4] == "Everyone agrees with you. That should trouble you more than it does.");
        reveal_with_fuel(text_before, 2);
    }
    assert(text_before(cards[4]@, cards[5]@)) by {
        reveal_strlit("Everyone agrees with you. That should trouble you more than it does.");
        reveal_strlit("Everything you build will be kept up by someone who did not care to.");
        assert(cards[4] == "Everyone agrees with you. That should trouble you more than it does.");
        assert(cards[5] == "Everything you build will be kept up by someone who did not care to.");
        reveal_with_fuel(text_before, 7);
    }
    assert(text_before(cards[5]@, cards[6]@)) by {
        reveal_strlit("Everything you build will be kept up by someone who did not care to.");
        reveal_strlit("If it counted for nothing, would you still do it? That answer matters.");
        assert(cards[5] == "Everything you build will be kept up by someone who did not care to.");
        assert(cards[6] == "If it counted for nothing, would you still do it? That answer matters.");
        reveal_with_fuel(text_before, 2);
    }
    assert(text_before(cards[6]@, cards[7]@)) by {
        reveal_strlit("If it counted for nothing, would you still do it? That answer matters.");
        reveal_strlit("In three generations nobody will know your name. What do you do this afternoon?");
        assert(cards[6] == "If it counted for nothing, would you still do it? That answer matters.");
        assert(cards[7] == "In three generations nobody will know your name. What do you do this afternoon?");
        reveal_with_fuel(text_before, 3);
    }
    assert(text_before(cards[7]@, cards[8]@)) by {
        reveal_strlit("In three generations nobody will know your name. What do you do this afternoon?");
        reveal_strlit("Name both\n\t-what you fear\n\t-what you would do without it");
        assert(cards[7] == "In three generations nobody will know your name. What do you do this afternoon?");
        assert(cards[8] == "Name both\n\t-what you fear\n\t-what you would do without it");
        reveal_with_fuel(text_before, 2);
    }
    assert(text_before(cards[8]@, cards[9]@)) by {
        reveal_strlit("Name both\n\t-what you fear\n\t-what you would do without it");
        reveal_strlit("Nobody is coming to give you permission.");
        assert(cards[8] == "Name both\n\t-what you fear\n\t-what you would do without it");
        assert(cards[9] == "Nobody is coming to give you permission.");
        reveal_with_fuel(text_before, 3);
    }
    assert(text_before(cards[9]@, cards[10]@)) by {
        reveal_strlit("Nobody is coming to give you permission.");
        reveal_strlit("Nothing hands your life a meaning. You are going to have to.");
        assert(cards[9] == "Nobody is coming to give you permission.");
        assert(cards[10] == "Nothing hands your life a meaning. You are going to have to.");
        reveal_with_fuel(text_before, 4);
    }
    assert(text_before(cards[10]@, cards[11]@)) by {
        reveal_strlit("Nothing hands your life a meaning. You are going to have to.");
        reveal_strlit("Nothing you are standing on is holding still.");
        assert(cards[10] == "Nothing hands your life a meaning. You are going to have to.");
        assert(cards[11] == "Nothing you are standing on is holding still.");
        reveal_with_fuel(text_before, 10);
    }
    assert(text_before(cards[11]@, cards[12]@)) by {
        reveal_strlit("Nothing you are standing on is holding still.");
        reveal_strlit("Some of what you call impossible is only expensive. Which part?");
        assert(cards[11] == "Nothing you are standing on is holding still.");
        assert(cards[12] == "Some of what you call impossible is only expensive. Which part?");
        reveal_with_fuel(text_before, 2);
    }
    assert(text_before(cards[12]@, cards[13]@)) by {
        reveal_strlit("Some of what you call impossible is only expensive. Which part?");
        reveal_strlit("Somebody thinks about you more than you would guess. Behave as if that is so.");
        assert(cards[12] == "Some of what you call impossible is only expensive. Which part?");
        assert(cards[13] == "Somebody thinks about you more than you would guess. Behave as if that is so.");
        reveal_with_fuel(text_before, 6);
    }
    assert(text_before(cards[13]@, cards[14]@)) by {
        reveal_strlit("Somebody thinks about you more than you would guess. Behave as if that is so.");
        reveal_strlit("Someone is waiting for a sentence from you. You know which sentence.");
        assert(cards[13] == "Somebody thinks about you more than you would guess. Behave as if that is so.");
        assert(cards[14] == "Someone is waiting for a sentence from you. You know which sentence.");
        reveal_with_fuel(text_before, 6);
    }
    assert(text_before(cards[14]@, cards[15]@)) by {
        reveal_strlit("Someone is waiting for a sentence from you. You know which sentence.");
        reveal_strlit("Something you do most weeks, you will do for the last time and not notice.");
        assert(cards[14] == "Someone is waiting for a sentence from you. You know which sentence.");
        assert(cards[15] == "Something you do most weeks, you will do for the last time and not notice.");
        reveal_with_fuel(text_before, 6);
    }
    assert(text_before(cards[15]@, cards[16]@)) by {
        reveal_strlit("Something you do most weeks, you will do for the last time and not notice.");
        reveal_strlit("Suppose you had to live this exact day again without end. Would you change the day, or your objection to it?");
        assert(cards[15] == "Something you do most weeks, you will do for the last time and not notice.");
        assert(cards[16] == "Suppose you had to live this exact day again without end. Would you change the day, or your objection to it?");
        reveal_with_fuel(text_before, 3);
    }
    assert(text_before(cards[16]@, cards[17]@)) by {
        reveal_strlit("Suppose you had to live this exact day again without end. Would you change the day, or your objection to it?");
        reveal_strlit("The excuse you use most often: is it true?");
        assert(cards[16] == "Suppose you had to live this exact day again without end. Would you change the day, or your objection to it?");
        assert(cards[17] == "The excuse you use most often: is it true?");
        reveal_with_fuel(text_before, 2);
    }
    assert(text_before(cards[17]@, cards[18]@)) by {
        reveal_strlit("The excuse you use most often: is it true?");
        reveal_strlit("The most honest sentence about your situation is one you have not said aloud.");
        assert(cards[17] == "The excuse you use most often: is it true?");
        assert(cards[18] == "The most honest sentence about your situation is one you have not said aloud.");
        reveal_with_fuel(text_before, 6);
    }
    assert(text_before(cards[18]@, cards[19]@)) by {
        reveal_strlit("The most honest sentence about your situation is one you have not said aloud.");
        reveal_strlit("The task will not stay done. Do it anyway, or stop saying you will.");
        assert(cards[18] == "The most honest sentence about your situation is one you have not said aloud.");
        assert(cards[19] == "The task will not stay done. Do it anyway, or stop saying you will.");
        reveal_with_fuel(text_before, 6);
    }
    assert(text_before(cards[19]@, cards[20]@)) by {
        reveal_strlit("The task will not stay done. Do it anyway, or stop saying you will.");
        reveal_strlit("The thing you would do if you were braver is smaller than you think.");
        assert(cards[19] == "The task will not stay done. Do it anyway, or stop saying you will.");
        assert(cards[20] == "The thing you would do if you were braver is smaller than you think.");
        reveal_with_fuel(text_before, 7);
    }
    assert(text_before(cards[20]@, cards[21]@)) by {
        reveal_strlit("The thing you would do if you were braver is smaller than you think.");
        reveal_strlit("The thing you would do unpaid answers a question you keep avoiding.");
        assert(cards[20] == "The thing you would do if you were braver is smaller than you think.");
        assert(cards[21] == "The thing you would do unpaid answers a question you keep avoiding.");
        reveal_with_fuel(text_before, 25);
    }
    assert(text_before(cards[21]@, cards[22]@)) by {
        reveal_strlit("The thing you would do unpaid answers a question you keep avoiding.");
        reveal_strlit("What do you know, as against what you were told?");
        assert(cards[21] == "The thing you would do unpaid answers a question you keep avoiding.");
        assert(cards[22] == "What do you know, as against what you were told?");
        reveal_with_fuel(text_before, 2);
    }
    assert(text_before(cards[22]@, cards[23]@)) by {
        reveal_strlit("What do you know, as against what you were told?");
        reveal_strlit("What you are avoiding will still be there when you are older and tireder.");
        assert(cards[22] == "What do you know, as against what you were told?");
        assert(cards[23] == "What you are avoiding will still be there when you are older and tireder.");
        reveal_with_fuel(text_before, 7);
    }
    assert(text_before(cards[23]@, cards[24]@)) by {
        reveal_strlit("What you are avoiding will still be there when you are older and tireder.");
        reveal_strlit("What you call your personality may be a set of habits you never revisited.");
        assert(cards[23] == "What you are avoiding will still be there when you are older and tireder.");
        assert(cards[24] == "What you call your personality may be a set of habits you never revisited.");
        reveal_with_fuel(text_before, 11);
    }
    assert(text_before(cards[24]@, cards[25]@)) by {
        reveal_strlit("What you call your personality may be a set of habits you never revisited.");
        reveal_strlit("Whatever you decide, decide it as yourself and not as the type of person you are.");
        assert(cards[24] == "What you call your personality may be a set of habits you never revisited.");
        assert(cards[25] == "Whatever you decide, decide it as yourself and not as the type of person you are.");
        reveal_with_fuel(text_before, 6);
    }
    assert(text_before(cards[25]@, cards[26]@)) by {
        reveal_strlit("Whatever you decide, decide it as yourself and not as the type of person you are.");
        reveal_strlit("Whose approval are you saving up? Spend it.");
        assert(cards[25] == "Whatever you decide, decide it as yourself and not as the type of person you are.");
        assert(cards[26] == "Whose approval are you saving up? Spend it.");
        reveal_with_fuel(text_before, 4);
    }
    assert(text_before(cards[26]@, cards[27]@)) by {
        reveal_strlit("Whose approval are you saving up? Spend it.");
        reveal_strlit("Whose part are you playing so well that you forgot it was a part?");
        assert(cards[26] == "Whose approval are you saving up? Spend it.");
        assert(cards[27] == "Whose part are you playing so well that you forgot it was a part?");
        reveal_with_fuel(text_before, 8);
    }
    assert(text_before(cards[27]@, cards[28]@)) by {
        reveal_strlit("Whose part are you playing so well that you forgot it was a part?");
        reveal_strlit("Would you take this life again, unaltered? Answer before you start improving it.");
        assert(cards[27] == "Whose part are you playing so well that you forgot it was a part?");
        assert(cards[28] == "Would you take this life again, unaltered? Answer before you start improving it.");
        reveal_with_fuel(text_before, 3);
    }
    assert(text_before(cards[28]@, cards[29]@)) by {
        reveal_strlit("Would you take this life again, unaltered? Answer before you start improving it.");
        reveal_strlit("Write down your true reason. Show it to nobody.");
        assert(cards[28] == "Would you take this life again, unaltered? Answer before you start improving it.");
        assert(cards[29] == "Write down your true reason. Show it to nobody.");
        reveal_with_fuel(text_before, 3);
    }
    assert(text_before(cards[29]@, cards[30]@)) by {
        reveal_strlit("Write down your true reason. Show it to nobody.");
        reveal_strlit("You are\n\t-what you do\n\t-not what you meant");
        assert(cards[29] == "Write down your true reason. Show it to nobody.");
        assert(cards[30] == "You are\n\t-what you do\n\t-not what you meant");
        reveal_with_fuel(text_before, 2);
    }
    assert(text_before(cards[30]@, cards[31]@)) by {
        reveal_strlit("You are\n\t-what you do\n\t-not what you meant");
        reveal_strlit("You are afraid of the wrong item on the list. Find the right one.");
        assert(cards[30] == "You are\n\t-what you do\n\t-not what you meant");
        assert(cards[31] == "You are afraid of the wrong item on the list. Find the right one.");
        reveal_with_fuel(text_before, 9);
    }
    assert(text_before(cards[31]@, cards[32]@)) by {
        reveal_strlit("You are afraid of the wrong item on the list. Find the right one.");
        reveal_strlit("You are angry with someone for a thing you also do.");
        assert(cards[31] == "You are afraid of the wrong item on the list. Find the right one.");
        assert(cards[32] == "You are angry with someone for a thing you also do.");
        reveal_with_fuel(text_before, 11);
    }
    assert(text_before(cards[32]@, cards[33]@)) by {
        reveal_strlit("You are angry with someone for a thing you also do.");
        reveal_strlit("You are being reasonable, which is how you were talked out of it.");
        assert(cards[32] == "You are angry with someone for a thing you also do.");
        assert(cards[33] == "You are being reasonable, which is how you were talked out of it.");
        reveal_with_fuel(text_before, 10);
    }
    assert(text_before(cards[33]@, cards[34]@)) by {
        reveal_strlit("You are being reasonable, which is how you were talked out of it.");
        reveal_strlit("You are being vague on purpose. Be specific and see what happens.");
        assert(cards[33] == "You are being reasonable, which is how you were talked out of it.");
        assert(cards[34] == "You are being vague on purpose. Be specific and see what happens.");
        reveal_with_fuel(text_before, 16);
    }
    assert(text_before(cards[34]@, cards[35]@)) by {
        reveal_strlit("You are being vague on purpose. Be specific and see what happens.");
        reveal_strlit("You are certain. Of how much, and on whose word?");
        assert(cards[34] == "You are being vague on purpose. Be specific and see what happens.");
        assert(cards[35] == "You are certain. Of how much, and on whose word?");
        reveal_with_fuel(text_before, 10);
    }
    assert(text_before(cards[35]@, cards[36]@)) by {
        reveal_strlit("You are certain. Of how much, and on whose word?");
        reveal_strlit("You are consistent. You may only be repeating yourself.");
        assert(cards[35] == "You are certain. Of how much, and on whose word?");
        assert(cards[36] == "You are consistent. You may only be repeating yourself.");
        reveal_with_fuel(text_before, 11);
    }
    assert(text_before(cards[36]@, cards[37]@)) by {
        reveal_strlit("You are consistent. You may only be repeating yourself.");
        reveal_strlit("You are free in ways you have never once tested.");
        assert(cards[36] == "You are consistent. You may only be repeating yourself.");
        assert(cards[37] == "You are free in ways you have never once tested.");
        reveal_with_fuel(text_before, 10);
    }
    assert(text_before(cards[37]@, cards[38]@)) by {
        reveal_strlit("You are free in ways you have never once tested.");
        reveal_strlit("You are halfway through something and you do not know which half.");
        assert(cards[37] == "You are free in ways you have never once tested.");
        assert(cards[38] == "You are halfway through something and you do not know which half.");
        reveal_with_fuel(text_before, 10);
    }
    assert(text_before(cards[38]@, cards[39]@)) by {
        reveal_strlit("You are halfway through something and you do not know which half.");
        reveal_strlit("You are in a body, in a room, on a particular day. Start there.");
        assert(cards[38] == "You are halfway through something and you do not know which half.");
        assert(cards[39] == "You are in a body, in a room, on a particular day. Start there.");
        reveal_with_fuel(text_before, 10);
    }
    assert(text_before(cards[39]@, cards[40]@)) by {
        reveal_strlit("You are in a body, in a room, on a particular day. Start there.");
        reveal_strlit("You are keeping a grudge in good repair. Ask what it is for.");
        assert(cards[39] == "You are in a body, in a room, on a particular day. Start there.");
        assert(cards[40] == "You are keeping a grudge in good repair. Ask what it is for.");
        reveal_with_fuel(text_before, 10);
    }
    assert(text_before(cards[40]@, cards[41]@)) by {
        reveal_strlit("You are keeping a grudge in good repair. Ask what it is for.");
        reveal_strlit("You are keeping something alive that died a while ago. Which?");
        assert(cards[40] == "You are keeping a grudge in good repair. Ask what it is for.");
        assert(cards[41] == "You are keeping something alive that died a while ago. Which?");
        reveal_with_fuel(text_before, 18);
    }
    assert(text_before(cards[41]@, cards[42]@)) by {
        reveal_strlit("You are keeping something alive that died a while ago. Which?");
        reveal_strlit("You are living a life you would not have chosen for someone you love.");
        assert(cards[41] == "You are keeping something alive that died a while ago. Which?");
        assert(cards[42] == "You are living a life you would not have chosen for someone you love.");
        reveal_with_fuel(text_before, 10);
    }
    assert(text_before(cards[42]@, cards[43]@)) by {
        reveal_strlit("You are living a life you would not have chosen for someone you love.");
        reveal_strlit("You are looking for a purpose the way you look for keys you are holding.");
        assert(cards[42] == "You are living a life you would not have chosen for someone you love.");
        assert(cards[43] == "You are looking for a purpose the way you look for keys you are holding.");
        reveal_with_fuel(text_before, 11);
    }
    assert(text_before(cards[43]@, cards[44]@)) by {
        reveal_strlit("You are looking for a purpose the way you look for keys you are holding.");
        reveal_strlit("You are not going back. There is no back.");
        assert(cards[43] == "You are looking for a purpose the way you look for keys you are holding.");
        assert(cards[44] == "You are not going back. There is no back.");
        reveal_with_fuel(text_before, 10);
    }
    assert(text_before(cards[44]@, cards[45]@)) by {
        reveal_strlit("You are not going back. There is no back.");
        reveal_strlit("You are not required to resolve it today. You are required to look at it.");
        assert(cards[44] == "You are not going back. There is no back.");
        assert(cards[45] == "You are not required to resolve it today. You are required to look at it.");
        reveal_with_fuel(text_before, 14);
    }
    assert(text_before(cards[45]@, cards[46]@)) by {
        reveal_strlit("You are not required to resolve it today. You are required to look at it.");
        reveal_strlit("You are not the person who started this sentence.");
        assert(cards[45] == "You are not required to resolve it today. You are required to look at it.");
        assert(cards[46] == "You are not the person who started this sentence.");
        reveal_with_fuel(text_before, 14);
    }
    assert(text_before(cards[46]@, cards[47]@)) by {
        reveal_strlit("You are not the person who started this sentence.");
        reveal_strlit("You are older than you have ever been. Act like someone who noticed.");
        assert(cards[46] == "You are not the person who started this sentence.");
        assert(cards[47] == "You are older than you have ever been. Act like someone who noticed.");
        reveal_with_fuel(text_before, 10);
    }
    assert(text_before(cards[47]@, cards[48]@)) by {
        reveal_strlit("You are older than you have ever been. Act like someone who noticed.");
        reveal_strlit("You are paying for this with days. Check the price against the thing.");
        assert(cards[47] == "You are older than you have ever been. Act like someone who noticed.");
        assert(cards[48] == "You are paying for this with days. Check the price against the thing.");
        reveal_with_fuel(text_before, 10);
    }
    assert(text_before(cards[48]@, cards[49]@)) by {
        reveal_strlit("You are paying for this with days. Check the price against the thing.");
        reveal_strlit("You are performing for people who are performing for you.");
        assert(cards[48] == "You are paying for this with days. Check the price against the thing.");
        assert(cards[49] == "You are performing for people who are performing for you.");
        reveal_with_fuel(text_before, 11);
    }
    assert(text_before(cards[49]@, cards[50]@)) by {
        reveal_strlit("You are performing for people who are performing for you.");
        reveal_strlit("You are pretending not to know something. Name it.");
        assert(cards[49] == "You are performing for people who are performing for you.");
        assert(cards[50] == "You are pretending not to know something. Name it.");
        reveal_with_fuel(text_before, 11);
    }
    assert(text_before(cards[50]@, cards[51]@)) by {
        reveal_strlit("You are pretending not to know something. Name it.");
        reveal_strlit("You are protecting yourself from a piece of information you already have.");
        assert(cards[50] == "You are pretending not to know something. Name it.");
        assert(cards[51] == "You are protecting yourself from a piece of information you already have.");
        reveal_with_fuel(text_before, 12);
    }
    assert(text_before(cards[51]@, cards[52]@)) by {
        reveal_strlit("You are protecting yourself from a piece of information you already have.");
        reveal_strlit("You are saving it up. For whom, and for when?");
        assert(cards[51] == "You are protecting yourself from a piece of information you already have.");
        assert(cards[52] == "You are saving it up. For whom, and for when?");
        reveal_with_fuel(text_before, 10);
    }
    assert(text_before(cards[52]@, cards[53]@)) by {
        reveal_strlit("You are saving it up. For whom, and for when?");
        reveal_strlit("You are waiting for a better version of yourself to show up and act.");
        assert(cards[52] == "You are saving it up. For whom, and for when?");
        assert(cards[53] == "You are waiting for a better version of yourself to show up and act.");
        reveal_with_fuel(text_before, 10);
    }
    assert(text_before(cards[53]@, cards[54]@)) by {
        reveal_strlit("You are waiting for a better version of yourself to show up and act.");
        reveal_strlit("You are waiting to be certain. You are not going to be certain.");
        assert(cards[53] == "You are waiting for a better version of yourself to show up and act.");
        assert(cards[54] == "You are waiting to be certain. You are not going to be certain.");
        reveal_with_fuel(text_before, 18);
    }
    assert(text_before(cards[54]@, cards[55]@)) by {
        reveal_strlit("You are waiting to be certain. You are not going to be certain.");
        reveal_strlit("You believe it because you have believed it for a long time.");
        assert(cards[54] == "You are waiting to be certain. You are not going to be certain.");
        assert(cards[55] == "You believe it because you have believed it for a long time.");
        reveal_with_fuel(text_before, 6);
    }
    assert(text_before(cards[55]@, cards[56]@)) by {
        reveal_strlit("You believe it because you have believed it for a long time.");
        reveal_strlit("You borrowed your standards. Ask whether you would have chosen them.");
        assert(cards[55] == "You believe it because you have believed it for a long time.");
        assert(cards[56] == "You borrowed your standards. Ask whether you would have chosen them.");
        reveal_with_fuel(text_before, 7);
    }
    assert(text_before(cards[56]@, cards[57]@)) by {
        reveal_strlit("You borrowed your standards. Ask whether you would have chosen them.");
        reveal_strlit("You call it an obligation. Name the person who would actually stop you.");
        assert(cards[56] == "You borrowed your standards. Ask whether you would have chosen them.");
        assert(cards[57] == "You call it an obligation. Name the person who would actually stop you.");
        reveal_with_fuel(text_before, 6);
    }
    assert(text_before(cards[57]@, cards[58]@)) by {
        reveal_strlit("You call it an obligation. Name the person who would actually stop you.");
        reveal_strlit("You cannot think your way to this. You will have to do something.");
        assert(cards[57] == "You call it an obligation. Name the person who would actually stop you.");
        assert(cards[58] == "You cannot think your way to this. You will have to do something.");
        reveal_with_fuel(text_before, 8);
    }
    assert(text_before(cards[58]@, cards[59]@)) by {
        reveal_strlit("You cannot think your way to this. You will have to do something.");
        reveal_strlit("You chose this. Say it out loud and see whether it holds.");
        assert(cards[58] == "You cannot think your way to this. You will have to do something.");
        assert(cards[59] == "You chose this. Say it out loud and see whether it holds.");
        reveal_with_fuel(text_before, 7);
    }
    assert(text_before(cards[59]@, cards[60]@)) by {
        reveal_strlit("You chose this. Say it out loud and see whether it holds.");
        reveal_strlit("You do the same thing daily and call it a life. Is the objection to the repetition or to the thing?");
        assert(cards[59] == "You chose this. Say it out loud and see whether it holds.");
        assert(cards[60] == "You do the same thing daily and call it a life. Is the objection to the repetition or to the thing?");
        reveal_with_fuel(text_before, 6);
    }
    assert(text_before(cards[60]@, cards[61]@)) by {
        reveal_strlit("You do the same thing daily and call it a life. Is the objection to the repetition or to the thing?");
        reveal_strlit("You explain yourself with a story. Ask who wrote it.");
        assert(cards[60] == "You do the same thing daily and call it a life. Is the objection to the repetition or to the thing?");
        assert(cards[61] == "You explain yourself with a story. Ask who wrote it.");
        reveal_with_fuel(text_before, 6);
    }
    assert(text_before(cards[61]@, cards[62]@)) by {
        reveal_strlit("You explain yourself with a story. Ask who wrote it.");
        reveal_strlit("You finished it and nothing happened. What did you expect to happen?");
        assert(cards[61] == "You explain yourself with a story. Ask who wrote it.");
        assert(cards[62] == "You finished it and nothing happened. What did you expect to happen?");
        reveal_with_fuel(text_before, 6);
    }
    assert(text_before(cards[62]@, cards[63]@)) by {
        reveal_strlit("You finished it and nothing happened. What did you expect to happen?");
        reveal_strlit("You had a reason ready. That is what makes it suspect.");
        assert(cards[62] == "You finished it and nothing happened. What did you expect to happen?");
        assert(cards[63] == "You had a reason ready. That is what makes it suspect.");
        reveal_with_fuel(text_before, 6);
    }
    assert(text_before(cards[63]@, cards[64]@)) by {
        reveal_strlit("You had a reason ready. That is what makes it suspect.");
        reveal_strlit("You have\n\t-time you can count\n\t-time you cannot");
        assert(cards[63] == "You had a reason ready. That is what makes it suspect.");
        assert(cards[64] == "You have\n\t-time you can count\n\t-time you cannot");
        reveal_with_fuel(text_before, 8);
    }
    assert(text_before(cards[64]@, cards[65]@)) by {
        reveal_strlit("You have\n\t-time you can count\n\t-time you cannot");
        reveal_strlit("You have a finite number of mornings and have spent one of them here.");
        assert(cards[64] == "You have\n\t-time you can count\n\t-time you cannot");
        assert(cards[65] == "You have a finite number of mornings and have spent one of them here.");
        reveal_with_fuel(text_before, 10);
    }
    assert(text_before(cards[65]@, cards[66]@)) by {
        reveal_strlit("You have a finite number of mornings and have spent one of them here.");
        reveal_strlit("You have been deciding not to decide. It counted as a decision.");
        assert(cards[65] == "You have a finite number of mornings and have spent one of them here.");
        assert(cards[66] == "You have been deciding not to decide. It counted as a decision.");
        reveal_with_fuel(text_before, 11);
    }
    assert(text_before(cards[66]@, cards[67]@)) by {
        reveal_strlit("You have been deciding not to decide. It counted as a decision.");
        reveal_strlit("You have been kind in ways that cost you nothing. Try the other kind.");
        assert(cards[66] == "You have been deciding not to decide. It counted as a decision.");
        assert(cards[67] == "You have been kind in ways that cost you nothing. Try the other kind.");
        reveal_with_fuel(text_before, 16);
    }
    assert(text_before(cards[67]@, cards[68]@)) by {
        reveal_strlit("You have been kind in ways that cost you nothing. Try the other kind.");
        reveal_strlit("You have been rehearsing. The rehearsal was the life.");
        assert(cards[67] == "You have been kind in ways that cost you nothing. Try the other kind.");
        assert(cards[68] == "You have been rehearsing. The rehearsal was the life.");
        reveal_with_fuel(text_before, 16);
    }
    assert(text_before(cards[68]@, cards[69]@)) by {
        reveal_strlit("You have been rehearsing. The rehearsal was the life.");
        reveal_strlit("You have changed your mind about everything once already.");
        assert(cards[68] == "You have been rehearsing. The rehearsal was the life.");
        assert(cards[69] == "You have changed your mind about everything once already.");
        reveal_with_fuel(text_before, 11);
    }
    assert(text_before(cards[69]@, cards[70]@)) by {
        reveal_strlit("You have changed your mind about everything once already.");
        reveal_strlit("You have enough information. You have had enough for a while.");
        assert(cards[69] == "You have changed your mind about everything once already.");
        assert(cards[70] == "You have enough information. You have had enough for a while.");
        reveal_with_fuel(text_before, 11);
    }
    assert(text_before(cards[70]@, cards[71]@)) by {
        reveal_strlit("You have enough information. You have had enough for a while.");
        reveal_strlit("You have never checked the thing your whole plan rests on.");
        assert(cards[70] == "You have enough information. You have had enough for a while.");
        assert(cards[71] == "You have never checked the thing your whole plan rests on.");
        reveal_with_fuel(text_before, 11);
    }
    assert(text_before(cards[71]@, cards[72]@)) by {
        reveal_strlit("You have never checked the thing your whole plan rests on.");
        reveal_strlit("You keep the name and replace everything else. Say what makes it still you.");
        assert(cards[71] == "You have never checked the thing your whole plan rests on.");
        assert(cards[72] == "You keep the name and replace everything else. Say what makes it still you.");
        reveal_with_fuel(text_before, 6);
    }
    assert(text_before(cards[72]@, cards[73]@)) by {
        reveal_strlit("You keep the name and replace everything else. Say what makes it still you.");
        reveal_strlit("You keep your life in a drawer marked later.");
        assert(cards[72] == "You keep the name and replace everything else. Say what makes it still you.");
        assert(cards[73] == "You keep your life in a drawer marked later.");
        reveal_with_fuel(text_before, 11);
    }
    assert(text_before(cards[73]@, cards[74]@)) by {
        reveal_strlit("You keep your life in a drawer marked later.");
        reveal_strlit("You know what to do. You are haggling over the price.");
        assert(cards[73] == "You keep your life in a drawer marked later.");
        assert(cards[74] == "You know what to do. You are haggling over the price.");
        reveal_with_fuel(text_before, 7);
    }
    assert(text_before(cards[74]@, cards[75]@)) by {
        reveal_strlit("You know what to do. You are haggling over the price.");
        reveal_strlit("You said you had no time. Account for yesterday.");
        assert(cards[74] == "You know what to do. You are haggling over the price.");
        assert(cards[75] == "You said you had no time. Account for yesterday.");
        reveal_with_fuel(text_before, 6);
    }
    assert(text_before(cards[75]@, cards[76]@)) by {
        reveal_strlit("You said you had no time. Account for yesterday.");
        reveal_strlit("You say it is simply who you are. When did you decide that?");
        assert(cards[75] == "You said you had no time. Account for yesterday.");
        assert(cards[76] == "You say it is simply who you are. When did you decide that?");
        reveal_with_fuel(text_before, 8);
    }
    assert(text_before(cards[76]@, cards[77]@)) by {
        reveal_strlit("You say it is simply who you are. When did you decide that?");
        reveal_strlit("You want the good parts kept and the rest revised. It does not come apart.");
        assert(cards[76] == "You say it is simply who you are. When did you decide that?");
        assert(cards[77] == "You want the good parts kept and the rest revised. It does not come apart.");
        reveal_with_fuel(text_before, 6);
    }
    assert(text_before(cards[77]@, cards[78]@)) by {
        reveal_strlit("You want the good parts kept and the rest revised. It does not come apart.");
        reveal_strlit("You want your life to matter to someone not yet born.");
        assert(cards[77] == "You want the good parts kept and the rest revised. It does not come apart.");
        assert(cards[78] == "You want your life to matter to someone not yet born.");
        reveal_with_fuel(text_before, 11);
    }
    assert(text_before(cards[78]@, cards[79]@)) by {
        reveal_strlit("You want your life to matter to someone not yet born.");
        reveal_strlit("You will not find it by looking harder in the same place.");
        assert(cards[78] == "You want your life to matter to someone not yet born.");
        assert(cards[79] == "You will not find it by looking harder in the same place.");
        reveal_with_fuel(text_before, 7);
    }
    assert(text_before(cards[79]@, cards[80]@)) by {
        reveal_strlit("You will not find it by looking harder in the same place.");
        reveal_strlit("You will not get this decade back. Say what it is for.");
        assert(cards[79] == "You will not find it by looking harder in the same place.");
        assert(cards[80] == "You will not get this decade back. Say what it is for.");
        reveal_with_fuel(text_before, 15);
    }
    assert(text_before(cards[80]@, cards[81]@)) by {
        reveal_strlit("You will not get this decade back. Say what it is for.");
        reveal_strlit("You would not accept your own explanation from anyone else.");
        assert(cards[80] == "You will not get this decade back. Say what it is for.");
        assert(cards[81] == "You would not accept your own explanation from anyone else.");
        reveal_with_fuel(text_before, 7);
    }
    assert(text_before(cards[81]@, cards[82]@)) by {
        reveal_strlit("You would not accept your own explanation from anyone else.");
        reveal_strlit("You would not spend money the way you are spending this week.");
        assert(cards[81] == "You would not accept your own explanation from anyone else.");
        assert(cards[82] == "You would not spend money the way you are spending this week.");
        reveal_with_fuel(text_before, 16);
    }
    assert(text_before(cards[82]@, cards[83]@)) by {
        reveal_strlit("You would not spend money the way you are spending this week.");
        reveal_strlit("You would rather be certain and wrong than uncertain and moving.");
        assert(cards[82] == "You would not spend money the way you are spending this week.");
        assert(cards[83] == "You would rather be certain and wrong than uncertain and moving.");
        reveal_with_fuel(text_before, 12);
    }
    assert(text_before(cards[83]@, cards[84]@)) by {
        reveal_strlit("You would rather be certain and wrong than uncertain and moving.");
        reveal_strlit("You would tell a friend the truth about this in one sentence. Say it to yourself.");
        assert(cards[83] == "You would rather be certain and wrong than uncertain and moving.");
        assert(cards[84] == "You would tell a friend the truth about this in one sentence. Say it to yourself.");
        reveal_with_fuel(text_before, 12);
    }
    assert(text_before(cards[84]@, cards[85]@)) by {
        reveal_strlit("You would tell a friend the truth about this in one sentence. Say it to yourself.");
        reveal_strlit("Your dread is about the choice, not the outcome.");
        assert(cards[84] == "You would tell a friend the truth about this in one sentence. Say it to yourself.");
        assert(cards[85] == "Your dread is about the choice, not the outcome.");
        reveal_with_fuel(text_before, 5);
    }
    assert(in_order_from(cards, 85));
    assert(in_order_from(cards, 84));
    assert(in_order_from(cards, 83));
    assert(in_order_from(cards, 82));
    assert(in_order_from(cards, 81));
    assert(in_order_from(cards, 80));
    assert(in_order_from(cards, 79));
    assert(in_order_from(cards, 78));
    assert(in_order_from(cards, 77));
    assert(in_order_from(cards, 76));
    assert(in_order_from(cards, 75));
    assert(in_order_from(cards, 74));
    assert(in_order_from(cards, 73));
    assert(in_order_from(cards, 72));
    assert(in_order_from(cards, 71));
    assert(in_order_from(cards, 70));
    assert(in_order_from(cards, 69));
    assert(in_order_from(cards, 68));
    assert(in_order_from(cards, 67));
    assert(in_order_from(cards, 66));
    assert(in_order_from(cards, 65));
    assert(in_order_from(cards, 64));
    assert(in_order_from(cards, 63));
    assert(in_order_from(cards, 62));
    assert(in_order_from(cards, 61));
    assert(in_order_from(cards, 60));
    assert(in_order_from(cards, 59));
    assert(in_order_from(cards, 58));
    assert(in_order_from(cards, 57));
    assert(in_order_from(cards, 56));
    assert(in_order_from(cards, 55));
    assert(in_order_from(cards, 54));
    assert(in_order_from(cards, 53));
    assert(in_order_from(cards, 52));
    assert(in_order_from(cards, 51));
    assert(in_order_from(cards, 50));
    assert(in_order_from(cards, 49));
    assert(in_order_from(cards, 48));
    assert(in_order_from(cards, 47));
    assert(in_order_from(cards, 46));
    assert(in_order_from(cards, 45));
    assert(in_order_from(cards, 44));
    assert(in_order_from(cards, 43));
    assert(in_order_from(cards, 42));
    assert(in_order_from(cards, 41));
    assert(in_order_from(cards, 40));
    assert(in_order_from(cards, 39));
    assert(in_order_from(cards, 38));
    assert(in_order_from(cards, 37));
    assert(in_order_from(cards, 36));
    assert(in_order_from(cards, 35));
    assert(in_order_from(cards, 34));
    assert(in_order_from(cards, 33));
    assert(in_order_from(cards, 32));
    assert(in_order_from(cards, 31));
    assert(in_order_from(cards, 30));
    assert(in_order_from(cards, 29));
    assert(in_order_from(cards, 28));
    assert(in_order_from(cards, 27));
    assert(in_order_from(cards, 26));
    assert(in_order_from(cards, 25));
    assert(in_order_from(cards, 24));
    assert(in_order_from(cards, 23));
    assert(in_order_from(cards, 22));
    assert(in_order_from(cards, 21));
    assert(in_order_from(cards, 20));
    assert(in_order_from(cards, 19));
    assert(in_order_from(cards, 18));
    assert(in_order_from(cards, 17));
    assert(in_order_from(cards, 16));
    assert(in_order_from(cards, 15));
    assert(in_order_from(cards, 14));
    assert(in_order_from(cards, 13));
    assert(in_order_from(cards, 12));
    assert(in_order_from(cards, 11));
    assert(in_order_from(cards, 10));
    assert(in_order_from(cards, 9));
    assert(in_order_from(cards, 8));
    assert(in_order_from(cards, 7));
    assert(in_order_from(cards, 6));
    assert(in_order_from(cards, 5));
    assert(in_order_from(cards, 4));
    assert(in_order_from(cards, 3));
    assert(in_order_from(cards, 2));
    assert(in_order_from(cards, 1));
    assert(in_order_from(cards, 0));
}


/// Every card is plain text: ASCII, with no NUL and neither record separator.
pub proof fn lemma_cards_plain()
    ensures
        plain_from(spec_deck().cards@, 0),
{
    broadcast use vstd::array::group_array_axioms;

    let cards = spec_deck().cards@;
    assert(cards.len() == 86);
    assert(plain_text(cards[0]@)) by {
        reveal_strlit("Anxiety is not a warning. It is the sound of your freedom. Ask what it is pointing at.");
        assert(cards[0] == "Anxiety is not a warning. It is the sound of your freedom. Ask what it is pointing at.");
        assert(plain_from_char(cards[0]@, 80)) by {
            reveal_with_fuel(plain_from_char, 7);
        }
        assert(plain_from_char(cards[0]@, 40)) by {
            reveal_with_fuel(plain_from_char, 41);
        }
        reveal_with_fuel(plain_from_char, 41);
    }
    assert(plain_text(cards[1]@)) by {
        reveal_strlit("Choose which to keep\n\t-your comfort\n\t-your reasons");
        assert(cards[1] == "Choose which to keep\n\t-your comfort\n\t-your reasons");
        assert(plain_from_char(cards[1]@, 40)) by {
            reveal_with_fuel(plain_from_char, 11);
        }
        reveal_with_fuel(plain_from_char, 41);
    }
    assert(plain_text(cards[2]@)) by {
        reveal_strlit("Count the summers you have left. Now answer the question again.");
        assert(cards[2] == "Count the summers you have left. Now answer the question again.");
        assert(plain_from_char(cards[2]@, 40)) by {
            reveal_with_fuel(plain_from_char, 24);
        }
        reveal_with_fuel(plain_from_char, 41);
    }
    assert(plain_text(cards[3]@)) by {
        reveal_strlit("Do the small honest thing before you attempt the large sincere one.");
        assert(cards[3] == "Do the small honest thing before you attempt the large sincere one.");
        assert(plain_from_char(cards[3]@, 40)) by {
            reveal_with_fuel(plain_from_char, 28);
        }
        reveal_with_fuel(plain_from_char, 41);
    }
    assert(plain_text(cards[4]@)) by {
        reveal_strlit("Everyone agrees with you. That should trouble you more than it does.");
        assert(cards[4] == "Everyone agrees with you. That should trouble you more than it does.");
        assert(plain_from_char(cards[4]@, 40)) by {
            reveal_with_fuel(plain_from_char, 29);
        }
        reveal_with_fuel(plain_from_char, 41);
    }
    assert(plain_text(cards[5]@)) by {
        reveal_strlit("Everything you build will be kept up by someone who did not care to.");
        assert(cards[5] == "Everything you build will be kept up by someone who did not care to.");
        assert(plain_from_char(cards[5]@, 40)) by {
            reveal_with_fuel(plain_from_char, 29);
        }
        reveal_with_fuel(plain_from_char, 41);
    }
    assert(plain_text(cards[6]@)) by {
        reveal_strlit("If it counted for nothing, would you still do it? That answer matters.");
        assert(cards[6] == "If it counted for nothing, would you still do it? That answer matters.");
        assert(plain_from_char(cards[6]@, 40)) by {
            reveal_with_fuel(plain_from_char, 31);
        }
        reveal_with_fuel(plain_from_char, 41);
    }
    assert(plain_text(cards[7]@)) by {
        reveal_strlit("In three generations nobody will know your name. What do you do this afternoon?");
        assert(cards[7] == "In three generations nobody will know your name. What do you do this afternoon?");
        assert(plain_from_char(cards[7]@, 40)) by {
            reveal_with_fuel(plain_from_char, 40);
        }
        reveal_with_fuel(plain_from_char, 41);
    }
    assert(plain_text(cards[8]@)) by {
        reveal_strlit("Name both\n\t-what you fear\n\t-what you would do without it");
        assert(cards[8] == "Name both\n\t-what you fear\n\t-what you would do without it");
        assert(plain_from_char(cards[8]@, 40)) by {
            reveal_with_fuel(plain_from_char, 17);
        }
        reveal_with_fuel(plain_from_char, 41);
    }
    assert(plain_text(cards[9]@)) by {
        reveal_strlit("Nobody is coming to give you permission.");
        assert(cards[9] == "Nobody is coming to give you permission.");
        reveal_with_fuel(plain_from_char, 41);
    }
    assert(plain_text(cards[10]@)) by {
        reveal_strlit("Nothing hands your life a meaning. You are going to have to.");
        assert(cards[10] == "Nothing hands your life a meaning. You are going to have to.");
        assert(plain_from_char(cards[10]@, 40)) by {
            reveal_with_fuel(plain_from_char, 21);
        }
        reveal_with_fuel(plain_from_char, 41);
    }
    assert(plain_text(cards[11]@)) by {
        reveal_strlit("Nothing you are standing on is holding still.");
        assert(cards[11] == "Nothing you are standing on is holding still.");
        assert(plain_from_char(cards[11]@, 40)) by {
            reveal_with_fuel(plain_from_char, 6);
        }
        reveal_with_fuel(plain_from_char, 41);
    }
    assert(plain_text(cards[12]@)) by {
        reveal_strlit("Some of what you call impossible is only expensive. Which part?");
        assert(cards[12] == "Some of what you call impossible is only expensive. Which part?");
        assert(plain_from_char(cards[12]@, 40)) by {
            reveal_with_fuel(plain_from_char, 24);
        }
        reveal_with_fuel(plain_from_char, 41);
    }
    assert(plain_text(cards[13]@)) by {
        reveal_strlit("Somebody thinks about you more than you would guess. Behave as if that is so.");
        assert(cards[13] == "Somebody thinks about you more than you would guess. Behave as if that is so.");
        assert(plain_from_char(cards[13]@, 40)) by {
            reveal_with_fuel(plain_from_char, 38);
        }
        reveal_with_fuel(plain_from_char, 41);
    }
    assert(plain_text(cards[14]@)) by {
        reveal_strlit("Someone is waiting for a sentence from you. You know which sentence.");
        assert(cards[14] == "Someone is waiting for a sentence from you. You know which sentence.");
        assert(plain_from_char(cards[14]@, 40)) by {
            reveal_with_fuel(plain_from_char, 29);
        }
        reveal_with_fuel(plain_from_char, 41);
    }
    assert(plain_text(cards[15]@)) by {
        reveal_strlit("Something you do most weeks, you will do for the last time and not notice.");
        assert(cards[15] == "Something you do most weeks, you will do for the last time and not notice.");
        assert(plain_from_char(cards[15]@, 40)) by {
            reveal_with_fuel(plain_from_char, 35);
        }
        reveal_with_fuel(plain_from_char, 41);
    }
    assert(plain_text(cards[16]@)) by {
        reveal_strlit("Suppose you had to live this exact day again without end. Would you change the day, or your objection to it?");
        assert(cards[16] == "Suppose you had to live this exact day again without end. Would you change the day, or your objection to it?");
        assert(plain_from_char(cards[16]@, 80)) by {
            reveal_with_fuel(plain_from_char, 29);
        }
        assert(plain_from_char(cards[16]@, 40)) by {
            reveal_with_fuel(plain_from_char, 41);
        }
        reveal_with_fuel(plain_from_char, 41);
    }
    assert(plain_text(cards[17]@)) by {
        reveal_strlit("The excuse you use most often: is it true?");
        assert(cards[17] == "The excuse you use most often: is it true?");
        assert(plain_from_char(cards[17]@, 40)) by {
            reveal_with_fuel(plain_from_char, 3);
        }
        reveal_with_fuel(plain_from_char, 41);
    }
    assert(plain_text(cards[18]@)) by {
        reveal_strlit("The most honest sentence about your situation is one you have not said aloud.");
        assert(cards[18] == "The most honest sentence about your situation is one you have not said aloud.");
        assert(plain_from_char(cards[18]@, 40)) by {
            reveal_with_fuel(plain_from_char, 38);
        }
        reveal_with_fuel(plain_from_char, 41);
    }
    assert(plain_text(cards[19]@)) by {
        reveal_strlit("The task will not stay done. Do it anyway, or stop saying you will.");
        assert(cards[19] == "The task will not stay done. Do it anyway, or stop saying you will.");
        assert(plain_from_char(cards[19]@, 40)) by {
            reveal_with_fuel(plain_from_char, 28);
        }
        reveal_with_fuel(plain_from_char, 41);
    }
    assert(plain_text(cards[20]@)) by {
        reveal_strlit("The thing you would do if you were braver is smaller than you think.");
        assert(cards[20] == "The thing you would do if you were braver is smaller than you think.");
        assert(plain_from_char(cards[20]@, 40)) by {
            reveal_with_fuel(plain_from_char, 29);
        }
        reveal_with_fuel(plain_from_char, 41);
    }
    assert(plain_text(cards[21]@)) by {
        reveal_strlit("The thing you would do unpaid answers a question you keep avoiding.");
        assert(cards[21] == "The thing you would do unpaid answers a question you keep avoiding.");
        assert(plain_from_char(cards[21]@, 40)) by {
            reveal_with_fuel(plain_from_char, 28);
        }
        reveal_with_fuel(plain_from_char, 41);
    }
    assert(plain_text(cards[22]@)) by {
        reveal_strlit("What do you know, as against what you were told?");
        assert(cards[22] == "What do you know, as against what you were told?");
        assert(plain_from_char(cards[22]@, 40)) by {
            reveal_with_fuel(plain_from_char, 9);
        }
        reveal_with_fuel(plain_from_char, 41);
    }
    assert(plain_text(cards[23]@)) by {
        reveal_strlit("What you are avoiding will still be there when you are older and tireder.");
        assert(cards[23] == "What you are avoiding will still be there when you are older and tireder.");
        assert(plain_from_char(cards[23]@, 40)) by {
            reveal_with_fuel(plain_from_char, 34);
        }
        reveal_with_fuel(plain_from_char, 41);
    }
    assert(plain_text(cards[24]@)) by {
        reveal_strlit("What you call your personality may be a set of habits you never revisited.");
        assert(cards[24] == "What you call your personality may be a set of habits you never revisited.");
        assert(plain_from_char(cards[24]@, 40)) by {
            reveal_with_fuel(plain_from_char, 35);
        }
        reveal_with_fuel(plain_from_char, 41);
    }
    assert(plain_text(cards[25]@)) by {
        reveal_strlit("Whatever you decide, decide it as yourself and not as the type of person you are.");
        assert(cards[25] == "Whatever you decide, decide it as yourself and not as the type of person you are.");
        assert(plain_from_char(cards[25]@, 80)) by {
            reveal_with_fuel(plain_from_char, 2);
        }
        assert(plain_from_char(cards[25]@, 40)) by {
            reveal_with_fuel(plain_from_char, 41);
        }
        reveal_with_fuel(plain_from_char, 41);
    }
    assert(plain_text(cards[26]@)) by {
        reveal_strlit("Whose approval are you saving up? Spend it.");
        assert(cards[26] == "Whose approval are you saving up? Spend it.");
        assert(plain_from_char(cards[26]@, 40)) by {
            reveal_with_fuel(plain_from_char, 4);
        }
        reveal_with_fuel(plain_from_char, 41);
    }
    assert(plain_text(cards[27]@)) by {
        reveal_strlit("Whose part are you playing so well that you forgot it was a part?");
        assert(cards[27] == "Whose part are you playing so well that you forgot it was a part?");
        assert(plain_from_char(cards[27]@, 40)) by {
            reveal_with_fuel(plain_from_char, 26);
        }
        reveal_with_fuel(plain_from_char, 41);
    }
    assert(plain_text(cards[28]@)) by {
        reveal_strlit("Would you take this life again, unaltered? Answer before you start improving it.");
        assert(cards[28] == "Would you take this life again, unaltered? Answer before you start improving it.");
        assert(plain_from_char(cards[28]@, 40)) by {
            reveal_with_fuel(plain_from_char, 41);
        }
        reveal_with_fuel(plain_from_char, 41);
    }
    assert(plain_text(cards[29]@)) by {
        reveal_strlit("Write down your true reason. Show it to nobody.");
        assert(cards[29] == "Write down your true reason. Show it to nobody.");
        assert(plain_from_char(cards[29]@, 40)) by {
            reveal_with_fuel(plain_from_char, 8);
        }
        reveal_with_fuel(plain_from_char, 41);
    }
    assert(plain_text(cards[30]@)) by {
        reveal_strlit("You are\n\t-what you do\n\t-not what you meant");
        assert(cards[30] == "You are\n\t-what you do\n\t-not what you meant");
        assert(plain_from_char(cards[30]@, 40)) by {
            reveal_with_fuel(plain_from_char, 3);
        }
        reveal_with_fuel(plain_from_char, 41);
    }
    assert(plain_text(cards[31]@)) by {
        reveal_strlit("You are afraid of the wrong item on the list. Find the right one.");
        assert(cards[31] == "You are afraid of the wrong item on the list. Find the right one.");
        assert(plain_from_char(cards[31]@, 40)) by {
            reveal_with_fuel(plain_from_char, 26);
        }
        reveal_with_fuel(plain_from_char, 41);
    }
    assert(plain_text(cards[32]@)) by {
        reveal_strlit("You are angry with someone for a thing you also do.");
        assert(cards[32] == "You are angry with someone for a thing you also do.");
        assert(plain_from_char(cards[32]@, 40)) by {
            reveal_with_fuel(plain_from_char, 12);
        }
        reveal_with_fuel(plain_from_char, 41);
    }
    assert(plain_text(cards[33]@)) by {
        reveal_strlit("You are being reasonable, which is how you were talked out of it.");
        assert(cards[33] == "You are being reasonable, which is how you were talked out of it.");
        assert(plain_from_char(cards[33]@, 40)) by {
            reveal_with_fuel(plain_from_char, 26);
        }
        reveal_with_fuel(plain_from_char, 41);
    }
    assert(plain_text(cards[34]@)) by {
        reveal_strlit("You are being vague on purpose. Be specific and see what happens.");
        assert(cards[34] == "You are being vague on purpose. Be specific and see what happens.");
        assert(plain_from_char(cards[34]@, 40)) by {
            reveal_with_fuel(plain_from_char, 26);
        }
        reveal_with_fuel(plain_from_char, 41);
    }
    assert(plain_text(cards[35]@)) by {
        reveal_strlit("You are certain. Of how much, and on whose word?");
        assert(cards[35] == "You are certain. Of how much, and on whose word?");
        assert(plain_from_char(cards[35]@, 40)) by {
            reveal_with_fuel(plain_from_char, 9);
        }
        reveal_with_fuel(plain_from_char, 41);
    }
    assert(plain_text(cards[36]@)) by {
        reveal_strlit("You are consistent. You may only be repeating yourself.");
        assert(cards[36] == "You are consistent. You may only be repeating yourself.");
        assert(plain_from_char(cards[36]@, 40)) by {
            reveal_with_fuel(plain_from_char, 16);
        }
        reveal_with_fuel(plain_from_char, 41);
    }
    assert(plain_text(cards[37]@)) by {
        reveal_strlit("You are free in ways you have never once tested.");
        assert(cards[37] == "You are free in ways you have never once tested.");
        assert(plain_from_char(cards[37]@, 40)) by {
            reveal_with_fuel(plain_from_char, 9);
        }
        reveal_with_fuel(plain_from_char, 41);
    }
    assert(plain_text(cards[38]@)) by {
        reveal_strlit("You are halfway through something and you do not know which half.");
        assert(cards[38] == "You are halfway through something and you do not know which half.");
        assert(plain_from_char(cards[38]@, 40)) by {
            reveal_with_fuel(plain_from_char, 26);
        }
        reveal_with_fuel(plain_from_char, 41);
    }
    assert(plain_text(cards[39]@)) by {
        reveal_strlit("You are in a body, in a room, on a particular day. Start there.");
        assert(cards[39] == "You are in a body, in a room, on a particular day. Start there.");
        assert(plain_from_char(cards[39]@, 40)) by {
            reveal_with_fuel(plain_from_char, 24);
        }
        reveal_with_fuel(plain_from_char, 41);
    }
    assert(plain_text(cards[40]@)) by {
        reveal_strlit("You are keeping a grudge in good repair. Ask what it is for.");
        assert(cards[40] == "You are keeping a grudge in good repair. Ask what it is for.");
        assert(plain_from_char(cards[40]@, 40)) by {
            reveal_with_fuel(plain_from_char, 21);
        }
        reveal_with_fuel(plain_from_char, 41);
    }
    assert(plain_text(cards[41]@)) by {
        reveal_strlit("You are keeping something alive that died a while ago. Which?");
        assert(cards[41] == "You are keeping something alive that died a while ago. Which?");
        assert(plain_from_char(cards[41]@, 40)) by {
            reveal_with_fuel(plain_from_char, 22);
        }
        reveal_with_fuel(plain_from_char, 41);
    }
    assert(plain_text(cards[42]@)) by {
        reveal_strlit("You are living a life you would not have chosen for someone you love.");
        assert(cards[42] == "You are living a life you would not have chosen for someone you love.");
        assert(plain_from_char(cards[42]@, 40)) by {
            reveal_with_fuel(plain_from_char, 30);
        }
        reveal_with_fuel(plain_from_char, 41);
    }
    assert(plain_text(cards[43]@)) by {
        reveal_strlit("You are looking for a purpose the way you look for keys you are holding.");
        assert(cards[43] == "You are looking for a purpose the way you look for keys you are holding.");
        assert(plain_from_char(cards[43]@, 40)) by {
            reveal_with_fuel(plain_from_char, 33);
        }
        reveal_with_fuel(plain_from_char, 41);
    }
    assert(plain_text(cards[44]@)) by {
        reveal_strlit("You are not going back. There is no back.");
        assert(cards[44] == "You are not going back. There is no back.");
        assert(plain_from_char(cards[44]@, 40)) by {
            reveal_with_fuel(plain_from_char, 2);
        }
        reveal_with_fuel(plain_from_char, 41);
    }
    assert(plain_text(cards[45]@)) by {
        reveal_strlit("You are not required to resolve it today. You are required to look at it.");
        assert(cards[45] == "You are not required to resolve it today. You are required to look at it.");
        assert(plain_from_char(cards[45]@, 40)) by {
            reveal_with_fuel(plain_from_char, 34);
        }
        reveal_with_fuel(plain_from_char, 41);
    }
    assert(plain_text(cards[46]@)) by {
        reveal_strlit("You are not the person who started this sentence.");
        assert(cards[46] == "You are not the person who started this sentence.");
        assert(plain_from_char(cards[46]@, 40)) by {
            reveal_with_fuel(plain_from_char, 10);
        }
        reveal_with_fuel(plain_from_char, 41);
    }
    assert(plain_text(cards[47]@)) by {
        reveal_strlit("You are older than you have ever been. Act like someone who noticed.");
        assert(cards[47] == "You are older than you have ever been. Act like someone who noticed.");
        assert(plain_from_char(cards[47]@, 40)) by {
            reveal_with_fuel(plain_from_char, 29);
        }
        reveal_with_fuel(plain_from_char, 41);
    }
    assert(plain_text(cards[48]@)) by {
        reveal_strlit("You are paying for this with days. Check the price against the thing.");
        assert(cards[48] == "You are paying for this with days. Check the price against the thing.");
        assert(plain_from_char(cards[48]@, 40)) by {
            reveal_with_fuel(plain_from_char, 30);
        }
        reveal_with_fuel(plain_from_char, 41);
    }
    assert(plain_text(cards[49]@)) by {
        reveal_strlit("You are performing for people who are performing for you.");
        assert(cards[49] == "You are performing for people who are performing for you.");
        assert(plain_from_char(cards[49]@, 40)) by {
            reveal_with_fuel(plain_from_char, 18);
        }
        reveal_with_fuel(plain_from_char, 41);
    }
    assert(plain_text(cards[50]@)) by {
        reveal_strlit("You are pretending not to know something. Name it.");
        assert(cards[50] == "You are pretending not to know something. Name it.");
        assert(plain_from_char(cards[50]@, 40)) by {
            reveal_with_fuel(plain_from_char, 11);
        }
        reveal_with_fuel(plain_from_char, 41);
    }
    assert(plain_text(cards[51]@)) by {
        reveal_strlit("You are protecting yourself from a piece of information you already have.");
        assert(cards[51] == "You are protecting yourself from a piece of information you already have.");
        assert(plain_from_char(cards[51]@, 40)) by {
            reveal_with_fuel(plain_from_char, 34);
        }
        reveal_with_fuel(plain_from_char, 41);
    }
    assert(plain_text(cards[52]@)) by {
        reveal_strlit("You are saving it up. For whom, and for when?");
        assert(cards[52] == "You are saving it up. For whom, and for when?");
        assert(plain_from_char(cards[52]@, 40)) by {
            reveal_with_fuel(plain_from_char, 6);
        }
        reveal_with_fuel(plain_from_char, 41);
    }
    assert(plain_text(cards[53]@)) by {
        reveal_strlit("You are waiting for a better version of yourself to show up and act.");
        assert(cards[53] == "You are waiting for a better version of yourself to show up and act.");
        assert(plain_from_char(cards[53]@, 40)) by {
            reveal_with_fuel(plain_from_char, 29);
        }
        reveal_with_fuel(plain_from_char, 41);
    }
    assert(plain_text(cards[54]@)) by {
        reveal_strlit("You are waiting to be certain. You are not going to be certain.");
        assert(cards[54] == "You are waiting to be certain. You are not going to be certain.");
        assert(plain_from_char(cards[54]@, 40)) by {
            reveal_with_fuel(plain_from_char, 24);
        }
        reveal_with_fuel(plain_from_char, 41);
    }
    assert(plain_text(cards[55]@)) by {
        reveal_strlit("You believe it because you have believed it for a long time.");
        assert(cards[55] == "You believe it because you have believed it for a long time.");
        assert(plain_from_char(cards[55]@, 40)) by {
            reveal_with_fuel(plain_from_char, 21);
        }
        reveal_with_fuel(plain_from_char, 41);
    }
    assert(plain_text(cards[56]@)) by {
        reveal_strlit("You borrowed your standards. Ask whether you would have chosen them.");
        assert(cards[56] == "You borrowed your standards. Ask whether you would have chosen them.");
        assert(plain_from_char(cards[56]@, 40)) by {
            reveal_with_fuel(plain_from_char, 29);
        }
        reveal_with_fuel(plain_from_char, 41);
    }
    assert(plain_text(cards[57]@)) by {
        reveal_strlit("You call it an obligation. Name the person who would actually stop you.");
        assert(cards[57] == "You call it an obligation. Name the person who would actually stop you.");
        assert(plain_from_char(cards[57]@, 40)) by {
            reveal_with_fuel(plain_from_char, 32);
        }
        reveal_with_fuel(plain_from_char, 41);
    }
    assert(plain_text(cards[58]@)) by {
        reveal_strlit("You cannot think your way to this. You will have to do something.");
        assert(cards[58] == "You cannot think your way to this. You will have to do something.");
        assert(plain_from_char(cards[58]@, 40)) by {
            reveal_with_fuel(plain_from_char, 26);
        }
        reveal_with_fuel(plain_from_char, 41);
    }
    assert(plain_text(cards[59]@)) by {
        reveal_strlit("You chose this. Say it out loud and see whether it holds.");
        assert(cards[59] == "You chose this. Say it out loud and see whether it holds.");
        assert(plain_from_char(cards[59]@, 40)) by {
            reveal_with_fuel(plain_from_char, 18);
        }
        reveal_with_fuel(plain_from_char, 41);
    }
    assert(plain_text(cards[60]@)) by {
        reveal_strlit("You do the same thing daily and call it a life. Is the objection to the repetition or to the thing?");
        assert(cards[60] == "You do the same thing daily and call it a life. Is the objection to the repetition or to the thing?");
        assert(plain_from_char(cards[60]@, 80)) by {
            reveal_with_fuel(plain_from_char, 20);
        }
        assert(plain_from_char(cards[60]@, 40)) by {
            reveal_with_fuel(plain_from_char, 41);
        }
        reveal_with_fuel(plain_from_char, 41);
    }
    assert(plain_text(cards[61]@)) by {
        reveal_strlit("You explain yourself with a story. Ask who wrote it.");
        assert(cards[61] == "You explain yourself with a story. Ask who wrote it.");
        assert(plain_from_char(cards[61]@, 40)) by {
            reveal_with_fuel(plain_from_char, 13);
        }
        reveal_with_fuel(plain_from_char, 41);
    }
    assert(plain_text(cards[62]@)) by {
        reveal_strlit("You finished it and nothing happened. What did you expect to happen?");
        assert(cards[62] == "You finished it and nothing happened. What did you expect to happen?");
        assert(plain_from_char(cards[62]@, 40)) by {
            reveal_with_fuel(plain_from_char, 29);
        }
        reveal_with_fuel(plain_from_char, 41);
    }
    assert(plain_text(cards[63]@)) by {
        reveal_strlit("You had a reason ready. That is what makes it suspect.");
        assert(cards[63] == "You had a reason ready. That is what makes it suspect.");
        assert(plain_from_char(cards[63]@, 40)) by {
            reveal_with_fuel(plain_from_char, 15);
        }
        reveal_with_fuel(plain_from_char, 41);
    }
    assert(plain_text(cards[64]@)) by {
        reveal_strlit("You have\n\t-time you can count\n\t-time you cannot");
        assert(cards[64] == "You have\n\t-time you can count\n\t-time you cannot");
        assert(plain_from_char(cards[64]@, 40)) by {
            reveal_with_fuel(plain_from_char, 8);
        }
        reveal_with_fuel(plain_from_char, 41);
    }
    assert(plain_text(cards[65]@)) by {
        reveal_strlit("You have a finite number of mornings and have spent one of them here.");
        assert(cards[65] == "You have a finite number of mornings and have spent one of them here.");
        assert(plain_from_char(cards[65]@, 40)) by {
            reveal_with_fuel(plain_from_char, 30);
        }
        reveal_with_fuel(plain_from_char, 41);
    }
    assert(plain_text(cards[66]@)) by {
        reveal_strlit("You have been deciding not to decide. It counted as a decision.");
        assert(cards[66] == "You have been deciding not to decide. It counted as a decision.");
        assert(plain_from_char(cards[66]@, 40)) by {
            reveal_with_fuel(plain_from_char, 24);
        }
        reveal_with_fuel(plain_from_char, 41);
    }
    assert(plain_text(cards[67]@)) by {
        reveal_strlit("You have been kind in ways that cost you nothing. Try the other kind.");
        assert(cards[67] == "You have been kind in ways that cost you nothing. Try the other kind.");
        assert(plain_from_char(cards[67]@, 40)) by {
            reveal_with_fuel(plain_from_char, 30);
        }
        reveal_with_fuel(plain_from_char, 41);
    }
    assert(plain_text(cards[68]@)) by {
        reveal_strlit("You have been rehearsing. The rehearsal was the life.");
        assert(cards[68] == "You have been rehearsing. The rehearsal was the life.");
        assert(plain_from_char(cards[68]@, 40)) by {
            reveal_with_fuel(plain_from_char, 14);
        }
        reveal_with_fuel(plain_from_char, 41);
    }
    assert(plain_text(cards[69]@)) by {
        reveal_strlit("You have changed your mind about everything once already.");
        assert(cards[69] == "You have changed your mind about everything once already.");
        assert(plain_from_char(cards[69]@, 40)) by {
            reveal_with_fuel(plain_from_char, 18);
        }
        reveal_with_fuel(plain_from_char, 41);
    }
    assert(plain_text(cards[70]@)) by {
        reveal_strlit("You have enough information. You have had enough for a while.");
        assert(cards[70] == "You have enough information. You have had enough for a while.");
        assert(plain_from_char(cards[70]@, 40)) by {
            reveal_with_fuel(plain_from_char, 22);
        }
        reveal_with_fuel(plain_from_char, 41);
    }
    assert(plain_text(cards[71]@)) by {
        reveal_strlit("You have never checked the thing your whole plan rests on.");
        assert(cards[71] == "You have never checked the thing your whole plan rests on.");
        assert(plain_from_char(cards[71]@, 40)) by {
            reveal_with_fuel(plain_from_char, 19);
        }
        reveal_with_fuel(plain_from_char, 41);
    }
    assert(plain_text(cards[72]@)) by {
        reveal_strlit("You keep the name and replace everything else. Say what makes it still you.");
        assert(cards[72] == "You keep the name and replace everything else. Say what makes it still you.");
        assert(plain_from_char(cards[72]@, 40)) by {
            reveal_with_fuel(plain_from_char, 36);
        }
        reveal_with_fuel(plain_from_char, 41);
    }
    assert(plain_text(cards[73]@)) by {
        reveal_strlit("You keep your life in a drawer marked later.");
        assert(cards[73] == "You keep your life in a drawer marked later.");
        assert(plain_from_char(cards[73]@, 40)) by {
            reveal_with_fuel(plain_from_char, 5);
        }
        reveal_with_fuel(plain_from_char, 41);
    }
    assert(plain_text(cards[74]@)) by {
        reveal_strlit("You know what to do. You are haggling over the price.");
        assert(cards[74] == "You know what to do. You are haggling over the price.");
        assert(plain_from_char(cards[74]@, 40)) by {
            reveal_with_fuel(plain_from_char, 14);
        }
        reveal_with_fuel(plain_from_char, 41);
    }
    assert(plain_text(cards[75]@)) by {
        reveal_strlit("You said you had no time. Account for yesterday.");
        assert(cards[75] == "You said you had no time. Account for yesterday.");
        assert(plain_from_char(cards[75]@, 40)) by {
            reveal_with_fuel(plain_from_char, 9);
        }
        reveal_with_fuel(plain_from_char, 41);
    }
    assert(plain_text(cards[76]@)) by {
        reveal_strlit("You say it is simply who you are. When did you decide that?");
        assert(cards[76] == "You say it is simply who you are. When did you decide that?");
        assert(plain_from_char(cards[76]@, 40)) by {
            reveal_with_fuel(plain_from_char, 20);
        }
        reveal_with_fuel(plain_from_char, 41);
    }
    assert(plain_text(cards[77]@)) by {
        reveal_strlit("You want the good parts kept and the rest revised. It does not come apart.");
        assert(cards[77] == "You want the good parts kept and the rest revised. It does not come apart.");
        assert(plain_from_char(cards[77]@, 40)) by {
            reveal_with_fuel(plain_from_char, 35);
        }
        reveal_with_fuel(plain_from_char, 41);
    }
    assert(plain_text(cards[78]@)) by {
        reveal_strlit("You want your life to matter to someone not yet born.");
        assert(cards[78] == "You want your life to matter to someone not yet born.");
        assert(plain_from_char(cards[78]@, 40)) by {
            reveal_with_fuel(plain_from_char, 14);
        }
        reveal_with_fuel(plain_from_char, 41);
    }
    assert(plain_text(cards[79]@)) by {
        reveal_strlit("You will not find it by looking harder in the same place.");
        assert(cards[79] == "You will not find it by looking harder in the same place.");
        assert(plain_from_char(cards[79]@, 40)) by {
            reveal_with_fuel(plain_from_char, 18);
        }
        reveal_with_fuel(plain_from_char, 41);
    }
    assert(plain_text(cards[80]@)) by {
        reveal_strlit("You will not get this decade back. Say what it is for.");
        assert(cards[80] == "You will not get this decade back. Say what it is for.");
        assert(plain_from_char(cards[80]@, 40)) by {
            reveal_with_fuel(plain_from_char, 15);
        }
        reveal_with_fuel(plain_from_char, 41);
    }
    assert(plain_text(cards[81]@)) by {
        reveal_strlit("You would not accept your own explanation from anyone else.");
        assert(cards[81] == "You would not accept your own explanation from anyone else.");
        assert(plain_from_char(cards[81]@, 40)) by {
            reveal_with_fuel(plain_from_char, 20);
        }
        reveal_with_fuel(plain_from_char, 41);
    }
    assert(plain_text(cards[82]@)) by {
        reveal_strlit("You would not spend money the way you are spending this week.");
        assert(cards[82] == "You would not spend money the way you are spending this week.");
        assert(plain_from_char(cards[82]@, 40)) by {
            reveal_with_fuel(plain_from_char, 22);
        }
        reveal_with_fuel(plain_from_char, 41);
    }
    assert(plain_text(cards[83]@)) by {
        reveal_strlit("You would rather be certain and wrong than uncertain and moving.");
        assert(cards[83] == "You would rather be certain and wrong than uncertain and moving.");
        assert(plain_from_char(cards[83]@, 40)) by {
            reveal_with_fuel(plain_from_char, 25);
        }
        reveal_with_fuel(plain_from_char, 41);
    }
    assert(plain_text(cards[84]@)) by {
        reveal_strlit("You would tell a friend the truth about this in one sentence. Say it to yourself.");
        assert(cards[84] == "You would tell a friend the truth about this in one sentence. Say it to yourself.");
        assert(plain_from_char(cards[84]@, 80)) by {
            reveal_with_fuel(plain_from_char, 2);
        }
        assert(plain_from_char(cards[84]@, 40)) by {
            reveal_with_fuel(plain_from_char, 41);
        }
        reveal_with_fuel(plain_from_char, 41);
    }
    assert(plain_text(cards[85]@)) by {
        reveal_strlit("Your dread is about the choice, not the outcome.");
        assert(cards[85] == "Your dread is about the choice, not the outcome.");
        assert(plain_from_char(cards[85]@, 40)) by {
            reveal_with_fuel(plain_from_char, 9);
        }
        reveal_with_fuel(plain_from_char, 41);
    }
    assert(plain_from(cards, 86));
    assert(plain_from(cards, 85));
    assert(plain_from(cards, 84));
    assert(plain_from(cards, 83));
    assert(plain_from(cards, 82));
    assert(plain_from(cards, 81));
    assert(plain_from(cards, 80));
    assert(plain_from(cards, 79));
    assert(plain_from(cards, 78));
    assert(plain_from(cards, 77));
    assert(plain_from(cards, 76));
    assert(plain_from(cards, 75));
    assert(plain_from(cards, 74));
    assert(plain_from(cards, 73));
    assert(plain_from(cards, 72));
    assert(plain_from(cards, 71));
    assert(plain_from(cards, 70));
    assert(plain_from(cards, 69));
    assert(plain_from(cards, 68));
    assert(plain_from(cards, 67));
    assert(plain_from(cards, 66));
    assert(plain_from(cards, 65));
    assert(plain_from(cards, 64));
    assert(plain_from(cards, 63));
    assert(plain_from(cards, 62));
    assert(plain_from(cards, 61));
    assert(plain_from(cards, 60));
    assert(plain_from(cards, 59));
    assert(plain_from(cards, 58));
    assert(plain_from(cards, 57));
    assert(plain_from(cards, 56));
    assert(plain_from(cards, 55));
    assert(plain_from(cards, 54));
    assert(plain_from(cards, 53));
    assert(plain_from(cards, 52));
    assert(plain_from(cards, 51));
    assert(plain_from(cards, 50));
    assert(plain_from(cards, 49));
    assert(plain_from(cards, 48));
    assert(plain_from(cards, 47));
    assert(plain_from(cards, 46));
    assert(plain_from(cards, 45));
    assert(plain_from(cards, 44));
    assert(plain_from(cards, 43));
    assert(plain_from(cards, 42));
    assert(plain_from(cards, 41));
    assert(plain_from(cards, 40));
    assert(plain_from(cards, 39));
    assert(plain_from(cards, 38));
    assert(plain_from(cards, 37));
    assert(plain_from(cards, 36));
    assert(plain_from(cards, 35));
    assert(plain_from(cards, 34));
    assert(plain_from(cards, 33));
    assert(plain_from(cards, 32));
    assert(plain_from(cards, 31));
    assert(plain_from(cards, 30));
    assert(plain_from(cards, 29));
    assert(plain_from(cards, 28));
    assert(plain_from(cards, 27));
    assert(plain_from(cards, 26));
    assert(plain_from(cards, 25));
    assert(plain_from(cards, 24));
    assert(plain_from(cards, 23));
    assert(plain_from(cards, 22));
    assert(plain_from(cards, 21));
    assert(plain_from(cards, 20));
    assert(plain_from(cards, 19));
    assert(plain_from(cards, 18));
    assert(plain_from(cards, 17));
    assert(plain_from(cards, 16));
    assert(plain_from(cards, 15));
    assert(plain_from(cards, 14));
    assert(plain_from(cards, 13));
    assert(plain_from(cards, 12));
    assert(plain_from(cards, 11));
    assert(plain_from(cards, 10));
    assert(plain_from(cards, 9));
    assert(plain_from(cards, 8));
    assert(plain_from(cards, 7));
    assert(plain_from(cards, 6));
    assert(plain_from(cards, 5));
    assert(plain_from(cards, 4));
    assert(plain_from(cards, 3));
    assert(plain_from(cards, 2));
    assert(plain_from(cards, 1));
    assert(plain_from(cards, 0));
}

} // verus!
