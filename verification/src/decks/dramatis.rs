//! Situations, casts and beats: the parts a story is assembled from.
//!
//! The one deck in this crate taken from sources rather than written for it.
//! Its material is a taxonomy, and a taxonomy is worth reproducing rather than
//! paraphrasing. Everything here is public domain:
//!
//! - Georges Polti, *The Thirty-Six Dramatic Situations*, Lucile Ray's 1916
//!   translation - the thirty-six situations and the casts each one needs.
//! - Vladimir Propp, *Morphology of the Folktale*, 1928 - the sequence of
//!   functions. The renderings here are our own, made from the public-domain
//!   original rather than from a translation still in copyright.
//! - Aristotle, *Poetics*, S. H. Butcher's 1895 translation - reversal,
//!   recognition, and the shape of a plot.
//!
//! One editorial change: spellings follow the crate's US convention, so Polti's
//! `dishonour` appears here as `dishonor`.
//!
//! The cards are labels, not sentences. None carries terminal punctuation, none
//! is a question, and none addresses the reader; all three are enforced by the
//! crate's tests. The deck describes the story rather than the person holding
//! it. Draw two and make them the same story.

use vstd::prelude::*;
use crate::deck::{in_order_from, plain_from};
use crate::text::{plain_from_char, plain_text, text_before};
use crate::{Deck, Provenance};

verus! {

/// The cards of the dramatis deck, sorted by their first line.
pub const CARDS: [&'static str; 104] = [
    "A Bold Leader, an Object, and an Adversary",
    "A Culprit, a Victim, and an Interrogator",
    "A Fugitive and a Punishment",
    "A Hero, an Ideal, and the thing sacrificed",
    "A Jealous one, an Object, a Supposed Accomplice, and an Author of the error",
    "A Kinsman who hates and a Kinsman who is hated",
    "A Lover, a Beloved, and an Obstacle",
    "A Madman and a Victim",
    "A Mortal and an Immortal",
    "A Persecutor, a Suppliant, and a Power in authority",
    "A Problem, an Interrogator, and a Seeker",
    "A Solicitor, and an Adversary who refuses",
    "A Tyrant and a Conspirator",
    "A Vanquished Power and a Victorious Enemy",
    "A beginning, a middle, and an end",
    "A change from ignorance to knowledge",
    "A difficult task is set",
    "A false hero makes claims that are not his",
    "A member of the family leaves home",
    "A prohibition is issued",
    "Abduction",
    "Adultery",
    "All sacrificed for a passion",
    "Ambition",
    "An Abductor, the Abducted, and a Guardian",
    "An Ambitious one, a Thing coveted, and an Adversary",
    "An Avenger and a Criminal",
    "An Avenging Kinsman, a Guilty Kinsman, and the remembered Victim",
    "An Unfortunate, and a Master or a Misfortune",
    "An enemy loved",
    "An error of judgment in a person otherwise good",
    "An incident that arrives unexpectedly, yet on account of what came before",
    "Character revealed by what is chosen",
    "Complication and denouement",
    "Conflict with a god",
    "Crime pursued by vengeance",
    "Crimes of love",
    "Daring enterprise",
    "Deliverance",
    "Disaster",
    "Discovery of the dishonor of a loved one",
    "Enmity of kinsmen",
    "Erroneous judgment",
    "Falling prey to cruelty or misfortune",
    "Fatal imprudence",
    "Hero and villain meet in direct combat",
    "Involuntary crimes of love",
    "Loss of loved ones",
    "Madness",
    "Mistaken jealousy",
    "Murderous adultery",
    "Necessity of sacrificing loved ones",
    "Obstacles to love",
    "Obtaining",
    "Pity and terror",
    "Pursuit",
    "Recognition",
    "Recognition and reversal, arriving together",
    "Recovery of a lost one",
    "Remorse",
    "Reversal of the situation",
    "Revolt",
    "Rivalry of kinsmen",
    "Rivalry of superior and inferior",
    "Self-sacrifice for an ideal",
    "Self-sacrifice for kindred",
    "Slaying of a kinsman unrecognized",
    "Something is missing, and the lack is felt",
    "Supplication",
    "The enigma",
    "The false hero is exposed",
    "The hero arrives home unrecognized",
    "The hero departs",
    "The hero is given a new appearance",
    "The hero is led to the thing sought",
    "The hero is marked",
    "The hero is pursued",
    "The hero is recognized",
    "The hero is rescued from pursuit",
    "The hero is tested, interrogated, or attacked",
    "The hero marries, or is otherwise rewarded",
    "The hero reacts, and a helper is acquired",
    "The hero returns",
    "The misfortune is made known",
    "The original lack is remedied",
    "The probable impossible, preferred to the possible improbable",
    "The prohibition is broken",
    "The scene of suffering",
    "The seeker agrees to act",
    "The task is accomplished",
    "The turn\n\t-recognition\n\t-reversal\n\t-both at once",
    "The unity of a single action",
    "The victim is taken in, and unwittingly helps",
    "The villain attempts a deception",
    "The villain does harm to a member of the family",
    "The villain is defeated",
    "The villain is punished",
    "The villain learns something about the victim",
    "The villain makes an attempt at reconnaissance",
    "Three roles\n\t-who wants\n\t-who blocks\n\t-who decides",
    "Two Adulterers and a Betrayed Spouse",
    "Two Kinsmen and the Object of their rivalry",
    "Vengeance taken for kindred upon kindred",
    "What is missing\n\t-a person\n\t-an object\n\t-a truth",
];

/// The dramatis deck, as its contents stand.
pub open spec fn spec_deck() -> Deck {
    Deck {
        id: "dramatis",
        name: "Dramatis",
        blurb: "Situations, casts and beats to assemble a story from.",
        provenance: Provenance::PublicDomain(
        "Georges Polti (Ray trans. 1916), Vladimir Propp (1928), Aristotle (Butcher trans. 1895)",
    ),
        cards: vstd::array::spec_array_as_slice(&CARDS),
    }
}

/// The dramatis deck.
#[verifier::when_used_as_spec(spec_deck)]
pub fn deck() -> (d: Deck)
    ensures
        d == spec_deck(),
{
    Deck {
        id: "dramatis",
        name: "Dramatis",
        blurb: "Situations, casts and beats to assemble a story from.",
        provenance: Provenance::PublicDomain(
        "Georges Polti (Ray trans. 1916), Vladimir Propp (1928), Aristotle (Butcher trans. 1895)",
    ),
        cards: &CARDS,
    }
}

/// The cards are in strictly increasing text order, so no two read alike.
pub proof fn lemma_cards_in_order()
    ensures
        in_order_from(spec_deck().cards@, 0),
{
    broadcast use vstd::array::group_array_axioms;

    let cards = spec_deck().cards@;
    assert(cards.len() == 104);
    assert(text_before(cards[0]@, cards[1]@)) by {
        reveal_strlit("A Bold Leader, an Object, and an Adversary");
        reveal_strlit("A Culprit, a Victim, and an Interrogator");
        assert(cards[0] == "A Bold Leader, an Object, and an Adversary");
        assert(cards[1] == "A Culprit, a Victim, and an Interrogator");
        reveal_with_fuel(text_before, 4);
    }
    assert(text_before(cards[1]@, cards[2]@)) by {
        reveal_strlit("A Culprit, a Victim, and an Interrogator");
        reveal_strlit("A Fugitive and a Punishment");
        assert(cards[1] == "A Culprit, a Victim, and an Interrogator");
        assert(cards[2] == "A Fugitive and a Punishment");
        reveal_with_fuel(text_before, 4);
    }
    assert(text_before(cards[2]@, cards[3]@)) by {
        reveal_strlit("A Fugitive and a Punishment");
        reveal_strlit("A Hero, an Ideal, and the thing sacrificed");
        assert(cards[2] == "A Fugitive and a Punishment");
        assert(cards[3] == "A Hero, an Ideal, and the thing sacrificed");
        reveal_with_fuel(text_before, 4);
    }
    assert(text_before(cards[3]@, cards[4]@)) by {
        reveal_strlit("A Hero, an Ideal, and the thing sacrificed");
        reveal_strlit("A Jealous one, an Object, a Supposed Accomplice, and an Author of the error");
        assert(cards[3] == "A Hero, an Ideal, and the thing sacrificed");
        assert(cards[4] == "A Jealous one, an Object, a Supposed Accomplice, and an Author of the error");
        reveal_with_fuel(text_before, 4);
    }
    assert(text_before(cards[4]@, cards[5]@)) by {
        reveal_strlit("A Jealous one, an Object, a Supposed Accomplice, and an Author of the error");
        reveal_strlit("A Kinsman who hates and a Kinsman who is hated");
        assert(cards[4] == "A Jealous one, an Object, a Supposed Accomplice, and an Author of the error");
        assert(cards[5] == "A Kinsman who hates and a Kinsman who is hated");
        reveal_with_fuel(text_before, 4);
    }
    assert(text_before(cards[5]@, cards[6]@)) by {
        reveal_strlit("A Kinsman who hates and a Kinsman who is hated");
        reveal_strlit("A Lover, a Beloved, and an Obstacle");
        assert(cards[5] == "A Kinsman who hates and a Kinsman who is hated");
        assert(cards[6] == "A Lover, a Beloved, and an Obstacle");
        reveal_with_fuel(text_before, 4);
    }
    assert(text_before(cards[6]@, cards[7]@)) by {
        reveal_strlit("A Lover, a Beloved, and an Obstacle");
        reveal_strlit("A Madman and a Victim");
        assert(cards[6] == "A Lover, a Beloved, and an Obstacle");
        assert(cards[7] == "A Madman and a Victim");
        reveal_with_fuel(text_before, 4);
    }
    assert(text_before(cards[7]@, cards[8]@)) by {
        reveal_strlit("A Madman and a Victim");
        reveal_strlit("A Mortal and an Immortal");
        assert(cards[7] == "A Madman and a Victim");
        assert(cards[8] == "A Mortal and an Immortal");
        reveal_with_fuel(text_before, 5);
    }
    assert(text_before(cards[8]@, cards[9]@)) by {
        reveal_strlit("A Mortal and an Immortal");
        reveal_strlit("A Persecutor, a Suppliant, and a Power in authority");
        assert(cards[8] == "A Mortal and an Immortal");
        assert(cards[9] == "A Persecutor, a Suppliant, and a Power in authority");
        reveal_with_fuel(text_before, 4);
    }
    assert(text_before(cards[9]@, cards[10]@)) by {
        reveal_strlit("A Persecutor, a Suppliant, and a Power in authority");
        reveal_strlit("A Problem, an Interrogator, and a Seeker");
        assert(cards[9] == "A Persecutor, a Suppliant, and a Power in authority");
        assert(cards[10] == "A Problem, an Interrogator, and a Seeker");
        reveal_with_fuel(text_before, 5);
    }
    assert(text_before(cards[10]@, cards[11]@)) by {
        reveal_strlit("A Problem, an Interrogator, and a Seeker");
        reveal_strlit("A Solicitor, and an Adversary who refuses");
        assert(cards[10] == "A Problem, an Interrogator, and a Seeker");
        assert(cards[11] == "A Solicitor, and an Adversary who refuses");
        reveal_with_fuel(text_before, 4);
    }
    assert(text_before(cards[11]@, cards[12]@)) by {
        reveal_strlit("A Solicitor, and an Adversary who refuses");
        reveal_strlit("A Tyrant and a Conspirator");
        assert(cards[11] == "A Solicitor, and an Adversary who refuses");
        assert(cards[12] == "A Tyrant and a Conspirator");
        reveal_with_fuel(text_before, 4);
    }
    assert(text_before(cards[12]@, cards[13]@)) by {
        reveal_strlit("A Tyrant and a Conspirator");
        reveal_strlit("A Vanquished Power and a Victorious Enemy");
        assert(cards[12] == "A Tyrant and a Conspirator");
        assert(cards[13] == "A Vanquished Power and a Victorious Enemy");
        reveal_with_fuel(text_before, 4);
    }
    assert(text_before(cards[13]@, cards[14]@)) by {
        reveal_strlit("A Vanquished Power and a Victorious Enemy");
        reveal_strlit("A beginning, a middle, and an end");
        assert(cards[13] == "A Vanquished Power and a Victorious Enemy");
        assert(cards[14] == "A beginning, a middle, and an end");
        reveal_with_fuel(text_before, 4);
    }
    assert(text_before(cards[14]@, cards[15]@)) by {
        reveal_strlit("A beginning, a middle, and an end");
        reveal_strlit("A change from ignorance to knowledge");
        assert(cards[14] == "A beginning, a middle, and an end");
        assert(cards[15] == "A change from ignorance to knowledge");
        reveal_with_fuel(text_before, 4);
    }
    assert(text_before(cards[15]@, cards[16]@)) by {
        reveal_strlit("A change from ignorance to knowledge");
        reveal_strlit("A difficult task is set");
        assert(cards[15] == "A change from ignorance to knowledge");
        assert(cards[16] == "A difficult task is set");
        reveal_with_fuel(text_before, 4);
    }
    assert(text_before(cards[16]@, cards[17]@)) by {
        reveal_strlit("A difficult task is set");
        reveal_strlit("A false hero makes claims that are not his");
        assert(cards[16] == "A difficult task is set");
        assert(cards[17] == "A false hero makes claims that are not his");
        reveal_with_fuel(text_before, 4);
    }
    assert(text_before(cards[17]@, cards[18]@)) by {
        reveal_strlit("A false hero makes claims that are not his");
        reveal_strlit("A member of the family leaves home");
        assert(cards[17] == "A false hero makes claims that are not his");
        assert(cards[18] == "A member of the family leaves home");
        reveal_with_fuel(text_before, 4);
    }
    assert(text_before(cards[18]@, cards[19]@)) by {
        reveal_strlit("A member of the family leaves home");
        reveal_strlit("A prohibition is issued");
        assert(cards[18] == "A member of the family leaves home");
        assert(cards[19] == "A prohibition is issued");
        reveal_with_fuel(text_before, 4);
    }
    assert(text_before(cards[19]@, cards[20]@)) by {
        reveal_strlit("A prohibition is issued");
        reveal_strlit("Abduction");
        assert(cards[19] == "A prohibition is issued");
        assert(cards[20] == "Abduction");
        reveal_with_fuel(text_before, 3);
    }
    assert(text_before(cards[20]@, cards[21]@)) by {
        reveal_strlit("Abduction");
        reveal_strlit("Adultery");
        assert(cards[20] == "Abduction");
        assert(cards[21] == "Adultery");
        reveal_with_fuel(text_before, 3);
    }
    assert(text_before(cards[21]@, cards[22]@)) by {
        reveal_strlit("Adultery");
        reveal_strlit("All sacrificed for a passion");
        assert(cards[21] == "Adultery");
        assert(cards[22] == "All sacrificed for a passion");
        reveal_with_fuel(text_before, 3);
    }
    assert(text_before(cards[22]@, cards[23]@)) by {
        reveal_strlit("All sacrificed for a passion");
        reveal_strlit("Ambition");
        assert(cards[22] == "All sacrificed for a passion");
        assert(cards[23] == "Ambition");
        reveal_with_fuel(text_before, 3);
    }
    assert(text_before(cards[23]@, cards[24]@)) by {
        reveal_strlit("Ambition");
        reveal_strlit("An Abductor, the Abducted, and a Guardian");
        assert(cards[23] == "Ambition");
        assert(cards[24] == "An Abductor, the Abducted, and a Guardian");
        reveal_with_fuel(text_before, 3);
    }
    assert(text_before(cards[24]@, cards[25]@)) by {
        reveal_strlit("An Abductor, the Abducted, and a Guardian");
        reveal_strlit("An Ambitious one, a Thing coveted, and an Adversary");
        assert(cards[24] == "An Abductor, the Abducted, and a Guardian");
        assert(cards[25] == "An Ambitious one, a Thing coveted, and an Adversary");
        reveal_with_fuel(text_before, 6);
    }
    assert(text_before(cards[25]@, cards[26]@)) by {
        reveal_strlit("An Ambitious one, a Thing coveted, and an Adversary");
        reveal_strlit("An Avenger and a Criminal");
        assert(cards[25] == "An Ambitious one, a Thing coveted, and an Adversary");
        assert(cards[26] == "An Avenger and a Criminal");
        reveal_with_fuel(text_before, 6);
    }
    assert(text_before(cards[26]@, cards[27]@)) by {
        reveal_strlit("An Avenger and a Criminal");
        reveal_strlit("An Avenging Kinsman, a Guilty Kinsman, and the remembered Victim");
        assert(cards[26] == "An Avenger and a Criminal");
        assert(cards[27] == "An Avenging Kinsman, a Guilty Kinsman, and the remembered Victim");
        reveal_with_fuel(text_before, 10);
    }
    assert(text_before(cards[27]@, cards[28]@)) by {
        reveal_strlit("An Avenging Kinsman, a Guilty Kinsman, and the remembered Victim");
        reveal_strlit("An Unfortunate, and a Master or a Misfortune");
        assert(cards[27] == "An Avenging Kinsman, a Guilty Kinsman, and the remembered Victim");
        assert(cards[28] == "An Unfortunate, and a Master or a Misfortune");
        reveal_with_fuel(text_before, 5);
    }
    assert(text_before(cards[28]@, cards[29]@)) by {
        reveal_strlit("An Unfortunate, and a Master or a Misfortune");
        reveal_strlit("An enemy loved");
        assert(cards[28] == "An Unfortunate, and a Master or a Misfortune");
        assert(cards[29] == "An enemy loved");
        reveal_with_fuel(text_before, 5);
    }
    assert(text_before(cards[29]@, cards[30]@)) by {
        reveal_strlit("An enemy loved");
        reveal_strlit("An error of judgment in a person otherwise good");
        assert(cards[29] == "An enemy loved");
        assert(cards[30] == "An error of judgment in a person otherwise good");
        reveal_with_fuel(text_before, 6);
    }
    assert(text_before(cards[30]@, cards[31]@)) by {
        reveal_strlit("An error of judgment in a person otherwise good");
        reveal_strlit("An incident that arrives unexpectedly, yet on account of what came before");
        assert(cards[30] == "An error of judgment in a person otherwise good");
        assert(cards[31] == "An incident that arrives unexpectedly, yet on account of what came before");
        reveal_with_fuel(text_before, 5);
    }
    assert(text_before(cards[31]@, cards[32]@)) by {
        reveal_strlit("An incident that arrives unexpectedly, yet on account of what came before");
        reveal_strlit("Character revealed by what is chosen");
        assert(cards[31] == "An incident that arrives unexpectedly, yet on account of what came before");
        assert(cards[32] == "Character revealed by what is chosen");
        reveal_with_fuel(text_before, 2);
    }
    assert(text_before(cards[32]@, cards[33]@)) by {
        reveal_strlit("Character revealed by what is chosen");
        reveal_strlit("Complication and denouement");
        assert(cards[32] == "Character revealed by what is chosen");
        assert(cards[33] == "Complication and denouement");
        reveal_with_fuel(text_before, 3);
    }
    assert(text_before(cards[33]@, cards[34]@)) by {
        reveal_strlit("Complication and denouement");
        reveal_strlit("Conflict with a god");
        assert(cards[33] == "Complication and denouement");
        assert(cards[34] == "Conflict with a god");
        reveal_with_fuel(text_before, 4);
    }
    assert(text_before(cards[34]@, cards[35]@)) by {
        reveal_strlit("Conflict with a god");
        reveal_strlit("Crime pursued by vengeance");
        assert(cards[34] == "Conflict with a god");
        assert(cards[35] == "Crime pursued by vengeance");
        reveal_with_fuel(text_before, 3);
    }
    assert(text_before(cards[35]@, cards[36]@)) by {
        reveal_strlit("Crime pursued by vengeance");
        reveal_strlit("Crimes of love");
        assert(cards[35] == "Crime pursued by vengeance");
        assert(cards[36] == "Crimes of love");
        reveal_with_fuel(text_before, 7);
    }
    assert(text_before(cards[36]@, cards[37]@)) by {
        reveal_strlit("Crimes of love");
        reveal_strlit("Daring enterprise");
        assert(cards[36] == "Crimes of love");
        assert(cards[37] == "Daring enterprise");
        reveal_with_fuel(text_before, 2);
    }
    assert(text_before(cards[37]@, cards[38]@)) by {
        reveal_strlit("Daring enterprise");
        reveal_strlit("Deliverance");
        assert(cards[37] == "Daring enterprise");
        assert(cards[38] == "Deliverance");
        reveal_with_fuel(text_before, 3);
    }
    assert(text_before(cards[38]@, cards[39]@)) by {
        reveal_strlit("Deliverance");
        reveal_strlit("Disaster");
        assert(cards[38] == "Deliverance");
        assert(cards[39] == "Disaster");
        reveal_with_fuel(text_before, 3);
    }
    assert(text_before(cards[39]@, cards[40]@)) by {
        reveal_strlit("Disaster");
        reveal_strlit("Discovery of the dishonor of a loved one");
        assert(cards[39] == "Disaster");
        assert(cards[40] == "Discovery of the dishonor of a loved one");
        reveal_with_fuel(text_before, 5);
    }
    assert(text_before(cards[40]@, cards[41]@)) by {
        reveal_strlit("Discovery of the dishonor of a loved one");
        reveal_strlit("Enmity of kinsmen");
        assert(cards[40] == "Discovery of the dishonor of a loved one");
        assert(cards[41] == "Enmity of kinsmen");
        reveal_with_fuel(text_before, 2);
    }
    assert(text_before(cards[41]@, cards[42]@)) by {
        reveal_strlit("Enmity of kinsmen");
        reveal_strlit("Erroneous judgment");
        assert(cards[41] == "Enmity of kinsmen");
        assert(cards[42] == "Erroneous judgment");
        reveal_with_fuel(text_before, 3);
    }
    assert(text_before(cards[42]@, cards[43]@)) by {
        reveal_strlit("Erroneous judgment");
        reveal_strlit("Falling prey to cruelty or misfortune");
        assert(cards[42] == "Erroneous judgment");
        assert(cards[43] == "Falling prey to cruelty or misfortune");
        reveal_with_fuel(text_before, 2);
    }
    assert(text_before(cards[43]@, cards[44]@)) by {
        reveal_strlit("Falling prey to cruelty or misfortune");
        reveal_strlit("Fatal imprudence");
        assert(cards[43] == "Falling prey to cruelty or misfortune");
        assert(cards[44] == "Fatal imprudence");
        reveal_with_fuel(text_before, 4);
    }
    assert(text_before(cards[44]@, cards[45]@)) by {
        reveal_strlit("Fatal imprudence");
        reveal_strlit("Hero and villain meet in direct combat");
        assert(cards[44] == "Fatal imprudence");
        assert(cards[45] == "Hero and villain meet in direct combat");
        reveal_with_fuel(text_before, 2);
    }
    assert(text_before(cards[45]@, cards[46]@)) by {
        reveal_strlit("Hero and villain meet in direct combat");
        reveal_strlit("Involuntary crimes of love");
        assert(cards[45] == "Hero and villain meet in direct combat");
        assert(cards[46] == "Involuntary crimes of love");
        reveal_with_fuel(text_before, 2);
    }
    assert(text_before(cards[46]@, cards[47]@)) by {
        reveal_strlit("Involuntary crimes of love");
        reveal_strlit("Loss of loved ones");
        assert(cards[46] == "Involuntary crimes of love");
        assert(cards[47] == "Loss of loved ones");
        reveal_with_fuel(text_before, 2);
    }
    assert(text_before(cards[47]@, cards[48]@)) by {
        reveal_strlit("Loss of loved ones");
        reveal_strlit("Madness");
        assert(cards[47] == "Loss of loved ones");
        assert(cards[48] == "Madness");
        reveal_with_fuel(text_before, 2);
    }
    assert(text_before(cards[48]@, cards[49]@)) by {
        reveal_strlit("Madness");
        reveal_strlit("Mistaken jealousy");
        assert(cards[48] == "Madness");
        assert(cards[49] == "Mistaken jealousy");
        reveal_with_fuel(text_before, 3);
    }
    assert(text_before(cards[49]@, cards[50]@)) by {
        reveal_strlit("Mistaken jealousy");
        reveal_strlit("Murderous adultery");
        assert(cards[49] == "Mistaken jealousy");
        assert(cards[50] == "Murderous adultery");
        reveal_with_fuel(text_before, 3);
    }
    assert(text_before(cards[50]@, cards[51]@)) by {
        reveal_strlit("Murderous adultery");
        reveal_strlit("Necessity of sacrificing loved ones");
        assert(cards[50] == "Murderous adultery");
        assert(cards[51] == "Necessity of sacrificing loved ones");
        reveal_with_fuel(text_before, 2);
    }
    assert(text_before(cards[51]@, cards[52]@)) by {
        reveal_strlit("Necessity of sacrificing loved ones");
        reveal_strlit("Obstacles to love");
        assert(cards[51] == "Necessity of sacrificing loved ones");
        assert(cards[52] == "Obstacles to love");
        reveal_with_fuel(text_before, 2);
    }
    assert(text_before(cards[52]@, cards[53]@)) by {
        reveal_strlit("Obstacles to love");
        reveal_strlit("Obtaining");
        assert(cards[52] == "Obstacles to love");
        assert(cards[53] == "Obtaining");
        reveal_with_fuel(text_before, 4);
    }
    assert(text_before(cards[53]@, cards[54]@)) by {
        reveal_strlit("Obtaining");
        reveal_strlit("Pity and terror");
        assert(cards[53] == "Obtaining");
        assert(cards[54] == "Pity and terror");
        reveal_with_fuel(text_before, 2);
    }
    assert(text_before(cards[54]@, cards[55]@)) by {
        reveal_strlit("Pity and terror");
        reveal_strlit("Pursuit");
        assert(cards[54] == "Pity and terror");
        assert(cards[55] == "Pursuit");
        reveal_with_fuel(text_before, 3);
    }
    assert(text_before(cards[55]@, cards[56]@)) by {
        reveal_strlit("Pursuit");
        reveal_strlit("Recognition");
        assert(cards[55] == "Pursuit");
        assert(cards[56] == "Recognition");
        reveal_with_fuel(text_before, 2);
    }
    assert(text_before(cards[56]@, cards[57]@)) by {
        reveal_strlit("Recognition");
        reveal_strlit("Recognition and reversal, arriving together");
        assert(cards[56] == "Recognition");
        assert(cards[57] == "Recognition and reversal, arriving together");
        reveal_with_fuel(text_before, 13);
    }
    assert(text_before(cards[57]@, cards[58]@)) by {
        reveal_strlit("Recognition and reversal, arriving together");
        reveal_strlit("Recovery of a lost one");
        assert(cards[57] == "Recognition and reversal, arriving together");
        assert(cards[58] == "Recovery of a lost one");
        reveal_with_fuel(text_before, 6);
    }
    assert(text_before(cards[58]@, cards[59]@)) by {
        reveal_strlit("Recovery of a lost one");
        reveal_strlit("Remorse");
        assert(cards[58] == "Recovery of a lost one");
        assert(cards[59] == "Remorse");
        reveal_with_fuel(text_before, 4);
    }
    assert(text_before(cards[59]@, cards[60]@)) by {
        reveal_strlit("Remorse");
        reveal_strlit("Reversal of the situation");
        assert(cards[59] == "Remorse");
        assert(cards[60] == "Reversal of the situation");
        reveal_with_fuel(text_before, 4);
    }
    assert(text_before(cards[60]@, cards[61]@)) by {
        reveal_strlit("Reversal of the situation");
        reveal_strlit("Revolt");
        assert(cards[60] == "Reversal of the situation");
        assert(cards[61] == "Revolt");
        reveal_with_fuel(text_before, 5);
    }
    assert(text_before(cards[61]@, cards[62]@)) by {
        reveal_strlit("Revolt");
        reveal_strlit("Rivalry of kinsmen");
        assert(cards[61] == "Revolt");
        assert(cards[62] == "Rivalry of kinsmen");
        reveal_with_fuel(text_before, 3);
    }
    assert(text_before(cards[62]@, cards[63]@)) by {
        reveal_strlit("Rivalry of kinsmen");
        reveal_strlit("Rivalry of superior and inferior");
        assert(cards[62] == "Rivalry of kinsmen");
        assert(cards[63] == "Rivalry of superior and inferior");
        reveal_with_fuel(text_before, 13);
    }
    assert(text_before(cards[63]@, cards[64]@)) by {
        reveal_strlit("Rivalry of superior and inferior");
        reveal_strlit("Self-sacrifice for an ideal");
        assert(cards[63] == "Rivalry of superior and inferior");
        assert(cards[64] == "Self-sacrifice for an ideal");
        reveal_with_fuel(text_before, 2);
    }
    assert(text_before(cards[64]@, cards[65]@)) by {
        reveal_strlit("Self-sacrifice for an ideal");
        reveal_strlit("Self-sacrifice for kindred");
        assert(cards[64] == "Self-sacrifice for an ideal");
        assert(cards[65] == "Self-sacrifice for kindred");
        reveal_with_fuel(text_before, 21);
    }
    assert(text_before(cards[65]@, cards[66]@)) by {
        reveal_strlit("Self-sacrifice for kindred");
        reveal_strlit("Slaying of a kinsman unrecognized");
        assert(cards[65] == "Self-sacrifice for kindred");
        assert(cards[66] == "Slaying of a kinsman unrecognized");
        reveal_with_fuel(text_before, 3);
    }
    assert(text_before(cards[66]@, cards[67]@)) by {
        reveal_strlit("Slaying of a kinsman unrecognized");
        reveal_strlit("Something is missing, and the lack is felt");
        assert(cards[66] == "Slaying of a kinsman unrecognized");
        assert(cards[67] == "Something is missing, and the lack is felt");
        reveal_with_fuel(text_before, 3);
    }
    assert(text_before(cards[67]@, cards[68]@)) by {
        reveal_strlit("Something is missing, and the lack is felt");
        reveal_strlit("Supplication");
        assert(cards[67] == "Something is missing, and the lack is felt");
        assert(cards[68] == "Supplication");
        reveal_with_fuel(text_before, 3);
    }
    assert(text_before(cards[68]@, cards[69]@)) by {
        reveal_strlit("Supplication");
        reveal_strlit("The enigma");
        assert(cards[68] == "Supplication");
        assert(cards[69] == "The enigma");
        reveal_with_fuel(text_before, 2);
    }
    assert(text_before(cards[69]@, cards[70]@)) by {
        reveal_strlit("The enigma");
        reveal_strlit("The false hero is exposed");
        assert(cards[69] == "The enigma");
        assert(cards[70] == "The false hero is exposed");
        reveal_with_fuel(text_before, 6);
    }
    assert(text_before(cards[70]@, cards[71]@)) by {
        reveal_strlit("The false hero is exposed");
        reveal_strlit("The hero arrives home unrecognized");
        assert(cards[70] == "The false hero is exposed");
        assert(cards[71] == "The hero arrives home unrecognized");
        reveal_with_fuel(text_before, 6);
    }
    assert(text_before(cards[71]@, cards[72]@)) by {
        reveal_strlit("The hero arrives home unrecognized");
        reveal_strlit("The hero departs");
        assert(cards[71] == "The hero arrives home unrecognized");
        assert(cards[72] == "The hero departs");
        reveal_with_fuel(text_before, 11);
    }
    assert(text_before(cards[72]@, cards[73]@)) by {
        reveal_strlit("The hero departs");
        reveal_strlit("The hero is given a new appearance");
        assert(cards[72] == "The hero departs");
        assert(cards[73] == "The hero is given a new appearance");
        reveal_with_fuel(text_before, 11);
    }
    assert(text_before(cards[73]@, cards[74]@)) by {
        reveal_strlit("The hero is given a new appearance");
        reveal_strlit("The hero is led to the thing sought");
        assert(cards[73] == "The hero is given a new appearance");
        assert(cards[74] == "The hero is led to the thing sought");
        reveal_with_fuel(text_before, 14);
    }
    assert(text_before(cards[74]@, cards[75]@)) by {
        reveal_strlit("The hero is led to the thing sought");
        reveal_strlit("The hero is marked");
        assert(cards[74] == "The hero is led to the thing sought");
        assert(cards[75] == "The hero is marked");
        reveal_with_fuel(text_before, 14);
    }
    assert(text_before(cards[75]@, cards[76]@)) by {
        reveal_strlit("The hero is marked");
        reveal_strlit("The hero is pursued");
        assert(cards[75] == "The hero is marked");
        assert(cards[76] == "The hero is pursued");
        reveal_with_fuel(text_before, 14);
    }
    assert(text_before(cards[76]@, cards[77]@)) by {
        reveal_strlit("The hero is pursued");
        reveal_strlit("The hero is recognized");
        assert(cards[76] == "The hero is pursued");
        assert(cards[77] == "The hero is recognized");
        reveal_with_fuel(text_before, 14);
    }
    assert(text_before(cards[77]@, cards[78]@)) by {
        reveal_strlit("The hero is recognized");
        reveal_strlit("The hero is rescued from pursuit");
        assert(cards[77] == "The hero is recognized");
        assert(cards[78] == "The hero is rescued from pursuit");
        reveal_with_fuel(text_before, 16);
    }
    assert(text_before(cards[78]@, cards[79]@)) by {
        reveal_strlit("The hero is rescued from pursuit");
        reveal_strlit("The hero is tested, interrogated, or attacked");
        assert(cards[78] == "The hero is rescued from pursuit");
        assert(cards[79] == "The hero is tested, interrogated, or attacked");
        reveal_with_fuel(text_before, 14);
    }
    assert(text_before(cards[79]@, cards[80]@)) by {
        reveal_strlit("The hero is tested, interrogated, or attacked");
        reveal_strlit("The hero marries, or is otherwise rewarded");
        assert(cards[79] == "The hero is tested, interrogated, or attacked");
        assert(cards[80] == "The hero marries, or is otherwise rewarded");
        reveal_with_fuel(text_before, 11);
    }
    assert(text_before(cards[80]@, cards[81]@)) by {
        reveal_strlit("The hero marries, or is otherwise rewarded");
        reveal_strlit("The hero reacts, and a helper is acquired");
        assert(cards[80] == "The hero marries, or is otherwise rewarded");
        assert(cards[81] == "The hero reacts, and a helper is acquired");
        reveal_with_fuel(text_before, 11);
    }
    assert(text_before(cards[81]@, cards[82]@)) by {
        reveal_strlit("The hero reacts, and a helper is acquired");
        reveal_strlit("The hero returns");
        assert(cards[81] == "The hero reacts, and a helper is acquired");
        assert(cards[82] == "The hero returns");
        reveal_with_fuel(text_before, 13);
    }
    assert(text_before(cards[82]@, cards[83]@)) by {
        reveal_strlit("The hero returns");
        reveal_strlit("The misfortune is made known");
        assert(cards[82] == "The hero returns");
        assert(cards[83] == "The misfortune is made known");
        reveal_with_fuel(text_before, 6);
    }
    assert(text_before(cards[83]@, cards[84]@)) by {
        reveal_strlit("The misfortune is made known");
        reveal_strlit("The original lack is remedied");
        assert(cards[83] == "The misfortune is made known");
        assert(cards[84] == "The original lack is remedied");
        reveal_with_fuel(text_before, 6);
    }
    assert(text_before(cards[84]@, cards[85]@)) by {
        reveal_strlit("The original lack is remedied");
        reveal_strlit("The probable impossible, preferred to the possible improbable");
        assert(cards[84] == "The original lack is remedied");
        assert(cards[85] == "The probable impossible, preferred to the possible improbable");
        reveal_with_fuel(text_before, 6);
    }
    assert(text_before(cards[85]@, cards[86]@)) by {
        reveal_strlit("The probable impossible, preferred to the possible improbable");
        reveal_strlit("The prohibition is broken");
        assert(cards[85] == "The probable impossible, preferred to the possible improbable");
        assert(cards[86] == "The prohibition is broken");
        reveal_with_fuel(text_before, 9);
    }
    assert(text_before(cards[86]@, cards[87]@)) by {
        reveal_strlit("The prohibition is broken");
        reveal_strlit("The scene of suffering");
        assert(cards[86] == "The prohibition is broken");
        assert(cards[87] == "The scene of suffering");
        reveal_with_fuel(text_before, 6);
    }
    assert(text_before(cards[87]@, cards[88]@)) by {
        reveal_strlit("The scene of suffering");
        reveal_strlit("The seeker agrees to act");
        assert(cards[87] == "The scene of suffering");
        assert(cards[88] == "The seeker agrees to act");
        reveal_with_fuel(text_before, 7);
    }
    assert(text_before(cards[88]@, cards[89]@)) by {
        reveal_strlit("The seeker agrees to act");
        reveal_strlit("The task is accomplished");
        assert(cards[88] == "The seeker agrees to act");
        assert(cards[89] == "The task is accomplished");
        reveal_with_fuel(text_before, 6);
    }
    assert(text_before(cards[89]@, cards[90]@)) by {
        reveal_strlit("The task is accomplished");
        reveal_strlit("The turn\n\t-recognition\n\t-reversal\n\t-both at once");
        assert(cards[89] == "The task is accomplished");
        assert(cards[90] == "The turn\n\t-recognition\n\t-reversal\n\t-both at once");
        reveal_with_fuel(text_before, 7);
    }
    assert(text_before(cards[90]@, cards[91]@)) by {
        reveal_strlit("The turn\n\t-recognition\n\t-reversal\n\t-both at once");
        reveal_strlit("The unity of a single action");
        assert(cards[90] == "The turn\n\t-recognition\n\t-reversal\n\t-both at once");
        assert(cards[91] == "The unity of a single action");
        reveal_with_fuel(text_before, 6);
    }
    assert(text_before(cards[91]@, cards[92]@)) by {
        reveal_strlit("The unity of a single action");
        reveal_strlit("The victim is taken in, and unwittingly helps");
        assert(cards[91] == "The unity of a single action");
        assert(cards[92] == "The victim is taken in, and unwittingly helps");
        reveal_with_fuel(text_before, 6);
    }
    assert(text_before(cards[92]@, cards[93]@)) by {
        reveal_strlit("The victim is taken in, and unwittingly helps");
        reveal_strlit("The villain attempts a deception");
        assert(cards[92] == "The victim is taken in, and unwittingly helps");
        assert(cards[93] == "The villain attempts a deception");
        reveal_with_fuel(text_before, 8);
    }
    assert(text_before(cards[93]@, cards[94]@)) by {
        reveal_strlit("The villain attempts a deception");
        reveal_strlit("The villain does harm to a member of the family");
        assert(cards[93] == "The villain attempts a deception");
        assert(cards[94] == "The villain does harm to a member of the family");
        reveal_with_fuel(text_before, 14);
    }
    assert(text_before(cards[94]@, cards[95]@)) by {
        reveal_strlit("The villain does harm to a member of the family");
        reveal_strlit("The villain is defeated");
        assert(cards[94] == "The villain does harm to a member of the family");
        assert(cards[95] == "The villain is defeated");
        reveal_with_fuel(text_before, 14);
    }
    assert(text_before(cards[95]@, cards[96]@)) by {
        reveal_strlit("The villain is defeated");
        reveal_strlit("The villain is punished");
        assert(cards[95] == "The villain is defeated");
        assert(cards[96] == "The villain is punished");
        reveal_with_fuel(text_before, 17);
    }
    assert(text_before(cards[96]@, cards[97]@)) by {
        reveal_strlit("The villain is punished");
        reveal_strlit("The villain learns something about the victim");
        assert(cards[96] == "The villain is punished");
        assert(cards[97] == "The villain learns something about the victim");
        reveal_with_fuel(text_before, 14);
    }
    assert(text_before(cards[97]@, cards[98]@)) by {
        reveal_strlit("The villain learns something about the victim");
        reveal_strlit("The villain makes an attempt at reconnaissance");
        assert(cards[97] == "The villain learns something about the victim");
        assert(cards[98] == "The villain makes an attempt at reconnaissance");
        reveal_with_fuel(text_before, 14);
    }
    assert(text_before(cards[98]@, cards[99]@)) by {
        reveal_strlit("The villain makes an attempt at reconnaissance");
        reveal_strlit("Three roles\n\t-who wants\n\t-who blocks\n\t-who decides");
        assert(cards[98] == "The villain makes an attempt at reconnaissance");
        assert(cards[99] == "Three roles\n\t-who wants\n\t-who blocks\n\t-who decides");
        reveal_with_fuel(text_before, 4);
    }
    assert(text_before(cards[99]@, cards[100]@)) by {
        reveal_strlit("Three roles\n\t-who wants\n\t-who blocks\n\t-who decides");
        reveal_strlit("Two Adulterers and a Betrayed Spouse");
        assert(cards[99] == "Three roles\n\t-who wants\n\t-who blocks\n\t-who decides");
        assert(cards[100] == "Two Adulterers and a Betrayed Spouse");
        reveal_with_fuel(text_before, 3);
    }
    assert(text_before(cards[100]@, cards[101]@)) by {
        reveal_strlit("Two Adulterers and a Betrayed Spouse");
        reveal_strlit("Two Kinsmen and the Object of their rivalry");
        assert(cards[100] == "Two Adulterers and a Betrayed Spouse");
        assert(cards[101] == "Two Kinsmen and the Object of their rivalry");
        reveal_with_fuel(text_before, 6);
    }
    assert(text_before(cards[101]@, cards[102]@)) by {
        reveal_strlit("Two Kinsmen and the Object of their rivalry");
        reveal_strlit("Vengeance taken for kindred upon kindred");
        assert(cards[101] == "Two Kinsmen and the Object of their rivalry");
        assert(cards[102] == "Vengeance taken for kindred upon kindred");
        reveal_with_fuel(text_before, 2);
    }
    assert(text_before(cards[102]@, cards[103]@)) by {
        reveal_strlit("Vengeance taken for kindred upon kindred");
        reveal_strlit("What is missing\n\t-a person\n\t-an object\n\t-a truth");
        assert(cards[102] == "Vengeance taken for kindred upon kindred");
        assert(cards[103] == "What is missing\n\t-a person\n\t-an object\n\t-a truth");
        reveal_with_fuel(text_before, 2);
    }
    assert(in_order_from(cards, 103));
    assert(in_order_from(cards, 102));
    assert(in_order_from(cards, 101));
    assert(in_order_from(cards, 100));
    assert(in_order_from(cards, 99));
    assert(in_order_from(cards, 98));
    assert(in_order_from(cards, 97));
    assert(in_order_from(cards, 96));
    assert(in_order_from(cards, 95));
    assert(in_order_from(cards, 94));
    assert(in_order_from(cards, 93));
    assert(in_order_from(cards, 92));
    assert(in_order_from(cards, 91));
    assert(in_order_from(cards, 90));
    assert(in_order_from(cards, 89));
    assert(in_order_from(cards, 88));
    assert(in_order_from(cards, 87));
    assert(in_order_from(cards, 86));
    assert(in_order_from(cards, 85));
    assert(in_order_from(cards, 84));
    assert(in_order_from(cards, 83));
    assert(in_order_from(cards, 82));
    assert(in_order_from(cards, 81));
    assert(in_order_from(cards, 80));
    assert(in_order_from(cards, 79));
    assert(in_order_from(cards, 78));
    assert(in_order_from(cards, 77));
    assert(in_order_from(cards, 76));
    assert(in_order_from(cards, 75));
    assert(in_order_from(cards, 74));
    assert(in_order_from(cards, 73));
    assert(in_order_from(cards, 72));
    assert(in_order_from(cards, 71));
    assert(in_order_from(cards, 70));
    assert(in_order_from(cards, 69));
    assert(in_order_from(cards, 68));
    assert(in_order_from(cards, 67));
    assert(in_order_from(cards, 66));
    assert(in_order_from(cards, 65));
    assert(in_order_from(cards, 64));
    assert(in_order_from(cards, 63));
    assert(in_order_from(cards, 62));
    assert(in_order_from(cards, 61));
    assert(in_order_from(cards, 60));
    assert(in_order_from(cards, 59));
    assert(in_order_from(cards, 58));
    assert(in_order_from(cards, 57));
    assert(in_order_from(cards, 56));
    assert(in_order_from(cards, 55));
    assert(in_order_from(cards, 54));
    assert(in_order_from(cards, 53));
    assert(in_order_from(cards, 52));
    assert(in_order_from(cards, 51));
    assert(in_order_from(cards, 50));
    assert(in_order_from(cards, 49));
    assert(in_order_from(cards, 48));
    assert(in_order_from(cards, 47));
    assert(in_order_from(cards, 46));
    assert(in_order_from(cards, 45));
    assert(in_order_from(cards, 44));
    assert(in_order_from(cards, 43));
    assert(in_order_from(cards, 42));
    assert(in_order_from(cards, 41));
    assert(in_order_from(cards, 40));
    assert(in_order_from(cards, 39));
    assert(in_order_from(cards, 38));
    assert(in_order_from(cards, 37));
    assert(in_order_from(cards, 36));
    assert(in_order_from(cards, 35));
    assert(in_order_from(cards, 34));
    assert(in_order_from(cards, 33));
    assert(in_order_from(cards, 32));
    assert(in_order_from(cards, 31));
    assert(in_order_from(cards, 30));
    assert(in_order_from(cards, 29));
    assert(in_order_from(cards, 28));
    assert(in_order_from(cards, 27));
    assert(in_order_from(cards, 26));
    assert(in_order_from(cards, 25));
    assert(in_order_from(cards, 24));
    assert(in_order_from(cards, 23));
    assert(in_order_from(cards, 22));
    assert(in_order_from(cards, 21));
    assert(in_order_from(cards, 20));
    assert(in_order_from(cards, 19));
    assert(in_order_from(cards, 18));
    assert(in_order_from(cards, 17));
    assert(in_order_from(cards, 16));
    assert(in_order_from(cards, 15));
    assert(in_order_from(cards, 14));
    assert(in_order_from(cards, 13));
    assert(in_order_from(cards, 12));
    assert(in_order_from(cards, 11));
    assert(in_order_from(cards, 10));
    assert(in_order_from(cards, 9));
    assert(in_order_from(cards, 8));
    assert(in_order_from(cards, 7));
    assert(in_order_from(cards, 6));
    assert(in_order_from(cards, 5));
    assert(in_order_from(cards, 4));
    assert(in_order_from(cards, 3));
    assert(in_order_from(cards, 2));
    assert(in_order_from(cards, 1));
    assert(in_order_from(cards, 0));
}


/// Every card is plain text: ASCII, with no NUL and neither record separator.
pub proof fn lemma_cards_plain()
    ensures
        plain_from(spec_deck().cards@, 0),
{
    broadcast use vstd::array::group_array_axioms;

    let cards = spec_deck().cards@;
    assert(cards.len() == 104);
    assert(plain_text(cards[0]@)) by {
        reveal_strlit("A Bold Leader, an Object, and an Adversary");
        assert(cards[0] == "A Bold Leader, an Object, and an Adversary");
        assert(plain_from_char(cards[0]@, 40)) by {
            reveal_with_fuel(plain_from_char, 3);
        }
        reveal_with_fuel(plain_from_char, 41);
    }
    assert(plain_text(cards[1]@)) by {
        reveal_strlit("A Culprit, a Victim, and an Interrogator");
        assert(cards[1] == "A Culprit, a Victim, and an Interrogator");
        reveal_with_fuel(plain_from_char, 41);
    }
    assert(plain_text(cards[2]@)) by {
        reveal_strlit("A Fugitive and a Punishment");
        assert(cards[2] == "A Fugitive and a Punishment");
        reveal_with_fuel(plain_from_char, 28);
    }
    assert(plain_text(cards[3]@)) by {
        reveal_strlit("A Hero, an Ideal, and the thing sacrificed");
        assert(cards[3] == "A Hero, an Ideal, and the thing sacrificed");
        assert(plain_from_char(cards[3]@, 40)) by {
            reveal_with_fuel(plain_from_char, 3);
        }
        reveal_with_fuel(plain_from_char, 41);
    }
    assert(plain_text(cards[4]@)) by {
        reveal_strlit("A Jealous one, an Object, a Supposed Accomplice, and an Author of the error");
        assert(cards[4] == "A Jealous one, an Object, a Supposed Accomplice, and an Author of the error");
        assert(plain_from_char(cards[4]@, 40)) by {
            reveal_with_fuel(plain_from_char, 36);
        }
        reveal_with_fuel(plain_from_char, 41);
    }
    assert(plain_text(cards[5]@)) by {
        reveal_strlit("A Kinsman who hates and a Kinsman who is hated");
        assert(cards[5] == "A Kinsman who hates and a Kinsman who is hated");
        assert(plain_from_char(cards[5]@, 40)) by {
            reveal_with_fuel(plain_from_char, 7);
        }
        reveal_with_fuel(plain_from_char, 41);
    }
    assert(plain_text(cards[6]@)) by {
        reveal_strlit("A Lover, a Beloved, and an Obstacle");
        assert(cards[6] == "A Lover, a Beloved, and an Obstacle");
        reveal_with_fuel(plain_from_char, 36);
    }
    assert(plain_text(cards[7]@)) by {
        reveal_strlit("A Madman and a Victim");
        assert(cards[7] == "A Madman and a Victim");
        reveal_with_fuel(plain_from_char, 22);
    }
    assert(plain_text(cards[8]@)) by {
        reveal_strlit("A Mortal and an Immortal");
        assert(cards[8] == "A Mortal and an Immortal");
        reveal_with_fuel(plain_from_char, 25);
    }
    assert(plain_text(cards[9]@)) by {
        reveal_strlit("A Persecutor, a Suppliant, and a Power in authority");
        assert(cards[9] == "A Persecutor, a Suppliant, and a Power in authority");
        assert(plain_from_char(cards[9]@, 40)) by {
            reveal_with_fuel(plain_from_char, 12);
        }
        reveal_with_fuel(plain_from_char, 41);
    }
    assert(plain_text(cards[10]@)) by {
        reveal_strlit("A Problem, an Interrogator, and a Seeker");
        assert(cards[10] == "A Problem, an Interrogator, and a Seeker");
        reveal_with_fuel(plain_from_char, 41);
    }
    assert(plain_text(cards[11]@)) by {
        reveal_strlit("A Solicitor, and an Adversary who refuses");
        assert(cards[11] == "A Solicitor, and an Adversary who refuses");
        assert(plain_from_char(cards[11]@, 40)) by {
            reveal_with_fuel(plain_from_char, 2);
        }
        reveal_with_fuel(plain_from_char, 41);
    }
    assert(plain_text(cards[12]@)) by {
        reveal_strlit("A Tyrant and a Conspirator");
        assert(cards[12] == "A Tyrant and a Conspirator");
        reveal_with_fuel(plain_from_char, 27);
    }
    assert(plain_text(cards[13]@)) by {
        reveal_strlit("A Vanquished Power and a Victorious Enemy");
        assert(cards[13] == "A Vanquished Power and a Victorious Enemy");
        assert(plain_from_char(cards[13]@, 40)) by {
            reveal_with_fuel(plain_from_char, 2);
        }
        reveal_with_fuel(plain_from_char, 41);
    }
    assert(plain_text(cards[14]@)) by {
        reveal_strlit("A beginning, a middle, and an end");
        assert(cards[14] == "A beginning, a middle, and an end");
        reveal_with_fuel(plain_from_char, 34);
    }
    assert(plain_text(cards[15]@)) by {
        reveal_strlit("A change from ignorance to knowledge");
        assert(cards[15] == "A change from ignorance to knowledge");
        reveal_with_fuel(plain_from_char, 37);
    }
    assert(plain_text(cards[16]@)) by {
        reveal_strlit("A difficult task is set");
        assert(cards[16] == "A difficult task is set");
        reveal_with_fuel(plain_from_char, 24);
    }
    assert(plain_text(cards[17]@)) by {
        reveal_strlit("A false hero makes claims that are not his");
        assert(cards[17] == "A false hero makes claims that are not his");
        assert(plain_from_char(cards[17]@, 40)) by {
            reveal_with_fuel(plain_from_char, 3);
        }
        reveal_with_fuel(plain_from_char, 41);
    }
    assert(plain_text(cards[18]@)) by {
        reveal_strlit("A member of the family leaves home");
        assert(cards[18] == "A member of the family leaves home");
        reveal_with_fuel(plain_from_char, 35);
    }
    assert(plain_text(cards[19]@)) by {
        reveal_strlit("A prohibition is issued");
        assert(cards[19] == "A prohibition is issued");
        reveal_with_fuel(plain_from_char, 24);
    }
    assert(plain_text(cards[20]@)) by {
        reveal_strlit("Abduction");
        assert(cards[20] == "Abduction");
        reveal_with_fuel(plain_from_char, 10);
    }
    assert(plain_text(cards[21]@)) by {
        reveal_strlit("Adultery");
        assert(cards[21] == "Adultery");
        reveal_with_fuel(plain_from_char, 9);
    }
    assert(plain_text(cards[22]@)) by {
        reveal_strlit("All sacrificed for a passion");
        assert(cards[22] == "All sacrificed for a passion");
        reveal_with_fuel(plain_from_char, 29);
    }
    assert(plain_text(cards[23]@)) by {
        reveal_strlit("Ambition");
        assert(cards[23] == "Ambition");
        reveal_with_fuel(plain_from_char, 9);
    }
    assert(plain_text(cards[24]@)) by {
        reveal_strlit("An Abductor, the Abducted, and a Guardian");
        assert(cards[24] == "An Abductor, the Abducted, and a Guardian");
        assert(plain_from_char(cards[24]@, 40)) by {
            reveal_with_fuel(plain_from_char, 2);
        }
        reveal_with_fuel(plain_from_char, 41);
    }
    assert(plain_text(cards[25]@)) by {
        reveal_strlit("An Ambitious one, a Thing coveted, and an Adversary");
        assert(cards[25] == "An Ambitious one, a Thing coveted, and an Adversary");
        assert(plain_from_char(cards[25]@, 40)) by {
            reveal_with_fuel(plain_from_char, 12);
        }
        reveal_with_fuel(plain_from_char, 41);
    }
    assert(plain_text(cards[26]@)) by {
        reveal_strlit("An Avenger and a Criminal");
        assert(cards[26] == "An Avenger and a Criminal");
        reveal_with_fuel(plain_from_char, 26);
    }
    assert(plain_text(cards[27]@)) by {
        reveal_strlit("An Avenging Kinsman, a Guilty Kinsman, and the remembered Victim");
        assert(cards[27] == "An Avenging Kinsman, a Guilty Kinsman, and the remembered Victim");
        assert(plain_from_char(cards[27]@, 40)) by {
            reveal_with_fuel(plain_from_char, 25);
        }
        reveal_with_fuel(plain_from_char, 41);
    }
    assert(plain_text(cards[28]@)) by {
        reveal_strlit("An Unfortunate, and a Master or a Misfortune");
        assert(cards[28] == "An Unfortunate, and a Master or a Misfortune");
        assert(plain_from_char(cards[28]@, 40)) by {
            reveal_with_fuel(plain_from_char, 5);
        }
        reveal_with_fuel(plain_from_char, 41);
    }
    assert(plain_text(cards[29]@)) by {
        reveal_strlit("An enemy loved");
        assert(cards[29] == "An enemy loved");
        reveal_with_fuel(plain_from_char, 15);
    }
    assert(plain_text(cards[30]@)) by {
        reveal_strlit("An error of judgment in a person otherwise good");
        assert(cards[30] == "An error of judgment in a person otherwise good");
        assert(plain_from_char(cards[30]@, 40)) by {
            reveal_with_fuel(plain_from_char, 8);
        }
        reveal_with_fuel(plain_from_char, 41);
    }
    assert(plain_text(cards[31]@)) by {
        reveal_strlit("An incident that arrives unexpectedly, yet on account of what came before");
        assert(cards[31] == "An incident that arrives unexpectedly, yet on account of what came before");
        assert(plain_from_char(cards[31]@, 40)) by {
            reveal_with_fuel(plain_from_char, 34);
        }
        reveal_with_fuel(plain_from_char, 41);
    }
    assert(plain_text(cards[32]@)) by {
        reveal_strlit("Character revealed by what is chosen");
        assert(cards[32] == "Character revealed by what is chosen");
        reveal_with_fuel(plain_from_char, 37);
    }
    assert(plain_text(cards[33]@)) by {
        reveal_strlit("Complication and denouement");
        assert(cards[33] == "Complication and denouement");
        reveal_with_fuel(plain_from_char, 28);
    }
    assert(plain_text(cards[34]@)) by {
        reveal_strlit("Conflict with a god");
        assert(cards[34] == "Conflict with a god");
        reveal_with_fuel(plain_from_char, 20);
    }
    assert(plain_text(cards[35]@)) by {
        reveal_strlit("Crime pursued by vengeance");
        assert(cards[35] == "Crime pursued by vengeance");
        reveal_with_fuel(plain_from_char, 27);
    }
    assert(plain_text(cards[36]@)) by {
        reveal_strlit("Crimes of love");
        assert(cards[36] == "Crimes of love");
        reveal_with_fuel(plain_from_char, 15);
    }
    assert(plain_text(cards[37]@)) by {
        reveal_strlit("Daring enterprise");
        assert(cards[37] == "Daring enterprise");
        reveal_with_fuel(plain_from_char, 18);
    }
    assert(plain_text(cards[38]@)) by {
        reveal_strlit("Deliverance");
        assert(cards[38] == "Deliverance");
        reveal_with_fuel(plain_from_char, 12);
    }
    assert(plain_text(cards[39]@)) by {
        reveal_strlit("Disaster");
        assert(cards[39] == "Disaster");
        reveal_with_fuel(plain_from_char, 9);
    }
    assert(plain_text(cards[40]@)) by {
        reveal_strlit("Discovery of the dishonor of a loved one");
        assert(cards[40] == "Discovery of the dishonor of a loved one");
        reveal_with_fuel(plain_from_char, 41);
    }
    assert(plain_text(cards[41]@)) by {
        reveal_strlit("Enmity of kinsmen");
        assert(cards[41] == "Enmity of kinsmen");
        reveal_with_fuel(plain_from_char, 18);
    }
    assert(plain_text(cards[42]@)) by {
        reveal_strlit("Erroneous judgment");
        assert(cards[42] == "Erroneous judgment");
        reveal_with_fuel(plain_from_char, 19);
    }
    assert(plain_text(cards[43]@)) by {
        reveal_strlit("Falling prey to cruelty or misfortune");
        assert(cards[43] == "Falling prey to cruelty or misfortune");
        reveal_with_fuel(plain_from_char, 38);
    }
    assert(plain_text(cards[44]@)) by {
        reveal_strlit("Fatal imprudence");
        assert(cards[44] == "Fatal imprudence");
        reveal_with_fuel(plain_from_char, 17);
    }
    assert(plain_text(cards[45]@)) by {
        reveal_strlit("Hero and villain meet in direct combat");
        assert(cards[45] == "Hero and villain meet in direct combat");
        reveal_with_fuel(plain_from_char, 39);
    }
    assert(plain_text(cards[46]@)) by {
        reveal_strlit("Involuntary crimes of love");
        assert(cards[46] == "Involuntary crimes of love");
        reveal_with_fuel(plain_from_char, 27);
    }
    assert(plain_text(cards[47]@)) by {
        reveal_strlit("Loss of loved ones");
        assert(cards[47] == "Loss of loved ones");
        reveal_with_fuel(plain_from_char, 19);
    }
    assert(plain_text(cards[48]@)) by {
        reveal_strlit("Madness");
        assert(cards[48] == "Madness");
        reveal_with_fuel(plain_from_char, 8);
    }
    assert(plain_text(cards[49]@)) by {
        reveal_strlit("Mistaken jealousy");
        assert(cards[49] == "Mistaken jealousy");
        reveal_with_fuel(plain_from_char, 18);
    }
    assert(plain_text(cards[50]@)) by {
        reveal_strlit("Murderous adultery");
        assert(cards[50] == "Murderous adultery");
        reveal_with_fuel(plain_from_char, 19);
    }
    assert(plain_text(cards[51]@)) by {
        reveal_strlit("Necessity of sacrificing loved ones");
        assert(cards[51] == "Necessity of sacrificing loved ones");
        reveal_with_fuel(plain_from_char, 36);
    }
    assert(plain_text(cards[52]@)) by {
        reveal_strlit("Obstacles to love");
        assert(cards[52] == "Obstacles to love");
        reveal_with_fuel(plain_from_char, 18);
    }
    assert(plain_text(cards[53]@)) by {
        reveal_strlit("Obtaining");
        assert(cards[53] == "Obtaining");
        reveal_with_fuel(plain_from_char, 10);
    }
    assert(plain_text(cards[54]@)) by {
        reveal_strlit("Pity and terror");
        assert(cards[54] == "Pity and terror");
        reveal_with_fuel(plain_from_char, 16);
    }
    assert(plain_text(cards[55]@)) by {
        reveal_strlit("Pursuit");
        assert(cards[55] == "Pursuit");
        reveal_with_fuel(plain_from_char, 8);
    }
    assert(plain_text(cards[56]@)) by {
        reveal_strlit("Recognition");
        assert(cards[56] == "Recognition");
        reveal_with_fuel(plain_from_char, 12);
    }
    assert(plain_text(cards[57]@)) by {
        reveal_strlit("Recognition and reversal, arriving together");
        assert(cards[57] == "Recognition and reversal, arriving together");
        assert(plain_from_char(cards[57]@, 40)) by {
            reveal_with_fuel(plain_from_char, 4);
        }
        reveal_with_fuel(plain_from_char, 41);
    }
    assert(plain_text(cards[58]@)) by {
        reveal_strlit("Recovery of a lost one");
        assert(cards[58] == "Recovery of a lost one");
        reveal_with_fuel(plain_from_char, 23);
    }
    assert(plain_text(cards[59]@)) by {
        reveal_strlit("Remorse");
        assert(cards[59] == "Remorse");
        reveal_with_fuel(plain_from_char, 8);
    }
    assert(plain_text(cards[60]@)) by {
        reveal_strlit("Reversal of the situation");
        assert(cards[60] == "Reversal of the situation");
        reveal_with_fuel(plain_from_char, 26);
    }
    assert(plain_text(cards[61]@)) by {
        reveal_strlit("Revolt");
        assert(cards[61] == "Revolt");
        reveal_with_fuel(plain_from_char, 7);
    }
    assert(plain_text(cards[62]@)) by {
        reveal_strlit("Rivalry of kinsmen");
        assert(cards[62] == "Rivalry of kinsmen");
        reveal_with_fuel(plain_from_char, 19);
    }
    assert(plain_text(cards[63]@)) by {
        reveal_strlit("Rivalry of superior and inferior");
        assert(cards[63] == "Rivalry of superior and inferior");
        reveal_with_fuel(plain_from_char, 33);
    }
    assert(plain_text(cards[64]@)) by {
        reveal_strlit("Self-sacrifice for an ideal");
        assert(cards[64] == "Self-sacrifice for an ideal");
        reveal_with_fuel(plain_from_char, 28);
    }
    assert(plain_text(cards[65]@)) by {
        reveal_strlit("Self-sacrifice for kindred");
        assert(cards[65] == "Self-sacrifice for kindred");
        reveal_with_fuel(plain_from_char, 27);
    }
    assert(plain_text(cards[66]@)) by {
        reveal_strlit("Slaying of a kinsman unrecognized");
        assert(cards[66] == "Slaying of a kinsman unrecognized");
        reveal_with_fuel(plain_from_char, 34);
    }
    assert(plain_text(cards[67]@)) by {
        reveal_strlit("Something is missing, and the lack is felt");
        assert(cards[67] == "Something is missing, and the lack is felt");
        assert(plain_from_char(cards[67]@, 40)) by {
            reveal_with_fuel(plain_from_char, 3);
        }
        reveal_with_fuel(plain_from_char, 41);
    }
    assert(plain_text(cards[68]@)) by {
        reveal_strlit("Supplication");
        assert(cards[68] == "Supplication");
        reveal_with_fuel(plain_from_char, 13);
    }
    assert(plain_text(cards[69]@)) by {
        reveal_strlit("The enigma");
        assert(cards[69] == "The enigma");
        reveal_with_fuel(plain_from_char, 11);
    }
    assert(plain_text(cards[70]@)) by {
        reveal_strlit("The false hero is exposed");
        assert(cards[70] == "The false hero is exposed");
        reveal_with_fuel(plain_from_char, 26);
    }
    assert(plain_text(cards[71]@)) by {
        reveal_strlit("The hero arrives home unrecognized");
        assert(cards[71] == "The hero arrives home unrecognized");
        reveal_with_fuel(plain_from_char, 35);
    }
    assert(plain_text(cards[72]@)) by {
        reveal_strlit("The hero departs");
        assert(cards[72] == "The hero departs");
        reveal_with_fuel(plain_from_char, 17);
    }
    assert(plain_text(cards[73]@)) by {
        reveal_strlit("The hero is given a new appearance");
        assert(cards[73] == "The hero is given a new appearance");
        reveal_with_fuel(plain_from_char, 35);
    }
    assert(plain_text(cards[74]@)) by {
        reveal_strlit("The hero is led to the thing sought");
        assert(cards[74] == "The hero is led to the thing sought");
        reveal_with_fuel(plain_from_char, 36);
    }
    assert(plain_text(cards[75]@)) by {
        reveal_strlit("The hero is marked");
        assert(cards[75] == "The hero is marked");
        reveal_with_fuel(plain_from_char, 19);
    }
    assert(plain_text(cards[76]@)) by {
        reveal_strlit("The hero is pursued");
        assert(cards[76] == "The hero is pursued");
        reveal_with_fuel(plain_from_char, 20);
    }
    assert(plain_text(cards[77]@)) by {
        reveal_strlit("The hero is recognized");
        assert(cards[77] == "The hero is recognized");
        reveal_with_fuel(plain_from_char, 23);
    }
    assert(plain_text(cards[78]@)) by {
        reveal_strlit("The hero is rescued from pursuit");
        assert(cards[78] == "The hero is rescued from pursuit");
        reveal_with_fuel(plain_from_char, 33);
    }
    assert(plain_text(cards[79]@)) by {
        reveal_strlit("The hero is tested, interrogated, or attacked");
        assert(cards[79] == "The hero is tested, interrogated, or attacked");
        assert(plain_from_char(cards[79]@, 40)) by {
            reveal_with_fuel(plain_from_char, 6);
        }
        reveal_with_fuel(plain_from_char, 41);
    }
    assert(plain_text(cards[80]@)) by {
        reveal_strlit("The hero marries, or is otherwise rewarded");
        assert(cards[80] == "The hero marries, or is otherwise rewarded");
        assert(plain_from_char(cards[80]@, 40)) by {
            reveal_with_fuel(plain_from_char, 3);
        }
        reveal_with_fuel(plain_from_char, 41);
    }
    assert(plain_text(cards[81]@)) by {
        reveal_strlit("The hero reacts, and a helper is acquired");
        assert(cards[81] == "The hero reacts, and a helper is acquired");
        assert(plain_from_char(cards[81]@, 40)) by {
            reveal_with_fuel(plain_from_char, 2);
        }
        reveal_with_fuel(plain_from_char, 41);
    }
    assert(plain_text(cards[82]@)) by {
        reveal_strlit("The hero returns");
        assert(cards[82] == "The hero returns");
        reveal_with_fuel(plain_from_char, 17);
    }
    assert(plain_text(cards[83]@)) by {
        reveal_strlit("The misfortune is made known");
        assert(cards[83] == "The misfortune is made known");
        reveal_with_fuel(plain_from_char, 29);
    }
    assert(plain_text(cards[84]@)) by {
        reveal_strlit("The original lack is remedied");
        assert(cards[84] == "The original lack is remedied");
        reveal_with_fuel(plain_from_char, 30);
    }
    assert(plain_text(cards[85]@)) by {
        reveal_strlit("The probable impossible, preferred to the possible improbable");
        assert(cards[85] == "The probable impossible, preferred to the possible improbable");
        assert(plain_from_char(cards[85]@, 40)) by {
            reveal_with_fuel(plain_from_char, 22);
        }
        reveal_with_fuel(plain_from_char, 41);
    }
    assert(plain_text(cards[86]@)) by {
        reveal_strlit("The prohibition is broken");
        assert(cards[86] == "The prohibition is broken");
        reveal_with_fuel(plain_from_char, 26);
    }
    assert(plain_text(cards[87]@)) by {
        reveal_strlit("The scene of suffering");
        assert(cards[87] == "The scene of suffering");
        reveal_with_fuel(plain_from_char, 23);
    }
    assert(plain_text(cards[88]@)) by {
        reveal_strlit("The seeker agrees to act");
        assert(cards[88] == "The seeker agrees to act");
        reveal_with_fuel(plain_from_char, 25);
    }
    assert(plain_text(cards[89]@)) by {
        reveal_strlit("The task is accomplished");
        assert(cards[89] == "The task is accomplished");
        reveal_with_fuel(plain_from_char, 25);
    }
    assert(plain_text(cards[90]@)) by {
        reveal_strlit("The turn\n\t-recognition\n\t-reversal\n\t-both at once");
        assert(cards[90] == "The turn\n\t-recognition\n\t-reversal\n\t-both at once");
        assert(plain_from_char(cards[90]@, 40)) by {
            reveal_with_fuel(plain_from_char, 9);
        }
        reveal_with_fuel(plain_from_char, 41);
    }
    assert(plain_text(cards[91]@)) by {
        reveal_strlit("The unity of a single action");
        assert(cards[91] == "The unity of a single action");
        reveal_with_fuel(plain_from_char, 29);
    }
    assert(plain_text(cards[92]@)) by {
        reveal_strlit("The victim is taken in, and unwittingly helps");
        assert(cards[92] == "The victim is taken in, and unwittingly helps");
        assert(plain_from_char(cards[92]@, 40)) by {
            reveal_with_fuel(plain_from_char, 6);
        }
        reveal_with_fuel(plain_from_char, 41);
    }
    assert(plain_text(cards[93]@)) by {
        reveal_strlit("The villain attempts a deception");
        assert(cards[93] == "The villain attempts a deception");
        reveal_with_fuel(plain_from_char, 33);
    }
    assert(plain_text(cards[94]@)) by {
        reveal_strlit("The villain does harm to a member of the family");
        assert(cards[94] == "The villain does harm to a member of the family");
        assert(plain_from_char(cards[94]@, 40)) by {
            reveal_with_fuel(plain_from_char, 8);
        }
        reveal_with_fuel(plain_from_char, 41);
    }
    assert(plain_text(cards[95]@)) by {
        reveal_strlit("The villain is defeated");
        assert(cards[95] == "The villain is defeated");
        reveal_with_fuel(plain_from_char, 24);
    }
    assert(plain_text(cards[96]@)) by {
        reveal_strlit("The villain is punished");
        assert(cards[96] == "The villain is punished");
        reveal_with_fuel(plain_from_char, 24);
    }
    assert(plain_text(cards[97]@)) by {
        reveal_strlit("The villain learns something about the victim");
        assert(cards[97] == "The villain learns something about the victim");
        assert(plain_from_char(cards[97]@, 40)) by {
            reveal_with_fuel(plain_from_char, 6);
        }
        reveal_with_fuel(plain_from_char, 41);
    }
    assert(plain_text(cards[98]@)) by {
        reveal_strlit("The villain makes an attempt at reconnaissance");
        assert(cards[98] == "The villain makes an attempt at reconnaissance");
        assert(plain_from_char(cards[98]@, 40)) by {
            reveal_with_fuel(plain_from_char, 7);
        }
        reveal_with_fuel(plain_from_char, 41);
    }
    assert(plain_text(cards[99]@)) by {
        reveal_strlit("Three roles\n\t-who wants\n\t-who blocks\n\t-who decides");
        assert(cards[99] == "Three roles\n\t-who wants\n\t-who blocks\n\t-who decides");
        assert(plain_from_char(cards[99]@, 40)) by {
            reveal_with_fuel(plain_from_char, 11);
        }
        reveal_with_fuel(plain_from_char, 41);
    }
    assert(plain_text(cards[100]@)) by {
        reveal_strlit("Two Adulterers and a Betrayed Spouse");
        assert(cards[100] == "Two Adulterers and a Betrayed Spouse");
        reveal_with_fuel(plain_from_char, 37);
    }
    assert(plain_text(cards[101]@)) by {
        reveal_strlit("Two Kinsmen and the Object of their rivalry");
        assert(cards[101] == "Two Kinsmen and the Object of their rivalry");
        assert(plain_from_char(cards[101]@, 40)) by {
            reveal_with_fuel(plain_from_char, 4);
        }
        reveal_with_fuel(plain_from_char, 41);
    }
    assert(plain_text(cards[102]@)) by {
        reveal_strlit("Vengeance taken for kindred upon kindred");
        assert(cards[102] == "Vengeance taken for kindred upon kindred");
        reveal_with_fuel(plain_from_char, 41);
    }
    assert(plain_text(cards[103]@)) by {
        reveal_strlit("What is missing\n\t-a person\n\t-an object\n\t-a truth");
        assert(cards[103] == "What is missing\n\t-a person\n\t-an object\n\t-a truth");
        assert(plain_from_char(cards[103]@, 40)) by {
            reveal_with_fuel(plain_from_char, 9);
        }
        reveal_with_fuel(plain_from_char, 41);
    }
    assert(plain_from(cards, 104));
    assert(plain_from(cards, 103));
    assert(plain_from(cards, 102));
    assert(plain_from(cards, 101));
    assert(plain_from(cards, 100));
    assert(plain_from(cards, 99));
    assert(plain_from(cards, 98));
    assert(plain_from(cards, 97));
    assert(plain_from(cards, 96));
    assert(plain_from(cards, 95));
    assert(plain_from(cards, 94));
    assert(plain_from(cards, 93));
    assert(plain_from(cards, 92));
    assert(plain_from(cards, 91));
    assert(plain_from(cards, 90));
    assert(plain_from(cards, 89));
    assert(plain_from(cards, 88));
    assert(plain_from(cards, 87));
    assert(plain_from(cards, 86));
    assert(plain_from(cards, 85));
    assert(plain_from(cards, 84));
    assert(plain_from(cards, 83));
    assert(plain_from(cards, 82));
    assert(plain_from(cards, 81));
    assert(plain_from(cards, 80));
    assert(plain_from(cards, 79));
    assert(plain_from(cards, 78));
    assert(plain_from(cards, 77));
    assert(plain_from(cards, 76));
    assert(plain_from(cards, 75));
    assert(plain_from(cards, 74));
    assert(plain_from(cards, 73));
    assert(plain_from(cards, 72));
    assert(plain_from(cards, 71));
    assert(plain_from(cards, 70));
    assert(plain_from(cards, 69));
    assert(plain_from(cards, 68));
    assert(plain_from(cards, 67));
    assert(plain_from(cards, 66));
    assert(plain_from(cards, 65));
    assert(plain_from(cards, 64));
    assert(plain_from(cards, 63));
    assert(plain_from(cards, 62));
    assert(plain_from(cards, 61));
    assert(plain_from(cards, 60));
    assert(plain_from(cards, 59));
    assert(plain_from(cards, 58));
    assert(plain_from(cards, 57));
    assert(plain_from(cards, 56));
    assert(plain_from(cards, 55));
    assert(plain_from(cards, 54));
    assert(plain_from(cards, 53));
    assert(plain_from(cards, 52));
    assert(plain_from(cards, 51));
    assert(plain_from(cards, 50));
    assert(plain_from(cards, 49));
    assert(plain_from(cards, 48));
    assert(plain_from(cards, 47));
    assert(plain_from(cards, 46));
    assert(plain_from(cards, 45));
    assert(plain_from(cards, 44));
    assert(plain_from(cards, 43));
    assert(plain_from(cards, 42));
    assert(plain_from(cards, 41));
    assert(plain_from(cards, 40));
    assert(plain_from(cards, 39));
    assert(plain_from(cards, 38));
    assert(plain_from(cards, 37));
    assert(plain_from(cards, 36));
    assert(plain_from(cards, 35));
    assert(plain_from(cards, 34));
    assert(plain_from(cards, 33));
    assert(plain_from(cards, 32));
    assert(plain_from(cards, 31));
    assert(plain_from(cards, 30));
    assert(plain_from(cards, 29));
    assert(plain_from(cards, 28));
    assert(plain_from(cards, 27));
    assert(plain_from(cards, 26));
    assert(plain_from(cards, 25));
    assert(plain_from(cards, 24));
    assert(plain_from(cards, 23));
    assert(plain_from(cards, 22));
    assert(plain_from(cards, 21));
    assert(plain_from(cards, 20));
    assert(plain_from(cards, 19));
    assert(plain_from(cards, 18));
    assert(plain_from(cards, 17));
    assert(plain_from(cards, 16));
    assert(plain_from(cards, 15));
    assert(plain_from(cards, 14));
    assert(plain_from(cards, 13));
    assert(plain_from(cards, 12));
    assert(plain_from(cards, 11));
    assert(plain_from(cards, 10));
    assert(plain_from(cards, 9));
    assert(plain_from(cards, 8));
    assert(plain_from(cards, 7));
    assert(plain_from(cards, 6));
    assert(plain_from(cards, 5));
    assert(plain_from(cards, 4));
    assert(plain_from(cards, 3));
    assert(plain_from(cards, 2));
    assert(plain_from(cards, 1));
    assert(plain_from(cards, 0));
}

} // verus!
