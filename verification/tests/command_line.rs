//! The program's behaviour, held to what it prints: `parse` then `run`, with
//! stdout, stderr and success put together as the program's `main` does.

use sortes::cli::{parse, run, USAGE};
use sortes::Deck;

/// The version handed to `run`, as the program hands it the package's.
const VERSION: &str = "0.2.0";

struct Output {
    success: bool,
    stdout: String,
    stderr: String,
}

/// What the program does with these arguments.
fn program(args: &[&str]) -> Output {
    match parse(args.iter().map(|arg| (*arg).to_string()).collect()) {
        Err(message) => Output {
            success: false,
            stdout: String::new(),
            stderr: format!("sortes: {message}\n\n{USAGE}\n"),
        },
        Ok(command) => match run(command, VERSION) {
            Ok(out) => Output {
                success: true,
                stdout: out,
                stderr: String::new(),
            },
            Err(message) => Output {
                success: false,
                stdout: String::new(),
                stderr: format!("sortes: {message}\n"),
            },
        },
    }
}

/// Cards as the program prints them: one after another, each ended by a newline.
fn as_printed(cards: &[&str]) -> String {
    cards.iter().map(|card| format!("{card}\n")).collect()
}

fn first_deck() -> Deck {
    sortes::decks().first().copied().expect("a deck is always compiled in")
}

#[test]
fn a_bare_run_prints_one_card_from_the_default_deck() {
    let output = program(&[]);
    assert!(output.success);
    let card = output
        .stdout
        .strip_suffix('\n')
        .expect("a card is printed with a newline after it");
    assert!(
        first_deck().cards().contains(&card),
        "printed something not in the deck: {card:?}"
    );
}

#[test]
fn a_seeded_draw_matches_the_library_byte_for_byte() {
    let deck = first_deck();
    let expected = as_printed(&deck.shoe_with_seed(4242).draw_n(5));
    let output = program(&[deck.id, "-n", "5", "--seed", "4242"]);
    assert!(output.success);
    assert_eq!(output.stdout, expected);
}

#[test]
fn the_same_seed_deals_the_same_cards_each_run() {
    let deck = first_deck();
    let once = program(&[deck.id, "-n", "4", "--seed", "17"]);
    let twice = program(&[deck.id, "-n", "4", "--seed", "17"]);
    assert_eq!(once.stdout, twice.stdout);
    assert!(!once.stdout.is_empty());
}

#[test]
fn a_seeded_any_is_reproducible_too() {
    let once = program(&["--any", "-n", "3", "--seed", "88"]);
    let twice = program(&["--any", "-n", "3", "--seed", "88"]);
    assert!(once.success);
    assert_eq!(once.stdout, twice.stdout);
}

#[test]
fn any_draws_from_some_deck_that_is_built_in() {
    let output = program(&["--any"]);
    assert!(output.success);
    let card = output
        .stdout
        .strip_suffix('\n')
        .expect("a card is printed with a newline after it");
    assert!(
        sortes::decks().iter().any(|deck| deck.cards().contains(&card)),
        "--any printed a card no deck holds: {card:?}"
    );
}

#[test]
fn all_prints_the_deck_entire_and_in_order() {
    for deck in sortes::decks() {
        let output = program(&[deck.id, "--all"]);
        assert!(output.success);
        assert_eq!(output.stdout, as_printed(deck.cards()), "--all differed for {}", deck.id);
    }
}

#[test]
fn find_prints_the_cards_that_match_and_nothing_else() {
    let deck = first_deck();
    let sample = deck.cards().first().expect("a deck is never empty");
    let word = sample.split_whitespace().next().expect("a card has words");

    let output = program(&[deck.id, "--find", word]);
    assert!(output.success);
    assert_eq!(output.stdout, as_printed(&deck.find(word)));
    assert!(!output.stdout.is_empty(), "{word:?} should have matched at least one card");
}

#[test]
fn find_ignores_case() {
    let deck = first_deck();
    let word = deck
        .cards()
        .first()
        .and_then(|card| card.split_whitespace().next())
        .expect("a card has words");
    let lower = program(&[deck.id, "--find", &word.to_lowercase()]);
    let upper = program(&[deck.id, "--find", &word.to_uppercase()]);
    assert_eq!(lower.stdout, upper.stdout);
}

#[test]
fn find_matching_nothing_still_succeeds() {
    let output = program(&["--find", "no card says this and none ever will"]);
    assert!(output.success);
    assert!(output.stdout.is_empty());
    assert!(output.stderr.is_empty());
}

#[test]
fn find_with_an_empty_needle_is_the_whole_deck() {
    let deck = first_deck();
    let output = program(&[deck.id, "--find", ""]);
    assert!(output.success);
    assert_eq!(output.stdout, as_printed(deck.cards()));
}

#[test]
fn a_count_of_zero_prints_nothing_and_succeeds() {
    let output = program(&["-n", "0"]);
    assert!(output.success);
    assert!(output.stdout.is_empty());
}

#[test]
fn asking_for_more_than_the_deck_holds_returns_the_deck() {
    let deck = first_deck();
    let output = program(&[deck.id, "-n", "100000"]);
    assert!(output.success);
    let expected = deck.cards().iter().map(|card| card.lines().count()).sum::<usize>();
    assert_eq!(output.stdout.lines().count(), expected);
}

#[test]
fn listing_names_every_deck_and_marks_the_default() {
    let output = program(&["--list"]);
    assert!(output.success);
    let printed = output.stdout;
    for deck in sortes::decks() {
        assert!(printed.contains(deck.id), "--list omitted {}", deck.id);
        assert!(printed.contains(deck.name), "--list omitted {}", deck.name);
    }
    assert!(printed.contains("* drawn from when no deck is named"));
    let marked = printed.lines().next().expect("--list prints at least one line");
    assert!(marked.starts_with('*'), "the first deck listed should be the marked one: {marked:?}");
}

#[test]
fn list_output_still_parses_the_way_the_completions_read_it() {
    let output = program(&["--list"]);
    assert!(output.success);
    let ids: Vec<&str> = output
        .stdout
        .lines()
        .filter_map(|line| {
            let mut fields = line.split_whitespace();
            let first = fields.next()?;
            let (id, count) = if first == "*" {
                (fields.next()?, fields.next()?)
            } else {
                (first, fields.next()?)
            };
            count.parse::<usize>().ok().map(|_| id)
        })
        .collect();
    let expected: Vec<&str> = sortes::decks().iter().map(|deck| deck.id).collect();
    assert_eq!(
        ids, expected,
        "the completions would read these ids out of --list, and they are not the decks"
    );
}

#[test]
fn about_says_what_a_deck_is_and_where_it_came_from() {
    for deck in sortes::decks() {
        let output = program(&["--about", deck.id]);
        assert!(output.success);
        let printed = output.stdout;
        assert!(printed.contains(deck.name));
        assert!(printed.contains(deck.id));
        assert!(printed.contains(deck.blurb));
        assert!(printed.contains(&deck.count().to_string()));
        assert!(printed.contains(&deck.provenance.describe()));
    }
}

#[test]
fn an_unknown_deck_fails_and_names_the_alternatives() {
    let output = program(&["no-such-deck"]);
    assert!(!output.success);
    assert!(output.stdout.is_empty(), "a failure should print no cards");
    assert!(output.stderr.contains("no-such-deck"));
    assert!(output.stderr.contains("Built in:"));
    for deck in sortes::decks() {
        assert!(output.stderr.contains(deck.id), "the error omitted {}", deck.id);
    }
}

#[test]
fn a_usage_error_fails_and_prints_the_grammar() {
    for args in [
        vec!["--nope"],
        vec!["--all", "-n", "2"],
        vec!["--list", "--about"],
        vec!["--any", "somedeck", "--any"],
        vec!["--seed", "not-a-number"],
        vec!["-n"],
        vec!["--find"],
        vec!["--find", "x", "--all"],
        vec!["--find", "x", "-n", "2"],
    ] {
        let output = program(&args);
        assert!(!output.success, "{args:?} should have failed");
        assert!(output.stderr.starts_with("sortes: "), "{args:?} gave {:?}", output.stderr);
        assert!(output.stderr.contains("Usage:"), "{args:?} did not print the grammar");
    }
}

#[test]
fn help_goes_to_stdout_and_succeeds() {
    for flag in ["-h", "--help"] {
        let output = program(&[flag]);
        assert!(output.success);
        let printed = output.stdout;
        assert!(printed.contains("Usage:"));
        assert!(printed.contains("--seed"));
        assert!(printed.contains("--any"));
        assert!(printed.contains("--all"));
        assert!(printed.contains("--find"));
        assert!(output.stderr.is_empty());
    }
}

#[test]
fn version_reports_the_crate_version() {
    for flag in ["-V", "--version"] {
        let output = program(&[flag]);
        assert!(output.success);
        assert_eq!(output.stdout.trim(), format!("sortes {VERSION}"));
    }
}

// ---- Further cases --------------------------------------------------

#[test]
fn help_prints_the_grammar_exactly() {
    assert_eq!(program(&["--help"]).stdout, USAGE);
    assert!(USAGE.ends_with('\n'));
}

#[test]
fn a_seeded_any_deals_what_the_picked_deck_deals_from_that_seed() {
    for seed in [0u64, 1, 88, 4242] {
        let text = seed.to_string();
        let any = program(&["--any", "-n", "6", "--seed", &text]).stdout;
        let matching: Vec<Deck> = sortes::decks()
            .into_iter()
            .filter(|deck| as_printed(&deck.shoe_with_seed(seed).draw_n(6)) == any)
            .collect();
        assert_eq!(matching.len(), 1, "seed {seed} dealt {any:?}");
    }
}

#[test]
fn a_seeded_draw_stops_at_the_deck() {
    let deck = sortes::decks::stuck::deck();
    let output = program(&["stuck", "-n", "200", "--seed", "5"]);
    let whole = deck.shoe_with_seed(5).draw_n(deck.count());
    assert_eq!(output.stdout, as_printed(&whole));
    let unique: std::collections::HashSet<_> = whole.iter().collect();
    assert_eq!(unique.len(), deck.count());
}

#[test]
fn an_unknown_deck_is_named_in_the_failure_message() {
    let output = program(&["--about", "oblique"]);
    assert!(!output.success);
    assert_eq!(
        output.stderr,
        "sortes: no deck called oblique. Built in: absurd, memento, dramatis, stuck\n"
    );
    let output = program(&["oblique", "--all"]);
    assert!(!output.success);
    assert!(output.stdout.is_empty());
}

#[test]
fn the_any_flag_never_fails_on_a_deck() {
    for args in [vec!["--any", "--all"], vec!["--any", "--find", "you"], vec!["--any", "-n", "2"]] {
        let output = program(&args);
        assert!(output.success, "{args:?} failed with {:?}", output.stderr);
    }
    let whole = program(&["--any", "--all"]).stdout;
    assert!(sortes::decks().iter().any(|deck| as_printed(deck.cards()) == whole));
}
