use sortes::cli::{parse, resolve, Command};

fn p(args: &[&str]) -> Result<Command, String> {
    parse(args.iter().map(|arg| (*arg).to_string()).collect())
}

fn draw(deck: Option<&str>, count: usize) -> Command {
    Command::Draw {
        deck: deck.map(str::to_string),
        any: false,
        count,
        seed: None,
    }
}

#[test]
fn no_arguments_draws_one_from_the_default_deck() {
    assert_eq!(p(&[]), Ok(draw(None, 1)));
}

#[test]
fn a_bare_word_names_a_deck() {
    assert_eq!(p(&["examen"]), Ok(draw(Some("examen"), 1)));
}

#[test]
fn count_can_be_short_or_long() {
    assert_eq!(p(&["-n", "3"]), Ok(draw(None, 3)));
    assert_eq!(p(&["--count", "3"]), Ok(draw(None, 3)));
}

#[test]
fn deck_and_count_together_in_either_order() {
    assert_eq!(p(&["examen", "-n", "3"]), Ok(draw(Some("examen"), 3)));
    assert_eq!(p(&["-n", "3", "examen"]), Ok(draw(Some("examen"), 3)));
}

#[test]
fn listing() {
    assert_eq!(p(&["--list"]), Ok(Command::List));
    assert_eq!(p(&["-l"]), Ok(Command::List));
}

#[test]
fn about_takes_an_optional_deck() {
    assert_eq!(
        p(&["--about", "examen"]),
        Ok(Command::About {
            deck: Some("examen".to_string())
        })
    );
    assert_eq!(p(&["--about"]), Ok(Command::About { deck: None }));
}

#[test]
fn help_and_version_win_immediately() {
    assert_eq!(p(&["--help"]), Ok(Command::Help));
    assert_eq!(p(&["-h"]), Ok(Command::Help));
    assert_eq!(p(&["-V"]), Ok(Command::Version));
    assert_eq!(p(&["examen", "--help"]), Ok(Command::Help));
}

#[test]
fn count_needs_a_number() {
    assert!(p(&["-n"]).is_err());
    assert!(p(&["-n", "three"]).is_err());
    assert!(p(&["-n", "-1"]).is_err());
}

#[test]
fn zero_is_allowed_and_draws_nothing() {
    assert_eq!(p(&["-n", "0"]), Ok(draw(None, 0)));
}

#[test]
fn unknown_options_are_rejected() {
    assert!(p(&["--nope"]).is_err());
    assert!(p(&["-x"]).is_err());
}

#[test]
fn only_one_deck_at_a_time() {
    assert!(p(&["examen", "absurd"]).is_err());
}

#[test]
fn incompatible_combinations() {
    assert!(p(&["--list", "examen"]).is_err());
    assert!(p(&["--list", "-n", "2"]).is_err());
    assert!(p(&["--list", "--about"]).is_err());
    assert!(p(&["--about", "examen", "-n", "2"]).is_err());
}

#[test]
fn the_default_deck_always_resolves() {
    assert!(resolve(None).is_ok());
}

#[test]
fn an_unknown_deck_is_an_error_that_names_the_alternatives() {
    let error = resolve(Some("no-such-deck")).expect_err("should not resolve");
    assert!(error.contains("no-such-deck"));
    assert!(error.contains("Built in:"));
}

#[test]
fn usage_errors_say_what_went_wrong() {
    assert_eq!(p(&["-n"]), Err("-n needs a number after it".to_string()));
    assert_eq!(p(&["--count"]), Err("--count needs a number after it".to_string()));
    assert_eq!(p(&["-n", "three"]), Err("not a whole number: three".to_string()));
    assert_eq!(p(&["--nope"]), Err("unknown option: --nope".to_string()));
    assert_eq!(
        p(&["examen", "absurd"]),
        Err("one deck at a time; got examen and absurd".to_string())
    );
    assert_eq!(
        p(&["--list", "--about"]),
        Err("--list and --about do not go together".to_string())
    );
    assert_eq!(p(&["--list", "stuck"]), Err("--list takes no other arguments".to_string()));
    assert_eq!(
        p(&["--about", "-n", "2"]),
        Err("--about does not take a count".to_string())
    );
}

#[test]
fn counts_read_the_way_unsigned_numbers_do() {
    assert_eq!(p(&["-n", "+7"]), Ok(draw(None, 7)));
    assert_eq!(p(&["-n", "007"]), Ok(draw(None, 7)));
    assert!(p(&["-n", "+"]).is_err());
    assert!(p(&["-n", ""]).is_err());
    assert!(p(&["-n", " 3"]).is_err());
    assert!(p(&["-n", "99999999999999999999999999"]).is_err());
    assert_eq!(
        p(&["-n", &usize::MAX.to_string()]),
        Ok(draw(None, usize::MAX))
    );
    // The last count given wins.
    assert_eq!(p(&["-n", "2", "-n", "5"]), Ok(draw(None, 5)));
}

#[test]
fn resolving_names_a_deck_or_falls_back_to_the_first() {
    let decks = sortes::decks();
    assert_eq!(resolve(None), Ok(decks[0]));
    assert_eq!(resolve(Some("stuck")), Ok(decks[3]));
    assert_eq!(
        resolve(Some("oblique")),
        Err("no deck called oblique. Built in: absurd, memento, dramatis, stuck".to_string())
    );
}

#[test]
fn listing_shows_every_deck_and_marks_the_first() {
    let text = sortes::cli::listing();
    assert_eq!(
        text,
        "* absurd      86  The Absurd
  memento     76  Memento
  dramatis   104  Dramatis
  stuck       90  Stuck

* drawn from when no deck is named
"
    );
}

#[test]
fn about_says_what_a_deck_is_and_where_its_text_came_from() {
    let dramatis = sortes::deck_by_id("dramatis").expect("compiled in");
    let text = sortes::cli::about(dramatis);
    let lines: Vec<&str> = text.lines().collect();
    assert_eq!(lines[0], "Dramatis (dramatis)");
    assert_eq!(lines[1], dramatis.blurb);
    assert_eq!(lines[2], "104 cards");
    assert!(lines[3].starts_with("Text from the public domain: Georges Polti"));
    assert_eq!(lines.len(), 4);
}

#[test]
fn the_newer_flags_build_their_commands() {
    assert_eq!(
        p(&["stuck", "--seed", "1979"]),
        Ok(Command::Draw {
            deck: Some("stuck".to_string()),
            any: false,
            count: 1,
            seed: Some(1979),
        })
    );
    assert_eq!(
        p(&["--any", "-n", "3", "--seed", "88"]),
        Ok(Command::Draw {
            deck: None,
            any: true,
            count: 3,
            seed: Some(88),
        })
    );
    assert_eq!(
        p(&["attention", "--all"]),
        Ok(Command::All {
            deck: Some("attention".to_string()),
            any: false,
        })
    );
    assert_eq!(
        p(&["oblique", "--find", "repetition"]),
        Ok(Command::Find {
            deck: Some("oblique".to_string()),
            any: false,
            needle: "repetition".to_string(),
        })
    );
    // What follows `--find` is the text, even when it looks like a flag.
    assert_eq!(
        p(&["--find", "--all"]),
        Ok(Command::Find {
            deck: None,
            any: false,
            needle: "--all".to_string(),
        })
    );
    assert_eq!(
        p(&["--find", ""]),
        Ok(Command::Find {
            deck: None,
            any: false,
            needle: String::new(),
        })
    );
    assert_eq!(p(&["--any", "--all"]), Ok(Command::All { deck: None, any: true }));
}

#[test]
fn the_newer_flags_refuse_what_makes_no_sense() {
    assert_eq!(p(&["--seed"]), Err("--seed needs a number after it".to_string()));
    assert_eq!(p(&["--seed", "not-a-number"]), Err("not a whole number: not-a-number".to_string()));
    assert_eq!(p(&["--seed", "18446744073709551616"]), Err("not a whole number: 18446744073709551616".to_string()));
    assert_eq!(
        p(&["--seed", "18446744073709551615"]),
        Ok(Command::Draw {
            deck: None,
            any: false,
            count: 1,
            seed: Some(u64::MAX),
        })
    );
    assert_eq!(p(&["--find"]), Err("--find needs the text to look for after it".to_string()));
    assert_eq!(
        p(&["--any", "somedeck", "--any"]),
        Err("--any and a named deck do not go together".to_string())
    );
    assert_eq!(p(&["--all", "-n", "2"]), Err("--all does not take a count".to_string()));
    assert_eq!(p(&["--find", "x", "--all"]), Err("--all and --find do not go together".to_string()));
    assert_eq!(p(&["--find", "x", "-n", "2"]), Err("--find does not take a count".to_string()));
    assert_eq!(p(&["--all", "--seed", "3"]), Err("--seed only applies to a draw".to_string()));
    assert_eq!(p(&["--list", "--any"]), Err("--list takes no other arguments".to_string()));
    assert_eq!(p(&["--about", "--seed", "1"]), Err("--about takes nothing but a deck".to_string()));
}
