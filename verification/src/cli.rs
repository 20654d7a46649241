//! The grammar of the `sortes` command line, and the text it prints.
//!
//! Argument parsing is hand-rolled: the whole grammar lives in [`parse`],
//! which is a function over the arguments and nothing else, and what the
//! program prints is built here too, so the program around it only reads the
//! arguments and writes the text.

use vstd::prelude::*;
use vstd::string::StringSliceAdditionalSpecFns;
use vstd::utf8::encode_utf8;
use crate::deck::{dealt, min, valid_picks, Deck};
use crate::random::{below_from, picked_below, random_below};
use crate::search::{first_match, lemma_first_match};
use crate::shoe::{spec_draw_n, spec_new};
use crate::text::{decimal_text, pad_left, pad_right, push_decimal, push_spaces, same_text};
use crate::{deck_by_id, deck_named, decks, lemma_every_deck_holds_a_card, registry};

verus! {

broadcast use vstd::seq_lib::group_seq_properties;

/// The grammar, as `--help` prints it.
pub const USAGE: &'static str = "\
sortes - decks of cards for when the work will not move

Usage:
    sortes [DECK] [-n COUNT] [--seed N]
    sortes --any [-n COUNT] [--seed N]
    sortes [DECK | --any] --all
    sortes [DECK | --any] --find TEXT
    sortes --list
    sortes --about [DECK]

Arguments:
    DECK             Deck to draw from. Defaults to the first one built in.

Options:
    -n, --count N    Draw N cards, without replacement.
        --any        Let the deck be picked at random.
        --seed N     Deal reproducibly: the same seed deals the same cards,
                     for as long as the decks hold the same cards.
        --all        Print every card of the deck, in order.
        --find TEXT  Print every card containing TEXT, ignoring case.
    -l, --list       List the decks built into this binary.
        --about      Describe a deck and say where its text came from.
    -h, --help       Print this message.
    -V, --version    Print the version.
";

/// What the arguments asked for.
#[derive(Debug, PartialEq, Eq)]
pub enum Command {
    /// Draw `count` cards from the named deck, from one picked at random
    /// (`any`), or from the first one; dealt from a shoe shuffled from `seed`
    /// when there is one.
    Draw { deck: Option<String>, any: bool, count: usize, seed: Option<u64> },
    /// Print every card of a deck, in the deck's order.
    All { deck: Option<String>, any: bool },
    /// Print every card of a deck that contains `needle`, ignoring case.
    Find { deck: Option<String>, any: bool, needle: String },
    /// List the decks built in.
    List,
    /// Describe the named deck, or the first one.
    About { deck: Option<String> },
    /// Print the grammar.
    Help,
    /// Print the version.
    Version,
}

/// A command as a value.
pub ghost enum Request {
    Draw { deck: Option<Seq<char>>, any: bool, count: nat, seed: Option<nat> },
    All { deck: Option<Seq<char>>, any: bool },
    Find { deck: Option<Seq<char>>, any: bool, needle: Seq<char> },
    List,
    About { deck: Option<Seq<char>> },
    Help,
    Version,
}

/// The text of an optional string.
pub open spec fn text_of(s: Option<String>) -> Option<Seq<char>> {
    match s {
        Some(s) => Some(s@),
        None => None,
    }
}

/// An optional seed, as a number.
pub open spec fn seed_of(s: Option<u64>) -> Option<nat> {
    match s {
        Some(n) => Some(n as nat),
        None => None,
    }
}

impl View for Command {
    type V = Request;

    open spec fn view(&self) -> Request {
        match self {
            Command::Draw { deck, any, count, seed } => Request::Draw {
                deck: text_of(*deck),
                any: *any,
                count: *count as nat,
                seed: seed_of(*seed),
            },
            Command::All { deck, any } => Request::All { deck: text_of(*deck), any: *any },
            Command::Find { deck, any, needle } => Request::Find {
                deck: text_of(*deck),
                any: *any,
                needle: needle@,
            },
            Command::List => Request::List,
            Command::About { deck } => Request::About { deck: text_of(*deck) },
            Command::Help => Request::Help,
            Command::Version => Request::Version,
        }
    }
}

/// What has been read of the arguments so far.
pub ghost struct Scan {
    pub deck: Option<Seq<char>>,
    pub count: Option<nat>,
    pub seed: Option<nat>,
    pub find: Option<Seq<char>>,
    pub list: bool,
    pub about: bool,
    pub any: bool,
    pub all: bool,
}

/// Nothing read yet.
pub open spec fn nothing_read() -> Scan {
    Scan {
        deck: None,
        count: None,
        seed: None,
        find: None,
        list: false,
        about: false,
        any: false,
        all: false,
    }
}

/// The digits of a written number: everything after an optional leading `+`.
pub open spec fn unsigned_digits(bytes: Seq<u8>) -> Seq<u8> {
    if bytes.len() > 0 && bytes[0] == 43 {
        bytes.drop_first()
    } else {
        bytes
    }
}

/// Whether every byte is a decimal digit.
pub open spec fn all_decimal(bytes: Seq<u8>) -> bool {
    forall|i: int| 0 <= i < bytes.len() ==> 48 <= #[trigger] bytes[i] <= 57
}

/// The number that a run of decimal digits writes.
pub open spec fn decimal_value(bytes: Seq<u8>) -> nat
    decreases bytes.len(),
{
    if bytes.len() == 0 {
        0
    } else {
        decimal_value(bytes.drop_last()) * 10 + (bytes.last() - 48) as nat
    }
}

/// How an unsigned number no larger than `max` reads: an optional `+` and
/// then at least one decimal digit.
pub open spec fn parse_unsigned(bytes: Seq<u8>, max: nat) -> Option<nat> {
    let digits = unsigned_digits(bytes);
    if digits.len() > 0 && all_decimal(digits) && decimal_value(digits) <= max {
        Some(decimal_value(digits))
    } else {
        None
    }
}

/// How a count reads: an unsigned number that fits a `usize`.
pub open spec fn parse_count(bytes: Seq<u8>) -> Option<nat> {
    parse_unsigned(bytes, usize::MAX as nat)
}

/// How a seed reads: an unsigned number that fits a `u64`.
pub open spec fn parse_seed(bytes: Seq<u8>) -> Option<nat> {
    parse_unsigned(bytes, u64::MAX as nat)
}

/// What the arguments ask for, once all of them have been read.
pub open spec fn finish(s: Scan) -> Result<Request, Seq<char>> {
    if s.list && s.about {
        Err("--list and --about do not go together"@)
    } else if s.list && (s.deck is Some || s.count is Some || s.seed is Some || s.find is Some
        || s.any || s.all) {
        Err("--list takes no other arguments"@)
    } else if s.about && s.count is Some {
        Err("--about does not take a count"@)
    } else if s.about && (s.seed is Some || s.find is Some || s.any || s.all) {
        Err("--about takes nothing but a deck"@)
    } else if s.any && s.deck is Some {
        Err("--any and a named deck do not go together"@)
    } else if s.all && s.find is Some {
        Err("--all and --find do not go together"@)
    } else if s.all && s.count is Some {
        Err("--all does not take a count"@)
    } else if s.find is Some && s.count is Some {
        Err("--find does not take a count"@)
    } else if s.seed is Some && (s.all || s.find is Some) {
        Err("--seed only applies to a draw"@)
    } else if s.list {
        Ok(Request::List)
    } else if s.about {
        Ok(Request::About { deck: s.deck })
    } else if s.all {
        Ok(Request::All { deck: s.deck, any: s.any })
    } else {
        match s.find {
            Some(needle) => Ok(Request::Find { deck: s.deck, any: s.any, needle }),
            None => Ok(
                Request::Draw {
                    deck: s.deck,
                    any: s.any,
                    count: match s.count {
                        Some(n) => n,
                        None => 1,
                    },
                    seed: s.seed,
                },
            ),
        }
    }
}

/// The grammar: what the arguments from `i` on make of what was read before.
pub open spec fn scan(args: Seq<Seq<char>>, i: int, s: Scan) -> Result<Request, Seq<char>>
    decreases args.len() - i,
{
    if i < 0 || i >= args.len() {
        finish(s)
    } else {
        let arg = args[i];
        if arg == "-h"@ || arg == "--help"@ {
            Ok(Request::Help)
        } else if arg == "-V"@ || arg == "--version"@ {
            Ok(Request::Version)
        } else if arg == "-l"@ || arg == "--list"@ {
            scan(args, i + 1, Scan { list: true, ..s })
        } else if arg == "--about"@ {
            scan(args, i + 1, Scan { about: true, ..s })
        } else if arg == "--any"@ {
            scan(args, i + 1, Scan { any: true, ..s })
        } else if arg == "--all"@ {
            scan(args, i + 1, Scan { all: true, ..s })
        } else if arg == "-n"@ || arg == "--count"@ {
            if i + 1 >= args.len() {
                Err(arg + " needs a number after it"@)
            } else {
                match parse_count(encode_utf8(args[i + 1])) {
                    Some(n) => scan(args, i + 2, Scan { count: Some(n), ..s }),
                    None => Err("not a whole number: "@ + args[i + 1]),
                }
            }
        } else if arg == "--seed"@ {
            if i + 1 >= args.len() {
                Err(arg + " needs a number after it"@)
            } else {
                match parse_seed(encode_utf8(args[i + 1])) {
                    Some(n) => scan(args, i + 2, Scan { seed: Some(n), ..s }),
                    None => Err("not a whole number: "@ + args[i + 1]),
                }
            }
        } else if arg == "--find"@ {
            if i + 1 >= args.len() {
                Err(arg + " needs the text to look for after it"@)
            } else {
                scan(args, i + 2, Scan { find: Some(args[i + 1]), ..s })
            }
        } else if arg.len() > 0 && arg[0] == '-' {
            Err("unknown option: "@ + arg)
        } else {
            match s.deck {
                Some(first) => Err("one deck at a time; got "@ + first + " and "@ + arg),
                None => scan(args, i + 1, Scan { deck: Some(arg), ..s }),
            }
        }
    }
}

/// The texts of the arguments.
pub open spec fn arg_texts(args: Seq<String>) -> Seq<Seq<char>> {
    args.map_values(|arg: String| arg@)
}

/// A run of digits reads at least as large as any prefix of it.
proof fn lemma_decimal_value_grows(bytes: Seq<u8>, k: int)
    requires
        0 <= k <= bytes.len(),
        all_decimal(bytes),
    ensures
        decimal_value(bytes.take(k)) <= decimal_value(bytes),
    decreases bytes.len() - k,
{
    if k < bytes.len() {
        lemma_decimal_value_grows(bytes, k + 1);
        assert(bytes.take(k + 1).drop_last() =~= bytes.take(k));
    } else {
        assert(bytes.take(k) =~= bytes);
    }
}

/// Whether `arg` asks for the listing.
pub open spec fn is_list_flag(arg: Seq<char>) -> bool {
    arg == "-l"@ || arg == "--list"@
}

/// Whether `arg` asks for the help or the version, which win wherever they
/// stand.
pub open spec fn is_help_or_version(arg: Seq<char>) -> bool {
    arg == "-h"@ || arg == "--help"@ || arg == "-V"@ || arg == "--version"@
}

/// Nothing but the listing has been asked for.
pub open spec fn nothing_but_list(s: Scan) -> bool {
    &&& s.deck is None
    &&& s.count is None
    &&& s.seed is None
    &&& s.find is None
    &&& !s.about
    &&& !s.any
    &&& !s.all
}

/// From argument `i` on, with `s` read before, the arguments list the decks
/// exactly when every one left asks for the listing, something does, and
/// nothing else was asked for before.
proof fn lemma_scan_lists(args: Seq<Seq<char>>, i: int, s: Scan)
    requires
        0 <= i <= args.len(),
        forall|j: int| i <= j < args.len() ==> !is_help_or_version(#[trigger] args[j]),
    ensures
        (scan(args, i, s) == Ok::<Request, Seq<char>>(Request::List)) <==> ((forall|j: int|
            i <= j < args.len() ==> is_list_flag(#[trigger] args[j])) && (s.list || i < args.len())
            && nothing_but_list(s)),
    decreases args.len() - i,
{
    reveal_strlit("-h");
    reveal_strlit("--help");
    reveal_strlit("-V");
    reveal_strlit("--version");
    reveal_strlit("-l");
    reveal_strlit("--list");
    reveal_strlit("--about");
    reveal_strlit("--any");
    reveal_strlit("--all");
    reveal_strlit("-n");
    reveal_strlit("--count");
    reveal_strlit("--seed");
    reveal_strlit("--find");
    if i < args.len() {
        let arg = args[i];
        assert(!is_help_or_version(arg));
        if is_list_flag(arg) {
            lemma_scan_lists(args, i + 1, Scan { list: true, ..s });
            if (forall|j: int| i + 1 <= j < args.len() ==> is_list_flag(#[trigger] args[j])) {
                assert forall|j: int| i <= j < args.len() implies is_list_flag(#[trigger] args[j]) by {
                    if j > i {
                        assert(is_list_flag(args[j]));
                    }
                }
            }
        } else {
            assert(!(forall|j: int| i <= j < args.len() ==> is_list_flag(#[trigger] args[j]))) by {
                assert(!is_list_flag(args[i]));
            }
            if arg == "--about"@ {
                lemma_scan_lists(args, i + 1, Scan { about: true, ..s });
            } else if arg == "--any"@ {
                lemma_scan_lists(args, i + 1, Scan { any: true, ..s });
            } else if arg == "--all"@ {
                lemma_scan_lists(args, i + 1, Scan { all: true, ..s });
            } else if arg == "-n"@ || arg == "--count"@ {
                if i + 1 < args.len() {
                    match parse_count(encode_utf8(args[i + 1])) {
                        Some(n) => lemma_scan_lists(args, i + 2, Scan { count: Some(n), ..s }),
                        None => {},
                    }
                }
            } else if arg == "--seed"@ {
                if i + 1 < args.len() {
                    match parse_seed(encode_utf8(args[i + 1])) {
                        Some(n) => lemma_scan_lists(args, i + 2, Scan { seed: Some(n), ..s }),
                        None => {},
                    }
                }
            } else if arg == "--find"@ {
                if i + 1 < args.len() {
                    lemma_scan_lists(args, i + 2, Scan { find: Some(args[i + 1]), ..s });
                }
            } else if arg.len() > 0 && arg[0] == '-' {
            } else {
                match s.deck {
                    Some(_) => {},
                    None => lemma_scan_lists(args, i + 1, Scan { deck: Some(arg), ..s }),
                }
            }
        }
    }
}

/// Short of asking for help or the version, the arguments ask for the
/// listing exactly when there is at least one and every one of them is `-l`
/// or `--list`: a deck, a count, `--about` or anything else beside it is an
/// error.
pub proof fn lemma_list_stands_alone(args: Seq<Seq<char>>)
    requires
        forall|j: int| 0 <= j < args.len() ==> !is_help_or_version(#[trigger] args[j]),
    ensures
        (scan(args, 0, nothing_read()) == Ok::<Request, Seq<char>>(Request::List)) <==> (args.len()
            >= 1 && forall|j: int| 0 <= j < args.len() ==> is_list_flag(#[trigger] args[j])),
{
    lemma_scan_lists(args, 0, nothing_read());
}

/// Whether a request reads from a deck it does not name: a draw, `--all`
/// or `--find` with no deck given.
pub open spec fn reads_unnamed_deck(r: Request) -> bool {
    match r {
        Request::Draw { deck, .. } => deck is None,
        Request::All { deck, .. } => deck is None,
        Request::Find { deck, .. } => deck is None,
        _ => false,
    }
}

/// Whether a request asks for its deck to be picked at random.
pub open spec fn picks_at_random(r: Request) -> bool {
    match r {
        Request::Draw { any, .. } => any,
        Request::All { any, .. } => any,
        Request::Find { any, .. } => any,
        _ => false,
    }
}

/// The same request, asking for its deck to be picked at random.
pub open spec fn at_random(r: Request) -> Request {
    match r {
        Request::Draw { deck, count, seed, .. } => Request::Draw { deck, any: true, count, seed },
        Request::All { deck, .. } => Request::All { deck, any: true },
        Request::Find { deck, needle, .. } => Request::Find { deck, any: true, needle },
        _ => r,
    }
}

/// Reading `args` from `i` with `s` and reading them one place later behind
/// a leading `--any`, with `--any` already read, agree on every request that
/// reads an unnamed deck, save that the second picks it at random.
proof fn lemma_scan_behind_any(args: Seq<Seq<char>>, i: int, s: Scan)
    requires
        0 <= i <= args.len(),
    ensures
        ({
            let behind = seq!["--any"@] + args;
            match scan(args, i, s) {
                Ok(r) => reads_unnamed_deck(r) ==> scan(behind, i + 1, Scan { any: true, ..s })
                    == Ok::<Request, Seq<char>>(at_random(r)),
                Err(_) => true,
            }
        }),
    decreases args.len() - i,
{
    let behind = seq!["--any"@] + args;
    let t = Scan { any: true, ..s };
    assert(behind.len() == args.len() + 1);
    if i < args.len() {
        let arg = args[i];
        assert(behind[i + 1] == arg);
        if i + 1 < args.len() {
            assert(behind[i + 2] == args[i + 1]);
        }
        if arg == "-h"@ || arg == "--help"@ || arg == "-V"@ || arg == "--version"@ {
        } else if arg == "-l"@ || arg == "--list"@ {
            lemma_scan_behind_any(args, i + 1, Scan { list: true, ..s });
            assert(Scan { list: true, ..t } == Scan { any: true, ..Scan { list: true, ..s } });
        } else if arg == "--about"@ {
            lemma_scan_behind_any(args, i + 1, Scan { about: true, ..s });
            assert(Scan { about: true, ..t } == Scan { any: true, ..Scan { about: true, ..s } });
        } else if arg == "--any"@ {
            lemma_scan_behind_any(args, i + 1, Scan { any: true, ..s });
            assert(Scan { any: true, ..t } == Scan { any: true, ..Scan { any: true, ..s } });
        } else if arg == "--all"@ {
            lemma_scan_behind_any(args, i + 1, Scan { all: true, ..s });
            assert(Scan { all: true, ..t } == Scan { any: true, ..Scan { all: true, ..s } });
        } else if arg == "-n"@ || arg == "--count"@ {
            if i + 1 < args.len() {
                match parse_count(encode_utf8(args[i + 1])) {
                    Some(n) => {
                        lemma_scan_behind_any(args, i + 2, Scan { count: Some(n), ..s });
                        assert(Scan { count: Some(n), ..t } == Scan {
                            any: true,
                            ..Scan { count: Some(n), ..s }
                        });
                    },
                    None => {},
                }
            }
        } else if arg == "--seed"@ {
            if i + 1 < args.len() {
                match parse_seed(encode_utf8(args[i + 1])) {
                    Some(n) => {
                        lemma_scan_behind_any(args, i + 2, Scan { seed: Some(n), ..s });
                        assert(Scan { seed: Some(n), ..t } == Scan {
                            any: true,
                            ..Scan { seed: Some(n), ..s }
                        });
                    },
                    None => {},
                }
            }
        } else if arg == "--find"@ {
            if i + 1 < args.len() {
                lemma_scan_behind_any(args, i + 2, Scan { find: Some(args[i + 1]), ..s });
                assert(Scan { find: Some(args[i + 1]), ..t } == Scan {
                    any: true,
                    ..Scan { find: Some(args[i + 1]), ..s }
                });
            }
        } else if arg.len() > 0 && arg[0] == '-' {
        } else {
            match s.deck {
                Some(_) => {},
                None => {
                    lemma_scan_behind_any(args, i + 1, Scan { deck: Some(arg), ..s });
                    assert(Scan { deck: Some(arg), ..t } == Scan {
                        any: true,
                        ..Scan { deck: Some(arg), ..s }
                    });
                },
            }
        }
    }
}

/// `--any` picks the deck: put in front of arguments that read a deck
/// without naming one (a draw, `--all` or `--find`), it gives the very same
/// request, now with the deck picked at random.
pub proof fn lemma_any_picks_the_deck(args: Seq<Seq<char>>)
    ensures
        match scan(args, 0, nothing_read()) {
            Ok(r) => reads_unnamed_deck(r) ==> scan(seq!["--any"@] + args, 0, nothing_read())
                == Ok::<Request, Seq<char>>(at_random(r)),
            Err(_) => true,
        },
{
    reveal_strlit("--any");
    reveal_strlit("-h");
    reveal_strlit("--help");
    reveal_strlit("-V");
    reveal_strlit("--version");
    reveal_strlit("-l");
    reveal_strlit("--list");
    reveal_strlit("--about");
    let behind = seq!["--any"@] + args;
    assert(behind[0] == "--any"@);
    assert("--any"@ != "-h"@ && "--any"@ != "--help"@ && "--any"@ != "-V"@);
    assert("--any"@ != "--version"@ && "--any"@ != "-l"@ && "--any"@ != "--list"@);
    assert("--any"@ != "--about"@);
    lemma_scan_behind_any(args, 0, nothing_read());
    assert(Scan { any: true, ..nothing_read() } == Scan { any: true, ..nothing_read() });
}

/// From argument `i` on, with `s` not asking for a random deck, arguments
/// none of which is `--any` never ask for one.
proof fn lemma_scan_without_any(args: Seq<Seq<char>>, i: int, s: Scan)
    requires
        0 <= i <= args.len(),
        !s.any,
        forall|j: int| 0 <= j < args.len() ==> #[trigger] args[j] != "--any"@,
    ensures
        match scan(args, i, s) {
            Ok(r) => !picks_at_random(r),
            Err(_) => true,
        },
    decreases args.len() - i,
{
    if i < args.len() {
        let arg = args[i];
        assert(arg != "--any"@);
        if arg == "-h"@ || arg == "--help"@ || arg == "-V"@ || arg == "--version"@ {
        } else if arg == "-l"@ || arg == "--list"@ {
            lemma_scan_without_any(args, i + 1, Scan { list: true, ..s });
        } else if arg == "--about"@ {
            lemma_scan_without_any(args, i + 1, Scan { about: true, ..s });
        } else if arg == "--all"@ {
            lemma_scan_without_any(args, i + 1, Scan { all: true, ..s });
        } else if arg == "-n"@ || arg == "--count"@ {
            if i + 1 < args.len() {
                match parse_count(encode_utf8(args[i + 1])) {
                    Some(n) => lemma_scan_without_any(args, i + 2, Scan { count: Some(n), ..s }),
                    None => {},
                }
            }
        } else if arg == "--seed"@ {
            if i + 1 < args.len() {
                match parse_seed(encode_utf8(args[i + 1])) {
                    Some(n) => lemma_scan_without_any(args, i + 2, Scan { seed: Some(n), ..s }),
                    None => {},
                }
            }
        } else if arg == "--find"@ {
            if i + 1 < args.len() {
                lemma_scan_without_any(args, i + 2, Scan { find: Some(args[i + 1]), ..s });
            }
        } else if arg.len() > 0 && arg[0] == '-' {
        } else {
            match s.deck {
                Some(_) => {},
                None => lemma_scan_without_any(args, i + 1, Scan { deck: Some(arg), ..s }),
            }
        }
    }
}

/// Only `--any` asks for a random deck: arguments none of which is `--any`
/// never give a request that picks its deck at random.
pub proof fn lemma_only_any_picks_at_random(args: Seq<Seq<char>>)
    requires
        forall|j: int| 0 <= j < args.len() ==> #[trigger] args[j] != "--any"@,
    ensures
        match scan(args, 0, nothing_read()) {
            Ok(r) => !picks_at_random(r),
            Err(_) => true,
        },
{
    lemma_scan_without_any(args, 0, nothing_read());
}

/// A deck and a count may come in either order: `DECK -n N` and `-n N DECK`
/// both draw `N` cards from `DECK`.
pub proof fn lemma_deck_and_count_in_either_order(deck: Seq<char>, flag: Seq<char>, number: Seq<char>)
    requires
        deck.len() > 0,
        deck[0] != '-',
        flag == "-n"@ || flag == "--count"@,
        parse_count(encode_utf8(number)) is Some,
    ensures
        scan(seq![deck, flag, number], 0, nothing_read()) == scan(
            seq![flag, number, deck],
            0,
            nothing_read(),
        ),
        scan(seq![deck, flag, number], 0, nothing_read()) == Ok::<Request, Seq<char>>(
            Request::Draw {
                deck: Some(deck),
                any: false,
                count: parse_count(encode_utf8(number))->0,
                seed: None,
            },
        ),
{
    reveal_strlit("-h");
    reveal_strlit("--help");
    reveal_strlit("-V");
    reveal_strlit("--version");
    reveal_strlit("-l");
    reveal_strlit("--list");
    reveal_strlit("--about");
    reveal_strlit("--any");
    reveal_strlit("--all");
    reveal_strlit("-n");
    reveal_strlit("--count");
    reveal_strlit("--seed");
    reveal_strlit("--find");
    let first = seq![deck, flag, number];
    let second = seq![flag, number, deck];
    assert(first[0] == deck && first[1] == flag && first[2] == number);
    assert(second[0] == flag && second[1] == number && second[2] == deck);
    assert("-h"@[0] == '-' && "--help"@[0] == '-' && "-V"@[0] == '-' && "--version"@[0] == '-');
    assert("-l"@[0] == '-' && "--list"@[0] == '-' && "--about"@[0] == '-' && "--any"@[0] == '-');
    assert("--all"@[0] == '-' && "-n"@[0] == '-' && "--count"@[0] == '-' && "--seed"@[0] == '-');
    assert("--find"@[0] == '-');
    assert(deck != "-h"@ && deck != "--help"@ && deck != "-V"@ && deck != "--version"@);
    assert(deck != "-l"@ && deck != "--list"@ && deck != "--about"@ && deck != "--any"@);
    assert(deck != "--all"@ && deck != "-n"@ && deck != "--count"@ && deck != "--seed"@);
    assert(deck != "--find"@);
    let n = parse_count(encode_utf8(number))->0;
    let read = nothing_read();
    let with_deck = Scan { deck: Some(deck), ..read };
    let with_count = Scan { count: Some(n), ..read };
    let both = Scan { deck: Some(deck), count: Some(n), ..read };
    let answer = Ok::<Request, Seq<char>>(
        Request::Draw { deck: Some(deck), any: false, count: n, seed: None },
    );
    assert(Scan { deck: Some(deck), ..with_count } == both);
    assert(Scan { count: Some(n), ..with_deck } == both);
    assert("-n"@[1] == 'n' && "-h"@[1] == 'h' && "-V"@[1] == 'V' && "-l"@[1] == 'l');
    assert("-n"@.len() == 2 && "--count"@.len() == 7 && "-h"@.len() == 2 && "-V"@.len() == 2);
    assert("--help"@.len() == 6 && "--version"@.len() == 9 && "--list"@.len() == 6);
    assert("--about"@.len() == 7 && "--any"@.len() == 5 && "--all"@.len() == 5);
    assert("--count"@[2] == 'c' && "--about"@[2] == 'a');
    assert(flag != "-h"@ && flag != "--help"@ && flag != "-V"@ && flag != "--version"@);
    assert(flag != "-l"@ && flag != "--list"@ && flag != "--about"@ && flag != "--any"@);
    assert(flag != "--all"@);
    assert(finish(both) == answer);
    assert(scan(first, 3, both) == answer);
    assert(scan(first, 1, with_deck) == scan(first, 3, both));
    assert(scan(first, 0, read) == scan(first, 1, with_deck));
    assert(scan(second, 3, both) == answer);
    assert(scan(second, 2, with_count) == scan(second, 3, both));
    assert(scan(second, 0, read) == scan(second, 2, with_count));
}

/// Read an unsigned number no larger than `max`: an optional `+`, then
/// decimal digits.
fn read_unsigned(raw: &str, max: u64) -> (r: Option<u64>)
    requires
        max >= 9,
    ensures
        r == (match parse_unsigned(raw.spec_bytes(), max as nat) {
            Some(n) => Some(n as u64),
            None => None::<u64>,
        }),
{
    let bytes = raw.as_bytes();
    let len = bytes.len();
    let start: usize = if len > 0 && bytes[0] == 43 {
        1
    } else {
        0
    };
    let ghost digits = unsigned_digits(bytes@);
    assert(digits =~= bytes@.subrange(start as int, len as int));
    if start >= len {
        return None;
    }
    let mut value: u64 = 0;
    let mut index: usize = start;
    while index < len
        invariant
            bytes@ == raw.spec_bytes(),
            len == bytes@.len(),
            digits == unsigned_digits(bytes@),
            digits == bytes@.subrange(start as int, len as int),
            start <= index <= len,
            max >= 9,
            all_decimal(digits.take(index - start)),
            value as nat == decimal_value(digits.take(index - start)),
            value <= max,
        decreases len - index,
    {
        let b = bytes[index];
        let k = index - start;
        assert(digits[k as int] == b);
        if b < 48 || b > 57 {
            assert(!all_decimal(digits));
            return None;
        }
        assert(digits.take(k + 1).drop_last() =~= digits.take(k as int));
        let d = (b - 48) as u64;
        if value > (max - d) / 10 {
            proof {
                if all_decimal(digits) {
                    lemma_decimal_value_grows(digits, k + 1);
                    assert(value * 10 + d > max) by (nonlinear_arith)
                        requires
                            value > (max - d) / 10,
                            d <= 9,
                            max >= 9,
                    ;
                }
            }
            return None;
        }
        proof {
            assert(value * 10 + d <= max) by (nonlinear_arith)
                requires
                    value <= (max - d) / 10,
                    d <= 9,
                    max >= 9,
            ;
        }
        value = value * 10 + d;
        index += 1;
        assert(all_decimal(digits.take(index - start))) by {
            assert forall|i: int| 0 <= i < digits.take(index - start).len() implies 48
                <= #[trigger] digits.take(index - start)[i] <= 57 by {
                if i < k {
                    assert(digits.take(index - start)[i] == digits.take(k as int)[i]);
                }
            }
        }
    }
    assert(digits.take(len - start) =~= digits);
    Some(value)
}

/// Read a count: an optional `+`, then decimal digits, fitting a `usize`.
pub fn count_from(raw: &str) -> (r: Option<usize>)
    ensures
        r == (match parse_count(raw.spec_bytes()) {
            Some(n) => Some(n as usize),
            None => None::<usize>,
        }),
{
    match read_unsigned(raw, usize::MAX as u64) {
        Some(n) => Some(n as usize),
        None => None,
    }
}

/// Read a seed: an optional `+`, then decimal digits, fitting a `u64`.
pub fn seed_from(raw: &str) -> (r: Option<u64>)
    ensures
        r == (match parse_seed(raw.spec_bytes()) {
            Some(n) => Some(n as u64),
            None => None::<u64>,
        }),
{
    read_unsigned(raw, u64::MAX)
}

/// Whether `arg` is one of two spellings.
fn is_either(arg: &str, short: &str, long: &str) -> (r: bool)
    ensures
        r == (arg@ == short@ || arg@ == long@),
{
    same_text(arg, short) || same_text(arg, long)
}

/// What has been read, as a value.
pub open spec fn scan_of(
    deck: Option<String>,
    count: Option<usize>,
    seed: Option<u64>,
    find: Option<String>,
    list: bool,
    about: bool,
    any: bool,
    all: bool,
) -> Scan {
    Scan {
        deck: text_of(deck),
        count: match count {
            Some(n) => Some(n as nat),
            None => None,
        },
        seed: seed_of(seed),
        find: text_of(find),
        list,
        about,
        any,
        all,
    }
}

/// The command that everything read makes, or why it makes none.
fn finish_reading(
    deck: Option<String>,
    count: Option<usize>,
    seed: Option<u64>,
    find: Option<String>,
    list: bool,
    about: bool,
    any: bool,
    all: bool,
) -> (r: Result<Command, String>)
    ensures
        match r {
            Ok(command) => finish(scan_of(deck, count, seed, find, list, about, any, all)) == Ok::<
                Request,
                Seq<char>,
            >(command@),
            Err(message) => finish(scan_of(deck, count, seed, find, list, about, any, all))
                == Err::<Request, Seq<char>>(message@),
        },
{
    let has_deck = deck.is_some();
    let has_count = count.is_some();
    let has_seed = seed.is_some();
    let has_find = find.is_some();
    if list && about {
        return Err("--list and --about do not go together".to_string());
    }
    if list && (has_deck || has_count || has_seed || has_find || any || all) {
        return Err("--list takes no other arguments".to_string());
    }
    if about && has_count {
        return Err("--about does not take a count".to_string());
    }
    if about && (has_seed || has_find || any || all) {
        return Err("--about takes nothing but a deck".to_string());
    }
    if any && has_deck {
        return Err("--any and a named deck do not go together".to_string());
    }
    if all && has_find {
        return Err("--all and --find do not go together".to_string());
    }
    if all && has_count {
        return Err("--all does not take a count".to_string());
    }
    if has_find && has_count {
        return Err("--find does not take a count".to_string());
    }
    if has_seed && (all || has_find) {
        return Err("--seed only applies to a draw".to_string());
    }
    if list {
        Ok(Command::List)
    } else if about {
        Ok(Command::About { deck })
    } else if all {
        Ok(Command::All { deck, any })
    } else {
        match find {
            Some(needle) => Ok(Command::Find { deck, any, needle }),
            None => {
                let count = match count {
                    Some(n) => n,
                    None => 1,
                };
                Ok(Command::Draw { deck, any, count, seed })
            },
        }
    }
}

/// Turn the arguments into a [`Command`], or explain why they do not make one.
#[verifier::spinoff_prover]
#[verifier::rlimit(60)]
pub fn parse(args: Vec<String>) -> (r: Result<Command, String>)
    ensures
        match r {
            Ok(command) => scan(arg_texts(args@), 0, nothing_read()) == Ok::<Request, Seq<char>>(
                command@,
            ),
            Err(message) => scan(arg_texts(args@), 0, nothing_read()) == Err::<Request, Seq<char>>(
                message@,
            ),
        },
{
    let ghost texts = arg_texts(args@);
    let mut deck: Option<String> = None;
    let mut count: Option<usize> = None;
    let mut seed: Option<u64> = None;
    let mut find: Option<String> = None;
    let mut list = false;
    let mut about = false;
    let mut any = false;
    let mut all = false;
    let mut i: usize = 0;
    while i < args.len()
        invariant
            texts == arg_texts(args@),
            texts.len() == args@.len(),
            i <= args@.len(),
            scan(texts, 0, nothing_read()) == scan(
                texts,
                i as int,
                scan_of(deck, count, seed, find, list, about, any, all),
            ),
        decreases args@.len() - i,
    {
        let arg = args[i].as_str();
        assert(arg@ == texts[i as int]);
        proof {
            reveal_strlit("-h");
            reveal_strlit("--help");
            reveal_strlit("-V");
            reveal_strlit("--version");
            reveal_strlit("-l");
            reveal_strlit("--list");
            reveal_strlit("--about");
            reveal_strlit("--any");
            reveal_strlit("--all");
            reveal_strlit("-n");
            reveal_strlit("--count");
            reveal_strlit("--seed");
            reveal_strlit("--find");
        }
        if is_either(arg, "-h", "--help") {
            return Ok(Command::Help);
        } else if is_either(arg, "-V", "--version") {
            return Ok(Command::Version);
        } else if is_either(arg, "-l", "--list") {
            list = true;
        } else if same_text(arg, "--about") {
            about = true;
        } else if same_text(arg, "--any") {
            any = true;
        } else if same_text(arg, "--all") {
            all = true;
        } else if is_either(arg, "-n", "--count") {
            if i + 1 >= args.len() {
                let mut message = arg.to_string();
                message.append(" needs a number after it");
                return Err(message);
            }
            let raw = args[i + 1].as_str();
            assert(raw@ == texts[i + 1]);
            match count_from(raw) {
                Some(n) => {
                    count = Some(n);
                    i += 1;
                },
                None => {
                    let mut message = "not a whole number: ".to_string();
                    message.append(raw);
                    return Err(message);
                },
            }
        } else if same_text(arg, "--seed") {
            if i + 1 >= args.len() {
                let mut message = arg.to_string();
                message.append(" needs a number after it");
                return Err(message);
            }
            let raw = args[i + 1].as_str();
            assert(raw@ == texts[i + 1]);
            match seed_from(raw) {
                Some(n) => {
                    seed = Some(n);
                    i += 1;
                },
                None => {
                    let mut message = "not a whole number: ".to_string();
                    message.append(raw);
                    return Err(message);
                },
            }
        } else if same_text(arg, "--find") {
            if i + 1 >= args.len() {
                let mut message = arg.to_string();
                message.append(" needs the text to look for after it");
                return Err(message);
            }
            let needle = args[i + 1].as_str();
            assert(needle@ == texts[i + 1]);
            find = Some(needle.to_string());
            i += 1;
        } else if !arg.is_empty() && arg.get_char(0) == '-' {
            let mut message = "unknown option: ".to_string();
            message.append(arg);
            return Err(message);
        } else {
            match &deck {
                Some(first) => {
                    let mut message = "one deck at a time; got ".to_string();
                    message.append(first.as_str());
                    message.append(" and ");
                    message.append(arg);
                    return Err(message);
                },
                None => {
                    deck = Some(arg.to_string());
                },
            }
        }
        i += 1;
    }
    finish_reading(deck, count, seed, find, list, about, any, all)
}

/// The deck ids, in order, separated by commas.
pub open spec fn joined_ids(all: Seq<Deck>) -> Seq<char>
    decreases all.len(),
{
    if all.len() == 0 {
        Seq::empty()
    } else if all.len() == 1 {
        all[0].id@
    } else {
        joined_ids(all.drop_last()) + ", "@ + all.last().id@
    }
}

/// What `resolve` says of an id that names no deck.
pub open spec fn unknown_deck_message(id: Seq<char>) -> Seq<char> {
    "no deck called "@ + id + ". Built in: "@ + joined_ids(registry())
}

/// The ids of the decks built in, separated by commas.
fn built_in_ids(all: &Vec<Deck>) -> (r: String)
    ensures
        r@ == joined_ids(all@),
{
    let mut out = String::new();
    let mut i: usize = 0;
    while i < all.len()
        invariant
            i <= all@.len(),
            out@ == joined_ids(all@.take(i as int)),
        decreases all@.len() - i,
    {
        assert(all@.take(i + 1).drop_last() =~= all@.take(i as int));
        if i > 0 {
            out.append(", ");
        } else {
            assert(out@ =~= Seq::<char>::empty());
        }
        out.append(all[i].id);
        i += 1;
    }
    assert(all@.take(i as int) =~= all@);
    out
}

/// Find a deck by id, or fall back to the first one compiled in.
pub fn resolve(id: Option<&str>) -> (r: Result<Deck, String>)
    ensures
        match id {
            Some(id) => match first_match(registry(), deck_named(id@)) {
                Some(deck) => r == Ok::<Deck, String>(deck),
                None => r matches Err(message) && message@ == unknown_deck_message(id@),
            },
            None => r == Ok::<Deck, String>(registry()[0]),
        },
{
    match id {
        Some(id) => match deck_by_id(id) {
            Some(deck) => Ok(deck),
            None => {
                let all = decks();
                let mut message = "no deck called ".to_string();
                message.append(id);
                message.append(". Built in: ");
                let ids = built_in_ids(&all);
                message.append(ids.as_str());
                Err(message)
            },
        },
        None => {
            let all = decks();
            if all.len() > 0 {
                Ok(all[0])
            } else {
                Err("no decks are built into this binary".to_string())
            }
        },
    }
}

/// The widest deck id, in bytes.
pub open spec fn id_width(all: Seq<Deck>) -> nat
    decreases all.len(),
{
    if all.len() == 0 {
        0
    } else {
        let before = id_width(all.drop_last());
        let here = all.last().id.spec_bytes().len();
        if here > before {
            here
        } else {
            before
        }
    }
}

/// One line of the listing: a marker on the first deck, the id padded to
/// `width`, the card count right-aligned in four, and the name.
pub open spec fn listing_line(deck: Deck, first: bool, width: nat) -> Seq<char> {
    (if first {
        "*"@
    } else {
        " "@
    }) + " "@ + pad_right(deck.id@, width) + "  "@ + pad_left(
        decimal_text(deck.cards@.len()),
        4,
    ) + "  "@ + deck.name@ + "\n"@
}

/// The lines for the first `k` decks.
pub open spec fn listing_lines(all: Seq<Deck>, width: nat, k: nat) -> Seq<char>
    decreases k,
{
    if k == 0 {
        Seq::empty()
    } else {
        listing_lines(all, width, (k - 1) as nat) + listing_line(
            all[k - 1],
            k - 1 == 0,
            width,
        )
    }
}

/// What `--list` prints.
pub open spec fn listing_text(all: Seq<Deck>) -> Seq<char> {
    listing_lines(all, id_width(all), all.len()) + "\n* drawn from when no deck is named\n"@
}

/// Append `text` padded with spaces on the right to `width` characters.
fn push_padded_right(out: &mut String, text: &str, width: usize)
    ensures
        final(out)@ == old(out)@ + pad_right(text@, width as nat),
{
    let len = text.unicode_len();
    out.append(text);
    if len < width {
        push_spaces(out, width - len);
    }
}

/// Append `n` in decimal, padded with spaces on the left to `width`
/// characters.
fn push_padded_decimal(out: &mut String, n: usize, width: usize)
    ensures
        final(out)@ == old(out)@ + pad_left(decimal_text(n as nat), width as nat),
{
    let mut digits = String::new();
    push_decimal(&mut digits, n as u64);
    assert(digits@ =~= decimal_text(n as nat));
    let len = digits.as_str().unicode_len();
    if len < width {
        push_spaces(out, width - len);
    }
    out.append(digits.as_str());
}

/// The decks built into this binary, one line each: the first, which is
/// drawn from when no deck is named, is marked.
pub fn listing() -> (r: String)
    ensures
        r@ == listing_text(registry()),
{
    let all = decks();
    let mut width: usize = 0;
    let mut i: usize = 0;
    while i < all.len()
        invariant
            i <= all@.len(),
            width == id_width(all@.take(i as int)),
        decreases all@.len() - i,
    {
        assert(all@.take(i + 1).drop_last() =~= all@.take(i as int));
        assert(all@.take(i + 1).last() == all@[i as int]);
        let here = all[i].id.as_bytes().len();
        if here > width {
            width = here;
        }
        i += 1;
    }
    assert(all@.take(i as int) =~= all@);
    let mut out = String::new();
    let mut k: usize = 0;
    while k < all.len()
        invariant
            all@ == registry(),
            k <= all@.len(),
            width == id_width(all@),
            out@ == listing_lines(all@, width as nat, k as nat),
        decreases all@.len() - k,
    {
        let deck = all[k];
        let ghost before = out@;
        if k == 0 {
            out.append("*");
        } else {
            out.append(" ");
        }
        out.append(" ");
        push_padded_right(&mut out, deck.id, width);
        out.append("  ");
        push_padded_decimal(&mut out, deck.cards.len(), 4);
        out.append("  ");
        out.append(deck.name);
        out.append("\n");
        assert(out@ =~= before + listing_line(deck, k == 0, width as nat));
        k += 1;
    }
    out.append("\n* drawn from when no deck is named\n");
    out
}

/// What `--about` prints: the deck's name and id, its blurb, its size, and
/// where its text came from.
pub open spec fn about_text(deck: Deck) -> Seq<char> {
    deck.name@ + " ("@ + deck.id@ + ")\n"@ + deck.blurb@ + "\n"@ + decimal_text(
        deck.cards@.len(),
    ) + " cards\n"@ + deck.provenance.spec_describe() + "\n"@
}

/// Describe a deck and say where its text came from.
pub fn about(deck: Deck) -> (r: String)
    ensures
        r@ == about_text(deck),
{
    let mut out = deck.name.to_string();
    out.append(" (");
    out.append(deck.id);
    out.append(")\n");
    out.append(deck.blurb);
    out.append("\n");
    push_decimal(&mut out, deck.cards.len() as u64);
    out.append(" cards\n");
    let provenance = deck.provenance.describe();
    out.append(provenance.as_str());
    out.append("\n");
    out
}

/// The deck an id names, or what is said of an id that names none; the first
/// deck built in when no id is given.
pub open spec fn named_deck(id: Option<Seq<char>>) -> Result<Deck, Seq<char>> {
    match id {
        None => Ok(registry()[0]),
        Some(id) => match first_match(registry(), deck_named(id)) {
            Some(deck) => Ok(deck),
            None => Err(unknown_deck_message(id)),
        },
    }
}

/// What a command that reads a deck fails with: only a deck named that is
/// not built in, since `--any` always finds one.
pub open spec fn deck_error(id: Option<Seq<char>>, any: bool) -> Option<Seq<char>> {
    if any {
        None
    } else {
        match named_deck(id) {
            Ok(_) => None,
            Err(message) => Some(message),
        }
    }
}

/// The deck that `--any` reads from under `seed`.
pub open spec fn seeded_pick(seed: nat) -> Deck {
    registry()[picked_below(seed as u64, registry().len() as usize).1 as int]
}

/// Whether a command may read from `deck`: the deck named, or the first; or,
/// under `--any`, the deck its seed picks, or with no seed any deck built in.
pub open spec fn may_read(id: Option<Seq<char>>, any: bool, seed: Option<nat>, deck: Deck) -> bool {
    if any {
        match seed {
            Some(seed) => deck == seeded_pick(seed),
            None => registry().contains(deck),
        }
    } else {
        named_deck(id) == Ok::<Deck, Seq<char>>(deck)
    }
}

/// Cards as the program prints them: each followed by a line break.
pub open spec fn printed(cards: Seq<&'static str>) -> Seq<char>
    decreases cards.len(),
{
    if cards.len() == 0 {
        Seq::empty()
    } else {
        printed(cards.drop_last()) + cards.last()@ + "\n"@
    }
}

/// Whether `out` is what a draw of `count` cards from `deck` prints, without
/// replacement and up to the size of the deck: the top of a shoe shuffled
/// from `seed` when there is one, and otherwise dealt with picks drawn at
/// random.
pub open spec fn prints_a_draw(out: Seq<char>, deck: Deck, count: nat, seed: Option<nat>) -> bool {
    match seed {
        Some(seed) => out == printed(
            spec_draw_n(spec_new(deck, seed as u64), min(count, deck.cards@.len())).1,
        ),
        None => exists|picks: Seq<usize>|
            valid_picks(picks, deck.cards@.len()) && picks.len() == min(count, deck.cards@.len())
                && out == printed(#[trigger] dealt(deck.cards@, picks)),
    }
}

/// What `--version` prints.
pub open spec fn version_line(version: Seq<char>) -> Seq<char> {
    "sortes "@ + version + "\n"@
}

/// A result, as text.
pub open spec fn seen(r: Result<String, String>) -> Result<Seq<char>, Seq<char>> {
    match r {
        Ok(out) => Ok(out@),
        Err(message) => Err(message@),
    }
}

/// Whether `r` answers `request`: the text the program prints, or the
/// message it fails with.
pub open spec fn answers(request: Request, version: Seq<char>, r: Result<Seq<char>, Seq<char>>) -> bool {
    match request {
        Request::Help => r == Ok::<Seq<char>, Seq<char>>(USAGE@),
        Request::Version => r == Ok::<Seq<char>, Seq<char>>(version_line(version)),
        Request::List => r == Ok::<Seq<char>, Seq<char>>(listing_text(registry())),
        Request::About { deck } => match named_deck(deck) {
            Ok(found) => r == Ok::<Seq<char>, Seq<char>>(about_text(found)),
            Err(message) => r == Err::<Seq<char>, Seq<char>>(message),
        },
        Request::All { deck, any } => match deck_error(deck, any) {
            Some(message) => r == Err::<Seq<char>, Seq<char>>(message),
            None => exists|found: Deck|
                #[trigger] may_read(deck, any, None, found) && r == Ok::<Seq<char>, Seq<char>>(
                    printed(found.cards@),
                ),
        },
        Request::Find { deck, any, needle } => match deck_error(deck, any) {
            Some(message) => r == Err::<Seq<char>, Seq<char>>(message),
            None => exists|found: Deck|
                #[trigger] may_read(deck, any, None, found) && r == Ok::<Seq<char>, Seq<char>>(
                    printed(found.spec_find(encode_utf8(needle))),
                ),
        },
        Request::Draw { deck, any, count, seed } => match deck_error(deck, any) {
            Some(message) => r == Err::<Seq<char>, Seq<char>>(message),
            None => exists|found: Deck|
                #[trigger] may_read(deck, any, seed, found) && (r matches Ok(out) && prints_a_draw(
                    out,
                    found,
                    count,
                    seed,
                )),
        },
    }
}

/// The cards, each followed by a line break.
fn print_cards(cards: &[&'static str]) -> (r: String)
    ensures
        r@ == printed(cards@),
{
    let mut out = String::new();
    let mut i: usize = 0;
    while i < cards.len()
        invariant
            i <= cards@.len(),
            out@ == printed(cards@.take(i as int)),
        decreases cards@.len() - i,
    {
        assert(cards@.take(i + 1).drop_last() =~= cards@.take(i as int));
        out.append(cards[i]);
        out.append("\n");
        i += 1;
    }
    assert(cards@.take(i as int) =~= cards@);
    out
}

/// The deck a command reads from: picked at random under `--any` (by the
/// seed, when there is one), else the one named, else the first.
fn pick(deck: &Option<String>, any: bool, seed: Option<u64>) -> (r: Result<Deck, String>)
    ensures
        match r {
            Ok(found) => deck_error(text_of(*deck), any) is None && may_read(
                text_of(*deck),
                any,
                seed_of(seed),
                found,
            ) && found.cards@.len() > 0,
            Err(message) => deck_error(text_of(*deck), any) == Some(message@),
        },
{
    proof {
        lemma_every_deck_holds_a_card();
    }
    if any {
        let all = decks();
        let k = match seed {
            Some(seed) => {
                let (_, k) = below_from(seed, all.len());
                k
            },
            None => random_below(all.len()),
        };
        assert(all@[k as int] == registry()[k as int]);
        Ok(all[k])
    } else {
        let id: Option<&str> = match deck {
            Some(name) => Some(name.as_str()),
            None => None,
        };
        let r = resolve(id);
        proof {
            if let Some(name) = id {
                lemma_first_match(registry(), deck_named(name@));
            }
        }
        r
    }
}

/// Carry out a command: the text it prints, or the message it fails with.
/// `version` is what `--version` reports.
pub fn run(command: Command, version: &str) -> (r: Result<String, String>)
    ensures
        answers(command@, version@, seen(r)),
{
    match command {
        Command::Help => Ok(USAGE.to_string()),
        Command::Version => {
            let mut out = "sortes ".to_string();
            out.append(version);
            out.append("\n");
            Ok(out)
        },
        Command::List => Ok(listing()),
        Command::About { deck } => {
            let id: Option<&str> = match &deck {
                Some(name) => Some(name.as_str()),
                None => None,
            };
            match resolve(id) {
                Ok(found) => Ok(about(found)),
                Err(message) => Err(message),
            }
        },
        Command::All { deck, any } => match pick(&deck, any, None) {
            Ok(found) => {
                let out = print_cards(found.cards);
                assert(may_read(text_of(deck), any, None, found));
                Ok(out)
            },
            Err(message) => Err(message),
        },
        Command::Find { deck, any, needle } => match pick(&deck, any, None) {
            Ok(found) => {
                let matching = found.find(needle.as_str());
                let out = print_cards(matching.as_slice());
                assert(may_read(text_of(deck), any, None, found));
                Ok(out)
            },
            Err(message) => Err(message),
        },
        Command::Draw { deck, any, count, seed } => match pick(&deck, any, seed) {
            Ok(found) => {
                let out = match seed {
                    Some(seed) => {
                        let size = found.cards.len();
                        let take = if count < size {
                            count
                        } else {
                            size
                        };
                        let mut shoe = found.shoe_with_seed(seed);
                        let dealt = shoe.draw_n(take);
                        print_cards(dealt.as_slice())
                    },
                    None => {
                        let drawn = found.random_n_str(count);
                        let out = print_cards(drawn.as_slice());
                        assert(prints_a_draw(out@, found, count as nat, None));
                        out
                    },
                };
                assert(may_read(text_of(deck), any, seed_of(seed), found));
                Ok(out)
            },
            Err(message) => Err(message),
        },
    }
}

} // verus!
