# sortes

Decks of cards for when the work will not move, drawn at random, with each
function's behaviour stated as a contract and proved by Verus.

## Layout

- `src/lib.rs`: the registry of decks built in (`decks`, `deck_by_id`,
  `card_by_id`) and the laws that tie them together.
- `src/deck.rs`: `Deck` and `Provenance`; drawing, searching, and card ids
  within one deck.
- `src/shoe.rs`: `Shoe`, a shuffled deck with a cursor, whose passes deal every
  card once, never repeat a card across the seam between passes, and replay
  exactly from a seed.
- `src/identity.rs`: `CardId`, an FNV-1a hash of the deck id and the card text,
  written as sixteen hex digits and read back.
- `src/cli.rs`: the command line's grammar (`parse`), what each command prints
  (`run`), and the texts of `--list` and `--about`.
- `src/records.rs`: decks and draws as flat strings separated by ASCII control
  codes, for a host across a foreign-function boundary.
- `src/text.rs`, `src/search.rs`: byte-level text helpers and first-match
  search, with their specifications.
- `src/random.rs`: the only trusted code. Four small wrappers over `fastrand`,
  each with a contract taken from fastrand's source.
- `src/decks/`: the card texts.
- `app/main.rs`: the `sortes` program: reads the arguments, calls `parse` and
  `run`, prints the result.
- `tests/`: ordinary Rust tests run against the compiled library.
