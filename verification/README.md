# rustgie_types

Data types of the Destiny 2 API, written in Verus.

Every enumeration of the API is a Rust enum with:

- `value()`: the number that stands for the variant on the wire;
- `to_string()`: that number written in decimal;
- `from_str(s)`: the variant whose name is `s`, or a `ParseEnumError` that
  carries `s` and the name of the enumeration.

The enums carry no explicit discriminants, so an `as` cast gives a variant's
position in its list, not its wire number: use `value()` for that.

Their contracts are proved, together with the facts that make the
representation sound: distinct variants have distinct names and distinct
numbers, and the numbers of flag enumerations are single, disjoint bits.

Layout:

- `src/destiny.rs`: every type re-exported under one path.
- `src/text.rs`: string comparison and decimal writing, with their proofs.
- `src/error.rs`: `ParseEnumError` and its message.
- `src/flags.rs`: one-bit numbers.
- `src/{progression,items,sockets,stats,profile,vendors,activities,presentation}.rs`:
  the enumerations and records, grouped by topic.
- `app/`: serde derives, `Display`, `FromStr` and `#[bitflags]` on copies of
  the library types, converting to and from them; and `DestinyTalentNode`,
  which holds a float.
- `tests/`: tests of every enumeration, of the text helpers and of the records.
