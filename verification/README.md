# types

The item types of a fuzzy-filter pipeline, written in Verus.

- `src/source_item.rs`: `FuzzyText` (a piece of text to match and its offset in
  the full line) and `MatchScope` (where a match should look), with the parsing
  of a scope name. Parsing ignores case; the contracts are stated over spec
  functions in the same file, and the laws of the parsing are proof functions
  there.
- `app/lib.rs`: `AsAny`, which only converts references to `dyn Any`.
- `tests/`: concrete cases of the contracts and laws.
