# plsfix: the utf-8-variants codec, verified

Decoding of the non-standard UTF-8 met in the wild: CESU-8 (UTF-8 layered on
UTF-16, six bytes for a character outside the Basic Multilingual Plane) and
Java's `0xC0 0x80` for U+0000, mixed freely with standard UTF-8.

Layout of `src/`:

- `utf8_variants.rs`: `variant_decode` and its two decoding steps, with the
  step-by-step specification `variant_decoding`.
- `grammar.rs`: the byte patterns that need special decoding, as spec
  predicates and as verified functions on bytes.
- `forms.rs`: the three forms a character may take (standard UTF-8, CESU-8
  pair, Java null) and the facts about their bytes.
- `laws.rs`: what the codec promises as a whole: it decodes exactly the mixes
  of these forms, to the characters they stand for; standard UTF-8 decodes to
  itself; input ending in a lone `0xC0` is rejected.
- `mojibake.rs`: building Latin-1 mojibake from text, and finding line breaks.
- `fixer_config.rs`: the text fixer's options as Python passes them, with the
  checks made when they are built, their defaults, the refusal messages, the
  options handed on to the fixer, and the explained result handed back.
- `std_text.rs`: the standard-library calls the code makes, with their
  documented contracts.
