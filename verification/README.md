# concordance

HDMI 2.1 mode negotiation, verified with Verus. Given the capabilities of a sink
(display), a source (GPU) and a cable, the library produces the ranked list of viable
configurations: which modes can be driven, with which color encoding, bit depth, FRL
rate and DSC state, in the order a policy prefers.

## Layout

- `src/display/` — plain-value models of the parsed display data the negotiation reads:
  video modes, color capabilities, the HDMI data blocks, the EDID capability summary and
  its CTA-861 extension, the EDID color derivation and the VIC timing table lookup.
- `src/types/` — the input types: sink, source and cable capabilities, candidate
  configurations, the deduplicated mode list and `sink_capabilities_from_display`.
- `src/engine/` — the constraint rules (FRL ceiling, refresh range, pixel clock, TMDS
  clock, color encoding, bit depth, DSC), the rule combinators and the default engine.
- `src/enumerator/` — the candidate product and the odometer that walks it.
- `src/ranker/` — the negotiation policy, the ranking key and comparison, the stable
  ranking sort and the preference trace.
- `src/builder.rs` — the pipeline: enumerate, check, deduplicate, rank.
- `src/probe.rs` — the single-candidate viability probe.
- `src/laws.rs` — properties of the library as a whole, stated and proved.
- `app/` — the integration layer: conversion from a `display_types` EDID parse, and
  the diagnostic types with `Display`, `std::error::Error` and serde support.
- `tests/` — unit and scenario tests run against the compiled library.

Every function in `src/` carries a contract checked by Verus. The calls into
`display_types` (the pixel clock estimate and the VIC table) go through small trusted
wrappers whose contracts are stated next to them.
