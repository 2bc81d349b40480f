# tmpls

Inputs, output buffers and verified renderers for a benchmark of HTML template
engines.

- `src/data.rs`: the two inputs (a 100 x 100 table of numbers, a season of teams)
  with their default values.
- `src/output.rs`: the `Output` buffers (`String`, `Vec<u8>`); `engines/sailfish.rs`
  adds sailfish's `Buffer`.
- `src/page.rs`: the two pages as character sequences, and the generic writers that
  produce them; `src/html.rs`: decimal numbers and HTML escaping.
- `src/engines/`: maud, markup and horrorshow, each implementing `Benchmark`; maud
  and markup render interpolated values with their own crate's `Render` impls.
- `src/digest.rs`: the output hash (ahash) used to check that every round renders
  the same bytes; `src/cli.rs`: argument selection and the engine list of the usage
  message; `src/laws.rs`: properties across engines and building blocks.
- `app/`: the command-line program and the criterion benchmarks.
