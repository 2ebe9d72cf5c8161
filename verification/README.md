# dprint-plugin-bibtex-tidy

A dprint plugin that formats BibTeX files with bibtex-tidy.

- `src/` is the verified library:
  - `configuration/` reads the plugin's configuration map (`config_map.rs`,
    `values.rs`) into a typed `Configuration` (`types.rs`, `resolve_config.rs`),
    with a diagnostic for every value it cannot use and for every property it
    does not know;
  - `format_text.rs` turns a configuration into the options handed to
    bibtex-tidy, applies the requested line endings to bibtex-tidy's output and
    decides whether that output changes the file;
  - `text.rs` states the text operations of the standard library that the
    library relies on.
- `app/` holds the plugin around it: dprint's own configuration types, serde,
  the bibtex-tidy JavaScript bundle run by boa_engine, and the Wasm entry
  points.
