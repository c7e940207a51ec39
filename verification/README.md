# htmd_py

HTML to Markdown conversion around the `htmd` converter, verified with Verus.

- `src/lib.rs`: `convert_html` and `create_options_with_skip_tags`.
- `src/options.rs`: the options object (`PyOptions`), its mapping from style
  names to htmd's options, and the builder configuration it applies.
- `src/style.rs`: the library's model of htmd's options and the style names.
- `src/handlers.rs`: the `<img>` and `<a>` handlers the options install.
- `src/converter.rs`: htmd's builder and converter, behind trusted wrappers.
- `src/preprocess.rs`: dropping elements by CSS selector with lol_html.
- `src/footnote.rs`: rewriting citation links to footnote markers with regex.
- `src/text.rs`: verified trimming, prefix search and literal replacement.
- `src/error.rs`: errors and their messages.
- `src/laws.rs`: properties proved across functions.
- `app/lib.rs`: the Python module built with pyo3.
