# resvg (verified core)

The decision logic of the resvg SVG toolkit and its `usvg` simplifier,
written in Verus with contracts that the verifier proves.

## Layout

- `src/` — the verified library:
  - `phf.rs`, `names.rs`: the perfect-hash tables of SVG element and
    attribute names (`EId`, `AId`), their lookups and their names.
  - `cli.rs`: the option values of the `usvg` command line, their
    documented defaults, and where it reads and writes.
  - `text_style.rs`, `text_chunks.rs`: text anchors, font properties,
    decorations, named font sizes, the Qt font settings, and the grouping
    of `tspan`s into text chunks.
  - `image.rs`: `data:` URLs of images (parsing and writing, with base64
    from the `base64` crate) and PNG/JPEG magic bytes.
  - `path.rs`: splitting a path into subpaths.
  - `render_state.rs`: which nodes a rendering pass draws while it
    prepares the background of a filter, and what is done to a group's
    layer afterwards.
  - `paint.rs`: the paint source, fill rule, cap, join and dash state that
    a fill or a stroke selects in the backends.
  - `clip_path.rs`: clip-path conversion: which referenced clip paths
    convert, their units, and the conversion cache.
  - `export.rs`: which unit, fill, stroke and link attributes are written
    when a tree is saved as SVG.
  - `filter.rs`, `pixels.rs`: morphology operators, filter inputs and
    `feMerge`, and the BGRA/RGBA byte swap.
  - `strings.rs`: the string operations the rest is built on.
- `tests/` — tests of the library on concrete values.
- `app/` — the command line, file and font I/O, PNG output and the
  floating-point geometry, in ordinary Rust on top of the library.

Outside crates called from `src/` (`siphasher`, `base64`) go through a
few trusted wrappers whose contracts are documented where they stand.
