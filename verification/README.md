# etch

Code generation for the web from design and document sources: Figma layers
to Tailwind classes and TSX, SVG to React components, HTML and Markdown
transforms, and rewriting passes over TSX (JSX) trees.

The library is written in Verus: every function in `src/` carries a
contract, and the properties that tie several operations together are
stated as proof functions named `law_*`.

Layout:

- `src/` — the verified library.
  - `text`, `order`, `decimal`, `string_map`, `keyed`: strings, ordering,
    decimal numbers and small maps, with their specifications.
  - `figma`, `tailwind`, `strategy`, `figma_jsx`, `figma_export`,
    `figma_vectors`: the design model and what it becomes.
  - `jsx`, `tsx/*`, `svgr`, `svg_parser`, `svg_postprocessor`, `shadcn`,
    `generator`, `raw_html`: the JSX model and the passes over it.
  - `html`, `html_links`, `html_assets`, `svg_extract`: HTML visitors.
  - `md`, `md_events`, `rust_code`: Markdown parsed into events, their
    transformers, and rendering.
  - `nextjs`, `paths`, `ids`: Next.js routes, paths and identifiers.
- `tests/` — tests of the library.
- `app/` — file system, parsing and serialization around the library.
