# local_ai_assistant

A local writing assistant: chat with a local model, blog outlines and
articles, SEO analysis, multi-modal content packages (article, images,
social clips), image generation with MFLUX, speech, and video generation
through several providers.

## Layout

- `src/` — the library, verified with Verus. Every function states what it
  returns or changes in its `ensures`; laws that relate several functions are
  public proof functions (`lemma_*`).
  - `models/` — the data: chat messages and sessions, blog posts, templates,
    content packages, settings, the model catalogue, video options.
  - `content/` — outline parsing, prompts, exports, the context-file rules.
  - `engine/` — the back ends' rules: SEO counting and issues, the content
    generator's prompts and assembly, RSS and article extraction, image and
    speech job state, the language model's switching rules, the model cache,
    video requests and Volcengine request signing.
  - `storage/` — how rows of the SQLite store are written and read back.
  - `deps.rs` — the calls into other crates (`uuid`, `chrono`, `comrak`,
    `sha2`, `hmac`, `hex`, `base64`, `image`, `serde_json`, `feed-rs`,
    `readability`, `dirs`, `std::path`), each with the contract the library
    relies on.
  - `text.rs` — string primitives with their specifications.
- `app/` — the command-line program: file, network and process I/O, the
  SQLite store, the computations on floating-point numbers, and the serde
  forms of the library's types.
- `tests/` — tests of the library.
