# rust-search

The search core of a Find in Path plugin for IntelliJ-based IDEs, loaded into
the JVM as a native library. Its logic is written in Verus and proved against
its contracts; the JNI entry points, threads, channels and file access sit
around it in plain Rust.

## Layout

- `src/` — the verified library
  - `search/config.rs` — the request, its validation, the builder, the regular
    expression built from a pattern
  - `search/walker.rs` — the files of the roots, with ignore rules and globs
  - `search/matcher.rs` — the matching lines of one file, the line-kind filters
    and the per-file limit
  - `search/context.rs` — context lines around a match
  - `search/line_kind.rs` — code, comment, import and package lines
  - `search/engine.rs` — what comes before the files are searched, and the
    merging of their results under the global limit
  - `search/stream.rs` — the decisions of a streamed search: which entries are
    searched, and how each match is delivered under the global limit
  - `jni/` — plain-value side of the JVM bridge: argument conversion, search
    ids, the registries of searches, the decisions of a results poll, the
    fields of a result object
  - `util/` — text, path and platform helpers
- `tests/` — tests of the library
- `app/` — the JNI entry points and the parts that touch the disk, threads and
  channels
