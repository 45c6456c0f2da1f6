# file_crawler

A file crawler whose settings and decisions are verified with Verus.

- `src/pattern.rs`: regexes compiled with the `regex` crate, kept with their source text.
- `src/builder.rs`: the `Crawler` builder (start directory, file and folder regexes,
  depth limit, context); `src/builder/config.rs`: the configuration of one directory,
  the decision taken for each of its entries (the regexes are matched against the
  entry's file name), and the step into a subdirectory.
- `src/authority.rs`: the bookkeeping that decides when an asynchronous crawl is over.
- `src/laws.rs`: properties that span several operations, among them what a whole crawl
  visits over an abstract file system (only accepted files, every file in scope,
  each once on a tree, within the depth limit).
- `app/`: reading directories and running the user's action, on `rayon` threads or
  `tokio` tasks, through the `ParallelRun` and `AsyncRun` traits.
