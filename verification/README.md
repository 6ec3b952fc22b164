# harness_store

The store behind a repository harness: it seeds records from Markdown documents, keeps them in an
SQLite database, verifies stories and decisions with shell commands, looks for registered tools,
audits what has drifted and proposes improvements.

* `src/` is the library, verified with Verus. It holds the SQL statements with the values of their
  parameters, the parsers of the documents, the decisions on what the database, the file system
  and the commands answer, and the laws that hold of them (`laws`, `tool_args_laws`, `title_laws`,
  `tables`, `seed`, `commit`, `script`, `migrate`, `migrate_run`, `init_run`, `verify`, `audit`,
  `proposal`, `story`).
* `app/` is the ordinary Rust around it: it opens the database, runs the statements, and reads
  files, the environment, processes and the network.
* `tests/` runs the library, its statements on an SQLite database in memory.

What is taken on trust stands in doc comments above the items concerned: the error types of
`rusqlite` and `std::io`, `rusqlite::OptionalExtension::optional`, `String::from_utf8_lossy`,
`String::push` and `std::path::PathBuf`.
