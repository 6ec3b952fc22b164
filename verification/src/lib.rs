//! The store of a harness: the rules by which the records of a repository are seeded from its
//! documents, kept in an SQLite database, verified, audited and improved.
pub mod argument_laws;
pub mod audit;
pub mod backlog;
pub mod backlog_laws;
pub mod backlog_table;
pub mod columns;
pub mod commit;
pub mod decision;
pub mod decision_laws;
pub mod decision_table;
pub mod error;
pub mod error_laws;
pub mod init_run;
pub mod intake;
pub mod laws;
pub mod matrix;
pub mod matrix_laws;
pub mod migrate;
pub mod migrate_laws;
pub mod migrate_run;
pub mod number;
pub mod operation_laws;
pub mod proposal;
pub mod proposal_laws;
pub mod query;
pub mod reading_laws;
pub mod repository;
pub mod run_laws;
pub mod script;
pub mod script_laws;
pub mod seed;
pub mod statement;
pub mod story;
pub mod tables;
pub mod text;
pub mod text_laws;
pub mod title_laws;
pub mod token;
pub mod tool;
pub mod tool_args;
pub mod tool_args_laws;
pub mod tool_laws;
pub mod trace;
pub mod verify;
pub mod verify_laws;
