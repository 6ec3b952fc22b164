//! What can go wrong in the repository, and how it is told.
use vstd::prelude::*;
use vstd::string::StringExecFns;

use crate::number::{signed_decimal, signed_text};

verus! {

/// `rusqlite::Error`: what SQLite, or reading a value out of a row, failed with. Nothing is
/// claimed of it.
#[verifier::external_type_specification]
#[verifier::external_body]
pub struct ExSqliteError(rusqlite::Error);

/// `std::io::Error`: what reading or writing a file, or running a command, failed with.
/// Nothing is claimed of it.
#[verifier::external_type_specification]
#[verifier::external_body]
pub struct ExIoError(std::io::Error);

#[derive(Debug)]
pub enum HarnessInfraError {
    MissingDatabase(String),
    MissingBackup(String),
    MissingSchema(String),
    MissingBrownfieldPath(String),
    MissingDecisionVerifyCommand(String),
    MissingStoryVerifyCommand(String),
    StoryNotFound(String),
    ToolAlreadyExists(String, String),
    ToolNotFound(String),
    ToolCommandNotFound(String),
    ToolValidation(String),
    BacklogNotFound(i64),
    TraceNotFound(i64),
    NoTraces,
    EmptyStoryUpdate,
    Sqlite(rusqlite::Error),
    Io(std::io::Error),
}

/// The text in which `rusqlite::Error` displays itself. Nothing is claimed of it: SQLite
/// words most of it.
#[verifier::external_body]
fn sqlite_error_text(error: &rusqlite::Error) -> (r: String) {
    error.to_string()
}

/// The text in which `std::io::Error` displays itself. Nothing is claimed of it: the
/// operating system words most of it.
#[verifier::external_body]
fn io_error_text(error: &std::io::Error) -> (r: String) {
    error.to_string()
}

/// `before`, `text` and `after` in a row.
fn around(before: &str, text: &str, after: &str) -> (r: String)
    ensures
        r@ == before@ + text@ + after@,
{
    let mut r = before.to_owned();
    r.append(text);
    r.append(after);
    r
}

impl HarnessInfraError {
    /// The error in words, those of SQLite and of the operating system in the words `detail`
    /// of their own.
    pub open spec fn told(self, detail: Seq<char>) -> Seq<char> {
        match self {
            HarnessInfraError::MissingDatabase(path) => "database not found at "@ + path@
                + ". Run: harness init"@,
            HarnessInfraError::MissingBackup(path) => "backup not found at "@ + path@
                + ". Cannot repair."@,
            HarnessInfraError::MissingSchema(path) => "schema file missing: "@ + path@,
            HarnessInfraError::MissingBrownfieldPath(path) => "brownfield import: missing "@
                + path@,
            HarnessInfraError::MissingDecisionVerifyCommand(id) => "decision "@ + id@
                + " has no verify_command. Configure one with: harness-cli decision add --id "@
                + id@ + " --title <title> --verify \"<command>\""@,
            HarnessInfraError::MissingStoryVerifyCommand(id) => "story "@ + id@
                + " has no verify_command. Configure one with: harness-cli story update --id "@
                + id@ + " --verify \"<command>\""@,
            HarnessInfraError::StoryNotFound(id) => "story update: story '"@ + id@
                + "' not found"@,
            HarnessInfraError::ToolAlreadyExists(name, command) => "tool register: tool '"@
                + name@ + "' already exists with command '"@ + command@ + "'"@,
            HarnessInfraError::ToolNotFound(name) => "tool remove: tool '"@ + name@
                + "' not found"@,
            HarnessInfraError::ToolCommandNotFound(command) => "tool register: command '"@
                + command@ + "' was not found. Re-run with --force to register anyway."@,
            HarnessInfraError::ToolValidation(reason) => reason@,
            HarnessInfraError::BacklogNotFound(id) => "backlog close: backlog item '"@
                + signed_decimal(id as int) + "' not found"@,
            HarnessInfraError::TraceNotFound(id) => "trace '"@ + signed_decimal(id as int)
                + "' not found"@,
            HarnessInfraError::NoTraces => "no traces found"@,
            HarnessInfraError::EmptyStoryUpdate => "story update: nothing to update"@,
            HarnessInfraError::Sqlite(_) => "sqlite error: "@ + detail,
            HarnessInfraError::Io(_) => "io error: "@ + detail,
        }
    }

    /// Whether `detail` is a text in which the error of SQLite, or of the operating system, tells
    /// itself: one that its display gave. The other errors have no such text.
    pub closed spec fn is_own_detail(self, detail: Seq<char>) -> bool {
        match self {
            HarnessInfraError::Sqlite(error) => exists|text: String| #[trigger]
                call_ensures(sqlite_error_text, (&error,), text) && text@ == detail,
            HarnessInfraError::Io(error) => exists|text: String| #[trigger]
                call_ensures(io_error_text, (&error,), text) && text@ == detail,
            _ => detail == Seq::<char>::empty(),
        }
    }

    /// The error in words, with `detail` for what SQLite or the operating system says.
    pub fn message_with(&self, detail: &str) -> (r: String)
        ensures
            r@ == self.told(detail@),
    {
        match self {
            HarnessInfraError::MissingDatabase(path) => around(
                "database not found at ",
                path.as_str(),
                ". Run: harness init",
            ),
            HarnessInfraError::MissingBackup(path) => around(
                "backup not found at ",
                path.as_str(),
                ". Cannot repair.",
            ),
            HarnessInfraError::MissingSchema(path) => {
                let mut r = "schema file missing: ".to_owned();
                r.append(path.as_str());
                r
            },
            HarnessInfraError::MissingBrownfieldPath(path) => {
                let mut r = "brownfield import: missing ".to_owned();
                r.append(path.as_str());
                r
            },
            HarnessInfraError::MissingDecisionVerifyCommand(id) => {
                let mut r = around(
                    "decision ",
                    id.as_str(),
                    " has no verify_command. Configure one with: harness-cli decision add --id ",
                );
                r.append(id.as_str());
                r.append(" --title <title> --verify \"<command>\"");
                r
            },
            HarnessInfraError::MissingStoryVerifyCommand(id) => {
                let mut r = around(
                    "story ",
                    id.as_str(),
                    " has no verify_command. Configure one with: harness-cli story update --id ",
                );
                r.append(id.as_str());
                r.append(" --verify \"<command>\"");
                r
            },
            HarnessInfraError::StoryNotFound(id) => around(
                "story update: story '",
                id.as_str(),
                "' not found",
            ),
            HarnessInfraError::ToolAlreadyExists(name, command) => {
                let mut r = around(
                    "tool register: tool '",
                    name.as_str(),
                    "' already exists with command '",
                );
                r.append(command.as_str());
                r.append("'");
                r
            },
            HarnessInfraError::ToolNotFound(name) => around(
                "tool remove: tool '",
                name.as_str(),
                "' not found",
            ),
            HarnessInfraError::ToolCommandNotFound(command) => around(
                "tool register: command '",
                command.as_str(),
                "' was not found. Re-run with --force to register anyway.",
            ),
            HarnessInfraError::ToolValidation(reason) => reason.clone(),
            HarnessInfraError::BacklogNotFound(id) => around(
                "backlog close: backlog item '",
                signed_text(*id).as_str(),
                "' not found",
            ),
            HarnessInfraError::TraceNotFound(id) => around(
                "trace '",
                signed_text(*id).as_str(),
                "' not found",
            ),
            HarnessInfraError::NoTraces => "no traces found".to_owned(),
            HarnessInfraError::EmptyStoryUpdate => "story update: nothing to update".to_owned(),
            HarnessInfraError::Sqlite(_) => {
                let mut r = "sqlite error: ".to_owned();
                r.append(detail);
                r
            },
            HarnessInfraError::Io(_) => {
                let mut r = "io error: ".to_owned();
                r.append(detail);
                r
            },
        }
    }

    /// The error in words.
    pub fn message(&self) -> (r: String)
        ensures
            exists|detail: Seq<char>|
                self.is_own_detail(detail) && r@ == #[trigger] self.told(detail),
    {
        let detail = match self {
            HarnessInfraError::Sqlite(error) => sqlite_error_text(error),
            HarnessInfraError::Io(error) => io_error_text(error),
            _ => String::new(),
        };
        self.message_with(detail.as_str())
    }
}

impl From<rusqlite::Error> for HarnessInfraError {
    fn from(error: rusqlite::Error) -> (r: Self) {
        HarnessInfraError::Sqlite(error)
    }
}

impl vstd::std_specs::convert::FromSpecImpl<rusqlite::Error> for HarnessInfraError {
    open spec fn obeys_from_spec() -> bool {
        true
    }

    open spec fn from_spec(error: rusqlite::Error) -> Self {
        HarnessInfraError::Sqlite(error)
    }
}

impl From<std::io::Error> for HarnessInfraError {
    fn from(error: std::io::Error) -> (r: Self) {
        HarnessInfraError::Io(error)
    }
}

impl vstd::std_specs::convert::FromSpecImpl<std::io::Error> for HarnessInfraError {
    open spec fn obeys_from_spec() -> bool {
        true
    }

    open spec fn from_spec(error: std::io::Error) -> Self {
        HarnessInfraError::Io(error)
    }
}

/// What the operations of the repository return.
pub type Result<T> = std::result::Result<T, HarnessInfraError>;

} // verus!
