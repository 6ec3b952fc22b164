//! What each error says.
use vstd::prelude::*;

use crate::error::HarnessInfraError;
use crate::number::signed_decimal;

verus! {

/// An error about something that is missing names it, and says what to do about it.
pub proof fn law_missing_things_are_named(text: String, detail: &str, r: String)
    ensures
        call_ensures(
            HarnessInfraError::message_with,
            (&HarnessInfraError::MissingDatabase(text), detail),
            r,
        ) ==> r@ == "database not found at "@ + text@ + ". Run: harness init"@,
        call_ensures(
            HarnessInfraError::message_with,
            (&HarnessInfraError::MissingBackup(text), detail),
            r,
        ) ==> r@ == "backup not found at "@ + text@ + ". Cannot repair."@,
        call_ensures(
            HarnessInfraError::message_with,
            (&HarnessInfraError::MissingSchema(text), detail),
            r,
        ) ==> r@ == "schema file missing: "@ + text@,
        call_ensures(
            HarnessInfraError::message_with,
            (&HarnessInfraError::MissingBrownfieldPath(text), detail),
            r,
        ) ==> r@ == "brownfield import: missing "@ + text@,
        call_ensures(
            HarnessInfraError::message_with,
            (&HarnessInfraError::MissingDecisionVerifyCommand(text), detail),
            r,
        ) ==> r@ == "decision "@ + text@
            + " has no verify_command. Configure one with: harness-cli decision add --id "@ + text@
            + " --title <title> --verify \"<command>\""@,
        call_ensures(
            HarnessInfraError::message_with,
            (&HarnessInfraError::MissingStoryVerifyCommand(text), detail),
            r,
        ) ==> r@ == "story "@ + text@
            + " has no verify_command. Configure one with: harness-cli story update --id "@ + text@
            + " --verify \"<command>\""@,
{
}

/// An error about something that was not found names what was looked for.
pub proof fn law_unknown_names_are_told(text: String, id: i64, detail: &str, r: String)
    ensures
        call_ensures(
            HarnessInfraError::message_with,
            (&HarnessInfraError::StoryNotFound(text), detail),
            r,
        ) ==> r@ == "story update: story '"@ + text@ + "' not found"@,
        call_ensures(
            HarnessInfraError::message_with,
            (&HarnessInfraError::ToolNotFound(text), detail),
            r,
        ) ==> r@ == "tool remove: tool '"@ + text@ + "' not found"@,
        call_ensures(
            HarnessInfraError::message_with,
            (&HarnessInfraError::ToolCommandNotFound(text), detail),
            r,
        ) ==> r@ == "tool register: command '"@ + text@
            + "' was not found. Re-run with --force to register anyway."@,
        call_ensures(
            HarnessInfraError::message_with,
            (&HarnessInfraError::BacklogNotFound(id), detail),
            r,
        ) ==> r@ == "backlog close: backlog item '"@ + signed_decimal(id as int) + "' not found"@,
        call_ensures(
            HarnessInfraError::message_with,
            (&HarnessInfraError::TraceNotFound(id), detail),
            r,
        ) ==> r@ == "trace '"@ + signed_decimal(id as int) + "' not found"@,
        call_ensures(
            HarnessInfraError::message_with,
            (&HarnessInfraError::NoTraces, detail),
            r,
        ) ==> r@ == "no traces found"@,
{
}

/// An error about what was asked for says why it was refused.
pub proof fn law_refusals_are_explained(name: String, command: String, detail: &str, r: String)
    ensures
        call_ensures(
            HarnessInfraError::message_with,
            (&HarnessInfraError::ToolAlreadyExists(name, command), detail),
            r,
        ) ==> r@ == "tool register: tool '"@ + name@ + "' already exists with command '"@
            + command@ + "'"@,
        call_ensures(
            HarnessInfraError::message_with,
            (&HarnessInfraError::ToolValidation(name), detail),
            r,
        ) ==> r@ == name@,
        call_ensures(
            HarnessInfraError::message_with,
            (&HarnessInfraError::EmptyStoryUpdate, detail),
            r,
        ) ==> r@ == "story update: nothing to update"@,
{
}

/// An error of SQLite, or of the operating system, is told in its own words, behind where it is
/// from.
pub proof fn law_outside_errors_keep_their_words(
    sqlite: rusqlite::Error,
    io: std::io::Error,
    detail: &str,
    r: String,
)
    ensures
        call_ensures(
            HarnessInfraError::message_with,
            (&HarnessInfraError::Sqlite(sqlite), detail),
            r,
        ) ==> r@ == "sqlite error: "@ + detail@,
        call_ensures(
            HarnessInfraError::message_with,
            (&HarnessInfraError::Io(io), detail),
            r,
        ) ==> r@ == "io error: "@ + detail@,
{
}

/// The errors of the library say the same with or without words from outside.
pub proof fn law_own_errors_need_no_words_from_outside(error: &HarnessInfraError, r: String)
    requires
        call_ensures(HarnessInfraError::message, (error,), r),
        !(error is Sqlite),
        !(error is Io),
    ensures
        r@ == error.told(Seq::empty()),
{
}

} // verus!
