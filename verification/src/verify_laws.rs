//! What a verification reports of which story or decision.
use vstd::prelude::*;

use crate::number::{decimal, signed_decimal};
use crate::query::{lossy_text, shown, shown_rows, SqlCell};
use crate::text::trim;
use crate::verify::{
    came_to, count_of, runnable, stored_command, verdict, CommandOutput, StoryToVerify,
    StoryVerifyAllItem, StoryVerifyAllResult,
};

verus! {

/// A verification passes where its command succeeded, and fails where it did not.
pub proof fn law_verdicts()
    ensures
        verdict(true) == "pass"@,
        verdict(false) == "fail"@,
{
}

/// A stored command is given back as it is, and an empty one is none.
pub proof fn law_stored_command_is_given_back(command: String)
    ensures
        stored_command(None) is None,
        stored_command(Some(None)) is None,
        command@.len() > 0 ==> stored_command(Some(Some(command))) == Some(command),
        command@.len() == 0 ==> stored_command(Some(Some(command))) is None,
{
}

/// A command is run as it is, unless it is blank.
pub proof fn law_blank_commands_are_not_run(command: Seq<char>)
    ensures
        runnable(None) is None,
        trim(command).len() > 0 ==> runnable(Some(command)) == Some(command),
        trim(command).len() == 0 ==> runnable(Some(command)) is None,
{
}

/// The item of a story has its id, its title and its command. It is skipped exactly where the
/// story has no command but blanks, and else passes or fails.
pub proof fn law_items_are_those_of_their_stories(
    result: StoryVerifyAllResult,
    stories: Seq<StoryToVerify>,
    i: int,
)
    requires
        result.reports(stories),
        0 <= i < stories.len(),
    ensures
        ({
            let item = result.items@[i];
            let command = stories[i].verify_command.deep_view();
            &&& result.items@.len() == stories.len()
            &&& item.id@ == stories[i].id@
            &&& item.title@ == stories[i].title@
            &&& command is Some && trim(command->0).len() > 0 ==> {
                &&& item.command.deep_view() == command
                &&& item.result@ == "pass"@ || item.result@ == "fail"@
            }
            &&& command is None || trim(command->0).len() == 0 ==> {
                &&& item.command is None
                &&& item.result@ == "skipped"@
                &&& item.stdout@.len() == 0
                &&& item.stderr@.len() == 0
            }
        }),
{
    assert(result.items@[i].reports(stories[i]));
    assert(result.items@[i].command.deep_view() == stories[i].run());
}

/// An item tells whether the command succeeded, and what it wrote to each of its outputs.
pub proof fn law_items_tell_of_the_command(item: StoryVerifyAllItem, output: CommandOutput)
    requires
        item.tells(output),
    ensures
        output.success ==> item.result@ == "pass"@,
        !output.success ==> item.result@ == "fail"@,
        item.stdout@ == lossy_text(output.stdout@),
        item.stderr@ == lossy_text(output.stderr@),
{
}

/// One more item adds to the number of those with its result, and to no other.
pub proof fn law_items_are_counted_by_result(
    items: Seq<StoryVerifyAllItem>,
    next: StoryVerifyAllItem,
    result: Seq<char>,
)
    ensures
        count_of(Seq::empty(), result) == 0,
        next.result@ == result ==> count_of(items.push(next), result) == count_of(items, result)
            + 1,
        next.result@ != result ==> count_of(items.push(next), result) == count_of(items, result),
{
    items.lemma_filter_push(next, came_to(result));
    assert(count_of(Seq::empty(), result) == 0) by {
        reveal(Seq::filter);
    }
}

/// A cell is shown by its value: nothing as nothing, a number in decimal, a text as it decodes, and
/// a blob by its length.
pub proof fn law_cells_are_shown_by_value(
    number: i64,
    text: String,
    bytes: Vec<u8>,
)
    ensures
        shown(SqlCell::Null).len() == 0,
        shown(SqlCell::Integer(number)) == signed_decimal(number as int),
        shown(SqlCell::Real(text)) == text@,
        shown(SqlCell::Text(bytes)) == lossy_text(bytes@),
        shown(SqlCell::Blob(bytes)) == "<"@ + decimal(bytes@.len()) + " bytes>"@,
{
}

/// Every cell is shown in its own row and column.
pub proof fn law_cells_keep_their_places(rows: Seq<Vec<SqlCell>>, i: int, j: int)
    requires
        0 <= i < rows.len(),
        0 <= j < rows[i]@.len(),
    ensures
        shown_rows(rows).len() == rows.len(),
        shown_rows(rows)[i].len() == rows[i]@.len(),
        shown_rows(rows)[i][j] == shown(rows[i]@[j]),
{
}

} // verus!
