//! Verification: the commands that prove stories and decisions, and what they come to.
use vstd::prelude::*;
use vstd::utf8::{decode_utf8, valid_utf8};

use crate::error::{HarnessInfraError, Result};
use crate::query::{find_row, from_utf8_lossy, lossy_text, says_no_row};
use crate::statement::{
    statement_on_text, text_param, text_statement, SqlData, SqlStatement, SqlText,
};
use crate::text::{same_text, trim, trim_text};

verus! {

/// What came of running a command.
#[derive(Debug)]
pub struct CommandOutput {
    pub success: bool,
    pub stdout: Vec<u8>,
    pub stderr: Vec<u8>,
}

/// What came of verifying a story.
#[derive(Debug, Clone, PartialEq, Eq)]
pub struct StoryVerifyResult {
    pub command: String,
    pub stdout: String,
    pub stderr: String,
    pub result: String,
}

/// What came of verifying a decision.
#[derive(Debug, Clone, PartialEq, Eq)]
pub struct DecisionVerifyResult {
    pub command: String,
    pub result: String,
}

pub const FIND_STORY_COMMAND: &'static str = "SELECT verify_command FROM story WHERE id=?1;";

pub const FIND_DECISION_COMMAND: &'static str = "SELECT verify_command FROM decision WHERE id=?1;";

pub const RECORD_STORY_RESULT: &'static str =
    "UPDATE story SET last_verified_at=datetime('now'), last_verified_result=?1 WHERE \
     id=?2;";

pub const RECORD_DECISION_RESULT: &'static str =
    "UPDATE decision SET last_verified_at=datetime('now'), last_verified_result=?1 WHERE \
     id=?2;";

pub const LIST_STORIES_TO_VERIFY: &'static str =
    "SELECT id, title, verify_command FROM story ORDER BY id;";

/// The shell that runs a command, and the flag before the command.
pub fn verifier_shell(windows: bool) -> (r: (&'static str, &'static str))
    ensures
        r.0@ == if windows {
            "cmd"@
        } else {
            "sh"@
        },
        r.1@ == if windows {
            "/C"@
        } else {
            "-c"@
        },
{
    if windows {
        ("cmd", "/C")
    } else {
        ("sh", "-c")
    }
}

/// What a verification comes to.
pub open spec fn verdict(success: bool) -> Seq<char> {
    if success {
        "pass"@
    } else {
        "fail"@
    }
}

fn verdict_text(success: bool) -> (r: &'static str)
    ensures
        r@ == verdict(success),
{
    if success {
        "pass"
    } else {
        "fail"
    }
}

/// The command in the row that was found, if there is one.
pub open spec fn stored_command(found: Option<Option<String>>) -> Option<String> {
    match found {
        Some(Some(command)) => if command@.len() > 0 {
            Some(command)
        } else {
            None
        },
        _ => None,
    }
}

fn command_in(found: Option<Option<String>>) -> (r: Option<String>)
    ensures
        r == stored_command(found),
{
    match found {
        Some(Some(command)) => if command.as_str().is_empty() {
            None
        } else {
            Some(command)
        },
        _ => None,
    }
}

/// The command that verifies the story `id`, in the row that was found for it.
pub fn story_command(id: &str, found: Option<Option<String>>) -> (r: Result<String>)
    ensures
        match stored_command(found) {
            Some(command) => r == Ok::<String, HarnessInfraError>(command),
            None => r matches Err(HarnessInfraError::MissingStoryVerifyCommand(missing)) && missing@
                == id@,
        },
{
    match command_in(found) {
        Some(command) => Ok(command),
        None => Err(HarnessInfraError::MissingStoryVerifyCommand(id.to_owned())),
    }
}

/// The command that verifies the story `id`, by what the query for it gave.
pub fn story_verify_command(
    id: &str,
    row: std::result::Result<Option<String>, rusqlite::Error>,
) -> (r: Result<String>)
    ensures
        match row {
            Ok(stored) => match stored_command(Some(stored)) {
                Some(command) => r == Ok::<String, HarnessInfraError>(command),
                None => r matches Err(HarnessInfraError::MissingStoryVerifyCommand(missing))
                    && missing@ == id@,
            },
            Err(error) => if says_no_row(error) {
                r matches Err(HarnessInfraError::MissingStoryVerifyCommand(missing)) && missing@
                    == id@
            } else {
                r == Err::<String, HarnessInfraError>(HarnessInfraError::Sqlite(error))
            },
        },
{
    match find_row(row) {
        Ok(found) => story_command(id, found),
        Err(error) => Err(error),
    }
}

/// The command that verifies the decision `id`, in the row that was found for it.
pub fn decision_command(id: &str, found: Option<Option<String>>) -> (r: Result<String>)
    ensures
        match stored_command(found) {
            Some(command) => r == Ok::<String, HarnessInfraError>(command),
            None => r matches Err(HarnessInfraError::MissingDecisionVerifyCommand(missing))
                && missing@ == id@,
        },
{
    match command_in(found) {
        Some(command) => Ok(command),
        None => Err(HarnessInfraError::MissingDecisionVerifyCommand(id.to_owned())),
    }
}

/// The command that verifies the decision `id`, by what the query for it gave.
pub fn decision_verify_command(
    id: &str,
    row: std::result::Result<Option<String>, rusqlite::Error>,
) -> (r: Result<String>)
    ensures
        match row {
            Ok(stored) => match stored_command(Some(stored)) {
                Some(command) => r == Ok::<String, HarnessInfraError>(command),
                None => r matches Err(HarnessInfraError::MissingDecisionVerifyCommand(missing))
                    && missing@ == id@,
            },
            Err(error) => if says_no_row(error) {
                r matches Err(HarnessInfraError::MissingDecisionVerifyCommand(missing)) && missing@
                    == id@
            } else {
                r == Err::<String, HarnessInfraError>(HarnessInfraError::Sqlite(error))
            },
        },
{
    match find_row(row) {
        Ok(found) => decision_command(id, found),
        Err(error) => Err(error),
    }
}

/// The statement `sql` that keeps what the verification of `id` came to.
pub open spec fn verdict_statement(sql: Seq<char>, id: Seq<char>, success: bool) -> SqlText {
    SqlText { sql, params: seq![SqlData::Text(verdict(success)), SqlData::Text(id)] }
}

fn result_of(sql: &'static str, id: &str, success: bool) -> (r: SqlStatement)
    ensures
        r.deep_view() == verdict_statement(sql@, id@, success),
{
    let params = vec![text_param(verdict_text(success)), text_param(id)];
    assert(params.deep_view() =~= verdict_statement(sql@, id@, success).params);
    SqlStatement { sql, params }
}

/// The statement that looks for the command that verifies the story `id`.
pub fn find_story_command(id: &str) -> (r: SqlStatement)
    ensures
        r.deep_view() == text_statement(FIND_STORY_COMMAND@, id@),
{
    statement_on_text(FIND_STORY_COMMAND, id)
}

/// The statement that looks for the command that verifies the decision `id`.
pub fn find_decision_command(id: &str) -> (r: SqlStatement)
    ensures
        r.deep_view() == text_statement(FIND_DECISION_COMMAND@, id@),
{
    statement_on_text(FIND_DECISION_COMMAND, id)
}

/// The statement that keeps what the verification of the story `id` came to.
pub open spec fn story_result(id: Seq<char>, success: bool) -> SqlText {
    verdict_statement(RECORD_STORY_RESULT@, id, success)
}

/// The statement that keeps what the verification of the decision `id` came to.
pub open spec fn decision_result(id: Seq<char>, success: bool) -> SqlText {
    verdict_statement(RECORD_DECISION_RESULT@, id, success)
}

/// What the verification of a story came to: the statement that keeps it, and the report.
pub fn verify_story(id: &str, command: String, output: &CommandOutput) -> (r: (
    SqlStatement,
    StoryVerifyResult,
))
    ensures
        r.0.deep_view() == story_result(id@, output.success),
        r.1.command == command,
        r.1.result@ == verdict(output.success),
        r.1.stdout@ == lossy_text(output.stdout@),
        r.1.stderr@ == lossy_text(output.stderr@),
        valid_utf8(output.stdout@) ==> r.1.stdout@ == decode_utf8(output.stdout@),
        valid_utf8(output.stderr@) ==> r.1.stderr@ == decode_utf8(output.stderr@),
{
    let statement = result_of(RECORD_STORY_RESULT, id, output.success);
    let report = StoryVerifyResult {
        command,
        stdout: from_utf8_lossy(output.stdout.as_slice()),
        stderr: from_utf8_lossy(output.stderr.as_slice()),
        result: verdict_text(output.success).to_owned(),
    };
    (statement, report)
}

/// What the verification of a decision came to: the statement that keeps it, and the report.
pub fn verify_decision(id: &str, command: String, success: bool) -> (r: (
    SqlStatement,
    DecisionVerifyResult,
))
    ensures
        r.0.deep_view() == decision_result(id@, success),
        r.1.command == command,
        r.1.result@ == verdict(success),
{
    let statement = result_of(RECORD_DECISION_RESULT, id, success);
    (statement, DecisionVerifyResult { command, result: verdict_text(success).to_owned() })
}

/// A story, as far as its verification goes.
#[derive(Debug)]
pub struct StoryToVerify {
    pub id: String,
    pub title: String,
    pub verify_command: Option<String>,
}

/// What came of verifying one of all stories.
#[derive(Debug, Clone, PartialEq, Eq)]
pub struct StoryVerifyAllItem {
    pub id: String,
    pub title: String,
    pub command: Option<String>,
    pub result: String,
    pub stdout: String,
    pub stderr: String,
}

/// The command that is run for a story: one with more than whitespace in it.
pub open spec fn runnable(command: Option<Seq<char>>) -> Option<Seq<char>> {
    match command {
        Some(text) => if trim(text).len() > 0 {
            Some(text)
        } else {
            None
        },
        None => None,
    }
}

impl StoryToVerify {
    /// The command that is run for the story.
    pub open spec fn run(self) -> Option<Seq<char>> {
        runnable(self.verify_command.deep_view())
    }

    fn command(&self) -> (r: Option<String>)
        ensures
            r.deep_view() == self.run(),
    {
        match &self.verify_command {
            Some(text) => if trim_text(text.as_str()).as_str().is_empty() {
                None
            } else {
                Some(text.clone())
            },
            None => None,
        }
    }
}

impl StoryVerifyAllItem {
    /// Whether the item is that of the story: one without a command to run is skipped, and
    /// any other passes or fails.
    pub open spec fn reports(self, story: StoryToVerify) -> bool {
        &&& self.id@ == story.id@
        &&& self.title@ == story.title@
        &&& self.command.deep_view() == story.run()
        &&& if story.run() is None {
            &&& self.result@ == "skipped"@
            &&& self.stdout@ == Seq::<char>::empty()
            &&& self.stderr@ == Seq::<char>::empty()
        } else {
            self.result@ == verdict(true) || self.result@ == verdict(false)
        }
    }

    /// Whether the item tells what came of running the command.
    pub open spec fn tells(self, output: CommandOutput) -> bool {
        &&& self.result@ == verdict(output.success)
        &&& self.stdout@ == lossy_text(output.stdout@)
        &&& self.stderr@ == lossy_text(output.stderr@)
    }
}

/// The verification of all stories, in order.
pub struct StoryVerification {
    stories: Vec<StoryToVerify>,
    items: Vec<StoryVerifyAllItem>,
}

/// What came of verifying all stories.
#[derive(Debug)]
pub struct StoryVerifyAllResult {
    pub items: Vec<StoryVerifyAllItem>,
}

impl StoryVerification {
    /// The stories to verify.
    pub closed spec fn stories(self) -> Seq<StoryToVerify> {
        self.stories@
    }

    /// What came of the stories so far.
    pub closed spec fn items(self) -> Seq<StoryVerifyAllItem> {
        self.items@
    }

    /// Whether each item is that of the story in its place.
    pub open spec fn well_formed(self) -> bool {
        &&& self.items().len() <= self.stories().len()
        &&& forall|i: int|
            0 <= i < self.items().len() ==> (#[trigger] self.items()[i]).reports(self.stories()[i])
    }

    /// Whether every story has its item.
    pub open spec fn is_done(self) -> bool {
        self.items().len() == self.stories().len()
    }

    /// The story whose turn it is.
    pub open spec fn current(self) -> StoryToVerify {
        self.stories()[self.items().len() as int]
    }

    /// Whether the story whose turn it is has a command to run.
    pub open spec fn awaits_output(self) -> bool {
        self.items().len() < self.stories().len() && self.current().run() is Some
    }

    /// The verification of `stories`, with none of them verified yet.
    pub fn new(stories: Vec<StoryToVerify>) -> (r: Self)
        ensures
            r.well_formed(),
            r.stories() == stories@,
            r.items() == Seq::<StoryVerifyAllItem>::empty(),
    {
        StoryVerification { stories, items: Vec::new() }
    }

    /// Skips the stories without a command up to the next one that has one, and gives that
    /// command; there is none when every story has its item.
    pub fn next_command(&mut self) -> (r: Option<String>)
        requires
            old(self).well_formed(),
        ensures
            final(self).well_formed(),
            final(self).stories() == old(self).stories(),
            old(self).items().len() <= final(self).items().len(),
            final(self).items().take(old(self).items().len() as int) == old(self).items(),
            forall|i: int|
                old(self).items().len() <= i < final(self).items().len() ==> (
                #[trigger] final(self).stories()[i]).run() is None,
            match r {
                Some(command) => final(self).awaits_output() && final(self).current().run() == Some(
                    command@,
                ),
                None => final(self).is_done(),
            },
    {
        let ghost start = self.items().len();
        let ghost before = self.items();
        let ghost all = self.stories();
        assert(before.take(start as int) =~= before);
        while self.items.len() < self.stories.len()
            invariant
                all == old(self).stories(),
                before == old(self).items(),
                start == before.len(),
                self.well_formed(),
                self.stories() == all,
                start <= self.items().len(),
                self.items().take(start as int) == before,
                forall|i: int|
                    start <= i < self.items().len() ==> (#[trigger] all[i]).run() is None,
            decreases self.stories().len() - self.items().len(),
        {
            let k: usize = self.items.len();
            let story = &self.stories[k];
            match story.command() {
                Some(command) => {
                    return Some(command);
                },
                None => {
                    let item = StoryVerifyAllItem {
                        id: story.id.clone(),
                        title: story.title.clone(),
                        command: None,
                        result: "skipped".to_owned(),
                        stdout: String::new(),
                        stderr: String::new(),
                    };
                    assert(item.reports(self.stories()[k as int]));
                    let ghost so_far = self.items();
                    self.items.push(item);
                    assert(self.items() =~= so_far.push(item));
                    assert(self.items().take(start as int) =~= so_far.take(start as int));
                },
            }
        }
        None
    }

    /// Notes what came of the command of the story whose turn it is. Gives the statement that
    /// keeps it.
    pub fn finish(&mut self, output: &CommandOutput) -> (r: SqlStatement)
        requires
            old(self).well_formed(),
            old(self).awaits_output(),
        ensures
            final(self).well_formed(),
            final(self).stories() == old(self).stories(),
            final(self).items().len() == old(self).items().len() + 1,
            final(self).items().drop_last() == old(self).items(),
            final(self).items().last().tells(*output),
            final(self).items().last().result@ == verdict(output.success),
            final(self).items().last().stdout@ == lossy_text(output.stdout@),
            final(self).items().last().stderr@ == lossy_text(output.stderr@),
            valid_utf8(output.stdout@) ==> final(self).items().last().stdout@ == decode_utf8(
                output.stdout@,
            ),
            valid_utf8(output.stderr@) ==> final(self).items().last().stderr@ == decode_utf8(
                output.stderr@,
            ),
            r.deep_view() == story_result(old(self).current().id@, output.success),
    {
        let ghost so_far = self.items();
        let k: usize = self.items.len();
        let story = &self.stories[k];
        let item = StoryVerifyAllItem {
            id: story.id.clone(),
            title: story.title.clone(),
            command: story.command(),
            result: verdict_text(output.success).to_owned(),
            stdout: from_utf8_lossy(output.stdout.as_slice()),
            stderr: from_utf8_lossy(output.stderr.as_slice()),
        };
        assert(item.reports(self.stories()[k as int]));
        let statement = result_of(RECORD_STORY_RESULT, story.id.as_str(), output.success);
        self.items.push(item);
        assert(self.items() =~= so_far.push(item));
        assert(self.items().drop_last() =~= so_far);
        statement
    }

    /// What came of all stories.
    pub fn into_result(self) -> (r: StoryVerifyAllResult)
        requires
            self.well_formed(),
            self.is_done(),
        ensures
            r.items@ == self.items(),
            r.reports(self.stories()),
    {
        StoryVerifyAllResult { items: self.items }
    }
}

/// What holds of the items that have this result.
pub open spec fn came_to(result: Seq<char>) -> spec_fn(StoryVerifyAllItem) -> bool {
    |item: StoryVerifyAllItem| item.result@ == result
}

/// How many of `items` have this result.
pub open spec fn count_of(items: Seq<StoryVerifyAllItem>, result: Seq<char>) -> nat {
    items.filter(came_to(result)).len()
}

impl StoryVerifyAllResult {
    /// Whether the result has one item for each story, in order.
    pub open spec fn reports(self, stories: Seq<StoryToVerify>) -> bool {
        &&& self.items@.len() == stories.len()
        &&& forall|i: int|
            0 <= i < stories.len() ==> (#[trigger] self.items@[i]).reports(stories[i])
    }

    fn count(&self, result: &str) -> (r: usize)
        ensures
            r == count_of(self.items@, result@),
    {
        let ghost has = came_to(result@);
        let mut n: usize = 0;
        let mut i: usize = 0;
        while i < self.items.len()
            invariant
                i <= self.items.len(),
                n <= i,
                has == came_to(result@),
                n == self.items@.take(i as int).filter(has).len(),
            decreases self.items.len() - i,
        {
            proof {
                assert(self.items@.take(i + 1) =~= self.items@.take(i as int).push(
                    self.items@[i as int],
                ));
                self.items@.take(i as int).lemma_filter_push(self.items@[i as int], has);
            }
            if same_text(self.items[i].result.as_str(), result) {
                n = n + 1;
            }
            i = i + 1;
        }
        assert(self.items@.take(i as int) =~= self.items@);
        n
    }

    /// How many stories passed.
    pub fn passed(&self) -> (r: usize)
        ensures
            r == count_of(self.items@, "pass"@),
    {
        self.count("pass")
    }

    /// How many stories failed.
    pub fn failed(&self) -> (r: usize)
        ensures
            r == count_of(self.items@, "fail"@),
    {
        self.count("fail")
    }

    /// How many stories were skipped.
    pub fn skipped(&self) -> (r: usize)
        ensures
            r == count_of(self.items@, "skipped"@),
    {
        self.count("skipped")
    }
}

proof fn lemma_results_partition(items: Seq<StoryVerifyAllItem>)
    requires
        forall|i: int|
            0 <= i < items.len() ==> {
                ||| (#[trigger] items[i]).result@ == "pass"@
                ||| items[i].result@ == "fail"@
                ||| items[i].result@ == "skipped"@
            },
    ensures
        count_of(items, "pass"@) + count_of(items, "fail"@) + count_of(items, "skipped"@)
            == items.len(),
    decreases items.len(),
{
    let pass = came_to("pass"@);
    let fail = came_to("fail"@);
    let skip = came_to("skipped"@);
    if items.len() > 0 {
        let rest = items.drop_last();
        assert forall|i: int| 0 <= i < rest.len() implies {
            ||| (#[trigger] rest[i]).result@ == "pass"@
            ||| rest[i].result@ == "fail"@
            ||| rest[i].result@ == "skipped"@
        } by {
            assert(rest[i] == items[i]);
        }
        lemma_results_partition(rest);
        assert(items =~= rest.push(items.last()));
        rest.lemma_filter_push(items.last(), pass);
        rest.lemma_filter_push(items.last(), fail);
        rest.lemma_filter_push(items.last(), skip);
        reveal_strlit("pass");
        reveal_strlit("fail");
        reveal_strlit("skipped");
        assert("pass"@[0] != "fail"@[0]);
        assert("pass"@[0] != "skipped"@[0]);
        assert("fail"@[0] != "skipped"@[0]);
        let last = items.last();
        assert(last == items[items.len() - 1]);
    } else {
        assert(items.filter(pass).len() == 0);
        assert(items.filter(fail).len() == 0);
        assert(items.filter(skip).len() == 0);
    }
}

/// Of all stories each one passes, fails or is skipped, and none is lost.
pub proof fn law_every_story_is_counted_once(
    result: StoryVerifyAllResult,
    stories: Seq<StoryToVerify>,
)
    requires
        result.reports(stories),
    ensures
        count_of(result.items@, "pass"@) + count_of(result.items@, "fail"@) + count_of(
            result.items@,
            "skipped"@,
        ) == stories.len(),
{
    let items = result.items@;
    assert forall|i: int| 0 <= i < items.len() implies {
        ||| (#[trigger] items[i]).result@ == "pass"@
        ||| items[i].result@ == "fail"@
        ||| items[i].result@ == "skipped"@
    } by {
        assert(items[i].reports(stories[i]));
    }
    lemma_results_partition(items);
}

} // verus!
