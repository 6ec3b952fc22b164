//! Running a script as a whole or not at all.
use vstd::prelude::*;

use crate::text::{
    chars_of, find, lemma_find_from, lemma_find_skip, position_from, same_text, starts_with,
};

verus! {

/// Opens a transaction.
pub const BEGIN: &'static str = "BEGIN;";

/// Closes a transaction and keeps its changes.
pub const COMMIT: &'static str = "COMMIT;";

/// Closes a transaction and takes its changes back.
pub const ROLLBACK: &'static str = "ROLLBACK;";

/// The whitespace of SQL. A byte order mark counts as such.
pub open spec fn is_sql_space(c: char) -> bool {
    c == ' ' || c == '\t' || c == '\n' || c == '\u{c}' || c == '\r' || c == '\u{feff}'
}

/// The characters of names and keywords in SQL.
pub open spec fn is_sql_word_char(c: char) -> bool {
    ||| 'a' <= c <= 'z'
    ||| 'A' <= c <= 'Z'
    ||| '0' <= c <= '9'
    ||| c == '_'
    ||| c == '$'
    ||| c >= '\u{80}'
}

/// The length of the name or keyword that `s` starts with.
pub open spec fn sql_word_len(s: Seq<char>) -> nat
    decreases s.len(),
{
    if s.len() > 0 && is_sql_word_char(s[0]) {
        1 + sql_word_len(s.skip(1))
    } else {
        0
    }
}

/// What follows the first `p` in `s`; nothing where there is none.
pub open spec fn after(s: Seq<char>, p: Seq<char>) -> Seq<char> {
    match find(s, p) {
        Some(i) => s.skip(i + p.len()),
        None => Seq::empty(),
    }
}

/// `c`, in lower case if it is an ASCII letter.
pub open spec fn lowered(c: char) -> char {
    if 'A' <= c <= 'Z' {
        (c as int + 32) as char
    } else {
        c
    }
}

/// `s`, with its ASCII letters in lower case.
pub open spec fn in_lower_case(s: Seq<char>) -> Seq<char> {
    s.map_values(|c: char| lowered(c))
}

/// Whether a statement that starts with this keyword, in lower case, cannot stand in a transaction
/// around it: it opens one, closes one, or is refused in one.
pub open spec fn stands_alone(keyword: Seq<char>) -> bool {
    keyword == "begin"@ || keyword == "commit"@ || keyword == "end"@ || keyword == "rollback"@
        || keyword == "vacuum"@
}

/// Where a script is, between two of its tokens. The body of a trigger holds statements of its
/// own, and ends with `END` behind one of them.
#[derive(Debug, Clone, Copy, PartialEq, Eq, Structural)]
pub enum SqlPlace {
    /// Where a statement may start.
    Start,
    /// Within a statement.
    Plain,
    /// Behind the `CREATE` that starts a statement, and what may stand before `TRIGGER`.
    Create,
    /// Within a trigger.
    Trigger,
    /// Behind a semicolon within a trigger.
    TriggerStart,
    /// Behind the `END` of a trigger.
    TriggerEnd,
}

impl SqlPlace {
    /// Behind a semicolon.
    pub open spec fn after_semicolon(self) -> SqlPlace {
        match self {
            SqlPlace::Trigger => SqlPlace::TriggerStart,
            SqlPlace::TriggerStart => SqlPlace::TriggerStart,
            _ => SqlPlace::Start,
        }
    }

    /// Behind a word, given in lower case.
    pub open spec fn after_word(self, word: Seq<char>) -> SqlPlace {
        match self {
            SqlPlace::Start => if word == "create"@ {
                SqlPlace::Create
            } else {
                SqlPlace::Plain
            },
            SqlPlace::Create => if word == "temp"@ || word == "temporary"@ {
                SqlPlace::Create
            } else if word == "trigger"@ {
                SqlPlace::Trigger
            } else {
                SqlPlace::Plain
            },
            SqlPlace::TriggerStart => if word == "end"@ {
                SqlPlace::TriggerEnd
            } else {
                SqlPlace::Trigger
            },
            _ => self.after_other(),
        }
    }

    /// Behind any other token.
    pub open spec fn after_other(self) -> SqlPlace {
        match self {
            SqlPlace::Start => SqlPlace::Plain,
            SqlPlace::Plain => SqlPlace::Plain,
            SqlPlace::Create => SqlPlace::Plain,
            _ => SqlPlace::Trigger,
        }
    }

    fn behind_semicolon(self) -> (r: SqlPlace)
        ensures
            r == self.after_semicolon(),
    {
        match self {
            SqlPlace::Trigger => SqlPlace::TriggerStart,
            SqlPlace::TriggerStart => SqlPlace::TriggerStart,
            _ => SqlPlace::Start,
        }
    }

    fn behind_word(self, word: &str) -> (r: SqlPlace)
        ensures
            r == self.after_word(word@),
    {
        match self {
            SqlPlace::Start => if same_text(word, "create") {
                SqlPlace::Create
            } else {
                SqlPlace::Plain
            },
            SqlPlace::Create => if same_text(word, "temp") || same_text(word, "temporary") {
                SqlPlace::Create
            } else if same_text(word, "trigger") {
                SqlPlace::Trigger
            } else {
                SqlPlace::Plain
            },
            SqlPlace::TriggerStart => if same_text(word, "end") {
                SqlPlace::TriggerEnd
            } else {
                SqlPlace::Trigger
            },
            _ => self.behind_other(),
        }
    }

    fn behind_other(self) -> (r: SqlPlace)
        ensures
            r == self.after_other(),
    {
        match self {
            SqlPlace::Start => SqlPlace::Plain,
            SqlPlace::Plain => SqlPlace::Plain,
            SqlPlace::Create => SqlPlace::Plain,
            _ => SqlPlace::Trigger,
        }
    }
}

/// What ends a quoted text that starts with `c`, if one does.
pub open spec fn closing_quote(c: char) -> Option<Seq<char>> {
    if c == '\'' || c == '"' || c == '`' {
        Some(seq![c])
    } else if c == '[' {
        Some(seq![']'])
    } else {
        None
    }
}

/// The name or keyword that `s` starts with, in lower case.
pub open spec fn first_sql_word(s: Seq<char>) -> Seq<char> {
    in_lower_case(s.take(sql_word_len(s) as int))
}

/// How the first token of `s`, which is not empty and stands at `place`, is passed over: what
/// follows it, and where that is. Whitespace and comments are no part of a statement.
pub open spec fn pass(s: Seq<char>, place: SqlPlace) -> (Seq<char>, SqlPlace) {
    if is_sql_space(s[0]) {
        (s.skip(1), place)
    } else if s[0] == ';' {
        (s.skip(1), place.after_semicolon())
    } else if starts_with(s, "--"@) {
        (after(s.skip(2), "\n"@), place)
    } else if starts_with(s, "/*"@) {
        (after(s.skip(2), "*/"@), place)
    } else if closing_quote(s[0]) is Some {
        (after(s.skip(1), closing_quote(s[0])->0), place.after_other())
    } else if is_sql_word_char(s[0]) {
        (s.skip(sql_word_len(s) as int), place.after_word(first_sql_word(s)))
    } else {
        (s.skip(1), place.after_other())
    }
}

/// Whether the first token of `s`, which is not empty, is a keyword.
pub open spec fn starts_word(s: Seq<char>) -> bool {
    !is_sql_space(s[0]) && is_sql_word_char(s[0])
}

/// A token is passed over by going on, and never beyond the end.
pub proof fn lemma_pass(s: Seq<char>, place: SqlPlace)
    requires
        s.len() > 0,
    ensures
        pass(s, place).0.len() < s.len(),
    decreases s.len(),
{
    reveal_strlit("--");
    reveal_strlit("/*");
    lemma_sql_word_len(s);
    lemma_find_from(s.skip(2), "\n"@, 0);
    lemma_find_from(s.skip(2), "*/"@, 0);
    if closing_quote(s[0]) is Some {
        lemma_find_from(s.skip(1), closing_quote(s[0])->0, 0);
    }
}

/// A name or keyword is no longer than the text that it starts.
pub proof fn lemma_sql_word_len(s: Seq<char>)
    ensures
        sql_word_len(s) <= s.len(),
        s.len() > 0 && is_sql_word_char(s[0]) ==> sql_word_len(s) > 0,
    decreases s.len(),
{
    if s.len() > 0 && is_sql_word_char(s[0]) {
        lemma_sql_word_len(s.skip(1));
    }
}

/// Whether one of the statements in `s`, which stands at `place`, cannot stand in a transaction
/// around it. `BEGIN` and `END` within a trigger are no statements, but parts of one.
pub open spec fn holds_lone_statement(s: Seq<char>, place: SqlPlace) -> bool
    decreases s.len(),
{
    if s.len() == 0 {
        false
    } else if place is Start && starts_word(s) && stands_alone(first_sql_word(s)) {
        true
    } else {
        proof {
            lemma_pass(s, place);
        }
        let (rest, next) = pass(s, place);
        holds_lone_statement(rest, next)
    }
}

/// Whether no transaction can be put around a script: one of its statements opens or closes one,
/// or is refused in one.
pub open spec fn runs_alone(sql: Seq<char>) -> bool {
    holds_lone_statement(sql, SqlPlace::Start)
}

/// How far a script has come.
#[derive(Debug, Clone, Copy, PartialEq, Eq, Structural)]
pub enum ScriptPhase {
    Opening,
    Running,
    Closing,
    RollingBack,
    /// The script was run, and its changes are kept.
    Applied,
    /// The script, or a statement around it, failed.
    Failed,
}

/// A script that is being run.
#[derive(Debug)]
pub struct ScriptRun {
    sql: String,
    phase: ScriptPhase,
}

/// What a script that is being run holds.
pub struct ScriptState {
    pub sql: Seq<char>,
    pub phase: ScriptPhase,
}

impl View for ScriptRun {
    type V = ScriptState;

    closed spec fn view(&self) -> ScriptState {
        ScriptState { sql: self.sql@, phase: self.phase }
    }
}

impl ScriptState {
    /// The start of a script: in a transaction around it, unless it must run alone.
    pub open spec fn start(sql: Seq<char>) -> ScriptState {
        ScriptState {
            sql,
            phase: if runs_alone(sql) {
                ScriptPhase::Running
            } else {
                ScriptPhase::Opening
            },
        }
    }

    /// The batch to run next; none when the script is through.
    pub open spec fn batch(self) -> Option<Seq<char>> {
        match self.phase {
            ScriptPhase::Opening => Some(BEGIN@),
            ScriptPhase::Running => Some(self.sql),
            ScriptPhase::Closing => Some(COMMIT@),
            ScriptPhase::RollingBack => Some(ROLLBACK@),
            ScriptPhase::Applied => None,
            ScriptPhase::Failed => None,
        }
    }

    /// Where the script is once the batch has succeeded or failed.
    pub open spec fn after(self, success: bool) -> ScriptState {
        let phase = match self.phase {
            ScriptPhase::Opening => if success {
                ScriptPhase::Running
            } else {
                ScriptPhase::Failed
            },
            ScriptPhase::Running => if !success {
                ScriptPhase::RollingBack
            } else if runs_alone(self.sql) {
                ScriptPhase::Applied
            } else {
                ScriptPhase::Closing
            },
            ScriptPhase::Closing => if success {
                ScriptPhase::Applied
            } else {
                ScriptPhase::RollingBack
            },
            ScriptPhase::RollingBack => ScriptPhase::Failed,
            ScriptPhase::Applied => ScriptPhase::Applied,
            ScriptPhase::Failed => ScriptPhase::Failed,
        };
        ScriptState { phase, ..self }
    }
}

fn sql_space(c: char) -> (r: bool)
    ensures
        r == is_sql_space(c),
{
    c == ' ' || c == '\t' || c == '\n' || c == '\u{c}' || c == '\r' || c == '\u{feff}'
}

fn sql_word_char(c: char) -> (r: bool)
    ensures
        r == is_sql_word_char(c),
{
    ('a' <= c && c <= 'z') || ('A' <= c && c <= 'Z') || ('0' <= c && c <= '9') || c == '_' || c
        == '$' || c >= '\u{80}'
}

/// The index at which the name or keyword that starts at `from` ends.
fn word_end(chars: &Vec<char>, from: usize) -> (r: usize)
    requires
        from <= chars.len(),
    ensures
        from <= r <= chars.len(),
        r == from + sql_word_len(chars@.skip(from as int)),
{
    let mut i: usize = from;
    while i < chars.len() && sql_word_char(chars[i])
        invariant
            from <= i <= chars.len(),
            sql_word_len(chars@.skip(from as int)) == (i - from) + sql_word_len(
                chars@.skip(i as int),
            ),
        decreases chars.len() - i,
    {
        assert(chars@.skip(i as int)[0] == chars@[i as int]);
        assert(chars@.skip(i as int).skip(1) =~= chars@.skip(i + 1));
        i = i + 1;
    }
    if i < chars.len() {
        assert(chars@.skip(i as int)[0] == chars@[i as int]);
    }
    i
}

/// The index behind the first `p` from `from` on; the end where there is none.
fn index_after(chars: &Vec<char>, p: &str, from: usize) -> (r: usize)
    requires
        from <= chars.len(),
    ensures
        from <= r <= chars.len(),
        chars@.skip(r as int) == after(chars@.skip(from as int), p@),
{
    let pattern = chars_of(p);
    proof {
        lemma_find_skip(chars@, p@, from as int, 0);
        lemma_find_from(chars@, p@, from as int);
    }
    match position_from(chars, &pattern, from) {
        Some(k) => {
            assert(chars@.skip(from as int).skip(k - from + p@.len()) =~= chars@.skip(
                k + p@.len(),
            ));
            k + pattern.len()
        },
        None => {
            assert(chars@.skip(chars.len() as int) =~= Seq::empty());
            chars.len()
        },
    }
}

/// What stands between the two indices, with its ASCII letters in lower case.
fn lower_text(chars: &Vec<char>, from: usize, to: usize) -> (r: String)
    requires
        from <= to <= chars.len(),
    ensures
        r@ == in_lower_case(chars@.subrange(from as int, to as int)),
{
    let ghost lower = in_lower_case(chars@.subrange(from as int, to as int));
    let mut text = String::new();
    let mut i: usize = from;
    while i < to
        invariant
            from <= i <= to <= chars.len(),
            lower == in_lower_case(chars@.subrange(from as int, to as int)),
            text@ == lower.take(i - from),
        decreases to - i,
    {
        let c = chars[i];
        if 'A' <= c && c <= 'Z' {
            let small: u8 = (c as u8) + 32;
            text.push(small as char);
        } else {
            text.push(c);
        }
        assert(text@ =~= lower.take(i + 1 - from));
        i = i + 1;
    }
    assert(lower.take(i - from) =~= lower);
    text
}

fn is_lone_keyword(word: &str) -> (r: bool)
    ensures
        r == stands_alone(word@),
{
    same_text(word, "begin") || same_text(word, "commit") || same_text(word, "end") || same_text(
        word,
        "rollback",
    ) || same_text(word, "vacuum")
}

/// Whether the two characters stand in `chars` at `i`.
fn pair_at(chars: &Vec<char>, i: usize, first: char, second: char) -> (r: bool)
    requires
        i < chars.len(),
    ensures
        r == starts_with(chars@.skip(i as int), seq![first, second]),
{
    let ghost s = chars@.skip(i as int);
    let ghost p = seq![first, second];
    let r = i + 1 < chars.len() && chars[i] == first && chars[i + 1] == second;
    proof {
        if r {
            assert(s.subrange(0, 2) =~= p);
        } else if starts_with(s, p) {
            assert(s.subrange(0, 2)[0] == first);
            assert(s.subrange(0, 2)[1] == second);
        }
    }
    r
}

/// Whether no transaction can be put around a script.
pub fn cannot_be_wrapped(sql: &str) -> (r: bool)
    ensures
        r == runs_alone(sql@),
{
    let chars = chars_of(sql);
    let mut i: usize = 0;
    let mut place = SqlPlace::Start;
    assert(chars@.skip(0) =~= chars@);
    proof {
        reveal_strlit("--");
        reveal_strlit("/*");
        reveal_strlit("\'");
        reveal_strlit("\"");
        reveal_strlit("`");
        reveal_strlit("]");
    }
    while i < chars.len()
        invariant
            i <= chars.len(),
            chars@ == sql@,
            runs_alone(sql@) == holds_lone_statement(chars@.skip(i as int), place),
            "--"@ =~= seq!['-', '-'],
            "/*"@ =~= seq!['/', '*'],
            "\'"@ =~= seq!['\''],
            "\""@ =~= seq!['"'],
            "`"@ =~= seq!['`'],
            "]"@ =~= seq![']'],
        decreases chars.len() - i,
    {
        let ghost s = chars@.skip(i as int);
        let c = chars[i];
        assert(s[0] == c);
        assert(s.skip(1) =~= chars@.skip(i + 1));
        proof {
            lemma_pass(s, place);
            lemma_sql_word_len(s);
        }
        if sql_space(c) {
            i = i + 1;
        } else if c == ';' {
            place = place.behind_semicolon();
            i = i + 1;
        } else if pair_at(&chars, i, '-', '-') {
            assert(s.skip(2) =~= chars@.skip(i + 2));
            i = index_after(&chars, "\n", i + 2);
        } else if pair_at(&chars, i, '/', '*') {
            assert(s.skip(2) =~= chars@.skip(i + 2));
            i = index_after(&chars, "*/", i + 2);
        } else if c == '\'' {
            place = place.behind_other();
            i = index_after(&chars, "\'", i + 1);
        } else if c == '"' {
            place = place.behind_other();
            i = index_after(&chars, "\"", i + 1);
        } else if c == '`' {
            place = place.behind_other();
            i = index_after(&chars, "`", i + 1);
        } else if c == '[' {
            place = place.behind_other();
            i = index_after(&chars, "]", i + 1);
        } else if sql_word_char(c) {
            let end = word_end(&chars, i);
            assert(s.take(end - i) =~= chars@.subrange(i as int, end as int));
            assert(s.skip(end - i) =~= chars@.skip(end as int));
            let word = lower_text(&chars, i, end);
            if let SqlPlace::Start = place {
                if is_lone_keyword(word.as_str()) {
                    return true;
                }
            }
            place = place.behind_word(word.as_str());
            i = end;
        } else {
            place = place.behind_other();
            i = i + 1;
        }
    }
    false
}

impl ScriptRun {
    /// The start of a script.
    pub fn new(sql: String) -> (r: Self)
        ensures
            r@ == ScriptState::start(sql@),
    {
        let phase = if cannot_be_wrapped(sql.as_str()) {
            ScriptPhase::Running
        } else {
            ScriptPhase::Opening
        };
        ScriptRun { sql, phase }
    }

    /// The batch to run next; none when the script is through.
    pub fn batch(&self) -> (r: Option<&str>)
        ensures
            r.deep_view() == self@.batch(),
    {
        match self.phase {
            ScriptPhase::Opening => Some(BEGIN),
            ScriptPhase::Running => Some(self.sql.as_str()),
            ScriptPhase::Closing => Some(COMMIT),
            ScriptPhase::RollingBack => Some(ROLLBACK),
            ScriptPhase::Applied => None,
            ScriptPhase::Failed => None,
        }
    }

    /// Takes note of whether the batch succeeded.
    pub fn advance(&mut self, success: bool)
        ensures
            final(self)@ == old(self)@.after(success),
    {
        self.phase = match self.phase {
            ScriptPhase::Opening => if success {
                ScriptPhase::Running
            } else {
                ScriptPhase::Failed
            },
            ScriptPhase::Running => if !success {
                ScriptPhase::RollingBack
            } else if cannot_be_wrapped(self.sql.as_str()) {
                ScriptPhase::Applied
            } else {
                ScriptPhase::Closing
            },
            ScriptPhase::Closing => if success {
                ScriptPhase::Applied
            } else {
                ScriptPhase::RollingBack
            },
            ScriptPhase::RollingBack => ScriptPhase::Failed,
            ScriptPhase::Applied => ScriptPhase::Applied,
            ScriptPhase::Failed => ScriptPhase::Failed,
        };
    }
}

/// A database: what it holds now, and what it held when the open transaction began.
pub struct Transacted<D> {
    pub now: D,
    pub saved: Option<D>,
}

/// Whether a batch of a script may lead from the database `before` to `after`. A script in a
/// transaction around it has no statement that closes one: it leaves that transaction open, unless
/// it fails so badly that the transaction is taken back at once. Of one that runs alone nothing
/// is known.
pub open spec fn may_leave<D>(
    state: ScriptState,
    success: bool,
    before: Transacted<D>,
    after: Transacted<D>,
) -> bool {
    let taken_back = match before.saved {
        Some(saved) => Transacted { now: saved, saved: None },
        None => before,
    };
    match state.phase {
        ScriptPhase::Opening => after == if success {
            Transacted { saved: Some(before.now), ..before }
        } else {
            before
        },
        ScriptPhase::Running => {
            ||| runs_alone(state.sql)
            ||| after.saved == before.saved
            ||| !success && after == taken_back
        },
        ScriptPhase::Closing => after == if success {
            Transacted { saved: None, ..before }
        } else {
            before
        },
        ScriptPhase::RollingBack => after == taken_back,
        ScriptPhase::Applied => after == before,
        ScriptPhase::Failed => after == before,
    }
}

/// Whether the state at `k`, and the database there, follow from those before.
pub open spec fn is_script_step<D>(
    states: Seq<ScriptState>,
    stores: Seq<Transacted<D>>,
    outcomes: Seq<bool>,
    k: int,
) -> bool {
    &&& states[k] == states[k - 1].after(outcomes[k - 1])
    &&& may_leave(states[k - 1], outcomes[k - 1], stores[k - 1], stores[k])
}

/// Whether `states`, with the database in `stores` at each of them, are those of a run of `sql`
/// whose batches succeeded as `outcomes` say.
pub open spec fn is_script_run<D>(
    sql: Seq<char>,
    states: Seq<ScriptState>,
    stores: Seq<Transacted<D>>,
    outcomes: Seq<bool>,
) -> bool {
    &&& states.len() > 0
    &&& stores.len() == states.len()
    &&& outcomes.len() == states.len()
    &&& states[0] == ScriptState::start(sql)
    &&& forall|k: int| 0 < k < states.len() ==> #[trigger] is_script_step(states, stores, outcomes, k)
}

/// What holds of the database while a script is being run in a transaction around it.
pub open spec fn is_guarded<D>(phase: ScriptPhase, start: D, store: Transacted<D>) -> bool {
    match phase {
        ScriptPhase::Opening => store.now == start && store.saved is None,
        ScriptPhase::Running => store.saved == Some(start),
        ScriptPhase::Closing => store.saved == Some(start),
        ScriptPhase::RollingBack => store.saved == Some(start) || (store.saved is None && store.now
            == start),
        ScriptPhase::Applied => store.saved is None,
        ScriptPhase::Failed => store.now == start && store.saved is None,
    }
}

proof fn lemma_guarded<D>(
    sql: Seq<char>,
    states: Seq<ScriptState>,
    stores: Seq<Transacted<D>>,
    outcomes: Seq<bool>,
    k: int,
)
    requires
        is_script_run(sql, states, stores, outcomes),
        !runs_alone(sql),
        stores[0].saved is None,
        0 <= k < states.len(),
    ensures
        states[k].sql == sql,
        is_guarded(states[k].phase, stores[0].now, stores[k]),
    decreases k,
{
    if k > 0 {
        lemma_guarded(sql, states, stores, outcomes, k - 1);
        assert(is_script_step(states, stores, outcomes, k));
    }
}

/// A script that fails leaves the database as it was, with no transaction open: none of its
/// statements has an effect. This is so of every script that has a transaction around it.
pub proof fn law_a_failed_script_changes_nothing<D>(
    sql: Seq<char>,
    states: Seq<ScriptState>,
    stores: Seq<Transacted<D>>,
    outcomes: Seq<bool>,
)
    requires
        is_script_run(sql, states, stores, outcomes),
        !runs_alone(sql),
        stores[0].saved is None,
        states.last().phase is Failed,
    ensures
        stores.last() == stores[0],
{
    lemma_guarded(sql, states, stores, outcomes, states.len() - 1);
}

proof fn lemma_taken_back<D>(
    sql: Seq<char>,
    states: Seq<ScriptState>,
    stores: Seq<Transacted<D>>,
    outcomes: Seq<bool>,
    k: int,
)
    requires
        is_script_run(sql, states, stores, outcomes),
        runs_alone(sql),
        stores[0].saved is None,
        forall|i: int|
            0 <= i < states.len() && (#[trigger] states[i]).phase is RollingBack
                ==> stores[i].saved == Some(stores[0].now) || stores[i] == stores[0],
        0 <= k < states.len(),
    ensures
        states[k].sql == sql,
        !(states[k].phase is Opening) && !(states[k].phase is Closing),
        states[k].phase is Failed ==> stores[k] == stores[0],
    decreases k,
{
    if k > 0 {
        lemma_taken_back(sql, states, stores, outcomes, k - 1);
        assert(is_script_step(states, stores, outcomes, k));
    }
}

/// A script with a transaction of its own that fails leaves the database as it was too, where it
/// failed in a transaction that it opened before it changed anything.
pub proof fn law_a_failed_transaction_of_its_own_is_taken_back<D>(
    sql: Seq<char>,
    states: Seq<ScriptState>,
    stores: Seq<Transacted<D>>,
    outcomes: Seq<bool>,
)
    requires
        is_script_run(sql, states, stores, outcomes),
        runs_alone(sql),
        stores[0].saved is None,
        forall|i: int|
            0 <= i < states.len() && (#[trigger] states[i]).phase is RollingBack
                ==> stores[i].saved == Some(stores[0].now) || stores[i] == stores[0],
        states.last().phase is Failed,
    ensures
        stores.last() == stores[0],
{
    lemma_taken_back(sql, states, stores, outcomes, states.len() - 1);
}

/// A script that is applied leaves no transaction open, where there is one around it.
pub proof fn law_an_applied_script_is_kept<D>(
    sql: Seq<char>,
    states: Seq<ScriptState>,
    stores: Seq<Transacted<D>>,
    outcomes: Seq<bool>,
)
    requires
        is_script_run(sql, states, stores, outcomes),
        !runs_alone(sql),
        stores[0].saved is None,
        states.last().phase is Applied,
    ensures
        stores.last().saved is None,
{
    lemma_guarded(sql, states, stores, outcomes, states.len() - 1);
}

/// A script counts as applied only if it succeeded, and so did the statements around it.
pub proof fn law_only_success_applies(state: ScriptState, success: bool)
    requires
        !(state.phase is Applied),
        state.after(success).phase is Applied,
    ensures
        success,
        state.phase is Closing || (state.phase is Running && runs_alone(state.sql)),
{
}

} // verus!
