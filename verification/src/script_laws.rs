//! Which scripts have no transaction around them, and what is run of a script.
use vstd::prelude::*;

use crate::script::{
    after, closing_quote, holds_lone_statement, in_lower_case, is_sql_space, is_sql_word_char,
    lemma_pass, pass, runs_alone, sql_word_len, starts_word, ScriptPhase, ScriptState, SqlPlace,
};
use crate::text::{find, lemma_find_from, occurs_at, starts_with};

verus! {

/// The whitespace of SQL is space, tab, line feed, form feed and carriage return, and the byte
/// order mark.
pub proof fn law_sql_whitespace(c: char)
    ensures
        is_sql_space(c) <==> c == ' ' || c == '\t' || c == '\n' || c == '\u{c}' || c == '\r' || c
            == '\u{feff}',
{
}

/// Words of SQL are made of letters, digits, underscores, dollar signs and what is not ASCII.
pub proof fn law_sql_word_characters(c: char)
    ensures
        is_sql_word_char(c) <==> ('a' <= c <= 'z') || ('A' <= c <= 'Z') || ('0' <= c <= '9') || c
            == '_' || c == '$' || c >= '\u{80}',
{
}

/// The batches of a script are a statement that opens a transaction, the script as it is, and a
/// statement that closes the transaction, or takes it back.
pub proof fn law_batches(sql: Seq<char>)
    ensures
        (ScriptState { sql, phase: ScriptPhase::Opening }).batch() == Some("BEGIN;"@),
        (ScriptState { sql, phase: ScriptPhase::Running }).batch() == Some(sql),
        (ScriptState { sql, phase: ScriptPhase::Closing }).batch() == Some("COMMIT;"@),
        (ScriptState { sql, phase: ScriptPhase::RollingBack }).batch() == Some("ROLLBACK;"@),
        (ScriptState { sql, phase: ScriptPhase::Applied }).batch() is None,
        (ScriptState { sql, phase: ScriptPhase::Failed }).batch() is None,
{
}

/// A script has a transaction around it unless it must run alone, and is run whole either way.
pub proof fn law_script_starts_in_a_transaction(sql: Seq<char>)
    ensures
        ScriptState::start(sql).sql == sql,
        runs_alone(sql) ==> ScriptState::start(sql).batch() == Some(sql),
        !runs_alone(sql) ==> {
            &&& ScriptState::start(sql).batch() == Some("BEGIN;"@)
            &&& ScriptState::start(sql).after(true).batch() == Some(sql)
            &&& ScriptState::start(sql).after(true).after(true).batch() == Some("COMMIT;"@)
            &&& ScriptState::start(sql).after(true).after(true).after(true).phase
                == ScriptPhase::Applied
            &&& ScriptState::start(sql).after(false).phase == ScriptPhase::Failed
        },
        runs_alone(sql) ==> ScriptState::start(sql).after(true).phase == ScriptPhase::Applied,
{
}

/// A script that fails is taken back, and so is one whose transaction cannot be closed. It is never
/// tried again.
pub proof fn law_failures_are_taken_back(sql: Seq<char>, success: bool)
    ensures
        ({
            let running = ScriptState { sql, phase: ScriptPhase::Running };
            let closing = ScriptState { sql, phase: ScriptPhase::Closing };
            &&& running.after(false).batch() == Some("ROLLBACK;"@)
            &&& closing.after(false).batch() == Some("ROLLBACK;"@)
            &&& running.after(false).after(success).phase == ScriptPhase::Failed
            &&& closing.after(false).after(success).phase == ScriptPhase::Failed
        }),
        (ScriptState { sql, phase: ScriptPhase::Failed }).after(success).phase
            == ScriptPhase::Failed,
        (ScriptState { sql, phase: ScriptPhase::Applied }).after(success).phase
            == ScriptPhase::Applied,
{
}

proof fn lemma_after(a: Seq<char>, p: Seq<char>, rest: Seq<char>)
    requires
        p.len() > 0,
        forall|j: int| 0 <= j < a.len() ==> !occurs_at(a + p, p, j),
    ensures
        after(a + p + rest, p) == rest,
{
    let s = a + p + rest;
    let n = a.len() as int;
    lemma_find_from(s, p, 0);
    assert(s.subrange(n, n + p.len()) =~= p);
    assert(occurs_at(s, p, n));
    let k = find(s, p)->0;
    if k < n {
        assert((a + p).subrange(k, k + p.len()) =~= s.subrange(k, k + p.len()));
        assert(occurs_at(a + p, p, k));
    }
    assert(s.skip(n + p.len()) =~= rest);
}

/// An empty script has a transaction around it. Whitespace and semicolons between statements do
/// not matter.
pub proof fn law_space_between_statements(c: char, sql: Seq<char>)
    requires
        c == ';' || c == ' ' || c == '\t' || c == '\n' || c == '\u{c}' || c == '\r' || c
            == '\u{feff}',
    ensures
        !runs_alone(Seq::empty()),
        runs_alone(seq![c] + sql) == runs_alone(sql),
{
    let s = seq![c] + sql;
    assert(s[0] == c);
    assert(s.skip(1) =~= sql);
    lemma_pass(s, SqlPlace::Start);
}

/// A comment does not matter: one to the end of the line, or one between a slash with a star and a
/// star with a slash.
pub proof fn law_comments_between_statements(text: Seq<char>, sql: Seq<char>)
    ensures
        !text.contains('\n') ==> runs_alone(seq!['-', '-'] + text + seq!['\n'] + sql)
            == runs_alone(sql),
        (forall|j: int| 0 <= j < text.len() ==> !occurs_at(text + seq!['*', '/'], seq!['*', '/'], j))
            ==> runs_alone(seq!['/', '*'] + text + seq!['*', '/'] + sql) == runs_alone(sql),
{
    reveal_strlit("--");
    reveal_strlit("/*");
    reveal_strlit("\n");
    reveal_strlit("*/");
    assert("--"@ =~= seq!['-', '-']);
    assert("/*"@ =~= seq!['/', '*']);
    assert("\n"@ =~= seq!['\n']);
    assert("*/"@ =~= seq!['*', '/']);
    if !text.contains('\n') {
        let s = seq!['-', '-'] + text + seq!['\n'] + sql;
        assert(s[0] == '-');
        assert(s.subrange(0, 2) =~= "--"@);
        assert(s.skip(2) =~= text + seq!['\n'] + sql);
        assert forall|j: int| 0 <= j < text.len() implies !occurs_at(
            text + seq!['\n'],
            seq!['\n'],
            j,
        ) by {
            if occurs_at(text + seq!['\n'], seq!['\n'], j) {
                assert((text + seq!['\n']).subrange(j, j + 1)[0] == '\n');
                assert(text[j] == '\n');
            }
        }
        lemma_after(text, seq!['\n'], sql);
        lemma_pass(s, SqlPlace::Start);
    }
    if forall|j: int| 0 <= j < text.len() ==> !occurs_at(text + seq!['*', '/'], seq!['*', '/'], j) {
        let s = seq!['/', '*'] + text + seq!['*', '/'] + sql;
        assert(s[0] == '/');
        assert(s.subrange(0, 2) =~= "/*"@);
        assert(!starts_with(s, "--"@)) by {
            if starts_with(s, "--"@) {
                assert(s.subrange(0, 2)[0] == '-');
            }
        }
        assert(s.skip(2) =~= text + seq!['*', '/'] + sql);
        lemma_after(text, seq!['*', '/'], sql);
        lemma_pass(s, SqlPlace::Start);
    }
}

/// Whether `word` is a word of SQL, and `rest` does not go on with it.
pub open spec fn is_word_before(word: Seq<char>, rest: Seq<char>) -> bool {
    &&& word.len() > 0
    &&& forall|i: int| 0 <= i < word.len() ==> is_sql_word_char(#[trigger] word[i])
    &&& rest.len() > 0 ==> !is_sql_word_char(rest[0])
}

proof fn lemma_word(word: Seq<char>, rest: Seq<char>)
    requires
        forall|i: int| 0 <= i < word.len() ==> is_sql_word_char(#[trigger] word[i]),
        rest.len() > 0 ==> !is_sql_word_char(rest[0]),
    ensures
        sql_word_len(word + rest) == word.len(),
    decreases word.len(),
{
    let s = word + rest;
    if word.len() > 0 {
        let tail = word.skip(1);
        assert(s[0] == word[0]);
        assert(s.skip(1) =~= tail + rest);
        assert forall|i: int| 0 <= i < tail.len() implies is_sql_word_char(#[trigger] tail[i]) by {
            assert(tail[i] == word[i + 1]);
        }
        lemma_word(tail, rest);
    } else {
        assert(s =~= rest);
    }
}

/// Whether `word`, in any case of its letters, is one that no transaction can be put around.
pub open spec fn is_lone_word(word: Seq<char>) -> bool {
    let lower = in_lower_case(word);
    ||| lower == "begin"@
    ||| lower == "commit"@
    ||| lower == "end"@
    ||| lower == "rollback"@
    ||| lower == "vacuum"@
}

/// A script runs alone whose first statement starts with BEGIN, COMMIT, END, ROLLBACK or VACUUM, in
/// any case of the letters.
pub proof fn law_lone_statements_run_alone(word: Seq<char>, rest: Seq<char>)
    requires
        is_word_before(word, rest),
        word[0] != '\u{feff}',
        is_lone_word(word),
    ensures
        runs_alone(word + rest),
{
    let s = word + rest;
    lemma_word(word, rest);
    assert(s[0] == word[0]);
    assert(s.take(word.len() as int) =~= word);
    assert(is_sql_word_char(word[0]));
    assert(starts_word(s));
}

/// Whether `body` has neither semicolons nor quotes nor what may start a comment.
pub open spec fn is_plain_body(body: Seq<char>) -> bool {
    forall|i: int|
        0 <= i < body.len() ==> (#[trigger] body[i]) != ';' && body[i] != '\'' && body[i] != '"'
            && body[i] != '`' && body[i] != '[' && body[i] != '-' && body[i] != '/'
}

proof fn lemma_word_ends(s: Seq<char>, n: int)
    requires
        0 <= n < s.len(),
        !is_sql_word_char(s[n]),
    ensures
        sql_word_len(s) <= n,
    decreases s.len(),
{
    if n > 0 && is_sql_word_char(s[0]) {
        lemma_word_ends(s.skip(1), n - 1);
    }
}

proof fn lemma_plain_body(body: Seq<char>, rest: Seq<char>)
    requires
        is_plain_body(body),
    ensures
        holds_lone_statement(body + seq![';'] + rest, SqlPlace::Plain) == runs_alone(rest),
    decreases body.len(),
{
    reveal_strlit("--");
    reveal_strlit("/*");
    let s = body + seq![';'] + rest;
    let n = body.len() as int;
    lemma_pass(s, SqlPlace::Plain);
    assert(s[n] == ';');
    if n == 0 {
        assert(s[0] == ';');
        assert(s.skip(1) =~= rest);
    } else {
        assert(s[0] == body[0]);
        if starts_with(s, "--"@) {
            assert(s.subrange(0, 2)[0] == '-');
        }
        if starts_with(s, "/*"@) {
            assert(s.subrange(0, 2)[0] == '/');
        }
        lemma_word_ends(s, n);
        let k = if !is_sql_space(s[0]) && is_sql_word_char(s[0]) {
            sql_word_len(s) as int
        } else {
            1
        };
        crate::script::lemma_sql_word_len(s);
        let tail = body.skip(k);
        assert(s.skip(k) =~= tail + seq![';'] + rest);
        assert forall|i: int| 0 <= i < tail.len() implies (#[trigger] tail[i]) != ';' && tail[i]
            != '\'' && tail[i] != '"' && tail[i] != '`' && tail[i] != '[' && tail[i] != '-'
            && tail[i] != '/' by {
            assert(tail[i] == body[i + k]);
        }
        lemma_plain_body(tail, rest);
        assert(pass(s, SqlPlace::Plain) == (s.skip(k), SqlPlace::Plain));
    }
}

/// A statement that starts with any other word, and creates nothing, is passed over up to its
/// semicolon: words within it do not matter. This is said of statements without quotes and
/// comments.
pub proof fn law_other_statements_are_passed_over(
    word: Seq<char>,
    body: Seq<char>,
    rest: Seq<char>,
)
    requires
        is_word_before(word, body),
        word[0] != '\u{feff}',
        !is_lone_word(word),
        in_lower_case(word) != "create"@,
        is_plain_body(body),
    ensures
        runs_alone(word + body + seq![';'] + rest) == runs_alone(rest),
{
    reveal_strlit("--");
    reveal_strlit("/*");
    let behind = body + seq![';'] + rest;
    let s = word + behind;
    assert(word + body + seq![';'] + rest =~= s);
    if body.len() > 0 {
        assert(behind[0] == body[0]);
    }
    lemma_word(word, behind);
    assert(s[0] == word[0]);
    assert(is_sql_word_char(word[0]));
    assert(s.take(word.len() as int) =~= word);
    assert(s.skip(word.len() as int) =~= behind);
    if starts_with(s, "--"@) {
        assert(s.subrange(0, 2)[0] == '-');
    }
    if starts_with(s, "/*"@) {
        assert(s.subrange(0, 2)[0] == '/');
    }
    lemma_pass(s, SqlPlace::Start);
    lemma_plain_body(body, rest);
    assert(pass(s, SqlPlace::Start) == (behind, SqlPlace::Plain));
}

/// What is quoted is passed over up to the quote that ends it, and ends no statement.
pub proof fn law_quotes_are_passed_over(
    open: char,
    close: char,
    text: Seq<char>,
    rest: Seq<char>,
)
    requires
        (open == '\'' && close == '\'') || (open == '"' && close == '"') || (open == '`' && close
            == '`') || (open == '[' && close == ']'),
        !text.contains(close),
    ensures
        holds_lone_statement(seq![open] + text + seq![close] + rest, SqlPlace::Plain)
            == holds_lone_statement(rest, SqlPlace::Plain),
        holds_lone_statement(seq![open] + text + seq![close] + rest, SqlPlace::Trigger)
            == holds_lone_statement(rest, SqlPlace::Trigger),
{
    reveal_strlit("--");
    reveal_strlit("/*");
    let s = seq![open] + text + seq![close] + rest;
    assert(s[0] == open);
    assert(s.skip(1) =~= text + seq![close] + rest);
    assert forall|j: int| 0 <= j < text.len() implies !occurs_at(
        text + seq![close],
        seq![close],
        j,
    ) by {
        if occurs_at(text + seq![close], seq![close], j) {
            assert((text + seq![close]).subrange(j, j + 1)[0] == close);
            assert(text[j] == close);
        }
    }
    lemma_after(text, seq![close], rest);
    if starts_with(s, "--"@) {
        assert(s.subrange(0, 2)[0] == '-');
    }
    if starts_with(s, "/*"@) {
        assert(s.subrange(0, 2)[0] == '/');
    }
    lemma_pass(s, SqlPlace::Plain);
    lemma_pass(s, SqlPlace::Trigger);
    assert(closing_quote(open) == Some(seq![close]));
    assert(pass(s, SqlPlace::Plain) == (rest, SqlPlace::Plain));
    assert(pass(s, SqlPlace::Trigger) == (rest, SqlPlace::Trigger));
}

/// A trigger begins with CREATE TRIGGER, where TEMP or TEMPORARY may stand between the two. The
/// semicolons within it end no statement of the script, until one of them is followed by END and
/// the next semicolon.
pub proof fn law_triggers_end_with_end(word: Seq<char>)
    ensures
        SqlPlace::Start.after_word("create"@) == SqlPlace::Create,
        word != "create"@ ==> SqlPlace::Start.after_word(word) == SqlPlace::Plain,
        SqlPlace::Create.after_word("temp"@) == SqlPlace::Create,
        SqlPlace::Create.after_word("temporary"@) == SqlPlace::Create,
        SqlPlace::Create.after_word("trigger"@) == SqlPlace::Trigger,
        word != "temp"@ && word != "temporary"@ && word != "trigger"@
            ==> SqlPlace::Create.after_word(word) == SqlPlace::Plain,
        SqlPlace::Trigger.after_word(word) == SqlPlace::Trigger,
        SqlPlace::Trigger.after_semicolon() == SqlPlace::TriggerStart,
        SqlPlace::TriggerStart.after_semicolon() == SqlPlace::TriggerStart,
        SqlPlace::TriggerStart.after_word("end"@) == SqlPlace::TriggerEnd,
        word != "end"@ ==> SqlPlace::TriggerStart.after_word(word) == SqlPlace::Trigger,
        SqlPlace::TriggerEnd.after_semicolon() == SqlPlace::Start,
        SqlPlace::TriggerEnd.after_word(word) == SqlPlace::Trigger,
        SqlPlace::Plain.after_semicolon() == SqlPlace::Start,
        SqlPlace::Plain.after_word(word) == SqlPlace::Plain,
{
    reveal_strlit("temp");
    reveal_strlit("temporary");
    reveal_strlit("trigger");
    assert("temp"@.len() != "trigger"@.len());
    assert("temporary"@.len() != "trigger"@.len());
}

/// Lower case is that of the ASCII letters; other characters are as they are.
pub proof fn law_lower_case(word: Seq<char>, i: int)
    requires
        0 <= i < word.len(),
    ensures
        in_lower_case(word).len() == word.len(),
        'A' <= word[i] <= 'Z' ==> in_lower_case(word)[i] as int == word[i] as int - 'A' as int
            + 'a' as int,
        !('A' <= word[i] <= 'Z') ==> in_lower_case(word)[i] == word[i],
{
}

} // verus!
