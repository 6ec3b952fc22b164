//! What the operations that read and list give back, said over what the other laws speak of.
use vstd::prelude::*;

use crate::audit::{audit_tools, broken, AuditFinding, AuditedTool};
use crate::backlog::{
    backlog_entries, backlog_items, backlog_rows, import_backlog, BacklogImport,
    BacklogMarkdownItem,
};
use crate::decision::{
    decision_files, is_decision_file, is_decision_file_name, is_decision_name,
    markdown_section_first_value, section_value, text_le,
};
use crate::error::{HarnessInfraError, Result};
use crate::matrix::{
    evidence_from_fields, field_at, import_matrix, markdown_table_fields, matrix_stories,
    table_fields, StoryImport,
};
use crate::migrate::{
    dry_run_line, dry_run_summary, dry_run_text, dry_run_total, migration_files, migrations,
    of_version, pending, pending_migrations, Migration,
};
use crate::number::parsed_number;
use crate::proposal::{
    can_shorten, counted, has_short_title, repeated, repeated_values, short_title, title_of,
};
use crate::query::{
    collect_rows, find_row, query_table, says_no_row, shown_rows, sql_value_to_string, QueryTable,
    SqlCell,
};
use crate::script::{cannot_be_wrapped, runs_alone};
use crate::statement::SqlStatement;
use crate::text::{join, trim};
use crate::tool::{
    check_tools, found_by, http_endpoint, is_exec_probed, query_tools, registered_tool, tool_places,
    Place, StoredTool, ToolCheckResult, ToolEntry, ToolToCheck,
};
use crate::tool_args::{
    args_text, escape_json, escaped, json_object_value, member_value, parse_stored_tool_args,
    parsed_args, tool_args_json, ToolArgSpec,
};
use crate::tool_laws::{is_url_tail, law_url_with_port};

verus! {

/// The documents are read for what they hold.
pub proof fn law_documents_are_read(
    content: &str,
    stories: Vec<StoryImport>,
    items: Vec<BacklogMarkdownItem>,
    stored: Vec<BacklogImport>,
    heading: &str,
    value: String,
)
    requires
        call_ensures(import_matrix, (content,), stories),
        call_ensures(backlog_items, (content,), items),
        call_ensures(import_backlog, (content,), stored),
        call_ensures(markdown_section_first_value, (content, heading), value),
    ensures
        stories.deep_view() == matrix_stories(content@),
        items.deep_view() == backlog_entries(content@),
        stored.deep_view() == backlog_rows(content@),
        value@ == section_value(content@, heading@),
{
}

/// A row of a table is read cell by cell.
pub proof fn law_rows_are_read(
    line: &str,
    cells: Vec<String>,
    fields: &[String],
    index: usize,
    field: Option<String>,
    evidence: Option<String>,
)
    requires
        call_ensures(markdown_table_fields, (line,), cells),
        call_ensures(field_at, (fields, Some(index)), field),
        call_ensures(evidence_from_fields, (fields, index), evidence),
    ensures
        cells.deep_view() == table_fields(line@),
        index < fields@.len() && trim(fields@[index as int]@).len() > 0 ==> field.deep_view()
            == Some(trim(fields@[index as int]@)),
        index >= fields@.len() || trim(fields@[index as int]@).len() == 0 ==> field is None,
        index <= fields@.len() ==> {
            let text = trim(join(fields.deep_view().skip(index as int), seq![' ', '|', ' ']));
            &&& text.len() > 0 ==> evidence.deep_view() == Some(text)
            &&& text.len() == 0 ==> evidence is None
        },
        index > fields@.len() ==> evidence is None,
{
    reveal_strlit(" | ");
    assert(" | "@ =~= seq![' ', '|', ' ']);
    assert(fields.deep_view().len() == fields@.len());
    if index < fields@.len() {
        assert(fields.deep_view()[index as int] == fields@[index as int]@);
    }
    assert(field.deep_view() is None <==> field is None);
    assert(evidence.deep_view() is None <==> evidence is None);
}

/// The decision records among some names are those that are named as such, all of them and in
/// order.
pub proof fn law_decision_files_are_listed(
    names: &[String],
    r: Vec<String>,
    name: &str,
    is_one: bool,
)
    requires
        call_ensures(decision_files, (names,), r),
        call_ensures(is_decision_file_name, (name,), is_one),
    ensures
        forall|i: int, j: int|
            0 <= i < j < r@.len() ==> text_le((#[trigger] r@[i])@, (#[trigger] r@[j])@),
        r.deep_view().to_multiset() == names.deep_view().filter(
            |name: Seq<char>| is_decision_file(name),
        ).to_multiset(),
        is_one == is_decision_name(name@),
{
    assert forall|i: int, j: int| 0 <= i < j < r@.len() implies text_le(
        (#[trigger] r@[i])@,
        (#[trigger] r@[j])@,
    ) by {
        assert(r.deep_view()[i] == r@[i]@);
        assert(r.deep_view()[j] == r@[j]@);
    }
}

/// The scripts among some names are listed by version, those of one version in the order of the
/// names, and those beyond a version are pending.
pub proof fn law_scripts_are_listed(
    names: &[String],
    listed: Vec<Migration>,
    scripts: Vec<Migration>,
    current: i64,
    later: Vec<Migration>,
    version: int,
)
    requires
        call_ensures(migration_files, (names,), listed),
        call_ensures(pending_migrations, (scripts, current), later),
    ensures
        forall|i: int, j: int|
            0 <= i < j < listed@.len() ==> (#[trigger] listed@[i]).version <= (
            #[trigger] listed@[j]).version,
        of_version(listed.deep_view(), version) == of_version(
            migrations(names.deep_view()),
            version,
        ),
        later.deep_view() == pending(scripts.deep_view(), current as int),
{
    let all = listed.deep_view();
    assert forall|i: int, j: int| 0 <= i < j < listed@.len() implies (#[trigger] listed@[i]).version
        <= (#[trigger] listed@[j]).version by {
        assert(all[i] == listed@[i].deep_view());
        assert(all[j] == listed@[j].deep_view());
    }
}

/// A dry run tells of a script by its version and its text, and of all of them by their versions.
pub proof fn law_dry_run_is_told(
    version: i64,
    sql: &str,
    line: String,
    scripts: &[Migration],
    current: i64,
    total: String,
)
    requires
        call_ensures(dry_run_line, (version, sql), line),
        call_ensures(dry_run_summary, (scripts, current), total),
    ensures
        line@ == dry_run_text(version as int, sql@),
        total@ == dry_run_total(scripts.deep_view(), current as int),
{
}

/// What recurs is counted, and has a title of its first words.
pub proof fn law_what_recurs_is_counted(
    values: &[String],
    groups: Vec<(String, usize)>,
    value: &str,
    title: String,
    has_title: bool,
)
    requires
        call_ensures(can_shorten, (value,), has_title),
        call_ensures(repeated_values, (values,), groups),
        call_ensures(short_title, (value,), title),
    ensures
        counted(groups@) == repeated(values.deep_view()),
        has_title == has_short_title(value@),
        title@ == title_of(value@),
{
}

/// A query's result has the headers that it was given, and each cell as it is shown.
pub proof fn law_tables_are_shown(
    headers: Vec<String>,
    rows: &[Vec<SqlCell>],
    table: QueryTable,
    cell: &SqlCell,
    text: String,
)
    requires
        call_ensures(query_table, (headers, rows), table),
        call_ensures(sql_value_to_string, (cell,), text),
    ensures
        table.headers == headers,
        table.rows.deep_view() == shown_rows(rows@),
        text@ == crate::query::shown(*cell),
{
}

/// The rows that came back are given back in their order. An error is the first that there was.
pub proof fn law_rows_or_the_first_error<T>(
    rows: Vec<std::result::Result<T, rusqlite::Error>>,
    r: Result<Vec<T>>,
)
    requires
        call_ensures(collect_rows::<T>, (rows,), r),
    ensures
        r matches Ok(values) ==> {
            &&& values@.len() == rows@.len()
            &&& forall|i: int|
                0 <= i < rows@.len() ==> #[trigger] rows@[i] == Ok::<T, rusqlite::Error>(values@[i])
        },
        r matches Err(error) ==> exists|i: int|
            {
                &&& 0 <= i < rows@.len()
                &&& forall|j: int| 0 <= j < i ==> (#[trigger] rows@[j]) is Ok
                &&& (#[trigger] rows@[i]) is Err
                &&& error == HarnessInfraError::Sqlite(rows@[i]->Err_0)
            },
{
    if let Err(error) = r {
        let i = choose|i: int|
            {
                &&& 0 <= i < rows@.len()
                &&& crate::query::all_ok(rows@.take(i))
                &&& (#[trigger] rows@[i]) is Err
                &&& error == HarnessInfraError::Sqlite(rows@[i]->Err_0)
            };
        assert forall|j: int| 0 <= j < i implies (#[trigger] rows@[j]) is Ok by {
            assert(rows@.take(i)[j] is Ok);
        }
        assert(rows@[i] is Err);
    }
    if let Ok(values) = r {
        assert forall|i: int| 0 <= i < rows@.len() implies #[trigger] rows@[i] == Ok::<
            T,
            rusqlite::Error,
        >(values@[i]) by {
            assert(rows@[i] is Ok);
        }
    }
}

/// A row that is there is found, one that is not is none, and any other error stays one.
pub proof fn law_row_is_found<T>(
    row: std::result::Result<T, rusqlite::Error>,
    r: Result<Option<T>>,
)
    requires
        call_ensures(find_row::<T>, (row,), r),
    ensures
        row matches Ok(value) ==> r == Ok::<Option<T>, HarnessInfraError>(Some(value)),
        row matches Err(error) ==> if says_no_row(error) {
            r == Ok::<Option<T>, HarnessInfraError>(None)
        } else {
            r == Err::<Option<T>, HarnessInfraError>(HarnessInfraError::Sqlite(error))
        },
{
}

/// The tools that are asked for are those that serve, compiled ones before stored ones, and an entry
/// is that of its row.
pub proof fn law_tools_are_asked_for(
    compiled: Vec<ToolEntry>,
    stored: Vec<ToolEntry>,
    responsibility: Option<String>,
    capability: Option<String>,
    r: Vec<ToolEntry>,
    row: StoredTool,
    entry: ToolEntry,
    kind: &str,
    probed: bool,
)
    requires
        call_ensures(query_tools, (compiled, stored, responsibility, capability), r),
        call_ensures(registered_tool, (row,), entry),
        call_ensures(is_exec_probed, (kind,), probed),
    ensures
        r@ == (compiled@ + stored@).filter(
            |tool: ToolEntry| tool.serves(responsibility.deep_view(), capability.deep_view()),
        ),
        entry.registers(row),
        probed <==> kind@ == "cli"@ || kind@ == "binary"@,
{
}

/// A check of tools looks for each of them in its own places, and reports on it in its turn.
pub proof fn law_each_tool_is_checked<F: Fn(&Place) -> bool>(
    tools: Vec<ToolToCheck>,
    home: Option<&str>,
    look: F,
    r: Vec<(ToolCheckResult, SqlStatement)>,
    i: int,
)
    requires
        call_ensures(check_tools::<F>, (tools, home, look), r),
        0 <= i < tools@.len(),
    ensures
        r@.len() == tools@.len(),
        exists|places: Seq<Place>, found: bool|
            {
                &&& places.map_values(|place: Place| place.deep_view()) == tool_places(
                    tools@[i].kind@,
                    tools@[i].command@,
                    tools@[i].scan_target.deep_view(),
                    home.deep_view(),
                )
                &&& #[trigger] found_by(places, look, found)
                &&& tools@[i].is_checked(found, r@[i])
            },
{
    assert(tools@[i].is_checked_by(home.deep_view(), look, r@[i]));
}

/// An audit of tools looks for the commands, and finds those that are broken, in their order.
pub proof fn law_broken_tools_are_found<F: Fn(&Place) -> bool>(
    tools: Vec<AuditedTool>,
    look: F,
    r: Vec<AuditFinding>,
)
    requires
        call_ensures(audit_tools::<F>, (tools, look), r),
    ensures
        exists|entries: Seq<(AuditedTool, bool)>|
            {
                &&& entries.len() == tools@.len()
                &&& forall|i: int| 0 <= i < tools@.len() ==> (#[trigger] entries[i]).0 == tools@[i]
                &&& forall|i: int|
                    0 <= i < tools@.len() ==> tools@[i].is_looked_for(
                        look,
                        (#[trigger] entries[i]).1,
                    )
                &&& r.deep_view() == #[trigger] broken(entries)
            },
{
    let entries = choose|entries: Seq<(AuditedTool, bool)>| #[trigger]
        crate::audit::are_looked_for(tools@, look, entries) && r.deep_view() == broken(entries);
    assert(crate::audit::are_looked_for(tools@, look, entries));
}

/// The arguments of a tool are written and read as texts.
pub proof fn law_arguments_are_written_and_read(
    value: &str,
    quoted: String,
    args: &[ToolArgSpec],
    text: Option<String>,
    raw: &str,
    key: &str,
    member: Option<String>,
    stored: Option<&str>,
    read: Vec<ToolArgSpec>,
)
    requires
        call_ensures(escape_json, (value,), quoted),
        call_ensures(tool_args_json, (args,), text),
        call_ensures(json_object_value, (raw, key), member),
        call_ensures(parse_stored_tool_args, (stored,), read),
    ensures
        quoted@ == escaped(value@),
        text.deep_view() == args_text(args.deep_view()),
        member.deep_view() == member_value(raw@, key@),
        read.deep_view() == parsed_args(stored.deep_view()),
{
}

/// A URL with a port gives its host and that port, or the port of its scheme where it is none.
pub proof fn law_endpoint_with_a_port(
    target: &str,
    host: Seq<char>,
    port: Seq<char>,
    tail: Seq<char>,
    r: Option<(String, u16)>,
)
    requires
        call_ensures(http_endpoint, (target,), r),
        !host.contains('/'),
        !port.contains('/'),
        !port.contains(':'),
        is_url_tail(tail),
    ensures
        target@ == "http://"@ + (host + seq![':'] + port) + tail ==> {
            r matches Some((name, number)) && name@ == host && number == match parsed_number(
                port,
                65535,
            ) {
                Some(given) => given as int,
                None => 80,
            }
        },
        target@ == "https://"@ + (host + seq![':'] + port) + tail ==> {
            r matches Some((name, number)) && name@ == host && number == match parsed_number(
                port,
                65535,
            ) {
                Some(given) => given as int,
                None => 443,
            }
        },
{
    law_url_with_port(host, port, tail);
}

/// A script has no transaction around it exactly where it must run alone.
pub proof fn law_scripts_are_wrapped(sql: &str, r: bool)
    requires
        call_ensures(cannot_be_wrapped, (sql,), r),
    ensures
        r == runs_alone(sql@),
{
}

} // verus!
