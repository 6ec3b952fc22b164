//! Where each kind of tool is looked for, and what is said of it.
use vstd::prelude::*;

use crate::audit::{broken, is_broken, AuditFinding, AuditedTool};
use crate::number::parsed_number;
use crate::statement::{SqlData, SqlStatement};
use crate::text::{before, contains, last_position, occurs_at, starts_with, trim, words};
use crate::text_laws::{law_before, law_last_position};
use crate::token::token;
use crate::tool::{
    expanded, found_by, tool_detail, tool_places, tool_status, url_endpoint, Location, Place,
    StoredTool, ToolCheckResult, ToolEntry, ToolRegisterInput, ToolToCheck,
};
use crate::tool_args::parsed_args;

verus! {

/// The names of the kinds of tools differ from one another.
proof fn lemma_kinds_differ()
    ensures
        "cli"@ != "binary"@,
        "cli"@ != "mcp"@,
        "cli"@ != "skill"@,
        "cli"@ != "http"@,
        "binary"@ != "mcp"@,
        "binary"@ != "skill"@,
        "binary"@ != "http"@,
        "mcp"@ != "skill"@,
        "mcp"@ != "http"@,
        "skill"@ != "http"@,
{
    reveal_strlit("cli");
    reveal_strlit("binary");
    reveal_strlit("mcp");
    reveal_strlit("skill");
    reveal_strlit("http");
    assert("cli"@[0] == 'c');
    assert("binary"@[0] == 'b');
    assert("mcp"@[0] == 'm');
    assert("skill"@[0] == 's');
    assert("http"@[0] == 'h');
}

proof fn lemma_no_url(target: Seq<char>)
    requires
        target.len() > 0,
        target[0] != 'h',
    ensures
        url_endpoint(target) is None,
{
    reveal_strlit("https://");
    reveal_strlit("http://");
    if starts_with(target, "https://"@) {
        assert(target.subrange(0, 8)[0] == 'h');
    }
    if starts_with(target, "http://"@) {
        assert(target.subrange(0, 7)[0] == 'h');
    }
}

/// A scan target below `~/` is looked for below the home directory, for every kind of tool that
/// has a scan target, and nowhere else.
pub proof fn law_home_stands_for_the_tilde(
    command: Seq<char>,
    target: Seq<char>,
    rest: Seq<char>,
    home: Seq<char>,
)
    requires
        trim(target) == seq!['~', '/'] + rest,
    ensures
        tool_places("mcp"@, command, Some(target), Some(home)) == seq![
            Location::Path(home + seq!['/'] + rest),
        ],
        tool_places("skill"@, command, Some(target), Some(home)) == seq![
            Location::Path(home + seq!['/'] + rest),
        ],
        tool_places("http"@, command, Some(target), Some(home)) == seq![
            Location::Path(home + seq!['/'] + rest),
        ],
{
    lemma_kinds_differ();
    lemma_no_url(trim(target));
    reveal_strlit("~/");
    reveal_strlit("/");
    assert("/"@ =~= seq!['/']);
    assert(trim(target).subrange(0, 2) =~= "~/"@);
    assert(trim(target).skip(2) =~= rest);
}

/// Any other scan target, and any at all where no home directory is known, is looked for as it is
/// written but for the whitespace around it. For a tool that is reached by HTTP this is said of
/// the targets that are no URL.
pub proof fn law_other_targets_are_taken_as_written(
    command: Seq<char>,
    target: Seq<char>,
    home: Option<Seq<char>>,
)
    requires
        trim(target).len() > 0,
        home is None || trim(target).len() < 2 || trim(target)[0] != '~' || trim(target)[1] != '/',
    ensures
        tool_places("mcp"@, command, Some(target), home) == seq![Location::Path(trim(target))],
        tool_places("skill"@, command, Some(target), home) == seq![Location::Path(trim(target))],
        !starts_with(trim(target), "http://"@) && !starts_with(trim(target), "https://"@)
            ==> tool_places("http"@, command, Some(target), home) == seq![
            Location::Path(trim(target)),
        ],
{
    lemma_kinds_differ();
    reveal_strlit("~/");
    if starts_with(trim(target), "~/"@) {
        assert(trim(target).subrange(0, 2)[0] == '~');
        assert(trim(target).subrange(0, 2)[1] == '/');
    }
}

/// A tool with a scan target is not looked for where that is missing or blank.
pub proof fn law_no_target_is_no_place(
    command: Seq<char>,
    target: Option<Seq<char>>,
    home: Option<Seq<char>>,
)
    requires
        target is None || trim(target->0).len() == 0,
    ensures
        tool_places("mcp"@, command, target, home).len() == 0,
        tool_places("skill"@, command, target, home).len() == 0,
        tool_places("http"@, command, target, home).len() == 0,
{
    lemma_kinds_differ();
}

/// Whether `tail` is what may follow the authority of a URL: nothing, or a path.
pub open spec fn is_url_tail(tail: Seq<char>) -> bool {
    tail.len() == 0 || tail[0] == '/'
}

proof fn lemma_authority(authority: Seq<char>, tail: Seq<char>)
    requires
        !authority.contains('/'),
        is_url_tail(tail),
    ensures
        before(authority + tail, "/"@) == authority,
{
    reveal_strlit("/");
    let s = authority + tail;
    law_before(s, "/"@);
    if tail.len() > 0 {
        assert(s.subrange(authority.len() as int, authority.len() as int + 1) =~= "/"@);
        assert(occurs_at(s, "/"@, authority.len() as int));
    } else {
        assert(s =~= authority);
    }
    if contains(s, "/"@) {
        let k = before(s, "/"@).len() as int;
        assert(s.subrange(k, k + 1)[0] == '/');
        if k < authority.len() {
            assert(authority[k] == '/');
        }
        assert(k == authority.len());
        assert(s.take(k) =~= authority);
    }
}

proof fn lemma_url(authority: Seq<char>, tail: Seq<char>)
    requires
        !authority.contains('/'),
        is_url_tail(tail),
    ensures
        url_endpoint("http://"@ + authority + tail) == crate::tool::endpoint(authority, 80),
        url_endpoint("https://"@ + authority + tail) == crate::tool::endpoint(authority, 443),
        url_endpoint("http://"@ + authority + tail) is Some ==> authority.len() > 0,
{
    lemma_authority(authority, tail);
    reveal_strlit("https://");
    reveal_strlit("http://");
    let plain = "http://"@ + authority + tail;
    let secure = "https://"@ + authority + tail;
    assert(plain.subrange(0, 7) =~= "http://"@);
    assert(plain.skip(7) =~= authority + tail);
    assert(secure.subrange(0, 8) =~= "https://"@);
    assert(secure.skip(8) =~= authority + tail);
    if starts_with(plain, "https://"@) {
        assert(plain.subrange(0, 8)[4] == 's');
        assert(plain[4] == ':');
    }
}

/// The host of a URL is looked for at the port that its scheme has by default: 80, or 443 where it
/// is secure.
pub proof fn law_url_without_port(host: Seq<char>, tail: Seq<char>)
    requires
        host.len() > 0,
        !host.contains('/'),
        !host.contains(':'),
        is_url_tail(tail),
    ensures
        url_endpoint("http://"@ + host + tail) == Some((host, 80int)),
        url_endpoint("https://"@ + host + tail) == Some((host, 443int)),
{
    lemma_url(host, tail);
    law_last_position(host, ':');
    if last_position(host, ':') is Some {
        assert(host[last_position(host, ':')->0] == ':');
    }
}

/// A port behind the last colon of the authority takes the place of the default, where it is a
/// number that a port can have.
pub proof fn law_url_with_port(host: Seq<char>, port: Seq<char>, tail: Seq<char>)
    requires
        !host.contains('/'),
        !port.contains('/'),
        !port.contains(':'),
        is_url_tail(tail),
    ensures
        parsed_number(port, 65535) is Some ==> {
            let number = parsed_number(port, 65535)->0 as int;
            &&& url_endpoint("http://"@ + (host + seq![':'] + port) + tail) == Some((host, number))
            &&& url_endpoint("https://"@ + (host + seq![':'] + port) + tail) == Some(
                (host, number),
            )
        },
        parsed_number(port, 65535) is None ==> {
            &&& url_endpoint("http://"@ + (host + seq![':'] + port) + tail) == Some((host, 80int))
            &&& url_endpoint("https://"@ + (host + seq![':'] + port) + tail) == Some(
                (host, 443int),
            )
        },
{
    let authority = host + seq![':'] + port;
    let at = host.len() as int;
    assert forall|i: int| 0 <= i < authority.len() implies authority[i] != '/' by {
        if i < at {
            assert(host[i] == authority[i]);
        } else if i > at {
            assert(port[i - at - 1] == authority[i]);
        }
    }
    lemma_url(authority, tail);
    law_last_position(authority, ':');
    assert(authority[at] == ':');
    let k = last_position(authority, ':')->0;
    if k > at {
        assert(port[k - at - 1] == ':');
    }
    assert(k == at);
    assert(authority.take(at) =~= host);
    assert(authority.skip(at + 1) =~= port);
}

/// A URL without a host, and a text that is no URL, name no endpoint.
pub proof fn law_no_url_names_no_endpoint(target: Seq<char>, tail: Seq<char>)
    requires
        is_url_tail(tail),
    ensures
        url_endpoint("http://"@ + tail) is None,
        url_endpoint("https://"@ + tail) is None,
        !starts_with(target, "http://"@) && !starts_with(target, "https://"@) ==> url_endpoint(
            target,
        ) is None,
{
    let none = Seq::<char>::empty();
    lemma_url(none, tail);
    assert("http://"@ + none + tail =~= "http://"@ + tail);
    assert("https://"@ + none + tail =~= "https://"@ + tail);
}

/// A tool that is reached by HTTP is looked for at the endpoint that its target names, and then at
/// its target as a path. Tools of other kinds are not looked for at endpoints.
pub proof fn law_endpoints_are_for_http(
    command: Seq<char>,
    target: Seq<char>,
    home: Option<Seq<char>>,
)
    requires
        url_endpoint(trim(target)) is Some,
    ensures
        ({
            let (host, port) = url_endpoint(trim(target))->0;
            tool_places("http"@, command, Some(target), home) == seq![
                Location::Endpoint(host, port),
                Location::Path(trim(target)),
            ]
        }),
        tool_places("mcp"@, command, Some(target), home) == seq![Location::Path(trim(target))],
        tool_places("skill"@, command, Some(target), home) == seq![Location::Path(trim(target))],
{
    lemma_kinds_differ();
    let t = trim(target);
    reveal_strlit("https://");
    reveal_strlit("http://");
    reveal_strlit("~/");
    assert(t[0] == 'h') by {
        if starts_with(t, "https://"@) {
            assert(t.subrange(0, 8)[0] == 'h');
        } else {
            assert(starts_with(t, "http://"@));
            assert(t.subrange(0, 7)[0] == 'h');
        }
    }
    if starts_with(t, "~/"@) {
        assert(t.subrange(0, 2)[0] == '~');
    }
    assert(expanded(t, home) == t);
}

proof fn lemma_holds(s: Seq<char>, c: char)
    ensures
        contains(s, seq![c]) <==> s.contains(c),
{
    if contains(s, seq![c]) {
        let i = choose|i: int| occurs_at(s, seq![c], i);
        assert(s.subrange(i, i + 1)[0] == c);
        assert(s[i] == c);
    }
    if s.contains(c) {
        let i = choose|i: int| 0 <= i < s.len() && s[i] == c;
        assert(s.subrange(i, i + 1) =~= seq![c]);
        assert(occurs_at(s, seq![c], i));
    }
}

/// A command is looked for by its first word: as a path where that has a separator in it, and else
/// among the commands. Its scan target does not matter.
pub proof fn law_commands_are_found_by_the_first_word(
    command: Seq<char>,
    target: Option<Seq<char>>,
    home: Option<Seq<char>>,
)
    requires
        words(command).len() > 0,
        words(command)[0].len() > 0,
    ensures
        ({
            let first = words(command)[0];
            let place = if first.contains('/') || first.contains('\\') {
                Location::Path(first)
            } else {
                Location::Command(first)
            };
            &&& tool_places("cli"@, command, target, home) == seq![place]
            &&& tool_places("binary"@, command, target, home) == seq![place]
        }),
{
    reveal_strlit("/");
    reveal_strlit("\\");
    assert("/"@ =~= seq!['/']);
    assert("\\"@ =~= seq!['\\']);
    lemma_holds(words(command)[0], '/');
    lemma_holds(words(command)[0], '\\');
}

/// A command without a word in it is looked for as it is.
pub proof fn law_blank_command_is_looked_for_as_it_is(
    command: Seq<char>,
    target: Option<Seq<char>>,
    home: Option<Seq<char>>,
)
    requires
        words(command).len() == 0,
        command.len() > 0,
        !command.contains('/'),
        !command.contains('\\'),
    ensures
        tool_places("cli"@, command, target, home) == seq![Location::Command(command)],
        tool_places("binary"@, command, target, home) == seq![Location::Command(command)],
{
    reveal_strlit("/");
    reveal_strlit("\\");
    assert("/"@ =~= seq!['/']);
    assert("\\"@ =~= seq!['\\']);
    lemma_holds(command, '/');
    lemma_holds(command, '\\');
}

/// An empty command is not looked for.
pub proof fn law_no_command_is_no_place(target: Option<Seq<char>>, home: Option<Seq<char>>)
    ensures
        tool_places("cli"@, Seq::empty(), target, home).len() == 0,
        tool_places("binary"@, Seq::empty(), target, home).len() == 0,
{
}

/// A tool of any other kind is not looked for, and nothing is known of it.
pub proof fn law_other_kinds_are_unknown(
    kind: Seq<char>,
    command: Seq<char>,
    target: Option<Seq<char>>,
    home: Option<Seq<char>>,
    found: bool,
)
    requires
        kind != "cli"@,
        kind != "binary"@,
        kind != "mcp"@,
        kind != "skill"@,
        kind != "http"@,
    ensures
        tool_places(kind, command, target, home).len() == 0,
        tool_status(kind, target, found) == "unknown"@,
        tool_detail(kind, command, target).len() == 0,
{
}

/// What is said of a tool, by its kind: it is present or missing where there was a place to look,
/// on account of its command or its target, and unknown where its target is missing or blank.
pub proof fn law_status_by_kind(command: Seq<char>, target: Option<Seq<char>>, found: bool)
    ensures
        tool_status("cli"@, target, true) == "present"@,
        tool_status("cli"@, target, false) == "missing"@,
        tool_detail("cli"@, command, target) == command,
        tool_status("binary"@, target, true) == "present"@,
        tool_status("binary"@, target, false) == "missing"@,
        tool_detail("binary"@, command, target) == command,
        target is Some && trim(target->0).len() > 0 ==> {
            &&& tool_status("mcp"@, target, true) == "present"@
            &&& tool_status("mcp"@, target, false) == "missing"@
            &&& tool_detail("mcp"@, command, target) == trim(target->0)
            &&& tool_status("skill"@, target, true) == "present"@
            &&& tool_status("skill"@, target, false) == "missing"@
            &&& tool_detail("skill"@, command, target) == trim(target->0)
            &&& tool_status("http"@, target, true) == "present"@
            &&& tool_status("http"@, target, false) == "missing"@
            &&& tool_detail("http"@, command, target) == trim(target->0)
        },
        target is None || trim(target->0).len() == 0 ==> {
            &&& tool_status("mcp"@, target, found) == "unknown"@
            &&& tool_detail("mcp"@, command, target)
                == "no scan target; agent confirms availability"@
            &&& tool_status("skill"@, target, found) == "unknown"@
            &&& tool_detail("skill"@, command, target)
                == "no scan target; agent confirms availability"@
            &&& tool_status("http"@, target, found) == "unknown"@
            &&& tool_detail("http"@, command, target) == "no scan target"@
        },
{
    lemma_kinds_differ();
}

/// A place is a path, a command or an endpoint, as it says.
pub proof fn law_places_are_what_they_say(text: String, port: u16)
    ensures
        Place::Path(text).deep_view() == Location::Path(text@),
        Place::Command(text).deep_view() == Location::Command(text@),
        (Place::Endpoint { host: text, port }).deep_view() == Location::Endpoint(text@, port as int),
{
}

/// A tool is found in one of its places exactly where a look into one of them finds it, if every
/// look into a place gives one answer.
pub proof fn law_found_in_some_place<F: Fn(&Place) -> bool>(
    places: Seq<Place>,
    look: F,
    there: spec_fn(Place) -> bool,
    found: bool,
)
    requires
        found_by(places, look, found),
        forall|place: Place, answer: bool| #[trigger]
            call_ensures(look, (&place,), answer) ==> answer == there(place),
    ensures
        found <==> exists|i: int| 0 <= i < places.len() && there(#[trigger] places[i]),
{
    if !found {
        assert forall|j: int| 0 <= j < places.len() implies !there(#[trigger] places[j]) by {
            assert(call_ensures(look, (&places[j],), false));
        }
    } else {
        let i = choose|i: int|
            0 <= i < places.len() && call_ensures(look, (&#[trigger] places[i],), true) && (
            forall|j: int| 0 <= j < i ==> call_ensures(look, (&#[trigger] places[j],), false));
        assert(there(places[i]));
    }
}

/// Only commands are looked for before they are registered, and none where that is not wanted.
pub proof fn law_only_commands_are_probed(input: ToolRegisterInput)
    ensures
        input.needs_command() <==> !input.force && (input.kind@ == "cli"@ || input.kind@
            == "binary"@),
{
}

/// A check reports on the tool that was checked, under its own name, kind and capability, and
/// keeps the status that it reports.
pub proof fn law_check_reports_on_its_tool(
    tool: ToolToCheck,
    found: bool,
    result: ToolCheckResult,
    statement: SqlStatement,
)
    requires
        tool.is_checked(found, (result, statement)),
    ensures
        result.name@ == tool.name@,
        result.kind@ == tool.kind@,
        result.capability == tool.capability,
        statement.deep_view().params == seq![
            SqlData::Text(result.status@),
            SqlData::Text(tool.name@),
        ],
        tool.kind@ == "cli"@ || tool.kind@ == "binary"@ ==> {
            &&& result.status@ == if found { "present"@ } else { "missing"@ }
            &&& result.detail@ == tool.command@
        },
        tool.kind@ == "mcp"@ || tool.kind@ == "skill"@ || tool.kind@ == "http"@ ==> {
            let target = tool.scan_target.deep_view();
            target is Some && trim(target->0).len() > 0 ==> {
                &&& result.status@ == if found { "present"@ } else { "missing"@ }
                &&& result.detail@ == trim(target->0)
            }
        },
{
    lemma_kinds_differ();
}

/// An entry of the registry has every field of the stored tool under its own name.
pub proof fn law_entry_is_the_stored_tool(entry: ToolEntry, row: StoredTool)
    requires
        entry.registers(row),
    ensures
        entry.provider@ == row.provider@,
        entry.name@ == row.name@,
        entry.command@ == row.command@,
        entry.description@ == row.description@,
        entry.args.deep_view() == parsed_args(row.args.deep_view()),
        entry.responsibility@ == row.responsibility@,
        entry.source@ == "registered"@,
        entry.since@ == row.since@,
        entry.kind@ == row.kind@,
        entry.capability == row.capability,
        entry.scan_target == row.scan_target,
        entry.status@ == row.status@,
        entry.checked_at == row.checked_at,
{
}

/// A tool serves a responsibility by the token of its own, and a capability by the token of its
/// own, which it must have. What is not asked for does not matter.
pub proof fn law_tools_serve_by_token(
    entry: ToolEntry,
    responsibility: Seq<char>,
    capability: Seq<char>,
)
    ensures
        entry.serves(None, None),
        entry.serves(Some(responsibility), None) <==> token(entry.responsibility@) == token(
            responsibility,
        ),
        entry.serves(None, Some(capability)) <==> entry.capability is Some && token(
            entry.capability->0@,
        ) == token(capability),
        entry.serves(Some(responsibility), Some(capability)) <==> entry.serves(
            Some(responsibility),
            None,
        ) && entry.serves(None, Some(capability)),
{
}

/// A command is broken exactly where it was not found just now; any other tool, exactly where its
/// last check found it missing.
pub proof fn law_broken_by_kind(tool: AuditedTool, found: bool)
    ensures
        tool.kind@ == "cli"@ || tool.kind@ == "binary"@ ==> (is_broken(tool, found) <==> !found),
        tool.kind@ != "cli"@ && tool.kind@ != "binary"@ ==> (is_broken(tool, found)
            <==> tool.status@ == "missing"@),
{
}

/// The broken tools are found in the order in which they are listed, by name and with their
/// command for a title.
pub proof fn law_broken_tools_are_listed(
    tools: Seq<(AuditedTool, bool)>,
    tool: AuditedTool,
    found: bool,
)
    ensures
        broken(Seq::empty()).len() == 0,
        is_broken(tool, found) ==> broken(tools.push((tool, found))) == broken(tools).push(
            (tool.name@, tool.command@),
        ),
        !is_broken(tool, found) ==> broken(tools.push((tool, found))) == broken(tools),
{
    let bad = |entry: (AuditedTool, bool)| is_broken(entry.0, entry.1);
    tools.lemma_filter_push((tool, found), bad);
    assert(broken(Seq::empty()).len() == 0) by {
        reveal(Seq::filter);
    }
    if is_broken(tool, found) {
        assert(broken(tools.push((tool, found))) =~= broken(tools).push(
            (tool.name@, tool.command@),
        ));
    }
}

/// The audit looks only for commands, and where a check would look for them.
pub proof fn law_audit_looks_for_commands(
    tool: AuditedTool,
    target: Option<Seq<char>>,
    home: Option<Seq<char>>,
)
    ensures
        tool.kind@ == "cli"@ || tool.kind@ == "binary"@ ==> tool.looked_in() == tool_places(
            tool.kind@,
            tool.command@,
            target,
            home,
        ),
        tool.kind@ != "cli"@ && tool.kind@ != "binary"@ ==> tool.looked_in().len() == 0,
{
}

/// A finding is read by its id, and then by its title.
pub proof fn law_finding_contents(finding: AuditFinding)
    ensures
        finding.deep_view().0 == finding.id@,
        finding.deep_view().1 == finding.title@,
{
}

} // verus!
