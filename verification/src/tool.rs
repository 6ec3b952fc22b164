//! Tools: where to look for them, what a look says of them, and the registry.
use vstd::prelude::*;
use vstd::string::StringExecFns;

use crate::error::{HarnessInfraError, Result};
use crate::number::{parse_number, parsed_number};
use crate::query::{find_row, says_no_row};
use crate::statement::{
    optional_text_param, statement_on_text, text_data, text_param, text_statement, SqlData,
    SqlStatement, SqlText,
};
use crate::text::{
    before, contains, contains_text, last_position, same_text, split_at_last, starts_with,
    strip_prefix_text, text_before, trim, trim_text, words, words_of,
};
use crate::token::{normalize_token, token};
use crate::tool_args::{args_text, parse_stored_tool_args, parsed_args, tool_args_json, ToolArgSpec};

verus! {

/// A place in which a tool may be found.
#[derive(Debug, Clone, PartialEq, Eq)]
pub enum Place {
    /// A file or a directory. A relative path starts at the root of the repository.
    Path(String),
    /// A file of that name in one of the directories that hold commands.
    Command(String),
    /// A server that accepts connections.
    Endpoint { host: String, port: u16 },
}

/// Where a place is.
pub enum Location {
    Path(Seq<char>),
    Command(Seq<char>),
    Endpoint(Seq<char>, int),
}

impl DeepView for Place {
    type V = Location;

    open spec fn deep_view(&self) -> Location {
        match self {
            Place::Path(path) => Location::Path(path@),
            Place::Command(name) => Location::Command(name@),
            Place::Endpoint { host, port } => Location::Endpoint(host@, *port as int),
        }
    }
}

/// Whether a tool of this kind is a command that can be run.
pub open spec fn is_command_kind(kind: Seq<char>) -> bool {
    kind == "cli"@ || kind == "binary"@
}

/// Whether a tool of this kind is found by its scan target.
pub open spec fn is_scanned_kind(kind: Seq<char>) -> bool {
    kind == "mcp"@ || kind == "skill"@ || kind == "http"@
}

/// The word by which a command is looked for.
pub open spec fn first_word(command: Seq<char>) -> Seq<char> {
    if words(command).len() > 0 {
        words(command)[0]
    } else {
        command
    }
}

/// Where a command is looked for.
pub open spec fn command_places(command: Seq<char>) -> Seq<Location> {
    let first = first_word(command);
    if first.len() == 0 {
        Seq::empty()
    } else if contains(first, "/"@) || contains(first, "\\"@) {
        seq![Location::Path(first)]
    } else {
        seq![Location::Command(first)]
    }
}

/// A path in which a leading `~/` stands for the home directory, where that is known.
pub open spec fn expanded(target: Seq<char>, home: Option<Seq<char>>) -> Seq<char> {
    match home {
        Some(home) => if starts_with(target, "~/"@) {
            home + "/"@ + target.skip(2)
        } else {
            target
        },
        None => target,
    }
}

/// The host and the port in the authority of a URL.
pub open spec fn endpoint(authority: Seq<char>, default_port: int) -> Option<(Seq<char>, int)> {
    if authority.len() == 0 {
        None
    } else {
        match last_position(authority, ':') {
            Some(i) => Some(
                (
                    authority.take(i),
                    match parsed_number(authority.skip(i + 1), 65535) {
                        Some(port) => port as int,
                        None => default_port,
                    },
                ),
            ),
            None => Some((authority, default_port)),
        }
    }
}

/// The host and the port of an `http` or `https` URL.
pub open spec fn url_endpoint(url: Seq<char>) -> Option<(Seq<char>, int)> {
    if starts_with(url, "https://"@) {
        endpoint(before(url.skip(8), "/"@), 443)
    } else if starts_with(url, "http://"@) {
        endpoint(before(url.skip(7), "/"@), 80)
    } else {
        None
    }
}

/// The text of a scan target, if there is any.
pub open spec fn target_text(scan_target: Option<Seq<char>>) -> Option<Seq<char>> {
    match scan_target {
        Some(target) => if trim(target).len() > 0 {
            Some(trim(target))
        } else {
            None
        },
        None => None,
    }
}

/// Where a scan target is looked for: at the endpoint that it names, if the kind of the tool
/// allows for one, and at its path.
pub open spec fn target_places(
    kind: Seq<char>,
    target: Seq<char>,
    home: Option<Seq<char>>,
) -> Seq<Location> {
    let path = seq![Location::Path(expanded(target, home))];
    match url_endpoint(target) {
        Some((host, port)) => if kind == "http"@ {
            seq![Location::Endpoint(host, port)] + path
        } else {
            path
        },
        None => path,
    }
}

/// Where a tool is looked for.
pub open spec fn tool_places(
    kind: Seq<char>,
    command: Seq<char>,
    scan_target: Option<Seq<char>>,
    home: Option<Seq<char>>,
) -> Seq<Location> {
    if is_command_kind(kind) {
        command_places(command)
    } else if is_scanned_kind(kind) {
        match target_text(scan_target) {
            Some(target) => target_places(kind, target, home),
            None => Seq::empty(),
        }
    } else {
        Seq::empty()
    }
}

/// What is said of a tool that was looked for.
pub open spec fn presence(found: bool) -> Seq<char> {
    if found {
        "present"@
    } else {
        "missing"@
    }
}

/// The status of a tool that was found, or not, in one of its places.
pub open spec fn tool_status(kind: Seq<char>, scan_target: Option<Seq<char>>, found: bool) -> Seq<
    char,
> {
    if is_command_kind(kind) {
        presence(found)
    } else if is_scanned_kind(kind) && target_text(scan_target) is Some {
        presence(found)
    } else {
        "unknown"@
    }
}

/// What the status of a tool rests on.
pub open spec fn tool_detail(
    kind: Seq<char>,
    command: Seq<char>,
    scan_target: Option<Seq<char>>,
) -> Seq<char> {
    if is_command_kind(kind) {
        command
    } else if is_scanned_kind(kind) {
        match target_text(scan_target) {
            Some(target) => target,
            None => if kind == "http"@ {
                "no scan target"@
            } else {
                "no scan target; agent confirms availability"@
            },
        }
    } else {
        Seq::empty()
    }
}

/// Whether a tool of this kind is a command that can be run.
pub fn is_exec_probed(kind: &str) -> (r: bool)
    ensures
        r == is_command_kind(kind@),
{
    same_text(kind, "cli") || same_text(kind, "binary")
}

fn is_scanned(kind: &str) -> (r: bool)
    ensures
        r == is_scanned_kind(kind@),
{
    same_text(kind, "mcp") || same_text(kind, "skill") || same_text(kind, "http")
}

/// Where a command is looked for.
pub fn places_of_command(command: &str) -> (r: Vec<Place>)
    ensures
        r.deep_view() == command_places(command@),
{
    let found = words_of(command);
    let first = if found.len() > 0 {
        assert(found.deep_view()[0] == found@[0]@);
        found[0].clone()
    } else {
        command.to_owned()
    };
    let mut r: Vec<Place> = Vec::new();
    if !first.as_str().is_empty() {
        if contains_text(first.as_str(), "/") || contains_text(first.as_str(), "\\") {
            r.push(Place::Path(first));
        } else {
            r.push(Place::Command(first));
        }
    }
    assert(r.deep_view() =~= command_places(command@));
    r
}

/// `target`, with its leading `~/` for the directory `home`.
pub fn expand_home(target: &str, home: Option<&str>) -> (r: String)
    ensures
        r@ == expanded(target@, home.deep_view()),
{
    match home {
        Some(home) => match strip_prefix_text(target, "~/") {
            Some(rest) => {
                proof {
                    reveal_strlit("~/");
                }
                let mut r = home.to_owned();
                r.append("/");
                r.append(rest.as_str());
                r
            },
            None => target.to_owned(),
        },
        None => target.to_owned(),
    }
}

fn split_authority(authority: &str, default_port: u16) -> (r: Option<(String, u16)>)
    ensures
        match r {
            Some((host, port)) => endpoint(authority@, default_port as int) == Some(
                (host@, port as int),
            ),
            None => endpoint(authority@, default_port as int) is None,
        },
{
    if authority.is_empty() {
        return None;
    }
    match split_at_last(authority, ':') {
        Some((host, port)) => match parse_number(port.as_str(), 65535) {
            Some(number) => Some((host, number as u16)),
            None => Some((host, default_port)),
        },
        None => Some((authority.to_owned(), default_port)),
    }
}

/// The host and the port of an `http` or `https` URL.
pub fn http_endpoint(target: &str) -> (r: Option<(String, u16)>)
    ensures
        match r {
            Some((host, port)) => url_endpoint(target@) == Some((host@, port as int)),
            None => url_endpoint(target@) is None,
        },
{
    proof {
        reveal_strlit("https://");
        reveal_strlit("http://");
    }
    match strip_prefix_text(target, "https://") {
        Some(rest) => split_authority(text_before(rest.as_str(), "/").as_str(), 443),
        None => match strip_prefix_text(target, "http://") {
            Some(rest) => split_authority(text_before(rest.as_str(), "/").as_str(), 80),
            None => None,
        },
    }
}

fn scan_text(scan_target: Option<&str>) -> (r: Option<String>)
    ensures
        r.deep_view() == target_text(scan_target.deep_view()),
{
    match scan_target {
        Some(target) => {
            let trimmed = trim_text(target);
            if trimmed.as_str().is_empty() {
                None
            } else {
                Some(trimmed)
            }
        },
        None => None,
    }
}

/// Where a tool is looked for; `home` is the home directory, where it is known. The tool is
/// there if it is in one of these places.
pub fn places_of_tool(
    kind: &str,
    command: &str,
    scan_target: Option<&str>,
    home: Option<&str>,
) -> (r: Vec<Place>)
    ensures
        r.deep_view() == tool_places(kind@, command@, scan_target.deep_view(), home.deep_view()),
{
    if is_exec_probed(kind) {
        return places_of_command(command);
    }
    let mut r: Vec<Place> = Vec::new();
    if is_scanned(kind) {
        match scan_text(scan_target) {
            Some(target) => {
                let path = expand_home(target.as_str(), home);
                if same_text(kind, "http") {
                    match http_endpoint(target.as_str()) {
                        Some((host, port)) => {
                            r.push(Place::Endpoint { host, port });
                        },
                        None => {},
                    }
                }
                r.push(Place::Path(path));
            },
            None => {},
        }
    }
    assert(r.deep_view() =~= tool_places(
        kind@,
        command@,
        scan_target.deep_view(),
        home.deep_view(),
    ));
    r
}

/// Whether `found` is what a look into the places, one after the other, comes to.
pub open spec fn found_by<F: Fn(&Place) -> bool>(places: Seq<Place>, look: F, found: bool) -> bool {
    if found {
        exists|i: int|
            0 <= i < places.len() && call_ensures(look, (&#[trigger] places[i],), true) && (
            forall|j: int| 0 <= j < i ==> call_ensures(look, (&#[trigger] places[j],), false))
    } else {
        forall|j: int|
            0 <= j < places.len() ==> call_ensures(look, (&#[trigger] places[j],), false)
    }
}

/// Whether a tool is in one of its places. `look` looks into one; no place is looked into
/// after the first one that holds the tool.
pub fn is_found<F: Fn(&Place) -> bool>(places: &[Place], look: F) -> (r: bool)
    requires
        forall|place: &Place| call_requires(look, (place,)),
    ensures
        found_by(places@, look, r),
{
    let mut i: usize = 0;
    while i < places.len()
        invariant
            i <= places.len(),
            forall|place: &Place| call_requires(look, (place,)),
            forall|j: int| 0 <= j < i ==> call_ensures(look, (&#[trigger] places@[j],), false),
        decreases places.len() - i,
    {
        if look(&places[i]) {
            assert(call_ensures(look, (&places@[i as int],), true));
            return true;
        }
        i = i + 1;
    }
    false
}

/// The status of a tool, and what it rests on. A tool that is not there is a fact to report,
/// not an error.
pub fn scan_tool_status(kind: &str, command: &str, scan_target: Option<&str>, found: bool) -> (r: (
    &'static str,
    String,
))
    ensures
        r.0@ == tool_status(kind@, scan_target.deep_view(), found),
        r.1@ == tool_detail(kind@, command@, scan_target.deep_view()),
{
    let status = if found {
        "present"
    } else {
        "missing"
    };
    if is_exec_probed(kind) {
        (status, command.to_owned())
    } else if is_scanned(kind) {
        match scan_text(scan_target) {
            Some(target) => (status, target),
            None => if same_text(kind, "http") {
                ("unknown", "no scan target".to_owned())
            } else {
                ("unknown", "no scan target; agent confirms availability".to_owned())
            },
        }
    } else {
        ("unknown", String::new())
    }
}

/// A tool to register.
#[derive(Debug)]
pub struct ToolRegisterInput {
    pub name: String,
    pub command: String,
    pub description: String,
    pub responsibility: String,
    pub args: Vec<ToolArgSpec>,
    pub force: bool,
    pub kind: String,
    pub capability: Option<String>,
    pub scan_target: Option<String>,
}

pub const FIND_TOOL_COMMAND: &'static str = "SELECT command FROM tool WHERE name=?1;";

pub const REGISTER_TOOL: &'static str =
    "INSERT INTO tool (name, provider, command, description, args, responsibility, since, \
     kind, capability, scan_target, status) VALUES (?1, 'custom', ?2, ?3, ?4, ?5, \
     'registered', ?6, ?7, ?8, 'unknown');";

pub const REMOVE_TOOL: &'static str = "DELETE FROM tool WHERE name=?1;";

pub const LIST_TOOLS_TO_CHECK: &'static str =
    "SELECT name, kind, command, scan_target, capability FROM tool WHERE (?1 IS NULL OR \
     name = ?1) ORDER BY name;";

pub const UPDATE_TOOL_STATUS: &'static str =
    "UPDATE tool SET status=?1, checked_at=datetime('now') WHERE name=?2;";

pub const QUERY_TOOLS: &'static str =
    "SELECT provider, name, command, description, args, responsibility, since, kind, \
     capability, scan_target, status, checked_at FROM tool ORDER BY name;";

impl ToolRegisterInput {
    /// Whether the tool is registered only if its command is found.
    pub open spec fn needs_command(self) -> bool {
        is_command_kind(self.kind@) && !self.force
    }

    /// The statement that registers the tool.
    pub open spec fn registration(self) -> SqlText {
        SqlText {
            sql: REGISTER_TOOL@,
            params: seq![
                SqlData::Text(self.name@),
                SqlData::Text(self.command@),
                SqlData::Text(self.description@),
                text_data(args_text(self.args.deep_view())),
                SqlData::Text(self.responsibility@),
                SqlData::Text(self.kind@),
                text_data(self.capability.deep_view()),
                text_data(self.scan_target.deep_view()),
            ],
        }
    }
}

/// Whether a tool may be registered at all. Its description is valid, or not for the reason
/// given; its command was found, or not. Only the commands of tools that are run are looked
/// for: the others are registered as intended, and looked for later.
pub fn check_registration(
    input: &ToolRegisterInput,
    description: std::result::Result<(), String>,
    found: bool,
) -> (r: Result<()>)
    ensures
        match description {
            Err(reason) => r == Err::<(), HarnessInfraError>(
                HarnessInfraError::ToolValidation(reason),
            ),
            Ok(_) => if input.needs_command() && !found {
                r matches Err(HarnessInfraError::ToolCommandNotFound(command)) && command@
                    == input.command@
            } else {
                r == Ok::<(), HarnessInfraError>(())
            },
        },
{
    match description {
        Err(reason) => Err(HarnessInfraError::ToolValidation(reason)),
        Ok(_) => if is_exec_probed(input.kind.as_str()) && !input.force && !found {
            Err(HarnessInfraError::ToolCommandNotFound(input.command.clone()))
        } else {
            Ok(())
        },
    }
}

/// Whether `r` is what comes of registering a tool where a tool of that name has the command
/// `existing`: the statement that registers it, if there is no such tool.
pub open spec fn is_registration(
    input: ToolRegisterInput,
    existing: Option<String>,
    r: Result<SqlStatement>,
) -> bool {
    match existing {
        Some(command) => r == Err::<SqlStatement, HarnessInfraError>(
            HarnessInfraError::ToolAlreadyExists(input.name, command),
        ),
        None => r matches Ok(statement) && statement.deep_view() == input.registration(),
    }
}

/// The statement that registers a tool, unless a tool of that name has the command
/// `existing`.
pub fn register_new_tool(input: ToolRegisterInput, existing: Option<String>) -> (r: Result<
    SqlStatement,
>)
    ensures
        is_registration(input, existing, r),
{
    match existing {
        Some(command) => Err(HarnessInfraError::ToolAlreadyExists(input.name, command)),
        None => {
            let args = tool_args_json(input.args.as_slice());
            let params = vec![
                text_param(input.name.as_str()),
                text_param(input.command.as_str()),
                text_param(input.description.as_str()),
                optional_text_param(&args),
                text_param(input.responsibility.as_str()),
                text_param(input.kind.as_str()),
                optional_text_param(&input.capability),
                optional_text_param(&input.scan_target),
            ];
            assert(params.deep_view() =~= input.registration().params);
            Ok(SqlStatement { sql: REGISTER_TOOL, params })
        },
    }
}

/// The statement that registers a tool, by what the search for a tool of that name gave.
pub fn register_tool(
    input: ToolRegisterInput,
    row: std::result::Result<String, rusqlite::Error>,
) -> (r: Result<SqlStatement>)
    ensures
        match row {
            Ok(command) => r == Err::<SqlStatement, HarnessInfraError>(
                HarnessInfraError::ToolAlreadyExists(input.name, command),
            ),
            Err(error) => if says_no_row(error) {
                r matches Ok(statement) && statement.deep_view() == input.registration()
            } else {
                r == Err::<SqlStatement, HarnessInfraError>(HarnessInfraError::Sqlite(error))
            },
        },
{
    match find_row(row) {
        Ok(existing) => register_new_tool(input, existing),
        Err(error) => Err(error),
    }
}

/// The statement that looks for the command of the tool `name`.
pub fn find_tool_command(name: &str) -> (r: SqlStatement)
    ensures
        r.deep_view() == text_statement(FIND_TOOL_COMMAND@, name@),
{
    statement_on_text(FIND_TOOL_COMMAND, name)
}

/// The statement that removes the tool `name`.
pub fn remove_tool(name: &str) -> (r: SqlStatement)
    ensures
        r.deep_view() == text_statement(REMOVE_TOOL@, name@),
{
    statement_on_text(REMOVE_TOOL, name)
}

/// Whether `r` is what comes of the removal of the tool `name`, which changed so many rows.
pub open spec fn is_removal(name: Seq<char>, changes: nat, r: Result<()>) -> bool {
    if changes == 0 {
        r matches Err(HarnessInfraError::ToolNotFound(missing)) && missing@ == name
    } else {
        r == Ok::<(), HarnessInfraError>(())
    }
}

/// What the removal of the tool `name` comes to, by the number of rows that it changed.
pub fn tool_removed(name: &str, changes: u64) -> (r: Result<()>)
    ensures
        is_removal(name@, changes as nat, r),
{
    if changes == 0 {
        Err(HarnessInfraError::ToolNotFound(name.to_owned()))
    } else {
        Ok(())
    }
}

/// A registered tool, as far as a check of it goes.
#[derive(Debug)]
pub struct ToolToCheck {
    pub name: String,
    pub kind: String,
    pub command: String,
    pub scan_target: Option<String>,
    pub capability: Option<String>,
}

/// What a check of a tool found. It reports facts; what to make of them, by the status, is
/// up to the agent.
#[derive(Debug, Clone, PartialEq, Eq)]
pub struct ToolCheckResult {
    pub name: String,
    pub kind: String,
    pub capability: Option<String>,
    pub status: String,
    pub detail: String,
}

/// The statement that lists the tools to check: the one called `name`, or all of them.
pub fn list_tools_to_check(name: &Option<String>) -> (r: SqlStatement)
    ensures
        r.deep_view() == (SqlText {
            sql: LIST_TOOLS_TO_CHECK@,
            params: seq![text_data(name.deep_view())],
        }),
{
    let params = vec![optional_text_param(name)];
    assert(params.deep_view() =~= seq![text_data(name.deep_view())]);
    SqlStatement { sql: LIST_TOOLS_TO_CHECK, params }
}

impl ToolToCheck {
    /// Where the tool is looked for.
    pub fn places(&self, home: Option<&str>) -> (r: Vec<Place>)
        ensures
            r.deep_view() == tool_places(
                self.kind@,
                self.command@,
                self.scan_target.deep_view(),
                home.deep_view(),
            ),
    {
        places_of_tool(
            self.kind.as_str(),
            self.command.as_str(),
            borrowed(&self.scan_target),
            home,
        )
    }

    /// Whether `r` is what the check found, with the statement that keeps it.
    pub open spec fn is_checked(self, found: bool, r: (ToolCheckResult, SqlStatement)) -> bool {
        &&& r.0.name == self.name
        &&& r.0.kind == self.kind
        &&& r.0.capability == self.capability
        &&& r.0.status@ == tool_status(self.kind@, self.scan_target.deep_view(), found)
        &&& r.0.detail@ == tool_detail(self.kind@, self.command@, self.scan_target.deep_view())
        &&& r.1.deep_view() == (SqlText {
            sql: UPDATE_TOOL_STATUS@,
            params: seq![SqlData::Text(r.0.status@), SqlData::Text(self.name@)],
        })
    }

    /// Whether `r` is what a check of the tool by `look` found.
    pub open spec fn is_checked_by<F: Fn(&Place) -> bool>(
        self,
        home: Option<Seq<char>>,
        look: F,
        r: (ToolCheckResult, SqlStatement),
    ) -> bool {
        exists|places: Seq<Place>, found: bool|
            {
                &&& places.map_values(|place: Place| place.deep_view()) == tool_places(
                    self.kind@,
                    self.command@,
                    self.scan_target.deep_view(),
                    home,
                )
                &&& #[trigger] found_by(places, look, found)
                &&& self.is_checked(found, r)
            }
    }

    /// What the check found, and the statement that keeps it.
    pub fn checked(self, found: bool) -> (r: (ToolCheckResult, SqlStatement))
        ensures
            self.is_checked(found, r),
    {
        let (status, detail) = scan_tool_status(
            self.kind.as_str(),
            self.command.as_str(),
            borrowed(&self.scan_target),
            found,
        );
        let params = vec![text_param(status), text_param(self.name.as_str())];
        assert(params.deep_view() =~= seq![SqlData::Text(status@), SqlData::Text(self.name@)]);
        let result = ToolCheckResult {
            name: self.name,
            kind: self.kind,
            capability: self.capability,
            status: status.to_owned(),
            detail,
        };
        (result, SqlStatement { sql: UPDATE_TOOL_STATUS, params })
    }
}

/// Checks the tools in order; `look` looks into a place. Gives what each check found, with the
/// statement that keeps it.
pub fn check_tools<F: Fn(&Place) -> bool>(
    tools: Vec<ToolToCheck>,
    home: Option<&str>,
    look: F,
) -> (r: Vec<(ToolCheckResult, SqlStatement)>)
    requires
        forall|place: &Place| call_requires(look, (place,)),
    ensures
        r@.len() == tools@.len(),
        forall|i: int|
            0 <= i < tools@.len() ==> (#[trigger] tools@[i]).is_checked_by(
                home.deep_view(),
                look,
                r@[i],
            ),
{
    let ghost all = tools@;
    let mut r: Vec<(ToolCheckResult, SqlStatement)> = Vec::new();
    for tool in it: tools
        invariant
            it.seq() == all,
            forall|place: &Place| call_requires(look, (place,)),
            r@.len() == it.index(),
            forall|i: int|
                0 <= i < it.index() ==> (#[trigger] all[i]).is_checked_by(
                    home.deep_view(),
                    look,
                    r@[i],
                ),
    {
        let ghost i = it.index() as int;
        assert(tool == all[i]);
        let places = tool.places(home);
        let found = is_found(places.as_slice(), &look);
        let result = tool.checked(found);
        assert(found_by(places@, look, found));
        assert(places@.map_values(|place: Place| place.deep_view()) =~= places.deep_view());
        assert(all[i].is_checked_by(home.deep_view(), look, result));
        r.push(result);
    }
    r
}

fn borrowed(value: &Option<String>) -> (r: Option<&str>)
    ensures
        r.deep_view() == value.deep_view(),
{
    match value {
        Some(text) => Some(text.as_str()),
        None => None,
    }
}

/// A tool of the registry, as it is stored.
#[derive(Debug)]
pub struct StoredTool {
    pub provider: String,
    pub name: String,
    pub command: String,
    pub description: String,
    pub args: Option<String>,
    pub responsibility: String,
    pub since: String,
    pub kind: String,
    pub capability: Option<String>,
    pub scan_target: Option<String>,
    pub status: String,
    pub checked_at: Option<String>,
}

/// A tool of the registry.
#[derive(Debug, Clone, PartialEq, Eq)]
pub struct ToolEntry {
    pub provider: String,
    pub name: String,
    pub command: String,
    pub description: String,
    pub args: Vec<ToolArgSpec>,
    pub responsibility: String,
    pub source: String,
    pub since: String,
    pub kind: String,
    pub capability: Option<String>,
    pub scan_target: Option<String>,
    pub status: String,
    pub checked_at: Option<String>,
}

impl ToolEntry {
    /// Whether the entry is that of the stored tool.
    pub open spec fn registers(self, row: StoredTool) -> bool {
        &&& self.provider == row.provider
        &&& self.name == row.name
        &&& self.command == row.command
        &&& self.description == row.description
        &&& self.args.deep_view() == parsed_args(row.args.deep_view())
        &&& self.responsibility == row.responsibility
        &&& self.source@ == "registered"@
        &&& self.since == row.since
        &&& self.kind == row.kind
        &&& self.capability == row.capability
        &&& self.scan_target == row.scan_target
        &&& self.status == row.status
        &&& self.checked_at == row.checked_at
    }

    /// Whether the tool has this responsibility and this capability, in any spelling with the
    /// same token, where one is asked for.
    pub open spec fn serves(
        self,
        responsibility: Option<Seq<char>>,
        capability: Option<Seq<char>>,
    ) -> bool {
        &&& responsibility matches Some(wanted) ==> token(self.responsibility@) == token(wanted)
        &&& capability matches Some(wanted) ==> {
            &&& self.capability is Some
            &&& token(self.capability->0@) == token(wanted)
        }
    }
}

/// The entry of a stored tool.
pub fn registered_tool(row: StoredTool) -> (r: ToolEntry)
    ensures
        r.registers(row),
{
    let args = parse_stored_tool_args(borrowed(&row.args));
    ToolEntry {
        provider: row.provider,
        name: row.name,
        command: row.command,
        description: row.description,
        args,
        responsibility: row.responsibility,
        source: "registered".to_owned(),
        since: row.since,
        kind: row.kind,
        capability: row.capability,
        scan_target: row.scan_target,
        status: row.status,
        checked_at: row.checked_at,
    }
}

/// The tools of `tools` with this responsibility.
fn with_responsibility(tools: Vec<ToolEntry>, responsibility: &str) -> (r: Vec<ToolEntry>)
    ensures
        r@ == tools@.filter(|tool: ToolEntry| tool.serves(Some(responsibility@), None)),
{
    let ghost all = tools@;
    let ghost wanted = |tool: ToolEntry| tool.serves(Some(responsibility@), None);
    let normalized = normalize_token(responsibility);
    let mut r: Vec<ToolEntry> = Vec::new();
    for tool in it: tools
        invariant
            it.seq() == all,
            wanted == (|tool: ToolEntry| tool.serves(Some(responsibility@), None)),
            normalized@ == token(responsibility@),
            r@ == all.take(it.index() as int).filter(wanted),
    {
        let ghost i = it.index() as int;
        proof {
            assert(all.take(i + 1) =~= all.take(i).push(all[i]));
            all.take(i).lemma_filter_push(all[i], wanted);
        }
        if same_text(normalize_token(tool.responsibility.as_str()).as_str(), normalized.as_str()) {
            r.push(tool);
        }
    }
    assert(all.take(all.len() as int) =~= all);
    r
}

/// The tools of `tools` with this capability.
fn with_capability(tools: Vec<ToolEntry>, capability: &str) -> (r: Vec<ToolEntry>)
    ensures
        r@ == tools@.filter(|tool: ToolEntry| tool.serves(None, Some(capability@))),
{
    let ghost all = tools@;
    let ghost wanted = |tool: ToolEntry| tool.serves(None, Some(capability@));
    let normalized = normalize_token(capability);
    let mut r: Vec<ToolEntry> = Vec::new();
    for tool in it: tools
        invariant
            it.seq() == all,
            wanted == (|tool: ToolEntry| tool.serves(None, Some(capability@))),
            normalized@ == token(capability@),
            r@ == all.take(it.index() as int).filter(wanted),
    {
        let ghost i = it.index() as int;
        proof {
            assert(all.take(i + 1) =~= all.take(i).push(all[i]));
            all.take(i).lemma_filter_push(all[i], wanted);
        }
        let has = match &tool.capability {
            Some(value) => same_text(normalize_token(value.as_str()).as_str(), normalized.as_str()),
            None => false,
        };
        if has {
            r.push(tool);
        }
    }
    assert(all.take(all.len() as int) =~= all);
    r
}

/// The tools that come with the harness and the registered ones, in that order, as far as
/// they have the responsibility and the capability that are asked for.
pub fn query_tools(
    compiled: Vec<ToolEntry>,
    stored: Vec<ToolEntry>,
    responsibility: Option<String>,
    capability: Option<String>,
) -> (r: Vec<ToolEntry>)
    ensures
        r@ == (compiled@ + stored@).filter(
            |tool: ToolEntry| tool.serves(responsibility.deep_view(), capability.deep_view()),
        ),
{
    let ghost all = compiled@ + stored@;
    let mut tools = compiled;
    let mut stored = stored;
    tools.append(&mut stored);
    assert(tools@ =~= all);
    let ghost first = |tool: ToolEntry| tool.serves(responsibility.deep_view(), None);
    let ghost second = |tool: ToolEntry| tool.serves(None, capability.deep_view());
    let ghost both = |tool: ToolEntry|
        tool.serves(responsibility.deep_view(), capability.deep_view());
    proof {
        lemma_filters_commute(all, first, second, both);
        if responsibility is None {
            lemma_filter_all(all, first);
        }
        if capability is None {
            lemma_filter_all(all.filter(first), second);
        }
    }
    let tools = match &responsibility {
        Some(wanted) => with_responsibility(tools, wanted.as_str()),
        None => tools,
    };
    assert(tools@ == all.filter(first)) by {
        if responsibility is Some {
            let same = |tool: ToolEntry| tool.serves(Some(responsibility->0@), None);
            assert(same =~= first);
        }
    }
    let tools = match &capability {
        Some(wanted) => with_capability(tools, wanted.as_str()),
        None => tools,
    };
    assert(tools@ == all.filter(first).filter(second)) by {
        if capability is Some {
            let same = |tool: ToolEntry| tool.serves(None, Some(capability->0@));
            assert(same =~= second);
        }
    }
    tools
}

proof fn lemma_filter_all<A>(s: Seq<A>, pred: spec_fn(A) -> bool)
    requires
        forall|i: int| 0 <= i < s.len() ==> pred(#[trigger] s[i]),
    ensures
        s.filter(pred) == s,
    decreases s.len(),
{
    reveal(Seq::filter);
    if s.len() > 0 {
        lemma_filter_all(s.drop_last(), pred);
        assert(s =~= s.drop_last().push(s.last()));
    }
}

/// Filtering twice, in either order, keeps what passes both filters.
pub proof fn lemma_filters_commute<A>(
    s: Seq<A>,
    first: spec_fn(A) -> bool,
    second: spec_fn(A) -> bool,
    both: spec_fn(A) -> bool,
)
    requires
        forall|a: A| #[trigger] both(a) == (first(a) && second(a)),
    ensures
        s.filter(first).filter(second) == s.filter(both),
        s.filter(second).filter(first) == s.filter(both),
    decreases s.len(),
{
    reveal(Seq::filter);
    if s.len() > 0 {
        lemma_filters_commute(s.drop_last(), first, second, both);
        assert(both(s.last()) == (first(s.last()) && second(s.last())));
        s.drop_last().filter(first).lemma_filter_push(s.last(), second);
        s.drop_last().filter(second).lemma_filter_push(s.last(), first);
    }
}

} // verus!
