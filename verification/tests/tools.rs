//! Where tools are looked for, what is said of them, and the arguments that they take.
use harness_store::audit::{audit_tools, broken_tools, AuditedTool};
use harness_store::error::HarnessInfraError;
use harness_store::tool::{
    check_registration, expand_home, http_endpoint, is_exec_probed, is_found, places_of_command,
    places_of_tool, query_tools, register_new_tool, scan_tool_status, Place, ToolEntry,
    ToolRegisterInput, ToolToCheck,
};
use harness_store::tool_args::{
    escape_json, json_object_value, parse_stored_tool_args, tool_args_json, ToolArgSpec,
};

fn path(text: &str) -> Place {
    Place::Path(text.to_owned())
}

#[test]
fn command_is_looked_for_by_its_first_word() {
    assert_eq!(places_of_command("cargo test --all"), [Place::Command("cargo".to_owned())]);
    assert_eq!(places_of_command("  ./run.sh -x"), [path("./run.sh")]);
    assert_eq!(places_of_command("/usr/bin/env python"), [path("/usr/bin/env")]);
    assert_eq!(places_of_command("tools\\run.exe"), [path("tools\\run.exe")]);
    assert_eq!(places_of_command(""), []);
    assert_eq!(places_of_command("  "), [Place::Command("  ".to_owned())]);
}

#[test]
fn home_stands_for_a_leading_tilde() {
    assert_eq!(expand_home("~/skills/x", Some("/home/me")), "/home/me/skills/x");
    assert_eq!(expand_home("~/skills/x", None), "~/skills/x");
    assert_eq!(expand_home("~skills", Some("/home/me")), "~skills");
    assert_eq!(expand_home("a/~/b", Some("/home/me")), "a/~/b");
}

#[test]
fn endpoint_is_read_out_of_a_url() {
    let endpoint = |url: &str| http_endpoint(url);
    assert_eq!(endpoint("http://localhost:8080/x"), Some(("localhost".to_owned(), 8080)));
    assert_eq!(endpoint("https://example.org/a/b"), Some(("example.org".to_owned(), 443)));
    assert_eq!(endpoint("http://example.org"), Some(("example.org".to_owned(), 80)));
    assert_eq!(endpoint("https://host:port"), Some(("host".to_owned(), 443)));
    assert_eq!(endpoint("http://host:65536/"), Some(("host".to_owned(), 80)));
    assert_eq!(endpoint("http://::1:9000"), Some(("::1".to_owned(), 9000)));
    assert_eq!(endpoint("http:///path"), None);
    assert_eq!(endpoint("ftp://host"), None);
    assert_eq!(endpoint("docs/tool"), None);
}

#[test]
fn tool_is_looked_for_by_its_kind() {
    let home = Some("/home/me");
    assert_eq!(
        places_of_tool("cli", "git status", Some("ignored"), home),
        [Place::Command("git".to_owned())]
    );
    assert_eq!(places_of_tool("skill", "skill:x", Some(" ~/x "), home), [path("/home/me/x")]);
    assert_eq!(places_of_tool("mcp", "mcp:x", Some("  "), home), []);
    assert_eq!(places_of_tool("mcp", "mcp:x", None, home), []);
    assert_eq!(
        places_of_tool("http", "x", Some("http://host:1/"), home),
        [Place::Endpoint { host: "host".to_owned(), port: 1 }, path("http://host:1/")]
    );
    assert_eq!(
        places_of_tool("mcp", "x", Some("http://host:1/"), home),
        [path("http://host:1/")]
    );
    assert_eq!(places_of_tool("http", "x", Some("docs/x"), home), [path("docs/x")]);
    assert_eq!(places_of_tool("other", "x", Some("docs/x"), home), []);
}

#[test]
fn tool_is_found_in_the_first_place_that_holds_it() {
    let places = [path("a"), path("b"), path("c")];
    assert!(is_found(&places, |place| *place == path("b")));
    assert!(!is_found(&places, |place| *place == path("d")));
    assert!(!is_found(&[], |_| true));
    assert!(is_found(&places, |place| {
        assert_ne!(*place, path("c"));
        *place == path("b")
    }));
}

#[test]
fn status_says_what_was_found() {
    let scan = |kind: &str, target: Option<&str>, found: bool| {
        let (status, detail) = scan_tool_status(kind, "run me", target, found);
        (status, detail)
    };
    assert_eq!(scan("cli", None, true), ("present", "run me".to_owned()));
    assert_eq!(scan("binary", None, false), ("missing", "run me".to_owned()));
    assert_eq!(scan("skill", Some(" here "), true), ("present", "here".to_owned()));
    assert_eq!(scan("mcp", Some("there"), false), ("missing", "there".to_owned()));
    assert_eq!(scan("http", Some("http://x"), true), ("present", "http://x".to_owned()));
    assert_eq!(
        scan("mcp", None, false),
        ("unknown", "no scan target; agent confirms availability".to_owned())
    );
    assert_eq!(
        scan("skill", Some(" "), false),
        ("unknown", "no scan target; agent confirms availability".to_owned())
    );
    assert_eq!(scan("http", None, false), ("unknown", "no scan target".to_owned()));
    assert_eq!(scan("other", Some("x"), true), ("unknown", String::new()));
}

#[test]
fn check_reports_and_keeps_the_status() {
    let tool = ToolToCheck {
        name: "api".to_owned(),
        kind: "http".to_owned(),
        command: "curl".to_owned(),
        scan_target: Some("https://host".to_owned()),
        capability: Some("search".to_owned()),
    };
    assert_eq!(
        tool.places(None),
        [
            Place::Endpoint { host: "host".to_owned(), port: 443 },
            path("https://host")
        ]
    );
    let (result, statement) = tool.checked(false);
    assert_eq!(result.name, "api");
    assert_eq!(result.kind, "http");
    assert_eq!(result.capability.as_deref(), Some("search"));
    assert_eq!(result.status, "missing");
    assert_eq!(result.detail, "https://host");
    assert_eq!(statement.params.len(), 2);
}

fn input(kind: &str, force: bool) -> ToolRegisterInput {
    ToolRegisterInput {
        name: "tool".to_owned(),
        command: "run me".to_owned(),
        description: "Runs".to_owned(),
        responsibility: "Verification".to_owned(),
        args: Vec::new(),
        force,
        kind: kind.to_owned(),
        capability: None,
        scan_target: None,
    }
}

#[test]
fn only_commands_must_be_there_to_register() {
    assert!(is_exec_probed("cli") && is_exec_probed("binary") && !is_exec_probed("mcp"));
    assert!(matches!(
        check_registration(&input("cli", false), Ok(()), false),
        Err(HarnessInfraError::ToolCommandNotFound(command)) if command == "run me"
    ));
    assert!(check_registration(&input("cli", false), Ok(()), true).is_ok());
    assert!(check_registration(&input("binary", true), Ok(()), false).is_ok());
    assert!(check_registration(&input("mcp", false), Ok(()), false).is_ok());
    assert!(matches!(
        check_registration(&input("cli", true), Err("too short".to_owned()), true),
        Err(HarnessInfraError::ToolValidation(reason)) if reason == "too short"
    ));
    assert!(matches!(
        register_new_tool(input("cli", true), Some("old".to_owned())),
        Err(HarnessInfraError::ToolAlreadyExists(name, command))
            if name == "tool" && command == "old"
    ));
    assert!(register_new_tool(input("cli", true), None).is_ok());
}

fn entry(name: &str, responsibility: &str, capability: Option<&str>) -> ToolEntry {
    ToolEntry {
        provider: "custom".to_owned(),
        name: name.to_owned(),
        command: name.to_owned(),
        description: String::new(),
        args: Vec::new(),
        responsibility: responsibility.to_owned(),
        source: "registered".to_owned(),
        since: "registered".to_owned(),
        kind: "cli".to_owned(),
        capability: capability.map(str::to_owned),
        scan_target: None,
        status: "unknown".to_owned(),
        checked_at: None,
    }
}

#[test]
fn tools_are_chosen_by_responsibility_and_capability() {
    let compiled = || vec![entry("a", "Task Intake", Some("triage"))];
    let stored = || {
        vec![
            entry("b", "verification", None),
            entry("c", "task-intake", Some("Triage")),
            entry("d", "task intake", Some("search")),
        ]
    };
    let names = |responsibility: Option<&str>, capability: Option<&str>| -> Vec<String> {
        query_tools(
            compiled(),
            stored(),
            responsibility.map(str::to_owned),
            capability.map(str::to_owned),
        )
        .into_iter()
        .map(|tool| tool.name)
        .collect()
    };
    assert_eq!(names(None, None), ["a", "b", "c", "d"]);
    assert_eq!(names(Some("TASK INTAKE"), None), ["a", "c", "d"]);
    assert_eq!(names(None, Some("triage")), ["a", "c"]);
    assert_eq!(names(Some("task_intake"), Some("search")), ["d"]);
    assert!(names(Some("none"), None).is_empty());
}

#[test]
fn audit_names_the_broken_tools() {
    let tool = |name: &str, kind: &str, status: &str| AuditedTool {
        name: name.to_owned(),
        command: format!("run {name}"),
        kind: kind.to_owned(),
        status: status.to_owned(),
    };
    assert_eq!(tool("a", "cli", "").places(), [Place::Command("run".to_owned())]);
    assert_eq!(tool("a", "mcp", "").places(), []);
    let audited = audit_tools(
        vec![tool("a", "cli", "present"), tool("b", "mcp", "unknown"), tool("c", "cli", "unknown")],
        |place| *place == Place::Command("run".to_owned()),
    );
    assert!(audited.is_empty());
    let broken = broken_tools(vec![
        (tool("a", "cli", "present"), false),
        (tool("b", "binary", "missing"), true),
        (tool("c", "mcp", "missing"), true),
        (tool("d", "skill", "unknown"), false),
        (tool("e", "http", "present"), false),
    ]);
    let named: Vec<(&str, &str)> =
        broken.iter().map(|finding| (finding.id.as_str(), finding.title.as_str())).collect();
    assert_eq!(named, [("a", "run a"), ("c", "run c")]);
}

fn arg(name: &str, arg_type: &str, required: bool, help: Option<&str>) -> ToolArgSpec {
    ToolArgSpec {
        name: name.to_owned(),
        arg_type: arg_type.to_owned(),
        required,
        help: help.map(str::to_owned),
    }
}

#[test]
fn arguments_are_written_as_json() {
    assert_eq!(tool_args_json(&[]), None);
    assert_eq!(
        tool_args_json(&[arg("a\"b", "x\\y", true, Some("l\nm")), arg("c", "flag", false, None)]),
        Some(
            "[{\"name\":\"a\\\"b\",\"type\":\"x\\\\y\",\"required\":true,\"help\":\"l\\nm\"},\
             {\"name\":\"c\",\"type\":\"flag\",\"required\":false,\"help\":\"\"}]"
                .to_owned()
        )
    );
    assert_eq!(escape_json("\\\"\n\t"), "\\\\\\\"\\n\t");
}

#[test]
fn stored_arguments_are_read_back() {
    let args = vec![
        arg("target", "path", true, Some("a, b and {c}")),
        arg("dry-run", "flag", false, None),
        arg("", "", false, Some("}")),
    ];
    let text = tool_args_json(&args).unwrap();
    assert_eq!(parse_stored_tool_args(Some(&text)), args);
}

#[test]
fn other_texts_give_what_they_hold_of_arguments() {
    assert_eq!(parse_stored_tool_args(None), []);
    assert_eq!(parse_stored_tool_args(Some("[]")), []);
    assert_eq!(
        parse_stored_tool_args(Some("[{\"name\":\"a\"},{\"kind\":\"b\"},{\"name\":\"c\",\"required\":true}]")),
        [arg("a", "string", false, None), arg("c", "string", true, None)]
    );
    assert_eq!(json_object_value("\"n\":1 , \"m\":2", "n"), Some("1".to_owned()));
    assert_eq!(json_object_value("\"n\":\"x", "n"), None);
    assert_eq!(json_object_value("\"n\":", "n"), Some(String::new()));
    assert_eq!(json_object_value("\"n\":1", "m"), None);
}
