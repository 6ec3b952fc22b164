//! The documents that the database is seeded from, and the text that they are made of.
use harness_store::backlog::{
    backlog_items, import_backlog, normalize_backlog_status, BacklogMarkdownItem,
};
use harness_store::decision::{
    decision_files, import_decision, is_decision_file_name, markdown_section_first_value,
    normalize_decision_status,
};
use harness_store::matrix::{
    empty_to_none, evidence_from_fields, field_at, import_matrix, markdown_table_fields,
    normalize_story_status, proof_from_cell, story_from_fields, MatrixColumns,
};
use harness_store::number::{parse_number, signed_text, unsigned_text};
use harness_store::text::{
    contains_text, ends_with_text, find_text, join_texts, lines_of, split_at_last, split_text,
    starts_with_text, strip_prefix_text, text_before, trim_end_char, trim_start_char,
    trim_start_text, trim_text, words_of,
};
use harness_store::token::{normalize_token, RiskLane};

fn owned(texts: &[&str]) -> Vec<String> {
    texts.iter().map(|text| text.to_string()).collect()
}

#[test]
fn text_functions_agree_with_the_standard_library() {
    let samples = [
        "",
        " ",
        "a",
        "  a b  c ",
        "\u{a0}x\u{3000}",
        "one\ntwo\r\nthree\n",
        "\n\n",
        "a\rb\r\n",
        "[[x]]",
        "a,b,,c,",
        "gr\u{fc}n \u{1f600} ok",
        "http://host:80/path",
    ];
    for sample in samples {
        assert_eq!(trim_text(sample), sample.trim());
        assert_eq!(trim_start_text(sample), sample.trim_start());
        assert_eq!(trim_start_char(sample, '['), sample.trim_start_matches('['));
        assert_eq!(trim_end_char(sample, ']'), sample.trim_end_matches(']'));
        assert_eq!(lines_of(sample), owned(&sample.lines().collect::<Vec<_>>()));
        assert_eq!(
            words_of(sample),
            owned(&sample.split_whitespace().collect::<Vec<_>>())
        );
        for pattern in [",", "a", "\n", "//", "x]"] {
            assert_eq!(
                split_text(sample, pattern),
                owned(&sample.split(pattern).collect::<Vec<_>>())
            );
            assert_eq!(contains_text(sample, pattern), sample.contains(pattern));
            assert_eq!(starts_with_text(sample, pattern), sample.starts_with(pattern));
            assert_eq!(ends_with_text(sample, pattern), sample.ends_with(pattern));
            assert_eq!(
                strip_prefix_text(sample, pattern),
                sample.strip_prefix(pattern).map(str::to_owned)
            );
            assert_eq!(text_before(sample, pattern), sample.split(pattern).next().unwrap());
        }
        assert_eq!(
            split_at_last(sample, ':'),
            sample.rsplit_once(':').map(|(a, b)| (a.to_owned(), b.to_owned()))
        );
    }
    assert_eq!(find_text("\u{fc}b\u{fc}b", "b"), Some(1));
    assert_eq!(join_texts(&owned(&["a", "", "b"]), ", "), "a, , b");
    assert_eq!(join_texts(&[], ", "), "");
}

#[test]
fn numbers_are_written_and_read() {
    for number in [0u64, 7, 10, 409, 65535, u64::MAX] {
        assert_eq!(unsigned_text(number), number.to_string());
        assert_eq!(parse_number(&unsigned_text(number), u64::MAX), Some(number));
    }
    for number in [0i64, -1, 42, -90, i64::MIN, i64::MAX] {
        assert_eq!(signed_text(number), number.to_string());
    }
    assert_eq!(parse_number("+8080", 65535), Some(8080));
    assert_eq!(parse_number("0065", 65535), Some(65));
    assert_eq!(parse_number("65536", 65535), None);
    assert_eq!(parse_number("", 65535), None);
    assert_eq!(parse_number("+", 65535), None);
    assert_eq!(parse_number("-1", 65535), None);
    assert_eq!(parse_number("8a", 65535), None);
    assert_eq!(parse_number("18446744073709551616", u64::MAX), None);
}

#[test]
fn tokens_spell_words_alike() {
    assert_eq!(normalize_token("  In Progress "), "in_progress");
    assert_eq!(normalize_token("high-risk"), "high_risk");
    assert_eq!(normalize_token("N/A"), "n_a");
    assert_eq!(normalize_token("E2E"), "e2e");
    assert_eq!(normalize_token(""), "");
    for value in ["Deploy Verification", " a-B/c ", "\u{c4}rger"] {
        let token = normalize_token(value);
        assert_eq!(normalize_token(&token), token);
    }
}

#[test]
fn lanes_are_named() {
    for lane in [RiskLane::Tiny, RiskLane::Normal, RiskLane::HighRisk] {
        assert_eq!(RiskLane::from_name(lane.as_db_value()), Some(lane));
    }
    assert_eq!(RiskLane::from_name("High Risk"), Some(RiskLane::HighRisk));
    assert_eq!(RiskLane::from_name("huge"), None);
    assert_eq!(RiskLane::from_name(""), None);
}

#[test]
fn table_row_is_cut_at_its_bars() {
    assert_eq!(markdown_table_fields("| a | b |c|"), ["a", "b", "c"]);
    assert_eq!(markdown_table_fields("  a | b"), ["a", "b"]);
    assert_eq!(markdown_table_fields("|| x ||"), ["", "x", ""]);
    assert_eq!(markdown_table_fields("|"), [""]);
    for field in markdown_table_fields("|  x y |z|\tw\t|") {
        assert_eq!(field.trim(), field);
        assert!(!field.contains('|'));
    }
}

#[test]
fn cells_are_found_by_their_column() {
    let header = owned(&["Status", "Story", "E2E", "Status"]);
    let columns = MatrixColumns::from_header(&header);
    assert_eq!(columns.status, Some(3));
    assert_eq!(columns.story, Some(1));
    assert_eq!(columns.e2e, Some(2));
    assert_eq!(columns.unit, None);
    let fields = owned(&["a", " ", "c", "d"]);
    assert_eq!(field_at(&fields, Some(0)), Some("a".to_owned()));
    assert_eq!(field_at(&fields, Some(1)), None);
    assert_eq!(field_at(&fields, Some(4)), None);
    assert_eq!(field_at(&fields, None), None);
    assert_eq!(evidence_from_fields(&fields, 2), Some("c | d".to_owned()));
    assert_eq!(evidence_from_fields(&fields, 4), None);
    assert_eq!(evidence_from_fields(&fields, 5), None);
    assert_eq!(empty_to_none(String::new()), None);
    assert_eq!(empty_to_none("x".to_owned()), Some("x".to_owned()));
}

#[test]
fn proof_needs_more_than_a_promise() {
    for cell in [
        "", "no", "None", "N/A", "na", "planned", "No tests yet", "CI pending", "blocked by x",
        "not attempted", "not operator reviewed",
    ] {
        assert_eq!(proof_from_cell(cell), 0);
    }
    for cell in ["yes", "mac smoke", "nothing", "42 tests"] {
        assert_eq!(proof_from_cell(cell), 1);
    }
}

#[test]
fn statuses_are_read_as_known_ones() {
    assert_eq!(normalize_story_status("In Progress"), "in_progress");
    assert_eq!(normalize_story_status("who knows"), "planned");
    assert_eq!(normalize_decision_status("Superseded by 0009"), "superseded");
    assert_eq!(normalize_decision_status("Rejected"), "rejected");
    assert_eq!(normalize_decision_status(""), "accepted");
    assert_eq!(normalize_backlog_status("Implemented"), "implemented");
    assert_eq!(normalize_backlog_status("later"), "proposed");
    for value in ["changed", "x", "Superseded-now", "accepted"] {
        let story = normalize_story_status(value);
        assert_eq!(normalize_story_status(&story), story);
        let decision = normalize_decision_status(value);
        assert_eq!(normalize_decision_status(&decision), decision);
        let item = normalize_backlog_status(value);
        assert_eq!(normalize_backlog_status(&item), item);
    }
}

#[test]
fn matrix_gives_its_stories() {
    let content = "Intro | with a bar\n\
        | not | a header |\n\
        | Story | Contract | Unit | Status | Evidence |\n\
        | --- | --- | --- | --- | --- |\n\
        | TBD | | | | |\n\
        | US-1 | docs/a.md | yes | Implemented | a | b |\n\
        not a row\n\
          | US-2 |  | pending | odd |  |\n\
        | US-3\n";
    let stories = import_matrix(content);
    assert_eq!(stories.len(), 2);
    assert_eq!(stories[0].id, "US-1");
    assert_eq!(stories[0].title, "docs/a.md");
    assert_eq!(stories[0].contract_doc.as_deref(), Some("docs/a.md"));
    assert_eq!(stories[0].status, "implemented");
    assert_eq!(stories[0].unit, 1);
    assert_eq!(stories[0].e2e, 0);
    assert_eq!(stories[0].evidence.as_deref(), Some("a | b"));
    assert_eq!(stories[1].id, "US-2");
    assert_eq!(stories[1].title, "US-2");
    assert_eq!(stories[1].contract_doc, None);
    assert_eq!(stories[1].status, "planned");
    assert_eq!(stories[1].unit, 0);
    assert_eq!(stories[1].evidence, None);
    assert!(import_matrix("| Story | Contract |\n| US-1 | x |\n").is_empty());
}

#[test]
fn placeholder_row_holds_no_story() {
    let columns = MatrixColumns::from_header(&owned(&["Story", "Status"]));
    for id in ["", "---", "story", "TODO", "Examples"] {
        assert!(story_from_fields(&columns, &owned(&[id, "planned"])).is_none());
    }
    let story = story_from_fields(&columns, &owned(&["US-9", "retired"])).unwrap();
    assert_eq!(story.status, "retired");
}

#[test]
fn decision_records_are_chosen_by_name() {
    assert!(is_decision_file_name("0007-test.md"));
    assert!(!is_decision_file_name("007-test.md"));
    assert!(!is_decision_file_name("00a7-test.md"));
    assert!(!is_decision_file_name("0007.md"));
    let names = owned(&["0010-b.md", "README.md", "0002-a.md", "0002-a.txt", "0001-\u{fc}.md"]);
    assert_eq!(decision_files(&names), ["0001-\u{fc}.md", "0002-a.md", "0010-b.md"]);
}

#[test]
fn decision_record_gives_its_decision() {
    let record = import_decision(
        "0003-cache.md",
        "# Cache it \n\n## Context\n\nx\n\n## Status\n\n\n Superseded by 0004 \n",
    );
    assert_eq!(record.id, "0003-cache");
    assert_eq!(record.title, "Cache it");
    assert_eq!(record.status, "superseded");
    assert_eq!(record.doc_path, "docs/decisions/0003-cache.md");
    let bare = import_decision("0004-x.md", "no heading\n# late\n");
    assert_eq!(bare.title, "0004-x");
    assert_eq!(bare.status, "accepted");
    assert_eq!(import_decision("0004-x.md", "").title, "0004-x");
    assert_eq!(import_decision("0004-x.md", "#  \n").title, "0004-x");
    assert_eq!(markdown_section_first_value("## A\n\nfirst\nsecond\n", "A"), "first");
    assert_eq!(markdown_section_first_value("## A\n\nfirst\n", "B"), "");
}

fn titles(items: &[BacklogMarkdownItem]) -> Vec<&str> {
    items.iter().map(|item| item.title.as_str()).collect()
}

#[test]
fn backlog_document_gives_its_items() {
    let content = "### Title\n\nbefore the items\n\n## Items\n\n### Title\n\nFirst\n\n\
        ### Current Pain\n\none\ntwo\n\n### Risk\n\nhuge\n\n### Title\n\nShort name.\n\n\
        ### Title\n\nThird\n\n### Status\n\nRejected\n";
    let items = backlog_items(content);
    assert_eq!(titles(&items), ["First", "Short name.", "Third"]);
    let stored = import_backlog(content);
    assert_eq!(stored.len(), 2);
    assert_eq!(stored[0].title, "First");
    assert_eq!(stored[0].risk, None);
    assert_eq!(stored[0].status, "proposed");
    assert_eq!(stored[0].discovered_while, None);
    assert_eq!(stored[1].title, "Third");
    assert_eq!(stored[1].status, "rejected");
    assert!(backlog_items("").is_empty());
    assert!(backlog_items("## Items\n\n### Risk\n\ntiny\n").is_empty());
}

#[test]
fn first_line_below_a_heading_is_kept() {
    let items = backlog_items("## Items\n### Title\nFirst\n### Current Pain\none\ntwo\n");
    assert_eq!(items.len(), 1);
    assert_eq!(items[0].current_pain, "one");
}
