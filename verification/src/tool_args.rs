//! The arguments of a registered tool, and the text in which the database keeps them.
use vstd::prelude::*;
use vstd::string::StringExecFns;

use crate::text::{
    before, chars_of, contains, contains_text, find, find_text, join, join_texts, lemma_find_from, same_text,
    split, split_text, starts_with, strip_prefix_text, text_before, text_between, trim, trim_end_char, trim_end_of,
    trim_start_char, trim_start_of, trim_text,
};

verus! {

/// An argument that a tool takes.
#[derive(Debug, Clone, PartialEq, Eq)]
pub struct ToolArgSpec {
    pub name: String,
    pub arg_type: String,
    pub required: bool,
    pub help: Option<String>,
}

/// The contents of a `ToolArgSpec`.
pub struct ToolArg {
    pub name: Seq<char>,
    pub arg_type: Seq<char>,
    pub required: bool,
    pub help: Option<Seq<char>>,
}

impl DeepView for ToolArgSpec {
    type V = ToolArg;

    open spec fn deep_view(&self) -> ToolArg {
        ToolArg {
            name: self.name@,
            arg_type: self.arg_type@,
            required: self.required,
            help: self.help.deep_view(),
        }
    }
}

/// How `c` is written between quotes.
pub open spec fn escaped_char(c: char) -> Seq<char> {
    if c == '\\' {
        seq!['\\', '\\']
    } else if c == '"' {
        seq!['\\', '"']
    } else if c == '\n' {
        seq!['\\', 'n']
    } else {
        seq![c]
    }
}

/// How `s` is written between quotes.
pub open spec fn escaped(s: Seq<char>) -> Seq<char>
    decreases s.len(),
{
    if s.len() == 0 {
        Seq::empty()
    } else {
        escaped(s.drop_last()) + escaped_char(s.last())
    }
}

pub open spec fn flag_text(b: bool) -> Seq<char> {
    if b {
        "true"@
    } else {
        "false"@
    }
}

/// The members of the object that stands for an argument with these texts in it.
pub open spec fn members_text(
    name: Seq<char>,
    arg_type: Seq<char>,
    required: Seq<char>,
    help: Seq<char>,
) -> Seq<char> {
    "\"name\":\""@ + name + "\",\"type\":\""@ + arg_type + "\",\"required\":"@ + required
        + ",\"help\":\""@ + help + "\""@
}

/// The object that stands for `arg`. A missing help text is written as an empty one.
pub open spec fn arg_text(arg: ToolArg) -> Seq<char> {
    "{"@ + members_text(
        escaped(arg.name),
        escaped(arg.arg_type),
        flag_text(arg.required),
        escaped(
            match arg.help {
                Some(help) => help,
                None => Seq::empty(),
            },
        ),
    ) + "}"@
}

/// The array that stands for `args`; there is none for no arguments.
pub open spec fn args_text(args: Seq<ToolArg>) -> Option<Seq<char>> {
    if args.len() == 0 {
        None
    } else {
        Some("["@ + join(args.map_values(|arg: ToolArg| arg_text(arg)), ","@) + "]"@)
    }
}

/// The value of the member `key` in `raw`: what stands up to the next quote, where the value
/// starts with one, and what stands up to the next comma otherwise.
pub open spec fn member_value(raw: Seq<char>, key: Seq<char>) -> Option<Seq<char>> {
    let target = "\""@ + key + "\":"@;
    match find(raw, target) {
        Some(i) => {
            let rest = raw.skip(i + target.len());
            if starts_with(rest, "\""@) {
                match find(rest.skip(1), "\""@) {
                    Some(end) => Some(rest.skip(1).take(end)),
                    None => None,
                }
            } else {
                Some(trim(before(rest, ","@)))
            }
        },
        None => None,
    }
}

/// `s` without the runs of `c` at its ends.
pub open spec fn trim_of(s: Seq<char>, c: char) -> Seq<char> {
    trim_end_of(trim_start_of(s, c), c)
}

/// The argument that the object `raw` stands for, if it has a name. An argument is a string
/// and is not required unless the object says otherwise; an empty help text is none.
pub open spec fn parsed_arg(raw: Seq<char>) -> Option<ToolArg> {
    let item = trim_of(trim_of(raw, '{'), '}');
    match member_value(item, "name"@) {
        Some(name) => Some(
            ToolArg {
                name,
                arg_type: match member_value(item, "type"@) {
                    Some(arg_type) => arg_type,
                    None => "string"@,
                },
                required: member_value(item, "required"@) == Some("true"@),
                help: match member_value(item, "help"@) {
                    Some(help) => if help.len() == 0 {
                        None
                    } else {
                        Some(help)
                    },
                    None => None,
                },
            },
        ),
        None => None,
    }
}

/// The arguments that the stored text `value` stands for.
pub open spec fn parsed_args(value: Option<Seq<char>>) -> Seq<ToolArg> {
    match value {
        Some(text) => if contains(text, "\"name\""@) {
            split(trim_end_of(trim_start_of(trim(text), '['), ']'), "},{"@).filter_map(
                |raw: Seq<char>| parsed_arg(raw),
            )
        } else {
            Seq::empty()
        },
        None => Seq::empty(),
    }
}

/// How `value` is written between quotes.
pub fn escape_json(value: &str) -> (r: String)
    ensures
        r@ == escaped(value@),
{
    let chars = chars_of(value);
    let mut r: String = String::new();
    let mut i: usize = 0;
    while i < chars.len()
        invariant
            i <= chars.len(),
            chars@ == value@,
            r@ == escaped(value@.take(i as int)),
        decreases chars.len() - i,
    {
        let c = chars[i];
        let ghost before = r@;
        assert(value@.take(i + 1).drop_last() =~= value@.take(i as int));
        if c == '\\' {
            r.push('\\');
            r.push('\\');
        } else if c == '"' {
            r.push('\\');
            r.push('"');
        } else if c == '\n' {
            r.push('\\');
            r.push('n');
        } else {
            r.push(c);
        }
        assert(r@ =~= before + escaped_char(c));
        i = i + 1;
    }
    assert(value@.take(i as int) =~= value@);
    r
}

fn arg_json(arg: &ToolArgSpec) -> (r: String)
    ensures
        r@ == arg_text(arg.deep_view()),
{
    let help = match &arg.help {
        Some(help) => escape_json(help.as_str()),
        None => escape_json(""),
    };
    proof {
        reveal_strlit("");
        assert(""@ =~= Seq::empty());
    }
    let mut r = "{".to_owned();
    r.append("\"name\":\"");
    r.append(escape_json(arg.name.as_str()).as_str());
    r.append("\",\"type\":\"");
    r.append(escape_json(arg.arg_type.as_str()).as_str());
    r.append("\",\"required\":");
    if arg.required {
        r.append("true");
    } else {
        r.append("false");
    }
    r.append(",\"help\":\"");
    r.append(help.as_str());
    r.append("\"");
    r.append("}");
    assert(r@ =~= arg_text(arg.deep_view()));
    r
}

/// The array that stands for `args`.
pub fn tool_args_json(args: &[ToolArgSpec]) -> (r: Option<String>)
    ensures
        r.deep_view() == args_text(args.deep_view()),
{
    if args.len() == 0 {
        return None;
    }
    let ghost text = |arg: ToolArg| arg_text(arg);
    let ghost all = args.deep_view();
    let mut objects: Vec<String> = Vec::new();
    let mut i: usize = 0;
    while i < args.len()
        invariant
            i <= args.len(),
            all == args.deep_view(),
            text == (|arg: ToolArg| arg_text(arg)),
            objects.deep_view() == all.take(i as int).map_values(text),
        decreases args.len() - i,
    {
        let ghost before = objects.deep_view();
        objects.push(arg_json(&args[i]));
        assert(objects.deep_view() =~= before.push(arg_text(all[i as int])));
        assert(objects.deep_view() =~= all.take(i + 1).map_values(text));
        i = i + 1;
    }
    assert(all.take(i as int) =~= all);
    let mut r = "[".to_owned();
    r.append(join_texts(objects.as_slice(), ",").as_str());
    r.append("]");
    Some(r)
}

/// The value of the member `key` in `raw`.
pub fn json_object_value(raw: &str, key: &str) -> (r: Option<String>)
    ensures
        r.deep_view() == member_value(raw@, key@),
{
    let mut target = "\"".to_owned();
    target.append(key);
    target.append("\":");
    let found = find_text(raw, target.as_str());
    match found {
        Some(i) => {
            proof {
                lemma_find_from(raw@, target@, 0);
                reveal_strlit("\"");
            }
            let chars = chars_of(raw);
            let target_chars = chars_of(target.as_str());
            assert(i + target_chars.len() <= chars.len());
            let rest = text_between(&chars, i + target_chars.len(), chars.len());
            assert(rest@ =~= raw@.skip(i + target@.len()));
            match strip_prefix_text(rest.as_str(), "\"") {
                Some(body) => match find_text(body.as_str(), "\"") {
                    Some(end) => {
                        proof {
                            lemma_find_from(body@, "\""@, 0);
                        }
                        let value = text_between(&chars_of(body.as_str()), 0, end);
                        assert(value@ =~= body@.take(end as int));
                        Some(value)
                    },
                    None => None,
                },
                None => Some(trim_text(text_before(rest.as_str(), ",").as_str())),
            }
        },
        None => None,
    }
}

fn trim_char(s: &str, c: char) -> (r: String)
    ensures
        r@ == trim_of(s@, c),
{
    trim_end_char(trim_start_char(s, c).as_str(), c)
}

/// The argument that the object `raw` stands for.
fn parse_arg(raw: &str) -> (r: Option<ToolArgSpec>)
    ensures
        r.deep_view() == parsed_arg(raw@),
{
    let item = trim_char(trim_char(raw, '{').as_str(), '}');
    let name = match json_object_value(item.as_str(), "name") {
        Some(name) => name,
        None => {
            return None;
        },
    };
    let arg_type = match json_object_value(item.as_str(), "type") {
        Some(arg_type) => arg_type,
        None => "string".to_owned(),
    };
    let required = match json_object_value(item.as_str(), "required") {
        Some(value) => same_text(value.as_str(), "true"),
        None => false,
    };
    let help = match json_object_value(item.as_str(), "help") {
        Some(help) => if help.as_str().is_empty() {
            None
        } else {
            Some(help)
        },
        None => None,
    };
    Some(ToolArgSpec { name, arg_type, required, help })
}

/// The arguments that the stored text `value` stands for.
pub fn parse_stored_tool_args(value: Option<&str>) -> (r: Vec<ToolArgSpec>)
    ensures
        r.deep_view() == parsed_args(value.deep_view()),
{
    let mut r: Vec<ToolArgSpec> = Vec::new();
    let text = match value {
        Some(text) => text,
        None => {
            assert(r.deep_view() =~= Seq::empty());
            return r;
        },
    };
    if !contains_text(text, "\"name\"") {
        assert(r.deep_view() =~= Seq::empty());
        return r;
    }
    let trimmed = trim_text(text);
    let opened = trim_start_char(trimmed.as_str(), '[');
    let inner = trim_end_char(opened.as_str(), ']');
    proof {
        reveal_strlit("},{");
    }
    let pieces = split_text(inner.as_str(), "},{");
    let ghost all = pieces.deep_view();
    let ghost parse = |raw: Seq<char>| parsed_arg(raw);
    let mut i: usize = 0;
    assert(r.deep_view() =~= all.take(0).filter_map(parse));
    while i < pieces.len()
        invariant
            i <= pieces.len(),
            all == pieces.deep_view(),
            parse == (|raw: Seq<char>| parsed_arg(raw)),
            r.deep_view() == all.take(i as int).filter_map(parse),
        decreases pieces.len() - i,
    {
        let ghost before = r.deep_view();
        assert(all.take(i + 1).drop_last() =~= all.take(i as int));
        assert(all.take(i + 1).last() == pieces[i as int]@);
        if let Some(arg) = parse_arg(pieces[i].as_str()) {
            r.push(arg);
            assert(r.deep_view() =~= before.push(arg.deep_view()));
        }
        i = i + 1;
    }
    assert(all.take(i as int) =~= all);
    r
}

} // verus!
