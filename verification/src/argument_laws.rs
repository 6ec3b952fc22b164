//! How the arguments of a tool are written, and what is read out of them.
use vstd::prelude::*;

use crate::text::{before, contains, find, join, lemma_find_from, occurs_at, starts_with, trim};
use crate::text_laws::law_before;
use crate::tool_args::{
    arg_text, args_text, escaped, member_value, parsed_arg, parsed_args, trim_of, ToolArg,
    ToolArgSpec,
};

verus! {

/// Backslashes, quotes and line feeds are written behind a backslash, and anything else as it is.
pub proof fn law_escapes(s: Seq<char>, c: char)
    ensures
        escaped(Seq::empty()) == Seq::<char>::empty(),
        escaped(s.push('\\')) == escaped(s) + seq!['\\', '\\'],
        escaped(s.push('"')) == escaped(s) + seq!['\\', '"'],
        escaped(s.push('\n')) == escaped(s) + seq!['\\', 'n'],
        c != '\\' && c != '"' && c != '\n' ==> escaped(s.push(c)) == escaped(s) + seq![c],
{
    assert(s.push('\\').drop_last() =~= s);
    assert(s.push('"').drop_last() =~= s);
    assert(s.push('\n').drop_last() =~= s);
    assert(s.push(c).drop_last() =~= s);
}

/// An argument is written as an object with its name, its type, whether it is required, and its
/// help text, which is empty where there is none.
pub proof fn law_argument_is_an_object(arg: ToolArg)
    ensures
        arg.help is Some ==> arg_text(arg) == "{"@ + ("\"name\":\""@ + escaped(arg.name)
            + "\",\"type\":\""@ + escaped(arg.arg_type) + "\",\"required\":"@ + (if arg.required {
            "true"@
        } else {
            "false"@
        }) + ",\"help\":\""@ + escaped(arg.help->0) + "\""@) + "}"@,
        arg.help is None ==> arg_text(arg) == "{"@ + ("\"name\":\""@ + escaped(arg.name)
            + "\",\"type\":\""@ + escaped(arg.arg_type) + "\",\"required\":"@ + (if arg.required {
            "true"@
        } else {
            "false"@
        }) + ",\"help\":\""@ + Seq::<char>::empty() + "\""@) + "}"@,
{
}

/// Arguments are written between brackets, in their order and with commas between them. No
/// arguments are not written.
pub proof fn law_arguments_are_an_array(args: Seq<ToolArg>, arg: ToolArg)
    ensures
        args_text(Seq::empty()) is None,
        args_text(seq![arg]) == Some(seq!['['] + arg_text(arg) + seq![']']),
        args.len() > 0 ==> args_text(args) is Some && args_text(args.push(arg)) == Some(
            args_text(args)->0.drop_last() + seq![','] + arg_text(arg) + seq![']'],
        ),
{
    reveal_strlit("[");
    reveal_strlit("]");
    reveal_strlit(",");
    assert("["@ =~= seq!['[']);
    assert("]"@ =~= seq![']']);
    assert(","@ =~= seq![',']);
    let write = |arg: ToolArg| arg_text(arg);
    assert(seq![arg].map_values(write) =~= seq![arg_text(arg)]);
    if args.len() > 0 {
        let texts = args.map_values(write);
        let all = args.push(arg).map_values(write);
        assert(all =~= texts.push(arg_text(arg)));
        assert(all.drop_last() =~= texts);
        let inner = join(texts, ","@);
        assert(("["@ + inner + "]"@).drop_last() =~= "["@ + inner);
        assert(args_text(args.push(arg))->0 =~= args_text(args)->0.drop_last() + seq![',']
            + arg_text(arg) + seq![']']);
    }
}

proof fn lemma_first(a: Seq<char>, p: Seq<char>, b: Seq<char>)
    requires
        p.len() > 0,
        forall|j: int| 0 <= j < a.len() ==> !occurs_at(a + p + b, p, j),
    ensures
        find(a + p + b, p) == Some(a.len() as int),
{
    let s = a + p + b;
    lemma_find_from(s, p, 0);
    assert(s.subrange(a.len() as int, (a.len() + p.len()) as int) =~= p);
    assert(occurs_at(s, p, a.len() as int));
}

/// The value of a member is what stands behind its key: up to the next quote where it starts with
/// one, and else up to the next comma, trimmed. There is none without the key.
pub proof fn law_value_stands_behind_its_key(
    first: Seq<char>,
    key: Seq<char>,
    value: Seq<char>,
    rest: Seq<char>,
)
    requires
        forall|j: int|
            0 <= j < first.len() ==> !occurs_at(
                first + ("\""@ + key + "\":"@) + ("\""@ + value + "\""@ + rest),
                "\""@ + key + "\":"@,
                j,
            ),
        !value.contains('"'),
    ensures
        member_value(
            first + ("\""@ + key + "\":"@) + ("\""@ + value + "\""@ + rest),
            key,
        ) == Some(value),
{
    reveal_strlit("\"");
    reveal_strlit("\":");
    let target = "\""@ + key + "\":"@;
    let tail = "\""@ + value + "\""@ + rest;
    let raw = first + target + tail;
    lemma_first(first, target, tail);
    assert(raw.skip((first.len() + target.len()) as int) =~= tail);
    assert(tail.subrange(0, 1) =~= "\""@);
    assert(tail.skip(1) =~= value + "\""@ + rest);
    let behind = value + "\""@ + rest;
    assert forall|j: int| 0 <= j < value.len() implies !occurs_at(behind, "\""@, j) by {
        if occurs_at(behind, "\""@, j) {
            assert(behind.subrange(j, j + 1)[0] == '"');
            assert(value[j] == '"');
        }
    }
    lemma_first(value, "\""@, rest);
    assert(behind.take(value.len() as int) =~= value);
}

/// The value of a member without quotes ends before the next comma, and is trimmed.
pub proof fn law_bare_value_ends_at_a_comma(
    first: Seq<char>,
    key: Seq<char>,
    value: Seq<char>,
    rest: Seq<char>,
)
    requires
        value.len() > 0,
        value[0] != '"',
        !value.contains(','),
        rest.len() == 0 || rest[0] == ',',
        forall|j: int|
            0 <= j < first.len() ==> !occurs_at(
                first + ("\""@ + key + "\":"@) + (value + rest),
                "\""@ + key + "\":"@,
                j,
            ),
    ensures
        member_value(first + ("\""@ + key + "\":"@) + (value + rest), key) == Some(trim(value)),
{
    reveal_strlit("\"");
    reveal_strlit("\":");
    reveal_strlit(",");
    let target = "\""@ + key + "\":"@;
    let tail = value + rest;
    let raw = first + target + tail;
    lemma_first(first, target, tail);
    assert(raw.skip((first.len() + target.len()) as int) =~= tail);
    if starts_with(tail, "\""@) {
        assert(tail.subrange(0, 1)[0] == '"');
        assert(tail[0] == value[0]);
    }
    let n = value.len() as int;
    law_before(tail, ","@);
    if rest.len() > 0 {
        assert(tail.subrange(n, n + 1) =~= ","@);
        assert(occurs_at(tail, ","@, n));
    } else {
        assert(tail =~= value);
    }
    if contains(tail, ","@) {
        let k = before(tail, ","@).len() as int;
        assert(tail.subrange(k, k + 1)[0] == ',');
        if k < n {
            assert(value[k] == ',');
        }
        assert(tail.take(n) =~= value);
    }
}

/// A member that is not there has no value.
pub proof fn law_no_value_without_key(raw: Seq<char>, key: Seq<char>)
    requires
        !contains(raw, "\""@ + key + "\":"@),
    ensures
        member_value(raw, key) is None,
{
    lemma_find_from(raw, "\""@ + key + "\":"@, 0);
}

/// An argument is read member by member out of its object: its name, which it must have, its type,
/// which is "string" unless it says so, whether it is required, which it must say, and its help
/// text, where that is not empty.
pub proof fn law_arguments_are_read_member_by_member(raw: Seq<char>)
    ensures
        ({
            let item = trim_of(trim_of(raw, '{'), '}');
            let name = member_value(item, "name"@);
            let arg_type = member_value(item, "type"@);
            let required = member_value(item, "required"@);
            let help = member_value(item, "help"@);
            &&& name is None <==> parsed_arg(raw) is None
            &&& name is Some ==> {
                let arg = parsed_arg(raw)->0;
                &&& arg.name == name->0
                &&& arg_type is Some ==> arg.arg_type == arg_type->0
                &&& arg_type is None ==> arg.arg_type == "string"@
                &&& arg.required <==> required is Some && required->0 == "true"@
                &&& help is Some && help->0.len() > 0 ==> arg.help == help
                &&& help is None || help->0.len() == 0 ==> arg.help is None
            }
        }),
{
}

/// Nothing is read out of what is missing, or has no name in it.
pub proof fn law_no_arguments_without_names(text: Seq<char>)
    ensures
        parsed_args(None).len() == 0,
        !contains(text, "\"name\""@) ==> parsed_args(Some(text)).len() == 0,
{
}

/// The contents of an argument are its fields, each under its own name.
pub proof fn law_argument_contents(arg: ToolArgSpec)
    ensures
        arg.deep_view().name == arg.name@,
        arg.deep_view().arg_type == arg.arg_type@,
        arg.deep_view().required == arg.required,
        arg.deep_view().help == arg.help.deep_view(),
{
}

} // verus!
