//! What the stored text of a tool's arguments gives back.
use vstd::prelude::*;

use crate::text::{
    before, contains, find, join, lemma_find_from, occurs_at, split,
    starts_with, trim, trim_end, trim_end_of, trim_start, trim_start_of,
};
use crate::tool_args::{
    arg_text, args_text, escaped, flag_text, member_value,
    members_text, parsed_arg, parsed_args, ToolArg,
};

verus! {

/// Whether `s` is written between quotes as it stands.
pub open spec fn is_plain(s: Seq<char>) -> bool {
    forall|i: int|
        0 <= i < s.len() ==> (#[trigger] s[i]) != '"' && s[i] != '\\' && s[i] != '\n'
}

/// Whether `s` can be read back out of a stored text: reading undoes no escapes, and takes
/// `},{` for the end of an object.
pub open spec fn is_storable(s: Seq<char>) -> bool {
    is_plain(s) && !contains(s, "},{"@)
}

/// Whether `arg` can be read back out of a stored text.
pub open spec fn is_storable_arg(arg: ToolArg) -> bool {
    &&& is_storable(arg.name)
    &&& is_storable(arg.arg_type)
    &&& match arg.help {
        Some(help) => help.len() > 0 && is_storable(help),
        None => true,
    }
}

proof fn lemma_escaped_plain(s: Seq<char>)
    requires
        is_plain(s),
    ensures
        escaped(s) == s,
    decreases s.len(),
{
    if s.len() > 0 {
        assert forall|i: int| 0 <= i < s.drop_last().len() implies (#[trigger] s.drop_last()[i])
            != '"' && s.drop_last()[i] != '\\' && s.drop_last()[i] != '\n' by {
            assert(s[i] != '"');
        }
        lemma_escaped_plain(s.drop_last());
        assert(s[s.len() - 1] != '"');
        assert(escaped(s) =~= s);
    }
}

/// An occurrence that no other one precedes is the one that a search finds.
proof fn lemma_find_is(s: Seq<char>, p: Seq<char>, k: int)
    requires
        occurs_at(s, p, k),
        forall|j: int| 0 <= j < k ==> !occurs_at(s, p, j),
    ensures
        find(s, p) == Some(k),
{
    lemma_find_from(s, p, 0);
}

proof fn lemma_occurs_char(s: Seq<char>, p: Seq<char>, j: int, m: int)
    requires
        occurs_at(s, p, j),
        0 <= m < p.len(),
    ensures
        s[j + m] == p[m],
{
    assert(s.subrange(j, j + p.len())[m] == p[m]);
}

/// A joined text starts with its first part.
pub proof fn lemma_join_first(parts: Seq<Seq<char>>, sep: Seq<char>)
    requires
        parts.len() > 1,
    ensures
        join(parts, sep) == parts[0] + sep + join(parts.skip(1), sep),
    decreases parts.len(),
{
    if parts.len() == 2 {
        assert(join(parts.drop_last(), sep) == parts[0]);
        assert(join(parts.skip(1), sep) == parts[1]);
    } else {
        lemma_join_first(parts.drop_last(), sep);
        assert(parts.drop_last().skip(1) =~= parts.skip(1).drop_last());
        assert(join(parts, sep) =~= parts[0] + sep + join(parts.skip(1), sep));
    }
}

/// Whether the only occurrence of `sep` in `part` followed by `sep` is the last one.
pub open spec fn ends_at_separator(part: Seq<char>, sep: Seq<char>) -> bool {
    forall|j: int| 0 <= j < part.len() ==> !occurs_at(part + sep, sep, j)
}

/// Splitting undoes joining, where the separator does not occur before its place.
pub proof fn lemma_split_join(parts: Seq<Seq<char>>, sep: Seq<char>)
    requires
        parts.len() > 0,
        sep.len() > 0,
        forall|i: int| 0 <= i < parts.len() ==> ends_at_separator(#[trigger] parts[i], sep),
    ensures
        split(join(parts, sep), sep) == parts,
    decreases parts.len(),
{
    let first = parts[0];
    let whole = join(parts, sep);
    if parts.len() == 1 {
        assert forall|j: int| 0 <= j implies !occurs_at(whole, sep, j) by {
            if occurs_at(whole, sep, j) {
                assert((first + sep).subrange(j, j + sep.len()) =~= whole.subrange(
                    j,
                    j + sep.len(),
                ));
                assert(occurs_at(first + sep, sep, j));
            }
        }
        lemma_find_from(whole, sep, 0);
        assert(split(whole, sep) =~= parts);
    } else {
        lemma_join_first(parts, sep);
        let rest = join(parts.skip(1), sep);
        assert(whole.subrange(first.len() as int, (first.len() + sep.len()) as int) =~= sep);
        assert forall|j: int| 0 <= j < first.len() implies !occurs_at(whole, sep, j) by {
            if occurs_at(whole, sep, j) {
                assert((first + sep).subrange(j, j + sep.len()) =~= whole.subrange(
                    j,
                    j + sep.len(),
                ));
                assert(occurs_at(first + sep, sep, j));
            }
        }
        lemma_find_is(whole, sep, first.len() as int);
        assert(whole.take(first.len() as int) =~= first);
        assert(whole.skip((first.len() + sep.len()) as int) =~= rest);
        assert forall|i: int| 0 <= i < parts.skip(1).len() implies ends_at_separator(
            #[trigger] parts.skip(1)[i],
            sep,
        ) by {
            assert(parts.skip(1)[i] == parts[i + 1]);
        }
        lemma_split_join(parts.skip(1), sep);
        assert(split(whole, sep) =~= parts);
    }
}

/// The members of `arg`, whose texts need no escapes.
spec fn members(arg: ToolArg) -> Seq<char> {
    members_text(arg.name, arg.arg_type, flag_text(arg.required), help_text(arg))
}

spec fn help_text(arg: ToolArg) -> Seq<char> {
    match arg.help {
        Some(help) => help,
        None => Seq::empty(),
    }
}

proof fn lemma_literals()
    ensures
        "\"name\":\""@ =~= seq!['"', 'n', 'a', 'm', 'e', '"', ':', '"'],
        "\",\"type\":\""@ =~= seq!['"', ',', '"', 't', 'y', 'p', 'e', '"', ':', '"'],
        "\",\"required\":"@ =~= seq![
            '"',
            ',',
            '"',
            'r',
            'e',
            'q',
            'u',
            'i',
            'r',
            'e',
            'd',
            '"',
            ':',
        ],
        ",\"help\":\""@ =~= seq![',', '"', 'h', 'e', 'l', 'p', '"', ':', '"'],
        "\""@ =~= seq!['"'],
        "true"@ =~= seq!['t', 'r', 'u', 'e'],
        "false"@ =~= seq!['f', 'a', 'l', 's', 'e'],
        "\":"@ =~= seq!['"', ':'],
        "name"@ =~= seq!['n', 'a', 'm', 'e'],
        "type"@ =~= seq!['t', 'y', 'p', 'e'],
        "required"@ =~= seq!['r', 'e', 'q', 'u', 'i', 'r', 'e', 'd'],
        "help"@ =~= seq!['h', 'e', 'l', 'p'],
        ","@ =~= seq![','],
        "{"@ =~= seq!['{'],
        "}"@ =~= seq!['}'],
        "["@ =~= seq!['['],
        "]"@ =~= seq![']'],
        "},{"@ =~= seq!['}', ',', '{'],
        "\"name\""@ =~= seq!['"', 'n', 'a', 'm', 'e', '"'],
{
    reveal_strlit("\"name\":\"");
    reveal_strlit("\",\"type\":\"");
    reveal_strlit("\",\"required\":");
    reveal_strlit(",\"help\":\"");
    reveal_strlit("\"");
    reveal_strlit("true");
    reveal_strlit("false");
    reveal_strlit("\":");
    reveal_strlit("name");
    reveal_strlit("type");
    reveal_strlit("required");
    reveal_strlit("help");
    reveal_strlit(",");
    reveal_strlit("{");
    reveal_strlit("}");
    reveal_strlit("[");
    reveal_strlit("]");
    reveal_strlit("},{");
    reveal_strlit("\"name\"");
}

/// The character at index `i` of the members of `arg`.
spec fn member_char(arg: ToolArg, i: int) -> char {
    let n = arg.name.len() as int;
    let t = arg.arg_type.len() as int;
    let r = flag_text(arg.required).len() as int;
    let h = help_text(arg).len() as int;
    if i < 8 {
        "\"name\":\""@[i]
    } else if i < 8 + n {
        arg.name[i - 8]
    } else if i < 18 + n {
        "\",\"type\":\""@[i - 8 - n]
    } else if i < 18 + n + t {
        arg.arg_type[i - 18 - n]
    } else if i < 31 + n + t {
        "\",\"required\":"@[i - 18 - n - t]
    } else if i < 31 + n + t + r {
        flag_text(arg.required)[i - 31 - n - t]
    } else if i < 40 + n + t + r {
        ",\"help\":\""@[i - 31 - n - t - r]
    } else if i < 40 + n + t + r + h {
        help_text(arg)[i - 40 - n - t - r]
    } else {
        '"'
    }
}

proof fn lemma_members(arg: ToolArg)
    ensures
        members(arg).len() == arg.name.len() + arg.arg_type.len() + flag_text(arg.required).len()
            + help_text(arg).len() + 41,
        forall|i: int|
            0 <= i < members(arg).len() ==> #[trigger] members(arg)[i] == member_char(arg, i),
{
    lemma_literals();
}

/// How the key of a member is written.
spec fn key_text(key: Seq<char>) -> Seq<char> {
    "\""@ + key + "\":"@
}

spec fn has_no_quote(s: Seq<char>) -> bool {
    forall|i: int| 0 <= i < s.len() ==> #[trigger] s[i] != '"'
}

/// No key starts where a quoted value of `len` characters does that a comma follows.
proof fn lemma_no_key_at_value(m: Seq<char>, start: int, len: int, key: Seq<char>)
    requires
        0 <= start,
        0 <= len,
        start + len + 2 < m.len(),
        forall|i: int| start < i <= start + len ==> #[trigger] m[i] != '"',
        m[start + len + 1] == '"',
        m[start + len + 2] == ',',
        has_no_quote(key),
    ensures
        !occurs_at(m, key_text(key), start),
{
    lemma_literals();
    let p = key_text(key);
    let k = key.len() as int;
    if occurs_at(m, p, start) {
        assert(p[k + 1] == '"');
        assert(p[k + 2] == ':');
        lemma_occurs_char(m, p, start, k + 1);
        lemma_occurs_char(m, p, start, k + 2);
        if k > len {
            lemma_occurs_char(m, p, start, len + 1);
            assert(p[len + 1] == key[len]);
        }
    }
}

/// No key starts before a character that is neither a quote nor the first one of the key.
proof fn lemma_no_key_before(m: Seq<char>, start: int, key: Seq<char>)
    requires
        0 <= start,
        start + 1 < m.len(),
        key.len() > 0,
        m[start] != '"' || m[start + 1] != key[0],
    ensures
        !occurs_at(m, key_text(key), start),
{
    lemma_literals();
    let p = key_text(key);
    if occurs_at(m, p, start) {
        assert(p[0] == '"');
        assert(p[1] == key[0]);
        lemma_occurs_char(m, p, start, 0);
        lemma_occurs_char(m, p, start, 1);
    }
}

/// Where the keys stand among the members of an argument.
proof fn lemma_keys(arg: ToolArg)
    requires
        is_storable_arg(arg),
    ensures
        find(members(arg), key_text("name"@)) == Some(0int),
        find(members(arg), key_text("type"@)) == Some(arg.name.len() + 10int),
        find(members(arg), key_text("required"@)) == Some(
            arg.name.len() + arg.arg_type.len() + 20int,
        ),
        find(members(arg), key_text("help"@)) == Some(
            arg.name.len() + arg.arg_type.len() + flag_text(arg.required).len() + 32int,
        ),
{
    lemma_literals();
    lemma_members(arg);
    let m = members(arg);
    let n = arg.name.len() as int;
    let t = arg.arg_type.len() as int;
    let r = flag_text(arg.required).len() as int;
    assert(m.subrange(0, 7) =~= key_text("name"@));
    lemma_find_is(m, key_text("name"@), 0);

    assert(m.subrange(n + 10, n + 17) =~= key_text("type"@));
    assert forall|j: int| 0 <= j < n + 10 implies !occurs_at(m, key_text("type"@), j) by {
        if j == 7 {
            lemma_no_key_at_value(m, 7, n, "type"@);
        } else {
            lemma_no_key_before(m, j, "type"@);
        }
    }
    lemma_find_is(m, key_text("type"@), n + 10);

    assert(m.subrange(n + t + 20, n + t + 31) =~= key_text("required"@));
    assert forall|j: int| 0 <= j < n + t + 20 implies !occurs_at(
        m,
        key_text("required"@),
        j,
    ) by {
        if j == 7 {
            lemma_no_key_at_value(m, 7, n, "required"@);
        } else if j == n + 17 {
            lemma_no_key_at_value(m, n + 17, t, "required"@);
        } else {
            lemma_no_key_before(m, j, "required"@);
        }
    }
    lemma_find_is(m, key_text("required"@), n + t + 20);

    assert(m.subrange(n + t + r + 32, n + t + r + 39) =~= key_text("help"@));
    assert forall|j: int| 0 <= j < n + t + r + 32 implies !occurs_at(
        m,
        key_text("help"@),
        j,
    ) by {
        if j == 7 {
            lemma_no_key_at_value(m, 7, n, "help"@);
        } else if j == n + 17 {
            lemma_no_key_at_value(m, n + 17, t, "help"@);
        } else {
            lemma_no_key_before(m, j, "help"@);
        }
    }
    lemma_find_is(m, key_text("help"@), n + t + r + 32);
}

/// A quoted value reads up to its closing quote.
proof fn lemma_quoted_value(m: Seq<char>, key: Seq<char>, at: int, value: Seq<char>)
    requires
        find(m, key_text(key)) == Some(at),
        0 <= at,
        m[at + key.len() + 3] == '"',
        m.subrange(at + key.len() + 4, at + key.len() + 4 + value.len()) == value,
        at + key.len() + 4 + value.len() < m.len(),
        m[at + key.len() + 4 + value.len()] == '"',
        has_no_quote(value),
    ensures
        member_value(m, key) == Some(value),
{
    lemma_literals();
    let rest = m.skip(at + key_text(key).len());
    let body = rest.skip(1);
    assert(rest.subrange(0, 1) =~= "\""@);
    assert(body.take(value.len() as int) =~= value);
    assert(body.subrange(value.len() as int, value.len() + 1int) =~= "\""@);
    assert forall|j: int| 0 <= j < value.len() implies !occurs_at(body, "\""@, j) by {
        if occurs_at(body, "\""@, j) {
            lemma_occurs_char(body, "\""@, j, 0);
            assert(body.take(value.len() as int)[j] == body[j]);
            assert(value[j] != '"');
        }
    }
    lemma_find_is(body, "\""@, value.len() as int);
}

/// What the members of an argument give back.
proof fn lemma_member_values(arg: ToolArg)
    requires
        is_storable_arg(arg),
    ensures
        member_value(members(arg), "name"@) == Some(arg.name),
        member_value(members(arg), "type"@) == Some(arg.arg_type),
        member_value(members(arg), "required"@) == Some(flag_text(arg.required)),
        member_value(members(arg), "help"@) == Some(help_text(arg)),
{
    lemma_literals();
    lemma_members(arg);
    lemma_keys(arg);
    let m = members(arg);
    let n = arg.name.len() as int;
    let t = arg.arg_type.len() as int;
    let flag = flag_text(arg.required);
    let r = flag.len() as int;
    let help = help_text(arg);
    assert(m.subrange(8, 8 + n) =~= arg.name);
    lemma_quoted_value(m, "name"@, 0, arg.name);
    assert(m.subrange(n + 18, n + 18 + t) =~= arg.arg_type);
    lemma_quoted_value(m, "type"@, n + 10, arg.arg_type);
    assert(m.subrange(n + t + r + 40, n + t + r + 40 + help.len()) =~= help);
    lemma_quoted_value(m, "help"@, n + t + r + 32, help);

    let rest = m.skip(n + t + 20 + key_text("required"@).len());
    assert(rest.take(r) =~= flag);
    assert(rest[0] == flag[0]);
    assert(!starts_with(rest, "\""@)) by {
        if starts_with(rest, "\""@) {
            lemma_occurs_char(rest, "\""@, 0, 0);
        }
    }
    assert(rest.subrange(r, r + 1) =~= ","@);
    assert forall|j: int| 0 <= j < r implies !occurs_at(rest, ","@, j) by {
        if occurs_at(rest, ","@, j) {
            lemma_occurs_char(rest, ","@, j, 0);
            assert(rest.take(r)[j] == rest[j]);
        }
    }
    lemma_find_is(rest, ","@, r);
    assert(before(rest, ","@) == flag);
    assert(trim(flag) == flag);
}

proof fn lemma_trim_start_of(s: Seq<char>, c: char)
    requires
        s.len() == 0 || s[0] != c,
    ensures
        trim_start_of(seq![c] + s, c) == s,
        trim_start_of(s, c) == s,
{
    assert(trim_start_of(s, c) == s);
    assert((seq![c] + s).skip(1) =~= s);
}

proof fn lemma_trim_end_of(s: Seq<char>, c: char)
    requires
        s.len() == 0 || s.last() != c,
    ensures
        trim_end_of(s + seq![c], c) == s,
        trim_end_of(s, c) == s,
{
    assert(trim_end_of(s, c) == s);
    assert((s + seq![c]).drop_last() =~= s);
}

/// An object gives back the argument that it stands for, whichever of its braces the
/// splitting has left.
proof fn lemma_parsed_arg(arg: ToolArg)
    requires
        is_storable_arg(arg),
    ensures
        parsed_arg(members(arg)) == Some(arg),
        parsed_arg("{"@ + members(arg)) == Some(arg),
        parsed_arg(members(arg) + "}"@) == Some(arg),
        parsed_arg("{"@ + members(arg) + "}"@) == Some(arg),
{
    lemma_literals();
    lemma_members(arg);
    lemma_member_values(arg);
    let m = members(arg);
    assert(m[0] == '"');
    assert(m.last() == '"');
    lemma_trim_start_of(m, '{');
    lemma_trim_end_of(m, '{');
    lemma_trim_start_of(m, '}');
    lemma_trim_end_of(m, '}');
    let closed = m + seq!['}'];
    lemma_trim_start_of(closed, '{');
    lemma_trim_end_of(closed, '{');
    lemma_trim_start_of(closed, '}');
    assert("{"@ + m + "}"@ =~= seq!['{'] + closed);
    assert(arg.required == (flag_text(arg.required) == "true"@)) by {
        assert("true"@[0] != "false"@[0]);
    }
}

/// The end of an object does not occur among the members of an argument, nor across their
/// end.
proof fn lemma_no_object_end(arg: ToolArg, j: int)
    requires
        is_storable_arg(arg),
        0 <= j < members(arg).len(),
    ensures
        !occurs_at(members(arg) + "},{"@, "},{"@, j),
{
    lemma_literals();
    lemma_members(arg);
    let m = members(arg);
    let sep = "},{"@;
    let whole = m + sep;
    let n = arg.name.len() as int;
    let t = arg.arg_type.len() as int;
    let r = flag_text(arg.required).len() as int;
    let h = help_text(arg).len() as int;
    if occurs_at(whole, sep, j) {
        lemma_occurs_char(whole, sep, j, 0);
        lemma_occurs_char(whole, sep, j, 1);
        lemma_occurs_char(whole, sep, j, 2);
        assert(m[j] == '}');
        if j < 8 + n {
            assert(m[8 + n] == '"');
            assert(arg.name.subrange(j - 8, j - 5) =~= sep);
            assert(occurs_at(arg.name, sep, j - 8));
        } else if j < 18 + n + t {
            assert(m[18 + n + t] == '"');
            assert(arg.arg_type.subrange(j - 18 - n, j - 15 - n) =~= sep);
            assert(occurs_at(arg.arg_type, sep, j - 18 - n));
        } else {
            let from = 40 + n + t + r;
            assert(from <= j < from + h);
            assert(m[from + h] == '"');
            assert(help_text(arg).subrange(j - from, j - from + 3) =~= sep);
            assert(occurs_at(help_text(arg), sep, j - from));
        }
    }
}

/// The objects for `args` as the splitting finds them: only the first one keeps its opening
/// brace, and only the last one its closing brace.
spec fn piece(args: Seq<ToolArg>, i: int) -> Seq<char> {
    let opened = if i == 0 {
        "{"@ + members(args[i])
    } else {
        members(args[i])
    };
    if i == args.len() - 1 {
        opened + "}"@
    } else {
        opened
    }
}

proof fn lemma_piece(args: Seq<ToolArg>, i: int)
    requires
        0 <= i < args.len(),
        is_storable_arg(args[i]),
    ensures
        ends_at_separator(piece(args, i), "},{"@),
        parsed_arg(piece(args, i)) == Some(args[i]),
{
    lemma_literals();
    lemma_parsed_arg(args[i]);
    let sep = "},{"@;
    let m = members(args[i]);
    let p = piece(args, i);
    let lead: int = if i == 0 {
        1
    } else {
        0
    };
    assert forall|j: int| 0 <= j < p.len() implies !occurs_at(p + sep, sep, j) by {
        if occurs_at(p + sep, sep, j) {
            lemma_members(args[i]);
            lemma_occurs_char(p + sep, sep, j, 0);
            lemma_occurs_char(p + sep, sep, j, 1);
            lemma_occurs_char(p + sep, sep, j, 2);
            if lead <= j < lead + m.len() {
                lemma_no_object_end(args[i], j - lead);
                assert(m[m.len() - 1] == '"');
                assert((m + sep).subrange(j - lead, j - lead + 3) =~= sep);
                assert(occurs_at(m + sep, sep, j - lead));
            }
        }
    }
}

/// Joining the objects with commas is joining their pieces with the text between them.
proof fn lemma_join_objects(args: Seq<ToolArg>)
    requires
        args.len() > 0,
        forall|i: int| 0 <= i < args.len() ==> is_storable_arg(#[trigger] args[i]),
    ensures
        join(args.map_values(|arg: ToolArg| arg_text(arg)), ","@) == join(
            Seq::new(args.len(), |i: int| piece(args, i)),
            "},{"@,
        ),
    decreases args.len(),
{
    lemma_literals();
    let text = |arg: ToolArg| arg_text(arg);
    let objects = args.map_values(text);
    let pieces = Seq::new(args.len(), |i: int| piece(args, i));
    let arg = args.last();
    assert(is_storable_arg(args[args.len() - 1]));
    lemma_escaped_plain(arg.name);
    lemma_escaped_plain(arg.arg_type);
    lemma_escaped_plain(help_text(arg));
    assert(objects.last() == "{"@ + members(arg) + "}"@);
    if args.len() == 1 {
        assert(join(objects, ","@) == objects[0]);
        assert(join(pieces, "},{"@) == pieces[0]);
    } else {
        let front = args.drop_last();
        assert forall|i: int| 0 <= i < front.len() implies is_storable_arg(
            #[trigger] front[i],
        ) by {
            assert(front[i] == args[i]);
        }
        lemma_join_objects(front);
        let front_pieces = Seq::new(front.len(), |i: int| piece(front, i));
        assert(objects.drop_last() =~= front.map_values(text));
        // The last piece of the front has a closing brace, which the whole leaves to the
        // text between the pieces.
        let open = pieces.drop_last();
        assert(open.drop_last() =~= front_pieces.drop_last()) by {
            assert forall|i: int| 0 <= i < front.len() - 1 implies open.drop_last()[i]
                == front_pieces.drop_last()[i] by {
                assert(front[i] == args[i]);
            }
        }
        assert(front_pieces.last() =~= open.last() + "}"@) by {
            assert(front[front.len() - 1] == args[front.len() - 1]);
        }
        if front.len() == 1 {
            assert(join(front_pieces, "},{"@) == front_pieces[0]);
            assert(join(open, "},{"@) == open[0]);
        }
        assert(join(front_pieces, "},{"@) =~= join(open, "},{"@) + "}"@);
        assert(join(objects, ","@) =~= join(open, "},{"@) + "}"@ + ","@ + ("{"@ + members(arg)
            + "}"@));
        assert(join(pieces, "},{"@) =~= join(open, "},{"@) + "},{"@ + (members(arg) + "}"@));
        assert("}"@ + ","@ + "{"@ =~= "},{"@);
        assert(join(objects, ","@) =~= join(pieces, "},{"@));
    }
}

/// Mapping each item to something keeps the items in their order.
proof fn lemma_filter_map_all(
    pieces: Seq<Seq<char>>,
    args: Seq<ToolArg>,
    parse: spec_fn(Seq<char>) -> Option<ToolArg>,
)
    requires
        pieces.len() == args.len(),
        forall|i: int| 0 <= i < args.len() ==> parse(#[trigger] pieces[i]) == Some(args[i]),
    ensures
        pieces.filter_map(parse) == args,
    decreases args.len(),
{
    if args.len() > 0 {
        assert forall|i: int| 0 <= i < args.len() - 1 implies parse(
            #[trigger] pieces.drop_last()[i],
        ) == Some(args.drop_last()[i]) by {
            assert(pieces.drop_last()[i] == pieces[i]);
        }
        lemma_filter_map_all(pieces.drop_last(), args.drop_last(), parse);
        assert(pieces[pieces.len() - 1] == pieces.last());
        assert(pieces.filter_map(parse) =~= args);
    } else {
        assert(pieces.filter_map(parse) =~= args);
    }
}

/// A joined text starts as its first part does and ends as its last one does.
proof fn lemma_join_ends(parts: Seq<Seq<char>>, sep: Seq<char>)
    requires
        parts.len() > 0,
        parts[0].len() > 0,
        parts.last().len() > 0,
    ensures
        parts[0].len() <= join(parts, sep).len(),
        join(parts, sep).take(parts[0].len() as int) == parts[0],
        join(parts, sep).last() == parts.last().last(),
    decreases parts.len(),
{
    if parts.len() == 1 {
        assert(join(parts, sep).take(parts[0].len() as int) =~= parts[0]);
    } else {
        lemma_join_first(parts, sep);
        assert(join(parts, sep).take(parts[0].len() as int) =~= parts[0]);
    }
}

/// Taking the brackets off an array of objects leaves the objects.
proof fn lemma_without_brackets(joined: Seq<char>)
    requires
        joined.len() > 0,
        joined[0] == '{',
        joined.last() == '}',
    ensures
        trim_end_of(trim_start_of(trim("["@ + joined + "]"@), '['), ']') == joined,
{
    lemma_literals();
    let text = "["@ + joined + "]"@;
    assert(trim_start(text) == text);
    assert(trim_end(text) == text);
    assert(text =~= seq!['['] + (joined + seq![']']));
    lemma_trim_start_of(joined + seq![']'], '[');
    lemma_trim_end_of(joined, ']');
}

/// The objects for `args`, joined, start with a named object and end with an object.
proof fn lemma_joined_ends(args: Seq<ToolArg>)
    requires
        args.len() > 0,
    ensures
        ({
            let joined = join(Seq::new(args.len(), |i: int| piece(args, i)), "},{"@);
            &&& joined.len() >= 7
            &&& joined[0] == '{'
            &&& joined.subrange(1, 7) == "\"name\""@
            &&& joined.last() == '}'
        }),
{
    lemma_literals();
    let pieces = Seq::new(args.len(), |i: int| piece(args, i));
    let joined = join(pieces, "},{"@);
    lemma_members(args[0]);
    lemma_members(args.last());
    let first = pieces[0];
    let n = first.len() as int;
    assert(pieces.last().last() == '}');
    assert(first[0] == '{');
    assert(first.subrange(1, 7) =~= "\"name\""@);
    lemma_join_ends(pieces, "},{"@);
    assert(joined.take(n)[0] == joined[0]);
    assert(joined.subrange(1, 7) =~= joined.take(n).subrange(1, 7));
}

/// Storing the arguments of a tool and reading them back gives the same arguments, for
/// arguments that need no escapes, that hold no `},{`, and whose help text, where there is
/// one, is not empty.
pub proof fn law_stored_tool_args_read_back(args: Seq<ToolArg>)
    requires
        forall|i: int| 0 <= i < args.len() ==> is_storable_arg(#[trigger] args[i]),
    ensures
        parsed_args(args_text(args)) == args,
{
    let sep = "},{"@;
    let parse = |raw: Seq<char>| parsed_arg(raw);
    let pieces = Seq::new(args.len(), |i: int| piece(args, i));
    let joined = join(pieces, sep);
    let text = "["@ + joined + "]"@;
    if args.len() == 0 {
        assert(parsed_args(args_text(args)) =~= args);
    } else {
        assert(args_text(args) == Some(text)) by {
            lemma_join_objects(args);
        }
        assert forall|i: int| 0 <= i < pieces.len() implies ends_at_separator(
            #[trigger] pieces[i],
            sep,
        ) && parse(pieces[i]) == Some(args[i]) by {
            assert(is_storable_arg(args[i]));
            lemma_piece(args, i);
        }
        assert(split(joined, sep) == pieces) by {
            reveal_strlit("},{");
            lemma_split_join(pieces, sep);
        }
        lemma_joined_ends(args);
        lemma_without_brackets(joined);
        assert(contains(text, "\"name\""@)) by {
            reveal_strlit("[");
            reveal_strlit("\"name\"");
            assert(text.subrange(2, 8) =~= joined.subrange(1, 7));
            assert(occurs_at(text, "\"name\""@, 2));
        }
        lemma_filter_map_all(pieces, args, parse);
    }
}

} // verus!
