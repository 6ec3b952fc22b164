//! Which files are scripts, which of them a database lacks, and how they are told.
use vstd::prelude::*;

use crate::laws::{law_decimal_reads_back, lemma_decimal};
use crate::migrate::{
    dry_run_text, dry_run_total, first_statement, is_ordered, migration_of, migration_version,
    migrations, pending, three_digits, versions, Migration, BACKUP_EXTENSION, FIRST_SCRIPT,
    FIRST_VERSION,
};
use crate::number::{decimal, digits_value, is_digit, signed_decimal};
use crate::text::{before, contains, ends_with, lines, occurs_at, starts_with, trim_start_of};
use crate::text_laws::{law_before, law_decimal};

verus! {

proof fn lemma_zeros(zeros: Seq<char>, s: Seq<char>)
    requires
        forall|i: int| 0 <= i < zeros.len() ==> #[trigger] zeros[i] == '0',
        s.len() == 0 || s[0] != '0',
    ensures
        trim_start_of(zeros + s, '0') == s,
    decreases zeros.len(),
{
    if zeros.len() > 0 {
        let rest = zeros.skip(1);
        assert((zeros + s)[0] == zeros[0]);
        assert((zeros + s).skip(1) =~= rest + s);
        assert forall|i: int| 0 <= i < rest.len() implies #[trigger] rest[i] == '0' by {
            assert(rest[i] == zeros[i + 1]);
        }
        lemma_zeros(rest, s);
    } else {
        assert(zeros + s =~= s);
    }
}

proof fn lemma_before_hyphen(a: Seq<char>, rest: Seq<char>)
    requires
        !a.contains('-'),
    ensures
        before(a + seq!['-'] + rest, "-"@) == a,
{
    reveal_strlit("-");
    let s = a + seq!['-'] + rest;
    let n = a.len() as int;
    law_before(s, "-"@);
    assert(s.subrange(n, n + 1) =~= "-"@);
    assert(occurs_at(s, "-"@, n));
    let k = before(s, "-"@).len() as int;
    assert(s.subrange(k, k + 1)[0] == '-');
    if k < n {
        assert(a[k] == '-');
    }
    assert(s.take(n) =~= a);
}

/// A script is numbered by what stands before its first hyphen, whatever zeros that starts with. A
/// number of zeros alone is none, and neither is one that is too large.
pub proof fn law_scripts_are_numbered(zeros: Seq<char>, version: nat, rest: Seq<char>)
    requires
        forall|i: int| 0 <= i < zeros.len() ==> #[trigger] zeros[i] == '0',
        rest.len() > 4,
        rest.skip(rest.len() - 4) == seq!['.', 's', 'q', 'l'],
    ensures
        0 < version <= i64::MAX ==> migration_version(
            zeros + decimal(version) + seq!['-'] + rest,
        ) == Some(version as int),
        migration_version(zeros + seq!['-'] + rest) is None,
{
    reveal_strlit(".sql");
    assert forall|i: int| 0 <= i < zeros.len() implies zeros[i] != '-' by {
        assert(zeros[i] == '0');
    }
    let none = zeros + seq!['-'] + rest;
    lemma_before_hyphen(zeros, rest);
    lemma_zeros(zeros, Seq::empty());
    assert(zeros + Seq::<char>::empty() =~= zeros);
    if 0 < version <= i64::MAX {
        let number = decimal(version);
        lemma_decimal(version);
        law_decimal(version as int);
        let a = zeros + number;
        assert forall|i: int| 0 <= i < a.len() implies a[i] != '-' by {
            if i >= zeros.len() {
                assert(is_digit(number[i - zeros.len()]));
            }
        }
        let name = a + seq!['-'] + rest;
        assert(name.subrange(name.len() - 4, name.len() as int) =~= rest.skip(rest.len() - 4));
        assert(name.subrange(name.len() - 4, name.len() as int) =~= ".sql"@);
        lemma_before_hyphen(a, rest);
        lemma_zeros(zeros, number);
        law_decimal_reads_back(version, i64::MAX as nat);
    }
}

/// A name without the extension of SQL, or without anything before that, is no script's.
pub proof fn law_scripts_have_an_extension(name: Seq<char>)
    requires
        name.len() <= 4 || name.skip(name.len() - 4) != seq!['.', 's', 'q', 'l'],
    ensures
        migration_version(name) is None,
{
    reveal_strlit(".sql");
    if name.len() > 4 && ends_with(name, ".sql"@) {
        assert(name.skip(name.len() - 4) =~= name.subrange(name.len() - 4, name.len() as int));
        assert(name.skip(name.len() - 4) =~= seq!['.', 's', 'q', 'l']);
    }
}

/// The first script brings the schema to the version one, which its name says too.
pub proof fn law_first_script_has_version_one()
    ensures
        FIRST_SCRIPT@ == "001-init.sql"@,
        FIRST_VERSION == 1,
        migration_version(FIRST_SCRIPT@) == Some(FIRST_VERSION as int),
        BACKUP_EXTENSION@ == "db.bak"@,
{
    reveal_strlit("001-init.sql");
    let rest = seq!['i', 'n', 'i', 't', '.', 's', 'q', 'l'];
    let zeros = seq!['0', '0'];
    assert(rest.skip(4) =~= seq!['.', 's', 'q', 'l']);
    law_scripts_are_numbered(zeros, 1, rest);
    assert(decimal(1) =~= seq!['1']);
    assert(zeros + decimal(1) + seq!['-'] + rest =~= "001-init.sql"@);
}

/// The scripts among some names are those with a version, each with its version and its name, in
/// the order of the names.
pub proof fn law_scripts_are_collected_in_order(names: Seq<Seq<char>>, name: Seq<char>)
    ensures
        migrations(Seq::empty()).len() == 0,
        migrations(names.push(name)) == if migration_version(name) is Some {
            migrations(names).push((migration_version(name)->0, name))
        } else {
            migrations(names)
        },
{
    let all = names.push(name);
    let script = |name: Seq<char>| migration_of(name);
    all.lemma_filter_map_take_succ(script, all.len() - 1);
    assert(all.take(all.len() as int) =~= all);
    assert(all.take(all.len() - 1) =~= names);
}

/// A database lacks the scripts of the versions beyond its own, all of them and in their order.
pub proof fn law_later_scripts_are_pending(
    scripts: Seq<(int, Seq<char>)>,
    script: (int, Seq<char>),
    current: int,
)
    ensures
        pending(Seq::empty(), current).len() == 0,
        pending(scripts.push(script), current) == if script.0 > current {
            pending(scripts, current).push(script)
        } else {
            pending(scripts, current)
        },
{
    scripts.lemma_filter_push(script, |script: (int, Seq<char>)| script.0 > current);
    assert(pending(Seq::empty(), current).len() == 0) by {
        reveal(Seq::filter);
    }
}

/// Ordered scripts are in the order of their versions, and those of one version are the ones that
/// there were, in the order in which they were.
pub proof fn law_ordered_scripts_are_the_same(
    sorted: Seq<(int, Seq<char>)>,
    scripts: Seq<(int, Seq<char>)>,
    version: int,
)
    requires
        is_ordered(sorted, scripts),
    ensures
        forall|i: int, j: int|
            0 <= i < j < sorted.len() ==> (#[trigger] sorted[i]).0 <= (#[trigger] sorted[j]).0,
        sorted.filter(|script: (int, Seq<char>)| script.0 == version) == scripts.filter(
            |script: (int, Seq<char>)| script.0 == version,
        ),
{
    assert(crate::migrate::of_version(sorted, version) == crate::migrate::of_version(
        scripts,
        version,
    ));
    assert(crate::migrate::brings_to(version) =~= (|script: (int, Seq<char>)| script.0
        == version));
}

/// A version is told in three digits at least: with zeros before it, and no more of them than that
/// takes.
pub proof fn law_versions_are_told_in_three_digits(n: nat)
    ensures
        three_digits(n as int).len() >= 3,
        n < 1000 ==> three_digits(n as int).len() == 3,
        n >= 100 ==> three_digits(n as int) == decimal(n),
        digits_value(three_digits(n as int)) == n,
        forall|i: int|
            0 <= i < three_digits(n as int).len() ==> '0' <= #[trigger] three_digits(n as int)[i]
                <= '9',
        n > 0 ==> three_digits(-n) == seq!['-'] + three_digits(n as int),
{
    lemma_decimal(n);
    let text = three_digits(n as int);
    assert forall|i: int| 0 <= i < text.len() implies '0' <= #[trigger] text[i] <= '9' by {
        let zeros = text.len() - decimal(n).len();
        if i >= zeros {
            assert(text[i] == decimal(n)[i - zeros]);
            assert(is_digit(decimal(n)[i - zeros]));
        }
    }
    reveal_with_fuel(decimal, 5);
    reveal_with_fuel(digits_value, 5);
    if n < 100 {
        let d = text.len() - 1;
        assert(text.drop_last().drop_last().drop_last() =~= Seq::empty());
        assert(digits_value(text.drop_last().drop_last()) == text[0] as int - '0' as int);
    }
}

/// A script that would be run is told by its version and by its first line that is no comment.
pub proof fn law_dry_run_tells_the_first_statement(version: int, sql: Seq<char>, j: int)
    requires
        0 <= j < lines(sql).len(),
        !starts_with(lines(sql)[j], "--"@),
        forall|i: int| 0 <= i < j ==> starts_with(#[trigger] lines(sql)[i], "--"@),
    ensures
        dry_run_text(version, sql) == "Migration "@ + three_digits(version) + ": "@ + lines(sql)[j],
{
    lemma_first_statement(lines(sql), j);
}

proof fn lemma_first_statement(ls: Seq<Seq<char>>, j: int)
    requires
        0 <= j < ls.len(),
        !starts_with(ls[j], "--"@),
        forall|i: int| 0 <= i < j ==> starts_with(#[trigger] ls[i], "--"@),
    ensures
        first_statement(ls) == ls[j],
    decreases j,
{
    if j > 0 {
        assert(starts_with(ls[0], "--"@));
        let rest = ls.skip(1);
        assert forall|i: int| 0 <= i < j - 1 implies starts_with(#[trigger] rest[i], "--"@) by {
            assert(rest[i] == ls[i + 1]);
        }
        lemma_first_statement(rest, j - 1);
    }
}

/// What would be run is told by the number of scripts, the version now and the version of the last
/// of them.
pub proof fn law_dry_run_tells_the_versions(
    scripts: Seq<(int, Seq<char>)>,
    last: (int, Seq<char>),
    current: int,
)
    ensures
        dry_run_total(Seq::empty(), current) == "Already up to date."@,
        dry_run_total(scripts.push(last), current) == "Would apply "@ + decimal(scripts.len() + 1)
            + " migrations (schema "@ + signed_decimal(current) + " -> "@ + signed_decimal(last.0)
            + ")."@,
{
}

/// The versions of scripts are theirs, in their order.
pub proof fn law_versions_are_those_of_the_scripts(scripts: Seq<(int, Seq<char>)>, i: int)
    requires
        0 <= i < scripts.len(),
    ensures
        versions(scripts).len() == scripts.len(),
        versions(scripts)[i] == scripts[i].0,
{
}

/// A script is read by its version, and then by its name.
pub proof fn law_migration_contents(script: Migration)
    ensures
        script.deep_view().0 == script.version,
        script.deep_view().1 == script.name@,
{
}

} // verus!
