//! Migrations: the scripts that bring the database from one version of its schema to the next.
use vstd::prelude::*;
use vstd::string::StringExecFns;

use crate::error::{HarnessInfraError, Result};
use crate::number::{decimal, parse_number, parsed_number, signed_decimal, signed_text, unsigned_text};
use crate::query::{find_row, says_no_row};
use crate::text::{
    before, chars_of, ends_with, ends_with_text, lines, lines_of, starts_with, starts_with_text,
    text_before, trim_start_char, trim_start_of,
};

verus! {

/// The version of the schema.
pub const QUERY_SCHEMA_VERSION: &'static str =
    "SELECT COALESCE(MAX(version),0) FROM schema_version;";

/// The script that creates the schema.
pub const FIRST_SCRIPT: &'static str = "001-init.sql";

/// The version of the schema that the first script creates.
pub const FIRST_VERSION: i64 = 1;

/// The extension of the copy of the database that is made before a migration.
pub const BACKUP_EXTENSION: &'static str = "db.bak";

/// A script, by its file name and the version that it brings the schema to.
#[derive(Debug)]
pub struct Migration {
    pub version: i64,
    pub name: String,
}

impl DeepView for Migration {
    type V = (int, Seq<char>);

    open spec fn deep_view(&self) -> (int, Seq<char>) {
        (self.version as int, self.name@)
    }
}

/// What a migration did.
#[derive(Debug, PartialEq, Eq)]
pub struct MigrateResult {
    /// The version before the migration.
    pub current_version: i64,
    /// The versions of the scripts that were run.
    pub applied: Vec<i64>,
    pub backup_created: bool,
}

/// The version that a file name gives: the number before its first hyphen, in a name with the
/// extension of SQL. A number of zeros alone is none.
pub open spec fn migration_version(name: Seq<char>) -> Option<int> {
    if name.len() > 4 && ends_with(name, ".sql"@) {
        match parsed_number(trim_start_of(before(name, "-"@), '0'), i64::MAX as nat) {
            Some(version) => Some(version as int),
            None => None,
        }
    } else {
        None
    }
}

/// The script of this file name, if it is one.
pub open spec fn migration_of(name: Seq<char>) -> Option<(int, Seq<char>)> {
    match migration_version(name) {
        Some(version) => Some((version, name)),
        None => None,
    }
}

/// The scripts among `names`, in the order of the names.
pub open spec fn migrations(names: Seq<Seq<char>>) -> Seq<(int, Seq<char>)> {
    names.filter_map(|name: Seq<char>| migration_of(name))
}

/// Whether the versions do not fall.
pub open spec fn in_order(scripts: Seq<(int, Seq<char>)>) -> bool {
    forall|i: int, j: int|
        0 <= i <= j < scripts.len() ==> (#[trigger] scripts[i]).0 <= (#[trigger] scripts[j]).0
}

/// What holds of the scripts that bring the schema to the version `version`.
pub open spec fn brings_to(version: int) -> spec_fn((int, Seq<char>)) -> bool {
    |script: (int, Seq<char>)| script.0 == version
}

/// The scripts that bring the schema to the version `version`.
pub open spec fn of_version(scripts: Seq<(int, Seq<char>)>, version: int) -> Seq<(int, Seq<char>)> {
    scripts.filter(brings_to(version))
}

/// Whether `sorted` holds the scripts of `scripts` in the order of their versions, those of one
/// version in the order in which they were.
pub open spec fn is_ordered(sorted: Seq<(int, Seq<char>)>, scripts: Seq<(int, Seq<char>)>) -> bool {
    &&& in_order(sorted)
    &&& forall|version: int| #[trigger]
        of_version(sorted, version) == of_version(scripts, version)
}

/// The scripts that a database of the version `current` lacks.
pub open spec fn pending(scripts: Seq<(int, Seq<char>)>, current: int) -> Seq<(int, Seq<char>)> {
    scripts.filter(|script: (int, Seq<char>)| script.0 > current)
}

/// The version of the schema, by what the query for it gave. A table without a row has the
/// version zero.
pub fn schema_version(row: std::result::Result<i64, rusqlite::Error>) -> (r: Result<i64>)
    ensures
        match row {
            Ok(version) => r == Ok::<i64, HarnessInfraError>(version),
            Err(error) => r == if says_no_row(error) {
                Ok::<i64, HarnessInfraError>(0)
            } else {
                Err(HarnessInfraError::Sqlite(error))
            },
        },
{
    match find_row(row) {
        Ok(found) => match found {
            Some(version) => Ok(version),
            None => Ok(0),
        },
        Err(error) => Err(error),
    }
}

/// The version of the schema, by what the query for it gave: zero where there is no schema to
/// ask for one.
pub fn current_version(row: std::result::Result<i64, rusqlite::Error>) -> (r: i64)
    ensures
        r == match row {
            Ok(version) => version,
            Err(_) => 0,
        },
{
    match schema_version(row) {
        Ok(version) => version,
        Err(_) => 0,
    }
}

/// The version that a file name gives.
pub fn version_of(name: &str) -> (r: Option<i64>)
    ensures
        match r {
            Some(version) => migration_version(name@) == Some(version as int),
            None => migration_version(name@) is None,
        },
{
    let chars = chars_of(name);
    if chars.len() <= 4 || !ends_with_text(name, ".sql") {
        return None;
    }
    let prefix = text_before(name, "-");
    match parse_number(trim_start_char(prefix.as_str(), '0').as_str(), i64::MAX as u64) {
        Some(version) => Some(version as i64),
        None => None,
    }
}

proof fn lemma_none_of_version(scripts: Seq<(int, Seq<char>)>, version: int)
    requires
        forall|i: int| 0 <= i < scripts.len() ==> (#[trigger] scripts[i]).0 != version,
    ensures
        of_version(scripts, version) == Seq::<(int, Seq<char>)>::empty(),
    decreases scripts.len(),
{
    reveal(Seq::filter);
    if scripts.len() > 0 {
        let rest = scripts.drop_last();
        assert forall|i: int| 0 <= i < rest.len() implies (#[trigger] rest[i]).0 != version by {
            assert(rest[i] == scripts[i]);
        }
        lemma_none_of_version(rest, version);
        assert(scripts[scripts.len() - 1].0 != version);
    }
}

/// A script put in before all later versions is the last one of its version.
proof fn lemma_put_in(
    head: Seq<(int, Seq<char>)>,
    tail: Seq<(int, Seq<char>)>,
    new: (int, Seq<char>),
    version: int,
)
    requires
        forall|i: int| 0 <= i < tail.len() ==> (#[trigger] tail[i]).0 > new.0,
    ensures
        of_version(head.push(new) + tail, version) == if new.0 == version {
            of_version(head + tail, version).push(new)
        } else {
            of_version(head + tail, version)
        },
{
    let same = brings_to(version);
    Seq::filter_distributes_over_add(head.push(new), tail, same);
    Seq::filter_distributes_over_add(head, tail, same);
    head.lemma_filter_push(new, same);
    if new.0 == version {
        lemma_none_of_version(tail, version);
        assert(tail.filter(same) =~= Seq::<(int, Seq<char>)>::empty());
        assert((head.push(new) + tail).filter(same) =~= (head + tail).filter(same).push(new));
    }
}

/// Puts a script behind those of `sorted` with no later version.
fn insert_in_order(sorted: &mut Vec<Migration>, script: Migration)
    requires
        in_order(old(sorted).deep_view()),
    ensures
        in_order(final(sorted).deep_view()),
        forall|version: int| #[trigger]
            of_version(final(sorted).deep_view(), version) == of_version(
                old(sorted).deep_view().push(script.deep_view()),
                version,
            ),
{
    let ghost all = sorted.deep_view();
    let ghost new = script.deep_view();
    let mut i: usize = 0;
    while i < sorted.len() && sorted[i].version <= script.version
        invariant
            i <= sorted.len(),
            all == sorted.deep_view(),
            new == script.deep_view(),
            forall|j: int| 0 <= j < i ==> (#[trigger] all[j]).0 <= new.0,
        decreases sorted.len() - i,
    {
        assert(all[i as int] == sorted@[i as int].deep_view());
        i = i + 1;
    }
    proof {
        if i < all.len() {
            assert(all[i as int] == sorted@[i as int].deep_view());
        }
        assert forall|j: int| i <= j < all.len() implies (#[trigger] all[j]).0 > new.0 by {
            assert(all[i as int].0 <= all[j].0);
        }
    }
    sorted.insert(i, script);
    proof {
        let after = sorted.deep_view();
        let head = all.take(i as int);
        let tail = all.skip(i as int);
        assert(after =~= head.push(new) + tail);
        assert(all =~= head + tail);
        assert forall|j: int| 0 <= j < tail.len() implies (#[trigger] tail[j]).0 > new.0 by {
            assert(tail[j] == all[i + j]);
        }
        assert forall|version: int| #[trigger]
            of_version(after, version) == of_version(all.push(new), version) by {
            lemma_put_in(head, tail, new, version);
            all.lemma_filter_push(new, brings_to(version));
        }
        assert forall|j: int, k: int| 0 <= j <= k < after.len() implies (#[trigger] after[j]).0 <= (
        #[trigger] after[k]).0 by {
            if j < i && k < i {
                assert(all[j].0 <= all[k].0);
            } else if j < i && k > i {
                assert(all[j].0 <= all[k - 1].0);
            } else if j == i && k > i {
                assert(all[k - 1].0 > new.0);
            } else if j > i {
                assert(all[j - 1].0 <= all[k - 1].0);
            }
        }
    }
}

/// The scripts among the files `names`, in the order of their versions.
pub fn migration_files(names: &[String]) -> (r: Vec<Migration>)
    ensures
        is_ordered(r.deep_view(), migrations(names.deep_view())),
{
    let ghost all = names.deep_view();
    let ghost found = |name: Seq<char>| migration_of(name);
    let mut r: Vec<Migration> = Vec::new();
    let mut i: usize = 0;
    assert(r.deep_view() =~= all.take(0).filter_map(found)) by {
        assert(all.take(0) =~= Seq::empty());
        reveal(Seq::filter_map);
    }
    while i < names.len()
        invariant
            i <= names.len(),
            all == names.deep_view(),
            found == (|name: Seq<char>| migration_of(name)),
            is_ordered(r.deep_view(), all.take(i as int).filter_map(found)),
        decreases names.len() - i,
    {
        let ghost so_far = all.take(i as int).filter_map(found);
        let ghost had = r.deep_view();
        let name = names[i].as_str();
        proof {
            assert(all[i as int] == name@);
            assert(all.take(i + 1) =~= all.take(i as int).push(name@));
            assert(all.take(i + 1).drop_last() =~= all.take(i as int));
            reveal(Seq::filter_map);
        }
        if let Some(version) = version_of(name) {
            let script = Migration { version, name: name.to_owned() };
            let ghost new = script.deep_view();
            insert_in_order(&mut r, script);
            proof {
                assert(all.take(i + 1).filter_map(found) =~= so_far.push(new));
                assert forall|v: int| #[trigger]
                    of_version(r.deep_view(), v) == of_version(so_far.push(new), v) by {
                    let same = brings_to(v);
                    had.lemma_filter_push(new, same);
                    so_far.lemma_filter_push(new, same);
                    assert(of_version(had, v) == of_version(so_far, v));
                }
            }
        }
        i = i + 1;
    }
    assert(all.take(i as int) =~= all);
    r
}

/// The scripts that a database of the version `current` lacks.
pub fn pending_migrations(scripts: Vec<Migration>, current: i64) -> (r: Vec<Migration>)
    ensures
        r.deep_view() == pending(scripts.deep_view(), current as int),
{
    let ghost all = scripts.deep_view();
    let ghost items = scripts@;
    let ghost later = |script: (int, Seq<char>)| script.0 > current;
    let mut r: Vec<Migration> = Vec::new();
    assert(r.deep_view() =~= all.take(0).filter(later)) by {
        assert(all.take(0) =~= Seq::empty());
        reveal(Seq::filter);
    }
    for script in it: scripts
        invariant
            it.seq() == items,
            all == items.map_values(|script: Migration| script.deep_view()),
            later == (|script: (int, Seq<char>)| script.0 > current),
            r.deep_view() == all.take(it.index() as int).filter(later),
    {
        let ghost i = it.index() as int;
        let ghost had = r.deep_view();
        proof {
            assert(all[i] == script.deep_view());
            assert(all.take(i + 1) =~= all.take(i).push(all[i]));
            all.take(i).lemma_filter_push(all[i], later);
        }
        if script.version > current {
            r.push(script);
            assert(r.deep_view() =~= had.push(all[i]));
        }
    }
    assert(all.take(all.len() as int) =~= all);
    r
}

/// The first line that is not a comment.
pub open spec fn first_statement(ls: Seq<Seq<char>>) -> Seq<char>
    decreases ls.len(),
{
    if ls.len() == 0 {
        Seq::empty()
    } else if starts_with(ls[0], "--"@) {
        first_statement(ls.skip(1))
    } else {
        ls[0]
    }
}

/// `n` in decimal, with zeros before it up to three digits.
pub open spec fn zero_filled(n: nat) -> Seq<char> {
    if n < 10 {
        seq!['0', '0'] + decimal(n)
    } else if n < 100 {
        seq!['0'] + decimal(n)
    } else {
        decimal(n)
    }
}

/// `n` in decimal in at least three digits, with a minus sign where it is negative.
pub open spec fn three_digits(n: int) -> Seq<char> {
    if n < 0 {
        seq!['-'] + zero_filled((-n) as nat)
    } else {
        zero_filled(n as nat)
    }
}

/// How a script that would be run is told.
pub open spec fn dry_run_text(version: int, sql: Seq<char>) -> Seq<char> {
    "Migration "@ + three_digits(version) + ": "@ + first_statement(lines(sql))
}

fn first_statement_of(sql: &str) -> (r: String)
    ensures
        r@ == first_statement(lines(sql@)),
{
    let all = lines_of(sql);
    let ghost ls = lines(sql@);
    let mut i: usize = 0;
    assert(ls.skip(0) =~= ls);
    while i < all.len()
        invariant
            i <= all.len(),
            all.deep_view() == ls,
            ls == lines(sql@),
            first_statement(ls) == first_statement(ls.skip(i as int)),
        decreases all.len() - i,
    {
        assert(ls[i as int] == all@[i as int]@);
        assert(ls.skip(i as int)[0] == ls[i as int]);
        assert(ls.skip(i as int).skip(1) =~= ls.skip(i + 1));
        if !starts_with_text(all[i].as_str(), "--") {
            return all[i].clone();
        }
        i = i + 1;
    }
    String::new()
}

fn three_digit_text(n: i64) -> (r: String)
    ensures
        r@ == three_digits(n as int),
{
    let mut r = String::new();
    if n < 0 {
        r.push('-');
    }
    let size: u64 = if n < 0 {
        (-(n as i128)) as u64
    } else {
        n as u64
    };
    if size < 10 {
        r.push('0');
    }
    if size < 100 {
        r.push('0');
    }
    r.append(unsigned_text(size).as_str());
    assert(r@ =~= three_digits(n as int));
    r
}

/// How a script that would be run is told.
pub fn dry_run_line(version: i64, sql: &str) -> (r: String)
    ensures
        r@ == dry_run_text(version as int, sql@),
{
    let mut r = "Migration ".to_owned();
    r.append(three_digit_text(version).as_str());
    r.append(": ");
    r.append(first_statement_of(sql).as_str());
    r
}

/// How much would be run.
pub open spec fn dry_run_total(scripts: Seq<(int, Seq<char>)>, current: int) -> Seq<char> {
    if scripts.len() == 0 {
        "Already up to date."@
    } else {
        "Would apply "@ + decimal(scripts.len()) + " migrations (schema "@ + signed_decimal(
            current,
        ) + " -> "@ + signed_decimal(scripts.last().0) + ")."@
    }
}

/// How much would be run of the scripts that are pending.
pub fn dry_run_summary(scripts: &[Migration], current: i64) -> (r: String)
    ensures
        r@ == dry_run_total(scripts.deep_view(), current as int),
{
    if scripts.len() == 0 {
        return "Already up to date.".to_owned();
    }
    let last = &scripts[scripts.len() - 1];
    assert(scripts.deep_view().last() == last.deep_view());
    let mut r = "Would apply ".to_owned();
    r.append(unsigned_text(scripts.len() as u64).as_str());
    r.append(" migrations (schema ");
    r.append(signed_text(current).as_str());
    r.append(" -> ");
    r.append(signed_text(last.version).as_str());
    r.append(").");
    r
}

/// How a migration goes about its work.
#[derive(Debug, Clone, Copy, PartialEq, Eq)]
pub enum MigratePlan {
    /// Puts the copy back in the place of the database.
    Repair,
    /// Tells which scripts would be run.
    DryRun,
    /// Copies the database and runs the scripts that are pending.
    Apply,
}

/// How a migration goes about its work. A repair comes before anything else.
pub fn migrate_plan(repair: bool, dry_run: bool) -> (r: MigratePlan)
    ensures
        r == if repair {
            MigratePlan::Repair
        } else if dry_run {
            MigratePlan::DryRun
        } else {
            MigratePlan::Apply
        },
{
    if repair {
        MigratePlan::Repair
    } else if dry_run {
        MigratePlan::DryRun
    } else {
        MigratePlan::Apply
    }
}

/// The versions of `scripts`.
pub open spec fn versions(scripts: Seq<(int, Seq<char>)>) -> Seq<int> {
    scripts.map_values(|script: (int, Seq<char>)| script.0)
}

/// What a migration did that ran `scripts`.
pub fn migrated(current: i64, scripts: &[Migration]) -> (r: MigrateResult)
    ensures
        r.current_version == current,
        r.applied@.map_values(|version: i64| version as int) == versions(scripts.deep_view()),
        r.backup_created,
{
    let mut applied: Vec<i64> = Vec::new();
    let mut i: usize = 0;
    while i < scripts.len()
        invariant
            i <= scripts.len(),
            applied.len() == i,
            forall|j: int| 0 <= j < i ==> #[trigger] applied[j] == scripts[j].version,
        decreases scripts.len() - i,
    {
        applied.push(scripts[i].version);
        i = i + 1;
    }
    assert(applied@.map_values(|version: i64| version as int) =~= versions(scripts.deep_view()));
    MigrateResult { current_version: current, applied, backup_created: true }
}

/// What a repair, and a dry run, of a database of the version `current` did: no script was run.
pub fn not_migrated(current: i64) -> (r: MigrateResult)
    ensures
        r.current_version == current,
        r.applied@ == Seq::<i64>::empty(),
        !r.backup_created,
{
    MigrateResult { current_version: current, applied: Vec::new(), backup_created: false }
}

/// How the database is set up.
#[derive(Debug, Clone, Copy, PartialEq, Eq)]
pub enum InitPlan {
    /// There is none: the schema goes into a new one.
    Create,
    /// There is one without a schema, which it gets.
    Upgrade,
    /// There is one with a schema of this version, which it keeps.
    Keep(i64),
}

/// How the database is set up, by the version of its schema, if there is a database.
pub fn init_plan(existing: Option<i64>) -> (r: InitPlan)
    ensures
        r == match existing {
            None => InitPlan::Create,
            Some(version) => if version == 0 {
                InitPlan::Upgrade
            } else {
                InitPlan::Keep(version)
            },
        },
{
    match existing {
        None => InitPlan::Create,
        Some(version) => if version == 0 {
            InitPlan::Upgrade
        } else {
            InitPlan::Keep(version)
        },
    }
}

proof fn lemma_pending_in_order(scripts: Seq<(int, Seq<char>)>, current: int)
    requires
        in_order(scripts),
    ensures
        in_order(pending(scripts, current)),
        forall|i: int|
            0 <= i < pending(scripts, current).len() ==> (#[trigger] pending(scripts, current)[i]).0
                > current,
        forall|i: int|
            0 <= i < scripts.len() && (#[trigger] scripts[i]).0 > current ==> pending(
                scripts,
                current,
            ).len() > 0 && scripts[i].0 <= pending(scripts, current).last().0,
    decreases scripts.len(),
{
    reveal(Seq::filter);
    if scripts.len() > 0 {
        let rest = scripts.drop_last();
        let last = scripts.last();
        assert forall|i: int, j: int| 0 <= i <= j < rest.len() implies (#[trigger] rest[i]).0 <= (
        #[trigger] rest[j]).0 by {
            assert(scripts[i].0 <= scripts[j].0);
        }
        lemma_pending_in_order(rest, current);
        let before = pending(rest, current);
        let after = pending(scripts, current);
        assert forall|i: int| 0 <= i < before.len() implies (#[trigger] before[i]).0 <= last.0 by {
            rest.lemma_filter_pred(|script: (int, Seq<char>)| script.0 > current, i);
            lemma_from(rest, current, i);
            let k = choose|k: int| 0 <= k < rest.len() && rest[k] == before[i];
            assert(scripts[k].0 <= scripts[scripts.len() - 1].0);
        }
        assert forall|i: int| 0 <= i < scripts.len() && (#[trigger] scripts[i]).0 > current implies
            after.len() > 0 && scripts[i].0 <= after.last().0 by {
            if i < rest.len() {
                assert(rest[i].0 > current);
                assert(scripts[i].0 <= scripts[scripts.len() - 1].0);
            }
        }
    }
}

/// Each pending script is one of the scripts.
proof fn lemma_from(scripts: Seq<(int, Seq<char>)>, current: int, i: int)
    requires
        0 <= i < pending(scripts, current).len(),
    ensures
        exists|k: int| 0 <= k < scripts.len() && #[trigger] scripts[k] == pending(scripts, current)[i],
    decreases scripts.len(),
{
    reveal(Seq::filter);
    if scripts.len() > 0 {
        let rest = scripts.drop_last();
        if i < pending(rest, current).len() {
            lemma_from(rest, current, i);
            let k = choose|k: int| 0 <= k < rest.len() && #[trigger] rest[k] == pending(rest, current)[i];
            assert(scripts[k] == pending(scripts, current)[i]);
        } else {
            assert(scripts[scripts.len() - 1] == pending(scripts, current)[i]);
        }
    }
}

/// The pending scripts come in the order of their versions, each later than that of the
/// database.
pub proof fn law_pending_scripts_move_forward(scripts: Seq<(int, Seq<char>)>, current: int)
    requires
        in_order(scripts),
    ensures
        in_order(pending(scripts, current)),
        forall|i: int|
            0 <= i < pending(scripts, current).len() ==> (#[trigger] pending(scripts, current)[i]).0
                > current,
{
    lemma_pending_in_order(scripts, current);
}

/// At the version of the last pending script, no script is pending.
pub proof fn law_nothing_is_pending_after_migrating(
    scripts: Seq<(int, Seq<char>)>,
    current: int,
)
    requires
        in_order(scripts),
        pending(scripts, current).len() > 0,
    ensures
        pending(scripts, pending(scripts, current).last().0).len() == 0,
{
    let reached = pending(scripts, current).last().0;
    lemma_pending_in_order(scripts, current);
    if pending(scripts, reached).len() > 0 {
        lemma_pending_in_order(scripts, reached);
        lemma_from(scripts, reached, 0);
        let k = choose|k: int|
            0 <= k < scripts.len() && #[trigger] scripts[k] == pending(scripts, reached)[0];
        assert(scripts[k].0 > reached);
        assert(pending(scripts, current)[pending(scripts, current).len() - 1].0 > current);
        assert(scripts[k].0 > current);
    }
}

} // verus!
