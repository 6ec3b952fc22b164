//! Plain text: what trimming, splitting, searching and joining mean on a sequence of
//! characters, and executable functions that do it.
use vstd::prelude::*;
use vstd::string::StringExecFns;

verus! {

/// The characters with the Unicode property `White_Space`.
pub open spec fn is_whitespace(c: char) -> bool {
    ||| '\u{9}' <= c <= '\u{d}'
    ||| c == '\u{20}'
    ||| c == '\u{85}'
    ||| c == '\u{a0}'
    ||| c == '\u{1680}'
    ||| '\u{2000}' <= c <= '\u{200a}'
    ||| c == '\u{2028}'
    ||| c == '\u{2029}'
    ||| c == '\u{202f}'
    ||| c == '\u{205f}'
    ||| c == '\u{3000}'
}

/// `s` without its leading whitespace.
pub open spec fn trim_start(s: Seq<char>) -> Seq<char>
    decreases s.len(),
{
    if s.len() > 0 && is_whitespace(s[0]) {
        trim_start(s.skip(1))
    } else {
        s
    }
}

/// `s` without its trailing whitespace.
pub open spec fn trim_end(s: Seq<char>) -> Seq<char>
    decreases s.len(),
{
    if s.len() > 0 && is_whitespace(s.last()) {
        trim_end(s.drop_last())
    } else {
        s
    }
}

/// `s` without its leading and its trailing whitespace.
pub open spec fn trim(s: Seq<char>) -> Seq<char> {
    trim_end(trim_start(s))
}

/// `s` without the run of `c` that it starts with.
pub open spec fn trim_start_of(s: Seq<char>, c: char) -> Seq<char>
    decreases s.len(),
{
    if s.len() > 0 && s[0] == c {
        trim_start_of(s.skip(1), c)
    } else {
        s
    }
}

/// `s` without the run of `c` that it ends with.
pub open spec fn trim_end_of(s: Seq<char>, c: char) -> Seq<char>
    decreases s.len(),
{
    if s.len() > 0 && s.last() == c {
        trim_end_of(s.drop_last(), c)
    } else {
        s
    }
}

/// Whether `p` stands in `s` at index `i`.
pub open spec fn occurs_at(s: Seq<char>, p: Seq<char>, i: int) -> bool {
    &&& 0 <= i
    &&& i + p.len() <= s.len()
    &&& s.subrange(i, i + p.len()) == p
}

pub open spec fn starts_with(s: Seq<char>, p: Seq<char>) -> bool {
    occurs_at(s, p, 0)
}

pub open spec fn ends_with(s: Seq<char>, p: Seq<char>) -> bool {
    occurs_at(s, p, s.len() - p.len())
}

pub open spec fn contains(s: Seq<char>, p: Seq<char>) -> bool {
    exists|i: int| occurs_at(s, p, i)
}

/// The first index, from `i` on, at which `p` stands in `s`.
pub open spec fn find_from(s: Seq<char>, p: Seq<char>, i: int) -> Option<int>
    decreases s.len() + 1 - i,
{
    if i + p.len() > s.len() {
        None
    } else if occurs_at(s, p, i) {
        Some(i)
    } else {
        find_from(s, p, i + 1)
    }
}

/// The first index at which `p` stands in `s`.
pub open spec fn find(s: Seq<char>, p: Seq<char>) -> Option<int> {
    find_from(s, p, 0)
}

/// A search that succeeds names the least index from its start on; one that fails leaves
/// none.
pub proof fn lemma_find_from(s: Seq<char>, p: Seq<char>, i: int)
    requires
        0 <= i,
    ensures
        match find_from(s, p, i) {
            Some(k) => {
                &&& i <= k
                &&& occurs_at(s, p, k)
                &&& forall|j: int| i <= j < k ==> !occurs_at(s, p, j)
            },
            None => forall|j: int| i <= j ==> !occurs_at(s, p, j),
        },
    decreases s.len() + 1 - i,
{
    if i + p.len() <= s.len() && !occurs_at(s, p, i) {
        lemma_find_from(s, p, i + 1);
    }
}

/// The text of `s` before the first occurrence of `p`.
pub open spec fn before(s: Seq<char>, p: Seq<char>) -> Seq<char> {
    match find(s, p) {
        Some(i) => s.take(i),
        None => s,
    }
}

/// The last index at which `c` stands in `s`.
pub open spec fn last_position(s: Seq<char>, c: char) -> Option<int>
    decreases s.len(),
{
    if s.len() == 0 {
        None
    } else if s.last() == c {
        Some(s.len() - 1)
    } else {
        last_position(s.drop_last(), c)
    }
}

/// The pieces of `s` between the occurrences of the non-empty `p`, looked for from the left.
pub open spec fn split(s: Seq<char>, p: Seq<char>) -> Seq<Seq<char>>
    decreases s.len(),
{
    match find(s, p) {
        Some(i) => if p.len() > 0 {
            proof {
                lemma_find_from(s, p, 0);
            }
            seq![s.take(i)] + split(s.skip(i + p.len()), p)
        } else {
            seq![s]
        },
        None => seq![s],
    }
}

/// A line without the carriage return before its line feed.
pub open spec fn without_return(line: Seq<char>) -> Seq<char> {
    if line.len() > 0 && line.last() == '\r' {
        line.drop_last()
    } else {
        line
    }
}

/// The lines of `s`. A line ends with a line feed, which a carriage return may precede; the
/// last line need not end with one.
pub open spec fn lines(s: Seq<char>) -> Seq<Seq<char>>
    decreases s.len(),
{
    if s.len() == 0 {
        Seq::empty()
    } else {
        match find(s, seq!['\n']) {
            Some(i) => {
                proof {
                    lemma_find_from(s, seq!['\n'], 0);
                }
                seq![without_return(s.take(i))] + lines(s.skip(i + 1))
            },
            None => seq![s],
        }
    }
}

/// The length of the run of characters other than whitespace that `s` starts with.
pub open spec fn word_len(s: Seq<char>) -> nat
    decreases s.len(),
{
    if s.len() > 0 && !is_whitespace(s[0]) {
        1 + word_len(s.skip(1))
    } else {
        0
    }
}

/// The words of `s`: its longest runs of characters other than whitespace.
pub open spec fn words(s: Seq<char>) -> Seq<Seq<char>>
    decreases s.len(),
{
    if s.len() == 0 {
        Seq::empty()
    } else if is_whitespace(s[0]) {
        words(s.skip(1))
    } else {
        proof {
            lemma_word_len(s);
        }
        seq![s.take(word_len(s) as int)] + words(s.skip(word_len(s) as int))
    }
}

/// The texts of `parts`, in order, with `sep` between them.
pub open spec fn join(parts: Seq<Seq<char>>, sep: Seq<char>) -> Seq<char>
    decreases parts.len(),
{
    if parts.len() == 0 {
        Seq::empty()
    } else if parts.len() == 1 {
        parts[0]
    } else {
        join(parts.drop_last(), sep) + sep + parts.last()
    }
}

/// `String::push`: appends the character to the text.
pub assume_specification[ String::push ](s: &mut String, c: char)
    ensures
        final(s)@ == old(s)@.push(c),
;

/// Whether `c` is whitespace.
pub fn whitespace(c: char) -> (r: bool)
    ensures
        r == is_whitespace(c),
{
    ('\u{9}' <= c && c <= '\u{d}') || c == '\u{20}' || c == '\u{85}' || c == '\u{a0}' || c
        == '\u{1680}' || ('\u{2000}' <= c && c <= '\u{200a}') || c == '\u{2028}' || c
        == '\u{2029}' || c == '\u{202f}' || c == '\u{205f}' || c == '\u{3000}'
}

/// The characters of `s`.
pub fn chars_of(s: &str) -> (r: Vec<char>)
    ensures
        r@ == s@,
{
    let mut r: Vec<char> = Vec::new();
    for c in it: s.chars()
        invariant
            r@ == it.seq().take(it.index() as int),
            it.seq() == s@,
    {
        r.push(c);
    }
    r
}

/// The text of the characters of `chars` from index `from` up to `to`.
pub fn text_between(chars: &Vec<char>, from: usize, to: usize) -> (r: String)
    requires
        from <= to <= chars.len(),
    ensures
        r@ == chars@.subrange(from as int, to as int),
{
    let mut r: String = String::new();
    let mut i: usize = from;
    while i < to
        invariant
            from <= i <= to <= chars.len(),
            r@ == chars@.subrange(from as int, i as int),
        decreases to - i,
    {
        r.push(chars[i]);
        proof {
            assert(chars@.subrange(from as int, i + 1) =~= chars@.subrange(
                from as int,
                i as int,
            ).push(chars@[i as int]));
        }
        i = i + 1;
    }
    r
}

/// Whether `a` and `b` are the same text.
pub fn same_text(a: &str, b: &str) -> (r: bool)
    ensures
        r == (a@ == b@),
{
    a.to_owned() == b.to_owned()
}

/// The index at which `chars` without its leading whitespace starts.
fn trimmed_start(chars: &Vec<char>) -> (r: usize)
    ensures
        r <= chars.len(),
        trim_start(chars@) == chars@.skip(r as int),
{
    let mut i: usize = 0;
    assert(chars@.skip(0) =~= chars@);
    while i < chars.len() && whitespace(chars[i])
        invariant
            i <= chars.len(),
            trim_start(chars@) == trim_start(chars@.skip(i as int)),
        decreases chars.len() - i,
    {
        assert(chars@.skip(i as int).skip(1) =~= chars@.skip(i + 1));
        i = i + 1;
    }
    i
}

/// `s` without its leading whitespace.
pub fn trim_start_text(s: &str) -> (r: String)
    ensures
        r@ == trim_start(s@),
{
    let chars = chars_of(s);
    let from = trimmed_start(&chars);
    text_between(&chars, from, chars.len())
}

/// `s` without its leading and its trailing whitespace.
pub fn trim_text(s: &str) -> (r: String)
    ensures
        r@ == trim(s@),
{
    let chars = chars_of(s);
    let from = trimmed_start(&chars);
    let mut to: usize = chars.len();
    assert(chars@.subrange(from as int, to as int) =~= chars@.skip(from as int));
    while from < to && whitespace(chars[to - 1])
        invariant
            from <= to <= chars.len(),
            chars@ == s@,
            trim(s@) == trim_end(chars@.subrange(from as int, to as int)),
        decreases to,
    {
        assert(chars@.subrange(from as int, to as int).drop_last() =~= chars@.subrange(
            from as int,
            to - 1,
        ));
        to = to - 1;
    }
    text_between(&chars, from, to)
}

/// `s` without the run of `c` that it starts with.
pub fn trim_start_char(s: &str, c: char) -> (r: String)
    ensures
        r@ == trim_start_of(s@, c),
{
    let chars = chars_of(s);
    let mut i: usize = 0;
    assert(chars@.skip(0) =~= chars@);
    while i < chars.len() && chars[i] == c
        invariant
            i <= chars.len(),
            chars@ == s@,
            trim_start_of(s@, c) == trim_start_of(chars@.skip(i as int), c),
        decreases chars.len() - i,
    {
        assert(chars@.skip(i as int).skip(1) =~= chars@.skip(i + 1));
        i = i + 1;
    }
    text_between(&chars, i, chars.len())
}

/// `s` without the run of `c` that it ends with.
pub fn trim_end_char(s: &str, c: char) -> (r: String)
    ensures
        r@ == trim_end_of(s@, c),
{
    let chars = chars_of(s);
    let mut to: usize = chars.len();
    assert(chars@.take(to as int) =~= chars@);
    while 0 < to && chars[to - 1] == c
        invariant
            to <= chars.len(),
            chars@ == s@,
            trim_end_of(s@, c) == trim_end_of(chars@.take(to as int), c),
        decreases to,
    {
        assert(chars@.take(to as int).drop_last() =~= chars@.take(to - 1));
        to = to - 1;
    }
    text_between(&chars, 0, to)
}

/// Whether `p` stands in `s` at index `i`.
fn stands_at(s: &Vec<char>, p: &Vec<char>, i: usize) -> (r: bool)
    requires
        i + p.len() <= s.len(),
    ensures
        r == occurs_at(s@, p@, i as int),
{
    let mut k: usize = 0;
    while k < p.len()
        invariant
            k <= p.len(),
            i + p.len() <= s.len(),
            forall|j: int| 0 <= j < k ==> s@[i + j] == p@[j],
        decreases p.len() - k,
    {
        if s[i + k] != p[k] {
            assert(s@.subrange(i as int, i + p.len())[k as int] != p@[k as int]);
            return false;
        }
        k = k + 1;
    }
    assert(s@.subrange(i as int, i + p.len()) =~= p@);
    true
}

/// The first index, from `start` on, at which `p` stands in `s`.
pub fn position_from(s: &Vec<char>, p: &Vec<char>, start: usize) -> (r: Option<usize>)
    requires
        start <= s.len(),
    ensures
        match r {
            Some(k) => find_from(s@, p@, start as int) == Some(k as int) && k + p.len() <= s.len(),
            None => find_from(s@, p@, start as int) is None,
        },
{
    let mut i: usize = start;
    while p.len() <= s.len() - i
        invariant
            start <= i <= s.len(),
            find_from(s@, p@, start as int) == find_from(s@, p@, i as int),
        decreases s.len() - i,
    {
        if stands_at(s, p, i) {
            return Some(i);
        }
        if i == s.len() {
            assert(s@.subrange(i as int, i as int) =~= p@);
            return None;
        }
        i = i + 1;
    }
    None
}

/// The first index, counted in characters, at which `p` stands in `s`.
pub fn find_text(s: &str, p: &str) -> (r: Option<usize>)
    ensures
        match r {
            Some(k) => find(s@, p@) == Some(k as int),
            None => find(s@, p@) is None,
        },
{
    position_from(&chars_of(s), &chars_of(p), 0)
}

/// Whether `p` stands in `s`.
pub fn contains_text(s: &str, p: &str) -> (r: bool)
    ensures
        r == contains(s@, p@),
{
    proof {
        lemma_find_from(s@, p@, 0);
    }
    find_text(s, p).is_some()
}

/// Whether `s` starts with `p`.
pub fn starts_with_text(s: &str, p: &str) -> (r: bool)
    ensures
        r == starts_with(s@, p@),
{
    let sc = chars_of(s);
    let pc = chars_of(p);
    pc.len() <= sc.len() && stands_at(&sc, &pc, 0)
}

/// Whether `s` ends with `p`.
pub fn ends_with_text(s: &str, p: &str) -> (r: bool)
    ensures
        r == ends_with(s@, p@),
{
    let sc = chars_of(s);
    let pc = chars_of(p);
    pc.len() <= sc.len() && stands_at(&sc, &pc, sc.len() - pc.len())
}

/// What follows `p` in `s`, where `s` starts with `p`.
pub fn strip_prefix_text(s: &str, p: &str) -> (r: Option<String>)
    ensures
        match r {
            Some(rest) => starts_with(s@, p@) && rest@ == s@.skip(p@.len() as int),
            None => !starts_with(s@, p@),
        },
{
    if starts_with_text(s, p) {
        let sc = chars_of(s);
        let pc = chars_of(p);
        Some(text_between(&sc, pc.len(), sc.len()))
    } else {
        None
    }
}

/// The text of `s` before the first occurrence of `p`.
pub fn text_before(s: &str, p: &str) -> (r: String)
    ensures
        r@ == before(s@, p@),
{
    match find_text(s, p) {
        Some(i) => {
            proof {
                lemma_find_from(s@, p@, 0);
            }
            let r = text_between(&chars_of(s), 0, i);
            assert(r@ =~= s@.take(i as int));
            r
        },
        None => s.to_owned(),
    }
}

/// What stands before and after the last `c` in `s`.
pub fn split_at_last(s: &str, c: char) -> (r: Option<(String, String)>)
    ensures
        match r {
            Some((head, tail)) => {
                &&& last_position(s@, c) is Some
                &&& head@ == s@.take(last_position(s@, c)->0)
                &&& tail@ == s@.skip(last_position(s@, c)->0 + 1)
            },
            None => last_position(s@, c) is None,
        },
{
    let chars = chars_of(s);
    let mut end: usize = chars.len();
    assert(chars@.take(end as int) =~= s@);
    while end > 0
        invariant
            end <= chars.len(),
            chars@ == s@,
            last_position(s@, c) == last_position(chars@.take(end as int), c),
        decreases end,
    {
        assert(chars@.take(end as int).drop_last() =~= chars@.take(end - 1));
        if chars[end - 1] == c {
            let head = text_between(&chars, 0, end - 1);
            let tail = text_between(&chars, end, chars.len());
            assert(head@ =~= s@.take(end - 1));
            assert(tail@ =~= s@.skip(end as int));
            return Some((head, tail));
        }
        end = end - 1;
    }
    None
}

/// The pieces of `s` between the occurrences of `p`.
pub fn split_text(s: &str, p: &str) -> (r: Vec<String>)
    requires
        p@.len() > 0,
    ensures
        r.deep_view() == split(s@, p@),
{
    let sc = chars_of(s);
    let pc = chars_of(p);
    let mut r: Vec<String> = Vec::new();
    let mut from: usize = 0;
    assert(sc@.skip(0) =~= sc@);
    assert(r.deep_view() + split(sc@, p@) =~= split(sc@, p@));
    loop
        invariant
            sc@ == s@,
            pc@ == p@,
            pc.len() > 0,
            from <= sc.len(),
            r.deep_view() + split(sc@.skip(from as int), p@) == split(s@, p@),
        decreases sc.len() - from,
    {
        let ghost rest = sc@.skip(from as int);
        let found = position_from(&sc, &pc, from);
        proof {
            lemma_find_skip(sc@, p@, from as int, 0);
            lemma_find_from(rest, p@, 0);
        }
        let to: usize = match found {
            Some(at) => at,
            None => sc.len(),
        };
        let ghost before = r.deep_view();
        r.push(text_between(&sc, from, to));
        assert(rest.take(to - from) =~= sc@.subrange(from as int, to as int));
        assert(r.deep_view() =~= before.push(rest.take(to - from)));
        match found {
            Some(at) => {
                assert(rest.skip(at - from + p@.len()) =~= sc@.skip(at + pc.len()));
                assert(before + split(rest, p@) =~= r.deep_view() + split(
                    sc@.skip(at + pc.len()),
                    p@,
                ));
                from = at + pc.len();
            },
            None => {
                assert(rest.take(to - from) =~= rest);
                assert(before + split(rest, p@) =~= r.deep_view());
                return r;
            },
        }
    }
}

/// Searching a suffix of `s` is searching `s` from where the suffix starts.
pub proof fn lemma_find_skip(s: Seq<char>, p: Seq<char>, from: int, i: int)
    requires
        0 <= from <= s.len(),
        0 <= i,
    ensures
        match find_from(s, p, from + i) {
            Some(k) => find_from(s.skip(from), p, i) == Some(k - from),
            None => find_from(s.skip(from), p, i) is None,
        },
    decreases s.len() + 1 - from - i,
{
    if from + i + p.len() <= s.len() {
        assert(s.skip(from).subrange(i, i + p.len()) =~= s.subrange(from + i, from + i + p.len()));
        if !occurs_at(s, p, from + i) {
            lemma_find_skip(s, p, from, i + 1);
        }
    }
}

/// The lines of `s`.
pub fn lines_of(s: &str) -> (r: Vec<String>)
    ensures
        r.deep_view() == lines(s@),
{
    let sc = chars_of(s);
    let newline: Vec<char> = vec!['\n'];
    assert(newline@ =~= seq!['\n']);
    let mut r: Vec<String> = Vec::new();
    let mut from: usize = 0;
    assert(sc@.skip(0) =~= sc@);
    assert(r.deep_view() + lines(sc@) =~= lines(sc@));
    while from < sc.len()
        invariant
            sc@ == s@,
            newline@ == seq!['\n'],
            from <= sc.len(),
            r.deep_view() + lines(sc@.skip(from as int)) == lines(s@),
        decreases sc.len() - from,
    {
        let ghost rest = sc@.skip(from as int);
        let ghost before = r.deep_view();
        let found = position_from(&sc, &newline, from);
        proof {
            lemma_find_skip(sc@, newline@, from as int, 0);
        }
        match found {
            Some(at) => {
                proof {
                    lemma_find_from(rest, newline@, 0);
                }
                let to: usize = if from < at && sc[at - 1] == '\r' {
                    at - 1
                } else {
                    at
                };
                r.push(text_between(&sc, from, to));
                assert(sc@.subrange(from as int, to as int) =~= without_return(
                    rest.take(at - from),
                ));
                assert(r.deep_view() =~= before.push(without_return(rest.take(at - from))));
                assert(rest.skip(at - from + 1) =~= sc@.skip(at + 1));
                assert(before + lines(rest) =~= r.deep_view() + lines(sc@.skip(at + 1)));
                from = at + 1;
            },
            None => {
                r.push(text_between(&sc, from, sc.len()));
                assert(sc@.subrange(from as int, sc.len() as int) =~= rest);
                assert(r.deep_view() =~= before.push(rest));
                assert(before + lines(rest) =~= r.deep_view());
                return r;
            },
        }
    }
    assert(r.deep_view() + lines(sc@.skip(from as int)) =~= r.deep_view());
    r
}

/// A word is no longer than the text that it starts.
pub proof fn lemma_word_len(s: Seq<char>)
    ensures
        word_len(s) <= s.len(),
        forall|j: int| 0 <= j < word_len(s) ==> !is_whitespace(#[trigger] s[j]),
        word_len(s) < s.len() ==> is_whitespace(s[word_len(s) as int]),
    decreases s.len(),
{
    if s.len() > 0 && !is_whitespace(s[0]) {
        lemma_word_len(s.skip(1));
        assert forall|j: int| 0 <= j < word_len(s) implies !is_whitespace(#[trigger] s[j]) by {
            if j > 0 {
                assert(s[j] == s.skip(1)[j - 1]);
            }
        }
    }
}

/// The words of `s`.
pub fn words_of(s: &str) -> (r: Vec<String>)
    ensures
        r.deep_view() == words(s@),
{
    let sc = chars_of(s);
    let mut r: Vec<String> = Vec::new();
    let mut from: usize = 0;
    assert(sc@.skip(0) =~= sc@);
    assert(r.deep_view() + words(sc@) =~= words(sc@));
    while from < sc.len()
        invariant
            sc@ == s@,
            from <= sc.len(),
            r.deep_view() + words(sc@.skip(from as int)) == words(s@),
        decreases sc.len() - from,
    {
        let ghost rest = sc@.skip(from as int);
        if whitespace(sc[from]) {
            assert(rest.skip(1) =~= sc@.skip(from + 1));
            from = from + 1;
        } else {
            let mut to: usize = from + 1;
            assert(rest.skip(1) =~= sc@.skip(to as int));
            while to < sc.len() && !whitespace(sc[to])
                invariant
                    from < to <= sc.len(),
                    word_len(rest) == to - from + word_len(sc@.skip(to as int)),
                decreases sc.len() - to,
            {
                assert(sc@.skip(to as int).skip(1) =~= sc@.skip(to + 1));
                to = to + 1;
            }
            assert(word_len(rest) == to - from);
            let ghost before = r.deep_view();
            r.push(text_between(&sc, from, to));
            assert(sc@.subrange(from as int, to as int) =~= rest.take(to - from));
            assert(r.deep_view() =~= before.push(rest.take(to - from)));
            assert(rest.skip(to - from) =~= sc@.skip(to as int));
            assert(before + words(rest) =~= r.deep_view() + words(sc@.skip(to as int)));
            from = to;
        }
    }
    assert(r.deep_view() + words(sc@.skip(from as int)) =~= r.deep_view());
    r
}

/// The texts of `parts`, in order, with `sep` between them.
pub fn join_texts(parts: &[String], sep: &str) -> (r: String)
    ensures
        r@ == join(parts.deep_view(), sep@),
{
    let mut r: String = String::new();
    let mut i: usize = 0;
    let ghost all = parts.deep_view();
    while i < parts.len()
        invariant
            i <= parts.len(),
            all == parts.deep_view(),
            r@ == join(all.take(i as int), sep@),
        decreases parts.len() - i,
    {
        if i > 0 {
            r.append(sep);
        }
        r.append(parts[i].as_str());
        assert(all.take(i + 1).drop_last() =~= all.take(i as int));
        i = i + 1;
    }
    assert(all.take(i as int) =~= all);
    r
}

} // verus!
