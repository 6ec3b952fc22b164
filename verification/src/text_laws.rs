//! What trimming, searching, splitting and joining do to a text.
use vstd::prelude::*;

use crate::number::{all_digits, decimal, digits_value, is_digit, parsed_number, signed_decimal};
use crate::text::{
    before, contains, ends_with, find, is_whitespace, join, last_position, lemma_find_from, lines,
    occurs_at, split, starts_with, trim, trim_end, trim_end_of, trim_start, trim_start_of, word_len,
    words,
};
use crate::token::{token, RiskLane};
use crate::tool_args_laws::lemma_join_first;

verus! {

/// Whether `s` is all whitespace.
pub open spec fn is_blank(s: Seq<char>) -> bool {
    forall|i: int| 0 <= i < s.len() ==> is_whitespace(#[trigger] s[i])
}

/// Whitespace is tab, line feed, vertical tab, form feed, carriage return and space, the next line
/// and no-break space, and the spaces and separators of Unicode.
pub proof fn law_whitespace(c: char)
    ensures
        is_whitespace(c) <==> {
            ||| c == '\t' || c == '\n' || c == '\u{b}' || c == '\u{c}' || c == '\r' || c == ' '
            ||| c == '\u{85}' || c == '\u{a0}' || c == '\u{1680}'
            ||| c == '\u{2000}' || c == '\u{2001}' || c == '\u{2002}' || c == '\u{2003}'
            ||| c == '\u{2004}' || c == '\u{2005}' || c == '\u{2006}' || c == '\u{2007}'
            ||| c == '\u{2008}' || c == '\u{2009}' || c == '\u{200a}'
            ||| c == '\u{2028}' || c == '\u{2029}' || c == '\u{202f}' || c == '\u{205f}'
            ||| c == '\u{3000}'
        },
{
}

/// A text without its leading whitespace is what is left of it behind whitespace, and starts with
/// something else.
pub proof fn law_trim_start(s: Seq<char>)
    ensures
        is_blank(s.take(s.len() - trim_start(s).len())),
        s.skip(s.len() - trim_start(s).len()) == trim_start(s),
        trim_start(s).len() <= s.len(),
        trim_start(s).len() > 0 ==> !is_whitespace(trim_start(s)[0]),
    decreases s.len(),
{
    if s.len() > 0 && is_whitespace(s[0]) {
        let rest = s.skip(1);
        law_trim_start(rest);
        let n = s.len() - trim_start(s).len();
        assert forall|i: int| 0 <= i < n implies is_whitespace(#[trigger] s.take(n)[i]) by {
            if i > 0 {
                assert(rest.take(n - 1)[i - 1] == s[i]);
            }
        }
        assert(s.skip(n) =~= rest.skip(n - 1));
    } else {
        assert(s.skip(0) =~= s);
    }
}

proof fn lemma_trim_end_is(s: Seq<char>)
    ensures
        trim_end(s).len() <= s.len(),
        s.take(trim_end(s).len() as int) == trim_end(s),
        is_blank(s.skip(trim_end(s).len() as int)),
        trim_end(s).len() > 0 ==> !is_whitespace(trim_end(s).last()),
    decreases s.len(),
{
    if s.len() > 0 && is_whitespace(s.last()) {
        let rest = s.drop_last();
        lemma_trim_end_is(rest);
        let n = trim_end(s).len() as int;
        assert(s.take(n) =~= rest.take(n));
        assert forall|i: int| 0 <= i < s.len() - n implies is_whitespace(#[trigger] s.skip(n)[i]) by {
            if i < rest.len() - n {
                assert(rest.skip(n)[i] == s[n + i]);
            }
        }
    } else {
        assert(s.take(s.len() as int) =~= s);
    }
}

/// A trimmed text is the text between whitespace, and neither starts nor ends with any.
pub proof fn law_trim(s: Seq<char>)
    ensures
        exists|from: int, to: int|
            {
                &&& 0 <= from <= to <= s.len()
                &&& trim(s) == #[trigger] s.subrange(from, to)
                &&& is_blank(s.take(from))
                &&& is_blank(s.skip(to))
            },
        trim(s).len() > 0 ==> !is_whitespace(trim(s)[0]) && !is_whitespace(trim(s).last()),
{
    law_trim_start(s);
    let t = trim_start(s);
    lemma_trim_end_is(t);
    let from = s.len() - t.len();
    let to = from + trim(s).len();
    assert(s.subrange(from, to) =~= t.take(trim(s).len() as int));
    assert(s.skip(to) =~= t.skip(trim(s).len() as int));
    if trim(s).len() > 0 {
        assert(trim(s)[0] == t[0]);
    }
}

/// What is left of a text behind the run of a character does not start with it.
pub proof fn law_trim_start_of(s: Seq<char>, c: char)
    ensures
        trim_start_of(s, c).len() <= s.len(),
        s.skip(s.len() - trim_start_of(s, c).len()) == trim_start_of(s, c),
        forall|i: int| 0 <= i < s.len() - trim_start_of(s, c).len() ==> #[trigger] s[i] == c,
        trim_start_of(s, c).len() > 0 ==> trim_start_of(s, c)[0] != c,
    decreases s.len(),
{
    if s.len() > 0 && s[0] == c {
        let rest = s.skip(1);
        law_trim_start_of(rest, c);
        let n = s.len() - trim_start_of(s, c).len();
        assert forall|i: int| 0 <= i < n implies #[trigger] s[i] == c by {
            if i > 0 {
                assert(rest[i - 1] == s[i]);
            }
        }
        assert(s.skip(n) =~= rest.skip(n - 1));
    } else {
        assert(s.skip(0) =~= s);
    }
}

/// What is left of a text before the run of a character does not end with it.
pub proof fn law_trim_end_of(s: Seq<char>, c: char)
    ensures
        trim_end_of(s, c).len() <= s.len(),
        s.take(trim_end_of(s, c).len() as int) == trim_end_of(s, c),
        forall|i: int| trim_end_of(s, c).len() <= i < s.len() ==> #[trigger] s[i] == c,
        trim_end_of(s, c).len() > 0 ==> trim_end_of(s, c).last() != c,
    decreases s.len(),
{
    if s.len() > 0 && s.last() == c {
        let rest = s.drop_last();
        law_trim_end_of(rest, c);
        let n = trim_end_of(s, c).len() as int;
        assert(s.take(n) =~= rest.take(n));
        assert forall|i: int| n <= i < s.len() implies #[trigger] s[i] == c by {
            if i < rest.len() {
                assert(rest[i] == s[i]);
            }
        }
    } else {
        assert(s.take(s.len() as int) =~= s);
    }
}

/// A text stands in another at an index exactly where so much stands before it, and something
/// behind it.
pub proof fn law_occurrence(a: Seq<char>, p: Seq<char>, b: Seq<char>)
    ensures
        occurs_at(a + p + b, p, a.len() as int),
        contains(a + p + b, p),
        starts_with(p + b, p),
        ends_with(a + p, p),
{
    let s = a + p + b;
    assert(s.subrange(a.len() as int, (a.len() + p.len()) as int) =~= p);
    assert(occurs_at(s, p, a.len() as int));
    assert((p + b).subrange(0, p.len() as int) =~= p);
    assert((a + p).subrange(a.len() as int, (a.len() + p.len()) as int) =~= p);
}

/// A text that starts with, ends with or holds another is made of it and of what else there is.
pub proof fn law_parts(s: Seq<char>, p: Seq<char>)
    ensures
        starts_with(s, p) ==> s == p + s.skip(p.len() as int),
        ends_with(s, p) ==> s == s.take(s.len() - p.len()) + p,
        contains(s, p) ==> exists|i: int|
            {
                &&& 0 <= i <= s.len() - p.len()
                &&& s == #[trigger] s.take(i) + p + s.skip(i + p.len())
            },
{
    if starts_with(s, p) {
        assert(s =~= s.subrange(0, p.len() as int) + s.skip(p.len() as int));
    }
    if ends_with(s, p) {
        let n = s.len() - p.len();
        assert(s =~= s.take(n) + s.subrange(n, n + p.len()));
    }
    if contains(s, p) {
        let i = choose|i: int| occurs_at(s, p, i);
        assert(s =~= s.take(i) + s.subrange(i, i + p.len()) + s.skip(i + p.len()));
    }
}

/// What stands before the first occurrence of a text is all of the text up to it.
pub proof fn law_before(s: Seq<char>, p: Seq<char>)
    ensures
        contains(s, p) ==> {
            &&& before(s, p) == s.take(before(s, p).len() as int)
            &&& occurs_at(s, p, before(s, p).len() as int)
            &&& forall|i: int| 0 <= i < before(s, p).len() ==> !occurs_at(s, p, i)
        },
        !contains(s, p) ==> before(s, p) == s,
{
    lemma_find_from(s, p, 0);
}

/// The last position of a character is one where it stands, with none behind it.
pub proof fn law_last_position(s: Seq<char>, c: char)
    ensures
        match last_position(s, c) {
            Some(i) => {
                &&& 0 <= i < s.len()
                &&& s[i] == c
                &&& forall|j: int| i < j < s.len() ==> #[trigger] s[j] != c
            },
            None => forall|j: int| 0 <= j < s.len() ==> #[trigger] s[j] != c,
        },
    decreases s.len(),
{
    if s.len() > 0 && s.last() != c {
        let rest = s.drop_last();
        law_last_position(rest, c);
        match last_position(rest, c) {
            Some(i) => {
                assert forall|j: int| i < j < s.len() implies #[trigger] s[j] != c by {
                    if j < rest.len() {
                        assert(rest[j] == s[j]);
                    }
                }
            },
            None => {
                assert forall|j: int| 0 <= j < s.len() implies #[trigger] s[j] != c by {
                    if j < rest.len() {
                        assert(rest[j] == s[j]);
                    }
                }
            },
        }
    }
}

/// Texts are joined one by one, with the separator between each two.
pub proof fn law_join(parts: Seq<Seq<char>>, last: Seq<char>, sep: Seq<char>)
    ensures
        join(Seq::<Seq<char>>::empty(), sep) == Seq::<char>::empty(),
        join(seq![last], sep) == last,
        parts.len() > 0 ==> join(parts.push(last), sep) == join(parts, sep) + sep + last,
{
    assert(parts.push(last).drop_last() =~= parts);
}

/// The pieces of a text, joined by what it was split at, are the text again, and none of them
/// holds that.
pub proof fn law_split(s: Seq<char>, p: Seq<char>)
    requires
        p.len() > 0,
    ensures
        split(s, p).len() > 0,
        join(split(s, p), p) == s,
        forall|i: int| 0 <= i < split(s, p).len() ==> !contains(#[trigger] split(s, p)[i], p),
    decreases s.len(),
{
    lemma_find_from(s, p, 0);
    let all = split(s, p);
    match find(s, p) {
        Some(i) => {
            let rest = s.skip(i + p.len());
            law_split(rest, p);
            assert(all.skip(1) =~= split(rest, p));
            lemma_join_first(all, p);
            assert(s.subrange(i, i + p.len()) == p);
            assert(s =~= s.take(i) + p + rest);
            assert forall|k: int| 0 <= k < all.len() implies !contains(#[trigger] all[k], p) by {
                if k == 0 {
                    if contains(s.take(i), p) {
                        let j = choose|j: int| occurs_at(s.take(i), p, j);
                        assert(s.subrange(j, j + p.len()) =~= s.take(i).subrange(j, j + p.len()));
                        assert(occurs_at(s, p, j));
                    }
                } else {
                    assert(all[k] == split(rest, p)[k - 1]);
                }
            }
        },
        None => {
            assert(all =~= seq![s]);
        },
    }
}

proof fn lemma_find_feed(a: Seq<char>, b: Seq<char>)
    requires
        !a.contains('\n'),
    ensures
        find(a + seq!['\n'] + b, seq!['\n']) == Some(a.len() as int),
{
    let s = a + seq!['\n'] + b;
    let feed = seq!['\n'];
    lemma_find_from(s, feed, 0);
    assert(s.subrange(a.len() as int, a.len() as int + 1) =~= feed);
    assert(occurs_at(s, feed, a.len() as int));
    let k = find(s, feed)->0;
    if k < a.len() {
        assert(s.subrange(k, k + 1)[0] == '\n');
        assert(a[k] == '\n');
    }
}

/// A line ends at a line feed, and at a carriage return before it, and the rest goes on with the
/// next. What is behind the last line feed is a line unless it is empty.
pub proof fn law_lines(a: Seq<char>, b: Seq<char>)
    requires
        !a.contains('\n'),
    ensures
        lines(Seq::<char>::empty()) == Seq::<Seq<char>>::empty(),
        a.len() > 0 ==> lines(a) == seq![a],
        (a.len() == 0 || a.last() != '\r') ==> lines(a + seq!['\n'] + b) == seq![a] + lines(b),
        lines(a + seq!['\r', '\n'] + b) == seq![a] + lines(b),
{
    let feed = seq!['\n'];
    if a.len() > 0 {
        lemma_find_from(a, feed, 0);
        if find(a, feed) is Some {
            let k = find(a, feed)->0;
            assert(a.subrange(k, k + 1)[0] == '\n');
            assert(a[k] == '\n');
        }
    }
    let s = a + feed + b;
    lemma_find_feed(a, b);
    assert(s.take(a.len() as int) =~= a);
    assert(s.skip(a.len() as int + 1) =~= b);
    let c = a.push('\r');
    assert(!c.contains('\n')) by {
        assert forall|i: int| 0 <= i < c.len() implies c[i] != '\n' by {
            if i < a.len() {
                assert(a[i] == c[i]);
            }
        }
    }
    lemma_find_feed(c, b);
    let t = a + seq!['\r', '\n'] + b;
    assert(t =~= c + feed + b);
    assert(t.take(c.len() as int) =~= c);
    assert(t.skip(c.len() as int + 1) =~= b);
    assert(c.drop_last() =~= a);
}

proof fn lemma_word_run(w: Seq<char>, rest: Seq<char>)
    requires
        forall|i: int| 0 <= i < w.len() ==> !is_whitespace(#[trigger] w[i]),
        rest.len() > 0 ==> is_whitespace(rest[0]),
    ensures
        word_len(w + rest) == w.len(),
    decreases w.len(),
{
    let s = w + rest;
    if w.len() > 0 {
        assert(s[0] == w[0]);
        assert(s.skip(1) =~= w.skip(1) + rest);
        assert forall|i: int| 0 <= i < w.skip(1).len() implies !is_whitespace(
            #[trigger] w.skip(1)[i],
        ) by {
            assert(w.skip(1)[i] == w[i + 1]);
        }
        lemma_word_run(w.skip(1), rest);
    } else {
        assert(s =~= rest);
    }
}

/// Whitespace before a text is no part of its words, and whitespace behind a word ends it.
pub proof fn law_words(c: char, w: Seq<char>, b: Seq<char>)
    requires
        is_whitespace(c),
        w.len() > 0,
        forall|i: int| 0 <= i < w.len() ==> !is_whitespace(#[trigger] w[i]),
    ensures
        words(Seq::<char>::empty()) == Seq::<Seq<char>>::empty(),
        words(seq![c] + b) == words(b),
        words(w) == seq![w],
        words(w + seq![c] + b) == seq![w] + words(b),
{
    assert((seq![c] + b).skip(1) =~= b);
    lemma_word_run(w, Seq::empty());
    assert(w + Seq::<char>::empty() =~= w);
    assert(w.take(w.len() as int) =~= w);
    assert(w.skip(w.len() as int) =~= Seq::empty());
    assert(words(Seq::<char>::empty()) =~= Seq::empty());
    assert(words(w) =~= seq![w] + words(w.skip(w.len() as int)));
    assert(words(w) =~= seq![w]);
    let rest = seq![c] + b;
    let s = w + rest;
    lemma_word_run(w, rest);
    assert(s[0] == w[0]);
    assert(s =~= w + seq![c] + b);
    assert(s.take(w.len() as int) =~= w);
    assert(s.skip(w.len() as int) =~= rest);
    assert(words(rest) == words(b));
    assert(words(s) =~= seq![w] + words(rest));
}

/// A token has the characters of the trimmed text, with ASCII letters in lower case, and an
/// underscore for each space, hyphen and slash.
pub proof fn law_token(s: Seq<char>, i: int)
    requires
        0 <= i < trim(s).len(),
    ensures
        token(s).len() == trim(s).len(),
        trim(s)[i] == ' ' || trim(s)[i] == '-' || trim(s)[i] == '/' ==> token(s)[i] == '_',
        'A' <= trim(s)[i] <= 'Z' ==> token(s)[i] as int == trim(s)[i] as int - 'A' as int
            + 'a' as int,
        trim(s)[i] != ' ' && trim(s)[i] != '-' && trim(s)[i] != '/' && !('A' <= trim(s)[i] <= 'Z')
            ==> token(s)[i] == trim(s)[i],
{
}

/// A blank text has the empty token, and only such a text has.
pub proof fn law_blank_token(s: Seq<char>)
    ensures
        token(s).len() == 0 <==> trim(s).len() == 0,
{
}

/// The lanes by their names.
pub proof fn law_lane_names()
    ensures
        RiskLane::Tiny.name() == "tiny"@,
        RiskLane::Normal.name() == "normal"@,
        RiskLane::HighRisk.name() == "high_risk"@,
{
}

/// A text names the lane whose name is its token, and no other text names one.
pub proof fn law_lane_named(value: Seq<char>)
    ensures
        match RiskLane::named(value) {
            Some(RiskLane::Tiny) => token(value) == "tiny"@,
            Some(RiskLane::Normal) => token(value) == "normal"@,
            Some(RiskLane::HighRisk) => token(value) == "high_risk"@,
            None => token(value) != "tiny"@ && token(value) != "normal"@ && token(value)
                != "high_risk"@,
        },
{
}

/// A digit behind a number makes it ten times as large, and adds itself.
pub proof fn law_digits(s: Seq<char>, c: char)
    requires
        '0' <= c <= '9',
    ensures
        digits_value(Seq::<char>::empty()) == 0,
        digits_value(s.push(c)) == 10 * digits_value(s) + (c as int - '0' as int),
        is_digit(c),
{
    assert(s.push(c).drop_last() =~= s);
}

proof fn lemma_leading_digit(n: nat)
    ensures
        decimal(n).len() > 0,
        n > 0 ==> decimal(n)[0] != '0',
        n < 10 ==> decimal(n).len() == 1,
    decreases n,
{
    if n >= 10 {
        lemma_leading_digit(n / 10);
    }
}

/// A number is written without leading zeros, and a negative one with a minus sign before its
/// size.
pub proof fn law_decimal(n: int)
    ensures
        n < 0 ==> signed_decimal(n) == seq!['-'] + decimal((-n) as nat),
        n >= 0 ==> signed_decimal(n) == decimal(n as nat),
        n > 0 ==> decimal(n as nat)[0] != '0',
        n == 0 ==> decimal(n as nat) == seq!['0'],
{
    if n >= 0 {
        lemma_leading_digit(n as nat);
    }
}

/// A number is read out of digits alone, of which there is one at least and which may follow a plus
/// sign, as long as it is not too large.
pub proof fn law_parsed_number(s: Seq<char>, max: nat)
    ensures
        s.len() == 0 ==> parsed_number(s, max) is None,
        s.len() > 0 && s[0] != '+' ==> parsed_number(s, max) == if (forall|i: int|
            0 <= i < s.len() ==> '0' <= #[trigger] s[i] <= '9') && digits_value(s) <= max {
            Some(digits_value(s))
        } else {
            None
        },
        s.len() > 0 && s[0] == '+' ==> parsed_number(s, max) == if s.len() > 1 && (forall|i: int|
            1 <= i < s.len() ==> '0' <= #[trigger] s[i] <= '9') && digits_value(s.skip(1)) <= max {
            Some(digits_value(s.skip(1)))
        } else {
            None
        },
{
    if s.len() > 0 && s[0] == '+' {
        let d = s.skip(1);
        if forall|i: int| 1 <= i < s.len() ==> '0' <= #[trigger] s[i] <= '9' {
            assert forall|i: int| 0 <= i < d.len() implies is_digit(#[trigger] d[i]) by {
                assert(d[i] == s[i + 1]);
            }
        }
        if all_digits(d) {
            assert forall|i: int| 1 <= i < s.len() implies '0' <= #[trigger] s[i] <= '9' by {
                assert(is_digit(d[i - 1]));
            }
        }
    } else if s.len() > 0 {
        if all_digits(s) {
            assert forall|i: int| 0 <= i < s.len() implies '0' <= #[trigger] s[i] <= '9' by {
                assert(is_digit(s[i]));
            }
        }
    }
}

} // verus!
