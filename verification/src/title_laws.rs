//! What holds of short titles.
use vstd::prelude::*;
use vstd::utf8::{decode_utf8, encode_utf8, is_ascii_chars};

use crate::laws::law_titles_are_short;
use crate::proposal::{has_short_title, leading_words, title_of};
use crate::text::{is_whitespace, join, lemma_word_len, word_len, words};
use crate::tool_args_laws::lemma_join_first;

verus! {

/// Whether the character at `i`, if it is whitespace, is a space with other characters on both
/// sides.
spec fn spaced(s: Seq<char>, i: int) -> bool {
    is_whitespace(s[i]) ==> {
        &&& s[i] == ' '
        &&& 0 < i
        &&& i + 1 < s.len()
        &&& !is_whitespace(s[i - 1])
        &&& !is_whitespace(s[i + 1])
    }
}

/// Whether the only whitespace is single spaces between other characters.
spec fn neat(s: Seq<char>) -> bool {
    forall|i: int| 0 <= i < s.len() ==> #[trigger] spaced(s, i)
}

spec fn is_space() -> spec_fn(char) -> bool {
    |c: char| c == ' '
}

/// How many spaces there are.
spec fn spaces(s: Seq<char>) -> nat {
    s.filter(is_space()).len()
}

/// Whether `s` is a word: not empty, and without whitespace.
spec fn is_word(s: Seq<char>) -> bool {
    s.len() > 0 && forall|i: int| 0 <= i < s.len() ==> !is_whitespace(#[trigger] s[i])
}

proof fn lemma_spaces_add(a: Seq<char>, b: Seq<char>)
    ensures
        spaces(a + b) == spaces(a) + spaces(b),
{
    Seq::filter_distributes_over_add(a, b, is_space());
}

proof fn lemma_no_spaces(s: Seq<char>)
    requires
        forall|i: int| 0 <= i < s.len() ==> !is_whitespace(#[trigger] s[i]),
    ensures
        spaces(s) == 0,
    decreases s.len(),
{
    reveal(Seq::filter);
    if s.len() > 0 {
        let rest = s.drop_last();
        assert forall|i: int| 0 <= i < rest.len() implies !is_whitespace(#[trigger] rest[i]) by {
            assert(rest[i] == s[i]);
        }
        lemma_no_spaces(rest);
        assert(!is_whitespace(s[s.len() - 1]));
    }
}

proof fn lemma_one_space()
    ensures
        spaces(" "@) == 1,
        " "@ == seq![' '],
{
    reveal_strlit(" ");
    assert(" "@ =~= seq![' ']);
    assert(seq![' '].drop_last() =~= Seq::empty());
    reveal_with_fuel(Seq::filter, 2);
}

proof fn lemma_words_are_words(s: Seq<char>, i: int)
    requires
        0 <= i < words(s).len(),
    ensures
        is_word(words(s)[i]),
        forall|k: int| 0 <= k < words(s)[i].len() ==> s.contains(#[trigger] words(s)[i][k]),
    decreases s.len(),
{
    if s.len() > 0 {
        if is_whitespace(s[0]) {
            let rest = s.skip(1);
            lemma_words_are_words(rest, i);
            assert forall|k: int| 0 <= k < words(s)[i].len() implies s.contains(
                #[trigger] words(s)[i][k],
            ) by {
                assert(rest.contains(words(rest)[i][k]));
                let j = choose|j: int| 0 <= j < rest.len() && rest[j] == words(rest)[i][k];
                assert(s[j + 1] == words(s)[i][k]);
            }
        } else {
            lemma_word_len(s);
            let n = word_len(s) as int;
            let rest = s.skip(n);
            if i == 0 {
                assert(words(s)[0] == s.take(n));
                assert forall|k: int| 0 <= k < n implies s.contains(#[trigger] s.take(n)[k]) by {
                    assert(s[k] == s.take(n)[k]);
                }
            } else {
                assert(words(s)[i] == words(rest)[i - 1]);
                lemma_words_are_words(rest, i - 1);
                assert forall|k: int| 0 <= k < words(s)[i].len() implies s.contains(
                    #[trigger] words(s)[i][k],
                ) by {
                    assert(rest.contains(words(rest)[i - 1][k]));
                    let j = choose|j: int|
                        0 <= j < rest.len() && rest[j] == words(rest)[i - 1][k];
                    assert(s[j + n] == words(s)[i][k]);
                }
            }
        }
    }
}

/// A neat text, a space and a word make a neat text.
proof fn lemma_neat_word(a: Seq<char>, b: Seq<char>)
    requires
        neat(a),
        a.len() > 0,
        is_word(b),
    ensures
        neat(a + " "@ + b),
{
    lemma_one_space();
    let s = a + " "@ + b;
    assert forall|i: int| 0 <= i < s.len() implies #[trigger] spaced(s, i) by {
        let n = a.len() as int;
        assert(spaced(a, n - 1));
        assert(!is_whitespace(a[n - 1]));
        if i < n {
            assert(spaced(a, i));
            assert(s[i] == a[i]);
            if i + 1 < n {
                assert(s[i + 1] == a[i + 1]);
            }
            if i > 0 {
                assert(s[i - 1] == a[i - 1]);
            }
        } else if i == n {
            assert(s[i] == ' ');
            assert(s[i - 1] == a[n - 1]);
            assert(s[i + 1] == b[0]);
        } else {
            assert(s[i] == b[i - n - 1]);
        }
    }
}

/// Words joined by spaces are neat, with a space between each two.
proof fn lemma_joined(parts: Seq<Seq<char>>)
    requires
        forall|i: int| 0 <= i < parts.len() ==> is_word(#[trigger] parts[i]),
    ensures
        neat(join(parts, " "@)),
        parts.len() > 0 ==> join(parts, " "@).len() > 0 && spaces(join(parts, " "@))
            == parts.len() - 1,
        parts.len() == 0 ==> join(parts, " "@).len() == 0,
    decreases parts.len(),
{
    let text = join(parts, " "@);
    if parts.len() == 1 {
        assert(is_word(parts[0]));
        lemma_no_spaces(parts[0]);
        assert forall|i: int| 0 <= i < text.len() implies #[trigger] spaced(text, i) by {
            assert(!is_whitespace(parts[0][i]));
        }
    } else if parts.len() > 1 {
        let rest = parts.drop_last();
        assert forall|i: int| 0 <= i < rest.len() implies is_word(#[trigger] rest[i]) by {
            assert(rest[i] == parts[i]);
        }
        lemma_joined(rest);
        let head = join(rest, " "@);
        let last = parts[parts.len() - 1];
        assert(is_word(last));
        lemma_neat_word(head, last);
        lemma_no_spaces(last);
        lemma_one_space();
        lemma_spaces_add(head + " "@, last);
        lemma_spaces_add(head, " "@);
    }
}

/// A neat text is its words, joined by spaces.
proof fn lemma_neat_is_joined(s: Seq<char>)
    requires
        neat(s),
    ensures
        join(words(s), " "@) == s,
        s.len() > 0 ==> words(s).len() == spaces(s) + 1,
        s.len() == 0 ==> words(s).len() == 0,
    decreases s.len(),
{
    if s.len() > 0 {
        assert(spaced(s, 0));
        lemma_word_len(s);
        lemma_one_space();
        let n = word_len(s) as int;
        let first = s.take(n);
        assert forall|i: int| 0 <= i < first.len() implies !is_whitespace(#[trigger] first[i]) by {
            assert(first[i] == s[i]);
        }
        lemma_no_spaces(first);
        if n == s.len() {
            assert(first =~= s);
            assert(s.skip(n) =~= Seq::empty());
            assert(words(s.skip(n)) =~= Seq::empty());
            assert(words(s) =~= seq![s]);
        } else {
            assert(spaced(s, n));
            let after = s.skip(n);
            let rest = s.skip(n + 1);
            assert(after.skip(1) =~= rest);
            assert(after[0] == s[n]);
            assert(words(after) == words(rest));
            assert forall|i: int| 0 <= i < rest.len() implies #[trigger] spaced(rest, i) by {
                assert(spaced(s, n + 1 + i));
                assert(rest[i] == s[n + 1 + i]);
                if i == 0 {
                    assert(rest[0] == s[n + 1]);
                } else {
                    assert(rest[i - 1] == s[n + i]);
                }
                if i + 1 < rest.len() {
                    assert(rest[i + 1] == s[n + 2 + i]);
                }
            }
            assert(rest.len() > 0);
            lemma_neat_is_joined(rest);
            let all = words(s);
            assert(all =~= seq![first] + words(rest));
            assert(all.skip(1) =~= words(rest));
            lemma_join_first(all, " "@);
            assert(s =~= first + " "@ + rest);
            lemma_spaces_add(first + " "@, rest);
            lemma_spaces_add(first, " "@);
        }
    }
}

proof fn lemma_leading_words(value: Seq<char>)
    ensures
        neat(leading_words(value)),
        spaces(leading_words(value)) <= 7,
{
    let all = words(value);
    let parts = if all.len() > 8 {
        all.take(8)
    } else {
        all
    };
    assert forall|i: int| 0 <= i < parts.len() implies is_word(#[trigger] parts[i]) by {
        lemma_words_are_words(value, i);
        assert(parts[i] == all[i]);
    }
    lemma_joined(parts);
    if parts.len() == 0 {
        lemma_no_spaces(leading_words(value));
    }
}

/// A neat text of at most eight words and 72 bytes is its own title.
proof fn lemma_own_title(t: Seq<char>)
    requires
        neat(t),
        spaces(t) <= 7,
        encode_utf8(t).len() <= 72,
    ensures
        words(t).len() <= 8,
        join(words(t), " "@) == t,
        has_short_title(t),
        title_of(t) == t,
{
    lemma_neat_is_joined(t);
    assert(leading_words(t) == t);
}

/// A title has at most eight words, with single spaces between them and none at its ends, and is
/// its own title.
pub proof fn law_title_is_its_own_title(value: Seq<char>)
    requires
        has_short_title(value),
    ensures
        words(title_of(value)).len() <= 8,
        join(words(title_of(value)), " "@) == title_of(value),
        has_short_title(title_of(value)),
        title_of(title_of(value)) == title_of(value),
{
    let text = leading_words(value);
    let bytes = encode_utf8(text);
    let t = title_of(value);
    lemma_leading_words(value);
    law_titles_are_short(value);
    if bytes.len() > 72 {
        vstd::utf8::encode_utf8_valid_utf8(text);
        vstd::utf8::encode_utf8_decode_utf8(text);
        vstd::utf8::valid_utf8_split(bytes, 69);
        vstd::utf8::decode_utf8_split(bytes, 69);
        let head = decode_utf8(bytes.subrange(0, 69));
        let tail = decode_utf8(bytes.subrange(69, bytes.len() as int));
        assert(text == head + tail);
        vstd::utf8::decode_utf8_encode_utf8(bytes.subrange(0, 69));
        assert(head.len() > 0) by {
            if head.len() == 0 {
                assert(encode_utf8(head).len() == 0);
            }
        }
        reveal_strlit("...");
        assert forall|i: int| 0 <= i < t.len() implies #[trigger] spaced(t, i) by {
            if i < head.len() {
                assert(spaced(text, i));
                assert(t[i] == text[i]);
                if i > 0 {
                    assert(t[i - 1] == text[i - 1]);
                }
                if i + 1 < head.len() {
                    assert(t[i + 1] == text[i + 1]);
                }
            } else {
                assert(t[i] == '.');
            }
        }
        lemma_no_spaces("..."@);
        lemma_spaces_add(head, "..."@);
        lemma_spaces_add(head, tail);
    }
    lemma_own_title(t);
}

proof fn lemma_joined_ascii(parts: Seq<Seq<char>>)
    requires
        forall|i: int| 0 <= i < parts.len() ==> is_ascii_chars(#[trigger] parts[i]),
    ensures
        is_ascii_chars(join(parts, " "@)),
    decreases parts.len(),
{
    lemma_one_space();
    if parts.len() == 1 {
        assert(is_ascii_chars(parts[0]));
    } else if parts.len() > 1 {
        let rest = parts.drop_last();
        assert forall|i: int| 0 <= i < rest.len() implies is_ascii_chars(#[trigger] rest[i]) by {
            assert(rest[i] == parts[i]);
        }
        lemma_joined_ascii(rest);
        let head = join(rest, " "@);
        let last = parts[parts.len() - 1];
        assert(is_ascii_chars(last));
        let text = head + " "@ + last;
        assert forall|i: int| 0 <= i < text.len() implies '\0' <= #[trigger] text[i] <= '\u{7f}' by {
            if i < head.len() {
                assert(text[i] == head[i]);
            } else if i > head.len() {
                assert(text[i] == last[i - head.len() - 1]);
            }
        }
    }
}

/// A title can be cut out of every ASCII text.
pub proof fn law_ascii_texts_have_titles(value: Seq<char>)
    requires
        is_ascii_chars(value),
    ensures
        has_short_title(value),
{
    let all = words(value);
    let parts = if all.len() > 8 {
        all.take(8)
    } else {
        all
    };
    assert forall|i: int| 0 <= i < parts.len() implies is_ascii_chars(#[trigger] parts[i]) by {
        lemma_words_are_words(value, i);
        assert(parts[i] == all[i]);
        assert forall|k: int| 0 <= k < all[i].len() implies '\0' <= #[trigger] all[i][k]
            <= '\u{7f}' by {
            assert(value.contains(all[i][k]));
        }
    }
    lemma_joined_ascii(parts);
    let text = leading_words(value);
    let bytes = encode_utf8(text);
    vstd::utf8::encode_utf8_valid_utf8(text);
    vstd::utf8::is_ascii_chars_encode_utf8(text);
    if bytes.len() > 72 {
        vstd::utf8::is_char_boundary_iff_is_leading_byte(bytes, 69);
        assert(text[69] as u8 == bytes[69]);
        assert(vstd::utf8::is_leading_byte_width_1(bytes[69]));
    }
}

} // verus!
