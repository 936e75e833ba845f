//! Plain templates: the templates that are handed to the engine.
//!
//! A plain template is text with tags in it. A tag puts out a value,
//! `{{ name }}`, opens a loop over a value, `{% for item in name %}`, closes
//! one, `{% endfor %}`, or leaves what follows, up to `{% endif %}`, out of
//! the last round of a loop: `{% if not loop.last %}`. Nothing is computed
//! in a plain template: it holds no operator, no call, no filter, no
//! subscript, no literal and no comment, and inside a tag no other blank
//! than the space.
//!
//! Whether the tags of a plain template match each other is not asked here:
//! the engine reports a loop that is not closed as an error.

use crate::text::segments;
use vstd::prelude::*;
use vstd::std_specs::iter::IteratorSpec;

verus! {

/// The words that a plain template cannot use as a name, because they mean
/// something to the engine by themselves: its operators, its constants, the
/// names it reserves, and the functions it sets up.
pub const RESERVED_WORDS: [&'static str; 20] = [
    "and",
    "or",
    "not",
    "in",
    "is",
    "if",
    "else",
    "recursive",
    "true",
    "True",
    "false",
    "False",
    "none",
    "None",
    "loop",
    "self",
    "range",
    "dict",
    "debug",
    "namespace",
];

/// An ASCII letter or `_`: what a name starts with.
pub open spec fn name_start(c: char) -> bool {
    ('a' <= c && c <= 'z') || ('A' <= c && c <= 'Z') || c == '_'
}

/// An ASCII letter, an ASCII digit or `_`: what a name is made of.
pub open spec fn name_char(c: char) -> bool {
    name_start(c) || ('0' <= c && c <= '9')
}

/// What can stand inside a tag: what names are made of, the dot, the space.
pub open spec fn body_char(c: char) -> bool {
    name_char(c) || c == '.' || c == ' '
}

/// A name: letters, digits and `_`, no digit first, and no reserved word.
pub open spec fn is_name(word: Seq<char>) -> bool {
    &&& word.len() > 0
    &&& name_start(word[0])
    &&& forall|k: int| 0 <= k < word.len() ==> name_char(#[trigger] word[k])
    &&& !RESERVED_WORDS.deep_view().contains(word)
}

/// The pieces that are not empty, in their order.
pub open spec fn nonempty(pieces: Seq<Seq<char>>) -> Seq<Seq<char>>
    decreases pieces.len(),
{
    if pieces.len() == 0 {
        Seq::empty()
    } else if pieces.last().len() > 0 {
        nonempty(pieces.drop_last()).push(pieces.last())
    } else {
        nonempty(pieces.drop_last())
    }
}

/// The words of a tag: what stands between its spaces.
pub open spec fn words(body: Seq<char>) -> Seq<Seq<char>> {
    nonempty(segments(body, ' '))
}

/// Whether these are the words of a tag that puts out the value of a name:
/// `{{ name }}`.
pub open spec fn output_words(found: Seq<Seq<char>>) -> bool {
    found.len() == 1 && is_name(found[0])
}

/// Whether these are the words of one of the four statements: `endfor`,
/// `endif`, `if not loop.last`, and `for` with a name, `in` and a name.
pub open spec fn statement_words(found: Seq<Seq<char>>) -> bool {
    ||| found.len() == 1 && (found[0] == "endfor"@ || found[0] == "endif"@)
    ||| found.len() == 3 && found[0] == "if"@ && found[1] == "not"@ && found[2] == "loop.last"@
    ||| found.len() == 4 && found[0] == "for"@ && is_name(found[1]) && found[2] == "in"@
        && is_name(found[3])
}

/// Whether a tag with this body puts out the value of a name.
pub open spec fn plain_output(body: Seq<char>) -> bool {
    output_words(words(body))
}

/// Whether a tag with this body is one of the four statements.
pub open spec fn plain_statement(body: Seq<char>) -> bool {
    statement_words(words(body))
}

/// What a list of words stands for in contracts.
pub open spec fn views(found: Seq<Vec<char>>) -> Seq<Seq<char>> {
    Seq::new(found.len(), |k: int| found[k]@)
}

/// How many characters that can stand inside a tag follow each other from
/// `from` on.
pub open spec fn body_len(s: Seq<char>, from: int) -> nat
    decreases s.len() - from,
{
    if 0 <= from < s.len() && body_char(s[from]) {
        1 + body_len(s, from + 1)
    } else {
        0
    }
}

/// Whether a tag or a comment opens at `at`: `{` with `{`, `%` or `#` behind it.
pub open spec fn opens(s: Seq<char>, at: int) -> bool {
    &&& 0 <= at
    &&& at + 1 < s.len()
    &&& s[at] == '{'
    &&& s[at + 1] == '{' || s[at + 1] == '%' || s[at + 1] == '#'
}

/// Whether `s` is plain from `from` on, where `from` is outside any tag.
///
/// Text is read up to the first place where something opens. What opens
/// there has to be a tag, `{{` or `{%`. Its body is every character behind
/// the opening that can stand inside a tag; right behind the body the tag has
/// to close, with `}}` or `%}`, and the body has to be a plain output or a
/// plain statement. Behind the tag the text goes on.
pub open spec fn plain_from(s: Seq<char>, from: int) -> bool
    decreases s.len() - from,
{
    if from < 0 || from >= s.len() {
        true
    } else if opens(s, from) {
        let end = from + 2 + body_len(s, from + 2);
        let output = s[from + 1] == '{';
        let body = s.subrange(from + 2, end);
        &&& s[from + 1] != '#'
        &&& end + 2 <= s.len()
        &&& s[end] == if output {
            '}'
        } else {
            '%'
        }
        &&& s[end + 1] == '}'
        &&& if output {
            plain_output(body)
        } else {
            plain_statement(body)
        }
        &&& plain_from(s, end + 2)
    } else {
        plain_from(s, from + 1)
    }
}

/// Whether `source` is a plain template.
pub open spec fn plain_template(source: Seq<char>) -> bool {
    plain_from(source, 0)
}

/// Text that opens nothing is plain.
pub proof fn lemma_text_is_plain(s: Seq<char>, from: int)
    requires
        forall|k: int| 0 <= k < s.len() ==> s[k] != '{',
    ensures
        plain_from(s, from),
    decreases s.len() - from,
{
    if 0 <= from < s.len() {
        lemma_text_is_plain(s, from + 1);
    }
}

/// The characters of `s`, one by one.
pub fn chars_of(s: &str) -> (chars: Vec<char>)
    ensures
        chars@ == s@,
{
    broadcast use vstd::string::group_string_axioms;

    let mut chars: Vec<char> = Vec::new();
    let mut rest = s.chars();
    assert(s@.skip(0) == s@);
    loop
        invariant
            chars@.len() <= s@.len(),
            chars@ == s@.take(chars@.len() as int),
            rest.remaining() == s@.skip(chars@.len() as int),
        ensures
            chars@ == s@,
        decreases s@.len() - chars@.len(),
    {
        let ghost done = chars@.len() as int;
        match rest.next() {
            None => {
                assert(s@.take(done) == s@);
                break;
            },
            Some(c) => {
                chars.push(c);
                proof {
                    assert(s@.skip(done).drop_first() == s@.skip(done + 1));
                    assert(s@.take(done + 1) == s@.take(done).push(c));
                }
            },
        }
    }
    chars
}

/// Whether `c` is what a name starts with.
pub fn is_name_start(c: char) -> (yes: bool)
    ensures
        yes == name_start(c),
{
    ('a' <= c && c <= 'z') || ('A' <= c && c <= 'Z') || c == '_'
}

/// Whether `c` is what a name is made of.
pub fn is_name_char(c: char) -> (yes: bool)
    ensures
        yes == name_char(c),
{
    is_name_start(c) || ('0' <= c && c <= '9')
}

/// Whether `c` can stand inside a tag.
pub fn is_body_char(c: char) -> (yes: bool)
    ensures
        yes == body_char(c),
{
    is_name_char(c) || c == '.' || c == ' '
}

/// Whether `word` holds the characters of `text`.
pub fn same_chars(word: &Vec<char>, text: &str) -> (same: bool)
    ensures
        same == (word@ == text@),
{
    let other = chars_of(text);
    if word.len() != other.len() {
        return false;
    }
    let mut k: usize = 0;
    while k < word.len()
        invariant
            k <= word@.len(),
            word@.len() == other@.len(),
            other@ == text@,
            forall|j: int| 0 <= j < k ==> word@[j] == other@[j],
        decreases word@.len() - k,
    {
        if word[k] != other[k] {
            return false;
        }
        k += 1;
    }
    assert(word@ =~= text@);
    true
}

/// Whether `word` is a reserved word.
pub fn is_reserved(word: &Vec<char>) -> (yes: bool)
    ensures
        yes == RESERVED_WORDS.deep_view().contains(word@),
{
    let mut k: usize = 0;
    while k < RESERVED_WORDS.len()
        invariant
            k <= RESERVED_WORDS@.len(),
            forall|j: int| 0 <= j < k ==> RESERVED_WORDS.deep_view()[j] != word@,
        decreases RESERVED_WORDS@.len() - k,
    {
        if same_chars(word, RESERVED_WORDS[k]) {
            assert(RESERVED_WORDS.deep_view()[k as int] == word@);
            return true;
        }
        k += 1;
    }
    false
}

/// Whether `word` is a name.
pub fn is_plain_name(word: &Vec<char>) -> (yes: bool)
    ensures
        yes == is_name(word@),
{
    if word.len() == 0 || !is_name_start(word[0]) {
        return false;
    }
    let mut k: usize = 0;
    while k < word.len()
        invariant
            k <= word@.len(),
            forall|j: int| 0 <= j < k ==> name_char(#[trigger] word@[j]),
        decreases word@.len() - k,
    {
        if !is_name_char(word[k]) {
            return false;
        }
        k += 1;
    }
    !is_reserved(word)
}

/// The words of the tag body that `chars` holds from `start` up to `end`.
pub fn body_words(chars: &Vec<char>, start: usize, end: usize) -> (found: Vec<Vec<char>>)
    requires
        start <= end <= chars@.len(),
    ensures
        views(found@) == words(chars@.subrange(start as int, end as int)),
{
    let ghost body = chars@.subrange(start as int, end as int);
    let mut found: Vec<Vec<char>> = Vec::new();
    let mut word: Vec<char> = Vec::new();
    let mut k: usize = start;
    proof {
        assert(body.take(0).len() == 0);
        assert(seq![Seq::<char>::empty()].drop_last() == Seq::<Seq<char>>::empty());
        assert(views(found@) == Seq::<Seq<char>>::empty());
    }
    while k < end
        invariant
            start <= k <= end <= chars@.len(),
            body == chars@.subrange(start as int, end as int),
            segments(body.take(k - start), ' ').len() >= 1,
            segments(body.take(k - start), ' ').last() == word@,
            nonempty(segments(body.take(k - start), ' ').drop_last()) == views(found@),
        decreases end - k,
    {
        let c = chars[k];
        let ghost before = segments(body.take(k - start), ' ');
        let ghost kept = views(found@);
        proof {
            let next = body.take(k + 1 - start);
            assert(next.drop_last() == body.take(k - start));
            assert(next.last() == c);
        }
        if c == ' ' {
            assert(before.push(Seq::empty()).drop_last() == before);
            if word.len() > 0 {
                let ghost grown = word@;
                found.push(word);
                assert(views(found@) == kept.push(grown));
            }
            word = Vec::new();
        } else {
            word.push(c);
            assert(before.drop_last().push(before.last().push(c)).drop_last()
                == before.drop_last());
        }
        k += 1;
    }
    proof {
        assert(body.take(end - start) == body);
    }
    if word.len() > 0 {
        let ghost kept = views(found@);
        let ghost grown = word@;
        found.push(word);
        assert(views(found@) == kept.push(grown));
    }
    found
}

/// Whether `found` holds the words of a tag that puts out the value of a name.
pub fn is_output(found: &Vec<Vec<char>>) -> (yes: bool)
    ensures
        yes == output_words(views(found@)),
{
    found.len() == 1 && is_plain_name(&found[0])
}

/// Whether `found` holds the words of one of the four statements.
pub fn is_statement(found: &Vec<Vec<char>>) -> (yes: bool)
    ensures
        yes == statement_words(views(found@)),
{
    if found.len() == 1 {
        same_chars(&found[0], "endfor") || same_chars(&found[0], "endif")
    } else if found.len() == 3 {
        same_chars(&found[0], "if") && same_chars(&found[1], "not") && same_chars(
            &found[2],
            "loop.last",
        )
    } else if found.len() == 4 {
        same_chars(&found[0], "for") && is_plain_name(&found[1]) && same_chars(&found[2], "in")
            && is_plain_name(&found[3])
    } else {
        false
    }
}

/// Whether `source` is a plain template.
pub fn is_plain_template(source: &str) -> (plain: bool)
    ensures
        plain == plain_template(source@),
{
    let chars = chars_of(source);
    let n: usize = chars.len();
    let mut i: usize = 0;
    while i < n
        invariant
            i <= n,
            n == chars@.len(),
            chars@ == source@,
            plain_template(source@) == plain_from(source@, i as int),
        decreases n - i,
    {
        let opens_here = chars[i] == '{' && n - i >= 2 && (chars[i + 1] == '{' || chars[i + 1]
            == '%' || chars[i + 1] == '#');
        assert(opens_here == opens(source@, i as int));
        if !opens_here {
            i += 1;
        } else {
            if chars[i + 1] == '#' {
                return false;
            }
            let output = chars[i + 1] == '{';
            let start: usize = i + 2;
            let mut end: usize = start;
            while end < n && is_body_char(chars[end])
                invariant
                    start <= end <= n,
                    n == chars@.len(),
                    chars@ == source@,
                    body_len(source@, start as int) == (end - start) + body_len(
                        source@,
                        end as int,
                    ),
                decreases n - end,
            {
                end += 1;
            }
            assert(body_len(source@, end as int) == 0);
            if n - end < 2 {
                return false;
            }
            let close = if output {
                '}'
            } else {
                '%'
            };
            if chars[end] != close || chars[end + 1] != '}' {
                return false;
            }
            let found = body_words(&chars, start, end);
            let fits = if output {
                is_output(&found)
            } else {
                is_statement(&found)
            };
            if !fits {
                return false;
            }
            i = end + 2;
        }
    }
    true
}

} // verus!
