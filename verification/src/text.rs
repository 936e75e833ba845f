//! Character sequences cut at a separator and put together again, and lists
//! of strings.

use vstd::prelude::*;
use vstd::std_specs::iter::IteratorSpec;

verus! {

/// The pieces of `s` between the occurrences of `sep`, from left to right.
///
/// Read from the left, every `sep` closes the current piece and opens an
/// empty one; every other character is added to the current piece. A
/// sequence without `sep` is one piece, the empty sequence one empty piece.
pub open spec fn segments(s: Seq<char>, sep: char) -> Seq<Seq<char>>
    decreases s.len(),
{
    if s.len() == 0 {
        seq![Seq::empty()]
    } else {
        let before = segments(s.drop_last(), sep);
        if s.last() == sep {
            before.push(Seq::empty())
        } else {
            before.drop_last().push(before.last().push(s.last()))
        }
    }
}

/// The pieces of `parts` in a row, with `sep` between each two neighbours.
pub open spec fn joined(parts: Seq<Seq<char>>, sep: Seq<char>) -> Seq<char>
    decreases parts.len(),
{
    if parts.len() == 0 {
        Seq::empty()
    } else if parts.len() == 1 {
        parts[0]
    } else {
        joined(parts.drop_last(), sep) + sep + parts.last()
    }
}

/// `s` with every `from` exchanged for `to`.
pub open spec fn replaced(s: Seq<char>, from: char, to: char) -> Seq<char> {
    Seq::new(
        s.len(),
        |i: int|
            if s[i] == from {
                to
            } else {
                s[i]
            },
    )
}

/// How many times `c` stands at the start of `s` before any other character.
pub open spec fn leading(s: Seq<char>, c: char) -> nat
    decreases s.len(),
{
    if s.len() > 0 && s[0] == c {
        1 + leading(s.drop_first(), c)
    } else {
        0
    }
}

/// `s` without the run of `c` that it starts with.
pub open spec fn without_leading(s: Seq<char>, c: char) -> Seq<char> {
    s.skip(leading(s, c) as int)
}

/// A sequence is cut into at least one piece.
pub proof fn lemma_segments_len(s: Seq<char>, sep: char)
    ensures
        segments(s, sep).len() >= 1,
    decreases s.len(),
{
    if s.len() > 0 {
        lemma_segments_len(s.drop_last(), sep);
    }
}

/// No piece holds the separator.
pub proof fn lemma_segments_free(s: Seq<char>, sep: char)
    ensures
        forall|k: int| 0 <= k < segments(s, sep).len() ==> !segments(s, sep)[k].contains(sep),
    decreases s.len(),
{
    if s.len() > 0 {
        let before = segments(s.drop_last(), sep);
        lemma_segments_len(s.drop_last(), sep);
        lemma_segments_free(s.drop_last(), sep);
        if s.last() != sep {
            let grown = before.last().push(s.last());
            assert forall|j: int| 0 <= j < grown.len() implies grown[j] != sep by {
                if j < before.last().len() {
                    assert(before.last().contains(grown[j]));
                }
            }
        }
    }
}

/// The last piece is the end of the sequence, from behind the last separator
/// on: it holds no separator, and what stands before it is nothing or ends
/// with a separator.
pub proof fn lemma_last_segment(s: Seq<char>, sep: char)
    ensures
        ({
            let last = segments(s, sep).last();
            let before = s.len() - last.len();
            &&& last.len() <= s.len()
            &&& last == s.skip(before)
            &&& !last.contains(sep)
            &&& before == 0 || s[before - 1] == sep
        }),
    decreases s.len(),
{
    lemma_segments_len(s, sep);
    lemma_segments_free(s, sep);
    if s.len() > 0 {
        let shorter = s.drop_last();
        lemma_segments_len(shorter, sep);
        lemma_last_segment(shorter, sep);
        let last = segments(s, sep).last();
        if s.last() == sep {
            assert(last == s.skip(s.len() as int));
        } else {
            let earlier = segments(shorter, sep).last();
            assert(last == earlier.push(s.last()));
            assert(earlier.push(s.last()) == s.skip(s.len() - last.len()));
        }
    }
}

/// A character added to the last piece is a character added to the whole.
proof fn lemma_joined_grow(parts: Seq<Seq<char>>, sep: Seq<char>, c: char)
    requires
        parts.len() >= 1,
    ensures
        joined(parts.drop_last().push(parts.last().push(c)), sep) == joined(parts, sep).push(c),
{
    let grown = parts.drop_last().push(parts.last().push(c));
    assert(grown.drop_last() == parts.drop_last());
    if parts.len() > 1 {
        assert(joined(parts.drop_last(), sep) + sep + parts.last().push(c) == (joined(
            parts.drop_last(),
            sep,
        ) + sep + parts.last()).push(c));
    }
}

/// The pieces of `s`, put together with `to` in place of the separator, are
/// `s` with every separator exchanged for `to`.
pub proof fn lemma_joined_segments_replaces(s: Seq<char>, sep: char, to: char)
    ensures
        joined(segments(s, sep), seq![to]) == replaced(s, sep, to),
    decreases s.len(),
{
    if s.len() == 0 {
        assert(replaced(s, sep, to) == Seq::<char>::empty());
    } else {
        let before = segments(s.drop_last(), sep);
        lemma_segments_len(s.drop_last(), sep);
        lemma_joined_segments_replaces(s.drop_last(), sep, to);
        assert(replaced(s, sep, to).drop_last() == replaced(s.drop_last(), sep, to));
        if s.last() == sep {
            assert(before.push(Seq::empty()).drop_last() == before);
            assert(joined(before, seq![to]) + seq![to] + Seq::<char>::empty() == replaced(
                s,
                sep,
                to,
            ));
        } else {
            lemma_joined_grow(before, seq![to], s.last());
            assert(joined(before, seq![to]).push(s.last()) == replaced(s, sep, to));
        }
    }
}

/// Cutting loses nothing: the pieces of `s`, put together with the separator
/// between them, are `s`.
pub proof fn lemma_joined_segments(s: Seq<char>, sep: char)
    ensures
        joined(segments(s, sep), seq![sep]) == s,
{
    lemma_joined_segments_replaces(s, sep, sep);
    assert(replaced(s, sep, sep) == s);
}

/// Characters other than the separator, added at the end, go to the last piece.
proof fn lemma_segments_append(s: Seq<char>, tail: Seq<char>, sep: char)
    requires
        !tail.contains(sep),
    ensures
        segments(s + tail, sep) == segments(s, sep).drop_last().push(
            segments(s, sep).last() + tail,
        ),
    decreases tail.len(),
{
    lemma_segments_len(s, sep);
    let pieces = segments(s, sep);
    if tail.len() == 0 {
        assert(s + tail == s);
        assert(pieces.last() + tail == pieces.last());
        assert(pieces.drop_last().push(pieces.last()) == pieces);
    } else {
        let shorter = tail.drop_last();
        assert forall|j: int| 0 <= j < shorter.len() implies shorter[j] != sep by {
            assert(tail.contains(tail[j]));
        }
        assert(tail.contains(tail.last()));
        lemma_segments_append(s, shorter, sep);
        assert((s + tail).drop_last() == s + shorter);
        let before = segments(s + shorter, sep);
        assert(before.drop_last() == pieces.drop_last());
        assert((pieces.last() + shorter).push(tail.last()) == pieces.last() + tail);
    }
}

/// Cutting undoes joining: pieces that are free of the separator, put
/// together with it, are cut into the same pieces again. With
/// [`lemma_joined_segments`] and [`lemma_segments_free`] this makes
/// `segments` the one way to read `s` as pieces with separators between them.
pub proof fn lemma_segments_joined(parts: Seq<Seq<char>>, sep: char)
    requires
        parts.len() >= 1,
        forall|k: int| 0 <= k < parts.len() ==> !parts[k].contains(sep),
    ensures
        segments(joined(parts, seq![sep]), sep) == parts,
    decreases parts.len(),
{
    if parts.len() == 1 {
        lemma_segments_append(Seq::empty(), parts[0], sep);
        assert(Seq::<char>::empty() + parts[0] == parts[0]);
        assert(seq![Seq::<char>::empty()].drop_last().push(parts[0]) == parts);
    } else {
        let front = parts.drop_last();
        lemma_segments_joined(front, sep);
        let opened = joined(front, seq![sep]) + seq![sep];
        assert(opened.drop_last() == joined(front, seq![sep]));
        assert(segments(opened, sep) == front.push(Seq::empty()));
        lemma_segments_append(opened, parts.last(), sep);
        assert(front.push(Seq::<char>::empty()).drop_last() == front);
        assert(Seq::<char>::empty() + parts.last() == parts.last());
        assert(front.push(parts.last()) == parts);
    }
}

/// Whether two string slices hold the same characters.
pub fn same_text(a: &str, b: &str) -> (same: bool)
    ensures
        same == (a@ == b@),
{
    a.to_owned() == b.to_owned()
}

/// Whether `list` holds `item`.
pub fn holds(list: &[&str], item: &str) -> (found: bool)
    ensures
        found == list.deep_view().contains(item@),
{
    let mut k: usize = 0;
    while k < list.len()
        invariant
            k <= list@.len(),
            forall|j: int| 0 <= j < k ==> list.deep_view()[j] != item@,
        decreases list@.len() - k,
    {
        if same_text(list[k], item) {
            assert(list.deep_view()[k as int] == item@);
            return true;
        }
        k += 1;
    }
    false
}

/// The strings of `list`, each as a `String` of its own.
pub fn owned(list: &[&str]) -> (copies: Vec<String>)
    ensures
        copies.deep_view() == list.deep_view(),
{
    let mut copies: Vec<String> = Vec::new();
    let mut k: usize = 0;
    while k < list.len()
        invariant
            k <= list@.len(),
            copies@.len() == k,
            forall|j: int| 0 <= j < k ==> copies@[j]@ == list@[j]@,
        decreases list@.len() - k,
    {
        copies.push(list[k].to_owned());
        k += 1;
    }
    assert(copies.deep_view() =~= list.deep_view());
    copies
}

/// Cuts `s` at every occurrence of `sep`.
pub fn split<'a>(s: &'a str, sep: char) -> (parts: Vec<&'a str>)
    ensures
        parts.deep_view() == segments(s@, sep),
{
    broadcast use vstd::string::group_string_axioms;

    let n = s.unicode_len();
    let mut parts: Vec<&'a str> = Vec::new();
    let mut start: usize = 0;
    let mut i: usize = 0;
    let mut rest = s.chars();
    proof {
        assert(s@.take(0).len() == 0);
        assert(s@.subrange(0, 0) =~= Seq::<char>::empty());
        assert(parts.deep_view().push(s@.subrange(0, 0)) =~= seq![Seq::<char>::empty()]);
        assert(s@.skip(0) == s@);
    }
    loop
        invariant
            n == s@.len(),
            start <= i <= n,
            rest.remaining() == s@.skip(i as int),
            parts.deep_view().push(s@.subrange(start as int, i as int)) == segments(
                s@.take(i as int),
                sep,
            ),
        ensures
            i == n,
        decreases n - i,
    {
        let next = rest.next();
        match next {
            None => {
                break;
            },
            Some(c) => {
                proof {
                    let taken = s@.take(i + 1);
                    assert(taken.drop_last() == s@.take(i as int));
                    assert(taken.last() == c);
                    assert(s@.skip(i as int).drop_first() == s@.skip(i + 1));
                }
                if c == sep {
                    let piece = s.substring_char(start, i);
                    parts.push(piece);
                    start = i + 1;
                    assert(s@.subrange(start as int, start as int) == Seq::<char>::empty());
                } else {
                    assert(s@.subrange(start as int, i + 1) == s@.subrange(
                        start as int,
                        i as int,
                    ).push(c));
                }
                i += 1;
            },
        }
    }
    let piece = s.substring_char(start, n);
    parts.push(piece);
    assert(s@.take(n as int) == s@);
    parts
}

/// Puts `parts` together, with `sep` between each two neighbours.
pub fn join(parts: &Vec<&str>, sep: &str) -> (whole: String)
    ensures
        whole@ == joined(parts.deep_view(), sep@),
{
    let mut whole = String::new();
    let mut k: usize = 0;
    while k < parts.len()
        invariant
            k <= parts@.len(),
            whole@ == joined(parts.deep_view().take(k as int), sep@),
        decreases parts@.len() - k,
    {
        proof {
            let next = parts.deep_view().take(k + 1);
            assert(next.drop_last() == parts.deep_view().take(k as int));
            assert(next.last() == parts@[k as int]@);
            if k == 0 {
                assert(Seq::<char>::empty() + parts@[0]@ == parts@[0]@);
            }
        }
        if k > 0 {
            whole.append(sep);
        }
        whole.append(parts[k]);
        k += 1;
    }
    assert(parts.deep_view().take(k as int) == parts.deep_view());
    whole
}

/// `s` from the first character on that is not `c`.
pub fn trim_leading<'a>(s: &'a str, c: char) -> (rest: &'a str)
    ensures
        rest@ == without_leading(s@, c),
{
    let n = s.unicode_len();
    let mut k: usize = 0;
    assert(s@.skip(0) == s@);
    while k < n && s.get_char(k) == c
        invariant
            n == s@.len(),
            k <= n,
            leading(s@, c) == k + leading(s@.skip(k as int), c),
        decreases n - k,
    {
        proof {
            let here = s@.skip(k as int);
            assert(here[0] == s@[k as int]);
            assert(here.drop_first() == s@.skip(k + 1));
        }
        k += 1;
    }
    proof {
        let here = s@.skip(k as int);
        if k < n {
            assert(here[0] == s@[k as int]);
        }
        assert(leading(here, c) == 0);
        assert(s@.subrange(k as int, n as int) == s@.skip(k as int));
    }
    s.substring_char(k, n)
}

} // verus!
