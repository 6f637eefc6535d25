//! Cutting text into lines and operands.

use vstd::prelude::*;

verus! {

/// Whether a character is white space: the characters that Unicode gives the property
/// `White_Space`.
pub open spec fn is_space(c: char) -> bool {
    let code = c as u32;
    ||| 0x09 <= code <= 0x0D
    ||| code == 0x20
    ||| code == 0x85
    ||| code == 0xA0
    ||| code == 0x1680
    ||| 0x2000 <= code <= 0x200A
    ||| code == 0x2028
    ||| code == 0x2029
    ||| code == 0x202F
    ||| code == 0x205F
    ||| code == 0x3000
}

/// The text without the white space at its start.
pub open spec fn trim_front(text: Seq<char>) -> Seq<char>
    decreases text.len(),
{
    if text.len() > 0 && is_space(text[0]) {
        trim_front(text.drop_first())
    } else {
        text
    }
}

/// The text without the white space at its end.
pub open spec fn trim_back(text: Seq<char>) -> Seq<char>
    decreases text.len(),
{
    if text.len() > 0 && is_space(text.last()) {
        trim_back(text.drop_last())
    } else {
        text
    }
}

/// The text without the white space at its start and at its end.
pub open spec fn trimmed(text: Seq<char>) -> Seq<char> {
    trim_back(trim_front(text))
}

/// The place of the first `c` in the text, or the length of the text if it holds none.
pub open spec fn first_index(text: Seq<char>, c: char) -> int
    decreases text.len(),
{
    if text.len() == 0 || text[0] == c {
        0
    } else {
        1 + first_index(text.drop_first(), c)
    }
}

/// The pieces of the text between the separators; a text without separator is one piece,
/// and so is the empty text.
pub open spec fn split(text: Seq<char>, separator: char) -> Seq<Seq<char>>
    decreases text.len(),
{
    let at = first_index(text, separator);
    if 0 <= at < text.len() {
        seq![text.take(at)] + split(text.skip(at + 1), separator)
    } else {
        seq![text]
    }
}

/// The first index is a place in the text or its end; no `c` stands before it, and `c`
/// stands at it if it is a place in the text.
pub proof fn lemma_first_index(text: Seq<char>, c: char)
    ensures
        0 <= first_index(text, c) <= text.len(),
        forall|i: int| 0 <= i < first_index(text, c) ==> text[i] != c,
        first_index(text, c) < text.len() ==> text[first_index(text, c)] == c,
    decreases text.len(),
{
    if text.len() == 0 || text[0] == c {
    } else {
        let rest = text.drop_first();
        lemma_first_index(rest, c);
        assert forall|i: int| 0 <= i < first_index(text, c) implies text[i] != c by {
            if i > 0 {
                assert(text[i] == rest[i - 1]);
            }
        }
        if first_index(text, c) < text.len() {
            assert(text[first_index(text, c)] == rest[first_index(rest, c)]);
        }
    }
}

/// A text without white space at its start has none there after its end was trimmed.
proof fn lemma_trim_back_keeps_front(text: Seq<char>)
    requires
        text.len() == 0 || !is_space(text[0]),
    ensures
        trim_back(text).len() == 0 || !is_space(trim_back(text)[0]),
    decreases text.len(),
{
    if text.len() > 0 && is_space(text.last()) {
        assert(text.len() > 1);
        lemma_trim_back_keeps_front(text.drop_last());
    }
}

/// The text after trimming its start starts with no white space.
proof fn lemma_trim_front_starts_clean(text: Seq<char>)
    ensures
        trim_front(text).len() == 0 || !is_space(trim_front(text)[0]),
    decreases text.len(),
{
    if text.len() > 0 && is_space(text[0]) {
        lemma_trim_front_starts_clean(text.drop_first());
    }
}

/// The text after trimming its end ends with no white space.
proof fn lemma_trim_back_ends_clean(text: Seq<char>)
    ensures
        trim_back(text).len() == 0 || !is_space(trim_back(text).last()),
    decreases text.len(),
{
    if text.len() > 0 && is_space(text.last()) {
        lemma_trim_back_ends_clean(text.drop_last());
    }
}

/// A trimmed text neither starts nor ends with white space.
pub proof fn lemma_trimmed_is_clean(text: Seq<char>)
    ensures
        trimmed(text).len() > 0 ==> !is_space(trimmed(text)[0]) && !is_space(
            trimmed(text).last(),
        ),
{
    lemma_trim_front_starts_clean(text);
    lemma_trim_back_keeps_front(trim_front(text));
    lemma_trim_back_ends_clean(trim_front(text));
}

/// No piece of a split text holds the separator.
pub proof fn lemma_pieces_hold_no_separator(text: Seq<char>, separator: char)
    ensures
        forall|i: int, j: int|
            0 <= i < split(text, separator).len() && 0 <= j < split(text, separator)[i].len()
                ==> (#[trigger] split(text, separator)[i][j]) != separator,
    decreases text.len(),
{
    lemma_first_index(text, separator);
    let at = first_index(text, separator);
    if 0 <= at < text.len() {
        let rest = text.skip(at + 1);
        lemma_pieces_hold_no_separator(rest, separator);
        assert forall|i: int, j: int|
            0 <= i < split(text, separator).len() && 0 <= j < split(
                text,
                separator,
            )[i].len() implies (#[trigger] split(text, separator)[i][j]) != separator by {
            if i == 0 {
                assert(split(text, separator)[0] == text.take(at));
                assert(text.take(at)[j] == text[j]);
            } else {
                assert(split(text, separator)[i] == split(rest, separator)[i - 1]);
            }
        }
    } else {
        assert(split(text, separator) =~= seq![text]);
    }
}

/// The characters of a text.
pub fn chars_of(text: &str) -> (chars: Vec<char>)
    ensures
        chars@ == text@,
{
    let mut chars: Vec<char> = Vec::new();
    for c in it: text.chars()
        invariant
            it.seq() == text@,
            chars@.len() == it.index(),
            forall|i: int| 0 <= i < chars@.len() ==> chars@[i] == it.seq()[i],
    {
        chars.push(c);
    }
    assert(chars@ =~= text@);
    chars
}

/// Whether a character is white space.
pub fn is_whitespace(c: char) -> (space: bool)
    ensures
        space == is_space(c),
{
    let code = c as u32;
    (0x09 <= code && code <= 0x0D) || code == 0x20 || code == 0x85 || code == 0xA0 || code
        == 0x1680 || (0x2000 <= code && code <= 0x200A) || code == 0x2028 || code == 0x2029
        || code == 0x202F || code == 0x205F || code == 0x3000
}

/// The place of the first `c` between `from` and `to`, or `to` if none stands there.
pub fn find(chars: &[char], from: usize, to: usize, c: char) -> (at: usize)
    requires
        from <= to <= chars@.len(),
    ensures
        from <= at <= to,
        at == from + first_index(chars@.subrange(from as int, to as int), c),
        forall|i: int| from <= i < at ==> chars@[i] != c,
        at < to ==> chars@[at as int] == c,
{
    proof {
        let part = chars@.subrange(from as int, to as int);
        lemma_first_index(part, c);
        assert forall|i: int| from <= i < from + first_index(part, c) implies chars@[i] != c by {
            assert(chars@[i] == part[i - from]);
        }
    }
    let mut at = from;
    while at < to && chars[at] != c
        invariant
            from <= at <= to <= chars@.len(),
            first_index(chars@.subrange(from as int, to as int), c) == at - from + first_index(
                chars@.subrange(at as int, to as int),
                c,
            ),
        decreases to - at,
    {
        assert(chars@.subrange(at as int, to as int).drop_first() =~= chars@.subrange(
            at + 1,
            to as int,
        ));
        at += 1;
    }
    at
}

/// The part between `from` and `to` without the white space at its start and at its end.
pub fn trim(chars: &[char], from: usize, to: usize) -> (range: (usize, usize))
    requires
        from <= to <= chars@.len(),
    ensures
        from <= range.0 <= range.1 <= to,
        chars@.subrange(range.0 as int, range.1 as int) == trimmed(
            chars@.subrange(from as int, to as int),
        ),
{
    let mut start = from;
    while start < to && is_whitespace(chars[start])
        invariant
            from <= start <= to <= chars@.len(),
            trim_front(chars@.subrange(from as int, to as int)) == trim_front(
                chars@.subrange(start as int, to as int),
            ),
        decreases to - start,
    {
        assert(chars@.subrange(start as int, to as int).drop_first() =~= chars@.subrange(
            start + 1,
            to as int,
        ));
        start += 1;
    }
    let mut end = to;
    while start < end && is_whitespace(chars[end - 1])
        invariant
            start <= end <= to <= chars@.len(),
            trim_back(chars@.subrange(start as int, to as int)) == trim_back(
                chars@.subrange(start as int, end as int),
            ),
        decreases end - start,
    {
        assert(chars@.subrange(start as int, end as int).drop_last() =~= chars@.subrange(
            start as int,
            end - 1,
        ));
        end -= 1;
    }
    (start, end)
}

/// The pieces of a sequence of ranges of a text.
pub open spec fn pieces(chars: Seq<char>, ranges: Seq<(usize, usize)>) -> Seq<Seq<char>> {
    Seq::new(ranges.len(), |i: int| chars.subrange(ranges[i].0 as int, ranges[i].1 as int))
}

/// The ranges of the pieces between the separators of the part between `from` and `to`.
pub fn split_ranges(chars: &[char], from: usize, to: usize, separator: char) -> (ranges: Vec<
    (usize, usize),
>)
    requires
        from <= to <= chars@.len(),
    ensures
        forall|i: int|
            0 <= i < ranges@.len() ==> from <= (#[trigger] ranges@[i]).0 <= ranges@[i].1 <= to,
        pieces(chars@, ranges@) == split(chars@.subrange(from as int, to as int), separator),
{
    let mut ranges: Vec<(usize, usize)> = Vec::new();
    let mut start = from;
    let mut done = false;
    while !done
        invariant
            from <= start <= to <= chars@.len(),
            forall|i: int|
                0 <= i < ranges@.len() ==> from <= (#[trigger] ranges@[i]).0 <= ranges@[i].1 <= to,
            !done ==> split(chars@.subrange(from as int, to as int), separator) == pieces(
                chars@,
                ranges@,
            ) + split(chars@.subrange(start as int, to as int), separator),
            done ==> split(chars@.subrange(from as int, to as int), separator) == pieces(
                chars@,
                ranges@,
            ),
        decreases to - start + if done { 0int } else { 1int },
    {
        let at = find(chars, start, to, separator);
        let ghost rest = chars@.subrange(start as int, to as int);
        let ghost before = pieces(chars@, ranges@);
        ranges.push((start, at));
        proof {
            assert(pieces(chars@, ranges@) =~= before + seq![
                chars@.subrange(start as int, at as int),
            ]);
        }
        if at < to {
            proof {
                assert(rest.take(at - start) =~= chars@.subrange(start as int, at as int));
                assert(rest.skip(at - start + 1) =~= chars@.subrange(at + 1, to as int));
                assert(before + (seq![rest.take(at - start)] + split(
                    rest.skip(at - start + 1),
                    separator,
                )) =~= (before + seq![rest.take(at - start)]) + split(
                    rest.skip(at - start + 1),
                    separator,
                ));
            }
            start = at + 1;
        } else {
            proof {
                assert(rest =~= chars@.subrange(start as int, at as int));
            }
            done = true;
        }
    }
    ranges
}

} // verus!
