//! Plain text handling: white space, trimming, and fields divided by a
//! separator, each with its mathematical meaning on sequences of characters.

use vstd::prelude::*;

verus! {

/// The characters that count as white space: those with the Unicode property
/// `White_Space`.
pub open spec fn white_space(c: char) -> bool {
    ||| '\u{9}' <= c <= '\u{d}'
    ||| c == ' '
    ||| c == '\u{85}'
    ||| c == '\u{a0}'
    ||| c == '\u{1680}'
    ||| '\u{2000}' <= c <= '\u{200a}'
    ||| c == '\u{2028}'
    ||| c == '\u{2029}'
    ||| c == '\u{202f}'
    ||| c == '\u{205f}'
    ||| c == '\u{3000}'
}

/// A text without the white space at its two ends.
pub open spec fn trimmed(text: Seq<char>) -> Seq<char>
    decreases text.len(),
{
    if text.len() > 0 && white_space(text.first()) {
        trimmed(text.drop_first())
    } else if text.len() > 0 && white_space(text.last()) {
        trimmed(text.drop_last())
    } else {
        text
    }
}

/// The fields of a text that `sep` divides, read from left to right: a
/// separator closes the field before it and opens an empty one, any other
/// character is added to the field that is open. A text without a separator
/// is one field.
pub open spec fn fields(text: Seq<char>, sep: char) -> Seq<Seq<char>>
    decreases text.len(),
{
    if text.len() == 0 {
        seq![Seq::empty()]
    } else {
        let before = fields(text.drop_last(), sep);
        if text.last() == sep {
            before.push(Seq::empty())
        } else {
            before.drop_last().push(before.last().push(text.last()))
        }
    }
}

/// The texts of a list of strings.
pub open spec fn texts(list: Seq<String>) -> Seq<Seq<char>> {
    list.map_values(|s: String| s@)
}

/// The texts of a list of string slices.
pub open spec fn slice_texts(list: Seq<&str>) -> Seq<Seq<char>> {
    list.map_values(|s: &str| s@)
}

/// Whether `c` is white space.
pub fn is_whitespace(c: char) -> (r: bool)
    ensures
        r == white_space(c),
{
    ('\u{9}' <= c && c <= '\u{d}') || c == ' ' || c == '\u{85}' || c == '\u{a0}' || c
        == '\u{1680}' || ('\u{2000}' <= c && c <= '\u{200a}') || c == '\u{2028}' || c
        == '\u{2029}' || c == '\u{202f}' || c == '\u{205f}' || c == '\u{3000}'
}

/// The characters of a text.
pub fn characters(text: &str) -> (chars: Vec<char>)
    ensures
        chars@ == text@,
{
    let mut chars: Vec<char> = Vec::new();
    for c in it: text.chars()
        invariant
            it.seq() == text@,
            chars@ =~= text@.take(it.index() as int),
    {
        chars.push(c);
    }
    chars
}

/// A copy of a list of strings.
pub fn copy_texts(list: &Vec<String>) -> (copy: Vec<String>)
    ensures
        texts(copy@) == texts(list@),
{
    let mut copy: Vec<String> = Vec::new();
    let mut i: usize = 0;
    while i < list.len()
        invariant
            i <= list.len(),
            texts(copy@) =~= texts(list@).take(i as int),
        decreases list.len() - i,
    {
        let ghost before = texts(copy@);
        let item = list[i].clone();
        copy.push(item);
        assert(texts(copy@) =~= before.push(list@[i as int]@));
        i += 1;
    }
    assert(texts(list@).take(list.len() as int) =~= texts(list@));
    copy
}

/// Whether two texts hold the same characters.
pub fn same_text(a: &str, b: &str) -> (same: bool)
    ensures
        same == (a@ == b@),
{
    let left = characters(a);
    let right = characters(b);
    if left.len() != right.len() {
        return false;
    }
    let mut i: usize = 0;
    while i < left.len()
        invariant
            i <= left.len(),
            left.len() == right.len(),
            left@ == a@,
            right@ == b@,
            forall|j: int| 0 <= j < i ==> left@[j] == right@[j],
        decreases left.len() - i,
    {
        if left[i] != right[i] {
            return false;
        }
        i += 1;
    }
    assert(a@ =~= b@);
    true
}

/// Whether `from` and `to` mark the white space at the two ends of a text:
/// all before `from` and all from `to` on is white space, and what lies
/// between, if anything, neither starts nor ends with white space.
pub open spec fn trim_bounds(text: Seq<char>, from: int, to: int) -> bool {
    &&& 0 <= from <= to <= text.len()
    &&& forall|j: int| 0 <= j < from ==> white_space(#[trigger] text[j])
    &&& forall|j: int| to <= j < text.len() ==> white_space(#[trigger] text[j])
    &&& from < to ==> !white_space(text[from]) && !white_space(text[to - 1])
}

/// What lies between the white space at the two ends of a text is the
/// trimmed text.
pub proof fn lemma_trimmed(text: Seq<char>, from: int, to: int)
    requires
        trim_bounds(text, from, to),
    ensures
        trimmed(text) == text.subrange(from, to),
    decreases text.len(),
{
    if text.len() > 0 && white_space(text.first()) {
        let rest = text.drop_first();
        assert(forall|j: int| 0 <= j < rest.len() ==> rest[j] == text[j + 1]);
        if from == to {
            lemma_trimmed(rest, 0, 0);
            assert(text.subrange(from, to) =~= rest.subrange(0, 0));
        } else {
            lemma_trimmed(rest, from - 1, to - 1);
            assert(text.subrange(from, to) =~= rest.subrange(from - 1, to - 1));
        }
    } else if text.len() > 0 && white_space(text.last()) {
        let rest = text.drop_last();
        if from == to {
            lemma_trimmed(rest, 0, 0);
            assert(text.subrange(from, to) =~= rest.subrange(0, 0));
        } else {
            lemma_trimmed(rest, from, to);
            assert(text.subrange(from, to) =~= rest.subrange(from, to));
        }
    } else {
        if text.len() > 0 {
            assert(from == 0);
            assert(to == text.len());
        }
        assert(text.subrange(from, to) =~= text);
    }
}

/// Every text has white space at its two ends, or none, around its trimmed
/// text, which itself neither starts nor ends with white space.
pub proof fn lemma_trimmed_exists(text: Seq<char>) -> (bounds: (int, int))
    ensures
        trim_bounds(text, bounds.0, bounds.1),
        trimmed(text) == text.subrange(bounds.0, bounds.1),
        trimmed(text).len() > 0 ==> !white_space(trimmed(text).first()) && !white_space(
            trimmed(text).last(),
        ),
    decreases text.len(),
{
    let bounds = if text.len() > 0 && white_space(text.first()) {
        let rest = text.drop_first();
        let inner = lemma_trimmed_exists(rest);
        assert(forall|j: int| 0 <= j < rest.len() ==> rest[j] == text[j + 1]);
        assert forall|j: int| 0 <= j < inner.0 + 1 implies white_space(#[trigger] text[j]) by {
            if j > 0 {
                assert(white_space(rest[j - 1]));
            }
        }
        assert forall|j: int| inner.1 + 1 <= j < text.len() implies white_space(
            #[trigger] text[j],
        ) by {
            assert(white_space(rest[j - 1]));
        }
        (inner.0 + 1, inner.1 + 1)
    } else if text.len() > 0 && white_space(text.last()) {
        let rest = text.drop_last();
        let inner = lemma_trimmed_exists(rest);
        assert forall|j: int| inner.1 <= j < text.len() implies white_space(#[trigger] text[j]) by {
            if j < rest.len() {
                assert(white_space(rest[j]));
            }
        }
        inner
    } else {
        (0, text.len() as int)
    };
    lemma_trimmed(text, bounds.0, bounds.1);
    bounds
}

/// The parts put together again, with `sep` between each two of them.
pub open spec fn joined(parts: Seq<Seq<char>>, sep: char) -> Seq<char>
    decreases parts.len(),
{
    if parts.len() == 0 {
        Seq::empty()
    } else if parts.len() == 1 {
        parts[0]
    } else {
        joined(parts.drop_last(), sep).push(sep) + parts.last()
    }
}

/// Whether no part holds the separator.
pub open spec fn free_of(parts: Seq<Seq<char>>, sep: char) -> bool {
    forall|i: int| 0 <= i < parts.len() ==> !(#[trigger] parts[i]).contains(sep)
}

/// The fields of a text are parts without a separator that, put together
/// again, give the text.
pub proof fn lemma_fields_join(text: Seq<char>, sep: char)
    ensures
        fields(text, sep).len() > 0,
        free_of(fields(text, sep), sep),
        joined(fields(text, sep), sep) == text,
    decreases text.len(),
{
    if text.len() > 0 {
        let before = fields(text.drop_last(), sep);
        let all = fields(text, sep);
        lemma_fields_join(text.drop_last(), sep);
        assert(text =~= text.drop_last().push(text.last()));
        if text.last() == sep {
            assert(all.drop_last() =~= before);
            assert(joined(all, sep) =~= text);
        } else {
            let last = before.last().push(text.last());
            assert(all.last() == last);
            assert(!last.contains(sep)) by {
                if last.contains(sep) {
                    let i = choose|i: int| 0 <= i < last.len() && last[i] == sep;
                    assert(before.last()[i] == sep);
                }
            }
            if before.len() == 1 {
                assert(joined(all, sep) =~= text);
            } else {
                assert(all.drop_last() =~= before.drop_last());
                assert(joined(all, sep) =~= joined(before, sep).push(text.last()));
            }
        }
    }
}

/// No other parts do: parts without a separator are the fields of what they
/// give when put together.
pub proof fn lemma_join_fields(parts: Seq<Seq<char>>, sep: char)
    requires
        parts.len() > 0,
        free_of(parts, sep),
    ensures
        fields(joined(parts, sep), sep) == parts,
    decreases joined(parts, sep).len(),
{
    let text = joined(parts, sep);
    let last = parts.last();
    if last.len() > 0 {
        let shorter = parts.drop_last().push(last.drop_last());
        assert(shorter.drop_last() =~= parts.drop_last());
        assert(last =~= last.drop_last().push(last.last()));
        assert(text =~= joined(shorter, sep).push(last.last()));
        assert(text.drop_last() =~= joined(shorter, sep));
        assert(free_of(shorter, sep)) by {
            assert forall|i: int| 0 <= i < shorter.len() implies !(#[trigger] shorter[i]).contains(
                sep,
            ) by {
                if i < shorter.len() - 1 {
                    assert(shorter[i] == parts[i]);
                } else if shorter[i].contains(sep) {
                    let k = choose|k: int| 0 <= k < shorter[i].len() && shorter[i][k] == sep;
                    assert(last[k] == sep);
                }
            }
        }
        assert(last.last() != sep) by {
            assert(last[last.len() - 1] == last.last());
        }
        lemma_join_fields(shorter, sep);
        assert(text.last() == last.last());
        assert(shorter.drop_last().push(shorter.last().push(text.last())) =~= parts);
    } else if parts.len() == 1 {
        assert(text =~= Seq::empty());
        assert(fields(text, sep) =~= parts);
    } else {
        let shorter = parts.drop_last();
        assert(text =~= joined(shorter, sep).push(sep));
        assert(text.drop_last() =~= joined(shorter, sep));
        assert(free_of(shorter, sep)) by {
            assert forall|i: int| 0 <= i < shorter.len() implies !(#[trigger] shorter[i]).contains(
                sep,
            ) by {
                assert(shorter[i] == parts[i]);
            }
        }
        lemma_join_fields(shorter, sep);
        assert(text.last() == sep);
        assert(last =~= Seq::empty());
        assert(shorter.push(Seq::empty()) =~= parts);
    }
}

/// The text without the white space at its two ends.
pub fn trim(text: &str) -> (inner: &str)
    ensures
        inner@ == trimmed(text@),
{
    let chars = characters(text);
    let n = chars.len();
    let mut from: usize = 0;
    while from < n && is_whitespace(chars[from])
        invariant
            from <= n,
            n == chars.len(),
            forall|j: int| 0 <= j < from ==> white_space(#[trigger] chars@[j]),
        decreases n - from,
    {
        from += 1;
    }
    let mut to: usize = n;
    while to > from && is_whitespace(chars[to - 1])
        invariant
            from <= to <= n,
            n == chars.len(),
            forall|j: int| to <= j < n ==> white_space(#[trigger] chars@[j]),
        decreases to - from,
    {
        to -= 1;
    }
    proof {
        lemma_trimmed(text@, from as int, to as int);
    }
    text.substring_char(from, to)
}

/// The fields of a text that `sep` divides.
pub fn split(text: &str, sep: char) -> (parts: Vec<&str>)
    ensures
        slice_texts(parts@) == fields(text@, sep),
{
    let chars = characters(text);
    let n = chars.len();
    let mut parts: Vec<&str> = Vec::new();
    let mut start: usize = 0;
    let mut i: usize = 0;
    assert(text@.take(0) =~= Seq::empty());
    assert(slice_texts(parts@).push(text@.subrange(0, 0)) =~= fields(text@.take(0), sep));
    while i < n
        invariant
            start <= i <= n,
            n == chars.len(),
            chars@ == text@,
            slice_texts(parts@).push(text@.subrange(start as int, i as int)) == fields(
                text@.take(i as int),
                sep,
            ),
        decreases n - i,
    {
        let ghost before = fields(text@.take(i as int), sep);
        proof {
            assert(text@.take(i + 1).drop_last() =~= text@.take(i as int));
            assert(text@.take(i + 1).last() == text@[i as int]);
        }
        if chars[i] == sep {
            let part = text.substring_char(start, i);
            parts.push(part);
            start = i + 1;
            proof {
                assert(slice_texts(parts@) =~= before);
                assert(text@.subrange(start as int, i + 1) =~= Seq::empty());
            }
        } else {
            proof {
                assert(before.drop_last() =~= slice_texts(parts@));
                assert(before.last().push(text@[i as int]) =~= text@.subrange(
                    start as int,
                    i + 1,
                ));
            }
        }
        i += 1;
    }
    let part = text.substring_char(start, n);
    proof {
        assert(text@.take(n as int) =~= text@);
    }
    let ghost done = slice_texts(parts@);
    parts.push(part);
    assert(slice_texts(parts@) =~= done.push(part@));
    parts
}

} // verus!
