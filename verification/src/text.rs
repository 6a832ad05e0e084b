//! Character level helpers shared by the parsers of this crate.

use vstd::prelude::*;
use vstd::utf8::{decode_utf8, valid_utf8};

verus! {

/// Appends one character to a string. Wraps `String::push`, which std documents
/// as appending the given `char` to the end of the string.
#[verifier::external_body]
fn push_char(s: &mut String, c: char)
    ensures
        final(s)@ == old(s)@.push(c),
{
    s.push(c);
}

/// Reads bytes as text. Wraps `String::from_utf8`, which std documents as
/// returning the string of the given bytes, and an error where the bytes are not
/// valid UTF-8. `None` stands for that error.
#[verifier::external_body]
pub(crate) fn decode_text(bytes: Vec<u8>) -> (r: Option<String>)
    ensures
        r is Some <==> valid_utf8(bytes@),
        r matches Some(s) ==> s@ == decode_utf8(bytes@),
{
    String::from_utf8(bytes).ok()
}

/// The characters of `s`, in order.
pub fn chars_of(s: &str) -> (v: Vec<char>)
    ensures
        v@ == s@,
{
    broadcast use vstd::string::group_string_axioms;

    let mut v: Vec<char> = Vec::new();
    for c in rest: s.chars()
        invariant
            rest.seq() == s@,
            v@ == s@.take(rest.index() as int),
    {
        v.push(c);
    }
    v
}

/// The string made of the characters of `v`, in order.
pub fn string_of(v: &Vec<char>) -> (s: String)
    ensures
        s@ == v@,
{
    let mut s = String::new();
    let mut i: usize = 0;
    while i < v.len()
        invariant
            i <= v.len(),
            s@ == v@.subrange(0, i as int),
        decreases v.len() - i,
    {
        push_char(&mut s, v[i]);
        i = i + 1;
    }
    s
}

/// Whether two string slices hold the same characters.
pub fn same_text(a: &str, b: &str) -> (r: bool)
    ensures
        r == (a@ == b@),
{
    let x = a.to_owned();
    let y = b.to_owned();
    x == y
}

/// The characters that count as white space: the code points with the Unicode
/// property `White_Space`.
pub open spec fn is_space(c: char) -> bool {
    let u = c as u32;
    ||| 0x09 <= u <= 0x0d
    ||| u == 0x20
    ||| u == 0x85
    ||| u == 0xa0
    ||| u == 0x1680
    ||| 0x2000 <= u <= 0x200a
    ||| u == 0x2028
    ||| u == 0x2029
    ||| u == 0x202f
    ||| u == 0x205f
    ||| u == 0x3000
}

/// Whether `c` counts as white space.
pub fn is_whitespace(c: char) -> (r: bool)
    ensures
        r == is_space(c),
{
    let u: u32 = c as u32;
    (0x09 <= u && u <= 0x0d) || u == 0x20 || u == 0x85 || u == 0xa0 || u == 0x1680 || (0x2000 <= u
        && u <= 0x200a) || u == 0x2028 || u == 0x2029 || u == 0x202f || u == 0x205f || u == 0x3000
}

/// The number of white space characters at the start of `s`.
pub open spec fn leading_space(s: Seq<char>) -> int
    decreases s.len(),
{
    if s.len() > 0 && is_space(s[0]) {
        1 + leading_space(s.skip(1))
    } else {
        0
    }
}

/// The length of `s` without the white space at its end.
pub open spec fn inked_len(s: Seq<char>) -> int
    decreases s.len(),
{
    if s.len() > 0 && is_space(s.last()) {
        inked_len(s.drop_last())
    } else {
        s.len() as int
    }
}

/// `s` without the white space at its start and at its end.
pub open spec fn trimmed(s: Seq<char>) -> Seq<char> {
    if leading_space(s) >= inked_len(s) {
        Seq::empty()
    } else {
        s.subrange(leading_space(s), inked_len(s))
    }
}

/// The white space at the start of `s` ends where the first other character
/// stands.
pub proof fn lemma_leading_space(s: Seq<char>, n: int)
    requires
        0 <= n <= s.len(),
        forall|i: int| 0 <= i < n ==> is_space(#[trigger] s[i]),
        n < s.len() ==> !is_space(s[n]),
    ensures
        leading_space(s) == n,
    decreases n,
{
    if n > 0 {
        let rest = s.skip(1);
        assert forall|i: int| 0 <= i < n - 1 implies is_space(#[trigger] rest[i]) by {
            assert(rest[i] == s[i + 1]);
        }
        lemma_leading_space(rest, n - 1);
    }
}

/// The white space at the end of `s` starts behind the last other character.
pub proof fn lemma_inked_len(s: Seq<char>, n: int)
    requires
        0 <= n <= s.len(),
        forall|i: int| n <= i < s.len() ==> is_space(#[trigger] s[i]),
        n > 0 ==> !is_space(s[n - 1]),
    ensures
        inked_len(s) == n,
    decreases s.len(),
{
    if n < s.len() {
        let rest = s.drop_last();
        assert forall|i: int| n <= i < rest.len() implies is_space(#[trigger] rest[i]) by {
            assert(rest[i] == s[i]);
        }
        lemma_inked_len(rest, n);
    }
}

/// `v` without the white space at its start and at its end.
pub fn trim(v: &Vec<char>) -> (r: Vec<char>)
    ensures
        r@ == trimmed(v@),
{
    let n = v.len();
    let mut start: usize = 0;
    while start < n && is_whitespace(v[start])
        invariant
            n == v.len(),
            start <= n,
            forall|i: int| 0 <= i < start ==> is_space(#[trigger] v@[i]),
        decreases n - start,
    {
        start = start + 1;
    }
    let mut end: usize = n;
    while end > 0 && is_whitespace(v[end - 1])
        invariant
            n == v.len(),
            end <= n,
            forall|i: int| end <= i < n ==> is_space(#[trigger] v@[i]),
        decreases end,
    {
        end = end - 1;
    }
    proof {
        lemma_leading_space(v@, start as int);
        lemma_inked_len(v@, end as int);
    }
    let mut r: Vec<char> = Vec::new();
    if start >= end {
        return r;
    }
    let mut i: usize = start;
    while i < end
        invariant
            start <= i <= end <= v.len(),
            r@ == v@.subrange(start as int, i as int),
        decreases end - i,
    {
        r.push(v[i]);
        i = i + 1;
    }
    r
}

/// `needle` stands in `hay` at position `at`.
pub open spec fn occurs_at(hay: Seq<char>, needle: Seq<char>, at: int) -> bool {
    0 <= at && at + needle.len() <= hay.len() && hay.subrange(at, at + needle.len()) == needle
}

/// `needle` stands somewhere in `hay`.
pub open spec fn has_part(hay: Seq<char>, needle: Seq<char>) -> bool {
    exists|at: int| occurs_at(hay, needle, at)
}

/// `hay` begins with `prefix`.
pub open spec fn begins_with(hay: Seq<char>, prefix: Seq<char>) -> bool {
    occurs_at(hay, prefix, 0)
}

/// `hay` ends with `suffix`.
pub open spec fn finishes_with(hay: Seq<char>, suffix: Seq<char>) -> bool {
    occurs_at(hay, suffix, hay.len() - suffix.len())
}

/// Whether `needle` stands in `hay` at position `at`.
pub fn matches_at(hay: &Vec<char>, needle: &Vec<char>, at: usize) -> (r: bool)
    ensures
        r == occurs_at(hay@, needle@, at as int),
{
    if at > hay.len() || needle.len() > hay.len() - at {
        return false;
    }
    let mut i: usize = 0;
    while i < needle.len()
        invariant
            i <= needle.len(),
            at + needle.len() <= hay.len(),
            forall|j: int| 0 <= j < i ==> hay@[at + j] == needle@[j],
        decreases needle.len() - i,
    {
        if hay[at + i] != needle[i] {
            proof {
                let part = hay@.subrange(at as int, at + needle.len());
                assert(part[i as int] == hay@[at + i]);
            }
            return false;
        }
        i = i + 1;
    }
    assert(hay@.subrange(at as int, at + needle.len()) =~= needle@);
    true
}

/// The first position at which `needle` stands in `hay`, if there is one.
pub fn find(hay: &Vec<char>, needle: &Vec<char>) -> (r: Option<usize>)
    ensures
        r is Some <==> has_part(hay@, needle@),
        r matches Some(at) ==> occurs_at(hay@, needle@, at as int) && forall|j: int|
            0 <= j < at ==> !occurs_at(hay@, needle@, j),
{
    if needle.len() > hay.len() {
        return None;
    }
    let last = hay.len() - needle.len();
    let mut at: usize = 0;
    while at < last
        invariant
            last == hay.len() - needle.len(),
            at <= last,
            forall|j: int| 0 <= j < at ==> !occurs_at(hay@, needle@, j),
        decreases last - at,
    {
        if matches_at(hay, needle, at) {
            return Some(at);
        }
        at = at + 1;
    }
    if matches_at(hay, needle, last) {
        Some(last)
    } else {
        None
    }
}

/// Whether `needle` stands somewhere in `hay`.
pub fn contains(hay: &str, needle: &str) -> (r: bool)
    ensures
        r == has_part(hay@, needle@),
{
    find(&chars_of(hay), &chars_of(needle)).is_some()
}

/// Whether `hay` begins with `prefix`.
pub fn starts_with(hay: &str, prefix: &str) -> (r: bool)
    ensures
        r == begins_with(hay@, prefix@),
{
    matches_at(&chars_of(hay), &chars_of(prefix), 0)
}

/// Whether `hay` ends with `suffix`.
pub fn ends_with(hay: &str, suffix: &str) -> (r: bool)
    ensures
        r == finishes_with(hay@, suffix@),
{
    let h = chars_of(hay);
    let s = chars_of(suffix);
    if s.len() > h.len() {
        false
    } else {
        matches_at(&h, &s, h.len() - s.len())
    }
}

/// The character sequences of a list of character vectors.
pub open spec fn lists(v: Seq<Vec<char>>) -> Seq<Seq<char>> {
    v.map_values(|p: Vec<char>| p@)
}

/// The pieces of `s` between the occurrences of `c`: one more piece than there
/// are occurrences, none of which holds `c`.
pub open spec fn split_on(s: Seq<char>, c: char) -> Seq<Seq<char>>
    decreases s.len(),
{
    if s.len() == 0 {
        seq![Seq::empty()]
    } else {
        let init = split_on(s.drop_last(), c);
        if s.last() == c {
            init.push(Seq::empty())
        } else {
            init.drop_last().push(init.last().push(s.last()))
        }
    }
}

/// The pieces put together again, with `c` between each two.
pub open spec fn joined(pieces: Seq<Seq<char>>, c: char) -> Seq<char>
    decreases pieces.len(),
{
    if pieces.len() == 0 {
        Seq::empty()
    } else if pieces.len() == 1 {
        pieces[0]
    } else {
        joined(pieces.drop_last(), c).push(c) + pieces.last()
    }
}

/// Splitting loses nothing: there is at least one piece, no piece holds the
/// separator, and the pieces joined by the separator give the text back.
pub proof fn lemma_split_on(s: Seq<char>, c: char)
    ensures
        split_on(s, c).len() >= 1,
        forall|i: int, j: int|
            0 <= i < split_on(s, c).len() && 0 <= j < split_on(s, c)[i].len() ==> split_on(
                s,
                c,
            )[i][j] != c,
        joined(split_on(s, c), c) == s,
    decreases s.len(),
{
    if s.len() == 0 {
        assert(joined(seq![Seq::<char>::empty()], c) == Seq::<char>::empty());
    } else {
        let before = s.drop_last();
        lemma_split_on(before, c);
        let init = split_on(before, c);
        let all = split_on(s, c);
        if s.last() == c {
            assert(all.drop_last() == init);
            assert(joined(all, c) == joined(init, c).push(c) + Seq::<char>::empty());
            assert(joined(init, c).push(c) + Seq::<char>::empty() == before.push(c));
            assert(before.push(c) == s);
        } else {
            let grown = init.last().push(s.last());
            assert(all.last() == grown);
            assert(all.drop_last() == init.drop_last());
            if init.len() == 1 {
                assert(joined(all, c) == grown);
                assert(init[0] == before);
                assert(before.push(s.last()) == s);
            } else {
                let head = joined(init.drop_last(), c).push(c);
                assert(joined(init, c) == head + init.last());
                assert(joined(all, c) == head + grown);
                assert(head + grown == (head + init.last()).push(s.last()));
                assert(before.push(s.last()) == s);
            }
        }
    }
}

/// The pieces of `v` between the occurrences of `c`.
pub fn split(v: &Vec<char>, c: char) -> (r: Vec<Vec<char>>)
    ensures
        lists(r@) == split_on(v@, c),
{
    let mut done: Vec<Vec<char>> = Vec::new();
    let mut current: Vec<char> = Vec::new();
    let mut i: usize = 0;
    assert(lists(done@).push(current@) =~= split_on(v@.take(0), c));
    while i < v.len()
        invariant
            i <= v.len(),
            lists(done@).push(current@) == split_on(v@.take(i as int), c),
        decreases v.len() - i,
    {
        let ghost upto = v@.take(i + 1);
        assert(upto.drop_last() == v@.take(i as int));
        assert(upto.last() == v@[i as int]);
        let ghost before = lists(done@).push(current@);
        if v[i] == c {
            done.push(current);
            current = Vec::new();
            assert(lists(done@).push(current@) =~= before.push(Seq::empty()));
        } else {
            current.push(v[i]);
            assert(lists(done@).push(current@) =~= before.drop_last().push(
                before.last().push(v@[i as int]),
            ));
        }
        i = i + 1;
    }
    assert(v@.take(i as int) == v@);
    let ghost before = lists(done@).push(current@);
    done.push(current);
    assert(lists(done@) =~= before);
    done
}

/// A line without the carriage return at its end, if it has one.
pub open spec fn without_cr(line: Seq<char>) -> Seq<char> {
    if line.len() > 0 && line.last() == '\r' {
        line.drop_last()
    } else {
        line
    }
}

/// The lines of `s`. A line ends with a line feed, or with a carriage return and
/// a line feed; the end of the last line is optional.
pub open spec fn lines_of(s: Seq<char>) -> Seq<Seq<char>> {
    let pieces = split_on(s, '\n');
    let ended = pieces.len() - 1;
    let count = if pieces.last().len() == 0 {
        ended
    } else {
        ended + 1
    };
    Seq::new(
        count as nat,
        |i: int|
            if i < ended {
                without_cr(pieces[i])
            } else {
                pieces[i]
            },
    )
}

/// The lines of `v`.
pub fn lines(v: &Vec<char>) -> (r: Vec<Vec<char>>)
    ensures
        lists(r@) == lines_of(v@),
{
    let mut pieces = split(v, '\n');
    proof {
        lemma_split_on(v@, '\n');
    }
    let ghost whole = pieces@;
    let ghost all = lists(pieces@);
    let last = pieces.pop().unwrap();
    assert(last@ == all.last());
    assert forall|j: int| 0 <= j < pieces@.len() implies (#[trigger] pieces@[j])@ == all[j] by {
        assert(all[j] == whole[j]@);
    }
    let mut r: Vec<Vec<char>> = Vec::new();
    let mut i: usize = 0;
    while i < pieces.len()
        invariant
            i <= pieces.len(),
            r@.len() == i,
            forall|j: int| 0 <= j < i ==> (#[trigger] r@[j])@ == without_cr(pieces@[j]@),
        decreases pieces.len() - i,
    {
        let line = &pieces[i];
        let mut kept: Vec<char> = Vec::new();
        let n = if line.len() > 0 && line[line.len() - 1] == '\r' {
            line.len() - 1
        } else {
            line.len()
        };
        let mut j: usize = 0;
        while j < n
            invariant
                j <= n <= line.len(),
                kept@ == line@.take(j as int),
            decreases n - j,
        {
            kept.push(line[j]);
            assert(line@.take(j + 1) == line@.take(j as int).push(line@[j as int]));
            j = j + 1;
        }
        assert(kept@ =~= without_cr(line@));
        r.push(kept);
        i = i + 1;
    }
    if last.len() > 0 {
        r.push(last);
    }
    assert(lists(r@) =~= lines_of(v@));
    r
}

/// `s` with every `c` replaced by `by`.
pub open spec fn with_char_replaced(s: Seq<char>, c: char, by: Seq<char>) -> Seq<char>
    decreases s.len(),
{
    if s.len() == 0 {
        Seq::empty()
    } else if s.last() == c {
        with_char_replaced(s.drop_last(), c, by) + by
    } else {
        with_char_replaced(s.drop_last(), c, by).push(s.last())
    }
}

/// `s` without any `c`.
pub open spec fn without(s: Seq<char>, c: char) -> Seq<char> {
    with_char_replaced(s, c, Seq::empty())
}

/// `v` with every `c` replaced by `by`.
pub fn replace_char(v: &Vec<char>, c: char, by: &Vec<char>) -> (r: Vec<char>)
    ensures
        r@ == with_char_replaced(v@, c, by@),
{
    let mut r: Vec<char> = Vec::new();
    let mut i: usize = 0;
    while i < v.len()
        invariant
            i <= v.len(),
            r@ == with_char_replaced(v@.take(i as int), c, by@),
        decreases v.len() - i,
    {
        let ghost upto = v@.take(i + 1);
        assert(upto.drop_last() == v@.take(i as int));
        if v[i] == c {
            let ghost before = r@;
            let mut j: usize = 0;
            while j < by.len()
                invariant
                    j <= by.len(),
                    r@ == before + by@.take(j as int),
                decreases by.len() - j,
            {
                r.push(by[j]);
                j = j + 1;
            }
        } else {
            r.push(v[i]);
        }
        i = i + 1;
    }
    assert(v@.take(i as int) == v@);
    r
}

/// The words of `s`: the longest runs of characters that are not white space.
pub open spec fn words_of(s: Seq<char>) -> Seq<Seq<char>>
    decreases s.len(),
{
    if s.len() == 0 {
        Seq::empty()
    } else {
        let init = words_of(s.drop_last());
        if is_space(s.last()) {
            init
        } else if s.len() >= 2 && !is_space(s[s.len() - 2]) {
            init.drop_last().push(init.last().push(s.last()))
        } else {
            init.push(seq![s.last()])
        }
    }
}

/// The words of `v`.
pub fn words(v: &Vec<char>) -> (r: Vec<Vec<char>>)
    ensures
        lists(r@) == words_of(v@),
{
    let mut done: Vec<Vec<char>> = Vec::new();
    let mut current: Vec<char> = Vec::new();
    let mut i: usize = 0;
    assert(lists(done@) =~= words_of(v@.take(0)));
    while i < v.len()
        invariant
            i <= v.len(),
            current@.len() > 0 ==> i > 0 && !is_space(v@[i - 1]) && lists(done@).push(current@)
                == words_of(v@.take(i as int)),
            current@.len() == 0 ==> (i == 0 || is_space(v@[i - 1])) && lists(done@) == words_of(
                v@.take(i as int),
            ),
        decreases v.len() - i,
    {
        let ghost upto = v@.take(i + 1);
        assert(upto.drop_last() == v@.take(i as int));
        assert(upto.last() == v@[i as int]);
        if i > 0 {
            assert(upto[upto.len() - 2] == v@[i - 1]);
        }
        let ghost before = lists(done@);
        if is_whitespace(v[i]) {
            if current.len() > 0 {
                done.push(current);
                current = Vec::new();
                assert(lists(done@) =~= words_of(upto));
            }
        } else {
            let ghost word = current@;
            current.push(v[i]);
            proof {
                if word.len() > 0 {
                    assert(lists(done@).push(current@) =~= before.push(word).drop_last().push(
                        before.push(word).last().push(v@[i as int]),
                    ));
                } else {
                    assert(current@ =~= seq![v@[i as int]]);
                    assert(lists(done@).push(current@) =~= before.push(seq![v@[i as int]]));
                }
            }
        }
        i = i + 1;
    }
    assert(v@.take(i as int) == v@);
    if current.len() > 0 {
        let ghost before = lists(done@).push(current@);
        done.push(current);
        assert(lists(done@) =~= before);
    }
    done
}

/// `hay` with every occurrence of `needle` replaced by `by`, from left to right,
/// each occurrence starting behind the one before. An empty `needle` occurs
/// before every character and at the end.
pub open spec fn replaced(hay: Seq<char>, needle: Seq<char>, by: Seq<char>) -> Seq<char>
    decreases hay.len(),
{
    if needle.len() == 0 {
        if hay.len() == 0 {
            by
        } else {
            by.push(hay[0]) + replaced(hay.skip(1), needle, by)
        }
    } else if hay.len() < needle.len() {
        hay
    } else if occurs_at(hay, needle, 0) {
        by + replaced(hay.skip(needle.len() as int), needle, by)
    } else {
        seq![hay[0]] + replaced(hay.skip(1), needle, by)
    }
}

/// `v` with every occurrence of `needle` replaced by `by`.
pub fn replace(hay: &Vec<char>, needle: &Vec<char>, by: &Vec<char>) -> (r: Vec<char>)
    ensures
        r@ == replaced(hay@, needle@, by@),
{
    let mut out: Vec<char> = Vec::new();
    let mut i: usize = 0;
    assert(hay@.skip(0) == hay@);
    assert(out@ + replaced(hay@, needle@, by@) == replaced(hay@, needle@, by@));
    while i < hay.len()
        invariant
            i <= hay.len(),
            out@ + replaced(hay@.skip(i as int), needle@, by@) == replaced(hay@, needle@, by@),
        decreases hay.len() - i,
    {
        let ghost rest = hay@.skip(i as int);
        let ghost before = out@;
        assert(rest[0] == hay@[i as int]);
        assert(rest.skip(1) == hay@.skip(i + 1));
        if needle.len() == 0 {
            push_all(&mut out, by);
            out.push(hay[i]);
            assert(out@ == before + by@.push(rest[0]));
            assert(before + (by@.push(rest[0]) + replaced(rest.skip(1), needle@, by@)) == (before
                + by@.push(rest[0])) + replaced(rest.skip(1), needle@, by@));
            i = i + 1;
        } else if matches_at(hay, needle, i) {
            assert(rest.subrange(0, needle@.len() as int) == hay@.subrange(
                i as int,
                i + needle@.len(),
            ));
            assert(occurs_at(rest, needle@, 0));
            assert(rest.skip(needle@.len() as int) == hay@.skip(i + needle@.len()));
            push_all(&mut out, by);
            assert(before + (by@ + replaced(rest.skip(needle@.len() as int), needle@, by@)) == (
            before + by@) + replaced(rest.skip(needle@.len() as int), needle@, by@));
            i = i + needle.len();
        } else {
            proof {
                if rest.len() >= needle@.len() {
                    assert(rest.subrange(0, needle@.len() as int) == hay@.subrange(
                        i as int,
                        i + needle@.len(),
                    ));
                    assert(!occurs_at(rest, needle@, 0));
                } else {
                    assert(replaced(rest, needle@, by@) == rest);
                    assert(replaced(rest.skip(1), needle@, by@) == rest.skip(1));
                    assert(rest == seq![rest[0]] + rest.skip(1));
                }
            }
            out.push(hay[i]);
            assert(out@ == before + seq![rest[0]]);
            assert(before + (seq![rest[0]] + replaced(rest.skip(1), needle@, by@)) == (before
                + seq![rest[0]]) + replaced(rest.skip(1), needle@, by@));
            i = i + 1;
        }
    }
    if needle.len() == 0 {
        push_all(&mut out, by);
        assert(hay@.skip(i as int).len() == 0);
    } else {
        assert(hay@.skip(i as int).len() == 0);
        assert(out@ + Seq::<char>::empty() == out@);
    }
    out
}

/// `s` without the white space at its start and at its end.
pub fn trim_text(s: &str) -> (r: String)
    ensures
        r@ == trimmed(s@),
{
    string_of(&trim(&chars_of(s)))
}

/// The character of a decimal digit.
pub open spec fn digit_char(d: int) -> char {
    ((48 + d) as u8) as char
}

/// The decimal digits of `n`, without leading zeros.
pub open spec fn digits(n: nat) -> Seq<char>
    decreases n,
{
    if n < 10 {
        seq![digit_char(n as int)]
    } else {
        digits(n / 10).push(digit_char((n % 10) as int))
    }
}

/// The number `i` in decimal notation.
pub open spec fn decimal(i: int) -> Seq<char> {
    if i < 0 {
        seq!['-'] + digits((-i) as nat)
    } else {
        digits(i as nat)
    }
}

/// Appends the decimal digits of `n` to `out`.
pub fn push_digits(n: u64, out: &mut Vec<char>)
    ensures
        final(out)@ == old(out)@ + digits(n as nat),
    decreases n,
{
    if n >= 10 {
        push_digits(n / 10, out);
    }
    let d: u8 = (n % 10) as u8;
    out.push((48u8 + d) as char);
}

/// The number `i` in decimal notation.
pub fn format_number(i: i32) -> (r: String)
    ensures
        r@ == decimal(i as int),
{
    let mut out: Vec<char> = Vec::new();
    if i < 0 {
        out.push('-');
        let magnitude: u64 = (-(i as i64)) as u64;
        push_digits(magnitude, &mut out);
    } else {
        push_digits(i as u64, &mut out);
    }
    string_of(&out)
}

/// `s` with spaces behind it, so that it has at least `width` characters.
pub open spec fn padded_to(s: Seq<char>, width: nat) -> Seq<char>
    decreases width - s.len(),
{
    if s.len() >= width {
        s
    } else {
        padded_to(s.push(' '), width)
    }
}

/// `s` with spaces behind it, so that it has at least `width` characters.
pub fn pad_right(s: &str, width: usize) -> (r: String)
    ensures
        r@ == padded_to(s@, width as nat),
{
    let mut out = chars_of(s);
    while out.len() < width
        invariant
            padded_to(out@, width as nat) == padded_to(s@, width as nat),
        decreases width - out.len(),
    {
        out.push(' ');
    }
    string_of(&out)
}

/// The texts of a list of strings.
pub open spec fn texts(v: Seq<String>) -> Seq<Seq<char>> {
    v.map_values(|s: String| s@)
}

/// The text of an optional string.
pub open spec fn optional_text(o: Option<String>) -> Option<Seq<char>> {
    match o {
        Some(s) => Some(s@),
        None => None,
    }
}

/// The text of an optional string that may be missing for two reasons.
pub open spec fn optional_text2(o: Option<Option<String>>) -> Option<Option<Seq<char>>> {
    match o {
        Some(inner) => Some(optional_text(inner)),
        None => None,
    }
}

/// Whether two character vectors hold the same characters.
pub fn same_chars(a: &Vec<char>, b: &Vec<char>) -> (r: bool)
    ensures
        r == (a@ == b@),
{
    if a.len() != b.len() {
        return false;
    }
    let r = matches_at(a, b, 0);
    proof {
        assert(a@.subrange(0, a@.len() as int) == a@);
    }
    r
}

/// Appends the characters of `more` to `v`.
pub fn push_all(v: &mut Vec<char>, more: &Vec<char>)
    ensures
        final(v)@ == old(v)@ + more@,
{
    let mut i: usize = 0;
    while i < more.len()
        invariant
            i <= more.len(),
            v@ == old(v)@ + more@.take(i as int),
        decreases more.len() - i,
    {
        v.push(more[i]);
        i = i + 1;
    }
}

} // verus!
