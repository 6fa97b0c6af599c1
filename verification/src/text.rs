//! Text helpers.

use vstd::prelude::*;
use vstd::string::StrSliceExecFns;
use vstd::string::StringExecFns;

verus! {

/// A text takes at least one byte for each of its characters.
pub proof fn lemma_utf8_len(chars: Seq<char>)
    ensures
        vstd::utf8::encode_utf8(chars).len() >= chars.len(),
    decreases chars.len(),
{
    if chars.len() > 0 {
        broadcast use vstd::utf8::char_is_scalar;
        lemma_utf8_len(chars.drop_first());
    }
}

/// Whether `pattern` stands in `s` at index `i`.
pub open spec fn occurs_at(s: Seq<char>, pattern: Seq<char>, i: int) -> bool {
    0 <= i <= s.len() - pattern.len() && s.subrange(i, i + pattern.len()) == pattern
}

/// Whether `pattern` stands anywhere in `s`.
pub open spec fn has_text(s: Seq<char>, pattern: Seq<char>) -> bool {
    exists|i: int| occurs_at(s, pattern, i)
}

/// `s` with each occurrence of `from`, taken from the left and without overlap,
/// replaced by `to`.
pub open spec fn replaced(s: Seq<char>, from: Seq<char>, to: Seq<char>) -> Seq<char>
    decreases s.len(),
{
    if s.len() == 0 || from.len() == 0 {
        s
    } else if occurs_at(s, from, 0) {
        to + replaced(s.skip(from.len() as int), from, to)
    } else {
        seq![s[0]] + replaced(s.skip(1), from, to)
    }
}

/// The texts of `list`, one after the other, with `sep` between them.
pub open spec fn joined(list: Seq<Seq<char>>, sep: Seq<char>) -> Seq<char>
    decreases list.len(),
{
    if list.len() == 0 {
        seq![]
    } else if list.len() == 1 {
        list[0]
    } else {
        joined(list.drop_last(), sep) + sep + list.last()
    }
}

/// The texts of a list of strings.
pub open spec fn texts(list: Seq<String>) -> Seq<Seq<char>> {
    list.map_values(|s: String| s@)
}

/// The text of an optional text.
pub open spec fn optional_text(s: Option<&str>) -> Option<Seq<char>> {
    match s {
        Some(s) => Some(s@),
        None => None,
    }
}

/// The text of an optional string.
pub open spec fn optional_view(s: Option<String>) -> Option<Seq<char>> {
    match s {
        Some(s) => Some(s@),
        None => None,
    }
}

/// The characters of `s`.
pub fn chars_of(s: &str) -> (r: Vec<char>)
    ensures
        r@ == s@,
{
    let mut r: Vec<char> = Vec::new();
    for c in iter: s.chars()
        invariant
            r@ == iter.seq().take(iter.index()),
    {
        r.push(c);
    }
    assert(r@ =~= s@);
    r
}

/// Whether the characters of `pattern` stand in `s` at index `i`.
fn chars_occur_at(s: &Vec<char>, pattern: &Vec<char>, i: usize) -> (r: bool)
    requires
        i <= s@.len(),
    ensures
        r == occurs_at(s@, pattern@, i as int),
{
    let len: usize = s.len();
    if pattern.len() > len - i {
        return false;
    }
    let mut k: usize = 0;
    while k < pattern.len()
        invariant
            k <= pattern@.len(),
            i + pattern@.len() <= len,
            len == s@.len(),
            forall|j: int| 0 <= j < k ==> s@[i + j] == pattern@[j],
        decreases pattern@.len() - k,
    {
        if s[i + k] != pattern[k] {
            assert(s@.subrange(i as int, i + pattern@.len())[k as int] != pattern@[k as int]);
            return false;
        }
        k = k + 1;
    }
    assert(s@.subrange(i as int, i + pattern@.len()) =~= pattern@);
    true
}

/// Whether `s` starts with `prefix`.
pub fn starts_with(s: &str, prefix: &str) -> (r: bool)
    ensures
        r == occurs_at(s@, prefix@, 0),
{
    chars_occur_at(&chars_of(s), &chars_of(prefix), 0)
}

/// Whether `pattern` stands anywhere in `s`.
pub fn contains(s: &str, pattern: &str) -> (r: bool)
    ensures
        r == has_text(s@, pattern@),
{
    let chars: Vec<char> = chars_of(s);
    let pattern_chars: Vec<char> = chars_of(pattern);
    let mut i: usize = 0;
    while i < chars.len()
        invariant
            i <= chars@.len(),
            chars@ == s@,
            pattern_chars@ == pattern@,
            forall|j: int| 0 <= j < i ==> !occurs_at(s@, pattern@, j),
        decreases chars@.len() - i,
    {
        if chars_occur_at(&chars, &pattern_chars, i) {
            return true;
        }
        i = i + 1;
    }
    let at_end: bool = chars_occur_at(&chars, &pattern_chars, i);
    assert(!at_end ==> (forall|j: int| !occurs_at(s@, pattern@, j)));
    at_end
}

/// Replaces each occurrence of `from` in `s`.
pub fn replace(s: &str, from: &str, to: &str) -> (r: String)
    requires
        from@.len() > 0,
    ensures
        r@ == replaced(s@, from@, to@),
{
    let chars: Vec<char> = chars_of(s);
    let from_chars: Vec<char> = chars_of(from);
    let mut r: String = String::new();
    let mut i: usize = 0;
    assert(s@.skip(0) =~= s@);
    while i < chars.len()
        invariant
            i <= chars@.len(),
            chars@ == s@,
            from_chars@ == from@,
            from@.len() > 0,
            r@ + replaced(s@.skip(i as int), from@, to@) == replaced(s@, from@, to@),
        decreases chars@.len() - i,
    {
        let ghost rest = s@.skip(i as int);
        let ghost before = r@;
        if chars_occur_at(&chars, &from_chars, i) {
            proof {
                assert(s@.subrange(i as int, i + from@.len()) =~= rest.subrange(0, from@.len() as int));
                assert(occurs_at(rest, from@, 0));
                assert(rest.skip(from@.len() as int) =~= s@.skip(i + from@.len()));
            }
            r.append(to);
            i = i + from_chars.len();
        } else {
            proof {
                if occurs_at(rest, from@, 0) {
                    assert(s@.subrange(i as int, i + from@.len()) =~= rest.subrange(0, from@.len() as int));
                }
                assert(rest.skip(1) =~= s@.skip(i + 1));
                assert(s@.subrange(i as int, i + 1) =~= seq![rest[0]]);
            }
            r.append(s.substring_char(i, i + 1));
            i = i + 1;
        }
        assert(r@ + replaced(s@.skip(i as int), from@, to@) =~= before + replaced(rest, from@, to@));
    }
    assert(r@ =~= r@ + replaced(s@.skip(i as int), from@, to@));
    r
}

/// Joins the texts of `list` with `sep` between them.
pub fn join(list: &Vec<String>, sep: &str) -> (r: String)
    ensures
        r@ == joined(texts(list@), sep@),
{
    let mut r: String = String::new();
    let mut i: usize = 0;
    while i < list.len()
        invariant
            i <= list@.len(),
            r@ == joined(texts(list@).take(i as int), sep@),
        decreases list@.len() - i,
    {
        let ghost next = texts(list@).take(i + 1);
        assert(next.drop_last() =~= texts(list@).take(i as int));
        if i > 0 {
            r.append(sep);
        } else {
            assert(next[0] =~= r@ + next[0]);
        }
        r.append(list[i].as_str());
        i = i + 1;
    }
    assert(texts(list@).take(i as int) =~= texts(list@));
    r
}

/// Whether two texts are the same.
pub fn same(a: &str, b: &str) -> (r: bool)
    ensures
        r == (a@ == b@),
{
    a.to_owned() == b.to_owned()
}

/// Whether a text is empty.
pub fn is_empty(s: &str) -> (r: bool)
    ensures
        r == (s@.len() == 0),
{
    proof {
        reveal_strlit("");
        if s@.len() == 0 {
            assert(s@ =~= ""@);
        }
    }
    same(s, "")
}

/// `a` followed by `b`.
pub fn concat(a: &str, b: &str) -> (r: String)
    ensures
        r@ == a@ + b@,
{
    let mut r: String = a.to_owned();
    r.append(b);
    r
}

/// `a` followed by `b` and `c`.
pub fn concat3(a: &str, b: &str, c: &str) -> (r: String)
    ensures
        r@ == a@ + b@ + c@,
{
    let mut r: String = concat(a, b);
    r.append(c);
    r
}

/// A pattern occurs where it stands with some text before it and some after it,
/// and nowhere else.
pub proof fn law_occurrence_splits_the_text(s: Seq<char>, pattern: Seq<char>, i: int)
    ensures
        occurs_at(s, pattern, i) <==> exists|before: Seq<char>, after: Seq<char>|
            before.len() == i && s == #[trigger] (before + pattern + after),
        has_text(s, pattern) <==> exists|before: Seq<char>, after: Seq<char>| s == #[trigger] (before + pattern + after),
{
    assert forall|at: int| occurs_at(s, pattern, at) implies s == s.take(at) + pattern + s.skip(
        at + pattern.len(),
    ) by {
        assert(s =~= s.take(at) + s.subrange(at, at + pattern.len()) + s.skip(at + pattern.len()));
    }
    assert forall|before: Seq<char>, after: Seq<char>| s == #[trigger] (before + pattern + after) implies occurs_at(
        s,
        pattern,
        before.len() as int,
    ) by {
        let at = before.len() as int;
        assert((before + pattern + after).subrange(at, at + pattern.len()) =~= pattern);
    }
    if occurs_at(s, pattern, i) {
        let before = s.take(i);
        let after = s.skip(i + pattern.len());
        assert(before.len() == i && s == before + pattern + after);
    }
    if has_text(s, pattern) {
        let at = choose|at: int| occurs_at(s, pattern, at);
        let before = s.take(at);
        let after = s.skip(at + pattern.len());
        assert(s == before + pattern + after);
    }
}

/// Replacing leaves a text without the pattern as it is, and in a text with it
/// replaces the first occurrence and goes on behind it.
pub proof fn law_each_occurrence_is_replaced(before: Seq<char>, from: Seq<char>, to: Seq<char>, after: Seq<char>)
    requires
        from.len() > 0,
        forall|i: int| 0 <= i < before.len() ==> !#[trigger] occurs_at(before + from + after, from, i),
    ensures
        replaced(before + from + after, from, to) == before + to + replaced(after, from, to),
        !has_text(after, from) ==> replaced(after, from, to) == after,
    decreases before.len() + after.len(),
{
    let s = before + from + after;
    if before.len() == 0 {
        assert(s.subrange(0, from.len() as int) =~= from);
        assert(s.skip(from.len() as int) =~= after);
        assert(replaced(s, from, to) =~= before + to + replaced(after, from, to));
    } else {
        assert(!occurs_at(s, from, 0));
        let rest = before.skip(1);
        assert(s.skip(1) =~= rest + from + after);
        assert forall|i: int| 0 <= i < rest.len() implies !#[trigger] occurs_at(rest + from + after, from, i) by {
            if occurs_at(rest + from + after, from, i) {
                assert(s.subrange(i + 1, i + 1 + from.len()) =~= (rest + from + after).subrange(i, i + from.len()));
                assert(occurs_at(s, from, i + 1));
            }
        }
        law_each_occurrence_is_replaced(rest, from, to, after);
        assert(before =~= seq![s[0]] + rest);
        assert(replaced(s, from, to) =~= before + to + replaced(after, from, to));
    }
    if !has_text(after, from) {
        lemma_nothing_is_replaced(after, from, to);
    }
}

proof fn lemma_nothing_is_replaced(s: Seq<char>, from: Seq<char>, to: Seq<char>)
    requires
        !has_text(s, from),
    ensures
        replaced(s, from, to) == s,
    decreases s.len(),
{
    if s.len() > 0 && from.len() > 0 {
        assert(!occurs_at(s, from, 0));
        let rest = s.skip(1);
        assert forall|i: int| !occurs_at(rest, from, i) by {
            if occurs_at(rest, from, i) {
                assert(s.subrange(i + 1, i + 1 + from.len()) =~= rest.subrange(i, i + from.len()));
                assert(occurs_at(s, from, i + 1));
            }
        }
        lemma_nothing_is_replaced(rest, from, to);
        assert(s =~= seq![s[0]] + rest);
    }
}

/// Joining puts the separator between texts, and nowhere else: nothing joins to
/// nothing, one text to itself, and of two lists the first is followed by the
/// separator and the second.
pub proof fn law_separator_stands_between_texts(a: Seq<Seq<char>>, b: Seq<Seq<char>>, sep: Seq<char>, text: Seq<char>)
    requires
        a.len() > 0,
        b.len() > 0,
    ensures
        joined(Seq::empty(), sep) == Seq::<char>::empty(),
        joined(seq![text], sep) == text,
        joined(a + b, sep) == joined(a, sep) + sep + joined(b, sep),
    decreases b.len(),
{
    assert((a + b).drop_last() =~= a + b.drop_last());
    assert((a + b).last() == b.last());
    if b.len() == 1 {
        assert(a + b.drop_last() =~= a);
        assert(joined(b, sep) == b[0]);
    } else {
        law_separator_stands_between_texts(a, b.drop_last(), sep, text);
        assert(joined(a + b, sep) =~= joined(a, sep) + sep + joined(b, sep));
    }
}

/// What an optional text, and a list of texts, hold.
pub proof fn law_texts_are_those_of_the_strings(s: &str, string: String, list: Seq<String>, i: int)
    ensures
        optional_text(Some(s)) == Some(s@) && optional_text(None) is None,
        optional_view(Some(string)) == Some(string@) && optional_view(None) is None,
        texts(list).len() == list.len(),
        0 <= i < list.len() ==> texts(list)[i] == list[i]@,
{
}

} // verus!
