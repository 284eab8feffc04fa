//! Texts as sequences of characters: comparing, searching and splitting.

use vstd::prelude::*;
use vstd::std_specs::iter::IteratorSpec;
use vstd::string::*;

verus! {

/// The character sequences of a list of strings, in order.
pub open spec fn texts(v: Seq<String>) -> Seq<Seq<char>> {
    Seq::new(v.len(), |i: int| v[i]@)
}

/// Where `c` first occurs in `s`; the length of `s` if it does not occur.
pub open spec fn first_index(s: Seq<char>, c: char) -> int
    decreases s.len(),
{
    if s.len() == 0 || s[0] == c {
        0
    } else {
        1 + first_index(s.drop_first(), c)
    }
}

/// The fields of `s`: the stretches between one occurrence of `sep` and the
/// next, in order. There is always at least one field, and a field may be
/// empty.
pub open spec fn split(s: Seq<char>, sep: char) -> Seq<Seq<char>>
    decreases s.len(),
{
    let i = first_index(s, sep);
    if 0 <= i < s.len() {
        seq![s.take(i)] + split(s.skip(i + 1), sep)
    } else {
        seq![s]
    }
}

/// `first_index` is `j` when `c` stands at `j`, or `s` ends there, and `c`
/// does not occur before `j`.
pub proof fn lemma_first_index_is(s: Seq<char>, c: char, j: int)
    requires
        0 <= j <= s.len(),
        forall|k: int| 0 <= k < j ==> s[k] != c,
        j == s.len() || s[j] == c,
    ensures
        first_index(s, c) == j,
    decreases j,
{
    if j > 0 {
        assert(s[0] != c);
        assert forall|k: int| 0 <= k < j - 1 implies s.drop_first()[k] != c by {
            assert(s.drop_first()[k] == s[k + 1]);
        }
        lemma_first_index_is(s.drop_first(), c, j - 1);
    }
}

/// A text in which the separator does not occur is a single field.
pub proof fn lemma_split_plain(s: Seq<char>, sep: char)
    requires
        !s.contains(sep),
    ensures
        split(s, sep) == seq![s],
{
    assert forall|k: int| 0 <= k < s.len() implies s[k] != sep by {
        if s[k] == sep {
            assert(s.contains(sep));
        }
    }
    lemma_first_index_is(s, sep, s.len() as int);
}

/// A field, the separator and more text split into that field and the
/// fields of the rest.
pub proof fn lemma_split_field(a: Seq<char>, rest: Seq<char>, sep: char)
    requires
        !a.contains(sep),
    ensures
        split(a + seq![sep] + rest, sep) == seq![a] + split(rest, sep),
{
    let s = a + seq![sep] + rest;
    let j = a.len() as int;
    assert forall|k: int| 0 <= k < j implies s[k] != sep by {
        assert(s[k] == a[k]);
        if a[k] == sep {
            assert(a.contains(sep));
        }
    }
    assert(s[j] == sep);
    lemma_first_index_is(s, sep, j);
    assert(s.take(j) =~= a);
    assert(s.skip(j + 1) =~= rest);
}

/// No field holds the separator, and there is one field more than there are
/// separators in the text.
pub proof fn lemma_split_fields_are_plain(s: Seq<char>, sep: char)
    ensures
        split(s, sep).len() >= 1,
        forall|i: int| 0 <= i < split(s, sep).len() ==> !(#[trigger] split(s, sep)[i]).contains(sep),
    decreases s.len(),
{
    let j = first_index(s, sep);
    lemma_first_index_bounds(s, sep);
    if 0 <= j < s.len() {
        let rest = s.skip(j + 1);
        lemma_split_fields_are_plain(rest, sep);
        assert forall|i: int| 0 <= i < split(s, sep).len() implies !(#[trigger] split(s, sep)[i]).contains(sep) by {
            if i == 0 {
                assert(split(s, sep)[0] == s.take(j));
            } else {
                assert(split(s, sep)[i] == split(rest, sep)[i - 1]);
            }
        }
    } else {
        assert(s.take(j) =~= s);
    }
}

/// `first_index` lies within the text or at its end, the separator does not
/// occur before it, and it stands there unless the text ends.
pub proof fn lemma_first_index_bounds(s: Seq<char>, c: char)
    ensures
        0 <= first_index(s, c) <= s.len(),
        !s.take(first_index(s, c)).contains(c),
        first_index(s, c) < s.len() ==> s[first_index(s, c)] == c,
    decreases s.len(),
{
    if s.len() == 0 || s[0] == c {
        assert(s.take(0) =~= Seq::<char>::empty());
    } else {
        lemma_first_index_bounds(s.drop_first(), c);
        let j = first_index(s.drop_first(), c);
        let head = s.take(j + 1);
        assert forall|k: int| 0 <= k < head.len() implies head[k] != c by {
            if k > 0 {
                assert(head[k] == s.drop_first().take(j)[k - 1]);
                assert(s.drop_first().take(j).contains(head[k]));
            }
        }
    }
}

/// The characters of `s`.
pub fn chars_of(s: &str) -> (v: Vec<char>)
    ensures
        v@ == s@,
{
    let mut v: Vec<char> = Vec::new();
    for c in it: s.chars()
        invariant
            it.seq() == s@,
            v@ == s@.take(it.index() as int),
    {
        assert(s@.take(it.index() + 1) =~= s@.take(it.index() as int).push(c));
        v.push(c);
    }
    assert(s@.take(s@.len() as int) =~= s@);
    v
}

/// Whether `a` and `b` hold the same characters.
pub fn same_text(a: &str, b: &str) -> (r: bool)
    ensures
        r == (a@ == b@),
{
    let x = chars_of(a);
    let y = chars_of(b);
    if x.len() != y.len() {
        return false;
    }
    let mut i: usize = 0;
    while i < x.len()
        invariant
            i <= x.len(),
            x.len() == y.len(),
            x@ == a@,
            y@ == b@,
            forall|k: int| 0 <= k < i ==> x@[k] == y@[k],
        decreases x.len() - i,
    {
        if x[i] != y[i] {
            return false;
        }
        i = i + 1;
    }
    assert(a@ =~= b@);
    true
}

/// Whether `c` occurs in `s`.
pub fn has_char(s: &str, c: char) -> (r: bool)
    ensures
        r == s@.contains(c),
{
    for x in it: s.chars()
        invariant
            it.seq() == s@,
            forall|k: int| 0 <= k < it.index() ==> s@[k] != c,
    {
        if x == c {
            assert(s@[it.index() as int] == c);
            return true;
        }
    }
    false
}

/// Splits `s` at every occurrence of `sep`.
pub fn split_fields(s: &str, sep: char) -> (fields: Vec<String>)
    ensures
        texts(fields@) == split(s@, sep),
{
    let n = s.unicode_len();
    let mut fields: Vec<String> = Vec::new();
    let mut start: usize = 0;
    let mut i: usize = 0;
    proof {
        assert(s@.skip(0) =~= s@);
        assert(texts(fields@) + split(s@, sep) =~= split(s@, sep));
    }
    for c in it: s.chars()
        invariant
            it.seq() == s@,
            n == s@.len(),
            i == it.index(),
            start <= i <= n,
            forall|k: int| start <= k < i ==> s@[k] != sep,
            texts(fields@) + split(s@.skip(start as int), sep) == split(s@, sep),
    {
        if c == sep {
            let field = String::from_str(s.substring_char(start, i));
            proof {
                let tail = s@.skip(start as int);
                let j = i - start;
                assert forall|k: int| 0 <= k < j implies tail[k] != sep by {
                    assert(tail[k] == s@[start + k]);
                }
                lemma_first_index_is(tail, sep, j);
                assert(tail.take(j) =~= s@.subrange(start as int, i as int));
                assert(tail.skip(j + 1) =~= s@.skip(i + 1));
                assert(texts(fields@.push(field)) =~= texts(fields@).push(field@));
                assert(texts(fields@).push(field@) + split(s@.skip(i + 1), sep) =~= texts(fields@)
                    + split(tail, sep));
            }
            fields.push(field);
            start = i + 1;
        }
        i = i + 1;
    }
    let last = String::from_str(s.substring_char(start, n));
    proof {
        let tail = s@.skip(start as int);
        assert forall|k: int| 0 <= k < tail.len() implies tail[k] != sep by {
            assert(tail[k] == s@[start + k]);
        }
        lemma_first_index_is(tail, sep, tail.len() as int);
        assert(tail =~= s@.subrange(start as int, n as int));
        assert(texts(fields@.push(last)) =~= texts(fields@).push(last@));
        assert(texts(fields@).push(last@) =~= texts(fields@) + split(tail, sep));
    }
    fields.push(last);
    fields
}

/// A copy of a list of strings.
pub fn clone_texts(v: &Vec<String>) -> (r: Vec<String>)
    ensures
        texts(r@) == texts(v@),
{
    let mut r: Vec<String> = Vec::new();
    let mut i: usize = 0;
    while i < v.len()
        invariant
            i <= v.len(),
            r.len() == i,
            forall|k: int| 0 <= k < i ==> r@[k]@ == v@[k]@,
        decreases v.len() - i,
    {
        r.push(v[i].clone());
        i = i + 1;
    }
    assert(texts(r@) =~= texts(v@));
    r
}

} // verus!
