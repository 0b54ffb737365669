//! Line splitting and substring search over text.
use vstd::prelude::*;
use vstd::std_specs::iter::IteratorSpec;

use crate::constants::strs;

verus! {

broadcast use vstd::string::group_string_axioms;

/// The characters of `s`, one by one.
pub fn chars_of(s: &str) -> (r: Vec<char>)
    ensures
        r@ == s@,
{
    let mut it = s.chars();
    let mut r: Vec<char> = Vec::new();
    assert(it.remaining() == s@);
    let n = s.unicode_len();
    let mut i: usize = 0;
    while i < n
        invariant
            n == s@.len(),
            i <= n,
            r@.len() == i,
            r@ + it.remaining() == s@,
        decreases n - i,
    {
        if let Some(c) = it.next() {
            assert(r@.push(c) + it.remaining() =~= s@);
            r.push(c);
        }
        i = i + 1;
    }
    assert(r@ =~= s@);
    r
}

} // verus!

verus! {

/// The pieces of `s` between newline characters, in order; text without a
/// newline is one piece, and a final newline leaves an empty last piece.
pub open spec fn split_lines(s: Seq<char>) -> Seq<Seq<char>>
    decreases s.len(),
{
    if s.len() == 0 {
        seq![Seq::<char>::empty()]
    } else {
        let prev = split_lines(s.drop_last());
        if s.last() == '\n' {
            prev.push(Seq::<char>::empty())
        } else {
            prev.update(prev.len() - 1, prev.last().push(s.last()))
        }
    }
}

/// `needle` occurs in `hay` as a contiguous run of characters.
pub open spec fn contains_seq(hay: Seq<char>, needle: Seq<char>) -> bool {
    exists|k: int|
        0 <= k && k + needle.len() <= hay.len() && #[trigger] hay.subrange(k, k + needle.len())
            == needle
}

/// One of `names` occurs in `line`.
pub open spec fn mentions_any(line: Seq<char>, names: Seq<Seq<char>>) -> bool {
    exists|j: int| 0 <= j < names.len() && contains_seq(line, #[trigger] names[j])
}

/// The lines of `text` in which one of `names` occurs, in their order.
pub open spec fn lines_mentioning_spec(text: Seq<char>, names: Seq<Seq<char>>) -> Seq<Seq<char>> {
    split_lines(text).filter(|l: Seq<char>| mentions_any(l, names))
}

/// Splits `s` at its newline characters.
pub fn split_lines_of(s: &str) -> (r: Vec<String>)
    ensures
        strs(r@) == split_lines(s@),
{
    let cs = chars_of(s);
    let mut r: Vec<String> = Vec::new();
    let mut start: usize = 0;
    let mut i: usize = 0;
    assert(s@.subrange(0, 0) =~= Seq::<char>::empty());
    assert(strs(r@).push(s@.subrange(0, 0)) =~= split_lines(s@.subrange(0, 0)));
    while i < cs.len()
        invariant
            cs@ == s@,
            start <= i <= cs@.len(),
            strs(r@).push(s@.subrange(start as int, i as int)) == split_lines(
                s@.subrange(0, i as int),
            ),
        decreases cs@.len() - i,
    {
        let ghost prefix = s@.subrange(0, i as int);
        let ghost next = s@.subrange(0, i + 1);
        assert(next.drop_last() =~= prefix);
        assert(next.last() == s@[i as int]);
        if cs[i] == '\n' {
            let piece = String::from_str(s.substring_char(start, i));
            r.push(piece);
            assert(s@.subrange(i + 1, i + 1) =~= Seq::<char>::empty());
            assert(strs(r@).push(s@.subrange(i + 1, i + 1)) =~= split_lines(next));
            start = i + 1;
        } else {
            assert(s@.subrange(start as int, i + 1) =~= s@.subrange(start as int, i as int).push(
                s@[i as int],
            ));
            assert(strs(r@).push(s@.subrange(start as int, i + 1)) =~= split_lines(next));
        }
        i = i + 1;
    }
    let last = String::from_str(s.substring_char(start, i));
    r.push(last);
    assert(s@.subrange(0, i as int) =~= s@);
    assert(strs(r@) =~= split_lines(s@));
    r
}

/// Whether `needle` occurs in `hay` starting at position `k`.
fn occurs_at(hay: &Vec<char>, needle: &Vec<char>, k: usize) -> (r: bool)
    requires
        k + needle@.len() <= hay@.len(),
    ensures
        r == (hay@.subrange(k as int, k + needle@.len()) == needle@),
{
    let n = hay.len();
    let mut j: usize = 0;
    while j < needle.len()
        invariant
            n == hay@.len(),
            k + needle@.len() <= hay@.len(),
            j <= needle@.len(),
            hay@.subrange(k as int, k + j) == needle@.subrange(0, j as int),
        decreases needle@.len() - j,
    {
        if hay[k + j] != needle[j] {
            assert(hay@.subrange(k as int, k + needle@.len())[j as int] != needle@[j as int]);
            return false;
        }
        assert(hay@.subrange(k as int, k + j + 1) =~= needle@.subrange(0, j + 1));
        j = j + 1;
    }
    assert(hay@.subrange(k as int, k + needle@.len()) =~= needle@);
    true
}

/// Whether `needle` occurs in `hay`.
pub fn contains_chars(hay: &Vec<char>, needle: &Vec<char>) -> (r: bool)
    ensures
        r == contains_seq(hay@, needle@),
{
    if needle.len() > hay.len() {
        return false;
    }
    let last = hay.len() - needle.len();
    let mut k: usize = 0;
    loop
        invariant
            k <= last,
            last + needle@.len() == hay@.len(),
            forall|m: int|
                0 <= m < k ==> #[trigger] hay@.subrange(m, m + needle@.len()) != needle@,
        decreases last - k,
    {
        if occurs_at(hay, needle, k) {
            return true;
        }
        if k == last {
            return false;
        }
        k = k + 1;
    }
}

/// The lines of `text` in which one of `names` occurs, in their order.
pub fn lines_mentioning(text: &str, names: &Vec<String>) -> (r: Vec<String>)
    ensures
        strs(r@) == lines_mentioning_spec(text@, strs(names@)),
{
    let lines = split_lines_of(text);
    let mut needles: Vec<Vec<char>> = Vec::new();
    let mut j: usize = 0;
    while j < names.len()
        invariant
            j <= names@.len(),
            needles@.len() == j,
            forall|m: int| 0 <= m < j ==> #[trigger] needles@[m]@ == names@[m]@,
        decreases names@.len() - j,
    {
        needles.push(chars_of(names[j].as_str()));
        j = j + 1;
    }
    let ghost pred = |l: Seq<char>| mentions_any(l, strs(names@));
    let mut r: Vec<String> = Vec::new();
    let mut i: usize = 0;
    reveal(Seq::filter);
    assert(strs(lines@).subrange(0, 0) =~= Seq::<Seq<char>>::empty());
    while i < lines.len()
        invariant
            i <= lines@.len(),
            needles@.len() == names@.len(),
            forall|m: int| 0 <= m < names@.len() ==> #[trigger] needles@[m]@ == names@[m]@,
            pred == (|l: Seq<char>| mentions_any(l, strs(names@))),
            strs(r@) == strs(lines@).subrange(0, i as int).filter(pred),
        decreases lines@.len() - i,
    {
        let line = chars_of(lines[i].as_str());
        let mut found = false;
        let mut m: usize = 0;
        while m < needles.len() && !found
            invariant
                m <= needles@.len(),
                i < lines@.len(),
                needles@.len() == names@.len(),
                forall|q: int| 0 <= q < names@.len() ==> #[trigger] needles@[q]@ == names@[q]@,
                line@ == lines@[i as int]@,
                found ==> mentions_any(line@, strs(names@)),
                !found ==> forall|q: int| 0 <= q < m ==> !contains_seq(line@, #[trigger] strs(names@)[q]),
            decreases needles@.len() - m,
        {
            if contains_chars(&line, &needles[m]) {
                assert(strs(names@)[m as int] == needles@[m as int]@);
                found = true;
            }
            m = m + 1;
        }
        reveal(Seq::filter);
        let ghost done = strs(lines@).subrange(0, i + 1);
        assert(done.drop_last() =~= strs(lines@).subrange(0, i as int));
        assert(done.last() == lines@[i as int]@);
        assert(found == pred(done.last()));
        if found {
            r.push(lines[i].clone());
            assert(strs(r@) =~= done.filter(pred));
        } else {
            assert(strs(r@) =~= done.filter(pred));
        }
        i = i + 1;
    }
    assert(strs(lines@).subrange(0, i as int) =~= strs(lines@));
    r
}

} // verus!
