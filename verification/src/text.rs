//! Text as sequences of characters: occurrence of one text in another, and
//! joining texts with a separator.

use vstd::prelude::*;
use vstd::string::*;

verus! {

/// `needle` stands in `hay` at position `at`.
pub open spec fn occurs_at(needle: Seq<char>, hay: Seq<char>, at: int) -> bool {
    &&& 0 <= at
    &&& at + needle.len() <= hay.len()
    &&& hay.subrange(at, at + needle.len()) == needle
}

/// `needle` stands somewhere in `hay` as a contiguous run of characters.
pub open spec fn occurs_in(needle: Seq<char>, hay: Seq<char>) -> bool {
    exists|at: int| occurs_at(needle, hay, at)
}

/// Each text of `parts` with `prefix` put before it.
pub open spec fn prefixed(prefix: Seq<char>, parts: Seq<Seq<char>>) -> Seq<Seq<char>> {
    Seq::new(parts.len(), |i: int| prefix + parts[i])
}

/// The texts of `parts` in order, with `sep` between each two neighbours.
pub open spec fn joined(parts: Seq<Seq<char>>, sep: Seq<char>) -> Seq<char>
    decreases parts.len(),
{
    if parts.len() == 0 {
        Seq::empty()
    } else if parts.len() == 1 {
        parts[0]
    } else {
        joined(parts.drop_last(), sep) + sep + parts.last()
    }
}

/// Putting the empty text before each part changes nothing.
pub proof fn lemma_prefixed_empty(parts: Seq<Seq<char>>)
    ensures
        prefixed(Seq::empty(), parts) == parts,
{
    assert forall|i: int| 0 <= i < parts.len() implies prefixed(Seq::empty(), parts)[i]
        == parts[i] by {
        assert(Seq::<char>::empty() + parts[i] =~= parts[i]);
    }
    assert(prefixed(Seq::empty(), parts) =~= parts);
}

/// Joining grows by one separator and one part when a part is added to a
/// non-empty sequence.
pub proof fn lemma_joined_push(parts: Seq<Seq<char>>, sep: Seq<char>, part: Seq<char>)
    ensures
        joined(parts.push(part), sep) == if parts.len() == 0 {
            part
        } else {
            joined(parts, sep) + sep + part
        },
{
    assert(parts.push(part).drop_last() =~= parts);
}

/// The characters of a text, one by one.
pub fn chars_of(s: &str) -> (v: Vec<char>)
    ensures
        v@ == s@,
{
    let mut v: Vec<char> = Vec::new();
    for c in it: s.chars()
        invariant
            v@ == it.seq().take(it.index()),
            it.seq() == s@,
    {
        v.push(c);
    }
    v
}

/// Whether `needle` stands in `hay` at position `at`.
pub fn matches_at(hay: &Vec<char>, needle: &Vec<char>, at: usize) -> (b: bool)
    ensures
        b == occurs_at(needle@, hay@, at as int),
{
    if needle.len() > hay.len() || at > hay.len() - needle.len() {
        return false;
    }
    let mut j: usize = 0;
    while j < needle.len()
        invariant
            j <= needle.len(),
            at + needle.len() <= hay.len(),
            forall|k: int| 0 <= k < j ==> hay@[at + k] == needle@[k],
        decreases needle.len() - j,
    {
        if hay[at + j] != needle[j] {
            proof {
                let window = hay@.subrange(at as int, at + needle.len());
                assert(window[j as int] == hay@[at + j]);
            }
            return false;
        }
        j += 1;
    }
    assert(hay@.subrange(at as int, at + needle.len()) =~= needle@);
    true
}

/// Whether `needle` stands somewhere in `hay`.
pub fn contains_chars(hay: &Vec<char>, needle: &Vec<char>) -> (b: bool)
    ensures
        b == occurs_in(needle@, hay@),
{
    if needle.len() > hay.len() {
        return false;
    }
    let last: usize = hay.len() - needle.len();
    let mut at: usize = 0;
    while at < last
        invariant
            at <= last,
            last == hay.len() - needle.len(),
            forall|k: int| 0 <= k < at ==> !occurs_at(needle@, hay@, k),
        decreases last - at,
    {
        if matches_at(hay, needle, at) {
            return true;
        }
        at += 1;
    }
    matches_at(hay, needle, last)
}

/// Whether `needle` stands somewhere in `hay`.
pub fn contains_text(hay: &str, needle: &str) -> (b: bool)
    ensures
        b == occurs_in(needle@, hay@),
{
    let h = chars_of(hay);
    let n = chars_of(needle);
    contains_chars(&h, &n)
}

/// Joins `parts` with `sep`, each part preceded by `prefix`.
pub fn join_prefixed(prefix: &str, parts: &Vec<String>, sep: &str) -> (r: String)
    ensures
        r@ == joined(prefixed(prefix@, parts.deep_view()), sep@),
{
    let mut r = String::new();
    let ghost all = prefixed(prefix@, parts.deep_view());
    let mut i: usize = 0;
    while i < parts.len()
        invariant
            i <= parts.len(),
            all == prefixed(prefix@, parts.deep_view()),
            r@ == joined(all.take(i as int), sep@),
        decreases parts.len() - i,
    {
        if i > 0 {
            r.append(sep);
        }
        r.append(prefix);
        r.append(parts[i].as_str());
        proof {
            let before = all.take(i as int);
            assert(all.take(i + 1) =~= before.push(all[i as int]));
            lemma_joined_push(before, sep@, all[i as int]);
            assert(all[i as int] == prefix@ + parts[i as int]@);
        }
        i += 1;
    }
    assert(all.take(parts.len() as int) =~= all);
    r
}

/// Joins `parts` with `sep`.
pub fn join_plain(parts: &Vec<String>, sep: &str) -> (r: String)
    ensures
        r@ == joined(parts.deep_view(), sep@),
{
    proof {
        reveal_strlit("");
        assert(""@ =~= Seq::<char>::empty());
        lemma_prefixed_empty(parts.deep_view());
    }
    join_prefixed("", parts, sep)
}

} // verus!
