//! Character-level string operations, specified over `Seq<char>`.

use vstd::prelude::*;

verus! {

/// `pat` stands in `s` at position `at`.
pub open spec fn occurs_at(s: Seq<char>, pat: Seq<char>, at: int) -> bool {
    0 <= at && at + pat.len() <= s.len() && s.subrange(at, at + pat.len()) == pat
}

/// `pat` stands somewhere in `s`. The empty sequence stands in every sequence.
pub open spec fn holds(s: Seq<char>, pat: Seq<char>) -> bool {
    exists|at: int| occurs_at(s, pat, at)
}

/// `s` with every occurrence of `pat` taken out. Occurrences are found from the left
/// and never overlap; an empty `pat` takes nothing out.
pub open spec fn without(s: Seq<char>, pat: Seq<char>) -> Seq<char>
    decreases s.len(),
{
    if pat.len() == 0 || s.len() < pat.len() {
        s
    } else if occurs_at(s, pat, 0) {
        without(s.skip(pat.len() as int), pat)
    } else {
        seq![s[0]] + without(s.skip(1), pat)
    }
}

/// The part of `s` before the first `stop`; all of `s` where it holds no `stop`.
pub open spec fn until(s: Seq<char>, stop: char) -> Seq<char>
    decreases s.len(),
{
    if s.len() == 0 || s[0] == stop {
        Seq::empty()
    } else {
        seq![s[0]] + until(s.skip(1), stop)
    }
}

/// `until` yields the longest prefix of `s` that is free of `stop`.
pub proof fn lemma_until_is_longest_clean_prefix(s: Seq<char>, stop: char)
    ensures
        until(s, stop).len() <= s.len(),
        until(s, stop) == s.take(until(s, stop).len() as int),
        !until(s, stop).contains(stop),
        until(s, stop).len() < s.len() ==> s[until(s, stop).len() as int] == stop,
    decreases s.len(),
{
    if s.len() > 0 && s[0] != stop {
        lemma_until_is_longest_clean_prefix(s.skip(1), stop);
    }
}

/// Taking occurrences out never makes a text longer.
pub proof fn law_without_is_no_longer(s: Seq<char>, pat: Seq<char>)
    ensures
        without(s, pat).len() <= s.len(),
    decreases s.len(),
{
    if pat.len() > 0 && s.len() >= pat.len() {
        if occurs_at(s, pat, 0) {
            law_without_is_no_longer(s.skip(pat.len() as int), pat);
        } else {
            law_without_is_no_longer(s.skip(1), pat);
        }
    }
}

/// A text in which `pat` does not stand is left as it is.
pub proof fn law_without_keeps_clean_text(s: Seq<char>, pat: Seq<char>)
    requires
        !holds(s, pat),
    ensures
        without(s, pat) == s,
    decreases s.len(),
{
    if pat.len() > 0 && s.len() >= pat.len() {
        let rest = s.skip(1);
        assert forall|at: int| !occurs_at(rest, pat, at) by {
            if occurs_at(rest, pat, at) {
                assert(s.subrange(at + 1, at + 1 + pat.len()) =~= rest.subrange(
                    at,
                    at + pat.len(),
                ));
                assert(occurs_at(s, pat, at + 1));
            }
        }
        law_without_keeps_clean_text(rest, pat);
    }
}

/// `String::push`: the string gains the one character at its end.
#[verifier::external_body]
fn push_char(s: &mut String, c: char)
    ensures
        final(s)@ == old(s)@.push(c),
{
    s.push(c);
}

/// The characters of `s`, in order.
pub fn chars_of(s: &str) -> (v: Vec<char>)
    ensures
        v@ == s@,
{
    let mut v: Vec<char> = Vec::new();
    for c in it: s.chars()
        invariant
            it.seq() == s@,
            v@ == s@.take(it.index() as int),
    {
        v.push(c);
    }
    v
}

/// Whether two texts hold the same characters.
pub fn same_text(a: &str, b: &str) -> (same: bool)
    ensures
        same == (a@ == b@),
{
    String::from_str(a) == String::from_str(b)
}

/// `head` followed by `tail`.
pub fn joined(head: &str, tail: &str) -> (s: String)
    ensures
        s@ == head@ + tail@,
{
    String::from_str(head).concat(tail)
}

/// The string made of the characters `v`, in order.
pub fn string_of(v: &Vec<char>) -> (s: String)
    ensures
        s@ == v@,
{
    let mut s = String::new();
    let mut i: usize = 0;
    while i < v.len()
        invariant
            i <= v.len(),
            s@ == v@.take(i as int),
        decreases v.len() - i,
    {
        push_char(&mut s, v[i]);
        i += 1;
    }
    s
}

/// Whether `pat` stands in `s` at position `at`.
pub fn stands_at(s: &Vec<char>, pat: &Vec<char>, at: usize) -> (b: bool)
    ensures
        b == occurs_at(s@, pat@, at as int),
{
    if at > s.len() || pat.len() > s.len() - at {
        return false;
    }
    let mut k: usize = 0;
    while k < pat.len()
        invariant
            at + pat.len() <= s.len(),
            k <= pat.len(),
            forall|j: int| 0 <= j < k ==> s@[at + j] == pat@[j],
        decreases pat.len() - k,
    {
        if s[at + k] != pat[k] {
            return false;
        }
        k += 1;
    }
    assert(s@.subrange(at as int, at + pat.len()) =~= pat@);
    true
}

/// Whether `pat` stands somewhere in `s`.
pub fn finds(s: &Vec<char>, pat: &Vec<char>) -> (b: bool)
    ensures
        b == holds(s@, pat@),
{
    if pat.len() > s.len() {
        return false;
    }
    let last: usize = s.len() - pat.len();
    let mut at: usize = 0;
    while at < last
        invariant
            last == s.len() - pat.len(),
            at <= last,
            forall|j: int| 0 <= j < at ==> !occurs_at(s@, pat@, j),
        decreases last - at,
    {
        if stands_at(s, pat, at) {
            return true;
        }
        at += 1;
    }
    stands_at(s, pat, last)
}

/// `s` with every occurrence of `pat` taken out.
pub fn strip(s: &Vec<char>, pat: &Vec<char>) -> (out: Vec<char>)
    ensures
        out@ == without(s@, pat@),
{
    let mut out: Vec<char> = Vec::new();
    let mut i: usize = 0;
    assert(s@.skip(0) =~= s@);
    while i < s.len()
        invariant
            i <= s.len(),
            out@ + without(s@.skip(i as int), pat@) == without(s@, pat@),
        decreases s.len() - i,
    {
        let ghost rest = s@.skip(i as int);
        if pat.len() > 0 && stands_at(s, pat, i) {
            assert(rest.subrange(0, pat.len() as int) =~= s@.subrange(i as int, i + pat.len()));
            assert(rest.skip(pat.len() as int) =~= s@.skip(i + pat.len()));
            i += pat.len();
        } else {
            assert(rest.skip(1) =~= s@.skip(i + 1));
            assert(without(rest, pat@) == seq![rest[0]] + without(rest.skip(1), pat@)) by {
                if pat.len() > 0 && rest.len() >= pat.len() {
                    assert(rest.subrange(0, pat.len() as int) =~= s@.subrange(
                        i as int,
                        i + pat.len(),
                    ));
                }
            }
            out.push(s[i]);
            i += 1;
        }
    }
    out
}

/// The part of `s` from `start` on, up to its first `stop`; nothing where `s` ends
/// before `start`.
pub fn take_until(s: &Vec<char>, start: usize, stop: char) -> (out: Vec<char>)
    ensures
        start <= s.len() ==> out@ == until(s@.skip(start as int), stop),
        start > s.len() ==> out@ == Seq::<char>::empty(),
{
    let mut out: Vec<char> = Vec::new();
    if start > s.len() {
        return out;
    }
    let mut i: usize = start;
    while i < s.len() && s[i] != stop
        invariant
            start <= i <= s.len(),
            out@ + until(s@.skip(i as int), stop) == until(s@.skip(start as int), stop),
        decreases s.len() - i,
    {
        let ghost rest = s@.skip(i as int);
        assert(rest.skip(1) =~= s@.skip(i + 1));
        out.push(s[i]);
        i += 1;
    }
    out
}

} // verus!
