//! Text helpers for transcripts: characters of a string, substring search,
//! and the barge-in keyword test.

use vstd::prelude::*;
use vstd::std_specs::iter::IteratorSpec;
use vstd::string::*;

verus! {

broadcast use {axiom_spec_iter, next_postcondition};

/// The characters of `s`, in order.
pub fn chars_of(s: &str) -> (r: Vec<char>)
    ensures
        r@ == s@,
{
    let mut it = s.chars();
    let mut out: Vec<char> = Vec::new();
    loop
        invariant
            out@ + it.remaining() == s@,
            it.decrease() is Some,
        ensures
            out@ == s@,
        decreases it.decrease()->0,
    {
        match it.next() {
            Some(c) => {
                out.push(c);
            },
            None => {
                assert(out@ =~= s@);
                break;
            },
        }
    }
    out
}

/// `k` stands in `t` starting at position `i`.
pub open spec fn occurs_at(t: Seq<char>, k: Seq<char>, i: int) -> bool {
    0 <= i && i + k.len() <= t.len() && t.subrange(i, i + k.len()) == k
}

/// `k` stands somewhere in `t`.
pub open spec fn occurs(t: Seq<char>, k: Seq<char>) -> bool {
    exists|i: int| occurs_at(t, k, i)
}

pub fn occurs_at_exec(t: &Vec<char>, k: &Vec<char>, i: usize) -> (r: bool)
    ensures
        r == occurs_at(t@, k@, i as int),
{
    if k.len() > t.len() || i > t.len() - k.len() {
        return false;
    }
    let mut j: usize = 0;
    while j < k.len()
        invariant
            j <= k@.len(),
            i + k@.len() <= t@.len(),
            forall|m: int| 0 <= m < j ==> t@[i + m] == k@[m],
        decreases k@.len() - j,
    {
        assert(i + j < t.len());
        if t[i + j] != k[j] {
            assert(t@.subrange(i as int, i + k@.len())[j as int] != k@[j as int]);
            return false;
        }
        j = j + 1;
    }
    assert(t@.subrange(i as int, i + k@.len()) =~= k@);
    true
}

/// Substring search.
pub fn contains_chars(t: &Vec<char>, k: &Vec<char>) -> (r: bool)
    ensures
        r == occurs(t@, k@),
{
    if k.len() > t.len() {
        return false;
    }
    let last = t.len() - k.len();
    let mut i: usize = 0;
    loop
        invariant
            i <= last,
            last == t@.len() - k@.len(),
            forall|j: int| 0 <= j < i ==> !occurs_at(t@, k@, j),
        decreases last - i,
    {
        if occurs_at_exec(t, k, i) {
            return true;
        }
        if i == last {
            assert forall|j: int| !occurs_at(t@, k@, j) by {
                if 0 <= j < i {
                } else if j == i {
                }
            }
            return false;
        }
        i = i + 1;
    }
}

pub open spec fn kw_stop() -> Seq<char> {
    seq!['s', 't', 'o', 'p']
}

pub open spec fn kw_space_stop() -> Seq<char> {
    seq![' ', 's', 't', 'o', 'p']
}

pub open spec fn kw_space_wait() -> Seq<char> {
    seq![' ', 'w', 'a', 'i', 't']
}

pub open spec fn kw_space_hold_on() -> Seq<char> {
    seq![' ', 'h', 'o', 'l', 'd', ' ', 'o', 'n']
}

pub open spec fn kw_space_hey() -> Seq<char> {
    seq![' ', 'h', 'e', 'y']
}

/// Whether lower-cased partial transcript `t` asks the assistant to stop:
/// it begins with "stop", or holds " stop", " wait", " hold on" or " hey".
pub open spec fn is_barge_in(t: Seq<char>) -> bool {
    occurs_at(t, kw_stop(), 0)
        || occurs(t, kw_space_stop())
        || occurs(t, kw_space_wait())
        || occurs(t, kw_space_hold_on())
        || occurs(t, kw_space_hey())
}

/// The barge-in keyword test on an already lower-cased transcript.
pub fn barge_in_phrase(lowered: &Vec<char>) -> (r: bool)
    ensures
        r == is_barge_in(lowered@),
{
    let stop: Vec<char> = vec!['s', 't', 'o', 'p'];
    let space_stop: Vec<char> = vec![' ', 's', 't', 'o', 'p'];
    let space_wait: Vec<char> = vec![' ', 'w', 'a', 'i', 't'];
    let space_hold_on: Vec<char> = vec![' ', 'h', 'o', 'l', 'd', ' ', 'o', 'n'];
    let space_hey: Vec<char> = vec![' ', 'h', 'e', 'y'];
    assert(stop@ =~= kw_stop());
    assert(space_stop@ =~= kw_space_stop());
    assert(space_wait@ =~= kw_space_wait());
    assert(space_hold_on@ =~= kw_space_hold_on());
    assert(space_hey@ =~= kw_space_hey());
    occurs_at_exec(lowered, &stop, 0)
        || contains_chars(lowered, &space_stop)
        || contains_chars(lowered, &space_wait)
        || contains_chars(lowered, &space_hold_on)
        || contains_chars(lowered, &space_hey)
}

/// Lower-case form of a text, as std's `str::to_lowercase` gives it.
pub uninterp spec fn lower_of(s: Seq<char>) -> Seq<char>;

/// Relies on std's `str::to_lowercase`: the lower-case form depends on the
/// text alone. Collecting the characters only changes the container.
#[verifier::external_body]
fn lowercase_chars(s: &str) -> (r: Vec<char>)
    ensures
        r@ == lower_of(s@),
{
    s.to_lowercase().chars().collect()
}

/// Keyword test on a raw transcript: lower-cases it, then looks for a
/// barge-in phrase.
pub fn asks_to_stop(s: &str) -> (r: bool)
    ensures
        r == is_barge_in(lower_of(s@)),
{
    let lowered = lowercase_chars(s);
    barge_in_phrase(&lowered)
}

/// `s` ends in `.`, `!` or `?`.
pub open spec fn ends_terminal(s: Seq<char>) -> bool {
    s.len() > 0 && (s.last() == '.' || s.last() == '!' || s.last() == '?')
}

pub fn ends_with_terminal(s: &str) -> (r: bool)
    ensures
        r == ends_terminal(s@),
{
    let cs = chars_of(s);
    let n = cs.len();
    if n == 0 {
        return false;
    }
    let c = cs[n - 1];
    c == '.' || c == '!' || c == '?'
}

} // verus!
