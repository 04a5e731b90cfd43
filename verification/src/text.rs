//! Operations on string slices, each pinned to the sequence of characters that
//! the slice holds.

use vstd::prelude::*;
use vstd::string::*;

verus! {

/// `part` occurs somewhere in `whole`.
pub open spec fn occurs_in(part: Seq<char>, whole: Seq<char>) -> bool {
    exists|i: int|
        0 <= i <= whole.len() - part.len() && #[trigger] whole.subrange(i, i + part.len()) == part
}

/// Whether both slices hold the same characters.
pub fn same(a: &str, b: &str) -> (equal: bool)
    ensures
        equal == (a@ == b@),
{
    a.to_owned() == b.to_owned()
}

/// Whether `whole` begins with `part`.
pub fn starts_with(whole: &str, part: &str) -> (found: bool)
    ensures
        found == part@.is_prefix_of(whole@),
{
    let n: usize = whole.unicode_len();
    let m: usize = part.unicode_len();
    if m > n {
        return false;
    }
    same(whole.substring_char(0, m), part)
}

/// Whether `whole` ends with `part`.
pub fn ends_with(whole: &str, part: &str) -> (found: bool)
    ensures
        found == part@.is_suffix_of(whole@),
{
    let n: usize = whole.unicode_len();
    let m: usize = part.unicode_len();
    if m > n {
        return false;
    }
    same(whole.substring_char(n - m, n), part)
}

/// Whether `part` occurs somewhere in `whole`.
pub fn contains(whole: &str, part: &str) -> (found: bool)
    ensures
        found == occurs_in(part@, whole@),
{
    let n: usize = whole.unicode_len();
    let m: usize = part.unicode_len();
    if m > n {
        return false;
    }
    let last: usize = n - m;
    let mut i: usize = 0;
    loop
        invariant
            n == whole@.len(),
            m == part@.len(),
            last == n - m,
            i <= last,
            m <= n,
            forall|j: int| 0 <= j < i ==> #[trigger] whole@.subrange(j, j + m) != part@,
        decreases last - i,
    {
        if same(whole.substring_char(i, i + m), part) {
            assert(whole@.subrange(i as int, i + part@.len()) == part@);
            return true;
        }
        if i == last {
            return false;
        }
        i = i + 1;
    }
}

/// The two slices, one after the other.
pub fn join(head: &str, tail: &str) -> (text: String)
    ensures
        text@ == head@ + tail@,
{
    head.to_owned().concat(tail)
}

/// The three slices, one after the other.
pub fn join3(head: &str, middle: &str, tail: &str) -> (text: String)
    ensures
        text@ == head@ + middle@ + tail@,
{
    head.to_owned().concat(middle).concat(tail)
}

/// A text occurs in another exactly when that is something, the text, and something.
pub proof fn occurrences_split(part: Seq<char>, whole: Seq<char>, head: Seq<char>, tail: Seq<char>)
    ensures
        whole == head + part + tail ==> occurs_in(part, whole),
        occurs_in(part, whole) ==> exists|i: int|
            0 <= i <= whole.len() - part.len() && whole == #[trigger] whole.take(i) + part
                + whole.skip(i + part.len()),
{
    if whole == head + part + tail {
        let i = head.len() as int;
        assert(whole.subrange(i, i + part.len()) =~= part);
    }
    if occurs_in(part, whole) {
        let i = choose|i: int|
            0 <= i <= whole.len() - part.len() && #[trigger] whole.subrange(i, i + part.len())
                == part;
        assert(whole =~= whole.take(i) + whole.subrange(i, i + part.len()) + whole.skip(
            i + part.len(),
        ));
    }
}

} // verus!
