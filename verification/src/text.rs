//! Small operations on text that the rest of the crate is built from.

use vstd::prelude::*;

verus! {

/// Trusted: `str`'s `==` from the standard library. Two string slices compare
/// equal exactly when they hold the same characters in the same order.
#[verifier::external_body]
pub(crate) fn same_text(a: &str, b: &str) -> (same: bool)
    ensures
        same == (a@ == b@),
{
    a == b
}

/// Trusted: `str::split_once` from the standard library, on the character
/// `=`. It yields nothing when the text holds no `=`; otherwise the text is
/// the first part, one `=`, and the second part, and the first part holds no
/// `=` (the split is at the first occurrence).
#[verifier::external_body]
pub(crate) fn split_at_equals(arg: &str) -> (parts: Option<(&str, &str)>)
    ensures
        parts is None <==> !arg@.contains('='),
        parts matches Some((key, value)) ==> {
            &&& arg@ == key@ + seq!['='] + value@
            &&& !key@.contains('=')
        },
{
    arg.split_once('=')
}

/// The position of the first `c` in `s`, or the length of `s` when it holds none.
pub open spec fn first_position(s: Seq<char>, c: char) -> int
    decreases s.len(),
{
    if s.len() == 0 || s[0] == c {
        0
    } else {
        1 + first_position(s.drop_first(), c)
    }
}

/// A text written as a part without `c`, then `c`, then the rest has its
/// first `c` right after that part.
pub proof fn lemma_first_position_of_split(head: Seq<char>, c: char, tail: Seq<char>)
    requires
        !head.contains(c),
    ensures
        first_position(head + seq![c] + tail, c) == head.len(),
    decreases head.len(),
{
    let whole = head + seq![c] + tail;
    if head.len() == 0 {
        assert(whole[0] == c);
    } else {
        assert(whole[0] == head[0]);
        assert(head.contains(head[0]));
        assert(head[0] != c);
        assert(whole.drop_first() =~= head.drop_first() + seq![c] + tail);
        let shorter = head.drop_first();
        assert forall|i: int| 0 <= i < shorter.len() implies #[trigger] shorter[i] != c by {
            assert(head[i + 1] == shorter[i]);
            assert(head.contains(head[i + 1]));
        }
        lemma_first_position_of_split(head.drop_first(), c, tail);
    }
}

/// The two texts one after the other.
pub fn join(a: &str, b: &str) -> (joined: String)
    ensures
        joined@ == a@ + b@,
{
    let mut joined = String::from_str(a);
    joined.append(b);
    joined
}

} // verus!
