//! Small verified string helpers shared across the crate.

use vstd::prelude::*;
use vstd::string::StrSliceExecFns;
use vstd::string::StringExecFns;

verus! {

/// Relies on `String::push`: appends exactly one character at the end of the
/// string.
#[verifier::external_body]
pub(crate) fn push_char(s: &mut String, c: char)
    ensures
        final(s)@ == old(s)@.push(c),
{
    s.push(c);
}

/// Codepoint-wise string equality.
pub fn str_eq(a: &str, b: &str) -> (r: bool)
    ensures
        r == (a@ == b@),
{
    let la = a.unicode_len();
    let lb = b.unicode_len();
    if la != lb {
        return false;
    }
    let mut i: usize = 0;
    while i < la
        invariant
            la == a@.len(),
            lb == b@.len(),
            la == lb,
            i <= la,
            forall|j: int| 0 <= j < i ==> a@[j] == b@[j],
        decreases la - i,
    {
        if a.get_char(i) != b.get_char(i) {
            return false;
        }
        i = i + 1;
    }
    proof {
        assert(a@ =~= b@);
    }
    true
}

/// `n` copies of the character `fill`.
pub open spec fn repeat_char(fill: char, n: int) -> Seq<char> {
    Seq::new(n as nat, |i: int| fill)
}

/// `s` centered in a field of `width` characters, padded with `fill`; the
/// extra character of an odd amount of padding goes to the right.  A string
/// at least `width` long is returned unchanged.
pub open spec fn center_seq(s: Seq<char>, width: int, fill: char) -> Seq<char> {
    if s.len() >= width {
        s
    } else {
        let pad = width - s.len();
        repeat_char(fill, pad / 2) + s + repeat_char(fill, pad - pad / 2)
    }
}

/// Centers `s` in a field of `width` characters, padding with `fill`.
pub fn center(s: &str, width: usize, fill: char) -> (r: String)
    ensures
        r@ == center_seq(s@, width as int, fill),
{
    let len = s.unicode_len();
    if len >= width {
        return s.to_owned();
    }
    let pad = width - len;
    let left = pad / 2;
    let mut r = String::new();
    proof {
        assert(r@ =~= repeat_char(fill, 0));
    }
    let mut i: usize = 0;
    while i < left
        invariant
            i <= left,
            r@ == repeat_char(fill, i as int),
        decreases left - i,
    {
        push_char(&mut r, fill);
        proof {
            assert(r@ =~= repeat_char(fill, i + 1));
        }
        i = i + 1;
    }
    r.append(s);
    proof {
        assert(r@ =~= repeat_char(fill, left as int) + s@ + repeat_char(fill, 0));
    }
    let right = pad - left;
    let mut j: usize = 0;
    while j < right
        invariant
            j <= right,
            r@ == repeat_char(fill, left as int) + s@ + repeat_char(fill, j as int),
        decreases right - j,
    {
        push_char(&mut r, fill);
        proof {
            assert(r@ =~= repeat_char(fill, left as int) + s@ + repeat_char(fill, j + 1));
        }
        j = j + 1;
    }
    r
}

} // verus!
