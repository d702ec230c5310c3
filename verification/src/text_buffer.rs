//! Codepoint-addressed editable text buffer.
//!
//! The prompt line is held as a sequence of Unicode scalar values, so every
//! edit counts a multi-byte character as one unit.  Insertion and removal
//! take codepoint indices that the caller has validated against `len`; the
//! cursor itself is kept by the event multiplexer.

use crate::strutil::push_char;
use vstd::prelude::*;

verus! {

/// Whether `c` has the Unicode `White_Space` property, the set that
/// `char::is_whitespace` recognizes.
pub open spec fn is_ws(c: char) -> bool {
    let u = c as u32;
    ||| u == 0x20
    ||| (0x09 <= u && u <= 0x0D)
    ||| u == 0x85
    ||| u == 0xA0
    ||| u == 0x1680
    ||| (0x2000 <= u && u <= 0x200A)
    ||| u == 0x2028
    ||| u == 0x2029
    ||| u == 0x202F
    ||| u == 0x205F
    ||| u == 0x3000
}

/// Executable form of [`is_ws`].
pub fn ws_char(c: char) -> (r: bool)
    ensures
        r == is_ws(c),
{
    let u = c as u32;
    u == 0x20 || (0x09 <= u && u <= 0x0D) || u == 0x85 || u == 0xA0 || u == 0x1680 || (0x2000 <= u
        && u <= 0x200A) || u == 0x2028 || u == 0x2029 || u == 0x202F || u == 0x205F || u == 0x3000
}

/// `s` with its leading whitespace removed.
pub open spec fn trim_front(s: Seq<char>) -> Seq<char>
    decreases s.len(),
{
    if s.len() > 0 && is_ws(s[0]) {
        trim_front(s.drop_first())
    } else {
        s
    }
}

/// `s` with its trailing whitespace removed.
pub open spec fn trim_back(s: Seq<char>) -> Seq<char>
    decreases s.len(),
{
    if s.len() > 0 && is_ws(s.last()) {
        trim_back(s.drop_last())
    } else {
        s
    }
}

/// `s` with leading and trailing whitespace removed.
pub open spec fn trimmed(s: Seq<char>) -> Seq<char> {
    trim_back(trim_front(s))
}

/// Start of the maximal run of non-whitespace characters that ends at `i`.
pub open spec fn skip_nonws_back(s: Seq<char>, i: int) -> int
    decreases i,
{
    if 0 < i <= s.len() && !is_ws(s[i - 1]) {
        skip_nonws_back(s, i - 1)
    } else {
        i
    }
}

/// Start of the maximal run of whitespace characters that ends at `i`.
pub open spec fn skip_ws_back(s: Seq<char>, i: int) -> int
    decreases i,
{
    if 0 < i <= s.len() && is_ws(s[i - 1]) {
        skip_ws_back(s, i - 1)
    } else {
        i
    }
}

/// Start of the region that a delete-previous-word command removes: the run
/// of non-whitespace ending at `from`, plus the whitespace immediately
/// before that run.
pub open spec fn word_start(s: Seq<char>, from: int) -> int {
    skip_ws_back(s, skip_nonws_back(s, from))
}

/// Content fingerprint: the sum of the codepoints, wrapping at 32 bits.  It
/// only has to detect that the buffer changed between two debounce checks.
pub open spec fn content_hash(s: Seq<char>) -> u32
    decreases s.len(),
{
    if s.len() == 0 {
        0u32
    } else {
        vstd::wrapping::u32_specs::wrapping_add(content_hash(s.drop_last()), s.last() as u32)
    }
}

/// Editable string addressed by codepoint index.
pub struct UTF32String {
    inner: Vec<char>,
}

impl View for UTF32String {
    type V = Seq<char>;

    closed spec fn view(&self) -> Seq<char> {
        self.inner@
    }
}

impl UTF32String {
    pub fn new() -> (r: Self)
        ensures
            r@ == Seq::<char>::empty(),
    {
        UTF32String { inner: Vec::new() }
    }

    pub fn len(&self) -> (n: usize)
        ensures
            n == self@.len(),
    {
        self.inner.len()
    }

    /// Inserts `element` at codepoint index `index`.
    pub fn insert(&mut self, index: usize, element: char)
        requires
            index <= old(self)@.len(),
        ensures
            final(self)@ == old(self)@.insert(index as int, element),
    {
        self.inner.insert(index, element);
    }

    /// Removes the codepoint at index `i`.
    pub fn remove(&mut self, i: usize)
        requires
            i < old(self)@.len(),
        ensures
            final(self)@ == old(self)@.remove(i as int),
    {
        self.inner.remove(i);
    }

    /// The buffer with leading and trailing whitespace excluded, for
    /// emptiness checks; the buffer itself is not changed.
    pub fn trim(&self) -> (r: Vec<char>)
        ensures
            r@ == trimmed(self@),
    {
        let ghost s = self@;
        let n = self.inner.len();
        proof {
            assert(s.subrange(0, n as int) =~= s);
        }
        let mut a: usize = 0;
        while a < n && ws_char(self.inner[a])
            invariant
                s == self@,
                n == s.len(),
                a <= n,
                trim_front(s) == trim_front(s.subrange(a as int, n as int)),
            decreases n - a,
        {
            proof {
                let t = s.subrange(a as int, n as int);
                assert(t.len() > 0);
                assert(t[0] == s[a as int]);
                assert(t.drop_first() =~= s.subrange(a + 1, n as int));
                assert(trim_front(t) == trim_front(t.drop_first()));
            }
            a = a + 1;
        }
        proof {
            assert(trim_front(s) =~= s.subrange(a as int, n as int));
        }
        let ghost t = s.subrange(a as int, n as int);
        let mut b: usize = n;
        while b > a && ws_char(self.inner[b - 1])
            invariant
                s == self@,
                n == s.len(),
                a <= b <= n,
                t == s.subrange(a as int, n as int),
                trim_back(t) == trim_back(s.subrange(a as int, b as int)),
            decreases b,
        {
            proof {
                let u = s.subrange(a as int, b as int);
                assert(u.len() > 0);
                assert(u.last() == s[b - 1]);
                assert(u.drop_last() =~= s.subrange(a as int, b - 1));
                assert(trim_back(u) == trim_back(u.drop_last()));
            }
            b = b - 1;
        }
        proof {
            assert(trim_back(t) =~= s.subrange(a as int, b as int));
        }
        let mut r: Vec<char> = Vec::new();
        proof {
            assert(r@ =~= s.subrange(a as int, a as int));
        }
        let mut i: usize = a;
        while i < b
            invariant
                a <= i <= b <= n,
                n == s.len(),
                s == self@,
                r@ == s.subrange(a as int, i as int),
            decreases b - i,
        {
            r.push(self.inner[i]);
            proof {
                assert(r@ =~= s.subrange(a as int, i + 1));
            }
            i = i + 1;
        }
        r
    }

    /// The buffer contents as a `String`, codepoint for codepoint.
    pub fn to_string_clone(&self) -> (r: String)
        ensures
            r@ == self@,
    {
        let mut r = String::new();
        proof {
            assert(r@ =~= self@.subrange(0, 0));
        }
        let n = self.inner.len();
        let mut i: usize = 0;
        while i < n
            invariant
                n == self@.len(),
                i <= n,
                r@ == self@.subrange(0, i as int),
            decreases n - i,
        {
            push_char(&mut r, self.inner[i]);
            proof {
                assert(r@ =~= self@.subrange(0, i + 1));
            }
            i = i + 1;
        }
        proof {
            assert(r@ =~= self@);
        }
        r
    }

    /// The display string of the buffer: exactly the codepoint sequence.
    pub fn render(&self) -> (r: String)
        ensures
            r@ == self@,
    {
        self.to_string_clone()
    }

    /// Content fingerprint of the current buffer, see [`content_hash`].
    pub fn fingerprint(&self) -> (h: u32)
        ensures
            h == content_hash(self@),
    {
        let mut h: u32 = 0;
        proof {
            assert(self@.take(0) =~= Seq::<char>::empty());
        }
        let n = self.inner.len();
        let mut i: usize = 0;
        while i < n
            invariant
                n == self@.len(),
                i <= n,
                h == content_hash(self@.take(i as int)),
            decreases n - i,
        {
            let c = self.inner[i];
            h = h.wrapping_add(c as u32);
            proof {
                let t = self@.take(i + 1);
                assert(t.drop_last() =~= self@.take(i as int));
                assert(t.last() == self@[i as int]);
            }
            i = i + 1;
        }
        proof {
            assert(self@.take(n as int) =~= self@);
        }
        h
    }

    /// Removes the run of non-whitespace ending at `from` together with the
    /// whitespace immediately before it, and returns the new cursor
    /// position: the start of the removed region.
    pub fn delete_word_back(&mut self, from: usize) -> (r: usize)
        requires
            from <= old(self)@.len(),
        ensures
            r == word_start(old(self)@, from as int),
            r <= from,
            final(self)@ == old(self)@.subrange(0, r as int) + old(self)@.subrange(
                from as int,
                old(self)@.len() as int,
            ),
    {
        let ghost s = self@;
        let n = self.inner.len();
        let mut i: usize = from;
        while i > 0 && !ws_char(self.inner[i - 1])
            invariant
                n == s.len(),
                i <= from <= n,
                s == self@,
                skip_nonws_back(s, from as int) == skip_nonws_back(s, i as int),
            decreases i,
        {
            i = i - 1;
        }
        while i > 0 && ws_char(self.inner[i - 1])
            invariant
                n == s.len(),
                i <= from <= n,
                s == self@,
                skip_ws_back(s, skip_nonws_back(s, from as int)) == skip_ws_back(s, i as int),
            decreases i,
        {
            i = i - 1;
        }
        let mut out: Vec<char> = Vec::new();
        proof {
            assert(out@ =~= s.subrange(0, 0));
        }
        let mut j: usize = 0;
        while j < i
            invariant
                i <= from <= n,
                n == s.len(),
                s == self@,
                j <= i,
                out@ == s.subrange(0, j as int),
            decreases i - j,
        {
            out.push(self.inner[j]);
            proof {
                assert(out@ =~= s.subrange(0, j + 1));
            }
            j = j + 1;
        }
        proof {
            assert(out@ =~= s.subrange(0, i as int) + s.subrange(from as int, from as int));
        }
        let mut k: usize = from;
        while k < n
            invariant
                i <= from <= k <= n,
                n == s.len(),
                s == self@,
                out@ == s.subrange(0, i as int) + s.subrange(from as int, k as int),
            decreases n - k,
        {
            out.push(self.inner[k]);
            proof {
                assert(out@ =~= s.subrange(0, i as int) + s.subrange(from as int, k + 1));
            }
            k = k + 1;
        }
        self.inner = out;
        i
    }
}

} // verus!
