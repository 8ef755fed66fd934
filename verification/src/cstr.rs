//! A bounded view of a NUL-terminated byte string.

use vstd::prelude::*;
use vstd::slice::slice_index_get;
use vstd::slice::slice_subrange;
use vstd::string::StringSliceAdditionalSpecFns;
use vstd::utf8::valid_utf8;

verus! {

/// Whether `s` contains a NUL byte anywhere.
pub open spec fn has_nul(s: Seq<u8>) -> bool {
    exists|i: int| 0 <= i < s.len() && s[i] == 0
}

/// Index of the first NUL byte of `s`, or `s.len()` if there is none.
pub open spec fn first_nul(s: Seq<u8>) -> int
    decreases s.len(),
{
    if s.len() == 0 {
        0
    } else if s[0] == 0 {
        0
    } else {
        1 + first_nul(s.skip(1))
    }
}

/// `first_nul` points at the first NUL byte: everything before it is
/// non-NUL, and it lies inside `s` exactly when `s` has a NUL at all.
pub proof fn lemma_first_nul(s: Seq<u8>)
    ensures
        0 <= first_nul(s) <= s.len(),
        has_nul(s) <==> first_nul(s) < s.len(),
        first_nul(s) < s.len() ==> s[first_nul(s)] == 0,
        forall|j: int| 0 <= j < first_nul(s) ==> s[j] != 0,
    decreases s.len(),
{
    if s.len() == 0 {
    } else if s[0] == 0 {
    } else {
        let t = s.skip(1);
        lemma_first_nul(t);
        assert(forall|j: int| 0 <= j < t.len() ==> t[j] == s[j + 1]);
        if has_nul(s) {
            let i = choose|i: int| 0 <= i < s.len() && s[i] == 0;
            assert(t[i - 1] == 0);
        }
        if has_nul(t) {
            let i = choose|i: int| 0 <= i < t.len() && t[i] == 0;
            assert(s[i + 1] == 0);
        }
        assert forall|j: int| 0 <= j < first_nul(s) implies s[j] != 0 by {
            if j > 0 {
                assert(t[j - 1] != 0);
            }
        }
    }
}

/// A borrowed view of the bytes of a NUL-terminated string, excluding the
/// terminator and everything after it.
pub struct CStr<'a>(&'a [u8]);

impl<'a> View for CStr<'a> {
    type V = Seq<u8>;

    closed spec fn view(&self) -> Seq<u8> {
        self.0@
    }
}

impl<'a> CStr<'a> {
    /// Locates the first NUL byte of `data` and wraps the bytes before it;
    /// fails when `data` holds no NUL byte at all.
    pub fn new(data: &'a [u8]) -> (r: Option<Self>)
        ensures
            r is Some <==> has_nul(data@),
            r is Some ==> r.unwrap()@ == data@.take(first_nul(data@)),
    {
        let mut i: usize = 0;
        while i < data.len()
            invariant
                i <= data@.len(),
                forall|j: int| 0 <= j < i ==> data@[j] != 0,
            decreases data@.len() - i,
        {
            if *slice_index_get(data, i) == 0 {
                proof {
                    lemma_first_nul(data@);
                    assert(has_nul(data@));
                    assert(first_nul(data@) == i) by {
                        if first_nul(data@) < i {
                            assert(data@[first_nul(data@)] != 0);
                        }
                    }
                }
                return Some(CStr(slice_subrange(data, 0, i)));
            }
            i += 1;
        }
        proof {
            assert(!has_nul(data@)) by {
                if has_nul(data@) {
                    let k = choose|k: int| 0 <= k < data@.len() && data@[k] == 0;
                    assert(data@[k] != 0);
                }
            }
        }
        None
    }

    /// Count of bytes in the view; the NUL terminator is not included.
    pub fn len(&self) -> (n: usize)
        ensures
            n == self@.len(),
    {
        self.0.len()
    }

    /// The view's bytes reinterpreted as text; fails when they are not
    /// valid UTF-8. Never mutates or consumes the view.
    pub fn as_str(&self) -> (r: Option<&'a str>)
        ensures
            r is Some <==> valid_utf8(self@),
            r is Some ==> r.unwrap().spec_bytes() == self@,
    {
        str_from_utf8(self.0)
    }
}

/// Relies on core::str::from_utf8: it succeeds exactly on UTF-8-valid input
/// and returns a string slice over the same bytes.
#[verifier::external_body]
fn str_from_utf8(bytes: &[u8]) -> (r: Option<&str>)
    ensures
        r is Some <==> valid_utf8(bytes@),
        r is Some ==> r.unwrap().spec_bytes() == bytes@,
{
    core::str::from_utf8(bytes).ok()
}

} // verus!
