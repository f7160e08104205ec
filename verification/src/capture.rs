//! What a piece of code returned together with the log output it produced,
//! and the search of that output.
use vstd::prelude::*;
use vstd::string::StringSliceAdditionalSpecFns;

use crate::text::bytes_equal;

verus! {

/// `needle` occurs in `haystack` as a contiguous run of bytes.
pub open spec fn occurs_in(needle: Seq<u8>, haystack: Seq<u8>) -> bool {
    exists|i: int|
        0 <= i && i + needle.len() <= haystack.len() && #[trigger] haystack.subrange(
            i,
            i + needle.len(),
        ) == needle
}

/// Calls `memchr::memchr`: the index of the first occurrence of `needle` in
/// `haystack`, or `None` where the byte does not occur. The contract is the
/// crate's documented behaviour.
#[verifier::external_body]
fn first_index_of(needle: u8, haystack: &[u8]) -> (r: Option<usize>)
    ensures
        match r {
            Some(i) => i < haystack@.len() && haystack@[i as int] == needle && forall|k: int|
                0 <= k < i ==> haystack@[k] != needle,
            None => forall|k: int| 0 <= k < haystack@.len() ==> haystack@[k] != needle,
        },
{
    memchr::memchr(needle, haystack)
}

/// A value returned by some code, with the log output captured while it ran.
pub struct CapturedTracing<T> {
    result: T,
    buf: Vec<u8>,
}

impl<T> CapturedTracing<T> {
    /// The value that the code returned.
    pub closed spec fn spec_result(&self) -> T {
        self.result
    }

    /// The captured output.
    pub closed spec fn spec_output(&self) -> Seq<u8> {
        self.buf@
    }

    /// Pairs a value with the output captured while it was computed.
    pub fn new(result: T, output: Vec<u8>) -> (captured: Self)
        ensures
            captured.spec_result() == result,
            captured.spec_output() == output@,
    {
        CapturedTracing { result, buf: output }
    }

    /// The value that the code returned.
    pub fn into_result(self) -> (result: T)
        ensures
            result == self.spec_result(),
    {
        self.result
    }

    /// The value that the code returned.
    pub fn result(&self) -> (result: &T)
        ensures
            *result == self.spec_result(),
    {
        &self.result
    }

    /// The value that the code returned, to change it.
    pub fn result_mut(&mut self) -> (result: &mut T)
        ensures
            *result == old(self).spec_result(),
            final(self).spec_result() == *final(result),
            final(self).spec_output() == old(self).spec_output(),
    {
        &mut self.result
    }

    /// The captured output.
    pub fn output(&self) -> (output: &[u8])
        ensures
            output@ == self.spec_output(),
    {
        self.buf.as_slice()
    }

    /// Whether the captured output contains the text `s` (never for an
    /// empty `s`).
    pub fn logged(&self, s: &str) -> (found: bool)
        ensures
            found == (s.spec_bytes().len() > 0 && occurs_in(s.spec_bytes(), self.spec_output())),
    {
        let text = s.as_bytes();
        if text.len() == 0 {
            return false;
        }
        let needle = text[0];
        let rest = &text[1..text.len()];
        let buf = self.buf.as_slice();
        let len = buf.len();
        let ghost t = text@;
        let mut start: usize = 0;
        while start < len
            invariant
                start <= len,
                len == buf@.len(),
                buf@ == self.spec_output(),
                t == s.spec_bytes(),
                t.len() > 0,
                t[0] == needle,
                rest@ == t.subrange(1, t.len() as int),
                forall|i: int|
                    0 <= i < start && i + t.len() <= len ==> #[trigger] buf@.subrange(
                        i,
                        i + t.len(),
                    ) != t,
            decreases len - start,
        {
            let haystack = &buf[start..len];
            match first_index_of(needle, haystack) {
                None => {
                    assert forall|i: int|
                        0 <= i && i + t.len() <= len implies #[trigger] buf@.subrange(
                            i,
                            i + t.len(),
                        ) != t by {
                        if i >= start {
                            assert(buf@.subrange(i, i + t.len())[0] == haystack@[i - start]);
                        }
                    }
                    assert(!occurs_in(t, buf@));
                    return false;
                },
                Some(p) => {
                    let pos = start + p;
                    assert forall|i: int|
                        0 <= i < pos && i + t.len() <= len implies #[trigger] buf@.subrange(
                            i,
                            i + t.len(),
                        ) != t by {
                        if i >= start {
                            assert(buf@.subrange(i, i + t.len())[0] == haystack@[i - start]);
                        }
                    }
                    if rest.len() > len - (pos + 1) {
                        assert forall|i: int|
                            0 <= i && i + t.len() <= len implies #[trigger] buf@.subrange(
                                i,
                                i + t.len(),
                            ) != t by {}
                        assert(!occurs_in(t, buf@));
                        return false;
                    }
                    let candidate = &buf[pos + 1..pos + 1 + rest.len()];
                    assert(buf@[pos as int] == needle) by {
                        assert(haystack@[p as int] == buf@[pos as int]);
                    }
                    if bytes_equal(candidate, rest) {
                        assert forall|k: int| 0 <= k < t.len() implies #[trigger] buf@.subrange(
                            pos as int,
                            pos + t.len(),
                        )[k] == t[k] by {
                            if k > 0 {
                                assert(candidate@[k - 1] == rest@[k - 1]);
                            }
                        }
                        assert(buf@.subrange(pos as int, pos + t.len()) =~= t);
                        return true;
                    }
                    assert(buf@.subrange(pos as int, pos + t.len()) != t) by {
                        if buf@.subrange(pos as int, pos + t.len()) == t {
                            assert(candidate@ =~= rest@);
                        }
                    }
                    start = pos + 1;
                },
            }
        }
        false
    }
}

} // verus!
