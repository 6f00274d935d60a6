//! NUL-terminated strings as the SQLite C interface reads them.
use vstd::prelude::*;
use vstd::slice::{slice_subrange, slice_to_vec};
use vstd::string::StringSliceAdditionalSpecFns;

verus! {

/// No byte of `s` is NUL.
pub open spec fn no_nul(s: Seq<u8>) -> bool {
    forall|i: int| 0 <= i < s.len() ==> #[trigger] s[i] != 0u8
}

/// `pos` is the index of the first NUL byte of `s`.
pub open spec fn is_first_nul(s: Seq<u8>, pos: int) -> bool {
    &&& 0 <= pos < s.len()
    &&& s[pos] == 0u8
    &&& no_nul(s.take(pos))
}

/// What a C reader sees of `buf`: the bytes before its first NUL, or all of
/// them when there is none.
pub open spec fn c_str_prefix(buf: Seq<u8>) -> Seq<u8>
    decreases buf.len(),
{
    if buf.len() == 0 || buf[0] == 0u8 {
        Seq::empty()
    } else {
        seq![buf[0]] + c_str_prefix(buf.drop_first())
    }
}

/// A C reader stops at the terminating NUL of a string without interior
/// NUL bytes and sees exactly that string.
pub proof fn lemma_c_str_prefix_of_terminated(s: Seq<u8>)
    requires
        no_nul(s),
    ensures
        c_str_prefix(s.push(0u8)) == s,
    decreases s.len(),
{
    if s.len() > 0 {
        let rest = s.drop_first();
        assert(no_nul(rest)) by {
            assert forall|i: int| 0 <= i < rest.len() implies #[trigger] rest[i] != 0u8 by {
                assert(rest[i] == s[i + 1]);
            }
        }
        lemma_c_str_prefix_of_terminated(rest);
        assert(s.push(0u8).drop_first() =~= rest.push(0u8));
        assert(s.push(0u8)[0] == s[0]);
        assert(seq![s[0]] + rest =~= s);
    } else {
        assert(s.push(0u8)[0] == 0u8);
    }
}

/// The error of building a [`CString`] from bytes that hold a NUL byte.
#[derive(Debug)]
pub struct NulError {
    pos: usize,
    bytes: Vec<u8>,
}

impl NulError {
    /// The index of the first NUL byte.
    pub closed spec fn position(&self) -> int {
        self.pos as int
    }

    /// The bytes that were given.
    pub closed spec fn bytes(&self) -> Seq<u8> {
        self.bytes@
    }

    /// The index of the first NUL byte of the bytes that were given.
    pub fn nul_position(&self) -> (r: usize)
        ensures
            r == self.position(),
    {
        self.pos
    }

    /// Gives the bytes that were given back.
    pub fn into_vec(self) -> (r: Vec<u8>)
        ensures
            r@ == self.bytes(),
    {
        self.bytes
    }
}

/// An owned string with no interior NUL byte, kept with its terminating NUL
/// so that it can be handed to C as it is.
#[derive(Debug)]
pub struct CString {
    bytes: Vec<u8>,
}

impl View for CString {
    type V = Seq<u8>;

    /// The bytes of the string, without the terminating NUL.
    closed spec fn view(&self) -> Seq<u8> {
        self.bytes@.drop_last()
    }
}

impl CString {
    #[verifier::type_invariant]
    spec fn terminated(self) -> bool {
        &&& self.bytes@.len() >= 1
        &&& self.bytes@.last() == 0u8
        &&& no_nul(self.bytes@.drop_last())
    }

    /// Builds a string from `bytes`, which fails at the first NUL byte.
    pub fn new(bytes: &[u8]) -> (r: Result<CString, NulError>)
        ensures
            r is Ok <==> no_nul(bytes@),
            r matches Ok(c) ==> c@ == bytes@,
            r matches Err(e) ==> is_first_nul(bytes@, e.position()) && e.bytes() == bytes@,
    {
        let mut i: usize = 0;
        while i < bytes.len()
            invariant
                0 <= i <= bytes@.len(),
                forall|j: int| 0 <= j < i ==> #[trigger] bytes@[j] != 0u8,
            decreases bytes@.len() - i,
        {
            if bytes[i] == 0u8 {
                let err = NulError { pos: i, bytes: slice_to_vec(bytes) };
                assert(no_nul(bytes@.take(i as int))) by {
                    assert forall|j: int| 0 <= j < i implies #[trigger] bytes@.take(i as int)[j]
                        != 0u8 by {
                        assert(bytes@.take(i as int)[j] == bytes@[j]);
                    }
                }
                return Err(err);
            }
            i = i + 1;
        }
        let mut v = slice_to_vec(bytes);
        v.push(0u8);
        assert(v@.drop_last() =~= bytes@);
        Ok(CString { bytes: v })
    }

    /// The bytes of the string, without the terminating NUL.
    pub fn as_bytes(&self) -> (r: &[u8])
        ensures
            r@ == self@,
            no_nul(r@),
    {
        proof {
            use_type_invariant(self);
        }
        let n = self.bytes.len();
        let r = slice_subrange(self.bytes.as_slice(), 0, n - 1);
        assert(r@ =~= self@);
        r
    }

    /// The bytes of the string followed by the terminating NUL.
    pub fn as_bytes_with_nul(&self) -> (r: &[u8])
        ensures
            r@ == self@.push(0u8),
            no_nul(self@),
    {
        proof {
            use_type_invariant(self);
            assert(self.bytes@ =~= self@.push(0u8));
        }
        self.bytes.as_slice()
    }

    /// Gives the bytes of the string back, without the terminating NUL.
    pub fn into_bytes(self) -> (r: Vec<u8>)
        ensures
            r@ == self@,
    {
        proof {
            use_type_invariant(&self);
        }
        let mut v = self.bytes;
        v.pop();
        v
    }
}

/// Builds the NUL-terminated copy of `s` that SQLite can read; fails when
/// `s` holds a NUL byte, since C would stop reading there.
pub fn strdyn(s: &str) -> (r: Result<CString, NulError>)
    ensures
        r is Ok <==> no_nul(s.spec_bytes()),
        r matches Ok(c) ==> c@ == s.spec_bytes(),
        r matches Err(e) ==> is_first_nul(s.spec_bytes(), e.position()) && e.bytes()
            == s.spec_bytes(),
{
    CString::new(s.as_bytes())
}

} // verus!
