//! The arguments with which a function of an extension hands its result to
//! SQLite: the length of the buffer and what SQLite does with it afterwards.
use vstd::prelude::*;
use vstd::string::StringSliceAdditionalSpecFns;
use crate::cstring::{CString, NulError, no_nul, is_first_nul};

verus! {

/// What SQLite does with a result buffer once it no longer needs it.
#[allow(non_camel_case_types)]
#[derive(Clone, Copy, Debug, PartialEq, Eq, Structural)]
pub enum Destructor {
    /// SQLite makes its own copy of the buffer before the call returns.
    TRANSIENT,
    /// The buffer stays valid for as long as SQLite may read it; no copy,
    /// no release.
    STATIC,
    /// SQLite calls the routine at this address to release the buffer.
    CUSTOM(usize),
}

/// The value SQLite's interface reserves for "copy the buffer at once".
pub const TRANSIENT_ARG: isize = -1;

impl Destructor {
    /// The destructor argument SQLite receives for this choice: a null
    /// pointer for `STATIC`, the reserved value -1 for `TRANSIENT`, and the
    /// routine's address for `CUSTOM`.
    pub open spec fn spec_xdel(self) -> Option<isize> {
        match self {
            Destructor::TRANSIENT => Some(TRANSIENT_ARG),
            Destructor::STATIC => None,
            Destructor::CUSTOM(addr) => Some(#[verifier::truncate] (addr as isize)),
        }
    }

    /// The destructor argument handed to SQLite for this choice.
    pub fn xdel(&self) -> (r: Option<isize>)
        ensures
            r == self.spec_xdel(),
            *self == Destructor::STATIC ==> r is None,
            *self == Destructor::TRANSIENT ==> r == Some(-1isize),
            *self matches Destructor::CUSTOM(addr) ==> (r matches Some(v) && v as usize == addr),
    {
        match self {
            Destructor::TRANSIENT => Some(TRANSIENT_ARG),
            Destructor::STATIC => None,
            Destructor::CUSTOM(addr) => {
                proof {
                    lemma_custom_xdel_is_the_address(*addr);
                }
                Some(#[verifier::truncate] (*addr as isize))
            },
        }
    }
}

/// SQLite receives the routine's whole address: read back as an address,
/// the argument handed for `CUSTOM(addr)` is `addr`, for every address.
pub proof fn lemma_custom_xdel_is_the_address(addr: usize)
    ensures
        Destructor::CUSTOM(addr).spec_xdel() matches Some(v) && v as usize == addr,
{
    let v = #[verifier::truncate] (addr as isize);
    assert(v as usize == addr) by (bit_vector)
        requires
            v == #[verifier::truncate] (addr as isize),
    ;
}

/// The three choices reach SQLite as three different arguments: a null
/// pointer, the reserved -1, and a routine's address.
pub proof fn lemma_xdel_choices(addr: usize)
    ensures
        Destructor::STATIC.spec_xdel() is None,
        Destructor::TRANSIENT.spec_xdel() == Some(-1isize),
        Destructor::CUSTOM(addr).spec_xdel() is Some,
{
}

/// The length and destructor that go with a result buffer.
#[derive(Clone, Copy, Debug, PartialEq, Eq, Structural)]
pub struct ResultArgs {
    pub len: i32,
    pub destructor: Destructor,
}

/// A byte count as the C interface takes it: an `int`, the count cut to
/// its low 32 bits.
pub fn length_arg(n: usize) -> (r: i32)
    ensures
        r == #[verifier::truncate] (n as i32),
{
    #[verifier::truncate]
    (n as i32)
}

/// A count that fits an `int` reaches SQLite unchanged.
pub proof fn lemma_length_arg_exact(n: usize)
    requires
        n <= i32::MAX,
    ensures
        n as i32 == n,
{
}

/// Text whose ownership passes to SQLite: SQLite does not copy it and
/// releases it with the routine at `release` when it is done.
pub fn result_text_owned(text: &str, release: usize) -> (r: ResultArgs)
    ensures
        r.len == #[verifier::truncate] (text.len() as i32),
        r.destructor == Destructor::CUSTOM(release),
{
    ResultArgs { len: length_arg(text.len()), destructor: Destructor::CUSTOM(release) }
}

/// Borrowed text: SQLite copies it and owns the copy.
pub fn result_text_shared(text: &str) -> (r: ResultArgs)
    ensures
        r.len == #[verifier::truncate] (text.len() as i32),
        r.destructor == Destructor::TRANSIENT,
{
    ResultArgs { len: length_arg(text.len()), destructor: Destructor::TRANSIENT }
}

/// Statically allocated text: SQLite neither copies nor releases it.
pub fn result_text_static(text: &str) -> (r: ResultArgs)
    ensures
        r.len == #[verifier::truncate] (text.len() as i32),
        r.destructor == Destructor::STATIC,
{
    ResultArgs { len: length_arg(text.len()), destructor: Destructor::STATIC }
}

/// A blob whose ownership passes to SQLite, released with the routine at
/// `release`.
pub fn result_blob_owned(blob: &[u8], release: usize) -> (r: ResultArgs)
    ensures
        r.len == #[verifier::truncate] (blob.len() as i32),
        r.destructor == Destructor::CUSTOM(release),
{
    ResultArgs { len: length_arg(blob.len()), destructor: Destructor::CUSTOM(release) }
}

/// A borrowed blob: SQLite copies it and owns the copy.
pub fn result_blob_shared(blob: &[u8]) -> (r: ResultArgs)
    ensures
        r.len == #[verifier::truncate] (blob.len() as i32),
        r.destructor == Destructor::TRANSIENT,
{
    ResultArgs { len: length_arg(blob.len()), destructor: Destructor::TRANSIENT }
}

/// A statically allocated blob: SQLite neither copies nor releases it.
pub fn result_blob_static(blob: &[u8]) -> (r: ResultArgs)
    ensures
        r.len == #[verifier::truncate] (blob.len() as i32),
        r.destructor == Destructor::STATIC,
{
    ResultArgs { len: length_arg(blob.len()), destructor: Destructor::STATIC }
}

/// A blob with the destructor of the caller's choice.
pub fn result_blob(blob: &[u8], d: Destructor) -> (r: ResultArgs)
    ensures
        r.len == #[verifier::truncate] (blob.len() as i32),
        r.destructor == d,
{
    ResultArgs { len: length_arg(blob.len()), destructor: d }
}

/// An error message made ready for SQLite: the NUL-terminated copy of the
/// text and its length in bytes.
#[derive(Debug)]
pub struct ErrorArgs {
    pub message: CString,
    pub len: i32,
}

/// The arguments for reporting `text` as the error of a function; fails
/// when `text` holds a NUL byte.
pub fn result_error(text: &str) -> (r: Result<ErrorArgs, NulError>)
    ensures
        r is Ok <==> no_nul(text.spec_bytes()),
        r matches Ok(a) ==> a.message@ == text.spec_bytes() && a.len == #[verifier::truncate] (
        text.len() as i32),
        r matches Err(e) ==> is_first_nul(text.spec_bytes(), e.position()) && e.bytes()
            == text.spec_bytes(),
{
    match CString::new(text.as_bytes()) {
        Ok(message) => Ok(ErrorArgs { message, len: length_arg(text.len()) }),
        Err(e) => Err(e),
    }
}

} // verus!
