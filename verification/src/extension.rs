//! The requests a loadable extension makes of SQLite: memory from its
//! allocator, the flags of a function it registers, and its own start-up.
use vstd::prelude::*;

verus! {

/// `SQLITE_OK`: the code of success.
pub const OK: u32 = 0;

/// `SQLITE_UTF8`: text encoded as UTF-8.
pub const UTF8: u32 = 1;

/// `SQLITE_INNOCUOUS`: a function that is safe to call from anywhere.
pub const INNOCUOUS: u32 = 0x200000;

/// Which allocation routine of SQLite serves a request, and with what
/// argument.
#[derive(Clone, Copy, Debug, PartialEq, Eq, Structural)]
pub enum AllocRequest {
    /// `sqlite3_malloc64`, which takes a 64-bit unsigned size.
    Malloc64(u64),
    /// `sqlite3_malloc`, which takes an `int`.
    Malloc(i32),
}

/// The routine and argument for allocating `size` bytes: `sqlite3_malloc64`
/// on a 64-bit target, `sqlite3_malloc` with the size cut to an `int`
/// otherwise.
pub fn malloc_request(size: usize) -> (r: AllocRequest)
    ensures
        usize::BITS == 64 ==> r == AllocRequest::Malloc64(size as u64),
        usize::BITS != 64 ==> r == AllocRequest::Malloc(#[verifier::truncate] (size as i32)),
{
    if usize::BITS == 64 {
        AllocRequest::Malloc64(size as u64)
    } else {
        AllocRequest::Malloc(
            #[verifier::truncate]
            (size as i32),
        )
    }
}

/// The flags of a function being registered, as the `int` that
/// `sqlite3_create_function_v2` takes. Flags beyond the range of an `int`
/// are invalid.
pub fn create_function_flags(flags: u32) -> (r: i32)
    requires
        flags <= i32::MAX,
    ensures
        r == flags,
{
    flags as i32
}

/// Registers the functions of this extension; it has none yet.
pub fn register_extension() {
}

} // verus!
