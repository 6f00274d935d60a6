//! What a prepared statement reports back: the code a step returns, the
//! datatype of a column, and the null pointers SQLite may hand back.
use vstd::prelude::*;
use crate::column_type::ColumnType;
use crate::result_code::ResultCode;

verus! {

/// The result code of a step, from the integer `sqlite3_step` returned.
/// Only integers that name a result code are accepted: for any other, a
/// caller has no code to report and must fail.
pub fn step(code: i32) -> (r: ResultCode)
    requires
        ResultCode::is_code(code as int),
    ensures
        r.spec_code() == code,
        ResultCode::spec_from_code(code as int) == Some(r),
{
    proof {
        ResultCode::lemma_code_of_from_code(code as int);
    }
    ResultCode::from_i32(code).unwrap()
}

/// The datatype of a column, from the integer `sqlite3_column_type`
/// returned; an integer that names no datatype gives `NULL`.
pub fn column_type(code: i32) -> (r: Result<ColumnType, ResultCode>)
    ensures
        r == match ColumnType::spec_from_code(code as int) {
            Some(t) => Ok(t),
            None => Err(ResultCode::NULL),
        },
        r is Ok <==> 1 <= code <= 5,
        r matches Ok(t) ==> t.spec_code() == code,
{
    match ColumnType::from_i32(code) {
        Some(t) => Ok(t),
        None => Err(ResultCode::NULL),
    }
}

/// A value read through a pointer that SQLite handed back: `None` stands
/// for a null pointer, which is reported as `NULL`.
pub fn require_non_null<T>(value: Option<T>) -> (r: Result<T, ResultCode>)
    ensures
        match value {
            Some(v) => r == Ok::<T, ResultCode>(v),
            None => r == Err::<T, ResultCode>(ResultCode::NULL),
        },
{
    match value {
        Some(v) => Ok(v),
        None => Err(ResultCode::NULL),
    }
}

} // verus!
