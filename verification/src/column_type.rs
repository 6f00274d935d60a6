//! The fundamental datatypes of an SQLite column value.
use vstd::prelude::*;

verus! {

/// The datatype of a column value, as `sqlite3_column_type` reports it.
#[derive(Clone, Copy, Debug, PartialEq, Eq, Structural)]
pub enum ColumnType {
    Integer,
    Float,
    Text,
    Blob,
    Null,
}

impl ColumnType {
    /// The integer that stands for this datatype in the SQLite C interface.
    pub open spec fn spec_code(self) -> int {
        match self {
            ColumnType::Integer => 1,
            ColumnType::Float => 2,
            ColumnType::Text => 3,
            ColumnType::Blob => 4,
            ColumnType::Null => 5,
        }
    }

    /// The datatype that stands for `n`, if there is one.
    pub open spec fn spec_from_code(n: int) -> Option<ColumnType> {
        if n == 1 {
            Some(ColumnType::Integer)
        } else if n == 2 {
            Some(ColumnType::Float)
        } else if n == 3 {
            Some(ColumnType::Text)
        } else if n == 4 {
            Some(ColumnType::Blob)
        } else if n == 5 {
            Some(ColumnType::Null)
        } else {
            None
        }
    }

    /// Decoding the integer of a datatype gives that datatype back.
    pub proof fn lemma_from_code_of_code(t: ColumnType)
        ensures
            Self::spec_from_code(t.spec_code()) == Some(t),
    {
    }

    /// A decoded datatype stands for the integer it was decoded from, and
    /// exactly the integers from 1 to 5 decode.
    pub proof fn lemma_code_of_from_code(n: int)
        ensures
            Self::spec_from_code(n) matches Some(t) ==> t.spec_code() == n,
            Self::spec_from_code(n) is Some <==> 1 <= n <= 5,
    {
    }

    /// No two datatypes stand for the same integer.
    pub proof fn lemma_code_injective(a: ColumnType, b: ColumnType)
        requires
            a.spec_code() == b.spec_code(),
        ensures
            a == b,
    {
        Self::lemma_from_code_of_code(a);
        Self::lemma_from_code_of_code(b);
    }

    /// The integer that stands for this datatype in the SQLite C interface.
    pub fn code(&self) -> (r: i32)
        ensures
            r == self.spec_code(),
    {
        match self {
            ColumnType::Integer => 1,
            ColumnType::Float => 2,
            ColumnType::Text => 3,
            ColumnType::Blob => 4,
            ColumnType::Null => 5,
        }
    }

    /// The datatype that stands for `n`, or `None` when no datatype does.
    pub fn from_i64(n: i64) -> (r: Option<ColumnType>)
        ensures
            r == Self::spec_from_code(n as int),
    {
        match n {
            1 => Some(ColumnType::Integer),
            2 => Some(ColumnType::Float),
            3 => Some(ColumnType::Text),
            4 => Some(ColumnType::Blob),
            5 => Some(ColumnType::Null),
            _ => None,
        }
    }

    /// The datatype that stands for `n`, or `None` when no datatype does.
    pub fn from_i32(n: i32) -> (r: Option<ColumnType>)
        ensures
            r == Self::spec_from_code(n as int),
    {
        Self::from_i64(n as i64)
    }

    /// The datatype that stands for `n`, or `None` when no datatype does.
    pub fn from_u64(n: u64) -> (r: Option<ColumnType>)
        ensures
            r == Self::spec_from_code(n as int),
    {
        if n <= 5 {
            Self::from_i64(n as i64)
        } else {
            None
        }
    }
}

/// The fundamental datatypes of the SQLite C interface, as `sqlite3.h`
/// defines them.
pub const SQLITE_INTEGER: i32 = 1;
pub const SQLITE_FLOAT: i32 = 2;
pub const SQLITE_TEXT: i32 = 3;
pub const SQLITE_BLOB: i32 = 4;
pub const SQLITE_NULL: i32 = 5;

/// Each datatype stands for SQLite's constant of the same name, and each of
/// those constants decodes to its datatype.
pub proof fn lemma_types_are_sqlite_constants()
    ensures
        ColumnType::Integer.spec_code() == SQLITE_INTEGER,
        ColumnType::Float.spec_code() == SQLITE_FLOAT,
        ColumnType::Text.spec_code() == SQLITE_TEXT,
        ColumnType::Blob.spec_code() == SQLITE_BLOB,
        ColumnType::Null.spec_code() == SQLITE_NULL,
        ColumnType::spec_from_code(SQLITE_INTEGER as int) == Some(ColumnType::Integer),
        ColumnType::spec_from_code(SQLITE_FLOAT as int) == Some(ColumnType::Float),
        ColumnType::spec_from_code(SQLITE_TEXT as int) == Some(ColumnType::Text),
        ColumnType::spec_from_code(SQLITE_BLOB as int) == Some(ColumnType::Blob),
        ColumnType::spec_from_code(SQLITE_NULL as int) == Some(ColumnType::Null),
{
}

} // verus!
