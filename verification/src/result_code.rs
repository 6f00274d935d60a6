//! SQLite result codes: the primary codes and the extended codes, with the
//! conversion between a code and its integer value.
use vstd::prelude::*;

verus! {

/// A result code as SQLite reports it, primary or extended.
///
/// `NULL` is not an SQLite code: the library uses it to report that SQLite
/// handed back a null pointer where a value was expected.
#[allow(non_camel_case_types)]
#[derive(Clone, Copy, Debug, PartialEq, Eq, Structural)]
pub enum ResultCode {
    OK,
    ERROR,
    INTERNAL,
    PERM,
    ABORT,
    BUSY,
    LOCKED,
    NOMEM,
    READONLY,
    INTERRUPT,
    IOERR,
    CORRUPT,
    NOTFOUND,
    FULL,
    CANTOPEN,
    PROTOCOL,
    EMPTY,
    SCHEMA,
    TOOBIG,
    CONSTRAINT,
    MISMATCH,
    MISUSE,
    NOLFS,
    AUTH,
    FORMAT,
    RANGE,
    NOTADB,
    NOTICE,
    WARNING,
    ROW,
    DONE,
    ERROR_MISSING_COLLSEQ,
    ERROR_RETRY,
    ERROR_SNAPSHOT,
    IOERR_READ,
    IOERR_SHORT_READ,
    IOERR_WRITE,
    IOERR_FSYNC,
    IOERR_DIR_FSYNC,
    IOERR_TRUNCATE,
    IOERR_FSTAT,
    IOERR_UNLOCK,
    IOERR_RDLOCK,
    IOERR_DELETE,
    IOERR_BLOCKED,
    IOERR_NOMEM,
    IOERR_ACCESS,
    IOERR_CHECKRESERVEDLOCK,
    IOERR_LOCK,
    IOERR_CLOSE,
    IOERR_DIR_CLOSE,
    IOERR_SHMOPEN,
    IOERR_SHMSIZE,
    IOERR_SHMLOCK,
    IOERR_SHMMAP,
    IOERR_SEEK,
    IOERR_DELETE_NOENT,
    IOERR_MMAP,
    IOERR_GETTEMPPATH,
    IOERR_CONVPATH,
    IOERR_VNODE,
    IOERR_AUTH,
    IOERR_BEGIN_ATOMIC,
    IOERR_COMMIT_ATOMIC,
    IOERR_ROLLBACK_ATOMIC,
    IOERR_DATA,
    IOERR_CORRUPTFS,
    LOCKED_SHAREDCACHE,
    LOCKED_VTAB,
    BUSY_RECOVERY,
    BUSY_SNAPSHOT,
    BUSY_TIMEOUT,
    CANTOPEN_NOTEMPDIR,
    CANTOPEN_ISDIR,
    CANTOPEN_FULLPATH,
    CANTOPEN_CONVPATH,
    CANTOPEN_DIRTYWAL,
    CANTOPEN_SYMLINK,
    CORRUPT_VTAB,
    CORRUPT_SEQUENCE,
    CORRUPT_INDEX,
    READONLY_RECOVERY,
    READONLY_CANTLOCK,
    READONLY_ROLLBACK,
    READONLY_DBMOVED,
    READONLY_CANTINIT,
    READONLY_DIRECTORY,
    ABORT_ROLLBACK,
    CONSTRAINT_CHECK,
    CONSTRAINT_COMMITHOOK,
    CONSTRAINT_FOREIGNKEY,
    CONSTRAINT_FUNCTION,
    CONSTRAINT_NOTNULL,
    CONSTRAINT_PRIMARYKEY,
    CONSTRAINT_TRIGGER,
    CONSTRAINT_UNIQUE,
    CONSTRAINT_VTAB,
    CONSTRAINT_ROWID,
    CONSTRAINT_PINNED,
    CONSTRAINT_DATATYPE,
    NOTICE_RECOVER_WAL,
    NOTICE_RECOVER_ROLLBACK,
    WARNING_AUTOINDEX,
    AUTH_USER,
    OK_LOAD_PERMANENTLY,
    OK_SYMLINK,
    NULL,
}

impl ResultCode {
    /// The integer that stands for this code in the SQLite C interface.
    pub open spec fn spec_code(self) -> int {
        match self {
            ResultCode::OK => 0,
            ResultCode::ERROR => 1,
            ResultCode::INTERNAL => 2,
            ResultCode::PERM => 3,
            ResultCode::ABORT => 4,
            ResultCode::BUSY => 5,
            ResultCode::LOCKED => 6,
            ResultCode::NOMEM => 7,
            ResultCode::READONLY => 8,
            ResultCode::INTERRUPT => 9,
            ResultCode::IOERR => 10,
            ResultCode::CORRUPT => 11,
            ResultCode::NOTFOUND => 12,
            ResultCode::FULL => 13,
            ResultCode::CANTOPEN => 14,
            ResultCode::PROTOCOL => 15,
            ResultCode::EMPTY => 16,
            ResultCode::SCHEMA => 17,
            ResultCode::TOOBIG => 18,
            ResultCode::CONSTRAINT => 19,
            ResultCode::MISMATCH => 20,
            ResultCode::MISUSE => 21,
            ResultCode::NOLFS => 22,
            ResultCode::AUTH => 23,
            ResultCode::FORMAT => 24,
            ResultCode::RANGE => 25,
            ResultCode::NOTADB => 26,
            ResultCode::NOTICE => 27,
            ResultCode::WARNING => 28,
            ResultCode::ROW => 100,
            ResultCode::DONE => 101,
            ResultCode::ERROR_MISSING_COLLSEQ => 257,
            ResultCode::ERROR_RETRY => 513,
            ResultCode::ERROR_SNAPSHOT => 769,
            ResultCode::IOERR_READ => 266,
            ResultCode::IOERR_SHORT_READ => 522,
            ResultCode::IOERR_WRITE => 778,
            ResultCode::IOERR_FSYNC => 1034,
            ResultCode::IOERR_DIR_FSYNC => 1290,
            ResultCode::IOERR_TRUNCATE => 1546,
            ResultCode::IOERR_FSTAT => 1802,
            ResultCode::IOERR_UNLOCK => 2058,
            ResultCode::IOERR_RDLOCK => 2314,
            ResultCode::IOERR_DELETE => 2570,
            ResultCode::IOERR_BLOCKED => 2826,
            ResultCode::IOERR_NOMEM => 3082,
            ResultCode::IOERR_ACCESS => 3338,
            ResultCode::IOERR_CHECKRESERVEDLOCK => 3594,
            ResultCode::IOERR_LOCK => 3850,
            ResultCode::IOERR_CLOSE => 4106,
            ResultCode::IOERR_DIR_CLOSE => 4362,
            ResultCode::IOERR_SHMOPEN => 4618,
            ResultCode::IOERR_SHMSIZE => 4874,
            ResultCode::IOERR_SHMLOCK => 5130,
            ResultCode::IOERR_SHMMAP => 5386,
            ResultCode::IOERR_SEEK => 5642,
            ResultCode::IOERR_DELETE_NOENT => 5898,
            ResultCode::IOERR_MMAP => 6154,
            ResultCode::IOERR_GETTEMPPATH => 6410,
            ResultCode::IOERR_CONVPATH => 6666,
            ResultCode::IOERR_VNODE => 6922,
            ResultCode::IOERR_AUTH => 7178,
            ResultCode::IOERR_BEGIN_ATOMIC => 7434,
            ResultCode::IOERR_COMMIT_ATOMIC => 7690,
            ResultCode::IOERR_ROLLBACK_ATOMIC => 7946,
            ResultCode::IOERR_DATA => 8202,
            ResultCode::IOERR_CORRUPTFS => 8458,
            ResultCode::LOCKED_SHAREDCACHE => 262,
            ResultCode::LOCKED_VTAB => 518,
            ResultCode::BUSY_RECOVERY => 261,
            ResultCode::BUSY_SNAPSHOT => 517,
            ResultCode::BUSY_TIMEOUT => 773,
            ResultCode::CANTOPEN_NOTEMPDIR => 270,
            ResultCode::CANTOPEN_ISDIR => 526,
            ResultCode::CANTOPEN_FULLPATH => 782,
            ResultCode::CANTOPEN_CONVPATH => 1038,
            ResultCode::CANTOPEN_DIRTYWAL => 1294,
            ResultCode::CANTOPEN_SYMLINK => 1550,
            ResultCode::CORRUPT_VTAB => 267,
            ResultCode::CORRUPT_SEQUENCE => 523,
            ResultCode::CORRUPT_INDEX => 779,
            ResultCode::READONLY_RECOVERY => 264,
            ResultCode::READONLY_CANTLOCK => 520,
            ResultCode::READONLY_ROLLBACK => 776,
            ResultCode::READONLY_DBMOVED => 1032,
            ResultCode::READONLY_CANTINIT => 1288,
            ResultCode::READONLY_DIRECTORY => 1544,
            ResultCode::ABORT_ROLLBACK => 516,
            ResultCode::CONSTRAINT_CHECK => 275,
            ResultCode::CONSTRAINT_COMMITHOOK => 531,
            ResultCode::CONSTRAINT_FOREIGNKEY => 787,
            ResultCode::CONSTRAINT_FUNCTION => 1043,
            ResultCode::CONSTRAINT_NOTNULL => 1299,
            ResultCode::CONSTRAINT_PRIMARYKEY => 1555,
            ResultCode::CONSTRAINT_TRIGGER => 1811,
            ResultCode::CONSTRAINT_UNIQUE => 2067,
            ResultCode::CONSTRAINT_VTAB => 2323,
            ResultCode::CONSTRAINT_ROWID => 2579,
            ResultCode::CONSTRAINT_PINNED => 2835,
            ResultCode::CONSTRAINT_DATATYPE => 3091,
            ResultCode::NOTICE_RECOVER_WAL => 283,
            ResultCode::NOTICE_RECOVER_ROLLBACK => 539,
            ResultCode::WARNING_AUTOINDEX => 284,
            ResultCode::AUTH_USER => 279,
            ResultCode::OK_LOAD_PERMANENTLY => 256,
            ResultCode::OK_SYMLINK => 512,
            ResultCode::NULL => 5000,
        }
    }

    /// Some result code stands for `n`.
    pub open spec fn is_code(n: int) -> bool {
        Self::spec_from_code(n) is Some
    }

    /// The result code that stands for `n`, if there is one.
    pub open spec fn spec_from_code(n: int) -> Option<ResultCode> {
        if n == 0 {
            Some(ResultCode::OK)
        } else if n == 1 {
            Some(ResultCode::ERROR)
        } else if n == 2 {
            Some(ResultCode::INTERNAL)
        } else if n == 3 {
            Some(ResultCode::PERM)
        } else if n == 4 {
            Some(ResultCode::ABORT)
        } else if n == 5 {
            Some(ResultCode::BUSY)
        } else if n == 6 {
            Some(ResultCode::LOCKED)
        } else if n == 7 {
            Some(ResultCode::NOMEM)
        } else if n == 8 {
            Some(ResultCode::READONLY)
        } else if n == 9 {
            Some(ResultCode::INTERRUPT)
        } else if n == 10 {
            Some(ResultCode::IOERR)
        } else if n == 11 {
            Some(ResultCode::CORRUPT)
        } else if n == 12 {
            Some(ResultCode::NOTFOUND)
        } else if n == 13 {
            Some(ResultCode::FULL)
        } else if n == 14 {
            Some(ResultCode::CANTOPEN)
        } else if n == 15 {
            Some(ResultCode::PROTOCOL)
        } else if n == 16 {
            Some(ResultCode::EMPTY)
        } else if n == 17 {
            Some(ResultCode::SCHEMA)
        } else if n == 18 {
            Some(ResultCode::TOOBIG)
        } else if n == 19 {
            Some(ResultCode::CONSTRAINT)
        } else if n == 20 {
            Some(ResultCode::MISMATCH)
        } else if n == 21 {
            Some(ResultCode::MISUSE)
        } else if n == 22 {
            Some(ResultCode::NOLFS)
        } else if n == 23 {
            Some(ResultCode::AUTH)
        } else if n == 24 {
            Some(ResultCode::FORMAT)
        } else if n == 25 {
            Some(ResultCode::RANGE)
        } else if n == 26 {
            Some(ResultCode::NOTADB)
        } else if n == 27 {
            Some(ResultCode::NOTICE)
        } else if n == 28 {
            Some(ResultCode::WARNING)
        } else if n == 100 {
            Some(ResultCode::ROW)
        } else if n == 101 {
            Some(ResultCode::DONE)
        } else if n == 257 {
            Some(ResultCode::ERROR_MISSING_COLLSEQ)
        } else if n == 513 {
            Some(ResultCode::ERROR_RETRY)
        } else if n == 769 {
            Some(ResultCode::ERROR_SNAPSHOT)
        } else if n == 266 {
            Some(ResultCode::IOERR_READ)
        } else if n == 522 {
            Some(ResultCode::IOERR_SHORT_READ)
        } else if n == 778 {
            Some(ResultCode::IOERR_WRITE)
        } else if n == 1034 {
            Some(ResultCode::IOERR_FSYNC)
        } else if n == 1290 {
            Some(ResultCode::IOERR_DIR_FSYNC)
        } else if n == 1546 {
            Some(ResultCode::IOERR_TRUNCATE)
        } else if n == 1802 {
            Some(ResultCode::IOERR_FSTAT)
        } else if n == 2058 {
            Some(ResultCode::IOERR_UNLOCK)
        } else if n == 2314 {
            Some(ResultCode::IOERR_RDLOCK)
        } else if n == 2570 {
            Some(ResultCode::IOERR_DELETE)
        } else if n == 2826 {
            Some(ResultCode::IOERR_BLOCKED)
        } else if n == 3082 {
            Some(ResultCode::IOERR_NOMEM)
        } else if n == 3338 {
            Some(ResultCode::IOERR_ACCESS)
        } else if n == 3594 {
            Some(ResultCode::IOERR_CHECKRESERVEDLOCK)
        } else if n == 3850 {
            Some(ResultCode::IOERR_LOCK)
        } else if n == 4106 {
            Some(ResultCode::IOERR_CLOSE)
        } else if n == 4362 {
            Some(ResultCode::IOERR_DIR_CLOSE)
        } else if n == 4618 {
            Some(ResultCode::IOERR_SHMOPEN)
        } else if n == 4874 {
            Some(ResultCode::IOERR_SHMSIZE)
        } else if n == 5130 {
            Some(ResultCode::IOERR_SHMLOCK)
        } else if n == 5386 {
            Some(ResultCode::IOERR_SHMMAP)
        } else if n == 5642 {
            Some(ResultCode::IOERR_SEEK)
        } else if n == 5898 {
            Some(ResultCode::IOERR_DELETE_NOENT)
        } else if n == 6154 {
            Some(ResultCode::IOERR_MMAP)
        } else if n == 6410 {
            Some(ResultCode::IOERR_GETTEMPPATH)
        } else if n == 6666 {
            Some(ResultCode::IOERR_CONVPATH)
        } else if n == 6922 {
            Some(ResultCode::IOERR_VNODE)
        } else if n == 7178 {
            Some(ResultCode::IOERR_AUTH)
        } else if n == 7434 {
            Some(ResultCode::IOERR_BEGIN_ATOMIC)
        } else if n == 7690 {
            Some(ResultCode::IOERR_COMMIT_ATOMIC)
        } else if n == 7946 {
            Some(ResultCode::IOERR_ROLLBACK_ATOMIC)
        } else if n == 8202 {
            Some(ResultCode::IOERR_DATA)
        } else if n == 8458 {
            Some(ResultCode::IOERR_CORRUPTFS)
        } else if n == 262 {
            Some(ResultCode::LOCKED_SHAREDCACHE)
        } else if n == 518 {
            Some(ResultCode::LOCKED_VTAB)
        } else if n == 261 {
            Some(ResultCode::BUSY_RECOVERY)
        } else if n == 517 {
            Some(ResultCode::BUSY_SNAPSHOT)
        } else if n == 773 {
            Some(ResultCode::BUSY_TIMEOUT)
        } else if n == 270 {
            Some(ResultCode::CANTOPEN_NOTEMPDIR)
        } else if n == 526 {
            Some(ResultCode::CANTOPEN_ISDIR)
        } else if n == 782 {
            Some(ResultCode::CANTOPEN_FULLPATH)
        } else if n == 1038 {
            Some(ResultCode::CANTOPEN_CONVPATH)
        } else if n == 1294 {
            Some(ResultCode::CANTOPEN_DIRTYWAL)
        } else if n == 1550 {
            Some(ResultCode::CANTOPEN_SYMLINK)
        } else if n == 267 {
            Some(ResultCode::CORRUPT_VTAB)
        } else if n == 523 {
            Some(ResultCode::CORRUPT_SEQUENCE)
        } else if n == 779 {
            Some(ResultCode::CORRUPT_INDEX)
        } else if n == 264 {
            Some(ResultCode::READONLY_RECOVERY)
        } else if n == 520 {
            Some(ResultCode::READONLY_CANTLOCK)
        } else if n == 776 {
            Some(ResultCode::READONLY_ROLLBACK)
        } else if n == 1032 {
            Some(ResultCode::READONLY_DBMOVED)
        } else if n == 1288 {
            Some(ResultCode::READONLY_CANTINIT)
        } else if n == 1544 {
            Some(ResultCode::READONLY_DIRECTORY)
        } else if n == 516 {
            Some(ResultCode::ABORT_ROLLBACK)
        } else if n == 275 {
            Some(ResultCode::CONSTRAINT_CHECK)
        } else if n == 531 {
            Some(ResultCode::CONSTRAINT_COMMITHOOK)
        } else if n == 787 {
            Some(ResultCode::CONSTRAINT_FOREIGNKEY)
        } else if n == 1043 {
            Some(ResultCode::CONSTRAINT_FUNCTION)
        } else if n == 1299 {
            Some(ResultCode::CONSTRAINT_NOTNULL)
        } else if n == 1555 {
            Some(ResultCode::CONSTRAINT_PRIMARYKEY)
        } else if n == 1811 {
            Some(ResultCode::CONSTRAINT_TRIGGER)
        } else if n == 2067 {
            Some(ResultCode::CONSTRAINT_UNIQUE)
        } else if n == 2323 {
            Some(ResultCode::CONSTRAINT_VTAB)
        } else if n == 2579 {
            Some(ResultCode::CONSTRAINT_ROWID)
        } else if n == 2835 {
            Some(ResultCode::CONSTRAINT_PINNED)
        } else if n == 3091 {
            Some(ResultCode::CONSTRAINT_DATATYPE)
        } else if n == 283 {
            Some(ResultCode::NOTICE_RECOVER_WAL)
        } else if n == 539 {
            Some(ResultCode::NOTICE_RECOVER_ROLLBACK)
        } else if n == 284 {
            Some(ResultCode::WARNING_AUTOINDEX)
        } else if n == 279 {
            Some(ResultCode::AUTH_USER)
        } else if n == 256 {
            Some(ResultCode::OK_LOAD_PERMANENTLY)
        } else if n == 512 {
            Some(ResultCode::OK_SYMLINK)
        } else if n == 5000 {
            Some(ResultCode::NULL)
        } else {
            None
        }
    }

    /// Decoding the integer of a code gives that code back.
    pub proof fn lemma_from_code_of_code(rc: ResultCode)
        ensures
            Self::spec_from_code(rc.spec_code()) == Some(rc),
    {
    }

    /// No two result codes stand for the same integer.
    pub proof fn lemma_code_injective(a: ResultCode, b: ResultCode)
        requires
            a.spec_code() == b.spec_code(),
        ensures
            a == b,
    {
        Self::lemma_from_code_of_code(a);
        Self::lemma_from_code_of_code(b);
    }

    /// A decoded code stands for the integer it was decoded from.
    pub proof fn lemma_code_of_from_code(n: int)
        ensures
            Self::spec_from_code(n) matches Some(rc) ==> rc.spec_code() == n,
    {
    }

    /// The integer that stands for this code in the SQLite C interface.
    pub fn code(&self) -> (r: i32)
        ensures
            r == self.spec_code(),
    {
        match self {
            ResultCode::OK => 0,
            ResultCode::ERROR => 1,
            ResultCode::INTERNAL => 2,
            ResultCode::PERM => 3,
            ResultCode::ABORT => 4,
            ResultCode::BUSY => 5,
            ResultCode::LOCKED => 6,
            ResultCode::NOMEM => 7,
            ResultCode::READONLY => 8,
            ResultCode::INTERRUPT => 9,
            ResultCode::IOERR => 10,
            ResultCode::CORRUPT => 11,
            ResultCode::NOTFOUND => 12,
            ResultCode::FULL => 13,
            ResultCode::CANTOPEN => 14,
            ResultCode::PROTOCOL => 15,
            ResultCode::EMPTY => 16,
            ResultCode::SCHEMA => 17,
            ResultCode::TOOBIG => 18,
            ResultCode::CONSTRAINT => 19,
            ResultCode::MISMATCH => 20,
            ResultCode::MISUSE => 21,
            ResultCode::NOLFS => 22,
            ResultCode::AUTH => 23,
            ResultCode::FORMAT => 24,
            ResultCode::RANGE => 25,
            ResultCode::NOTADB => 26,
            ResultCode::NOTICE => 27,
            ResultCode::WARNING => 28,
            ResultCode::ROW => 100,
            ResultCode::DONE => 101,
            ResultCode::ERROR_MISSING_COLLSEQ => 257,
            ResultCode::ERROR_RETRY => 513,
            ResultCode::ERROR_SNAPSHOT => 769,
            ResultCode::IOERR_READ => 266,
            ResultCode::IOERR_SHORT_READ => 522,
            ResultCode::IOERR_WRITE => 778,
            ResultCode::IOERR_FSYNC => 1034,
            ResultCode::IOERR_DIR_FSYNC => 1290,
            ResultCode::IOERR_TRUNCATE => 1546,
            ResultCode::IOERR_FSTAT => 1802,
            ResultCode::IOERR_UNLOCK => 2058,
            ResultCode::IOERR_RDLOCK => 2314,
            ResultCode::IOERR_DELETE => 2570,
            ResultCode::IOERR_BLOCKED => 2826,
            ResultCode::IOERR_NOMEM => 3082,
            ResultCode::IOERR_ACCESS => 3338,
            ResultCode::IOERR_CHECKRESERVEDLOCK => 3594,
            ResultCode::IOERR_LOCK => 3850,
            ResultCode::IOERR_CLOSE => 4106,
            ResultCode::IOERR_DIR_CLOSE => 4362,
            ResultCode::IOERR_SHMOPEN => 4618,
            ResultCode::IOERR_SHMSIZE => 4874,
            ResultCode::IOERR_SHMLOCK => 5130,
            ResultCode::IOERR_SHMMAP => 5386,
            ResultCode::IOERR_SEEK => 5642,
            ResultCode::IOERR_DELETE_NOENT => 5898,
            ResultCode::IOERR_MMAP => 6154,
            ResultCode::IOERR_GETTEMPPATH => 6410,
            ResultCode::IOERR_CONVPATH => 6666,
            ResultCode::IOERR_VNODE => 6922,
            ResultCode::IOERR_AUTH => 7178,
            ResultCode::IOERR_BEGIN_ATOMIC => 7434,
            ResultCode::IOERR_COMMIT_ATOMIC => 7690,
            ResultCode::IOERR_ROLLBACK_ATOMIC => 7946,
            ResultCode::IOERR_DATA => 8202,
            ResultCode::IOERR_CORRUPTFS => 8458,
            ResultCode::LOCKED_SHAREDCACHE => 262,
            ResultCode::LOCKED_VTAB => 518,
            ResultCode::BUSY_RECOVERY => 261,
            ResultCode::BUSY_SNAPSHOT => 517,
            ResultCode::BUSY_TIMEOUT => 773,
            ResultCode::CANTOPEN_NOTEMPDIR => 270,
            ResultCode::CANTOPEN_ISDIR => 526,
            ResultCode::CANTOPEN_FULLPATH => 782,
            ResultCode::CANTOPEN_CONVPATH => 1038,
            ResultCode::CANTOPEN_DIRTYWAL => 1294,
            ResultCode::CANTOPEN_SYMLINK => 1550,
            ResultCode::CORRUPT_VTAB => 267,
            ResultCode::CORRUPT_SEQUENCE => 523,
            ResultCode::CORRUPT_INDEX => 779,
            ResultCode::READONLY_RECOVERY => 264,
            ResultCode::READONLY_CANTLOCK => 520,
            ResultCode::READONLY_ROLLBACK => 776,
            ResultCode::READONLY_DBMOVED => 1032,
            ResultCode::READONLY_CANTINIT => 1288,
            ResultCode::READONLY_DIRECTORY => 1544,
            ResultCode::ABORT_ROLLBACK => 516,
            ResultCode::CONSTRAINT_CHECK => 275,
            ResultCode::CONSTRAINT_COMMITHOOK => 531,
            ResultCode::CONSTRAINT_FOREIGNKEY => 787,
            ResultCode::CONSTRAINT_FUNCTION => 1043,
            ResultCode::CONSTRAINT_NOTNULL => 1299,
            ResultCode::CONSTRAINT_PRIMARYKEY => 1555,
            ResultCode::CONSTRAINT_TRIGGER => 1811,
            ResultCode::CONSTRAINT_UNIQUE => 2067,
            ResultCode::CONSTRAINT_VTAB => 2323,
            ResultCode::CONSTRAINT_ROWID => 2579,
            ResultCode::CONSTRAINT_PINNED => 2835,
            ResultCode::CONSTRAINT_DATATYPE => 3091,
            ResultCode::NOTICE_RECOVER_WAL => 283,
            ResultCode::NOTICE_RECOVER_ROLLBACK => 539,
            ResultCode::WARNING_AUTOINDEX => 284,
            ResultCode::AUTH_USER => 279,
            ResultCode::OK_LOAD_PERMANENTLY => 256,
            ResultCode::OK_SYMLINK => 512,
            ResultCode::NULL => 5000,
        }
    }

    /// The result code that stands for `n`, or `None` when no code does.
    pub fn from_i64(n: i64) -> (r: Option<ResultCode>)
        ensures
            r == Self::spec_from_code(n as int),
    {
        let r = match n {
            0 => Some(ResultCode::OK),
            1 => Some(ResultCode::ERROR),
            2 => Some(ResultCode::INTERNAL),
            3 => Some(ResultCode::PERM),
            4 => Some(ResultCode::ABORT),
            5 => Some(ResultCode::BUSY),
            6 => Some(ResultCode::LOCKED),
            7 => Some(ResultCode::NOMEM),
            8 => Some(ResultCode::READONLY),
            9 => Some(ResultCode::INTERRUPT),
            10 => Some(ResultCode::IOERR),
            11 => Some(ResultCode::CORRUPT),
            12 => Some(ResultCode::NOTFOUND),
            13 => Some(ResultCode::FULL),
            14 => Some(ResultCode::CANTOPEN),
            15 => Some(ResultCode::PROTOCOL),
            16 => Some(ResultCode::EMPTY),
            17 => Some(ResultCode::SCHEMA),
            18 => Some(ResultCode::TOOBIG),
            19 => Some(ResultCode::CONSTRAINT),
            20 => Some(ResultCode::MISMATCH),
            21 => Some(ResultCode::MISUSE),
            22 => Some(ResultCode::NOLFS),
            23 => Some(ResultCode::AUTH),
            24 => Some(ResultCode::FORMAT),
            25 => Some(ResultCode::RANGE),
            26 => Some(ResultCode::NOTADB),
            27 => Some(ResultCode::NOTICE),
            28 => Some(ResultCode::WARNING),
            100 => Some(ResultCode::ROW),
            101 => Some(ResultCode::DONE),
            257 => Some(ResultCode::ERROR_MISSING_COLLSEQ),
            513 => Some(ResultCode::ERROR_RETRY),
            769 => Some(ResultCode::ERROR_SNAPSHOT),
            266 => Some(ResultCode::IOERR_READ),
            522 => Some(ResultCode::IOERR_SHORT_READ),
            778 => Some(ResultCode::IOERR_WRITE),
            1034 => Some(ResultCode::IOERR_FSYNC),
            1290 => Some(ResultCode::IOERR_DIR_FSYNC),
            1546 => Some(ResultCode::IOERR_TRUNCATE),
            1802 => Some(ResultCode::IOERR_FSTAT),
            2058 => Some(ResultCode::IOERR_UNLOCK),
            2314 => Some(ResultCode::IOERR_RDLOCK),
            2570 => Some(ResultCode::IOERR_DELETE),
            2826 => Some(ResultCode::IOERR_BLOCKED),
            3082 => Some(ResultCode::IOERR_NOMEM),
            3338 => Some(ResultCode::IOERR_ACCESS),
            3594 => Some(ResultCode::IOERR_CHECKRESERVEDLOCK),
            3850 => Some(ResultCode::IOERR_LOCK),
            4106 => Some(ResultCode::IOERR_CLOSE),
            4362 => Some(ResultCode::IOERR_DIR_CLOSE),
            4618 => Some(ResultCode::IOERR_SHMOPEN),
            4874 => Some(ResultCode::IOERR_SHMSIZE),
            5130 => Some(ResultCode::IOERR_SHMLOCK),
            5386 => Some(ResultCode::IOERR_SHMMAP),
            5642 => Some(ResultCode::IOERR_SEEK),
            5898 => Some(ResultCode::IOERR_DELETE_NOENT),
            6154 => Some(ResultCode::IOERR_MMAP),
            6410 => Some(ResultCode::IOERR_GETTEMPPATH),
            6666 => Some(ResultCode::IOERR_CONVPATH),
            6922 => Some(ResultCode::IOERR_VNODE),
            7178 => Some(ResultCode::IOERR_AUTH),
            7434 => Some(ResultCode::IOERR_BEGIN_ATOMIC),
            7690 => Some(ResultCode::IOERR_COMMIT_ATOMIC),
            7946 => Some(ResultCode::IOERR_ROLLBACK_ATOMIC),
            8202 => Some(ResultCode::IOERR_DATA),
            8458 => Some(ResultCode::IOERR_CORRUPTFS),
            262 => Some(ResultCode::LOCKED_SHAREDCACHE),
            518 => Some(ResultCode::LOCKED_VTAB),
            261 => Some(ResultCode::BUSY_RECOVERY),
            517 => Some(ResultCode::BUSY_SNAPSHOT),
            773 => Some(ResultCode::BUSY_TIMEOUT),
            270 => Some(ResultCode::CANTOPEN_NOTEMPDIR),
            526 => Some(ResultCode::CANTOPEN_ISDIR),
            782 => Some(ResultCode::CANTOPEN_FULLPATH),
            1038 => Some(ResultCode::CANTOPEN_CONVPATH),
            1294 => Some(ResultCode::CANTOPEN_DIRTYWAL),
            1550 => Some(ResultCode::CANTOPEN_SYMLINK),
            267 => Some(ResultCode::CORRUPT_VTAB),
            523 => Some(ResultCode::CORRUPT_SEQUENCE),
            779 => Some(ResultCode::CORRUPT_INDEX),
            264 => Some(ResultCode::READONLY_RECOVERY),
            520 => Some(ResultCode::READONLY_CANTLOCK),
            776 => Some(ResultCode::READONLY_ROLLBACK),
            1032 => Some(ResultCode::READONLY_DBMOVED),
            1288 => Some(ResultCode::READONLY_CANTINIT),
            1544 => Some(ResultCode::READONLY_DIRECTORY),
            516 => Some(ResultCode::ABORT_ROLLBACK),
            275 => Some(ResultCode::CONSTRAINT_CHECK),
            531 => Some(ResultCode::CONSTRAINT_COMMITHOOK),
            787 => Some(ResultCode::CONSTRAINT_FOREIGNKEY),
            1043 => Some(ResultCode::CONSTRAINT_FUNCTION),
            1299 => Some(ResultCode::CONSTRAINT_NOTNULL),
            1555 => Some(ResultCode::CONSTRAINT_PRIMARYKEY),
            1811 => Some(ResultCode::CONSTRAINT_TRIGGER),
            2067 => Some(ResultCode::CONSTRAINT_UNIQUE),
            2323 => Some(ResultCode::CONSTRAINT_VTAB),
            2579 => Some(ResultCode::CONSTRAINT_ROWID),
            2835 => Some(ResultCode::CONSTRAINT_PINNED),
            3091 => Some(ResultCode::CONSTRAINT_DATATYPE),
            283 => Some(ResultCode::NOTICE_RECOVER_WAL),
            539 => Some(ResultCode::NOTICE_RECOVER_ROLLBACK),
            284 => Some(ResultCode::WARNING_AUTOINDEX),
            279 => Some(ResultCode::AUTH_USER),
            256 => Some(ResultCode::OK_LOAD_PERMANENTLY),
            512 => Some(ResultCode::OK_SYMLINK),
            5000 => Some(ResultCode::NULL),
            _ => None,
        };
        r
    }

    /// The result code that stands for `n`, or `None` when no code does.
    pub fn from_i32(n: i32) -> (r: Option<ResultCode>)
        ensures
            r == Self::spec_from_code(n as int),
    {
        Self::from_i64(n as i64)
    }

    /// The result code that stands for `n`, or `None` when no code does.
    pub fn from_u64(n: u64) -> (r: Option<ResultCode>)
        ensures
            r == Self::spec_from_code(n as int),
    {
        if n <= i64::MAX as u64 {
            Self::from_i64(n as i64)
        } else {
            None
        }
    }
}

/// The result codes of the SQLite C interface, as `sqlite3.h` defines them:
/// a primary code below 256, and each extended code as its primary code
/// plus a multiple of 256.
pub const SQLITE_OK: i32 = 0;
pub const SQLITE_ERROR: i32 = 1;
pub const SQLITE_INTERNAL: i32 = 2;
pub const SQLITE_PERM: i32 = 3;
pub const SQLITE_ABORT: i32 = 4;
pub const SQLITE_BUSY: i32 = 5;
pub const SQLITE_LOCKED: i32 = 6;
pub const SQLITE_NOMEM: i32 = 7;
pub const SQLITE_READONLY: i32 = 8;
pub const SQLITE_INTERRUPT: i32 = 9;
pub const SQLITE_IOERR: i32 = 10;
pub const SQLITE_CORRUPT: i32 = 11;
pub const SQLITE_NOTFOUND: i32 = 12;
pub const SQLITE_FULL: i32 = 13;
pub const SQLITE_CANTOPEN: i32 = 14;
pub const SQLITE_PROTOCOL: i32 = 15;
pub const SQLITE_EMPTY: i32 = 16;
pub const SQLITE_SCHEMA: i32 = 17;
pub const SQLITE_TOOBIG: i32 = 18;
pub const SQLITE_CONSTRAINT: i32 = 19;
pub const SQLITE_MISMATCH: i32 = 20;
pub const SQLITE_MISUSE: i32 = 21;
pub const SQLITE_NOLFS: i32 = 22;
pub const SQLITE_AUTH: i32 = 23;
pub const SQLITE_FORMAT: i32 = 24;
pub const SQLITE_RANGE: i32 = 25;
pub const SQLITE_NOTADB: i32 = 26;
pub const SQLITE_NOTICE: i32 = 27;
pub const SQLITE_WARNING: i32 = 28;
pub const SQLITE_ROW: i32 = 100;
pub const SQLITE_DONE: i32 = 101;
pub const SQLITE_ERROR_MISSING_COLLSEQ: i32 = SQLITE_ERROR + 1 * 256;
pub const SQLITE_ERROR_RETRY: i32 = SQLITE_ERROR + 2 * 256;
pub const SQLITE_ERROR_SNAPSHOT: i32 = SQLITE_ERROR + 3 * 256;
pub const SQLITE_IOERR_READ: i32 = SQLITE_IOERR + 1 * 256;
pub const SQLITE_IOERR_SHORT_READ: i32 = SQLITE_IOERR + 2 * 256;
pub const SQLITE_IOERR_WRITE: i32 = SQLITE_IOERR + 3 * 256;
pub const SQLITE_IOERR_FSYNC: i32 = SQLITE_IOERR + 4 * 256;
pub const SQLITE_IOERR_DIR_FSYNC: i32 = SQLITE_IOERR + 5 * 256;
pub const SQLITE_IOERR_TRUNCATE: i32 = SQLITE_IOERR + 6 * 256;
pub const SQLITE_IOERR_FSTAT: i32 = SQLITE_IOERR + 7 * 256;
pub const SQLITE_IOERR_UNLOCK: i32 = SQLITE_IOERR + 8 * 256;
pub const SQLITE_IOERR_RDLOCK: i32 = SQLITE_IOERR + 9 * 256;
pub const SQLITE_IOERR_DELETE: i32 = SQLITE_IOERR + 10 * 256;
pub const SQLITE_IOERR_BLOCKED: i32 = SQLITE_IOERR + 11 * 256;
pub const SQLITE_IOERR_NOMEM: i32 = SQLITE_IOERR + 12 * 256;
pub const SQLITE_IOERR_ACCESS: i32 = SQLITE_IOERR + 13 * 256;
pub const SQLITE_IOERR_CHECKRESERVEDLOCK: i32 = SQLITE_IOERR + 14 * 256;
pub const SQLITE_IOERR_LOCK: i32 = SQLITE_IOERR + 15 * 256;
pub const SQLITE_IOERR_CLOSE: i32 = SQLITE_IOERR + 16 * 256;
pub const SQLITE_IOERR_DIR_CLOSE: i32 = SQLITE_IOERR + 17 * 256;
pub const SQLITE_IOERR_SHMOPEN: i32 = SQLITE_IOERR + 18 * 256;
pub const SQLITE_IOERR_SHMSIZE: i32 = SQLITE_IOERR + 19 * 256;
pub const SQLITE_IOERR_SHMLOCK: i32 = SQLITE_IOERR + 20 * 256;
pub const SQLITE_IOERR_SHMMAP: i32 = SQLITE_IOERR + 21 * 256;
pub const SQLITE_IOERR_SEEK: i32 = SQLITE_IOERR + 22 * 256;
pub const SQLITE_IOERR_DELETE_NOENT: i32 = SQLITE_IOERR + 23 * 256;
pub const SQLITE_IOERR_MMAP: i32 = SQLITE_IOERR + 24 * 256;
pub const SQLITE_IOERR_GETTEMPPATH: i32 = SQLITE_IOERR + 25 * 256;
pub const SQLITE_IOERR_CONVPATH: i32 = SQLITE_IOERR + 26 * 256;
pub const SQLITE_IOERR_VNODE: i32 = SQLITE_IOERR + 27 * 256;
pub const SQLITE_IOERR_AUTH: i32 = SQLITE_IOERR + 28 * 256;
pub const SQLITE_IOERR_BEGIN_ATOMIC: i32 = SQLITE_IOERR + 29 * 256;
pub const SQLITE_IOERR_COMMIT_ATOMIC: i32 = SQLITE_IOERR + 30 * 256;
pub const SQLITE_IOERR_ROLLBACK_ATOMIC: i32 = SQLITE_IOERR + 31 * 256;
pub const SQLITE_IOERR_DATA: i32 = SQLITE_IOERR + 32 * 256;
pub const SQLITE_IOERR_CORRUPTFS: i32 = SQLITE_IOERR + 33 * 256;
pub const SQLITE_LOCKED_SHAREDCACHE: i32 = SQLITE_LOCKED + 1 * 256;
pub const SQLITE_LOCKED_VTAB: i32 = SQLITE_LOCKED + 2 * 256;
pub const SQLITE_BUSY_RECOVERY: i32 = SQLITE_BUSY + 1 * 256;
pub const SQLITE_BUSY_SNAPSHOT: i32 = SQLITE_BUSY + 2 * 256;
pub const SQLITE_BUSY_TIMEOUT: i32 = SQLITE_BUSY + 3 * 256;
pub const SQLITE_CANTOPEN_NOTEMPDIR: i32 = SQLITE_CANTOPEN + 1 * 256;
pub const SQLITE_CANTOPEN_ISDIR: i32 = SQLITE_CANTOPEN + 2 * 256;
pub const SQLITE_CANTOPEN_FULLPATH: i32 = SQLITE_CANTOPEN + 3 * 256;
pub const SQLITE_CANTOPEN_CONVPATH: i32 = SQLITE_CANTOPEN + 4 * 256;
pub const SQLITE_CANTOPEN_DIRTYWAL: i32 = SQLITE_CANTOPEN + 5 * 256;
pub const SQLITE_CANTOPEN_SYMLINK: i32 = SQLITE_CANTOPEN + 6 * 256;
pub const SQLITE_CORRUPT_VTAB: i32 = SQLITE_CORRUPT + 1 * 256;
pub const SQLITE_CORRUPT_SEQUENCE: i32 = SQLITE_CORRUPT + 2 * 256;
pub const SQLITE_CORRUPT_INDEX: i32 = SQLITE_CORRUPT + 3 * 256;
pub const SQLITE_READONLY_RECOVERY: i32 = SQLITE_READONLY + 1 * 256;
pub const SQLITE_READONLY_CANTLOCK: i32 = SQLITE_READONLY + 2 * 256;
pub const SQLITE_READONLY_ROLLBACK: i32 = SQLITE_READONLY + 3 * 256;
pub const SQLITE_READONLY_DBMOVED: i32 = SQLITE_READONLY + 4 * 256;
pub const SQLITE_READONLY_CANTINIT: i32 = SQLITE_READONLY + 5 * 256;
pub const SQLITE_READONLY_DIRECTORY: i32 = SQLITE_READONLY + 6 * 256;
pub const SQLITE_ABORT_ROLLBACK: i32 = SQLITE_ABORT + 2 * 256;
pub const SQLITE_CONSTRAINT_CHECK: i32 = SQLITE_CONSTRAINT + 1 * 256;
pub const SQLITE_CONSTRAINT_COMMITHOOK: i32 = SQLITE_CONSTRAINT + 2 * 256;
pub const SQLITE_CONSTRAINT_FOREIGNKEY: i32 = SQLITE_CONSTRAINT + 3 * 256;
pub const SQLITE_CONSTRAINT_FUNCTION: i32 = SQLITE_CONSTRAINT + 4 * 256;
pub const SQLITE_CONSTRAINT_NOTNULL: i32 = SQLITE_CONSTRAINT + 5 * 256;
pub const SQLITE_CONSTRAINT_PRIMARYKEY: i32 = SQLITE_CONSTRAINT + 6 * 256;
pub const SQLITE_CONSTRAINT_TRIGGER: i32 = SQLITE_CONSTRAINT + 7 * 256;
pub const SQLITE_CONSTRAINT_UNIQUE: i32 = SQLITE_CONSTRAINT + 8 * 256;
pub const SQLITE_CONSTRAINT_VTAB: i32 = SQLITE_CONSTRAINT + 9 * 256;
pub const SQLITE_CONSTRAINT_ROWID: i32 = SQLITE_CONSTRAINT + 10 * 256;
pub const SQLITE_CONSTRAINT_PINNED: i32 = SQLITE_CONSTRAINT + 11 * 256;
pub const SQLITE_CONSTRAINT_DATATYPE: i32 = SQLITE_CONSTRAINT + 12 * 256;
pub const SQLITE_NOTICE_RECOVER_WAL: i32 = SQLITE_NOTICE + 1 * 256;
pub const SQLITE_NOTICE_RECOVER_ROLLBACK: i32 = SQLITE_NOTICE + 2 * 256;
pub const SQLITE_WARNING_AUTOINDEX: i32 = SQLITE_WARNING + 1 * 256;
pub const SQLITE_AUTH_USER: i32 = SQLITE_AUTH + 1 * 256;
pub const SQLITE_OK_LOAD_PERMANENTLY: i32 = SQLITE_OK + 1 * 256;
pub const SQLITE_OK_SYMLINK: i32 = SQLITE_OK + 2 * 256;

/// The integer the library reports for a null pointer; no SQLite code has it.
pub const NULL_RESULT: i32 = 5000;

/// Each result code stands for SQLite's constant of the same name.
pub proof fn lemma_codes_are_sqlite_constants()
    ensures
            ResultCode::OK.spec_code() == SQLITE_OK,
            ResultCode::ERROR.spec_code() == SQLITE_ERROR,
            ResultCode::INTERNAL.spec_code() == SQLITE_INTERNAL,
            ResultCode::PERM.spec_code() == SQLITE_PERM,
            ResultCode::ABORT.spec_code() == SQLITE_ABORT,
            ResultCode::BUSY.spec_code() == SQLITE_BUSY,
            ResultCode::LOCKED.spec_code() == SQLITE_LOCKED,
            ResultCode::NOMEM.spec_code() == SQLITE_NOMEM,
            ResultCode::READONLY.spec_code() == SQLITE_READONLY,
            ResultCode::INTERRUPT.spec_code() == SQLITE_INTERRUPT,
            ResultCode::IOERR.spec_code() == SQLITE_IOERR,
            ResultCode::CORRUPT.spec_code() == SQLITE_CORRUPT,
            ResultCode::NOTFOUND.spec_code() == SQLITE_NOTFOUND,
            ResultCode::FULL.spec_code() == SQLITE_FULL,
            ResultCode::CANTOPEN.spec_code() == SQLITE_CANTOPEN,
            ResultCode::PROTOCOL.spec_code() == SQLITE_PROTOCOL,
            ResultCode::EMPTY.spec_code() == SQLITE_EMPTY,
            ResultCode::SCHEMA.spec_code() == SQLITE_SCHEMA,
            ResultCode::TOOBIG.spec_code() == SQLITE_TOOBIG,
            ResultCode::CONSTRAINT.spec_code() == SQLITE_CONSTRAINT,
            ResultCode::MISMATCH.spec_code() == SQLITE_MISMATCH,
            ResultCode::MISUSE.spec_code() == SQLITE_MISUSE,
            ResultCode::NOLFS.spec_code() == SQLITE_NOLFS,
            ResultCode::AUTH.spec_code() == SQLITE_AUTH,
            ResultCode::FORMAT.spec_code() == SQLITE_FORMAT,
            ResultCode::RANGE.spec_code() == SQLITE_RANGE,
            ResultCode::NOTADB.spec_code() == SQLITE_NOTADB,
            ResultCode::NOTICE.spec_code() == SQLITE_NOTICE,
            ResultCode::WARNING.spec_code() == SQLITE_WARNING,
            ResultCode::ROW.spec_code() == SQLITE_ROW,
            ResultCode::DONE.spec_code() == SQLITE_DONE,
            ResultCode::ERROR_MISSING_COLLSEQ.spec_code() == SQLITE_ERROR_MISSING_COLLSEQ,
            ResultCode::ERROR_RETRY.spec_code() == SQLITE_ERROR_RETRY,
            ResultCode::ERROR_SNAPSHOT.spec_code() == SQLITE_ERROR_SNAPSHOT,
            ResultCode::IOERR_READ.spec_code() == SQLITE_IOERR_READ,
            ResultCode::IOERR_SHORT_READ.spec_code() == SQLITE_IOERR_SHORT_READ,
            ResultCode::IOERR_WRITE.spec_code() == SQLITE_IOERR_WRITE,
            ResultCode::IOERR_FSYNC.spec_code() == SQLITE_IOERR_FSYNC,
            ResultCode::IOERR_DIR_FSYNC.spec_code() == SQLITE_IOERR_DIR_FSYNC,
            ResultCode::IOERR_TRUNCATE.spec_code() == SQLITE_IOERR_TRUNCATE,
            ResultCode::IOERR_FSTAT.spec_code() == SQLITE_IOERR_FSTAT,
            ResultCode::IOERR_UNLOCK.spec_code() == SQLITE_IOERR_UNLOCK,
            ResultCode::IOERR_RDLOCK.spec_code() == SQLITE_IOERR_RDLOCK,
            ResultCode::IOERR_DELETE.spec_code() == SQLITE_IOERR_DELETE,
            ResultCode::IOERR_BLOCKED.spec_code() == SQLITE_IOERR_BLOCKED,
            ResultCode::IOERR_NOMEM.spec_code() == SQLITE_IOERR_NOMEM,
            ResultCode::IOERR_ACCESS.spec_code() == SQLITE_IOERR_ACCESS,
            ResultCode::IOERR_CHECKRESERVEDLOCK.spec_code() == SQLITE_IOERR_CHECKRESERVEDLOCK,
            ResultCode::IOERR_LOCK.spec_code() == SQLITE_IOERR_LOCK,
            ResultCode::IOERR_CLOSE.spec_code() == SQLITE_IOERR_CLOSE,
            ResultCode::IOERR_DIR_CLOSE.spec_code() == SQLITE_IOERR_DIR_CLOSE,
            ResultCode::IOERR_SHMOPEN.spec_code() == SQLITE_IOERR_SHMOPEN,
            ResultCode::IOERR_SHMSIZE.spec_code() == SQLITE_IOERR_SHMSIZE,
            ResultCode::IOERR_SHMLOCK.spec_code() == SQLITE_IOERR_SHMLOCK,
            ResultCode::IOERR_SHMMAP.spec_code() == SQLITE_IOERR_SHMMAP,
            ResultCode::IOERR_SEEK.spec_code() == SQLITE_IOERR_SEEK,
            ResultCode::IOERR_DELETE_NOENT.spec_code() == SQLITE_IOERR_DELETE_NOENT,
            ResultCode::IOERR_MMAP.spec_code() == SQLITE_IOERR_MMAP,
            ResultCode::IOERR_GETTEMPPATH.spec_code() == SQLITE_IOERR_GETTEMPPATH,
            ResultCode::IOERR_CONVPATH.spec_code() == SQLITE_IOERR_CONVPATH,
            ResultCode::IOERR_VNODE.spec_code() == SQLITE_IOERR_VNODE,
            ResultCode::IOERR_AUTH.spec_code() == SQLITE_IOERR_AUTH,
            ResultCode::IOERR_BEGIN_ATOMIC.spec_code() == SQLITE_IOERR_BEGIN_ATOMIC,
            ResultCode::IOERR_COMMIT_ATOMIC.spec_code() == SQLITE_IOERR_COMMIT_ATOMIC,
            ResultCode::IOERR_ROLLBACK_ATOMIC.spec_code() == SQLITE_IOERR_ROLLBACK_ATOMIC,
            ResultCode::IOERR_DATA.spec_code() == SQLITE_IOERR_DATA,
            ResultCode::IOERR_CORRUPTFS.spec_code() == SQLITE_IOERR_CORRUPTFS,
            ResultCode::LOCKED_SHAREDCACHE.spec_code() == SQLITE_LOCKED_SHAREDCACHE,
            ResultCode::LOCKED_VTAB.spec_code() == SQLITE_LOCKED_VTAB,
            ResultCode::BUSY_RECOVERY.spec_code() == SQLITE_BUSY_RECOVERY,
            ResultCode::BUSY_SNAPSHOT.spec_code() == SQLITE_BUSY_SNAPSHOT,
            ResultCode::BUSY_TIMEOUT.spec_code() == SQLITE_BUSY_TIMEOUT,
            ResultCode::CANTOPEN_NOTEMPDIR.spec_code() == SQLITE_CANTOPEN_NOTEMPDIR,
            ResultCode::CANTOPEN_ISDIR.spec_code() == SQLITE_CANTOPEN_ISDIR,
            ResultCode::CANTOPEN_FULLPATH.spec_code() == SQLITE_CANTOPEN_FULLPATH,
            ResultCode::CANTOPEN_CONVPATH.spec_code() == SQLITE_CANTOPEN_CONVPATH,
            ResultCode::CANTOPEN_DIRTYWAL.spec_code() == SQLITE_CANTOPEN_DIRTYWAL,
            ResultCode::CANTOPEN_SYMLINK.spec_code() == SQLITE_CANTOPEN_SYMLINK,
            ResultCode::CORRUPT_VTAB.spec_code() == SQLITE_CORRUPT_VTAB,
            ResultCode::CORRUPT_SEQUENCE.spec_code() == SQLITE_CORRUPT_SEQUENCE,
            ResultCode::CORRUPT_INDEX.spec_code() == SQLITE_CORRUPT_INDEX,
            ResultCode::READONLY_RECOVERY.spec_code() == SQLITE_READONLY_RECOVERY,
            ResultCode::READONLY_CANTLOCK.spec_code() == SQLITE_READONLY_CANTLOCK,
            ResultCode::READONLY_ROLLBACK.spec_code() == SQLITE_READONLY_ROLLBACK,
            ResultCode::READONLY_DBMOVED.spec_code() == SQLITE_READONLY_DBMOVED,
            ResultCode::READONLY_CANTINIT.spec_code() == SQLITE_READONLY_CANTINIT,
            ResultCode::READONLY_DIRECTORY.spec_code() == SQLITE_READONLY_DIRECTORY,
            ResultCode::ABORT_ROLLBACK.spec_code() == SQLITE_ABORT_ROLLBACK,
            ResultCode::CONSTRAINT_CHECK.spec_code() == SQLITE_CONSTRAINT_CHECK,
            ResultCode::CONSTRAINT_COMMITHOOK.spec_code() == SQLITE_CONSTRAINT_COMMITHOOK,
            ResultCode::CONSTRAINT_FOREIGNKEY.spec_code() == SQLITE_CONSTRAINT_FOREIGNKEY,
            ResultCode::CONSTRAINT_FUNCTION.spec_code() == SQLITE_CONSTRAINT_FUNCTION,
            ResultCode::CONSTRAINT_NOTNULL.spec_code() == SQLITE_CONSTRAINT_NOTNULL,
            ResultCode::CONSTRAINT_PRIMARYKEY.spec_code() == SQLITE_CONSTRAINT_PRIMARYKEY,
            ResultCode::CONSTRAINT_TRIGGER.spec_code() == SQLITE_CONSTRAINT_TRIGGER,
            ResultCode::CONSTRAINT_UNIQUE.spec_code() == SQLITE_CONSTRAINT_UNIQUE,
            ResultCode::CONSTRAINT_VTAB.spec_code() == SQLITE_CONSTRAINT_VTAB,
            ResultCode::CONSTRAINT_ROWID.spec_code() == SQLITE_CONSTRAINT_ROWID,
            ResultCode::CONSTRAINT_PINNED.spec_code() == SQLITE_CONSTRAINT_PINNED,
            ResultCode::CONSTRAINT_DATATYPE.spec_code() == SQLITE_CONSTRAINT_DATATYPE,
            ResultCode::NOTICE_RECOVER_WAL.spec_code() == SQLITE_NOTICE_RECOVER_WAL,
            ResultCode::NOTICE_RECOVER_ROLLBACK.spec_code() == SQLITE_NOTICE_RECOVER_ROLLBACK,
            ResultCode::WARNING_AUTOINDEX.spec_code() == SQLITE_WARNING_AUTOINDEX,
            ResultCode::AUTH_USER.spec_code() == SQLITE_AUTH_USER,
            ResultCode::OK_LOAD_PERMANENTLY.spec_code() == SQLITE_OK_LOAD_PERMANENTLY,
            ResultCode::OK_SYMLINK.spec_code() == SQLITE_OK_SYMLINK,
            ResultCode::NULL.spec_code() == NULL_RESULT,
{
}

/// Each of SQLite's constants decodes to the result code of the same name.
pub proof fn lemma_sqlite_constants_decode()
    ensures
            ResultCode::spec_from_code(SQLITE_OK as int) == Some(ResultCode::OK),
            ResultCode::spec_from_code(SQLITE_ERROR as int) == Some(ResultCode::ERROR),
            ResultCode::spec_from_code(SQLITE_INTERNAL as int) == Some(ResultCode::INTERNAL),
            ResultCode::spec_from_code(SQLITE_PERM as int) == Some(ResultCode::PERM),
            ResultCode::spec_from_code(SQLITE_ABORT as int) == Some(ResultCode::ABORT),
            ResultCode::spec_from_code(SQLITE_BUSY as int) == Some(ResultCode::BUSY),
            ResultCode::spec_from_code(SQLITE_LOCKED as int) == Some(ResultCode::LOCKED),
            ResultCode::spec_from_code(SQLITE_NOMEM as int) == Some(ResultCode::NOMEM),
            ResultCode::spec_from_code(SQLITE_READONLY as int) == Some(ResultCode::READONLY),
            ResultCode::spec_from_code(SQLITE_INTERRUPT as int) == Some(ResultCode::INTERRUPT),
            ResultCode::spec_from_code(SQLITE_IOERR as int) == Some(ResultCode::IOERR),
            ResultCode::spec_from_code(SQLITE_CORRUPT as int) == Some(ResultCode::CORRUPT),
            ResultCode::spec_from_code(SQLITE_NOTFOUND as int) == Some(ResultCode::NOTFOUND),
            ResultCode::spec_from_code(SQLITE_FULL as int) == Some(ResultCode::FULL),
            ResultCode::spec_from_code(SQLITE_CANTOPEN as int) == Some(ResultCode::CANTOPEN),
            ResultCode::spec_from_code(SQLITE_PROTOCOL as int) == Some(ResultCode::PROTOCOL),
            ResultCode::spec_from_code(SQLITE_EMPTY as int) == Some(ResultCode::EMPTY),
            ResultCode::spec_from_code(SQLITE_SCHEMA as int) == Some(ResultCode::SCHEMA),
            ResultCode::spec_from_code(SQLITE_TOOBIG as int) == Some(ResultCode::TOOBIG),
            ResultCode::spec_from_code(SQLITE_CONSTRAINT as int) == Some(ResultCode::CONSTRAINT),
            ResultCode::spec_from_code(SQLITE_MISMATCH as int) == Some(ResultCode::MISMATCH),
            ResultCode::spec_from_code(SQLITE_MISUSE as int) == Some(ResultCode::MISUSE),
            ResultCode::spec_from_code(SQLITE_NOLFS as int) == Some(ResultCode::NOLFS),
            ResultCode::spec_from_code(SQLITE_AUTH as int) == Some(ResultCode::AUTH),
            ResultCode::spec_from_code(SQLITE_FORMAT as int) == Some(ResultCode::FORMAT),
            ResultCode::spec_from_code(SQLITE_RANGE as int) == Some(ResultCode::RANGE),
            ResultCode::spec_from_code(SQLITE_NOTADB as int) == Some(ResultCode::NOTADB),
            ResultCode::spec_from_code(SQLITE_NOTICE as int) == Some(ResultCode::NOTICE),
            ResultCode::spec_from_code(SQLITE_WARNING as int) == Some(ResultCode::WARNING),
            ResultCode::spec_from_code(SQLITE_ROW as int) == Some(ResultCode::ROW),
            ResultCode::spec_from_code(SQLITE_DONE as int) == Some(ResultCode::DONE),
            ResultCode::spec_from_code(SQLITE_ERROR_MISSING_COLLSEQ as int) == Some(ResultCode::ERROR_MISSING_COLLSEQ),
            ResultCode::spec_from_code(SQLITE_ERROR_RETRY as int) == Some(ResultCode::ERROR_RETRY),
            ResultCode::spec_from_code(SQLITE_ERROR_SNAPSHOT as int) == Some(ResultCode::ERROR_SNAPSHOT),
            ResultCode::spec_from_code(SQLITE_IOERR_READ as int) == Some(ResultCode::IOERR_READ),
            ResultCode::spec_from_code(SQLITE_IOERR_SHORT_READ as int) == Some(ResultCode::IOERR_SHORT_READ),
            ResultCode::spec_from_code(SQLITE_IOERR_WRITE as int) == Some(ResultCode::IOERR_WRITE),
            ResultCode::spec_from_code(SQLITE_IOERR_FSYNC as int) == Some(ResultCode::IOERR_FSYNC),
            ResultCode::spec_from_code(SQLITE_IOERR_DIR_FSYNC as int) == Some(ResultCode::IOERR_DIR_FSYNC),
            ResultCode::spec_from_code(SQLITE_IOERR_TRUNCATE as int) == Some(ResultCode::IOERR_TRUNCATE),
            ResultCode::spec_from_code(SQLITE_IOERR_FSTAT as int) == Some(ResultCode::IOERR_FSTAT),
            ResultCode::spec_from_code(SQLITE_IOERR_UNLOCK as int) == Some(ResultCode::IOERR_UNLOCK),
            ResultCode::spec_from_code(SQLITE_IOERR_RDLOCK as int) == Some(ResultCode::IOERR_RDLOCK),
            ResultCode::spec_from_code(SQLITE_IOERR_DELETE as int) == Some(ResultCode::IOERR_DELETE),
            ResultCode::spec_from_code(SQLITE_IOERR_BLOCKED as int) == Some(ResultCode::IOERR_BLOCKED),
            ResultCode::spec_from_code(SQLITE_IOERR_NOMEM as int) == Some(ResultCode::IOERR_NOMEM),
            ResultCode::spec_from_code(SQLITE_IOERR_ACCESS as int) == Some(ResultCode::IOERR_ACCESS),
            ResultCode::spec_from_code(SQLITE_IOERR_CHECKRESERVEDLOCK as int) == Some(ResultCode::IOERR_CHECKRESERVEDLOCK),
            ResultCode::spec_from_code(SQLITE_IOERR_LOCK as int) == Some(ResultCode::IOERR_LOCK),
            ResultCode::spec_from_code(SQLITE_IOERR_CLOSE as int) == Some(ResultCode::IOERR_CLOSE),
            ResultCode::spec_from_code(SQLITE_IOERR_DIR_CLOSE as int) == Some(ResultCode::IOERR_DIR_CLOSE),
            ResultCode::spec_from_code(SQLITE_IOERR_SHMOPEN as int) == Some(ResultCode::IOERR_SHMOPEN),
            ResultCode::spec_from_code(SQLITE_IOERR_SHMSIZE as int) == Some(ResultCode::IOERR_SHMSIZE),
            ResultCode::spec_from_code(SQLITE_IOERR_SHMLOCK as int) == Some(ResultCode::IOERR_SHMLOCK),
            ResultCode::spec_from_code(SQLITE_IOERR_SHMMAP as int) == Some(ResultCode::IOERR_SHMMAP),
            ResultCode::spec_from_code(SQLITE_IOERR_SEEK as int) == Some(ResultCode::IOERR_SEEK),
            ResultCode::spec_from_code(SQLITE_IOERR_DELETE_NOENT as int) == Some(ResultCode::IOERR_DELETE_NOENT),
            ResultCode::spec_from_code(SQLITE_IOERR_MMAP as int) == Some(ResultCode::IOERR_MMAP),
            ResultCode::spec_from_code(SQLITE_IOERR_GETTEMPPATH as int) == Some(ResultCode::IOERR_GETTEMPPATH),
            ResultCode::spec_from_code(SQLITE_IOERR_CONVPATH as int) == Some(ResultCode::IOERR_CONVPATH),
            ResultCode::spec_from_code(SQLITE_IOERR_VNODE as int) == Some(ResultCode::IOERR_VNODE),
            ResultCode::spec_from_code(SQLITE_IOERR_AUTH as int) == Some(ResultCode::IOERR_AUTH),
            ResultCode::spec_from_code(SQLITE_IOERR_BEGIN_ATOMIC as int) == Some(ResultCode::IOERR_BEGIN_ATOMIC),
            ResultCode::spec_from_code(SQLITE_IOERR_COMMIT_ATOMIC as int) == Some(ResultCode::IOERR_COMMIT_ATOMIC),
            ResultCode::spec_from_code(SQLITE_IOERR_ROLLBACK_ATOMIC as int) == Some(ResultCode::IOERR_ROLLBACK_ATOMIC),
            ResultCode::spec_from_code(SQLITE_IOERR_DATA as int) == Some(ResultCode::IOERR_DATA),
            ResultCode::spec_from_code(SQLITE_IOERR_CORRUPTFS as int) == Some(ResultCode::IOERR_CORRUPTFS),
            ResultCode::spec_from_code(SQLITE_LOCKED_SHAREDCACHE as int) == Some(ResultCode::LOCKED_SHAREDCACHE),
            ResultCode::spec_from_code(SQLITE_LOCKED_VTAB as int) == Some(ResultCode::LOCKED_VTAB),
            ResultCode::spec_from_code(SQLITE_BUSY_RECOVERY as int) == Some(ResultCode::BUSY_RECOVERY),
            ResultCode::spec_from_code(SQLITE_BUSY_SNAPSHOT as int) == Some(ResultCode::BUSY_SNAPSHOT),
            ResultCode::spec_from_code(SQLITE_BUSY_TIMEOUT as int) == Some(ResultCode::BUSY_TIMEOUT),
            ResultCode::spec_from_code(SQLITE_CANTOPEN_NOTEMPDIR as int) == Some(ResultCode::CANTOPEN_NOTEMPDIR),
            ResultCode::spec_from_code(SQLITE_CANTOPEN_ISDIR as int) == Some(ResultCode::CANTOPEN_ISDIR),
            ResultCode::spec_from_code(SQLITE_CANTOPEN_FULLPATH as int) == Some(ResultCode::CANTOPEN_FULLPATH),
            ResultCode::spec_from_code(SQLITE_CANTOPEN_CONVPATH as int) == Some(ResultCode::CANTOPEN_CONVPATH),
            ResultCode::spec_from_code(SQLITE_CANTOPEN_DIRTYWAL as int) == Some(ResultCode::CANTOPEN_DIRTYWAL),
            ResultCode::spec_from_code(SQLITE_CANTOPEN_SYMLINK as int) == Some(ResultCode::CANTOPEN_SYMLINK),
            ResultCode::spec_from_code(SQLITE_CORRUPT_VTAB as int) == Some(ResultCode::CORRUPT_VTAB),
            ResultCode::spec_from_code(SQLITE_CORRUPT_SEQUENCE as int) == Some(ResultCode::CORRUPT_SEQUENCE),
            ResultCode::spec_from_code(SQLITE_CORRUPT_INDEX as int) == Some(ResultCode::CORRUPT_INDEX),
            ResultCode::spec_from_code(SQLITE_READONLY_RECOVERY as int) == Some(ResultCode::READONLY_RECOVERY),
            ResultCode::spec_from_code(SQLITE_READONLY_CANTLOCK as int) == Some(ResultCode::READONLY_CANTLOCK),
            ResultCode::spec_from_code(SQLITE_READONLY_ROLLBACK as int) == Some(ResultCode::READONLY_ROLLBACK),
            ResultCode::spec_from_code(SQLITE_READONLY_DBMOVED as int) == Some(ResultCode::READONLY_DBMOVED),
            ResultCode::spec_from_code(SQLITE_READONLY_CANTINIT as int) == Some(ResultCode::READONLY_CANTINIT),
            ResultCode::spec_from_code(SQLITE_READONLY_DIRECTORY as int) == Some(ResultCode::READONLY_DIRECTORY),
            ResultCode::spec_from_code(SQLITE_ABORT_ROLLBACK as int) == Some(ResultCode::ABORT_ROLLBACK),
            ResultCode::spec_from_code(SQLITE_CONSTRAINT_CHECK as int) == Some(ResultCode::CONSTRAINT_CHECK),
            ResultCode::spec_from_code(SQLITE_CONSTRAINT_COMMITHOOK as int) == Some(ResultCode::CONSTRAINT_COMMITHOOK),
            ResultCode::spec_from_code(SQLITE_CONSTRAINT_FOREIGNKEY as int) == Some(ResultCode::CONSTRAINT_FOREIGNKEY),
            ResultCode::spec_from_code(SQLITE_CONSTRAINT_FUNCTION as int) == Some(ResultCode::CONSTRAINT_FUNCTION),
            ResultCode::spec_from_code(SQLITE_CONSTRAINT_NOTNULL as int) == Some(ResultCode::CONSTRAINT_NOTNULL),
            ResultCode::spec_from_code(SQLITE_CONSTRAINT_PRIMARYKEY as int) == Some(ResultCode::CONSTRAINT_PRIMARYKEY),
            ResultCode::spec_from_code(SQLITE_CONSTRAINT_TRIGGER as int) == Some(ResultCode::CONSTRAINT_TRIGGER),
            ResultCode::spec_from_code(SQLITE_CONSTRAINT_UNIQUE as int) == Some(ResultCode::CONSTRAINT_UNIQUE),
            ResultCode::spec_from_code(SQLITE_CONSTRAINT_VTAB as int) == Some(ResultCode::CONSTRAINT_VTAB),
            ResultCode::spec_from_code(SQLITE_CONSTRAINT_ROWID as int) == Some(ResultCode::CONSTRAINT_ROWID),
            ResultCode::spec_from_code(SQLITE_CONSTRAINT_PINNED as int) == Some(ResultCode::CONSTRAINT_PINNED),
            ResultCode::spec_from_code(SQLITE_CONSTRAINT_DATATYPE as int) == Some(ResultCode::CONSTRAINT_DATATYPE),
            ResultCode::spec_from_code(SQLITE_NOTICE_RECOVER_WAL as int) == Some(ResultCode::NOTICE_RECOVER_WAL),
            ResultCode::spec_from_code(SQLITE_NOTICE_RECOVER_ROLLBACK as int) == Some(ResultCode::NOTICE_RECOVER_ROLLBACK),
            ResultCode::spec_from_code(SQLITE_WARNING_AUTOINDEX as int) == Some(ResultCode::WARNING_AUTOINDEX),
            ResultCode::spec_from_code(SQLITE_AUTH_USER as int) == Some(ResultCode::AUTH_USER),
            ResultCode::spec_from_code(SQLITE_OK_LOAD_PERMANENTLY as int) == Some(ResultCode::OK_LOAD_PERMANENTLY),
            ResultCode::spec_from_code(SQLITE_OK_SYMLINK as int) == Some(ResultCode::OK_SYMLINK),
            ResultCode::spec_from_code(NULL_RESULT as int) == Some(ResultCode::NULL),
{
}

} // verus!
