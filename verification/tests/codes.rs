use sqlite_nostd::{ColumnType, ResultCode};

#[test]
fn primary_codes_have_sqlite_values() {
    assert_eq!(ResultCode::OK.code(), 0);
    assert_eq!(ResultCode::ERROR.code(), 1);
    assert_eq!(ResultCode::BUSY.code(), 5);
    assert_eq!(ResultCode::WARNING.code(), 28);
    assert_eq!(ResultCode::ROW.code(), 100);
    assert_eq!(ResultCode::DONE.code(), 101);
    assert_eq!(ResultCode::NULL.code(), 5000);
}

#[test]
fn extended_codes_have_sqlite_values() {
    assert_eq!(ResultCode::ERROR_MISSING_COLLSEQ.code(), 257);
    assert_eq!(ResultCode::IOERR_READ.code(), 266);
    assert_eq!(ResultCode::IOERR_CORRUPTFS.code(), 8458);
    assert_eq!(ResultCode::CANTOPEN_SYMLINK.code(), 1550);
    assert_eq!(ResultCode::CONSTRAINT_UNIQUE.code(), 2067);
    assert_eq!(ResultCode::CONSTRAINT_DATATYPE.code(), 3091);
    assert_eq!(ResultCode::OK_LOAD_PERMANENTLY.code(), 256);
    assert_eq!(ResultCode::OK_SYMLINK.code(), 512);
}

#[test]
fn from_i32_decodes_known_codes() {
    assert_eq!(ResultCode::from_i32(0), Some(ResultCode::OK));
    assert_eq!(ResultCode::from_i32(19), Some(ResultCode::CONSTRAINT));
    assert_eq!(ResultCode::from_i32(1555), Some(ResultCode::CONSTRAINT_PRIMARYKEY));
    assert_eq!(ResultCode::from_i32(5000), Some(ResultCode::NULL));
    assert_eq!(ResultCode::from_i64(101), Some(ResultCode::DONE));
    assert_eq!(ResultCode::from_u64(100), Some(ResultCode::ROW));
}

#[test]
fn from_i32_rejects_unknown_codes() {
    assert_eq!(ResultCode::from_i32(29), None);
    assert_eq!(ResultCode::from_i32(-1), None);
    assert_eq!(ResultCode::from_i32(99), None);
    assert_eq!(ResultCode::from_i64(i64::MIN), None);
    assert_eq!(ResultCode::from_u64(u64::MAX), None);
    assert_eq!(ResultCode::from_u64(5001), None);
}

#[test]
fn code_round_trips_through_from_i32() {
    let all = [
        ResultCode::OK,
        ResultCode::MISUSE,
        ResultCode::IOERR_SHMMAP,
        ResultCode::BUSY_TIMEOUT,
        ResultCode::READONLY_DIRECTORY,
        ResultCode::ABORT_ROLLBACK,
        ResultCode::NOTICE_RECOVER_ROLLBACK,
        ResultCode::WARNING_AUTOINDEX,
        ResultCode::AUTH_USER,
        ResultCode::NULL,
    ];
    for rc in all {
        assert_eq!(ResultCode::from_i32(rc.code()), Some(rc));
    }
}

#[test]
fn column_types_have_sqlite_values() {
    assert_eq!(ColumnType::Integer.code(), 1);
    assert_eq!(ColumnType::Float.code(), 2);
    assert_eq!(ColumnType::Text.code(), 3);
    assert_eq!(ColumnType::Blob.code(), 4);
    assert_eq!(ColumnType::Null.code(), 5);
}

#[test]
fn column_type_from_i32() {
    assert_eq!(ColumnType::from_i32(3), Some(ColumnType::Text));
    assert_eq!(ColumnType::from_i32(0), None);
    assert_eq!(ColumnType::from_i32(6), None);
    assert_eq!(ColumnType::from_i64(5), Some(ColumnType::Null));
    assert_eq!(ColumnType::from_u64(1), Some(ColumnType::Integer));
    assert_eq!(ColumnType::from_u64(7), None);
    for t in [ColumnType::Integer, ColumnType::Float, ColumnType::Text, ColumnType::Blob, ColumnType::Null] {
        assert_eq!(ColumnType::from_i32(t.code()), Some(t));
    }
}
