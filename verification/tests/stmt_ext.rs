use sqlite_nostd::extension::{create_function_flags, malloc_request};
use sqlite_nostd::stmt::{column_type, require_non_null, step};
use sqlite_nostd::{register_extension, AllocRequest, ColumnType, ResultCode, INNOCUOUS, OK, UTF8};

#[test]
fn step_codes() {
    assert_eq!(step(100), ResultCode::ROW);
    assert_eq!(step(101), ResultCode::DONE);
    assert_eq!(step(5), ResultCode::BUSY);
    assert_eq!(step(2067), ResultCode::CONSTRAINT_UNIQUE);
}

#[test]
fn column_type_of_codes() {
    assert_eq!(column_type(1), Ok(ColumnType::Integer));
    assert_eq!(column_type(4), Ok(ColumnType::Blob));
    assert_eq!(column_type(0), Err(ResultCode::NULL));
    assert_eq!(column_type(6), Err(ResultCode::NULL));
}

#[test]
fn null_pointers_become_null_errors() {
    let name: &[u8] = b"id";
    assert_eq!(require_non_null(Some(name)), Ok(name));
    assert_eq!(require_non_null::<&[u8]>(None), Err(ResultCode::NULL));
}

#[test]
fn malloc_picks_the_routine_for_the_target() {
    if usize::BITS == 64 {
        assert_eq!(malloc_request(24), AllocRequest::Malloc64(24));
        assert_eq!(malloc_request(usize::MAX), AllocRequest::Malloc64(u64::MAX));
    } else {
        assert_eq!(malloc_request(24), AllocRequest::Malloc(24));
    }
}

#[test]
fn function_flags() {
    assert_eq!(create_function_flags(UTF8), 1);
    assert_eq!(create_function_flags(UTF8 | INNOCUOUS), 0x200001);
    assert_eq!(create_function_flags(i32::MAX as u32), i32::MAX);
}

#[test]
fn extension_constants_and_registration() {
    assert_eq!(OK, 0);
    register_extension();
}
