use sqlite_nostd::result::{
    length_arg, result_blob, result_blob_owned, result_blob_shared, result_blob_static,
    result_error, result_text_owned, result_text_shared, result_text_static, TRANSIENT_ARG,
};
use sqlite_nostd::{Destructor, ResultArgs};

#[test]
fn destructor_arguments() {
    assert_eq!(Destructor::TRANSIENT.xdel(), Some(-1));
    assert_eq!(TRANSIENT_ARG, -1);
    assert_eq!(Destructor::STATIC.xdel(), None);
    assert_eq!(Destructor::CUSTOM(0x1000).xdel(), Some(0x1000));
}

#[test]
fn length_arg_cuts_to_an_int() {
    assert_eq!(length_arg(0), 0);
    assert_eq!(length_arg(11), 11);
    assert_eq!(length_arg(i32::MAX as usize), i32::MAX);
    assert_eq!(length_arg(1usize << 31), i32::MIN);
    assert_eq!(length_arg(usize::MAX), -1);
}

#[test]
fn text_results() {
    assert_eq!(
        result_text_owned("ello mate!", 42),
        ResultArgs { len: 10, destructor: Destructor::CUSTOM(42) }
    );
    assert_eq!(
        result_text_shared("Hello, world!"),
        ResultArgs { len: 13, destructor: Destructor::TRANSIENT }
    );
    assert_eq!(
        result_text_static("Hello, world!"),
        ResultArgs { len: 13, destructor: Destructor::STATIC }
    );
    // lengths are in bytes, not characters
    assert_eq!(result_text_shared("\u{20ac}").len, 3);
}

#[test]
fn blob_results() {
    let blob = [1u8, 2, 3, 4];
    assert_eq!(
        result_blob_owned(&blob, 7),
        ResultArgs { len: 4, destructor: Destructor::CUSTOM(7) }
    );
    assert_eq!(
        result_blob_shared(&blob),
        ResultArgs { len: 4, destructor: Destructor::TRANSIENT }
    );
    assert_eq!(result_blob_static(&[]), ResultArgs { len: 0, destructor: Destructor::STATIC });
    assert_eq!(
        result_blob(&blob[..2], Destructor::STATIC),
        ResultArgs { len: 2, destructor: Destructor::STATIC }
    );
}

#[test]
fn error_results() {
    let a = result_error("no such table").unwrap();
    assert_eq!(a.len, 13);
    assert_eq!(a.message.as_bytes_with_nul(), b"no such table\0");
    let e = result_error("bad\0text").unwrap_err();
    assert_eq!(e.nul_position(), 3);
}
