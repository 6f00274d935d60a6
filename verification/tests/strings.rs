use sqlite_nostd::cstring::CString;
use sqlite_nostd::strdyn;

#[test]
fn strdyn_keeps_the_text_and_adds_a_terminator() {
    let c = strdyn("testit").unwrap();
    assert_eq!(c.as_bytes(), b"testit");
    assert_eq!(c.as_bytes_with_nul(), b"testit\0");
    assert_eq!(c.into_bytes(), b"testit".to_vec());
}

#[test]
fn strdyn_of_empty_text() {
    let c = strdyn("").unwrap();
    assert_eq!(c.as_bytes(), b"");
    assert_eq!(c.as_bytes_with_nul(), b"\0");
}

#[test]
fn strdyn_rejects_an_interior_nul() {
    let e = strdyn("ab\0cd\0").unwrap_err();
    assert_eq!(e.nul_position(), 2);
    assert_eq!(e.into_vec(), b"ab\0cd\0".to_vec());
}

#[test]
fn strdyn_rejects_a_leading_nul() {
    let e = strdyn("\0").unwrap_err();
    assert_eq!(e.nul_position(), 0);
}

#[test]
fn cstring_new_from_bytes() {
    let c = CString::new(&[0xe2, 0x82, 0xac]).unwrap();
    assert_eq!(c.as_bytes_with_nul(), &[0xe2, 0x82, 0xac, 0]);
    let e = CString::new(&[1, 2, 0]).unwrap_err();
    assert_eq!(e.nul_position(), 2);
}

#[test]
fn terminated_bytes_read_back_up_to_the_nul() {
    let c = strdyn("hello").unwrap();
    let buf = c.as_bytes_with_nul();
    let end = buf.iter().position(|b| *b == 0).unwrap();
    assert_eq!(&buf[..end], b"hello");
    assert_eq!(end, buf.len() - 1);
}
