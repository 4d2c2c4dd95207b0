use pyembed::native_string::bytes_equal;
use pyembed::native_string::find_nul;
use pyembed::NativeString;
use pyembed::NulError;

#[test]
fn find_nul_reports_first_of_several() {
    assert_eq!(find_nul(b"ab\0cd\0"), Some(2));
    assert_eq!(find_nul(b"\0"), Some(0));
    assert_eq!(find_nul(b"abc\0"), Some(3));
}

#[test]
fn find_nul_finds_none_in_clean_bytes() {
    assert_eq!(find_nul(b""), None);
    assert_eq!(find_nul(b"plain"), None);
    assert_eq!(find_nul(&[1u8, 255, 128]), None);
}

#[test]
fn bytes_equal_compares_content() {
    assert!(bytes_equal(b"", b""));
    assert!(bytes_equal(b"abc", b"abc"));
    assert!(!bytes_equal(b"abc", b"abd"));
    assert!(!bytes_equal(b"abc", b"ab"));
    assert!(!bytes_equal(b"ab", b"abc"));
}

#[test]
fn from_bytes_keeps_content_and_adds_terminator() {
    let s = NativeString::from_bytes(b"hello").unwrap();
    assert_eq!(s.as_bytes(), b"hello");
    assert_eq!(s.as_bytes_with_nul(), b"hello\0");
    assert_eq!(s.len(), 5);
    assert!(!s.is_empty());
}

#[test]
fn from_bytes_of_nothing_is_the_empty_string() {
    let s = NativeString::from_bytes(b"").unwrap();
    assert_eq!(s.as_bytes(), b"");
    assert_eq!(s.as_bytes_with_nul(), b"\0");
    assert_eq!(s.len(), 0);
    assert!(s.is_empty());
}

#[test]
fn from_bytes_rejects_nul_with_first_position() {
    assert_eq!(NativeString::from_bytes(b"a\0b\0").unwrap_err(), NulError { nul_position: 1 });
    assert_eq!(NativeString::from_bytes(b"\0").unwrap_err(), NulError { nul_position: 0 });
    assert_eq!(NativeString::from_bytes(b"tail\0").unwrap_err(), NulError { nul_position: 4 });
}

#[test]
fn new_encodes_text_as_utf8() {
    let s = NativeString::new("päth").unwrap();
    assert_eq!(s.as_bytes(), "päth".as_bytes());
    assert_eq!(s.len(), 5);
    assert_eq!(s.as_bytes_with_nul(), &[b'p', 0xC3, 0xA4, b't', b'h', 0]);
}

#[test]
fn new_rejects_nul_character_at_its_byte_offset() {
    // 'ä' takes two bytes, so the NUL stands at byte 3.
    assert_eq!(NativeString::new("aä\0b").unwrap_err(), NulError { nul_position: 3 });
}

#[test]
fn to_str_reads_text_back() {
    for text in ["", "plain", "/tmp/run.py", "päth/ünï/代码.py", "🐍"] {
        let s = NativeString::new(text).unwrap();
        assert_eq!(s.to_str(), Some(text));
    }
}

#[test]
fn to_str_is_none_for_bytes_that_are_not_utf8() {
    let s = NativeString::from_bytes(&[b'a', 0xFF, b'b']).unwrap();
    assert_eq!(s.to_str(), None);
    let truncated = NativeString::from_bytes(&[0xC3]).unwrap();
    assert_eq!(truncated.to_str(), None);
    let surrogate = NativeString::from_bytes(&[0xED, 0xA0, 0x80]).unwrap();
    assert_eq!(surrogate.to_str(), None);
}

#[test]
fn clone_holds_the_same_bytes() {
    let s = NativeString::new("module").unwrap();
    let copy = s.clone();
    assert_eq!(copy.as_bytes_with_nul(), s.as_bytes_with_nul());
    assert!(copy.same_bytes(&s));
}

#[test]
fn same_bytes_tells_strings_apart() {
    let a = NativeString::new("alpha").unwrap();
    let b = NativeString::new("alpha").unwrap();
    let c = NativeString::new("alphb").unwrap();
    let d = NativeString::new("alph").unwrap();
    assert!(a.same_bytes(&b));
    assert!(!a.same_bytes(&c));
    assert!(!a.same_bytes(&d));
}
