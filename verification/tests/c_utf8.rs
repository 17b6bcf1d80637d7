use c_utf8::CUtf8;
use c_utf8::CUtf8Buf;
use c_utf8::Error;
use c_utf8::Ext;

#[test]
fn from_text_with_terminator_succeeds() {
    let v = CUtf8::from_str("hello\0").unwrap();
    assert_eq!(v.as_str(), "hello");
    assert_eq!(v.as_bytes(), b"hello");
    assert_eq!(v.as_bytes_with_nul(), b"hello\0");
}

#[test]
fn from_text_without_terminator_fails() {
    assert!(matches!(CUtf8::from_str("hello"), Err(Error::Nul)));
    assert!(matches!(CUtf8::from_str(""), Err(Error::Nul)));
}

#[test]
fn from_bytes_missing_terminator_fails() {
    assert!(matches!(CUtf8::from_bytes(b"hi"), Err(Error::Nul)));
    assert!(matches!(CUtf8::from_bytes(b""), Err(Error::Nul)));
}

#[test]
fn from_bytes_checks_encoding_before_terminator() {
    // Mis-encoded and missing its terminator: the encoding failure wins.
    match CUtf8::from_bytes(&[0x61, 0xFF]) {
        Err(Error::Utf8(e)) => {
            assert_eq!(e.valid_up_to(), 1);
            assert_eq!(e.error_len(), Some(1));
        }
        other => panic!("expected encoding failure, got {:?}", other),
    }
    // Mis-encoded but terminated: still the encoding failure.
    match CUtf8::from_bytes(&[0xFF, 0x00]) {
        Err(Error::Utf8(e)) => {
            assert_eq!(e.valid_up_to(), 0);
            assert_eq!(e.error_len(), Some(1));
        }
        other => panic!("expected encoding failure, got {:?}", other),
    }
    // Truncated multi-byte character: the input ended too early.
    match CUtf8::from_bytes(&[0xC3]) {
        Err(Error::Utf8(e)) => {
            assert_eq!(e.valid_up_to(), 0);
            assert_eq!(e.error_len(), None);
        }
        other => panic!("expected encoding failure, got {:?}", other),
    }
}

#[test]
fn from_bytes_accepts_multibyte_content() {
    let v = CUtf8::from_bytes(b"caf\xC3\xA9\0").unwrap();
    assert_eq!(v.as_str(), "caf\u{e9}");
    assert_eq!(v.len(), 5);
}

#[test]
fn round_trip_view_to_buffer_to_text() {
    let v = CUtf8::from_str("Round\0").unwrap();
    let buf = v.to_owned();
    assert_eq!(buf.into_string(), "Round");
}

#[test]
fn round_trip_empty_view() {
    let v = CUtf8::empty();
    assert_eq!(v.to_owned().into_string(), "");
}

#[test]
fn append_empty_is_identity() {
    let mut buf = CUtf8Buf::from_string(String::from("Hi"));
    let before = buf.as_c_utf8().as_bytes_with_nul().to_vec();
    let len_before = buf.as_c_utf8().len();
    buf.push_str("");
    assert_eq!(buf.as_c_utf8().as_bytes_with_nul(), &before[..]);
    assert_eq!(buf.as_c_utf8().len(), len_before);
}

#[test]
fn emptiness_agrees_with_lengths() {
    let e = CUtf8::empty();
    assert!(e.is_empty());
    assert_eq!(e.len(), 0);
    assert_eq!(e.as_bytes_with_nul().len(), 1);

    let v = CUtf8::from_str("x\0").unwrap();
    assert!(!v.is_empty());
    assert_eq!(v.len(), 1);
    assert_eq!(v.as_bytes_with_nul().len(), 2);
}

#[test]
fn literal_heyo() {
    let v = CUtf8::from_str("Heyo!\0").unwrap();
    assert_eq!(v.as_bytes_with_nul(), &[72, 101, 121, 111, 33, 0]);
    assert_eq!(v.as_str(), "Heyo!");
}

#[test]
fn literal_empty() {
    let v = CUtf8::from_str("\0").unwrap();
    assert_eq!(v.as_bytes_with_nul(), &[0]);
    assert_eq!(v.len(), 0);
    assert!(v.is_empty());
}

#[test]
fn buffer_from_text_appends_terminator() {
    let b = CUtf8Buf::from_string(String::from("Hello"));
    assert_eq!(b.as_c_utf8().as_bytes_with_nul(), &[72, 101, 108, 108, 111, 0]);
}

#[test]
fn buffer_from_terminated_text_adopts_it() {
    let b = CUtf8Buf::from_string(String::from("Hi\0"));
    assert_eq!(b.as_c_utf8().as_bytes_with_nul(), b"Hi\0");
}

#[test]
fn append_keeps_exactly_one_terminator() {
    let mut b = CUtf8Buf::from_string(String::from("Hi"));
    b.push_str("!");
    let bytes = b.as_c_utf8().as_bytes_with_nul().to_vec();
    assert_eq!(bytes, b"Hi!\0".to_vec());
    assert_eq!(bytes.iter().filter(|&&x| x == 0).count(), 1);
}

#[test]
fn push_appends_one_character() {
    let mut b = CUtf8Buf::new();
    b.push('\u{e9}');
    assert_eq!(b.clone().into_string(), "\u{e9}");
    assert_eq!(b.into_bytes(), vec![0xC3, 0xA9]);
}

#[test]
fn into_bytes_drops_terminator() {
    let b = CUtf8Buf::from_string(String::from("abc"));
    assert_eq!(b.into_bytes(), b"abc".to_vec());
}

#[test]
fn equality_follows_stored_bytes() {
    let a = CUtf8::from_str("ab\0").unwrap();
    let b = CUtf8::from_str("ab\0").unwrap();
    let c = CUtf8::from_str("ac\0").unwrap();
    assert!(a == b);
    assert!(a != c);
    assert!(a.to_owned() == b.to_owned());
    assert!(a.to_owned() != c.to_owned());
}

#[test]
fn ordering_follows_stored_bytes() {
    let a = CUtf8::from_str("ab\0").unwrap();
    let c = CUtf8::from_str("ac\0").unwrap();
    let p = CUtf8::from_str("a\0").unwrap();
    assert!(a < c);
    assert!(p < a);
    assert_eq!(
        a.partial_cmp(&c),
        a.as_bytes_with_nul().partial_cmp(c.as_bytes_with_nul())
    );
    assert_eq!(
        p.partial_cmp(&a),
        p.as_bytes_with_nul().partial_cmp(a.as_bytes_with_nul())
    );
    assert!(p.to_owned() < a.to_owned());
    assert!(a.to_owned() < c.to_owned());
}

#[test]
fn unchecked_constructors_adopt_storage() {
    let v = CUtf8::from_str_unchecked("ok\0");
    assert_eq!(v.as_str(), "ok");
    assert_eq!(v.as_str_with_nul(), "ok\0");

    let w = CUtf8::from_bytes_unchecked(b"ok\0");
    assert_eq!(w.as_str_with_nul(), "ok\0");

    let b = CUtf8Buf::from_string_unchecked(String::from("ok\0"));
    assert_eq!(b.into_string(), "ok");
}

#[test]
fn ext_detects_terminator() {
    assert!("x\0".is_nul_terminated());
    assert!(!"x".is_nul_terminated());
    assert!(!"".is_nul_terminated());
    assert!(b"x\0"[..].is_nul_terminated());
    assert!(!b"x"[..].is_nul_terminated());
    assert!(!b""[..].is_nul_terminated());
}

#[test]
fn len_counts_bytes_not_characters() {
    let v = CUtf8::from_str("\u{e9}\0").unwrap();
    assert_eq!(v.len(), 2);
    assert_eq!(v.as_str(), "\u{e9}");
}

#[test]
fn interior_nul_is_accepted_by_the_terminator_check() {
    // Only the final byte is checked; an interior nul is a documented
    // hazard for C consumers, not a construction failure.
    let v = CUtf8::from_str("a\0b\0").unwrap();
    assert_eq!(v.len(), 3);
    assert_eq!(v.as_bytes_with_nul(), &[97, 0, 98, 0]);
}

#[test]
fn default_buffer_is_empty() {
    let d: CUtf8Buf = Default::default();
    assert!(d.as_c_utf8().is_empty());
    assert_eq!(d.into_string(), "");
}

#[test]
fn buffer_growth_sequence() {
    let mut b = CUtf8Buf::new();
    b.push_str("one");
    b.push(' ');
    b.push_str("two");
    assert_eq!(b.as_c_utf8().as_str(), "one two");
    assert_eq!(b.as_c_utf8().as_bytes_with_nul(), b"one two\0");
    assert_eq!(b.into_string(), "one two");
}

#[test]
fn buffer_from_empty_text_is_empty() {
    let b = CUtf8Buf::from_string(String::new());
    assert!(b.as_c_utf8().is_empty());
    assert_eq!(b.as_c_utf8().as_bytes_with_nul(), &[0]);
}

#[test]
fn error_converts_from_diagnostic() {
    let e = match CUtf8::from_bytes(&[0xFF, 0x00]) {
        Err(Error::Utf8(u)) => Error::from(u),
        other => panic!("expected encoding failure, got {:?}", other),
    };
    assert!(matches!(e, Error::Utf8(u) if u.valid_up_to() == 0));
}
