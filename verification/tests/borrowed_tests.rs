use subversion::borrowed::{BStr, BStrUtf8, LogEntryBorrowed};
use subversion::Revnum;

#[test]
fn bstr_views_bytes() {
    let data = b"hello";
    let s = BStr::new(data);
    assert_eq!(s.as_bytes(), b"hello");
    assert_eq!(s.len(), 5);
    assert!(!s.is_empty());
    assert_eq!(s.to_str().unwrap(), "hello");
    assert_eq!(s.to_str_lossy(), "hello");
    let e = BStr::new(b"");
    assert!(e.is_empty());
    assert_eq!(e.len(), 0);
}

#[test]
fn bstr_invalid_utf8() {
    let data: &[u8] = &[b'a', 0xff, b'b'];
    let s = BStr::new(data);
    assert!(s.to_str().is_err());
    assert_eq!(s.to_str_lossy(), "a\u{FFFD}b");
}

#[test]
fn bstr_utf8_validates() {
    assert!(BStrUtf8::new(&[0xc3, 0x28]).is_none());
    let s = BStrUtf8::new("héllo".as_bytes()).unwrap();
    assert_eq!(s.as_str(), "héllo");
    assert_eq!(s.len(), 6);
    assert!(!s.is_empty());
    let t = BStrUtf8::from_str("");
    assert!(t.is_empty());
    assert_eq!(t.len(), 0);
}

#[test]
fn log_entry_from_raw_parts() {
    let e = LogEntryBorrowed::from_raw_parts(42, 1);
    assert_eq!(e.revision, Revnum(42));
    assert!(e.has_children);
    assert!(e.author.is_none() && e.date.is_none() && e.message.is_none() && e.changed_paths.is_none());
    assert!(!LogEntryBorrowed::from_raw_parts(1, 0).has_children);
}
