use subversion::{Depth, NativeEOL, Revision, Revnum};

#[test]
fn revnum_from_raw() {
    assert_eq!(Revnum::from_raw(-1), None);
    assert_eq!(Revnum::from_raw(0), Some(Revnum(0)));
    assert_eq!(Revnum::from_raw(17), Some(Revnum(17)));
    assert_eq!(Revnum::from(5u64), Revnum(5));
}

#[test]
fn type_defaults() {
    assert_eq!(Revision::default(), Revision::Unspecified);
    assert_eq!(Depth::default(), Depth::Unknown);
    assert_eq!(NativeEOL::default(), NativeEOL::Standard);
}
