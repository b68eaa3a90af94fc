//! Zero-copy borrowed views of string data.
//!
//! The types in this module borrow their data instead of copying it; they
//! cannot outlive what they borrow from.

use std::borrow::Cow;
use std::marker::PhantomData;
use std::str::Utf8Error;

use vstd::prelude::*;
use vstd::utf8::{decode_utf8, encode_utf8, valid_utf8};

use crate::types::{NodeKind, Revnum};

verus! {

/// The error that `std::str::from_utf8` returns for invalid UTF-8.
#[verifier::external_type_specification]
#[verifier::external_body]
pub struct ExUtf8Error(Utf8Error);

/// What `String::from_utf8_lossy` makes of a byte sequence: its UTF-8
/// decoding, with each invalid part replaced by U+FFFD.
pub uninterp spec fn lossy_utf8_decode(bytes: Seq<u8>) -> Seq<char>;

/// Calls `std::str::from_utf8`, which, as its documentation says, gives the
/// bytes as a string slice when they are valid UTF-8 and an error when they
/// are not.
#[verifier::external_body]
fn str_from_utf8<'a>(v: &'a [u8]) -> (r: Result<&'a str, Utf8Error>)
    ensures
        r is Ok <==> valid_utf8(v@),
        r matches Ok(s) ==> s@ == decode_utf8(v@),
{
    std::str::from_utf8(v)
}

/// Calls `String::from_utf8_lossy`, which converts bytes to a string,
/// replacing invalid UTF-8 sequences with U+FFFD; as its documentation says,
/// valid UTF-8 comes back unchanged. What it makes of invalid input is left
/// to the name `lossy_utf8_decode`.
#[verifier::external_body]
fn string_from_utf8_lossy<'a>(v: &'a [u8]) -> (r: Cow<'a, str>)
    ensures
        r@ == lossy_utf8_decode(v@),
        valid_utf8(v@) ==> r@ == decode_utf8(v@),
{
    String::from_utf8_lossy(v)
}

/// A borrowed byte string.
///
/// This type provides a zero-copy view of string data owned elsewhere.
#[derive(Clone, Copy)]
pub struct BStr<'pool> {
    data: &'pool [u8],
}

impl<'pool> View for BStr<'pool> {
    type V = Seq<u8>;

    closed spec fn view(&self) -> Seq<u8> {
        self.data@
    }
}

impl<'pool> BStr<'pool> {
    /// Create a new borrowed string from bytes.
    pub fn new(data: &'pool [u8]) -> (r: Self)
        ensures
            r@ == data@,
    {
        BStr { data }
    }

    /// Get the underlying bytes.
    pub fn as_bytes(&self) -> (r: &'pool [u8])
        ensures
            r@ == self@,
    {
        self.data
    }

    /// Try to convert to a UTF-8 string slice: succeeds exactly when the
    /// bytes are valid UTF-8.
    pub fn to_str(&self) -> (r: Result<&'pool str, Utf8Error>)
        ensures
            r is Ok <==> valid_utf8(self@),
            r matches Ok(s) ==> s@ == decode_utf8(self@),
    {
        str_from_utf8(self.data)
    }

    /// Convert to a UTF-8 string with lossy conversion.
    pub fn to_str_lossy(&self) -> (r: Cow<'pool, str>)
        ensures
            r@ == lossy_utf8_decode(self@),
            valid_utf8(self@) ==> r@ == decode_utf8(self@),
    {
        string_from_utf8_lossy(self.data)
    }

    /// Get the length in bytes.
    pub fn len(&self) -> (r: usize)
        ensures
            r == self@.len(),
    {
        self.data.len()
    }

    /// Check if empty.
    pub fn is_empty(&self) -> (r: bool)
        ensures
            r <==> self@.len() == 0,
    {
        self.data.len() == 0
    }
}

/// A borrowed UTF-8 string.
///
/// This is like `BStr` but guarantees valid UTF-8.
#[derive(Clone, Copy)]
pub struct BStrUtf8<'pool> {
    data: &'pool str,
}

impl<'pool> View for BStrUtf8<'pool> {
    type V = Seq<char>;

    closed spec fn view(&self) -> Seq<char> {
        self.data@
    }
}

impl<'pool> BStrUtf8<'pool> {
    /// Create a new borrowed UTF-8 string.
    ///
    /// Returns None if the bytes are not valid UTF-8.
    pub fn new(data: &'pool [u8]) -> (r: Option<Self>)
        ensures
            r is Some <==> valid_utf8(data@),
            r matches Some(s) ==> s@ == decode_utf8(data@),
    {
        match str_from_utf8(data) {
            Ok(s) => Some(BStrUtf8 { data: s }),
            Err(_) => None,
        }
    }

    /// Create from a string slice.
    pub fn from_str(s: &'pool str) -> (r: Self)
        ensures
            r@ == s@,
    {
        BStrUtf8 { data: s }
    }

    /// Get the underlying string slice.
    pub fn as_str(&self) -> (r: &'pool str)
        ensures
            r@ == self@,
    {
        self.data
    }

    /// Get the length in bytes.
    pub fn len(&self) -> (r: usize)
        ensures
            r == encode_utf8(self@).len() as usize,
    {
        self.data.len()
    }

    /// Check if empty.
    pub fn is_empty(&self) -> (r: bool)
        ensures
            r <==> self@.len() == 0,
    {
        self.data.is_empty()
    }
}

/// A borrowed log entry that references data owned elsewhere.
pub struct LogEntryBorrowed<'pool> {
    /// The revision number
    pub revision: Revnum,
    /// The author (may not be UTF-8)
    pub author: Option<BStr<'pool>>,
    /// The date as microseconds since epoch
    pub date: Option<i64>,
    /// The log message (may not be UTF-8)
    pub message: Option<BStr<'pool>>,
    /// Changed paths
    pub changed_paths: Option<ChangedPathsBorrowed<'pool>>,
    /// Whether this revision has children
    pub has_children: bool,
}

/// Borrowed changed paths information.
pub struct ChangedPathsBorrowed<'pool> {
    _phantom: PhantomData<&'pool ()>,
}

/// A borrowed directory entry.
pub struct DirEntryBorrowed<'pool> {
    /// The entry name
    pub name: BStrUtf8<'pool>,
    /// The node kind
    pub kind: NodeKind,
    /// The size in bytes (files only)
    pub size: Option<u64>,
    /// Whether the entry has properties
    pub has_props: bool,
    /// The revision this entry was created
    pub created_rev: Revnum,
    /// The last modification time as microseconds since epoch
    pub time: Option<i64>,
    /// The last author
    pub last_author: Option<BStr<'pool>>,
}

impl<'pool> LogEntryBorrowed<'pool> {
    /// Makes a borrowed log entry from the raw revision number and
    /// has-children flag of a Subversion log entry. Author, date, message
    /// and changed paths are not taken over.
    pub fn from_raw_parts(revision: i64, has_children: i32) -> (r: Self)
        ensures
            r.revision == Revnum(revision),
            r.has_children == (has_children != 0),
            r.author is None,
            r.date is None,
            r.message is None,
            r.changed_paths is None,
    {
        LogEntryBorrowed {
            revision: Revnum(revision),
            author: None,
            date: None,
            message: None,
            changed_paths: None,
            has_children: has_children != 0,
        }
    }
}

} // verus!
