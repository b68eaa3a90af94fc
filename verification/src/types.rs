//! Basic Subversion value types: revision numbers, revision specifiers,
//! depths, node kinds and end-of-line styles.

use vstd::prelude::*;

verus! {

/// A revision number in a repository.
#[derive(Debug, Clone, Copy, PartialEq, Eq, Hash, Structural)]
pub struct Revnum(pub i64);

impl Revnum {
    /// Creates a revision number from its raw value; negative values (such
    /// as the "invalid revision" marker) give `None`.
    pub fn from_raw(raw: i64) -> (r: Option<Revnum>)
        ensures
            raw < 0 ==> r is None,
            raw >= 0 ==> r == Some(Revnum(raw)),
    {
        if raw < 0 {
            None
        } else {
            Some(Revnum(raw))
        }
    }
}

impl From<u64> for Revnum {
    fn from(revnum: u64) -> (r: Revnum) {
        Revnum(revnum as i64)
    }
}

impl vstd::std_specs::convert::FromSpecImpl<u64> for Revnum {
    open spec fn obeys_from_spec() -> bool {
        true
    }

    open spec fn from_spec(revnum: u64) -> Revnum {
        Revnum(revnum as i64)
    }
}

/// A revision specifier, as given to an operation.
#[derive(Debug, Clone, Copy, PartialEq, Eq, Hash, Structural)]
pub enum Revision {
    /// No revision given.
    Unspecified,
    /// A revision number.
    Number(Revnum),
    /// The revision in effect at a date (microseconds since the epoch).
    Date(i64),
    /// The last revision in which the item changed.
    Committed,
    /// The revision before the committed one.
    Previous,
    /// The base revision of the working copy.
    Base,
    /// The working copy contents.
    Working,
    /// The latest revision in the repository.
    Head,
}

impl Default for Revision {
    fn default() -> (r: Self)
        ensures
            r == Revision::Unspecified,
    {
        Revision::Unspecified
    }
}

/// The depth of an operation.
#[derive(Debug, Clone, Copy, PartialEq, Eq, Hash, Structural)]
pub enum Depth {
    /// Depth undetermined or ignored.
    Unknown,
    /// Exclude (i.e. don't descend into) the directory.
    Exclude,
    /// Just the named directory, without its entries.
    Empty,
    /// The directory and its file children.
    Files,
    /// The directory and its immediate children.
    Immediates,
    /// The directory and all its descendants.
    Infinity,
}

impl Default for Depth {
    fn default() -> (r: Self)
        ensures
            r == Depth::Unknown,
    {
        Depth::Unknown
    }
}

/// The kind of a node.
#[derive(Debug, Clone, Copy, PartialEq, Eq, Hash, Structural)]
pub enum NodeKind {
    /// No node is there.
    Absent,
    /// A regular file.
    File,
    /// A directory.
    Dir,
    /// Something Subversion cannot identify.
    Unknown,
    /// A symbolic link.
    Symlink,
}

/// The end-of-line style to write.
#[derive(Debug, Clone, Copy, PartialEq, Eq, Hash, Structural)]
pub enum NativeEOL {
    /// The platform's native style.
    Standard,
    /// Line feed.
    LF,
    /// Carriage return and line feed.
    CRLF,
    /// Carriage return.
    CR,
}

impl Default for NativeEOL {
    fn default() -> (r: Self)
        ensures
            r == NativeEOL::Standard,
    {
        NativeEOL::Standard
    }
}

} // verus!
