//! Options for diffing files and strings.

use vstd::prelude::*;

verus! {

/// Options for diff operations
#[derive(Debug, Clone, Copy)]
pub struct DiffOptions {
    /// Ignore changes in whitespace
    pub ignore_whitespace: bool,
    /// Ignore changes in end-of-line style
    pub ignore_eol_style: bool,
    /// Show context around changes
    pub show_c_function: bool,
}

impl Default for DiffOptions {
    fn default() -> (r: Self)
        ensures
            r == (DiffOptions { ignore_whitespace: false, ignore_eol_style: false, show_c_function: false }),
    {
        DiffOptions { ignore_whitespace: false, ignore_eol_style: false, show_c_function: false }
    }
}

impl DiffOptions {
    /// Creates options with every setting off.
    pub fn new() -> (r: Self)
        ensures
            r == (DiffOptions { ignore_whitespace: false, ignore_eol_style: false, show_c_function: false }),
    {
        Self::default()
    }

    /// Sets whether to ignore changes in whitespace.
    pub fn with_ignore_whitespace(self, ignore: bool) -> (r: Self)
        ensures
            r == (DiffOptions { ignore_whitespace: ignore, ..self }),
    {
        let mut s = self;
        s.ignore_whitespace = ignore;
        s
    }

    /// Sets whether to ignore changes in end-of-line style.
    pub fn with_ignore_eol_style(self, ignore: bool) -> (r: Self)
        ensures
            r == (DiffOptions { ignore_eol_style: ignore, ..self }),
    {
        let mut s = self;
        s.ignore_eol_style = ignore;
        s
    }

    /// Sets whether to show the enclosing C function of each change.
    pub fn with_show_c_function(self, show: bool) -> (r: Self)
        ensures
            r == (DiffOptions { show_c_function: show, ..self }),
    {
        let mut s = self;
        s.show_c_function = show;
        s
    }
}

/// Types of whitespace ignoring
#[derive(Debug, Clone, Copy, PartialEq, Eq, Structural)]
pub enum IgnoreSpace {
    /// Don't ignore any whitespace
    Off,
    /// Ignore changes in whitespace
    Change,
    /// Ignore all whitespace
    All,
}

impl Default for IgnoreSpace {
    fn default() -> (r: Self)
        ensures
            r == IgnoreSpace::Off,
    {
        IgnoreSpace::Off
    }
}

/// The raw value that Subversion's file-diff options take for "ignore no whitespace".
pub const SVN_DIFF_FILE_IGNORE_SPACE_NONE: u32 = 0;

/// The raw value for "ignore changes in whitespace".
pub const SVN_DIFF_FILE_IGNORE_SPACE_CHANGE: u32 = 1;

/// The raw value for "ignore all whitespace".
pub const SVN_DIFF_FILE_IGNORE_SPACE_ALL: u32 = 2;

/// The raw value of a whitespace-ignoring mode.
pub open spec fn spec_ignore_space_raw(ignore: IgnoreSpace) -> u32 {
    match ignore {
        IgnoreSpace::Off => SVN_DIFF_FILE_IGNORE_SPACE_NONE,
        IgnoreSpace::Change => SVN_DIFF_FILE_IGNORE_SPACE_CHANGE,
        IgnoreSpace::All => SVN_DIFF_FILE_IGNORE_SPACE_ALL,
    }
}

impl From<IgnoreSpace> for u32 {
    fn from(ignore: IgnoreSpace) -> (r: u32) {
        match ignore {
            IgnoreSpace::Off => SVN_DIFF_FILE_IGNORE_SPACE_NONE,
            IgnoreSpace::Change => SVN_DIFF_FILE_IGNORE_SPACE_CHANGE,
            IgnoreSpace::All => SVN_DIFF_FILE_IGNORE_SPACE_ALL,
        }
    }
}

impl vstd::std_specs::convert::FromSpecImpl<IgnoreSpace> for u32 {
    open spec fn obeys_from_spec() -> bool {
        true
    }

    open spec fn from_spec(ignore: IgnoreSpace) -> u32 {
        spec_ignore_space_raw(ignore)
    }
}

/// The whitespace modes follow Subversion's numbering: ignoring none is
/// 0, ignoring changes in the amount of whitespace 1, ignoring all
/// whitespace 2; no two modes share a raw value.
pub proof fn lemma_ignore_space_raw(a: IgnoreSpace, b: IgnoreSpace)
    ensures
        spec_ignore_space_raw(a) == spec_ignore_space_raw(b) <==> a == b,
        a == IgnoreSpace::Off <==> spec_ignore_space_raw(a) == 0,
        a == IgnoreSpace::Change <==> spec_ignore_space_raw(a) == 1,
        a == IgnoreSpace::All <==> spec_ignore_space_raw(a) == 2,
{
}

/// File options for diff operations
#[derive(Debug, Clone, Copy)]
pub struct FileOptions {
    /// Ignore whitespace changes
    pub ignore_space: IgnoreSpace,
    /// Ignore end-of-line differences
    pub ignore_eol_style: bool,
    /// Show function context
    pub show_c_function: bool,
}

impl Default for FileOptions {
    fn default() -> (r: Self)
        ensures
            r == (FileOptions { ignore_space: IgnoreSpace::Off, ignore_eol_style: false, show_c_function: false }),
    {
        FileOptions { ignore_space: IgnoreSpace::Off, ignore_eol_style: false, show_c_function: false }
    }
}

/// The option values that Subversion's file-diff functions take, as raw
/// numbers: the whitespace mode, and two flags that are 1 or 0.
#[derive(Debug, Clone, Copy, PartialEq, Eq, Structural)]
pub struct RawFileOptions {
    /// The raw whitespace-ignoring mode.
    pub ignore_space: u32,
    /// 1 to ignore end-of-line differences, else 0.
    pub ignore_eol_style: i32,
    /// 1 to show function context, else 0.
    pub show_c_function: i32,
}

impl FileOptions {
    /// Creates options with every setting off.
    pub fn new() -> (r: Self)
        ensures
            r == (FileOptions { ignore_space: IgnoreSpace::Off, ignore_eol_style: false, show_c_function: false }),
    {
        Self::default()
    }

    /// Sets whether to ignore changes in whitespace: on ignores changes in
    /// the amount of whitespace, off ignores none.
    pub fn with_ignore_whitespace(self, ignore: bool) -> (r: Self)
        ensures
            r == (FileOptions {
                ignore_space: if ignore { IgnoreSpace::Change } else { IgnoreSpace::Off },
                ..self
            }),
    {
        let mut s = self;
        s.ignore_space = if ignore {
            IgnoreSpace::Change
        } else {
            IgnoreSpace::Off
        };
        s
    }

    /// Sets whether to ignore end-of-line differences.
    pub fn with_ignore_eol_style(self, ignore: bool) -> (r: Self)
        ensures
            r == (FileOptions { ignore_eol_style: ignore, ..self }),
    {
        let mut s = self;
        s.ignore_eol_style = ignore;
        s
    }

    /// Sets whether to show function context.
    pub fn with_show_c_function(self, show: bool) -> (r: Self)
        ensures
            r == (FileOptions { show_c_function: show, ..self }),
    {
        let mut s = self;
        s.show_c_function = show;
        s
    }

    /// The raw option values that these options give Subversion's
    /// file-diff functions.
    pub fn to_raw(&self) -> (r: RawFileOptions)
        ensures
            r.ignore_space == spec_ignore_space_raw(self.ignore_space),
            r.ignore_eol_style == (if self.ignore_eol_style { 1i32 } else { 0i32 }),
            r.show_c_function == (if self.show_c_function { 1i32 } else { 0i32 }),
    {
        RawFileOptions {
            ignore_space: u32::from(self.ignore_space),
            ignore_eol_style: if self.ignore_eol_style { 1 } else { 0 },
            show_c_function: if self.show_c_function { 1 } else { 0 },
        }
    }
}

} // verus!
