//! Subversion errors: the classification of error codes into categories, and
//! error chains (an error together with the errors that caused it).

use vstd::prelude::*;
use vstd::string::*;

verus! {

/// Number of codes in each category of Subversion error codes.
pub const SVN_ERR_CATEGORY_SIZE: u32 = 5000;

/// First code of the malformed-input category.
pub const SVN_ERR_BAD_CATEGORY_START: u32 = 125000;

/// First code of the XML category.
pub const SVN_ERR_XML_CATEGORY_START: u32 = 130000;

/// First code of the I/O category.
pub const SVN_ERR_IO_CATEGORY_START: u32 = 135000;

/// First code of the stream category.
pub const SVN_ERR_STREAM_CATEGORY_START: u32 = 140000;

/// First code of the node category.
pub const SVN_ERR_NODE_CATEGORY_START: u32 = 145000;

/// First code of the entry category.
pub const SVN_ERR_ENTRY_CATEGORY_START: u32 = 150000;

/// First code of the working-copy category.
pub const SVN_ERR_WC_CATEGORY_START: u32 = 155000;

/// First code of the filesystem category.
pub const SVN_ERR_FS_CATEGORY_START: u32 = 160000;

/// First code of the repository category.
pub const SVN_ERR_REPOS_CATEGORY_START: u32 = 165000;

/// First code of the repository-access category.
pub const SVN_ERR_RA_CATEGORY_START: u32 = 170000;

/// First code of the DAV category.
pub const SVN_ERR_RA_DAV_CATEGORY_START: u32 = 175000;

/// First code of the local repository-access category.
pub const SVN_ERR_RA_LOCAL_CATEGORY_START: u32 = 180000;

/// First code of the svndiff category.
pub const SVN_ERR_SVNDIFF_CATEGORY_START: u32 = 185000;

/// First code of the Apache module category.
pub const SVN_ERR_APMOD_CATEGORY_START: u32 = 190000;

/// First code of the client category.
pub const SVN_ERR_CLIENT_CATEGORY_START: u32 = 195000;

/// First code of the miscellaneous category.
pub const SVN_ERR_MISC_CATEGORY_START: u32 = 200000;

/// First code of the command-line category.
pub const SVN_ERR_CL_CATEGORY_START: u32 = 205000;

/// First code of the svn protocol category.
pub const SVN_ERR_RA_SVN_CATEGORY_START: u32 = 210000;

/// First code of the authentication category.
pub const SVN_ERR_AUTHN_CATEGORY_START: u32 = 215000;

/// First code of the authorization category.
pub const SVN_ERR_AUTHZ_CATEGORY_START: u32 = 220000;

/// First code of the diff category.
pub const SVN_ERR_DIFF_CATEGORY_START: u32 = 225000;

/// First code of the serf category.
pub const SVN_ERR_RA_SERF_CATEGORY_START: u32 = 230000;

/// First code of the malfunction category.
pub const SVN_ERR_MALFUNC_CATEGORY_START: u32 = 235000;

/// First code of the X.509 category.
pub const SVN_ERR_X509_CATEGORY_START: u32 = 240000;

/// The status code that an error made from a bare message carries.
pub const GENERAL_ERROR_STATUS: i32 = 15;

/// The status code of an operation that was cancelled (`SVN_ERR_CANCELLED`).
pub const SVN_ERR_CANCELLED: i32 = 200015;

/// Categorizes the kind of error that occurred based on SVN error code ranges.
///
/// Each category but `Other` covers `SVN_ERR_CATEGORY_SIZE` consecutive codes;
/// the categories follow one another in the order in which they are declared
/// here, the first one starting at `SVN_ERR_BAD_CATEGORY_START`.
#[derive(Debug, Clone, Copy, PartialEq, Eq, Hash, Structural)]
pub enum ErrorCategory {
    /// Malformed input or argument errors (125000-129999)
    BadInput,
    /// XML parsing/generation errors (130000-134999)
    Xml,
    /// I/O errors (135000-139999)
    Io,
    /// Stream-related errors (140000-144999)
    Stream,
    /// Node (file/directory) errors (145000-149999)
    Node,
    /// Entry-related errors (150000-154999)
    Entry,
    /// Working copy errors (155000-159999)
    WorkingCopy,
    /// Filesystem backend errors (160000-164999)
    Filesystem,
    /// Repository errors (165000-169999)
    Repository,
    /// Repository access layer errors (170000-174999)
    RepositoryAccess,
    /// DAV protocol errors (175000-179999)
    RaDav,
    /// Local repository access errors (180000-184999)
    RaLocal,
    /// Diff algorithm errors (185000-189999)
    Svndiff,
    /// Apache module errors (190000-194999)
    ApacheMod,
    /// Client operation errors (195000-199999)
    Client,
    /// Miscellaneous errors including cancellation (200000-204999)
    Misc,
    /// Command-line client errors (205000-209999)
    CommandLine,
    /// SVN protocol errors (210000-214999)
    RaSvn,
    /// Authentication errors (215000-219999)
    Authentication,
    /// Authorization errors (220000-224999)
    Authorization,
    /// Diff operation errors (225000-229999)
    Diff,
    /// Serf/HTTP errors (230000-234999)
    RaSerf,
    /// Internal malfunction errors (235000-239999)
    Malfunction,
    /// X.509 certificate errors (240000-244999)
    X509,
    /// Unknown or APR error
    Other,
}

impl ErrorCategory {
    /// The position of a category among the code ranges: 1 for the first
    /// range (`BadInput`) up to 24 for the last (`X509`); 0 for `Other`,
    /// which has no range.
    pub open spec fn ordinal(self) -> int {
        match self {
            ErrorCategory::BadInput => 1,
            ErrorCategory::Xml => 2,
            ErrorCategory::Io => 3,
            ErrorCategory::Stream => 4,
            ErrorCategory::Node => 5,
            ErrorCategory::Entry => 6,
            ErrorCategory::WorkingCopy => 7,
            ErrorCategory::Filesystem => 8,
            ErrorCategory::Repository => 9,
            ErrorCategory::RepositoryAccess => 10,
            ErrorCategory::RaDav => 11,
            ErrorCategory::RaLocal => 12,
            ErrorCategory::Svndiff => 13,
            ErrorCategory::ApacheMod => 14,
            ErrorCategory::Client => 15,
            ErrorCategory::Misc => 16,
            ErrorCategory::CommandLine => 17,
            ErrorCategory::RaSvn => 18,
            ErrorCategory::Authentication => 19,
            ErrorCategory::Authorization => 20,
            ErrorCategory::Diff => 21,
            ErrorCategory::RaSerf => 22,
            ErrorCategory::Malfunction => 23,
            ErrorCategory::X509 => 24,
            ErrorCategory::Other => 0,
        }
    }

    /// The category at a given position among the code ranges (`Other`
    /// outside 1 to 24).
    pub open spec fn at_ordinal(k: int) -> ErrorCategory {
        if k == 1 {
            ErrorCategory::BadInput
        } else if k == 2 {
            ErrorCategory::Xml
        } else if k == 3 {
            ErrorCategory::Io
        } else if k == 4 {
            ErrorCategory::Stream
        } else if k == 5 {
            ErrorCategory::Node
        } else if k == 6 {
            ErrorCategory::Entry
        } else if k == 7 {
            ErrorCategory::WorkingCopy
        } else if k == 8 {
            ErrorCategory::Filesystem
        } else if k == 9 {
            ErrorCategory::Repository
        } else if k == 10 {
            ErrorCategory::RepositoryAccess
        } else if k == 11 {
            ErrorCategory::RaDav
        } else if k == 12 {
            ErrorCategory::RaLocal
        } else if k == 13 {
            ErrorCategory::Svndiff
        } else if k == 14 {
            ErrorCategory::ApacheMod
        } else if k == 15 {
            ErrorCategory::Client
        } else if k == 16 {
            ErrorCategory::Misc
        } else if k == 17 {
            ErrorCategory::CommandLine
        } else if k == 18 {
            ErrorCategory::RaSvn
        } else if k == 19 {
            ErrorCategory::Authentication
        } else if k == 20 {
            ErrorCategory::Authorization
        } else if k == 21 {
            ErrorCategory::Diff
        } else if k == 22 {
            ErrorCategory::RaSerf
        } else if k == 23 {
            ErrorCategory::Malfunction
        } else if k == 24 {
            ErrorCategory::X509
        } else {
            ErrorCategory::Other
        }
    }

    /// The first code of this category's range.
    pub open spec fn range_start(self) -> int {
        SVN_ERR_BAD_CATEGORY_START + SVN_ERR_CATEGORY_SIZE * (self.ordinal() - 1)
    }

    /// Whether `code` lies in this category's range (never for `Other`).
    pub open spec fn contains_code(self, code: int) -> bool {
        &&& self != ErrorCategory::Other
        &&& self.range_start() <= code < self.range_start() + SVN_ERR_CATEGORY_SIZE
    }
}

/// The category of an error code: the category whose range holds it, or
/// `Other` below the first range and above the last.
pub open spec fn spec_category_of(code: int) -> ErrorCategory {
    if SVN_ERR_BAD_CATEGORY_START <= code < SVN_ERR_X509_CATEGORY_START + SVN_ERR_CATEGORY_SIZE {
        ErrorCategory::at_ordinal((code - SVN_ERR_BAD_CATEGORY_START) / (SVN_ERR_CATEGORY_SIZE as int) + 1)
    } else {
        ErrorCategory::Other
    }
}

proof fn lemma_at_ordinal_inverse(c: ErrorCategory)
    ensures
        ErrorCategory::at_ordinal(c.ordinal()) == c,
        0 <= c.ordinal() <= 24,
        c.ordinal() == 0 <==> c == ErrorCategory::Other,
{
}

proof fn lemma_ordinal_of_at(k: int)
    requires
        1 <= k <= 24,
    ensures
        ErrorCategory::at_ordinal(k).ordinal() == k,
{
}

/// A category's range holds exactly the codes that are classified into it:
/// for every category `c` but `Other` and every code,
/// `spec_category_of(code) == c` if and only if `code` lies in `c`'s range.
pub proof fn lemma_category_matches_range(code: int, c: ErrorCategory)
    requires
        c != ErrorCategory::Other,
    ensures
        spec_category_of(code) == c <==> c.contains_code(code),
{
    lemma_at_ordinal_inverse(c);
    let k = c.ordinal();
    if spec_category_of(code) == c {
        let q = (code - 125000) / 5000;
        assert(125000 <= code < 245000);
        assert(0 <= q < 24);
        lemma_ordinal_of_at(q + 1);
        assert(q + 1 == k);
        assert(q * 5000 <= code - 125000 < q * 5000 + 5000);
    }
    if c.contains_code(code) {
        let q = (code - 125000) / 5000;
        assert(code - 125000 == (k - 1) * 5000 + (code - c.range_start()));
        assert(q == k - 1);
    }
}

/// Each category's range starts at the first code that Subversion assigns
/// to it, and ranges of different categories are disjoint.
pub proof fn lemma_category_range_starts(c: ErrorCategory, d: ErrorCategory)
    ensures
        c == ErrorCategory::BadInput ==> c.range_start() == SVN_ERR_BAD_CATEGORY_START,
        c == ErrorCategory::Xml ==> c.range_start() == SVN_ERR_XML_CATEGORY_START,
        c == ErrorCategory::Io ==> c.range_start() == SVN_ERR_IO_CATEGORY_START,
        c == ErrorCategory::Stream ==> c.range_start() == SVN_ERR_STREAM_CATEGORY_START,
        c == ErrorCategory::Node ==> c.range_start() == SVN_ERR_NODE_CATEGORY_START,
        c == ErrorCategory::Entry ==> c.range_start() == SVN_ERR_ENTRY_CATEGORY_START,
        c == ErrorCategory::WorkingCopy ==> c.range_start() == SVN_ERR_WC_CATEGORY_START,
        c == ErrorCategory::Filesystem ==> c.range_start() == SVN_ERR_FS_CATEGORY_START,
        c == ErrorCategory::Repository ==> c.range_start() == SVN_ERR_REPOS_CATEGORY_START,
        c == ErrorCategory::RepositoryAccess ==> c.range_start() == SVN_ERR_RA_CATEGORY_START,
        c == ErrorCategory::RaDav ==> c.range_start() == SVN_ERR_RA_DAV_CATEGORY_START,
        c == ErrorCategory::RaLocal ==> c.range_start() == SVN_ERR_RA_LOCAL_CATEGORY_START,
        c == ErrorCategory::Svndiff ==> c.range_start() == SVN_ERR_SVNDIFF_CATEGORY_START,
        c == ErrorCategory::ApacheMod ==> c.range_start() == SVN_ERR_APMOD_CATEGORY_START,
        c == ErrorCategory::Client ==> c.range_start() == SVN_ERR_CLIENT_CATEGORY_START,
        c == ErrorCategory::Misc ==> c.range_start() == SVN_ERR_MISC_CATEGORY_START,
        c == ErrorCategory::CommandLine ==> c.range_start() == SVN_ERR_CL_CATEGORY_START,
        c == ErrorCategory::RaSvn ==> c.range_start() == SVN_ERR_RA_SVN_CATEGORY_START,
        c == ErrorCategory::Authentication ==> c.range_start() == SVN_ERR_AUTHN_CATEGORY_START,
        c == ErrorCategory::Authorization ==> c.range_start() == SVN_ERR_AUTHZ_CATEGORY_START,
        c == ErrorCategory::Diff ==> c.range_start() == SVN_ERR_DIFF_CATEGORY_START,
        c == ErrorCategory::RaSerf ==> c.range_start() == SVN_ERR_RA_SERF_CATEGORY_START,
        c == ErrorCategory::Malfunction ==> c.range_start() == SVN_ERR_MALFUNC_CATEGORY_START,
        c == ErrorCategory::X509 ==> c.range_start() == SVN_ERR_X509_CATEGORY_START,
        c != ErrorCategory::Other && d != ErrorCategory::Other && c != d ==> c.range_start()
            != d.range_start(),
{
}

/// Codes below the first category and above the last are `Other`, and
/// only they: a code is classified as `Other` exactly when it lies outside
/// `[SVN_ERR_BAD_CATEGORY_START, SVN_ERR_X509_CATEGORY_START + SVN_ERR_CATEGORY_SIZE)`.
pub proof fn lemma_other_outside_ranges(code: int)
    ensures
        spec_category_of(code) == ErrorCategory::Other <==> (code < SVN_ERR_BAD_CATEGORY_START
            || code >= SVN_ERR_X509_CATEGORY_START + SVN_ERR_CATEGORY_SIZE),
{
    if SVN_ERR_BAD_CATEGORY_START <= code < SVN_ERR_X509_CATEGORY_START + SVN_ERR_CATEGORY_SIZE {
        let q = (code - 125000) / 5000;
        assert(0 <= q < 24);
        lemma_ordinal_of_at(q + 1);
    }
}

/// Classifies an error code into its category.
pub fn category_of_code(code: u32) -> (r: ErrorCategory)
    ensures
        r == spec_category_of(code as int),
{
    let category_size = SVN_ERR_CATEGORY_SIZE;
    if code >= SVN_ERR_BAD_CATEGORY_START && code < SVN_ERR_BAD_CATEGORY_START + category_size {
        ErrorCategory::BadInput
    } else if code >= SVN_ERR_XML_CATEGORY_START && code < SVN_ERR_XML_CATEGORY_START
        + category_size {
        ErrorCategory::Xml
    } else if code >= SVN_ERR_IO_CATEGORY_START && code < SVN_ERR_IO_CATEGORY_START
        + category_size {
        ErrorCategory::Io
    } else if code >= SVN_ERR_STREAM_CATEGORY_START && code < SVN_ERR_STREAM_CATEGORY_START
        + category_size {
        ErrorCategory::Stream
    } else if code >= SVN_ERR_NODE_CATEGORY_START && code < SVN_ERR_NODE_CATEGORY_START
        + category_size {
        ErrorCategory::Node
    } else if code >= SVN_ERR_ENTRY_CATEGORY_START && code < SVN_ERR_ENTRY_CATEGORY_START
        + category_size {
        ErrorCategory::Entry
    } else if code >= SVN_ERR_WC_CATEGORY_START && code < SVN_ERR_WC_CATEGORY_START
        + category_size {
        ErrorCategory::WorkingCopy
    } else if code >= SVN_ERR_FS_CATEGORY_START && code < SVN_ERR_FS_CATEGORY_START
        + category_size {
        ErrorCategory::Filesystem
    } else if code >= SVN_ERR_REPOS_CATEGORY_START && code < SVN_ERR_REPOS_CATEGORY_START
        + category_size {
        ErrorCategory::Repository
    } else if code >= SVN_ERR_RA_CATEGORY_START && code < SVN_ERR_RA_CATEGORY_START
        + category_size {
        ErrorCategory::RepositoryAccess
    } else if code >= SVN_ERR_RA_DAV_CATEGORY_START && code < SVN_ERR_RA_DAV_CATEGORY_START
        + category_size {
        ErrorCategory::RaDav
    } else if code >= SVN_ERR_RA_LOCAL_CATEGORY_START && code < SVN_ERR_RA_LOCAL_CATEGORY_START
        + category_size {
        ErrorCategory::RaLocal
    } else if code >= SVN_ERR_SVNDIFF_CATEGORY_START && code < SVN_ERR_SVNDIFF_CATEGORY_START
        + category_size {
        ErrorCategory::Svndiff
    } else if code >= SVN_ERR_APMOD_CATEGORY_START && code < SVN_ERR_APMOD_CATEGORY_START
        + category_size {
        ErrorCategory::ApacheMod
    } else if code >= SVN_ERR_CLIENT_CATEGORY_START && code < SVN_ERR_CLIENT_CATEGORY_START
        + category_size {
        ErrorCategory::Client
    } else if code >= SVN_ERR_MISC_CATEGORY_START && code < SVN_ERR_MISC_CATEGORY_START
        + category_size {
        ErrorCategory::Misc
    } else if code >= SVN_ERR_CL_CATEGORY_START && code < SVN_ERR_CL_CATEGORY_START
        + category_size {
        ErrorCategory::CommandLine
    } else if code >= SVN_ERR_RA_SVN_CATEGORY_START && code < SVN_ERR_RA_SVN_CATEGORY_START
        + category_size {
        ErrorCategory::RaSvn
    } else if code >= SVN_ERR_AUTHN_CATEGORY_START && code < SVN_ERR_AUTHN_CATEGORY_START
        + category_size {
        ErrorCategory::Authentication
    } else if code >= SVN_ERR_AUTHZ_CATEGORY_START && code < SVN_ERR_AUTHZ_CATEGORY_START
        + category_size {
        ErrorCategory::Authorization
    } else if code >= SVN_ERR_DIFF_CATEGORY_START && code < SVN_ERR_DIFF_CATEGORY_START
        + category_size {
        ErrorCategory::Diff
    } else if code >= SVN_ERR_RA_SERF_CATEGORY_START && code < SVN_ERR_RA_SERF_CATEGORY_START
        + category_size {
        ErrorCategory::RaSerf
    } else if code >= SVN_ERR_MALFUNC_CATEGORY_START && code < SVN_ERR_MALFUNC_CATEGORY_START
        + category_size {
        ErrorCategory::Malfunction
    } else if code >= SVN_ERR_X509_CATEGORY_START && code < SVN_ERR_X509_CATEGORY_START
        + category_size {
        ErrorCategory::X509
    } else {
        ErrorCategory::Other
    }
}


/// One error of an error chain, as plain values: its status code, its
/// message, and the source location where it was raised.
pub struct ErrorLink {
    /// The raw APR/SVN status code.
    pub apr_err: i32,
    /// The error message, if any.
    pub message: Option<String>,
    /// The source file where the error was raised, if recorded.
    pub file: Option<String>,
    /// The source line where the error was raised.
    pub line: i64,
}

/// The mathematical value of an [`ErrorLink`].
pub struct ErrorLinkView {
    pub apr_err: i32,
    pub message: Option<Seq<char>>,
    pub file: Option<Seq<char>>,
    pub line: i64,
}

/// The view of an optional string.
pub open spec fn opt_str_view(s: Option<String>) -> Option<Seq<char>> {
    match s {
        Some(x) => Some(x@),
        None => None,
    }
}

impl View for ErrorLink {
    type V = ErrorLinkView;

    open spec fn view(&self) -> ErrorLinkView {
        ErrorLinkView {
            apr_err: self.apr_err,
            message: opt_str_view(self.message),
            file: opt_str_view(self.file),
            line: self.line,
        }
    }
}

fn clone_opt_string(s: &Option<String>) -> (r: Option<String>)
    ensures
        opt_str_view(r) == opt_str_view(*s),
{
    match s {
        Some(x) => Some(x.clone()),
        None => None,
    }
}

impl Clone for ErrorLink {
    fn clone(&self) -> (r: Self)
        ensures
            r@ == self@,
    {
        ErrorLink {
            apr_err: self.apr_err,
            message: clone_opt_string(&self.message),
            file: clone_opt_string(&self.file),
            line: self.line,
        }
    }
}

/// Represents a Subversion error.
///
/// SVN errors form chains where each error points to a child error that
/// provides more context. The chain is held as a non-empty sequence of
/// links: the first link is this error, the next one its child, and so on.
pub struct Error {
    links: Vec<ErrorLink>,
}

impl View for Error {
    type V = Seq<ErrorLinkView>;

    closed spec fn view(&self) -> Seq<ErrorLinkView> {
        links_view(self.links@)
    }
}

impl Error {
    #[verifier::type_invariant]
    closed spec fn non_empty(self) -> bool {
        self.links.len() > 0
    }

    /// The chain that an error made from `status`, `child` and `msg` holds.
    pub open spec fn spec_new(status: i32, child: Option<Seq<ErrorLinkView>>, msg: Seq<char>) -> Seq<ErrorLinkView> {
        seq![ErrorLinkView { apr_err: status, message: Some(msg), file: None, line: 0 }] + match child {
            Some(c) => c,
            None => Seq::empty(),
        }
    }

    /// Creates a new error with a raw APR/SVN status code, an optional child
    /// error, and a message. No source location is recorded.
    pub fn with_raw_status(status: i32, child: Option<Error>, msg: &str) -> (r: Error)
        requires
            !msg@.contains('\0'),
        ensures
            r@ == Self::spec_new(status, opt_error_view(child), msg@),
            r@.len() > 0,
            child is Some <==> r@.len() > 1,
    {
        proof {
            match &child {
                Some(c) => use_type_invariant(c),
                None => {},
            }
        }
        let mut links: Vec<ErrorLink> = Vec::new();
        links.push(ErrorLink { apr_err: status, message: Some(String::from_str(msg)), file: None, line: 0 });
        match child {
            Some(c) => {
                let Error { links: mut rest } = c;
                links.append(&mut rest);
            },
            None => {},
        }
        let r = Error { links };
        assert(r@ =~= Self::spec_new(status, opt_error_view(child), msg@));
        r
    }

    /// Creates a new error with the given status, optional child error, and
    /// message.
    pub fn new(status: i32, child: Option<Error>, msg: &str) -> (r: Error)
        requires
            !msg@.contains('\0'),
        ensures
            r@ == Self::spec_new(status, opt_error_view(child), msg@),
            r@.len() > 0,
            child is Some <==> r@.len() > 1,
    {
        Self::with_raw_status(status, child, msg)
    }

    /// Creates a new error from a message alone; it carries
    /// `GENERAL_ERROR_STATUS`.
    pub fn from_message(msg: &str) -> (r: Error)
        requires
            !msg@.contains('\0'),
        ensures
            r@ == Self::spec_new(GENERAL_ERROR_STATUS, None, msg@),
            r@.len() == 1,
    {
        Self::with_raw_status(GENERAL_ERROR_STATUS, None, msg)
    }

    /// Makes an error chain from its links, or `None` when there are none.
    pub fn from_links(links: Vec<ErrorLink>) -> (r: Option<Error>)
        ensures
            r is None <==> links@.len() == 0,
            r matches Some(e) ==> e@ == links_view(links@) && e@.len() > 0,
    {
        if links.len() == 0 {
            None
        } else {
            Some(Error { links })
        }
    }

    /// Gets the raw APR/SVN error status code.
    pub fn raw_apr_err(&self) -> (r: i32)
        ensures
            self@.len() > 0,
            r == self@[0].apr_err,
    {
        proof {
            use_type_invariant(self);
        }
        self.links[0].apr_err
    }

    /// Gets the line number where the error occurred.
    pub fn line(&self) -> (r: i64)
        ensures
            self@.len() > 0,
            r == self@[0].line,
    {
        proof {
            use_type_invariant(self);
        }
        self.links[0].line
    }

    /// Gets the file name where the error occurred.
    pub fn file(&self) -> (r: Option<&str>)
        ensures
            self@.len() > 0,
            r is None <==> self@[0].file is None,
            r matches Some(f) ==> self@[0].file == Some(f@),
    {
        proof {
            use_type_invariant(self);
        }
        match &self.links[0].file {
            Some(f) => Some(f.as_str()),
            None => None,
        }
    }

    /// Gets the file and line location where the error occurred.
    pub fn location(&self) -> (r: Option<(&str, i64)>)
        ensures
            self@.len() > 0,
            r is None <==> self@[0].file is None,
            r matches Some(l) ==> self@[0].file == Some(l.0@) && l.1 == self@[0].line,
    {
        match self.file() {
            Some(f) => Some((f, self.line())),
            None => None,
        }
    }

    /// Gets the error message.
    pub fn message(&self) -> (r: Option<&str>)
        ensures
            self@.len() > 0,
            r is None <==> self@[0].message is None,
            r matches Some(m) ==> self@[0].message == Some(m@),
    {
        proof {
            use_type_invariant(self);
        }
        match &self.links[0].message {
            Some(m) => Some(m.as_str()),
            None => None,
        }
    }

    /// The chain that starts at link `start`, copied.
    fn suffix(&self, start: usize) -> (r: Error)
        requires
            start < self@.len(),
        ensures
            r@ == self@.subrange(start as int, self@.len() as int),
    {
        let mut links: Vec<ErrorLink> = Vec::new();
        let mut i = start;
        while i < self.links.len()
            invariant
                start <= i <= self.links.len(),
                start < self.links.len(),
                links@.len() == i - start,
                self@.len() == self.links.len(),
                links_view(links@) =~= self@.subrange(start as int, i as int),
            decreases self.links.len() - i,
        {
            let l = self.links[i].clone();
            proof {
                assert(self@[i as int] == self.links@[i as int]@);
            }
            let ghost before = links@;
            links.push(l);
            i = i + 1;
            proof {
                assert(l@ == self.links@[i - 1]@);
                assert(links@.len() == before.len() + 1);
                assert(before.len() == i - 1 - start);
                assert(links_view(links@)[before.len() as int] == l@);
                assert(self@.subrange(start as int, i as int)[before.len() as int] == self@[i - 1]);
                assert forall|k: int| 0 <= k < links@.len() implies #[trigger] links_view(links@)[k]
                    == self@.subrange(start as int, i as int)[k] by {
                    if k < before.len() {
                        assert(links@[k] == before[k]);
                        assert(links_view(before)[k] == self@.subrange(start as int, i as int - 1)[k]);
                    }
                }
                assert(links_view(links@) =~= self@.subrange(start as int, i as int));
            }
        }
        Error { links }
    }

    /// Gets the child error, if any: the rest of the chain after this error.
    pub fn child(&self) -> (r: Option<Error>)
        ensures
            self@.len() > 0,
            r is None <==> self@.len() == 1,
            r matches Some(c) ==> c@ == self@.drop_first() && c@.len() > 0,
    {
        proof {
            use_type_invariant(self);
        }
        if self.links.len() > 1 {
            Some(self.suffix(1))
        } else {
            None
        }
    }

    /// Finds the first error in the chain with the given status code; what
    /// is returned is the chain from that error on.
    pub fn find_cause(&self, status: i32) -> (r: Option<Error>)
        ensures
            self@.len() > 0,
            r is None <==> forall|i: int| 0 <= i < self@.len() ==> #[trigger] self@[i].apr_err != status,
            r matches Some(e) ==> is_first_cause(self@, status, e@) && e@.len() > 0,
    {
        proof {
            use_type_invariant(self);
        }
        let mut i: usize = 0;
        while i < self.links.len()
            invariant
                0 <= i <= self.links.len(),
                self@.len() == self.links.len(),
                forall|j: int| 0 <= j < i ==> #[trigger] self@[j].apr_err != status,
            decreases self.links.len() - i,
        {
            if self.links[i].apr_err == status {
                let e = self.suffix(i);
                assert(self@[i as int].apr_err == status);
                return Some(e);
            }
            i = i + 1;
        }
        None
    }

    /// Returns the error category based on the SVN error code of this
    /// error (the first of the chain).
    pub fn category(&self) -> (r: ErrorCategory)
        ensures
            self@.len() > 0,
            r == spec_category_of(self@[0].apr_err as int),
    {
        let code = self.raw_apr_err();
        if code < 0 {
            ErrorCategory::Other
        } else {
            category_of_code(code as u32)
        }
    }

    /// Collects all messages from the error chain: the non-empty messages,
    /// first to last, joined by `": "`. When the chain has none, the result
    /// is the best message that Subversion gives for this error: its own
    /// message where it has one (then empty), else `code_description`, the
    /// description of its status code.
    pub fn full_message(&self, code_description: &str) -> (r: String)
        ensures
            self@.len() > 0,
            collected_messages(self@).len() > 0 ==> r@ == join_messages(collected_messages(self@)),
            collected_messages(self@).len() == 0 ==> r@ == match self@[0].message {
                Some(m) => m,
                None => code_description@,
            },
    {
        proof {
            use_type_invariant(self);
        }
        let mut result = String::new();
        let mut count: usize = 0;
        let mut i: usize = 0;
        while i < self.links.len()
            invariant
                0 <= i <= self.links.len(),
                self@.len() == self.links.len(),
                count == collected_messages(self@.take(i as int)).len(),
                result@ == join_messages(collected_messages(self@.take(i as int))),
                count <= i,
            decreases self.links.len() - i,
        {
            let ghost parts = collected_messages(self@.take(i as int));
            proof {
                assert(self@.take(i as int + 1).drop_last() =~= self@.take(i as int));
                assert(self@.take(i as int + 1).last() == self@[i as int]);
                assert(self@[i as int] == self.links@[i as int]@);
            }
            match &self.links[i].message {
                Some(m) => {
                    if !m.as_str().is_empty() {
                        proof {
                            assert(collected_messages(self@.take(i as int + 1)) == parts.push(m@));
                            assert(parts.push(m@).drop_last() =~= parts);
                        }
                        if count == 0 {
                            result = m.clone();
                        } else {
                            proof {
                                reveal_strlit(": ");
                            }
                            result.append(": ");
                            result.append(m.as_str());
                        }
                        count = count + 1;
                    }
                },
                None => {},
            }
            i = i + 1;
        }
        assert(self@.take(self@.len() as int) =~= self@);
        if count == 0 {
            proof {
                lemma_no_collected_message(self@, 0);
                reveal_strlit("traced call");
                assert(!is_tracing_link(self@[0]));
                assert(untraced(self@) == seq![self@[0]] + untraced(self@.drop_first()));
            }
            self.best_message(code_description)
        } else {
            result
        }
    }

    /// Whether a message is the one that marks a tracing link.
    fn is_tracing_message(m: &String) -> (r: bool)
        ensures
            r == (m@ == spec_tracing_message()),
    {
        let marker = String::from_str("traced call");
        *m == marker
    }

    /// Gets the best available message for this error: skipping the
    /// tracing links at its head, the message of the first real error where
    /// it has one, else `code_description`, the description of that
    /// error's status code. A chain of tracing links alone has no such
    /// error, and is not accepted.
    pub fn best_message(&self, code_description: &str) -> (r: String)
        requires
            untraced(self@).len() > 0,
        ensures
            self@.len() > 0,
            r@ == match untraced(self@)[0].message {
                Some(m) => m,
                None => code_description@,
            },
    {
        proof {
            use_type_invariant(self);
        }
        let mut i: usize = 0;
        assert(self@.skip(0) =~= self@);
        loop
            invariant
                0 <= i < self.links.len(),
                self@.len() == self.links.len(),
                untraced(self@).len() > 0,
                untraced(self@) == untraced(self@.skip(i as int)),
            ensures
                0 <= i < self.links.len(),
                untraced(self@) == untraced(self@.skip(i as int)),
                !is_tracing_link(self@[i as int]),
            decreases self.links.len() - i,
        {
            proof {
                assert(self@.skip(i as int)[0] == self@[i as int]);
                assert(self@[i as int] == self.links@[i as int]@);
                assert(self@.skip(i as int).drop_first() =~= self@.skip(i as int + 1));
            }
            let tracing = match &self.links[i].message {
                Some(m) => Self::is_tracing_message(m),
                None => false,
            };
            if !tracing {
                break;
            }
            if i + 1 == self.links.len() {
                proof {
                    assert(is_tracing_link(self@.skip(i as int)[0]));
                    assert(untraced(self@.skip(i as int)) == untraced(self@.skip(i as int).drop_first()));
                    assert(self@.skip(i as int + 1) =~= Seq::<ErrorLinkView>::empty());
                    assert(untraced(Seq::<ErrorLinkView>::empty()).len() == 0);
                }
                assert(false);
            }
            i = i + 1;
        }
        proof {
            assert(self@.skip(i as int)[0] == self@[i as int]);
            assert(self@[i as int] == self.links@[i as int]@);
        }
        match &self.links[i].message {
            Some(m) => m.clone(),
            None => String::from_str(code_description),
        }
    }

    /// Removes the tracing links from the error: the chain of its real
    /// errors, in their order. A chain of tracing links alone has no real
    /// error, and is not accepted.
    pub fn purge_tracing(&self) -> (r: Error)
        requires
            untraced(self@).len() > 0,
        ensures
            self@.len() > 0,
            r@ == untraced(self@),
    {
        proof {
            use_type_invariant(self);
        }
        let mut links: Vec<ErrorLink> = Vec::new();
        let mut i: usize = 0;
        assert(self@.skip(0) =~= self@);
        assert(links_view(links@) =~= Seq::<ErrorLinkView>::empty());
        while i < self.links.len()
            invariant
                0 <= i <= self.links.len(),
                self@.len() == self.links.len(),
                untraced(self@) == links_view(links@) + untraced(self@.skip(i as int)),
            decreases self.links.len() - i,
        {
            proof {
                assert(self@.skip(i as int)[0] == self@[i as int]);
                assert(self@[i as int] == self.links@[i as int]@);
                assert(self@.skip(i as int).drop_first() =~= self@.skip(i as int + 1));
            }
            let tracing = match &self.links[i].message {
                Some(m) => Self::is_tracing_message(m),
                None => false,
            };
            if !tracing {
                let ghost before = links@;
                let l = self.links[i].clone();
                links.push(l);
                proof {
                    assert(links_view(links@) =~= links_view(before).push(l@));
                    assert(links_view(before) + seq![l@] + untraced(self@.skip(i as int + 1)) =~= links_view(
                        before,
                    ) + (seq![l@] + untraced(self@.skip(i as int + 1))));
                }
            }
            i = i + 1;
        }
        proof {
            assert(self@.skip(i as int) =~= Seq::<ErrorLinkView>::empty());
            assert(links_view(links@) + Seq::<ErrorLinkView>::empty() =~= links_view(links@));
        }
        Error { links }
    }
}

/// A chain that has no non-empty message has none at any link.
proof fn lemma_no_collected_message(links: Seq<ErrorLinkView>, k: int)
    requires
        collected_messages(links).len() == 0,
        0 <= k < links.len(),
    ensures
        links[k].message is Some ==> links[k].message->0.len() == 0,
    decreases links.len(),
{
    if k < links.len() - 1 {
        lemma_no_collected_message(links.drop_last(), k);
    }
}

/// The messages that a chain collects are all non-empty, and a chain
/// that holds a non-empty message collects at least one.
pub proof fn lemma_collected_messages_nonempty(links: Seq<ErrorLinkView>)
    ensures
        forall|i: int| 0 <= i < collected_messages(links).len() ==> (#[trigger] collected_messages(links)[i]).len() > 0,
        (exists|k: int| 0 <= k < links.len() && (#[trigger] links[k]).message is Some
            && links[k].message->0.len() > 0) ==> collected_messages(links).len() > 0,
    decreases links.len(),
{
    if links.len() > 0 {
        lemma_collected_messages_nonempty(links.drop_last());
        if exists|k: int| 0 <= k < links.len() && (#[trigger] links[k]).message is Some
            && links[k].message->0.len() > 0 {
            if collected_messages(links).len() == 0 {
                let k = choose|k: int| 0 <= k < links.len() && (#[trigger] links[k]).message is Some
                    && links[k].message->0.len() > 0;
                lemma_no_collected_message(links, k);
            }
        }
    }
}

/// Purging keeps every real link and only those: no tracing link is left,
/// and a chain without tracing links is kept whole.
pub proof fn lemma_untraced_links(chain: Seq<ErrorLinkView>)
    ensures
        forall|i: int| 0 <= i < untraced(chain).len() ==> !is_tracing_link(#[trigger] untraced(chain)[i]),
        untraced(chain).len() <= chain.len(),
        (forall|i: int| 0 <= i < chain.len() ==> !is_tracing_link(#[trigger] chain[i])) ==> untraced(chain)
            == chain,
    decreases chain.len(),
{
    if chain.len() > 0 {
        let rest = chain.drop_first();
        lemma_untraced_links(rest);
        if forall|i: int| 0 <= i < chain.len() ==> !is_tracing_link(#[trigger] chain[i]) {
            assert forall|i: int| 0 <= i < rest.len() implies !is_tracing_link(#[trigger] rest[i]) by {
                assert(rest[i] == chain[i + 1]);
            }
            assert(seq![chain[0]] + rest =~= chain);
        }
        if !is_tracing_link(chain[0]) {
            assert forall|i: int| 0 <= i < untraced(chain).len() implies !is_tracing_link(
                #[trigger] untraced(chain)[i],
            ) by {
                if i > 0 {
                    assert(untraced(chain)[i] == untraced(rest)[i - 1]);
                }
            }
        }
    }
}

/// The message that marks the placeholder links that Subversion adds to
/// an error chain when it traces where errors pass.
pub open spec fn spec_tracing_message() -> Seq<char> {
    "traced call"@
}

/// Whether a link is a tracing link.
pub open spec fn is_tracing_link(l: ErrorLinkView) -> bool {
    l.message == Some(spec_tracing_message())
}

/// The links of a chain that are real errors, not tracing links, in their
/// order.
pub open spec fn untraced(chain: Seq<ErrorLinkView>) -> Seq<ErrorLinkView>
    decreases chain.len(),
{
    if chain.len() == 0 {
        Seq::empty()
    } else if is_tracing_link(chain[0]) {
        untraced(chain.drop_first())
    } else {
        seq![chain[0]] + untraced(chain.drop_first())
    }
}

/// `cause` is the part of `chain` that starts at the first error whose
/// status is `status`.
pub open spec fn is_first_cause(chain: Seq<ErrorLinkView>, status: i32, cause: Seq<ErrorLinkView>) -> bool {
    exists|i: int|
        {
            &&& 0 <= i < chain.len()
            &&& #[trigger] chain[i].apr_err == status
            &&& forall|j: int| 0 <= j < i ==> #[trigger] chain[j].apr_err != status
            &&& cause == chain.subrange(i, chain.len() as int)
        }
}

/// There is at most one first cause of a status in a chain.
pub proof fn lemma_first_cause_unique(
    chain: Seq<ErrorLinkView>,
    status: i32,
    c1: Seq<ErrorLinkView>,
    c2: Seq<ErrorLinkView>,
)
    requires
        is_first_cause(chain, status, c1),
        is_first_cause(chain, status, c2),
    ensures
        c1 == c2,
{
    let i1 = choose|i: int|
        {
            &&& 0 <= i < chain.len()
            &&& #[trigger] chain[i].apr_err == status
            &&& forall|j: int| 0 <= j < i ==> #[trigger] chain[j].apr_err != status
            &&& c1 == chain.subrange(i, chain.len() as int)
        };
    let i2 = choose|i: int|
        {
            &&& 0 <= i < chain.len()
            &&& #[trigger] chain[i].apr_err == status
            &&& forall|j: int| 0 <= j < i ==> #[trigger] chain[j].apr_err != status
            &&& c2 == chain.subrange(i, chain.len() as int)
        };
    if i1 < i2 {
        assert(chain[i1].apr_err != status);
    }
    if i2 < i1 {
        assert(chain[i2].apr_err != status);
    }
}

/// Looking for the status of an error itself finds the whole error.
pub proof fn lemma_first_cause_of_own_status(chain: Seq<ErrorLinkView>, cause: Seq<ErrorLinkView>)
    requires
        chain.len() > 0,
        is_first_cause(chain, chain[0].apr_err, cause),
    ensures
        cause == chain,
{
    let status = chain[0].apr_err;
    assert(is_first_cause(chain, status, chain.subrange(0, chain.len() as int))) by {
        assert(chain[0].apr_err == status);
    }
    lemma_first_cause_unique(chain, status, cause, chain.subrange(0, chain.len() as int));
    assert(chain.subrange(0, chain.len() as int) =~= chain);
}

/// An error made with a child has that child as the rest of its chain, and
/// its own status and message first.
pub proof fn lemma_new_then_child(status: i32, child: Seq<ErrorLinkView>, msg: Seq<char>)
    ensures
        Error::spec_new(status, Some(child), msg).drop_first() == child,
        Error::spec_new(status, Some(child), msg)[0].apr_err == status,
        Error::spec_new(status, Some(child), msg)[0].message == Some(msg),
        Error::spec_new(status, None, msg).len() == 1,
        Error::spec_new(status, Some(child), msg).len() == child.len() + 1,
{
    assert(Error::spec_new(status, Some(child), msg).drop_first() =~= child);
}

/// The messages of a chain are those of its first error, followed by those
/// of the rest.
proof fn lemma_collected_prepend(l: ErrorLinkView, rest: Seq<ErrorLinkView>)
    ensures
        collected_messages(seq![l] + rest) == (match l.message {
            Some(m) => if m.len() > 0 {
                seq![m]
            } else {
                Seq::empty()
            },
            None => Seq::empty(),
        }) + collected_messages(rest),
    decreases rest.len(),
{
    let x = seq![l] + rest;
    if rest.len() == 0 {
        assert(x =~= seq![l]);
        assert(x.drop_last() =~= Seq::<ErrorLinkView>::empty());
        assert(collected_messages(Seq::<ErrorLinkView>::empty()) =~= Seq::<Seq<char>>::empty());
        assert(collected_messages(x) =~= (match l.message {
            Some(m) => if m.len() > 0 {
                seq![m]
            } else {
                Seq::empty()
            },
            None => Seq::empty(),
        }) + collected_messages(rest));
    } else {
        lemma_collected_prepend(l, rest.drop_last());
        assert(x.drop_last() =~= seq![l] + rest.drop_last());
        assert(x.last() == rest.last());
        let pre: Seq<Seq<char>> = match l.message {
            Some(m) => if m.len() > 0 {
                seq![m]
            } else {
                Seq::empty()
            },
            None => Seq::empty(),
        };
        match rest.last().message {
            Some(m) => {
                if m.len() > 0 {
                    assert((pre + collected_messages(rest.drop_last())).push(m) =~= pre + collected_messages(
                        rest.drop_last(),
                    ).push(m));
                }
            },
            None => {},
        }
    }
}

/// Joining a message before other messages puts `": "` between it and the
/// joined rest.
proof fn lemma_join_prepend(m: Seq<char>, parts: Seq<Seq<char>>)
    requires
        parts.len() > 0,
    ensures
        join_messages(seq![m] + parts) == m + seq![':', ' '] + join_messages(parts),
    decreases parts.len(),
{
    let x = seq![m] + parts;
    assert(x.drop_last() =~= seq![m] + parts.drop_last());
    assert(x.last() == parts.last());
    if parts.len() == 1 {
        assert(seq![m] + parts.drop_last() =~= seq![m]);
        assert(join_messages(seq![m]) == m);
        assert(join_messages(parts) == parts[0]);
        assert(x.len() == 2);
        assert(join_messages(x) == join_messages(x.drop_last()) + seq![':', ' '] + x.last());
    } else {
        assert(x.len() > 2);
        assert(join_messages(x) == join_messages(x.drop_last()) + seq![':', ' '] + x.last());
        lemma_join_prepend(m, parts.drop_last());
        assert(m + seq![':', ' '] + join_messages(parts.drop_last()) + seq![':', ' '] + parts.last()
            =~= m + seq![':', ' '] + (join_messages(parts.drop_last()) + seq![':', ' '] + parts.last()));
    }
}

/// The full message of an error made with a non-empty message and a child
/// that has messages is that message, `": "`, and the full message of the
/// child.
pub proof fn lemma_full_message_of_new(status: i32, child: Seq<ErrorLinkView>, msg: Seq<char>)
    requires
        msg.len() > 0,
        collected_messages(child).len() > 0,
    ensures
        collected_messages(Error::spec_new(status, Some(child), msg)).len() > 0,
        join_messages(collected_messages(Error::spec_new(status, Some(child), msg))) == msg + seq![':', ' ']
            + join_messages(collected_messages(child)),
{
    let l = ErrorLinkView { apr_err: status, message: Some(msg), file: None, line: 0 };
    lemma_collected_prepend(l, child);
    lemma_join_prepend(msg, collected_messages(child));
}

/// The values of a sequence of links.
pub open spec fn links_view(links: Seq<ErrorLink>) -> Seq<ErrorLinkView> {
    links.map_values(|l: ErrorLink| l@)
}

impl Clone for Error {
    fn clone(&self) -> (r: Self)
        ensures
            r@ == self@,
            self@.len() > 0,
    {
        proof {
            use_type_invariant(self);
        }
        let r = self.suffix(0);
        assert(self@.subrange(0, self@.len() as int) =~= self@);
        r
    }
}

/// The chain of an optional error.
pub open spec fn opt_error_view(e: Option<Error>) -> Option<Seq<ErrorLinkView>> {
    match e {
        Some(x) => Some(x@),
        None => None,
    }
}

/// The non-empty messages of a chain, first to last.
pub open spec fn collected_messages(links: Seq<ErrorLinkView>) -> Seq<Seq<char>>
    decreases links.len(),
{
    if links.len() == 0 {
        Seq::empty()
    } else {
        let rest = collected_messages(links.drop_last());
        match links.last().message {
            Some(m) => if m.len() > 0 {
                rest.push(m)
            } else {
                rest
            },
            None => rest,
        }
    }
}

/// Messages joined by `": "`.
pub open spec fn join_messages(parts: Seq<Seq<char>>) -> Seq<char>
    decreases parts.len(),
{
    if parts.len() == 0 {
        Seq::empty()
    } else if parts.len() == 1 {
        parts[0]
    } else {
        join_messages(parts.drop_last()) + seq![':', ' '] + parts.last()
    }
}

} // verus!
