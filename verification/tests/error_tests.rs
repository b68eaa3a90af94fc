use subversion::error::{
    category_of_code, ErrorLink, GENERAL_ERROR_STATUS, SVN_ERR_APMOD_CATEGORY_START,
    SVN_ERR_AUTHN_CATEGORY_START, SVN_ERR_AUTHZ_CATEGORY_START, SVN_ERR_BAD_CATEGORY_START,
    SVN_ERR_CATEGORY_SIZE, SVN_ERR_CLIENT_CATEGORY_START, SVN_ERR_CL_CATEGORY_START,
    SVN_ERR_DIFF_CATEGORY_START, SVN_ERR_ENTRY_CATEGORY_START, SVN_ERR_FS_CATEGORY_START,
    SVN_ERR_IO_CATEGORY_START, SVN_ERR_MALFUNC_CATEGORY_START, SVN_ERR_MISC_CATEGORY_START,
    SVN_ERR_NODE_CATEGORY_START, SVN_ERR_RA_CATEGORY_START, SVN_ERR_RA_DAV_CATEGORY_START,
    SVN_ERR_RA_LOCAL_CATEGORY_START, SVN_ERR_RA_SERF_CATEGORY_START,
    SVN_ERR_RA_SVN_CATEGORY_START, SVN_ERR_REPOS_CATEGORY_START, SVN_ERR_STREAM_CATEGORY_START,
    SVN_ERR_SVNDIFF_CATEGORY_START, SVN_ERR_WC_CATEGORY_START, SVN_ERR_X509_CATEGORY_START,
    SVN_ERR_XML_CATEGORY_START,
};
use subversion::{Error, ErrorCategory};

fn make_error(code: u32) -> Error {
    Error::with_raw_status(code as i32, None, "Test")
}

#[test]
fn test_error_chain_formatting() {
    // Create a chain of errors
    let child_err = Error::from_message("Child error");
    let parent_err = Error::new(GENERAL_ERROR_STATUS, Some(child_err), "Parent error");

    let full_msg = parent_err.full_message("");
    assert!(full_msg.contains("Parent error"));
    assert!(full_msg.contains("Child error"));
    assert!(full_msg.contains(": ")); // Check for separator
    assert_eq!(full_msg, "Parent error: Child error");
}

#[test]
fn test_single_error_message() {
    let err = Error::from_message("Single error");
    assert_eq!(err.message(), Some("Single error"));

    let full_msg = err.full_message("");
    assert!(full_msg.contains("Single error"));
}

#[test]
fn test_error_category() {
    let io_err = Error::with_raw_status(SVN_ERR_IO_CATEGORY_START as i32, None, "I/O error");
    assert_eq!(io_err.category(), ErrorCategory::Io);

    let auth_err = Error::with_raw_status(SVN_ERR_AUTHN_CATEGORY_START as i32, None, "Auth error");
    assert_eq!(auth_err.category(), ErrorCategory::Authentication);

    let authz_err = Error::with_raw_status(SVN_ERR_AUTHZ_CATEGORY_START as i32, None, "Authz error");
    assert_eq!(authz_err.category(), ErrorCategory::Authorization);

    let wc_err = Error::with_raw_status(SVN_ERR_WC_CATEGORY_START as i32, None, "WC error");
    assert_eq!(wc_err.category(), ErrorCategory::WorkingCopy);

    let repos_err = Error::with_raw_status(SVN_ERR_REPOS_CATEGORY_START as i32, None, "Repos error");
    assert_eq!(repos_err.category(), ErrorCategory::Repository);

    let misc_err = Error::with_raw_status(SVN_ERR_MISC_CATEGORY_START as i32, None, "Misc error");
    assert_eq!(misc_err.category(), ErrorCategory::Misc);
}

#[test]
fn test_error_location_returns_value() {
    let err = Error::from_links(vec![ErrorLink {
        apr_err: SVN_ERR_IO_CATEGORY_START as i32,
        message: Some("Test error".to_string()),
        file: Some("test_file.c".to_string()),
        line: 42,
    }])
    .unwrap();

    let location = err.location();
    assert!(location.is_some(), "Error with file/line should have location");
    let (file, line) = location.unwrap();
    assert_eq!(file, "test_file.c", "File name should match");
    assert_eq!(line, 42, "Line number should match");
}

#[test]
fn test_error_category_boundary_conditions() {
    let category_size = SVN_ERR_CATEGORY_SIZE;

    assert_eq!(make_error(SVN_ERR_BAD_CATEGORY_START).category(), ErrorCategory::BadInput, "Start of BadInput range");
    assert_eq!(make_error(SVN_ERR_BAD_CATEGORY_START + category_size - 1).category(), ErrorCategory::BadInput, "End of BadInput range");
    assert_eq!(make_error(SVN_ERR_BAD_CATEGORY_START - 1).category(), ErrorCategory::Other, "Just before BadInput range");

    assert_eq!(make_error(SVN_ERR_XML_CATEGORY_START).category(), ErrorCategory::Xml, "Start of Xml range");
    assert_eq!(make_error(SVN_ERR_XML_CATEGORY_START + category_size - 1).category(), ErrorCategory::Xml, "End of Xml range");
    assert_eq!(make_error(SVN_ERR_XML_CATEGORY_START + category_size).category(), ErrorCategory::Io, "Just after Xml range should be Io");

    let ranges = [
        (SVN_ERR_IO_CATEGORY_START, ErrorCategory::Io),
        (SVN_ERR_STREAM_CATEGORY_START, ErrorCategory::Stream),
        (SVN_ERR_NODE_CATEGORY_START, ErrorCategory::Node),
        (SVN_ERR_ENTRY_CATEGORY_START, ErrorCategory::Entry),
        (SVN_ERR_WC_CATEGORY_START, ErrorCategory::WorkingCopy),
        (SVN_ERR_FS_CATEGORY_START, ErrorCategory::Filesystem),
        (SVN_ERR_REPOS_CATEGORY_START, ErrorCategory::Repository),
        (SVN_ERR_RA_CATEGORY_START, ErrorCategory::RepositoryAccess),
        (SVN_ERR_RA_DAV_CATEGORY_START, ErrorCategory::RaDav),
        (SVN_ERR_RA_LOCAL_CATEGORY_START, ErrorCategory::RaLocal),
        (SVN_ERR_SVNDIFF_CATEGORY_START, ErrorCategory::Svndiff),
        (SVN_ERR_APMOD_CATEGORY_START, ErrorCategory::ApacheMod),
        (SVN_ERR_CLIENT_CATEGORY_START, ErrorCategory::Client),
        (SVN_ERR_MISC_CATEGORY_START, ErrorCategory::Misc),
        (SVN_ERR_CL_CATEGORY_START, ErrorCategory::CommandLine),
        (SVN_ERR_RA_SVN_CATEGORY_START, ErrorCategory::RaSvn),
        (SVN_ERR_AUTHN_CATEGORY_START, ErrorCategory::Authentication),
        (SVN_ERR_AUTHZ_CATEGORY_START, ErrorCategory::Authorization),
        (SVN_ERR_DIFF_CATEGORY_START, ErrorCategory::Diff),
        (SVN_ERR_RA_SERF_CATEGORY_START, ErrorCategory::RaSerf),
        (SVN_ERR_MALFUNC_CATEGORY_START, ErrorCategory::Malfunction),
        (SVN_ERR_X509_CATEGORY_START, ErrorCategory::X509),
    ];
    for (start, cat) in ranges {
        assert_eq!(make_error(start).category(), cat, "Start of range");
        assert_eq!(make_error(start + category_size - 1).category(), cat, "End of range");
    }
    assert_eq!(make_error(SVN_ERR_X509_CATEGORY_START + category_size).category(), ErrorCategory::Other, "Just after X509 range");

    assert_eq!(make_error(0).category(), ErrorCategory::Other, "Zero should be Other");
    assert_eq!(make_error(1000).category(), ErrorCategory::Other, "Small values should be Other");
    assert_eq!(make_error(300000).category(), ErrorCategory::Other, "Values beyond all categories should be Other");
}

#[test]
fn test_error_best_message_returns_actual_message() {
    let err = Error::with_raw_status(SVN_ERR_IO_CATEGORY_START as i32, None, "Specific error message");

    let msg = err.best_message("xyzzy");
    assert!(!msg.is_empty(), "best_message should not be empty");
    assert_ne!(msg, "xyzzy", "best_message should not be 'xyzzy'");
    assert_eq!(msg, "Specific error message", "best_message should return exact message, got '{}'", msg);
}

#[test]
fn test_error_child_returns_none_when_no_child() {
    let err = Error::with_raw_status(SVN_ERR_IO_CATEGORY_START as i32, None, "Error without child");
    let child = err.child();
    assert!(child.is_none(), "child() should return None when no child exists");
}

#[test]
fn test_error_find_cause_returns_none_for_non_matching_status() {
    let err = Error::with_raw_status(SVN_ERR_IO_CATEGORY_START as i32, None, "Test error");
    let different_err = Error::with_raw_status((SVN_ERR_CLIENT_CATEGORY_START + 100) as i32, None, "Different error");
    let different_status = different_err.raw_apr_err();

    let found = err.find_cause(different_status);
    assert!(found.is_none(), "find_cause() should return None when status doesn't match any error in chain");
}

#[test]
fn test_error_child_returns_actual_child() {
    let child_err = Error::with_raw_status(SVN_ERR_IO_CATEGORY_START as i32, None, "Child error");
    let parent_err = Error::with_raw_status(SVN_ERR_CLIENT_CATEGORY_START as i32, Some(child_err), "Parent error");

    let child = parent_err.child();
    assert!(child.is_some(), "child() should return Some when child exists");

    let child_err = child.unwrap();
    assert_eq!(child_err.category(), ErrorCategory::Io, "Child error should have Io category");
    assert!(child_err.message().unwrap().contains("Child error"), "Child error should have correct message");
}

#[test]
fn test_error_find_cause_returns_matching_error() {
    let child_err = Error::from_message("Child error");
    let parent_status = 12345;
    let parent_err = Error::new(parent_status, Some(child_err), "Parent error");

    let found = parent_err.find_cause(parent_status);
    assert!(found.is_some(), "find_cause() should find error with matching status");

    let found_err = found.unwrap();
    assert_eq!(found_err.raw_apr_err(), parent_status, "Found error should have correct status");
    assert_eq!(found_err.message(), Some("Parent error"));
    assert!(found_err.child().is_some());
}

#[test]
fn test_error_category_off_by_one_and_midrange() {
    let category_size = SVN_ERR_CATEGORY_SIZE;
    let categories = vec![
        (SVN_ERR_BAD_CATEGORY_START, ErrorCategory::BadInput, "BadInput"),
        (SVN_ERR_XML_CATEGORY_START, ErrorCategory::Xml, "Xml"),
        (SVN_ERR_IO_CATEGORY_START, ErrorCategory::Io, "Io"),
        (SVN_ERR_STREAM_CATEGORY_START, ErrorCategory::Stream, "Stream"),
        (SVN_ERR_NODE_CATEGORY_START, ErrorCategory::Node, "Node"),
        (SVN_ERR_ENTRY_CATEGORY_START, ErrorCategory::Entry, "Entry"),
        (SVN_ERR_WC_CATEGORY_START, ErrorCategory::WorkingCopy, "WorkingCopy"),
        (SVN_ERR_FS_CATEGORY_START, ErrorCategory::Filesystem, "Filesystem"),
        (SVN_ERR_REPOS_CATEGORY_START, ErrorCategory::Repository, "Repository"),
        (SVN_ERR_RA_CATEGORY_START, ErrorCategory::RepositoryAccess, "RepositoryAccess"),
        (SVN_ERR_RA_DAV_CATEGORY_START, ErrorCategory::RaDav, "RaDav"),
        (SVN_ERR_RA_LOCAL_CATEGORY_START, ErrorCategory::RaLocal, "RaLocal"),
        (SVN_ERR_SVNDIFF_CATEGORY_START, ErrorCategory::Svndiff, "Svndiff"),
        (SVN_ERR_APMOD_CATEGORY_START, ErrorCategory::ApacheMod, "ApacheMod"),
        (SVN_ERR_CLIENT_CATEGORY_START, ErrorCategory::Client, "Client"),
        (SVN_ERR_MISC_CATEGORY_START, ErrorCategory::Misc, "Misc"),
        (SVN_ERR_CL_CATEGORY_START, ErrorCategory::CommandLine, "CommandLine"),
        (SVN_ERR_RA_SVN_CATEGORY_START, ErrorCategory::RaSvn, "RaSvn"),
        (SVN_ERR_AUTHN_CATEGORY_START, ErrorCategory::Authentication, "Authentication"),
        (SVN_ERR_AUTHZ_CATEGORY_START, ErrorCategory::Authorization, "Authorization"),
        (SVN_ERR_DIFF_CATEGORY_START, ErrorCategory::Diff, "Diff"),
        (SVN_ERR_RA_SERF_CATEGORY_START, ErrorCategory::RaSerf, "RaSerf"),
        (SVN_ERR_MALFUNC_CATEGORY_START, ErrorCategory::Malfunction, "Malfunction"),
        (SVN_ERR_X509_CATEGORY_START, ErrorCategory::X509, "X509"),
    ];

    for (start, expected_cat, name) in categories {
        assert_eq!(make_error(start).category(), expected_cat, "{}: START should be in category", name);
        assert_eq!(make_error(start + 1).category(), expected_cat, "{}: START+1 should be in category", name);
        let mid = start + category_size / 2;
        assert_eq!(make_error(mid).category(), expected_cat, "{}: MID should be in category", name);
        assert_eq!(make_error(start + category_size - 2).category(), expected_cat, "{}: END-2 should be in category", name);
        assert_eq!(make_error(start + category_size - 1).category(), expected_cat, "{}: END-1 (last valid) should be in category", name);
        assert_ne!(make_error(start + category_size).category(), expected_cat, "{}: END should NOT be in category", name);
        if start > 1000 {
            assert_ne!(make_error(start - 1).category(), expected_cat, "{}: START-1 should NOT be in category", name);
        }
    }

    assert_eq!(make_error(100).category(), ErrorCategory::Other, "Value below all categories should be Other");
    assert_eq!(make_error(500000).category(), ErrorCategory::Other, "Value above all categories should be Other");

    let between = SVN_ERR_BAD_CATEGORY_START + category_size;
    let between_cat = make_error(between).category();
    assert_ne!(between_cat, ErrorCategory::BadInput, "Value just after BadInput should not be BadInput");
}

#[test]
fn test_raw_apr_err_preserves_svn_error_codes() {
    let cancelled_code = 200015;
    let err = Error::with_raw_status(cancelled_code, None, "cancelled");
    assert_eq!(err.raw_apr_err(), cancelled_code);
}

#[test]
fn test_with_raw_status_creates_distinguishable_errors() {
    let cancelled_code = 200015;
    let fs_not_found_code = 160013;

    let err1 = Error::with_raw_status(cancelled_code, None, "cancelled");
    let err2 = Error::with_raw_status(fs_not_found_code, None, "not found");

    assert_ne!(err1.raw_apr_err(), err2.raw_apr_err());
    assert_eq!(err1.raw_apr_err(), cancelled_code);
    assert_eq!(err2.raw_apr_err(), fs_not_found_code);
}

#[test]
fn test_with_raw_status_message_and_child() {
    let child = Error::from_message("child error");
    let parent = Error::with_raw_status(200015, Some(child), "parent error");

    assert_eq!(parent.message(), Some("parent error"));
    let full = parent.full_message("");
    assert!(full.contains("parent error"));
    assert!(full.contains("child error"));
}

#[test]
fn negative_codes_are_other() {
    assert_eq!(Error::with_raw_status(-5, None, "neg").category(), ErrorCategory::Other);
    assert_eq!(category_of_code(u32::MAX), ErrorCategory::Other);
    assert_eq!(category_of_code(SVN_ERR_X509_CATEGORY_START + SVN_ERR_CATEGORY_SIZE - 1), ErrorCategory::X509);
}

#[test]
fn errors_carry_no_location_unless_given() {
    let err = Error::from_message("plain");
    assert_eq!(err.raw_apr_err(), GENERAL_ERROR_STATUS);
    assert_eq!(err.file(), None);
    assert_eq!(err.line(), 0);
    assert!(err.location().is_none());
}

#[test]
fn full_message_skips_empty_and_missing_messages() {
    let err = Error::from_links(vec![
        ErrorLink { apr_err: 1, message: None, file: None, line: 0 },
        ErrorLink { apr_err: 2, message: Some("first".to_string()), file: None, line: 0 },
        ErrorLink { apr_err: 3, message: Some(String::new()), file: None, line: 0 },
        ErrorLink { apr_err: 4, message: Some("second".to_string()), file: None, line: 0 },
    ])
    .unwrap();
    assert_eq!(err.full_message("unused"), "first: second");

    let silent = Error::from_links(vec![ErrorLink { apr_err: 9, message: None, file: None, line: 0 }]).unwrap();
    assert_eq!(silent.full_message("code nine"), "code nine");
    assert_eq!(silent.best_message("code nine"), "code nine");

    let empty = Error::from_links(vec![ErrorLink { apr_err: 9, message: Some(String::new()), file: None, line: 0 }]).unwrap();
    assert_eq!(empty.full_message("code nine"), "");

    assert!(Error::from_links(Vec::new()).is_none());
}

#[test]
fn find_cause_returns_first_match_and_rest() {
    let err = Error::from_links(vec![
        ErrorLink { apr_err: 1, message: Some("a".to_string()), file: None, line: 0 },
        ErrorLink { apr_err: 2, message: Some("b".to_string()), file: None, line: 0 },
        ErrorLink { apr_err: 2, message: Some("c".to_string()), file: None, line: 0 },
        ErrorLink { apr_err: 3, message: Some("d".to_string()), file: None, line: 0 },
    ])
    .unwrap();
    let found = err.find_cause(2).unwrap();
    assert_eq!(found.message(), Some("b"));
    assert_eq!(found.full_message(""), "b: c: d");
    let copy = err.clone();
    assert_eq!(copy.full_message(""), "a: b: c: d");
    assert_eq!(err.child().unwrap().full_message(""), "b: c: d");
}

#[test]
fn child_of_made_error_is_the_given_child() {
    let grandchild = Error::with_raw_status(140001, None, "grandchild");
    let child = Error::with_raw_status(160013, Some(grandchild), "child");
    let parent = Error::with_raw_status(200015, Some(child.clone()), "parent");
    let got = parent.child().expect("an error made with a child has one");
    assert_eq!(got.raw_apr_err(), child.raw_apr_err());
    assert_eq!(got.message(), child.message());
    assert_eq!(got.full_message(""), child.full_message(""));
    assert_eq!(got.child().unwrap().message(), Some("grandchild"));
    assert!(Error::with_raw_status(1, None, "alone").child().is_none());
}

fn link(apr_err: i32, message: Option<&str>) -> ErrorLink {
    ErrorLink { apr_err, message: message.map(|m| m.to_string()), file: None, line: 0 }
}

#[test]
fn best_message_skips_tracing_links() {
    let err = Error::from_links(vec![
        link(160013, Some("traced call")),
        link(160013, Some("traced call")),
        link(160013, Some("Path not found")),
        link(2, Some("inner")),
    ])
    .unwrap();
    assert_eq!(err.best_message("unused"), "Path not found");
    assert_eq!(err.full_message("unused"), "traced call: traced call: Path not found: inner");

    let silent = Error::from_links(vec![link(160013, Some("traced call")), link(7, None)]).unwrap();
    assert_eq!(silent.best_message("code seven"), "code seven");

    let plain = Error::from_links(vec![link(3, Some("traced calls")), link(4, Some("x"))]).unwrap();
    assert_eq!(plain.best_message("unused"), "traced calls");
}

#[test]
fn purge_tracing_keeps_real_errors_in_order() {
    let err = Error::from_links(vec![
        link(1, Some("traced call")),
        link(2, Some("outer")),
        link(3, Some("traced call")),
        link(4, None),
    ])
    .unwrap();
    let purged = err.purge_tracing();
    assert_eq!(purged.raw_apr_err(), 2);
    assert_eq!(purged.message(), Some("outer"));
    let rest = purged.child().unwrap();
    assert_eq!(rest.raw_apr_err(), 4);
    assert_eq!(rest.message(), None);
    assert!(rest.child().is_none());

    let untraced = Error::with_raw_status(5, None, "alone");
    let same = untraced.purge_tracing();
    assert_eq!(same.raw_apr_err(), 5);
    assert_eq!(same.message(), Some("alone"));
    assert!(same.child().is_none());
}
