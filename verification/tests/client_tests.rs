use std::collections::HashMap;

use subversion::client::{
    cancel_check_result, copy_source_revisions, inherited_props_from_items, log_builder_options,
    revnum_after_propget, AddOptions, BlameInfo, BlameOptions, CatOptions, CommitOptions,
    DiffOptions, DiffSummarizeKind, DiffSummarizeOptions, DiffSummary, InfoOptions, ListOptions,
    LogOptions, MergeSourcesOptions, MergeinfoLogOptions, PropGetOptions, PropSetOptions,
    RevertOptions, RevpropSetOptions, StatusOptions, SwitchOptions,
};
use subversion::error::SVN_ERR_CANCELLED;
use subversion::{Depth, Revision, Revnum};

#[test]
fn test_blame_api_structure() {
    // Test that BlameInfo can be constructed and has expected fields
    let info = BlameInfo {
        line_no: 42,
        revision: Revnum::from(123u64),
        revprops: HashMap::new(),
        merged_revision: None,
        merged_revprops: HashMap::new(),
        merged_path: None,
        line: "test line content".to_string(),
        local_change: false,
    };

    assert_eq!(info.line_no, 42);
    assert_eq!(info.revision, Revnum::from(123u64));
    assert_eq!(info.line, "test line content");
    assert!(!info.local_change);
    assert!(info.merged_revision.is_none());
    assert!(info.merged_path.is_none());
}

#[test]
fn test_cat_options_structure() {
    let options = CatOptions {
        revision: Revision::Number(Revnum::from(42u64)),
        peg_revision: Revision::Head,
        expand_keywords: true,
    };

    // Verify options structure
    match options.revision {
        Revision::Number(n) => assert_eq!(n, Revnum::from(42u64)),
        _ => panic!("Expected Number revision"),
    }
    match options.peg_revision {
        Revision::Head => {} // expected
        _ => panic!("Expected Head revision"),
    }
    assert!(options.expand_keywords);

    // Test default
    let default_options = CatOptions::default();
    match default_options.revision {
        Revision::Unspecified => {} // expected default
        _ => panic!("Expected Unspecified revision as default"),
    }
    match default_options.peg_revision {
        Revision::Unspecified => {} // expected default
        _ => panic!("Expected Unspecified peg revision as default"),
    }
    assert!(!default_options.expand_keywords);
}

#[test]
fn blame_info_from_raw_parts() {
    let info = BlameInfo::from_parts(
        7,
        -1,
        HashMap::new(),
        12,
        HashMap::new(),
        Some("/trunk/a".to_string()),
        "x".to_string(),
        5,
    );
    assert_eq!(info.line_no, 7);
    assert_eq!(info.revision, Revnum(0));
    assert_eq!(info.merged_revision, Some(Revnum(12)));
    assert_eq!(info.merged_path.as_deref(), Some("/trunk/a"));
    assert!(info.local_change);

    let info = BlameInfo::from_parts(1, 3, HashMap::new(), -1, HashMap::new(), None, String::new(), 0);
    assert_eq!(info.revision, Revnum(3));
    assert_eq!(info.merged_revision, None);
    assert!(!info.local_change);
}

#[test]
fn cancel_check_reports_cancellation() {
    assert!(cancel_check_result(false).is_none());
    let err = cancel_check_result(true).expect("a cancelled check gives an error");
    assert_eq!(err.raw_apr_err(), SVN_ERR_CANCELLED);
    assert_eq!(err.raw_apr_err(), 200015);
    assert_eq!(err.message(), Some("Operation cancelled by user"));
    assert!(err.child().is_none());
}

#[test]
fn switch_options_defaults_and_builders() {
    let o = SwitchOptions::new();
    assert_eq!(o.peg_revision, Revision::Unspecified);
    assert_eq!(o.revision, Revision::Head);
    assert_eq!(o.depth, Depth::Infinity);
    assert!(!o.depth_is_sticky && !o.ignore_externals && !o.allow_unver_obstructions && !o.ignore_ancestry);
    let o = o
        .with_peg_revision(Revision::Base)
        .with_revision(Revision::Number(Revnum(5)))
        .with_depth(Depth::Files)
        .with_depth_is_sticky(true)
        .with_ignore_externals(true)
        .with_allow_unver_obstructions(true)
        .with_ignore_ancestry(true);
    assert_eq!(o.peg_revision, Revision::Base);
    assert_eq!(o.revision, Revision::Number(Revnum(5)));
    assert_eq!(o.depth, Depth::Files);
    assert!(o.depth_is_sticky && o.ignore_externals && o.allow_unver_obstructions && o.ignore_ancestry);
}

#[test]
fn add_options_defaults_and_builders() {
    let o = AddOptions::default();
    assert_eq!(o.depth, Depth::Infinity);
    assert!(!o.force && !o.no_ignore && !o.no_autoprops && !o.add_parents);
    let o = AddOptions::new().with_depth(Depth::Empty).with_force(true).with_no_ignore(true).with_no_autoprops(true).with_add_parents(true);
    assert_eq!(o.depth, Depth::Empty);
    assert!(o.force && o.no_ignore && o.no_autoprops && o.add_parents);
}

#[test]
fn merge_sources_options_defaults_and_builders() {
    let o = MergeSourcesOptions::new();
    assert!(o.allow_mixed_rev);
    assert!(!o.ignore_mergeinfo && !o.diff_ignore_ancestry && !o.force_delete && !o.record_only && !o.dry_run);
    assert!(o.merge_options.is_none());
    let o = o
        .with_ignore_mergeinfo(true)
        .with_diff_ignore_ancestry(true)
        .with_force_delete(true)
        .with_record_only(true)
        .with_dry_run(true)
        .with_allow_mixed_rev(false)
        .with_merge_options(vec!["--ignore-eol-style".to_string()]);
    assert!(o.ignore_mergeinfo && o.diff_ignore_ancestry && o.force_delete && o.record_only && o.dry_run);
    assert!(!o.allow_mixed_rev);
    assert_eq!(o.merge_options, Some(vec!["--ignore-eol-style".to_string()]));
}

#[test]
fn revert_options_defaults_and_builders() {
    let o = RevertOptions::new();
    assert_eq!(o.depth, Depth::Infinity);
    assert!(o.changelists.is_none() && !o.clear_changelists && !o.metadata_only && !o.added_keep_local);
    let o = o
        .with_depth(Depth::Immediates)
        .with_changelists(vec!["cl".to_string()])
        .with_clear_changelists(true)
        .with_metadata_only(true)
        .with_added_keep_local(true);
    assert_eq!(o.depth, Depth::Immediates);
    assert_eq!(o.changelists, Some(vec!["cl".to_string()]));
    assert!(o.clear_changelists && o.metadata_only && o.added_keep_local);
}

#[test]
fn propget_and_propset_options() {
    let g = PropGetOptions::new();
    assert_eq!(g.peg_revision, Revision::Unspecified);
    assert_eq!(g.revision, Revision::Working);
    assert_eq!(g.depth, Depth::Empty);
    assert!(g.changelists.is_none());
    let g = g.with_peg_revision(Revision::Head).with_revision(Revision::Committed).with_depth(Depth::Infinity).with_changelists(vec![]);
    assert_eq!(g.peg_revision, Revision::Head);
    assert_eq!(g.revision, Revision::Committed);
    assert_eq!(g.depth, Depth::Infinity);
    assert_eq!(g.changelists, Some(vec![]));

    let s = PropSetOptions::new();
    assert_eq!(s.depth, Depth::Empty);
    assert!(!s.skip_checks);
    assert_eq!(s.base_revision_for_url, Revnum(-1));
    let s = s.with_depth(Depth::Files).with_skip_checks(true).with_base_revision_for_url(Revnum(9)).with_changelists(vec!["a".to_string()]);
    assert_eq!(s.depth, Depth::Files);
    assert!(s.skip_checks);
    assert_eq!(s.base_revision_for_url, Revnum(9));
    assert_eq!(s.changelists, Some(vec!["a".to_string()]));
}

#[test]
fn client_diff_options_defaults_and_builders() {
    let o = DiffOptions::new();
    assert!(o.diff_options.is_empty());
    assert_eq!(o.depth, Depth::Infinity);
    assert_eq!(o.header_encoding, "UTF-8");
    assert!(!o.ignore_ancestry && !o.no_diff_added && !o.no_diff_deleted && !o.show_copies_as_adds);
    assert!(!o.ignore_content_type && !o.ignore_properties && !o.properties_only && !o.use_git_diff_format);
    assert!(o.changelists.is_none());
    let o = o
        .with_diff_options(vec!["-u".to_string()])
        .with_depth(Depth::Empty)
        .with_ignore_ancestry(true)
        .with_no_diff_added(true)
        .with_no_diff_deleted(true)
        .with_show_copies_as_adds(true)
        .with_ignore_content_type(true)
        .with_ignore_properties(true)
        .with_properties_only(true)
        .with_use_git_diff_format(true)
        .with_header_encoding("latin1".to_string())
        .with_changelists(vec!["c".to_string()]);
    assert_eq!(o.diff_options, vec!["-u".to_string()]);
    assert_eq!(o.depth, Depth::Empty);
    assert!(o.ignore_ancestry && o.no_diff_added && o.no_diff_deleted && o.show_copies_as_adds);
    assert!(o.ignore_content_type && o.ignore_properties && o.properties_only && o.use_git_diff_format);
    assert_eq!(o.header_encoding, "latin1");
    assert_eq!(o.changelists, Some(vec!["c".to_string()]));
}

#[test]
fn diff_summarize_kind_from_raw_values() {
    assert_eq!(DiffSummarizeKind::from(0u32), DiffSummarizeKind::Normal);
    assert_eq!(DiffSummarizeKind::from(1u32), DiffSummarizeKind::Added);
    assert_eq!(DiffSummarizeKind::from(2u32), DiffSummarizeKind::Modified);
    assert_eq!(DiffSummarizeKind::from(3u32), DiffSummarizeKind::Deleted);
    assert_eq!(DiffSummarizeKind::from(77u32), DiffSummarizeKind::Normal);

    let s = DiffSummary::from_parts("a/b".to_string(), 1, 3, 2);
    assert_eq!(s.path, "a/b");
    assert_eq!(s.kind, DiffSummarizeKind::Added);
    assert!(s.prop_changed);
    assert_eq!(s.node_kind, 2);
    assert!(!DiffSummary::from_parts(String::new(), 0, 0, 1).prop_changed);
}

#[test]
fn diff_summarize_options_defaults_and_builders() {
    let o = DiffSummarizeOptions::new();
    assert_eq!(o.depth, Depth::Infinity);
    assert!(!o.ignore_ancestry && o.changelists.is_none());
    let o = o.with_depth(Depth::Empty).with_ignore_ancestry(true).with_changelists(vec!["x".to_string()]);
    assert_eq!(o.depth, Depth::Empty);
    assert!(o.ignore_ancestry);
    assert_eq!(o.changelists, Some(vec!["x".to_string()]));
}

#[test]
fn log_options_defaults_and_builders() {
    let o = LogOptions::new();
    assert_eq!(o.peg_revision, Revision::Unspecified);
    assert_eq!(o.limit, None);
    assert!(!o.discover_changed_paths && !o.strict_node_history && !o.include_merged_revisions);
    assert!(o.revprops.is_empty());
    let o = o
        .with_peg_revision(Revision::Head)
        .with_limit(10)
        .with_discover_changed_paths(true)
        .with_strict_node_history(true)
        .with_include_merged_revisions(true)
        .with_revprops(vec!["svn:log".to_string()]);
    assert_eq!(o.peg_revision, Revision::Head);
    assert_eq!(o.limit, Some(10));
    assert!(o.discover_changed_paths && o.strict_node_history && o.include_merged_revisions);
    assert_eq!(o.revprops, vec!["svn:log".to_string()]);
}

#[test]
fn mergeinfo_log_options_defaults_and_builders() {
    let o = MergeinfoLogOptions::new();
    assert!(o.finding_merged);
    assert_eq!(o.target_peg_revision, Revision::Head);
    assert_eq!(o.source_peg_revision, Revision::Head);
    assert_eq!(o.source_start_revision, Revision::Head);
    assert_eq!(o.source_end_revision, Revision::Number(Revnum(1)));
    assert!(!o.discover_changed_paths);
    assert_eq!(o.depth, Depth::Empty);
    assert!(o.revprops.is_empty());
    let o = o
        .with_finding_merged(false)
        .with_target_peg_revision(Revision::Base)
        .with_source_peg_revision(Revision::Working)
        .with_source_start_revision(Revision::Number(Revnum(2)))
        .with_source_end_revision(Revision::Number(Revnum(8)))
        .with_discover_changed_paths(true)
        .with_depth(Depth::Infinity)
        .with_revprops(vec!["svn:author".to_string()]);
    assert!(!o.finding_merged);
    assert_eq!(o.target_peg_revision, Revision::Base);
    assert_eq!(o.source_peg_revision, Revision::Working);
    assert_eq!(o.source_start_revision, Revision::Number(Revnum(2)));
    assert_eq!(o.source_end_revision, Revision::Number(Revnum(8)));
    assert!(o.discover_changed_paths);
    assert_eq!(o.depth, Depth::Infinity);
    assert_eq!(o.revprops, vec!["svn:author".to_string()]);
}

#[test]
fn blame_options_defaults_and_builders() {
    let o = BlameOptions::new();
    assert_eq!(o.peg_revision, Revision::Unspecified);
    assert_eq!(o.start_revision, Revision::Number(Revnum(1)));
    assert_eq!(o.end_revision, Revision::Head);
    assert!(o.diff_options.is_empty() && !o.ignore_mime_type && !o.include_merged_revisions);
    let o = o
        .with_peg_revision(Revision::Head)
        .with_start_revision(Revision::Number(Revnum(3)))
        .with_end_revision(Revision::Number(Revnum(4)))
        .with_diff_options(vec!["-w".to_string()])
        .with_ignore_mime_type(true)
        .with_include_merged_revisions(true);
    assert_eq!(o.peg_revision, Revision::Head);
    assert_eq!(o.start_revision, Revision::Number(Revnum(3)));
    assert_eq!(o.end_revision, Revision::Number(Revnum(4)));
    assert_eq!(o.diff_options, vec!["-w".to_string()]);
    assert!(o.ignore_mime_type && o.include_merged_revisions);
}

#[test]
fn revprop_set_options_defaults_and_builders() {
    let o = RevpropSetOptions::new();
    assert_eq!(o.revision, Revision::Head);
    assert!(o.original_propval.is_none() && !o.force);
    let o = o.with_revision(Revision::Number(Revnum(6))).with_original_propval(b"old".to_vec()).with_force(true);
    assert_eq!(o.revision, Revision::Number(Revnum(6)));
    assert_eq!(o.original_propval, Some(b"old".to_vec()));
    assert!(o.force);
}

#[test]
fn list_options_defaults_and_builders() {
    let o = ListOptions::new();
    assert_eq!(o.peg_revision, Revision::Unspecified);
    assert_eq!(o.revision, Revision::Head);
    assert!(o.patterns.is_none());
    assert_eq!(o.depth, Depth::Infinity);
    assert_eq!(o.dirent_fields, 0xFFFFFFFF);
    assert!(!o.fetch_locks && !o.include_externals);
    let o = o
        .with_peg_revision(Revision::Base)
        .with_revision(Revision::Working)
        .with_patterns(vec!["*.rs".to_string()])
        .with_depth(Depth::Immediates)
        .with_dirent_fields(3)
        .with_fetch_locks(true)
        .with_include_externals(true);
    assert_eq!(o.peg_revision, Revision::Base);
    assert_eq!(o.revision, Revision::Working);
    assert_eq!(o.patterns, Some(vec!["*.rs".to_string()]));
    assert_eq!(o.depth, Depth::Immediates);
    assert_eq!(o.dirent_fields, 3);
    assert!(o.fetch_locks && o.include_externals);
}

#[test]
fn info_options_defaults_and_builders() {
    let o = InfoOptions::new();
    assert_eq!(o.peg_revision, Revision::Unspecified);
    assert_eq!(o.revision, Revision::Working);
    assert_eq!(o.depth, Depth::Empty);
    assert!(!o.fetch_excluded && !o.fetch_actual_only && !o.include_externals && o.changelists.is_none());
    let o = o
        .with_peg_revision(Revision::Head)
        .with_revision(Revision::Head)
        .with_depth(Depth::Infinity)
        .with_fetch_excluded(true)
        .with_fetch_actual_only(true)
        .with_include_externals(true)
        .with_changelists(vec!["l".to_string()]);
    assert_eq!(o.peg_revision, Revision::Head);
    assert_eq!(o.revision, Revision::Head);
    assert_eq!(o.depth, Depth::Infinity);
    assert!(o.fetch_excluded && o.fetch_actual_only && o.include_externals);
    assert_eq!(o.changelists, Some(vec!["l".to_string()]));
}

#[test]
fn commit_options_defaults_and_builders() {
    let o = CommitOptions::new();
    assert_eq!(o.depth, Depth::Infinity);
    assert!(o.commit_as_operations);
    assert!(!o.keep_locks && !o.keep_changelists && !o.include_file_externals && !o.include_dir_externals);
    assert!(o.changelists.is_none());
    let o = o
        .with_depth(Depth::Files)
        .with_keep_locks(true)
        .with_keep_changelists(true)
        .with_commit_as_operations(false)
        .with_include_file_externals(true)
        .with_include_dir_externals(true)
        .with_changelists(vec!["m".to_string()]);
    assert_eq!(o.depth, Depth::Files);
    assert!(o.keep_locks && o.keep_changelists && !o.commit_as_operations);
    assert!(o.include_file_externals && o.include_dir_externals);
    assert_eq!(o.changelists, Some(vec!["m".to_string()]));
}

#[test]
fn status_options_defaults_and_builders() {
    let o = StatusOptions::new();
    assert_eq!(o.revision, Revision::Working);
    assert_eq!(o.depth, Depth::Infinity);
    assert!(o.check_working_copy);
    assert!(!o.get_all && !o.check_out_of_date && !o.no_ignore && !o.ignore_externals && !o.depth_as_sticky);
    assert!(o.changelists.is_none());
    let o = o
        .with_revision(Revision::Head)
        .with_depth(Depth::Empty)
        .with_get_all(true)
        .with_check_out_of_date(true)
        .with_check_working_copy(false)
        .with_no_ignore(true)
        .with_ignore_externals(true)
        .with_depth_as_sticky(true)
        .with_changelists(vec!["s".to_string()]);
    assert_eq!(o.revision, Revision::Head);
    assert_eq!(o.depth, Depth::Empty);
    assert!(o.get_all && o.check_out_of_date && !o.check_working_copy);
    assert!(o.no_ignore && o.ignore_externals && o.depth_as_sticky);
    assert_eq!(o.changelists, Some(vec!["s".to_string()]));
}

#[test]
fn copy_sources_default_to_head() {
    assert_eq!(copy_source_revisions(None), (Revision::Head, Revision::Head));
    assert_eq!(
        copy_source_revisions(Some(Revision::Number(Revnum(7)))),
        (Revision::Number(Revnum(7)), Revision::Head)
    );
    assert_eq!(copy_source_revisions(Some(Revision::Base)), (Revision::Base, Revision::Head));
}

#[test]
fn log_builder_options_follow_the_builder() {
    let unlimited = log_builder_options(Revision::Head, 0, false, true, false, Vec::new());
    assert_eq!(unlimited.peg_revision, Revision::Head);
    assert_eq!(unlimited.limit, None);
    assert!(!unlimited.discover_changed_paths);
    assert!(unlimited.strict_node_history);
    assert!(!unlimited.include_merged_revisions);
    assert!(unlimited.revprops.is_empty());

    let limited = log_builder_options(
        Revision::Number(Revnum(3)),
        5,
        true,
        false,
        true,
        vec!["svn:log".to_string()],
    );
    assert_eq!(limited.peg_revision, Revision::Number(Revnum(3)));
    assert_eq!(limited.limit, Some(5));
    assert!(limited.discover_changed_paths);
    assert!(!limited.strict_node_history);
    assert!(limited.include_merged_revisions);
    assert_eq!(limited.revprops, vec!["svn:log".to_string()]);

    let negative = log_builder_options(Revision::Head, -1, false, false, false, Vec::new());
    assert_eq!(negative.limit, Some(-1));
}

#[test]
fn inherited_props_skip_missing_items_and_keep_order() {
    let mut props = HashMap::new();
    props.insert("svn:ignore".to_string(), b"*.o".to_vec());
    let items = vec![
        Some((Some("https://svn.example.com/repo".to_string()), Some(props.clone()))),
        None,
        Some((None, None)),
        Some((Some("/wc/trunk".to_string()), None)),
    ];
    let got = inherited_props_from_items(items);
    assert_eq!(got.len(), 3);
    assert_eq!(got[0].path_or_url, "https://svn.example.com/repo");
    assert_eq!(got[0].properties, props);
    assert_eq!(got[1].path_or_url, "");
    assert!(got[1].properties.is_empty());
    assert_eq!(got[2].path_or_url, "/wc/trunk");
    assert!(got[2].properties.is_empty());

    assert!(inherited_props_from_items(vec![None, None]).is_empty());
    assert!(inherited_props_from_items(Vec::new()).is_empty());
}

#[test]
fn propget_revnum_changes_only_on_success() {
    assert_eq!(revnum_after_propget(true, Revnum(3), 42), Revnum(42));
    assert_eq!(revnum_after_propget(false, Revnum(3), 42), Revnum(3));
}
