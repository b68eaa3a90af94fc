use subversion::diff::{DiffOptions, FileOptions, IgnoreSpace};

#[test]
fn test_file_options() {
    let _options = FileOptions::default()
        .with_ignore_whitespace(true)
        .with_ignore_eol_style(true)
        .with_show_c_function(false);

    // Test that the builder pattern works
    assert!(true);
}

#[test]
fn file_options_builders_set_fields() {
    let o = FileOptions::new();
    assert!(matches!(o.ignore_space, IgnoreSpace::Off));
    assert!(!o.ignore_eol_style && !o.show_c_function);
    let o = o.with_ignore_whitespace(true).with_ignore_eol_style(true).with_show_c_function(true);
    assert!(matches!(o.ignore_space, IgnoreSpace::Change));
    assert!(o.ignore_eol_style && o.show_c_function);
    let o = o.with_ignore_whitespace(false);
    assert!(matches!(o.ignore_space, IgnoreSpace::Off));
}

#[test]
fn file_options_raw_values() {
    let raw = FileOptions::new().to_raw();
    assert_eq!((raw.ignore_space, raw.ignore_eol_style, raw.show_c_function), (0, 0, 0));
    let raw = FileOptions::new().with_ignore_whitespace(true).with_show_c_function(true).to_raw();
    assert_eq!((raw.ignore_space, raw.ignore_eol_style, raw.show_c_function), (1, 0, 1));
    let all = FileOptions { ignore_space: IgnoreSpace::All, ignore_eol_style: true, show_c_function: false };
    let raw = all.to_raw();
    assert_eq!((raw.ignore_space, raw.ignore_eol_style, raw.show_c_function), (2, 1, 0));
    assert_eq!(u32::from(IgnoreSpace::Change), 1);
}

#[test]
fn diff_options_builders_set_fields() {
    let o = DiffOptions::new();
    assert!(!o.ignore_whitespace && !o.ignore_eol_style && !o.show_c_function);
    let o = o.with_ignore_whitespace(true).with_ignore_eol_style(true).with_show_c_function(true);
    assert!(o.ignore_whitespace && o.ignore_eol_style && o.show_c_function);
    let o = o.with_ignore_eol_style(false);
    assert!(o.ignore_whitespace && !o.ignore_eol_style && o.show_c_function);
}
