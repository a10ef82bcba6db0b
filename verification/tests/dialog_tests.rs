use centered_engine::dialog::{
    dialog_directory, dialog_extensions, dialog_filter, dialog_title, selected_paths_result,
    DialogKind,
};

#[test]
fn extensions_are_split_trimmed_and_nonempty() {
    assert_eq!(dialog_extensions("png,jpg,jpeg"), vec!["png", "jpg", "jpeg"]);
    assert_eq!(dialog_extensions(" png , jpg ,, \t,jpeg "), vec!["png", "jpg", "jpeg"]);
    assert_eq!(dialog_extensions(""), Vec::<String>::new());
    assert_eq!(dialog_extensions(",,"), Vec::<String>::new());
    assert_eq!(dialog_extensions("tar gz"), vec!["tar gz"]);
    // The same as the standard library's split, trim and filter.
    for f in ["a,b", "\u{3000}x\u{a0},y", " ,", "é,ü ,\n"] {
        let expected: Vec<String> =
            f.split(',').map(|s| s.trim()).filter(|s| !s.is_empty()).map(String::from).collect();
        assert_eq!(dialog_extensions(f), expected);
    }
}

#[test]
fn filter_only_when_extensions_are_named() {
    assert_eq!(dialog_filter(None), None);
    assert_eq!(dialog_filter(Some(" , ")), None);
    assert_eq!(dialog_filter(Some("png")), Some(vec!["png".to_string()]));
}

#[test]
fn titles_and_directories() {
    assert_eq!(dialog_title(None, DialogKind::Open), "Open File");
    assert_eq!(dialog_title(Some(""), DialogKind::Save), "Save File");
    assert_eq!(dialog_title(Some("Pick"), DialogKind::Save), "Pick");
    assert_eq!(dialog_directory(None), None);
    assert_eq!(dialog_directory(Some("")), None);
    assert_eq!(dialog_directory(Some("/tmp")), Some("/tmp".to_string()));
}

#[test]
fn chosen_paths_as_json() {
    assert_eq!(selected_paths_result(None), None);
    assert_eq!(
        selected_paths_result(Some(vec!["/a/b.png".to_string(), "c \"d\"".to_string()])),
        Some("[\"/a/b.png\",\"c \\\"d\\\"\"]".to_string())
    );
    assert_eq!(selected_paths_result(Some(vec![])), Some("[]".to_string()));
    assert_eq!(
        selected_paths_result(Some(vec!["a\\b\u{1}\n\t\u{7f}é".to_string()])),
        Some("[\"a\\\\b\\u0001\\n\\t\u{7f}é\"]".to_string())
    );
}
