use ouch::utils::{get_invalid_utf8_paths, is_invalid_utf8, PathName};

#[test]
fn utf8_path_is_valid() {
    let p = PathName::Utf8("dir/file1.txt".to_string());
    assert!(!is_invalid_utf8(&p));
}

#[test]
fn non_utf8_path_is_invalid() {
    let p = PathName::NonUtf8(vec![0x66, 0x6f, 0xff, 0x6f]);
    assert!(is_invalid_utf8(&p));
}

#[test]
fn filters_only_invalid_paths_in_order() {
    let bad1 = PathName::NonUtf8(vec![0xff, 0xfe]);
    let good = PathName::Utf8("ok.txt".to_string());
    let bad2 = PathName::NonUtf8(vec![0xc0]);
    let paths = vec![bad1.clone(), good, bad2.clone()];
    let invalid = get_invalid_utf8_paths(&paths);
    assert_eq!(invalid, vec![&bad1, &bad2]);
}

#[test]
fn all_valid_paths_filter_to_nothing() {
    let paths = vec![
        PathName::Utf8("a".to_string()),
        PathName::Utf8("b".to_string()),
    ];
    assert!(get_invalid_utf8_paths(&paths).is_empty());
}
