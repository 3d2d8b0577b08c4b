use pseudo_latex::label::{get_algorithm_label, label_from_file_name, FilePath, LabelResult};

fn path(parts: &[&str], extension: Option<&str>) -> FilePath {
    FilePath {
        parts: parts.iter().map(|p| Some(p.to_string())).collect(),
        extension: extension.map(|e| e.to_string()),
    }
}

#[test]
fn test_label_from_file_name() {
    let file_name = path(&["file", "inside", "directory", "test.algo"], Some("algo"));
    let res = label_from_file_name(&file_name);
    match res {
        LabelResult::Success(Some(label)) => {
            assert_eq!(label, "algo:file-inside-directory-test")
        }
        _ => panic!("This test results in: {:?}", res),
    }
}

#[test]
fn label_without_extension_keeps_whole_name() {
    let file_name = path(&["dir", "notes"], None);
    match label_from_file_name(&file_name) {
        LabelResult::Success(Some(label)) => assert_eq!(label, "algo:dir-notes"),
        _ => panic!("expected a label"),
    }
}

#[test]
fn label_strips_only_last_extension() {
    let file_name = path(&["a.b.algo"], Some("algo"));
    match label_from_file_name(&file_name) {
        LabelResult::Success(Some(label)) => assert_eq!(label, "algo:a.b"),
        _ => panic!("expected a label"),
    }
}

#[test]
fn label_from_non_text_component_is_error() {
    let file_name = FilePath {
        parts: vec![Some("dir".to_string()), None, Some("x.algo".to_string())],
        extension: Some("algo".to_string()),
    };
    let res = label_from_file_name(&file_name);
    assert!(matches!(res, LabelResult::Error));
    let msg = res.parse_result().unwrap_err();
    assert_eq!(
        msg,
        "Given file name cannot be converted in a UTF-8 string: cannot generate label from file name"
    );
}

#[test]
fn given_label_is_kept() {
    let file_name = path(&["x.algo"], Some("algo"));
    let res = get_algorithm_label(Some(Some("mine".to_string())), &file_name);
    assert_eq!(res.parse_result().unwrap(), Some("mine".to_string()));
}

#[test]
fn label_asked_without_text_comes_from_file() {
    let file_name = path(&["src", "sort.algo"], Some("algo"));
    let res = get_algorithm_label(Some(None), &file_name);
    assert_eq!(res.parse_result().unwrap(), Some("algo:src-sort".to_string()));
}

#[test]
fn no_label_asked_gives_none() {
    let file_name = path(&["src", "sort.algo"], Some("algo"));
    let res = get_algorithm_label(None, &file_name);
    assert_eq!(res.parse_result().unwrap(), None);
}
