use seeku::{get_icon_for_path, PathFacts};

#[test]
fn directory_is_a_folder() {
    let answer = get_icon_for_path("C:\\docs", Ok(PathFacts { is_dir: true, is_file: false }));
    assert_eq!(answer.unwrap(), Some("folder".to_string()));
}

#[test]
fn regular_file_is_a_file() {
    let answer = get_icon_for_path("C:\\docs\\a.txt", Ok(PathFacts { is_dir: false, is_file: true }));
    assert_eq!(answer.unwrap(), Some("file".to_string()));
}

#[test]
fn anything_else_has_no_icon() {
    let answer = get_icon_for_path("\\\\.\\pipe\\x", Ok(PathFacts { is_dir: false, is_file: false }));
    assert_eq!(answer.unwrap(), None);
}

#[test]
fn directory_wins_over_file() {
    let answer = get_icon_for_path("x", Ok(PathFacts { is_dir: true, is_file: true }));
    assert_eq!(answer.unwrap(), Some("folder".to_string()));
}

#[test]
fn failed_read_is_passed_on() {
    let answer = get_icon_for_path("C:\\gone", Err("not found".to_string()));
    let error = answer.unwrap_err();
    assert_eq!(error.path, "C:\\gone");
    assert_eq!(error.cause, "not found");
}

#[test]
fn failed_read_keeps_path_and_cause_apart() {
    let error = get_icon_for_path("", Err("".to_string())).unwrap_err();
    assert_eq!(error.path, "");
    assert_eq!(error.cause, "");
    let error = get_icon_for_path("p", Err("permission denied (os error 13)".to_string())).unwrap_err();
    assert_eq!(error.path, "p");
    assert_eq!(error.cause, "permission denied (os error 13)");
}
