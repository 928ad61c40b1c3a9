use seeku::transport::exited_successfully;
use seeku::{interpret_output, ProcessOutput, SearchError};

fn output(exit_code: Option<i32>, stdout: &[u8], stderr: &[u8]) -> ProcessOutput {
    ProcessOutput { exit_code, stdout: stdout.to_vec(), stderr: stderr.to_vec() }
}

#[test]
fn only_exit_code_zero_is_success() {
    assert!(exited_successfully(Some(0)));
    assert!(!exited_successfully(Some(1)));
    assert!(!exited_successfully(Some(-1)));
    assert!(!exited_successfully(Some(i32::MAX)));
    assert!(!exited_successfully(Some(i32::MIN)));
    assert!(!exited_successfully(None));
}

#[test]
fn successful_output_is_normalized() {
    let found = interpret_output(Ok(output(
        Some(0),
        b"[{\"Name\":\"a.txt\",\"Path\":\"C:\\\\a.txt\"}]",
        b"",
    )))
    .unwrap();
    assert_eq!(found.len(), 1);
    assert_eq!(found[0].name(), "a.txt");
    assert_eq!(found[0].path(), "C:\\a.txt");
}

#[test]
fn successful_output_may_be_empty() {
    assert_eq!(interpret_output(Ok(output(Some(0), b"", b""))).unwrap().len(), 0);
    assert_eq!(interpret_output(Ok(output(Some(0), b"\r\n", b"warning"))).unwrap().len(), 0);
}

#[test]
fn stderr_of_a_successful_process_is_ignored() {
    let found = interpret_output(Ok(output(
        Some(0),
        b"{\"Name\":\"n\",\"Path\":\"p\"}",
        b"a warning",
    )))
    .unwrap();
    assert_eq!(found.len(), 1);
}

#[test]
fn nonzero_exit_is_a_failed_process() {
    match interpret_output(Ok(output(Some(1), b"[]", b"access denied"))) {
        Err(SearchError::ProcessFailed { status, stderr }) => {
            assert_eq!(status, Some(1));
            assert_eq!(stderr, "access denied");
        }
        other => panic!("unexpected outcome: {:?}", other),
    }
}

#[test]
fn exit_without_a_code_is_a_failed_process() {
    match interpret_output(Ok(output(None, b"[]", b"killed"))) {
        Err(SearchError::ProcessFailed { status, stderr }) => {
            assert_eq!(status, None);
            assert_eq!(stderr, "killed");
        }
        other => panic!("unexpected outcome: {:?}", other),
    }
}

#[test]
fn output_of_a_failed_process_is_not_read() {
    let answer = interpret_output(Ok(output(Some(2), b"{\"Name\":\"n\",\"Path\":\"p\"}", b"")));
    assert!(matches!(answer, Err(SearchError::ProcessFailed { status: Some(2), .. })));
}

#[test]
fn process_that_did_not_start() {
    match interpret_output(Err("program not found".to_string())) {
        Err(SearchError::SpawnFailed { cause }) => assert_eq!(cause, "program not found"),
        other => panic!("unexpected outcome: {:?}", other),
    }
}

#[test]
fn invalid_bytes_in_stdout_are_replaced() {
    let mut stdout = b"[{\"Name\":\"caf".to_vec();
    stdout.push(0xE9);
    stdout.extend_from_slice(b".txt\",\"Path\":\"C:\\\\caf");
    stdout.push(0xFF);
    stdout.extend_from_slice(b"\"}]");
    let found = interpret_output(Ok(output(Some(0), &stdout, b""))).unwrap();
    assert_eq!(found.len(), 1);
    assert_eq!(found[0].name(), "caf\u{fffd}.txt");
    assert_eq!(found[0].path(), "C:\\caf\u{fffd}");
}

#[test]
fn invalid_bytes_in_stderr_are_replaced() {
    let stderr = [b'n', b'o', 0x80, b'!'];
    match interpret_output(Ok(output(Some(3), b"", &stderr))) {
        Err(SearchError::ProcessFailed { status, stderr }) => {
            assert_eq!(status, Some(3));
            assert_eq!(stderr, "no\u{fffd}!");
        }
        other => panic!("unexpected outcome: {:?}", other),
    }
}

#[test]
fn valid_utf8_in_stdout_is_kept() {
    let text = "[{\"Name\":\"\u{691c}\u{7d22}.txt\",\"Path\":\"C:\\\\\u{30c7}\u{30fc}\u{30bf}\"}]";
    let found = interpret_output(Ok(output(Some(0), text.as_bytes(), b""))).unwrap();
    assert_eq!(found[0].name(), "\u{691c}\u{7d22}.txt");
    assert_eq!(found[0].path(), "C:\\\u{30c7}\u{30fc}\u{30bf}");
}

#[test]
fn malformed_stdout_is_reported_with_its_text() {
    match interpret_output(Ok(output(Some(0), b"not json", b""))) {
        Err(SearchError::MalformedOutput { cause, raw_text }) => {
            assert_eq!(cause, "expected ident at line 1 column 2");
            assert_eq!(raw_text, "not json");
        }
        other => panic!("unexpected outcome: {:?}", other),
    }
}
