use seeku::command::{elevated_open_invocation, escaped, open_invocation, search_invocation};

#[test]
fn search_invocation_passes_script_and_query() {
    let invocation = search_invocation("C:\\app\\powershell\\search.ps1", "annual report");
    assert_eq!(invocation.program, "powershell");
    assert_eq!(
        invocation.arguments,
        vec![
            "-ExecutionPolicy".to_string(),
            "Bypass".to_string(),
            "-File".to_string(),
            "C:\\app\\powershell\\search.ps1".to_string(),
            "-query".to_string(),
            "annual report".to_string()
        ]
    );
}

#[test]
fn search_invocation_keeps_the_query_as_one_argument() {
    let invocation = search_invocation("s.ps1", "a \"b\" -c; d");
    assert_eq!(invocation.arguments.len(), 6);
    assert_eq!(invocation.arguments[5], "a \"b\" -c; d");
}

#[test]
fn open_invocation_starts_the_path() {
    let invocation = open_invocation("C:\\docs\\a b.txt");
    assert_eq!(invocation.program, "cmd");
    assert_eq!(
        invocation.arguments,
        vec!["/C".to_string(), "start".to_string(), "".to_string(), "C:\\docs\\a b.txt".to_string()]
    );
}

#[test]
fn elevated_invocation_quotes_the_path() {
    let invocation = elevated_open_invocation("C:\\tools\\setup.exe");
    assert_eq!(invocation.program, "powershell");
    assert_eq!(
        invocation.arguments,
        vec![
            "-Command".to_string(),
            "Start-Process -FilePath \"C:\\tools\\setup.exe\" -Verb RunAs".to_string()
        ]
    );
}

#[test]
fn elevated_invocation_escapes_quotes() {
    let path = "C:\\a \"b\"\\c.exe";
    let invocation = elevated_open_invocation(path);
    assert_eq!(
        invocation.arguments[1],
        "Start-Process -FilePath \"C:\\a \\\"b\\\"\\c.exe\" -Verb RunAs"
    );
    assert_eq!(
        invocation.arguments[1],
        format!("Start-Process -FilePath \"{}\" -Verb RunAs", path.replace("\"", "\\\""))
    );
}

#[test]
fn escaped_puts_a_backslash_before_each_quote() {
    assert_eq!(escaped(""), "");
    assert_eq!(escaped("plain"), "plain");
    assert_eq!(escaped("\""), "\\\"");
    assert_eq!(escaped("\"\""), "\\\"\\\"");
    assert_eq!(escaped("a\"b"), "a\\\"b");
    assert_eq!(escaped("back\\slash"), "back\\slash");
    assert_eq!(escaped("\u{65e5}\"\u{672c}"), "\u{65e5}\\\"\u{672c}");
}

#[test]
fn escaped_agrees_with_replace() {
    for text in ["", "\"", "a\"b\"c", "no quotes", "\\\"", "'single'", "\u{e9}\"\u{1f600}\""] {
        assert_eq!(escaped(text), text.replace("\"", "\\\""));
    }
}
