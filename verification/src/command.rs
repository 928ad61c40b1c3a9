//! The command lines that the launcher hands to the operating system.

use vstd::prelude::*;
use vstd::string::StringExecFns;
use vstd::string::StrSliceExecFns;
use crate::text::texts;

verus! {

/// A program and the arguments it is started with.
#[derive(Debug)]
pub struct Invocation {
    pub program: String,
    pub arguments: Vec<String>,
}

/// `text` with a backslash put before each double quote.
pub open spec fn escape_quotes(text: Seq<char>) -> Seq<char>
    decreases text.len(),
{
    if text.len() == 0 {
        Seq::<char>::empty()
    } else if text.last() == '"' {
        escape_quotes(text.drop_last()).push('\\').push('"')
    } else {
        escape_quotes(text.drop_last()).push(text.last())
    }
}

/// The PowerShell command that opens `path` with elevated rights.
pub open spec fn elevated_command(path: Seq<char>) -> Seq<char> {
    "Start-Process -FilePath \""@ + escape_quotes(path) + "\" -Verb RunAs"@
}

/// Puts a backslash before each double quote of `text`.
pub fn escaped(text: &str) -> (result: String)
    ensures
        result@ == escape_quotes(text@),
{
    let length = text.unicode_len();
    let mut result = String::new();
    let mut i: usize = 0;
    while i < length
        invariant
            length == text@.len(),
            i <= length,
            result@ == escape_quotes(text@.take(i as int)),
        decreases length - i,
    {
        proof {
            assert(text@.take(i + 1).drop_last() =~= text@.take(i as int));
            reveal_strlit("\\\"");
        }
        if text.get_char(i) == '"' {
            result.append("\\\"");
            assert(result@ =~= escape_quotes(text@.take(i as int)).push('\\').push('"'));
        } else {
            result.append(text.substring_char(i, i + 1));
            assert(result@ =~= escape_quotes(text@.take(i as int)).push(text@[i as int]));
        }
        i = i + 1;
    }
    assert(text@.take(length as int) =~= text@);
    result
}

/// The invocation of the external search: PowerShell runs the script at
/// `script_path` with `query` as its `-query` parameter.
pub fn search_invocation(script_path: &str, query: &str) -> (invocation: Invocation)
    ensures
        invocation.program@ == "powershell"@,
        texts(invocation.arguments@) == seq![
            "-ExecutionPolicy"@,
            "Bypass"@,
            "-File"@,
            script_path@,
            "-query"@,
            query@,
        ],
{
    let mut arguments: Vec<String> = Vec::new();
    arguments.push("-ExecutionPolicy".to_owned());
    arguments.push("Bypass".to_owned());
    arguments.push("-File".to_owned());
    arguments.push(script_path.to_owned());
    arguments.push("-query".to_owned());
    arguments.push(query.to_owned());
    assert(texts(arguments@) =~= seq![
        "-ExecutionPolicy"@,
        "Bypass"@,
        "-File"@,
        script_path@,
        "-query"@,
        query@,
    ]);
    Invocation { program: "powershell".to_owned(), arguments }
}

/// The invocation that opens `path` with the program registered for it.
pub fn open_invocation(path: &str) -> (invocation: Invocation)
    ensures
        invocation.program@ == "cmd"@,
        texts(invocation.arguments@) == seq!["/C"@, "start"@, ""@, path@],
{
    let mut arguments: Vec<String> = Vec::new();
    arguments.push("/C".to_owned());
    arguments.push("start".to_owned());
    arguments.push("".to_owned());
    arguments.push(path.to_owned());
    assert(texts(arguments@) =~= seq!["/C"@, "start"@, ""@, path@]);
    Invocation { program: "cmd".to_owned(), arguments }
}

/// The invocation that opens `path` with elevated rights. Double quotes in
/// `path` are escaped, so that the path stays one quoted argument.
pub fn elevated_open_invocation(path: &str) -> (invocation: Invocation)
    ensures
        invocation.program@ == "powershell"@,
        texts(invocation.arguments@) == seq!["-Command"@, elevated_command(path@)],
{
    let mut command = "Start-Process -FilePath \"".to_owned();
    let quoted = escaped(path);
    command.append(quoted.as_str());
    command.append("\" -Verb RunAs");
    let mut arguments: Vec<String> = Vec::new();
    arguments.push("-Command".to_owned());
    arguments.push(command);
    assert(texts(arguments@) =~= seq!["-Command"@, elevated_command(path@)]);
    Invocation { program: "powershell".to_owned(), arguments }
}

} // verus!
