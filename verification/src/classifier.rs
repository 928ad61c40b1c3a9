//! The path classifier: which icon a path gets, from what the filesystem
//! says of it.

use vstd::prelude::*;

verus! {

/// What the filesystem's metadata says of a path.
#[derive(Debug, Clone, Copy)]
pub struct PathFacts {
    pub is_dir: bool,
    pub is_file: bool,
}

/// The metadata of a path could not be read.
#[derive(Debug)]
pub struct PathError {
    pub path: String,
    pub cause: String,
}

/// The icon of a path: `folder` for a directory, `file` for a regular
/// file, none for anything else.
pub open spec fn icon_of(facts: PathFacts) -> Option<Seq<char>> {
    if facts.is_dir {
        Some("folder"@)
    } else if facts.is_file {
        Some("file"@)
    } else {
        None
    }
}

/// The value of an icon name, if there is one.
pub open spec fn label_view(label: Option<String>) -> Option<Seq<char>> {
    match label {
        Some(name) => Some(name@),
        None => None,
    }
}

/// Names the icon for `file_path`, given the outcome of reading its
/// metadata: the facts, or the reason why they could not be read.
///
/// A failed read is passed on with the path it was about.
pub fn get_icon_for_path(file_path: &str, probe: Result<PathFacts, String>) -> (answer: Result<
    Option<String>,
    PathError,
>)
    ensures
        match probe {
            Ok(facts) => answer is Ok && label_view(answer->Ok_0) == icon_of(facts),
            Err(cause) => answer is Err && answer->Err_0.path@ == file_path@
                && answer->Err_0.cause@ == cause@,
        },
{
    match probe {
        Ok(facts) => {
            if facts.is_dir {
                Ok(Some("folder".to_owned()))
            } else if facts.is_file {
                Ok(Some("file".to_owned()))
            } else {
                Ok(None)
            }
        },
        Err(cause) => Err(PathError { path: file_path.to_owned(), cause }),
    }
}

} // verus!
