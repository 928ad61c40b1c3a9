//! The histories of past queries: which file each is kept in, and what a
//! stored text means.

use vstd::prelude::*;
use crate::json::{
    decode_strings, decoded_strings, describe, encode_strings, encoded_strings, error_message,
};
use crate::text::texts;

verus! {

/// Why a history could not be loaded or saved.
#[derive(Debug)]
pub enum HistoryError {
    /// The store could not be read.
    ReadFailed { cause: String },
    /// What the store holds is no JSON list of strings.
    DecodeFailed { cause: String },
    /// The history could not be written out as JSON.
    EncodeFailed { cause: String },
    /// The store could not be written.
    WriteFailed { cause: String },
}

/// The mathematical value of a `HistoryError`.
pub enum HistoryFailure {
    ReadFailed { cause: Seq<char> },
    DecodeFailed { cause: Seq<char> },
    EncodeFailed { cause: Seq<char> },
    WriteFailed { cause: Seq<char> },
}

impl View for HistoryError {
    type V = HistoryFailure;

    open spec fn view(&self) -> HistoryFailure {
        match *self {
            HistoryError::ReadFailed { cause } => HistoryFailure::ReadFailed { cause: cause@ },
            HistoryError::DecodeFailed { cause } => HistoryFailure::DecodeFailed { cause: cause@ },
            HistoryError::EncodeFailed { cause } => HistoryFailure::EncodeFailed { cause: cause@ },
            HistoryError::WriteFailed { cause } => HistoryFailure::WriteFailed { cause: cause@ },
        }
    }
}

/// The value of a loaded history or of the error in its place.
pub open spec fn loaded_view(outcome: Result<Vec<String>, HistoryError>) -> Result<
    Seq<Seq<char>>,
    HistoryFailure,
> {
    match outcome {
        Ok(history) => Ok(texts(history@)),
        Err(error) => Err(error@),
    }
}

/// The value of a finished save.
pub open spec fn saved_view(outcome: Result<(), HistoryError>) -> Result<(), HistoryFailure> {
    match outcome {
        Ok(()) => Ok(()),
        Err(error) => Err(error@),
    }
}

/// What a read of the store means: a store that does not exist yet is an
/// empty history, one that exists holds the history as a JSON list.
pub open spec fn history_of(stored: Result<Option<String>, String>) -> Result<
    Seq<Seq<char>>,
    HistoryFailure,
> {
    match stored {
        Err(cause) => Err(HistoryFailure::ReadFailed { cause: cause@ }),
        Ok(None) => Ok(Seq::<Seq<char>>::empty()),
        Ok(Some(text)) => match decoded_strings(text@) {
            Ok(history) => Ok(history),
            Err(error) => Err(HistoryFailure::DecodeFailed { cause: error_message(error) }),
        },
    }
}

/// What a write to the store means for the save.
pub open spec fn written(outcome: Result<(), String>) -> Result<(), HistoryFailure> {
    match outcome {
        Ok(()) => Ok(()),
        Err(cause) => Err(HistoryFailure::WriteFailed { cause: cause@ }),
    }
}

/// Reads what a store returned as a history.
pub fn read_history(stored: Result<Option<String>, String>) -> (outcome: Result<
    Vec<String>,
    HistoryError,
>)
    ensures
        loaded_view(outcome) == history_of(stored),
{
    match stored {
        Err(cause) => Err(HistoryError::ReadFailed { cause }),
        Ok(None) => {
            let none: Vec<String> = Vec::new();
            assert(texts(none@) =~= Seq::<Seq<char>>::empty());
            Ok(none)
        },
        Ok(Some(text)) => match decode_strings(text.as_str()) {
            Ok(history) => {
                assert(texts(history@) =~= Seq::new(history@.len(), |i: int| history@[i]@));
                Ok(history)
            },
            Err(error) => Err(HistoryError::DecodeFailed { cause: describe(&error) }),
        },
    }
}

/// Loads the history kept in `filename`. `read` is handed the file's name
/// and returns its text, or none where the file does not exist yet.
fn load_history_internal<F: FnOnce(&str) -> Result<Option<String>, String>>(
    read: F,
    filename: &str,
) -> (outcome: Result<Vec<String>, HistoryError>)
    requires
        read.requires((filename,)),
    ensures
        exists|stored: Result<Option<String>, String>|
            read.ensures((filename,), stored) && loaded_view(outcome) == history_of(stored),
{
    let stored = read(filename);
    let ghost handed = stored;
    let outcome = read_history(stored);
    assert(read.ensures((filename,), handed) && loaded_view(outcome) == history_of(handed));
    outcome
}

/// Saves `history` to `filename` as a JSON list. `write` is handed the
/// file's name and the text to store; it is not called where the history
/// cannot be written out as JSON.
fn save_history_internal<F: FnOnce(&str, String) -> Result<(), String>>(
    write: F,
    filename: &str,
    history: Vec<String>,
) -> (outcome: Result<(), HistoryError>)
    requires
        forall|text: String| write.requires((filename, text)),
    ensures
        match encoded_strings(texts(history@)) {
            Ok(encoded) => exists|text: String, result: Result<(), String>|
                text@ == encoded && write.ensures((filename, text), result) && saved_view(outcome)
                    == written(result),
            Err(error) => saved_view(outcome) == Err::<(), HistoryFailure>(
                HistoryFailure::EncodeFailed { cause: error_message(error) },
            ),
        },
{
    assert(texts(history@) =~= Seq::new(history@.len(), |i: int| history@[i]@));
    match encode_strings(&history) {
        Ok(text) => {
            let ghost handed = text;
            let result = write(filename, text);
            let outcome = match result {
                Ok(()) => Ok(()),
                Err(cause) => Err(HistoryError::WriteFailed { cause }),
            };
            assert(handed@ == encoded_strings(texts(history@))->Ok_0 && write.ensures(
                (filename, handed),
                result,
            ) && saved_view(outcome) == written(result));
            outcome
        },
        Err(error) => Err(HistoryError::EncodeFailed { cause: describe(&error) }),
    }
}

/// Loads the search history through `read`.
pub fn load_search_history<F: FnOnce(&str) -> Result<Option<String>, String>>(read: F) -> (outcome:
    Result<Vec<String>, HistoryError>)
    requires
        read.requires(("search_history.json",)),
    ensures
        exists|stored: Result<Option<String>, String>|
            read.ensures(("search_history.json",), stored) && loaded_view(outcome) == history_of(
                stored,
            ),
{
    load_history_internal(read, "search_history.json")
}

/// Saves the search history through `write`.
pub fn save_search_history<F: FnOnce(&str, String) -> Result<(), String>>(
    write: F,
    history: Vec<String>,
) -> (outcome: Result<(), HistoryError>)
    requires
        forall|text: String| write.requires(("search_history.json", text)),
    ensures
        match encoded_strings(texts(history@)) {
            Ok(encoded) => exists|text: String, result: Result<(), String>|
                text@ == encoded && write.ensures(("search_history.json", text), result)
                    && saved_view(outcome) == written(result),
            Err(error) => saved_view(outcome) == Err::<(), HistoryFailure>(
                HistoryFailure::EncodeFailed { cause: error_message(error) },
            ),
        },
{
    save_history_internal(write, "search_history.json", history)
}

/// Loads the run history through `read`.
pub fn load_run_history<F: FnOnce(&str) -> Result<Option<String>, String>>(read: F) -> (outcome:
    Result<Vec<String>, HistoryError>)
    requires
        read.requires(("run_history.json",)),
    ensures
        exists|stored: Result<Option<String>, String>|
            read.ensures(("run_history.json",), stored) && loaded_view(outcome) == history_of(
                stored,
            ),
{
    load_history_internal(read, "run_history.json")
}

/// Saves the run history through `write`.
pub fn save_run_history<F: FnOnce(&str, String) -> Result<(), String>>(
    write: F,
    history: Vec<String>,
) -> (outcome: Result<(), HistoryError>)
    requires
        forall|text: String| write.requires(("run_history.json", text)),
    ensures
        match encoded_strings(texts(history@)) {
            Ok(encoded) => exists|text: String, result: Result<(), String>|
                text@ == encoded && write.ensures(("run_history.json", text), result)
                    && saved_view(outcome) == written(result),
            Err(error) => saved_view(outcome) == Err::<(), HistoryFailure>(
                HistoryFailure::EncodeFailed { cause: error_message(error) },
            ),
        },
{
    save_history_internal(write, "run_history.json", history)
}

} // verus!
