//! The normalizer: from the text that the external search printed to result
//! records.

use vstd::prelude::*;
use crate::json::{
    decode_array, decode_value, decoded_array, decoded_value, describe, error_message, json_of,
    jsons_of, member, text, Json,
};
use crate::error::{found_view, Failure, SearchError};
use crate::record::{views, Record, SearchResult};
use crate::text::{blank, is_blank};

verus! {

/// The string that `value` holds under `key`, if it is an object with such
/// a member and the member is a string.
pub open spec fn string_member(value: Json, key: Seq<char>) -> Option<Seq<char>> {
    match value {
        Json::Object(members) => if members.contains_key(key) {
            match members[key] {
                Json::Text(string) => Some(string),
                _ => None,
            }
        } else {
            None
        },
        _ => None,
    }
}

/// The record that a decoded element stands for: its `Name` and its `Path`,
/// where both are present and are strings.
pub open spec fn record_of(value: Json) -> Option<Record> {
    match (string_member(value, "Name"@), string_member(value, "Path"@)) {
        (Some(name), Some(path)) => Some(Record { name, path }),
        _ => None,
    }
}

/// The records of the elements that stand for one, in the order of the
/// elements.
pub open spec fn records_of(values: Seq<Json>) -> Seq<Record>
    decreases values.len(),
{
    if values.len() == 0 {
        Seq::<Record>::empty()
    } else {
        let earlier = records_of(values.drop_last());
        match record_of(values.last()) {
            Some(record) => earlier.push(record),
            None => earlier,
        }
    }
}

/// The records of two runs of elements, one after the other, are the
/// records of the first run followed by those of the second.
pub proof fn lemma_records_concat(first: Seq<Json>, second: Seq<Json>)
    ensures
        records_of(first + second) == records_of(first) + records_of(second),
    decreases second.len(),
{
    if second.len() == 0 {
        assert(first + second =~= first);
        assert(records_of(first) + records_of(second) =~= records_of(first));
    } else {
        assert((first + second).drop_last() =~= first + second.drop_last());
        assert((first + second).last() == second.last());
        lemma_records_concat(first, second.drop_last());
        match record_of(second.last()) {
            Some(record) => {
                assert(records_of(first + second) =~= records_of(first) + records_of(second));
            },
            None => {},
        }
    }
}

/// A single element has its record, or none.
pub proof fn lemma_records_single(element: Json)
    ensures
        records_of(seq![element]) == match record_of(element) {
            Some(record) => seq![record],
            None => Seq::<Record>::empty(),
        },
{
    let single = seq![element];
    assert(single.drop_last() =~= Seq::<Json>::empty());
    assert(records_of(single.drop_last()) =~= Seq::<Record>::empty());
    assert(single.last() == element);
    match record_of(element) {
        Some(record) => {
            assert(records_of(single) =~= seq![record]);
        },
        None => {},
    }
}

/// An element that stands for no record is dropped and nothing else is:
/// the records are those of the elements around it.
pub proof fn lemma_malformed_dropped(before: Seq<Json>, malformed: Json, after: Seq<Json>)
    requires
        record_of(malformed) is None,
    ensures
        records_of(before + seq![malformed] + after) == records_of(before + after),
{
    lemma_records_concat(before + seq![malformed], after);
    lemma_records_concat(before, seq![malformed]);
    lemma_records_concat(before, after);
    lemma_records_single(malformed);
    assert(records_of(before) + Seq::<Record>::empty() =~= records_of(before));
}

/// An element with a string `Name` and a string `Path` is kept, in its
/// place among the records of the elements around it.
pub proof fn lemma_well_formed_kept(before: Seq<Json>, element: Json, after: Seq<Json>)
    requires
        record_of(element) is Some,
    ensures
        records_of(before + seq![element] + after) == records_of(before).push(
            record_of(element)->Some_0,
        ) + records_of(after),
{
    lemma_records_concat(before + seq![element], after);
    lemma_records_concat(before, seq![element]);
    lemma_records_single(element);
    assert(records_of(before) + seq![record_of(element)->Some_0] =~= records_of(before).push(
        record_of(element)->Some_0,
    ));
}

/// Reads the string member `key` of `value`.
fn read_string_member<'a>(value: &'a serde_json::Value, key: &str) -> (held: Option<&'a str>)
    ensures
        match held {
            Some(string) => string_member(json_of(*value), key@) == Some(string@),
            None => string_member(json_of(*value), key@) is None,
        },
{
    match member(value, key) {
        Some(inner) => text(inner),
        None => None,
    }
}

/// Converts one decoded element. An element without a string `Name` or
/// without a string `Path` gives no record.
pub fn record_from(value: &serde_json::Value) -> (converted: Option<SearchResult>)
    ensures
        match converted {
            Some(result) => record_of(json_of(*value)) == Some(result@),
            None => record_of(json_of(*value)) is None,
        },
{
    let name = match read_string_member(value, "Name") {
        Some(name) => name,
        None => {
            return None;
        },
    };
    let path = match read_string_member(value, "Path") {
        Some(path) => path,
        None => {
            return None;
        },
    };
    Some(SearchResult::new(name.to_owned(), path.to_owned()))
}

/// Converts the decoded elements in order, leaving out those that give no
/// record.
pub fn records_from(values: &Vec<serde_json::Value>) -> (results: Vec<SearchResult>)
    ensures
        views(results@) == records_of(jsons_of(values@)),
{
    let mut results: Vec<SearchResult> = Vec::new();
    let mut i: usize = 0;
    while i < values.len()
        invariant
            i <= values.len(),
            views(results@) =~= records_of(jsons_of(values@.take(i as int))),
        decreases values.len() - i,
    {
        let ghost before = results@;
        proof {
            assert(jsons_of(values@.take(i + 1)).drop_last() =~= jsons_of(values@.take(i as int)));
        }
        match record_from(&values[i]) {
            Some(result) => {
                results.push(result);
                assert(views(results@) =~= views(before).push(result@));
            },
            None => {},
        }
        i = i + 1;
    }
    assert(values@.take(values.len() as int) =~= values@);
    results
}

/// What the normalizer makes of `text`.
///
/// Blank text is an empty result set. Other text is decoded as a sequence of
/// elements, or failing that as one element; text that is neither is
/// malformed, and the error carries why the second attempt failed.
pub open spec fn parse_outcome(text: Seq<char>) -> Result<Seq<Record>, Failure> {
    if is_blank(text) {
        Ok(Seq::<Record>::empty())
    } else {
        match decoded_array(text) {
            Ok(values) => Ok(records_of(jsons_of(values))),
            Err(_) => match decoded_value(text) {
                Ok(value) => Ok(records_of(seq![json_of(value)])),
                Err(error) => Err(
                    Failure::MalformedOutput { cause: error_message(error), raw_text: text },
                ),
            },
        }
    }
}

/// Turns the text that the external search printed into result records.
pub fn parse(text: &str) -> (outcome: Result<Vec<SearchResult>, SearchError>)
    ensures
        found_view(outcome) == parse_outcome(text@),
{
    if blank(text) {
        let none: Vec<SearchResult> = Vec::new();
        assert(views(none@) =~= Seq::<Record>::empty());
        return Ok(none);
    }
    match decode_array(text) {
        Ok(values) => Ok(records_from(&values)),
        Err(_) => match decode_value(text) {
            Ok(value) => {
                let mut values: Vec<serde_json::Value> = Vec::new();
                values.push(value);
                assert(jsons_of(values@) =~= seq![json_of(value)]);
                Ok(records_from(&values))
            },
            Err(error) => Err(
                SearchError::MalformedOutput { cause: describe(&error), raw_text: text.to_owned() },
            ),
        },
    }
}

} // verus!
