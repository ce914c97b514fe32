//! The stored text forms of measurement names and measurements.
//!
//! Both are JSON, written and read by `serde_json`. A list of measurement
//! names is stored as a JSON array of strings, the measurements of a batch as
//! a JSON object from name to number, its members in the order of the names.

use vstd::prelude::*;
use std::collections::BTreeMap;
use crate::error::StoreError;

verus! {

/// `serde_json::Error`, the failure of writing or reading JSON. Opaque.
#[verifier::external_type_specification]
#[verifier::external_body]
pub struct ExJsonError(serde_json::Error);

/// `serde_json::Number`, a finite JSON number. Opaque: quantities pass
/// through the store untouched.
#[verifier::external_type_specification]
#[verifier::external_body]
pub struct ExNumber(serde_json::Number);

/// `Clone` of `serde_json::Number`: the copy is the same number.
pub assume_specification[ <serde_json::Number as Clone>::clone ](n: &serde_json::Number) -> (copy:
    serde_json::Number)
    ensures
        copy == *n,
;

/// The JSON text that `serde_json::to_string` writes for a list of strings.
pub uninterp spec fn key_list_text(keys: Seq<Seq<char>>) -> Seq<char>;

/// The list of strings that `serde_json::from_str` reads from a text; `None`
/// where it rejects the text.
pub uninterp spec fn key_list_of_text(text: Seq<char>) -> Option<Seq<Seq<char>>>;

/// The JSON text that `serde_json::to_string` writes for an ordered map from
/// name to number: an object with one member for each entry, in the order of
/// the names.
pub uninterp spec fn specs_text(specs: Map<String, serde_json::Number>) -> Seq<char>;

/// `serde_json::to_string` on a list of strings: it succeeds, and the text
/// is the one that it writes for these strings. It fails only where a value
/// refuses to be written, a map has a key that is no string, or the writer
/// fails; a list of strings written into memory has none of these.
#[verifier::external_body]
pub(crate) fn write_key_list(keys: &Vec<String>) -> (r: Result<String, serde_json::Error>)
    ensures
        r is Ok,
        r->Ok_0@ == key_list_text(keys.deep_view()),
{
    serde_json::to_string(keys)
}

/// `serde_json::from_str` for a list of strings: it succeeds exactly on the
/// texts that it reads as such a list, and gives that list.
#[verifier::external_body]
pub(crate) fn read_key_list(text: &str) -> (r: Result<Vec<String>, serde_json::Error>)
    ensures
        r is Ok ==> key_list_of_text(text@) == Some(r->Ok_0.deep_view()),
        r is Err ==> key_list_of_text(text@) is None,
{
    serde_json::from_str(text)
}

/// `serde_json::to_string` on an ordered map from name to number: it
/// succeeds, and the text is the one that it writes for these entries, which
/// it walks in the order of their names. The keys are strings and a number
/// is an integer or a finite real, so nothing refuses to be written.
#[verifier::external_body]
pub(crate) fn write_specs(specs: &BTreeMap<String, serde_json::Number>) -> (r: Result<
    String,
    serde_json::Error,
>)
    ensures
        r is Ok,
        r->Ok_0@ == specs_text(specs@),
{
    serde_json::to_string(specs)
}

/// `Display` of `serde_json::Error`: the message of a failure.
#[verifier::external_body]
pub(crate) fn json_error_text(e: &serde_json::Error) -> (text: String) {
    e.to_string()
}

/// `serde_json::Number::from` on the integer zero: the quantity zero.
#[verifier::external_body]
pub(crate) fn zero_quantity() -> (zero: serde_json::Number) {
    serde_json::Number::from(0u8)
}

/// The measurement names that a stored text stands for: the list that the
/// text is the JSON form of, and no names at all where it is not the JSON
/// form of a list of strings.
pub open spec fn decoded_keys(text: Seq<char>) -> Seq<Seq<char>> {
    match key_list_of_text(text) {
        Some(keys) => keys,
        None => Seq::empty(),
    }
}

/// Settles the outcome of reading a stored list of names: the names that
/// were read, or none where reading failed.
pub fn keys_or_none(read: Result<Vec<String>, serde_json::Error>) -> (keys: Vec<String>)
    ensures
        read is Ok ==> keys == read->Ok_0,
        read is Err ==> keys@ =~= Seq::<String>::empty(),
{
    match read {
        Ok(keys) => keys,
        Err(_) => Vec::new(),
    }
}

/// Reads a stored list of measurement names. Text that cannot be read gives
/// an empty list, never a failure.
pub fn decode_spec_keys(text: &str) -> (keys: Vec<String>)
    ensures
        keys.deep_view() == decoded_keys(text@),
{
    let keys = keys_or_none(read_key_list(text));
    assert(keys.deep_view() =~= decoded_keys(text@));
    keys
}

/// Settles the outcome of writing a stored form: the text that was written,
/// or a failure to persist, with the message of the writer, where none was.
pub fn stored_form(written: Result<String, serde_json::Error>) -> (r: Result<String, StoreError>)
    ensures
        written is Ok ==> r == Ok::<String, StoreError>(written->Ok_0),
        written is Err ==> r is Err && r->Err_0 is Persistence,
{
    match written {
        Ok(text) => Ok(text),
        Err(e) => Err(StoreError::Persistence(json_error_text(&e))),
    }
}

/// Puts a list of measurement names into its stored form. Never fails.
pub fn encode_spec_keys(keys: &Vec<String>) -> (r: Result<String, StoreError>)
    ensures
        r is Ok,
        r->Ok_0@ == key_list_text(keys.deep_view()),
{
    stored_form(write_key_list(keys))
}

/// Puts the measurements of a batch into their stored form. Never fails.
pub fn encode_specs(specs: &BTreeMap<String, serde_json::Number>) -> (r: Result<String, StoreError>)
    ensures
        r is Ok,
        r->Ok_0@ == specs_text(specs@),
{
    stored_form(write_specs(specs))
}

/// Whether `types` is the decoding of the stored rows `rows`, row by row and
/// in the same order: each id and name as stored, each list of measurement
/// names what the stored key text stands for.
pub open spec fn decodes(
    types: Seq<(i64, String, Vec<String>)>,
    rows: Seq<(i64, String, String)>,
) -> bool {
    &&& types.len() == rows.len()
    &&& forall|i: int|
        0 <= i < rows.len() ==> (#[trigger] types[i]).0 == rows[i].0 && types[i].1@ == rows[i].1@
            && types[i].2.deep_view() == decoded_keys(rows[i].2@)
}

/// Decodes stored product-type rows, each by itself and in the given order:
/// a row whose key text cannot be read gets an empty list of names and does
/// not affect the others.
pub fn decode_product_rows(rows: &Vec<(i64, String, String)>) -> (types: Vec<
    (i64, String, Vec<String>),
>)
    ensures
        decodes(types@, rows@),
{
    let mut types: Vec<(i64, String, Vec<String>)> = Vec::new();
    let mut i: usize = 0;
    while i < rows.len()
        invariant
            i <= rows.len(),
            types.len() == i,
            forall|j: int|
                0 <= j < i ==> (#[trigger] types[j]).0 == rows[j].0 && types[j].1@ == rows[j].1@
                    && types[j].2.deep_view() == decoded_keys(rows[j].2@),
        decreases rows.len() - i,
    {
        let keys = decode_spec_keys(rows[i].2.as_str());
        types.push((rows[i].0, rows[i].1.clone(), keys));
        i += 1;
    }
    types
}

} // verus!
