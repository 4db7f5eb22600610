//! The ordered list of class names, kept as a JSON array of strings.

use vstd::prelude::*;

verus! {

/// The error type of `serde_json`, carried from the parser to [`parse_labels`]
/// and never looked into.
#[verifier::external_type_specification]
#[verifier::external_body]
pub struct ExJsonError(serde_json::Error);

/// What `serde_json::from_str::<Vec<String>>` makes of a text: the strings of
/// the JSON array it holds, in order, or `None` where the parser reports an
/// error, as it does for a text that is not a JSON array of strings.
pub uninterp spec fn json_string_array(text: Seq<char>) -> Option<Seq<Seq<char>>>;

/// Calls `serde_json::from_str::<Vec<String>>`.
///
/// Trusted. The parser is a function of the text alone; its result is named
/// [`json_string_array`] rather than spelled out.
#[verifier::external_body]
fn decode_string_array(text: &str) -> (r: Result<Vec<String>, serde_json::Error>)
    ensures
        r matches Ok(list) ==> json_string_array(text@) == Some(list.deep_view()),
        r is Err ==> json_string_array(text@) is None,
{
    serde_json::from_str::<Vec<String>>(text)
}

/// Why a label list could not be read.
#[derive(Debug, Clone, Copy, PartialEq, Eq, Structural)]
pub enum LabelError {
    /// The text is not a JSON array of strings.
    Malformed,
}

impl LabelError {
    /// A sentence for the user.
    pub fn message(&self) -> (m: String)
        ensures
            m@ == "Cannot parse labels JSON"@,
    {
        String::from_str("Cannot parse labels JSON")
    }
}

/// Reads the class names from the text of a label file.
///
/// Succeeds exactly on a JSON array of strings, and then returns the strings
/// in the order of the array; position `i` names class `i`.
pub fn parse_labels(text: &str) -> (r: Result<Vec<String>, LabelError>)
    ensures
        r matches Ok(labels) ==> json_string_array(text@) == Some(labels.deep_view()),
        r matches Err(e) ==> e == LabelError::Malformed && json_string_array(text@) is None,
{
    match decode_string_array(text) {
        Ok(labels) => Ok(labels),
        Err(_) => Err(LabelError::Malformed),
    }
}

/// The name of class `index`, if the list has one.
pub fn label_at(labels: &Vec<String>, index: usize) -> (r: Option<String>)
    ensures
        r is Some <==> index < labels@.len(),
        r matches Some(name) ==> name@ == labels@[index as int]@,
{
    if index < labels.len() {
        Some(labels[index].clone())
    } else {
        None
    }
}

} // verus!
