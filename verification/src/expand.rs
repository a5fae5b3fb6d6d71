//! The Batch Expander: turns one raw input text into the ordered sequence of
//! texts to detect — the text itself in plain mode, the elements of a JSON
//! array of strings in JSON mode.

use vstd::prelude::*;

use crate::outcome::ProcessError;

verus! {

/// What the JSON parser makes of a text: the sequence of its element strings
/// when the text is syntactically a JSON array of strings, and nothing
/// otherwise.
pub uninterp spec fn parsed_string_array(text: Seq<char>) -> Option<Seq<Seq<char>>>;

/// Relies on `serde_json::from_str::<Vec<String>>`: parsing succeeds exactly
/// when the input is a JSON array of strings, and then yields its elements
/// in order; on failure the parser's message is handed back.
#[verifier::external_body]
fn parse_string_array(text: &str) -> (r: Result<Vec<String>, String>)
    ensures
        r is Ok <==> parsed_string_array(text@) is Some,
        r matches Ok(v) ==> parsed_string_array(text@) == Some(v.deep_view()),
{
    match serde_json::from_str::<Vec<String>>(text) {
        Ok(v) => Ok(v),
        Err(e) => Err(e.to_string()),
    }
}

/// Expansion of one raw text into the texts to detect. In plain mode the
/// result is always the one-element sequence holding the text unchanged; in
/// JSON mode it is the elements of the parsed array, and expansion fails
/// exactly when the text is not a JSON array of strings.
pub fn expand(text: String, json_mode: bool) -> (r: Result<Vec<String>, ProcessError>)
    ensures
        !json_mode ==> (r matches Ok(v) && v@.len() == 1 && v@[0] == text),
        json_mode ==> (r is Ok <==> parsed_string_array(text@) is Some),
        json_mode && r is Ok ==> parsed_string_array(text@) == Some(r->Ok_0.deep_view()),
        r is Err ==> json_mode && parsed_string_array(text@) is None && r->Err_0 is InvalidJson,
{
    if json_mode {
        match parse_string_array(text.as_str()) {
            Ok(texts) => Ok(texts),
            Err(detail) => Err(ProcessError::InvalidJson(detail)),
        }
    } else {
        let mut texts: Vec<String> = Vec::new();
        texts.push(text);
        Ok(texts)
    }
}

} // verus!
