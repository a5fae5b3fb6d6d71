//! The single-input pipelines: a literal argument processed as one text or
//! as a JSON array of texts, and the same for bytes drawn from standard
//! input, which must first prove to be valid UTF-8.

use vstd::prelude::*;
use vstd::utf8::{decode_utf8, valid_utf8};

use crate::detect::{batch_matches, detect, detect_many, outcome_matches};
use crate::expand::{expand, parsed_string_array};
use crate::outcome::{ProcessError, ProcessOutput, WhatLangResult};

verus! {

/// Relies on `String::from_utf8`: it succeeds exactly on valid UTF-8, and
/// the string it returns holds the decoded characters.
#[verifier::external_body]
pub(crate) fn utf8_to_string(bytes: &Vec<u8>) -> (r: Option<String>)
    ensures
        r is Some <==> valid_utf8(bytes@),
        r matches Some(s) ==> s@ == decode_utf8(bytes@),
{
    String::from_utf8(bytes.clone()).ok()
}

/// How the result of a single-input run relates to the input text and the
/// mode: in plain mode one outcome for the whole text; in JSON mode the
/// outcomes of the array's elements in order, or an `InvalidJson` failure
/// exactly when the text is not a JSON array of strings.
pub open spec fn process_output_matches(
    r: Result<ProcessOutput, ProcessError>,
    text: Seq<char>,
    json: bool,
) -> bool {
    if json {
        match parsed_string_array(text) {
            Some(texts) => match r {
                Ok(ProcessOutput::Many(ws)) => batch_matches(ws@, texts),
                _ => false,
            },
            None => r matches Err(e) && e is InvalidJson,
        }
    } else {
        match r {
            Ok(ProcessOutput::Single(w)) => outcome_matches(w, text),
            _ => false,
        }
    }
}

/// Law: over a JSON array of strings, a matching batch holds exactly one
/// outcome per element of the array, in the array's order — an element's
/// failure leaves every sibling outcome in place.
pub proof fn lemma_batch_one_outcome_per_element(
    rs: Seq<WhatLangResult>,
    text: Seq<char>,
    texts: Seq<Seq<char>>,
)
    requires
        parsed_string_array(text) == Some(texts),
        batch_matches(rs, texts),
    ensures
        rs.len() == texts.len(),
        forall|i: int| 0 <= i < texts.len() ==> outcome_matches(#[trigger] rs[i], texts[i]),
{
}

/// Processing of one literal text: detection on the text itself in plain
/// mode, detection on each element of the JSON array it must hold in JSON
/// mode.
pub fn process_string(arg: String, json: bool) -> (r: Result<ProcessOutput, ProcessError>)
    ensures
        process_output_matches(r, arg@, json),
{
    if json {
        match expand(arg, true) {
            Ok(texts) => Ok(ProcessOutput::Many(detect_many(texts))),
            Err(e) => Err(e),
        }
    } else {
        Ok(ProcessOutput::Single(detect(arg.as_str())))
    }
}

/// Processing of the bytes drawn from standard input: they must be valid
/// UTF-8, and the decoded text is then processed as a literal argument
/// would be.
pub fn process_stdin(input: Vec<u8>, json: bool) -> (r: Result<ProcessOutput, ProcessError>)
    ensures
        valid_utf8(input@) ==> process_output_matches(r, decode_utf8(input@), json),
        !valid_utf8(input@) ==> (r matches Err(e) && e is InvalidEncoding),
{
    match utf8_to_string(&input) {
        Some(text) => process_string(text, json),
        None => Err(ProcessError::InvalidEncoding),
    }
}

} // verus!
