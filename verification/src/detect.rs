//! The Detection Adapter and the Item Pipeline: one call of the outside
//! classifier per text, each answer wrapped as exactly one `Success` or
//! `Failure` outcome, and batches mapped element by element in order.

use vstd::prelude::*;

use crate::outcome::{LangInfo, WhatLangResult};

verus! {

#[verifier::external_type_specification]
#[verifier::external_body]
pub struct ExInfo(whatlang::Info);

/// What the detector answers for a given text, already carried over into
/// `LangInfo`: its identification, or nothing. The detector is a pure
/// statistical function of the text, so the answer depends on the text alone.
pub uninterp spec fn detection_of(text: Seq<char>) -> Option<LangInfo>;

impl LangInfo {
    /// Relies on `whatlang::Info` and its accessors `lang`, `script`,
    /// `confidence` and `is_reliable`: carries one identification over into
    /// the library's own shape, the language as its English name, the script
    /// as its display name, and the confidence as the bit pattern of the
    /// reported double.
    #[verifier::external_body]
    pub fn from_info(info: whatlang::Info) -> LangInfo {
        LangInfo {
            language: info.lang().eng_name().to_string(),
            script: info.script().to_string(),
            confidence_bits: info.confidence().to_bits(),
            is_reliable: info.is_reliable(),
        }
    }
}

/// Relies on `whatlang::detect`: for a given text it either identifies the
/// dominant language and script or reports nothing; the answer is converted
/// by `LangInfo::from_info` and depends on the text alone.
#[verifier::external_body]
fn detect_raw(text: &str) -> (r: Option<LangInfo>)
    ensures
        r == detection_of(text@),
{
    match whatlang::detect(text) {
        Some(info) => Some(LangInfo::from_info(info)),
        None => None,
    }
}

/// The message carried by every `Failure` outcome.
pub open spec fn detect_failure_message() -> Seq<char> {
    "Failed to detect language"@
}

/// How one outcome relates to the text it came from: the detector's
/// identification wrapped as `Success`, or `Failure` with the fixed message.
pub open spec fn outcome_matches(r: WhatLangResult, text: Seq<char>) -> bool {
    match detection_of(text) {
        Some(info) => r == WhatLangResult::Success(info),
        None => match r {
            WhatLangResult::Failure(m) => m@ == detect_failure_message(),
            WhatLangResult::Success(_) => false,
        },
    }
}

/// How a batch of outcomes relates to the texts it came from: one outcome
/// per text, in the same order.
pub open spec fn batch_matches(rs: Seq<WhatLangResult>, texts: Seq<Seq<char>>) -> bool {
    &&& rs.len() == texts.len()
    &&& forall|i: int| 0 <= i < texts.len() ==> outcome_matches(#[trigger] rs[i], texts[i])
}

/// Detection on one text: exactly one of `Success` or `Failure`, and
/// `Success` exactly when the detector identifies the text.
pub fn detect(text: &str) -> (r: WhatLangResult)
    ensures
        outcome_matches(r, text@),
        r is Success <==> detection_of(text@) is Some,
{
    match detect_raw(text) {
        Some(info) => WhatLangResult::Success(info),
        None => WhatLangResult::Failure("Failed to detect language".to_owned()),
    }
}

/// Detection on each of a sequence of texts: one outcome per text, in the
/// order the texts were given.
pub fn detect_many(texts: Vec<String>) -> (r: Vec<WhatLangResult>)
    ensures
        batch_matches(r@, texts.deep_view()),
{
    let mut results: Vec<WhatLangResult> = Vec::new();
    let mut i: usize = 0;
    while i < texts.len()
        invariant
            i <= texts@.len(),
            results@.len() == i,
            forall|j: int| 0 <= j < i ==> outcome_matches(
                #[trigger] results@[j],
                texts.deep_view()[j],
            ),
        decreases texts@.len() - i,
    {
        let outcome = detect(texts[i].as_str());
        results.push(outcome);
        i = i + 1;
    }
    results
}

} // verus!
