//! The shapes that a run produces: one identification, one per-text outcome,
//! the batch of a file, and the errors that end a run.

use vstd::prelude::*;

verus! {

/// A successful identification: the language's English name, the writing
/// system's name, the detector's confidence (the bit pattern of the reported
/// IEEE double in [0, 1]), and whether the detector deems the result reliable.
#[derive(Debug, Clone, PartialEq)]
pub struct LangInfo {
    pub language: String,
    pub script: String,
    pub confidence_bits: u64,
    pub is_reliable: bool,
}

/// The outcome of detection on exactly one text: the identification, or a
/// failure message when the detector reports nothing.
#[derive(Debug, Clone, PartialEq)]
pub enum WhatLangResult {
    Success(LangInfo),
    Failure(String),
}

/// The batch produced from one successfully processed file: the file's path
/// and one outcome per text found in it.
#[derive(Debug, Clone, PartialEq)]
pub struct WhatLangFromFileResult {
    pub file: String,
    pub results: Vec<WhatLangResult>,
}

/// One file handed to the aggregator: its path and its raw content, where
/// `None` stands for a file that could not be read at all.
#[derive(Debug, Clone, PartialEq)]
pub struct FileInput {
    pub file: String,
    pub bytes: Option<Vec<u8>>,
}

/// What a single-input run yields on success: one outcome in plain mode, the
/// outcomes of every element of the array in JSON mode.
#[derive(Debug, Clone, PartialEq)]
pub enum ProcessOutput {
    Single(WhatLangResult),
    Many(Vec<WhatLangResult>),
}

/// Why a run, or one of its parts, failed.
#[derive(Debug, Clone, PartialEq)]
pub enum ProcessError {
    /// The input bytes are not valid UTF-8.
    InvalidEncoding,
    /// JSON mode was asked for and the input is not a JSON array of strings;
    /// the payload is the parser's account of the fault.
    InvalidJson(String),
    /// Every file of a file-mode run had to be skipped.
    NoFilesProcessed,
}

} // verus!
