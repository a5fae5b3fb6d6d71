//! Language-detection pipeline: resolves one input (a plain text, a JSON
//! array of texts, or the contents of several files) into a uniform sequence
//! of detection outcomes, and decides the success or failure of the whole
//! run. The statistical classifier itself is an outside collaborator and is
//! called through a small set of trusted wrappers.

pub mod aggregate;
pub mod detect;
pub mod expand;
pub mod outcome;
pub mod process;
