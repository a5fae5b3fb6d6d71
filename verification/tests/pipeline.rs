use whatlang_cli::detect::{detect, detect_many};
use whatlang_cli::expand::expand;
use whatlang_cli::outcome::{LangInfo, ProcessError, ProcessOutput, WhatLangResult};
use whatlang_cli::process::{process_stdin, process_string};

const SENTENCE: &str = "Trigramme sind ein Spezialfall des n-Gramms, wobei n gleich 3 ist. Sie werden häufig in der Verarbeitung natürlicher Sprache zur statistischen Analyse von Texten und in der Kryptographie zur Kontrolle und Verwendung von Chiffren und Codes verwendet.";

const ENGLISH: &str = "Trigrams are a special case of the n-gram, where n equals 3. They are often used in natural language processing for the statistical analysis of texts and in cryptography for the control and use of ciphers and codes.";

const RUSSIAN: &str = "Триграммы - это частный случай n-грамм, где n равно 3. Они часто используются в обработке естественного языка для статистического анализа текстов и в криптографии для управления и использования шифров и кодов.";

fn expect_success(r: &WhatLangResult) -> &LangInfo {
    match r {
        WhatLangResult::Success(info) => info,
        WhatLangResult::Failure(m) => panic!("expected a successful detection, got {m}"),
    }
}

#[test]
fn detect_german_sentence() {
    let r = detect(SENTENCE);
    let info = expect_success(&r);
    assert_eq!(info.language, "German");
    assert_eq!(info.script, "Latin");
    assert_eq!(info.confidence_bits, (1.0f64).to_bits());
    assert!(info.is_reliable);
}

#[test]
fn detect_short_text_fails_with_message() {
    let r = detect("");
    match r {
        WhatLangResult::Success(info) => panic!("expected a failure, got {:?}", info),
        WhatLangResult::Failure(m) => assert_eq!(m, "Failed to detect language"),
    }
}

#[test]
fn from_info_agrees_with_detect() {
    let info = whatlang::detect(SENTENCE).expect("the detector identifies the sentence");
    let converted = LangInfo::from_info(info);
    let r = detect(SENTENCE);
    assert_eq!(expect_success(&r), &converted);
    assert_eq!(converted.language, "German");
    assert_eq!(converted.script, "Latin");
}

#[test]
fn detect_many_keeps_length_and_order() {
    let texts = vec![
        SENTENCE.to_string(),
        ENGLISH.to_string(),
        RUSSIAN.to_string(),
    ];
    let results = detect_many(texts);
    assert_eq!(results.len(), 3);
    assert_eq!(expect_success(&results[0]).language, "German");
    assert_eq!(expect_success(&results[1]).language, "English");
    assert_eq!(expect_success(&results[2]).language, "Russian");
}

#[test]
fn detect_many_of_nothing_is_empty() {
    let results = detect_many(Vec::new());
    assert!(results.is_empty());
}

#[test]
fn expand_plain_is_the_text_itself() {
    let r = expand("some text".to_string(), false);
    assert_eq!(r, Ok(vec!["some text".to_string()]));
}

#[test]
fn expand_plain_keeps_the_empty_text() {
    let r = expand(String::new(), false);
    assert_eq!(r, Ok(vec![String::new()]));
}

#[test]
fn expand_json_yields_the_elements_in_order() {
    let r = expand("[\"a\", \"b\", \"c\"]".to_string(), true);
    assert_eq!(
        r,
        Ok(vec!["a".to_string(), "b".to_string(), "c".to_string()])
    );
}

#[test]
fn expand_json_accepts_the_empty_array() {
    let r = expand("[]".to_string(), true);
    assert_eq!(r, Ok(Vec::new()));
}

#[test]
fn expand_json_rejects_malformed_input() {
    let r = expand("not json at all".to_string(), true);
    assert!(matches!(r, Err(ProcessError::InvalidJson(_))));
}

#[test]
fn expand_json_rejects_a_non_array() {
    let r = expand("{\"a\": 1}".to_string(), true);
    assert!(matches!(r, Err(ProcessError::InvalidJson(_))));
}

#[test]
fn expand_json_rejects_a_non_string_element() {
    let r = expand("[\"a\", 1]".to_string(), true);
    assert!(matches!(r, Err(ProcessError::InvalidJson(_))));
}

#[test]
fn process_string_plain_wraps_one_outcome() {
    let r = process_string(SENTENCE.to_string(), false).expect("plain mode never fails");
    match r {
        ProcessOutput::Single(w) => assert_eq!(expect_success(&w).language, "German"),
        ProcessOutput::Many(ws) => panic!("expected a single outcome, got {} of them", ws.len()),
    }
}

#[test]
fn process_string_json_wraps_each_element() {
    let input = serde_json::to_string(&vec![SENTENCE]).unwrap();
    let r = process_string(input, true).expect("a JSON array of strings is accepted");
    match r {
        ProcessOutput::Single(_) => panic!("expected an array of outcomes"),
        ProcessOutput::Many(ws) => {
            assert_eq!(ws.len(), 1);
            let info = expect_success(&ws[0]);
            assert_eq!(info.language, "German");
            assert_eq!(info.script, "Latin");
            assert_eq!(info.confidence_bits, (1.0f64).to_bits());
            assert!(info.is_reliable);
        }
    }
}

#[test]
fn process_string_json_rejects_plain_text() {
    let r = process_string(SENTENCE.to_string(), true);
    assert!(matches!(r, Err(ProcessError::InvalidJson(_))));
}

#[test]
fn process_stdin_accepts_valid_utf8() {
    let r = process_stdin(SENTENCE.as_bytes().to_vec(), false).expect("valid UTF-8 is accepted");
    match r {
        ProcessOutput::Single(w) => assert_eq!(expect_success(&w).language, "German"),
        ProcessOutput::Many(_) => panic!("expected a single outcome"),
    }
}

#[test]
fn process_stdin_rejects_invalid_utf8() {
    let bytes = vec![0xffu8; 32];
    let r = process_stdin(bytes, false);
    assert_eq!(r, Err(ProcessError::InvalidEncoding));
}

#[test]
fn process_stdin_rejects_invalid_utf8_in_json_mode() {
    let mut bytes = b"[\"".to_vec();
    bytes.push(0xfe);
    bytes.extend_from_slice(b"\"]");
    let r = process_stdin(bytes, true);
    assert_eq!(r, Err(ProcessError::InvalidEncoding));
}
