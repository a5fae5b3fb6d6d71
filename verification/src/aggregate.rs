//! The File Aggregator: each file's bytes must decode as UTF-8, the decoded
//! text is expanded and detected under the shared mode; a file that could
//! not be read, did not decode, or held malformed JSON is skipped; the run
//! fails exactly when every file was skipped.

use vstd::prelude::*;
use vstd::utf8::{decode_utf8, valid_utf8};

use crate::detect::{batch_matches, detect_many, outcome_matches};
use crate::expand::{expand, parsed_string_array};
use crate::outcome::{FileInput, ProcessError, WhatLangFromFileResult};
use crate::process::utf8_to_string;

verus! {

/// Whether a file contributes an entry to the aggregate: its content must
/// have been read, must be valid UTF-8, and in JSON mode must parse as a
/// JSON array of strings.
pub open spec fn file_is_processed(f: FileInput, json: bool) -> bool {
    match f.bytes {
        Some(b) => valid_utf8(b@) && (json ==> parsed_string_array(decode_utf8(b@)) is Some),
        None => false,
    }
}

/// How one aggregate entry relates to the file it came from: the same path,
/// and one outcome per text the file held — the whole decoded content in
/// plain mode, the elements of its JSON array in JSON mode.
pub open spec fn file_result_matches(fr: WhatLangFromFileResult, f: FileInput, json: bool) -> bool {
    &&& fr.file == f.file
    &&& match f.bytes {
        Some(b) => valid_utf8(b@) && (if json {
            match parsed_string_array(decode_utf8(b@)) {
                Some(texts) => batch_matches(fr.results@, texts),
                None => false,
            }
        } else {
            fr.results@.len() == 1 && outcome_matches(fr.results@[0], decode_utf8(b@))
        }),
        None => false,
    }
}

/// How the aggregate relates to the whole file list: entries for exactly the
/// processed files, in the order the files were given.
pub open spec fn aggregate_matches(
    v: Seq<WhatLangFromFileResult>,
    files: Seq<FileInput>,
    json: bool,
) -> bool
    decreases files.len(),
{
    if files.len() == 0 {
        v.len() == 0
    } else if file_is_processed(files[0], json) {
        &&& v.len() >= 1
        &&& file_result_matches(v[0], files[0], json)
        &&& aggregate_matches(v.skip(1), files.skip(1), json)
    } else {
        aggregate_matches(v, files.skip(1), json)
    }
}

proof fn lemma_aggregate_push_processed(
    v: Seq<WhatLangFromFileResult>,
    files: Seq<FileInput>,
    f: FileInput,
    fr: WhatLangFromFileResult,
    json: bool,
)
    requires
        aggregate_matches(v, files, json),
        file_is_processed(f, json),
        file_result_matches(fr, f, json),
    ensures
        aggregate_matches(v.push(fr), files.push(f), json),
    decreases files.len(),
{
    if files.len() == 0 {
        assert(v.len() == 0);
        assert(files.push(f)[0] == f);
        assert(v.push(fr)[0] == fr);
        assert(v.push(fr).skip(1) =~= v);
        assert(files.push(f).skip(1) =~= files);
    } else {
        assert(files.push(f)[0] == files[0]);
        assert(files.push(f).skip(1) =~= files.skip(1).push(f));
        if file_is_processed(files[0], json) {
            assert(v.push(fr)[0] == v[0]);
            assert(v.push(fr).skip(1) =~= v.skip(1).push(fr));
            lemma_aggregate_push_processed(v.skip(1), files.skip(1), f, fr, json);
        } else {
            lemma_aggregate_push_processed(v, files.skip(1), f, fr, json);
        }
    }
}

proof fn lemma_aggregate_push_skipped(
    v: Seq<WhatLangFromFileResult>,
    files: Seq<FileInput>,
    f: FileInput,
    json: bool,
)
    requires
        aggregate_matches(v, files, json),
        !file_is_processed(f, json),
    ensures
        aggregate_matches(v, files.push(f), json),
    decreases files.len(),
{
    if files.len() == 0 {
        assert(files.push(f)[0] == f);
        assert(files.push(f).skip(1) =~= files);
    } else {
        assert(files.push(f)[0] == files[0]);
        assert(files.push(f).skip(1) =~= files.skip(1).push(f));
        if file_is_processed(files[0], json) {
            lemma_aggregate_push_skipped(v.skip(1), files.skip(1), f, json);
        } else {
            lemma_aggregate_push_skipped(v, files.skip(1), f, json);
        }
    }
}

/// Law: the aggregate holds an entry exactly when some file was processed.
pub proof fn lemma_aggregate_nonempty_iff_some_processed(
    v: Seq<WhatLangFromFileResult>,
    files: Seq<FileInput>,
    json: bool,
)
    requires
        aggregate_matches(v, files, json),
    ensures
        v.len() > 0 <==> exists|i: int|
            0 <= i < files.len() && file_is_processed(#[trigger] files[i], json),
    decreases files.len(),
{
    if files.len() == 0 {
    } else if file_is_processed(files[0], json) {
        assert(file_is_processed(files[0], json));
    } else {
        lemma_aggregate_nonempty_iff_some_processed(v, files.skip(1), json);
        if exists|j: int|
            0 <= j < files.skip(1).len() && file_is_processed(#[trigger] files.skip(1)[j], json) {
            let j = choose|j: int|
                0 <= j < files.skip(1).len() && file_is_processed(
                    #[trigger] files.skip(1)[j],
                    json,
                );
            assert(files.skip(1)[j] == files[j + 1]);
            assert(file_is_processed(files[j + 1], json));
        }
        if exists|i: int| 0 <= i < files.len() && file_is_processed(#[trigger] files[i], json) {
            let i = choose|i: int|
                0 <= i < files.len() && file_is_processed(#[trigger] files[i], json);
            assert(i != 0);
            assert(files.skip(1)[i - 1] == files[i]);
            assert(file_is_processed(files.skip(1)[i - 1], json));
        }
    }
}

/// Law: when every file is processed, the aggregate keeps one entry per
/// file, in the order the files were given.
pub proof fn lemma_aggregate_all_processed(
    v: Seq<WhatLangFromFileResult>,
    files: Seq<FileInput>,
    json: bool,
)
    requires
        aggregate_matches(v, files, json),
        forall|i: int| 0 <= i < files.len() ==> file_is_processed(#[trigger] files[i], json),
    ensures
        v.len() == files.len(),
        forall|i: int|
            0 <= i < files.len() ==> file_result_matches(v[i], #[trigger] files[i], json),
    decreases files.len(),
{
    if files.len() == 0 {
    } else {
        assert forall|i: int|
            0 <= i < files.skip(1).len() implies file_is_processed(
            #[trigger] files.skip(1)[i],
            json,
        ) by {
            assert(files.skip(1)[i] == files[i + 1]);
        }
        lemma_aggregate_all_processed(v.skip(1), files.skip(1), json);
        assert forall|i: int|
            0 <= i < files.len() implies file_result_matches(v[i], #[trigger] files[i], json) by {
            if i > 0 {
                assert(v.skip(1)[i - 1] == v[i]);
                assert(files.skip(1)[i - 1] == files[i]);
            }
        }
    }
}

/// Law: when exactly one file is skipped, the aggregate keeps one entry for
/// every other file, in order, and omits the skipped one.
pub proof fn lemma_aggregate_one_skipped(
    v: Seq<WhatLangFromFileResult>,
    files: Seq<FileInput>,
    json: bool,
    k: int,
)
    requires
        aggregate_matches(v, files, json),
        0 <= k < files.len(),
        !file_is_processed(files[k], json),
        forall|i: int|
            0 <= i < files.len() && i != k ==> file_is_processed(#[trigger] files[i], json),
    ensures
        v.len() == files.len() - 1,
        forall|i: int| 0 <= i < k ==> file_result_matches(#[trigger] v[i], files[i], json),
        forall|i: int| k <= i < v.len() ==> file_result_matches(#[trigger] v[i], files[i + 1], json),
    decreases files.len(),
{
    if k == 0 {
        assert(aggregate_matches(v, files.skip(1), json));
        assert forall|i: int|
            0 <= i < files.skip(1).len() implies file_is_processed(
            #[trigger] files.skip(1)[i],
            json,
        ) by {
            assert(files.skip(1)[i] == files[i + 1]);
        }
        lemma_aggregate_all_processed(v, files.skip(1), json);
        assert forall|i: int|
            0 <= i < v.len() implies file_result_matches(#[trigger] v[i], files[i + 1], json) by {
            assert(files.skip(1)[i] == files[i + 1]);
        }
    } else {
        assert(file_is_processed(files[0], json));
        assert forall|i: int|
            0 <= i < files.skip(1).len() && i != k - 1 implies file_is_processed(
            #[trigger] files.skip(1)[i],
            json,
        ) by {
            assert(files.skip(1)[i] == files[i + 1]);
        }
        assert(files.skip(1)[k - 1] == files[k]);
        lemma_aggregate_one_skipped(v.skip(1), files.skip(1), json, k - 1);
        assert forall|i: int|
            0 <= i < k implies file_result_matches(#[trigger] v[i], files[i], json) by {
            if i > 0 {
                assert(v.skip(1)[i - 1] == v[i]);
                assert(files.skip(1)[i - 1] == files[i]);
            }
        }
        assert forall|i: int|
            k <= i < v.len() implies file_result_matches(#[trigger] v[i], files[i + 1], json) by {
            assert(v.skip(1)[i - 1] == v[i]);
            assert(files.skip(1)[i] == files[i + 1]);
        }
    }
}

/// The aggregator: one entry per processed file in input order, a skipped
/// file leaving no trace; the run fails, with `NoFilesProcessed`, exactly
/// when no file at all could be processed.
pub fn process_files(files: Vec<FileInput>, json: bool) -> (r: Result<
    Vec<WhatLangFromFileResult>,
    ProcessError,
>)
    ensures
        r matches Ok(v) ==> aggregate_matches(v@, files@, json) && v@.len() > 0,
        r is Ok <==> exists|i: int|
            0 <= i < files@.len() && file_is_processed(#[trigger] files@[i], json),
        r matches Err(e) ==> e is NoFilesProcessed,
{
    let mut result: Vec<WhatLangFromFileResult> = Vec::new();
    let mut i: usize = 0;
    while i < files.len()
        invariant
            i <= files@.len(),
            aggregate_matches(result@, files@.subrange(0, i as int), json),
        decreases files@.len() - i,
    {
        let ghost prefix = files@.subrange(0, i as int);
        proof {
            assert(files@.subrange(0, i as int + 1) =~= prefix.push(files@[i as int]));
        }
        let f = &files[i];
        match &f.bytes {
            Some(b) => {
                match utf8_to_string(b) {
                    Some(t) => {
                        match expand(t, json) {
                            Ok(texts) => {
                                let results = detect_many(texts);
                                let fr = WhatLangFromFileResult { file: f.file.clone(), results };
                                proof {
                                    lemma_aggregate_push_processed(
                                        result@,
                                        prefix,
                                        files@[i as int],
                                        fr,
                                        json,
                                    );
                                }
                                result.push(fr);
                            },
                            Err(_) => {
                                proof {
                                    lemma_aggregate_push_skipped(
                                        result@,
                                        prefix,
                                        files@[i as int],
                                        json,
                                    );
                                }
                            },
                        }
                    },
                    None => {
                        proof {
                            lemma_aggregate_push_skipped(result@, prefix, files@[i as int], json);
                        }
                    },
                }
            },
            None => {
                proof {
                    lemma_aggregate_push_skipped(result@, prefix, files@[i as int], json);
                }
            },
        }
        i = i + 1;
    }
    proof {
        assert(files@.subrange(0, files@.len() as int) =~= files@);
        lemma_aggregate_nonempty_iff_some_processed(result@, files@, json);
    }
    if result.is_empty() {
        Err(ProcessError::NoFilesProcessed)
    } else {
        Ok(result)
    }
}

} // verus!
