//! The local engine: how its recogniser is set up, and what becomes of what it recognises.

use vstd::prelude::*;

use crate::config::{
    ensure_file_exists, AssetPath, LocalAsrConfig, LocalConfigModel, ASR_MODEL_FILE_NAME,
    ASR_TOKENS_FILE_NAME,
};
use crate::error::{HybridAsrError, HybridAsrResult};
use crate::paths::path_of;
use crate::text::{trim, trimmed};
use crate::text_laws::{is_blank, is_inner, law_trimming_takes_the_white_space_around};
use crate::types::AsrResult;

verus! {

pub const MODEL_DESCRIPTION: &'static str = "SenseVoice model";

pub const TOKENS_DESCRIPTION: &'static str = "SenseVoice tokens";

/// What is said where the recogniser cannot be made.
pub const RECOGNIZER_FAILED: &'static str = "SenseVoice offline recognizer creation failed";

/// The language that the recogniser is told to expect: it finds out by itself.
pub const ANY_LANGUAGE: &'static str = "auto";

/// How the recogniser is set up.
#[derive(Debug)]
pub struct RecognizerConfig {
    pub sample_rate: i32,
    pub tokens: AssetPath,
    pub num_threads: i32,
    pub provider: String,
    pub model: AssetPath,
    pub language: String,
    pub use_itn: bool,
}

/// Whether `recognizer` is the set-up that belongs to `config`.
pub open spec fn is_recognizer_config<F>(
    config: LocalConfigModel<F>,
    recognizer: RecognizerConfig,
) -> bool {
    &&& recognizer.sample_rate == config.sample_rate
    &&& recognizer.tokens.dir == path_of(config.asr_model_dir)
    &&& recognizer.tokens.file_name@ == ASR_TOKENS_FILE_NAME@
    &&& recognizer.num_threads == config.num_threads
    &&& recognizer.provider@ == config.provider
    &&& recognizer.model.dir == path_of(config.asr_model_dir)
    &&& recognizer.model.file_name@ == ASR_MODEL_FILE_NAME@
    &&& recognizer.language@ == ANY_LANGUAGE@
    &&& recognizer.use_itn == config.use_itn
}

/// The set-up of the recogniser that belongs to `options`.
pub fn build_recognizer_config<F>(options: &LocalAsrConfig<F>) -> (recognizer: RecognizerConfig)
    ensures
        is_recognizer_config(options@, recognizer),
{
    RecognizerConfig {
        sample_rate: options.sample_rate,
        tokens: options.tokens_path(),
        num_threads: options.num_threads,
        provider: options.provider.clone(),
        model: options.model_path(),
        language: ANY_LANGUAGE.to_owned(),
        use_itn: options.use_itn,
    }
}

/// What is said of the files of the recognition model, if one of them is not there.
pub open spec fn files_fault(
    model_exists: bool,
    model_path: Seq<char>,
    tokens_exist: bool,
    tokens_path: Seq<char>,
) -> Option<Seq<char>> {
    if !model_exists {
        Some(MODEL_DESCRIPTION@ + " 不存在: "@ + model_path)
    } else if !tokens_exist {
        Some(TOKENS_DESCRIPTION@ + " 不存在: "@ + tokens_path)
    } else {
        None
    }
}

/// Turns the findings on the two files of the recognition model into a result. The model is looked
/// at before the token table.
pub fn check_model_files(
    model_exists: bool,
    model_path: &str,
    tokens_exist: bool,
    tokens_path: &str,
) -> (checked: HybridAsrResult<()>)
    ensures
        match files_fault(model_exists, model_path@, tokens_exist, tokens_path@) {
            None => checked is Ok,
            Some(message) => checked matches Err(error) && error@ == message,
        },
        checked is Ok <==> model_exists && tokens_exist,
        checked matches Err(error) ==> error@ == if !model_exists {
            MODEL_DESCRIPTION@ + " 不存在: "@ + model_path@
        } else {
            TOKENS_DESCRIPTION@ + " 不存在: "@ + tokens_path@
        },
{
    match ensure_file_exists(model_exists, model_path, MODEL_DESCRIPTION) {
        Err(message) => return Err(HybridAsrError::new(message)),
        Ok(_) => {},
    }
    match ensure_file_exists(tokens_exist, tokens_path, TOKENS_DESCRIPTION) {
        Err(message) => Err(HybridAsrError::new(message)),
        Ok(_) => Ok(()),
    }
}

/// Turns the recogniser that was made, or was not, into a result.
pub fn recognizer_created<R>(recognizer: Option<R>) -> (created: HybridAsrResult<R>)
    ensures
        match recognizer {
            Some(made) => created == Ok::<R, HybridAsrError>(made),
            None => created matches Err(error) && error@ == RECOGNIZER_FAILED@,
        },
{
    match recognizer {
        Some(made) => Ok(made),
        None => Err(HybridAsrError::from_text(RECOGNIZER_FAILED)),
    }
}

/// One recognised stretch of speech.
///
/// `T` is the number type in which the engine reports seconds.
#[derive(Debug)]
pub struct AsrSegmentResult<T> {
    pub text: String,
    pub start_time: T,
    pub end_time: T,
    pub start_sample: i64,
    pub sample_count: i64,
}

/// Where a stretch of speech lies.
#[derive(Debug)]
pub struct SegmentSpan<T> {
    pub start_time: T,
    pub end_time: T,
    pub start_sample: i64,
    pub sample_count: i64,
}

/// Whether `result` is what becomes of a stretch of speech.
pub open spec fn is_recognized<T>(
    heard: Option<String>,
    span: SegmentSpan<T>,
    result: Option<AsrSegmentResult<T>>,
) -> bool {
    match heard {
        None => result is None,
        Some(text) => if trimmed(text@).len() == 0 {
            result is None
        } else {
            result matches Some(segment) && segment.text@ == trimmed(text@) && segment.start_time
                == span.start_time && segment.end_time == span.end_time && segment.start_sample
                == span.start_sample && segment.sample_count == span.sample_count
        },
    }
}

/// What becomes of a stretch of speech, given what the recogniser made of it: nothing, if there is
/// no text or only white space; else its text without the white space around it.
pub fn recognize_segment<T>(heard: Option<String>, span: SegmentSpan<T>) -> (result: Option<
    AsrSegmentResult<T>,
>)
    ensures
        is_recognized(heard, span, result),
        result is Some <==> (heard matches Some(text) && trimmed(text@).len() > 0),
        result matches Some(segment) ==> {
            &&& segment.text@ == trimmed(heard->0@)
            &&& segment.start_time == span.start_time
            &&& segment.end_time == span.end_time
            &&& segment.start_sample == span.start_sample
            &&& segment.sample_count == span.sample_count
        },
{
    match heard {
        None => None,
        Some(text) => {
            let inner: String = trim(text.as_str());
            if inner.as_str().is_empty() {
                None
            } else {
                Some(
                    AsrSegmentResult {
                        text: inner,
                        start_time: span.start_time,
                        end_time: span.end_time,
                        start_sample: span.start_sample,
                        sample_count: span.sample_count,
                    },
                )
            }
        },
    }
}

/// A recognised stretch of speech as a result. The local engine only knows whole sentences.
pub open spec fn final_result<T>(segment: AsrSegmentResult<T>) -> AsrResult<T> {
    AsrResult {
        text: segment.text,
        start_time: segment.start_time,
        end_time: segment.end_time,
        start_sample: segment.start_sample,
        sample_count: segment.sample_count,
        is_final: true,
    }
}

/// Recognised stretches of speech as results, one for one and in their order.
pub fn final_results<T>(segments: Vec<AsrSegmentResult<T>>) -> (results: Vec<AsrResult<T>>)
    ensures
        results@ == segments@.map_values(|segment: AsrSegmentResult<T>| final_result(segment)),
        results@.len() == segments@.len(),
        forall|i: int|
            #![trigger results@[i]]
            0 <= i < results@.len() ==> {
                &&& results@[i].is_final
                &&& results@[i].text == segments@[i].text
                &&& results@[i].start_time == segments@[i].start_time
                &&& results@[i].end_time == segments@[i].end_time
                &&& results@[i].start_sample == segments@[i].start_sample
                &&& results@[i].sample_count == segments@[i].sample_count
            },
{
    let mut results: Vec<AsrResult<T>> = Vec::new();
    for segment in it: segments
        invariant
            it.seq() == segments@,
            results@ == segments@.take(it.index()).map_values(
                |segment: AsrSegmentResult<T>| final_result(segment),
            ),
    {
        results.push(
            AsrResult {
                text: segment.text,
                start_time: segment.start_time,
                end_time: segment.end_time,
                start_sample: segment.start_sample,
                sample_count: segment.sample_count,
                is_final: true,
            },
        );
        proof {
            assert(results@ =~= segments@.take(it.index() + 1).map_values(
                |segment: AsrSegmentResult<T>| final_result(segment),
            ));
        }
    }
    proof {
        assert(segments@.take(segments@.len() as int) =~= segments@);
    }
    results
}

/// Each recognised stretch of speech gives one result at its place, and a final one: with the text,
/// the times, the first sample and the number of samples of the stretch, however long it is.
pub proof fn law_stretches_are_final_results<T>(
    segments: Seq<AsrSegmentResult<T>>,
    results: Seq<AsrResult<T>>,
    i: int,
)
    requires
        results == segments.map_values(|segment: AsrSegmentResult<T>| final_result(segment)),
        0 <= i < segments.len(),
    ensures
        results.len() == segments.len(),
        results[i].is_final,
        results[i].text == segments[i].text,
        results[i].start_time == segments[i].start_time,
        results[i].end_time == segments[i].end_time,
        results[i].start_sample == segments[i].start_sample,
        results[i].sample_count == segments[i].sample_count,
{
}

/// The recogniser is set up with what was configured: it reads its two files from the directory of
/// the recognition model, and finds out the language by itself.
pub proof fn law_recogniser_is_set_up_as_configured<F>(
    config: LocalConfigModel<F>,
    recognizer: RecognizerConfig,
)
    requires
        is_recognizer_config(config, recognizer),
    ensures
        recognizer.model.dir == path_of(config.asr_model_dir),
        recognizer.tokens.dir == path_of(config.asr_model_dir),
        recognizer.model.file_name@ == "model.int8.onnx"@,
        recognizer.tokens.file_name@ == "tokens.txt"@,
        recognizer.language@ == "auto"@,
        recognizer.provider@ == config.provider,
        recognizer.sample_rate == config.sample_rate,
        recognizer.num_threads == config.num_threads,
        recognizer.use_itn == config.use_itn,
{
}

/// A stretch of speech gives a result exactly where the recogniser heard something that is not
/// blank: what it heard without the white space around it, where the stretch lies.
pub proof fn law_speech_gives_results<T>(
    heard: Option<String>,
    span: SegmentSpan<T>,
    result: Option<AsrSegmentResult<T>>,
)
    requires
        is_recognized(heard, span, result),
    ensures
        result is Some <==> (heard matches Some(text) && !is_blank(text@)),
        result matches Some(segment) ==> {
            &&& is_inner(heard->0@, segment.text@)
            &&& segment.text@ == trimmed(heard->0@)
            &&& segment.start_time == span.start_time
            &&& segment.end_time == span.end_time
            &&& segment.start_sample == span.start_sample
            &&& segment.sample_count == span.sample_count
        },
{
    if let Some(text) = heard {
        law_trimming_takes_the_white_space_around(text@);
    }
}

/// A recogniser is refused exactly where one of its files is not there, in words that name the
/// file, the model before the token table.
pub proof fn law_missing_files_are_named(
    model_exists: bool,
    model_path: Seq<char>,
    tokens_exist: bool,
    tokens_path: Seq<char>,
)
    ensures
        files_fault(model_exists, model_path, tokens_exist, tokens_path) is None <==> model_exists
            && tokens_exist,
        !model_exists ==> files_fault(model_exists, model_path, tokens_exist, tokens_path) == Some(
            "SenseVoice model"@ + " 不存在: "@ + model_path,
        ),
        model_exists && !tokens_exist ==> files_fault(
            model_exists,
            model_path,
            tokens_exist,
            tokens_path,
        ) == Some("SenseVoice tokens"@ + " 不存在: "@ + tokens_path),
{
}

} // verus!
