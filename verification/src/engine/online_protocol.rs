//! The messages of the online recognition service.

use base64::engine::general_purpose::STANDARD;
use base64::Engine;

use vstd::prelude::*;

use crate::config::OnlineAsrConfig;
use crate::json::{
    double_bits_in, double_bits_of, get_in, json_reading, member_of, optional_model, read_json,
    str_or_empty, text_or_empty, JsonKind, JsonKindModel, JsonModel, JsonValue,
};
use crate::text::{ascii_lowered, reads_in_lower_case, same_text, trim, trimmed};

verus! {

/// The fields of a response that are worth a line in a log.
#[derive(Debug)]
pub struct OnlineAsrResponseDebugInfo {
    pub code: String,
    pub header_status: String,
    pub msg_type: String,
}

impl Clone for OnlineAsrResponseDebugInfo {
    fn clone(&self) -> (copy: Self)
        ensures
            copy == *self,
    {
        OnlineAsrResponseDebugInfo {
            code: self.code.clone(),
            header_status: self.header_status.clone(),
            msg_type: self.msg_type.clone(),
        }
    }
}

/// One audio message to the service.
pub struct OnlineAsrRequest<'a> {
    pub request_type: &'static str,
    pub audio: &'a str,
    pub config: OnlineAsrRequestConfig<'a>,
}

/// What accompanies the audio of a message.
pub struct OnlineAsrRequestConfig<'a> {
    pub trace_id: &'a str,
    pub biz_id: &'a str,
    pub status: i32,
    pub text: Option<&'a str>,
}

/// What the service says was spoken.
///
/// `begin` and `end` are the bits of the doubles that the service reports, in milliseconds.
#[derive(Debug)]
pub struct OnlineUtterance {
    pub text: String,
    pub is_final: bool,
    pub begin: Option<u64>,
    pub end: Option<u64>,
}

/// What the service says was spoken, as data.
pub struct UtteranceModel {
    pub text: Seq<char>,
    pub is_final: bool,
    pub begin: Option<u64>,
    pub end: Option<u64>,
}

impl View for OnlineUtterance {
    type V = UtteranceModel;

    open spec fn view(&self) -> UtteranceModel {
        UtteranceModel {
            text: self.text@,
            is_final: self.is_final,
            begin: self.begin,
            end: self.end,
        }
    }
}

/// The digit of the standard base64 alphabet for six bits.
pub open spec fn base64_digit(bits: int) -> char {
    if bits < 26 {
        ('A' as int + bits) as char
    } else if bits < 52 {
        ('a' as int + bits - 26) as char
    } else if bits < 62 {
        ('0' as int + bits - 52) as char
    } else if bits == 62 {
        '+'
    } else {
        '/'
    }
}

/// Bytes in standard base64 with padding: three bytes are four digits, and a shorter rest is
/// filled up with `=`.
pub open spec fn base64_text(bytes: Seq<u8>) -> Seq<char>
    decreases bytes.len(),
{
    let a = bytes[0] as int;
    let b = bytes[1] as int;
    let c = bytes[2] as int;
    if bytes.len() == 0 {
        Seq::empty()
    } else if bytes.len() == 1 {
        seq![base64_digit(a / 4), base64_digit(a % 4 * 16), '=', '=']
    } else if bytes.len() == 2 {
        seq![base64_digit(a / 4), base64_digit(a % 4 * 16 + b / 16), base64_digit(b % 16 * 4), '=']
    } else {
        seq![
            base64_digit(a / 4),
            base64_digit(a % 4 * 16 + b / 16),
            base64_digit(b % 16 * 4 + c / 64),
            base64_digit(c % 64),
        ] + base64_text(bytes.skip(3))
    }
}

/// Whether the base64 form of so many bytes still fits in memory.
pub open spec fn encodable(len: int) -> bool {
    (len + 2) / 3 * 4 <= isize::MAX
}

/// Calls `Engine::encode` of the `base64` crate with the engine `STANDARD`: the standard alphabet
/// with padding. It panics where the encoded length does not fit.
#[verifier::external_body]
fn base64_standard(bytes: &[u8]) -> (text: String)
    requires
        encodable(bytes@.len() as int),
    ensures
        text@ == base64_text(bytes@),
{
    STANDARD.encode(bytes)
}

/// A frame of audio in the form in which a message carries it.
pub fn encode_audio(frame: &[u8]) -> (audio: String)
    requires
        encodable(frame@.len() as int),
    ensures
        audio@ == base64_text(frame@),
{
    base64_standard(frame)
}

/// Whether `request` is the audio message for a frame that is sent under `options`.
pub open spec fn is_frame_request(
    request: OnlineAsrRequest,
    audio: Seq<char>,
    status: i32,
    options: OnlineAsrConfig,
) -> bool {
    &&& request.request_type@ == "audio"@
    &&& request.audio@ == audio
    &&& request.config.trace_id@ == options.trace_id@
    &&& request.config.biz_id@ == options.biz_id@
    &&& request.config.status == status
    &&& match options.hot_words {
        Some(words) => request.config.text matches Some(text) && text@ == words@,
        None => request.config.text is None,
    }
}

/// An audio message.
pub fn build_online_asr_request<'a>(
    audio: &'a str,
    trace_id: &'a str,
    biz_id: &'a str,
    status: i32,
    hot_words: Option<&'a str>,
) -> (request: OnlineAsrRequest<'a>)
    ensures
        request.request_type@ == "audio"@,
        request.audio == audio,
        request.config.trace_id == trace_id,
        request.config.biz_id == biz_id,
        request.config.status == status,
        request.config.text == hot_words,
{
    OnlineAsrRequest {
        request_type: "audio",
        audio,
        config: OnlineAsrRequestConfig { trace_id, biz_id, status, text: hot_words },
    }
}

/// The audio message for a frame that is sent under `options`.
pub fn frame_request<'a>(audio: &'a str, status: i32, options: &'a OnlineAsrConfig) -> (request:
    OnlineAsrRequest<'a>)
    ensures
        is_frame_request(request, audio@, status, *options),
        request.request_type@ == "audio"@,
        request.audio == audio,
        request.config.trace_id@ == options.trace_id@,
        request.config.biz_id@ == options.biz_id@,
        request.config.status == status,
        request.config.text is Some <==> options.hot_words is Some,
        request.config.text matches Some(text) ==> text@ == options.hot_words->0@,
{
    let hot_words: Option<&'a str> = match &options.hot_words {
        Some(words) => Some(words.as_str()),
        None => None,
    };
    build_online_asr_request(
        audio,
        options.trace_id.as_str(),
        options.biz_id.as_str(),
        status,
        hot_words,
    )
}

/// Whether a code means success: the integer zero or the text `0`.
pub open spec fn success_code(code: JsonModel) -> bool {
    match code.kind {
        JsonKindModel::Number(number) => number.integer == Some(0i64),
        JsonKindModel::Text(text) => text == "0"@,
        _ => false,
    }
}

/// The header of a response.
pub open spec fn header_of(response: JsonModel) -> Option<JsonModel> {
    member_of(response.member("data"@), "header"@)
}

/// The recognition result within a response.
pub open spec fn result_of(response: JsonModel) -> Option<JsonModel> {
    member_of(member_of(response.member("data"@), "payload"@), "result"@)
}

/// The message of a failure that a code reports.
pub open spec fn code_message(
    intro: Seq<char>,
    code: JsonModel,
    message: Option<JsonModel>,
) -> Seq<char> {
    intro + code.rendered + ", message="@ + text_or_empty(message)
}

/// The failure that a response reports, if it reports one: a code at the top counts before one in
/// the header, and a code that is missing is no failure.
pub open spec fn reported_failure(response: JsonModel) -> Option<Seq<char>> {
    let code = response.member("code"@);
    let header_code = member_of(header_of(response), "code"@);
    if code is Some && !success_code(code->0) {
        Some(
            code_message(
                "在线 ASR 服务返回失败 code="@,
                code->0,
                response.member("message"@),
            ),
        )
    } else if header_code is Some && !success_code(header_code->0) {
        Some(
            code_message(
                "在线 ASR header 返回失败 code="@,
                header_code->0,
                member_of(header_of(response), "message"@),
            ),
        )
    } else {
        None
    }
}

/// The words of a list of candidates, one after the other. A candidate without a word adds none.
pub open spec fn candidate_words(candidates: Seq<JsonModel>) -> Seq<char>
    decreases candidates.len(),
{
    if candidates.len() == 0 {
        Seq::empty()
    } else {
        candidate_words(candidates.drop_last()) + text_or_empty(candidates.last().member("w"@))
    }
}

/// The candidates under one word slot.
pub open spec fn slot_candidates(slot: JsonModel) -> Seq<JsonModel> {
    match slot.member("cw"@) {
        Some(candidates) => candidates.kind.items(),
        None => Seq::empty(),
    }
}

/// The words of a list of word slots, one after the other.
pub open spec fn slot_words(slots: Seq<JsonModel>) -> Seq<char>
    decreases slots.len(),
{
    if slots.len() == 0 {
        Seq::empty()
    } else {
        slot_words(slots.drop_last()) + candidate_words(slot_candidates(slots.last()))
    }
}

/// All words of a recognition result.
pub open spec fn spoken_words(result: JsonModel) -> Seq<char> {
    match result.member("ws"@) {
        Some(slots) => slot_words(slots.kind.items()),
        None => Seq::empty(),
    }
}

/// What a recognition result says was spoken, if it says anything but white space.
pub open spec fn utterance_of(result: JsonModel) -> Option<UtteranceModel> {
    let text = spoken_words(result);
    if trimmed(text).len() == 0 {
        None
    } else {
        Some(
            UtteranceModel {
                text,
                is_final: ascii_lowered(text_or_empty(result.member("msgtype"@))) == "sentence"@,
                begin: double_bits_of(result.member("bg"@)),
                end: double_bits_of(result.member("ed"@)),
            },
        )
    }
}

/// What a response says: a failure, nothing, or an utterance.
pub open spec fn response_meaning(response: JsonModel) -> Result<Option<UtteranceModel>, Seq<char>> {
    match reported_failure(response) {
        Some(message) => Err(message),
        None => match result_of(response) {
            Some(result) => Ok(utterance_of(result)),
            None => Ok(None),
        },
    }
}

/// What the text of a response says: that it cannot be read, or what its value says.
pub open spec fn response_text_meaning(text: Seq<char>) -> Result<
    Option<UtteranceModel>,
    Seq<char>,
> {
    match json_reading(text) {
        Ok(response) => response_meaning(response),
        Err(fault) => Err("在线 ASR 响应 JSON 解析失败: "@ + fault),
    }
}

/// A decoded response as data.
pub open spec fn meaning_model(decoded: Result<Option<OnlineUtterance>, String>) -> Result<
    Option<UtteranceModel>,
    Seq<char>,
> {
    match decoded {
        Ok(Some(utterance)) => Ok(Some(utterance@)),
        Ok(None) => Ok(None),
        Err(message) => Err(message@),
    }
}

fn is_success_code(code: &JsonValue) -> (success: bool)
    ensures
        success == success_code(code@),
{
    match &code.kind {
        JsonKind::Number(number) => match number.integer {
            Some(integer) => integer == 0,
            None => false,
        },
        JsonKind::Text(text) => same_text(text.as_str(), "0"),
        _ => false,
    }
}

fn describe_code(intro: &str, code: &JsonValue, message: Option<&JsonValue>) -> (text: String)
    ensures
        text@ == code_message(intro@, code@, optional_model(message)),
{
    let mut text: String = intro.to_owned();
    text.append(code.rendered.as_str());
    text.append(", message=");
    text.append(str_or_empty(message));
    text
}

/// Refuses a response that reports a failure.
pub fn ensure_success_code(response: &JsonValue) -> (checked: Result<(), String>)
    ensures
        checked is Ok <==> reported_failure(response@) is None,
        checked matches Err(message) ==> reported_failure(response@) == Some(message@),
{
    if let Some(code) = response.get("code") {
        if !is_success_code(code) {
            return Err(
                describe_code(
                    "在线 ASR 服务返回失败 code=",
                    code,
                    response.get("message"),
                ),
            );
        }
    }
    let header: Option<&JsonValue> = get_in(response.get("data"), "header");
    if let Some(header_code) = get_in(header, "code") {
        if !is_success_code(header_code) {
            return Err(
                describe_code(
                    "在线 ASR header 返回失败 code=",
                    header_code,
                    get_in(header, "message"),
                ),
            );
        }
    }
    Ok(())
}

fn append_candidates(words: &mut String, slot: &JsonValue)
    ensures
        final(words)@ == old(words)@ + candidate_words(slot_candidates(slot@)),
{
    if let Some(candidates) = slot.get("cw") {
        if let JsonKind::Array(items) = &candidates.kind {
            let ghost models = slot_candidates(slot@);
            proof {
                assert(models.take(0) =~= Seq::<JsonModel>::empty());
                assert(words@ + Seq::<char>::empty() =~= words@);
            }
            for at in 0..items.len()
                invariant
                    items@.len() == models.len(),
                    forall|i: int| 0 <= i < items@.len() ==> (#[trigger] items@[i])@ == models[i],
                    words@ == old(words)@ + candidate_words(models.take(at as int)),
            {
                words.append(str_or_empty(items[at].get("w")));
                proof {
                    assert(models.take(at + 1).drop_last() =~= models.take(at as int));
                    assert(models.take(at + 1).last() == items@[at as int]@);
                    assert(words@ =~= old(words)@ + candidate_words(models.take(at + 1)));
                }
            }
            proof {
                assert(models.take(models.len() as int) =~= models);
            }
            return ;
        }
    }
    proof {
        assert(words@ =~= old(words)@ + candidate_words(slot_candidates(slot@)));
    }
}

/// All words of a recognition result.
pub fn extract_words(result: &JsonValue) -> (words: String)
    ensures
        words@ == spoken_words(result@),
{
    let mut words: String = String::new();
    if let Some(slots) = result.get("ws") {
        if let JsonKind::Array(items) = &slots.kind {
            let ghost models = slots@.kind.items();
            proof {
                assert(models.take(0) =~= Seq::<JsonModel>::empty());
            }
            for at in 0..items.len()
                invariant
                    items@.len() == models.len(),
                    forall|i: int| 0 <= i < items@.len() ==> (#[trigger] items@[i])@ == models[i],
                    words@ == slot_words(models.take(at as int)),
            {
                append_candidates(&mut words, &items[at]);
                proof {
                    assert(models.take(at + 1).drop_last() =~= models.take(at as int));
                    assert(models.take(at + 1).last() == items@[at as int]@);
                }
            }
            proof {
                assert(models.take(models.len() as int) =~= models);
            }
        }
    }
    words
}

/// What a response says was spoken.
pub fn interpret_online_asr_response(response: &JsonValue) -> (decoded: Result<
    Option<OnlineUtterance>,
    String,
>)
    ensures
        meaning_model(decoded) == response_meaning(response@),
{
    if let Err(message) = ensure_success_code(response) {
        return Err(message);
    }
    let payload: Option<&JsonValue> = get_in(response.get("data"), "payload");
    match get_in(payload, "result") {
        None => Ok(None),
        Some(result) => {
            let text: String = extract_words(result);
            if trim(text.as_str()).as_str().is_empty() {
                return Ok(None);
            }
            let msg_type: &str = str_or_empty(result.get("msgtype"));
            Ok(
                Some(
                    OnlineUtterance {
                        text,
                        is_final: reads_in_lower_case(msg_type, "sentence"),
                        begin: double_bits_in(result.get("bg")),
                        end: double_bits_in(result.get("ed")),
                    },
                ),
            )
        },
    }
}

/// What the text of a response says was spoken.
pub fn parse_online_asr_response(text: &str) -> (decoded: Result<Option<OnlineUtterance>, String>)
    ensures
        meaning_model(decoded) == response_text_meaning(text@),
{
    match read_json(text) {
        Ok(response) => interpret_online_asr_response(&response),
        Err(fault) => Err(unreadable(fault.as_str())),
    }
}

fn unreadable(fault: &str) -> (message: String)
    ensures
        message@ == "在线 ASR 响应 JSON 解析失败: "@ + fault@,
{
    let mut message: String = "在线 ASR 响应 JSON 解析失败: ".to_owned();
    message.append(fault);
    message
}

/// A value in a log: a text as it is, nothing for one that is null or missing, and any other in
/// its compact rendering.
pub open spec fn log_text(value: Option<JsonModel>) -> Seq<char> {
    match value {
        Some(value) => match value.kind {
            JsonKindModel::Text(text) => text,
            JsonKindModel::Null => Seq::empty(),
            _ => value.rendered,
        },
        None => Seq::empty(),
    }
}

fn format_json_value(value: Option<&JsonValue>) -> (text: String)
    ensures
        text@ == log_text(optional_model(value)),
{
    match value {
        Some(value) => match &value.kind {
            JsonKind::Text(text) => text.clone(),
            JsonKind::Null => String::new(),
            _ => value.rendered.clone(),
        },
        None => String::new(),
    }
}

/// Whether `info` tells of `response`.
pub open spec fn tells_of(info: OnlineAsrResponseDebugInfo, response: JsonModel) -> bool {
    &&& info.code@ == log_text(response.member("code"@))
    &&& info.header_status@ == log_text(member_of(header_of(response), "status"@))
    &&& info.msg_type@ == text_or_empty(member_of(result_of(response), "msgtype"@))
}

/// The fields of a response that are worth a line in a log.
pub fn response_debug_info(response: &JsonValue) -> (info: OnlineAsrResponseDebugInfo)
    ensures
        tells_of(info, response@),
{
    let data: Option<&JsonValue> = response.get("data");
    let result: Option<&JsonValue> = get_in(get_in(data, "payload"), "result");
    OnlineAsrResponseDebugInfo {
        code: format_json_value(response.get("code")),
        header_status: format_json_value(get_in(get_in(data, "header"), "status")),
        msg_type: str_or_empty(get_in(result, "msgtype")).to_owned(),
    }
}

/// The fields of the text of a response that are worth a line in a log.
pub fn inspect_online_asr_response(text: &str) -> (inspected: Result<
    OnlineAsrResponseDebugInfo,
    String,
>)
    ensures
        inspected is Ok <==> json_reading(text@) is Ok,
        inspected matches Ok(info) ==> tells_of(info, json_reading(text@)->Ok_0),
        inspected matches Err(message) ==> message@ == "在线 ASR 响应 JSON 解析失败: "@
            + json_reading(text@)->Err_0,
{
    match read_json(text) {
        Ok(response) => Ok(response_debug_info(&response)),
        Err(fault) => Err(unreadable(fault.as_str())),
    }
}

/// A field in a log, with a mark where it is empty.
pub open spec fn shown_field(value: Seq<char>) -> Seq<char> {
    if value.len() == 0 {
        "<empty>"@
    } else {
        value
    }
}

/// A field in a log, with a mark where it is empty.
pub fn normalize_debug_field(value: &str) -> (shown: &str)
    ensures
        shown@ == shown_field(value@),
        shown@ == if value@.len() == 0 {
            "<empty>"@
        } else {
            value@
        },
{
    if value.is_empty() {
        "<empty>"
    } else {
        value
    }
}

} // verus!
