//! What the responses of the online service mean, by the members that they have.

use vstd::prelude::*;

use crate::config::OnlineAsrConfig;
use crate::engine::online_protocol::{
    candidate_words, is_frame_request, meaning_model, reported_failure, response_meaning,
    response_text_meaning, shown_field, slot_candidates, slot_words, spoken_words, success_code,
    tells_of, OnlineAsrRequest, OnlineAsrResponseDebugInfo, OnlineUtterance,
};
use crate::json::{double_bits_of, json_reading, text_or_empty, JsonKindModel, JsonModel};
use crate::text::ascii_lowered;
use crate::text_laws::{
    holds, is_blank, lacks, law_lowering_changes_capitals_only, law_members_are_found,
    law_trimming_takes_the_white_space_around,
};

verus! {

/// Whether a code is the integer zero or the text `0`.
pub open spec fn is_zero(code: JsonModel) -> bool {
    ||| code.kind matches JsonKindModel::Number(number) && number.integer == Some(0i64)
    ||| code.kind matches JsonKindModel::Text(text) && text == seq!['0']
}

/// Whether `header` is the header of a response.
pub open spec fn is_header(response: JsonModel, data: JsonModel, header: JsonModel) -> bool {
    holds(response, "data"@, data) && holds(data, "header"@, header)
}

/// Whether `result` is the recognition result in a response.
pub open spec fn is_result(
    response: JsonModel,
    data: JsonModel,
    payload: JsonModel,
    result: JsonModel,
) -> bool {
    &&& holds(response, "data"@, data)
    &&& holds(data, "payload"@, payload)
    &&& holds(payload, "result"@, result)
}

/// Whether `code` is a code of a response: the one at its top or the one in its header.
pub open spec fn is_code(
    response: JsonModel,
    data: JsonModel,
    header: JsonModel,
    code: JsonModel,
) -> bool {
    holds(response, "code"@, code) || is_header(response, data, header) && holds(
        header,
        "code"@,
        code,
    )
}

/// The text of the member called `name`, or nothing where there is none that is a text.
pub open spec fn is_member_text(value: JsonModel, name: Seq<char>, text: Seq<char>) -> bool {
    ||| exists|member: JsonModel| #[trigger]
        holds(value, name, member) && member.kind == JsonKindModel::Text(text)
    ||| text.len() == 0 && forall|member: JsonModel| #[trigger]
        holds(value, name, member) ==> !(member.kind is Text)
}

proof fn lemma_zero(code: JsonModel)
    ensures
        success_code(code) == is_zero(code),
{
    reveal_strlit("0");
    assert("0"@ =~= seq!['0']);
}

/// A response with a code, at its top or in its header, that is neither the integer zero nor the
/// text `0` reports a failure, whatever kind of value the code is: nothing is read from it.
pub proof fn law_failure_codes_are_errors(
    response: JsonModel,
    data: JsonModel,
    header: JsonModel,
    code: JsonModel,
    decoded: Result<Option<OnlineUtterance>, String>,
)
    requires
        is_code(response, data, header, code),
        !is_zero(code),
        meaning_model(decoded) == response_meaning(response),
    ensures
        decoded is Err,
        reported_failure(response) is Some,
{
    law_members_are_found(response, "code"@);
    law_members_are_found(response, "data"@);
    law_members_are_found(data, "header"@);
    law_members_are_found(header, "code"@);
    lemma_zero(code);
}

/// A response all of whose codes are zero reports no failure; nor does one without a code.
pub proof fn law_zero_codes_are_no_errors(
    response: JsonModel,
    decoded: Result<Option<OnlineUtterance>, String>,
)
    requires
        forall|data: JsonModel, header: JsonModel, code: JsonModel| #[trigger]
            is_code(response, data, header, code) ==> is_zero(code),
        meaning_model(decoded) == response_meaning(response),
    ensures
        decoded is Ok,
        reported_failure(response) is None,
{
    law_members_are_found(response, "code"@);
    law_members_are_found(response, "data"@);
    if let Some(code) = response.member("code"@) {
        assert(is_code(response, code, code, code));
        lemma_zero(code);
    }
    if let Some(data) = response.member("data"@) {
        law_members_are_found(data, "header"@);
        if let Some(header) = data.member("header"@) {
            law_members_are_found(header, "code"@);
            if let Some(code) = header.member("code"@) {
                assert(is_code(response, data, header, code));
                lemma_zero(code);
            }
        }
    }
}

proof fn lemma_member_text(value: JsonModel, name: Seq<char>, text: Seq<char>)
    requires
        is_member_text(value, name, text),
    ensures
        text_or_empty(value.member(name)) == text,
{
    law_members_are_found(value, name);
    if let Some(member) = value.member(name) {
        assert(holds(value, name, member));
        assert(text.len() == 0 ==> text =~= Seq::<char>::empty());
    } else {
        assert(text =~= Seq::<char>::empty());
    }
}

/// What a failure says: the code as it was sent and the message that came with it, those at the top
/// of the response before those in its header.
pub proof fn law_failures_say_code_and_message(
    response: JsonModel,
    data: JsonModel,
    header: JsonModel,
    code: JsonModel,
    message: Seq<char>,
)
    requires
        !is_zero(code),
    ensures
        holds(response, "code"@, code) && is_member_text(response, "message"@, message)
            ==> reported_failure(response) == Some(
            "在线 ASR 服务返回失败 code="@ + code.rendered + ", message="@ + message,
        ),
        (lacks(response, "code"@) || exists|top: JsonModel| #[trigger]
            holds(response, "code"@, top) && is_zero(top)) && is_header(response, data, header)
            && holds(header, "code"@, code) && is_member_text(header, "message"@, message)
            ==> reported_failure(response) == Some(
            "在线 ASR header 返回失败 code="@ + code.rendered + ", message="@ + message,
        ),
{
    law_members_are_found(response, "code"@);
    law_members_are_found(response, "data"@);
    law_members_are_found(data, "header"@);
    law_members_are_found(header, "code"@);
    lemma_zero(code);
    if let Some(top) = response.member("code"@) {
        lemma_zero(top);
    }
    if is_member_text(response, "message"@, message) {
        lemma_member_text(response, "message"@, message);
    }
    if is_member_text(header, "message"@, message) {
        lemma_member_text(header, "message"@, message);
    }
}

/// Whether a result calls itself a sentence, in capitals or not.
pub open spec fn is_sentence(result: JsonModel) -> bool {
    exists|kind: JsonModel| #[trigger]
        holds(result, "msgtype"@, kind) && (kind.kind matches JsonKindModel::Text(text)
            && is_sentence_text(text))
}

/// Whether a text reads `sentence`, in capitals or not.
pub open spec fn is_sentence_text(text: Seq<char>) -> bool {
    &&& text.len() == 8
    &&& text[0] == 's' || text[0] == 'S'
    &&& text[1] == 'e' || text[1] == 'E'
    &&& text[2] == 'n' || text[2] == 'N'
    &&& text[3] == 't' || text[3] == 'T'
    &&& text[4] == 'e' || text[4] == 'E'
    &&& text[5] == 'n' || text[5] == 'N'
    &&& text[6] == 'c' || text[6] == 'C'
    &&& text[7] == 'e' || text[7] == 'E'
}

proof fn lemma_sentence_text(text: Seq<char>)
    ensures
        (ascii_lowered(text) == "sentence"@) == is_sentence_text(text),
{
    reveal_strlit("sentence");
    let lowered = ascii_lowered(text);
    assert("sentence"@.len() == 8);
    assert(lowered.len() == text.len());
    if text.len() == 8 {
        law_lowering_changes_capitals_only(text, 0);
        law_lowering_changes_capitals_only(text, 1);
        law_lowering_changes_capitals_only(text, 2);
        law_lowering_changes_capitals_only(text, 3);
        law_lowering_changes_capitals_only(text, 4);
        law_lowering_changes_capitals_only(text, 5);
        law_lowering_changes_capitals_only(text, 6);
        law_lowering_changes_capitals_only(text, 7);
        if is_sentence_text(text) {
            assert(lowered =~= "sentence"@);
        }
        if lowered == "sentence"@ {
            assert(lowered[0] == 's' && lowered[1] == 'e' && lowered[2] == 'n' && lowered[3] == 't');
            assert(lowered[4] == 'e' && lowered[5] == 'n' && lowered[6] == 'c' && lowered[7] == 'e');
        }
    }
}

/// Whether `bits` are those of the number that the member called `name` is, if it is one.
pub open spec fn are_member_bits(value: JsonModel, name: Seq<char>, bits: Option<u64>) -> bool {
    match bits {
        Some(bits) => exists|member: JsonModel| #[trigger]
            holds(value, name, member) && (member.kind matches JsonKindModel::Number(number)
                && number.double_bits == bits),
        None => forall|member: JsonModel| #[trigger]
            holds(value, name, member) ==> !(member.kind is Number),
    }
}

proof fn lemma_member_bits(value: JsonModel, name: Seq<char>)
    ensures
        are_member_bits(value, name, double_bits_of(value.member(name))),
{
    law_members_are_found(value, name);
    if let Some(member) = value.member(name) {
        assert(holds(value, name, member));
    }
}

/// What is read from a response that reports no failure and has a result: all its words, final
/// exactly if the result calls itself a sentence, with the times that it gives; and nothing, if
/// the words are blank.
pub proof fn law_results_are_read(
    response: JsonModel,
    data: JsonModel,
    payload: JsonModel,
    result: JsonModel,
    decoded: Result<Option<OnlineUtterance>, String>,
)
    requires
        is_result(response, data, payload, result),
        meaning_model(decoded) == response_meaning(response),
        decoded is Ok,
    ensures
        decoded->Ok_0 is None <==> is_blank(spoken_words(result)),
        decoded->Ok_0 matches Some(utterance) ==> {
            &&& utterance.text@ == spoken_words(result)
            &&& utterance.is_final == is_sentence(result)
            &&& are_member_bits(result, "bg"@, utterance.begin)
            &&& are_member_bits(result, "ed"@, utterance.end)
        },
{
    law_members_are_found(response, "data"@);
    law_members_are_found(data, "payload"@);
    law_members_are_found(payload, "result"@);
    law_members_are_found(result, "msgtype"@);
    lemma_member_bits(result, "bg"@);
    lemma_member_bits(result, "ed"@);
    law_trimming_takes_the_white_space_around(spoken_words(result));
    let named = text_or_empty(result.member("msgtype"@));
    lemma_sentence_text(named);
    if let Some(kind) = result.member("msgtype"@) {
        assert(holds(result, "msgtype"@, kind));
    }
}

/// From a response that reports no failure and has no result nothing is read.
pub proof fn law_nothing_is_read_without_a_result(
    response: JsonModel,
    decoded: Result<Option<OnlineUtterance>, String>,
)
    requires
        forall|data: JsonModel, payload: JsonModel, result: JsonModel|
            !#[trigger] is_result(response, data, payload, result),
        meaning_model(decoded) == response_meaning(response),
        decoded is Ok,
    ensures
        decoded->Ok_0 is None,
{
    law_members_are_found(response, "data"@);
    if let Some(data) = response.member("data"@) {
        law_members_are_found(data, "payload"@);
        if let Some(payload) = data.member("payload"@) {
            law_members_are_found(payload, "result"@);
            if let Some(result) = payload.member("result"@) {
                assert(is_result(response, data, payload, result));
            }
        }
    }
}

/// A text that holds no JSON is an error that says why; one that does means what its value means.
pub proof fn law_texts_mean_what_they_hold(
    text: Seq<char>,
    decoded: Result<Option<OnlineUtterance>, String>,
)
    requires
        meaning_model(decoded) == response_text_meaning(text),
    ensures
        json_reading(text) matches Err(fault) ==> (decoded matches Err(message) && message@
            == "在线 ASR 响应 JSON 解析失败: "@ + fault),
        json_reading(text) matches Ok(response) ==> meaning_model(decoded) == response_meaning(
            response,
        ),
{
}

/// The words of two lists of word slots are those of the first and then those of the second.
pub proof fn law_slots_are_read_in_order(first: Seq<JsonModel>, second: Seq<JsonModel>)
    ensures
        slot_words(first + second) == slot_words(first) + slot_words(second),
    decreases second.len(),
{
    if second.len() == 0 {
        assert(first + second =~= first);
        assert(slot_words(first) + Seq::<char>::empty() =~= slot_words(first));
    } else {
        law_slots_are_read_in_order(first, second.drop_last());
        assert((first + second).drop_last() =~= first + second.drop_last());
        assert((first + second).last() == second.last());
        assert(slot_words(first + second) =~= slot_words(first) + slot_words(second));
    }
}

/// The words of two lists of candidates are those of the first and then those of the second.
pub proof fn law_candidates_are_read_in_order(first: Seq<JsonModel>, second: Seq<JsonModel>)
    ensures
        candidate_words(first + second) == candidate_words(first) + candidate_words(second),
    decreases second.len(),
{
    if second.len() == 0 {
        assert(first + second =~= first);
        assert(candidate_words(first) + Seq::<char>::empty() =~= candidate_words(first));
    } else {
        law_candidates_are_read_in_order(first, second.drop_last());
        assert((first + second).drop_last() =~= first + second.drop_last());
        assert((first + second).last() == second.last());
        assert(candidate_words(first + second) =~= candidate_words(first) + candidate_words(second));
    }
}

/// One candidate gives the text of its word as it is, and nothing where it has none; one slot gives
/// the words of all its candidates; and a result gives those of all its slots.
pub proof fn law_every_word_is_read(
    candidate: JsonModel,
    slot: JsonModel,
    result: JsonModel,
    word: Seq<char>,
    list: JsonModel,
    items: Seq<JsonModel>,
)
    ensures
        is_member_text(candidate, "w"@, word) ==> candidate_words(seq![candidate]) == word,
        holds(slot, "cw"@, list) && list.kind == JsonKindModel::Array(items) ==> slot_words(
            seq![slot],
        ) == candidate_words(items),
        lacks(slot, "cw"@) || (holds(slot, "cw"@, list) && !(list.kind is Array)) ==> slot_words(
            seq![slot],
        ).len() == 0,
        holds(result, "ws"@, list) && list.kind == JsonKindModel::Array(items) ==> spoken_words(
            result,
        ) == slot_words(items),
        lacks(result, "ws"@) || (holds(result, "ws"@, list) && !(list.kind is Array))
            ==> spoken_words(result).len() == 0,
        slot_words(Seq::empty()).len() == 0,
        candidate_words(Seq::empty()).len() == 0,
{
    law_members_are_found(slot, "cw"@);
    law_members_are_found(result, "ws"@);
    if is_member_text(candidate, "w"@, word) {
        lemma_member_text(candidate, "w"@, word);
    }
    let none = Seq::<JsonModel>::empty();
    assert(seq![candidate].drop_last() =~= none);
    assert(candidate_words(none) =~= Seq::<char>::empty());
    assert(candidate_words(seq![candidate]) =~= text_or_empty(
        candidate.member("w"@),
    ));
    assert(seq![slot].drop_last() =~= none);
    assert(slot_words(none) =~= Seq::<char>::empty());
    assert(slot_words(seq![slot]) =~= candidate_words(slot_candidates(slot)));
}

/// Whether `text` is how a member is shown in a log: a text as it is, nothing where it is null or
/// missing, and any other value in its compact rendering.
pub open spec fn is_shown(value: JsonModel, name: Seq<char>, text: Seq<char>) -> bool {
    ||| lacks(value, name) && text.len() == 0
    ||| exists|member: JsonModel| #[trigger]
        holds(value, name, member) && (if member.kind is Text {
            member.kind == JsonKindModel::Text(text)
        } else if member.kind is Null {
            text.len() == 0
        } else {
            text == member.rendered
        })
}

/// What is logged of a response: its code, and, where it has them, the status in its header and
/// what its result calls itself.
pub proof fn law_logs_tell_of_the_response(
    info: OnlineAsrResponseDebugInfo,
    response: JsonModel,
    data: JsonModel,
    header: JsonModel,
    payload: JsonModel,
    result: JsonModel,
)
    requires
        tells_of(info, response),
    ensures
        is_shown(response, "code"@, info.code@),
        is_header(response, data, header) ==> is_shown(header, "status"@, info.header_status@),
        lacks(response, "data"@) || (holds(response, "data"@, data) && lacks(data, "header"@))
            ==> info.header_status@.len() == 0,
        is_result(response, data, payload, result) ==> is_member_text(
            result,
            "msgtype"@,
            info.msg_type@,
        ),
        lacks(response, "data"@) || (holds(response, "data"@, data) && lacks(data, "payload"@))
            ==> info.msg_type@.len() == 0,
        holds(response, "data"@, data) && holds(data, "payload"@, payload) && lacks(
            payload,
            "result"@,
        ) ==> info.msg_type@.len() == 0,
{
    law_members_are_found(response, "code"@);
    law_members_are_found(response, "data"@);
    law_members_are_found(data, "header"@);
    law_members_are_found(data, "payload"@);
    law_members_are_found(header, "status"@);
    law_members_are_found(payload, "result"@);
    law_members_are_found(result, "msgtype"@);
    if let Some(member) = response.member("code"@) {
        assert(holds(response, "code"@, member));
    }
    if let Some(member) = header.member("status"@) {
        assert(holds(header, "status"@, member));
    }
    if let Some(member) = result.member("msgtype"@) {
        assert(holds(result, "msgtype"@, member));
    }
}

/// A frame is sent as an audio message with its own status, and with the identifiers and the hot
/// words that are configured; without hot words the message has none.
pub proof fn law_frames_are_sent_as_configured(
    request: OnlineAsrRequest,
    audio: Seq<char>,
    status: i32,
    options: OnlineAsrConfig,
)
    requires
        is_frame_request(request, audio, status, options),
    ensures
        request.request_type@ == "audio"@,
        request.audio@ == audio,
        request.config.status == status,
        request.config.trace_id@ == options.trace_id@,
        request.config.biz_id@ == options.biz_id@,
        request.config.text is Some <==> options.hot_words is Some,
        request.config.text is Some ==> request.config.text->0@ == options.hot_words->0@,
{
}

/// A field is shown as it is, whatever it says, and only an empty one as a mark.
pub proof fn law_only_empty_fields_are_marked(value: Seq<char>)
    ensures
        value.len() > 0 ==> shown_field(value) == value,
        value.len() == 0 ==> shown_field(value) == "<empty>"@,
{
}

} // verus!
