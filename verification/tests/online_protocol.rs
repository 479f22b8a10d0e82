use hybrid_asr::config::OnlineAsrConfig;
use hybrid_asr::engine::online_protocol::{
    build_online_asr_request, encode_audio, ensure_success_code, extract_words, frame_request,
    inspect_online_asr_response, interpret_online_asr_response, normalize_debug_field,
    parse_online_asr_response,
};
use hybrid_asr::json::{read_json, JsonKind, JsonMember, JsonNumber, JsonValue};

fn text_value(text: &str) -> JsonValue {
    JsonValue {
        kind: JsonKind::Text(text.to_string()),
        rendered: format!("{text:?}"),
    }
}

fn integer_value(integer: i64) -> JsonValue {
    JsonValue {
        kind: JsonKind::Number(JsonNumber {
            integer: Some(integer),
            double_bits: (integer as f64).to_bits(),
        }),
        rendered: integer.to_string(),
    }
}

fn object(members: Vec<(&str, JsonValue)>) -> JsonValue {
    JsonValue {
        kind: JsonKind::Object(
            members
                .into_iter()
                .map(|(name, value)| JsonMember {
                    name: name.to_string(),
                    value,
                })
                .collect(),
        ),
        rendered: "{}".to_string(),
    }
}

fn array(items: Vec<JsonValue>) -> JsonValue {
    JsonValue {
        kind: JsonKind::Array(items),
        rendered: "[]".to_string(),
    }
}

#[test]
fn extracts_progressive_text_from_online_response() {
    let payload = r#"{
        "code":"0",
        "data":{
            "payload":{
                "result":{
                    "bg":1000,
                    "ed":1500,
                    "msgtype":"progressive",
                    "ws":[
                        {"cw":[{"w":"你好"}]},
                        {"cw":[{"w":"世界"}]}
                    ]
                }
            },
            "header":{"code":0,"message":"success"}
        }
    }"#;
    let result = parse_online_asr_response(payload).unwrap().unwrap();
    assert_eq!(result.text, "你好世界");
    assert!(!result.is_final);
    let start_time = f64::from_bits(result.begin.unwrap()) / 1000.0;
    assert_eq!((start_time * 16000 as f64).round() as i64, 16000);
    assert_eq!(result.end, Some(1500.0_f64.to_bits()));
}

#[test]
fn extracts_response_debug_info() {
    let payload = r#"{
        "code":"0",
        "data":{
            "payload":{
                "result":{
                    "msgtype":"sentence"
                }
            },
            "header":{"status":2}
        }
    }"#;
    let info = inspect_online_asr_response(payload).unwrap();
    assert_eq!(info.code, "0");
    assert_eq!(info.header_status, "2");
    assert_eq!(info.msg_type, "sentence");
}

#[test]
fn a_sentence_is_final_whatever_its_case() {
    let payload = r#"{"data":{"payload":{"result":{"msgtype":"SentENCE","ws":[{"cw":[{"w":"ok"}]}]}}}}"#;
    let result = parse_online_asr_response(payload).unwrap().unwrap();
    assert!(result.is_final);
    assert_eq!(result.text, "ok");
    assert_eq!(result.begin, None);
    assert_eq!(result.end, None);
}

#[test]
fn blank_words_are_no_result() {
    let blank = r#"{"data":{"payload":{"result":{"msgtype":"sentence","ws":[{"cw":[{"w":" 　"}]}]}}}}"#;
    assert!(parse_online_asr_response(blank).unwrap().is_none());
    let none = r#"{"code":0,"data":{"payload":{}}}"#;
    assert!(parse_online_asr_response(none).unwrap().is_none());
}

#[test]
fn a_code_at_the_top_counts_before_one_in_the_header() {
    let payload = r#"{"code":7,"message":"busy","data":{"header":{"code":"9","message":"down"}}}"#;
    assert_eq!(
        parse_online_asr_response(payload).unwrap_err(),
        "在线 ASR 服务返回失败 code=7, message=busy"
    );
    let payload = r#"{"code":"0","data":{"header":{"code":"9","message":"down"}}}"#;
    assert_eq!(
        parse_online_asr_response(payload).unwrap_err(),
        "在线 ASR header 返回失败 code=\"9\", message=down"
    );
    let payload = r#"{"code":0.0}"#;
    assert_eq!(
        parse_online_asr_response(payload).unwrap_err(),
        "在线 ASR 服务返回失败 code=0.0, message="
    );
    let payload = r#"{"code":null}"#;
    assert!(parse_online_asr_response(payload).is_err());
}

#[test]
fn a_text_that_is_no_json_is_refused() {
    let error = parse_online_asr_response("no json").unwrap_err();
    assert!(error.starts_with("在线 ASR 响应 JSON 解析失败: "));
    assert!(error.len() > "在线 ASR 响应 JSON 解析失败: ".len());
    let error = inspect_online_asr_response("[1,").unwrap_err();
    assert!(error.starts_with("在线 ASR 响应 JSON 解析失败: "));
}

#[test]
fn debug_info_shows_values_compactly() {
    let info = inspect_online_asr_response(r#"{"code":[1, true],"data":{"header":{"status":null}}}"#)
        .unwrap();
    assert_eq!(info.code, "[1,true]");
    assert_eq!(info.header_status, "");
    assert_eq!(info.msg_type, "");
    assert_eq!(normalize_debug_field(&info.msg_type), "<empty>");
    assert_eq!(normalize_debug_field("2"), "2");
}

#[test]
fn words_are_taken_from_every_slot_and_candidate() {
    let result = object(vec![(
        "ws",
        array(vec![
            object(vec![(
                "cw",
                array(vec![
                    object(vec![("w", text_value("a"))]),
                    object(vec![("v", text_value("x"))]),
                    object(vec![("w", integer_value(1))]),
                    object(vec![("w", text_value("b"))]),
                ]),
            )]),
            object(vec![("cw", text_value("not a list"))]),
            text_value("not an object"),
            object(vec![(
                "cw",
                array(vec![object(vec![("w", text_value("c"))])]),
            )]),
        ]),
    )]);
    assert_eq!(extract_words(&result), "abc");
    assert_eq!(extract_words(&object(vec![])), "");
}

#[test]
fn codes_are_judged_on_plain_values() {
    assert!(ensure_success_code(&object(vec![("code", integer_value(0))])).is_ok());
    assert!(ensure_success_code(&object(vec![("code", text_value("0"))])).is_ok());
    assert!(ensure_success_code(&object(vec![])).is_ok());
    assert_eq!(
        ensure_success_code(&object(vec![
            ("code", integer_value(-3)),
            ("message", text_value("no")),
        ])),
        Err("在线 ASR 服务返回失败 code=-3, message=no".to_string())
    );
    let spoken = object(vec![(
        "data",
        object(vec![(
            "payload",
            object(vec![(
                "result",
                object(vec![
                    ("msgtype", text_value("sentence")),
                    ("bg", integer_value(20)),
                    (
                        "ws",
                        array(vec![object(vec![(
                            "cw",
                            array(vec![object(vec![("w", text_value("hi"))])]),
                        )])]),
                    ),
                ]),
            )]),
        )]),
    )]);
    let utterance = interpret_online_asr_response(&spoken).unwrap().unwrap();
    assert_eq!(utterance.text, "hi");
    assert!(utterance.is_final);
    assert_eq!(utterance.begin, Some(20.0_f64.to_bits()));
}

#[test]
fn json_is_read_as_plain_values() {
    let value = read_json(r#"{"b":[null,true,-2,1.5,"x"],"a":{}}"#).unwrap();
    assert_eq!(value.rendered, r#"{"a":{},"b":[null,true,-2,1.5,"x"]}"#);
    let items = match &value.get("b").unwrap().kind {
        JsonKind::Array(items) => items,
        other => panic!("expected an array, got {other:?}"),
    };
    assert!(matches!(items[0].kind, JsonKind::Null));
    assert!(matches!(items[1].kind, JsonKind::Bool(true)));
    assert!(matches!(&items[2].kind, JsonKind::Number(number) if number.integer == Some(-2)
        && number.double_bits == (-2.0_f64).to_bits()));
    assert!(matches!(&items[3].kind, JsonKind::Number(number) if number.integer.is_none()
        && number.double_bits == 1.5_f64.to_bits()));
    assert_eq!(items[4].as_str(), Some("x"));
    assert!(matches!(&value.get("a").unwrap().kind, JsonKind::Object(members) if members.is_empty()));
    assert!(value.get("c").is_none());
    assert!(read_json("{").is_err());
}

#[test]
fn audio_is_sent_in_standard_base64() {
    assert_eq!(encode_audio(b""), "");
    assert_eq!(encode_audio(b"f"), "Zg==");
    assert_eq!(encode_audio(b"fo"), "Zm8=");
    assert_eq!(encode_audio(b"foo"), "Zm9v");
    assert_eq!(encode_audio(b"foob"), "Zm9vYg==");
    assert_eq!(encode_audio(&[0xfb, 0xff, 0xbf]), "+/+/");
}

#[test]
fn an_audio_message_carries_what_it_was_given() {
    let request = build_online_asr_request("Zg==", "trace", "biz", 2, Some("words"));
    assert_eq!(request.request_type, "audio");
    assert_eq!(request.audio, "Zg==");
    assert_eq!(request.config.trace_id, "trace");
    assert_eq!(request.config.biz_id, "biz");
    assert_eq!(request.config.status, 2);
    assert_eq!(request.config.text, Some("words"));
}

#[test]
fn a_frame_is_sent_with_the_fields_of_its_configuration() {
    let mut options = OnlineAsrConfig {
        online_url: "wss://asr.example".to_string(),
        app_auth_url: "https://auth.example".to_string(),
        k_code: "code".to_string(),
        k_secret: "secret".to_string(),
        visit_k_code: "visit".to_string(),
        trace_id: "trace".to_string(),
        biz_id: "biz".to_string(),
        hot_words: None,
        sample_rate: 16_000,
        audio_format: "pcm_s16le".to_string(),
        frame_bytes: 4,
    };
    let request = frame_request("AAAA", 1, &options);
    assert_eq!(request.request_type, "audio");
    assert_eq!(request.audio, "AAAA");
    assert_eq!(request.config.trace_id, "trace");
    assert_eq!(request.config.biz_id, "biz");
    assert_eq!(request.config.status, 1);
    assert_eq!(request.config.text, None);
    options.hot_words = Some("你好".to_string());
    assert_eq!(frame_request("", 0, &options).config.text, Some("你好"));
}
