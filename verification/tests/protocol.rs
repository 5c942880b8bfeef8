use whisp_away::audio::{artifact_is_empty, wav_to_pcm16, AudioError};
use whisp_away::daemon::{connection_response, direct_precheck, text_response};
use whisp_away::protocol::{
    decode_request, decode_response, encode_request, encode_response, extract_text_from_response,
    response_indicates_success, TranscriptionRequest, TranscriptionResponse,
};

fn success_response(text: &str) -> TranscriptionResponse {
    TranscriptionResponse {
        success: true,
        text: Some(text.to_string()),
        error: None,
    }
}

fn failure_response(error: &str) -> TranscriptionResponse {
    TranscriptionResponse {
        success: false,
        text: None,
        error: Some(error.to_string()),
    }
}

#[test]
fn response_round_trip_success() {
    let encoded = encode_response(&success_response("hello world"));
    let decoded = decode_response(&encoded).expect("decodes");
    assert!(decoded.success);
    assert_eq!(decoded.text, Some("hello world".to_string()));
    assert_eq!(decoded.error, None);
}

#[test]
fn response_round_trip_empty_text() {
    let encoded = encode_response(&success_response(""));
    assert_eq!(encoded, r#"{"success":true,"text":""}"#);
    let decoded = decode_response(&encoded).expect("decodes");
    assert!(decoded.success);
    assert_eq!(decoded.text, Some(String::new()));
    assert_eq!(decoded.error, None);
}

#[test]
fn response_round_trip_with_escapes() {
    let tricky = "a \"quoted\" piece and a back\\slash";
    let encoded = encode_response(&success_response(tricky));
    let decoded = decode_response(&encoded).expect("decodes");
    assert_eq!(decoded.text, Some(tricky.to_string()));
}

#[test]
fn response_round_trip_failure() {
    let encoded = encode_response(&failure_response("Audio file not found: /tmp/x.wav"));
    let decoded = decode_response(&encoded).expect("decodes");
    assert!(!decoded.success);
    assert_eq!(decoded.text, None);
    assert_eq!(
        decoded.error,
        Some("Audio file not found: /tmp/x.wav".to_string())
    );
}

#[test]
fn request_round_trip() {
    let req = TranscriptionRequest {
        audio_path: "/run/user/1000/voice-recording-17.wav".to_string(),
    };
    let encoded = encode_request(&req);
    assert_eq!(
        encoded,
        r#"{"audio_path": "/run/user/1000/voice-recording-17.wav"}"#
    );
    let decoded = decode_request(&encoded).expect("decodes");
    assert_eq!(decoded.audio_path, req.audio_path);
}

#[test]
fn decode_tolerates_whitespace() {
    let decoded =
        decode_response("{ \"success\" : true , \"text\" : \"hi there\" }").expect("decodes");
    assert!(decoded.success);
    assert_eq!(decoded.text, Some("hi there".to_string()));
}

#[test]
fn decode_rejects_garbage() {
    assert!(decode_response("not a message").is_none());
    assert!(decode_response("").is_none());
    assert!(decode_request("{\"audio_path\": 3}").is_none());
    assert!(decode_response("{\"success\":maybe}").is_none());
}

#[test]
fn extract_text_finds_the_field() {
    assert_eq!(
        extract_text_from_response(r#"{"success":true,"text":"dictated words"}"#),
        Some("dictated words".to_string())
    );
    assert_eq!(
        extract_text_from_response(r#"{"success": true, "text": "spaced"}"#),
        Some("spaced".to_string())
    );
}

#[test]
fn extract_text_absent_or_unparsable() {
    assert_eq!(extract_text_from_response(r#"{"success":true}"#), None);
    assert_eq!(extract_text_from_response("rubbish"), None);
    assert_eq!(
        extract_text_from_response(r#"{"success":false,"error":"boom"}"#),
        None
    );
}

#[test]
fn success_detection() {
    assert!(response_indicates_success(r#"{"success":true,"text":"x"}"#));
    assert!(response_indicates_success(r#"{"success": true, "text": "x"}"#));
    assert!(!response_indicates_success(r#"{"success":false,"error":"x"}"#));
    assert!(!response_indicates_success("rubbish"));
}

#[test]
fn encoded_response_is_conforming_structured_data() {
    let encoded = encode_response(&success_response("check me"));
    let value: serde_json::Value = serde_json::from_str(&encoded).expect("valid");
    assert_eq!(value["success"], serde_json::Value::Bool(true));
    assert_eq!(value["text"].as_str(), Some("check me"));
    let encoded = encode_response(&failure_response("err \"here\""));
    let value: serde_json::Value = serde_json::from_str(&encoded).expect("valid");
    assert_eq!(value["success"], serde_json::Value::Bool(false));
    assert_eq!(value["error"].as_str(), Some("err \"here\""));
}

#[test]
fn header_only_artifact_is_empty() {
    assert!(artifact_is_empty(0));
    assert!(artifact_is_empty(43));
    assert!(artifact_is_empty(44));
    assert!(!artifact_is_empty(45));
}

#[test]
fn pcm_extraction_header_only() {
    let data = vec![0u8; 44];
    let samples = wav_to_pcm16(&data).expect("parses");
    assert!(samples.is_empty());
}

#[test]
fn pcm_extraction_too_short() {
    let data = vec![0u8; 43];
    assert_eq!(wav_to_pcm16(&data), Err(AudioError::TooShort));
}

#[test]
fn pcm_extraction_sample_values() {
    let mut data = vec![0u8; 44];
    data.extend_from_slice(&[0x34, 0x12, 0xff, 0xff, 0x00, 0x80, 0xff, 0x7f]);
    let samples = wav_to_pcm16(&data).expect("parses");
    assert_eq!(samples, vec![0x1234, -1, -32768, 32767]);
}

#[test]
fn pcm_extraction_ignores_odd_trailing_byte() {
    let mut data = vec![0u8; 44];
    data.extend_from_slice(&[0x01, 0x00, 0x7f]);
    let samples = wav_to_pcm16(&data).expect("parses");
    assert_eq!(samples, vec![1]);
}

#[test]
fn daemon_replies_empty_success_for_header_only_artifact() {
    let resp = connection_response("/tmp/a.wav", true, 44).expect("replies at once");
    assert!(resp.success);
    assert_eq!(resp.text, Some(String::new()));
    assert_eq!(resp.error, None);
    let encoded = encode_response(&resp);
    assert_eq!(encoded, r#"{"success":true,"text":""}"#);
}

#[test]
fn daemon_replies_missing_for_absent_artifact() {
    let resp = connection_response("/tmp/gone.wav", false, 0).expect("replies at once");
    assert!(!resp.success);
    assert_eq!(resp.text, None);
    assert_eq!(
        resp.error,
        Some("Audio file not found: /tmp/gone.wav".to_string())
    );
}

#[test]
fn daemon_defers_to_inference_for_real_audio() {
    assert!(connection_response("/tmp/a.wav", true, 45).is_none());
    assert!(connection_response("/tmp/a.wav", true, 100_000).is_none());
}

#[test]
fn direct_path_treats_empty_artifact_as_silence() {
    assert_eq!(direct_precheck(0), Some(String::new()));
    assert_eq!(direct_precheck(44), Some(String::new()));
    assert_eq!(direct_precheck(45), None);
}

#[test]
fn five_connections_each_get_their_own_reply() {
    let paths: Vec<String> = (0..5)
        .map(|i| format!("/run/user/1000/voice-recording-{}.wav", i))
        .collect();
    // missing files: each reply names exactly its own request's path
    let replies: Vec<TranscriptionResponse> = paths
        .iter()
        .map(|p| connection_response(p, false, 0).expect("replies"))
        .collect();
    for (p, r) in paths.iter().zip(replies.iter()) {
        assert_eq!(r.error, Some(format!("Audio file not found: {}", p)));
    }
    // transcribed files: each encoded reply decodes back to its own text
    for p in &paths {
        let resp = text_response(format!("text for {}", p));
        let wire = encode_response(&resp);
        let back = decode_response(&wire).expect("decodes");
        assert_eq!(back.text, Some(format!("text for {}", p)));
    }
}
