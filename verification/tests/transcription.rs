use system_audio::transcription::{
    engine_failed, FieldValue, FormField, GroqProvider, TranscribeAction, TranscribeState,
    TranscriptResult, TranscriptionError,
};
use system_audio::wav::samples_to_wav;

fn provider() -> GroqProvider {
    GroqProvider::new("SECRET-REDACTED".to_string(), "whisper-large-v3".to_string())
}

fn sent(samples: &[i16], language: Option<&str>) -> (TranscribeState, TranscribeAction) {
    provider().transcribe(samples, language.map(|l| l.to_string()))
}

fn failed(message: &str) -> TranscribeAction {
    TranscribeAction::Done(Err(TranscriptionError::EngineFailed(message.to_string())))
}

#[test]
fn a_silent_second_is_transcribed() {
    let (mut state, action) = sent(&vec![0i16; 16000], None);
    assert!(matches!(action, TranscribeAction::Send(_)));
    assert_eq!(state, TranscribeState::AwaitingResponse);
    assert_eq!(state.responded(Ok((200, "200 OK".to_string()))), TranscribeAction::ReadTranscript);
    assert_eq!(state, TranscribeState::ReadingTranscript);
    let action = state.transcript_parsed(Ok("hello".to_string()));
    assert_eq!(
        action,
        TranscribeAction::Done(Ok(TranscriptResult {
            text: "hello".to_string(),
            confidence: None,
            is_partial: false,
        }))
    );
    assert_eq!(state, TranscribeState::Finished);
}

#[test]
fn a_refusal_carries_status_and_body() {
    let (mut state, _) = sent(&[0, 0], None);
    assert_eq!(
        state.responded(Ok((401, "401 Unauthorized".to_string()))),
        TranscribeAction::ReadErrorText
    );
    assert_eq!(state, TranscribeState::ReadingError { status_line: "401 Unauthorized".to_string() });
    let action = state.error_text_read(Some("invalid key".to_string()));
    assert_eq!(action, failed("Groq API error 401 Unauthorized: invalid key"));
    let message = match action {
        TranscribeAction::Done(Err(TranscriptionError::EngineFailed(message))) => message,
        other => panic!("unexpected {:?}", other),
    };
    assert!(message.contains("401"));
    assert!(message.contains("invalid key"));
    assert_eq!(state, TranscribeState::Finished);
}

#[test]
fn an_unreadable_refusal_is_an_unknown_error() {
    let (mut state, _) = sent(&[0], None);
    state.responded(Ok((500, "500 Internal Server Error".to_string())));
    assert_eq!(
        state.error_text_read(None),
        failed("Groq API error 500 Internal Server Error: Unknown error")
    );
}

#[test]
fn success_is_the_two_hundreds() {
    for (status, accepted) in [(199, false), (200, true), (204, true), (299, true), (300, false), (404, false)] {
        let (mut state, _) = sent(&[0], None);
        let action = state.responded(Ok((status, status.to_string())));
        if accepted {
            assert_eq!(action, TranscribeAction::ReadTranscript, "{}", status);
        } else {
            assert_eq!(action, TranscribeAction::ReadErrorText, "{}", status);
        }
    }
}

#[test]
fn the_request_carries_file_model_and_language() {
    let samples = [1i16, -1, 2];
    let (_, action) = sent(&samples, Some("en"));
    let request = match action {
        TranscribeAction::Send(request) => request,
        other => panic!("unexpected {:?}", other),
    };
    assert_eq!(request.url, "https://api.groq.com/openai/v1/audio/transcriptions");
    assert_eq!(request.bearer_token, "SECRET-REDACTED");
    assert_eq!(
        request.fields,
        vec![
            FormField {
                name: "file".to_string(),
                value: FieldValue::File {
                    bytes: samples_to_wav(&samples, 16000).unwrap(),
                    file_name: "audio.wav".to_string(),
                    mime_type: "audio/wav".to_string(),
                },
            },
            FormField {
                name: "model".to_string(),
                value: FieldValue::Text("whisper-large-v3".to_string()),
            },
            FormField { name: "language".to_string(), value: FieldValue::Text("en".to_string()) },
        ]
    );
}

#[test]
fn without_a_language_there_are_two_fields() {
    let (_, action) = sent(&[], None);
    let request = match action {
        TranscribeAction::Send(request) => request,
        other => panic!("unexpected {:?}", other),
    };
    let names: Vec<&str> = request.fields.iter().map(|f| f.name.as_str()).collect();
    assert_eq!(names, vec!["file", "model"]);
    match &request.fields[0].value {
        FieldValue::File { bytes, .. } => {
            assert_eq!(bytes.len(), 44);
            assert_eq!(&bytes[24..28], &16000u32.to_le_bytes());
        }
        other => panic!("unexpected {:?}", other),
    }
}

#[test]
fn a_failed_encoding_ends_the_transcription() {
    let (state, action) =
        provider().request_from_wav(Err("Failed to write sample: disk".to_string()), None);
    assert_eq!(action, failed("WAV conversion failed: Failed to write sample: disk"));
    assert_eq!(state, TranscribeState::Finished);
    let (state, action) = provider().request_from_wav(Ok(vec![1, 2, 3]), None);
    assert_eq!(state, TranscribeState::AwaitingResponse);
    match action {
        TranscribeAction::Send(request) => assert_eq!(
            request.fields[0].value,
            FieldValue::File {
                bytes: vec![1, 2, 3],
                file_name: "audio.wav".to_string(),
                mime_type: "audio/wav".to_string(),
            }
        ),
        other => panic!("unexpected {:?}", other),
    }
}

#[test]
fn a_failed_request_is_reported() {
    let (mut state, _) = sent(&[0], None);
    assert_eq!(
        state.responded(Err("connection reset".to_string())),
        failed("Groq API request failed: connection reset")
    );
    assert_eq!(state, TranscribeState::Finished);
}

#[test]
fn an_unparsable_reply_is_reported() {
    let (mut state, _) = sent(&[0], None);
    state.responded(Ok((200, "200 OK".to_string())));
    assert_eq!(
        state.transcript_parsed(Err("missing field `text`".to_string())),
        failed("Failed to parse Groq response: missing field `text`")
    );
    assert_eq!(state, TranscribeState::Finished);
}

#[test]
fn a_rejected_upload_is_reported() {
    let (mut state, _) = sent(&[0], None);
    assert_eq!(
        state.upload_rejected("invalid mime"),
        failed("Failed to create audio part: invalid mime")
    );
    assert_eq!(state, TranscribeState::Finished);
}

#[test]
fn reports_out_of_turn_are_ignored() {
    let mut state = TranscribeState::Finished;
    assert_eq!(state.responded(Ok((200, "200 OK".to_string()))), TranscribeAction::Ignore);
    assert_eq!(state.error_text_read(None), TranscribeAction::Ignore);
    assert_eq!(state.transcript_parsed(Ok("x".to_string())), TranscribeAction::Ignore);
    assert_eq!(state.upload_rejected("x"), TranscribeAction::Ignore);
    assert_eq!(state, TranscribeState::Finished);
    let mut state = TranscribeState::AwaitingResponse;
    assert_eq!(state.transcript_parsed(Ok("x".to_string())), TranscribeAction::Ignore);
    assert_eq!(state.error_text_read(Some("x".to_string())), TranscribeAction::Ignore);
    assert_eq!(state, TranscribeState::AwaitingResponse);
}

#[test]
fn the_provider_tells_its_model_and_name() {
    let provider = provider();
    assert!(provider.is_model_loaded());
    assert_eq!(provider.get_current_model(), Some("whisper-large-v3".to_string()));
    assert_eq!(provider.provider_name(), "groq");
    assert_eq!(provider.api_key, "SECRET-REDACTED");
}

#[test]
fn failures_join_prefix_and_detail() {
    assert_eq!(
        engine_failed("a: ", "b"),
        Err(TranscriptionError::EngineFailed("a: b".to_string()))
    );
}
