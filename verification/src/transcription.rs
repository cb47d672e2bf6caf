//! The cloud transcription adapter: one request per batch of samples, no
//! retry, and one transcript or one failure at the end.
//!
//! The adapter builds the request and reads the reply's meaning. Sending,
//! receiving and parsing the reply's body are the host's.

use vstd::prelude::*;
use vstd::string::StringExecFns;
use crate::wav::{encoded, samples_to_wav, TRANSCRIPTION_SAMPLE_RATE};

verus! {

/// A transcript.
#[derive(Clone, Debug, PartialEq, Eq)]
pub struct TranscriptResult {
    pub text: String,
    /// The service's confidence, as the bits of a single-precision float,
    /// where it states one.
    pub confidence: Option<u32>,
    pub is_partial: bool,
}

/// Why no transcript was produced.
#[derive(Clone, Debug, PartialEq, Eq)]
pub enum TranscriptionError {
    /// Encoding, the network or the reply failed. The text says which.
    EngineFailed(String),
}

/// What one field of the upload carries.
#[derive(Clone, Debug, PartialEq, Eq)]
pub enum FieldValue {
    Text(String),
    File { bytes: Vec<u8>, file_name: String, mime_type: String },
}

/// One field of the multipart upload.
#[derive(Clone, Debug, PartialEq, Eq)]
pub struct FormField {
    pub name: String,
    pub value: FieldValue,
}

/// The request that is sent, once: a POST to `url` with a bearer token and a
/// multipart body of `fields`.
#[derive(Clone, Debug, PartialEq, Eq)]
pub struct TranscriptionRequest {
    pub url: String,
    pub bearer_token: String,
    pub fields: Vec<FormField>,
}

pub enum FieldValueView {
    Text(Seq<char>),
    File { bytes: Seq<u8>, file_name: Seq<char>, mime_type: Seq<char> },
}

pub struct FormFieldView {
    pub name: Seq<char>,
    pub value: FieldValueView,
}

pub struct RequestView {
    pub url: Seq<char>,
    pub bearer_token: Seq<char>,
    pub fields: Seq<FormFieldView>,
}

impl View for FormField {
    type V = FormFieldView;

    open spec fn view(&self) -> FormFieldView {
        FormFieldView {
            name: self.name@,
            value: match self.value {
                FieldValue::Text(text) => FieldValueView::Text(text@),
                FieldValue::File { bytes, file_name, mime_type } => FieldValueView::File {
                    bytes: bytes@,
                    file_name: file_name@,
                    mime_type: mime_type@,
                },
            },
        }
    }
}

impl View for TranscriptionRequest {
    type V = RequestView;

    open spec fn view(&self) -> RequestView {
        RequestView {
            url: self.url@,
            bearer_token: self.bearer_token@,
            fields: self.fields@.map_values(|f: FormField| f@),
        }
    }
}

/// The outcome of one transcription, as contracts see it: the transcript's
/// text, or the failure's message.
pub open spec fn outcome_view(outcome: Result<TranscriptResult, TranscriptionError>) -> Result<
    Seq<char>,
    Seq<char>,
> {
    match outcome {
        Ok(result) => Ok(result.text@),
        Err(TranscriptionError::EngineFailed(message)) => Err(message@),
    }
}

/// Where one transcription stands.
#[derive(Clone, Debug, PartialEq, Eq)]
pub enum TranscribeState {
    /// The request is on its way.
    AwaitingResponse,
    /// The service refused with this status; the text of its reply is being
    /// read.
    ReadingError { status_line: String },
    /// The service accepted; its reply is being parsed.
    ReadingTranscript,
    Finished,
}

/// What the host is to do next.
#[derive(Debug, PartialEq, Eq)]
pub enum TranscribeAction {
    /// Nothing: the report did not answer what was asked.
    Ignore,
    /// Send this request and report with `responded`.
    Send(TranscriptionRequest),
    /// Read the reply's body as text and report with `error_text_read`.
    ReadErrorText,
    /// Parse the reply's body as JSON, take its `text` field and report with
    /// `transcript_parsed`.
    ReadTranscript,
    /// The transcription is over.
    Done(Result<TranscriptResult, TranscriptionError>),
}

pub enum TranscribeStateView {
    AwaitingResponse,
    ReadingError { status_line: Seq<char> },
    ReadingTranscript,
    Finished,
}

pub enum TranscribeActionView {
    Ignore,
    Send(RequestView),
    ReadErrorText,
    ReadTranscript,
    Done(Result<Seq<char>, Seq<char>>),
}

impl View for TranscribeState {
    type V = TranscribeStateView;

    open spec fn view(&self) -> TranscribeStateView {
        match self {
            TranscribeState::AwaitingResponse => TranscribeStateView::AwaitingResponse,
            TranscribeState::ReadingError { status_line } => TranscribeStateView::ReadingError {
                status_line: status_line@,
            },
            TranscribeState::ReadingTranscript => TranscribeStateView::ReadingTranscript,
            TranscribeState::Finished => TranscribeStateView::Finished,
        }
    }
}

impl View for TranscribeAction {
    type V = TranscribeActionView;

    open spec fn view(&self) -> TranscribeActionView {
        match self {
            TranscribeAction::Ignore => TranscribeActionView::Ignore,
            TranscribeAction::Send(request) => TranscribeActionView::Send(request@),
            TranscribeAction::ReadErrorText => TranscribeActionView::ReadErrorText,
            TranscribeAction::ReadTranscript => TranscribeActionView::ReadTranscript,
            TranscribeAction::Done(outcome) => TranscribeActionView::Done(outcome_view(*outcome)),
        }
    }
}

/// A status in the range that counts as success, 200 to 299.
pub open spec fn is_success(status: u16) -> bool {
    200 <= status <= 299
}

/// The upload for `wav`: the file, the model, and the language where one is
/// given.
pub open spec fn upload_fields(wav: Seq<u8>, model: Seq<char>, language: Option<Seq<char>>) -> Seq<
    FormFieldView,
> {
    let file = FormFieldView {
        name: "file"@,
        value: FieldValueView::File {
            bytes: wav,
            file_name: "audio.wav"@,
            mime_type: "audio/wav"@,
        },
    };
    let model_field = FormFieldView { name: "model"@, value: FieldValueView::Text(model) };
    match language {
        Some(code) => seq![
            file,
            model_field,
            FormFieldView { name: "language"@, value: FieldValueView::Text(code) },
        ],
        None => seq![file, model_field],
    }
}

/// The request for `wav`.
pub open spec fn request_for(
    api_key: Seq<char>,
    model: Seq<char>,
    wav: Seq<u8>,
    language: Option<Seq<char>>,
) -> RequestView {
    RequestView {
        url: "https://api.groq.com/openai/v1/audio/transcriptions"@,
        bearer_token: api_key,
        fields: upload_fields(wav, model, language),
    }
}

/// The first step, given how the encoding went.
pub open spec fn step_encoded(
    api_key: Seq<char>,
    model: Seq<char>,
    wav: Result<Seq<u8>, Seq<char>>,
    language: Option<Seq<char>>,
) -> (TranscribeStateView, TranscribeActionView) {
    match wav {
        Ok(bytes) => (
            TranscribeStateView::AwaitingResponse,
            TranscribeActionView::Send(request_for(api_key, model, bytes, language)),
        ),
        Err(detail) => (
            TranscribeStateView::Finished,
            TranscribeActionView::Done(Err("WAV conversion failed: "@ + detail)),
        ),
    }
}

/// The step after the service responded, or could not be reached.
pub open spec fn step_responded(response: Result<(u16, Seq<char>), Seq<char>>) -> (
    TranscribeStateView,
    TranscribeActionView,
) {
    match response {
        Ok((status, status_line)) => if is_success(status) {
            (TranscribeStateView::ReadingTranscript, TranscribeActionView::ReadTranscript)
        } else {
            (TranscribeStateView::ReadingError { status_line }, TranscribeActionView::ReadErrorText)
        },
        Err(detail) => (
            TranscribeStateView::Finished,
            TranscribeActionView::Done(Err("Groq API request failed: "@ + detail)),
        ),
    }
}

/// The message for a refusal with `status_line` whose body read as `body`.
pub open spec fn refusal_message(status_line: Seq<char>, body: Option<Seq<char>>) -> Seq<char> {
    "Groq API error "@ + status_line + ": "@ + match body {
        Some(text) => text,
        None => "Unknown error"@,
    }
}

/// The outcome for a parsed, or unparsable, reply.
pub open spec fn transcript_outcome(parsed: Result<Seq<char>, Seq<char>>) -> Result<
    Seq<char>,
    Seq<char>,
> {
    match parsed {
        Ok(text) => Ok(text),
        Err(detail) => Err("Failed to parse Groq response: "@ + detail),
    }
}

/// The view of a `Result` of strings.
pub open spec fn text_result(r: Result<String, String>) -> Result<Seq<char>, Seq<char>> {
    match r {
        Ok(text) => Ok(text@),
        Err(detail) => Err(detail@),
    }
}

/// The view of an optional string.
pub open spec fn text_option(o: Option<String>) -> Option<Seq<char>> {
    match o {
        Some(text) => Some(text@),
        None => None,
    }
}

/// A failure whose message is `prefix` followed by `detail`.
pub fn engine_failed(prefix: &str, detail: &str) -> (outcome: Result<
    TranscriptResult,
    TranscriptionError,
>)
    ensures
        outcome is Err,
        outcome_view(outcome) == Err::<Seq<char>, Seq<char>>(prefix@ + detail@),
{
    Err(TranscriptionError::EngineFailed(String::from_str(prefix).concat(detail)))
}

/// The Groq transcription service, with the key and the model it is used
/// with.
#[derive(Clone, Debug, PartialEq, Eq)]
pub struct GroqProvider {
    pub api_key: String,
    pub model: String,
}

impl GroqProvider {
    pub fn new(api_key: String, model: String) -> (provider: GroqProvider)
        ensures
            provider.api_key@ == api_key@,
            provider.model@ == model@,
    {
        GroqProvider { api_key, model }
    }

    /// A remote service is taken to be ready at all times.
    pub fn is_model_loaded(&self) -> (loaded: bool)
        ensures
            loaded,
    {
        true
    }

    /// The model this provider was made with.
    pub fn get_current_model(&self) -> (model: Option<String>)
        ensures
            text_option(model) == Some(self.model@),
    {
        Some(self.model.clone())
    }

    pub fn provider_name(&self) -> (name: &'static str)
        ensures
            name@ == "groq"@,
    {
        "groq"
    }

    /// The first step of a transcription whose samples were encoded as `wav`,
    /// or could not be.
    pub fn request_from_wav(&self, wav: Result<Vec<u8>, String>, language: Option<String>) -> (step:
        (TranscribeState, TranscribeAction))
        ensures
            (step.0@, step.1@) == step_encoded(
                self.api_key@,
                self.model@,
                match wav {
                    Ok(bytes) => Ok(bytes@),
                    Err(detail) => Err(detail@),
                },
                text_option(language),
            ),
    {
        match wav {
            Ok(bytes) => {
                let ghost wav_bytes = bytes@;
                let mut fields: Vec<FormField> = Vec::new();
                fields.push(
                    FormField {
                        name: String::from_str("file"),
                        value: FieldValue::File {
                            bytes,
                            file_name: String::from_str("audio.wav"),
                            mime_type: String::from_str("audio/wav"),
                        },
                    },
                );
                fields.push(
                    FormField {
                        name: String::from_str("model"),
                        value: FieldValue::Text(self.model.clone()),
                    },
                );
                match language {
                    Some(code) => {
                        fields.push(
                            FormField {
                                name: String::from_str("language"),
                                value: FieldValue::Text(code),
                            },
                        );
                    },
                    None => {},
                }
                let request = TranscriptionRequest {
                    url: String::from_str("https://api.groq.com/openai/v1/audio/transcriptions"),
                    bearer_token: self.api_key.clone(),
                    fields,
                };
                assert(request@.fields =~= upload_fields(
                    wav_bytes,
                    self.model@,
                    text_option(language),
                ));
                (TranscribeState::AwaitingResponse, TranscribeAction::Send(request))
            },
            Err(detail) => (
                TranscribeState::Finished,
                TranscribeAction::Done(engine_failed("WAV conversion failed: ", detail.as_str())),
            ),
        }
    }

    /// Begins a transcription of mono samples taken at 16 kHz: encodes them
    /// and names the request to send.
    ///
    /// The request carries the encoded file. Samples too many for the
    /// container end the transcription at once, with the encoder's refusal.
    pub fn transcribe(&self, samples: &[i16], language: Option<String>) -> (step: (
        TranscribeState,
        TranscribeAction,
    ))
        ensures
            (step.0@, step.1@) == step_encoded(
                self.api_key@,
                self.model@,
                encoded(samples@, TRANSCRIPTION_SAMPLE_RATE),
                text_option(language),
            ),
    {
        let wav = samples_to_wav(samples, TRANSCRIPTION_SAMPLE_RATE);
        self.request_from_wav(wav, language)
    }
}

impl TranscribeState {
    /// The upload could not be put together.
    pub fn upload_rejected(&mut self, detail: &str) -> (action: TranscribeAction)
        ensures
            (final(self)@, action@) == if old(self)@ is AwaitingResponse {
                (
                    TranscribeStateView::Finished,
                    TranscribeActionView::Done(Err("Failed to create audio part: "@ + detail@)),
                )
            } else {
                (old(self)@, TranscribeActionView::Ignore)
            },
    {
        match self {
            TranscribeState::AwaitingResponse => {
                *self = TranscribeState::Finished;
                TranscribeAction::Done(engine_failed("Failed to create audio part: ", detail))
            },
            _ => TranscribeAction::Ignore,
        }
    }

    /// The service responded with a status, or the request failed.
    /// `status_line` is the status as it is shown: the code and its reason.
    pub fn responded(&mut self, response: Result<(u16, String), String>) -> (action:
        TranscribeAction)
        ensures
            (final(self)@, action@) == if old(self)@ is AwaitingResponse {
                step_responded(
                    match response {
                        Ok((status, status_line)) => Ok((status, status_line@)),
                        Err(detail) => Err(detail@),
                    },
                )
            } else {
                (old(self)@, TranscribeActionView::Ignore)
            },
    {
        match self {
            TranscribeState::AwaitingResponse => match response {
                Ok((status, status_line)) => {
                    if 200 <= status && status <= 299 {
                        *self = TranscribeState::ReadingTranscript;
                        TranscribeAction::ReadTranscript
                    } else {
                        *self = TranscribeState::ReadingError { status_line };
                        TranscribeAction::ReadErrorText
                    }
                },
                Err(detail) => {
                    *self = TranscribeState::Finished;
                    TranscribeAction::Done(
                        engine_failed("Groq API request failed: ", detail.as_str()),
                    )
                },
            },
            _ => TranscribeAction::Ignore,
        }
    }

    /// The body of a refusal was read as text, or could not be read.
    pub fn error_text_read(&mut self, body: Option<String>) -> (action: TranscribeAction)
        ensures
            (final(self)@, action@) == match old(self)@ {
                TranscribeStateView::ReadingError { status_line } => (
                    TranscribeStateView::Finished,
                    TranscribeActionView::Done(Err(refusal_message(status_line, text_option(body)))),
                ),
                _ => (old(self)@, TranscribeActionView::Ignore),
            },
    {
        match self {
            TranscribeState::ReadingError { status_line } => {
                let head = String::from_str("Groq API error ").concat(status_line.as_str()).concat(
                    ": ",
                );
                let outcome = match body {
                    Some(text) => engine_failed(head.as_str(), text.as_str()),
                    None => engine_failed(head.as_str(), "Unknown error"),
                };
                *self = TranscribeState::Finished;
                TranscribeAction::Done(outcome)
            },
            _ => TranscribeAction::Ignore,
        }
    }

    /// The reply was parsed and gave this text, or could not be parsed.
    pub fn transcript_parsed(&mut self, parsed: Result<String, String>) -> (action:
        TranscribeAction)
        ensures
            (final(self)@, action@) == if old(self)@ is ReadingTranscript {
                (
                    TranscribeStateView::Finished,
                    TranscribeActionView::Done(transcript_outcome(text_result(parsed))),
                )
            } else {
                (old(self)@, TranscribeActionView::Ignore)
            },
            action matches TranscribeAction::Done(Ok(result)) ==> result.confidence is None
                && !result.is_partial,
    {
        match self {
            TranscribeState::ReadingTranscript => {
                *self = TranscribeState::Finished;
                match parsed {
                    Ok(text) => TranscribeAction::Done(
                        Ok(TranscriptResult { text, confidence: None, is_partial: false }),
                    ),
                    Err(detail) => TranscribeAction::Done(
                        engine_failed("Failed to parse Groq response: ", detail.as_str()),
                    ),
                }
            },
            _ => TranscribeAction::Ignore,
        }
    }
}

} // verus!
