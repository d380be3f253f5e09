//! The exchange with the transcription service: what is sent, and what the
//! answer means.

use crate::config::{opt_chars, AppConfig};
use crate::text::{trim, trimmed};
use vstd::prelude::*;
use vstd::string::*;

verus! {

/// Where recordings are posted.
pub open spec fn endpoint() -> Seq<char> {
    "https://api.openai.com/v1/audio/transcriptions"@
}

/// One request to the service: a POST of a multipart form to `url` with
/// bearer authorization. The form holds the recording as the part `file`,
/// under the given file name and media type, the text field `model`, and the
/// text field `language` where one is set.
#[derive(Debug, PartialEq, Eq)]
pub struct TranscriptionRequest {
    pub url: String,
    pub bearer_token: String,
    pub file_name: String,
    pub mime: String,
    pub model: String,
    pub language: Option<String>,
}

/// How one exchange with the service ended.
#[derive(Debug, PartialEq, Eq)]
pub enum ServerReply {
    /// The request could not be sent or no answer came.
    Unreachable,
    /// The service answered with a status outside 200..=299 and this body.
    Rejected { body: String },
    /// The service answered with success, but the body is not a JSON object
    /// with a string field `text`.
    Malformed,
    /// The service answered with success and this value of `text`.
    Text { text: String },
}

/// Why a recording was not transcribed.
#[derive(Debug, PartialEq, Eq)]
pub enum TranscribeError {
    Network,
    Api { body: String },
    Parse,
}

impl TranscribeError {
    /// What the user is told.
    pub open spec fn message_text(self) -> Seq<char> {
        match self {
            TranscribeError::Network => "Failed to send request to OpenAI"@,
            TranscribeError::Api { body } => "OpenAI API Error: "@ + body@,
            TranscribeError::Parse => "Failed to parse OpenAI response"@,
        }
    }

    /// The message for the user; the body of a rejection is passed on as it
    /// came.
    pub fn message(&self) -> (r: String)
        ensures
            r@ == self.message_text(),
    {
        match self {
            TranscribeError::Network => String::from_str("Failed to send request to OpenAI"),
            TranscribeError::Api { body } => {
                let mut r = String::from_str("OpenAI API Error: ");
                r.append(body.as_str());
                r
            },
            TranscribeError::Parse => String::from_str("Failed to parse OpenAI response"),
        }
    }
}

/// The transcription that a reply stands for: the text, trimmed, or the
/// error.
pub open spec fn reply_outcome(reply: ServerReply) -> Result<Seq<char>, TranscribeError> {
    match reply {
        ServerReply::Unreachable => Err(TranscribeError::Network),
        ServerReply::Rejected { body } => Err(TranscribeError::Api { body }),
        ServerReply::Malformed => Err(TranscribeError::Parse),
        ServerReply::Text { text } => Ok(trimmed(text@)),
    }
}

/// The client of the transcription service.
#[derive(Debug, PartialEq, Eq)]
pub struct WhisperClient {
    api_key: String,
}

impl WhisperClient {
    /// The key that authorizes the requests.
    pub closed spec fn key(&self) -> Seq<char> {
        self.api_key@
    }

    /// A client that authorizes its requests with `api_key`.
    pub fn new(api_key: String) -> (r: WhisperClient)
        ensures
            r.key() == api_key@,
    {
        WhisperClient { api_key }
    }

    /// The key that authorizes the requests.
    pub fn api_key(&self) -> (r: &str)
        ensures
            r@ == self.key(),
    {
        self.api_key.as_str()
    }

    /// The request that posts one recording under the settings `config`.
    pub fn request(&self, config: &AppConfig) -> (r: TranscriptionRequest)
        ensures
            r.url@ == endpoint(),
            r.bearer_token@ == self.key(),
            r.file_name@ == "recording.wav"@,
            r.mime@ == "audio/wav"@,
            r.model@ == config.model@,
            opt_chars(r.language) == opt_chars(config.language),
    {
        TranscriptionRequest {
            url: String::from_str("https://api.openai.com/v1/audio/transcriptions"),
            bearer_token: self.api_key.clone(),
            file_name: String::from_str("recording.wav"),
            mime: String::from_str("audio/wav"),
            model: config.model.clone(),
            language: match &config.language {
                Some(lang) => Some(lang.clone()),
                None => None,
            },
        }
    }

    /// Whether an HTTP status reports success.
    pub fn status_is_success(status: u16) -> (r: bool)
        ensures
            r == (200 <= status && status <= 299),
    {
        200 <= status && status <= 299
    }

    /// Reads a reply: the transcription without surrounding white space, or
    /// the error that the reply stands for. Nothing is tried again.
    pub fn transcription(reply: ServerReply) -> (r: Result<String, TranscribeError>)
        ensures
            match reply_outcome(reply) {
                Ok(text) => r is Ok && r->Ok_0@ == text,
                Err(e) => r == Err::<String, TranscribeError>(e),
            },
    {
        match reply {
            ServerReply::Unreachable => Err(TranscribeError::Network),
            ServerReply::Rejected { body } => Err(TranscribeError::Api { body }),
            ServerReply::Malformed => Err(TranscribeError::Parse),
            ServerReply::Text { text } => Ok(trim(text.as_str())),
        }
    }
}

} // verus!
