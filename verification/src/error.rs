//! The errors of the capture engine and of the code around it.

use vstd::prelude::*;
use vstd::string::StringExecFns;

verus! {

/// Why the capture engine could not do what it was asked.
#[derive(Debug, Clone)]
pub enum CaptureError {
    /// The chosen device cannot be had.
    DeviceUnavailable(String),
    /// The device's format descriptor cannot be used.
    FormatNegotiationFailed(String),
    /// A session is already active on this controller.
    AlreadyCapturing,
    /// Reading from the device failed.
    IoFailure(String),
    /// The audio subsystem could not be set up.
    SubsystemInitFailure(String),
}

impl CaptureError {
    /// The words that describe the error.
    pub open spec fn text(self) -> Seq<char> {
        match self {
            CaptureError::DeviceUnavailable(detail) => "Device unavailable: "@ + detail@,
            CaptureError::FormatNegotiationFailed(detail) => "Format negotiation failed: "@
                + detail@,
            CaptureError::AlreadyCapturing => "Capture already in progress"@,
            CaptureError::IoFailure(detail) => "Audio read failed: "@ + detail@,
            CaptureError::SubsystemInitFailure(detail) => "Audio subsystem failed to start: "@
                + detail@,
        }
    }

    /// The words that describe the error.
    pub fn message(&self) -> (s: String)
        ensures
            s@ == self.text(),
    {
        match self {
            CaptureError::DeviceUnavailable(detail) => "Device unavailable: ".to_owned().concat(
                detail.as_str(),
            ),
            CaptureError::FormatNegotiationFailed(detail) => "Format negotiation failed: "
                .to_owned().concat(detail.as_str()),
            CaptureError::AlreadyCapturing => "Capture already in progress".to_owned(),
            CaptureError::IoFailure(detail) => "Audio read failed: ".to_owned().concat(
                detail.as_str(),
            ),
            CaptureError::SubsystemInitFailure(detail) => "Audio subsystem failed to start: "
                .to_owned().concat(detail.as_str()),
        }
    }
}

/// An error of the application, by the part that it comes from. Each variant
/// holds the words of the failure.
#[derive(Debug, Clone)]
pub enum AppError {
    Database(String),
    Io(String),
    Serialization(String),
    Http(String),
    Keychain(String),
    KeychainError(String),
    AudioCapture(String),
    Transcription(String),
    Llm(String),
    Config(String),
    NotFound(String),
    InvalidInput(String),
    Other(String),
}

impl AppError {
    /// What stands before the words of the failure when the error is shown.
    pub open spec fn prefix(self) -> Seq<char> {
        match self {
            AppError::Database(_) => "Database error: "@,
            AppError::Io(_) => "IO error: "@,
            AppError::Serialization(_) => "Serialization error: "@,
            AppError::Http(_) => "HTTP request error: "@,
            AppError::Keychain(_) => "Keychain error: "@,
            AppError::KeychainError(_) => "Keychain error: "@,
            AppError::AudioCapture(_) => "Audio capture error: "@,
            AppError::Transcription(_) => "Transcription service error: "@,
            AppError::Llm(_) => "LLM service error: "@,
            AppError::Config(_) => "Configuration error: "@,
            AppError::NotFound(_) => "Not found: "@,
            AppError::InvalidInput(_) => "Invalid input: "@,
            AppError::Other(_) => Seq::<char>::empty(),
        }
    }

    /// The words of the failure.
    pub open spec fn detail(self) -> Seq<char> {
        match self {
            AppError::Database(d) => d@,
            AppError::Io(d) => d@,
            AppError::Serialization(d) => d@,
            AppError::Http(d) => d@,
            AppError::Keychain(d) => d@,
            AppError::KeychainError(d) => d@,
            AppError::AudioCapture(d) => d@,
            AppError::Transcription(d) => d@,
            AppError::Llm(d) => d@,
            AppError::Config(d) => d@,
            AppError::NotFound(d) => d@,
            AppError::InvalidInput(d) => d@,
            AppError::Other(d) => d@,
        }
    }

    /// The error as it is shown: the prefix of its part, then the words of
    /// the failure.
    pub fn to_string(&self) -> (s: String)
        ensures
            s@ == self.prefix() + self.detail(),
    {
        match self {
            AppError::Database(d) => "Database error: ".to_owned().concat(d.as_str()),
            AppError::Io(d) => "IO error: ".to_owned().concat(d.as_str()),
            AppError::Serialization(d) => "Serialization error: ".to_owned().concat(d.as_str()),
            AppError::Http(d) => "HTTP request error: ".to_owned().concat(d.as_str()),
            AppError::Keychain(d) => "Keychain error: ".to_owned().concat(d.as_str()),
            AppError::KeychainError(d) => "Keychain error: ".to_owned().concat(d.as_str()),
            AppError::AudioCapture(d) => "Audio capture error: ".to_owned().concat(d.as_str()),
            AppError::Transcription(d) => "Transcription service error: ".to_owned().concat(
                d.as_str(),
            ),
            AppError::Llm(d) => "LLM service error: ".to_owned().concat(d.as_str()),
            AppError::Config(d) => "Configuration error: ".to_owned().concat(d.as_str()),
            AppError::NotFound(d) => "Not found: ".to_owned().concat(d.as_str()),
            AppError::InvalidInput(d) => "Invalid input: ".to_owned().concat(d.as_str()),
            AppError::Other(d) => {
                assert(Seq::<char>::empty() + d@ =~= d@);
                d.clone()
            },
        }
    }

    /// The application's error for a failure of the capture engine.
    pub fn from_capture(e: &CaptureError) -> (a: AppError)
        ensures
            a matches AppError::AudioCapture(d) && d@ == e.text(),
    {
        AppError::AudioCapture(e.message())
    }
}

/// What the fallible operations of the application return.
pub type Result<T> = std::result::Result<T, AppError>;

} // verus!
