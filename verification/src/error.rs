use vstd::prelude::*;

verus! {

/// The error taxonomy of the tool. Every failure is terminal for the current
/// invocation; each variant carries a human-readable message.
#[derive(Debug, PartialEq, Eq)]
pub enum ListenError {
    /// Device or file acquisition failed, or the audio format is unsupported.
    Audio(String),
    /// Model load or decode failed.
    Transcription(String),
    /// I/O failure on a read or persisted output.
    File(String),
    /// Invalid configuration, e.g. a non-positive silence duration.
    Config(String),
    /// Reserved for interrupt-mode wiring.
    Signal(String),
}

impl ListenError {
    /// The full human-readable text of the error, prefixed by its category.
    pub fn message(&self) -> (r: String)
        ensures
            self matches ListenError::Audio(m) ==> r@ == "Audio error: "@ + m@,
            self matches ListenError::Transcription(m) ==> r@ == "Transcription error: "@ + m@,
            self matches ListenError::File(m) ==> r@ == "File error: "@ + m@,
            self matches ListenError::Config(m) ==> r@ == "Configuration error: "@ + m@,
            self matches ListenError::Signal(m) ==> r@ == "Signal error: "@ + m@,
    {
        match self {
            ListenError::Audio(m) => "Audio error: ".to_owned().concat(m.as_str()),
            ListenError::Transcription(m) => "Transcription error: ".to_owned().concat(m.as_str()),
            ListenError::File(m) => "File error: ".to_owned().concat(m.as_str()),
            ListenError::Config(m) => "Configuration error: ".to_owned().concat(m.as_str()),
            ListenError::Signal(m) => "Signal error: ".to_owned().concat(m.as_str()),
        }
    }
}

} // verus!
