//! Errors of the library.
use vstd::prelude::*;

verus! {

/// Everything that can go wrong while detecting a project or generating a pipeline.
#[derive(Debug)]
pub enum CciError {
    /// No detector recognised the project.
    DetectionFailed,
    /// A file that a detector needs could not be read.
    Io(String),
    /// `Cargo.toml` could not be parsed.
    CargoToml(String),
    /// A configuration could not be serialized.
    Serialization(String),
    /// A preset identifier that no preset has.
    UnknownPreset(String),
}

/// What an error carries, as plain values.
pub enum ErrorView {
    DetectionFailed,
    Io(Seq<char>),
    CargoToml(Seq<char>),
    Serialization(Seq<char>),
    UnknownPreset(Seq<char>),
}

impl View for CciError {
    type V = ErrorView;

    open spec fn view(&self) -> ErrorView {
        match self {
            CciError::DetectionFailed => ErrorView::DetectionFailed,
            CciError::Io(s) => ErrorView::Io(s@),
            CciError::CargoToml(s) => ErrorView::CargoToml(s@),
            CciError::Serialization(s) => ErrorView::Serialization(s@),
            CciError::UnknownPreset(s) => ErrorView::UnknownPreset(s@),
        }
    }
}

/// The text a user is shown for an error.
pub open spec fn error_message(e: ErrorView) -> Seq<char> {
    match e {
        ErrorView::DetectionFailed => "Could not detect project type"@,
        ErrorView::Io(s) => "Failed to read "@ + s,
        ErrorView::CargoToml(s) => "Failed to parse Cargo.toml: "@ + s,
        ErrorView::Serialization(s) => "Failed to serialize configuration: "@ + s,
        ErrorView::UnknownPreset(s) => "Unknown preset ID: "@ + s,
    }
}

impl CciError {
    /// The text a user is shown for this error.
    pub fn message(&self) -> (m: String)
        ensures
            m@ == error_message(self@),
    {
        match self {
            CciError::DetectionFailed => "Could not detect project type".to_owned(),
            CciError::Io(s) => crate::text::concat2("Failed to read ", s.as_str()),
            CciError::CargoToml(s) => crate::text::concat2(
                "Failed to parse Cargo.toml: ",
                s.as_str(),
            ),
            CciError::Serialization(s) => crate::text::concat2(
                "Failed to serialize configuration: ",
                s.as_str(),
            ),
            CciError::UnknownPreset(s) => crate::text::concat2("Unknown preset ID: ", s.as_str()),
        }
    }
}

} // verus!
