//! The ways in which an analysis can fail.

use vstd::prelude::*;
use vstd::string::StringExecFns;

verus! {

/// A failure of the analysis. Failures that come from outside the library
/// carry the message of the underlying error.
#[derive(Debug, Clone)]
pub enum DependencyBlameError {
    /// The path is not inside any repository.
    GitRepoNotFound(String),
    /// The manifest of the detected ecosystem is missing; holds its file name.
    DependencyFileNotFound(String),
    /// The manifest could not be read or understood.
    ParseError { file: String, reason: String },
    /// The manifest does not declare the dependency.
    DependencyNotFound(String),
    /// No adapter is registered for the ecosystem.
    UnsupportedEcosystem,
    /// The directory holds no manifest of a known ecosystem.
    EcosystemDetectionFailed(String),
    /// A repository operation failed.
    GitError(String),
    /// A file could not be read.
    IoError(String),
    /// A JSON document could not be decoded or encoded.
    JsonError(String),
    /// A TOML document could not be decoded.
    TomlError(String),
    /// A search pattern could not be compiled.
    RegexError(String),
    /// Any other failure.
    Other(String),
}

/// What a `DependencyBlameError` says, with its texts as sequences of
/// characters.
pub enum ErrorView {
    GitRepoNotFound(Seq<char>),
    DependencyFileNotFound(Seq<char>),
    ParseError { file: Seq<char>, reason: Seq<char> },
    DependencyNotFound(Seq<char>),
    UnsupportedEcosystem,
    EcosystemDetectionFailed(Seq<char>),
    GitError(Seq<char>),
    IoError(Seq<char>),
    JsonError(Seq<char>),
    TomlError(Seq<char>),
    RegexError(Seq<char>),
    Other(Seq<char>),
}

impl View for DependencyBlameError {
    type V = ErrorView;

    open spec fn view(&self) -> ErrorView {
        match *self {
            DependencyBlameError::GitRepoNotFound(path) => ErrorView::GitRepoNotFound(path@),
            DependencyBlameError::DependencyFileNotFound(file) => ErrorView::DependencyFileNotFound(
                file@,
            ),
            DependencyBlameError::ParseError { file, reason } => ErrorView::ParseError {
                file: file@,
                reason: reason@,
            },
            DependencyBlameError::DependencyNotFound(name) => ErrorView::DependencyNotFound(name@),
            DependencyBlameError::UnsupportedEcosystem => ErrorView::UnsupportedEcosystem,
            DependencyBlameError::EcosystemDetectionFailed(path) =>
                ErrorView::EcosystemDetectionFailed(path@),
            DependencyBlameError::GitError(cause) => ErrorView::GitError(cause@),
            DependencyBlameError::IoError(cause) => ErrorView::IoError(cause@),
            DependencyBlameError::JsonError(cause) => ErrorView::JsonError(cause@),
            DependencyBlameError::TomlError(cause) => ErrorView::TomlError(cause@),
            DependencyBlameError::RegexError(cause) => ErrorView::RegexError(cause@),
            DependencyBlameError::Other(text) => ErrorView::Other(text@),
        }
    }
}

impl DependencyBlameError {
    /// The message of the failure, as a text.
    pub open spec fn message_text(self) -> Seq<char> {
        match self {
            DependencyBlameError::GitRepoNotFound(path) => "Git repository not found at path: "@
                + path@,
            DependencyBlameError::DependencyFileNotFound(file) => "Dependency file not found: "@
                + file@,
            DependencyBlameError::ParseError { file, reason } =>
                "Failed to parse dependency file '"@ + file@ + "': "@ + reason@,
            DependencyBlameError::DependencyNotFound(name) => "Dependency '"@ + name@
                + "' not found in project"@,
            DependencyBlameError::UnsupportedEcosystem => "Unsupported ecosystem"@,
            DependencyBlameError::EcosystemDetectionFailed(path) =>
                "Could not detect ecosystem from path: "@ + path@,
            DependencyBlameError::GitError(cause) => "Git operation failed: "@ + cause@,
            DependencyBlameError::IoError(cause) => "IO error: "@ + cause@,
            DependencyBlameError::JsonError(cause) => "JSON error: "@ + cause@,
            DependencyBlameError::TomlError(cause) => "TOML error: "@ + cause@,
            DependencyBlameError::RegexError(cause) => "Regex error: "@ + cause@,
            DependencyBlameError::Other(text) => text@,
        }
    }

    /// The message of the failure.
    pub fn message(&self) -> (text: String)
        ensures
            text@ == self.message_text(),
    {
        match self {
            DependencyBlameError::GitRepoNotFound(path) => String::from_str(
                "Git repository not found at path: ",
            ).concat(path.as_str()),
            DependencyBlameError::DependencyFileNotFound(file) => String::from_str(
                "Dependency file not found: ",
            ).concat(file.as_str()),
            DependencyBlameError::ParseError { file, reason } => String::from_str(
                "Failed to parse dependency file '",
            ).concat(file.as_str()).concat("': ").concat(reason.as_str()),
            DependencyBlameError::DependencyNotFound(name) => String::from_str(
                "Dependency '",
            ).concat(name.as_str()).concat("' not found in project"),
            DependencyBlameError::UnsupportedEcosystem => String::from_str("Unsupported ecosystem"),
            DependencyBlameError::EcosystemDetectionFailed(path) => String::from_str(
                "Could not detect ecosystem from path: ",
            ).concat(path.as_str()),
            DependencyBlameError::GitError(cause) => String::from_str(
                "Git operation failed: ",
            ).concat(cause.as_str()),
            DependencyBlameError::IoError(cause) => String::from_str("IO error: ").concat(
                cause.as_str(),
            ),
            DependencyBlameError::JsonError(cause) => String::from_str("JSON error: ").concat(
                cause.as_str(),
            ),
            DependencyBlameError::TomlError(cause) => String::from_str("TOML error: ").concat(
                cause.as_str(),
            ),
            DependencyBlameError::RegexError(cause) => String::from_str("Regex error: ").concat(
                cause.as_str(),
            ),
            DependencyBlameError::Other(text) => text.clone(),
        }
    }
}

} // verus!
