//! Error types of the generator.

use vstd::prelude::*;

verus! {

/// The kind of a [`GeneratorError`], without its message.
///
/// Contracts speak of kinds where the message text is incidental.
#[derive(Debug, Clone, Copy, PartialEq, Eq, Structural)]
pub enum ErrorKind {
    Io,
    TemplateNotFound,
    InvalidProjectName,
    JavaEnvironment,
    TemplateProcessing,
    FileOperation,
    Configuration,
    ExternalCommand,
    Serialization,
    TemplateEngine,
    SourceUnavailable,
    IntegrityError,
    Unknown,
}

/// Error type of the generator.
///
/// Each variant carries a human-readable message.
#[derive(Debug, Clone, PartialEq, Eq)]
pub enum GeneratorError {
    /// An I/O operation failed.
    Io(String),
    /// No enabled source produced the requested template; carries the
    /// composite `type:name` key, or a source-level description.
    TemplateNotFound(String),
    /// The project name is not acceptable.
    InvalidProjectName(String),
    /// The Java environment could not be used.
    JavaEnvironment(String),
    /// A template descriptor was present but malformed.
    TemplateProcessing(String),
    /// A file operation failed.
    FileOperation(String),
    /// The registry configuration is invalid.
    Configuration(String),
    /// An external command failed.
    ExternalCommand(String),
    /// Serialization or deserialization failed.
    Serialization(String),
    /// The template engine failed while rendering.
    TemplateEngine(String),
    /// A source could not be reached (network, auth, missing path).
    SourceUnavailable(String),
    /// Downloaded content did not match its declared checksum.
    IntegrityError(String),
    /// Any other failure.
    Unknown(String),
}

impl GeneratorError {
    /// The kind of this error.
    pub open spec fn kind(&self) -> ErrorKind {
        match self {
            GeneratorError::Io(_) => ErrorKind::Io,
            GeneratorError::TemplateNotFound(_) => ErrorKind::TemplateNotFound,
            GeneratorError::InvalidProjectName(_) => ErrorKind::InvalidProjectName,
            GeneratorError::JavaEnvironment(_) => ErrorKind::JavaEnvironment,
            GeneratorError::TemplateProcessing(_) => ErrorKind::TemplateProcessing,
            GeneratorError::FileOperation(_) => ErrorKind::FileOperation,
            GeneratorError::Configuration(_) => ErrorKind::Configuration,
            GeneratorError::ExternalCommand(_) => ErrorKind::ExternalCommand,
            GeneratorError::Serialization(_) => ErrorKind::Serialization,
            GeneratorError::TemplateEngine(_) => ErrorKind::TemplateEngine,
            GeneratorError::SourceUnavailable(_) => ErrorKind::SourceUnavailable,
            GeneratorError::IntegrityError(_) => ErrorKind::IntegrityError,
            GeneratorError::Unknown(_) => ErrorKind::Unknown,
        }
    }

    /// The message carried by this error.
    pub open spec fn spec_message(&self) -> Seq<char> {
        match self {
            GeneratorError::Io(m) => m@,
            GeneratorError::TemplateNotFound(m) => m@,
            GeneratorError::InvalidProjectName(m) => m@,
            GeneratorError::JavaEnvironment(m) => m@,
            GeneratorError::TemplateProcessing(m) => m@,
            GeneratorError::FileOperation(m) => m@,
            GeneratorError::Configuration(m) => m@,
            GeneratorError::ExternalCommand(m) => m@,
            GeneratorError::Serialization(m) => m@,
            GeneratorError::TemplateEngine(m) => m@,
            GeneratorError::SourceUnavailable(m) => m@,
            GeneratorError::IntegrityError(m) => m@,
            GeneratorError::Unknown(m) => m@,
        }
    }
}

/// A source-level failure of this kind lets resolution move on to the
/// next registry entry; any other kind aborts the resolution pass.
pub open spec fn spec_recoverable(kind: ErrorKind) -> bool {
    kind == ErrorKind::SourceUnavailable || kind == ErrorKind::TemplateNotFound
}

/// Whether a source-level failure lets resolution try the next entry.
pub fn is_recoverable(err: &GeneratorError) -> (r: bool)
    ensures
        r == spec_recoverable(err.kind()),
{
    match err {
        GeneratorError::SourceUnavailable(_) => true,
        GeneratorError::TemplateNotFound(_) => true,
        _ => false,
    }
}

} // verus!
