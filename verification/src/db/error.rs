//! The errors of the database archiver.
use vstd::prelude::*;

verus! {

/// An input or output error of the standard library, carried through as it is.
#[verifier::external_type_specification]
#[verifier::external_body]
pub struct ExIoError(std::io::Error);

/// A flatbuffer that failed verification, carried through as it is.
#[verifier::external_type_specification]
#[verifier::external_body]
pub struct ExInvalidFlatbuffer(flatbuffers::InvalidFlatbuffer);

/// Why the `.env` file could not be written.
#[derive(Debug)]
pub enum DotEnvWriteError {
    CannotObtainCurrentDirectory(std::io::Error),
    CannotParsePath,
    CannotCreateDotEnvFile(std::io::Error),
    CannotWriteToDotEnvFile(std::io::Error),
    CannotFlushDotEnvFile(std::io::Error),
    IOError(std::io::Error),
}

/// Why a message from the broker holds no trace message; each names the topic it came on.
#[derive(Debug)]
pub enum MessageError {
    NoIdentifier(String),
    NoPayload(String),
    FailedToParse(String, flatbuffers::InvalidFlatbuffer),
}

/// A setting that was neither given nor found; it names the environment variable it is read from.
#[derive(Debug, Clone, Copy, PartialEq, Eq)]
pub enum SettingError {
    EnvVar(&'static str),
}

} // verus!
