//! The failure taxonomy of the conversion pipeline. Every failure is turned
//! into a terminal `ConversionError` for the current request; nothing is
//! retried.

use vstd::prelude::*;
use vstd::string::*;

verus! {

/// The stage at which a conversion request failed.
#[derive(Clone, Copy, Debug, PartialEq, Eq, Structural)]
pub enum ErrorKind {
    /// The input path has no derivable file-name stem.
    InvalidInput,
    /// The scratch directory could not be determined or created.
    ScratchDirUnavailable,
    /// Raster decoding failed on the embedding path.
    DecodeError,
    /// The external engine could not be started.
    EngineLaunchError,
    /// The external engine exited with a failure status.
    EngineExecutionError,
    /// A filesystem read or write failed.
    IOError,
}

/// A descriptive failure outcome: the stage that failed and a
/// human-readable diagnostic.
#[derive(Debug)]
pub struct ConversionError {
    pub kind: ErrorKind,
    pub message: String,
}

impl ConversionError {
    /// The human-readable diagnostic carried by this failure.
    pub fn message(&self) -> (r: &str)
        ensures
            r@ == self.message@,
    {
        self.message.as_str()
    }

    /// The stage at which the request failed.
    pub fn kind(&self) -> (r: ErrorKind)
        ensures
            r == self.kind,
    {
        self.kind
    }
}

/// The failure for an input path without a file-name stem.
pub fn invalid_input() -> (r: ConversionError)
    ensures
        r.kind == ErrorKind::InvalidInput,
        r.message@ == "invalid input: the path has no file name"@,
{
    ConversionError {
        kind: ErrorKind::InvalidInput,
        message: String::from_str("invalid input: the path has no file name"),
    }
}

/// The failure for a scratch directory that cannot be provided.
pub fn scratch_dir_failure(diag: &str) -> (r: ConversionError)
    ensures
        r.kind == ErrorKind::ScratchDirUnavailable,
        r.message@ == "scratch directory unavailable: "@ + diag@,
{
    let mut message = String::from_str("scratch directory unavailable: ");
    message.append(diag);
    ConversionError { kind: ErrorKind::ScratchDirUnavailable, message }
}

/// The failure for a source image that could not be decoded.
pub fn decode_failure(diag: &str) -> (r: ConversionError)
    ensures
        r.kind == ErrorKind::DecodeError,
        r.message@ == "decode failed: "@ + diag@,
{
    let mut message = String::from_str("decode failed: ");
    message.append(diag);
    ConversionError { kind: ErrorKind::DecodeError, message }
}

/// The failure for an engine process that could not be started; `diag` is
/// the underlying OS diagnostic.
pub fn engine_launch_failure(diag: &str) -> (r: ConversionError)
    ensures
        r.kind == ErrorKind::EngineLaunchError,
        r.message@ == "engine launch failed: "@ + diag@,
{
    let mut message = String::from_str("engine launch failed: ");
    message.append(diag);
    ConversionError { kind: ErrorKind::EngineLaunchError, message }
}

/// The failure for an engine process that exited with a failure status;
/// `stderr` is the engine's captured standard-error text.
pub fn engine_execution_failure(stderr: &str) -> (r: ConversionError)
    ensures
        r.kind == ErrorKind::EngineExecutionError,
        r.message@ == "engine failed: "@ + stderr@,
{
    let mut message = String::from_str("engine failed: ");
    message.append(stderr);
    ConversionError { kind: ErrorKind::EngineExecutionError, message }
}

/// The failure for a filesystem read or write that did not succeed.
pub fn io_failure(diag: &str) -> (r: ConversionError)
    ensures
        r.kind == ErrorKind::IOError,
        r.message@ == "i/o failed: "@ + diag@,
{
    let mut message = String::from_str("i/o failed: ");
    message.append(diag);
    ConversionError { kind: ErrorKind::IOError, message }
}

} // verus!
