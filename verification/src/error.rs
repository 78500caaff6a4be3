//! Error type of the library and the mapping of channel failures onto it.

use vstd::prelude::*;

verus! {

#[verifier::external_type_specification]
#[verifier::external_body]
pub struct ExIoError(std::io::Error);

#[verifier::external_type_specification]
#[verifier::external_body]
#[verifier::reject_recursive_types(T)]
pub struct ExAsyncSendError<T>(async_channel::SendError<T>);

#[verifier::external_type_specification]
#[verifier::external_body]
pub struct ExAsyncRecvError(async_channel::RecvError);

#[verifier::external_type_specification]
#[verifier::external_body]
#[verifier::reject_recursive_types(T)]
pub struct ExCrossbeamSendError<T>(crossbeam::channel::SendError<T>);

#[verifier::external_type_specification]
#[verifier::external_body]
pub struct ExCrossbeamRecvError(crossbeam::channel::RecvError);

/// Main error type of the tool.
#[derive(Debug)]
pub enum Error {
    /// Hardware device error
    HardwareError(String),
    /// Configuration error
    ConfigError(String),
    /// Data processing error
    ProcessingError(String),
    /// I/O error
    IoError(std::io::Error),
    /// Channel communication error
    ChannelError(String),
    /// System-level error
    SystemError(String),
    /// UHD API error
    UhdError(String),
    /// JSON error, carried as its message
    JsonError(String),
    /// Timeout error
    TimeoutError(String),
    /// Validation error
    ValidationError(String),
    /// Export error
    ExportError(String),
    /// YAML parsing error, carried as its message
    YamlError(String),
    /// CSV error, carried as its message
    CsvError(String),
    /// HDF5 error, carried as its message
    Hdf5Error(String),
    /// Other errors
    Unknown(String),
}

/// Result type alias using the library's error type.
pub type Result<T> = std::result::Result<T, Error>;

/// Whether `e` is a channel error carrying the message `msg`.
pub open spec fn is_channel_error(e: Error, msg: Seq<char>) -> bool {
    e matches Error::ChannelError(m) && m@ == msg
}

/// Whether `e` is a processing error carrying the message `msg`.
pub open spec fn is_processing_error(e: Error, msg: Seq<char>) -> bool {
    e matches Error::ProcessingError(m) && m@ == msg
}

/// Whether `e` is a validation error carrying the message `msg`.
pub open spec fn is_validation_error(e: Error, msg: Seq<char>) -> bool {
    e matches Error::ValidationError(m) && m@ == msg
}

/// Conversion of channel send/receive failures into the library's error.
pub trait ChannelErrorExt<T>: Sized {
    /// Convert a channel failure into `Error::ChannelError`.
    fn map_channel_err(self) -> std::result::Result<T, Error>;
}

impl<T> ChannelErrorExt<T> for std::result::Result<T, async_channel::SendError<T>> {
    fn map_channel_err(self) -> (r: std::result::Result<T, Error>)
        ensures
            self is Ok ==> r == Ok::<T, Error>(self->Ok_0),
            self is Err ==> r is Err && is_channel_error(r->Err_0, "Channel send failed"@),
    {
        match self {
            Ok(v) => Ok(v),
            Err(_) => Err(Error::ChannelError("Channel send failed".to_owned())),
        }
    }
}

impl<T> ChannelErrorExt<T> for std::result::Result<T, async_channel::RecvError> {
    fn map_channel_err(self) -> (r: std::result::Result<T, Error>)
        ensures
            self is Ok ==> r == Ok::<T, Error>(self->Ok_0),
            self is Err ==> r is Err && is_channel_error(r->Err_0, "Channel receive failed"@),
    {
        match self {
            Ok(v) => Ok(v),
            Err(_) => Err(Error::ChannelError("Channel receive failed".to_owned())),
        }
    }
}

impl<T, E> ChannelErrorExt<T> for std::result::Result<T, crossbeam::channel::SendError<E>> {
    fn map_channel_err(self) -> (r: std::result::Result<T, Error>)
        ensures
            self is Ok ==> r == Ok::<T, Error>(self->Ok_0),
            self is Err ==> r is Err && is_channel_error(
                r->Err_0,
                "Crossbeam channel send failed"@,
            ),
    {
        match self {
            Ok(v) => Ok(v),
            Err(_) => Err(Error::ChannelError("Crossbeam channel send failed".to_owned())),
        }
    }
}

impl<T> ChannelErrorExt<T> for std::result::Result<T, crossbeam::channel::RecvError> {
    fn map_channel_err(self) -> (r: std::result::Result<T, Error>)
        ensures
            self is Ok ==> r == Ok::<T, Error>(self->Ok_0),
            self is Err ==> r is Err && is_channel_error(
                r->Err_0,
                "Crossbeam channel receive failed"@,
            ),
    {
        match self {
            Ok(v) => Ok(v),
            Err(_) => Err(Error::ChannelError("Crossbeam channel receive failed".to_owned())),
        }
    }
}

} // verus!
