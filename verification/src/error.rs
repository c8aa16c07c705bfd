//! Errors surfaced by the remote virtual file.

use vstd::prelude::*;

verus! {

/// Failure surface of the remote virtual file.
///
/// `Request` and `ReadError` carry the transport's own description of the
/// failure: `Request` for a failure while probing the resource, before the
/// virtual file exists, and `ReadError` for a failure of a range request
/// issued on behalf of a later `read` call. `NotSeekable` and
/// `NoContentSize` reject a resource the probe found unusable, and
/// `InvalidArgument` rejects a zero-length read buffer or a seek whose
/// target position falls outside `0..=u64::MAX`.
#[derive(Debug, Clone)]
pub enum RemoteIoError {
    /// The probe's metadata request failed in transport.
    Request(String),
    /// The resource does not advertise range-request support.
    NotSeekable,
    /// The resource does not declare a parseable total length.
    NoContentSize,
    /// A zero-length read buffer, or a seek target out of range.
    InvalidArgument,
    /// A range request issued during a `read` failed in transport.
    ReadError(String),
}

} // verus!
