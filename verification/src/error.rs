use vstd::prelude::*;
use crate::transport::decode_flag;

verus! {

/// Everything that can go wrong in this library.
#[derive(Clone, Copy, Debug, PartialEq, Eq, Structural)]
pub enum SdkError {
    /// The transport configuration was rejected when the context was built.
    TransportBuildFailed,
    /// The token endpoint could not be reached or the exchange broke off.
    TransportError,
    /// The token endpoint answered with something that is no token record.
    DeserializationError,
}

/// How a token fetch failed, as the driver of the exchange saw it.
#[derive(Clone, Copy, Debug, PartialEq, Eq, Structural)]
pub enum FetchFailure {
    /// The exchange did not complete: the request could not be sent, the
    /// reply had no success status, or its body broke off on the way.
    Transport,
    /// The reply arrived whole, but its body is no token record.
    Decode,
}

impl FetchFailure {
    /// The error a caller sees for this failure.
    pub open spec fn error(self) -> SdkError {
        match self {
            FetchFailure::Transport => SdkError::TransportError,
            FetchFailure::Decode => SdkError::DeserializationError,
        }
    }

    /// Sorts a failure by whether it arose while decoding the body.
    pub fn from_decode_flag(decode: bool) -> (failure: FetchFailure)
        ensures
            failure == (if decode { FetchFailure::Decode } else { FetchFailure::Transport }),
    {
        if decode {
            FetchFailure::Decode
        } else {
            FetchFailure::Transport
        }
    }

    /// Sorts an error as the transport itself does: what it flags as a
    /// decoding error is `Decode`, any other is `Transport`. The transport
    /// flags every error that arises while it reads or decodes a body, a
    /// body that broke off among them: a driver for which that is a
    /// transport failure reads the body itself and hands only the errors of
    /// sending to this function.
    pub fn classify(error: &reqwest::Error) -> (failure: FetchFailure)
        ensures
            failure == (if decode_flag(*error) {
                FetchFailure::Decode
            } else {
                FetchFailure::Transport
            }),
    {
        FetchFailure::from_decode_flag(crate::transport::is_decode(error))
    }

    /// How the status of a token reply fails the fetch: a status from 200 to
    /// 299 does not, any other fails it as `Transport`.
    pub open spec fn status_failure(status: u16) -> Option<FetchFailure> {
        if 200 <= status && status < 300 {
            None
        } else {
            Some(FetchFailure::Transport)
        }
    }

    /// Judges the status of a token reply before its body is read: a status
    /// from 200 to 299 is no failure, any other fails the fetch as
    /// `Transport`, whatever the body holds.
    pub fn from_status(status: u16) -> (failure: Option<FetchFailure>)
        ensures
            failure == Self::status_failure(status),
    {
        if 200 <= status && status < 300 {
            None
        } else {
            Some(FetchFailure::Transport)
        }
    }

    /// The error a caller sees for this failure.
    pub fn to_error(self) -> (e: SdkError)
        ensures
            e == self.error(),
    {
        match self {
            FetchFailure::Transport => SdkError::TransportError,
            FetchFailure::Decode => SdkError::DeserializationError,
        }
    }
}

} // verus!
