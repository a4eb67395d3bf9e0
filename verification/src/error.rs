//! The failures that composing a request, parsing a response or running an
//! exchange can end in.
use vstd::prelude::*;
use vstd::std_specs::convert::FromSpecImpl;
use crate::definitions::NegativeResponseCode;

verus! {

/// Failures of the transport below the protocol.
#[derive(Debug, Clone, Copy, PartialEq, Eq, Structural)]
pub enum UdsCommunicationError {
    FailedToFindCanDevice,
    SocketCanIOError,
    StdIOError,
    GeneralError,
    NotImplementedError,
    SocketCreationError,
}

/// What a negative response says: the service that the server rejected and
/// its reason.
#[derive(Debug, Clone, Copy, PartialEq, Eq, Structural)]
pub struct NrcData {
    pub rejected_sid: u8,
    pub nrc: NegativeResponseCode,
}

/// Every way in which a request or a response can fail.
///
/// Each variant carries what is needed to see the failure without running
/// the exchange again: the mismatched values, or the message as received.
#[derive(Debug, PartialEq)]
#[allow(inconsistent_fields)]
pub enum UdsError {
    /// The response opens with another service identifier than expected.
    SidMismatch { expected: u8, received: u8, raw_message: Vec<u8> },
    /// A data identifier in the response is not the one requested at that
    /// place.
    DidMismatch { expected: u16, received: u16, raw_message: Vec<u8> },
    /// The response ends before all fields that it must hold.
    InvalidLength { raw_message: Vec<u8> },
    /// The server answered with a negative response.
    NRC { nrc: NrcData },
    /// The server answered with a negative response whose code is unknown.
    UnknownNRC { rejected_sid: u8, unknown_nrc: u8 },
    /// The response holds no byte at all.
    ResponseEmpty,
    /// The subfunction byte stands for no known report type.
    UnsupportedSubfunction { unsupported_subfunction: u8 },
    /// The arguments cannot be encoded, or the decoded subfunction does not
    /// belong to the expected shape of response.
    InvalidArgument,
    /// The response is long enough, but a byte in it has no meaning.
    ResponseIncorrect { raw_message: Vec<u8> },
    /// The service is not available yet.
    NotImplemented,
    /// The request to be sent holds no byte at all.
    RequestEmpty,
    /// The transport failed.
    CommunicationError { error: UdsCommunicationError },
}

/// `UdsError` as a mathematical value: messages are sequences of bytes.
#[allow(inconsistent_fields)]
pub enum UdsErrorView {
    SidMismatch { expected: u8, received: u8, raw_message: Seq<u8> },
    DidMismatch { expected: u16, received: u16, raw_message: Seq<u8> },
    InvalidLength { raw_message: Seq<u8> },
    NRC { nrc: NrcData },
    UnknownNRC { rejected_sid: u8, unknown_nrc: u8 },
    ResponseEmpty,
    UnsupportedSubfunction { unsupported_subfunction: u8 },
    InvalidArgument,
    ResponseIncorrect { raw_message: Seq<u8> },
    NotImplemented,
    RequestEmpty,
    CommunicationError { error: UdsCommunicationError },
}

impl View for UdsError {
    type V = UdsErrorView;

    open spec fn view(&self) -> UdsErrorView {
        match self {
            UdsError::SidMismatch { expected, received, raw_message } => UdsErrorView::SidMismatch {
                expected: *expected,
                received: *received,
                raw_message: raw_message@,
            },
            UdsError::DidMismatch { expected, received, raw_message } => UdsErrorView::DidMismatch {
                expected: *expected,
                received: *received,
                raw_message: raw_message@,
            },
            UdsError::InvalidLength { raw_message } => UdsErrorView::InvalidLength {
                raw_message: raw_message@,
            },
            UdsError::NRC { nrc } => UdsErrorView::NRC { nrc: *nrc },
            UdsError::UnknownNRC { rejected_sid, unknown_nrc } => UdsErrorView::UnknownNRC {
                rejected_sid: *rejected_sid,
                unknown_nrc: *unknown_nrc,
            },
            UdsError::ResponseEmpty => UdsErrorView::ResponseEmpty,
            UdsError::UnsupportedSubfunction {
                unsupported_subfunction,
            } => UdsErrorView::UnsupportedSubfunction {
                unsupported_subfunction: *unsupported_subfunction,
            },
            UdsError::InvalidArgument => UdsErrorView::InvalidArgument,
            UdsError::ResponseIncorrect { raw_message } => UdsErrorView::ResponseIncorrect {
                raw_message: raw_message@,
            },
            UdsError::NotImplemented => UdsErrorView::NotImplemented,
            UdsError::RequestEmpty => UdsErrorView::RequestEmpty,
            UdsError::CommunicationError { error } => UdsErrorView::CommunicationError {
                error: *error,
            },
        }
    }
}

impl From<UdsCommunicationError> for UdsError {
    /// A failure of the transport, as a failure of the exchange.
    fn from(error: UdsCommunicationError) -> (result: UdsError)
        ensures
            result@ == (UdsErrorView::CommunicationError { error }),
    {
        UdsError::CommunicationError { error }
    }
}

impl FromSpecImpl<UdsCommunicationError> for UdsError {
    open spec fn obeys_from_spec() -> bool {
        true
    }

    open spec fn from_spec(error: UdsCommunicationError) -> UdsError {
        UdsError::CommunicationError { error }
    }
}

} // verus!
