//! The typed responses of all services.
use vstd::prelude::*;
use vstd::slice::slice_to_vec;
use crate::definitions::SEND_RECEIVE_SID_OFFSET;
use crate::diagnostic_session_control::DiagnosticSessionControlResponse;
use crate::ecu_reset::EcuResetResponse;
use crate::error::{UdsError, UdsErrorView};
use crate::read_data_by_identifier::{
    ReadDataByIdentifierResponse, ReadDataByIdentifierResponseView,
};
use crate::read_dtc_information::{ReadDTCInformationResponse, ReadDTCInformationResponseView};
use crate::read_memory_by_address::{ReadMemoryByAddressResponse, ReadMemoryByAddressResponseView};
use crate::write_data_by_identifier::WriteDataByIdentifierResponse;

verus! {

/// A response either taken apart into its fields, or, where the message
/// alone does not say where its fields end, the bytes after the service
/// identifier as they came.
#[derive(Debug, PartialEq)]
pub enum DataFormat<T> {
    Parsed(T),
    Raw(Vec<u8>),
}

/// `DataFormat` as a mathematical value.
pub enum DataFormatView<V> {
    Parsed(V),
    Raw(Seq<u8>),
}

impl<T: View> View for DataFormat<T> {
    type V = DataFormatView<T::V>;

    open spec fn view(&self) -> DataFormatView<T::V> {
        match self {
            DataFormat::Parsed(parsed) => DataFormatView::Parsed(parsed@),
            DataFormat::Raw(bytes) => DataFormatView::Raw(bytes@),
        }
    }
}

/// The positive response of a service.
#[derive(Debug, PartialEq)]
pub enum UdsResponse {
    EcuReset(DataFormat<EcuResetResponse>),
    ReadDataByIdentifier(DataFormat<ReadDataByIdentifierResponse>),
    ReadMemoryByAddress(DataFormat<ReadMemoryByAddressResponse>),
    ReadDTCInformation(DataFormat<ReadDTCInformationResponse>),
    ClearDiagnosticInformation,
    WriteDataByIdentifier(DataFormat<WriteDataByIdentifierResponse>),
    DiagnosticSessionControl(DataFormat<DiagnosticSessionControlResponse>),
}

/// `UdsResponse` as a mathematical value.
pub enum UdsResponseView {
    EcuReset(DataFormatView<EcuResetResponse>),
    ReadDataByIdentifier(DataFormatView<ReadDataByIdentifierResponseView>),
    ReadMemoryByAddress(DataFormatView<ReadMemoryByAddressResponseView>),
    ReadDTCInformation(DataFormatView<ReadDTCInformationResponseView>),
    ClearDiagnosticInformation,
    WriteDataByIdentifier(DataFormatView<WriteDataByIdentifierResponse>),
    DiagnosticSessionControl(DataFormatView<DiagnosticSessionControlResponse>),
}

impl View for UdsResponse {
    type V = UdsResponseView;

    open spec fn view(&self) -> UdsResponseView {
        match self {
            UdsResponse::EcuReset(format) => UdsResponseView::EcuReset(format@),
            UdsResponse::ReadDataByIdentifier(format) => UdsResponseView::ReadDataByIdentifier(
                format@,
            ),
            UdsResponse::ReadMemoryByAddress(format) => UdsResponseView::ReadMemoryByAddress(
                format@,
            ),
            UdsResponse::ReadDTCInformation(format) => UdsResponseView::ReadDTCInformation(format@),
            UdsResponse::ClearDiagnosticInformation => UdsResponseView::ClearDiagnosticInformation,
            UdsResponse::WriteDataByIdentifier(format) => UdsResponseView::WriteDataByIdentifier(
                format@,
            ),
            UdsResponse::DiagnosticSessionControl(
                format,
            ) => UdsResponseView::DiagnosticSessionControl(format@),
        }
    }
}

/// What parsing a response ends in.
pub type EcuResponseResult = Result<UdsResponse, UdsError>;

/// What parsing a response ends in, as a mathematical value.
pub type ResponseOutcome = Result<UdsResponseView, UdsErrorView>;

/// The mathematical value of a parser's result.
pub open spec fn outcome(result: EcuResponseResult) -> ResponseOutcome {
    match result {
        Ok(response) => Ok(response@),
        Err(error) => Err(error@),
    }
}

/// The identifier that opens the positive response to a request of the
/// service `request_sid`.
pub open spec fn positive_response_sid(request_sid: u8) -> u8 {
    (request_sid + SEND_RECEIVE_SID_OFFSET) as u8
}

/// The failure of a response that opens with another identifier than the
/// positive response to `request_sid`: it names both identifiers and
/// carries the whole message.
pub open spec fn sid_mismatch(raw_response: Seq<u8>, request_sid: u8) -> UdsErrorView {
    UdsErrorView::SidMismatch {
        expected: positive_response_sid(request_sid),
        received: raw_response[0],
        raw_message: raw_response,
    }
}

/// What the first byte of a response alone decides, for every service: an
/// empty response fails with `ResponseEmpty`, one that opens with another
/// identifier than the positive response to `request_sid` with
/// `SidMismatch`. `None` where the first byte is as expected.
pub open spec fn header_error(raw_response: Seq<u8>, request_sid: u8) -> Option<UdsErrorView> {
    if raw_response.len() == 0 {
        Some(UdsErrorView::ResponseEmpty)
    } else if raw_response[0] != positive_response_sid(request_sid) {
        Some(sid_mismatch(raw_response, request_sid))
    } else {
        None
    }
}

/// Checks the first byte of a response to a request of the service
/// `request_sid`.
pub(crate) fn check_header(raw_response: &[u8], request_sid: u8) -> (result: Result<(), UdsError>)
    requires
        request_sid <= u8::MAX - SEND_RECEIVE_SID_OFFSET,
    ensures
        match result {
            Ok(()) => header_error(raw_response@, request_sid) is None,
            Err(error) => header_error(raw_response@, request_sid) == Some(error@),
        },
{
    if raw_response.len() == 0 {
        return Err(UdsError::ResponseEmpty);
    }
    let expected: u8 = request_sid + SEND_RECEIVE_SID_OFFSET;
    let received: u8 = raw_response[0];
    if received != expected {
        return Err(
            UdsError::SidMismatch { expected, received, raw_message: slice_to_vec(raw_response) },
        );
    }
    Ok(())
}

/// The failure of a response that ends before its last mandatory field.
pub(crate) fn invalid_length(raw_response: &[u8]) -> (error: UdsError)
    ensures
        error@ == (UdsErrorView::InvalidLength { raw_message: raw_response@ }),
{
    UdsError::InvalidLength { raw_message: slice_to_vec(raw_response) }
}

/// The failure of a response in which a byte has no meaning.
pub(crate) fn response_incorrect(raw_response: &[u8]) -> (error: UdsError)
    ensures
        error@ == (UdsErrorView::ResponseIncorrect { raw_message: raw_response@ }),
{
    UdsError::ResponseIncorrect { raw_message: slice_to_vec(raw_response) }
}

} // verus!
