//! Client side of the Unified Diagnostic Services protocol (ISO 14229-1):
//! request composition, response parsing, negative response handling and
//! the decisions of one request/response exchange, without any I/O.
//!
//! Every service has a function that composes its request and one that
//! parses its positive response; both work on bytes alone. `UdsClient`
//! decides what an exchange does next: send, receive, send again, wait on,
//! or finish. The transport that carries the bytes is the caller's.
pub mod clear_diagnostic_information;
pub mod client;
pub mod definitions;
pub mod diagnostic_session_control;
pub mod ecu_reset;
pub mod error;
pub mod negative_response;
pub mod read_data_by_identifier;
pub mod read_dtc_information;
pub mod read_memory_by_address;
pub mod response;
pub mod wire;
pub mod write_data_by_identifier;

pub use crate::clear_diagnostic_information::{
    compose_clear_diagnostic_information_request, parse_clear_diagnostic_information_response,
    CLEAR_DIAGNOSTIC_INFORMATION_SID,
};
pub use crate::client::{
    Action, ActionView, Exchange, ExchangeState, RetryPolicy, TransportEvent, TransportEventView,
    UdsClient,
};
pub use crate::definitions::{
    from_received_sid, to_received_sid, NegativeResponseCode, ServiceIdentifier,
    NEGATIVE_RESPONSE_SID, SEND_RECEIVE_SID_OFFSET,
};
pub use crate::diagnostic_session_control::{
    compose_diagnostic_session_control_request, parse_diagnostic_session_control_response,
    DiagnosticSessionControlResponse, DIAGNOSTIC_SESSION_CONTROL_SID,
};
pub use crate::ecu_reset::{
    compose_ecu_reset_request, parse_ecu_reset_response, EcuResetResponse, ResetType,
    ECU_RESET_SID,
};
pub use crate::error::{NrcData, UdsCommunicationError, UdsError, UdsErrorView};
pub use crate::negative_response::parse_for_error;
pub use crate::read_data_by_identifier::{
    compose_read_data_by_identifier_request, compose_read_data_by_identifier_tuple_request,
    parse_read_data_by_identifier_response, parse_read_data_by_identifier_tuple_response,
    parse_read_data_by_identifiers_response, DataRecord, DataRecordView,
    ReadDataByIdentifierResponse, ReadDataByIdentifierResponseView, READ_DATA_BY_IDENTIFIER_SID,
    TO_END_OF_MESSAGE,
};
pub use crate::read_dtc_information::{
    compose_report_dtc_ext_data_by_dtc_number_request, compose_report_dtc_snapshot_request,
    compose_report_number_of_dtc_by_status_mask_request, compose_request_short,
    parse_report_dtc_ext_data_by_dtc_number_response,
    parse_report_dtc_snapshot_record_by_dtc_number_response, parse_report_dtcs,
    parse_report_number_of_dtc_by_status_mask_response, DTCAndStatusRecord, DTCFormat,
    ReadDTCInformationResponse, ReadDTCInformationResponseView, ReportDTCSnapshotRecordByDTCNumber,
    ReportDTCsResponse, ReportNumberOfDTCByMaskResponse, ReportPayload, SnapshotData,
    SnapshotRecord, SubFunction, READ_DTC_INFORMATION_SID,
};
pub use crate::read_memory_by_address::{
    convert_from_simple_to_normal, formulate_request, parse_response,
    ReadMemoryByAddressResponse, ReadMemoryByAddressResponseView, MAX_FIELD_WIDTH,
    READ_MEMORY_BY_ADDRESS_SID,
};
pub use crate::response::{
    DataFormat, DataFormatView, EcuResponseResult, ResponseOutcome, UdsResponse, UdsResponseView,
};
pub use crate::write_data_by_identifier::{
    compose_write_data_by_identifier_request, parse_write_data_by_identifier_response,
    WriteDataByIdentifierResponse, WRITE_DATA_BY_IDENTIFIER_SID,
};
