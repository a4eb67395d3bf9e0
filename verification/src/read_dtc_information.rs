//! ReadDTCInformation (0x19): reports on the trouble codes that the server
//! has stored. One subfunction byte selects the report; the reports share a
//! few shapes of request and response.
use vstd::prelude::*;
use vstd::slice::{slice_subrange, slice_to_vec};
use vstd::std_specs::convert::FromSpecImpl;
use vstd::std_specs::convert::TryFromSpecImpl;
use crate::definitions::SEND_RECEIVE_SID_OFFSET;
use crate::error::{UdsError, UdsErrorView};
use crate::response::{
    check_header, header_error, invalid_length, outcome, positive_response_sid,
    response_incorrect, sid_mismatch, DataFormat, DataFormatView, EcuResponseResult,
    ResponseOutcome, UdsResponse, UdsResponseView,
};
use crate::wire::{
    lemma_u16_round_trip, lemma_u24_round_trip, read_u16_be, read_u24_be, u16_be_bytes,
    u16_from_be, u24_be_bytes, u24_from_be,
};

verus! {

/// Service identifier of ReadDTCInformation requests.
pub const READ_DTC_INFORMATION_SID: u8 = 0x19;

/// The report that a ReadDTCInformation request asks for.
#[derive(Debug, Clone, Copy, PartialEq, Eq, Structural)]
pub enum SubFunction {
    ReportNumberOfDTCbyStatusMask,
    ReportDTCByStatusMask,
    ReportDTCSnapshotIdentification,
    ReportDTCSnapshotRecordByDTCNumber,
    ReportDTCStoredDataByRecordNumber,
    ReportDTCExtDataRecordByDTCNumber,
    ReportNumberOfDTCBySeverityMaskRecord,
    ReportDTCBySeverityMaskRecord,
    ReportSeverityInformationOfDTC,
    ReportSupportedDTC,
    ReportFirstTestFailedDTC,
    ReportFirstConfirmedDTC,
    ReportMostRecentTestFailedDTC,
    ReportMostRecentConfirmedDTC,
    ReportMirrorMemoryDTCByStatusMask,
    ReportMirrorMemoryDTCExtDataRecordByDTCNumber,
    ReportNumberOfMirrorMemoryDTCByStatusMask,
    ReportNumberOfEmissionsOBDDTCByStatusMask,
    ReportEmissionsOBDDTCByStatusMask,
    ReportDTCFaultDetectionCounter,
    ReportDTCWithPermanentStatus,
    ReportDTCExtDataRecordByRecordNumber,
    ReportUserDefMemoryDTCByStatusMask,
    ReportUserDefMemoryDTCSnapshotRecordByDTCNumber,
    ReportUserDefMemoryDTCExtDataRecordByDTCNumber,
    ReportWWHOBDDTCByMaskRecord,
    ReportWWHOBDDTCWithPermanentStatus,
}

impl SubFunction {
    /// The byte that stands for this value on the wire.
    pub open spec fn spec_to_u8(self) -> u8 {
        match self {
            SubFunction::ReportNumberOfDTCbyStatusMask => 0x01,
            SubFunction::ReportDTCByStatusMask => 0x02,
            SubFunction::ReportDTCSnapshotIdentification => 0x03,
            SubFunction::ReportDTCSnapshotRecordByDTCNumber => 0x04,
            SubFunction::ReportDTCStoredDataByRecordNumber => 0x05,
            SubFunction::ReportDTCExtDataRecordByDTCNumber => 0x06,
            SubFunction::ReportNumberOfDTCBySeverityMaskRecord => 0x07,
            SubFunction::ReportDTCBySeverityMaskRecord => 0x08,
            SubFunction::ReportSeverityInformationOfDTC => 0x09,
            SubFunction::ReportSupportedDTC => 0x0A,
            SubFunction::ReportFirstTestFailedDTC => 0x0B,
            SubFunction::ReportFirstConfirmedDTC => 0x0C,
            SubFunction::ReportMostRecentTestFailedDTC => 0x0D,
            SubFunction::ReportMostRecentConfirmedDTC => 0x0E,
            SubFunction::ReportMirrorMemoryDTCByStatusMask => 0x0F,
            SubFunction::ReportMirrorMemoryDTCExtDataRecordByDTCNumber => 0x10,
            SubFunction::ReportNumberOfMirrorMemoryDTCByStatusMask => 0x11,
            SubFunction::ReportNumberOfEmissionsOBDDTCByStatusMask => 0x12,
            SubFunction::ReportEmissionsOBDDTCByStatusMask => 0x13,
            SubFunction::ReportDTCFaultDetectionCounter => 0x14,
            SubFunction::ReportDTCWithPermanentStatus => 0x15,
            SubFunction::ReportDTCExtDataRecordByRecordNumber => 0x16,
            SubFunction::ReportUserDefMemoryDTCByStatusMask => 0x17,
            SubFunction::ReportUserDefMemoryDTCSnapshotRecordByDTCNumber => 0x18,
            SubFunction::ReportUserDefMemoryDTCExtDataRecordByDTCNumber => 0x19,
            SubFunction::ReportWWHOBDDTCByMaskRecord => 0x42,
            SubFunction::ReportWWHOBDDTCWithPermanentStatus => 0x55,
        }
    }

    /// The value that a byte stands for, if it stands for one.
    pub open spec fn spec_from_u8(number: u8) -> Option<SubFunction> {
        match number {
            0x01 => Some(SubFunction::ReportNumberOfDTCbyStatusMask),
            0x02 => Some(SubFunction::ReportDTCByStatusMask),
            0x03 => Some(SubFunction::ReportDTCSnapshotIdentification),
            0x04 => Some(SubFunction::ReportDTCSnapshotRecordByDTCNumber),
            0x05 => Some(SubFunction::ReportDTCStoredDataByRecordNumber),
            0x06 => Some(SubFunction::ReportDTCExtDataRecordByDTCNumber),
            0x07 => Some(SubFunction::ReportNumberOfDTCBySeverityMaskRecord),
            0x08 => Some(SubFunction::ReportDTCBySeverityMaskRecord),
            0x09 => Some(SubFunction::ReportSeverityInformationOfDTC),
            0x0A => Some(SubFunction::ReportSupportedDTC),
            0x0B => Some(SubFunction::ReportFirstTestFailedDTC),
            0x0C => Some(SubFunction::ReportFirstConfirmedDTC),
            0x0D => Some(SubFunction::ReportMostRecentTestFailedDTC),
            0x0E => Some(SubFunction::ReportMostRecentConfirmedDTC),
            0x0F => Some(SubFunction::ReportMirrorMemoryDTCByStatusMask),
            0x10 => Some(SubFunction::ReportMirrorMemoryDTCExtDataRecordByDTCNumber),
            0x11 => Some(SubFunction::ReportNumberOfMirrorMemoryDTCByStatusMask),
            0x12 => Some(SubFunction::ReportNumberOfEmissionsOBDDTCByStatusMask),
            0x13 => Some(SubFunction::ReportEmissionsOBDDTCByStatusMask),
            0x14 => Some(SubFunction::ReportDTCFaultDetectionCounter),
            0x15 => Some(SubFunction::ReportDTCWithPermanentStatus),
            0x16 => Some(SubFunction::ReportDTCExtDataRecordByRecordNumber),
            0x17 => Some(SubFunction::ReportUserDefMemoryDTCByStatusMask),
            0x18 => Some(SubFunction::ReportUserDefMemoryDTCSnapshotRecordByDTCNumber),
            0x19 => Some(SubFunction::ReportUserDefMemoryDTCExtDataRecordByDTCNumber),
            0x42 => Some(SubFunction::ReportWWHOBDDTCByMaskRecord),
            0x55 => Some(SubFunction::ReportWWHOBDDTCWithPermanentStatus),
            _ => None,
        }
    }

    /// Encoding and then decoding gives the value back.
    pub proof fn lemma_from_to_u8(self)
        ensures
            SubFunction::spec_from_u8(self.spec_to_u8()) == Some(self),
    {
    }

    /// A byte that decodes to a value is the encoding of that value.
    pub proof fn lemma_to_from_u8(number: u8)
        ensures
            SubFunction::spec_from_u8(number) matches Some(value) ==> value.spec_to_u8() == number,
    {
    }
}

impl TryFrom<u8> for SubFunction {
    type Error = u8;

    /// Decodes a byte; an unrecognised byte is handed back as the error.
    fn try_from(number: u8) -> (result: Result<SubFunction, u8>) {
        match number {
            0x01 => Ok(SubFunction::ReportNumberOfDTCbyStatusMask),
            0x02 => Ok(SubFunction::ReportDTCByStatusMask),
            0x03 => Ok(SubFunction::ReportDTCSnapshotIdentification),
            0x04 => Ok(SubFunction::ReportDTCSnapshotRecordByDTCNumber),
            0x05 => Ok(SubFunction::ReportDTCStoredDataByRecordNumber),
            0x06 => Ok(SubFunction::ReportDTCExtDataRecordByDTCNumber),
            0x07 => Ok(SubFunction::ReportNumberOfDTCBySeverityMaskRecord),
            0x08 => Ok(SubFunction::ReportDTCBySeverityMaskRecord),
            0x09 => Ok(SubFunction::ReportSeverityInformationOfDTC),
            0x0A => Ok(SubFunction::ReportSupportedDTC),
            0x0B => Ok(SubFunction::ReportFirstTestFailedDTC),
            0x0C => Ok(SubFunction::ReportFirstConfirmedDTC),
            0x0D => Ok(SubFunction::ReportMostRecentTestFailedDTC),
            0x0E => Ok(SubFunction::ReportMostRecentConfirmedDTC),
            0x0F => Ok(SubFunction::ReportMirrorMemoryDTCByStatusMask),
            0x10 => Ok(SubFunction::ReportMirrorMemoryDTCExtDataRecordByDTCNumber),
            0x11 => Ok(SubFunction::ReportNumberOfMirrorMemoryDTCByStatusMask),
            0x12 => Ok(SubFunction::ReportNumberOfEmissionsOBDDTCByStatusMask),
            0x13 => Ok(SubFunction::ReportEmissionsOBDDTCByStatusMask),
            0x14 => Ok(SubFunction::ReportDTCFaultDetectionCounter),
            0x15 => Ok(SubFunction::ReportDTCWithPermanentStatus),
            0x16 => Ok(SubFunction::ReportDTCExtDataRecordByRecordNumber),
            0x17 => Ok(SubFunction::ReportUserDefMemoryDTCByStatusMask),
            0x18 => Ok(SubFunction::ReportUserDefMemoryDTCSnapshotRecordByDTCNumber),
            0x19 => Ok(SubFunction::ReportUserDefMemoryDTCExtDataRecordByDTCNumber),
            0x42 => Ok(SubFunction::ReportWWHOBDDTCByMaskRecord),
            0x55 => Ok(SubFunction::ReportWWHOBDDTCWithPermanentStatus),
            _ => Err(number),
        }
    }
}

impl TryFromSpecImpl<u8> for SubFunction {
    open spec fn obeys_try_from_spec() -> bool {
        true
    }

    open spec fn try_from_spec(number: u8) -> Result<SubFunction, u8> {
        match SubFunction::spec_from_u8(number) {
            Some(value) => Ok(value),
            None => Err(number),
        }
    }
}

impl From<SubFunction> for u8 {
    /// Encodes the value as its byte.
    fn from(value: SubFunction) -> (number: u8) {
        match value {
            SubFunction::ReportNumberOfDTCbyStatusMask => 0x01,
            SubFunction::ReportDTCByStatusMask => 0x02,
            SubFunction::ReportDTCSnapshotIdentification => 0x03,
            SubFunction::ReportDTCSnapshotRecordByDTCNumber => 0x04,
            SubFunction::ReportDTCStoredDataByRecordNumber => 0x05,
            SubFunction::ReportDTCExtDataRecordByDTCNumber => 0x06,
            SubFunction::ReportNumberOfDTCBySeverityMaskRecord => 0x07,
            SubFunction::ReportDTCBySeverityMaskRecord => 0x08,
            SubFunction::ReportSeverityInformationOfDTC => 0x09,
            SubFunction::ReportSupportedDTC => 0x0A,
            SubFunction::ReportFirstTestFailedDTC => 0x0B,
            SubFunction::ReportFirstConfirmedDTC => 0x0C,
            SubFunction::ReportMostRecentTestFailedDTC => 0x0D,
            SubFunction::ReportMostRecentConfirmedDTC => 0x0E,
            SubFunction::ReportMirrorMemoryDTCByStatusMask => 0x0F,
            SubFunction::ReportMirrorMemoryDTCExtDataRecordByDTCNumber => 0x10,
            SubFunction::ReportNumberOfMirrorMemoryDTCByStatusMask => 0x11,
            SubFunction::ReportNumberOfEmissionsOBDDTCByStatusMask => 0x12,
            SubFunction::ReportEmissionsOBDDTCByStatusMask => 0x13,
            SubFunction::ReportDTCFaultDetectionCounter => 0x14,
            SubFunction::ReportDTCWithPermanentStatus => 0x15,
            SubFunction::ReportDTCExtDataRecordByRecordNumber => 0x16,
            SubFunction::ReportUserDefMemoryDTCByStatusMask => 0x17,
            SubFunction::ReportUserDefMemoryDTCSnapshotRecordByDTCNumber => 0x18,
            SubFunction::ReportUserDefMemoryDTCExtDataRecordByDTCNumber => 0x19,
            SubFunction::ReportWWHOBDDTCByMaskRecord => 0x42,
            SubFunction::ReportWWHOBDDTCWithPermanentStatus => 0x55,
        }
    }
}

impl FromSpecImpl<SubFunction> for u8 {
    open spec fn obeys_from_spec() -> bool {
        true
    }

    open spec fn from_spec(value: SubFunction) -> u8 {
        value.spec_to_u8()
    }
}

/// The standard that the trouble codes of a report follow.
#[derive(Debug, Clone, Copy, PartialEq, Eq, Structural)]
#[allow(non_camel_case_types)]
pub enum DTCFormat {
    SAE_J2012_DA_DTCFormat_00,
    ISO_14229_1_DTCFormat,
    SAE_J1939_73_DTCFormat,
    ISO_11992_4_DTCFormat,
    SAE_J2012_DA_DTCFormat_04,
}

impl DTCFormat {
    /// The byte that stands for this value on the wire.
    pub open spec fn spec_to_u8(self) -> u8 {
        match self {
            DTCFormat::SAE_J2012_DA_DTCFormat_00 => 0x00,
            DTCFormat::ISO_14229_1_DTCFormat => 0x01,
            DTCFormat::SAE_J1939_73_DTCFormat => 0x02,
            DTCFormat::ISO_11992_4_DTCFormat => 0x03,
            DTCFormat::SAE_J2012_DA_DTCFormat_04 => 0x04,
        }
    }

    /// The value that a byte stands for, if it stands for one.
    pub open spec fn spec_from_u8(number: u8) -> Option<DTCFormat> {
        match number {
            0x00 => Some(DTCFormat::SAE_J2012_DA_DTCFormat_00),
            0x01 => Some(DTCFormat::ISO_14229_1_DTCFormat),
            0x02 => Some(DTCFormat::SAE_J1939_73_DTCFormat),
            0x03 => Some(DTCFormat::ISO_11992_4_DTCFormat),
            0x04 => Some(DTCFormat::SAE_J2012_DA_DTCFormat_04),
            _ => None,
        }
    }

    /// Encoding and then decoding gives the value back.
    pub proof fn lemma_from_to_u8(self)
        ensures
            DTCFormat::spec_from_u8(self.spec_to_u8()) == Some(self),
    {
    }

    /// A byte that decodes to a value is the encoding of that value.
    pub proof fn lemma_to_from_u8(number: u8)
        ensures
            DTCFormat::spec_from_u8(number) matches Some(value) ==> value.spec_to_u8() == number,
    {
    }
}

impl TryFrom<u8> for DTCFormat {
    type Error = u8;

    /// Decodes a byte; an unrecognised byte is handed back as the error.
    fn try_from(number: u8) -> (result: Result<DTCFormat, u8>) {
        match number {
            0x00 => Ok(DTCFormat::SAE_J2012_DA_DTCFormat_00),
            0x01 => Ok(DTCFormat::ISO_14229_1_DTCFormat),
            0x02 => Ok(DTCFormat::SAE_J1939_73_DTCFormat),
            0x03 => Ok(DTCFormat::ISO_11992_4_DTCFormat),
            0x04 => Ok(DTCFormat::SAE_J2012_DA_DTCFormat_04),
            _ => Err(number),
        }
    }
}

impl TryFromSpecImpl<u8> for DTCFormat {
    open spec fn obeys_try_from_spec() -> bool {
        true
    }

    open spec fn try_from_spec(number: u8) -> Result<DTCFormat, u8> {
        match DTCFormat::spec_from_u8(number) {
            Some(value) => Ok(value),
            None => Err(number),
        }
    }
}

impl From<DTCFormat> for u8 {
    /// Encodes the value as its byte.
    fn from(value: DTCFormat) -> (number: u8) {
        match value {
            DTCFormat::SAE_J2012_DA_DTCFormat_00 => 0x00,
            DTCFormat::ISO_14229_1_DTCFormat => 0x01,
            DTCFormat::SAE_J1939_73_DTCFormat => 0x02,
            DTCFormat::ISO_11992_4_DTCFormat => 0x03,
            DTCFormat::SAE_J2012_DA_DTCFormat_04 => 0x04,
        }
    }
}

impl FromSpecImpl<DTCFormat> for u8 {
    open spec fn obeys_from_spec() -> bool {
        true
    }

    open spec fn from_spec(value: DTCFormat) -> u8 {
        value.spec_to_u8()
    }
}

impl SubFunction {
    /// The reports that answer with a count of trouble codes.
    pub open spec fn reports_number_of_dtc(self) -> bool {
        match self {
            SubFunction::ReportNumberOfDTCbyStatusMask => true,
            SubFunction::ReportNumberOfDTCBySeverityMaskRecord => true,
            SubFunction::ReportNumberOfMirrorMemoryDTCByStatusMask => true,
            SubFunction::ReportNumberOfEmissionsOBDDTCByStatusMask => true,
            _ => false,
        }
    }

    /// The reports that answer with a list of trouble codes and their
    /// status.
    pub open spec fn reports_dtcs(self) -> bool {
        match self {
            SubFunction::ReportDTCByStatusMask => true,
            SubFunction::ReportSupportedDTC => true,
            SubFunction::ReportFirstTestFailedDTC => true,
            SubFunction::ReportFirstConfirmedDTC => true,
            SubFunction::ReportMostRecentTestFailedDTC => true,
            SubFunction::ReportMostRecentConfirmedDTC => true,
            SubFunction::ReportMirrorMemoryDTCByStatusMask => true,
            SubFunction::ReportEmissionsOBDDTCByStatusMask => true,
            SubFunction::ReportDTCWithPermanentStatus => true,
            _ => false,
        }
    }
}

/// A count of trouble codes, as the counting reports give it.
#[derive(Debug, Clone, Copy, PartialEq, Eq, Structural)]
pub struct ReportNumberOfDTCByMaskResponse {
    pub dtc_status_availability_mask: u8,
    pub dtc_format_identifier: DTCFormat,
    pub dtc_count: u16,
}

/// A trouble code with its status.
#[derive(Debug, Clone, Copy, PartialEq, Eq, Structural)]
pub struct DTCAndStatusRecord {
    /// The code holds 24 bits; the highest byte is zero.
    pub dtc: u32,
    pub status_of_dtc: u8,
}

/// A list of trouble codes, as the listing reports give it.
#[derive(Debug, PartialEq)]
pub struct ReportDTCsResponse {
    pub dtc_status_availability_mask: u8,
    pub dtc_and_status_records: Vec<DTCAndStatusRecord>,
}

/// `ReportDTCsResponse` as a mathematical value.
pub struct ReportDTCsResponseView {
    pub dtc_status_availability_mask: u8,
    pub dtc_and_status_records: Seq<DTCAndStatusRecord>,
}

impl View for ReportDTCsResponse {
    type V = ReportDTCsResponseView;

    open spec fn view(&self) -> ReportDTCsResponseView {
        ReportDTCsResponseView {
            dtc_status_availability_mask: self.dtc_status_availability_mask,
            dtc_and_status_records: self.dtc_and_status_records@,
        }
    }
}

/// The data that a snapshot holds for one data identifier.
#[derive(Debug, PartialEq)]
pub struct SnapshotData {
    pub data_identifier: u16,
    pub snapshot_data: Vec<u8>,
}

/// `SnapshotData` as a mathematical value.
pub struct SnapshotDataView {
    pub data_identifier: u16,
    pub snapshot_data: Seq<u8>,
}

impl View for SnapshotData {
    type V = SnapshotDataView;

    open spec fn view(&self) -> SnapshotDataView {
        SnapshotDataView {
            data_identifier: self.data_identifier,
            snapshot_data: self.snapshot_data@,
        }
    }
}

/// One snapshot of a trouble code.
#[derive(Debug, PartialEq)]
pub struct SnapshotRecord {
    pub dtc_snapshot_record_number: u8,
    pub dtc_snapshot_record_number_of_identifiers: u8,
    pub dtc_snapshot_record: Vec<SnapshotData>,
}

/// `SnapshotRecord` as a mathematical value.
pub struct SnapshotRecordView {
    pub dtc_snapshot_record_number: u8,
    pub dtc_snapshot_record_number_of_identifiers: u8,
    pub dtc_snapshot_record: Seq<SnapshotDataView>,
}

impl View for SnapshotRecord {
    type V = SnapshotRecordView;

    open spec fn view(&self) -> SnapshotRecordView {
        SnapshotRecordView {
            dtc_snapshot_record_number: self.dtc_snapshot_record_number,
            dtc_snapshot_record_number_of_identifiers:
                self.dtc_snapshot_record_number_of_identifiers,
            dtc_snapshot_record: self.dtc_snapshot_record@.map_values(|data: SnapshotData| data@),
        }
    }
}

/// The snapshots of one trouble code. Taking a response apart into this
/// form needs the server's data dictionary, so the parsers of this crate
/// hand such responses out undecoded.
#[derive(Debug, PartialEq)]
pub struct ReportDTCSnapshotRecordByDTCNumber {
    pub dtc_and_status_record: DTCAndStatusRecord,
    pub snapshot_records: Vec<SnapshotRecord>,
}

/// `ReportDTCSnapshotRecordByDTCNumber` as a mathematical value.
pub struct ReportDTCSnapshotRecordByDTCNumberView {
    pub dtc_and_status_record: DTCAndStatusRecord,
    pub snapshot_records: Seq<SnapshotRecordView>,
}

impl View for ReportDTCSnapshotRecordByDTCNumber {
    type V = ReportDTCSnapshotRecordByDTCNumberView;

    open spec fn view(&self) -> ReportDTCSnapshotRecordByDTCNumberView {
        ReportDTCSnapshotRecordByDTCNumberView {
            dtc_and_status_record: self.dtc_and_status_record,
            snapshot_records: self.snapshot_records@.map_values(
                |record: SnapshotRecord| record@,
            ),
        }
    }
}

/// Positive response to ReadDTCInformation: one variant for each report,
/// with the payload of the shape that the report answers in.
#[derive(Debug, PartialEq)]
pub enum ReadDTCInformationResponse {
    ReportNumberOfDTCbyStatusMask(ReportNumberOfDTCByMaskResponse),
    ReportDTCByStatusMask(ReportDTCsResponse),
    ReportDTCSnapshotIdentification,
    ReportDTCSnapshotRecordByDTCNumber(ReportDTCSnapshotRecordByDTCNumber),
    ReportDTCStoredDataByRecordNumber,
    ReportDTCExtDataRecordByDTCNumber,
    ReportNumberOfDTCBySeverityMaskRecord(ReportNumberOfDTCByMaskResponse),
    ReportDTCBySeverityMaskRecord,
    ReportSeverityInformationOfDTC,
    ReportSupportedDTC(ReportDTCsResponse),
    ReportFirstTestFailedDTC(ReportDTCsResponse),
    ReportFirstConfirmedDTC(ReportDTCsResponse),
    ReportMostRecentTestFailedDTC(ReportDTCsResponse),
    ReportMostRecentConfirmedDTC(ReportDTCsResponse),
    ReportMirrorMemoryDTCByStatusMask(ReportDTCsResponse),
    ReportMirrorMemoryDTCExtDataRecordByDTCNumber,
    ReportNumberOfMirrorMemoryDTCByStatusMask(ReportNumberOfDTCByMaskResponse),
    ReportNumberOfEmissionsOBDDTCByStatusMask(ReportNumberOfDTCByMaskResponse),
    ReportEmissionsOBDDTCByStatusMask(ReportDTCsResponse),
    ReportDTCFaultDetectionCounter,
    ReportDTCWithPermanentStatus(ReportDTCsResponse),
    ReportDTCExtDataRecordByRecordNumber,
    ReportUserDefMemoryDTCByStatusMask,
    ReportUserDefMemoryDTCSnapshotRecordByDTCNumber,
    ReportUserDefMemoryDTCExtDataRecordByDTCNumber,
    ReportWWHOBDDTCByMaskRecord,
    ReportWWHOBDDTCWithPermanentStatus,
}

/// What a report carries, by the shape of response.
pub enum ReportPayload {
    /// A count of trouble codes.
    NumberOfDTC(ReportNumberOfDTCByMaskResponse),
    /// A list of trouble codes.
    DTCs(ReportDTCsResponseView),
    /// The snapshots of one trouble code.
    Snapshot(ReportDTCSnapshotRecordByDTCNumberView),
    /// Nothing that this crate decodes.
    Nothing,
}

/// `ReadDTCInformationResponse` as a mathematical value: the report and
/// what it carries.
pub struct ReadDTCInformationResponseView {
    pub report_type: SubFunction,
    pub payload: ReportPayload,
}

impl ReadDTCInformationResponse {
    /// The report that this response answers.
    pub open spec fn report_type(&self) -> SubFunction {
        match self {
            ReadDTCInformationResponse::ReportNumberOfDTCbyStatusMask(_) => SubFunction::ReportNumberOfDTCbyStatusMask,
            ReadDTCInformationResponse::ReportDTCByStatusMask(_) => SubFunction::ReportDTCByStatusMask,
            ReadDTCInformationResponse::ReportDTCSnapshotIdentification => SubFunction::ReportDTCSnapshotIdentification,
            ReadDTCInformationResponse::ReportDTCSnapshotRecordByDTCNumber(_) => SubFunction::ReportDTCSnapshotRecordByDTCNumber,
            ReadDTCInformationResponse::ReportDTCStoredDataByRecordNumber => SubFunction::ReportDTCStoredDataByRecordNumber,
            ReadDTCInformationResponse::ReportDTCExtDataRecordByDTCNumber => SubFunction::ReportDTCExtDataRecordByDTCNumber,
            ReadDTCInformationResponse::ReportNumberOfDTCBySeverityMaskRecord(_) => SubFunction::ReportNumberOfDTCBySeverityMaskRecord,
            ReadDTCInformationResponse::ReportDTCBySeverityMaskRecord => SubFunction::ReportDTCBySeverityMaskRecord,
            ReadDTCInformationResponse::ReportSeverityInformationOfDTC => SubFunction::ReportSeverityInformationOfDTC,
            ReadDTCInformationResponse::ReportSupportedDTC(_) => SubFunction::ReportSupportedDTC,
            ReadDTCInformationResponse::ReportFirstTestFailedDTC(_) => SubFunction::ReportFirstTestFailedDTC,
            ReadDTCInformationResponse::ReportFirstConfirmedDTC(_) => SubFunction::ReportFirstConfirmedDTC,
            ReadDTCInformationResponse::ReportMostRecentTestFailedDTC(_) => SubFunction::ReportMostRecentTestFailedDTC,
            ReadDTCInformationResponse::ReportMostRecentConfirmedDTC(_) => SubFunction::ReportMostRecentConfirmedDTC,
            ReadDTCInformationResponse::ReportMirrorMemoryDTCByStatusMask(_) => SubFunction::ReportMirrorMemoryDTCByStatusMask,
            ReadDTCInformationResponse::ReportMirrorMemoryDTCExtDataRecordByDTCNumber => SubFunction::ReportMirrorMemoryDTCExtDataRecordByDTCNumber,
            ReadDTCInformationResponse::ReportNumberOfMirrorMemoryDTCByStatusMask(_) => SubFunction::ReportNumberOfMirrorMemoryDTCByStatusMask,
            ReadDTCInformationResponse::ReportNumberOfEmissionsOBDDTCByStatusMask(_) => SubFunction::ReportNumberOfEmissionsOBDDTCByStatusMask,
            ReadDTCInformationResponse::ReportEmissionsOBDDTCByStatusMask(_) => SubFunction::ReportEmissionsOBDDTCByStatusMask,
            ReadDTCInformationResponse::ReportDTCFaultDetectionCounter => SubFunction::ReportDTCFaultDetectionCounter,
            ReadDTCInformationResponse::ReportDTCWithPermanentStatus(_) => SubFunction::ReportDTCWithPermanentStatus,
            ReadDTCInformationResponse::ReportDTCExtDataRecordByRecordNumber => SubFunction::ReportDTCExtDataRecordByRecordNumber,
            ReadDTCInformationResponse::ReportUserDefMemoryDTCByStatusMask => SubFunction::ReportUserDefMemoryDTCByStatusMask,
            ReadDTCInformationResponse::ReportUserDefMemoryDTCSnapshotRecordByDTCNumber => SubFunction::ReportUserDefMemoryDTCSnapshotRecordByDTCNumber,
            ReadDTCInformationResponse::ReportUserDefMemoryDTCExtDataRecordByDTCNumber => SubFunction::ReportUserDefMemoryDTCExtDataRecordByDTCNumber,
            ReadDTCInformationResponse::ReportWWHOBDDTCByMaskRecord => SubFunction::ReportWWHOBDDTCByMaskRecord,
            ReadDTCInformationResponse::ReportWWHOBDDTCWithPermanentStatus => SubFunction::ReportWWHOBDDTCWithPermanentStatus,
        }
    }

    /// What this response carries.
    pub open spec fn payload(&self) -> ReportPayload {
        match self {
            ReadDTCInformationResponse::ReportNumberOfDTCbyStatusMask(count) => ReportPayload::NumberOfDTC(*count),
            ReadDTCInformationResponse::ReportDTCByStatusMask(list) => ReportPayload::DTCs(list@),
            ReadDTCInformationResponse::ReportDTCSnapshotRecordByDTCNumber(snapshots) => ReportPayload::Snapshot(
                snapshots@,
            ),
            ReadDTCInformationResponse::ReportNumberOfDTCBySeverityMaskRecord(count) => ReportPayload::NumberOfDTC(*count),
            ReadDTCInformationResponse::ReportSupportedDTC(list) => ReportPayload::DTCs(list@),
            ReadDTCInformationResponse::ReportFirstTestFailedDTC(list) => ReportPayload::DTCs(list@),
            ReadDTCInformationResponse::ReportFirstConfirmedDTC(list) => ReportPayload::DTCs(list@),
            ReadDTCInformationResponse::ReportMostRecentTestFailedDTC(list) => ReportPayload::DTCs(list@),
            ReadDTCInformationResponse::ReportMostRecentConfirmedDTC(list) => ReportPayload::DTCs(list@),
            ReadDTCInformationResponse::ReportMirrorMemoryDTCByStatusMask(list) => ReportPayload::DTCs(list@),
            ReadDTCInformationResponse::ReportNumberOfMirrorMemoryDTCByStatusMask(count) => ReportPayload::NumberOfDTC(*count),
            ReadDTCInformationResponse::ReportNumberOfEmissionsOBDDTCByStatusMask(count) => ReportPayload::NumberOfDTC(*count),
            ReadDTCInformationResponse::ReportEmissionsOBDDTCByStatusMask(list) => ReportPayload::DTCs(list@),
            ReadDTCInformationResponse::ReportDTCWithPermanentStatus(list) => ReportPayload::DTCs(list@),
            _ => ReportPayload::Nothing,
        }
    }
}

impl View for ReadDTCInformationResponse {
    type V = ReadDTCInformationResponseView;

    open spec fn view(&self) -> ReadDTCInformationResponseView {
        ReadDTCInformationResponseView {
            report_type: self.report_type(),
            payload: self.payload(),
        }
    }
}

/// The record that begins at byte `3 + 4 * index` of a listing report:
/// three bytes of trouble code, then its status.
pub open spec fn dtc_record_at(raw_response: Seq<u8>, index: int) -> DTCAndStatusRecord {
    DTCAndStatusRecord {
        dtc: u24_from_be(
            raw_response[3 + 4 * index],
            raw_response[3 + 4 * index + 1],
            raw_response[3 + 4 * index + 2],
        ),
        status_of_dtc: raw_response[3 + 4 * index + 3],
    }
}

/// The records of a listing report: all the four-byte records that follow
/// its first three bytes.
pub open spec fn dtc_records(raw_response: Seq<u8>) -> Seq<DTCAndStatusRecord> {
    Seq::new(((raw_response.len() - 3) / 4) as nat, |index: int| dtc_record_at(raw_response, index))
}

/// What a listing report stands for.
///
/// The message is the response identifier, the subfunction, the status
/// availability mask and then records of four bytes to the end of the
/// message. A message that ends within the first three bytes or within a
/// record fails with `InvalidLength`; then a subfunction byte that stands
/// for no report fails with `ResponseIncorrect`, and one that stands for a
/// report of another shape with `InvalidArgument`.
pub open spec fn report_dtcs_response(raw_response: Seq<u8>) -> ResponseOutcome {
    if let Some(error) = header_error(raw_response, READ_DTC_INFORMATION_SID) {
        Err(error)
    } else if raw_response.len() < 3 || (raw_response.len() - 3) % 4 != 0 {
        Err(UdsErrorView::InvalidLength { raw_message: raw_response })
    } else {
        match SubFunction::spec_from_u8(raw_response[1]) {
            None => Err(UdsErrorView::ResponseIncorrect { raw_message: raw_response }),
            Some(report_type) => if report_type.reports_dtcs() {
                Ok(
                    UdsResponseView::ReadDTCInformation(
                        DataFormatView::Parsed(
                            ReadDTCInformationResponseView {
                                report_type,
                                payload: ReportPayload::DTCs(
                                    ReportDTCsResponseView {
                                        dtc_status_availability_mask: raw_response[2],
                                        dtc_and_status_records: dtc_records(raw_response),
                                    },
                                ),
                            },
                        ),
                    ),
                )
            } else {
                Err(UdsErrorView::InvalidArgument)
            },
        }
    }
}

/// Parses a listing report: the response to the subfunctions 0x02, 0x0A to
/// 0x0F, 0x13 and 0x15.
pub fn parse_report_dtcs(raw_response: &[u8]) -> (result: EcuResponseResult)
    ensures
        outcome(result) == report_dtcs_response(raw_response@),
        raw_response@.len() == 0 ==> outcome(result) == Err::<UdsResponseView, UdsErrorView>(
            UdsErrorView::ResponseEmpty,
        ),
        raw_response@.len() > 0 && raw_response@[0] != READ_DTC_INFORMATION_SID
            + SEND_RECEIVE_SID_OFFSET ==> outcome(result) == Err::<UdsResponseView, UdsErrorView>(
            sid_mismatch(raw_response@, READ_DTC_INFORMATION_SID),
        ),
{
    match check_header(raw_response, READ_DTC_INFORMATION_SID) {
        Err(error) => {
            return Err(error);
        },
        Ok(()) => {},
    }
    let len: usize = raw_response.len();
    if len < 3 {
        return Err(invalid_length(raw_response));
    }
    let report_type_byte: u8 = raw_response[1];
    let dtc_status_availability_mask: u8 = raw_response[2];
    let mut dtc_and_status_records: Vec<DTCAndStatusRecord> = Vec::new();
    let mut position: usize = 3;
    while position < len
        invariant
            len == raw_response@.len(),
            header_error(raw_response@, READ_DTC_INFORMATION_SID) is None,
            3 <= position <= len,
            (position - 3) % 4 == 0,
            dtc_and_status_records@.len() == (position - 3) / 4,
            forall|index: int|
                0 <= index < dtc_and_status_records@.len() ==> dtc_and_status_records@[index]
                    == dtc_record_at(raw_response@, index),
        decreases len - position,
    {
        if len - position < 4 {
            return Err(invalid_length(raw_response));
        }
        let dtc: u32 = read_u24_be(
            raw_response[position],
            raw_response[position + 1],
            raw_response[position + 2],
        );
        let status_of_dtc: u8 = raw_response[position + 3];
        dtc_and_status_records.push(DTCAndStatusRecord { dtc, status_of_dtc });
        position = position + 4;
    }
    assert(dtc_and_status_records@ =~= dtc_records(raw_response@));
    let parsed = ReportDTCsResponse { dtc_status_availability_mask, dtc_and_status_records };
    let sub_function = match SubFunction::try_from(report_type_byte) {
        Ok(sub_function) => sub_function,
        Err(_) => {
            return Err(response_incorrect(raw_response));
        },
    };
    let response = match sub_function {
        SubFunction::ReportDTCByStatusMask => ReadDTCInformationResponse::ReportDTCByStatusMask(
            parsed,
        ),
        SubFunction::ReportSupportedDTC => ReadDTCInformationResponse::ReportSupportedDTC(parsed),
        SubFunction::ReportFirstTestFailedDTC => {
            ReadDTCInformationResponse::ReportFirstTestFailedDTC(parsed)
        },
        SubFunction::ReportFirstConfirmedDTC => {
            ReadDTCInformationResponse::ReportFirstConfirmedDTC(parsed)
        },
        SubFunction::ReportMostRecentTestFailedDTC => {
            ReadDTCInformationResponse::ReportMostRecentTestFailedDTC(parsed)
        },
        SubFunction::ReportMostRecentConfirmedDTC => {
            ReadDTCInformationResponse::ReportMostRecentConfirmedDTC(parsed)
        },
        SubFunction::ReportMirrorMemoryDTCByStatusMask => {
            ReadDTCInformationResponse::ReportMirrorMemoryDTCByStatusMask(parsed)
        },
        SubFunction::ReportEmissionsOBDDTCByStatusMask => {
            ReadDTCInformationResponse::ReportEmissionsOBDDTCByStatusMask(parsed)
        },
        SubFunction::ReportDTCWithPermanentStatus => {
            ReadDTCInformationResponse::ReportDTCWithPermanentStatus(parsed)
        },
        _ => {
            return Err(UdsError::InvalidArgument);
        },
    };
    Ok(UdsResponse::ReadDTCInformation(DataFormat::Parsed(response)))
}

/// What a counting report stands for.
///
/// The message is the response identifier, the subfunction, the status
/// availability mask, the format of the trouble codes and their count in
/// two bytes. The fields are read from the left: the first one that the
/// message is too short for fails with `InvalidLength`, a subfunction or
/// format byte without meaning with `ResponseIncorrect`. At the end a
/// subfunction that stands for a report of another shape fails with
/// `InvalidArgument`.
pub open spec fn report_number_of_dtc_response(raw_response: Seq<u8>) -> ResponseOutcome {
    if let Some(error) = header_error(raw_response, READ_DTC_INFORMATION_SID) {
        Err(error)
    } else if raw_response.len() < 2 {
        Err(UdsErrorView::InvalidLength { raw_message: raw_response })
    } else if SubFunction::spec_from_u8(raw_response[1]) is None {
        Err(UdsErrorView::ResponseIncorrect { raw_message: raw_response })
    } else if raw_response.len() < 4 {
        Err(UdsErrorView::InvalidLength { raw_message: raw_response })
    } else if DTCFormat::spec_from_u8(raw_response[3]) is None {
        Err(UdsErrorView::ResponseIncorrect { raw_message: raw_response })
    } else if raw_response.len() < 6 {
        Err(UdsErrorView::InvalidLength { raw_message: raw_response })
    } else if !SubFunction::spec_from_u8(raw_response[1])->0.reports_number_of_dtc() {
        Err(UdsErrorView::InvalidArgument)
    } else {
        Ok(
            UdsResponseView::ReadDTCInformation(
                DataFormatView::Parsed(
                    ReadDTCInformationResponseView {
                        report_type: SubFunction::spec_from_u8(raw_response[1])->0,
                        payload: ReportPayload::NumberOfDTC(
                            ReportNumberOfDTCByMaskResponse {
                                dtc_status_availability_mask: raw_response[2],
                                dtc_format_identifier: DTCFormat::spec_from_u8(raw_response[3])->0,
                                dtc_count: u16_from_be(raw_response[4], raw_response[5]),
                            },
                        ),
                    },
                ),
            ),
        )
    }
}

/// Parses a counting report: the response to the subfunctions 0x01, 0x07,
/// 0x11 and 0x12.
pub fn parse_report_number_of_dtc_by_status_mask_response(raw_response: &[u8]) -> (result:
    EcuResponseResult)
    ensures
        outcome(result) == report_number_of_dtc_response(raw_response@),
        raw_response@.len() == 0 ==> outcome(result) == Err::<UdsResponseView, UdsErrorView>(
            UdsErrorView::ResponseEmpty,
        ),
        raw_response@.len() > 0 && raw_response@[0] != READ_DTC_INFORMATION_SID
            + SEND_RECEIVE_SID_OFFSET ==> outcome(result) == Err::<UdsResponseView, UdsErrorView>(
            sid_mismatch(raw_response@, READ_DTC_INFORMATION_SID),
        ),
{
    match check_header(raw_response, READ_DTC_INFORMATION_SID) {
        Err(error) => {
            return Err(error);
        },
        Ok(()) => {},
    }
    let len: usize = raw_response.len();
    if len < 2 {
        return Err(invalid_length(raw_response));
    }
    let report_type = match SubFunction::try_from(raw_response[1]) {
        Ok(report_type) => report_type,
        Err(_) => {
            return Err(response_incorrect(raw_response));
        },
    };
    if len < 4 {
        return Err(invalid_length(raw_response));
    }
    let dtc_status_availability_mask: u8 = raw_response[2];
    let dtc_format_identifier = match DTCFormat::try_from(raw_response[3]) {
        Ok(dtc_format_identifier) => dtc_format_identifier,
        Err(_) => {
            return Err(response_incorrect(raw_response));
        },
    };
    if len < 6 {
        return Err(invalid_length(raw_response));
    }
    let dtc_count: u16 = read_u16_be(raw_response[4], raw_response[5]);
    let parsed = ReportNumberOfDTCByMaskResponse {
        dtc_status_availability_mask,
        dtc_format_identifier,
        dtc_count,
    };
    let response = match report_type {
        SubFunction::ReportNumberOfDTCbyStatusMask => {
            ReadDTCInformationResponse::ReportNumberOfDTCbyStatusMask(parsed)
        },
        SubFunction::ReportNumberOfDTCBySeverityMaskRecord => {
            ReadDTCInformationResponse::ReportNumberOfDTCBySeverityMaskRecord(parsed)
        },
        SubFunction::ReportNumberOfMirrorMemoryDTCByStatusMask => {
            ReadDTCInformationResponse::ReportNumberOfMirrorMemoryDTCByStatusMask(parsed)
        },
        SubFunction::ReportNumberOfEmissionsOBDDTCByStatusMask => {
            ReadDTCInformationResponse::ReportNumberOfEmissionsOBDDTCByStatusMask(parsed)
        },
        _ => {
            return Err(UdsError::InvalidArgument);
        },
    };
    Ok(UdsResponse::ReadDTCInformation(DataFormat::Parsed(response)))
}

/// What a report stands for whose fields only the server's data dictionary
/// can tell apart: the bytes after the response identifier, as they came.
pub open spec fn raw_report_response(raw_response: Seq<u8>) -> ResponseOutcome {
    if let Some(error) = header_error(raw_response, READ_DTC_INFORMATION_SID) {
        Err(error)
    } else {
        Ok(
            UdsResponseView::ReadDTCInformation(
                DataFormatView::Raw(raw_response.subrange(1, raw_response.len() as int)),
            ),
        )
    }
}

/// Parses the snapshots of a trouble code, the response to the subfunction
/// 0x04, as far as the message alone allows: the payload stays undecoded.
pub fn parse_report_dtc_snapshot_record_by_dtc_number_response(raw_response: &[u8]) -> (result:
    EcuResponseResult)
    ensures
        outcome(result) == raw_report_response(raw_response@),
        raw_response@.len() == 0 ==> outcome(result) == Err::<UdsResponseView, UdsErrorView>(
            UdsErrorView::ResponseEmpty,
        ),
        raw_response@.len() > 0 && raw_response@[0] != READ_DTC_INFORMATION_SID
            + SEND_RECEIVE_SID_OFFSET ==> outcome(result) == Err::<UdsResponseView, UdsErrorView>(
            sid_mismatch(raw_response@, READ_DTC_INFORMATION_SID),
        ),
{
    match check_header(raw_response, READ_DTC_INFORMATION_SID) {
        Err(error) => {
            return Err(error);
        },
        Ok(()) => {},
    }
    let payload = slice_to_vec(slice_subrange(raw_response, 1, raw_response.len()));
    Ok(UdsResponse::ReadDTCInformation(DataFormat::Raw(payload)))
}

/// Parses the extended data of a trouble code, the response to the
/// subfunctions 0x06 and 0x10, as far as the message alone allows: the
/// payload stays undecoded.
pub fn parse_report_dtc_ext_data_by_dtc_number_response(raw_response: &[u8]) -> (result:
    EcuResponseResult)
    ensures
        outcome(result) == raw_report_response(raw_response@),
        raw_response@.len() == 0 ==> outcome(result) == Err::<UdsResponseView, UdsErrorView>(
            UdsErrorView::ResponseEmpty,
        ),
        raw_response@.len() > 0 && raw_response@[0] != READ_DTC_INFORMATION_SID
            + SEND_RECEIVE_SID_OFFSET ==> outcome(result) == Err::<UdsResponseView, UdsErrorView>(
            sid_mismatch(raw_response@, READ_DTC_INFORMATION_SID),
        ),
{
    match check_header(raw_response, READ_DTC_INFORMATION_SID) {
        Err(error) => {
            return Err(error);
        },
        Ok(()) => {},
    }
    let payload = slice_to_vec(slice_subrange(raw_response, 1, raw_response.len()));
    Ok(UdsResponse::ReadDTCInformation(DataFormat::Raw(payload)))
}

/// The bytes of a request for a report that takes a status mask: the
/// service identifier, the subfunction and the mask.
pub open spec fn report_by_status_mask_request(subfunction: SubFunction, dtc_status_mask: u8)
    -> Seq<u8> {
    seq![READ_DTC_INFORMATION_SID, subfunction.spec_to_u8(), dtc_status_mask]
}

/// The bytes of a request for a report on one trouble code: the service
/// identifier, the subfunction, the three lower bytes of `dtc_mask_record`
/// and the number of the record that is asked for.
pub open spec fn report_by_dtc_number_request(
    sub_function: SubFunction,
    dtc_mask_record: u32,
    record_number: u8,
) -> Seq<u8> {
    seq![READ_DTC_INFORMATION_SID, sub_function.spec_to_u8()] + u24_be_bytes(dtc_mask_record)
        + seq![record_number]
}

/// The bytes of a request for a report that takes no argument: the service
/// identifier and the subfunction.
pub open spec fn report_short_request(sub_function: SubFunction) -> Seq<u8> {
    seq![READ_DTC_INFORMATION_SID, sub_function.spec_to_u8()]
}

/// Composes the request for a report that takes a status mask: the
/// subfunctions 0x01, 0x02, 0x0F, 0x11, 0x12 and 0x13.
pub fn compose_report_number_of_dtc_by_status_mask_request(
    subfunction: SubFunction,
    dtc_status_mask: u8,
) -> (request: Vec<u8>)
    ensures
        request@ == report_by_status_mask_request(subfunction, dtc_status_mask),
{
    vec![READ_DTC_INFORMATION_SID, u8::from(subfunction), dtc_status_mask]
}

/// Composes the request for the snapshots of a trouble code: the
/// subfunctions 0x03 and 0x04. Of `dtc_mask_record` the three lower bytes
/// are sent; its highest byte is dropped.
pub fn compose_report_dtc_snapshot_request(
    sub_function: SubFunction,
    dtc_mask_record: u32,
    dtc_snapshot_record_number: u8,
) -> (request: Vec<u8>)
    ensures
        request@ == report_by_dtc_number_request(
            sub_function,
            dtc_mask_record,
            dtc_snapshot_record_number,
        ),
{
    let request = vec![
        READ_DTC_INFORMATION_SID,
        u8::from(sub_function),
        ((dtc_mask_record / 65536) % 256) as u8,
        ((dtc_mask_record / 256) % 256) as u8,
        (dtc_mask_record % 256) as u8,
        dtc_snapshot_record_number,
    ];
    assert(request@ =~= seq![READ_DTC_INFORMATION_SID, sub_function.spec_to_u8()] + u24_be_bytes(
        dtc_mask_record,
    ) + seq![dtc_snapshot_record_number]);
    request
}

/// Composes the request for a report that takes no argument: the
/// subfunctions 0x0A to 0x0E, 0x14 and 0x15.
pub fn compose_request_short(sub_function: SubFunction) -> (request: Vec<u8>)
    ensures
        request@ == report_short_request(sub_function),
{
    vec![READ_DTC_INFORMATION_SID, u8::from(sub_function)]
}

/// Composes the request for the extended data of a trouble code: the
/// subfunctions 0x06 and 0x10. Of `dtc_mask_record` the three lower bytes
/// are sent; its highest byte is dropped.
pub fn compose_report_dtc_ext_data_by_dtc_number_request(
    sub_function: SubFunction,
    dtc_mask_record: u32,
    dtc_ext_data_record_number: u8,
) -> (request: Vec<u8>)
    ensures
        request@ == report_by_dtc_number_request(
            sub_function,
            dtc_mask_record,
            dtc_ext_data_record_number,
        ),
{
    let request = vec![
        READ_DTC_INFORMATION_SID,
        u8::from(sub_function),
        ((dtc_mask_record / 65536) % 256) as u8,
        ((dtc_mask_record / 256) % 256) as u8,
        (dtc_mask_record % 256) as u8,
        dtc_ext_data_record_number,
    ];
    assert(request@ =~= seq![READ_DTC_INFORMATION_SID, sub_function.spec_to_u8()] + u24_be_bytes(
        dtc_mask_record,
    ) + seq![dtc_ext_data_record_number]);
    request
}

/// Whether `request` asks this service for the report `report_type`: every
/// request of the service opens with the service identifier and the
/// subfunction.
pub open spec fn asks_for(request: Seq<u8>, report_type: SubFunction) -> bool {
    &&& request.len() >= 2
    &&& request[0] == READ_DTC_INFORMATION_SID
    &&& request[1] == report_type.spec_to_u8()
}

/// Each shape of request asks for the report that it was composed for,
/// and holds the arguments that it was composed of; of the trouble code as
/// much as three bytes hold.
pub proof fn lemma_requests_ask_for_their_report(
    report_type: SubFunction,
    dtc_status_mask: u8,
    dtc_mask_record: u32,
    record_number: u8,
)
    ensures
        asks_for(report_by_status_mask_request(report_type, dtc_status_mask), report_type),
        asks_for(
            report_by_dtc_number_request(report_type, dtc_mask_record, record_number),
            report_type,
        ),
        asks_for(report_short_request(report_type), report_type),
        report_short_request(report_type).len() == 2,
        ({
            let request = report_by_status_mask_request(report_type, dtc_status_mask);
            &&& request.len() == 3
            &&& request[2] == dtc_status_mask
        }),
        ({
            let request = report_by_dtc_number_request(report_type, dtc_mask_record, record_number);
            &&& request.len() == 6
            &&& u24_from_be(request[2], request[3], request[4]) == dtc_mask_record % 0x100_0000
            &&& request[5] == record_number
        }),
{
    lemma_u24_round_trip(dtc_mask_record);
}

/// A positive response to a request for a counting report, parsed, names
/// the report that the request asked for and the count that the response
/// was made of.
///
/// The response is the first two bytes of the request, with the response
/// identifier in place of the service identifier, followed by the status
/// availability mask, the format and the count.
pub proof fn lemma_report_number_of_dtc_round_trip(
    request: Seq<u8>,
    report_type: SubFunction,
    count: ReportNumberOfDTCByMaskResponse,
)
    requires
        asks_for(request, report_type),
        report_type.reports_number_of_dtc(),
    ensures
        ({
            let response = seq![
                positive_response_sid(request[0]),
                request[1],
                count.dtc_status_availability_mask,
                count.dtc_format_identifier.spec_to_u8(),
            ] + u16_be_bytes(count.dtc_count);
            report_number_of_dtc_response(response) == Ok::<UdsResponseView, UdsErrorView>(
                UdsResponseView::ReadDTCInformation(
                    DataFormatView::Parsed(
                        ReadDTCInformationResponseView {
                            report_type,
                            payload: ReportPayload::NumberOfDTC(count),
                        },
                    ),
                ),
            )
        }),
{
    report_type.lemma_from_to_u8();
    count.dtc_format_identifier.lemma_from_to_u8();
    lemma_u16_round_trip(count.dtc_count);
}

/// The bytes that hold `records` in a listing report, one record after the
/// other: each is its trouble code in three bytes and then its status.
pub open spec fn dtc_records_bytes(records: Seq<DTCAndStatusRecord>) -> Seq<u8> {
    Seq::new(
        4 * records.len(),
        |i: int| u24_be_bytes(records[i / 4].dtc).push(records[i / 4].status_of_dtc)[i % 4],
    )
}

/// A positive response to a request for a listing report, parsed, names
/// the report that the request asked for and the records that the response
/// was made of.
///
/// The response is the first two bytes of the request, with the response
/// identifier in place of the service identifier, followed by the status
/// availability mask and the records. Each trouble code fits into its
/// three bytes.
pub proof fn lemma_report_dtcs_round_trip(
    request: Seq<u8>,
    report_type: SubFunction,
    list: ReportDTCsResponseView,
)
    requires
        asks_for(request, report_type),
        report_type.reports_dtcs(),
        forall|i: int|
            0 <= i < list.dtc_and_status_records.len() ==> (
            #[trigger] list.dtc_and_status_records[i]).dtc < 0x100_0000,
    ensures
        ({
            let response = seq![
                positive_response_sid(request[0]),
                request[1],
                list.dtc_status_availability_mask,
            ] + dtc_records_bytes(list.dtc_and_status_records);
            report_dtcs_response(response) == Ok::<UdsResponseView, UdsErrorView>(
                UdsResponseView::ReadDTCInformation(
                    DataFormatView::Parsed(
                        ReadDTCInformationResponseView {
                            report_type,
                            payload: ReportPayload::DTCs(list),
                        },
                    ),
                ),
            )
        }),
{
    let records = list.dtc_and_status_records;
    let response = seq![
        positive_response_sid(request[0]),
        request[1],
        list.dtc_status_availability_mask,
    ] + dtc_records_bytes(records);
    report_type.lemma_from_to_u8();
    assert(response.len() == 3 + 4 * records.len());
    assert forall|index: int| 0 <= index < records.len() implies dtc_record_at(response, index)
        == records[index] by {
        let record = records[index];
        lemma_u24_round_trip(record.dtc);
        assert(response[3 + 4 * index] == dtc_records_bytes(records)[4 * index]);
        assert(response[3 + 4 * index + 1] == dtc_records_bytes(records)[4 * index + 1]);
        assert(response[3 + 4 * index + 2] == dtc_records_bytes(records)[4 * index + 2]);
        assert(response[3 + 4 * index + 3] == dtc_records_bytes(records)[4 * index + 3]);
    }
    assert(dtc_records(response) =~= records);
}

/// A positive response to a request for a report that stays undecoded,
/// parsed, holds the bytes that the response was made of.
///
/// The response is the response identifier for the request's service
/// identifier, followed by `payload`.
pub proof fn lemma_raw_report_round_trip(
    request: Seq<u8>,
    report_type: SubFunction,
    payload: Seq<u8>,
)
    requires
        asks_for(request, report_type),
    ensures
        raw_report_response(seq![positive_response_sid(request[0])] + payload) == Ok::<
            UdsResponseView,
            UdsErrorView,
        >(UdsResponseView::ReadDTCInformation(DataFormatView::Raw(payload))),
{
    let response = seq![positive_response_sid(request[0])] + payload;
    assert(response.subrange(1, response.len() as int) =~= payload);
}

} // verus!
