//! Service identifiers, negative response codes and the offset that ties a
//! request to its positive response.
use vstd::prelude::*;
use vstd::std_specs::convert::FromSpecImpl;
use vstd::std_specs::convert::TryFromSpecImpl;

verus! {

/// Offset between a request service identifier and the identifier that
/// opens the matching positive response.
pub const SEND_RECEIVE_SID_OFFSET: u8 = 0x40;

/// Service identifier that opens every negative response.
pub const NEGATIVE_RESPONSE_SID: u8 = 0x7F;

/// The identifier that opens the positive response to a request with
/// service identifier `sid`.
pub fn to_received_sid(sid: u8) -> (received: u8)
    requires
        sid <= u8::MAX - SEND_RECEIVE_SID_OFFSET,
    ensures
        received == sid + SEND_RECEIVE_SID_OFFSET,
{
    sid + SEND_RECEIVE_SID_OFFSET
}

/// The request service identifier that a positive response opening with
/// `sid` answers.
pub fn from_received_sid(sid: u8) -> (sent: u8)
    requires
        sid >= SEND_RECEIVE_SID_OFFSET,
    ensures
        sent == sid - SEND_RECEIVE_SID_OFFSET,
{
    sid - SEND_RECEIVE_SID_OFFSET
}

/// Service identifiers of requests.
#[derive(Debug, Clone, Copy, PartialEq, Eq, Structural)]
pub enum ServiceIdentifier {
    DiagnosticSessionControl,
    EcuReset,
    SecurityAccess,
    CommunicationControl,
    Authentication,
    TesterPresent,
    AccessTimingParameters,
    SecuredDataTransmission,
    ControlDtcSettings,
    ResponseOnEvent,
    LinkControl,
    ReadDataByIdentifier,
    ReadMemoryByAddress,
    ReadScalingDataByIdentifier,
    ReadDataByPeriodicIdentifier,
    DynamicallyDefineDataIdentifier,
    WriteDataByIdentifier,
    WriteMemoryByAddress,
    ClearDiagnosticInformation,
    ReadDtcInformation,
    InputOutputControlByIdentifier,
    RoutineControl,
    RequestDownload,
    RequestUpload,
    TransferData,
    RequestTransferExit,
    RequestFileTransfer,
    NegativeResponse,
}

impl ServiceIdentifier {
    /// The byte that stands for this value on the wire.
    pub open spec fn spec_to_u8(self) -> u8 {
        match self {
            ServiceIdentifier::DiagnosticSessionControl => 0x10,
            ServiceIdentifier::EcuReset => 0x11,
            ServiceIdentifier::SecurityAccess => 0x27,
            ServiceIdentifier::CommunicationControl => 0x28,
            ServiceIdentifier::Authentication => 0x29,
            ServiceIdentifier::TesterPresent => 0x3E,
            ServiceIdentifier::AccessTimingParameters => 0x83,
            ServiceIdentifier::SecuredDataTransmission => 0x84,
            ServiceIdentifier::ControlDtcSettings => 0x85,
            ServiceIdentifier::ResponseOnEvent => 0x86,
            ServiceIdentifier::LinkControl => 0x87,
            ServiceIdentifier::ReadDataByIdentifier => 0x22,
            ServiceIdentifier::ReadMemoryByAddress => 0x23,
            ServiceIdentifier::ReadScalingDataByIdentifier => 0x24,
            ServiceIdentifier::ReadDataByPeriodicIdentifier => 0x2A,
            ServiceIdentifier::DynamicallyDefineDataIdentifier => 0x2C,
            ServiceIdentifier::WriteDataByIdentifier => 0x2E,
            ServiceIdentifier::WriteMemoryByAddress => 0x3D,
            ServiceIdentifier::ClearDiagnosticInformation => 0x14,
            ServiceIdentifier::ReadDtcInformation => 0x19,
            ServiceIdentifier::InputOutputControlByIdentifier => 0x2F,
            ServiceIdentifier::RoutineControl => 0x31,
            ServiceIdentifier::RequestDownload => 0x34,
            ServiceIdentifier::RequestUpload => 0x35,
            ServiceIdentifier::TransferData => 0x36,
            ServiceIdentifier::RequestTransferExit => 0x37,
            ServiceIdentifier::RequestFileTransfer => 0x38,
            ServiceIdentifier::NegativeResponse => 0x7F,
        }
    }

    /// The value that a byte stands for, if it stands for one.
    pub open spec fn spec_from_u8(number: u8) -> Option<ServiceIdentifier> {
        match number {
            0x10 => Some(ServiceIdentifier::DiagnosticSessionControl),
            0x11 => Some(ServiceIdentifier::EcuReset),
            0x27 => Some(ServiceIdentifier::SecurityAccess),
            0x28 => Some(ServiceIdentifier::CommunicationControl),
            0x29 => Some(ServiceIdentifier::Authentication),
            0x3E => Some(ServiceIdentifier::TesterPresent),
            0x83 => Some(ServiceIdentifier::AccessTimingParameters),
            0x84 => Some(ServiceIdentifier::SecuredDataTransmission),
            0x85 => Some(ServiceIdentifier::ControlDtcSettings),
            0x86 => Some(ServiceIdentifier::ResponseOnEvent),
            0x87 => Some(ServiceIdentifier::LinkControl),
            0x22 => Some(ServiceIdentifier::ReadDataByIdentifier),
            0x23 => Some(ServiceIdentifier::ReadMemoryByAddress),
            0x24 => Some(ServiceIdentifier::ReadScalingDataByIdentifier),
            0x2A => Some(ServiceIdentifier::ReadDataByPeriodicIdentifier),
            0x2C => Some(ServiceIdentifier::DynamicallyDefineDataIdentifier),
            0x2E => Some(ServiceIdentifier::WriteDataByIdentifier),
            0x3D => Some(ServiceIdentifier::WriteMemoryByAddress),
            0x14 => Some(ServiceIdentifier::ClearDiagnosticInformation),
            0x19 => Some(ServiceIdentifier::ReadDtcInformation),
            0x2F => Some(ServiceIdentifier::InputOutputControlByIdentifier),
            0x31 => Some(ServiceIdentifier::RoutineControl),
            0x34 => Some(ServiceIdentifier::RequestDownload),
            0x35 => Some(ServiceIdentifier::RequestUpload),
            0x36 => Some(ServiceIdentifier::TransferData),
            0x37 => Some(ServiceIdentifier::RequestTransferExit),
            0x38 => Some(ServiceIdentifier::RequestFileTransfer),
            0x7F => Some(ServiceIdentifier::NegativeResponse),
            _ => None,
        }
    }

    /// Encoding and then decoding gives the value back.
    pub proof fn lemma_from_to_u8(self)
        ensures
            ServiceIdentifier::spec_from_u8(self.spec_to_u8()) == Some(self),
    {
    }

    /// A byte that decodes to a value is the encoding of that value.
    pub proof fn lemma_to_from_u8(number: u8)
        ensures
            ServiceIdentifier::spec_from_u8(number) matches Some(value) ==> value.spec_to_u8() == number,
    {
    }
}

impl TryFrom<u8> for ServiceIdentifier {
    type Error = u8;

    /// Decodes a byte; an unrecognised byte is handed back as the error.
    fn try_from(number: u8) -> (result: Result<ServiceIdentifier, u8>) {
        match number {
            0x10 => Ok(ServiceIdentifier::DiagnosticSessionControl),
            0x11 => Ok(ServiceIdentifier::EcuReset),
            0x27 => Ok(ServiceIdentifier::SecurityAccess),
            0x28 => Ok(ServiceIdentifier::CommunicationControl),
            0x29 => Ok(ServiceIdentifier::Authentication),
            0x3E => Ok(ServiceIdentifier::TesterPresent),
            0x83 => Ok(ServiceIdentifier::AccessTimingParameters),
            0x84 => Ok(ServiceIdentifier::SecuredDataTransmission),
            0x85 => Ok(ServiceIdentifier::ControlDtcSettings),
            0x86 => Ok(ServiceIdentifier::ResponseOnEvent),
            0x87 => Ok(ServiceIdentifier::LinkControl),
            0x22 => Ok(ServiceIdentifier::ReadDataByIdentifier),
            0x23 => Ok(ServiceIdentifier::ReadMemoryByAddress),
            0x24 => Ok(ServiceIdentifier::ReadScalingDataByIdentifier),
            0x2A => Ok(ServiceIdentifier::ReadDataByPeriodicIdentifier),
            0x2C => Ok(ServiceIdentifier::DynamicallyDefineDataIdentifier),
            0x2E => Ok(ServiceIdentifier::WriteDataByIdentifier),
            0x3D => Ok(ServiceIdentifier::WriteMemoryByAddress),
            0x14 => Ok(ServiceIdentifier::ClearDiagnosticInformation),
            0x19 => Ok(ServiceIdentifier::ReadDtcInformation),
            0x2F => Ok(ServiceIdentifier::InputOutputControlByIdentifier),
            0x31 => Ok(ServiceIdentifier::RoutineControl),
            0x34 => Ok(ServiceIdentifier::RequestDownload),
            0x35 => Ok(ServiceIdentifier::RequestUpload),
            0x36 => Ok(ServiceIdentifier::TransferData),
            0x37 => Ok(ServiceIdentifier::RequestTransferExit),
            0x38 => Ok(ServiceIdentifier::RequestFileTransfer),
            0x7F => Ok(ServiceIdentifier::NegativeResponse),
            _ => Err(number),
        }
    }
}

impl TryFromSpecImpl<u8> for ServiceIdentifier {
    open spec fn obeys_try_from_spec() -> bool {
        true
    }

    open spec fn try_from_spec(number: u8) -> Result<ServiceIdentifier, u8> {
        match ServiceIdentifier::spec_from_u8(number) {
            Some(value) => Ok(value),
            None => Err(number),
        }
    }
}

impl From<ServiceIdentifier> for u8 {
    /// Encodes the value as its byte.
    fn from(value: ServiceIdentifier) -> (number: u8) {
        match value {
            ServiceIdentifier::DiagnosticSessionControl => 0x10,
            ServiceIdentifier::EcuReset => 0x11,
            ServiceIdentifier::SecurityAccess => 0x27,
            ServiceIdentifier::CommunicationControl => 0x28,
            ServiceIdentifier::Authentication => 0x29,
            ServiceIdentifier::TesterPresent => 0x3E,
            ServiceIdentifier::AccessTimingParameters => 0x83,
            ServiceIdentifier::SecuredDataTransmission => 0x84,
            ServiceIdentifier::ControlDtcSettings => 0x85,
            ServiceIdentifier::ResponseOnEvent => 0x86,
            ServiceIdentifier::LinkControl => 0x87,
            ServiceIdentifier::ReadDataByIdentifier => 0x22,
            ServiceIdentifier::ReadMemoryByAddress => 0x23,
            ServiceIdentifier::ReadScalingDataByIdentifier => 0x24,
            ServiceIdentifier::ReadDataByPeriodicIdentifier => 0x2A,
            ServiceIdentifier::DynamicallyDefineDataIdentifier => 0x2C,
            ServiceIdentifier::WriteDataByIdentifier => 0x2E,
            ServiceIdentifier::WriteMemoryByAddress => 0x3D,
            ServiceIdentifier::ClearDiagnosticInformation => 0x14,
            ServiceIdentifier::ReadDtcInformation => 0x19,
            ServiceIdentifier::InputOutputControlByIdentifier => 0x2F,
            ServiceIdentifier::RoutineControl => 0x31,
            ServiceIdentifier::RequestDownload => 0x34,
            ServiceIdentifier::RequestUpload => 0x35,
            ServiceIdentifier::TransferData => 0x36,
            ServiceIdentifier::RequestTransferExit => 0x37,
            ServiceIdentifier::RequestFileTransfer => 0x38,
            ServiceIdentifier::NegativeResponse => 0x7F,
        }
    }
}

impl FromSpecImpl<ServiceIdentifier> for u8 {
    open spec fn obeys_from_spec() -> bool {
        true
    }

    open spec fn from_spec(value: ServiceIdentifier) -> u8 {
        value.spec_to_u8()
    }
}

/// Reason that a server gives in a negative response.
///
/// Two codes steer the exchange itself: `BusyRepeatRequest` asks for the
/// request to be sent again, `RequestCorrectlyReceivedResponsePending`
/// announces that the answer will follow.
#[derive(Debug, Clone, Copy, PartialEq, Eq, Structural)]
pub enum NegativeResponseCode {
    PositiveResponse,
    GeneralReject,
    ServiceNotSupported,
    SubFunctionNotSupported,
    IncorrectMessageLengthOrInvalidFormat,
    ResponseTooLong,
    BusyRepeatRequest,
    ConditionsNotCorrect,
    RequestSequenceError,
    NoResponseFromSubnetComponent,
    FailurePreventsExecutionOfRequestedAction,
    RequestOutOfRange,
    SecurityAccessDenied,
    InvalidKey,
    ExceededNumberOfAttempts,
    RequiredTimeDelayNotExpired,
    UploadDownloadNotAccepted,
    TransferDataSuspended,
    GeneralProgrammingFailure,
    WrongBlockSequenceCounter,
    RequestCorrectlyReceivedResponsePending,
    SubfunctionNotSupportedInActiveSession,
    ServiceNotSupportedInActiveSession,
    RpmTooHigh,
    RpmTooLow,
    EngineIsRunning,
    EngineIsNotRunning,
    EngineRunTimeTooLow,
    TemperatureTooHigh,
    TemperatureTooLow,
    VehicleSpeedTooHigh,
    VehicleSpeedTooLow,
    ThrottlePedalTooHigh,
    ThrottlePedalTooLow,
    TransmissionRangeNotInNeutral,
    TransmissionRangeNotInGear,
    BrakeSwitchNotClosed,
    ShiftLeverNotInPark,
    TorqueConverterClutchLocked,
    VoltageTooHigh,
    VoltageTooLow,
}

impl NegativeResponseCode {
    /// The byte that stands for this value on the wire.
    pub open spec fn spec_to_u8(self) -> u8 {
        match self {
            NegativeResponseCode::PositiveResponse => 0x00,
            NegativeResponseCode::GeneralReject => 0x10,
            NegativeResponseCode::ServiceNotSupported => 0x11,
            NegativeResponseCode::SubFunctionNotSupported => 0x12,
            NegativeResponseCode::IncorrectMessageLengthOrInvalidFormat => 0x13,
            NegativeResponseCode::ResponseTooLong => 0x14,
            NegativeResponseCode::BusyRepeatRequest => 0x21,
            NegativeResponseCode::ConditionsNotCorrect => 0x22,
            NegativeResponseCode::RequestSequenceError => 0x24,
            NegativeResponseCode::NoResponseFromSubnetComponent => 0x25,
            NegativeResponseCode::FailurePreventsExecutionOfRequestedAction => 0x26,
            NegativeResponseCode::RequestOutOfRange => 0x31,
            NegativeResponseCode::SecurityAccessDenied => 0x33,
            NegativeResponseCode::InvalidKey => 0x35,
            NegativeResponseCode::ExceededNumberOfAttempts => 0x36,
            NegativeResponseCode::RequiredTimeDelayNotExpired => 0x37,
            NegativeResponseCode::UploadDownloadNotAccepted => 0x70,
            NegativeResponseCode::TransferDataSuspended => 0x71,
            NegativeResponseCode::GeneralProgrammingFailure => 0x72,
            NegativeResponseCode::WrongBlockSequenceCounter => 0x73,
            NegativeResponseCode::RequestCorrectlyReceivedResponsePending => 0x78,
            NegativeResponseCode::SubfunctionNotSupportedInActiveSession => 0x7E,
            NegativeResponseCode::ServiceNotSupportedInActiveSession => 0x7F,
            NegativeResponseCode::RpmTooHigh => 0x81,
            NegativeResponseCode::RpmTooLow => 0x82,
            NegativeResponseCode::EngineIsRunning => 0x83,
            NegativeResponseCode::EngineIsNotRunning => 0x84,
            NegativeResponseCode::EngineRunTimeTooLow => 0x85,
            NegativeResponseCode::TemperatureTooHigh => 0x86,
            NegativeResponseCode::TemperatureTooLow => 0x87,
            NegativeResponseCode::VehicleSpeedTooHigh => 0x88,
            NegativeResponseCode::VehicleSpeedTooLow => 0x89,
            NegativeResponseCode::ThrottlePedalTooHigh => 0x8A,
            NegativeResponseCode::ThrottlePedalTooLow => 0x8B,
            NegativeResponseCode::TransmissionRangeNotInNeutral => 0x8C,
            NegativeResponseCode::TransmissionRangeNotInGear => 0x8D,
            NegativeResponseCode::BrakeSwitchNotClosed => 0x8F,
            NegativeResponseCode::ShiftLeverNotInPark => 0x90,
            NegativeResponseCode::TorqueConverterClutchLocked => 0x91,
            NegativeResponseCode::VoltageTooHigh => 0x92,
            NegativeResponseCode::VoltageTooLow => 0x93,
        }
    }

    /// The value that a byte stands for, if it stands for one.
    pub open spec fn spec_from_u8(number: u8) -> Option<NegativeResponseCode> {
        match number {
            0x00 => Some(NegativeResponseCode::PositiveResponse),
            0x10 => Some(NegativeResponseCode::GeneralReject),
            0x11 => Some(NegativeResponseCode::ServiceNotSupported),
            0x12 => Some(NegativeResponseCode::SubFunctionNotSupported),
            0x13 => Some(NegativeResponseCode::IncorrectMessageLengthOrInvalidFormat),
            0x14 => Some(NegativeResponseCode::ResponseTooLong),
            0x21 => Some(NegativeResponseCode::BusyRepeatRequest),
            0x22 => Some(NegativeResponseCode::ConditionsNotCorrect),
            0x24 => Some(NegativeResponseCode::RequestSequenceError),
            0x25 => Some(NegativeResponseCode::NoResponseFromSubnetComponent),
            0x26 => Some(NegativeResponseCode::FailurePreventsExecutionOfRequestedAction),
            0x31 => Some(NegativeResponseCode::RequestOutOfRange),
            0x33 => Some(NegativeResponseCode::SecurityAccessDenied),
            0x35 => Some(NegativeResponseCode::InvalidKey),
            0x36 => Some(NegativeResponseCode::ExceededNumberOfAttempts),
            0x37 => Some(NegativeResponseCode::RequiredTimeDelayNotExpired),
            0x70 => Some(NegativeResponseCode::UploadDownloadNotAccepted),
            0x71 => Some(NegativeResponseCode::TransferDataSuspended),
            0x72 => Some(NegativeResponseCode::GeneralProgrammingFailure),
            0x73 => Some(NegativeResponseCode::WrongBlockSequenceCounter),
            0x78 => Some(NegativeResponseCode::RequestCorrectlyReceivedResponsePending),
            0x7E => Some(NegativeResponseCode::SubfunctionNotSupportedInActiveSession),
            0x7F => Some(NegativeResponseCode::ServiceNotSupportedInActiveSession),
            0x81 => Some(NegativeResponseCode::RpmTooHigh),
            0x82 => Some(NegativeResponseCode::RpmTooLow),
            0x83 => Some(NegativeResponseCode::EngineIsRunning),
            0x84 => Some(NegativeResponseCode::EngineIsNotRunning),
            0x85 => Some(NegativeResponseCode::EngineRunTimeTooLow),
            0x86 => Some(NegativeResponseCode::TemperatureTooHigh),
            0x87 => Some(NegativeResponseCode::TemperatureTooLow),
            0x88 => Some(NegativeResponseCode::VehicleSpeedTooHigh),
            0x89 => Some(NegativeResponseCode::VehicleSpeedTooLow),
            0x8A => Some(NegativeResponseCode::ThrottlePedalTooHigh),
            0x8B => Some(NegativeResponseCode::ThrottlePedalTooLow),
            0x8C => Some(NegativeResponseCode::TransmissionRangeNotInNeutral),
            0x8D => Some(NegativeResponseCode::TransmissionRangeNotInGear),
            0x8F => Some(NegativeResponseCode::BrakeSwitchNotClosed),
            0x90 => Some(NegativeResponseCode::ShiftLeverNotInPark),
            0x91 => Some(NegativeResponseCode::TorqueConverterClutchLocked),
            0x92 => Some(NegativeResponseCode::VoltageTooHigh),
            0x93 => Some(NegativeResponseCode::VoltageTooLow),
            _ => None,
        }
    }

    /// Encoding and then decoding gives the value back.
    pub proof fn lemma_from_to_u8(self)
        ensures
            NegativeResponseCode::spec_from_u8(self.spec_to_u8()) == Some(self),
    {
    }

    /// A byte that decodes to a value is the encoding of that value.
    pub proof fn lemma_to_from_u8(number: u8)
        ensures
            NegativeResponseCode::spec_from_u8(number) matches Some(value) ==> value.spec_to_u8() == number,
    {
    }
}

impl TryFrom<u8> for NegativeResponseCode {
    type Error = u8;

    /// Decodes a byte; an unrecognised byte is handed back as the error.
    fn try_from(number: u8) -> (result: Result<NegativeResponseCode, u8>) {
        match number {
            0x00 => Ok(NegativeResponseCode::PositiveResponse),
            0x10 => Ok(NegativeResponseCode::GeneralReject),
            0x11 => Ok(NegativeResponseCode::ServiceNotSupported),
            0x12 => Ok(NegativeResponseCode::SubFunctionNotSupported),
            0x13 => Ok(NegativeResponseCode::IncorrectMessageLengthOrInvalidFormat),
            0x14 => Ok(NegativeResponseCode::ResponseTooLong),
            0x21 => Ok(NegativeResponseCode::BusyRepeatRequest),
            0x22 => Ok(NegativeResponseCode::ConditionsNotCorrect),
            0x24 => Ok(NegativeResponseCode::RequestSequenceError),
            0x25 => Ok(NegativeResponseCode::NoResponseFromSubnetComponent),
            0x26 => Ok(NegativeResponseCode::FailurePreventsExecutionOfRequestedAction),
            0x31 => Ok(NegativeResponseCode::RequestOutOfRange),
            0x33 => Ok(NegativeResponseCode::SecurityAccessDenied),
            0x35 => Ok(NegativeResponseCode::InvalidKey),
            0x36 => Ok(NegativeResponseCode::ExceededNumberOfAttempts),
            0x37 => Ok(NegativeResponseCode::RequiredTimeDelayNotExpired),
            0x70 => Ok(NegativeResponseCode::UploadDownloadNotAccepted),
            0x71 => Ok(NegativeResponseCode::TransferDataSuspended),
            0x72 => Ok(NegativeResponseCode::GeneralProgrammingFailure),
            0x73 => Ok(NegativeResponseCode::WrongBlockSequenceCounter),
            0x78 => Ok(NegativeResponseCode::RequestCorrectlyReceivedResponsePending),
            0x7E => Ok(NegativeResponseCode::SubfunctionNotSupportedInActiveSession),
            0x7F => Ok(NegativeResponseCode::ServiceNotSupportedInActiveSession),
            0x81 => Ok(NegativeResponseCode::RpmTooHigh),
            0x82 => Ok(NegativeResponseCode::RpmTooLow),
            0x83 => Ok(NegativeResponseCode::EngineIsRunning),
            0x84 => Ok(NegativeResponseCode::EngineIsNotRunning),
            0x85 => Ok(NegativeResponseCode::EngineRunTimeTooLow),
            0x86 => Ok(NegativeResponseCode::TemperatureTooHigh),
            0x87 => Ok(NegativeResponseCode::TemperatureTooLow),
            0x88 => Ok(NegativeResponseCode::VehicleSpeedTooHigh),
            0x89 => Ok(NegativeResponseCode::VehicleSpeedTooLow),
            0x8A => Ok(NegativeResponseCode::ThrottlePedalTooHigh),
            0x8B => Ok(NegativeResponseCode::ThrottlePedalTooLow),
            0x8C => Ok(NegativeResponseCode::TransmissionRangeNotInNeutral),
            0x8D => Ok(NegativeResponseCode::TransmissionRangeNotInGear),
            0x8F => Ok(NegativeResponseCode::BrakeSwitchNotClosed),
            0x90 => Ok(NegativeResponseCode::ShiftLeverNotInPark),
            0x91 => Ok(NegativeResponseCode::TorqueConverterClutchLocked),
            0x92 => Ok(NegativeResponseCode::VoltageTooHigh),
            0x93 => Ok(NegativeResponseCode::VoltageTooLow),
            _ => Err(number),
        }
    }
}

impl TryFromSpecImpl<u8> for NegativeResponseCode {
    open spec fn obeys_try_from_spec() -> bool {
        true
    }

    open spec fn try_from_spec(number: u8) -> Result<NegativeResponseCode, u8> {
        match NegativeResponseCode::spec_from_u8(number) {
            Some(value) => Ok(value),
            None => Err(number),
        }
    }
}

impl From<NegativeResponseCode> for u8 {
    /// Encodes the value as its byte.
    fn from(value: NegativeResponseCode) -> (number: u8) {
        match value {
            NegativeResponseCode::PositiveResponse => 0x00,
            NegativeResponseCode::GeneralReject => 0x10,
            NegativeResponseCode::ServiceNotSupported => 0x11,
            NegativeResponseCode::SubFunctionNotSupported => 0x12,
            NegativeResponseCode::IncorrectMessageLengthOrInvalidFormat => 0x13,
            NegativeResponseCode::ResponseTooLong => 0x14,
            NegativeResponseCode::BusyRepeatRequest => 0x21,
            NegativeResponseCode::ConditionsNotCorrect => 0x22,
            NegativeResponseCode::RequestSequenceError => 0x24,
            NegativeResponseCode::NoResponseFromSubnetComponent => 0x25,
            NegativeResponseCode::FailurePreventsExecutionOfRequestedAction => 0x26,
            NegativeResponseCode::RequestOutOfRange => 0x31,
            NegativeResponseCode::SecurityAccessDenied => 0x33,
            NegativeResponseCode::InvalidKey => 0x35,
            NegativeResponseCode::ExceededNumberOfAttempts => 0x36,
            NegativeResponseCode::RequiredTimeDelayNotExpired => 0x37,
            NegativeResponseCode::UploadDownloadNotAccepted => 0x70,
            NegativeResponseCode::TransferDataSuspended => 0x71,
            NegativeResponseCode::GeneralProgrammingFailure => 0x72,
            NegativeResponseCode::WrongBlockSequenceCounter => 0x73,
            NegativeResponseCode::RequestCorrectlyReceivedResponsePending => 0x78,
            NegativeResponseCode::SubfunctionNotSupportedInActiveSession => 0x7E,
            NegativeResponseCode::ServiceNotSupportedInActiveSession => 0x7F,
            NegativeResponseCode::RpmTooHigh => 0x81,
            NegativeResponseCode::RpmTooLow => 0x82,
            NegativeResponseCode::EngineIsRunning => 0x83,
            NegativeResponseCode::EngineIsNotRunning => 0x84,
            NegativeResponseCode::EngineRunTimeTooLow => 0x85,
            NegativeResponseCode::TemperatureTooHigh => 0x86,
            NegativeResponseCode::TemperatureTooLow => 0x87,
            NegativeResponseCode::VehicleSpeedTooHigh => 0x88,
            NegativeResponseCode::VehicleSpeedTooLow => 0x89,
            NegativeResponseCode::ThrottlePedalTooHigh => 0x8A,
            NegativeResponseCode::ThrottlePedalTooLow => 0x8B,
            NegativeResponseCode::TransmissionRangeNotInNeutral => 0x8C,
            NegativeResponseCode::TransmissionRangeNotInGear => 0x8D,
            NegativeResponseCode::BrakeSwitchNotClosed => 0x8F,
            NegativeResponseCode::ShiftLeverNotInPark => 0x90,
            NegativeResponseCode::TorqueConverterClutchLocked => 0x91,
            NegativeResponseCode::VoltageTooHigh => 0x92,
            NegativeResponseCode::VoltageTooLow => 0x93,
        }
    }
}

impl FromSpecImpl<NegativeResponseCode> for u8 {
    open spec fn obeys_from_spec() -> bool {
        true
    }

    open spec fn from_spec(value: NegativeResponseCode) -> u8 {
        value.spec_to_u8()
    }
}

} // verus!
