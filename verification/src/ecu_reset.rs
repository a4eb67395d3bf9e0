//! EcuReset (0x11): ask the server to reset itself.
use vstd::prelude::*;
use crate::definitions::SEND_RECEIVE_SID_OFFSET;
use crate::error::UdsErrorView;
use crate::response::{
    check_header, header_error, invalid_length, outcome, positive_response_sid,
    response_incorrect, sid_mismatch, DataFormat, DataFormatView, EcuResponseResult,
    ResponseOutcome, UdsResponse, UdsResponseView,
};
use vstd::std_specs::convert::FromSpecImpl;
use vstd::std_specs::convert::TryFromSpecImpl;

verus! {

/// Service identifier of EcuReset requests.
pub const ECU_RESET_SID: u8 = 0x11;

/// The kind of reset that is asked for.
#[derive(Debug, Clone, Copy, PartialEq, Eq, Structural)]
pub enum ResetType {
    HardReset,
    KeyOffOnReset,
    SoftReset,
    EnableRapidPowerShutDown,
    DisableRapidPowerShutDown,
}

impl ResetType {
    /// The byte that stands for this value on the wire.
    pub open spec fn spec_to_u8(self) -> u8 {
        match self {
            ResetType::HardReset => 0x01,
            ResetType::KeyOffOnReset => 0x02,
            ResetType::SoftReset => 0x03,
            ResetType::EnableRapidPowerShutDown => 0x04,
            ResetType::DisableRapidPowerShutDown => 0x05,
        }
    }

    /// The value that a byte stands for, if it stands for one.
    pub open spec fn spec_from_u8(number: u8) -> Option<ResetType> {
        match number {
            0x01 => Some(ResetType::HardReset),
            0x02 => Some(ResetType::KeyOffOnReset),
            0x03 => Some(ResetType::SoftReset),
            0x04 => Some(ResetType::EnableRapidPowerShutDown),
            0x05 => Some(ResetType::DisableRapidPowerShutDown),
            _ => None,
        }
    }

    /// Encoding and then decoding gives the value back.
    pub proof fn lemma_from_to_u8(self)
        ensures
            ResetType::spec_from_u8(self.spec_to_u8()) == Some(self),
    {
    }

    /// A byte that decodes to a value is the encoding of that value.
    pub proof fn lemma_to_from_u8(number: u8)
        ensures
            ResetType::spec_from_u8(number) matches Some(value) ==> value.spec_to_u8() == number,
    {
    }
}

impl TryFrom<u8> for ResetType {
    type Error = u8;

    /// Decodes a byte; an unrecognised byte is handed back as the error.
    fn try_from(number: u8) -> (result: Result<ResetType, u8>) {
        match number {
            0x01 => Ok(ResetType::HardReset),
            0x02 => Ok(ResetType::KeyOffOnReset),
            0x03 => Ok(ResetType::SoftReset),
            0x04 => Ok(ResetType::EnableRapidPowerShutDown),
            0x05 => Ok(ResetType::DisableRapidPowerShutDown),
            _ => Err(number),
        }
    }
}

impl TryFromSpecImpl<u8> for ResetType {
    open spec fn obeys_try_from_spec() -> bool {
        true
    }

    open spec fn try_from_spec(number: u8) -> Result<ResetType, u8> {
        match ResetType::spec_from_u8(number) {
            Some(value) => Ok(value),
            None => Err(number),
        }
    }
}

impl From<ResetType> for u8 {
    /// Encodes the value as its byte.
    fn from(value: ResetType) -> (number: u8) {
        match value {
            ResetType::HardReset => 0x01,
            ResetType::KeyOffOnReset => 0x02,
            ResetType::SoftReset => 0x03,
            ResetType::EnableRapidPowerShutDown => 0x04,
            ResetType::DisableRapidPowerShutDown => 0x05,
        }
    }
}

impl FromSpecImpl<ResetType> for u8 {
    open spec fn obeys_from_spec() -> bool {
        true
    }

    open spec fn from_spec(value: ResetType) -> u8 {
        value.spec_to_u8()
    }
}

/// Positive response to EcuReset.
///
/// `power_down_time` is present exactly when the reset type is
/// `EnableRapidPowerShutDown`.
#[derive(Debug, Clone, Copy, PartialEq, Eq, Structural)]
pub struct EcuResetResponse {
    pub reset_type: ResetType,
    pub power_down_time: Option<u8>,
}

impl View for EcuResetResponse {
    type V = EcuResetResponse;

    open spec fn view(&self) -> EcuResetResponse {
        *self
    }
}

/// What a response to EcuReset stands for: the response identifier, the
/// reset type and, for `EnableRapidPowerShutDown` only, the time until the
/// server powers down.
///
/// A response that ends before the reset type, or before the power-down
/// time where one is due, fails with `InvalidLength`; a reset type byte
/// without meaning fails with `ResponseIncorrect`.
pub open spec fn ecu_reset_response(raw_response: Seq<u8>) -> ResponseOutcome {
    if let Some(error) = header_error(raw_response, ECU_RESET_SID) {
        Err(error)
    } else if raw_response.len() < 2 {
        Err(UdsErrorView::InvalidLength { raw_message: raw_response })
    } else {
        match ResetType::spec_from_u8(raw_response[1]) {
            None => Err(UdsErrorView::ResponseIncorrect { raw_message: raw_response }),
            Some(ResetType::EnableRapidPowerShutDown) => if raw_response.len() < 3 {
                Err(UdsErrorView::InvalidLength { raw_message: raw_response })
            } else {
                Ok(
                    UdsResponseView::EcuReset(
                        DataFormatView::Parsed(
                            EcuResetResponse {
                                reset_type: ResetType::EnableRapidPowerShutDown,
                                power_down_time: Some(raw_response[2]),
                            },
                        ),
                    ),
                )
            },
            Some(reset_type) => Ok(
                UdsResponseView::EcuReset(
                    DataFormatView::Parsed(EcuResetResponse { reset_type, power_down_time: None }),
                ),
            ),
        }
    }
}

/// The bytes of a request for a reset of the kind `reset_type`: the
/// service identifier and the reset type.
pub open spec fn ecu_reset_request(reset_type: ResetType) -> Seq<u8> {
    seq![ECU_RESET_SID, reset_type.spec_to_u8()]
}

/// Composes the request for a reset of the kind `reset_type`.
pub fn compose_ecu_reset_request(reset_type: ResetType) -> (request: Vec<u8>)
    ensures
        request@ == ecu_reset_request(reset_type),
{
    vec![ECU_RESET_SID, u8::from(reset_type)]
}

/// Parses the response to EcuReset.
pub fn parse_ecu_reset_response(raw_response: &[u8]) -> (result: EcuResponseResult)
    ensures
        outcome(result) == ecu_reset_response(raw_response@),
        raw_response@.len() == 0 ==> outcome(result) == Err::<UdsResponseView, UdsErrorView>(
            UdsErrorView::ResponseEmpty,
        ),
        raw_response@.len() > 0 && raw_response@[0] != ECU_RESET_SID + SEND_RECEIVE_SID_OFFSET
            ==> outcome(result) == Err::<UdsResponseView, UdsErrorView>(
            sid_mismatch(raw_response@, ECU_RESET_SID),
        ),
{
    match check_header(raw_response, ECU_RESET_SID) {
        Err(error) => {
            return Err(error);
        },
        Ok(()) => {},
    }
    if raw_response.len() < 2 {
        return Err(invalid_length(raw_response));
    }
    let reset_type = match ResetType::try_from(raw_response[1]) {
        Ok(reset_type) => reset_type,
        Err(_) => {
            return Err(response_incorrect(raw_response));
        },
    };
    let power_down_time: Option<u8> = match reset_type {
        ResetType::EnableRapidPowerShutDown => {
            if raw_response.len() < 3 {
                return Err(invalid_length(raw_response));
            }
            Some(raw_response[2])
        },
        _ => None,
    };
    Ok(UdsResponse::EcuReset(DataFormat::Parsed(EcuResetResponse { reset_type, power_down_time })))
}

/// A positive response to a request for a reset, parsed, names the reset
/// type that the request asked for.
///
/// The response is the request with the response identifier in place of
/// the service identifier, followed by `power_down_time` where the reset
/// type calls for it.
pub proof fn lemma_ecu_reset_round_trip(reset_type: ResetType, power_down_time: u8)
    ensures
        ({
            let request = ecu_reset_request(reset_type);
            let timed = reset_type == ResetType::EnableRapidPowerShutDown;
            let response = seq![positive_response_sid(request[0]), request[1]] + if timed {
                seq![power_down_time]
            } else {
                Seq::empty()
            };
            ecu_reset_response(response) == Ok::<UdsResponseView, UdsErrorView>(
                UdsResponseView::EcuReset(
                    DataFormatView::Parsed(
                        EcuResetResponse {
                            reset_type,
                            power_down_time: if timed {
                                Some(power_down_time)
                            } else {
                                None
                            },
                        },
                    ),
                ),
            )
        }),
{
    reset_type.lemma_from_to_u8();
}

} // verus!
