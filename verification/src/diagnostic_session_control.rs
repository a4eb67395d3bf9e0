//! DiagnosticSessionControl (0x10): switch the server to another session.
use vstd::prelude::*;
use crate::definitions::SEND_RECEIVE_SID_OFFSET;
use crate::error::UdsErrorView;
use crate::response::{
    check_header, header_error, invalid_length, outcome, positive_response_sid, sid_mismatch,
    DataFormat, DataFormatView, EcuResponseResult, ResponseOutcome, UdsResponse, UdsResponseView,
};
use crate::wire::{lemma_u16_round_trip, read_u16_be, u16_be_bytes, u16_from_be};

verus! {

/// Service identifier of DiagnosticSessionControl requests.
pub const DIAGNOSTIC_SESSION_CONTROL_SID: u8 = 0x10;

/// Positive response to DiagnosticSessionControl: the session that is now
/// active and the two timing parameters of the server.
#[derive(Debug, Clone, Copy, PartialEq, Eq, Structural)]
pub struct DiagnosticSessionControlResponse {
    pub session: u8,
    pub p2: u16,
    pub p2_star: u16,
}

impl View for DiagnosticSessionControlResponse {
    type V = DiagnosticSessionControlResponse;

    open spec fn view(&self) -> DiagnosticSessionControlResponse {
        *self
    }
}

/// What a response to DiagnosticSessionControl stands for: the response
/// identifier, the session, and the two timing parameters in two bytes each.
/// A response of fewer than six bytes fails with `InvalidLength`.
pub open spec fn diagnostic_session_control_response(raw_response: Seq<u8>) -> ResponseOutcome {
    if let Some(error) = header_error(raw_response, DIAGNOSTIC_SESSION_CONTROL_SID) {
        Err(error)
    } else if raw_response.len() < 6 {
        Err(UdsErrorView::InvalidLength { raw_message: raw_response })
    } else {
        Ok(
            UdsResponseView::DiagnosticSessionControl(
                DataFormatView::Parsed(
                    DiagnosticSessionControlResponse {
                        session: raw_response[1],
                        p2: u16_from_be(raw_response[2], raw_response[3]),
                        p2_star: u16_from_be(raw_response[4], raw_response[5]),
                    },
                ),
            ),
        )
    }
}

/// The bytes of a request to switch to the session `session_id`: the
/// service identifier and the session.
pub open spec fn diagnostic_session_control_request(session_id: u8) -> Seq<u8> {
    seq![DIAGNOSTIC_SESSION_CONTROL_SID, session_id]
}

/// Composes the request to switch to the session `session_id`.
pub fn compose_diagnostic_session_control_request(session_id: u8) -> (request: Vec<u8>)
    ensures
        request@ == diagnostic_session_control_request(session_id),
{
    vec![DIAGNOSTIC_SESSION_CONTROL_SID, session_id]
}

/// Parses the response to DiagnosticSessionControl.
pub fn parse_diagnostic_session_control_response(raw_response: &[u8]) -> (result:
    EcuResponseResult)
    ensures
        outcome(result) == diagnostic_session_control_response(raw_response@),
        raw_response@.len() == 0 ==> outcome(result) == Err::<UdsResponseView, UdsErrorView>(
            UdsErrorView::ResponseEmpty,
        ),
        raw_response@.len() > 0 && raw_response@[0] != DIAGNOSTIC_SESSION_CONTROL_SID + SEND_RECEIVE_SID_OFFSET
            ==> outcome(result) == Err::<UdsResponseView, UdsErrorView>(
            sid_mismatch(raw_response@, DIAGNOSTIC_SESSION_CONTROL_SID),
        ),
{
    match check_header(raw_response, DIAGNOSTIC_SESSION_CONTROL_SID) {
        Err(error) => {
            return Err(error);
        },
        Ok(()) => {},
    }
    if raw_response.len() < 6 {
        return Err(invalid_length(raw_response));
    }
    let session: u8 = raw_response[1];
    let p2: u16 = read_u16_be(raw_response[2], raw_response[3]);
    let p2_star: u16 = read_u16_be(raw_response[4], raw_response[5]);
    Ok(
        UdsResponse::DiagnosticSessionControl(
            DataFormat::Parsed(DiagnosticSessionControlResponse { session, p2, p2_star }),
        ),
    )
}

/// A positive response to a request for a session, parsed, names the
/// session that the request asked for and the timing parameters that the
/// response was made of.
///
/// The response is the request with the response identifier in place of
/// the service identifier, followed by the two timing parameters.
pub proof fn lemma_diagnostic_session_control_round_trip(session_id: u8, p2: u16, p2_star: u16)
    ensures
        ({
            let request = diagnostic_session_control_request(session_id);
            let response = seq![positive_response_sid(request[0]), request[1]] + u16_be_bytes(p2)
                + u16_be_bytes(p2_star);
            diagnostic_session_control_response(response) == Ok::<UdsResponseView, UdsErrorView>(
                UdsResponseView::DiagnosticSessionControl(
                    DataFormatView::Parsed(
                        DiagnosticSessionControlResponse { session: session_id, p2, p2_star },
                    ),
                ),
            )
        }),
{
    lemma_u16_round_trip(p2);
    lemma_u16_round_trip(p2_star);
}

} // verus!
