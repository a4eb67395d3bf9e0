//! ClearDiagnosticInformation (0x14): erase stored trouble codes.
use vstd::prelude::*;
use crate::definitions::SEND_RECEIVE_SID_OFFSET;
use crate::error::UdsErrorView;
use crate::response::{
    check_header, header_error, outcome, positive_response_sid, sid_mismatch, EcuResponseResult,
    ResponseOutcome, UdsResponse, UdsResponseView,
};
use crate::wire::{lemma_u24_round_trip, u24_be_bytes, u24_from_be};

verus! {

/// Service identifier of ClearDiagnosticInformation requests.
pub const CLEAR_DIAGNOSTIC_INFORMATION_SID: u8 = 0x14;

/// What a response to ClearDiagnosticInformation stands for: it holds
/// nothing but the response identifier.
pub open spec fn clear_diagnostic_information_response(raw_response: Seq<u8>) -> ResponseOutcome {
    if let Some(error) = header_error(raw_response, CLEAR_DIAGNOSTIC_INFORMATION_SID) {
        Err(error)
    } else {
        Ok(UdsResponseView::ClearDiagnosticInformation)
    }
}

/// The bytes of a request to erase the trouble codes of the group
/// `group_of_dtc`: the service identifier and the three lower bytes of the
/// group's number. Its highest byte is dropped.
pub open spec fn clear_diagnostic_information_request(group_of_dtc: u32) -> Seq<u8> {
    seq![CLEAR_DIAGNOSTIC_INFORMATION_SID] + u24_be_bytes(group_of_dtc)
}

/// Composes the request to erase the trouble codes of the group
/// `group_of_dtc`.
pub fn compose_clear_diagnostic_information_request(group_of_dtc: u32) -> (request: Vec<u8>)
    ensures
        request@ == clear_diagnostic_information_request(group_of_dtc),
{
    let request = vec![
        CLEAR_DIAGNOSTIC_INFORMATION_SID,
        ((group_of_dtc / 65536) % 256) as u8,
        ((group_of_dtc / 256) % 256) as u8,
        (group_of_dtc % 256) as u8,
    ];
    assert(request@ =~= seq![CLEAR_DIAGNOSTIC_INFORMATION_SID] + u24_be_bytes(group_of_dtc));
    request
}

/// Parses the response to ClearDiagnosticInformation.
pub fn parse_clear_diagnostic_information_response(raw_response: &[u8]) -> (result:
    EcuResponseResult)
    ensures
        outcome(result) == clear_diagnostic_information_response(raw_response@),
        raw_response@.len() == 0 ==> outcome(result) == Err::<UdsResponseView, UdsErrorView>(
            UdsErrorView::ResponseEmpty,
        ),
        raw_response@.len() > 0 && raw_response@[0] != CLEAR_DIAGNOSTIC_INFORMATION_SID + SEND_RECEIVE_SID_OFFSET
            ==> outcome(result) == Err::<UdsResponseView, UdsErrorView>(
            sid_mismatch(raw_response@, CLEAR_DIAGNOSTIC_INFORMATION_SID),
        ),
{
    match check_header(raw_response, CLEAR_DIAGNOSTIC_INFORMATION_SID) {
        Err(error) => {
            return Err(error);
        },
        Ok(()) => {},
    }
    Ok(UdsResponse::ClearDiagnosticInformation)
}

/// A request holds its group of trouble codes, as far as three bytes hold
/// it, and the positive response to it parses.
///
/// The response is the request's first byte with the response identifier
/// in place of the service identifier.
pub proof fn lemma_clear_diagnostic_information_round_trip(group_of_dtc: u32)
    ensures
        ({
            let request = clear_diagnostic_information_request(group_of_dtc);
            let response = seq![positive_response_sid(request[0])];
            &&& request.len() == 4
            &&& u24_from_be(request[1], request[2], request[3]) == group_of_dtc % 0x100_0000
            &&& clear_diagnostic_information_response(response) == Ok::<
                UdsResponseView,
                UdsErrorView,
            >(UdsResponseView::ClearDiagnosticInformation)
        }),
{
    lemma_u24_round_trip(group_of_dtc);
}

} // verus!
