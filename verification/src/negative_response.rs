//! Negative responses: how a server says that it rejects a request.
//!
//! A negative response is the identifier `NEGATIVE_RESPONSE_SID`, the
//! identifier of the service that was rejected, and the reason.
use vstd::prelude::*;
use crate::definitions::{NegativeResponseCode, NEGATIVE_RESPONSE_SID};
use crate::error::{NrcData, UdsError, UdsErrorView};

verus! {

/// The failure that a response stands for by being a negative response, or
/// by being too short to tell; `None` for a response that opens with
/// another identifier than `NEGATIVE_RESPONSE_SID`.
///
/// A response without any byte, or a negative response of fewer than three
/// bytes, is `ResponseEmpty`. A reason that is no known code is
/// `UnknownNRC`; any other negative response is `NRC`.
pub open spec fn negative_response_error(raw_response: Seq<u8>) -> Option<UdsErrorView> {
    if raw_response.len() == 0 {
        Some(UdsErrorView::ResponseEmpty)
    } else if raw_response[0] != NEGATIVE_RESPONSE_SID {
        None
    } else if raw_response.len() < 3 {
        Some(UdsErrorView::ResponseEmpty)
    } else {
        match NegativeResponseCode::spec_from_u8(raw_response[2]) {
            Some(nrc) => Some(
                UdsErrorView::NRC { nrc: NrcData { rejected_sid: raw_response[1], nrc } },
            ),
            None => Some(
                UdsErrorView::UnknownNRC {
                    rejected_sid: raw_response[1],
                    unknown_nrc: raw_response[2],
                },
            ),
        }
    }
}

/// Looks for a negative response in what was received: `Ok` for anything
/// that opens with another identifier than `NEGATIVE_RESPONSE_SID`, else
/// the failure that the response stands for.
pub fn parse_for_error(raw_response: &[u8]) -> (result: Result<(), UdsError>)
    ensures
        match result {
            Ok(()) => negative_response_error(raw_response@) is None,
            Err(error) => negative_response_error(raw_response@) == Some(error@),
        },
        raw_response@.len() > 0 && raw_response@[0] != NEGATIVE_RESPONSE_SID ==> result is Ok,
        raw_response@.len() >= 3 && raw_response@[0] == NEGATIVE_RESPONSE_SID
            && NegativeResponseCode::spec_from_u8(raw_response@[2]) is None ==> result == Err::<
            (),
            UdsError,
        >(UdsError::UnknownNRC { rejected_sid: raw_response@[1], unknown_nrc: raw_response@[2] }),
{
    if raw_response.len() == 0 {
        return Err(UdsError::ResponseEmpty);
    }
    if raw_response[0] != NEGATIVE_RESPONSE_SID {
        return Ok(());
    }
    if raw_response.len() < 3 {
        return Err(UdsError::ResponseEmpty);
    }
    let rejected_sid: u8 = raw_response[1];
    match NegativeResponseCode::try_from(raw_response[2]) {
        Ok(nrc) => Err(UdsError::NRC { nrc: NrcData { rejected_sid, nrc } }),
        Err(unknown_nrc) => Err(UdsError::UnknownNRC { rejected_sid, unknown_nrc }),
    }
}

} // verus!
