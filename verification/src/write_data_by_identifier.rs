//! WriteDataByIdentifier (0x2E): write one data record of the server.
use vstd::prelude::*;
use crate::definitions::SEND_RECEIVE_SID_OFFSET;
use crate::error::UdsErrorView;
use crate::response::{
    check_header, header_error, invalid_length, outcome, positive_response_sid, sid_mismatch,
    DataFormat, DataFormatView, EcuResponseResult, ResponseOutcome, UdsResponse, UdsResponseView,
};
use crate::wire::{lemma_u16_round_trip, read_u16_be, u16_be_bytes, u16_from_be};

verus! {

/// Service identifier of WriteDataByIdentifier requests.
pub const WRITE_DATA_BY_IDENTIFIER_SID: u8 = 0x2E;

/// Positive response to WriteDataByIdentifier: the identifier that was
/// written, echoed.
#[derive(Debug, Clone, Copy, PartialEq, Eq, Structural)]
pub struct WriteDataByIdentifierResponse {
    pub data_identifier: u16,
}

impl View for WriteDataByIdentifierResponse {
    type V = WriteDataByIdentifierResponse;

    open spec fn view(&self) -> WriteDataByIdentifierResponse {
        *self
    }
}

/// What a response to WriteDataByIdentifier stands for: the response
/// identifier and the data identifier in two bytes. A response of fewer
/// than three bytes fails with `InvalidLength`.
pub open spec fn write_data_by_identifier_response(raw_response: Seq<u8>) -> ResponseOutcome {
    if let Some(error) = header_error(raw_response, WRITE_DATA_BY_IDENTIFIER_SID) {
        Err(error)
    } else if raw_response.len() < 3 {
        Err(UdsErrorView::InvalidLength { raw_message: raw_response })
    } else {
        Ok(
            UdsResponseView::WriteDataByIdentifier(
                DataFormatView::Parsed(
                    WriteDataByIdentifierResponse {
                        data_identifier: u16_from_be(raw_response[1], raw_response[2]),
                    },
                ),
            ),
        )
    }
}

/// The bytes of a request to write `data_record` under `data_identifier`:
/// the service identifier, the data identifier in two bytes, the data.
pub open spec fn write_data_by_identifier_request(data_identifier: u16, data_record: Seq<u8>)
    -> Seq<u8> {
    seq![WRITE_DATA_BY_IDENTIFIER_SID] + u16_be_bytes(data_identifier) + data_record
}

/// Composes the request to write `data_record` under `data_identifier`.
pub fn compose_write_data_by_identifier_request(data_identifier: u16, data_record: &[u8]) -> (request:
    Vec<u8>)
    ensures
        request@ == write_data_by_identifier_request(data_identifier, data_record@),
{
    let mut request: Vec<u8> = vec![
        WRITE_DATA_BY_IDENTIFIER_SID,
        (data_identifier / 256) as u8,
        (data_identifier % 256) as u8,
    ];
    request.extend_from_slice(data_record);
    assert(request@ =~= seq![WRITE_DATA_BY_IDENTIFIER_SID] + u16_be_bytes(data_identifier)
        + data_record@);
    request
}

/// Parses the response to WriteDataByIdentifier.
pub fn parse_write_data_by_identifier_response(raw_response: &[u8]) -> (result: EcuResponseResult)
    ensures
        outcome(result) == write_data_by_identifier_response(raw_response@),
        raw_response@.len() == 0 ==> outcome(result) == Err::<UdsResponseView, UdsErrorView>(
            UdsErrorView::ResponseEmpty,
        ),
        raw_response@.len() > 0 && raw_response@[0] != WRITE_DATA_BY_IDENTIFIER_SID + SEND_RECEIVE_SID_OFFSET
            ==> outcome(result) == Err::<UdsResponseView, UdsErrorView>(
            sid_mismatch(raw_response@, WRITE_DATA_BY_IDENTIFIER_SID),
        ),
{
    match check_header(raw_response, WRITE_DATA_BY_IDENTIFIER_SID) {
        Err(error) => {
            return Err(error);
        },
        Ok(()) => {},
    }
    if raw_response.len() < 3 {
        return Err(invalid_length(raw_response));
    }
    let data_identifier: u16 = read_u16_be(raw_response[1], raw_response[2]);
    Ok(
        UdsResponse::WriteDataByIdentifier(
            DataFormat::Parsed(WriteDataByIdentifierResponse { data_identifier }),
        ),
    )
}

/// A request holds the data identifier and the data that it was composed
/// for, and the positive response to it, parsed, names that data
/// identifier.
///
/// The response is the first three bytes of the request, with the response
/// identifier in place of the service identifier.
pub proof fn lemma_write_data_by_identifier_round_trip(data_identifier: u16, data_record: Seq<u8>)
    ensures
        ({
            let request = write_data_by_identifier_request(data_identifier, data_record);
            let response = seq![positive_response_sid(request[0]), request[1], request[2]];
            &&& request.len() == 3 + data_record.len()
            &&& u16_from_be(request[1], request[2]) == data_identifier
            &&& request.subrange(3, request.len() as int) == data_record
            &&& write_data_by_identifier_response(response) == Ok::<UdsResponseView, UdsErrorView>(
                UdsResponseView::WriteDataByIdentifier(
                    DataFormatView::Parsed(WriteDataByIdentifierResponse { data_identifier }),
                ),
            )
        }),
{
    let request = write_data_by_identifier_request(data_identifier, data_record);
    lemma_u16_round_trip(data_identifier);
    assert(request.subrange(3, request.len() as int) =~= data_record);
}

} // verus!
