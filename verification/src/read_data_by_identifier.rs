//! ReadDataByIdentifier (0x22): read data records of the server by their
//! identifiers.
//!
//! A response holds, for each identifier, the identifier and then its data,
//! but not how long the data is. So a response to several identifiers can
//! only be taken apart by a caller who knows the lengths. A response to a
//! single identifier needs no length: its data runs to the end of the
//! message.
use vstd::prelude::*;
use vstd::slice::{slice_subrange, slice_to_vec};
use crate::definitions::SEND_RECEIVE_SID_OFFSET;
use crate::error::{UdsError, UdsErrorView};
use crate::response::{
    check_header, header_error, invalid_length, outcome, positive_response_sid, sid_mismatch,
    DataFormat, DataFormatView, EcuResponseResult, ResponseOutcome, UdsResponse, UdsResponseView,
};
use crate::wire::{lemma_u16_round_trip, read_u16_be, u16_be_bytes, u16_from_be};

verus! {

/// Service identifier of ReadDataByIdentifier requests.
pub const READ_DATA_BY_IDENTIFIER_SID: u8 = 0x22;

/// One record of a response: an identifier and its data.
#[derive(Debug, PartialEq)]
pub struct DataRecord {
    pub data_identifier: u16,
    pub data: Vec<u8>,
}

/// `DataRecord` as a mathematical value.
pub struct DataRecordView {
    pub data_identifier: u16,
    pub data: Seq<u8>,
}

impl View for DataRecord {
    type V = DataRecordView;

    open spec fn view(&self) -> DataRecordView {
        DataRecordView { data_identifier: self.data_identifier, data: self.data@ }
    }
}

/// Positive response to ReadDataByIdentifier, taken apart into its records.
#[derive(Debug, PartialEq)]
pub struct ReadDataByIdentifierResponse {
    pub data_records: Vec<DataRecord>,
}

/// `ReadDataByIdentifierResponse` as a mathematical value.
pub struct ReadDataByIdentifierResponseView {
    pub data_records: Seq<DataRecordView>,
}

impl View for ReadDataByIdentifierResponse {
    type V = ReadDataByIdentifierResponseView;

    open spec fn view(&self) -> ReadDataByIdentifierResponseView {
        ReadDataByIdentifierResponseView {
            data_records: self.data_records@.map_values(|record: DataRecord| record@),
        }
    }
}

/// The length that stands for "to the end of the message" in a pair of
/// identifier and length.
pub const TO_END_OF_MESSAGE: u32 = u32::MAX;

/// The records that `raw_response` holds from `position` on, for the pairs
/// of identifier and length in `expected`, in their order.
///
/// Each record is its identifier in two bytes and then its data: as many
/// bytes as the pair says, or, where the pair's length is
/// `TO_END_OF_MESSAGE`, all that is left. The first record that the
/// message is too short for fails with `InvalidLength`, the first
/// identifier that is another than expected with `DidMismatch`. Bytes
/// after the last record are not looked at.
pub open spec fn records_from(expected: Seq<(u16, u32)>, raw_response: Seq<u8>, position: int)
    -> Result<Seq<DataRecordView>, UdsErrorView>
    decreases expected.len(),
{
    if expected.len() == 0 {
        Ok(Seq::empty())
    } else if raw_response.len() - position < 2 {
        Err(UdsErrorView::InvalidLength { raw_message: raw_response })
    } else {
        let data_identifier = u16_from_be(raw_response[position], raw_response[position + 1]);
        let end = if expected[0].1 == TO_END_OF_MESSAGE {
            raw_response.len() as int
        } else {
            position + 2 + expected[0].1
        };
        if data_identifier != expected[0].0 {
            Err(
                UdsErrorView::DidMismatch {
                    expected: expected[0].0,
                    received: data_identifier,
                    raw_message: raw_response,
                },
            )
        } else if end > raw_response.len() {
            Err(UdsErrorView::InvalidLength { raw_message: raw_response })
        } else {
            after_records(
                seq![
                    DataRecordView {
                        data_identifier,
                        data: raw_response.subrange(position + 2, end),
                    },
                ],
                records_from(expected.skip(1), raw_response, end),
            )
        }
    }
}

/// The records `first`, followed by those of `rest`, where `rest` has any.
pub open spec fn after_records(
    first: Seq<DataRecordView>,
    rest: Result<Seq<DataRecordView>, UdsErrorView>,
) -> Result<Seq<DataRecordView>, UdsErrorView> {
    match rest {
        Ok(records) => Ok(first + records),
        Err(error) => Err(error),
    }
}

/// What a response stands for whose records have the identifiers and
/// lengths in `expected`.
pub open spec fn read_data_by_identifier_tuple_response(
    expected: Seq<(u16, u32)>,
    raw_response: Seq<u8>,
) -> ResponseOutcome {
    if let Some(error) = header_error(raw_response, READ_DATA_BY_IDENTIFIER_SID) {
        Err(error)
    } else {
        match records_from(expected, raw_response, 1) {
            Ok(data_records) => Ok(
                UdsResponseView::ReadDataByIdentifier(
                    DataFormatView::Parsed(ReadDataByIdentifierResponseView { data_records }),
                ),
            ),
            Err(error) => Err(error),
        }
    }
}

/// Parses a response record by record, given the identifier and the length
/// of each record that is expected. The length `TO_END_OF_MESSAGE` takes
/// all that is left of the message; it is meant for a request of a single
/// identifier.
pub fn parse_read_data_by_identifier_tuple_response(
    data_identifiers_and_lengths: &[(u16, u32)],
    raw_response: &[u8],
) -> (result: EcuResponseResult)
    ensures
        outcome(result) == read_data_by_identifier_tuple_response(
            data_identifiers_and_lengths@,
            raw_response@,
        ),
        raw_response@.len() == 0 ==> outcome(result) == Err::<UdsResponseView, UdsErrorView>(
            UdsErrorView::ResponseEmpty,
        ),
        raw_response@.len() > 0 && raw_response@[0] != READ_DATA_BY_IDENTIFIER_SID
            + SEND_RECEIVE_SID_OFFSET ==> outcome(result) == Err::<UdsResponseView, UdsErrorView>(
            sid_mismatch(raw_response@, READ_DATA_BY_IDENTIFIER_SID),
        ),
{
    match check_header(raw_response, READ_DATA_BY_IDENTIFIER_SID) {
        Err(error) => {
            return Err(error);
        },
        Ok(()) => {},
    }
    let len: usize = raw_response.len();
    let count: usize = data_identifiers_and_lengths.len();
    let mut data_records: Vec<DataRecord> = Vec::new();
    let mut position: usize = 1;
    let mut index: usize = 0;
    proof {
        let none = data_records@.map_values(|record: DataRecord| record@);
        let all = records_from(data_identifiers_and_lengths@, raw_response@, 1);
        assert(data_identifiers_and_lengths@.skip(0) =~= data_identifiers_and_lengths@);
        assert(match all {
            Ok(records) => none + records =~= records,
            Err(_) => true,
        });
    }
    while index < count
        invariant
            len == raw_response@.len(),
            count == data_identifiers_and_lengths@.len(),
            header_error(raw_response@, READ_DATA_BY_IDENTIFIER_SID) is None,
            index <= count,
            1 <= position <= len,
            records_from(data_identifiers_and_lengths@, raw_response@, 1) == after_records(
                data_records@.map_values(|record: DataRecord| record@),
                records_from(
                    data_identifiers_and_lengths@.skip(index as int),
                    raw_response@,
                    position as int,
                ),
            ),
        decreases count - index,
    {
        let ghost rest = data_identifiers_and_lengths@.skip(index as int);
        let ghost before = data_records@.map_values(|record: DataRecord| record@);
        assert(rest.len() > 0 && rest[0] == data_identifiers_and_lengths@[index as int]);
        assert(rest.skip(1) =~= data_identifiers_and_lengths@.skip(index + 1));
        let (expected, data_len) = data_identifiers_and_lengths[index];
        if len - position < 2 {
            return Err(invalid_length(raw_response));
        }
        let received: u16 = read_u16_be(raw_response[position], raw_response[position + 1]);
        if received != expected {
            return Err(
                UdsError::DidMismatch {
                    expected,
                    received,
                    raw_message: slice_to_vec(raw_response),
                },
            );
        }
        let start: usize = position + 2;
        let end: usize = if data_len == TO_END_OF_MESSAGE {
            len
        } else if data_len as usize > len - start {
            return Err(invalid_length(raw_response));
        } else {
            start + data_len as usize
        };
        let data = slice_to_vec(slice_subrange(raw_response, start, end));
        let record = DataRecord { data_identifier: received, data };
        data_records.push(record);
        proof {
            let after = data_records@.map_values(|record: DataRecord| record@);
            let next = records_from(rest.skip(1), raw_response@, end as int);
            assert(after =~= before + seq![record@]);
            assert(match next {
                Ok(records) => before + (seq![record@] + records) =~= after + records,
                Err(_) => true,
            });
        }
        position = end;
        index = index + 1;
    }
    proof {
        let all = data_records@.map_values(|record: DataRecord| record@);
        assert(data_identifiers_and_lengths@.skip(index as int).len() == 0);
        assert(all + Seq::<DataRecordView>::empty() =~= all);
    }
    Ok(
        UdsResponse::ReadDataByIdentifier(
            DataFormat::Parsed(ReadDataByIdentifierResponse { data_records }),
        ),
    )
}

/// The bytes of a request for `data_identifiers`: the service identifier,
/// then each identifier in two bytes, in their order.
pub open spec fn read_data_by_identifier_request(data_identifiers: Seq<u16>) -> Seq<u8> {
    Seq::new(
        1 + 2 * data_identifiers.len(),
        |i: int|
            if i == 0 {
                READ_DATA_BY_IDENTIFIER_SID
            } else {
                u16_be_bytes(data_identifiers[(i - 1) / 2])[(i - 1) % 2]
            },
    )
}

/// What a response stands for of which only the identifiers that were
/// asked for are known, and there are several of them: the bytes after the
/// response identifier, as they came.
pub open spec fn read_data_by_identifier_response(raw_response: Seq<u8>) -> ResponseOutcome {
    if let Some(error) = header_error(raw_response, READ_DATA_BY_IDENTIFIER_SID) {
        Err(error)
    } else {
        Ok(
            UdsResponseView::ReadDataByIdentifier(
                DataFormatView::Raw(raw_response.subrange(1, raw_response.len() as int)),
            ),
        )
    }
}

/// Composes the request for the data records `data_identifiers`.
pub fn compose_read_data_by_identifier_request(data_identifiers: &[u16]) -> (request: Vec<u8>)
    ensures
        request@ == read_data_by_identifier_request(data_identifiers@),
{
    let mut request: Vec<u8> = vec![READ_DATA_BY_IDENTIFIER_SID];
    let mut index: usize = 0;
    while index < data_identifiers.len()
        invariant
            index <= data_identifiers@.len(),
            request@.len() == 1 + 2 * index,
            forall|i: int|
                0 <= i < request@.len() ==> request@[i] == read_data_by_identifier_request(
                    data_identifiers@,
                )[i],
        decreases data_identifiers@.len() - index,
    {
        let data_identifier: u16 = data_identifiers[index];
        request.push((data_identifier / 256) as u8);
        request.push((data_identifier % 256) as u8);
        index = index + 1;
    }
    assert(request@ =~= read_data_by_identifier_request(data_identifiers@));
    request
}

/// Parses the response to a request for several identifiers whose lengths
/// are not known: the payload stays undecoded.
pub fn parse_read_data_by_identifier_response(raw_response: &[u8]) -> (result: EcuResponseResult)
    ensures
        outcome(result) == read_data_by_identifier_response(raw_response@),
        raw_response@.len() == 0 ==> outcome(result) == Err::<UdsResponseView, UdsErrorView>(
            UdsErrorView::ResponseEmpty,
        ),
        raw_response@.len() > 0 && raw_response@[0] != READ_DATA_BY_IDENTIFIER_SID + SEND_RECEIVE_SID_OFFSET
            ==> outcome(result) == Err::<UdsResponseView, UdsErrorView>(
            sid_mismatch(raw_response@, READ_DATA_BY_IDENTIFIER_SID),
        ),
{
    match check_header(raw_response, READ_DATA_BY_IDENTIFIER_SID) {
        Err(error) => {
            return Err(error);
        },
        Ok(()) => {},
    }
    let payload = slice_to_vec(slice_subrange(raw_response, 1, raw_response.len()));
    Ok(UdsResponse::ReadDataByIdentifier(DataFormat::Raw(payload)))
}

/// The identifiers of pairs of identifier and length, in their order.
pub open spec fn identifiers_of(expected: Seq<(u16, u32)>) -> Seq<u16> {
    Seq::new(expected.len(), |i: int| expected[i].0)
}

/// Composes the request for the data records whose identifiers and lengths
/// are `data_identifiers_and_lengths`: the lengths are kept for parsing,
/// the identifiers are asked for.
pub fn compose_read_data_by_identifier_tuple_request(
    data_identifiers_and_lengths: &[(u16, u32)],
) -> (request: Vec<u8>)
    ensures
        request@ == read_data_by_identifier_request(
            identifiers_of(data_identifiers_and_lengths@),
        ),
{
    let mut data_identifiers: Vec<u16> = Vec::new();
    let mut index: usize = 0;
    while index < data_identifiers_and_lengths.len()
        invariant
            index <= data_identifiers_and_lengths@.len(),
            data_identifiers@.len() == index,
            forall|i: int|
                0 <= i < index ==> data_identifiers@[i] == data_identifiers_and_lengths@[i].0,
        decreases data_identifiers_and_lengths@.len() - index,
    {
        data_identifiers.push(data_identifiers_and_lengths[index].0);
        index = index + 1;
    }
    assert(data_identifiers@ =~= identifiers_of(data_identifiers_and_lengths@));
    compose_read_data_by_identifier_request(data_identifiers.as_slice())
}

/// What a response to a request for `data_identifiers` stands for, where
/// no lengths are known. To a single identifier belongs all that follows
/// it in the message, so the response is taken apart; a response to any
/// other number of identifiers stays undecoded.
pub open spec fn read_data_by_identifiers_response(
    data_identifiers: Seq<u16>,
    raw_response: Seq<u8>,
) -> ResponseOutcome {
    if data_identifiers.len() == 1 {
        read_data_by_identifier_tuple_response(
            seq![(data_identifiers[0], TO_END_OF_MESSAGE)],
            raw_response,
        )
    } else {
        read_data_by_identifier_response(raw_response)
    }
}

/// Parses the response to a request for `data_identifiers`, of which no
/// lengths are known.
pub fn parse_read_data_by_identifiers_response(
    data_identifiers: &[u16],
    raw_response: &[u8],
) -> (result: EcuResponseResult)
    ensures
        outcome(result) == read_data_by_identifiers_response(data_identifiers@, raw_response@),
        raw_response@.len() == 0 ==> outcome(result) == Err::<UdsResponseView, UdsErrorView>(
            UdsErrorView::ResponseEmpty,
        ),
        raw_response@.len() > 0 && raw_response@[0] != READ_DATA_BY_IDENTIFIER_SID
            + SEND_RECEIVE_SID_OFFSET ==> outcome(result) == Err::<UdsResponseView, UdsErrorView>(
            sid_mismatch(raw_response@, READ_DATA_BY_IDENTIFIER_SID),
        ),
{
    if data_identifiers.len() == 1 {
        let expected: [(u16, u32); 1] = [(data_identifiers[0], TO_END_OF_MESSAGE)];
        assert(expected@ =~= seq![(data_identifiers@[0], TO_END_OF_MESSAGE)]);
        parse_read_data_by_identifier_tuple_response(expected.as_slice(), raw_response)
    } else {
        parse_read_data_by_identifier_response(raw_response)
    }
}

/// The bytes that hold `records` in a response, one record after the
/// other: each is its identifier in two bytes and then its data.
pub open spec fn records_bytes(records: Seq<DataRecordView>) -> Seq<u8>
    decreases records.len(),
{
    if records.len() == 0 {
        Seq::empty()
    } else {
        u16_be_bytes(records[0].data_identifier) + records[0].data + records_bytes(records.skip(1))
    }
}

/// The identifier of each of `records`, with the length of its data.
pub open spec fn identifiers_and_lengths(records: Seq<DataRecordView>) -> Seq<(u16, u32)> {
    Seq::new(
        records.len(),
        |i: int| (records[i].data_identifier, records[i].data.len() as u32),
    )
}

/// Records written one after the other, behind any bytes `head`, are read
/// back from there as they were, given their identifiers and lengths.
pub proof fn lemma_records_round_trip(head: Seq<u8>, records: Seq<DataRecordView>)
    requires
        forall|i: int| 0 <= i < records.len() ==> (#[trigger] records[i]).data.len()
            < TO_END_OF_MESSAGE,
    ensures
        records_from(
            identifiers_and_lengths(records),
            head + records_bytes(records),
            head.len() as int,
        ) == Ok::<Seq<DataRecordView>, UdsErrorView>(records),
    decreases records.len(),
{
    let expected = identifiers_and_lengths(records);
    let raw_response = head + records_bytes(records);
    if records.len() == 0 {
        assert(records =~= Seq::<DataRecordView>::empty());
    } else {
        let first = records[0];
        let rest = records.skip(1);
        let position = head.len() as int;
        let end = position + 2 + first.data.len();
        let longer_head = head + u16_be_bytes(first.data_identifier) + first.data;
        assert(raw_response =~= longer_head + records_bytes(rest));
        assert forall|i: int| 0 <= i < rest.len() implies (#[trigger] rest[i]).data.len()
            < TO_END_OF_MESSAGE by {
            assert(rest[i] == records[i + 1]);
        }
        lemma_records_round_trip(longer_head, rest);
        assert(expected.skip(1) =~= identifiers_and_lengths(rest));
        lemma_u16_round_trip(first.data_identifier);
        assert(raw_response[position] == u16_be_bytes(first.data_identifier)[0]);
        assert(raw_response[position + 1] == u16_be_bytes(first.data_identifier)[1]);
        assert(raw_response.subrange(position + 2, end) =~= first.data);
        assert(seq![first] + rest =~= records);
        assert(expected[0] == (first.data_identifier, first.data.len() as u32));
    }
}

/// A positive response to a request for data records, parsed with the
/// identifiers that the request asked for and the lengths of the records,
/// gives the records that the response was made of.
///
/// The response is the response identifier for the request's service
/// identifier, followed by the records. No record is as long as the
/// length that stands for "to the end of the message".
pub proof fn lemma_read_data_by_identifier_round_trip(records: Seq<DataRecordView>)
    requires
        forall|i: int| 0 <= i < records.len() ==> (#[trigger] records[i]).data.len()
            < TO_END_OF_MESSAGE,
    ensures
        ({
            let expected = identifiers_and_lengths(records);
            let request = read_data_by_identifier_request(identifiers_of(expected));
            let response = seq![positive_response_sid(request[0])] + records_bytes(records);
            read_data_by_identifier_tuple_response(expected, response) == Ok::<
                UdsResponseView,
                UdsErrorView,
            >(
                UdsResponseView::ReadDataByIdentifier(
                    DataFormatView::Parsed(
                        ReadDataByIdentifierResponseView { data_records: records },
                    ),
                ),
            )
        }),
{
    lemma_records_round_trip(
        seq![positive_response_sid(READ_DATA_BY_IDENTIFIER_SID)],
        records,
    );
}

/// For a single identifier with the length that stands for "to the end of
/// the message", all that follows the identifier in the response is the
/// data of the one record, however long it is.
pub proof fn lemma_single_identifier_takes_all(data_identifier: u16, data: Seq<u8>)
    ensures
        ({
            let response = seq![positive_response_sid(READ_DATA_BY_IDENTIFIER_SID)] + u16_be_bytes(
                data_identifier,
            ) + data;
            &&& read_data_by_identifier_tuple_response(
                seq![(data_identifier, TO_END_OF_MESSAGE)],
                response,
            ) == Ok::<UdsResponseView, UdsErrorView>(
                UdsResponseView::ReadDataByIdentifier(
                    DataFormatView::Parsed(
                        ReadDataByIdentifierResponseView {
                            data_records: seq![DataRecordView { data_identifier, data }],
                        },
                    ),
                ),
            )
            &&& read_data_by_identifiers_response(seq![data_identifier], response)
                == read_data_by_identifier_tuple_response(
                seq![(data_identifier, TO_END_OF_MESSAGE)],
                response,
            )
        }),
{
    let response = seq![positive_response_sid(READ_DATA_BY_IDENTIFIER_SID)] + u16_be_bytes(
        data_identifier,
    ) + data;
    let expected = seq![(data_identifier, TO_END_OF_MESSAGE)];
    reveal_with_fuel(records_from, 2);
    lemma_u16_round_trip(data_identifier);
    assert(response.subrange(3, response.len() as int) =~= data);
    assert(expected.skip(1).len() == 0);
    let one = seq![DataRecordView { data_identifier, data }];
    assert(one + Seq::<DataRecordView>::empty() =~= one);
}

/// A request holds the identifiers that it was composed for: after the
/// service identifier, each pair of bytes is one of them, in their order.
pub proof fn lemma_request_holds_identifiers(data_identifiers: Seq<u16>)
    ensures
        ({
            let request = read_data_by_identifier_request(data_identifiers);
            &&& request.len() == 1 + 2 * data_identifiers.len()
            &&& request[0] == READ_DATA_BY_IDENTIFIER_SID
            &&& forall|i: int|
                0 <= i < data_identifiers.len() ==> u16_from_be(
                    request[1 + 2 * i],
                    request[2 + 2 * i],
                ) == #[trigger] data_identifiers[i]
        }),
{
    let request = read_data_by_identifier_request(data_identifiers);
    assert forall|i: int| 0 <= i < data_identifiers.len() implies u16_from_be(
        request[1 + 2 * i],
        request[2 + 2 * i],
    ) == #[trigger] data_identifiers[i] by {
        lemma_u16_round_trip(data_identifiers[i]);
        assert(request[1 + 2 * i] == u16_be_bytes(data_identifiers[i])[0]);
        assert(request[2 + 2 * i] == u16_be_bytes(data_identifiers[i])[1]);
    }
}

/// A positive response to a request for several identifiers, parsed
/// without their lengths, holds the bytes that the response was made of.
///
/// The response is the response identifier for the request's service
/// identifier, followed by `payload`.
pub proof fn lemma_read_data_by_identifier_raw_round_trip(
    data_identifiers: Seq<u16>,
    payload: Seq<u8>,
)
    requires
        data_identifiers.len() != 1,
    ensures
        ({
            let request = read_data_by_identifier_request(data_identifiers);
            let response = seq![positive_response_sid(request[0])] + payload;
            read_data_by_identifiers_response(data_identifiers, response) == Ok::<
                UdsResponseView,
                UdsErrorView,
            >(UdsResponseView::ReadDataByIdentifier(DataFormatView::Raw(payload)))
        }),
{
    let response = seq![positive_response_sid(READ_DATA_BY_IDENTIFIER_SID)] + payload;
    assert(response.subrange(1, response.len() as int) =~= payload);
}

} // verus!
