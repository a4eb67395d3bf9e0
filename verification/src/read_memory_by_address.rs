//! ReadMemoryByAddress (0x23): read a range of the server's memory.
use vstd::prelude::*;
use vstd::slice::{slice_subrange, slice_to_vec};
use crate::definitions::SEND_RECEIVE_SID_OFFSET;
use crate::error::{UdsError, UdsErrorView};
use crate::response::{
    check_header, header_error, outcome, positive_response_sid, sid_mismatch, DataFormat,
    DataFormatView, EcuResponseResult, ResponseOutcome, UdsResponse, UdsResponseView,
};
use crate::wire::{
    append_be, be_bytes, be_value, byte_width, lemma_be_bytes_len, lemma_be_value_of_be_bytes,
    lemma_significant_bytes_bound, pow256, significant_bytes,
};

verus! {

/// Service identifier of ReadMemoryByAddress requests.
pub const READ_MEMORY_BY_ADDRESS_SID: u8 = 0x23;

/// Positive response to ReadMemoryByAddress: the bytes that were read.
#[derive(Debug, PartialEq)]
pub struct ReadMemoryByAddressResponse {
    pub data_record: Vec<u8>,
}

/// `ReadMemoryByAddressResponse` as a mathematical value.
pub struct ReadMemoryByAddressResponseView {
    pub data_record: Seq<u8>,
}

impl View for ReadMemoryByAddressResponse {
    type V = ReadMemoryByAddressResponseView;

    open spec fn view(&self) -> ReadMemoryByAddressResponseView {
        ReadMemoryByAddressResponseView { data_record: self.data_record@ }
    }
}

/// The widest field, in bytes, that a request can hold an address or a
/// size in.
pub const MAX_FIELD_WIDTH: u8 = 8;

/// The least width, in bytes, of a field that holds `value`: at least one
/// byte, also for zero.
pub open spec fn least_field_width(value: u64) -> nat {
    if value == 0 {
        1
    } else {
        significant_bytes(value as nat)
    }
}

/// The width of the field for `value`: the least one that holds it, or the
/// one that the caller chose, cut down to `MAX_FIELD_WIDTH`. `None` where
/// the caller's width cannot hold the value.
pub open spec fn field_width(value: u64, chosen: Option<u8>) -> Option<nat> {
    match chosen {
        None => Some(least_field_width(value)),
        Some(width) => {
            let width = if width > MAX_FIELD_WIDTH {
                MAX_FIELD_WIDTH
            } else {
                width
            };
            if width < least_field_width(value) {
                None
            } else {
                Some(width as nat)
            }
        },
    }
}

/// The format identifier of a request: the width of the size in its high
/// nibble, that of the address in its low one.
pub open spec fn format_identifier(address_width: nat, size_width: nat) -> nat {
    size_width * 16 + address_width
}

/// The arguments of a request for an address and a size given as numbers:
/// the format identifier, the address and the size as bytes. A width that
/// the caller chose and that is wider than its value needs pads the field
/// with zero bytes on the left; one that cannot hold the value fails with
/// `InvalidArgument`.
pub open spec fn simple_request_arguments(
    memory_address: u64,
    memory_size: u64,
    memory_address_len: Option<u8>,
    memory_size_len: Option<u8>,
) -> Result<(u8, Seq<u8>, Seq<u8>), UdsErrorView> {
    match (
        field_width(memory_address, memory_address_len),
        field_width(memory_size, memory_size_len),
    ) {
        (Some(address_width), Some(size_width)) => Ok(
            (
                format_identifier(address_width, size_width) as u8,
                be_bytes(memory_address as nat, address_width),
                be_bytes(memory_size as nat, size_width),
            ),
        ),
        _ => Err(UdsErrorView::InvalidArgument),
    }
}

/// The width chosen for one field, or `None` where the caller's width is
/// too small for the value.
fn choose_field_width(value: u64, chosen: Option<u8>) -> (width: Option<u8>)
    ensures
        match width {
            Some(width) => field_width(value, chosen) == Some(width as nat) && 1 <= width
                <= MAX_FIELD_WIDTH,
            None => field_width(value, chosen) is None,
        },
{
    let needed: u8 = if value == 0 {
        1
    } else {
        byte_width(value)
    };
    match chosen {
        None => Some(needed),
        Some(width) => {
            let width: u8 = if width > MAX_FIELD_WIDTH {
                MAX_FIELD_WIDTH
            } else {
                width
            };
            if width < needed {
                None
            } else {
                Some(width)
            }
        },
    }
}

/// Turns an address and a size given as numbers into the arguments of a
/// request: the format identifier and the two fields as bytes, most
/// significant byte first.
///
/// Each field is as wide as its value needs, or as wide as the caller
/// chose; a chosen width above `MAX_FIELD_WIDTH` counts as
/// `MAX_FIELD_WIDTH`. The fields, read as numbers again, are the address
/// and the size.
pub fn convert_from_simple_to_normal(
    memory_address: u64,
    memory_size: u64,
    memory_address_len: Option<u8>,
    memory_size_len: Option<u8>,
) -> (result: Result<(u8, Vec<u8>, Vec<u8>), UdsError>)
    ensures
        match result {
            Ok((format, address, size)) => simple_request_arguments(
                memory_address,
                memory_size,
                memory_address_len,
                memory_size_len,
            ) == Ok::<(u8, Seq<u8>, Seq<u8>), UdsErrorView>((format, address@, size@)),
            Err(error) => simple_request_arguments(
                memory_address,
                memory_size,
                memory_address_len,
                memory_size_len,
            ) == Err::<(u8, Seq<u8>, Seq<u8>), UdsErrorView>(error@),
        },
        memory_address_len matches Some(width) && width < least_field_width(memory_address)
            ==> result matches Err(UdsError::InvalidArgument),
        memory_size_len matches Some(width) && width < least_field_width(memory_size)
            ==> result matches Err(UdsError::InvalidArgument),
        result matches Ok((format, address, size)) ==> {
            &&& be_value(address@) == memory_address
            &&& be_value(size@) == memory_size
            &&& format == size@.len() * 16 + address@.len()
            &&& 1 <= address@.len() <= MAX_FIELD_WIDTH
            &&& 1 <= size@.len() <= MAX_FIELD_WIDTH
        },
{
    let address_width: u8 = match choose_field_width(memory_address, memory_address_len) {
        Some(width) => width,
        None => {
            return Err(UdsError::InvalidArgument);
        },
    };
    let size_width: u8 = match choose_field_width(memory_size, memory_size_len) {
        Some(width) => width,
        None => {
            return Err(UdsError::InvalidArgument);
        },
    };
    let format: u8 = size_width * 16 + address_width;
    let mut address: Vec<u8> = Vec::new();
    append_be(&mut address, memory_address, address_width);
    let mut size: Vec<u8> = Vec::new();
    append_be(&mut size, memory_size, size_width);
    proof {
        assert(address@ =~= be_bytes(memory_address as nat, address_width as nat));
        assert(size@ =~= be_bytes(memory_size as nat, size_width as nat));
        lemma_be_bytes_len(memory_address as nat, address_width as nat);
        lemma_be_bytes_len(memory_size as nat, size_width as nat);
        lemma_be_value_of_be_bytes(memory_address as nat, address_width as nat);
        lemma_be_value_of_be_bytes(memory_size as nat, size_width as nat);
    }
    Ok((format, address, size))
}

/// What a response to ReadMemoryByAddress stands for: the response
/// identifier, and then the bytes that were read.
pub open spec fn read_memory_by_address_response(raw_response: Seq<u8>) -> ResponseOutcome {
    if let Some(error) = header_error(raw_response, READ_MEMORY_BY_ADDRESS_SID) {
        Err(error)
    } else {
        Ok(
            UdsResponseView::ReadMemoryByAddress(
                DataFormatView::Parsed(
                    ReadMemoryByAddressResponseView {
                        data_record: raw_response.subrange(1, raw_response.len() as int),
                    },
                ),
            ),
        )
    }
}

/// The bytes of a request: the service identifier, the format identifier,
/// the address and the size.
pub open spec fn read_memory_by_address_request(
    address_and_memory_length_format_identifier: u8,
    memory_address: Seq<u8>,
    memory_size: Seq<u8>,
) -> Seq<u8> {
    seq![READ_MEMORY_BY_ADDRESS_SID, address_and_memory_length_format_identifier] + memory_address
        + memory_size
}

/// Composes a request from its parts as they go on the wire.
pub fn formulate_request(
    address_and_memory_length_format_identifier: u8,
    memory_address: &[u8],
    memory_size: &[u8],
) -> (request: Vec<u8>)
    ensures
        request@ == read_memory_by_address_request(
            address_and_memory_length_format_identifier,
            memory_address@,
            memory_size@,
        ),
{
    let mut request: Vec<u8> = vec![
        READ_MEMORY_BY_ADDRESS_SID,
        address_and_memory_length_format_identifier,
    ];
    request.extend_from_slice(memory_address);
    request.extend_from_slice(memory_size);
    assert(request@ =~= seq![
        READ_MEMORY_BY_ADDRESS_SID,
        address_and_memory_length_format_identifier,
    ] + memory_address@ + memory_size@);
    request
}

/// Parses the response to ReadMemoryByAddress.
pub fn parse_response(raw_response: &[u8]) -> (result: EcuResponseResult)
    ensures
        outcome(result) == read_memory_by_address_response(raw_response@),
        raw_response@.len() == 0 ==> outcome(result) == Err::<UdsResponseView, UdsErrorView>(
            UdsErrorView::ResponseEmpty,
        ),
        raw_response@.len() > 0 && raw_response@[0] != READ_MEMORY_BY_ADDRESS_SID + SEND_RECEIVE_SID_OFFSET
            ==> outcome(result) == Err::<UdsResponseView, UdsErrorView>(
            sid_mismatch(raw_response@, READ_MEMORY_BY_ADDRESS_SID),
        ),
{
    match check_header(raw_response, READ_MEMORY_BY_ADDRESS_SID) {
        Err(error) => {
            return Err(error);
        },
        Ok(()) => {},
    }
    let data_record = slice_to_vec(slice_subrange(raw_response, 1, raw_response.len()));
    Ok(
        UdsResponse::ReadMemoryByAddress(
            DataFormat::Parsed(ReadMemoryByAddressResponse { data_record }),
        ),
    )
}

/// The arguments made of an address and a size hold both: each field, read
/// as a number, is the value it was made of, and the format identifier
/// names the widths of the two fields, each from one to `MAX_FIELD_WIDTH`
/// bytes.
pub proof fn lemma_simple_request_arguments_round_trip(
    memory_address: u64,
    memory_size: u64,
    memory_address_len: Option<u8>,
    memory_size_len: Option<u8>,
)
    ensures
        simple_request_arguments(
            memory_address,
            memory_size,
            memory_address_len,
            memory_size_len,
        ) matches Ok((format, address, size)) ==> {
            &&& be_value(address) == memory_address
            &&& be_value(size) == memory_size
            &&& 1 <= address.len() <= MAX_FIELD_WIDTH
            &&& 1 <= size.len() <= MAX_FIELD_WIDTH
            &&& format % 16 == address.len()
            &&& format / 16 == size.len()
        },
{
    let arguments = simple_request_arguments(
        memory_address,
        memory_size,
        memory_address_len,
        memory_size_len,
    );
    if arguments is Ok {
        let address_width = field_width(memory_address, memory_address_len)->0;
        let size_width = field_width(memory_size, memory_size_len)->0;
        reveal_with_fuel(pow256, 9);
        assert(pow256(8) == 0x1_0000_0000_0000_0000);
        lemma_significant_bytes_bound(memory_address as nat, 8);
        lemma_significant_bytes_bound(memory_size as nat, 8);
        lemma_be_bytes_len(memory_address as nat, address_width);
        lemma_be_bytes_len(memory_size as nat, size_width);
        lemma_be_value_of_be_bytes(memory_address as nat, address_width);
        lemma_be_value_of_be_bytes(memory_size as nat, size_width);
    }
}

/// A request holds the parts that it was composed of, and the positive
/// response to it, parsed, holds the bytes that the response was made of.
///
/// The response is the response identifier for the request's service
/// identifier, followed by `data_record`.
pub proof fn lemma_read_memory_by_address_round_trip(
    address_and_memory_length_format_identifier: u8,
    memory_address: Seq<u8>,
    memory_size: Seq<u8>,
    data_record: Seq<u8>,
)
    ensures
        ({
            let request = read_memory_by_address_request(
                address_and_memory_length_format_identifier,
                memory_address,
                memory_size,
            );
            let response = seq![positive_response_sid(request[0])] + data_record;
            let size_at = 2 + memory_address.len();
            &&& request.len() == 2 + memory_address.len() + memory_size.len()
            &&& request[1] == address_and_memory_length_format_identifier
            &&& request.subrange(2, size_at as int) == memory_address
            &&& request.subrange(size_at as int, request.len() as int) == memory_size
            &&& read_memory_by_address_response(response) == Ok::<UdsResponseView, UdsErrorView>(
                UdsResponseView::ReadMemoryByAddress(
                    DataFormatView::Parsed(ReadMemoryByAddressResponseView { data_record }),
                ),
            )
        }),
{
    let request = read_memory_by_address_request(
        address_and_memory_length_format_identifier,
        memory_address,
        memory_size,
    );
    let response = seq![positive_response_sid(READ_MEMORY_BY_ADDRESS_SID)] + data_record;
    let size_at = 2 + memory_address.len();
    assert(response.subrange(1, response.len() as int) =~= data_record);
    assert(request.subrange(2, size_at as int) =~= memory_address);
    assert(request.subrange(size_at as int, request.len() as int) =~= memory_size);
}

} // verus!
