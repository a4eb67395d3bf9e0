use uds_rs::{
    parse_for_error, NegativeResponseCode, NrcData, ServiceIdentifier, UdsError,
    NEGATIVE_RESPONSE_SID,
};

#[test]
fn test_parse_for_error_wrong_nrc() {
    let raw_response = vec![NEGATIVE_RESPONSE_SID, 0x11, 0xff];
    let expected = UdsError::UnknownNRC {
        rejected_sid: 0x11,
        unknown_nrc: 0xff,
    };
    let result = parse_for_error(&raw_response);
    assert_eq!(Err(expected), result);
}

#[test]
fn test_parse_for_error_positive_response_is_ok() {
    assert_eq!(parse_for_error(&[0x51, 0x01]), Ok(()));
    assert_eq!(parse_for_error(&[0x00]), Ok(()));
    assert_eq!(parse_for_error(&[0x7E, 0x11, 0x22]), Ok(()));
}

#[test]
fn test_parse_for_error_empty_response() {
    assert_eq!(parse_for_error(&[]), Err(UdsError::ResponseEmpty));
}

#[test]
fn test_parse_for_error_short_negative_response() {
    assert_eq!(parse_for_error(&[0x7F]), Err(UdsError::ResponseEmpty));
    assert_eq!(parse_for_error(&[0x7F, 0x11]), Err(UdsError::ResponseEmpty));
}

#[test]
fn test_parse_for_error_known_nrc() {
    let result = parse_for_error(&[0x7F, 0x22, 0x31]);
    assert_eq!(
        result,
        Err(UdsError::NRC {
            nrc: NrcData {
                rejected_sid: 0x22,
                nrc: NegativeResponseCode::RequestOutOfRange,
            }
        })
    );
}

#[test]
fn test_parse_for_error_ignores_bytes_after_the_code() {
    let result = parse_for_error(&[0x7F, 0x19, 0x78, 0xAA, 0xBB]);
    assert_eq!(
        result,
        Err(UdsError::NRC {
            nrc: NrcData {
                rejected_sid: 0x19,
                nrc: NegativeResponseCode::RequestCorrectlyReceivedResponsePending,
            }
        })
    );
}

#[test]
fn test_negative_response_code_bytes() {
    assert_eq!(u8::from(NegativeResponseCode::PositiveResponse), 0x00);
    assert_eq!(u8::from(NegativeResponseCode::BusyRepeatRequest), 0x21);
    assert_eq!(
        u8::from(NegativeResponseCode::RequestCorrectlyReceivedResponsePending),
        0x78
    );
    assert_eq!(u8::from(NegativeResponseCode::VoltageTooLow), 0x93);
    assert_eq!(
        NegativeResponseCode::try_from(0x33),
        Ok(NegativeResponseCode::SecurityAccessDenied)
    );
    assert_eq!(NegativeResponseCode::try_from(0x8E), Err(0x8E));
    assert_eq!(NegativeResponseCode::try_from(0x01), Err(0x01));
}

#[test]
fn test_negative_response_code_round_trip_over_all_bytes() {
    let mut known = 0;
    for byte in 0..=255u8 {
        if let Ok(code) = NegativeResponseCode::try_from(byte) {
            assert_eq!(u8::from(code), byte);
            known += 1;
        }
    }
    assert_eq!(known, 41);
}

#[test]
fn test_service_identifier_bytes() {
    assert_eq!(u8::from(ServiceIdentifier::DiagnosticSessionControl), 0x10);
    assert_eq!(u8::from(ServiceIdentifier::EcuReset), 0x11);
    assert_eq!(u8::from(ServiceIdentifier::ClearDiagnosticInformation), 0x14);
    assert_eq!(u8::from(ServiceIdentifier::ReadDtcInformation), 0x19);
    assert_eq!(u8::from(ServiceIdentifier::ReadDataByIdentifier), 0x22);
    assert_eq!(u8::from(ServiceIdentifier::ReadMemoryByAddress), 0x23);
    assert_eq!(u8::from(ServiceIdentifier::WriteDataByIdentifier), 0x2E);
    assert_eq!(u8::from(ServiceIdentifier::NegativeResponse), 0x7F);
    assert_eq!(
        ServiceIdentifier::try_from(0x3E),
        Ok(ServiceIdentifier::TesterPresent)
    );
    assert_eq!(ServiceIdentifier::try_from(0x12), Err(0x12));
}

#[test]
fn test_service_identifier_round_trip_over_all_bytes() {
    let mut known = 0;
    for byte in 0..=255u8 {
        if let Ok(sid) = ServiceIdentifier::try_from(byte) {
            assert_eq!(u8::from(sid), byte);
            known += 1;
        }
    }
    assert_eq!(known, 28);
}

#[test]
fn test_received_sid_offset() {
    assert_eq!(uds_rs::to_received_sid(0x22), 0x62);
    assert_eq!(uds_rs::to_received_sid(0x00), 0x40);
    assert_eq!(uds_rs::to_received_sid(0xBF), 0xFF);
    assert_eq!(uds_rs::from_received_sid(0x62), 0x22);
    assert_eq!(uds_rs::from_received_sid(0x40), 0x00);
    assert_eq!(uds_rs::from_received_sid(0xFF), 0xBF);
    assert_eq!(uds_rs::SEND_RECEIVE_SID_OFFSET, 0x40);
}
