use uds_rs::{
    compose_report_dtc_ext_data_by_dtc_number_request, compose_report_dtc_snapshot_request,
    compose_report_number_of_dtc_by_status_mask_request, compose_request_short,
    parse_report_dtc_ext_data_by_dtc_number_response,
    parse_report_dtc_snapshot_record_by_dtc_number_response, parse_report_dtcs,
    parse_report_number_of_dtc_by_status_mask_response, DTCAndStatusRecord, DTCFormat, DataFormat,
    ReadDTCInformationResponse, ReportDTCsResponse, ReportNumberOfDTCByMaskResponse, SubFunction,
    UdsError, UdsResponse, READ_DTC_INFORMATION_SID, SEND_RECEIVE_SID_OFFSET,
};

// Test compose for 0x01 - ReportNumberOfDTCbyStatusMask
#[test]
fn test_compose_request_0x01() {
    let sub_function: SubFunction = SubFunction::try_from(0x1).unwrap();
    let dtc_status_mask = 0x42;
    let result = compose_report_number_of_dtc_by_status_mask_request(
        SubFunction::ReportNumberOfDTCbyStatusMask,
        dtc_status_mask,
    );
    let expected = vec![
        READ_DTC_INFORMATION_SID,
        u8::from(sub_function),
        dtc_status_mask,
    ];
    assert_eq!(result, expected);
    assert_eq!(result, vec![0x19, 0x01, 0x42]);
}

#[test]
fn test_parse_response_0x01() {
    let sid = READ_DTC_INFORMATION_SID + SEND_RECEIVE_SID_OFFSET;
    let report_type = SubFunction::ReportNumberOfDTCbyStatusMask;
    let dtc_status_availability_mask: u8 = 0x18;
    let dtc_format = DTCFormat::ISO_14229_1_DTCFormat;
    let dtc_count: u16 = 0x100f;
    let raw_response: Vec<u8> = vec![
        sid,
        u8::from(report_type),
        dtc_status_availability_mask,
        u8::from(dtc_format),
        (dtc_count >> 8) as u8,
        dtc_count as u8,
    ];
    assert_eq!(raw_response, vec![0x59, 0x01, 0x18, 0x01, 0x10, 0x0f]);
    let result = parse_report_number_of_dtc_by_status_mask_response(&raw_response);
    let expected = UdsResponse::ReadDTCInformation(DataFormat::Parsed(
        ReadDTCInformationResponse::ReportNumberOfDTCbyStatusMask(
            ReportNumberOfDTCByMaskResponse {
                dtc_status_availability_mask,
                dtc_format_identifier: dtc_format,
                dtc_count,
            },
        ),
    ));
    assert_eq!(result, Ok(expected));
}

#[test]
fn test_compose_request_0x02() {
    let sub_function = SubFunction::try_from(0x2).unwrap();
    let dtc_status_mask = 0x0;
    let expected = vec![
        READ_DTC_INFORMATION_SID,
        u8::from(sub_function),
        dtc_status_mask,
    ];
    let result = compose_report_number_of_dtc_by_status_mask_request(
        SubFunction::ReportDTCByStatusMask,
        dtc_status_mask,
    );
    assert_eq!(result, expected);
    assert_eq!(result, vec![0x19, 0x02, 0x00]);
}

#[test]
fn test_parse_response_0x02() {
    let sid = READ_DTC_INFORMATION_SID + SEND_RECEIVE_SID_OFFSET;
    let report_type = SubFunction::try_from(0x2).unwrap();
    let dtc_status_availability_mask: u8 = 0xff;
    let dtc_and_status_record = vec![
        DTCAndStatusRecord {
            dtc: 0x123456,
            status_of_dtc: 0xff,
        },
        DTCAndStatusRecord {
            dtc: 0x42,
            status_of_dtc: 0x0,
        },
        DTCAndStatusRecord {
            dtc: 0x0,
            status_of_dtc: 0xff,
        },
        DTCAndStatusRecord {
            dtc: 0xffffff,
            status_of_dtc: 0xff,
        },
    ];
    let mut raw_response: Vec<u8> = vec![
        sid,
        u8::from(report_type),
        dtc_status_availability_mask,
    ];
    for record in &dtc_and_status_record {
        raw_response.push((record.dtc >> 16) as u8);
        raw_response.push((record.dtc >> 8) as u8);
        raw_response.push(record.dtc as u8);
        raw_response.push(record.status_of_dtc);
    }
    let result = parse_report_dtcs(&raw_response);
    let expected = UdsResponse::ReadDTCInformation(DataFormat::Parsed(
        ReadDTCInformationResponse::ReportDTCByStatusMask(ReportDTCsResponse {
            dtc_status_availability_mask,
            dtc_and_status_records: dtc_and_status_record,
        }),
    ));
    assert_eq!(result, Ok(expected));
}

#[test]
fn test_parse_empty_response_0x02() {
    let sid = READ_DTC_INFORMATION_SID + SEND_RECEIVE_SID_OFFSET;
    let report_type = SubFunction::try_from(0x2).unwrap();
    let dtc_status_availability_mask: u8 = 0xff;
    let raw_response = vec![
        sid,
        u8::from(report_type),
        dtc_status_availability_mask,
    ];
    let result = parse_report_dtcs(&raw_response);
    let expected = UdsResponse::ReadDTCInformation(DataFormat::Parsed(
        ReadDTCInformationResponse::ReportDTCByStatusMask(ReportDTCsResponse {
            dtc_status_availability_mask,
            dtc_and_status_records: vec![],
        }),
    ));
    assert_eq!(result, Ok(expected));
}

#[test]
fn test_compose_request_iso_0x04() {
    let sid = READ_DTC_INFORMATION_SID;
    let sub_function = SubFunction::try_from(0x4).unwrap();
    let raw_dtc_mask_record: u32 = 0x12345678;
    let dtc_snapshot_record_number: u8 = 0xff;
    let dtc_mask_record = raw_dtc_mask_record;
    let result = compose_report_dtc_snapshot_request(
        sub_function,
        dtc_mask_record,
        dtc_snapshot_record_number,
    );
    let expected = vec![
        sid,
        u8::from(sub_function),
        (raw_dtc_mask_record >> 16) as u8,
        (raw_dtc_mask_record >> 8) as u8,
        raw_dtc_mask_record as u8,
        dtc_snapshot_record_number,
    ];
    assert_eq!(result, expected);
    assert_eq!(result, vec![0x19, 0x04, 0x34, 0x56, 0x78, 0xff]);
}

#[test]
fn test_parse_response_0x04() {
    let raw_response = vec![];
    let result = parse_report_dtc_snapshot_record_by_dtc_number_response(&raw_response);
    assert_eq!(Err(UdsError::ResponseEmpty), result);
}

#[test]
fn test_compose_request_iso_0x06() {
    let sid = READ_DTC_INFORMATION_SID;
    let sub_function = SubFunction::try_from(0x4).unwrap();
    let raw_dtc_mask_record: u32 = 0x12345678;
    let dtc_ext_data_record_number: u8 = 0xff;
    let dtc_mask_record = raw_dtc_mask_record;
    let result = compose_report_dtc_snapshot_request(
        sub_function,
        dtc_mask_record,
        dtc_ext_data_record_number,
    );
    let expected = vec![
        sid,
        u8::from(sub_function),
        (raw_dtc_mask_record >> 16) as u8,
        (raw_dtc_mask_record >> 8) as u8,
        raw_dtc_mask_record as u8,
        dtc_ext_data_record_number,
    ];
    assert_eq!(result, expected);
}

#[test]
fn test_parse_response_0x06() {
    let raw_response = vec![];
    let result = parse_report_dtc_ext_data_by_dtc_number_response(&raw_response);
    assert_eq!(Err(UdsError::ResponseEmpty), result);
}

#[test]
fn test_compose_request_0x0e() {
    let sid = READ_DTC_INFORMATION_SID;
    let subfunction = SubFunction::try_from(0x0e).unwrap();
    let result = compose_request_short(subfunction);
    assert_eq!(vec![sid, 0x0e], result);
}

#[test]
fn test_parse_response_0x0e() {
    let sid = READ_DTC_INFORMATION_SID + SEND_RECEIVE_SID_OFFSET;
    let report_type = SubFunction::try_from(0xe).unwrap();
    let dtc_status_availability_mask: u8 = 0xff;
    let dtc_and_status_record = vec![DTCAndStatusRecord {
        dtc: 0x123456,
        status_of_dtc: 0xff,
    }];
    let mut raw_response: Vec<u8> = vec![
        sid,
        u8::from(report_type),
        dtc_status_availability_mask,
    ];
    for record in &dtc_and_status_record {
        raw_response.push((record.dtc >> 16) as u8);
        raw_response.push((record.dtc >> 8) as u8);
        raw_response.push(record.dtc as u8);
        raw_response.push(record.status_of_dtc);
    }
    let result = parse_report_dtcs(&raw_response);
    let expected = UdsResponse::ReadDTCInformation(DataFormat::Parsed(
        ReadDTCInformationResponse::ReportMostRecentConfirmedDTC(ReportDTCsResponse {
            dtc_status_availability_mask,
            dtc_and_status_records: dtc_and_status_record,
        }),
    ));
    assert_eq!(result, Ok(expected));
}

#[test]
fn test_compose_request_0x06_ext_data() {
    let result = compose_report_dtc_ext_data_by_dtc_number_request(
        SubFunction::ReportDTCExtDataRecordByDTCNumber,
        0xFFABCDEF,
        0x01,
    );
    assert_eq!(result, vec![0x19, 0x06, 0xAB, 0xCD, 0xEF, 0x01]);
}

#[test]
fn test_compose_request_drops_highest_byte_of_dtc() {
    let with = compose_report_dtc_snapshot_request(
        SubFunction::ReportDTCSnapshotIdentification,
        0xFF000001,
        0,
    );
    let without = compose_report_dtc_snapshot_request(
        SubFunction::ReportDTCSnapshotIdentification,
        0x00000001,
        0,
    );
    assert_eq!(with, without);
    assert_eq!(with, vec![0x19, 0x03, 0x00, 0x00, 0x01, 0x00]);
}

#[test]
fn test_sub_function_bytes() {
    assert_eq!(u8::from(SubFunction::ReportNumberOfDTCbyStatusMask), 0x01);
    assert_eq!(
        u8::from(SubFunction::ReportUserDefMemoryDTCExtDataRecordByDTCNumber),
        0x19
    );
    assert_eq!(u8::from(SubFunction::ReportWWHOBDDTCByMaskRecord), 0x42);
    assert_eq!(
        u8::from(SubFunction::ReportWWHOBDDTCWithPermanentStatus),
        0x55
    );
    assert_eq!(SubFunction::try_from(0x00), Err(0x00));
    assert_eq!(SubFunction::try_from(0x1A), Err(0x1A));
    assert_eq!(
        SubFunction::try_from(0x15),
        Ok(SubFunction::ReportDTCWithPermanentStatus)
    );
    let mut known = 0;
    for byte in 0..=255u8 {
        if let Ok(sub_function) = SubFunction::try_from(byte) {
            assert_eq!(u8::from(sub_function), byte);
            known += 1;
        }
    }
    assert_eq!(known, 27);
}

#[test]
fn test_dtc_format_bytes() {
    assert_eq!(u8::from(DTCFormat::SAE_J2012_DA_DTCFormat_00), 0);
    assert_eq!(u8::from(DTCFormat::SAE_J2012_DA_DTCFormat_04), 4);
    assert_eq!(
        DTCFormat::try_from(2),
        Ok(DTCFormat::SAE_J1939_73_DTCFormat)
    );
    assert_eq!(DTCFormat::try_from(5), Err(5));
}

#[test]
fn test_number_report_of_each_counting_subfunction() {
    let parsed = ReportNumberOfDTCByMaskResponse {
        dtc_status_availability_mask: 0x2F,
        dtc_format_identifier: DTCFormat::ISO_11992_4_DTCFormat,
        dtc_count: 0xFFFF,
    };
    let cases = [
        (
            0x01u8,
            ReadDTCInformationResponse::ReportNumberOfDTCbyStatusMask(parsed),
        ),
        (
            0x07,
            ReadDTCInformationResponse::ReportNumberOfDTCBySeverityMaskRecord(parsed),
        ),
        (
            0x11,
            ReadDTCInformationResponse::ReportNumberOfMirrorMemoryDTCByStatusMask(parsed),
        ),
        (
            0x12,
            ReadDTCInformationResponse::ReportNumberOfEmissionsOBDDTCByStatusMask(parsed),
        ),
    ];
    for (byte, expected) in cases {
        let raw = vec![0x59, byte, 0x2F, 0x03, 0xFF, 0xFF];
        assert_eq!(
            parse_report_number_of_dtc_by_status_mask_response(&raw),
            Ok(UdsResponse::ReadDTCInformation(DataFormat::Parsed(
                expected
            )))
        );
    }
}

#[test]
fn test_number_report_errors_in_order() {
    let parse = parse_report_number_of_dtc_by_status_mask_response;
    let invalid_length = |raw: &[u8]| {
        Err(UdsError::InvalidLength {
            raw_message: raw.to_vec(),
        })
    };
    let incorrect = |raw: &[u8]| {
        Err(UdsError::ResponseIncorrect {
            raw_message: raw.to_vec(),
        })
    };
    assert_eq!(parse(&[]), Err(UdsError::ResponseEmpty));
    assert_eq!(
        parse(&[0x58, 0x01, 0, 1, 0, 0]),
        Err(UdsError::SidMismatch {
            expected: 0x59,
            received: 0x58,
            raw_message: vec![0x58, 0x01, 0, 1, 0, 0]
        })
    );
    assert_eq!(parse(&[0x59]), invalid_length(&[0x59]));
    assert_eq!(parse(&[0x59, 0x00]), incorrect(&[0x59, 0x00]));
    assert_eq!(parse(&[0x59, 0x01]), invalid_length(&[0x59, 0x01]));
    assert_eq!(parse(&[0x59, 0x01, 0xFF]), invalid_length(&[0x59, 0x01, 0xFF]));
    assert_eq!(
        parse(&[0x59, 0x01, 0xFF, 0x05]),
        incorrect(&[0x59, 0x01, 0xFF, 0x05])
    );
    assert_eq!(
        parse(&[0x59, 0x01, 0xFF, 0x04]),
        invalid_length(&[0x59, 0x01, 0xFF, 0x04])
    );
    assert_eq!(
        parse(&[0x59, 0x01, 0xFF, 0x04, 0x00]),
        invalid_length(&[0x59, 0x01, 0xFF, 0x04, 0x00])
    );
    assert_eq!(
        parse(&[0x59, 0x02, 0xFF, 0x04, 0x00, 0x00]),
        Err(UdsError::InvalidArgument)
    );
    assert_eq!(
        parse(&[0x59, 0x02, 0xFF, 0x04, 0x00]),
        invalid_length(&[0x59, 0x02, 0xFF, 0x04, 0x00])
    );
}

#[test]
fn test_number_report_bytes_after_the_count_are_left() {
    let raw = vec![0x59, 0x01, 0x01, 0x00, 0x00, 0x02, 0xAA];
    assert_eq!(
        parse_report_number_of_dtc_by_status_mask_response(&raw),
        Ok(UdsResponse::ReadDTCInformation(DataFormat::Parsed(
            ReadDTCInformationResponse::ReportNumberOfDTCbyStatusMask(
                ReportNumberOfDTCByMaskResponse {
                    dtc_status_availability_mask: 0x01,
                    dtc_format_identifier: DTCFormat::SAE_J2012_DA_DTCFormat_00,
                    dtc_count: 2,
                }
            )
        )))
    );
}

#[test]
fn test_list_report_of_each_listing_subfunction() {
    let list = || ReportDTCsResponse {
        dtc_status_availability_mask: 0x7F,
        dtc_and_status_records: vec![DTCAndStatusRecord {
            dtc: 0x010203,
            status_of_dtc: 0x04,
        }],
    };
    let cases = [
        (
            0x02u8,
            ReadDTCInformationResponse::ReportDTCByStatusMask(list()),
        ),
        (
            0x0A,
            ReadDTCInformationResponse::ReportSupportedDTC(list()),
        ),
        (
            0x0B,
            ReadDTCInformationResponse::ReportFirstTestFailedDTC(list()),
        ),
        (
            0x0C,
            ReadDTCInformationResponse::ReportFirstConfirmedDTC(list()),
        ),
        (
            0x0D,
            ReadDTCInformationResponse::ReportMostRecentTestFailedDTC(list()),
        ),
        (
            0x0E,
            ReadDTCInformationResponse::ReportMostRecentConfirmedDTC(list()),
        ),
        (
            0x0F,
            ReadDTCInformationResponse::ReportMirrorMemoryDTCByStatusMask(list()),
        ),
        (
            0x13,
            ReadDTCInformationResponse::ReportEmissionsOBDDTCByStatusMask(list()),
        ),
        (
            0x15,
            ReadDTCInformationResponse::ReportDTCWithPermanentStatus(list()),
        ),
    ];
    for (byte, expected) in cases {
        let raw = vec![0x59, byte, 0x7F, 0x01, 0x02, 0x03, 0x04];
        assert_eq!(
            parse_report_dtcs(&raw),
            Ok(UdsResponse::ReadDTCInformation(DataFormat::Parsed(
                expected
            )))
        );
    }
}

#[test]
fn test_list_report_errors_in_order() {
    let invalid_length = |raw: &[u8]| {
        Err(UdsError::InvalidLength {
            raw_message: raw.to_vec(),
        })
    };
    assert_eq!(parse_report_dtcs(&[]), Err(UdsError::ResponseEmpty));
    assert_eq!(
        parse_report_dtcs(&[0x19, 0x02, 0xFF]),
        Err(UdsError::SidMismatch {
            expected: 0x59,
            received: 0x19,
            raw_message: vec![0x19, 0x02, 0xFF]
        })
    );
    assert_eq!(parse_report_dtcs(&[0x59]), invalid_length(&[0x59]));
    assert_eq!(parse_report_dtcs(&[0x59, 0x02]), invalid_length(&[0x59, 0x02]));
    for cut in 4..7 {
        let raw = &[0x59u8, 0x02, 0xFF, 1, 2, 3][..cut];
        assert_eq!(parse_report_dtcs(raw), invalid_length(raw));
    }
    assert_eq!(
        parse_report_dtcs(&[0x59, 0x00, 0xFF, 1, 2, 3]),
        invalid_length(&[0x59, 0x00, 0xFF, 1, 2, 3])
    );
    assert_eq!(
        parse_report_dtcs(&[0x59, 0x00, 0xFF]),
        Err(UdsError::ResponseIncorrect {
            raw_message: vec![0x59, 0x00, 0xFF]
        })
    );
    assert_eq!(
        parse_report_dtcs(&[0x59, 0x01, 0xFF, 1, 2, 3, 4]),
        Err(UdsError::InvalidArgument)
    );
}

#[test]
fn test_raw_reports_strip_the_sid() {
    let raw = vec![0x59, 0x04, 0x12, 0x34, 0x56, 0x24, 0x01];
    assert_eq!(
        parse_report_dtc_snapshot_record_by_dtc_number_response(&raw),
        Ok(UdsResponse::ReadDTCInformation(DataFormat::Raw(vec![
            0x04, 0x12, 0x34, 0x56, 0x24, 0x01
        ])))
    );
    assert_eq!(
        parse_report_dtc_ext_data_by_dtc_number_response(&raw),
        Ok(UdsResponse::ReadDTCInformation(DataFormat::Raw(vec![
            0x04, 0x12, 0x34, 0x56, 0x24, 0x01
        ])))
    );
    assert_eq!(
        parse_report_dtc_snapshot_record_by_dtc_number_response(&[0x59]),
        Ok(UdsResponse::ReadDTCInformation(DataFormat::Raw(vec![])))
    );
}

#[test]
fn test_raw_reports_sid_mismatch() {
    let raw = vec![0x7F, 0x19, 0x31];
    let expected = Err(UdsError::SidMismatch {
        expected: 0x59,
        received: 0x7F,
        raw_message: raw.clone(),
    });
    assert_eq!(
        parse_report_dtc_snapshot_record_by_dtc_number_response(&raw),
        expected
    );
    assert_eq!(
        parse_report_dtc_ext_data_by_dtc_number_response(&raw),
        expected
    );
}

#[test]
fn test_round_trip_of_a_list_report() {
    let records: Vec<DTCAndStatusRecord> = (0..50u32)
        .map(|i| DTCAndStatusRecord {
            dtc: (i * 0x051EB8) & 0xFFFFFF,
            status_of_dtc: (i * 5) as u8,
        })
        .collect();
    let request = compose_request_short(SubFunction::ReportSupportedDTC);
    let mut response = vec![request[0] + SEND_RECEIVE_SID_OFFSET, request[1], 0x3C];
    for record in &records {
        response.push((record.dtc >> 16) as u8);
        response.push((record.dtc >> 8) as u8);
        response.push(record.dtc as u8);
        response.push(record.status_of_dtc);
    }
    assert_eq!(
        parse_report_dtcs(&response),
        Ok(UdsResponse::ReadDTCInformation(DataFormat::Parsed(
            ReadDTCInformationResponse::ReportSupportedDTC(ReportDTCsResponse {
                dtc_status_availability_mask: 0x3C,
                dtc_and_status_records: records,
            })
        )))
    );
}

#[test]
fn test_round_trip_of_a_number_report() {
    for (sub_function, expected) in [
        (
            SubFunction::ReportNumberOfDTCbyStatusMask,
            ReadDTCInformationResponse::ReportNumberOfDTCbyStatusMask as fn(_) -> _,
        ),
        (
            SubFunction::ReportNumberOfMirrorMemoryDTCByStatusMask,
            ReadDTCInformationResponse::ReportNumberOfMirrorMemoryDTCByStatusMask,
        ),
    ] {
        let count = ReportNumberOfDTCByMaskResponse {
            dtc_status_availability_mask: 0xA5,
            dtc_format_identifier: DTCFormat::SAE_J1939_73_DTCFormat,
            dtc_count: 0x0102,
        };
        let request = compose_report_number_of_dtc_by_status_mask_request(sub_function, 0x08);
        let response = vec![
            request[0] + SEND_RECEIVE_SID_OFFSET,
            request[1],
            count.dtc_status_availability_mask,
            u8::from(count.dtc_format_identifier),
            (count.dtc_count >> 8) as u8,
            count.dtc_count as u8,
        ];
        assert_eq!(
            parse_report_number_of_dtc_by_status_mask_response(&response),
            Ok(UdsResponse::ReadDTCInformation(DataFormat::Parsed(
                expected(count)
            )))
        );
    }
}
