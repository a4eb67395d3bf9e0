use uds_rs::{
    compose_clear_diagnostic_information_request, compose_diagnostic_session_control_request,
    compose_ecu_reset_request, compose_write_data_by_identifier_request,
    parse_clear_diagnostic_information_response, parse_diagnostic_session_control_response,
    parse_ecu_reset_response, parse_write_data_by_identifier_response, DataFormat,
    DiagnosticSessionControlResponse, EcuResetResponse, EcuResponseResult, ResetType, UdsError,
    UdsResponse, WriteDataByIdentifierResponse, SEND_RECEIVE_SID_OFFSET,
};

fn invalid_length(raw: &[u8]) -> EcuResponseResult {
    Err(UdsError::InvalidLength {
        raw_message: raw.to_vec(),
    })
}

#[test]
fn test_reset_type_bytes() {
    assert_eq!(u8::from(ResetType::HardReset), 1);
    assert_eq!(u8::from(ResetType::KeyOffOnReset), 2);
    assert_eq!(u8::from(ResetType::SoftReset), 3);
    assert_eq!(u8::from(ResetType::EnableRapidPowerShutDown), 4);
    assert_eq!(u8::from(ResetType::DisableRapidPowerShutDown), 5);
    assert_eq!(ResetType::try_from(0), Err(0));
    assert_eq!(ResetType::try_from(6), Err(6));
    assert_eq!(ResetType::try_from(3), Ok(ResetType::SoftReset));
}

#[test]
fn test_compose_ecu_reset_request() {
    assert_eq!(
        compose_ecu_reset_request(ResetType::HardReset),
        vec![0x11, 0x01]
    );
    assert_eq!(
        compose_ecu_reset_request(ResetType::DisableRapidPowerShutDown),
        vec![0x11, 0x05]
    );
}

#[test]
fn test_parse_ecu_reset_response_without_power_down_time() {
    assert_eq!(
        parse_ecu_reset_response(&[0x51, 0x02]),
        Ok(UdsResponse::EcuReset(DataFormat::Parsed(
            EcuResetResponse {
                reset_type: ResetType::KeyOffOnReset,
                power_down_time: None,
            }
        )))
    );
    assert_eq!(
        parse_ecu_reset_response(&[0x51, 0x05, 0x33]),
        Ok(UdsResponse::EcuReset(DataFormat::Parsed(
            EcuResetResponse {
                reset_type: ResetType::DisableRapidPowerShutDown,
                power_down_time: None,
            }
        )))
    );
}

#[test]
fn test_parse_ecu_reset_response_with_power_down_time() {
    assert_eq!(
        parse_ecu_reset_response(&[0x51, 0x04, 0x1E]),
        Ok(UdsResponse::EcuReset(DataFormat::Parsed(
            EcuResetResponse {
                reset_type: ResetType::EnableRapidPowerShutDown,
                power_down_time: Some(0x1E),
            }
        )))
    );
    assert_eq!(
        parse_ecu_reset_response(&[0x51, 0x04]),
        invalid_length(&[0x51, 0x04])
    );
}

#[test]
fn test_parse_ecu_reset_response_errors() {
    assert_eq!(parse_ecu_reset_response(&[]), Err(UdsError::ResponseEmpty));
    assert_eq!(
        parse_ecu_reset_response(&[0x50, 0x01]),
        Err(UdsError::SidMismatch {
            expected: 0x51,
            received: 0x50,
            raw_message: vec![0x50, 0x01]
        })
    );
    assert_eq!(parse_ecu_reset_response(&[0x51]), invalid_length(&[0x51]));
    assert_eq!(
        parse_ecu_reset_response(&[0x51, 0x06]),
        Err(UdsError::ResponseIncorrect {
            raw_message: vec![0x51, 0x06]
        })
    );
}

#[test]
fn test_ecu_reset_round_trip() {
    for reset_type in [
        ResetType::HardReset,
        ResetType::KeyOffOnReset,
        ResetType::SoftReset,
        ResetType::EnableRapidPowerShutDown,
        ResetType::DisableRapidPowerShutDown,
    ] {
        let request = compose_ecu_reset_request(reset_type);
        let mut response = vec![request[0] + SEND_RECEIVE_SID_OFFSET, request[1]];
        let timed = reset_type == ResetType::EnableRapidPowerShutDown;
        if timed {
            response.push(0x0A);
        }
        assert_eq!(
            parse_ecu_reset_response(&response),
            Ok(UdsResponse::EcuReset(DataFormat::Parsed(
                EcuResetResponse {
                    reset_type,
                    power_down_time: if timed { Some(0x0A) } else { None },
                }
            )))
        );
    }
}

#[test]
fn test_compose_clear_diagnostic_information_request() {
    assert_eq!(
        compose_clear_diagnostic_information_request(0xFFFFFF),
        vec![0x14, 0xFF, 0xFF, 0xFF]
    );
    assert_eq!(
        compose_clear_diagnostic_information_request(0x12345678),
        vec![0x14, 0x34, 0x56, 0x78]
    );
    assert_eq!(
        compose_clear_diagnostic_information_request(0),
        vec![0x14, 0x00, 0x00, 0x00]
    );
}

#[test]
fn test_parse_clear_diagnostic_information_response() {
    assert_eq!(
        parse_clear_diagnostic_information_response(&[0x54]),
        Ok(UdsResponse::ClearDiagnosticInformation)
    );
    assert_eq!(
        parse_clear_diagnostic_information_response(&[0x54, 0x01, 0x02]),
        Ok(UdsResponse::ClearDiagnosticInformation)
    );
    assert_eq!(
        parse_clear_diagnostic_information_response(&[]),
        Err(UdsError::ResponseEmpty)
    );
    assert_eq!(
        parse_clear_diagnostic_information_response(&[0x14]),
        Err(UdsError::SidMismatch {
            expected: 0x54,
            received: 0x14,
            raw_message: vec![0x14]
        })
    );
}

#[test]
fn test_compose_diagnostic_session_control_request() {
    assert_eq!(
        compose_diagnostic_session_control_request(0x03),
        vec![0x10, 0x03]
    );
}

#[test]
fn test_parse_diagnostic_session_control_response() {
    assert_eq!(
        parse_diagnostic_session_control_response(&[0x50, 0x03, 0x00, 0x32, 0x01, 0xF4]),
        Ok(UdsResponse::DiagnosticSessionControl(DataFormat::Parsed(
            DiagnosticSessionControlResponse {
                session: 0x03,
                p2: 0x0032,
                p2_star: 0x01F4,
            }
        )))
    );
    assert_eq!(
        parse_diagnostic_session_control_response(&[0x50, 0xFF, 0xFF, 0xFF, 0xFF, 0xFF, 0x00]),
        Ok(UdsResponse::DiagnosticSessionControl(DataFormat::Parsed(
            DiagnosticSessionControlResponse {
                session: 0xFF,
                p2: 0xFFFF,
                p2_star: 0xFFFF,
            }
        )))
    );
}

#[test]
fn test_parse_diagnostic_session_control_response_errors() {
    assert_eq!(
        parse_diagnostic_session_control_response(&[]),
        Err(UdsError::ResponseEmpty)
    );
    assert_eq!(
        parse_diagnostic_session_control_response(&[0x51, 0x03, 0x00, 0x32, 0x01, 0xF4]),
        Err(UdsError::SidMismatch {
            expected: 0x50,
            received: 0x51,
            raw_message: vec![0x51, 0x03, 0x00, 0x32, 0x01, 0xF4]
        })
    );
    let full = [0x50u8, 0x03, 0x00, 0x32, 0x01, 0xF4];
    for cut in 1..6 {
        assert_eq!(
            parse_diagnostic_session_control_response(&full[..cut]),
            invalid_length(&full[..cut])
        );
    }
}

#[test]
fn test_compose_write_data_by_identifier_request() {
    assert_eq!(
        compose_write_data_by_identifier_request(0xF190, &[0x57, 0x30, 0x4C]),
        vec![0x2E, 0xF1, 0x90, 0x57, 0x30, 0x4C]
    );
    assert_eq!(
        compose_write_data_by_identifier_request(0x0001, &[]),
        vec![0x2E, 0x00, 0x01]
    );
}

#[test]
fn test_parse_write_data_by_identifier_response() {
    assert_eq!(
        parse_write_data_by_identifier_response(&[0x6E, 0xF1, 0x90]),
        Ok(UdsResponse::WriteDataByIdentifier(DataFormat::Parsed(
            WriteDataByIdentifierResponse {
                data_identifier: 0xF190
            }
        )))
    );
    assert_eq!(
        parse_write_data_by_identifier_response(&[0x6E, 0x00, 0x01, 0xAA]),
        Ok(UdsResponse::WriteDataByIdentifier(DataFormat::Parsed(
            WriteDataByIdentifierResponse {
                data_identifier: 0x0001
            }
        )))
    );
}

#[test]
fn test_parse_write_data_by_identifier_response_errors() {
    assert_eq!(
        parse_write_data_by_identifier_response(&[]),
        Err(UdsError::ResponseEmpty)
    );
    assert_eq!(
        parse_write_data_by_identifier_response(&[0x2E, 0xF1, 0x90]),
        Err(UdsError::SidMismatch {
            expected: 0x6E,
            received: 0x2E,
            raw_message: vec![0x2E, 0xF1, 0x90]
        })
    );
    assert_eq!(
        parse_write_data_by_identifier_response(&[0x6E]),
        invalid_length(&[0x6E])
    );
    assert_eq!(
        parse_write_data_by_identifier_response(&[0x6E, 0xF1]),
        invalid_length(&[0x6E, 0xF1])
    );
}

#[test]
fn test_write_data_by_identifier_round_trip() {
    for data_identifier in [0u16, 1, 0x00FF, 0x0100, 0xF190, 0xFFFF] {
        let request = compose_write_data_by_identifier_request(data_identifier, &[1, 2, 3]);
        let response = vec![request[0] + SEND_RECEIVE_SID_OFFSET, request[1], request[2]];
        assert_eq!(
            parse_write_data_by_identifier_response(&response),
            Ok(UdsResponse::WriteDataByIdentifier(DataFormat::Parsed(
                WriteDataByIdentifierResponse { data_identifier }
            )))
        );
    }
}

#[test]
fn test_every_parser_rejects_a_foreign_first_byte() {
    let parsers: [(u8, fn(&[u8]) -> EcuResponseResult); 10] = [
        (0x51, parse_ecu_reset_response),
        (0x54, parse_clear_diagnostic_information_response),
        (0x50, parse_diagnostic_session_control_response),
        (0x6E, parse_write_data_by_identifier_response),
        (0x62, uds_rs::parse_read_data_by_identifier_response),
        (0x63, uds_rs::parse_response),
        (0x59, uds_rs::parse_report_dtcs),
        (0x59, uds_rs::parse_report_number_of_dtc_by_status_mask_response),
        (0x59, uds_rs::parse_report_dtc_snapshot_record_by_dtc_number_response),
        (0x59, uds_rs::parse_report_dtc_ext_data_by_dtc_number_response),
    ];
    for (expected, parse) in parsers {
        assert_eq!(parse(&[]), Err(UdsError::ResponseEmpty));
        for first in 0..=255u8 {
            if first == expected {
                continue;
            }
            let raw = vec![first, 0x01, 0x02, 0x03, 0x04, 0x05, 0x06];
            assert_eq!(
                parse(&raw),
                Err(UdsError::SidMismatch {
                    expected,
                    received: first,
                    raw_message: raw.clone(),
                })
            );
        }
    }
}

#[test]
fn test_diagnostic_session_control_round_trip() {
    for (session, p2, p2_star) in [(0u8, 0u16, 0u16), (1, 50, 5000), (0x7F, 0xFFFF, 0x0100)] {
        let request = compose_diagnostic_session_control_request(session);
        let response = vec![
            request[0] + SEND_RECEIVE_SID_OFFSET,
            request[1],
            (p2 >> 8) as u8,
            p2 as u8,
            (p2_star >> 8) as u8,
            p2_star as u8,
        ];
        assert_eq!(
            parse_diagnostic_session_control_response(&response),
            Ok(UdsResponse::DiagnosticSessionControl(DataFormat::Parsed(
                DiagnosticSessionControlResponse {
                    session,
                    p2,
                    p2_star
                }
            )))
        );
    }
}

#[test]
fn test_clear_diagnostic_information_round_trip() {
    for group in [0u32, 0x000001, 0xFFFF33, 0xFFFFFF] {
        let request = compose_clear_diagnostic_information_request(group);
        let sent = ((request[1] as u32) << 16) | ((request[2] as u32) << 8) | request[3] as u32;
        assert_eq!(sent, group);
        assert_eq!(
            parse_clear_diagnostic_information_response(&[request[0] + SEND_RECEIVE_SID_OFFSET]),
            Ok(UdsResponse::ClearDiagnosticInformation)
        );
    }
}
