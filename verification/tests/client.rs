use uds_rs::{
    Action, ExchangeState, NegativeResponseCode, NrcData, RetryPolicy, TransportEvent, UdsClient,
    UdsCommunicationError, UdsError,
};

fn policy(busy: u32, pending: u32) -> RetryPolicy {
    RetryPolicy {
        busy_repeat_limit: busy,
        response_pending_limit: pending,
    }
}

fn started(busy: u32, pending: u32, request: &[u8]) -> UdsClient {
    let mut client = UdsClient::new(policy(busy, pending));
    assert_eq!(
        client.send_and_receive(request),
        Action::Send(request.to_vec())
    );
    assert_eq!(client.state(), ExchangeState::Sending);
    assert_eq!(client.handle(TransportEvent::Sent), Action::Receive);
    assert_eq!(client.state(), ExchangeState::AwaitingResponse);
    client
}

fn rejection(sid: u8, nrc: NegativeResponseCode) -> Action {
    Action::Finish(Err(UdsError::NRC {
        nrc: NrcData {
            rejected_sid: sid,
            nrc,
        },
    }))
}

#[test]
fn test_new_client_is_idle() {
    let client = UdsClient::new(policy(3, 7));
    assert_eq!(client.state(), ExchangeState::Idle);
    assert_eq!(client.policy(), policy(3, 7));
    assert!(!client.expects(&TransportEvent::Sent));
    assert!(!client.expects(&TransportEvent::Received(vec![0x51])));
    assert!(!client.expects(&TransportEvent::Failed(
        UdsCommunicationError::GeneralError
    )));
}

#[test]
fn test_empty_request_is_not_sent() {
    let mut client = UdsClient::new(policy(1, 1));
    assert_eq!(
        client.send_and_receive(&[]),
        Action::Finish(Err(UdsError::RequestEmpty))
    );
    assert_eq!(client.state(), ExchangeState::Failed);
    assert!(!client.expects(&TransportEvent::Sent));
}

#[test]
fn test_positive_response_ends_the_exchange() {
    let mut client = started(0, 0, &[0x11, 0x01]);
    assert!(client.expects(&TransportEvent::Received(vec![])));
    assert!(!client.expects(&TransportEvent::Sent));
    assert_eq!(
        client.handle(TransportEvent::Received(vec![0x51, 0x01])),
        Action::Finish(Ok(vec![0x51, 0x01]))
    );
    assert_eq!(client.state(), ExchangeState::Done);
}

#[test]
fn test_response_of_another_service_is_handed_out_as_it_came() {
    let mut client = started(0, 0, &[0x11, 0x01]);
    assert_eq!(
        client.handle(TransportEvent::Received(vec![0x62, 0x01])),
        Action::Finish(Ok(vec![0x62, 0x01]))
    );
    assert_eq!(client.state(), ExchangeState::Done);
}

#[test]
fn test_send_failure_ends_the_exchange() {
    let mut client = UdsClient::new(policy(5, 5));
    client.send_and_receive(&[0x3E, 0x00]);
    assert!(client.expects(&TransportEvent::Sent));
    assert!(!client.expects(&TransportEvent::Received(vec![])));
    assert_eq!(
        client.handle(TransportEvent::Failed(
            UdsCommunicationError::SocketCanIOError
        )),
        Action::Finish(Err(UdsError::CommunicationError {
            error: UdsCommunicationError::SocketCanIOError
        }))
    );
    assert_eq!(client.state(), ExchangeState::Failed);
}

#[test]
fn test_receive_failure_ends_the_exchange() {
    let mut client = started(5, 5, &[0x3E, 0x00]);
    assert_eq!(
        client.handle(TransportEvent::Failed(UdsCommunicationError::StdIOError)),
        Action::Finish(Err(UdsError::CommunicationError {
            error: UdsCommunicationError::StdIOError
        }))
    );
    assert_eq!(client.state(), ExchangeState::Failed);
}

#[test]
fn test_empty_response_ends_the_exchange() {
    let mut client = started(5, 5, &[0x22, 0xF1, 0x90]);
    assert_eq!(
        client.handle(TransportEvent::Received(vec![])),
        Action::Finish(Err(UdsError::ResponseEmpty))
    );
    assert_eq!(client.state(), ExchangeState::Failed);
}

#[test]
fn test_unknown_nrc_ends_the_exchange() {
    let mut client = started(5, 5, &[0x22, 0xF1, 0x90]);
    assert_eq!(
        client.handle(TransportEvent::Received(vec![0x7F, 0x22, 0xFF])),
        Action::Finish(Err(UdsError::UnknownNRC {
            rejected_sid: 0x22,
            unknown_nrc: 0xFF
        }))
    );
    assert_eq!(client.state(), ExchangeState::Failed);
}

#[test]
fn test_other_nrc_ends_the_exchange() {
    let mut client = started(5, 5, &[0x22, 0xF1, 0x90]);
    assert_eq!(
        client.handle(TransportEvent::Received(vec![0x7F, 0x22, 0x33])),
        rejection(0x22, NegativeResponseCode::SecurityAccessDenied)
    );
    assert_eq!(client.state(), ExchangeState::Failed);
}

#[test]
fn test_rejection_of_another_service_is_a_sid_mismatch() {
    for nrc in [0x21u8, 0x78, 0x31] {
        let mut client = started(5, 5, &[0x22, 0xF1, 0x90]);
        assert_eq!(
            client.handle(TransportEvent::Received(vec![0x7F, 0x23, nrc])),
            Action::Finish(Err(UdsError::SidMismatch {
                expected: 0x22,
                received: 0x23,
                raw_message: vec![0x7F, 0x23, nrc],
            }))
        );
        assert_eq!(client.state(), ExchangeState::Failed);
    }
}

#[test]
fn test_busy_repeats_the_same_request_up_to_the_limit() {
    let request = vec![0x2E, 0xF1, 0x90, 0x01, 0x02, 0x03];
    for limit in [0u32, 1, 2, 5] {
        let mut client = started(limit, 0, &request);
        for _ in 0..limit {
            assert_eq!(
                client.handle(TransportEvent::Received(vec![0x7F, 0x2E, 0x21])),
                Action::Send(request.clone())
            );
            assert_eq!(client.state(), ExchangeState::Retrying);
            assert!(client.expects(&TransportEvent::Sent));
            assert_eq!(client.handle(TransportEvent::Sent), Action::Receive);
            assert_eq!(client.state(), ExchangeState::AwaitingResponse);
        }
        assert_eq!(
            client.handle(TransportEvent::Received(vec![0x7F, 0x2E, 0x21])),
            rejection(0x2E, NegativeResponseCode::BusyRepeatRequest)
        );
        assert_eq!(client.state(), ExchangeState::Failed);
    }
}

#[test]
fn test_busy_then_positive_response() {
    let mut client = started(3, 0, &[0x11, 0x03]);
    assert_eq!(
        client.handle(TransportEvent::Received(vec![0x7F, 0x11, 0x21])),
        Action::Send(vec![0x11, 0x03])
    );
    assert_eq!(client.handle(TransportEvent::Sent), Action::Receive);
    assert_eq!(
        client.handle(TransportEvent::Received(vec![0x51, 0x03])),
        Action::Finish(Ok(vec![0x51, 0x03]))
    );
    assert_eq!(client.state(), ExchangeState::Done);
}

#[test]
fn test_failure_while_sending_again() {
    let mut client = started(3, 0, &[0x11, 0x03]);
    client.handle(TransportEvent::Received(vec![0x7F, 0x11, 0x21]));
    assert_eq!(
        client.handle(TransportEvent::Failed(
            UdsCommunicationError::FailedToFindCanDevice
        )),
        Action::Finish(Err(UdsError::CommunicationError {
            error: UdsCommunicationError::FailedToFindCanDevice
        }))
    );
    assert_eq!(client.state(), ExchangeState::Failed);
}

#[test]
fn test_pending_waits_without_sending_up_to_the_limit() {
    for limit in [0u32, 1, 4] {
        let mut client = started(0, limit, &[0x31, 0x01, 0xFF, 0x00]);
        for _ in 0..limit {
            assert_eq!(
                client.handle(TransportEvent::Received(vec![0x7F, 0x31, 0x78])),
                Action::Receive
            );
            assert_eq!(client.state(), ExchangeState::Pending);
            assert!(client.expects(&TransportEvent::Received(vec![])));
            assert!(!client.expects(&TransportEvent::Sent));
        }
        assert_eq!(
            client.handle(TransportEvent::Received(vec![0x7F, 0x31, 0x78])),
            rejection(
                0x31,
                NegativeResponseCode::RequestCorrectlyReceivedResponsePending
            )
        );
        assert_eq!(client.state(), ExchangeState::Failed);
    }
}

#[test]
fn test_pending_then_positive_response() {
    let mut client = started(0, 2, &[0x31, 0x01, 0xFF, 0x00]);
    assert_eq!(
        client.handle(TransportEvent::Received(vec![0x7F, 0x31, 0x78])),
        Action::Receive
    );
    assert_eq!(
        client.handle(TransportEvent::Received(vec![0x71, 0x01, 0xFF, 0x00])),
        Action::Finish(Ok(vec![0x71, 0x01, 0xFF, 0x00]))
    );
    assert_eq!(client.state(), ExchangeState::Done);
}

#[test]
fn test_pending_then_busy_then_other_nrc() {
    let mut client = started(1, 1, &[0x31, 0x01]);
    assert_eq!(
        client.handle(TransportEvent::Received(vec![0x7F, 0x31, 0x78])),
        Action::Receive
    );
    assert_eq!(
        client.handle(TransportEvent::Received(vec![0x7F, 0x31, 0x21])),
        Action::Send(vec![0x31, 0x01])
    );
    assert_eq!(client.handle(TransportEvent::Sent), Action::Receive);
    assert_eq!(
        client.handle(TransportEvent::Received(vec![0x7F, 0x31, 0x22])),
        rejection(0x31, NegativeResponseCode::ConditionsNotCorrect)
    );
}

#[test]
fn test_client_runs_one_exchange_after_another() {
    let mut client = started(1, 0, &[0x11, 0x01]);
    client.handle(TransportEvent::Received(vec![0x7F, 0x11, 0x21]));
    client.handle(TransportEvent::Sent);
    assert_eq!(
        client.handle(TransportEvent::Received(vec![0x51, 0x01])),
        Action::Finish(Ok(vec![0x51, 0x01]))
    );
    assert_eq!(
        client.send_and_receive(&[0x10, 0x03]),
        Action::Send(vec![0x10, 0x03])
    );
    client.handle(TransportEvent::Sent);
    assert_eq!(
        client.handle(TransportEvent::Received(vec![0x7F, 0x10, 0x21])),
        Action::Send(vec![0x10, 0x03])
    );
    client.handle(TransportEvent::Sent);
    assert_eq!(
        client.handle(TransportEvent::Received(vec![0x7F, 0x10, 0x21])),
        rejection(0x10, NegativeResponseCode::BusyRepeatRequest)
    );
    assert_eq!(client.policy(), policy(1, 0));
}

#[test]
fn test_default_policy() {
    assert_eq!(RetryPolicy::default(), policy(3, 10));
    let mut client = UdsClient::new(RetryPolicy::default());
    assert_eq!(client.policy(), policy(3, 10));
    assert!(!client.is_in_flight());
    client.send_and_receive(&[0x3E, 0x00]);
    assert!(client.is_in_flight());
    client.handle(TransportEvent::Sent);
    assert!(client.is_in_flight());
    client.handle(TransportEvent::Received(vec![0x7E, 0x00]));
    assert!(!client.is_in_flight());
}

#[test]
fn test_exchange_ends_within_its_budget() {
    let responses: [&[u8]; 2] = [&[0x7F, 0x22, 0x21], &[0x7F, 0x22, 0x78]];
    for busy in 0..4u32 {
        for pending in 0..4u32 {
            for pick in 0..64u32 {
                let mut client = UdsClient::new(policy(busy, pending));
                let mut action = client.send_and_receive(&[0x22, 0xF1, 0x90]);
                let mut events = 0u32;
                let mut received = 0;
                loop {
                    let event = match action {
                        Action::Send(bytes) => {
                            assert_eq!(bytes, vec![0x22, 0xF1, 0x90]);
                            TransportEvent::Sent
                        }
                        Action::Receive => {
                            let which = (pick >> received) & 1;
                            received += 1;
                            TransportEvent::Received(responses[which as usize].to_vec())
                        }
                        Action::Finish(result) => {
                            assert!(matches!(result, Err(UdsError::NRC { .. })));
                            break;
                        }
                    };
                    assert!(client.expects(&event));
                    action = client.handle(event);
                    events += 1;
                }
                assert!(events <= 2 + 2 * busy + pending);
                assert!(!client.is_in_flight());
            }
        }
    }
}
