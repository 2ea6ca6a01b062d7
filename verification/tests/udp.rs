use udpsocket2::BindAttempts;
use udpsocket2::IpRepr;
use udpsocket2::MAX_MESSAGE_LENGTH;
use udpsocket2::RecvEvent;
use udpsocket2::RecvPoll;
use udpsocket2::SendEvent;
use udpsocket2::SendPoll;
use udpsocket2::UdpAddr;
use udpsocket2::UdpDatagram;
use udpsocket2::UdpError;
use udpsocket2::bind;
use udpsocket2::incoming;
use udpsocket2::send;
use udpsocket2::send_to;

fn v4(ip: u32, port: u16) -> UdpAddr {
    UdpAddr { ip: IpRepr::V4(ip), port }
}

#[test]
fn fresh_stream_has_zeroed_full_buffer() {
    let stream = incoming();
    assert_eq!(stream.capacity(), MAX_MESSAGE_LENGTH);
    assert_eq!(stream.capacity(), 1024);
    assert!(stream.buffer.iter().all(|b| *b == 0));
}

#[test]
fn round_trip_identity_small_payload() {
    let mut stream = incoming();
    let sender = v4(0x7f000001, 9998);
    let payload = vec![1u8, 2, 3];

    let length = stream.deliver(&payload);
    assert_eq!(length, 3);

    match stream.poll_step::<i32>(RecvEvent::Ready { length, peer: sender }) {
        RecvPoll::Received(datagram) => {
            assert_eq!(datagram.data, vec![1u8, 2, 3]);
            assert_eq!(datagram.peer, sender);
        }
        _ => panic!("a delivered datagram must be yielded"),
    }
}

#[test]
fn oversized_payload_is_truncated_to_capacity() {
    let mut stream = incoming();
    let sender = v4(0x7f000001, 9998);
    let payload: Vec<u8> = (0..2000u32).map(|i| (i % 251) as u8).collect();

    let length = stream.deliver(&payload);
    assert_eq!(length, 1024);

    match stream.poll_step::<i32>(RecvEvent::Ready { length, peer: sender }) {
        RecvPoll::Received(datagram) => {
            assert_eq!(datagram.data.len(), 1024);
            assert_eq!(datagram.data[..], payload[..1024]);
        }
        _ => panic!("a delivered datagram must be yielded"),
    }
}

#[test]
fn exact_capacity_payload_is_kept_whole() {
    let mut stream = incoming();
    let sender = v4(0x7f000001, 9998);
    let payload: Vec<u8> = (0..1024u32).map(|i| (i % 13) as u8).collect();

    let length = stream.deliver(&payload);
    assert_eq!(length, 1024);

    match stream.poll_step::<i32>(RecvEvent::Ready { length, peer: sender }) {
        RecvPoll::Received(datagram) => assert_eq!(datagram.data, payload),
        _ => panic!("a delivered datagram must be yielded"),
    }
}

#[test]
fn buffer_is_reused_across_receives() {
    let mut stream = incoming();
    let sender = v4(0x7f000001, 9998);

    let length = stream.deliver(&[9u8, 9]);
    assert_eq!(length, 2);

    // the next, shorter datagram overwrites only the buffer's prefix
    let length = stream.deliver(&[1u8]);
    assert_eq!(length, 1);

    match stream.poll_step::<i32>(RecvEvent::Ready { length, peer: sender }) {
        RecvPoll::Received(datagram) => assert_eq!(datagram.data, vec![1u8]),
        _ => panic!("a delivered datagram must be yielded"),
    }
}

#[test]
fn stream_not_ready_yields_pending() {
    let stream = incoming();
    assert!(matches!(
        stream.poll_step::<i32>(RecvEvent::NotReady),
        RecvPoll::Pending
    ));
}

#[test]
fn stream_error_is_surfaced_unchanged() {
    let stream = incoming();
    match stream.poll_step::<i32>(RecvEvent::Failed(-7)) {
        RecvPoll::Failed(e) => assert_eq!(e, -7),
        _ => panic!("a hard receive error must be surfaced"),
    }
}

#[test]
fn independent_sends_checked_by_set_equality() {
    // Two senders dispatch to the same destination; the transport fixes no
    // relative order, so only the set of delivered payloads is compared.
    let mut stream = incoming();
    let first_sender = v4(0x7f000001, 9998);
    let second_sender = v4(0x7f000001, 9997);
    let sent = [vec![10u8, 11], vec![20u8]];

    let mut received: Vec<Vec<u8>> = Vec::new();
    // one possible delivery order: the second send arrives first
    for (payload, peer) in [(&sent[1], second_sender), (&sent[0], first_sender)] {
        let length = stream.deliver(payload);
        match stream.poll_step::<i32>(RecvEvent::Ready { length, peer }) {
            RecvPoll::Received(datagram) => received.push(datagram.data),
            _ => panic!("a delivered datagram must be yielded"),
        }
    }

    let mut expected = sent.to_vec();
    expected.sort();
    received.sort();
    assert_eq!(received, expected);
}

#[test]
fn bind_with_no_candidates_fails_with_no_addresses() {
    let outcome = bind::<u32, i32>(Vec::new());
    assert_eq!(outcome, Err(UdpError::NoAddresses));
}

#[test]
fn bind_settles_on_first_successful_candidate() {
    let outcome = bind::<u32, i32>(vec![Err(-5), Ok(7), Ok(8), Err(-9)]);
    assert_eq!(outcome, Ok(7));
}

#[test]
fn bind_total_failure_surfaces_last_error() {
    let outcome = bind::<u32, i32>(vec![Err(-5), Err(-9)]);
    assert_eq!(outcome, Err(UdpError::Io(-9)));
}

#[test]
fn bind_attempts_track_the_last_failure() {
    let attempts: BindAttempts<i32> = BindAttempts::new();
    assert_eq!(attempts.into_error(), UdpError::NoAddresses);

    let mut attempts: BindAttempts<i32> = BindAttempts::new();
    attempts.record_failure(-5);
    attempts.record_failure(-9);
    assert_eq!(attempts.into_error(), UdpError::Io(-9));
}

#[test]
fn send_to_with_no_candidates_fails_with_no_addresses() {
    match send_to::<i32>(Vec::new()) {
        Err(e) => assert_eq!(e, UdpError::NoAddresses),
        Ok(_) => panic!("no send operation may be produced without a target"),
    }
}

#[test]
fn send_to_targets_only_the_first_candidate() {
    let first = v4(0x7f000001, 9999);
    let second = v4(0x0a000001, 9999);
    let operation = send_to::<i32>(vec![first, second]).unwrap();
    assert_eq!(operation.target(), first);
    assert!(!operation.resolved());
}

#[test]
fn send_to_resolves_once_the_socket_accepts() {
    let target = v4(0x7f000001, 9999);
    let mut operation = send_to::<i32>(vec![target]).unwrap();

    assert!(matches!(operation.poll_step(SendEvent::<i32>::NotReady), SendPoll::Pending));
    assert!(!operation.resolved());

    assert!(matches!(operation.poll_step(SendEvent::<i32>::Ready(3)), SendPoll::Sent));
    assert!(operation.resolved());
}

#[test]
fn send_to_failure_is_surfaced_and_terminal() {
    let target = v4(0x7f000001, 9999);
    let mut operation = send_to::<i32>(vec![target]).unwrap();

    match operation.poll_step(SendEvent::Failed(-13)) {
        SendPoll::Failed(e) => assert_eq!(e, -13),
        _ => panic!("a hard send error must be surfaced"),
    }
    assert!(operation.resolved());
}

#[test]
fn send_carries_the_datagram_unchanged() {
    let datagram = UdpDatagram {
        peer: v4(0x7f000001, 9999),
        data: vec![0u8, 1, 2, 3],
    };
    let mut operation = send(datagram.clone());
    assert_eq!(*operation.datagram_ref(), datagram);
    assert!(!operation.resolved());

    assert!(matches!(operation.poll_step::<i32>(SendEvent::Ready(4)), SendPoll::Sent));
    assert!(operation.resolved());
}

#[test]
fn sequenced_sends_are_received_in_send_order() {
    // Socket A listens; B then C send to it, one strictly after the other,
    // so A's stream yields the two datagrams in send order.
    let a_addr = v4(0x7f000001, 9999);
    let b_addr = v4(0x7f000001, 9998);
    let c_addr = v4(0x7f000001, 9997);

    let mut a_stream = incoming();
    let mut results: Vec<UdpDatagram> = Vec::new();

    // B sends the single byte [42] to A
    let mut b_send = send_to::<i32>(vec![a_addr]).unwrap();
    assert!(matches!(b_send.poll_step(SendEvent::<i32>::Ready(1)), SendPoll::Sent));
    let length = a_stream.deliver(&[42u8]);
    match a_stream.poll_step::<i32>(RecvEvent::Ready { length, peer: b_addr }) {
        RecvPoll::Received(datagram) => results.push(datagram),
        _ => panic!("a delivered datagram must be yielded"),
    }

    // C sends a pre-built datagram addressed to A
    let payload = vec![0u8, 1, 2, 3];
    let mut c_send = send(UdpDatagram { peer: a_addr, data: payload.clone() });
    assert_eq!(c_send.datagram_ref().peer, a_addr);
    assert!(matches!(c_send.poll_step::<i32>(SendEvent::Ready(4)), SendPoll::Sent));
    let length = a_stream.deliver(&payload);
    match a_stream.poll_step::<i32>(RecvEvent::Ready { length, peer: c_addr }) {
        RecvPoll::Received(datagram) => results.push(datagram),
        _ => panic!("a delivered datagram must be yielded"),
    }

    assert_eq!(results.len(), 2);
    assert_eq!(results[0].data, vec![42u8]);
    assert_eq!(results[0].peer, b_addr);
    assert_eq!(results[1].data, vec![0u8, 1, 2, 3]);
    assert_eq!(results[1].peer, c_addr);
}
