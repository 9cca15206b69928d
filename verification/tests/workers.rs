use iec104::client::encode;
use iec104::client::Client;
use iec104::client::EncodeError;
use iec104::pinger::PingAction;
use iec104::restart::DeliveryPolicy;
use iec104::restart::RESTART_QUEUE_CAPACITY;
use iec104::PingKind;
use iec104::Pinger;
use iec104::Reader;
use iec104::RestartEvent;
use iec60870_5::telegram104::Telegram104;
use iec60870_5::telegram104::Telegram104_I;
use iec60870_5::telegram104::Telegram104_S;
use iec60870_5::telegram104::Telegram104_U;
use iec60870_5::types::datatype::DataType;
use iec60870_5::types::COT;
use roboplc::DataDeliveryPolicy;
use std::time::Duration;

struct Beacon(RestartEvent);

impl DataDeliveryPolicy for Beacon {
    fn delivery_policy(&self) -> roboplc::DeliveryPolicy {
        match self.0.delivery_policy() {
            DeliveryPolicy::Always => roboplc::DeliveryPolicy::Always,
            DeliveryPolicy::Latest => roboplc::DeliveryPolicy::Latest,
            DeliveryPolicy::Optional => roboplc::DeliveryPolicy::Optional,
            DeliveryPolicy::Single => roboplc::DeliveryPolicy::Single,
            DeliveryPolicy::SingleOptional => roboplc::DeliveryPolicy::SingleOptional,
        }
    }
}

#[test]
fn ping_kinds_have_their_names() {
    assert_eq!(PingKind::Connect.to_string(), "socket connect");
    assert_eq!(PingKind::Test.to_string(), "IEC 60870-5 104 test U-frame");
    assert_eq!(PingKind::Ack.to_string(), "IEC 60870-5 104 ack S-frame");
}

#[test]
fn default_ping_kind_is_the_test_frame() {
    assert_eq!(PingKind::default(), PingKind::Test);
}

#[test]
fn pinger_keeps_kind_and_interval() {
    let (client, _reader) = Client::new();
    let pinger = client.pinger(PingKind::Ack, Duration::from_millis(250));
    assert_eq!(pinger.kind(), PingKind::Ack);
    assert_eq!(pinger.interval(), Duration::from_millis(250));
    let other = Pinger::new(PingKind::Connect, Duration::from_secs(3));
    assert_eq!(other.kind(), PingKind::Connect);
    assert_eq!(other.interval(), Duration::from_secs(3));
}

#[test]
fn connect_ping_asks_the_transport() {
    let pinger = Pinger::new(PingKind::Connect, Duration::from_secs(1));
    assert!(matches!(pinger.tick(), PingAction::Connect));
    assert!(matches!(pinger.tick(), PingAction::Connect));
}

#[test]
fn test_ping_sends_a_test_request() {
    let (mut client, _reader) = Client::new();
    let pinger = client.pinger(PingKind::Test, Duration::from_secs(1));
    match pinger.tick() {
        PingAction::Send(frame) => {
            match &frame {
                Telegram104::U(u) => {
                    assert!(u.is_test());
                    assert!(!u.is_con());
                    assert!(!u.is_start_dt());
                    assert!(!u.is_stop_dt());
                }
                other => panic!("not a control frame: {:?}", other),
            }
            assert!(!Client::needs_session_lock(&frame));
            let outgoing = client.send(frame).expect("a test frame");
            assert_eq!(outgoing.octets, vec![0x68, 0x04, 0x43, 0x00, 0x00, 0x00]);
        }
        other => panic!("nothing to send: {:?}", other),
    }
}

#[test]
fn ack_ping_sends_an_acknowledgement_of_what_was_received() {
    let (mut client, _reader) = Client::new();
    for sn in 0u16..2 {
        let mut frame = Telegram104_I::new(DataType::M_SP_NA_1, COT::Spontan, 1);
        frame.append_iou(1, [0u8; 12]);
        let incoming = Telegram104::I(frame.with_send_sn(sn));
        assert_eq!(client.validate_incoming(&incoming), Ok(()));
    }
    let pinger = client.pinger(PingKind::Ack, Duration::from_secs(1));
    match pinger.tick() {
        PingAction::Send(frame) => {
            match &frame {
                Telegram104::S(s) => assert_eq!(s.recv_sn(), 0),
                other => panic!("not an acknowledgement: {:?}", other),
            }
            assert!(Client::needs_session_lock(&frame));
            let outgoing = client.send(frame).expect("an acknowledgement");
            assert_eq!(outgoing.octets, vec![0x68, 0x04, 0x01, 0x00, 0x04, 0x00]);
        }
        other => panic!("nothing to send: {:?}", other),
    }
}

#[test]
fn control_frames_have_six_octets() {
    let cases = [
        (Telegram104_U::new_start_dt(), 0x07u8),
        (Telegram104_U::new_start_dt().with_con(true), 0x0b),
        (Telegram104_U::new_stop_dt(), 0x13),
        (Telegram104_U::new_stop_dt().with_con(true), 0x23),
        (Telegram104_U::new_test(), 0x43),
        (Telegram104_U::new_test().with_con(true), 0x83),
    ];
    for (frame, control) in cases {
        let octets = encode(&Telegram104::U(frame)).expect("a control frame");
        assert_eq!(octets, vec![0x68, 0x04, control, 0x00, 0x00, 0x00]);
    }
    let ack = encode(&Telegram104::S(Telegram104_S::new())).expect("an acknowledgement");
    assert_eq!(ack, vec![0x68, 0x04, 0x01, 0x00, 0x00, 0x00]);
}

#[test]
fn control_frames_with_several_functions_keep_one_bit_each() {
    // what the peer sent, and what the codec writes for the flags it read
    let cases = [(0x47u8, 0x47u8), (0xab, 0xab), (0x4b, 0x8b), (0x03, 0x03)];
    for (received, written) in cases {
        let octets = [0x68u8, 0x04, received, 0x00, 0x00, 0x00];
        let frame = Telegram104::read(&octets[..]).expect("a control frame");
        assert_eq!(
            encode(&frame).expect("a control frame"),
            vec![0x68, 0x04, written, 0x00, 0x00, 0x00]
        );
    }
}

#[test]
fn acknowledgement_octets_carry_the_largest_number() {
    let octets = [0x68u8, 0x04, 0x01, 0x00, 0xfe, 0xff];
    let frame = Telegram104::read(&octets[..]).expect("an acknowledgement");
    match &frame {
        Telegram104::S(s) => assert_eq!(s.recv_sn(), 32767),
        other => panic!("not an acknowledgement: {:?}", other),
    }
    assert_eq!(encode(&frame).expect("an acknowledgement"), octets.to_vec());
}

#[test]
fn encode_gives_what_the_codec_writes() {
    let mut frame = Telegram104_I::new(DataType::M_ME_NC_1, COT::Spontan, 513);
    frame.append_iou(0x010203, [9u8; 12]);
    let frame = Telegram104::I(frame.with_send_sn(5).with_recv_sn(300));
    let mut expected = Vec::new();
    frame.write(&mut expected).expect("the codec writes");
    let octets = encode(&frame).expect("the frame is serialised");
    assert_eq!(octets, expected);
    assert_eq!(&octets[..6], &[0x68, 18, 10, 0, 88, 2]);
}

#[test]
fn encode_refuses_numbers_outside_the_sequence_space() {
    let mut frame = Telegram104_I::new(DataType::C_SC_NA_1, COT::Act, 1);
    frame.append_iou(1, [0u8; 12]);
    let high = Telegram104::I(frame.clone().with_send_sn(32768));
    assert_eq!(encode(&high), Err(EncodeError::OutOfSequenceSpace));
    let higher = Telegram104::I(frame.clone().with_recv_sn(40000));
    assert_eq!(encode(&higher), Err(EncodeError::OutOfSequenceSpace));
    let top = Telegram104::I(frame.with_send_sn(32767).with_recv_sn(32767));
    assert!(encode(&top).is_ok());
}

#[test]
fn encode_reports_a_frame_the_codec_refuses() {
    let mut long = Telegram104_I::new(DataType::M_BO_TB_1, COT::Spontan, 1);
    for address in 0u32..20 {
        long.append_iou(address, [0u8; 12]);
    }
    assert_eq!(encode(&Telegram104::I(long)), Err(EncodeError::Refused));
}

#[test]
fn first_start_is_no_restart() {
    let (_client, mut reader) = Client::new();
    assert!(!reader.reading());
    let start = reader.start(1);
    assert!(!start.restarted);
    assert_eq!(start.event, RestartEvent::default());
    assert!(reader.reading());
}

#[test]
fn every_later_start_is_a_restart() {
    let mut reader = Reader::new();
    assert!(!reader.start(1).restarted);
    assert!(reader.finish(2) == false);
    assert!(reader.start(2).restarted);
    reader.fail();
    assert!(reader.finish(2));
    assert!(reader.start(3).restarted);
}

#[test]
fn reader_asks_for_a_reconnect_if_the_session_is_unchanged() {
    let mut reader = Reader::new();
    reader.start(7);
    reader.fail();
    assert!(!reader.reading());
    assert!(reader.finish(7));
    assert!(!reader.reading());
}

#[test]
fn reader_asks_for_no_reconnect_if_the_transport_moved_on() {
    let mut reader = Reader::new();
    reader.start(7);
    reader.fail();
    assert!(!reader.finish(8));
    assert!(!reader.reading());
}

#[test]
fn restart_events_are_delivered_in_a_single_copy() {
    assert_eq!(RestartEvent::default().delivery_policy(), DeliveryPolicy::Single);
    assert_eq!(RestartEvent {}.delivery_policy(), DeliveryPolicy::Single);
}

#[test]
fn five_restarts_are_observed_as_one_event() {
    let (tx, rx) = roboplc::policy_channel::bounded::<Beacon>(RESTART_QUEUE_CAPACITY);
    let mut reader = Reader::new();
    for session in 1usize..=5 {
        let start = reader.start(session);
        assert_eq!(start.restarted, session > 1);
        tx.send(Beacon(start.event)).expect("the queue takes the event");
        reader.fail();
        reader.finish(session);
    }
    assert_eq!(rx.len(), 1);
    assert!(rx.try_recv().is_ok());
    assert!(rx.try_recv().is_err());
}

#[test]
fn encode_errors_have_their_texts() {
    assert_eq!(
        EncodeError::OutOfSequenceSpace.to_string(),
        "sequence number out of range"
    );
    assert_eq!(EncodeError::Refused.to_string(), "telegram refused by the codec");
}
