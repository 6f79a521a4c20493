use kondis::connection::{ConnectionSession, ConnectionState, DeviceMatcher};
use kondis::devices::DebugBike;
use kondis::errors::KondisError;
use kondis::ftms::{decode_ack, decode_command, encode_command, op_code_byte, stop_code_byte,
    ControlCommand, FTMSControlOpCode, FTMSData, StopCode};
use kondis::telemetry::decode_telemetry;
use kondis::text::str_contains;
use kondis::Equipment;

#[test]
fn target_power_round_trip() {
    let bytes = encode_command(&ControlCommand::TargetPower(150));
    assert_eq!(bytes, vec![0x05, 150, 0]);
    assert_eq!(decode_command(&bytes), Some(ControlCommand::TargetPower(150)));
}

#[test]
fn every_command_round_trips() {
    let commands = vec![
        ControlCommand::RequestControl,
        ControlCommand::TargetPower(-200),
        ControlCommand::Start,
        ControlCommand::Stop(StopCode::Stop),
        ControlCommand::Stop(StopCode::Pause),
        ControlCommand::SpinDownControl,
        ControlCommand::TargetCadence(513),
    ];
    for cmd in commands {
        assert_eq!(decode_command(&encode_command(&cmd)), Some(cmd));
    }
}

#[test]
fn op_code_bytes_match_the_protocol() {
    assert_eq!(op_code_byte(FTMSControlOpCode::RequestControl), 0x00);
    assert_eq!(op_code_byte(FTMSControlOpCode::TargetPower), 0x05);
    assert_eq!(op_code_byte(FTMSControlOpCode::Start), 0x07);
    assert_eq!(op_code_byte(FTMSControlOpCode::Stop), 0x08);
    assert_eq!(op_code_byte(FTMSControlOpCode::SpinDownControl), 0x13);
    assert_eq!(op_code_byte(FTMSControlOpCode::TargetCadence), 0x14);
    assert_eq!(op_code_byte(FTMSControlOpCode::Success), 0x80);
    assert_eq!(stop_code_byte(StopCode::Stop), 0x01);
    assert_eq!(stop_code_byte(StopCode::Pause), 0x02);
}

#[test]
fn malformed_command_bytes_decode_to_none() {
    assert_eq!(decode_command(&vec![]), None);
    assert_eq!(decode_command(&vec![0x42]), None);
    assert_eq!(decode_command(&vec![0x05, 1]), None);
    assert_eq!(decode_command(&vec![0x00, 0x00]), None);
    assert_eq!(decode_command(&vec![0x08, 0x03]), None);
}

#[test]
fn telemetry_decode_reads_flagged_fields() {
    let prev = FTMSData {
        speed: 7,
        cadence: 8,
        distance: 9,
        resistance: -1,
        power: 3,
        calories: 4,
        heart_rate: 5,
        time: 6,
    };
    // Flags 0x0081: speed and elapsed time present, everything else kept.
    let payload = vec![0x81, 0x00, 0x2A, 0x01, 0x3C, 0x00];
    let record = decode_telemetry(&payload, &prev).unwrap();
    assert_eq!(record.speed, 0x012A);
    assert_eq!(record.time, 60);
    assert_eq!(record.cadence, 8);
    assert_eq!(record.distance, 9);
    assert_eq!(record.resistance, -1);
    assert_eq!(record.power, 3);
    assert_eq!(record.calories, 4);
    assert_eq!(record.heart_rate, 5);
}

#[test]
fn telemetry_decode_rejects_short_payloads() {
    let prev = FTMSData {
        speed: 0,
        cadence: 0,
        distance: 0,
        resistance: 0,
        power: 0,
        calories: 0,
        heart_rate: 0,
        time: 0,
    };
    assert_eq!(decode_telemetry(&vec![], &prev), Err(KondisError::ProtocolDecode));
    assert_eq!(decode_telemetry(&vec![0x01], &prev), Err(KondisError::ProtocolDecode));
    // Flags demand a 2-byte speed field that is missing.
    assert_eq!(decode_telemetry(&vec![0x01, 0x00, 0x10], &prev), Err(KondisError::ProtocolDecode));
}

#[test]
fn telemetry_decode_skips_unknown_flags() {
    let prev = FTMSData {
        speed: 1,
        cadence: 2,
        distance: 3,
        resistance: 4,
        power: 5,
        calories: 6,
        heart_rate: 7,
        time: 8,
    };
    // Only an unknown flag bit is set: its payload bytes are skipped and
    // every known field keeps its previous value.
    let payload = vec![0x00, 0x01, 0xAA, 0xBB];
    assert_eq!(decode_telemetry(&payload, &prev), Ok(prev));
}

#[test]
fn acknowledgment_decoding() {
    assert_eq!(decode_ack(&vec![0x80, 0x00, 0x01]), Some((0x00, 0x01)));
    assert_eq!(decode_ack(&vec![0x80, 0x05, 0x02]), Some((0x05, 0x02)));
    assert_eq!(decode_ack(&vec![0x00, 0x00, 0x01]), None);
    assert_eq!(decode_ack(&vec![0x80, 0x00]), None);
}

#[test]
fn full_debug_bike_session_flow() {
    let (_, mut shutdown_rx) = std::sync::mpsc::channel();
    let mut bike = DebugBike::new(10, &mut shutdown_rx).unwrap();

    // No link yet: connect reports a transport error, setters lack control.
    assert_eq!(bike.connect(), Err(KondisError::Transport));
    assert_eq!(bike.set_target_power(5), Err(KondisError::ControlNotGranted));

    // A scan without a console-style name keeps discovering.
    let nothing = vec![String::from("some watch"), String::from("headphones")];
    assert_eq!(bike.session.poll_scan(false, &nothing), Ok(None));

    // A console-style name is picked; the machine asks to connect to it.
    let names = vec![String::from("some watch"), String::from("Gym Console 123")];
    assert_eq!(bike.session.poll_scan(false, &names), Ok(Some(1)));
    assert_eq!(bike.session.state, ConnectionState::Found);

    // Transport connect succeeded: the control request goes on the wire.
    let request = bike.session.on_connect_result(true).unwrap();
    assert_eq!(request, vec![0x00]);

    // A garbled acknowledgment is a protocol error; a proper one grants.
    assert_eq!(
        bike.session.on_control_response(&vec![0x13, 0x37]),
        Err(KondisError::ProtocolDecode)
    );
    assert_eq!(bike.session.on_control_response(&vec![0x80, 0x00, 0x01]), Ok(true));
    assert_eq!(bike.connect(), Ok(true));

    // With control granted, targets are validated then queued as frames.
    assert_eq!(
        bike.set_target_cadence(11),
        Err(KondisError::Validation { value: 11, max_level: 10 })
    );
    assert_eq!(bike.set_target_cadence(5), Ok(()));
    assert_eq!(bike.outbox.last().unwrap(), &vec![0x14, 5, 0]);
    assert_eq!(bike.set_target_power(10), Ok(()));
    assert_eq!(bike.outbox.last().unwrap(), &vec![0x05, 10, 0]);

    // Subscribe, then a notification fills the cached record.
    bike.session.on_subscribed();
    assert_eq!(bike.read(), Ok(None));
    assert_eq!(bike.session.on_notification(&vec![0x10, 0x00, 0x7B]), Ok(()));
    let record = bike.read().unwrap().unwrap();
    assert_eq!(record.power, 0x7B);

    // A corrupt notification is dropped; the previous record is retained.
    assert_eq!(
        bike.session.on_notification(&vec![0x01, 0x00]),
        Err(KondisError::ProtocolDecode)
    );
    assert_eq!(bike.read().unwrap().unwrap().power, 0x7B);

    // Teardown queues a best-effort stop frame and resets the machine.
    assert_eq!(bike.disconnect(), Ok(()));
    assert_eq!(bike.outbox.last().unwrap(), &vec![0x08, 0x01]);
    assert_eq!(bike.session.state, ConnectionState::Disconnected);
    assert_eq!(bike.read(), Ok(None));
}

#[test]
fn cancellation_aborts_a_discovery_poll() {
    let mut session = ConnectionSession::new(DeviceMatcher::Exact(String::from("iConsole+0028")));
    session.start_discovery();
    let names = vec![String::from("iConsole+0028")];
    assert_eq!(session.poll_scan(true, &names), Err(KondisError::Cancelled));
    assert_eq!(session.state, ConnectionState::Disconnected);
}

#[test]
fn exact_matcher_ignores_near_misses() {
    let mut session = ConnectionSession::new(DeviceMatcher::Exact(String::from("iConsole+0028")));
    session.start_discovery();
    let names = vec![String::from("iConsole+0029"), String::from("iConsole+0028 Pro")];
    assert_eq!(session.poll_scan(false, &names), Ok(None));
    let names = vec![String::from("iConsole+0028")];
    assert_eq!(session.poll_scan(false, &names), Ok(Some(0)));
}

#[test]
fn substring_search_finds_the_marker() {
    assert!(str_contains("Gym Console 123", "Console"));
    assert!(str_contains("Console", "Console"));
    assert!(!str_contains("console", "Console"));
    assert!(!str_contains("Conso", "Console"));
    assert!(str_contains("anything", ""));
}
