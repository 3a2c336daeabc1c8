use muse_core::float_bits::F32Bits;
use muse_core::model::{
    parse_muse_packet, DisplayType, MuseMessage, MuseModel, BLINK_COUNTDOWN, CLENCH_COUNTDOWN,
    FOREHEAD_COUNTDOWN,
};
use muse_core::packet::{DecodeError, MuseMessageType, OscArg, OscMessage};
use muse_core::records::{log_stream, record_fields, record_label, LogStream, RecordField};
use muse_core::time_format::{date_time_csv_format, date_time_filename_format, session_file_name, SessionTime};

fn bits(v: f32) -> F32Bits {
    F32Bits(v.to_bits())
}

fn start() -> SessionTime {
    SessionTime { millis: 1_582_623_349_123, offset_seconds: 0 }
}

fn event(millis: i64, m: MuseMessageType) -> MuseMessage {
    MuseMessage {
        message_time: SessionTime { millis, offset_seconds: 0 },
        ip_address: "127.0.0.1:5000".to_string(),
        muse_message_type: m,
    }
}

#[test]
fn new_session_is_idle() {
    let model = MuseModel::new(start());
    assert_eq!(model.alpha, [bits(0.0); 4]);
    assert_eq!(model.batt, 0);
    assert!(!model.is_blink());
    assert!(!model.is_jaw_clench());
    assert!(!model.is_touching_forehead());
    assert_eq!(model.display_type, DisplayType::Mandala);
    assert_eq!(model.valence.history().len(), 0);
}

#[test]
fn blink_suppression_counts_down_to_zero() {
    let mut model = MuseModel::new(start());
    assert!(!model.handle_muse_message(&event(1, MuseMessageType::Blink { blink: true })));
    assert_eq!(model.blink_countdown, BLINK_COUNTDOWN);
    for _ in 0..BLINK_COUNTDOWN - 1 {
        model.count_down();
        assert!(model.is_blink());
    }
    model.count_down();
    assert_eq!(model.blink_countdown, 0);
    assert!(!model.is_blink());
    model.count_down();
    assert_eq!(model.blink_countdown, 0);
}

#[test]
fn triggers_rearm_to_full_count() {
    let mut model = MuseModel::new(start());
    model.handle_muse_message(&event(1, MuseMessageType::JawClench { clench: true }));
    model.count_down();
    model.count_down();
    model.handle_muse_message(&event(2, MuseMessageType::JawClench { clench: true }));
    assert_eq!(model.jaw_clench_countdown, CLENCH_COUNTDOWN);
    model.handle_muse_message(&event(3, MuseMessageType::JawClench { clench: false }));
    assert_eq!(model.jaw_clench_countdown, CLENCH_COUNTDOWN);
    model.handle_muse_message(&event(4, MuseMessageType::TouchingForehead { touch: true }));
    assert_eq!(model.touching_forehead_countdown, 0);
    model.handle_muse_message(&event(5, MuseMessageType::TouchingForehead { touch: false }));
    assert_eq!(model.touching_forehead_countdown, FOREHEAD_COUNTDOWN);
}

#[test]
fn batch_updates_channels_and_flags_band_power() {
    let mut model = MuseModel::new(start());
    let quiet = vec![
        event(10, MuseMessageType::Batt { batt: 80 }),
        event(11, MuseMessageType::Gyro { x: bits(1.0), y: bits(2.0), z: bits(3.0) }),
    ];
    assert!(!model.handle_muse_messages(&quiet));
    assert_eq!(model.batt, 80);
    assert_eq!(model.gyro, [bits(1.0), bits(2.0), bits(3.0)]);
    assert_eq!(model.most_recent_message_receive_time.millis, 11);
    let busy = vec![
        event(12, MuseMessageType::Alpha { alpha: [bits(0.1), bits(0.2), bits(0.3), bits(0.4)] }),
        event(13, MuseMessageType::Theta { a: bits(1.1), b: bits(1.2), c: bits(1.3), d: bits(1.4) }),
    ];
    assert!(model.handle_muse_messages(&busy));
    assert_eq!(model.alpha, [bits(0.1), bits(0.2), bits(0.3), bits(0.4)]);
    assert_eq!(model.theta, [bits(1.1), bits(1.2), bits(1.3), bits(1.4)]);
    assert_eq!(model.most_recent_message_receive_time.millis, 13);
}

#[test]
fn valence_is_forwarded_unchanged() {
    let mut model = MuseModel::new(start());
    let alpha = [0.1f32, 0.2, 0.7, 0.4];
    let theta = [1.1f32, 1.2, 1.3, 1.4];
    model.handle_muse_message(&event(1, MuseMessageType::Alpha {
        alpha: [bits(alpha[0]), bits(alpha[1]), bits(alpha[2]), bits(alpha[3])],
    }));
    model.handle_muse_message(&event(2, MuseMessageType::Theta {
        a: bits(theta[0]),
        b: bits(theta[1]),
        c: bits(theta[2]),
        d: bits(theta[3]),
    }));
    let a = |x: F32Bits| f32::from_bits(x.0);
    let e = std::f32::consts::E;
    let valence = e.powf(a(model.alpha[2]) - a(model.alpha[1]))
        / ((e.powf(a(model.theta[1])) + e.powf(a(model.theta[2]))) / 2.0);
    let expected = (0.5f32).exp() / ((1.2f32.exp() + 1.3f32.exp()) / 2.0);
    assert!((valence - expected).abs() < 1e-6);
    assert!(model.update_valence(bits(valence)));
    assert_eq!(model.valence.history(), &vec![bits(valence)]);
    assert_eq!(model.arousal.history().len(), 0);
}

#[test]
fn packet_skips_bad_messages_and_keeps_order() {
    let raw = vec![
        OscMessage { addr: "/muse/elements/blink".to_string(), args: Some(vec![OscArg::Int(1)]) },
        OscMessage { addr: "/muse/unknown".to_string(), args: Some(vec![]) },
        OscMessage { addr: "/muse/batt".to_string(), args: Some(vec![OscArg::Int(1), OscArg::Int(50)]) },
        OscMessage { addr: "/muse/acc".to_string(), args: None },
    ];
    let (events, errors) = parse_muse_packet(&"10.0.0.2:1".to_string(), start(), &raw);
    assert_eq!(events.len(), 2);
    assert_eq!(events[0].muse_message_type, MuseMessageType::Blink { blink: true });
    assert_eq!(events[1].muse_message_type, MuseMessageType::Batt { batt: 50 });
    assert_eq!(events[1].message_time, start());
    assert_eq!(events[1].ip_address, "10.0.0.2:1");
    assert_eq!(errors, vec![DecodeError::UnknownAddress, DecodeError::MissingArguments]);
}

#[test]
fn events_route_to_their_streams() {
    let alpha = MuseMessageType::Alpha { alpha: [bits(1.0); 4] };
    assert_eq!(log_stream(&alpha), LogStream::Alpha);
    assert!(log_stream(&alpha).is_decoupled());
    let delta = MuseMessageType::Delta { a: bits(1.0), b: bits(2.0), c: bits(3.0), d: bits(4.0) };
    assert_eq!(log_stream(&delta), LogStream::Delta);
    assert!(!LogStream::Delta.is_decoupled());
    assert_eq!(
        record_fields(&delta),
        vec![
            RecordField::Float(bits(1.0)),
            RecordField::Float(bits(2.0)),
            RecordField::Float(bits(3.0)),
            RecordField::Float(bits(4.0)),
        ]
    );
    assert_eq!(record_label(&delta), None);
    let blink = MuseMessageType::Blink { blink: true };
    assert_eq!(log_stream(&blink), LogStream::Other);
    assert_eq!(record_label(&blink), Some("Blink"));
    assert_eq!(record_fields(&blink), vec![RecordField::Int(1)]);
    let touch = MuseMessageType::TouchingForehead { touch: false };
    assert_eq!(record_label(&touch), Some("Forehead"));
    assert_eq!(record_fields(&touch), vec![RecordField::Int(0)]);
    let batt = MuseMessageType::Batt { batt: 42 };
    assert_eq!(record_label(&batt), Some("Battery"));
    assert_eq!(record_fields(&batt), vec![RecordField::Int(42)]);
}

#[test]
fn stream_headers_and_suffixes() {
    assert_eq!(LogStream::Eeg.header(), vec!["Time", "TP9", "AF7", "AF8", "TP10"]);
    assert_eq!(
        LogStream::Theta.header(),
        vec!["Time", "Theta TP9", "Theta AF7", "Theta AF8", "Theta TP10"]
    );
    assert_eq!(LogStream::Other.header(), vec!["Time", "Record"]);
    assert_eq!(LogStream::Gamma.file_suffix(), "gamma.csv");
}

fn now() -> SessionTime {
    let t = chrono::Local::now();
    SessionTime { millis: t.timestamp_millis(), offset_seconds: t.offset().local_minus_utc() }
}

#[test]
fn test_current_time_formatting_for_filenames() {
    let s = date_time_filename_format(now()).unwrap();
    println!("{}", s);
    assert_eq!(23, s.len());
    assert!(!s.contains(':'));
}

#[test]
fn test_current_time_formatting_for_csv() {
    let s = date_time_csv_format(now()).unwrap();
    println!("{}", s);
    assert_eq!(23, s.len());
}

#[test]
fn formatting_uses_the_given_offset() {
    let t = SessionTime { millis: 1_582_623_349_123, offset_seconds: 3600 };
    assert_eq!(date_time_csv_format(t).unwrap(), "2020-02-25 10:35:49.123");
    assert_eq!(date_time_filename_format(t).unwrap(), "2020-02-25 10-35-49.123");
    assert_eq!(session_file_name(t, "eeg.csv").unwrap(), "2020-02-25 10-35-49.123 eeg.csv");
    let far = SessionTime { millis: -8_000_000_000_000_000, offset_seconds: -86_399 };
    assert!(date_time_csv_format(far).is_some());
    let bad = SessionTime { millis: 0, offset_seconds: 86_400 };
    assert_eq!(date_time_csv_format(bad), None);
}
