use muse_core::float_bits::F32Bits;
use muse_core::packet::{
    battery_ratio, decode, get_float_from_args, get_int_from_args, parse_muse_message_type,
    DecodeError, MuseMessageType, OscArg, OscMessage,
};

fn bits(v: f32) -> F32Bits {
    F32Bits(v.to_bits())
}

fn message(addr: &str, args: Vec<OscArg>) -> OscMessage {
    OscMessage { addr: addr.to_string(), args: Some(args) }
}

#[test]
fn test_int_from_args() {
    let i = 32;
    let mut args: Vec<OscArg> = Vec::new();
    args.push(OscArg::Int(i));

    assert_eq!(Ok(i), get_int_from_args(0, &args));
}

#[test]
fn test_float_from_args() {
    let f = 55.0f32;
    let mut args: Vec<OscArg> = Vec::new();
    args.push(OscArg::Float(bits(f)));

    assert_eq!(Ok(bits(f)), get_float_from_args(0, &args));
}

#[test]
fn argument_errors_name_the_index() {
    let args = vec![OscArg::Int(3), OscArg::Float(bits(1.0))];
    assert_eq!(Err(DecodeError::WrongArgumentType { index: 0 }), get_float_from_args(0, &args));
    assert_eq!(Err(DecodeError::WrongArgumentType { index: 1 }), get_int_from_args(1, &args));
    assert_eq!(Err(DecodeError::MissingArgument { index: 2 }), get_int_from_args(2, &args));
}

#[test]
fn jaw_clench_flag_decodes() {
    let on = message("/muse/elements/jaw_clench", vec![OscArg::Int(1)]);
    assert_eq!(Some(MuseMessageType::JawClench { clench: true }), parse_muse_message_type(&on));
    let off = message("/muse/elements/jaw_clench", vec![OscArg::Int(0)]);
    assert_eq!(Some(MuseMessageType::JawClench { clench: false }), parse_muse_message_type(&off));
}

#[test]
fn unknown_address_decodes_to_nothing() {
    let m = message("/muse/elements/unknown", vec![OscArg::Int(1)]);
    assert_eq!(None, parse_muse_message_type(&m));
    assert_eq!(Err(DecodeError::UnknownAddress), decode(&m));
}

#[test]
fn missing_argument_list_is_an_error() {
    let m = OscMessage { addr: "/muse/elements/blink".to_string(), args: None };
    assert_eq!(Err(DecodeError::MissingArguments), decode(&m));
}

#[test]
fn blink_and_forehead_flags_decode() {
    let blink = message("/muse/elements/blink", vec![OscArg::Int(7)]);
    assert_eq!(Ok(MuseMessageType::Blink { blink: true }), decode(&blink));
    let touch = message("/muse/elements/touching_forehead", vec![OscArg::Int(0)]);
    assert_eq!(Ok(MuseMessageType::TouchingForehead { touch: false }), decode(&touch));
}

#[test]
fn eeg_reads_four_positions() {
    let args = vec![
        OscArg::Float(bits(1.0)),
        OscArg::Float(bits(2.0)),
        OscArg::Float(bits(3.0)),
        OscArg::Float(bits(4.0)),
    ];
    let m = message("/muse/eeg", args);
    assert_eq!(
        Ok(MuseMessageType::Eeg { eeg: [bits(1.0), bits(2.0), bits(3.0), bits(4.0)] }),
        decode(&m)
    );
}

#[test]
fn band_power_and_vectors_decode() {
    let four = vec![
        OscArg::Float(bits(0.5)),
        OscArg::Float(bits(-0.25)),
        OscArg::Float(bits(1.5)),
        OscArg::Float(bits(2.0)),
    ];
    let alpha = message("/muse/elements/alpha_absolute", four.clone());
    assert_eq!(
        Ok(MuseMessageType::Alpha { alpha: [bits(0.5), bits(-0.25), bits(1.5), bits(2.0)] }),
        decode(&alpha)
    );
    let theta = message("/muse/elements/theta_absolute", four.clone());
    assert_eq!(
        Ok(MuseMessageType::Theta { a: bits(0.5), b: bits(-0.25), c: bits(1.5), d: bits(2.0) }),
        decode(&theta)
    );
    let acc = message("/muse/acc", four);
    assert_eq!(
        Ok(MuseMessageType::Accelerometer { x: bits(0.5), y: bits(-0.25), z: bits(1.5) }),
        decode(&acc)
    );
}

#[test]
fn short_band_power_message_fails_at_first_missing_index() {
    let m = message(
        "/muse/elements/gamma_absolute",
        vec![OscArg::Float(bits(0.5)), OscArg::Float(bits(0.5))],
    );
    assert_eq!(Err(DecodeError::MissingArgument { index: 2 }), decode(&m));
    let n = message("/muse/gyro", vec![OscArg::Float(bits(0.5)), OscArg::Int(1)]);
    assert_eq!(Err(DecodeError::WrongArgumentType { index: 1 }), decode(&n));
}

#[test]
fn battery_is_second_over_first() {
    let m = message("/muse/batt", vec![OscArg::Int(100), OscArg::Int(8750)]);
    assert_eq!(Ok(MuseMessageType::Batt { batt: 87 }), decode(&m));
    let short = message("/muse/batt", vec![OscArg::Int(100)]);
    assert_eq!(Err(DecodeError::MissingArgument { index: 1 }), decode(&short));
}

#[test]
fn battery_ratio_truncates_and_saturates() {
    assert_eq!(87, battery_ratio(8750, 100));
    assert_eq!(-2, battery_ratio(-7, 3));
    assert_eq!(-2, battery_ratio(7, -3));
    assert_eq!(i32::MAX, battery_ratio(5, 0));
    assert_eq!(i32::MIN, battery_ratio(-5, 0));
    assert_eq!(0, battery_ratio(0, 0));
    assert_eq!(i32::MAX, battery_ratio(i32::MIN, -1));
}
