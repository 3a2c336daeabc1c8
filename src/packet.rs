use vstd::prelude::*;

use crate::float_bits::F32Bits;

verus! {

/// One typed argument of a wire message. Arguments of kinds the headband
/// never sends are kept only as `Other`.
#[derive(Clone, Copy, Debug, PartialEq)]
pub enum OscArg {
    Int(i32),
    Float(F32Bits),
    Other,
}

/// A wire message: an address path and its ordered arguments, if any.
#[derive(Clone, Debug)]
pub struct OscMessage {
    pub addr: String,
    pub args: Option<Vec<OscArg>>,
}

/// The closed set of domain events the headband reports.
#[derive(Clone, Copy, Debug, PartialEq)]
pub enum MuseMessageType {
    Eeg { eeg: [F32Bits; 4] },
    Accelerometer { x: F32Bits, y: F32Bits, z: F32Bits },
    Gyro { x: F32Bits, y: F32Bits, z: F32Bits },
    Alpha { alpha: [F32Bits; 4] },
    Beta { beta: [F32Bits; 4] },
    Gamma { gamma: [F32Bits; 4] },
    Delta { a: F32Bits, b: F32Bits, c: F32Bits, d: F32Bits },
    Theta { a: F32Bits, b: F32Bits, c: F32Bits, d: F32Bits },
    Batt { batt: i32 },
    Horseshoe { a: F32Bits, b: F32Bits, c: F32Bits, d: F32Bits },
    TouchingForehead { touch: bool },
    Blink { blink: bool },
    JawClench { clench: bool },
}

/// Why a wire message produced no event.
#[derive(Clone, Copy, Debug, PartialEq, Eq, Structural)]
pub enum DecodeError {
    /// The message carried no argument list at all.
    MissingArguments,
    /// The address is not one the headband uses.
    UnknownAddress,
    /// The argument at `index` was needed but the list is shorter.
    MissingArgument { index: usize },
    /// The argument at `index` has another type than the address calls for.
    WrongArgumentType { index: usize },
}

/// A source of wire messages that can be polled for what has arrived.
pub trait OscSocket: Sized {
    fn osc_socket_receive();
}

/// The event variant an address stands for.
#[derive(Clone, Copy, Debug, PartialEq, Eq, Structural)]
pub enum MessageKind {
    Eeg,
    Accelerometer,
    Gyro,
    TouchingForehead,
    Horseshoe,
    Alpha,
    Beta,
    Gamma,
    Delta,
    Theta,
    Blink,
    Batt,
    JawClench,
}

pub open spec fn kind_of_address(addr: Seq<char>) -> Option<MessageKind> {
    if addr == "/muse/eeg"@ {
        Some(MessageKind::Eeg)
    } else if addr == "/muse/acc"@ {
        Some(MessageKind::Accelerometer)
    } else if addr == "/muse/gyro"@ {
        Some(MessageKind::Gyro)
    } else if addr == "/muse/elements/touching_forehead"@ {
        Some(MessageKind::TouchingForehead)
    } else if addr == "/muse/elements/horseshoe"@ {
        Some(MessageKind::Horseshoe)
    } else if addr == "/muse/elements/alpha_absolute"@ {
        Some(MessageKind::Alpha)
    } else if addr == "/muse/elements/beta_absolute"@ {
        Some(MessageKind::Beta)
    } else if addr == "/muse/elements/gamma_absolute"@ {
        Some(MessageKind::Gamma)
    } else if addr == "/muse/elements/delta_absolute"@ {
        Some(MessageKind::Delta)
    } else if addr == "/muse/elements/theta_absolute"@ {
        Some(MessageKind::Theta)
    } else if addr == "/muse/elements/blink"@ {
        Some(MessageKind::Blink)
    } else if addr == "/muse/batt"@ {
        Some(MessageKind::Batt)
    } else if addr == "/muse/elements/jaw_clench"@ {
        Some(MessageKind::JawClench)
    } else {
        None
    }
}

/// How many leading float arguments a kind reads (0 for the integer kinds).
pub open spec fn float_arity(k: MessageKind) -> nat {
    match k {
        MessageKind::Eeg => 4,
        MessageKind::Accelerometer => 3,
        MessageKind::Gyro => 3,
        MessageKind::Horseshoe => 4,
        MessageKind::Alpha => 4,
        MessageKind::Beta => 4,
        MessageKind::Gamma => 4,
        MessageKind::Delta => 4,
        MessageKind::Theta => 4,
        _ => 0,
    }
}

pub open spec fn float_arg(args: Seq<OscArg>, i: int) -> Result<F32Bits, DecodeError> {
    if 0 <= i < args.len() {
        match args[i] {
            OscArg::Float(f) => Ok(f),
            _ => Err(DecodeError::WrongArgumentType { index: i as usize }),
        }
    } else {
        Err(DecodeError::MissingArgument { index: i as usize })
    }
}

pub open spec fn int_arg(args: Seq<OscArg>, i: int) -> Result<i32, DecodeError> {
    if 0 <= i < args.len() {
        match args[i] {
            OscArg::Int(v) => Ok(v),
            _ => Err(DecodeError::WrongArgumentType { index: i as usize }),
        }
    } else {
        Err(DecodeError::MissingArgument { index: i as usize })
    }
}

/// The first `n` arguments read as floats in order; the first failure wins.
pub open spec fn float_args(args: Seq<OscArg>, n: nat) -> Result<Seq<F32Bits>, DecodeError>
    decreases n,
{
    if n == 0 {
        Ok(Seq::empty())
    } else {
        match float_args(args, (n - 1) as nat) {
            Ok(p) => match float_arg(args, n - 1) {
                Ok(f) => Ok(p.push(f)),
                Err(e) => Err(e),
            },
            Err(e) => Err(e),
        }
    }
}

/// The integer at `i`, for use once `int_arg` is known to succeed.
pub open spec fn int_value(args: Seq<OscArg>, i: int) -> i32 {
    match int_arg(args, i) {
        Ok(v) => v,
        Err(_) => 0,
    }
}

/// The exact ratio `n / d` truncated toward zero, saturating at the bounds of
/// `i32`: a zero denominator gives `i32::MAX` or `i32::MIN` by the sign of `n`,
/// and `0 / 0` gives 0.
pub open spec fn battery_percentage(n: int, d: int) -> i32 {
    if d == 0 {
        if n > 0 {
            i32::MAX
        } else if n < 0 {
            i32::MIN
        } else {
            0
        }
    } else {
        let an = if n < 0 { -n } else { n };
        let ad = if d < 0 { -d } else { d };
        let q = if (n < 0) == (d < 0) { an / ad } else { -(an / ad) };
        if q > i32::MAX {
            i32::MAX
        } else {
            q as i32
        }
    }
}

/// The error, if any, that decoding a message stops on: the argument list
/// first, then the address, then the arguments in the order they are read.
pub open spec fn decode_error(addr: Seq<char>, args: Option<Seq<OscArg>>) -> Option<DecodeError> {
    match args {
        None => Some(DecodeError::MissingArguments),
        Some(a) => match kind_of_address(addr) {
            None => Some(DecodeError::UnknownAddress),
            Some(k) => if float_arity(k) > 0 {
                match float_args(a, float_arity(k)) {
                    Ok(_) => None,
                    Err(e) => Some(e),
                }
            } else if k == MessageKind::Batt {
                match int_arg(a, 1) {
                    Err(e) => Some(e),
                    Ok(_) => match int_arg(a, 0) {
                        Err(e) => Some(e),
                        Ok(_) => None,
                    },
                }
            } else {
                match int_arg(a, 0) {
                    Err(e) => Some(e),
                    Ok(_) => None,
                }
            },
        },
    }
}

pub open spec fn message_kind(m: MuseMessageType) -> MessageKind {
    match m {
        MuseMessageType::Eeg { .. } => MessageKind::Eeg,
        MuseMessageType::Accelerometer { .. } => MessageKind::Accelerometer,
        MuseMessageType::Gyro { .. } => MessageKind::Gyro,
        MuseMessageType::Alpha { .. } => MessageKind::Alpha,
        MuseMessageType::Beta { .. } => MessageKind::Beta,
        MuseMessageType::Gamma { .. } => MessageKind::Gamma,
        MuseMessageType::Delta { .. } => MessageKind::Delta,
        MuseMessageType::Theta { .. } => MessageKind::Theta,
        MuseMessageType::Batt { .. } => MessageKind::Batt,
        MuseMessageType::Horseshoe { .. } => MessageKind::Horseshoe,
        MuseMessageType::TouchingForehead { .. } => MessageKind::TouchingForehead,
        MuseMessageType::Blink { .. } => MessageKind::Blink,
        MuseMessageType::JawClench { .. } => MessageKind::JawClench,
    }
}

/// The float fields of an event, in argument order (empty for integer kinds).
pub open spec fn float_fields(m: MuseMessageType) -> Seq<F32Bits> {
    match m {
        MuseMessageType::Eeg { eeg } => eeg@,
        MuseMessageType::Accelerometer { x, y, z } => seq![x, y, z],
        MuseMessageType::Gyro { x, y, z } => seq![x, y, z],
        MuseMessageType::Alpha { alpha } => alpha@,
        MuseMessageType::Beta { beta } => beta@,
        MuseMessageType::Gamma { gamma } => gamma@,
        MuseMessageType::Delta { a, b, c, d } => seq![a, b, c, d],
        MuseMessageType::Theta { a, b, c, d } => seq![a, b, c, d],
        MuseMessageType::Horseshoe { a, b, c, d } => seq![a, b, c, d],
        _ => Seq::empty(),
    }
}

/// The integer fields of an event agree with the arguments: a flag is true
/// when its integer is nonzero, the battery is the ratio of the second
/// integer to the first.
pub open spec fn int_fields_match(args: Seq<OscArg>, m: MuseMessageType) -> bool {
    match m {
        MuseMessageType::TouchingForehead { touch } => touch == (int_value(args, 0) != 0),
        MuseMessageType::Blink { blink } => blink == (int_value(args, 0) != 0),
        MuseMessageType::JawClench { clench } => clench == (int_value(args, 0) != 0),
        MuseMessageType::Batt { batt } => batt == battery_percentage(
            int_value(args, 1) as int,
            int_value(args, 0) as int,
        ),
        _ => true,
    }
}

/// `m` is the event that a message with this address and these arguments stands for.
pub open spec fn decodes_to(addr: Seq<char>, args: Seq<OscArg>, m: MuseMessageType) -> bool {
    &&& kind_of_address(addr) == Some(message_kind(m))
    &&& float_args(args, float_arity(message_kind(m))) == Ok::<Seq<F32Bits>, DecodeError>(
        float_fields(m),
    )
    &&& int_fields_match(args, m)
}

pub open spec fn args_view(msg: &OscMessage) -> Option<Seq<OscArg>> {
    match msg.args {
        Some(v) => Some(v@),
        None => None,
    }
}

/// Whether two strings hold the same characters.
fn same_text(a: &str, b: &str) -> (r: bool)
    ensures
        r == (a@ == b@),
{
    let a_owned = a.to_owned();
    let b_owned = b.to_owned();
    a_owned == b_owned
}

/// The event variant that an address stands for, if any.
pub fn address_kind(addr: &str) -> (r: Option<MessageKind>)
    ensures
        r == kind_of_address(addr@),
{
    if same_text(addr, "/muse/eeg") {
        Some(MessageKind::Eeg)
    } else if same_text(addr, "/muse/acc") {
        Some(MessageKind::Accelerometer)
    } else if same_text(addr, "/muse/gyro") {
        Some(MessageKind::Gyro)
    } else if same_text(addr, "/muse/elements/touching_forehead") {
        Some(MessageKind::TouchingForehead)
    } else if same_text(addr, "/muse/elements/horseshoe") {
        Some(MessageKind::Horseshoe)
    } else if same_text(addr, "/muse/elements/alpha_absolute") {
        Some(MessageKind::Alpha)
    } else if same_text(addr, "/muse/elements/beta_absolute") {
        Some(MessageKind::Beta)
    } else if same_text(addr, "/muse/elements/gamma_absolute") {
        Some(MessageKind::Gamma)
    } else if same_text(addr, "/muse/elements/delta_absolute") {
        Some(MessageKind::Delta)
    } else if same_text(addr, "/muse/elements/theta_absolute") {
        Some(MessageKind::Theta)
    } else if same_text(addr, "/muse/elements/blink") {
        Some(MessageKind::Blink)
    } else if same_text(addr, "/muse/batt") {
        Some(MessageKind::Batt)
    } else if same_text(addr, "/muse/elements/jaw_clench") {
        Some(MessageKind::JawClench)
    } else {
        None
    }
}

/// The float argument at `i`.
pub fn get_float_from_args(i: usize, args: &Vec<OscArg>) -> (r: Result<F32Bits, DecodeError>)
    ensures
        r == float_arg(args@, i as int),
{
    if i < args.len() {
        match args[i] {
            OscArg::Float(value) => Ok(value),
            _ => Err(DecodeError::WrongArgumentType { index: i }),
        }
    } else {
        Err(DecodeError::MissingArgument { index: i })
    }
}

/// The integer argument at `i`.
pub fn get_int_from_args(i: usize, args: &Vec<OscArg>) -> (r: Result<i32, DecodeError>)
    ensures
        r == int_arg(args@, i as int),
{
    if i < args.len() {
        match args[i] {
            OscArg::Int(value) => Ok(value),
            _ => Err(DecodeError::WrongArgumentType { index: i }),
        }
    } else {
        Err(DecodeError::MissingArgument { index: i })
    }
}

/// The first three arguments as floats.
fn three_floats(args: &Vec<OscArg>) -> (r: Result<(F32Bits, F32Bits, F32Bits), DecodeError>)
    ensures
        match r {
            Ok(t) => float_args(args@, 3) == Ok::<Seq<F32Bits>, DecodeError>(seq![t.0, t.1, t.2]),
            Err(e) => float_args(args@, 3) == Err::<Seq<F32Bits>, DecodeError>(e),
        },
{
    reveal_with_fuel(float_args, 4);
    let x = match get_float_from_args(0, args) {
        Ok(v) => v,
        Err(e) => return Err(e),
    };
    let y = match get_float_from_args(1, args) {
        Ok(v) => v,
        Err(e) => return Err(e),
    };
    let z = match get_float_from_args(2, args) {
        Ok(v) => v,
        Err(e) => return Err(e),
    };
    assert(seq![x].push(y).push(z) =~= seq![x, y, z]);
    Ok((x, y, z))
}

/// The first four arguments as floats.
fn four_floats(args: &Vec<OscArg>) -> (r: Result<[F32Bits; 4], DecodeError>)
    ensures
        match r {
            Ok(v) => float_args(args@, 4) == Ok::<Seq<F32Bits>, DecodeError>(v@),
            Err(e) => float_args(args@, 4) == Err::<Seq<F32Bits>, DecodeError>(e),
        },
{
    reveal_with_fuel(float_args, 5);
    let (a, b, c) = match three_floats(args) {
        Ok(t) => t,
        Err(e) => return Err(e),
    };
    let d = match get_float_from_args(3, args) {
        Ok(v) => v,
        Err(e) => return Err(e),
    };
    let v = [a, b, c, d];
    assert(v@ =~= seq![a, b, c].push(d));
    Ok(v)
}

/// The battery reading: `numerator / denominator` truncated toward zero,
/// saturating at the bounds of `i32`, and 0 for `0 / 0`.
pub fn battery_ratio(numerator: i32, denominator: i32) -> (r: i32)
    ensures
        r == battery_percentage(numerator as int, denominator as int),
{
    if denominator == 0 {
        if numerator > 0 {
            i32::MAX
        } else if numerator < 0 {
            i32::MIN
        } else {
            0
        }
    } else {
        let an: u64 = if numerator < 0 { (-(numerator as i64)) as u64 } else { numerator as u64 };
        let ad: u64 = if denominator < 0 { (-(denominator as i64)) as u64 } else { denominator as u64 };
        let magnitude: u64 = an / ad;
        assert(magnitude <= an) by (nonlinear_arith)
            requires magnitude == an / ad, ad > 0;
        let q: i64 = if (numerator < 0) == (denominator < 0) {
            magnitude as i64
        } else {
            -(magnitude as i64)
        };
        if q > i32::MAX as i64 {
            i32::MAX
        } else {
            q as i32
        }
    }
}

/// Decodes one wire message into its event, or says why it has none.
pub fn decode(msg: &OscMessage) -> (r: Result<MuseMessageType, DecodeError>)
    ensures
        match r {
            Ok(m) => decode_error(msg.addr@, args_view(msg)) is None && decodes_to(
                msg.addr@,
                msg.args->Some_0@,
                m,
            ),
            Err(e) => decode_error(msg.addr@, args_view(msg)) == Some(e),
        },
{
    let args = match &msg.args {
        Some(a) => a,
        None => return Err(DecodeError::MissingArguments),
    };
    let kind = match address_kind(msg.addr.as_str()) {
        Some(k) => k,
        None => return Err(DecodeError::UnknownAddress),
    };
    reveal_with_fuel(float_args, 5);
    match kind {
        MessageKind::Eeg => match four_floats(args) {
            Ok(eeg) => Ok(MuseMessageType::Eeg { eeg }),
            Err(e) => Err(e),
        },
        MessageKind::Accelerometer => match three_floats(args) {
            Ok((x, y, z)) => Ok(MuseMessageType::Accelerometer { x, y, z }),
            Err(e) => Err(e),
        },
        MessageKind::Gyro => match three_floats(args) {
            Ok((x, y, z)) => Ok(MuseMessageType::Gyro { x, y, z }),
            Err(e) => Err(e),
        },
        MessageKind::Horseshoe => match four_floats(args) {
            Ok(v) => {
                assert(v@ =~= seq![v[0], v[1], v[2], v[3]]);
                Ok(MuseMessageType::Horseshoe { a: v[0], b: v[1], c: v[2], d: v[3] })
            },
            Err(e) => Err(e),
        },
        MessageKind::Alpha => match four_floats(args) {
            Ok(alpha) => Ok(MuseMessageType::Alpha { alpha }),
            Err(e) => Err(e),
        },
        MessageKind::Beta => match four_floats(args) {
            Ok(beta) => Ok(MuseMessageType::Beta { beta }),
            Err(e) => Err(e),
        },
        MessageKind::Gamma => match four_floats(args) {
            Ok(gamma) => Ok(MuseMessageType::Gamma { gamma }),
            Err(e) => Err(e),
        },
        MessageKind::Delta => match four_floats(args) {
            Ok(v) => {
                assert(v@ =~= seq![v[0], v[1], v[2], v[3]]);
                Ok(MuseMessageType::Delta { a: v[0], b: v[1], c: v[2], d: v[3] })
            },
            Err(e) => Err(e),
        },
        MessageKind::Theta => match four_floats(args) {
            Ok(v) => {
                assert(v@ =~= seq![v[0], v[1], v[2], v[3]]);
                Ok(MuseMessageType::Theta { a: v[0], b: v[1], c: v[2], d: v[3] })
            },
            Err(e) => Err(e),
        },
        MessageKind::Batt => {
            let numerator = match get_int_from_args(1, args) {
                Ok(v) => v,
                Err(e) => return Err(e),
            };
            let denominator = match get_int_from_args(0, args) {
                Ok(v) => v,
                Err(e) => return Err(e),
            };
            Ok(MuseMessageType::Batt { batt: battery_ratio(numerator, denominator) })
        },
        MessageKind::TouchingForehead => match get_int_from_args(0, args) {
            Ok(v) => Ok(MuseMessageType::TouchingForehead { touch: v != 0 }),
            Err(e) => Err(e),
        },
        MessageKind::Blink => match get_int_from_args(0, args) {
            Ok(v) => Ok(MuseMessageType::Blink { blink: v != 0 }),
            Err(e) => Err(e),
        },
        MessageKind::JawClench => match get_int_from_args(0, args) {
            Ok(v) => Ok(MuseMessageType::JawClench { clench: v != 0 }),
            Err(e) => Err(e),
        },
    }
}

/// The event a wire message stands for; `None` when it has none (an unknown
/// address, or arguments missing or of the wrong type).
pub fn parse_muse_message_type(msg: &OscMessage) -> (r: Option<MuseMessageType>)
    ensures
        r is Some <==> decode_error(msg.addr@, args_view(msg)) is None,
        r matches Some(m) ==> decodes_to(msg.addr@, msg.args->Some_0@, m),
{
    match decode(msg) {
        Ok(m) => Some(m),
        Err(_) => None,
    }
}

} // verus!
