use vstd::prelude::*;

use crate::float_bits::F32Bits;
use crate::packet::{float_fields, MuseMessageType};

verus! {

/// The append-only record streams of a session, one per metric class.
#[derive(Clone, Copy, Debug, PartialEq, Eq, Structural)]
pub enum LogStream {
    Eeg,
    Alpha,
    Beta,
    Gamma,
    Delta,
    Theta,
    Other,
}

/// One value of a record row after its timestamp.
#[derive(Clone, Copy, Debug, PartialEq)]
pub enum RecordField {
    Float(F32Bits),
    Int(i32),
}

/// The stream that an event is recorded in: raw samples and each band to
/// their own, everything else to the catch-all stream.
pub open spec fn stream_of(m: MuseMessageType) -> LogStream {
    match m {
        MuseMessageType::Eeg { .. } => LogStream::Eeg,
        MuseMessageType::Alpha { .. } => LogStream::Alpha,
        MuseMessageType::Beta { .. } => LogStream::Beta,
        MuseMessageType::Gamma { .. } => LogStream::Gamma,
        MuseMessageType::Delta { .. } => LogStream::Delta,
        MuseMessageType::Theta { .. } => LogStream::Theta,
        _ => LogStream::Other,
    }
}

/// Whether a stream is written by its own background writer rather than
/// in line by the ingestion path.
pub open spec fn spec_is_decoupled(s: LogStream) -> bool {
    match s {
        LogStream::Eeg => true,
        LogStream::Alpha => true,
        LogStream::Beta => true,
        LogStream::Gamma => true,
        _ => false,
    }
}

pub open spec fn suffix_of(s: LogStream) -> Seq<char> {
    match s {
        LogStream::Eeg => "eeg.csv"@,
        LogStream::Alpha => "alpha.csv"@,
        LogStream::Beta => "beta.csv"@,
        LogStream::Gamma => "gamma.csv"@,
        LogStream::Delta => "delta.csv"@,
        LogStream::Theta => "theta.csv"@,
        LogStream::Other => "other.csv"@,
    }
}

pub open spec fn header_of(s: LogStream) -> Seq<Seq<char>> {
    match s {
        LogStream::Eeg => seq!["Time"@, "TP9"@, "AF7"@, "AF8"@, "TP10"@],
        LogStream::Alpha => seq!["Time"@, "Alpha TP9"@, "Alpha AF7"@, "Alpha AF8"@, "Alpha TP10"@],
        LogStream::Beta => seq!["Time"@, "Beta TP9"@, "Beta AF7"@, "Beta AF8"@, "Beta TP10"@],
        LogStream::Gamma => seq!["Time"@, "Gamma TP9"@, "Gamma AF7"@, "Gamma AF8"@, "Gamma TP10"@],
        LogStream::Delta => seq!["Time"@, "Delta TP9"@, "Delta AF7"@, "Delta AF8"@, "Delta TP10"@],
        LogStream::Theta => seq!["Time"@, "Theta TP9"@, "Theta AF7"@, "Theta AF8"@, "Theta TP10"@],
        LogStream::Other => seq!["Time"@, "Record"@],
    }
}

/// The label that opens a catch-all row; none for events with a stream of
/// their own.
pub open spec fn label_of(m: MuseMessageType) -> Option<Seq<char>> {
    match m {
        MuseMessageType::Accelerometer { .. } => Some("Accel"@),
        MuseMessageType::Gyro { .. } => Some("Gyro"@),
        MuseMessageType::Horseshoe { .. } => Some("Horseshoe"@),
        MuseMessageType::Batt { .. } => Some("Battery"@),
        MuseMessageType::TouchingForehead { .. } => Some("Forehead"@),
        MuseMessageType::Blink { .. } => Some("Blink"@),
        MuseMessageType::JawClench { .. } => Some("Clench"@),
        _ => None,
    }
}

pub open spec fn flag(b: bool) -> RecordField {
    RecordField::Int(if b { 1 } else { 0 })
}

/// The values a row carries after its timestamp (and label): the event's
/// floats in order, the battery reading, or a flag as 1 or 0.
pub open spec fn fields_of(m: MuseMessageType) -> Seq<RecordField> {
    match m {
        MuseMessageType::Batt { batt } => seq![RecordField::Int(batt)],
        MuseMessageType::TouchingForehead { touch } => seq![flag(touch)],
        MuseMessageType::Blink { blink } => seq![flag(blink)],
        MuseMessageType::JawClench { clench } => seq![flag(clench)],
        _ => float_fields(m).map_values(|f: F32Bits| RecordField::Float(f)),
    }
}

/// The stream an event is recorded in.
pub fn log_stream(m: &MuseMessageType) -> (r: LogStream)
    ensures
        r == stream_of(*m),
{
    match m {
        MuseMessageType::Eeg { .. } => LogStream::Eeg,
        MuseMessageType::Alpha { .. } => LogStream::Alpha,
        MuseMessageType::Beta { .. } => LogStream::Beta,
        MuseMessageType::Gamma { .. } => LogStream::Gamma,
        MuseMessageType::Delta { .. } => LogStream::Delta,
        MuseMessageType::Theta { .. } => LogStream::Theta,
        _ => LogStream::Other,
    }
}

fn push_text(v: &mut Vec<&'static str>, s: &'static str)
    ensures
        final(v)@.map_values(|t: &'static str| t@) == old(v)@.map_values(|t: &'static str| t@).push(
            s@,
        ),
{
    v.push(s);
    assert(final(v)@.map_values(|t: &'static str| t@) =~= old(v)@.map_values(
        |t: &'static str| t@,
    ).push(s@));
}

impl LogStream {
    /// Whether the stream has a background writer fed through a channel.
    pub fn is_decoupled(self) -> (r: bool)
        ensures
            r == spec_is_decoupled(self),
    {
        match self {
            LogStream::Eeg => true,
            LogStream::Alpha => true,
            LogStream::Beta => true,
            LogStream::Gamma => true,
            _ => false,
        }
    }

    /// The fixed suffix of the stream's file name.
    pub fn file_suffix(self) -> (r: &'static str)
        ensures
            r@ == suffix_of(self),
    {
        match self {
            LogStream::Eeg => "eeg.csv",
            LogStream::Alpha => "alpha.csv",
            LogStream::Beta => "beta.csv",
            LogStream::Gamma => "gamma.csv",
            LogStream::Delta => "delta.csv",
            LogStream::Theta => "theta.csv",
            LogStream::Other => "other.csv",
        }
    }

    /// The header row the stream opens with.
    pub fn header(self) -> (r: Vec<&'static str>)
        ensures
            r@.map_values(|t: &'static str| t@) == header_of(self),
    {
        let mut v: Vec<&'static str> = Vec::new();
        push_text(&mut v, "Time");
        match self {
            LogStream::Eeg => {
                push_text(&mut v, "TP9");
                push_text(&mut v, "AF7");
                push_text(&mut v, "AF8");
                push_text(&mut v, "TP10");
            },
            LogStream::Alpha => {
                push_text(&mut v, "Alpha TP9");
                push_text(&mut v, "Alpha AF7");
                push_text(&mut v, "Alpha AF8");
                push_text(&mut v, "Alpha TP10");
            },
            LogStream::Beta => {
                push_text(&mut v, "Beta TP9");
                push_text(&mut v, "Beta AF7");
                push_text(&mut v, "Beta AF8");
                push_text(&mut v, "Beta TP10");
            },
            LogStream::Gamma => {
                push_text(&mut v, "Gamma TP9");
                push_text(&mut v, "Gamma AF7");
                push_text(&mut v, "Gamma AF8");
                push_text(&mut v, "Gamma TP10");
            },
            LogStream::Delta => {
                push_text(&mut v, "Delta TP9");
                push_text(&mut v, "Delta AF7");
                push_text(&mut v, "Delta AF8");
                push_text(&mut v, "Delta TP10");
            },
            LogStream::Theta => {
                push_text(&mut v, "Theta TP9");
                push_text(&mut v, "Theta AF7");
                push_text(&mut v, "Theta AF8");
                push_text(&mut v, "Theta TP10");
            },
            LogStream::Other => {
                push_text(&mut v, "Record");
            },
        }
        proof {
            let h = header_of(self);
            assert(v@.map_values(|t: &'static str| t@) =~= h);
        }
        v
    }
}

/// The label of an event's catch-all row, if it goes to that stream.
pub fn record_label(m: &MuseMessageType) -> (r: Option<&'static str>)
    ensures
        match r {
            Some(s) => label_of(*m) == Some(s@),
            None => label_of(*m) is None,
        },
{
    match m {
        MuseMessageType::Accelerometer { .. } => Some("Accel"),
        MuseMessageType::Gyro { .. } => Some("Gyro"),
        MuseMessageType::Horseshoe { .. } => Some("Horseshoe"),
        MuseMessageType::Batt { .. } => Some("Battery"),
        MuseMessageType::TouchingForehead { .. } => Some("Forehead"),
        MuseMessageType::Blink { .. } => Some("Blink"),
        MuseMessageType::JawClench { .. } => Some("Clench"),
        _ => None,
    }
}

fn flag_field(b: bool) -> (r: RecordField)
    ensures
        r == flag(b),
{
    if b {
        RecordField::Int(1)
    } else {
        RecordField::Int(0)
    }
}

fn float_row(values: &[F32Bits]) -> (r: Vec<RecordField>)
    ensures
        r@ == values@.map_values(|f: F32Bits| RecordField::Float(f)),
{
    let mut r: Vec<RecordField> = Vec::new();
    let mut i: usize = 0;
    while i < values.len()
        invariant
            i <= values@.len(),
            r@ == values@.subrange(0, i as int).map_values(|f: F32Bits| RecordField::Float(f)),
        decreases values@.len() - i,
    {
        r.push(RecordField::Float(values[i]));
        i = i + 1;
        assert(r@ =~= values@.subrange(0, i as int).map_values(|f: F32Bits| RecordField::Float(f)));
    }
    assert(values@.subrange(0, i as int) =~= values@);
    r
}

/// The values of an event's row, after its timestamp and label.
pub fn record_fields(m: &MuseMessageType) -> (r: Vec<RecordField>)
    ensures
        r@ == fields_of(*m),
{
    match *m {
        MuseMessageType::Batt { batt } => {
            let mut r: Vec<RecordField> = Vec::new();
            r.push(RecordField::Int(batt));
            assert(r@ =~= fields_of(*m));
            r
        },
        MuseMessageType::TouchingForehead { touch } => {
            let mut r: Vec<RecordField> = Vec::new();
            r.push(flag_field(touch));
            assert(r@ =~= fields_of(*m));
            r
        },
        MuseMessageType::Blink { blink } => {
            let mut r: Vec<RecordField> = Vec::new();
            r.push(flag_field(blink));
            assert(r@ =~= fields_of(*m));
            r
        },
        MuseMessageType::JawClench { clench } => {
            let mut r: Vec<RecordField> = Vec::new();
            r.push(flag_field(clench));
            assert(r@ =~= fields_of(*m));
            r
        },
        MuseMessageType::Eeg { eeg } => float_row(&eeg),
        MuseMessageType::Alpha { alpha } => float_row(&alpha),
        MuseMessageType::Beta { beta } => float_row(&beta),
        MuseMessageType::Gamma { gamma } => float_row(&gamma),
        MuseMessageType::Accelerometer { x, y, z } => {
            let v = [x, y, z];
            assert(v@ =~= seq![x, y, z]);
            float_row(&v)
        },
        MuseMessageType::Gyro { x, y, z } => {
            let v = [x, y, z];
            assert(v@ =~= seq![x, y, z]);
            float_row(&v)
        },
        MuseMessageType::Delta { a, b, c, d } => {
            let v = [a, b, c, d];
            assert(v@ =~= seq![a, b, c, d]);
            float_row(&v)
        },
        MuseMessageType::Theta { a, b, c, d } => {
            let v = [a, b, c, d];
            assert(v@ =~= seq![a, b, c, d]);
            float_row(&v)
        },
        MuseMessageType::Horseshoe { a, b, c, d } => {
            let v = [a, b, c, d];
            assert(v@ =~= seq![a, b, c, d]);
            float_row(&v)
        },
    }
}

} // verus!
