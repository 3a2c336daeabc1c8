use vstd::prelude::*;

use crate::float_bits::F32Bits;
use crate::packet::{args_view, DecodeError, decode, decode_error, decodes_to, MuseMessageType, OscMessage};
use crate::stats::{admits, NormalizedValue};
use crate::time_format::SessionTime;

verus! {

/// Ticks that a loss of forehead contact marks the signal as disturbed.
pub const FOREHEAD_COUNTDOWN: i32 = 5;

/// Ticks that a blink marks the signal as disturbed.
pub const BLINK_COUNTDOWN: i32 = 5;

/// Ticks that a jaw clench marks the signal as disturbed.
pub const CLENCH_COUNTDOWN: i32 = 5;

/// Channel index of the left ear electrode.
pub const TP9: usize = 0;

/// Channel index of the left frontal electrode.
pub const AF7: usize = 1;

/// Channel index of the right frontal electrode.
pub const AF8: usize = 2;

/// Channel index of the right ear electrode.
pub const TP10: usize = 3;

/// The display modes the presentation layer may select; the core never
/// interprets it.
#[derive(Clone, Copy, Debug, PartialEq, Eq, Structural)]
pub enum DisplayType {
    Mandala,
    Dowsiness,
    Emotion,
    EegValues,
}

/// A decoded event with its arrival time and source address.
#[derive(Clone, Debug)]
pub struct MuseMessage {
    pub message_time: SessionTime,
    pub ip_address: String,
    pub muse_message_type: MuseMessageType,
}

/// The channel state and suppression counters of a session, as values.
pub struct ChannelView {
    pub accelerometer: Seq<F32Bits>,
    pub gyro: Seq<F32Bits>,
    pub alpha: Seq<F32Bits>,
    pub beta: Seq<F32Bits>,
    pub gamma: Seq<F32Bits>,
    pub delta: Seq<F32Bits>,
    pub theta: Seq<F32Bits>,
    pub batt: i32,
    pub horseshoe: Seq<F32Bits>,
    pub blink_countdown: i32,
    pub touching_forehead_countdown: i32,
    pub jaw_clench_countdown: i32,
}

/// Whether an event carries band power, which calls for the derived metrics
/// to be recomputed.
pub open spec fn is_band_power(m: MuseMessageType) -> bool {
    match m {
        MuseMessageType::Alpha { .. } => true,
        MuseMessageType::Beta { .. } => true,
        MuseMessageType::Gamma { .. } => true,
        MuseMessageType::Delta { .. } => true,
        MuseMessageType::Theta { .. } => true,
        _ => false,
    }
}

/// The state after one event: the event's values replace its channel; a
/// blink, a jaw clench, or a report of *no* forehead contact re-arms its
/// counter to the full constant; raw samples leave the state as it is.
pub open spec fn next_view(v: ChannelView, m: MuseMessageType) -> ChannelView {
    match m {
        MuseMessageType::Eeg { .. } => v,
        MuseMessageType::Accelerometer { x, y, z } => ChannelView { accelerometer: seq![x, y, z], ..v },
        MuseMessageType::Gyro { x, y, z } => ChannelView { gyro: seq![x, y, z], ..v },
        MuseMessageType::Alpha { alpha } => ChannelView { alpha: alpha@, ..v },
        MuseMessageType::Beta { beta } => ChannelView { beta: beta@, ..v },
        MuseMessageType::Gamma { gamma } => ChannelView { gamma: gamma@, ..v },
        MuseMessageType::Delta { a, b, c, d } => ChannelView { delta: seq![a, b, c, d], ..v },
        MuseMessageType::Theta { a, b, c, d } => ChannelView { theta: seq![a, b, c, d], ..v },
        MuseMessageType::Batt { batt } => ChannelView { batt, ..v },
        MuseMessageType::Horseshoe { a, b, c, d } => ChannelView { horseshoe: seq![a, b, c, d], ..v },
        MuseMessageType::TouchingForehead { touch } => if touch {
            v
        } else {
            ChannelView { touching_forehead_countdown: FOREHEAD_COUNTDOWN, ..v }
        },
        MuseMessageType::Blink { blink } => if blink {
            ChannelView { blink_countdown: BLINK_COUNTDOWN, ..v }
        } else {
            v
        },
        MuseMessageType::JawClench { clench } => if clench {
            ChannelView { jaw_clench_countdown: CLENCH_COUNTDOWN, ..v }
        } else {
            v
        },
    }
}

/// The state after a batch of events, applied in arrival order.
pub open spec fn apply_all(v: ChannelView, ms: Seq<MuseMessage>) -> ChannelView
    decreases ms.len(),
{
    if ms.len() == 0 {
        v
    } else {
        next_view(apply_all(v, ms.drop_last()), ms.last().muse_message_type)
    }
}

/// Whether any event of a batch carries band power.
pub open spec fn any_band_power(ms: Seq<MuseMessage>) -> bool {
    exists|i: int| 0 <= i < ms.len() && is_band_power(#[trigger] ms[i].muse_message_type)
}

/// One tick of a suppression counter: down by one, never below zero.
pub open spec fn tick(c: i32) -> i32 {
    if c > 0 {
        (c - 1) as i32
    } else {
        c
    }
}

/// Positions of the messages of a packet that decode to an event, in order.
pub open spec fn decoded_positions(ms: Seq<OscMessage>) -> Seq<int>
    decreases ms.len(),
{
    if ms.len() == 0 {
        Seq::empty()
    } else {
        let p = decoded_positions(ms.drop_last());
        if decode_error(ms.last().addr@, args_view(&ms.last())) is None {
            p.push(ms.len() - 1)
        } else {
            p
        }
    }
}

/// The decode errors of the messages of a packet, in order.
pub open spec fn decode_failures(ms: Seq<OscMessage>) -> Seq<DecodeError>
    decreases ms.len(),
{
    if ms.len() == 0 {
        Seq::empty()
    } else {
        let p = decode_failures(ms.drop_last());
        match decode_error(ms.last().addr@, args_view(&ms.last())) {
            Some(e) => p.push(e),
            None => p,
        }
    }
}

/// Decodes the messages of one packet, stamping each event with the packet's
/// arrival time and source. A message that fails to decode is skipped and
/// its error reported; the rest of the packet goes on.
pub fn parse_muse_packet(
    ip_address: &String,
    message_time: SessionTime,
    raw_messages: &Vec<OscMessage>,
) -> (r: (Vec<MuseMessage>, Vec<DecodeError>))
    ensures
        r.0@.len() == decoded_positions(raw_messages@).len(),
        forall|k: int|
            0 <= k < r.0@.len() ==> {
                let j = #[trigger] decoded_positions(raw_messages@)[k];
                &&& 0 <= j < raw_messages@.len()
                &&& decodes_to(
                    raw_messages@[j].addr@,
                    raw_messages@[j].args->Some_0@,
                    r.0@[k].muse_message_type,
                )
                &&& r.0@[k].message_time == message_time
                &&& r.0@[k].ip_address@ == ip_address@
            },
        r.1@ == decode_failures(raw_messages@),
{
    let mut muse_messages: Vec<MuseMessage> = Vec::new();
    let mut failures: Vec<DecodeError> = Vec::new();
    let mut i: usize = 0;
    while i < raw_messages.len()
        invariant
            i <= raw_messages@.len(),
            muse_messages@.len() == decoded_positions(raw_messages@.subrange(0, i as int)).len(),
            forall|k: int|
                0 <= k < muse_messages@.len() ==> {
                    let j = #[trigger] decoded_positions(raw_messages@.subrange(0, i as int))[k];
                    &&& 0 <= j < i
                    &&& decodes_to(
                        raw_messages@[j].addr@,
                        raw_messages@[j].args->Some_0@,
                        muse_messages@[k].muse_message_type,
                    )
                    &&& muse_messages@[k].message_time == message_time
                    &&& muse_messages@[k].ip_address@ == ip_address@
                },
            failures@ == decode_failures(raw_messages@.subrange(0, i as int)),
        decreases raw_messages@.len() - i,
    {
        let ghost prefix = raw_messages@.subrange(0, i as int);
        let ghost next = raw_messages@.subrange(0, i as int + 1);
        proof {
            assert(next.drop_last() =~= prefix);
            assert(next.last() == raw_messages@[i as int]);
        }
        let ghost old_len = muse_messages@.len();
        match decode(&raw_messages[i]) {
            Ok(muse_message_type) => {
                muse_messages.push(
                    MuseMessage {
                        message_time,
                        ip_address: ip_address.clone(),
                        muse_message_type,
                    },
                );
                proof {
                    let pn = decoded_positions(next);
                    assert(pn == decoded_positions(prefix).push(i as int));
                    assert forall|k: int| 0 <= k < muse_messages@.len() implies {
                        let j = #[trigger] decoded_positions(next)[k];
                        &&& 0 <= j < i + 1
                        &&& decodes_to(
                            raw_messages@[j].addr@,
                            raw_messages@[j].args->Some_0@,
                            muse_messages@[k].muse_message_type,
                        )
                        &&& muse_messages@[k].message_time == message_time
                        &&& muse_messages@[k].ip_address@ == ip_address@
                    } by {
                        if k < old_len {
                            assert(decoded_positions(next)[k] == decoded_positions(prefix)[k]);
                        }
                    }
                }
            },
            Err(e) => {
                failures.push(e);
                proof {
                    assert(decoded_positions(next) == decoded_positions(prefix));
                }
            },
        }
        i = i + 1;
    }
    proof {
        assert(raw_messages@.subrange(0, i as int) =~= raw_messages@);
    }
    (muse_messages, failures)
}

/// A suppression counter after `n` ticks.
pub open spec fn ticks(c: i32, n: nat) -> i32
    decreases n,
{
    if n == 0 {
        c
    } else {
        tick(ticks(c, (n - 1) as nat))
    }
}

/// A counter that starts at `c` reads `c - n` after `n` ticks, and 0 from
/// the `c`-th tick on.
pub proof fn lemma_ticks(c: i32, n: nat)
    requires
        c >= 0,
    ensures
        ticks(c, n) == if n < c {
            c - n
        } else {
            0
        },
    decreases n,
{
    if n > 0 {
        lemma_ticks(c, (n - 1) as nat);
    }
}

/// A blink arms its counter to the full constant; with no further blink the
/// artifact stays active for exactly that many ticks: the counter is
/// positive after fewer ticks and exactly zero from then on.
pub proof fn law_blink_suppression_expires(v: ChannelView, n: nat)
    ensures
        next_view(v, MuseMessageType::Blink { blink: true }).blink_countdown == BLINK_COUNTDOWN,
        ticks(BLINK_COUNTDOWN, n) > 0 <==> n < BLINK_COUNTDOWN,
        n >= BLINK_COUNTDOWN ==> ticks(BLINK_COUNTDOWN, n) == 0,
{
    lemma_ticks(BLINK_COUNTDOWN, n);
}

/// Re-arming never adds to a running counter: a new trigger sets it back to
/// the full constant whatever it read before.
pub proof fn law_trigger_resets_counter(v: ChannelView)
    ensures
        next_view(v, MuseMessageType::Blink { blink: true }).blink_countdown == BLINK_COUNTDOWN,
        next_view(v, MuseMessageType::JawClench { clench: true }).jaw_clench_countdown
            == CLENCH_COUNTDOWN,
        next_view(v, MuseMessageType::TouchingForehead { touch: false }).touching_forehead_countdown
            == FOREHEAD_COUNTDOWN,
{
}

/// Channel state, suppression counters and the two running statistics of
/// one session, owned by the ingestion path.
pub struct MuseModel {
    pub most_recent_message_receive_time: SessionTime,
    pub accelerometer: [F32Bits; 3],
    pub gyro: [F32Bits; 3],
    pub alpha: [F32Bits; 4],
    pub beta: [F32Bits; 4],
    pub gamma: [F32Bits; 4],
    pub delta: [F32Bits; 4],
    pub theta: [F32Bits; 4],
    pub batt: i32,
    pub horseshoe: [F32Bits; 4],
    pub blink_countdown: i32,
    pub touching_forehead_countdown: i32,
    pub jaw_clench_countdown: i32,
    pub display_type: DisplayType,
    pub arousal: NormalizedValue,
    pub valence: NormalizedValue,
}

impl MuseModel {
    /// The channel state and suppression counters as values.
    pub open spec fn channels(&self) -> ChannelView {
        ChannelView {
            accelerometer: self.accelerometer@,
            gyro: self.gyro@,
            alpha: self.alpha@,
            beta: self.beta@,
            gamma: self.gamma@,
            delta: self.delta@,
            theta: self.theta@,
            batt: self.batt,
            horseshoe: self.horseshoe@,
            blink_countdown: self.blink_countdown,
            touching_forehead_countdown: self.touching_forehead_countdown,
            jaw_clench_countdown: self.jaw_clench_countdown,
        }
    }

    /// Both running statistics are well formed and no suppression counter
    /// is negative.
    pub open spec fn wf(&self) -> bool {
        &&& self.arousal.wf()
        &&& self.valence.wf()
        &&& self.blink_countdown >= 0
        &&& self.touching_forehead_countdown >= 0
        &&& self.jaw_clench_countdown >= 0
    }

    /// A fresh session: every channel zero, counters idle, statistics empty.
    pub fn new(start_time: SessionTime) -> (r: MuseModel)
        ensures
            r.wf(),
            r.most_recent_message_receive_time == start_time,
            r.channels() == (ChannelView {
                accelerometer: seq![F32Bits(0); 3],
                gyro: seq![F32Bits(0); 3],
                alpha: seq![F32Bits(0); 4],
                beta: seq![F32Bits(0); 4],
                gamma: seq![F32Bits(0); 4],
                delta: seq![F32Bits(0); 4],
                theta: seq![F32Bits(0); 4],
                batt: 0,
                horseshoe: seq![F32Bits(0); 4],
                blink_countdown: 0,
                touching_forehead_countdown: 0,
                jaw_clench_countdown: 0,
            }),
            r.display_type == DisplayType::Mandala,
            r.arousal.admitted() == Seq::<F32Bits>::empty(),
            r.valence.admitted() == Seq::<F32Bits>::empty(),
    {
        let z = F32Bits(0);
        let r = MuseModel {
            most_recent_message_receive_time: start_time,
            accelerometer: [z, z, z],
            gyro: [z, z, z],
            alpha: [z, z, z, z],
            beta: [z, z, z, z],
            gamma: [z, z, z, z],
            delta: [z, z, z, z],
            theta: [z, z, z, z],
            batt: 0,
            horseshoe: [z, z, z, z],
            blink_countdown: 0,
            touching_forehead_countdown: 0,
            jaw_clench_countdown: 0,
            display_type: DisplayType::Mandala,
            arousal: NormalizedValue::new(),
            valence: NormalizedValue::new(),
        };
        assert(r.accelerometer@ =~= seq![F32Bits(0); 3]);
        assert(r.gyro@ =~= seq![F32Bits(0); 3]);
        assert(r.alpha@ =~= seq![F32Bits(0); 4]);
        assert(r.beta@ =~= seq![F32Bits(0); 4]);
        assert(r.gamma@ =~= seq![F32Bits(0); 4]);
        assert(r.delta@ =~= seq![F32Bits(0); 4]);
        assert(r.theta@ =~= seq![F32Bits(0); 4]);
        assert(r.horseshoe@ =~= seq![F32Bits(0); 4]);
        r
    }

    /// Applies one event to the channel state and the suppression counters,
    /// and records its arrival time. Returns whether it carried band power.
    pub fn handle_muse_message(&mut self, muse_message: &MuseMessage) -> (r: bool)
        requires
            old(self).wf(),
        ensures
            final(self).wf(),
            r == is_band_power(muse_message.muse_message_type),
            final(self).channels() == next_view(old(self).channels(), muse_message.muse_message_type),
            final(self).most_recent_message_receive_time == muse_message.message_time,
            final(self).display_type == old(self).display_type,
            final(self).arousal == old(self).arousal,
            final(self).valence == old(self).valence,
    {
        self.most_recent_message_receive_time = muse_message.message_time;
        match muse_message.muse_message_type {
            MuseMessageType::Eeg { .. } => false,
            MuseMessageType::Accelerometer { x, y, z } => {
                self.accelerometer = [x, y, z];
                assert(self.accelerometer@ =~= seq![x, y, z]);
                false
            },
            MuseMessageType::Gyro { x, y, z } => {
                self.gyro = [x, y, z];
                assert(self.gyro@ =~= seq![x, y, z]);
                false
            },
            MuseMessageType::Horseshoe { a, b, c, d } => {
                self.horseshoe = [a, b, c, d];
                assert(self.horseshoe@ =~= seq![a, b, c, d]);
                false
            },
            MuseMessageType::Alpha { alpha } => {
                self.alpha = alpha;
                true
            },
            MuseMessageType::Beta { beta } => {
                self.beta = beta;
                true
            },
            MuseMessageType::Gamma { gamma } => {
                self.gamma = gamma;
                true
            },
            MuseMessageType::Delta { a, b, c, d } => {
                self.delta = [a, b, c, d];
                assert(self.delta@ =~= seq![a, b, c, d]);
                true
            },
            MuseMessageType::Theta { a, b, c, d } => {
                self.theta = [a, b, c, d];
                assert(self.theta@ =~= seq![a, b, c, d]);
                true
            },
            MuseMessageType::Batt { batt } => {
                self.batt = batt;
                false
            },
            MuseMessageType::TouchingForehead { touch } => {
                if !touch {
                    self.touching_forehead_countdown = FOREHEAD_COUNTDOWN;
                }
                false
            },
            MuseMessageType::Blink { blink } => {
                if blink {
                    self.blink_countdown = BLINK_COUNTDOWN;
                }
                false
            },
            MuseMessageType::JawClench { clench } => {
                if clench {
                    self.jaw_clench_countdown = CLENCH_COUNTDOWN;
                }
                false
            },
        }
    }

    /// Applies a batch of events in arrival order. Returns whether any of
    /// them carried band power, that is whether the derived metrics are due.
    pub fn handle_muse_messages(&mut self, muse_messages: &Vec<MuseMessage>) -> (r: bool)
        requires
            old(self).wf(),
        ensures
            final(self).wf(),
            r == any_band_power(muse_messages@),
            final(self).channels() == apply_all(old(self).channels(), muse_messages@),
            final(self).most_recent_message_receive_time == if muse_messages@.len() == 0 {
                old(self).most_recent_message_receive_time
            } else {
                muse_messages@.last().message_time
            },
            final(self).display_type == old(self).display_type,
            final(self).arousal == old(self).arousal,
            final(self).valence == old(self).valence,
    {
        let mut updated_numeric_values = false;
        let mut i: usize = 0;
        while i < muse_messages.len()
            invariant
                i <= muse_messages@.len(),
                self.wf(),
                updated_numeric_values == any_band_power(muse_messages@.subrange(0, i as int)),
                self.channels() == apply_all(
                    old(self).channels(),
                    muse_messages@.subrange(0, i as int),
                ),
                self.most_recent_message_receive_time == if i == 0 {
                    old(self).most_recent_message_receive_time
                } else {
                    muse_messages@[i - 1].message_time
                },
                self.display_type == old(self).display_type,
                self.arousal == old(self).arousal,
                self.valence == old(self).valence,
            decreases muse_messages@.len() - i,
        {
            let ghost prefix = muse_messages@.subrange(0, i as int);
            let ghost next = muse_messages@.subrange(0, i as int + 1);
            let band = self.handle_muse_message(&muse_messages[i]);
            proof {
                assert(next.drop_last() =~= prefix);
                assert(next.last() == muse_messages@[i as int]);
                if band {
                    assert(is_band_power(next[i as int].muse_message_type));
                }
                if updated_numeric_values {
                    let j = choose|j: int|
                        0 <= j < prefix.len() && is_band_power(#[trigger] prefix[j].muse_message_type);
                    assert(next[j] == prefix[j]);
                }
                if any_band_power(next) {
                    let j = choose|j: int|
                        0 <= j < next.len() && is_band_power(#[trigger] next[j].muse_message_type);
                    if j < i {
                        assert(prefix[j] == next[j]);
                    }
                }
            }
            updated_numeric_values = updated_numeric_values || band;
            i = i + 1;
        }
        assert(muse_messages@.subrange(0, i as int) =~= muse_messages@);
        updated_numeric_values
    }

    /// The user clenched their jaw recently, disturbing the signal.
    pub fn is_jaw_clench(&self) -> (r: bool)
        ensures
            r == (self.jaw_clench_countdown > 0),
    {
        self.jaw_clench_countdown > 0
    }

    /// The user blinked recently, disturbing the signal.
    pub fn is_blink(&self) -> (r: bool)
        ensures
            r == (self.blink_countdown > 0),
    {
        self.blink_countdown > 0
    }

    /// The headband recently reported losing forehead contact (its counter is
    /// still running).
    pub fn is_touching_forehead(&self) -> (r: bool)
        ensures
            r == (self.touching_forehead_countdown > 0),
    {
        self.touching_forehead_countdown > 0
    }

    /// One fixed time step: every suppression counter goes down by one,
    /// never below zero; nothing else changes.
    pub fn count_down(&mut self)
        requires
            old(self).wf(),
        ensures
            final(self).wf(),
            final(self).channels() == (ChannelView {
                blink_countdown: tick(old(self).blink_countdown),
                jaw_clench_countdown: tick(old(self).jaw_clench_countdown),
                touching_forehead_countdown: tick(old(self).touching_forehead_countdown),
                ..old(self).channels()
            }),
            final(self).most_recent_message_receive_time == old(self).most_recent_message_receive_time,
            final(self).display_type == old(self).display_type,
            final(self).arousal == old(self).arousal,
            final(self).valence == old(self).valence,
    {
        if self.blink_countdown > 0 {
            self.blink_countdown = self.blink_countdown - 1;
        }
        if self.jaw_clench_countdown > 0 {
            self.jaw_clench_countdown = self.jaw_clench_countdown - 1;
        }
        if self.touching_forehead_countdown > 0 {
            self.touching_forehead_countdown = self.touching_forehead_countdown - 1;
        }
    }

    /// Offers a freshly computed absolute valence to its statistics, as is;
    /// returns whether it was admitted.
    pub fn update_valence(&mut self, abs_valence: F32Bits) -> (r: bool)
        requires
            old(self).wf(),
        ensures
            final(self).wf(),
            r == admits(old(self).valence.admitted(), abs_valence),
            final(self).valence.admitted() == if r {
                old(self).valence.admitted().push(abs_valence)
            } else {
                old(self).valence.admitted()
            },
            final(self).arousal == old(self).arousal,
            final(self).channels() == old(self).channels(),
    {
        self.valence.set(abs_valence)
    }

    /// Offers a freshly computed absolute arousal to its statistics, as is;
    /// returns whether it was admitted.
    pub fn update_arousal(&mut self, abs_arousal: F32Bits) -> (r: bool)
        requires
            old(self).wf(),
        ensures
            final(self).wf(),
            r == admits(old(self).arousal.admitted(), abs_arousal),
            final(self).arousal.admitted() == if r {
                old(self).arousal.admitted().push(abs_arousal)
            } else {
                old(self).arousal.admitted()
            },
            final(self).valence == old(self).valence,
            final(self).channels() == old(self).channels(),
    {
        self.arousal.set(abs_arousal)
    }
}

} // verus!
