use vstd::prelude::*;

use crate::float_bits::{spec_is_finite, spec_less, spec_same, F32Bits};

verus! {

/// Capacity of the calibration history that mean and deviation are taken over.
pub const HISTORY_LENGTH: usize = 120;

/// Capacity of the short window that the moving average is taken over.
pub const WINDOW_LENGTH: usize = 9;

/// The last `n` elements of `s` (all of `s` when it is shorter).
pub open spec fn last_n<T>(s: Seq<T>, n: nat) -> Seq<T> {
    if s.len() <= n {
        s
    } else {
        s.subrange(s.len() - n, s.len() as int)
    }
}

/// The most recent element, if any.
pub open spec fn latest(s: Seq<F32Bits>) -> Option<F32Bits> {
    if s.len() == 0 {
        None
    } else {
        Some(s.last())
    }
}

/// The admission gate: a value is taken when it is finite and, if a value was
/// taken before, differs from the most recent one.
pub open spec fn admits(s: Seq<F32Bits>, v: F32Bits) -> bool {
    spec_is_finite(v) && match latest(s) {
        Some(c) => !spec_same(v, c),
        None => true,
    }
}

/// The running minimum over the whole sequence: a later value replaces it only
/// when strictly smaller.
pub open spec fn running_min(s: Seq<F32Bits>) -> Option<F32Bits>
    decreases s.len(),
{
    if s.len() == 0 {
        None
    } else {
        match running_min(s.drop_last()) {
            Some(m) => if spec_less(s.last(), m) {
                Some(s.last())
            } else {
                Some(m)
            },
            None => Some(s.last()),
        }
    }
}

/// The running maximum over the whole sequence: a later value replaces it only
/// when strictly greater.
pub open spec fn running_max(s: Seq<F32Bits>) -> Option<F32Bits>
    decreases s.len(),
{
    if s.len() == 0 {
        None
    } else {
        match running_max(s.drop_last()) {
            Some(m) => if spec_less(m, s.last()) {
                Some(s.last())
            } else {
                Some(m)
            },
            None => Some(s.last()),
        }
    }
}

/// Running statistics of one metric: the admitted values, a bounded
/// calibration history, a shorter moving-average window and the extremes
/// seen over the whole session.
pub struct NormalizedValue {
    current: Option<F32Bits>,
    min: Option<F32Bits>,
    max: Option<F32Bits>,
    history: Vec<F32Bits>,
    moving_average_history: Vec<F32Bits>,
    admitted: Ghost<Seq<F32Bits>>,
}

impl NormalizedValue {
    /// Every value admitted so far, oldest first.
    pub closed spec fn admitted(&self) -> Seq<F32Bits> {
        self.admitted@
    }

    /// Every admitted value is finite; the current value, the extremes, the
    /// history and the window are what the admitted sequence makes them.
    pub closed spec fn wf(&self) -> bool {
        &&& forall|i: int| 0 <= i < self.admitted@.len() ==> spec_is_finite(#[trigger] self.admitted@[i])
        &&& self.current == latest(self.admitted@)
        &&& self.min == running_min(self.admitted@)
        &&& self.max == running_max(self.admitted@)
        &&& self.history@ == last_n(self.admitted@, HISTORY_LENGTH as nat)
        &&& self.moving_average_history@ == last_n(self.admitted@, WINDOW_LENGTH as nat)
    }

    /// Statistics with nothing admitted yet.
    pub fn new() -> (r: Self)
        ensures
            r.wf(),
            r.admitted() == Seq::<F32Bits>::empty(),
    {
        NormalizedValue {
            current: None,
            min: None,
            max: None,
            history: Vec::new(),
            moving_average_history: Vec::new(),
            admitted: Ghost(Seq::empty()),
        }
    }

    /// Offers a value; returns whether it was admitted. An admitted value is
    /// appended to the history and the window, evicting the oldest beyond
    /// their capacities, and updates the extremes.
    pub fn set(&mut self, val: F32Bits) -> (r: bool)
        requires
            old(self).wf(),
        ensures
            final(self).wf(),
            r == admits(old(self).admitted(), val),
            final(self).admitted() == if r {
                old(self).admitted().push(val)
            } else {
                old(self).admitted()
            },
    {
        let acceptable_new_value = match self.current {
            Some(current_value) => val.is_finite() && !val.same_value(current_value),
            None => val.is_finite(),
        };
        if acceptable_new_value {
            let ghost before = self.admitted@;
            let ghost after = before.push(val);
            proof {
                lemma_last_n_push(before, val, HISTORY_LENGTH as nat);
                lemma_last_n_push(before, val, WINDOW_LENGTH as nat);
                assert(after.drop_last() =~= before);
            }
            self.current = Some(val);
            match self.max {
                Some(m) => if m.less_than(val) {
                    self.max = Some(val);
                },
                None => {
                    self.max = Some(val);
                },
            }
            match self.min {
                Some(m) => if val.less_than(m) {
                    self.min = Some(val);
                },
                None => {
                    self.min = Some(val);
                },
            }
            self.history.push(val);
            if self.history.len() > HISTORY_LENGTH {
                self.history.remove(0);
            }
            self.moving_average_history.push(val);
            if self.moving_average_history.len() > WINDOW_LENGTH {
                self.moving_average_history.remove(0);
            }
            self.admitted = Ghost(after);
            proof {
                assert forall|i: int| 0 <= i < after.len() implies spec_is_finite(
                    #[trigger] after[i],
                ) by {
                    if i < before.len() {
                        assert(after[i] == before[i]);
                    }
                }
            }
        }
        acceptable_new_value
    }

    /// The most recently admitted value.
    pub fn current(&self) -> (r: Option<F32Bits>)
        requires
            self.wf(),
        ensures
            r == latest(self.admitted()),
    {
        self.current
    }

    /// The smallest value admitted in the whole session.
    pub fn min(&self) -> (r: Option<F32Bits>)
        requires
            self.wf(),
        ensures
            r == running_min(self.admitted()),
    {
        self.min
    }

    /// The largest value admitted in the whole session.
    pub fn max(&self) -> (r: Option<F32Bits>)
        requires
            self.wf(),
        ensures
            r == running_max(self.admitted()),
    {
        self.max
    }

    /// The calibration history: the most recent admitted values, oldest first.
    pub fn history(&self) -> (r: &Vec<F32Bits>)
        requires
            self.wf(),
        ensures
            r@ == last_n(self.admitted(), HISTORY_LENGTH as nat),
            forall|i: int| 0 <= i < r@.len() ==> spec_is_finite(#[trigger] r@[i]),
    {
        &self.history
    }

    /// The moving-average window: the few most recent admitted values, oldest first.
    pub fn moving_average_window(&self) -> (r: &Vec<F32Bits>)
        requires
            self.wf(),
        ensures
            r@ == last_n(self.admitted(), WINDOW_LENGTH as nat),
            forall|i: int| 0 <= i < r@.len() ==> spec_is_finite(#[trigger] r@[i]),
    {
        &self.moving_average_history
    }
}

/// Appending to a sequence shifts its bounded suffix by one.
pub proof fn lemma_last_n_push<T>(s: Seq<T>, v: T, n: nat)
    requires
        n > 0,
    ensures
        last_n(s.push(v), n) =~= if last_n(s, n).len() < n {
            last_n(s, n).push(v)
        } else {
            last_n(s, n).push(v).subrange(1, n as int + 1)
        },
{
}

/// The moving-average window holds exactly the last `min(W, count)` admitted
/// values, in the order they were admitted.
pub proof fn law_window_is_most_recent(s: Seq<F32Bits>)
    ensures
        last_n(s, WINDOW_LENGTH as nat).len() == if s.len() < WINDOW_LENGTH {
            s.len()
        } else {
            WINDOW_LENGTH as nat
        },
        forall|i: int|
            0 <= i < last_n(s, WINDOW_LENGTH as nat).len() ==> #[trigger] last_n(
                s,
                WINDOW_LENGTH as nat,
            )[i] == s[s.len() - last_n(s, WINDOW_LENGTH as nat).len() + i],
{
}

/// Before any value is admitted the history and the window are empty and no
/// extremes exist, so nothing is there to take a mean, a deviation or a
/// normalisation over.
pub proof fn law_nothing_before_admission(s: Seq<F32Bits>)
    requires
        s.len() == 0,
    ensures
        last_n(s, HISTORY_LENGTH as nat).len() == 0,
        last_n(s, WINDOW_LENGTH as nat).len() == 0,
        latest(s) is None,
        running_min(s) is None,
        running_max(s) is None,
{
}

/// Offering the value that was just admitted is refused: a second `set` of
/// the same value changes nothing.
pub proof fn law_admission_idempotent(s: Seq<F32Bits>, v: F32Bits)
    requires
        admits(s, v),
    ensures
        !admits(s.push(v), v),
{
    assert(latest(s.push(v)) == Some(v));
}

/// Once more than `H` values were admitted the history holds exactly the `H`
/// most recent of them, so the oldest ones no longer count towards the mean
/// and deviation.
pub proof fn law_history_evicts_oldest(s: Seq<F32Bits>)
    requires
        s.len() > HISTORY_LENGTH,
    ensures
        last_n(s, HISTORY_LENGTH as nat).len() == HISTORY_LENGTH,
        last_n(s, HISTORY_LENGTH as nat) == s.subrange(
            s.len() - HISTORY_LENGTH,
            s.len() as int,
        ),
{
}

/// The minimum and maximum are extremes over every value admitted in the
/// session, not over the bounded history: each is one of the admitted values
/// and no admitted value lies beyond it.
pub proof fn law_extremes_are_global(s: Seq<F32Bits>)
    requires
        s.len() > 0,
    ensures
        running_min(s) is Some,
        running_max(s) is Some,
        s.contains(running_min(s)->Some_0),
        s.contains(running_max(s)->Some_0),
        forall|i: int| 0 <= i < s.len() ==> !spec_less(#[trigger] s[i], running_min(s)->Some_0),
        forall|i: int| 0 <= i < s.len() ==> !spec_less(running_max(s)->Some_0, #[trigger] s[i]),
    decreases s.len(),
{
    let p = s.drop_last();
    if p.len() > 0 {
        law_extremes_are_global(p);
        let lo = running_min(p)->Some_0;
        let hi = running_max(p)->Some_0;
        assert(forall|i: int| 0 <= i < p.len() ==> s[i] == #[trigger] p[i]);
        let j = choose|j: int| 0 <= j < p.len() && p[j] == lo;
        assert(s[j] == lo);
        let k = choose|k: int| 0 <= k < p.len() && p[k] == hi;
        assert(s[k] == hi);
        let m = running_min(s)->Some_0;
        let x = running_max(s)->Some_0;
        assert forall|i: int| 0 <= i < s.len() implies !spec_less(#[trigger] s[i], m) by {
            if i < p.len() {
                assert(s[i] == p[i]);
            }
        }
        assert forall|i: int| 0 <= i < s.len() implies !spec_less(x, #[trigger] s[i]) by {
            if i < p.len() {
                assert(s[i] == p[i]);
            }
        }
    }
    assert(s[s.len() - 1] == s.last());
}

} // verus!
