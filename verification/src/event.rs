use vstd::prelude::*;

verus! {

/// The four actuator output lines the sequencer drives.
#[derive(Clone, Copy, PartialEq, Eq, Structural, Debug)]
pub enum PinId {
    /// Motor power: when on, the main and drain motors are supplied.
    Power,
    /// Rotation direction: on means clockwise, off means counter-clockwise.
    Direction,
    /// Drain valve / drain motor enable.
    Drain,
    /// Water inlet valve.
    Inlet,
}

/// One observable action of the sequencer: a pin write or a blocking delay.
#[derive(Clone, Copy, PartialEq, Eq, Structural, Debug)]
pub enum Event {
    /// The named output line was driven to the given level (true = on).
    SetPin(PinId, bool),
    /// Execution blocked for the given number of milliseconds.
    Delay(u32),
}

/// Total virtual time a trace takes: the sum of its delay durations, in ms.
pub open spec fn elapsed(evs: Seq<Event>) -> int
    decreases evs.len(),
{
    if evs.len() == 0 {
        0
    } else {
        elapsed(evs.drop_last()) + match evs.last() {
            Event::Delay(ms) => ms as int,
            Event::SetPin(_, _) => 0,
        }
    }
}

/// `n` copies of `evs`, back to back.
pub open spec fn repeat_events(evs: Seq<Event>, n: nat) -> Seq<Event>
    decreases n,
{
    if n == 0 {
        Seq::empty()
    } else {
        repeat_events(evs, (n - 1) as nat) + evs
    }
}

/// True if some poll of the sensor reads asserted (water level reached).
pub open spec fn has_asserted(s: Seq<bool>) -> bool {
    exists|i: int| 0 <= i < s.len() && s[i]
}

/// Index of the first asserted sensor reading.
pub open spec fn first_asserted(s: Seq<bool>) -> int
    decreases s.len(),
{
    if s.len() == 0 {
        0
    } else if s[0] {
        0
    } else {
        1 + first_asserted(s.drop_first())
    }
}

/// When some reading is asserted, `first_asserted` is the least such index.
pub proof fn lemma_first_asserted(s: Seq<bool>)
    requires
        has_asserted(s),
    ensures
        0 <= first_asserted(s) < s.len(),
        s[first_asserted(s)],
        forall|j: int| 0 <= j < first_asserted(s) ==> !s[j],
    decreases s.len(),
{
    if !s[0] {
        assert(has_asserted(s.drop_first())) by {
            let i = choose|i: int| 0 <= i < s.len() && s[i];
            assert(s.drop_first()[i - 1]);
        }
        lemma_first_asserted(s.drop_first());
        assert forall|j: int| 0 <= j < first_asserted(s) implies !s[j] by {
            if j > 0 {
                assert(!s.drop_first()[j - 1]);
            }
        }
    }
}

} // verus!
