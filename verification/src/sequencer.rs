use vstd::prelude::*;

use crate::event::Event;
use crate::event::PinId;
use crate::event::elapsed;
use crate::event::first_asserted;
use crate::event::has_asserted;
use crate::event::repeat_events;

verus! {

/// Drive time of agitation sub-cycles 1 and 2, in ms.
pub const DRIVE_SHORT_MS: u32 = 2500;

/// Drive time of agitation sub-cycle 3, in ms.
pub const DRIVE_LONG_MS: u32 = 4500;

/// Pause time of agitation sub-cycles 1 and 3, in ms.
pub const PAUSE_LONG_MS: u32 = 1500;

/// Pause time of agitation sub-cycle 2, in ms.
pub const PAUSE_SHORT_MS: u32 = 500;

/// How often each agitation sub-cycle runs within the wash phase.
pub const WASH_REPS: usize = 40;

/// Settle delay after closing the inlet valve, in ms.
pub const FILL_SETTLE_MS: u32 = 1000;

/// How long the drain valve stays open in the drain phase, in ms.
pub const DRAIN_OPEN_MS: u32 = 60000;

/// Settle delay after closing the drain valve, in ms.
pub const DRAIN_SETTLE_MS: u32 = 1000;

/// What `idle` performs: all four outputs driven off.
pub open spec fn idle_events() -> Seq<Event> {
    seq![
        Event::SetPin(PinId::Power, false),
        Event::SetPin(PinId::Direction, false),
        Event::SetPin(PinId::Drain, false),
        Event::SetPin(PinId::Inlet, false),
    ]
}

/// What `filling` performs when the sensor reads deasserted `k` times before
/// asserting: the inlet is driven on once per deasserted poll, then off, then
/// a settle delay.
pub open spec fn fill_events(k: nat) -> Seq<Event> {
    Seq::new(k, |i: int| Event::SetPin(PinId::Inlet, true)) + seq![
        Event::SetPin(PinId::Inlet, false),
        Event::Delay(FILL_SETTLE_MS),
    ]
}

/// One symmetric agitation pulse: drive clockwise, pause, drive
/// counter-clockwise, pause.
pub open spec fn sub_cycle_events(drive: u32, pause: u32) -> Seq<Event> {
    seq![
        Event::SetPin(PinId::Direction, true),
        Event::SetPin(PinId::Power, true),
        Event::Delay(drive),
        Event::SetPin(PinId::Power, false),
        Event::Delay(pause),
        Event::SetPin(PinId::Direction, false),
        Event::SetPin(PinId::Power, true),
        Event::Delay(drive),
        Event::SetPin(PinId::Power, false),
        Event::Delay(pause),
    ]
}

/// What the whole wash phase performs: each sub-cycle repeated `WASH_REPS`
/// times, strictly in order and with no interleaving.
pub open spec fn wash_events() -> Seq<Event> {
    repeat_events(sub_cycle_events(DRIVE_SHORT_MS, PAUSE_LONG_MS), WASH_REPS as nat)
        + repeat_events(sub_cycle_events(DRIVE_SHORT_MS, PAUSE_SHORT_MS), WASH_REPS as nat)
        + repeat_events(sub_cycle_events(DRIVE_LONG_MS, PAUSE_LONG_MS), WASH_REPS as nat)
}

/// What `drain` performs: a single fixed-duration drain pulse and a settle.
pub open spec fn drain_events() -> Seq<Event> {
    seq![
        Event::SetPin(PinId::Drain, true),
        Event::Delay(DRAIN_OPEN_MS),
        Event::SetPin(PinId::Drain, false),
        Event::Delay(DRAIN_SETTLE_MS),
    ]
}

/// What `spin` performs: drain open throughout, two short test pulses, a
/// sustained three-minute run, then a spin-down settle.
pub open spec fn spin_events() -> Seq<Event> {
    seq![
        Event::SetPin(PinId::Direction, true),
        Event::SetPin(PinId::Drain, true),
        Event::Delay(3000),
        Event::SetPin(PinId::Power, true),
        Event::Delay(1000),
        Event::SetPin(PinId::Power, false),
        Event::Delay(2000),
        Event::SetPin(PinId::Power, true),
        Event::Delay(2000),
        Event::SetPin(PinId::Power, false),
        Event::Delay(2000),
        Event::SetPin(PinId::Power, true),
        Event::Delay(60000),
        Event::Delay(60000),
        Event::Delay(60000),
        Event::SetPin(PinId::Power, false),
        Event::Delay(15000),
        Event::SetPin(PinId::Drain, false),
    ]
}

/// True exactly when `e` writes the output line `pin`.
pub open spec fn is_pin_write(e: Event, pin: PinId) -> bool {
    match e {
        Event::SetPin(p, _) => p == pin,
        Event::Delay(_) => false,
    }
}

/// What one full run of the firmware's fixed program performs, when the two
/// filling phases see the sensor readings `s1` and `s2`.
pub open spec fn program_events(s1: Seq<bool>, s2: Seq<bool>) -> Seq<Event> {
    idle_events() + fill_events(first_asserted(s1) as nat) + wash_events() + drain_events()
        + fill_events(first_asserted(s2) as nat) + wash_events() + drain_events() + spin_events()
        + idle_events()
}

/// The washing-machine sequencer.
///
/// It tracks the commanded level of each actuator output and records every
/// observable action (pin write or delay) in `trace`, in the order performed.
pub struct WashingMachine {
    /// Motor power line level (true = on).
    pub power: bool,
    /// Rotation direction line level (true = clockwise).
    pub direction: bool,
    /// Drain valve line level (true = open).
    pub drain: bool,
    /// Inlet valve line level (true = open).
    pub inlet: bool,
    /// Every pin write and delay performed so far, in order.
    pub trace: Vec<Event>,
}

impl WashingMachine {
    /// The four output levels, for stating that a step leaves them unchanged.
    pub open spec fn outputs(self) -> (bool, bool, bool, bool) {
        (self.power, self.direction, self.drain, self.inlet)
    }

    /// A fresh sequencer: all outputs off (hardware lines start low), no
    /// actions performed yet.
    pub fn new() -> (m: WashingMachine)
        ensures
            m.trace@ == Seq::<Event>::empty(),
            !m.power,
            !m.direction,
            !m.drain,
            !m.inlet,
    {
        let m = WashingMachine {
            power: false,
            direction: false,
            drain: false,
            inlet: false,
            trace: Vec::new(),
        };
        proof {
            assert(m.trace@ =~= Seq::<Event>::empty());
        }
        m
    }

    /// Drive one output line to the given level and record the write.
    fn set_pin(&mut self, pin: PinId, level: bool)
        ensures
            final(self).trace@ == old(self).trace@.push(Event::SetPin(pin, level)),
            final(self).power == (if pin == PinId::Power { level } else { old(self).power }),
            final(self).direction == (if pin == PinId::Direction {
                level
            } else {
                old(self).direction
            }),
            final(self).drain == (if pin == PinId::Drain { level } else { old(self).drain }),
            final(self).inlet == (if pin == PinId::Inlet { level } else { old(self).inlet }),
    {
        match pin {
            PinId::Power => self.power = level,
            PinId::Direction => self.direction = level,
            PinId::Drain => self.drain = level,
            PinId::Inlet => self.inlet = level,
        }
        self.trace.push(Event::SetPin(pin, level));
    }

    /// Record a blocking delay of `ms` milliseconds. Outputs are unchanged.
    fn delay(&mut self, ms: u32)
        ensures
            final(self).trace@ == old(self).trace@.push(Event::Delay(ms)),
            final(self).outputs() == old(self).outputs(),
    {
        self.trace.push(Event::Delay(ms));
    }

    /// Drive every output off. Whatever state the machine was in before, all
    /// four outputs are off afterwards.
    pub fn idle(&mut self)
        ensures
            final(self).trace@ == old(self).trace@ + idle_events(),
            !final(self).power,
            !final(self).direction,
            !final(self).drain,
            !final(self).inlet,
    {
        self.set_pin(PinId::Power, false);
        self.set_pin(PinId::Direction, false);
        self.set_pin(PinId::Drain, false);
        self.set_pin(PinId::Inlet, false);
        proof {
            assert(self.trace@ =~= old(self).trace@ + idle_events());
        }
    }

    /// Open the drain valve for the fixed drain time, close it, and settle.
    pub fn drain(&mut self)
        ensures
            final(self).trace@ == old(self).trace@ + drain_events(),
            !final(self).drain,
            final(self).power == old(self).power,
            final(self).direction == old(self).direction,
            final(self).inlet == old(self).inlet,
    {
        self.set_pin(PinId::Drain, true);
        self.delay(DRAIN_OPEN_MS);
        self.set_pin(PinId::Drain, false);
        self.delay(DRAIN_SETTLE_MS);
        proof {
            assert(self.trace@ =~= old(self).trace@ + drain_events());
        }
    }

    /// One symmetric agitation pulse: drive clockwise for `drive` ms, pause
    /// for `pause` ms, reverse and drive for `drive` ms, pause for `pause` ms.
    fn sub_cycle(&mut self, drive: u32, pause: u32)
        ensures
            final(self).trace@ == old(self).trace@ + sub_cycle_events(drive, pause),
            !final(self).power,
            !final(self).direction,
            final(self).drain == old(self).drain,
            final(self).inlet == old(self).inlet,
    {
        self.set_pin(PinId::Direction, true);
        self.set_pin(PinId::Power, true);
        self.delay(drive);
        self.set_pin(PinId::Power, false);
        self.delay(pause);
        self.set_pin(PinId::Direction, false);
        self.set_pin(PinId::Power, true);
        self.delay(drive);
        self.set_pin(PinId::Power, false);
        self.delay(pause);
        proof {
            assert(self.trace@ =~= old(self).trace@ + sub_cycle_events(drive, pause));
        }
    }

    /// Agitation sub-cycle 1: 2500 ms drive, 1500 ms pause.
    pub fn wash_cycle_1(&mut self)
        ensures
            final(self).trace@ == old(self).trace@ + sub_cycle_events(
                DRIVE_SHORT_MS,
                PAUSE_LONG_MS,
            ),
            !final(self).power,
            !final(self).direction,
            final(self).drain == old(self).drain,
            final(self).inlet == old(self).inlet,
    {
        self.sub_cycle(DRIVE_SHORT_MS, PAUSE_LONG_MS);
    }

    /// Agitation sub-cycle 2: 2500 ms drive, 500 ms pause.
    pub fn wash_cycle_2(&mut self)
        ensures
            final(self).trace@ == old(self).trace@ + sub_cycle_events(
                DRIVE_SHORT_MS,
                PAUSE_SHORT_MS,
            ),
            !final(self).power,
            !final(self).direction,
            final(self).drain == old(self).drain,
            final(self).inlet == old(self).inlet,
    {
        self.sub_cycle(DRIVE_SHORT_MS, PAUSE_SHORT_MS);
    }

    /// Agitation sub-cycle 3: 4500 ms drive, 1500 ms pause.
    pub fn wash_cycle_3(&mut self)
        ensures
            final(self).trace@ == old(self).trace@ + sub_cycle_events(
                DRIVE_LONG_MS,
                PAUSE_LONG_MS,
            ),
            !final(self).power,
            !final(self).direction,
            final(self).drain == old(self).drain,
            final(self).inlet == old(self).inlet,
    {
        self.sub_cycle(DRIVE_LONG_MS, PAUSE_LONG_MS);
    }

    /// The wash phase: sub-cycle 1 exactly `WASH_REPS` times, then sub-cycle
    /// 2 exactly `WASH_REPS` times, then sub-cycle 3 exactly `WASH_REPS`
    /// times, strictly in that order.
    pub fn wash(&mut self)
        ensures
            final(self).trace@ == old(self).trace@ + wash_events(),
            !final(self).power,
            !final(self).direction,
            final(self).drain == old(self).drain,
            final(self).inlet == old(self).inlet,
    {
        let ghost t0 = self.trace@;
        let ghost d0 = self.drain;
        let ghost n0 = self.inlet;
        let ghost c1 = sub_cycle_events(DRIVE_SHORT_MS, PAUSE_LONG_MS);
        let ghost c2 = sub_cycle_events(DRIVE_SHORT_MS, PAUSE_SHORT_MS);
        let ghost c3 = sub_cycle_events(DRIVE_LONG_MS, PAUSE_LONG_MS);
        let mut i: usize = 0;
        while i < WASH_REPS
            invariant
                i <= WASH_REPS,
                c1 == sub_cycle_events(DRIVE_SHORT_MS, PAUSE_LONG_MS),
                self.trace@ == t0 + repeat_events(c1, i as nat),
                self.drain == d0,
                self.inlet == n0,
            decreases WASH_REPS - i,
        {
            self.wash_cycle_1();
            i = i + 1;
            proof {
                assert(repeat_events(c1, i as nat) == repeat_events(c1, (i - 1) as nat) + c1);
                assert(self.trace@ =~= t0 + repeat_events(c1, i as nat));
            }
        }
        let ghost t1 = self.trace@;
        i = 0;
        while i < WASH_REPS
            invariant
                i <= WASH_REPS,
                c2 == sub_cycle_events(DRIVE_SHORT_MS, PAUSE_SHORT_MS),
                self.trace@ == t1 + repeat_events(c2, i as nat),
                self.drain == d0,
                self.inlet == n0,
            decreases WASH_REPS - i,
        {
            self.wash_cycle_2();
            i = i + 1;
            proof {
                assert(repeat_events(c2, i as nat) == repeat_events(c2, (i - 1) as nat) + c2);
                assert(self.trace@ =~= t1 + repeat_events(c2, i as nat));
            }
        }
        let ghost t2 = self.trace@;
        i = 0;
        while i < WASH_REPS
            invariant
                i <= WASH_REPS,
                c3 == sub_cycle_events(DRIVE_LONG_MS, PAUSE_LONG_MS),
                self.trace@ == t2 + repeat_events(c3, i as nat),
                self.drain == d0,
                self.inlet == n0,
                i > 0 ==> !self.power && !self.direction,
            decreases WASH_REPS - i,
        {
            self.wash_cycle_3();
            i = i + 1;
            proof {
                assert(repeat_events(c3, i as nat) == repeat_events(c3, (i - 1) as nat) + c3);
                assert(self.trace@ =~= t2 + repeat_events(c3, i as nat));
            }
        }
        proof {
            assert(self.trace@ =~= old(self).trace@ + wash_events());
        }
    }

    /// The filling phase. `sensor` gives the water-level readings the
    /// successive polls will see, `true` meaning asserted (level reached); at
    /// least one reading must be asserted, since the poll loop would
    /// otherwise never terminate. For every deasserted poll the inlet is
    /// driven on; the moment a poll reads asserted, the inlet is driven off
    /// and a single settle delay follows.
    pub fn filling(&mut self, sensor: &Vec<bool>)
        requires
            has_asserted(sensor@),
        ensures
            final(self).trace@ == old(self).trace@ + fill_events(
                first_asserted(sensor@) as nat,
            ),
            !final(self).inlet,
            final(self).power == old(self).power,
            final(self).direction == old(self).direction,
            final(self).drain == old(self).drain,
    {
        proof {
            crate::event::lemma_first_asserted(sensor@);
        }
        let ghost t0 = self.trace@;
        let ghost fa = first_asserted(sensor@);
        let len = sensor.len();
        let mut k: usize = 0;
        while !sensor[k]
            invariant
                has_asserted(sensor@),
                fa == first_asserted(sensor@),
                sensor@.len() == len,
                0 <= fa < sensor@.len(),
                sensor@[fa],
                forall|j: int| 0 <= j < fa ==> !sensor@[j],
                0 <= k <= fa,
                self.trace@ == t0 + Seq::new(
                    k as nat,
                    |i: int| Event::SetPin(PinId::Inlet, true),
                ),
                self.power == old(self).power,
                self.direction == old(self).direction,
                self.drain == old(self).drain,
                k == 0 ==> self.inlet == old(self).inlet,
            decreases fa - k,
        {
            self.set_pin(PinId::Inlet, true);
            k = k + 1;
            proof {
                assert(self.trace@ =~= t0 + Seq::new(
                    k as nat,
                    |i: int| Event::SetPin(PinId::Inlet, true),
                ));
            }
        }
        proof {
            assert(k == fa);
        }
        self.set_pin(PinId::Inlet, false);
        self.delay(FILL_SETTLE_MS);
        proof {
            assert(self.trace@ =~= t0 + fill_events(first_asserted(sensor@) as nat));
        }
    }

    /// The spin phase: with the drain valve open throughout and direction
    /// held clockwise, run two short test pulses, a sustained three-minute
    /// spin, and a spin-down settle, then close the drain valve.
    pub fn spin(&mut self)
        ensures
            final(self).trace@ == old(self).trace@ + spin_events(),
            !final(self).power,
            final(self).direction,
            !final(self).drain,
            final(self).inlet == old(self).inlet,
    {
        self.set_pin(PinId::Direction, true);
        self.set_pin(PinId::Drain, true);
        self.delay(3000);
        self.set_pin(PinId::Power, true);
        self.delay(1000);
        self.set_pin(PinId::Power, false);
        self.delay(2000);
        self.set_pin(PinId::Power, true);
        self.delay(2000);
        self.set_pin(PinId::Power, false);
        self.delay(2000);
        self.set_pin(PinId::Power, true);
        self.delay(60000);
        self.delay(60000);
        self.delay(60000);
        self.set_pin(PinId::Power, false);
        self.delay(15000);
        self.set_pin(PinId::Drain, false);
        proof {
            assert(self.trace@ =~= old(self).trace@ + spin_events());
        }
    }
}

/// Run the firmware's fixed program from power-up: idle, fill, wash, drain,
/// fill, wash, drain, spin, idle. `fill1` and `fill2` give the water-level
/// readings the two filling phases will see, each with at least one asserted
/// reading.
pub fn run_program(fill1: &Vec<bool>, fill2: &Vec<bool>) -> (m: WashingMachine)
    requires
        has_asserted(fill1@),
        has_asserted(fill2@),
    ensures
        m.trace@ == program_events(fill1@, fill2@),
        !m.power,
        !m.direction,
        !m.drain,
        !m.inlet,
{
    let mut m = WashingMachine::new();
    m.idle();
    m.filling(fill1);
    m.wash();
    m.drain();
    m.filling(fill2);
    m.wash();
    m.drain();
    m.spin();
    m.idle();
    proof {
        assert(m.trace@ =~= program_events(fill1@, fill2@));
    }
    m
}

/// Law: in every agitation sub-cycle, direction alternates on then off
/// exactly once, power goes on, off, on, off, and each drive and pause lasts
/// the documented duration.
pub proof fn lemma_sub_cycle_alternation(drive: u32, pause: u32)
    ensures
        sub_cycle_events(drive, pause).len() == 10,
        sub_cycle_events(drive, pause)[0] == Event::SetPin(PinId::Direction, true),
        sub_cycle_events(drive, pause)[5] == Event::SetPin(PinId::Direction, false),
        forall|i: int|
            0 <= i < 10 && i != 0 && i != 5 ==> !is_pin_write(
                sub_cycle_events(drive, pause)[i],
                PinId::Direction,
            ),
        sub_cycle_events(drive, pause)[1] == Event::SetPin(PinId::Power, true),
        sub_cycle_events(drive, pause)[3] == Event::SetPin(PinId::Power, false),
        sub_cycle_events(drive, pause)[6] == Event::SetPin(PinId::Power, true),
        sub_cycle_events(drive, pause)[8] == Event::SetPin(PinId::Power, false),
        forall|i: int|
            0 <= i < 10 && i != 1 && i != 3 && i != 6 && i != 8 ==> !is_pin_write(
                sub_cycle_events(drive, pause)[i],
                PinId::Power,
            ),
        sub_cycle_events(drive, pause)[2] == Event::Delay(drive),
        sub_cycle_events(drive, pause)[4] == Event::Delay(pause),
        sub_cycle_events(drive, pause)[7] == Event::Delay(drive),
        sub_cycle_events(drive, pause)[9] == Event::Delay(pause),
{
}

/// Law: the spin phase opens the drain valve with its second action and
/// closes it with its last, touching it nowhere in between; 205000 ms of
/// delay pass between the two; and power is commanded on for the whole
/// sustained 180000 ms run.
pub proof fn lemma_spin_profile()
    ensures
        spin_events().len() == 18,
        spin_events()[1] == Event::SetPin(PinId::Drain, true),
        spin_events()[17] == Event::SetPin(PinId::Drain, false),
        forall|i: int| 2 <= i < 17 ==> !is_pin_write(spin_events()[i], PinId::Drain),
        elapsed(spin_events()) == 205000,
        spin_events()[11] == Event::SetPin(PinId::Power, true),
        elapsed(spin_events().subrange(12, 15)) == 180000,
        forall|i: int| 12 <= i < 15 ==> spin_events()[i] == Event::Delay(60000),
        spin_events()[15] == Event::SetPin(PinId::Power, false),
{
    reveal_with_fuel(elapsed, 20);
    assert(spin_events().subrange(12, 15) =~= seq![
        Event::Delay(60000),
        Event::Delay(60000),
        Event::Delay(60000),
    ]);
}

} // verus!
