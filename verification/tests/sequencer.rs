use washing_machine::event::Event;
use washing_machine::event::PinId;
use washing_machine::sequencer::WashingMachine;
use washing_machine::sequencer::run_program;

fn on(pin: PinId) -> Event {
    Event::SetPin(pin, true)
}

fn off(pin: PinId) -> Event {
    Event::SetPin(pin, false)
}

fn ms(d: u32) -> Event {
    Event::Delay(d)
}

/// The event list of one agitation sub-cycle with the given durations.
fn sub_cycle(drive: u32, pause: u32) -> Vec<Event> {
    vec![
        on(PinId::Direction),
        on(PinId::Power),
        ms(drive),
        off(PinId::Power),
        ms(pause),
        off(PinId::Direction),
        on(PinId::Power),
        ms(drive),
        off(PinId::Power),
        ms(pause),
    ]
}

/// The event list that `idle` performs.
fn all_off() -> Vec<Event> {
    vec![off(PinId::Power), off(PinId::Direction), off(PinId::Drain), off(PinId::Inlet)]
}

/// Total delay time of a slice of events, in ms.
fn total_ms(evs: &[Event]) -> u64 {
    let mut sum: u64 = 0;
    for e in evs {
        if let Event::Delay(d) = e {
            sum += *d as u64;
        }
    }
    sum
}

/// Number of writes to the given pin in a slice of events.
fn writes_to(evs: &[Event], pin: PinId) -> usize {
    evs.iter()
        .filter(|e| matches!(e, Event::SetPin(p, _) if *p == pin))
        .count()
}

#[test]
fn new_starts_with_no_actions() {
    let m = WashingMachine::new();
    assert!(m.trace.is_empty());
    assert!(!m.power && !m.direction && !m.drain && !m.inlet);
}

#[test]
fn idle_turns_all_outputs_off() {
    let mut m = WashingMachine::new();
    m.power = true;
    m.direction = true;
    m.drain = true;
    m.inlet = true;
    m.idle();
    assert!(!m.power && !m.direction && !m.drain && !m.inlet);
    assert_eq!(m.trace, all_off());
}

#[test]
fn idle_is_idempotent() {
    let mut m = WashingMachine::new();
    m.idle();
    m.idle();
    assert!(!m.power && !m.direction && !m.drain && !m.inlet);
    let mut expected = all_off();
    expected.extend(all_off());
    assert_eq!(m.trace, expected);
}

#[test]
fn filling_with_immediately_asserted_sensor() {
    let mut m = WashingMachine::new();
    m.filling(&vec![true]);
    assert_eq!(m.trace, vec![off(PinId::Inlet), ms(1000)]);
    assert!(!m.inlet);
}

#[test]
fn filling_holds_inlet_on_while_sensor_deasserted() {
    let mut m = WashingMachine::new();
    m.filling(&vec![false, false, false, true]);
    assert_eq!(
        m.trace,
        vec![on(PinId::Inlet), on(PinId::Inlet), on(PinId::Inlet), off(PinId::Inlet), ms(1000)]
    );
    assert!(!m.inlet);
}

#[test]
fn wash_cycle_1_pulse_pattern() {
    let mut m = WashingMachine::new();
    m.wash_cycle_1();
    assert_eq!(m.trace, sub_cycle(2500, 1500));
    assert!(!m.power && !m.direction);
}

#[test]
fn wash_cycle_2_pulse_pattern() {
    let mut m = WashingMachine::new();
    m.wash_cycle_2();
    assert_eq!(m.trace, sub_cycle(2500, 500));
}

#[test]
fn wash_cycle_3_pulse_pattern() {
    let mut m = WashingMachine::new();
    m.wash_cycle_3();
    assert_eq!(m.trace, sub_cycle(4500, 1500));
}

#[test]
fn sub_cycle_alternates_direction_once_and_power_twice() {
    let mut m = WashingMachine::new();
    m.wash_cycle_1();
    assert_eq!(writes_to(&m.trace, PinId::Direction), 2);
    assert_eq!(m.trace[0], on(PinId::Direction));
    assert_eq!(m.trace[5], off(PinId::Direction));
    assert_eq!(writes_to(&m.trace, PinId::Power), 4);
    assert_eq!(
        [m.trace[1], m.trace[3], m.trace[6], m.trace[8]],
        [on(PinId::Power), off(PinId::Power), on(PinId::Power), off(PinId::Power)]
    );
}

#[test]
fn wash_runs_each_sub_cycle_forty_times_in_order() {
    let mut m = WashingMachine::new();
    m.wash();
    let mut expected: Vec<Event> = Vec::new();
    for _ in 0..40 {
        expected.extend(sub_cycle(2500, 1500));
    }
    for _ in 0..40 {
        expected.extend(sub_cycle(2500, 500));
    }
    for _ in 0..40 {
        expected.extend(sub_cycle(4500, 1500));
    }
    assert_eq!(m.trace, expected);
    assert_eq!(m.trace.len(), 1200);
    assert!(!m.power && !m.direction);
}

#[test]
fn drain_pulse_and_settle() {
    let mut m = WashingMachine::new();
    m.drain();
    assert_eq!(
        m.trace,
        vec![on(PinId::Drain), ms(60000), off(PinId::Drain), ms(1000)]
    );
    assert_eq!(total_ms(&m.trace), 61000);
    assert!(!m.drain);
}

#[test]
fn spin_timing_and_drain_envelope() {
    let mut m = WashingMachine::new();
    m.spin();
    let expected = vec![
        on(PinId::Direction),
        on(PinId::Drain),
        ms(3000),
        on(PinId::Power),
        ms(1000),
        off(PinId::Power),
        ms(2000),
        on(PinId::Power),
        ms(2000),
        off(PinId::Power),
        ms(2000),
        on(PinId::Power),
        ms(60000),
        ms(60000),
        ms(60000),
        off(PinId::Power),
        ms(15000),
        off(PinId::Drain),
    ];
    assert_eq!(m.trace, expected);
    // Drain opens as the second action, closes as the last, untouched between.
    assert_eq!(m.trace[1], on(PinId::Drain));
    assert_eq!(m.trace[17], off(PinId::Drain));
    assert_eq!(writes_to(&m.trace, PinId::Drain), 2);
    // 205000 ms elapse between opening and closing the drain valve.
    assert_eq!(total_ms(&m.trace[1..18]), 205000);
    // Power is commanded on for the whole sustained 180000 ms run.
    assert_eq!(m.trace[11], on(PinId::Power));
    assert_eq!(total_ms(&m.trace[12..15]), 180000);
    assert_eq!(m.trace[15], off(PinId::Power));
    // Direction is set once and left clockwise; power ends off.
    assert!(m.direction && !m.power && !m.drain);
}

#[test]
fn end_to_end_program() {
    // First filling sees one deasserted poll, second fills instantly.
    let fill1 = vec![false, true];
    let fill2 = vec![true];
    let m = run_program(&fill1, &fill2);

    let mut expected: Vec<Event> = Vec::new();
    expected.extend(all_off());
    expected.extend(vec![on(PinId::Inlet), off(PinId::Inlet), ms(1000)]);
    let mut wash: Vec<Event> = Vec::new();
    for _ in 0..40 {
        wash.extend(sub_cycle(2500, 1500));
    }
    for _ in 0..40 {
        wash.extend(sub_cycle(2500, 500));
    }
    for _ in 0..40 {
        wash.extend(sub_cycle(4500, 1500));
    }
    let drain = vec![on(PinId::Drain), ms(60000), off(PinId::Drain), ms(1000)];
    expected.extend(wash.clone());
    expected.extend(drain.clone());
    expected.extend(vec![off(PinId::Inlet), ms(1000)]);
    expected.extend(wash.clone());
    expected.extend(drain.clone());
    expected.extend(vec![
        on(PinId::Direction),
        on(PinId::Drain),
        ms(3000),
        on(PinId::Power),
        ms(1000),
        off(PinId::Power),
        ms(2000),
        on(PinId::Power),
        ms(2000),
        off(PinId::Power),
        ms(2000),
        on(PinId::Power),
        ms(60000),
        ms(60000),
        ms(60000),
        off(PinId::Power),
        ms(15000),
        off(PinId::Drain),
    ]);
    expected.extend(all_off());

    assert_eq!(m.trace, expected);
    assert!(!m.power && !m.direction && !m.drain && !m.inlet);
}
