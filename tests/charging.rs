use pwrtest::charge::{charge, ChargeAction, Charger, Event};
use pwrtest::telemetry::{Command, Query};

fn out(s: &str) -> Event {
    Event::Output(s.to_string())
}

fn battery(p: i32) -> Event {
    out(&format!("battery_charge_percent:{}\n", p))
}

fn power(code: &str) -> Event {
    out(&format!("ec_system_powerstate:{}\n", code))
}

fn is_button(a: &ChargeAction) -> bool {
    matches!(
        a,
        ChargeAction::Send(Command::PowerButtonPress) | ChargeAction::Send(Command::PowerButtonRelease)
    )
}

#[test]
fn charged_enough_touches_no_button() {
    let (mut c, a) = charge(50, 80);
    assert_eq!(a, ChargeAction::Query(Query::BatteryPercent));
    let a1 = c.step(battery(60));
    assert_eq!(a1, ChargeAction::Send(Command::WallPowerOff));
    let a2 = c.step(Event::Ack);
    assert_eq!(a2, ChargeAction::Finished);
    assert!(!is_button(&a1) && !is_button(&a2));
    assert_eq!(c.step(Event::Ack), ChargeAction::Finished);
}

#[test]
fn exactly_at_from_is_enough() {
    let (mut c, _) = charge(50, 80);
    assert_eq!(c.step(battery(50)), ChargeAction::Send(Command::WallPowerOff));
}

#[test]
fn low_battery_full_cycle() {
    let (mut c, _) = charge(50, 60);
    let mut seen: Vec<ChargeAction> = Vec::new();
    let events = vec![
        battery(20),
        Event::Ack,  // external power on
        power("S0"), // device is on: switch it off
        Event::Ack,  // press
        Event::Ack,  // hold
        Event::Ack,  // release
        Event::Ack,  // settle
        Event::Ack,  // reported
        Event::Ack,  // charging started
        Event::Ack,  // sleep
        battery(30),
        Event::Ack,  // progress
        Event::Ack,  // sleep
        battery(28),
        Event::Ack,  // sleep
        battery(60),
        Event::Ack,  // charging done
        power("G3"), // device is off: switch it on
        Event::Ack,  // press
        Event::Ack,  // hold
        Event::Ack,  // release
        Event::Ack,  // settle
        Event::Ack,  // reported
        Event::Ack,  // external power off
    ];
    for ev in events {
        seen.push(c.step(ev));
    }
    assert_eq!(
        seen,
        vec![
            ChargeAction::Send(Command::WallPowerOn),
            ChargeAction::Query(Query::PowerState),
            ChargeAction::Send(Command::PowerButtonPress),
            ChargeAction::Sleep(3),
            ChargeAction::Send(Command::PowerButtonRelease),
            ChargeAction::Sleep(10),
            ChargeAction::Switched(false),
            ChargeAction::ChargingStarted { from: 50, level: 20, to: 60 },
            ChargeAction::Sleep(10),
            ChargeAction::Query(Query::BatteryPercent),
            ChargeAction::Progress(10),
            ChargeAction::Sleep(10),
            ChargeAction::Query(Query::BatteryPercent),
            ChargeAction::Sleep(10),
            ChargeAction::Query(Query::BatteryPercent),
            ChargeAction::ChargingDone,
            ChargeAction::Query(Query::PowerState),
            ChargeAction::Send(Command::PowerButtonPress),
            ChargeAction::Sleep(1),
            ChargeAction::Send(Command::PowerButtonRelease),
            ChargeAction::Sleep(10),
            ChargeAction::Switched(true),
            ChargeAction::Send(Command::WallPowerOff),
            ChargeAction::Finished,
        ]
    );
}

#[test]
fn already_off_and_already_on_press_nothing() {
    let (mut c, _) = charge(50, 60);
    assert_eq!(c.step(battery(10)), ChargeAction::Send(Command::WallPowerOn));
    assert_eq!(c.step(Event::Ack), ChargeAction::Query(Query::PowerState));
    assert_eq!(c.step(power("G3")), ChargeAction::ChargingStarted { from: 50, level: 10, to: 60 });
    assert_eq!(c.step(Event::Ack), ChargeAction::Sleep(10));
    assert_eq!(c.step(Event::Ack), ChargeAction::Query(Query::BatteryPercent));
    assert_eq!(c.step(battery(70)), ChargeAction::ChargingDone);
    assert_eq!(c.step(Event::Ack), ChargeAction::Query(Query::PowerState));
    assert_eq!(c.step(power("S0")), ChargeAction::Send(Command::WallPowerOff));
    assert_eq!(c.step(Event::Ack), ChargeAction::Finished);
}

#[test]
fn failed_probes_are_retried() {
    let (mut c, _) = charge(50, 60);
    assert_eq!(c.step(out("garbage")), ChargeAction::Retry(Query::BatteryPercent, 30));
    assert_eq!(c.step(Event::Ack), ChargeAction::Query(Query::BatteryPercent));
    assert_eq!(c.step(Event::Ack), ChargeAction::Retry(Query::BatteryPercent, 30));
    assert_eq!(c.step(Event::Ack), ChargeAction::Query(Query::BatteryPercent));
    assert_eq!(c.step(battery(10)), ChargeAction::Send(Command::WallPowerOn));
    assert_eq!(c.step(Event::Ack), ChargeAction::Query(Query::PowerState));
    assert_eq!(c.step(out("timeout")), ChargeAction::Retry(Query::PowerState, 10));
    assert_eq!(c.step(Event::Ack), ChargeAction::Query(Query::PowerState));
    assert_eq!(c.step(power("G3")), ChargeAction::ChargingStarted { from: 50, level: 10, to: 60 });
    assert_eq!(c.step(Event::Ack), ChargeAction::Sleep(10));
    assert_eq!(c.step(Event::Ack), ChargeAction::Query(Query::BatteryPercent));
    assert_eq!(c.step(out("battery_charge_percent:??\n")), ChargeAction::Retry(Query::BatteryPercent, 30));
    assert_eq!(c.step(Event::Ack), ChargeAction::Query(Query::BatteryPercent));
    assert_eq!(c.step(battery(60)), ChargeAction::ChargingDone);
}

#[test]
fn unknown_power_state_stops_everything() {
    let (mut c, _) = charge(50, 60);
    c.step(battery(10));
    c.step(Event::Ack);
    assert_eq!(c.step(out("ec_system_powerstate:X\n")), ChargeAction::InvalidPowerState);
    assert_eq!(c.step(Event::Ack), ChargeAction::InvalidPowerState);
    assert_eq!(c.step(battery(90)), ChargeAction::InvalidPowerState);
    assert_eq!(c.step(power("S0")), ChargeAction::InvalidPowerState);
}

#[test]
fn progress_never_goes_back() {
    let (mut c, _) = charge(50, 90);
    c.step(battery(40));
    c.step(Event::Ack);
    c.step(power("G3"));
    assert_eq!(c.step(Event::Ack), ChargeAction::Sleep(10));
    c.step(Event::Ack);
    assert_eq!(c.step(battery(35)), ChargeAction::Sleep(10));
    c.step(Event::Ack);
    assert_eq!(c.step(battery(38)), ChargeAction::Sleep(10));
    c.step(Event::Ack);
    assert_eq!(c.step(battery(45)), ChargeAction::Progress(5));
    let copy: Charger = c;
    assert_eq!(copy.shown, 45);
}

#[test]
fn empty_power_state_is_retried() {
    let (mut c, _) = charge(50, 60);
    c.step(battery(10));
    assert_eq!(c.step(Event::Ack), ChargeAction::Query(Query::PowerState));
    assert_eq!(c.step(out("ec_system_powerstate:")), ChargeAction::Retry(Query::PowerState, 10));
    assert_eq!(c.step(Event::Ack), ChargeAction::Query(Query::PowerState));
    assert_eq!(c.step(out("ec_system_powerstate:\n")), ChargeAction::Retry(Query::PowerState, 10));
    assert_eq!(c.step(Event::Ack), ChargeAction::Query(Query::PowerState));
    assert_eq!(c.step(power("G3")), ChargeAction::ChargingStarted { from: 50, level: 10, to: 60 });
}

#[test]
fn charged_enough_after_failed_probes() {
    let (mut c, _) = charge(50, 80);
    let mut seen: Vec<ChargeAction> = Vec::new();
    for ev in vec![out("garbage"), Event::Ack, out("battery_charge_percent:\n"), Event::Ack, battery(75), Event::Ack, Event::Ack] {
        seen.push(c.step(ev));
    }
    assert_eq!(
        seen,
        vec![
            ChargeAction::Retry(Query::BatteryPercent, 30),
            ChargeAction::Query(Query::BatteryPercent),
            ChargeAction::Retry(Query::BatteryPercent, 30),
            ChargeAction::Query(Query::BatteryPercent),
            ChargeAction::Send(Command::WallPowerOff),
            ChargeAction::Finished,
            ChargeAction::Finished,
        ]
    );
    assert!(!seen.iter().any(is_button));
}
