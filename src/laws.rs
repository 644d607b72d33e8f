//! Properties of the charge cycle, proved over its transition function.
use vstd::prelude::*;
use crate::charge::{battery_of, charge_step, power_of, ChargeAction, Event, Charger, Phase};
use crate::session::{fresh_charger, session_step, Session, SessionAction, Stage};
use crate::telemetry::{battery_reading, Command, Query};
use crate::text::{decimal, lemma_reply_round_trip};

verus! {

/// Whether an action touches the power button.
pub open spec fn is_button_action(a: ChargeAction) -> bool {
    a == ChargeAction::Send(Command::PowerButtonPress)
        || a == ChargeAction::Send(Command::PowerButtonRelease)
}

/// A battery already at or above `from` is left alone: the check presses no
/// button, switches external power off and then finishes.
pub proof fn lemma_charged_enough(c: Charger, ev: Event, ev2: Event)
    requires
        c.phase == Phase::Check,
        battery_of(ev) matches Some(p) && p >= c.from,
    ensures
        charge_step(c, ev).1 == ChargeAction::Send(Command::WallPowerOff),
        charge_step(charge_step(c, ev).0, ev2).1 == ChargeAction::Finished,
        charge_step(charge_step(c, ev).0, ev2).0.phase == Phase::Complete,
        !is_button_action(charge_step(c, ev).1),
{
}

/// A battery below `from` has external power switched on and the device
/// driven off before charging starts.
pub proof fn lemma_low_battery_powers_off(c: Charger, ev: Event, ev2: Event)
    requires
        c.phase == Phase::Check,
        battery_of(ev) matches Some(p) && p < c.from,
    ensures
        charge_step(c, ev).1 == ChargeAction::Send(Command::WallPowerOn),
        charge_step(charge_step(c, ev).0, ev2).0.phase == Phase::PowerQuery(false),
        charge_step(charge_step(c, ev).0, ev2).1 == ChargeAction::Query(Query::PowerState),
{
}

/// Charging starts only once the device is off: the charging loop is entered
/// only from the step that finds or leaves the device off.
pub proof fn lemma_charging_starts_when_off(c: Charger, ev: Event)
    requires
        c.phase != Phase::Started,
        charge_step(c, ev).0.phase == Phase::Started,
    ensures
        c.phase == Phase::PowerQuery(false) && power_of(ev) == Some(Some(false))
            || c.phase == Phase::Reported(false),
{
}

/// The charging loop ends only on a reading at or above `to`, and only then is
/// the device driven on.
pub proof fn lemma_power_on_after_target(c: Charger, ev: Event)
    ensures
        charge_step(c, ev).0.phase == Phase::Charged && c.phase != Phase::Charged
            ==> charge_step(c, ev).0.level >= c.to,
        charge_step(c, ev).0.phase == Phase::PowerQuery(true) ==> c.phase == Phase::Charged
            || c.phase == Phase::PowerRetry(true) || c.phase == Phase::PowerQuery(true),
        c.phase == Phase::Charged ==> charge_step(c, ev).1 == ChargeAction::Query(Query::PowerState),
{
}

/// While charging, a reading below `to` keeps the loop going, and one at or
/// above it ends the loop.
pub proof fn lemma_charging_loop(c: Charger, ev: Event)
    requires
        c.phase == Phase::Reading,
        battery_of(ev) is Some,
    ensures
        battery_of(ev)->0 >= c.to ==> charge_step(c, ev).1 == ChargeAction::ChargingDone,
        battery_of(ev)->0 < c.to ==> (charge_step(c, ev).0.phase == Phase::Advanced
            || charge_step(c, ev).0.phase == Phase::Waiting),
{
}

/// Switching is idempotent: a device already in the wanted state gets no
/// button press, and one in the other state gets one.
pub proof fn lemma_switch_idempotent(c: Charger, ev: Event, on: bool)
    requires
        c.phase == Phase::PowerQuery(on),
        power_of(ev) matches Some(Some(s)),
    ensures
        power_of(ev) == Some(Some(on)) ==> !is_button_action(charge_step(c, ev).1),
        power_of(ev) == Some(Some(!on)) ==> charge_step(c, ev).1 == ChargeAction::Send(
            Command::PowerButtonPress,
        ),
{
}

/// An unknown power state stops the check: from then on every step repeats
/// the failure and issues no query and no command.
pub proof fn lemma_unknown_state_stops(c: Charger, ev: Event, ev2: Event)
    requires
        c.phase is PowerQuery,
        power_of(ev) == Some(None::<bool>),
    ensures
        charge_step(c, ev).1 == ChargeAction::InvalidPowerState,
        charge_step(charge_step(c, ev).0, ev2) == (charge_step(c, ev).0, ChargeAction::InvalidPowerState),
{
}

/// A well-formed battery reply carrying a percentage reads back as that
/// percentage.
pub proof fn lemma_battery_reply(key: Seq<char>, p: nat)
    requires
        forall|i: int| 0 <= i < key.len() ==> key[i] != ':',
        p <= 100,
    ensures
        battery_reading(key + seq![':'] + decimal(p) + seq!['\n']) == Some(p as int),
{
    lemma_reply_round_trip(key, p);
}

/// Tests run one at a time and in order: a test runs only once its own
/// charge check has finished, its output is saved right after it ran, and the
/// session moves to the next test only after reporting the current one,
/// starting a fresh charge check for it.
pub proof fn lemma_tests_in_order(s: Session, ev: Event)
    requires
        s.wf(),
    ensures
        session_step(s, ev).1 matches SessionAction::RunTest(i) ==> i == s.index && s.stage
            == Stage::Charging && charge_step(s.charger, ev).1 == ChargeAction::Finished,
        session_step(s, ev).1 matches SessionAction::Save(i) ==> i == s.index && s.stage
            == Stage::Running,
        session_step(s, ev).0.index != s.index ==> s.stage == Stage::Reporting
            && session_step(s, ev).0.index == s.index + 1,
        session_step(s, ev).0.index != s.index && session_step(s, ev).0.stage == Stage::Charging
            ==> session_step(s, ev).0.charger == fresh_charger(s.from, s.to),
{
}

/// Every charge check that finishes has just switched external power off,
/// whether or not it charged: the check finishes only after the step that
/// sends that command.
pub proof fn lemma_finishes_with_wall_power_off(c: Charger, ev: Event)
    ensures
        charge_step(c, ev).0.phase == Phase::WallOff && c.phase != Phase::WallOff
            ==> charge_step(c, ev).1 == ChargeAction::Send(Command::WallPowerOff),
        charge_step(c, ev).1 == ChargeAction::Finished ==> c.phase == Phase::WallOff
            || c.phase == Phase::Complete,
        charge_step(c, ev).0.phase == Phase::Complete ==> c.phase == Phase::WallOff
            || c.phase == Phase::Complete,
{
}

} // verus!
