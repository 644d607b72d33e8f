//! The charge cycle run before each test, as a state machine: each step takes
//! what the last action produced and gives the next action to perform.
use vstd::prelude::*;
use crate::telemetry::{
    battery_pct_try, battery_reading, power_reading, power_reading_of, pwr_button, wallpower,
    Command, Query,
};

verus! {

/// Seconds between two tries of a battery query.
pub const BATTERY_RETRY_SECS: u64 = 30;

/// Seconds between two tries of a power-state query.
pub const POWER_RETRY_SECS: u64 = 10;

/// Seconds the power button is held to switch the device off.
pub const HOLD_OFF_SECS: u64 = 3;

/// Seconds the power button is held to switch the device on.
pub const HOLD_ON_SECS: u64 = 1;

/// Seconds for the device to settle after the power button is released.
pub const SETTLE_SECS: u64 = 10;

/// Seconds between two battery readings while charging.
pub const CHARGE_POLL_SECS: u64 = 10;

/// What the driver does next.
#[derive(Clone, Copy, Debug, PartialEq, Eq, Structural)]
pub enum ChargeAction {
    /// Ask the control tool; reply with its output.
    Query(Query),
    /// Launch a command on the control tool; acknowledge.
    Send(Command),
    /// Sleep this many seconds; acknowledge.
    Sleep(u64),
    /// Report that the query failed, sleep this many seconds; acknowledge.
    Retry(Query, u64),
    /// Report that charging starts and show progress at `level`; acknowledge.
    ChargingStarted { from: i32, level: i32, to: i32 },
    /// Advance the shown progress by this many percent; acknowledge.
    Progress(u64),
    /// Stop showing progress; acknowledge.
    ChargingDone,
    /// Report that the device was switched on (`true`) or off; acknowledge.
    Switched(bool),
    /// The charge check is over.
    Finished,
    /// The device reported a power state that is neither on nor off: stop.
    InvalidPowerState,
}

/// What the last action produced.
pub enum Event {
    /// The output of a query; an output that cannot be read counts as a
    /// failed query.
    Output(String),
    /// The action was carried out.
    Ack,
}

/// Where the charge check stands: what the last action was.
#[derive(Clone, Copy, Debug, PartialEq, Eq, Structural)]
pub enum Phase {
    /// The first battery query was sent.
    Check,
    /// The first battery query failed and a retry is waited for.
    CheckRetry,
    /// External power was switched on.
    WallOn,
    /// The power state was queried, in order to reach the state given.
    PowerQuery(bool),
    /// The power-state query failed and a retry is waited for.
    PowerRetry(bool),
    /// The power button was pressed.
    Pressed(bool),
    /// The power button was held.
    Held(bool),
    /// The power button was released.
    Released(bool),
    /// The device was left to settle.
    Settled(bool),
    /// The switch was reported.
    Reported(bool),
    /// Charging was reported to have started.
    Started,
    /// Progress was advanced.
    Advanced,
    /// The poll interval was slept.
    Waiting,
    /// A battery query was sent while charging.
    Reading,
    /// That query failed and a retry is waited for.
    ReadingRetry,
    /// The target level was reached.
    Charged,
    /// External power was switched off.
    WallOff,
    /// The check is over.
    Complete,
    /// The device reported an unknown power state.
    Failed,
}

/// A charge check that keeps the battery between `from` and `to` percent.
#[derive(Clone, Copy, Debug, PartialEq, Eq, Structural)]
pub struct Charger {
    pub from: i32,
    pub to: i32,
    /// The last battery level read.
    pub level: i32,
    /// The level that the progress shown stands at.
    pub shown: i32,
    pub phase: Phase,
}

/// The battery level that an event reports, if it is a readable reply.
pub open spec fn battery_of(ev: Event) -> Option<int> {
    match ev {
        Event::Output(t) => battery_reading(t@),
        Event::Ack => None,
    }
}

/// The power state that an event reports: `None` if it is no readable reply.
pub open spec fn power_of(ev: Event) -> Option<Option<bool>> {
    match ev {
        Event::Output(t) => power_reading(t@),
        Event::Ack => None,
    }
}

pub open spec fn in_phase(c: Charger, p: Phase) -> Charger {
    Charger { phase: p, ..c }
}

/// What follows once the device is in the state `on`: after switching off,
/// charging starts; after switching on, external power is switched off.
pub open spec fn after_switch(c: Charger, on: bool) -> (Charger, ChargeAction) {
    if on {
        (in_phase(c, Phase::WallOff), ChargeAction::Send(Command::WallPowerOff))
    } else {
        (
            in_phase(c, Phase::Started),
            ChargeAction::ChargingStarted { from: c.from, level: c.level, to: c.to },
        )
    }
}

/// The head of the charging loop, with the level just read.
pub open spec fn loop_head(c: Charger) -> (Charger, ChargeAction) {
    if c.level >= c.to {
        (in_phase(c, Phase::Charged), ChargeAction::ChargingDone)
    } else if c.level > c.shown {
        (
            Charger { phase: Phase::Advanced, shown: c.level, ..c },
            ChargeAction::Progress((c.level - c.shown) as u64),
        )
    } else {
        (in_phase(c, Phase::Waiting), ChargeAction::Sleep(CHARGE_POLL_SECS))
    }
}

/// The next state and action, given what the last action produced.
pub open spec fn charge_step(c: Charger, ev: Event) -> (Charger, ChargeAction) {
    match c.phase {
        Phase::Check => match battery_of(ev) {
            None => (
                in_phase(c, Phase::CheckRetry),
                ChargeAction::Retry(Query::BatteryPercent, BATTERY_RETRY_SECS),
            ),
            Some(p) => if p >= c.from {
                (in_phase(c, Phase::WallOff), ChargeAction::Send(Command::WallPowerOff))
            } else {
                (
                    Charger { phase: Phase::WallOn, level: p as i32, shown: p as i32, ..c },
                    ChargeAction::Send(Command::WallPowerOn),
                )
            },
        },
        Phase::CheckRetry => (in_phase(c, Phase::Check), ChargeAction::Query(Query::BatteryPercent)),
        Phase::WallOn => (
            in_phase(c, Phase::PowerQuery(false)),
            ChargeAction::Query(Query::PowerState),
        ),
        Phase::PowerQuery(on) => match power_of(ev) {
            None => (
                in_phase(c, Phase::PowerRetry(on)),
                ChargeAction::Retry(Query::PowerState, POWER_RETRY_SECS),
            ),
            Some(None) => (in_phase(c, Phase::Failed), ChargeAction::InvalidPowerState),
            Some(Some(s)) => if s == on {
                after_switch(c, on)
            } else {
                (in_phase(c, Phase::Pressed(on)), ChargeAction::Send(Command::PowerButtonPress))
            },
        },
        Phase::PowerRetry(on) => (
            in_phase(c, Phase::PowerQuery(on)),
            ChargeAction::Query(Query::PowerState),
        ),
        Phase::Pressed(on) => (
            in_phase(c, Phase::Held(on)),
            ChargeAction::Sleep(if on { HOLD_ON_SECS } else { HOLD_OFF_SECS }),
        ),
        Phase::Held(on) => (
            in_phase(c, Phase::Released(on)),
            ChargeAction::Send(Command::PowerButtonRelease),
        ),
        Phase::Released(on) => (in_phase(c, Phase::Settled(on)), ChargeAction::Sleep(SETTLE_SECS)),
        Phase::Settled(on) => (in_phase(c, Phase::Reported(on)), ChargeAction::Switched(on)),
        Phase::Reported(on) => after_switch(c, on),
        Phase::Started => loop_head(c),
        Phase::Advanced => (in_phase(c, Phase::Waiting), ChargeAction::Sleep(CHARGE_POLL_SECS)),
        Phase::Waiting => (in_phase(c, Phase::Reading), ChargeAction::Query(Query::BatteryPercent)),
        Phase::Reading => match battery_of(ev) {
            None => (
                in_phase(c, Phase::ReadingRetry),
                ChargeAction::Retry(Query::BatteryPercent, BATTERY_RETRY_SECS),
            ),
            Some(p) => loop_head(Charger { level: p as i32, ..c }),
        },
        Phase::ReadingRetry => (
            in_phase(c, Phase::Reading),
            ChargeAction::Query(Query::BatteryPercent),
        ),
        Phase::Charged => (in_phase(c, Phase::PowerQuery(true)), ChargeAction::Query(Query::PowerState)),
        Phase::WallOff => (in_phase(c, Phase::Complete), ChargeAction::Finished),
        Phase::Complete => (c, ChargeAction::Finished),
        Phase::Failed => (c, ChargeAction::InvalidPowerState),
    }
}

fn battery_event(ev: &Event) -> (r: Option<i32>)
    ensures
        r matches Some(p) ==> battery_of(*ev) == Some(p as int),
        r is None ==> battery_of(*ev) is None,
{
    match ev {
        Event::Output(t) => battery_pct_try(t.as_str()),
        Event::Ack => None,
    }
}

fn power_event(ev: &Event) -> (r: Option<Option<bool>>)
    ensures
        r == power_of(*ev),
{
    match ev {
        Event::Output(t) => power_reading_of(t.as_str()),
        Event::Ack => None,
    }
}

/// Starts a charge check that keeps the battery between `from` and `to`
/// percent: its first action reads the battery level.
pub fn charge(from: i32, to: i32) -> (r: (Charger, ChargeAction))
    ensures
        r.0 == (Charger { from, to, level: 0, shown: 0, phase: Phase::Check }),
        r.1 == ChargeAction::Query(Query::BatteryPercent),
{
    (Charger { from, to, level: 0, shown: 0, phase: Phase::Check }, ChargeAction::Query(Query::BatteryPercent))
}

impl Charger {
    fn with_phase(&self, p: Phase) -> (r: Charger)
        ensures
            r == in_phase(*self, p),
    {
        Charger { phase: p, ..*self }
    }

    /// Starts switching the device off: its power state is queried first.
    fn poweroff(&self) -> (r: (Charger, ChargeAction))
        ensures
            r == (in_phase(*self, Phase::PowerQuery(false)), ChargeAction::Query(Query::PowerState)),
    {
        (self.with_phase(Phase::PowerQuery(false)), ChargeAction::Query(Query::PowerState))
    }

    /// Starts switching the device on: its power state is queried first.
    fn poweron(&self) -> (r: (Charger, ChargeAction))
        ensures
            r == (in_phase(*self, Phase::PowerQuery(true)), ChargeAction::Query(Query::PowerState)),
    {
        (self.with_phase(Phase::PowerQuery(true)), ChargeAction::Query(Query::PowerState))
    }

    fn after_switch(&self, on: bool) -> (r: (Charger, ChargeAction))
        ensures
            r == after_switch(*self, on),
    {
        if on {
            (self.with_phase(Phase::WallOff), ChargeAction::Send(wallpower(false)))
        } else {
            (
                self.with_phase(Phase::Started),
                ChargeAction::ChargingStarted { from: self.from, level: self.level, to: self.to },
            )
        }
    }

    fn loop_head(&self) -> (r: (Charger, ChargeAction))
        ensures
            r == loop_head(*self),
    {
        if self.level >= self.to {
            (self.with_phase(Phase::Charged), ChargeAction::ChargingDone)
        } else if self.level > self.shown {
            let delta = (self.level as i64 - self.shown as i64) as u64;
            (Charger { phase: Phase::Advanced, shown: self.level, ..*self }, ChargeAction::Progress(delta))
        } else {
            (self.with_phase(Phase::Waiting), ChargeAction::Sleep(CHARGE_POLL_SECS))
        }
    }

    fn next(&self, ev: &Event) -> (r: (Charger, ChargeAction))
        ensures
            r == charge_step(*self, *ev),
    {
        match self.phase {
            Phase::Check => match battery_event(ev) {
                None => (
                    self.with_phase(Phase::CheckRetry),
                    ChargeAction::Retry(Query::BatteryPercent, BATTERY_RETRY_SECS),
                ),
                Some(p) => if p >= self.from {
                    (self.with_phase(Phase::WallOff), ChargeAction::Send(wallpower(false)))
                } else {
                    (
                        Charger { phase: Phase::WallOn, level: p, shown: p, ..*self },
                        ChargeAction::Send(wallpower(true)),
                    )
                },
            },
            Phase::CheckRetry => (self.with_phase(Phase::Check), ChargeAction::Query(Query::BatteryPercent)),
            Phase::WallOn => self.poweroff(),
            Phase::PowerQuery(on) => match power_event(ev) {
                None => (
                    self.with_phase(Phase::PowerRetry(on)),
                    ChargeAction::Retry(Query::PowerState, POWER_RETRY_SECS),
                ),
                Some(None) => (self.with_phase(Phase::Failed), ChargeAction::InvalidPowerState),
                Some(Some(s)) => if s == on {
                    self.after_switch(on)
                } else {
                    (self.with_phase(Phase::Pressed(on)), ChargeAction::Send(pwr_button(true)))
                },
            },
            Phase::PowerRetry(on) => (
                self.with_phase(Phase::PowerQuery(on)),
                ChargeAction::Query(Query::PowerState),
            ),
            Phase::Pressed(on) => (
                self.with_phase(Phase::Held(on)),
                ChargeAction::Sleep(if on { HOLD_ON_SECS } else { HOLD_OFF_SECS }),
            ),
            Phase::Held(on) => (self.with_phase(Phase::Released(on)), ChargeAction::Send(pwr_button(false))),
            Phase::Released(on) => (self.with_phase(Phase::Settled(on)), ChargeAction::Sleep(SETTLE_SECS)),
            Phase::Settled(on) => (self.with_phase(Phase::Reported(on)), ChargeAction::Switched(on)),
            Phase::Reported(on) => self.after_switch(on),
            Phase::Started => self.loop_head(),
            Phase::Advanced => (self.with_phase(Phase::Waiting), ChargeAction::Sleep(CHARGE_POLL_SECS)),
            Phase::Waiting => (self.with_phase(Phase::Reading), ChargeAction::Query(Query::BatteryPercent)),
            Phase::Reading => match battery_event(ev) {
                None => (
                    self.with_phase(Phase::ReadingRetry),
                    ChargeAction::Retry(Query::BatteryPercent, BATTERY_RETRY_SECS),
                ),
                Some(p) => Charger { level: p, ..*self }.loop_head(),
            },
            Phase::ReadingRetry => (self.with_phase(Phase::Reading), ChargeAction::Query(Query::BatteryPercent)),
            Phase::Charged => self.poweron(),
            Phase::WallOff => (self.with_phase(Phase::Complete), ChargeAction::Finished),
            Phase::Complete => (*self, ChargeAction::Finished),
            Phase::Failed => (*self, ChargeAction::InvalidPowerState),
        }
    }

    /// Takes what the last action produced, moves to the next state and
    /// returns the next action.
    pub fn step(&mut self, ev: Event) -> (r: ChargeAction)
        ensures
            (*final(self), r) == charge_step(*old(self), ev),
    {
        let (c, a) = self.next(&ev);
        *self = c;
        a
    }
}

} // verus!
