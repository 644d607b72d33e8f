//! What the control tool's replies mean, and the commands sent to it.
use vstd::prelude::*;
use vstd::string::*;
use crate::text::{int_value, parse_int, reply_field, reply_value};

verus! {

/// A value that the control tool reports.
#[derive(Clone, Copy, Debug, PartialEq, Eq, Structural)]
pub enum Query {
    BatteryPercent,
    PowerState,
}

/// A command that the control tool carries out without a reply.
#[derive(Clone, Copy, Debug, PartialEq, Eq, Structural)]
pub enum Command {
    PowerButtonPress,
    PowerButtonRelease,
    WallPowerOn,
    WallPowerOff,
}

pub open spec fn query_arg(q: Query) -> Seq<char> {
    match q {
        Query::BatteryPercent => "battery_charge_percent"@,
        Query::PowerState => "ec_system_powerstate"@,
    }
}

pub open spec fn command_arg(c: Command) -> Seq<char> {
    match c {
        Command::PowerButtonPress => "pwr_button:press"@,
        Command::PowerButtonRelease => "pwr_button:release"@,
        Command::WallPowerOn => "servo_v4_role:src"@,
        Command::WallPowerOff => "servo_v4_role:snk"@,
    }
}

impl Query {
    /// The control tool's argument for this query.
    pub fn arg(&self) -> (r: &'static str)
        ensures
            r@ == query_arg(*self),
    {
        match self {
            Query::BatteryPercent => "battery_charge_percent",
            Query::PowerState => "ec_system_powerstate",
        }
    }
}

impl Command {
    /// The control tool's argument for this command.
    pub fn arg(&self) -> (r: &'static str)
        ensures
            r@ == command_arg(*self),
    {
        match self {
            Command::PowerButtonPress => "pwr_button:press",
            Command::PowerButtonRelease => "pwr_button:release",
            Command::WallPowerOn => "servo_v4_role:src",
            Command::WallPowerOff => "servo_v4_role:snk",
        }
    }
}

/// The command that presses (`true`) or releases (`false`) the power button.
pub fn pwr_button(enable: bool) -> (r: Command)
    ensures
        r == (if enable { Command::PowerButtonPress } else { Command::PowerButtonRelease }),
{
    if enable {
        Command::PowerButtonPress
    } else {
        Command::PowerButtonRelease
    }
}

/// The command that switches external power to source (`true`) or sink (`false`).
pub fn wallpower(enable: bool) -> (r: Command)
    ensures
        r == (if enable { Command::WallPowerOn } else { Command::WallPowerOff }),
{
    if enable {
        Command::WallPowerOn
    } else {
        Command::WallPowerOff
    }
}

/// The battery percentage in a reply; `None` when the reply is malformed.
pub open spec fn battery_reading(reply: Seq<char>) -> Option<int> {
    match reply_value(reply) {
        Some(v) => int_value(v),
        None => None,
    }
}

/// Whether a power-state value means on (`S...`) or off (`G...`); `None` for
/// any other value.
pub open spec fn power_code(v: Seq<char>) -> Option<bool> {
    if v.len() > 0 && v[0] == 'S' {
        Some(true)
    } else if v.len() > 0 && v[0] == 'G' {
        Some(false)
    } else {
        None
    }
}

/// The power state in a reply: `None` when the reply is malformed (no value,
/// or an empty one), `Some(None)` when its value is not a known state.
pub open spec fn power_reading(reply: Seq<char>) -> Option<Option<bool>> {
    match reply_value(reply) {
        Some(v) => if v.len() == 0 {
            None
        } else {
            Some(power_code(v))
        },
        None => None,
    }
}

/// The battery percentage in a reply to the battery query.
pub fn battery_pct_try(reply: &str) -> (r: Option<i32>)
    ensures
        r matches Some(p) ==> battery_reading(reply@) == Some(p as int),
        r is None ==> battery_reading(reply@) is None,
{
    match reply_field(reply) {
        Some(v) => parse_int(v.as_str()),
        None => None,
    }
}

/// The value in a reply to the power-state query; `None` when the reply
/// holds no value or an empty one.
pub fn powerstate_try(reply: &str) -> (r: Option<String>)
    ensures
        r matches Some(v) ==> reply_value(reply@) == Some(v@) && v@.len() > 0,
        r is None <==> (reply_value(reply@) is None || reply_value(reply@)->0.len() == 0),
{
    match reply_field(reply) {
        Some(v) => if v.as_str().unicode_len() == 0 {
            None
        } else {
            Some(v)
        },
        None => None,
    }
}

/// Whether a power-state value means on; `None` when it is neither on nor off.
pub fn powered_on(state: &str) -> (r: Option<bool>)
    ensures
        r == power_code(state@),
{
    let n = state.unicode_len();
    if n == 0 {
        return None;
    }
    let c = state.get_char(0);
    if c == 'S' {
        Some(true)
    } else if c == 'G' {
        Some(false)
    } else {
        None
    }
}

/// The power state in a reply to the power-state query.
pub fn power_reading_of(reply: &str) -> (r: Option<Option<bool>>)
    ensures
        r == power_reading(reply@),
{
    match powerstate_try(reply) {
        Some(v) => Some(powered_on(v.as_str())),
        None => None,
    }
}

} // verus!
