use pwrtest::telemetry::{
    battery_pct_try, power_reading_of, powered_on, powerstate_try, pwr_button, wallpower, Command,
    Query,
};
use pwrtest::text::{parse_int, push_decimal, reply_field};

#[test]
fn battery_reply_reads_percentage() {
    assert_eq!(battery_pct_try("battery_charge_percent:37\n"), Some(37));
    assert_eq!(battery_pct_try("battery_charge_percent:37\n"), Some(37));
}

#[test]
fn battery_reply_every_valid_percentage() {
    for p in 0..=100 {
        let reply = format!("battery_charge_percent:{}\n", p);
        assert_eq!(battery_pct_try(&reply), Some(p));
    }
}

#[test]
fn battery_reply_malformed() {
    assert_eq!(battery_pct_try("battery_charge_percent"), None);
    assert_eq!(battery_pct_try(""), None);
    assert_eq!(battery_pct_try("battery_charge_percent:\n"), None);
    assert_eq!(battery_pct_try("battery_charge_percent:abc\n"), None);
    assert_eq!(battery_pct_try("battery_charge_percent:3 7\n"), None);
}

#[test]
fn battery_reply_without_newline() {
    assert_eq!(battery_pct_try("battery_charge_percent:42"), Some(42));
}

#[test]
fn battery_reply_stops_at_second_colon() {
    assert_eq!(battery_pct_try("battery_charge_percent:42:7\n"), Some(42));
}

#[test]
fn parse_int_signs_and_limits() {
    assert_eq!(parse_int("0"), Some(0));
    assert_eq!(parse_int("+12"), Some(12));
    assert_eq!(parse_int("-12"), Some(-12));
    assert_eq!(parse_int("007"), Some(7));
    assert_eq!(parse_int("2147483647"), Some(i32::MAX));
    assert_eq!(parse_int("-2147483648"), Some(i32::MIN));
    assert_eq!(parse_int("2147483648"), None);
    assert_eq!(parse_int("-2147483649"), None);
    assert_eq!(parse_int("99999999999999999999"), None);
    assert_eq!(parse_int("-"), None);
    assert_eq!(parse_int("+"), None);
    assert_eq!(parse_int(""), None);
    assert_eq!(parse_int("1x"), None);
}

#[test]
fn reply_field_strips_one_newline() {
    assert_eq!(reply_field("ec_system_powerstate:S0\n"), Some("S0".to_string()));
    assert_eq!(reply_field("key:value"), Some("value".to_string()));
    assert_eq!(reply_field("key:\n\n"), Some("\n".to_string()));
    assert_eq!(reply_field("no colon"), None);
}

#[test]
fn push_decimal_writes_digits() {
    let mut s = String::from("n=");
    push_decimal(&mut s, 0);
    assert_eq!(s, "n=0");
    let mut t = String::new();
    push_decimal(&mut t, 1234567890);
    assert_eq!(t, "1234567890");
}

#[test]
fn power_state_codes() {
    assert_eq!(powered_on("S0"), Some(true));
    assert_eq!(powered_on("G3"), Some(false));
    assert_eq!(powered_on("X"), None);
    assert_eq!(powered_on(""), None);
    assert_eq!(powerstate_try("ec_system_powerstate:S0\n"), Some("S0".to_string()));
    assert_eq!(powerstate_try("garbage"), None);
}

#[test]
fn power_reading_of_replies() {
    assert_eq!(power_reading_of("ec_system_powerstate:S0\n"), Some(Some(true)));
    assert_eq!(power_reading_of("ec_system_powerstate:G3\n"), Some(Some(false)));
    assert_eq!(power_reading_of("ec_system_powerstate:X\n"), Some(None));
    assert_eq!(power_reading_of("timeout"), None);
}

#[test]
fn control_tool_arguments() {
    assert_eq!(Query::BatteryPercent.arg(), "battery_charge_percent");
    assert_eq!(Query::PowerState.arg(), "ec_system_powerstate");
    assert_eq!(pwr_button(true), Command::PowerButtonPress);
    assert_eq!(pwr_button(false), Command::PowerButtonRelease);
    assert_eq!(wallpower(true), Command::WallPowerOn);
    assert_eq!(wallpower(false), Command::WallPowerOff);
    assert_eq!(Command::PowerButtonPress.arg(), "pwr_button:press");
    assert_eq!(Command::PowerButtonRelease.arg(), "pwr_button:release");
    assert_eq!(Command::WallPowerOn.arg(), "servo_v4_role:src");
    assert_eq!(Command::WallPowerOff.arg(), "servo_v4_role:snk");
}

#[test]
fn empty_power_state_value_is_malformed() {
    assert_eq!(powerstate_try("ec_system_powerstate:"), None);
    assert_eq!(powerstate_try("ec_system_powerstate:\n"), None);
    assert_eq!(power_reading_of("ec_system_powerstate:"), None);
    assert_eq!(power_reading_of("ec_system_powerstate:\n"), None);
}
