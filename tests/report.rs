use pwrtest::report::{battery_validator, output_path, path_validator, run_test, time_to_string};
use pwrtest::session::{Conf, ConfError};

#[test]
fn elapsed_seconds_minutes_hours() {
    assert_eq!(time_to_string(45), "45.00s");
    assert_eq!(time_to_string(125), "2.08m");
    assert_eq!(time_to_string(7200), "2.00h");
}

#[test]
fn elapsed_boundaries() {
    assert_eq!(time_to_string(0), "0.00s");
    assert_eq!(time_to_string(59), "59.00s");
    assert_eq!(time_to_string(60), "1.00m");
    assert_eq!(time_to_string(3599), "59.98m");
    assert_eq!(time_to_string(3600), "1.00h");
    assert_eq!(time_to_string(5400), "1.50h");
    assert_eq!(time_to_string(90), "1.50m");
}

#[test]
fn elapsed_largest_duration() {
    let s = time_to_string(u64::MAX);
    assert!(s.ends_with('h'));
    assert!(s.starts_with("5124095576030431."));
}

#[test]
fn output_file_names() {
    assert_eq!(output_path("/out", 1, "A", "10.0.0.5"), "/out/test_no_1__A__10.0.0.5");
    assert_eq!(output_path("/out", 2, "B", "10.0.0.5"), "/out/test_no_2__B__10.0.0.5");
    assert_eq!(
        output_path("logs", 12, "power_Idle", "192.168.1.2"),
        "logs/test_no_12__power_Idle__192.168.1.2"
    );
}

#[test]
fn test_tool_arguments() {
    let args = run_test("caroline", "/src/autotest", "10.0.0.5", "power_Idle");
    assert_eq!(
        args,
        vec![
            "--board=caroline".to_string(),
            "--autotest_dir=/src/autotest".to_string(),
            "10.0.0.5".to_string(),
            "power_Idle".to_string(),
        ]
    );
}

#[test]
fn battery_values_on_the_command_line() {
    assert_eq!(battery_validator("0".to_string()), Ok(()));
    assert_eq!(battery_validator("100".to_string()), Ok(()));
    assert_eq!(battery_validator("55".to_string()), Ok(()));
    let msg = Err("not an integer between 0 and 100".to_string());
    assert_eq!(battery_validator("101".to_string()), msg);
    assert_eq!(battery_validator("-1".to_string()), msg);
    assert_eq!(battery_validator("abc".to_string()), msg);
    assert_eq!(battery_validator("".to_string()), msg);
}

#[test]
fn paths_on_the_command_line() {
    assert_eq!(path_validator(true), Ok(()));
    assert_eq!(path_validator(false), Err("invalid path".to_string()));
}

fn conf(from: i32, to: i32) -> Result<Conf, ConfError> {
    Conf::new(
        vec!["A".to_string()],
        from,
        to,
        "/at".to_string(),
        "/out".to_string(),
        "caroline".to_string(),
        "10.0.0.5".to_string(),
    )
}

#[test]
fn configuration_checks_the_band() {
    let c = conf(40, 60).unwrap();
    assert_eq!(c.charge_from, 40);
    assert_eq!(c.charge_to, 60);
    assert_eq!(c.tests, vec!["A".to_string()]);
    assert!(conf(50, 50).is_ok());
    assert!(matches!(conf(60, 40), Err(ConfError::FromAboveTo)));
    assert!(matches!(conf(-1, 40), Err(ConfError::OutOfRange)));
    assert!(matches!(conf(10, 101), Err(ConfError::OutOfRange)));
    assert_eq!(ConfError::FromAboveTo.message(), "charge_from is greater than charge_to");
    assert_eq!(ConfError::OutOfRange.message(), "charge level is not between 0 and 100");
}

fn conf_with(tests: Vec<String>) -> Result<Conf, ConfError> {
    Conf::new(
        tests,
        40,
        60,
        "/at".to_string(),
        "/out".to_string(),
        "caroline".to_string(),
        "10.0.0.5".to_string(),
    )
}

#[test]
fn configuration_needs_named_tests() {
    assert!(matches!(conf_with(Vec::new()), Err(ConfError::NoTests)));
    let names = vec!["A".to_string(), "".to_string(), "B".to_string()];
    assert!(matches!(conf_with(names), Err(ConfError::EmptyTestName)));
    assert!(conf_with(vec!["A".to_string(), "B".to_string()]).is_ok());
    assert_eq!(ConfError::NoTests.message(), "no test is named");
    assert_eq!(ConfError::EmptyTestName.message(), "a test name is empty");
}
