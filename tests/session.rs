use pwrtest::charge::{ChargeAction, Event};
use pwrtest::report::run_test;
use pwrtest::session::{Conf, Session, SessionAction};
use pwrtest::telemetry::Query;

/// Drives a session against a device whose battery stays at `level`, with a
/// test tool that echoes its arguments, and records what would be written.
fn drive(conf: &Conf, level: i32) -> (Vec<(String, String)>, Vec<String>) {
    let (mut s, mut a) = Session::new(conf);
    let mut files: Vec<(String, String)> = Vec::new();
    let mut log: Vec<String> = Vec::new();
    let mut last_output = String::new();
    for _ in 0..1000 {
        let ev = match a {
            SessionAction::Charge(ChargeAction::Query(Query::BatteryPercent)) => {
                log.push("battery".to_string());
                Event::Output(format!("battery_charge_percent:{}\n", level))
            }
            SessionAction::Charge(ChargeAction::Query(Query::PowerState)) => {
                Event::Output("ec_system_powerstate:S0\n".to_string())
            }
            SessionAction::Charge(ChargeAction::Finished) => panic!("finished leaks out"),
            SessionAction::Charge(_) => Event::Ack,
            SessionAction::RunTest(i) => {
                let t = &conf.tests[i];
                log.push(format!("run {}", t));
                last_output = run_test(&conf.board, &conf.autotest_dir, &conf.ip, t).join(" ");
                Event::Output(last_output.clone())
            }
            SessionAction::Save(i) => {
                let path = conf.output_file(i);
                files.push((path, last_output.clone()));
                Event::Ack
            }
            SessionAction::Report(_) => Event::Ack,
            SessionAction::Total => break,
        };
        a = s.step(ev);
    }
    assert!(s.is_done());
    (files, log)
}

fn conf(tests: &[&str]) -> Conf {
    Conf::new(
        tests.iter().map(|t| t.to_string()).collect(),
        50,
        60,
        "/at".to_string(),
        "/out".to_string(),
        "caroline".to_string(),
        "10.0.0.5".to_string(),
    )
    .unwrap()
}

#[test]
fn two_tests_named_files_in_order() {
    let (files, log) = drive(&conf(&["A", "B"]), 90);
    assert_eq!(
        files,
        vec![
            (
                "/out/test_no_1__A__10.0.0.5".to_string(),
                "--board=caroline --autotest_dir=/at 10.0.0.5 A".to_string()
            ),
            (
                "/out/test_no_2__B__10.0.0.5".to_string(),
                "--board=caroline --autotest_dir=/at 10.0.0.5 B".to_string()
            ),
        ]
    );
    assert_eq!(log, vec!["battery", "run A", "battery", "run B"]);
}

#[test]
fn no_tests_ends_at_once() {
    let c = Conf {
        tests: Vec::new(),
        charge_from: 50,
        charge_to: 60,
        autotest_dir: "/at".to_string(),
        out_dir: "/out".to_string(),
        board: "caroline".to_string(),
        ip: "10.0.0.5".to_string(),
    };
    let (s, a) = Session::new(&c);
    assert_eq!(a, SessionAction::Total);
    assert!(s.is_done());
}

#[test]
fn unknown_power_state_ends_the_session() {
    let c = conf(&["A", "B"]);
    let (mut s, _) = Session::new(&c);
    assert_eq!(
        s.step(Event::Output("battery_charge_percent:10\n".to_string())),
        SessionAction::Charge(ChargeAction::Send(pwrtest::telemetry::Command::WallPowerOn))
    );
    assert_eq!(s.step(Event::Ack), SessionAction::Charge(ChargeAction::Query(Query::PowerState)));
    assert_eq!(
        s.step(Event::Output("ec_system_powerstate:X\n".to_string())),
        SessionAction::Charge(ChargeAction::InvalidPowerState)
    );
    for _ in 0..5 {
        assert_eq!(s.step(Event::Ack), SessionAction::Charge(ChargeAction::InvalidPowerState));
    }
}

#[test]
fn output_files_count_from_one() {
    let c = conf(&["A", "B"]);
    assert_eq!(c.output_file(0), "/out/test_no_1__A__10.0.0.5");
    assert_eq!(c.output_file(1), "/out/test_no_2__B__10.0.0.5");
}
