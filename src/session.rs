//! A test session: for each test in order, a charge check, the test run, the
//! saving of its output and the report of its time.
use vstd::prelude::*;
use vstd::string::*;
use crate::charge::{charge, charge_step, ChargeAction, Charger, Event, Phase};
use crate::report::{output_path, output_path_text};
use crate::telemetry::Query;

verus! {

/// Why a session configuration is refused.
#[derive(Clone, Copy, Debug, PartialEq, Eq, Structural)]
pub enum ConfError {
    /// A charge level lies outside 0..=100.
    OutOfRange,
    /// `charge_from` is greater than `charge_to`.
    FromAboveTo,
    /// No test is named.
    NoTests,
    /// A test name is empty.
    EmptyTestName,
}

impl ConfError {
    /// The message shown for this error.
    pub fn message(&self) -> (r: String)
        ensures
            *self == ConfError::OutOfRange ==> r@ == "charge level is not between 0 and 100"@,
            *self == ConfError::FromAboveTo ==> r@ == "charge_from is greater than charge_to"@,
            *self == ConfError::NoTests ==> r@ == "no test is named"@,
            *self == ConfError::EmptyTestName ==> r@ == "a test name is empty"@,
    {
        match self {
            ConfError::OutOfRange => String::from_str("charge level is not between 0 and 100"),
            ConfError::FromAboveTo => String::from_str("charge_from is greater than charge_to"),
            ConfError::NoTests => String::from_str("no test is named"),
            ConfError::EmptyTestName => String::from_str("a test name is empty"),
        }
    }
}

/// What a session runs, and where.
pub struct Conf {
    pub tests: Vec<String>,
    pub charge_from: i32,
    pub charge_to: i32,
    pub autotest_dir: String,
    pub out_dir: String,
    pub board: String,
    pub ip: String,
}

pub open spec fn in_percent_range(v: int) -> bool {
    0 <= v <= 100
}

/// Whether both charge levels are percentages and `from` is not above `to`.
pub open spec fn band_ok(from: i32, to: i32) -> bool {
    in_percent_range(from as int) && in_percent_range(to as int) && from <= to
}

/// Whether every test name is non-empty.
pub open spec fn all_named(tests: Seq<String>) -> bool {
    forall|i: int| 0 <= i < tests.len() ==> (#[trigger] tests[i])@.len() > 0
}

impl Conf {
    /// A configuration whose charge band is `charge_from..=charge_to`, both
    /// within 0..=100, over one or more tests with non-empty names.
    pub fn new(
        tests: Vec<String>,
        charge_from: i32,
        charge_to: i32,
        autotest_dir: String,
        out_dir: String,
        board: String,
        ip: String,
    ) -> (r: Result<Conf, ConfError>)
        ensures
            r is Ok <==> band_ok(charge_from, charge_to) && tests@.len() > 0 && all_named(tests@),
            r matches Err(e) ==> (e == ConfError::OutOfRange <==> !(in_percent_range(
                charge_from as int,
            ) && in_percent_range(charge_to as int))),
            r matches Err(e) ==> (e == ConfError::FromAboveTo <==> in_percent_range(
                charge_from as int,
            ) && in_percent_range(charge_to as int) && charge_from > charge_to),
            r matches Err(e) ==> (e == ConfError::NoTests <==> band_ok(charge_from, charge_to)
                && tests@.len() == 0),
            r matches Err(e) ==> (e == ConfError::EmptyTestName <==> band_ok(charge_from, charge_to)
                && tests@.len() > 0 && !all_named(tests@)),
            r matches Ok(c) ==> c.tests@ == tests@ && c.charge_from == charge_from && c.charge_to
                == charge_to && c.autotest_dir@ == autotest_dir@ && c.out_dir@ == out_dir@
                && c.board@ == board@ && c.ip@ == ip@,
    {
        if charge_from < 0 || charge_from > 100 || charge_to < 0 || charge_to > 100 {
            return Err(ConfError::OutOfRange);
        }
        if charge_from > charge_to {
            return Err(ConfError::FromAboveTo);
        }
        if tests.len() == 0 {
            return Err(ConfError::NoTests);
        }
        let mut i: usize = 0;
        while i < tests.len()
            invariant
                i <= tests@.len(),
                band_ok(charge_from, charge_to),
                tests@.len() > 0,
                forall|j: int| 0 <= j < i ==> (#[trigger] tests@[j])@.len() > 0,
            decreases tests@.len() - i,
        {
            if tests[i].as_str().unicode_len() == 0 {
                return Err(ConfError::EmptyTestName);
            }
            i = i + 1;
        }
        Ok(Conf { tests, charge_from, charge_to, autotest_dir, out_dir, board, ip })
    }

    /// The path of the file that keeps the output of the test of index
    /// `index` (from 0); the file's number counts from 1.
    pub fn output_file(&self, index: usize) -> (r: String)
        requires
            index < self.tests@.len(),
        ensures
            r@ == output_path_text(self.out_dir@, (index + 1) as nat, self.tests@[index as int]@, self.ip@),
    {
        let n = self.tests.len();
        assert(index + 1 <= n);
        output_path(self.out_dir.as_str(), (index + 1) as u64, self.tests[index].as_str(), self.ip.as_str())
    }
}

/// What the driver does next.
#[derive(Clone, Copy, Debug, PartialEq, Eq, Structural)]
pub enum SessionAction {
    /// An action of the charge check.
    Charge(ChargeAction),
    /// Run the test of this index (from 0); reply with its output.
    RunTest(usize),
    /// Save the output of the test of this index; acknowledge.
    Save(usize),
    /// Report the time the test of this index took; acknowledge.
    Report(usize),
    /// All tests ran: report the total time.
    Total,
}

#[derive(Clone, Copy, Debug, PartialEq, Eq, Structural)]
pub enum Stage {
    Charging,
    Running,
    Saving,
    Reporting,
    Done,
}

/// A session over `count` tests, at the test of index `index`.
#[derive(Clone, Copy, Debug, PartialEq, Eq, Structural)]
pub struct Session {
    pub count: usize,
    pub from: i32,
    pub to: i32,
    pub index: usize,
    pub stage: Stage,
    pub charger: Charger,
}

/// The charge check that starts before each test.
pub open spec fn fresh_charger(from: i32, to: i32) -> Charger {
    Charger { from, to, level: 0, shown: 0, phase: Phase::Check }
}

impl Session {
    pub open spec fn wf(&self) -> bool {
        &&& self.index <= self.count
        &&& self.stage != Stage::Done ==> self.index < self.count
    }
}

/// The next state and action of a session, given what the last action produced.
pub open spec fn session_step(s: Session, ev: Event) -> (Session, SessionAction) {
    match s.stage {
        Stage::Charging => {
            let (c, a) = charge_step(s.charger, ev);
            if a == ChargeAction::Finished {
                (Session { stage: Stage::Running, charger: c, ..s }, SessionAction::RunTest(s.index))
            } else {
                (Session { charger: c, ..s }, SessionAction::Charge(a))
            }
        },
        Stage::Running => (Session { stage: Stage::Saving, ..s }, SessionAction::Save(s.index)),
        Stage::Saving => (Session { stage: Stage::Reporting, ..s }, SessionAction::Report(s.index)),
        Stage::Reporting => if s.index + 1 < s.count {
            (
                Session {
                    index: (s.index + 1) as usize,
                    stage: Stage::Charging,
                    charger: fresh_charger(s.from, s.to),
                    ..s
                },
                SessionAction::Charge(ChargeAction::Query(Query::BatteryPercent)),
            )
        } else {
            (Session { index: (s.index + 1) as usize, stage: Stage::Done, ..s }, SessionAction::Total)
        },
        Stage::Done => (s, SessionAction::Total),
    }
}

impl Session {
    /// Starts a session over the tests of `conf`: it begins with the charge
    /// check of the first test, or ends at once when there is none.
    pub fn new(conf: &Conf) -> (r: (Session, SessionAction))
        ensures
            r.0.wf(),
            r.0.count == conf.tests@.len(),
            r.0.from == conf.charge_from,
            r.0.to == conf.charge_to,
            r.0.index == 0,
            r.0.charger == fresh_charger(conf.charge_from, conf.charge_to),
            conf.tests@.len() == 0 ==> r.0.stage == Stage::Done && r.1 == SessionAction::Total,
            conf.tests@.len() > 0 ==> r.0.stage == Stage::Charging && r.1 == SessionAction::Charge(
                ChargeAction::Query(Query::BatteryPercent),
            ),
    {
        let (c, a) = charge(conf.charge_from, conf.charge_to);
        let count = conf.tests.len();
        if count == 0 {
            (
                Session { count, from: conf.charge_from, to: conf.charge_to, index: 0, stage: Stage::Done, charger: c },
                SessionAction::Total,
            )
        } else {
            (
                Session { count, from: conf.charge_from, to: conf.charge_to, index: 0, stage: Stage::Charging, charger: c },
                SessionAction::Charge(a),
            )
        }
    }

    /// Takes what the last action produced, moves to the next state and
    /// returns the next action.
    pub fn step(&mut self, ev: Event) -> (r: SessionAction)
        requires
            old(self).wf(),
        ensures
            final(self).wf(),
            (*final(self), r) == session_step(*old(self), ev),
    {
        match self.stage {
            Stage::Charging => {
                let a = self.charger.step(ev);
                if a == ChargeAction::Finished {
                    self.stage = Stage::Running;
                    SessionAction::RunTest(self.index)
                } else {
                    SessionAction::Charge(a)
                }
            },
            Stage::Running => {
                self.stage = Stage::Saving;
                SessionAction::Save(self.index)
            },
            Stage::Saving => {
                self.stage = Stage::Reporting;
                SessionAction::Report(self.index)
            },
            Stage::Reporting => {
                self.index = self.index + 1;
                if self.index < self.count {
                    let (c, a) = charge(self.from, self.to);
                    self.stage = Stage::Charging;
                    self.charger = c;
                    SessionAction::Charge(a)
                } else {
                    self.stage = Stage::Done;
                    SessionAction::Total
                }
            },
            Stage::Done => SessionAction::Total,
        }
    }

    /// Whether the session is over.
    pub fn is_done(&self) -> (r: bool)
        ensures
            r == (self.stage == Stage::Done),
    {
        self.stage == Stage::Done
    }
}

} // verus!
