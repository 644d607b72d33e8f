//! Properties of whole charge checks: what a sequence of events makes the
//! charge check do, failed probes and their retries included.
use vstd::prelude::*;
use crate::charge::{after_switch, battery_of, charge_step, power_of, ChargeAction, Charger, Event, Phase};
use crate::laws::is_button_action;
use crate::telemetry::{Command, Query};

verus! {

/// The state reached, and the actions issued, when the events are handed to
/// the charge check one after the other.
pub open spec fn run(c: Charger, evs: Seq<Event>) -> (Charger, Seq<ChargeAction>)
    decreases evs.len(),
{
    if evs.len() == 0 {
        (c, Seq::empty())
    } else {
        let (c1, a) = charge_step(c, evs[0]);
        let (cn, tr) = run(c1, evs.drop_first());
        (cn, seq![a] + tr)
    }
}

/// The query that a probe sent in phase `p` makes.
pub open spec fn probe_query(p: Phase) -> Query {
    match p {
        Phase::PowerQuery(_) => Query::PowerState,
        _ => Query::BatteryPercent,
    }
}

/// The retry that follows a failed probe sent in phase `p`.
pub open spec fn retry_action(p: Phase) -> ChargeAction {
    match p {
        Phase::PowerQuery(_) => ChargeAction::Retry(Query::PowerState, 10),
        _ => ChargeAction::Retry(Query::BatteryPercent, 30),
    }
}

/// Whether `ev`, answering a probe sent in phase `p`, carries no readable value.
pub open spec fn probe_failed(p: Phase, ev: Event) -> bool {
    match p {
        Phase::Check => battery_of(ev) is None,
        Phase::Reading => battery_of(ev) is None,
        Phase::PowerQuery(_) => power_of(ev) is None,
        _ => false,
    }
}

/// Pairs of events: a reply that fails the probe of phase `p`, then the end
/// of the retry wait.
pub open spec fn failed_probes(p: Phase, evs: Seq<Event>) -> bool
    decreases evs.len(),
{
    if evs.len() == 0 {
        true
    } else {
        evs.len() >= 2 && probe_failed(p, evs[0]) && failed_probes(p, evs.subrange(2, evs.len() as int))
    }
}

/// The actions of `k` failed probes of phase `p`: each time a retry notice
/// with its wait, then the query again.
pub open spec fn retry_trace(p: Phase, k: nat) -> Seq<ChargeAction>
    decreases k,
{
    if k == 0 {
        Seq::empty()
    } else {
        seq![retry_action(p), ChargeAction::Query(probe_query(p))] + retry_trace(p, (k - 1) as nat)
    }
}

/// The actions that bring the device into state `on` when it reported `s`:
/// none if it is there already, else press, hold, release, settle, report.
pub open spec fn switch_trace(on: bool, s: bool) -> Seq<ChargeAction> {
    if s == on {
        Seq::empty()
    } else {
        seq![
            ChargeAction::Send(Command::PowerButtonPress),
            ChargeAction::Sleep(if on { 1 } else { 3 }),
            ChargeAction::Send(Command::PowerButtonRelease),
            ChargeAction::Sleep(10),
            ChargeAction::Switched(on),
        ]
    }
}

pub open spec fn constant_trace(a: ChargeAction, n: nat) -> Seq<ChargeAction> {
    Seq::new(n, |i: int| a)
}

/// Running events one after the other is running the first part, then the
/// second from where the first ended.
pub proof fn lemma_run_append(c: Charger, a: Seq<Event>, b: Seq<Event>)
    ensures
        run(c, a + b).0 == run(run(c, a).0, b).0,
        run(c, a + b).1 == run(c, a).1 + run(run(c, a).0, b).1,
    decreases a.len(),
{
    if a.len() == 0 {
        assert(a + b =~= b);
        assert(run(c, a).1 + run(c, b).1 =~= run(c, b).1);
    } else {
        let (c1, x) = charge_step(c, a[0]);
        lemma_run_append(c1, a.drop_first(), b);
        assert((a + b).drop_first() =~= a.drop_first() + b);
        assert((a + b)[0] == a[0]);
        assert(seq![x] + (run(c1, a.drop_first()).1 + run(run(c1, a.drop_first()).0, b).1) =~= (
        seq![x] + run(c1, a.drop_first()).1) + run(run(c1, a.drop_first()).0, b).1);
    }
}

proof fn lemma_run_one(c: Charger, ev: Event)
    ensures
        run(c, seq![ev]) == (charge_step(c, ev).0, seq![charge_step(c, ev).1]),
{
    let (c1, a) = charge_step(c, ev);
    assert(seq![ev].drop_first() =~= Seq::<Event>::empty());
    assert(run(c1, seq![ev].drop_first()) == run(c1, Seq::<Event>::empty()));
    assert(seq![a] + run(c1, Seq::<Event>::empty()).1 =~= seq![a]);
}

/// Failed probes and their retries leave the check where it was, and issue
/// exactly one retry notice and one new query each.
pub proof fn lemma_failed_probes(c: Charger, evs: Seq<Event>)
    requires
        c.phase == Phase::Check || c.phase == Phase::Reading || c.phase is PowerQuery,
        failed_probes(c.phase, evs),
    ensures
        evs.len() % 2 == 0,
        run(c, evs) == (c, retry_trace(c.phase, (evs.len() / 2) as nat)),
    decreases evs.len(),
{
    if evs.len() > 0 {
        let rest = evs.subrange(2, evs.len() as int);
        lemma_failed_probes(c, rest);
        let (c1, a1) = charge_step(c, evs[0]);
        let (c2, a2) = charge_step(c1, evs[1]);
        assert(c2 == c);
        assert(a1 == retry_action(c.phase));
        assert(a2 == ChargeAction::Query(probe_query(c.phase)));
        assert(evs =~= seq![evs[0], evs[1]] + rest);
        assert(seq![evs[0], evs[1]] =~= seq![evs[0]] + seq![evs[1]]);
        lemma_run_append(c, seq![evs[0], evs[1]], rest);
        lemma_run_append(c, seq![evs[0]], seq![evs[1]]);
        lemma_run_one(c, evs[0]);
        lemma_run_one(c1, evs[1]);
        assert(seq![a1] + seq![a2] =~= seq![a1, a2]);
        assert(((evs.len() / 2) as nat - 1) as nat == (rest.len() / 2) as nat);
    }
}

/// Once the check has switched external power off, every later step reports
/// it as finished.
pub proof fn lemma_finishing(c: Charger, evs: Seq<Event>)
    requires
        c.phase == Phase::WallOff || c.phase == Phase::Complete,
    ensures
        run(c, evs).1 == constant_trace(ChargeAction::Finished, evs.len()),
        evs.len() > 0 ==> run(c, evs).0.phase == Phase::Complete,
        evs.len() == 0 ==> run(c, evs).0 == c,
    decreases evs.len(),
{
    if evs.len() > 0 {
        let (c1, a) = charge_step(c, evs[0]);
        lemma_finishing(c1, evs.drop_first());
        assert(seq![a] + constant_trace(ChargeAction::Finished, (evs.len() - 1) as nat)
            =~= constant_trace(ChargeAction::Finished, evs.len()));
    }
}

/// After an unknown power state, every step repeats the failure.
pub proof fn lemma_failed_absorbs(c: Charger, evs: Seq<Event>)
    requires
        c.phase == Phase::Failed,
    ensures
        run(c, evs) == (c, constant_trace(ChargeAction::InvalidPowerState, evs.len())),
    decreases evs.len(),
{
    if evs.len() > 0 {
        lemma_failed_absorbs(c, evs.drop_first());
        assert(seq![ChargeAction::InvalidPowerState] + constant_trace(
            ChargeAction::InvalidPowerState,
            (evs.len() - 1) as nat,
        ) =~= constant_trace(ChargeAction::InvalidPowerState, evs.len()));
    }
}

pub proof fn lemma_retry_trace_actions(p: Phase, k: nat)
    ensures
        retry_trace(p, k).len() == 2 * k,
        forall|i: int| 0 <= i < retry_trace(p, k).len() ==> #[trigger] retry_trace(p, k)[i]
            == retry_action(p) || retry_trace(p, k)[i] == ChargeAction::Query(probe_query(p)),
    decreases k,
{
    if k > 0 {
        lemma_retry_trace_actions(p, (k - 1) as nat);
        let t = retry_trace(p, k);
        let r = retry_trace(p, (k - 1) as nat);
        assert forall|i: int| 0 <= i < t.len() implies #[trigger] t[i] == retry_action(p) || t[i]
            == ChargeAction::Query(probe_query(p)) by {
            if i >= 2 {
                assert(t[i] == r[i - 2]);
            }
        }
    }
}

/// A first readable battery level at or above `from`, after any failed
/// probes, ends the check with no power-button action, no power-state query
/// and no external power: external power is switched off, and every later
/// step reports the check as finished.
pub proof fn lemma_charged_enough_run(c: Charger, retries: Seq<Event>, ev: Event, rest: Seq<Event>)
    requires
        c.phase == Phase::Check,
        failed_probes(Phase::Check, retries),
        battery_of(ev) matches Some(p) && p >= c.from,
    ensures
        run(c, retries + seq![ev] + rest).1 == retry_trace(Phase::Check, (retries.len() / 2) as nat)
            + seq![ChargeAction::Send(Command::WallPowerOff)] + constant_trace(
            ChargeAction::Finished,
            rest.len(),
        ),
        forall|i: int| 0 <= i < run(c, retries + seq![ev] + rest).1.len() ==> {
            let a = #[trigger] run(c, retries + seq![ev] + rest).1[i];
            !is_button_action(a) && a != ChargeAction::Query(Query::PowerState) && a != ChargeAction::Send(
                Command::WallPowerOn,
            )
        },
{
    lemma_failed_probes(c, retries);
    lemma_run_append(c, retries + seq![ev], rest);
    lemma_run_append(c, retries, seq![ev]);
    lemma_run_one(c, ev);
    let w = charge_step(c, ev).0;
    lemma_finishing(w, rest);
    let k = (retries.len() / 2) as nat;
    lemma_retry_trace_actions(Phase::Check, k);
    let t = run(c, retries + seq![ev] + rest).1;
    assert forall|i: int| 0 <= i < t.len() implies {
        let a = #[trigger] t[i];
        !is_button_action(a) && a != ChargeAction::Query(Query::PowerState) && a != ChargeAction::Send(
            Command::WallPowerOn,
        )
    } by {
        if i < 2 * k {
            assert(t[i] == retry_trace(Phase::Check, k)[i]);
        } else if i > 2 * k {
            assert(t[i] == constant_trace(ChargeAction::Finished, rest.len())[i - 2 * k - 1]);
        }
    }
}

proof fn lemma_press_run(c: Charger, on: bool, tail: Seq<Event>)
    requires
        c.phase == Phase::Pressed(on),
        tail.len() == 5,
    ensures
        run(c, tail) == (
            after_switch(c, on).0,
            seq![
                ChargeAction::Sleep(if on { 1 } else { 3 }),
                ChargeAction::Send(Command::PowerButtonRelease),
                ChargeAction::Sleep(10),
                ChargeAction::Switched(on),
                after_switch(c, on).1,
            ],
        ),
{
    let t1 = tail.drop_first();
    let t2 = t1.drop_first();
    let t3 = t2.drop_first();
    let t4 = t3.drop_first();
    let t5 = t4.drop_first();
    let c1 = charge_step(c, tail[0]).0;
    let c2 = charge_step(c1, t1[0]).0;
    let c3 = charge_step(c2, t2[0]).0;
    let c4 = charge_step(c3, t3[0]).0;
    let c5 = charge_step(c4, t4[0]).0;
    assert(t5 =~= Seq::<Event>::empty());
    assert(run(c5, t5) == (c5, Seq::<ChargeAction>::empty()));
    assert(c5 == after_switch(c, on).0);
    let r4 = run(c4, t4);
    assert(r4.1 =~= seq![after_switch(c, on).1]);
    let r3 = run(c3, t3);
    assert(r3.1 =~= seq![ChargeAction::Switched(on), after_switch(c, on).1]);
    let r2 = run(c2, t2);
    assert(r2.1 =~= seq![ChargeAction::Sleep(10), ChargeAction::Switched(on), after_switch(c, on).1]);
    let r1 = run(c1, t1);
    assert(r1.1 =~= seq![
        ChargeAction::Send(Command::PowerButtonRelease),
        ChargeAction::Sleep(10),
        ChargeAction::Switched(on),
        after_switch(c, on).1,
    ]);
    assert(run(c, tail).1 =~= seq![
        ChargeAction::Sleep(if on { 1 } else { 3 }),
        ChargeAction::Send(Command::PowerButtonRelease),
        ChargeAction::Sleep(10),
        ChargeAction::Switched(on),
        after_switch(c, on).1,
    ]);
}

/// Bringing the device into state `on`: after any failed probes, a reply
/// that it is already there issues no button action; a reply that it is in
/// the other state issues press, hold, release, settle and report; then the
/// check moves on.
pub proof fn lemma_switch_run(c: Charger, on: bool, r: Seq<Event>, ev: Event, s: bool, tail: Seq<Event>)
    requires
        c.phase == Phase::PowerQuery(on),
        failed_probes(c.phase, r),
        power_of(ev) == Some(Some(s)),
        tail.len() == (if s == on { 0nat } else { 5nat }),
    ensures
        run(c, r + seq![ev] + tail) == (
            after_switch(c, on).0,
            retry_trace(c.phase, (r.len() / 2) as nat) + switch_trace(on, s) + seq![after_switch(c, on).1],
        ),
{
    lemma_failed_probes(c, r);
    lemma_run_append(c, r + seq![ev], tail);
    lemma_run_append(c, r, seq![ev]);
    lemma_run_one(c, ev);
    let (c1, a1) = charge_step(c, ev);
    if s == on {
        assert(tail =~= Seq::<Event>::empty());
        assert(switch_trace(on, s) + seq![a1] =~= seq![a1]);
    } else {
        lemma_press_run(c1, on, tail);
        let t = run(c1, tail).1;
        assert(seq![a1] + t =~= switch_trace(on, s) + seq![after_switch(c, on).1]);
    }
    assert(retry_trace(c.phase, (r.len() / 2) as nat) + seq![a1] + run(c1, tail).1 =~= retry_trace(
        c.phase,
        (r.len() / 2) as nat,
    ) + (seq![a1] + run(c1, tail).1));
}

/// The events of a check that finds the battery low: failed battery probes,
/// the reading, the end of switching external power on, failed power-state
/// probes, the power-state reply, and what follows.
pub open spec fn low_events(
    r1: Seq<Event>,
    ev0: Event,
    ack: Event,
    r2: Seq<Event>,
    ev: Event,
    rest: Seq<Event>,
) -> Seq<Event> {
    r1 + seq![ev0, ack] + r2 + seq![ev] + rest
}

/// The check after a first readable battery level `p` below `from`, with
/// external power switched on, on the way to switching the device off.
pub open spec fn low_start(c: Charger, p: int) -> Charger {
    Charger { phase: Phase::PowerQuery(false), level: p as i32, shown: p as i32, ..c }
}

proof fn lemma_low_start(c: Charger, r1: Seq<Event>, ev0: Event, p: int, ack: Event)
    requires
        c.phase == Phase::Check,
        failed_probes(Phase::Check, r1),
        battery_of(ev0) == Some(p),
        p < c.from,
    ensures
        run(c, r1 + seq![ev0, ack]) == (
            low_start(c, p),
            retry_trace(Phase::Check, (r1.len() / 2) as nat) + seq![
                ChargeAction::Send(Command::WallPowerOn),
                ChargeAction::Query(Query::PowerState),
            ],
        ),
{
    lemma_failed_probes(c, r1);
    lemma_run_append(c, r1, seq![ev0, ack]);
    reveal_with_fuel(run, 3);
    assert(seq![ev0, ack].drop_first().drop_first() =~= Seq::<Event>::empty());
    assert(run(c, seq![ev0, ack]).1 =~= seq![
        ChargeAction::Send(Command::WallPowerOn),
        ChargeAction::Query(Query::PowerState),
    ]);
}

/// A first readable battery level `p` below `from`, after any failed probes,
/// switches external power on and drives the device off before charging
/// starts: a press and release come exactly when the device reports on.
pub proof fn lemma_low_battery_run(
    c: Charger,
    r1: Seq<Event>,
    ev0: Event,
    p: int,
    ack: Event,
    r2: Seq<Event>,
    evp: Event,
    s: bool,
    tail: Seq<Event>,
)
    requires
        c.phase == Phase::Check,
        failed_probes(Phase::Check, r1),
        battery_of(ev0) == Some(p),
        p < c.from,
        failed_probes(Phase::PowerQuery(false), r2),
        power_of(evp) == Some(Some(s)),
        tail.len() == (if s { 5nat } else { 0nat }),
    ensures
        run(c, r1 + seq![ev0, ack] + r2 + seq![evp] + tail) == (
            Charger { phase: Phase::Started, ..low_start(c, p) },
            retry_trace(Phase::Check, (r1.len() / 2) as nat) + seq![
                ChargeAction::Send(Command::WallPowerOn),
                ChargeAction::Query(Query::PowerState),
            ] + retry_trace(Phase::PowerQuery(false), (r2.len() / 2) as nat) + switch_trace(false, s)
                + seq![ChargeAction::ChargingStarted { from: c.from, level: p as i32, to: c.to }],
        ),
{
    let x = r1 + seq![ev0, ack];
    let y = r2 + seq![evp] + tail;
    assert(r1 + seq![ev0, ack] + r2 + seq![evp] + tail =~= x + y);
    lemma_run_append(c, x, y);
    lemma_low_start(c, r1, ev0, p, ack);
    let lo = low_start(c, p);
    lemma_switch_run(lo, false, r2, evp, s, tail);
    let t1 = retry_trace(Phase::Check, (r1.len() / 2) as nat) + seq![
        ChargeAction::Send(Command::WallPowerOn),
        ChargeAction::Query(Query::PowerState),
    ];
    let t2 = retry_trace(Phase::PowerQuery(false), (r2.len() / 2) as nat) + switch_trace(false, s)
        + seq![after_switch(lo, false).1];
    assert(t1 + t2 =~= t1 + retry_trace(Phase::PowerQuery(false), (r2.len() / 2) as nat)
        + switch_trace(false, s) + seq![after_switch(lo, false).1]);
}

/// An unknown power state, after a low battery level and any failed probes,
/// stops the check: no button action, no further battery query and no
/// external-power command follow, and every later step repeats the failure.
pub proof fn lemma_unknown_state_run(
    c: Charger,
    r1: Seq<Event>,
    ev0: Event,
    p: int,
    ack: Event,
    r2: Seq<Event>,
    evx: Event,
    rest: Seq<Event>,
)
    requires
        c.phase == Phase::Check,
        failed_probes(Phase::Check, r1),
        battery_of(ev0) == Some(p),
        p < c.from,
        failed_probes(Phase::PowerQuery(false), r2),
        power_of(evx) == Some(None::<bool>),
    ensures
        run(c, low_events(r1, ev0, ack, r2, evx, rest)).1 == retry_trace(
            Phase::Check,
            (r1.len() / 2) as nat,
        ) + seq![ChargeAction::Send(Command::WallPowerOn), ChargeAction::Query(Query::PowerState)]
            + retry_trace(Phase::PowerQuery(false), (r2.len() / 2) as nat) + constant_trace(
            ChargeAction::InvalidPowerState,
            rest.len() + 1,
        ),
        forall|i: int| r1.len() + 2 <= i < run(c, low_events(r1, ev0, ack, r2, evx, rest)).1.len()
            ==> {
            let a = #[trigger] run(c, low_events(r1, ev0, ack, r2, evx, rest)).1[i];
            a == ChargeAction::Retry(Query::PowerState, 10) || a == ChargeAction::Query(
                Query::PowerState,
            ) || a == ChargeAction::InvalidPowerState
        },
{
    let x = r1 + seq![ev0, ack];
    let y = r2 + (seq![evx] + rest);
    assert(r1 + seq![ev0, ack] + r2 + seq![evx] + rest =~= x + y);
    lemma_run_append(c, x, y);
    lemma_low_start(c, r1, ev0, p, ack);
    let lo = low_start(c, p);
    lemma_failed_probes(lo, r2);
    lemma_run_append(lo, r2, seq![evx] + rest);
    lemma_run_append(lo, seq![evx], rest);
    lemma_run_one(lo, evx);
    let f = charge_step(lo, evx).0;
    lemma_failed_absorbs(f, rest);
    let t1 = retry_trace(Phase::Check, (r1.len() / 2) as nat);
    let t2 = retry_trace(Phase::PowerQuery(false), (r2.len() / 2) as nat);
    let inv = constant_trace(ChargeAction::InvalidPowerState, rest.len() + 1);
    assert(seq![ChargeAction::InvalidPowerState] + constant_trace(ChargeAction::InvalidPowerState, rest.len())
        =~= inv);
    let head = seq![ChargeAction::Send(Command::WallPowerOn), ChargeAction::Query(Query::PowerState)];
    assert((t1 + head) + (t2 + inv) =~= t1 + head + t2 + inv);
    lemma_failed_probes(c, r1);
    lemma_retry_trace_actions(Phase::Check, (r1.len() / 2) as nat);
    lemma_retry_trace_actions(Phase::PowerQuery(false), (r2.len() / 2) as nat);
    let t = run(c, low_events(r1, ev0, ack, r2, evx, rest)).1;
    assert(low_events(r1, ev0, ack, r2, evx, rest) == r1 + seq![ev0, ack] + r2 + seq![evx] + rest);
    assert(t == t1 + head + t2 + inv);
    assert(t1.len() == r1.len());
    assert forall|i: int| r1.len() + 2 <= i < t.len() implies {
        let a = #[trigger] t[i];
        a == ChargeAction::Retry(Query::PowerState, 10) || a == ChargeAction::Query(Query::PowerState)
            || a == ChargeAction::InvalidPowerState
    } by {
        let j = i - r1.len() - 2;
        if j < t2.len() {
            assert(t[i] == t2[j]);
        } else {
            assert(t[i] == inv[j - t2.len()]);
        }
    }
}

/// Whether the check is in its charging loop.
pub open spec fn in_loop(p: Phase) -> bool {
    p == Phase::Started || p == Phase::Advanced || p == Phase::Waiting || p == Phase::Reading || p
        == Phase::ReadingRetry
}

/// The actions of the charging loop: progress, the poll wait, a battery
/// query and its retry.
pub open spec fn is_loop_action(a: ChargeAction) -> bool {
    a is Progress || a == ChargeAction::Sleep(10) || a == ChargeAction::Query(Query::BatteryPercent)
        || a == ChargeAction::Retry(Query::BatteryPercent, 30)
}

/// How many events the charging loop takes before the step that leaves it
/// (all of them, if none does).
pub open spec fn loop_exit(c: Charger, evs: Seq<Event>) -> nat
    decreases evs.len(),
{
    if evs.len() == 0 {
        0
    } else if !in_loop(charge_step(c, evs[0]).0.phase) {
        0
    } else {
        1 + loop_exit(charge_step(c, evs[0]).0, evs.drop_first())
    }
}

/// A run issues one action per event.
pub proof fn lemma_run_len(c: Charger, evs: Seq<Event>)
    ensures
        run(c, evs).1.len() == evs.len(),
    decreases evs.len(),
{
    if evs.len() > 0 {
        lemma_run_len(charge_step(c, evs[0]).0, evs.drop_first());
    }
}

/// The charging loop issues only progress, poll waits, battery queries and
/// their retries, so no button action and no power-state query, for as long
/// as it lasts. It ends only with a battery level at or above `to`, read
/// by the step that ends it when that step answers a query, and that step
/// issues the end of charging.
pub proof fn lemma_charging_loop_run(c: Charger, evs: Seq<Event>)
    requires
        in_loop(c.phase),
    ensures
        loop_exit(c, evs) <= evs.len(),
        run(c, evs).1.len() == evs.len(),
        forall|i: int| 0 <= i < loop_exit(c, evs) ==> is_loop_action(#[trigger] run(c, evs).1[i]),
        loop_exit(c, evs) == evs.len() ==> in_loop(run(c, evs).0.phase),
        loop_exit(c, evs) < evs.len() ==> run(c, evs).1[loop_exit(c, evs) as int] == ChargeAction::ChargingDone,
        loop_exit(c, evs) < evs.len() ==> run(c, evs.take(loop_exit(c, evs) + 1int)).0.phase == Phase::Charged
            && run(c, evs.take(loop_exit(c, evs) + 1int)).0.level >= c.to
            && run(c, evs.take(loop_exit(c, evs) + 1int)).0.to == c.to,
        loop_exit(c, evs) < evs.len() && run(c, evs.take(loop_exit(c, evs) as int)).0.phase == Phase::Reading
            ==> battery_of(evs[loop_exit(c, evs) as int]) == Some(
            run(c, evs.take(loop_exit(c, evs) + 1int)).0.level as int,
        ),
    decreases evs.len(),
{
    lemma_run_len(c, evs);
    if evs.len() > 0 {
        let (c1, a) = charge_step(c, evs[0]);
        let rest = evs.drop_first();
        let tr = run(c, evs).1;
        assert(tr[0] == a);
        assert(evs.take(0) =~= Seq::<Event>::empty());
        if !in_loop(c1.phase) {
            assert(evs.take(1) =~= seq![evs[0]]);
            lemma_run_one(c, evs[0]);
        } else {
            lemma_charging_loop_run(c1, rest);
            let j = loop_exit(c, evs) as int;
            let tr1 = run(c1, rest).1;
            assert forall|i: int| 0 <= i < j implies is_loop_action(#[trigger] tr[i]) by {
                if i > 0 {
                    assert(tr[i] == tr1[i - 1]);
                }
            }
            if j < evs.len() {
                assert(tr[j] == tr1[j - 1]);
                assert(evs.take(j + 1).drop_first() =~= rest.take(j));
                assert(evs.take(j + 1)[0] == evs[0]);
                assert(run(c, evs.take(j + 1)).0 == run(c1, rest.take(j)).0);
                assert(evs.take(j).drop_first() =~= rest.take(j - 1));
                assert(evs.take(j)[0] == evs[0]);
                assert(run(c, evs.take(j)).0 == run(c1, rest.take(j - 1)).0);
                assert(evs[j] == rest[j - 1]);
            }
        }
    }
}

/// Once charging is done, the device is driven on and external power is
/// switched off: after any failed probes, a press and release come exactly
/// when the device reports off, and the check then finishes.
pub proof fn lemma_power_on_run(
    c: Charger,
    ack: Event,
    r: Seq<Event>,
    evp: Event,
    s: bool,
    tail: Seq<Event>,
    fin: Event,
)
    requires
        c.phase == Phase::Charged,
        failed_probes(Phase::PowerQuery(true), r),
        power_of(evp) == Some(Some(s)),
        tail.len() == (if s { 0nat } else { 5nat }),
    ensures
        run(c, seq![ack] + r + seq![evp] + tail + seq![fin]) == (
            Charger { phase: Phase::Complete, ..c },
            seq![ChargeAction::Query(Query::PowerState)] + retry_trace(
                Phase::PowerQuery(true),
                (r.len() / 2) as nat,
            ) + switch_trace(true, s) + seq![
                ChargeAction::Send(Command::WallPowerOff),
                ChargeAction::Finished,
            ],
        ),
{
    let mid = r + seq![evp] + tail;
    assert(seq![ack] + r + seq![evp] + tail + seq![fin] =~= seq![ack] + (mid + seq![fin]));
    lemma_run_append(c, seq![ack], mid + seq![fin]);
    lemma_run_one(c, ack);
    let c1 = charge_step(c, ack).0;
    lemma_run_append(c1, mid, seq![fin]);
    lemma_switch_run(c1, true, r, evp, s, tail);
    let w = after_switch(c1, true).0;
    lemma_run_one(w, fin);
    let t = retry_trace(Phase::PowerQuery(true), (r.len() / 2) as nat);
    assert(seq![ChargeAction::Query(Query::PowerState)] + ((t + switch_trace(true, s) + seq![
        ChargeAction::Send(Command::WallPowerOff),
    ]) + seq![ChargeAction::Finished]) =~= seq![ChargeAction::Query(Query::PowerState)] + t
        + switch_trace(true, s) + seq![ChargeAction::Send(Command::WallPowerOff), ChargeAction::Finished]);
}

/// When charging starts below the target, the first reading of the loop
/// comes after a poll wait.
pub proof fn lemma_first_poll(c: Charger, e1: Event, e2: Event)
    requires
        c.phase == Phase::Started,
        c.level == c.shown,
        c.level < c.to,
    ensures
        run(c, seq![e1, e2]).1 == seq![ChargeAction::Sleep(10), ChargeAction::Query(Query::BatteryPercent)],
        run(c, seq![e1, e2]).0.phase == Phase::Reading,
{
    reveal_with_fuel(run, 3);
    assert(seq![e1, e2].drop_first().drop_first() =~= Seq::<Event>::empty());
    assert(run(c, seq![e1, e2]).1 =~= seq![
        ChargeAction::Sleep(10),
        ChargeAction::Query(Query::BatteryPercent),
    ]);
}

} // verus!
