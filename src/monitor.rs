use vstd::prelude::*;

use crate::outcome::ProbeOutcome;

verus! {

/// A notification that the monitor asks to have delivered.
#[derive(Debug, Clone, Copy, PartialEq, Eq, Structural)]
pub enum Alert {
    /// The target answered with a success status after being down.
    Recovered,
    /// The target answered with a status outside the success class.
    BadStatus,
    /// The target could not be reached at all.
    Unreachable,
}

/// The text delivered for each alert.
pub open spec fn alert_text(a: Alert) -> Seq<char> {
    match a {
        Alert::Recovered => "200 status returned! The site is back :)"@,
        Alert::BadStatus => "Non-200 status code returned!"@,
        Alert::Unreachable => "Not able to ping!"@,
    }
}

impl Alert {
    /// The text to deliver for this alert.
    pub fn message(&self) -> (r: &'static str)
        ensures
            r@ == alert_text(*self),
    {
        match self {
            Alert::Recovered => "200 status returned! The site is back :)",
            Alert::BadStatus => "Non-200 status code returned!",
            Alert::Unreachable => "Not able to ping!",
        }
    }
}

/// What the monitor decided on one tick: whether the target now counts as
/// up, and the alert to deliver, if any.
#[derive(Debug, Clone, Copy, PartialEq, Eq, Structural)]
pub struct Tick {
    /// The state after this tick; true exactly when the probe succeeded, which
    /// is also when a "ping ok" line is logged.
    pub up: bool,
    /// The notification to deliver on this tick.
    pub alert: Option<Alert>,
}

/// The transition table: from state `up` (true for `Up`, false for `Down`)
/// and the outcome of a probe, the next state and the alert.
/// Recovery alerts only on the edge; every failing probe alerts.
pub open spec fn step(up: bool, o: ProbeOutcome) -> Tick {
    match o {
        ProbeOutcome::Success => Tick { up: true, alert: if up { None } else { Some(Alert::Recovered) } },
        ProbeOutcome::BadStatus => Tick { up: false, alert: Some(Alert::BadStatus) },
        ProbeOutcome::TransportFailure => Tick { up: false, alert: Some(Alert::Unreachable) },
    }
}

/// The state reached from `up` after the outcomes `os`, in order.
pub open spec fn state_after(up: bool, os: Seq<ProbeOutcome>) -> bool
    decreases os.len(),
{
    if os.len() == 0 {
        up
    } else {
        step(state_after(up, os.drop_last()), os.last()).up
    }
}

/// The ticks produced from `up` by the outcomes `os`, one per outcome.
pub open spec fn ticks_after(up: bool, os: Seq<ProbeOutcome>) -> Seq<Tick>
    decreases os.len(),
{
    if os.len() == 0 {
        Seq::empty()
    } else {
        ticks_after(up, os.drop_last()).push(step(state_after(up, os.drop_last()), os.last()))
    }
}

/// The state before the `i`-th outcome of `os` is processed from `up`.
pub open spec fn state_before(up: bool, os: Seq<ProbeOutcome>, i: int) -> bool {
    state_after(up, os.take(i))
}

/// The ticks of a run line up with the outcomes: the `i`-th tick is the
/// transition taken from the state reached before the `i`-th outcome.
pub proof fn lemma_ticks_after_index(up: bool, os: Seq<ProbeOutcome>)
    ensures
        ticks_after(up, os).len() == os.len(),
        forall|i: int|
            0 <= i < os.len() ==> #[trigger] ticks_after(up, os)[i] == step(
                state_before(up, os, i),
                os[i],
            ),
    decreases os.len(),
{
    if os.len() > 0 {
        let prefix = os.drop_last();
        lemma_ticks_after_index(up, prefix);
        assert forall|i: int| 0 <= i < os.len() implies #[trigger] ticks_after(up, os)[i] == step(
            state_before(up, os, i),
            os[i],
        ) by {
            if i < os.len() - 1 {
                assert(os.take(i) == prefix.take(i));
                assert(os[i] == prefix[i]);
            } else {
                assert(os.take(i) == prefix);
            }
        }
    }
}

/// After any non-empty series of outcomes the monitor is `Up` exactly when
/// the most recent outcome was `Success`, whatever state it started in.
pub proof fn lemma_up_iff_last_success(up: bool, os: Seq<ProbeOutcome>)
    requires
        os.len() > 0,
    ensures
        state_after(up, os) == (os.last() is Success),
{
}

/// The state before the `i`-th outcome (after the first) is `Up` exactly when
/// the outcome before it was `Success`.
proof fn lemma_state_before_follows_previous(up: bool, os: Seq<ProbeOutcome>, i: int)
    requires
        0 < i <= os.len(),
    ensures
        state_before(up, os, i) == (os[i - 1] is Success),
{
    lemma_up_iff_last_success(up, os.take(i));
}

/// Every failing probe (`BadStatus` or `TransportFailure`) produces a
/// notification, whatever the state before it.
pub proof fn lemma_failure_always_alerts(up: bool, os: Seq<ProbeOutcome>)
    ensures
        forall|i: int|
            0 <= i < os.len() && !(os[i] is Success) ==> (#[trigger] ticks_after(up, os)[i]).alert is Some,
{
    lemma_ticks_after_index(up, os);
}

/// A `Success` produces a notification exactly when the monitor was `Down`
/// before it: at the start, when it started `Down`; later, when the previous
/// outcome was a failure. So recovery alerts once per outage.
pub proof fn lemma_success_alerts_only_on_recovery(up: bool, os: Seq<ProbeOutcome>)
    ensures
        forall|i: int|
            0 <= i < os.len() && os[i] is Success ==> ((#[trigger] ticks_after(up, os)[i]).alert is Some
                <==> if i == 0 {
                !up
            } else {
                !(os[i - 1] is Success)
            }),
{
    lemma_ticks_after_index(up, os);
    assert forall|i: int|
        0 <= i < os.len() && os[i] is Success implies ((#[trigger] ticks_after(up, os)[i]).alert is Some
            <==> if i == 0 {
            !up
        } else {
            !(os[i - 1] is Success)
        }) by {
        if i > 0 {
            lemma_state_before_follows_previous(up, os, i);
        } else {
            assert(os.take(0) == Seq::<ProbeOutcome>::empty());
        }
    }
}

/// A `Success` that follows a `Success` produces no notification: a target
/// that stays up is silent.
pub proof fn lemma_steady_up_is_quiet(up: bool, os: Seq<ProbeOutcome>)
    ensures
        forall|i: int|
            0 < i < os.len() && os[i - 1] is Success && os[i] is Success
                ==> (#[trigger] ticks_after(up, os)[i]).alert is None,
{
    lemma_success_alerts_only_on_recovery(up, os);
}

/// From `Down`, the same failing outcome twice in a row leaves the monitor
/// `Down` on both ticks and notifies on both, not only the first.
pub proof fn lemma_repeated_failure_alerts_each_time(o: ProbeOutcome)
    requires
        !(o is Success),
    ensures
        ticks_after(false, seq![o, o]).len() == 2,
        !ticks_after(false, seq![o, o])[0].up,
        !ticks_after(false, seq![o, o])[1].up,
        ticks_after(false, seq![o, o])[0].alert is Some,
        ticks_after(false, seq![o, o])[1].alert is Some,
        ticks_after(false, seq![o, o])[0] == ticks_after(false, seq![o, o])[1],
{
    lemma_ticks_after_index(false, seq![o, o]);
    assert(seq![o, o].take(0) == Seq::<ProbeOutcome>::empty());
    lemma_state_before_follows_previous(false, seq![o, o], 1);
}

/// The transition monitor: one bit of memory, whether the last probe
/// succeeded.
pub struct Monitor {
    last_ping_successful: bool,
}

impl Monitor {
    /// True when the monitor is in state `Up`.
    pub closed spec fn is_up(&self) -> bool {
        self.last_ping_successful
    }

    /// A monitor in its initial state, `Up`.
    pub fn new() -> (m: Monitor)
        ensures
            m.is_up(),
    {
        Monitor { last_ping_successful: true }
    }

    /// Whether the last probe succeeded (true before any probe).
    pub fn last_ping_successful(&self) -> (r: bool)
        ensures
            r == self.is_up(),
    {
        self.last_ping_successful
    }

    /// Feeds the outcome of one probe to the monitor: moves to the next state
    /// and says which alert, if any, to deliver.
    pub fn observe(&mut self, outcome: ProbeOutcome) -> (t: Tick)
        ensures
            t == step(old(self).is_up(), outcome),
            final(self).is_up() == t.up,
            final(self).is_up() == (outcome is Success),
            !(outcome is Success) ==> t.alert is Some,
            (outcome is Success) ==> (t.alert is Some <==> !old(self).is_up()),
    {
        let t = match outcome {
            ProbeOutcome::Success => Tick {
                up: true,
                alert: if self.last_ping_successful { None } else { Some(Alert::Recovered) },
            },
            ProbeOutcome::BadStatus => Tick { up: false, alert: Some(Alert::BadStatus) },
            ProbeOutcome::TransportFailure => Tick { up: false, alert: Some(Alert::Unreachable) },
        };
        self.last_ping_successful = t.up;
        t
    }

    /// Feeds a series of outcomes, in order, and returns one tick for each.
    pub fn run(&mut self, outcomes: &Vec<ProbeOutcome>) -> (ts: Vec<Tick>)
        ensures
            ts@ == ticks_after(old(self).is_up(), outcomes@),
            final(self).is_up() == state_after(old(self).is_up(), outcomes@),
    {
        let ghost start = self.is_up();
        let mut ts: Vec<Tick> = Vec::new();
        let mut i: usize = 0;
        while i < outcomes.len()
            invariant
                i <= outcomes@.len(),
                ts@ == ticks_after(start, outcomes@.take(i as int)),
                self.is_up() == state_after(start, outcomes@.take(i as int)),
            decreases outcomes@.len() - i,
        {
            proof {
                assert(outcomes@.take(i as int + 1).drop_last() == outcomes@.take(i as int));
            }
            let t = self.observe(outcomes[i]);
            ts.push(t);
            i = i + 1;
        }
        proof {
            assert(outcomes@.take(i as int) == outcomes@);
        }
        ts
    }
}

} // verus!
