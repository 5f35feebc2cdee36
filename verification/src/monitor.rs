//! The alerting state machine: the event counter, the last-alert
//! timestamp, the fire condition, and the laws that hold of every run.

use vstd::prelude::*;
use crate::clock;
use crate::config::Thresholds;
use crate::event::{increments_counter, rearm_action_for, ChangeEvent, EventKind, RearmAction};

verus! {

/// The monitor's mutable state: how many counted events arrived since
/// the last alert (or since start), and when the last alert was
/// recorded (the start time before any alert).
#[derive(Clone, Copy, Debug)]
pub struct MonitorState {
    /// Events counted since the last alert or since start.
    pub count: u64,
    /// Wall-clock milliseconds of the last alert, or of monitor start.
    pub last_alert_ms: i64,
}

/// The state as plain mathematical integers, for stating the laws of
/// the machine.
pub ghost struct StateModel {
    pub count: int,
    pub last_alert_ms: int,
}

/// One transition of the machine: a counted event raises the counter by
/// one; nothing else changes. The last-alert timestamp is untouched by
/// every event.
pub open spec fn step(s: StateModel, k: EventKind) -> StateModel {
    StateModel {
        count: if increments_counter(k) {
            s.count + 1
        } else {
            s.count
        },
        last_alert_ms: s.last_alert_ms,
    }
}

/// The machine run over a whole sequence of events.
pub open spec fn run(s: StateModel, ks: Seq<EventKind>) -> StateModel
    decreases ks.len(),
{
    if ks.len() == 0 {
        s
    } else {
        run(step(s, ks[0]), ks.subrange(1, ks.len() as int))
    }
}

/// How many events of the sequence increment the counter.
pub open spec fn num_increments(ks: Seq<EventKind>) -> int
    decreases ks.len(),
{
    if ks.len() == 0 {
        0
    } else {
        (if increments_counter(ks[0]) {
            1int
        } else {
            0int
        }) + num_increments(ks.subrange(1, ks.len() as int))
    }
}

/// The classes of a sequence of events.
pub open spec fn kinds_of(es: Seq<ChangeEvent>) -> Seq<EventKind> {
    es.map(|i: int, e: ChangeEvent| e.kind)
}

/// The fire condition: enough counted events, and at least the time
/// window elapsed since the last alert.
pub open spec fn fire_condition(s: StateModel, th: Thresholds, now_ms: int) -> bool {
    s.count >= th.count_threshold && now_ms - s.last_alert_ms >= th.time_threshold
}

/// A run of the machine counts exactly the incrementing events of the
/// sequence, and no event ever moves the last-alert timestamp: deleted
/// events leave the counter alone, and the counter equals its start
/// value plus the number of `Modified`/`AttributeChanged` events.
pub proof fn lemma_run_counts(s: StateModel, ks: Seq<EventKind>)
    ensures
        run(s, ks).count == s.count + num_increments(ks),
        run(s, ks).last_alert_ms == s.last_alert_ms,
    decreases ks.len(),
{
    if ks.len() > 0 {
        lemma_run_counts(step(s, ks[0]), ks.subrange(1, ks.len() as int));
    }
}

/// Never two alerts within the time window: from any state whose
/// last-alert timestamp is `alert_ms`, no sequence of events can make
/// the fire condition hold at a time less than `alert_ms +
/// time_threshold`.
pub proof fn lemma_no_refire_within_window(
    s: StateModel,
    ks: Seq<EventKind>,
    th: Thresholds,
    now_ms: int,
)
    requires
        now_ms - s.last_alert_ms < th.time_threshold,
    ensures
        !fire_condition(run(s, ks), th, now_ms),
{
    lemma_run_counts(s, ks);
}

/// Running a sequence and then one more event is one step after the run.
proof fn lemma_run_snoc(s: StateModel, ks: Seq<EventKind>, k: EventKind)
    ensures
        run(s, ks.push(k)) == step(run(s, ks), k),
    decreases ks.len(),
{
    if ks.len() == 0 {
        assert(ks.push(k)[0] == k);
        assert(ks.push(k).subrange(1, 1) =~= Seq::<EventKind>::empty());
        assert(run(s, ks.push(k)) == run(step(s, k), ks.push(k).subrange(1, 1)));
    } else {
        assert(ks.push(k)[0] == ks[0]);
        assert(ks.push(k).subrange(1, ks.len() as int + 1) =~= ks.subrange(
            1,
            ks.len() as int,
        ).push(k));
        lemma_run_snoc(step(s, ks[0]), ks.subrange(1, ks.len() as int), k);
        assert(run(s, ks.push(k)) == run(step(s, ks[0]), ks.subrange(1, ks.len() as int).push(k)));
    }
}

impl MonitorState {
    /// The last-alert timestamp is a non-negative epoch time.
    pub open spec fn wf(self) -> bool {
        self.last_alert_ms >= 0
    }

    /// This state as mathematical integers.
    pub open spec fn model(self) -> StateModel {
        StateModel { count: self.count as int, last_alert_ms: self.last_alert_ms as int }
    }

    /// A fresh monitor: nothing counted, the alert clock starting now.
    pub fn new(now_ms: i64) -> (s: MonitorState)
        requires
            now_ms >= 0,
        ensures
            s.count == 0,
            s.last_alert_ms == now_ms,
            s.wf(),
    {
        MonitorState { count: 0, last_alert_ms: now_ms }
    }

    /// Applies one event: counts it if its class counts, leaves the
    /// last-alert timestamp alone, and returns the re-arm decision its
    /// class calls for.
    pub fn apply_event(&mut self, e: &ChangeEvent) -> (a: RearmAction)
        requires
            old(self).count < u64::MAX,
        ensures
            final(self).model() == step(old(self).model(), e.kind),
            final(self).last_alert_ms == old(self).last_alert_ms,
            final(self).wf() == old(self).wf(),
            a == rearm_action_for(e.kind),
    {
        match e.kind {
            EventKind::Modified => {
                self.count = self.count + 1;
                RearmAction::Keep
            },
            EventKind::AttributeChanged => {
                self.count = self.count + 1;
                RearmAction::RearmNow
            },
            EventKind::Deleted => RearmAction::RearmAfterGrace,
        }
    }

    /// Applies a whole batch of events in order, returning the re-arm
    /// decision for each. The counter grows by exactly the number of
    /// `Modified`/`AttributeChanged` events in the batch; the last-alert
    /// timestamp does not move.
    pub fn apply_batch(&mut self, events: &Vec<ChangeEvent>) -> (actions: Vec<RearmAction>)
        requires
            old(self).count + events@.len() <= u64::MAX,
        ensures
            final(self).model() == run(old(self).model(), kinds_of(events@)),
            final(self).count == old(self).count + num_increments(kinds_of(events@)),
            final(self).last_alert_ms == old(self).last_alert_ms,
            final(self).wf() == old(self).wf(),
            actions@.len() == events@.len(),
            forall|j: int|
                0 <= j < events@.len() ==> actions@[j] == rearm_action_for(events@[j].kind),
    {
        let ghost init: MonitorState = *self;
        let ghost ks = kinds_of(events@);
        let mut actions: Vec<RearmAction> = Vec::new();
        let mut i: usize = 0;
        while i < events.len()
            invariant
                i <= events@.len(),
                ks == kinds_of(events@),
                ks.len() == events@.len(),
                self.model() == run(init.model(), ks.subrange(0, i as int)),
                self.last_alert_ms == init.last_alert_ms,
                self.count + (events@.len() - i) <= u64::MAX,
                actions@.len() == i,
                forall|j: int| 0 <= j < i ==> actions@[j] == rearm_action_for(events@[j].kind),
            decreases events@.len() - i,
        {
            proof {
                assert(ks.subrange(0, i + 1) =~= ks.subrange(0, i as int).push(ks[i as int]));
                lemma_run_snoc(init.model(), ks.subrange(0, i as int), ks[i as int]);
            }
            let a = self.apply_event(&events[i]);
            actions.push(a);
            i = i + 1;
        }
        proof {
            assert(ks.subrange(0, ks.len() as int) =~= ks);
            lemma_run_counts(init.model(), ks);
        }
        actions
    }

    /// Evaluates the fire condition at time `now_ms`.
    pub fn should_fire(&self, th: &Thresholds, now_ms: i64) -> (r: bool)
        requires
            self.wf(),
            th.wf(),
            now_ms >= self.last_alert_ms,
        ensures
            r == fire_condition(self.model(), *th, now_ms as int),
    {
        self.count >= th.count_threshold as u64 && now_ms - self.last_alert_ms
            >= th.time_threshold
    }

    /// Reads the clock and evaluates the fire condition at the current
    /// time; a clock reading earlier than the last alert cannot fire.
    /// Whatever the clock returned, a positive answer means the counter
    /// has reached the count threshold.
    pub fn fire_check_now(&self, th: &Thresholds) -> (r: bool)
        requires
            self.wf(),
            th.wf(),
        ensures
            r ==> self.count >= th.count_threshold,
    {
        let now = clock::now_millis();
        if now >= self.last_alert_ms {
            self.should_fire(th, now)
        } else {
            false
        }
    }

    /// Records that an alert was dispatched at time `now_ms`: the
    /// counter returns to 0 and the last-alert timestamp is refreshed,
    /// whatever the outcome of the dispatch was.
    #[allow(unused_variables)]
    pub fn settle_after_dispatch(&mut self, now_ms: i64, send_ok: bool)
        requires
            now_ms >= 0,
        ensures
            final(self).count == 0,
            final(self).last_alert_ms == now_ms,
            final(self).wf(),
    {
        self.count = 0;
        self.last_alert_ms = now_ms;
    }
}

/// Reads the clock as non-negative epoch milliseconds; a clock before
/// the Unix epoch is reported as the epoch itself.
pub fn current_millis() -> (r: i64)
    ensures
        r >= 0,
{
    let t = clock::now_millis();
    if t >= 0 {
        t
    } else {
        0
    }
}

} // verus!
