//! The adjustment engine: what each device operation computes, and how a
//! bounded-concurrency pass over the selected devices is scheduled.
//!
//! The caller owns the actual device calls and the task scheduler; the
//! engine owns every decision. Per device, [`plan_adjustment`] turns the
//! level that was read into the level to write. Per pass, [`AdjustEngine`]
//! tracks how many operations are in flight, admits a new one only under
//! the concurrency limit, and aggregates per-device outcomes fail-soft:
//! a failure is recorded and never blocks a sibling device.
use vstd::prelude::*;
use crate::command::{spec_new_level, spec_writes, BrightnessCommand};
use crate::error::{DeviceError, Error};

verus! {

/// What one device operation should do, given the level read from the
/// device: `Ok(Some(level))` writes that level back, `Ok(None)` writes
/// nothing (the command only reads), `Err` carries that device's failure.
pub open spec fn spec_plan(command: BrightnessCommand, read: Result<u32, DeviceError>) -> Result<
    Option<u32>,
    DeviceError,
> {
    if !spec_writes(command) {
        Ok(None)
    } else {
        match read {
            Ok(current) => Ok(Some(spec_new_level(command, current as int) as u32)),
            Err(e) => Err(e),
        }
    }
}

impl BrightnessCommand {
    /// Whether this command writes a level back to the devices. Only `Get`
    /// does not; it leaves every device untouched and always succeeds.
    pub fn writes(&self) -> (r: bool)
        ensures
            r == spec_writes(*self),
    {
        match self {
            BrightnessCommand::Get => false,
            _ => true,
        }
    }
}

/// The decision of one device operation: from the command and the level
/// read off this one device, the level to write back, or nothing, or this
/// device's failure. No other device's state plays a part.
pub fn plan_adjustment(command: &BrightnessCommand, read: &Result<u32, DeviceError>) -> (r: Result<
    Option<u32>,
    DeviceError,
>)
    ensures
        r == spec_plan(*command, *read),
{
    if !command.writes() {
        Ok(None)
    } else {
        match read {
            Ok(current) => match command.target_level(*current) {
                Some(level) => Ok(Some(level)),
                None => Ok(None),
            },
            Err(e) => Err(*e),
        }
    }
}

/// Plans a whole adjustment pass: one decision per selected device, each
/// depending only on the command and that device's own read, so one
/// device's failure cannot change what is written to a sibling.
pub fn plan_adjustments(
    command: &BrightnessCommand,
    reads: &Vec<Result<u32, DeviceError>>,
) -> (plans: Vec<Result<Option<u32>, DeviceError>>)
    ensures
        plans@.len() == reads@.len(),
        forall|i: int| 0 <= i < reads@.len() ==> plans@[i] == spec_plan(*command, reads@[i]),
{
    let mut plans: Vec<Result<Option<u32>, DeviceError>> = Vec::new();
    let mut i: usize = 0;
    while i < reads.len()
        invariant
            i <= reads.len(),
            plans@.len() == i,
            forall|j: int| 0 <= j < i ==> plans@[j] == spec_plan(*command, reads@[j]),
        decreases reads.len() - i,
    {
        plans.push(plan_adjustment(command, &reads[i]));
        i += 1;
    }
    plans
}

/// The levels a fully drained adjustment pass leaves behind, on devices
/// whose reads and writes all succeed: each device moves independently to
/// the level the command computes from its own current level.
pub fn adjusted_levels(command: &BrightnessCommand, levels: &Vec<u32>) -> (r: Vec<u32>)
    ensures
        r@.len() == levels@.len(),
        forall|i: int|
            0 <= i < levels@.len() ==> r@[i] as int == spec_new_level(
                *command,
                levels@[i] as int,
            ),
{
    let mut r: Vec<u32> = Vec::new();
    let mut i: usize = 0;
    while i < levels.len()
        invariant
            i <= levels.len(),
            r@.len() == i,
            forall|j: int|
                0 <= j < i ==> r@[j] as int == spec_new_level(*command, levels@[j] as int),
        decreases levels.len() - i,
    {
        match command.target_level(levels[i]) {
            Some(level) => r.push(level),
            None => r.push(levels[i]),
        }
        i += 1;
    }
    r
}

/// The scheduling state of one adjustment pass. The caller drives it with
/// one call per scheduling event and reads every decision off it; the
/// contracts pin each transition to [`spec_engine_step`].
pub struct AdjustEngine {
    /// Most device operations allowed in flight at once.
    pub limit: usize,
    /// Device operations started and not yet completed.
    pub in_flight: usize,
    /// Devices whose outcome is already recorded, failures included.
    pub attempted: usize,
    /// Recorded outcomes that were failures.
    pub failures: usize,
    /// Recorded outcomes that were slots the source itself could not
    /// deliver: no device was reachable behind them.
    pub unavailable: usize,
    /// Whether the device source has been fully consumed.
    pub source_drained: bool,
}

/// One scheduling event of an adjustment pass.
pub enum EngineEvent {
    /// The source yielded a selected live device and its operation starts.
    Launch,
    /// An in-flight device operation finished, well or badly.
    Complete { ok: bool },
    /// The source yielded an error for a selected slot: recorded as that
    /// slot's failure, with nothing to run.
    Unavailable,
    /// The source is exhausted.
    Drain,
}

/// When an event may happen: a launch only under the concurrency limit and
/// while the source still yields, a completion only of something in
/// flight. The counter bounds keep the tallies inside machine range.
pub open spec fn spec_engine_enabled(e: AdjustEngine, ev: EngineEvent) -> bool {
    match ev {
        EngineEvent::Launch => e.in_flight < e.limit && !e.source_drained,
        EngineEvent::Complete { ok } => e.in_flight >= 1 && e.attempted < usize::MAX,
        EngineEvent::Unavailable => !e.source_drained && e.attempted < usize::MAX,
        EngineEvent::Drain => !e.source_drained,
    }
}

/// How each event moves the scheduling state.
pub open spec fn spec_engine_step(e: AdjustEngine, ev: EngineEvent) -> AdjustEngine {
    match ev {
        EngineEvent::Launch => AdjustEngine { in_flight: (e.in_flight + 1) as usize, ..e },
        EngineEvent::Complete { ok } => AdjustEngine {
            in_flight: (e.in_flight - 1) as usize,
            attempted: (e.attempted + 1) as usize,
            failures: if ok {
                e.failures
            } else {
                (e.failures + 1) as usize
            },
            ..e
        },
        EngineEvent::Unavailable => AdjustEngine {
            attempted: (e.attempted + 1) as usize,
            failures: (e.failures + 1) as usize,
            unavailable: (e.unavailable + 1) as usize,
            ..e
        },
        EngineEvent::Drain => AdjustEngine { source_drained: true, ..e },
    }
}

impl AdjustEngine {
    /// The states the engine keeps itself in: never more operations in
    /// flight than the limit allows, never more failures than outcomes,
    /// never more undeliverable slots than failures.
    pub open spec fn wf(self) -> bool {
        self.limit >= 1 && self.in_flight <= self.limit && self.failures <= self.attempted
            && self.unavailable <= self.failures
    }

    /// A fresh pass: nothing in flight, nothing attempted, source untouched.
    pub fn new(limit: usize) -> (e: Self)
        requires
            limit >= 1,
        ensures
            e.wf(),
            e.limit == limit,
            e.in_flight == 0,
            e.attempted == 0,
            e.failures == 0,
            e.unavailable == 0,
            !e.source_drained,
    {
        AdjustEngine {
            limit,
            in_flight: 0,
            attempted: 0,
            failures: 0,
            unavailable: 0,
            source_drained: false,
        }
    }

    /// Whether a slot is free: only then may the caller pull the next
    /// element from the source and start its operation.
    pub fn can_launch(&self) -> (r: bool)
        ensures
            r == (self.in_flight < self.limit),
    {
        self.in_flight < self.limit
    }

    /// Starts one device operation.
    pub fn launch(&mut self)
        requires
            old(self).wf(),
            spec_engine_enabled(*old(self), EngineEvent::Launch),
        ensures
            *final(self) == spec_engine_step(*old(self), EngineEvent::Launch),
            final(self).wf(),
    {
        self.in_flight = self.in_flight + 1;
    }

    /// Records the outcome of one in-flight device operation. A failure is
    /// tallied and nothing else: sibling operations go on untouched.
    pub fn complete(&mut self, ok: bool)
        requires
            old(self).wf(),
            spec_engine_enabled(*old(self), (EngineEvent::Complete { ok })),
        ensures
            *final(self) == spec_engine_step(*old(self), (EngineEvent::Complete { ok })),
            final(self).wf(),
    {
        self.in_flight = self.in_flight - 1;
        self.attempted = self.attempted + 1;
        if !ok {
            self.failures = self.failures + 1;
        }
    }

    /// Records a selected slot the source itself could not deliver.
    pub fn unavailable(&mut self)
        requires
            old(self).wf(),
            spec_engine_enabled(*old(self), EngineEvent::Unavailable),
        ensures
            *final(self) == spec_engine_step(*old(self), EngineEvent::Unavailable),
            final(self).wf(),
    {
        self.attempted = self.attempted + 1;
        self.failures = self.failures + 1;
        self.unavailable = self.unavailable + 1;
    }

    /// Records that the source is exhausted.
    pub fn drain(&mut self)
        requires
            old(self).wf(),
            spec_engine_enabled(*old(self), EngineEvent::Drain),
        ensures
            *final(self) == spec_engine_step(*old(self), EngineEvent::Drain),
            final(self).wf(),
    {
        self.source_drained = true;
    }

    /// Whether the pass has fully drained: no more devices will arrive and
    /// every started operation has completed. Only then may reporting run.
    pub fn finished(&self) -> (r: bool)
        ensures
            r == (self.source_drained && self.in_flight == 0),
    {
        self.source_drained && self.in_flight == 0
    }

    /// The aggregate verdict of the pass, meaningful once it is finished:
    /// success exactly when no device failed.
    pub fn all_succeeded(&self) -> (r: bool)
        ensures
            r == (self.failures == 0),
    {
        self.failures == 0
    }

    /// What the invocation returns once the adjustment pass has drained.
    /// A failure on one device stays with that device: the report pass
    /// surfaces it, and the invocation still succeeds. The one failure
    /// class that escalates to the process boundary is a source that
    /// delivered no device at all — every recorded outcome was an
    /// undeliverable slot.
    pub fn conclude_adjustment(&self) -> (r: Result<(), Error>)
        requires
            self.wf(),
            self.source_drained,
            self.in_flight == 0,
        ensures
            r == spec_adjustment_conclusion(*self),
    {
        if self.attempted > 0 && self.unavailable == self.attempted {
            Err(Error::BrightnessError(DeviceError::EnumerationFailed))
        } else {
            Ok(())
        }
    }
}

/// The propagation policy of a finished adjustment pass: per-device
/// failures never escalate; only total enumeration failure — outcomes
/// recorded and every one of them an undeliverable slot — does.
pub open spec fn spec_adjustment_conclusion(e: AdjustEngine) -> Result<(), Error> {
    if e.attempted > 0 && e.unavailable == e.attempted {
        Err(Error::BrightnessError(DeviceError::EnumerationFailed))
    } else {
        Ok(())
    }
}

/// Every enabled event keeps the engine well-formed and its limit fixed.
pub proof fn lemma_engine_step_wf(e: AdjustEngine, ev: EngineEvent)
    requires
        e.wf(),
        spec_engine_enabled(e, ev),
    ensures
        spec_engine_step(e, ev).wf(),
        spec_engine_step(e, ev).limit == e.limit,
{
}

/// A sequence of events is a valid run when each event is enabled in the
/// state the events before it produced.
pub open spec fn spec_valid_run(e: AdjustEngine, events: Seq<EngineEvent>) -> bool
    decreases events.len(),
{
    events.len() == 0 || (spec_engine_enabled(e, events[0]) && spec_valid_run(
        spec_engine_step(e, events[0]),
        events.drop_first(),
    ))
}

/// The state a run of events leaves the engine in.
pub open spec fn spec_run(e: AdjustEngine, events: Seq<EngineEvent>) -> AdjustEngine
    decreases events.len(),
{
    if events.len() == 0 {
        e
    } else {
        spec_run(spec_engine_step(e, events[0]), events.drop_first())
    }
}

/// A valid run from a well-formed state ends well-formed, with the limit
/// unchanged.
pub proof fn lemma_run_wf(e: AdjustEngine, events: Seq<EngineEvent>)
    requires
        e.wf(),
        spec_valid_run(e, events),
    ensures
        spec_run(e, events).wf(),
        spec_run(e, events).limit == e.limit,
    decreases events.len(),
{
    if events.len() > 0 {
        lemma_engine_step_wf(e, events[0]);
        lemma_run_wf(spec_engine_step(e, events[0]), events.drop_first());
    }
}

/// Every prefix of a valid run is itself a valid run.
pub proof fn lemma_valid_run_take(e: AdjustEngine, events: Seq<EngineEvent>, k: int)
    requires
        spec_valid_run(e, events),
        0 <= k <= events.len(),
    ensures
        spec_valid_run(e, events.take(k)),
    decreases k,
{
    if k > 0 {
        assert(events.take(k)[0] == events[0]);
        assert(events.take(k).drop_first() =~= events.drop_first().take(k - 1));
        lemma_valid_run_take(spec_engine_step(e, events[0]), events.drop_first(), k - 1);
    }
}

/// The concurrency bound: at no point of a valid run are more device
/// operations in flight than the limit allows. The limit is the only
/// synchronization the pass has; this is what it guarantees.
pub proof fn lemma_concurrency_bound(e: AdjustEngine, events: Seq<EngineEvent>, k: int)
    requires
        e.wf(),
        spec_valid_run(e, events),
        0 <= k <= events.len(),
    ensures
        spec_run(e, events.take(k)).in_flight <= e.limit,
{
    lemma_valid_run_take(e, events, k);
    lemma_run_wf(e, events.take(k));
}

/// Whether two events are the same scheduling move, leaving the outcome of
/// a completion out of the comparison.
pub open spec fn spec_same_kind(a: EngineEvent, b: EngineEvent) -> bool {
    match (a, b) {
        (EngineEvent::Launch, EngineEvent::Launch) => true,
        (EngineEvent::Complete { ok: _ }, EngineEvent::Complete { ok: _ }) => true,
        (EngineEvent::Unavailable, EngineEvent::Unavailable) => true,
        (EngineEvent::Drain, EngineEvent::Drain) => true,
        _ => false,
    }
}

/// Whether two event sequences are the same schedule, with the completion
/// outcomes free to differ.
pub open spec fn spec_same_shape(a: Seq<EngineEvent>, b: Seq<EngineEvent>) -> bool
    decreases a.len(),
{
    a.len() == b.len() && (a.len() == 0 || (spec_same_kind(a[0], b[0]) && spec_same_shape(
        a.drop_first(),
        b.drop_first(),
    )))
}

/// Whether two engine states agree on everything the scheduler reads; the
/// tally of failed completions alone may differ.
pub open spec fn spec_agrees_except_failures(x: AdjustEngine, y: AdjustEngine) -> bool {
    x.limit == y.limit && x.in_flight == y.in_flight && x.attempted == y.attempted
        && x.unavailable == y.unavailable && x.source_drained == y.source_drained
}

/// Fail-soft scheduling: whether a schedule can happen never depends on
/// which device operations failed. A run that is valid when every device
/// succeeds is valid, move for move, when any of them fail — one device's
/// failure cannot cancel or delay a sibling's operation.
pub proof fn lemma_failures_do_not_block(
    x: AdjustEngine,
    y: AdjustEngine,
    a: Seq<EngineEvent>,
    b: Seq<EngineEvent>,
)
    requires
        spec_agrees_except_failures(x, y),
        spec_same_shape(a, b),
    ensures
        spec_valid_run(x, a) == spec_valid_run(y, b),
        spec_agrees_except_failures(spec_run(x, a), spec_run(y, b)),
    decreases a.len(),
{
    if a.len() > 0 {
        assert(spec_engine_enabled(x, a[0]) == spec_engine_enabled(y, b[0]));
        assert(spec_agrees_except_failures(spec_engine_step(x, a[0]), spec_engine_step(y, b[0])));
        lemma_failures_do_not_block(
            spec_engine_step(x, a[0]),
            spec_engine_step(y, b[0]),
            a.drop_first(),
            b.drop_first(),
        );
    }
}

/// How many outcomes a schedule records: one per completion and one per
/// slot the source could not deliver.
pub open spec fn spec_outcome_count(events: Seq<EngineEvent>) -> int
    decreases events.len(),
{
    if events.len() == 0 {
        0
    } else {
        (match events[0] {
            EngineEvent::Complete { ok: _ } => 1int,
            EngineEvent::Unavailable => 1int,
            _ => 0int,
        }) + spec_outcome_count(events.drop_first())
    }
}

/// How many of a schedule's recorded outcomes are failures.
pub open spec fn spec_failure_count(events: Seq<EngineEvent>) -> int
    decreases events.len(),
{
    if events.len() == 0 {
        0
    } else {
        (match events[0] {
            EngineEvent::Complete { ok } => if ok {
                0int
            } else {
                1int
            },
            EngineEvent::Unavailable => 1int,
            _ => 0int,
        }) + spec_failure_count(events.drop_first())
    }
}

/// How many of a schedule's recorded outcomes were undeliverable slots.
pub open spec fn spec_unavailable_count(events: Seq<EngineEvent>) -> int
    decreases events.len(),
{
    if events.len() == 0 {
        0
    } else {
        (match events[0] {
            EngineEvent::Unavailable => 1int,
            _ => 0int,
        }) + spec_unavailable_count(events.drop_first())
    }
}

/// Fail-soft aggregation: a valid run records exactly one outcome per
/// device operation, and its verdict counts exactly the failed ones —
/// the pass is never cut short, and it reports failure exactly when at
/// least one device failed.
pub proof fn lemma_run_counts(e: AdjustEngine, events: Seq<EngineEvent>)
    requires
        e.wf(),
        spec_valid_run(e, events),
    ensures
        spec_run(e, events).attempted == e.attempted + spec_outcome_count(events),
        spec_run(e, events).failures == e.failures + spec_failure_count(events),
        spec_run(e, events).unavailable == e.unavailable + spec_unavailable_count(events),
    decreases events.len(),
{
    if events.len() > 0 {
        lemma_engine_step_wf(e, events[0]);
        lemma_run_counts(spec_engine_step(e, events[0]), events.drop_first());
    }
}

} // verus!
