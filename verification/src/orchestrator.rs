//! The orchestrator: the state machine at the heart of the watch-and-publish
//! loop. It consumes publish triggers and the completions of the two
//! external services, and answers with the single piece of work the driver
//! must do next — run the store, run the publisher, or start a backoff
//! delay. The driver performs that work outside the library and feeds the
//! outcome back in as the next event.
//!
//! The machine keeps at most one snapshot-and-publish sequence in flight: a
//! trigger arriving while one is running is queued (and any number of such
//! triggers collapse into one), never run concurrently. The comparison of a
//! fresh snapshot identifier against the publish record happens at the
//! moment the store's result arrives, so an unchanged tree never reaches
//! the naming service. Transient store and publish failures move the
//! machine into a backoff state and are retried on the next trigger;
//! nothing here panics or terminates the loop.

use vstd::prelude::*;

use crate::fault::Fault;
use crate::ident::ContentIdentifier;
use crate::record::PublishRecord;

verus! {

/// The phase of the orchestrator. The comparison of a fresh identifier
/// against the publish record is instantaneous — it happens inside the
/// transition that consumes the store's completion — so the machine never
/// rests between snapshotting and the publish decision.
#[derive(Clone, Copy, PartialEq, Eq, Structural, Debug)]
pub enum Phase {
    /// At rest: no work in flight, waiting for a trigger.
    Idle,
    /// The content store is computing the tree's identifier.
    Snapshotting,
    /// The naming service is publishing a changed identifier.
    Publishing,
    /// A transient failure occurred; a backoff delay is running.
    Failed,
}

/// What the driver must feed the machine: a coalesced publish trigger, the
/// completion of a store or publish invocation, or the end of a backoff
/// delay.
pub enum Event {
    /// The debouncer fired: re-evaluate and possibly publish now.
    Trigger,
    /// The content store finished: the tree's identifier, or a failure.
    StoreDone(Result<ContentIdentifier, Fault>),
    /// The naming service finished: success, or a failure.
    PublishDone(Result<(), Fault>),
    /// The backoff delay after a failure has elapsed.
    BackoffElapsed,
}

/// What the driver must do next. At most one work action is ever
/// outstanding, and the driver reports its completion as the next event.
pub enum Action {
    /// Nothing to do; wait for the next event.
    Nothing,
    /// Invoke the content store on the watched directory.
    RunStore,
    /// Invoke the naming service with this identifier.
    RunPublish(ContentIdentifier),
    /// Start the backoff delay after a transient failure.
    StartBackoff,
}

/// The mathematical state of the orchestrator.
pub struct OrchestratorModel {
    /// The current phase.
    pub phase: Phase,
    /// The last successfully published identifier, if any.
    pub record: Option<Seq<u8>>,
    /// Whether a trigger arrived while work was in flight and waits to be
    /// served. Many such triggers collapse into this one bit.
    pub pending: bool,
    /// While publishing: the identifier being published.
    pub candidate: Option<Seq<u8>>,
    /// The most recent transient failure, for diagnostics.
    pub fault: Option<Fault>,
}

/// The mathematical form of an event.
pub enum EventModel {
    /// A coalesced publish trigger.
    Trigger,
    /// The store finished with an identifier or a failure.
    StoreDone(Result<Seq<u8>, Fault>),
    /// The naming service finished.
    PublishDone(Result<(), Fault>),
    /// The backoff delay elapsed.
    BackoffElapsed,
}

/// The mathematical form of an action.
pub enum ActionModel {
    /// Nothing to do.
    Nothing,
    /// Invoke the content store.
    RunStore,
    /// Invoke the naming service with this identifier.
    RunPublish(Seq<u8>),
    /// Start the backoff delay.
    StartBackoff,
}

impl View for Event {
    type V = EventModel;

    open spec fn view(&self) -> EventModel {
        match self {
            Event::Trigger => EventModel::Trigger,
            Event::StoreDone(res) => EventModel::StoreDone(
                match res {
                    Ok(id) => Ok(id@),
                    Err(f) => Err(*f),
                },
            ),
            Event::PublishDone(res) => EventModel::PublishDone(
                match res {
                    Ok(_) => Ok(()),
                    Err(f) => Err(*f),
                },
            ),
            Event::BackoffElapsed => EventModel::BackoffElapsed,
        }
    }
}

impl View for Action {
    type V = ActionModel;

    open spec fn view(&self) -> ActionModel {
        match self {
            Action::Nothing => ActionModel::Nothing,
            Action::RunStore => ActionModel::RunStore,
            Action::RunPublish(id) => ActionModel::RunPublish(id@),
            Action::StartBackoff => ActionModel::StartBackoff,
        }
    }
}

/// Well-formedness: a publish candidate is held exactly while the naming
/// service runs, and the machine never rests at `Idle` with a trigger still
/// queued (a queued trigger is served on the way back to rest).
pub open spec fn wf_model(m: OrchestratorModel) -> bool {
    &&& (m.candidate is Some <==> m.phase == Phase::Publishing)
    &&& (m.phase == Phase::Idle ==> !m.pending)
}

/// The state of a freshly started orchestrator: at rest, nothing published
/// yet.
pub open spec fn init_model() -> OrchestratorModel {
    OrchestratorModel {
        phase: Phase::Idle,
        record: None,
        pending: false,
        candidate: None,
        fault: None,
    }
}

/// Which events the driver may feed in which phase: completions only of
/// work the machine actually asked for. Triggers are welcome at any time.
pub open spec fn event_allowed(m: OrchestratorModel, ev: EventModel) -> bool {
    match ev {
        EventModel::Trigger => true,
        EventModel::StoreDone(_) => m.phase == Phase::Snapshotting,
        EventModel::PublishDone(_) => m.phase == Phase::Publishing,
        EventModel::BackoffElapsed => m.phase == Phase::Failed,
    }
}

/// Whether a snapshot-and-publish sequence is in flight.
pub open spec fn in_flight(m: OrchestratorModel) -> bool {
    m.phase == Phase::Snapshotting || m.phase == Phase::Publishing
}

/// The transition relation of the orchestrator, as a function from state
/// and event to next state and the action the driver must perform.
pub open spec fn step_spec(m: OrchestratorModel, ev: EventModel) -> (OrchestratorModel, ActionModel) {
    match ev {
        EventModel::Trigger => if m.phase == Phase::Idle {
            (
                OrchestratorModel { phase: Phase::Snapshotting, ..m },
                ActionModel::RunStore,
            )
        } else {
            (OrchestratorModel { pending: true, ..m }, ActionModel::Nothing)
        },
        EventModel::StoreDone(res) => match res {
            Ok(id) => if m.record == Some(id) {
                if m.pending {
                    (
                        OrchestratorModel { phase: Phase::Snapshotting, pending: false, ..m },
                        ActionModel::RunStore,
                    )
                } else {
                    (OrchestratorModel { phase: Phase::Idle, ..m }, ActionModel::Nothing)
                }
            } else {
                (
                    OrchestratorModel { phase: Phase::Publishing, candidate: Some(id), ..m },
                    ActionModel::RunPublish(id),
                )
            },
            Err(f) => (
                OrchestratorModel { phase: Phase::Failed, fault: Some(f), ..m },
                ActionModel::StartBackoff,
            ),
        },
        EventModel::PublishDone(res) => match res {
            Ok(_) => if m.pending {
                (
                    OrchestratorModel {
                        phase: Phase::Snapshotting,
                        record: m.candidate,
                        pending: false,
                        candidate: None,
                        ..m
                    },
                    ActionModel::RunStore,
                )
            } else {
                (
                    OrchestratorModel {
                        phase: Phase::Idle,
                        record: m.candidate,
                        candidate: None,
                        ..m
                    },
                    ActionModel::Nothing,
                )
            },
            Err(f) => (
                OrchestratorModel {
                    phase: Phase::Failed,
                    candidate: None,
                    fault: Some(f),
                    ..m
                },
                ActionModel::StartBackoff,
            ),
        },
        EventModel::BackoffElapsed => if m.pending {
            (
                OrchestratorModel { phase: Phase::Snapshotting, pending: false, ..m },
                ActionModel::RunStore,
            )
        } else {
            (OrchestratorModel { phase: Phase::Idle, ..m }, ActionModel::Nothing)
        },
    }
}

/// Every step preserves well-formedness.
pub proof fn lemma_step_preserves_wf(m: OrchestratorModel, ev: EventModel)
    requires
        wf_model(m),
        event_allowed(m, ev),
    ensures
        wf_model(step_spec(m, ev).0),
{
}

/// Idempotence: from rest with `id` already recorded as published, a
/// trigger runs the store, and when the store hands back the same `id` the
/// machine skips the naming service entirely — no publish action, the
/// record untouched, and back to exactly the state it started from. Since
/// the round is a no-op on the state, any number of repeated triggers over
/// an unchanged tree never invokes the publisher again.
pub proof fn lemma_idempotent_skip(m: OrchestratorModel, id: Seq<u8>)
    requires
        wf_model(m),
        m.phase == Phase::Idle,
        m.record == Some(id),
    ensures
        step_spec(m, EventModel::Trigger).1 == ActionModel::RunStore,
        step_spec(
            step_spec(m, EventModel::Trigger).0,
            EventModel::StoreDone(Ok(id)),
        ).1 == ActionModel::Nothing,
        step_spec(
            step_spec(m, EventModel::Trigger).0,
            EventModel::StoreDone(Ok(id)),
        ).0.phase == Phase::Idle,
        step_spec(
            step_spec(m, EventModel::Trigger).0,
            EventModel::StoreDone(Ok(id)),
        ).0.record == m.record,
        step_spec(step_spec(m, EventModel::Trigger).0, EventModel::StoreDone(Ok(id))).0 == m,
{
}

/// Dedup, stated of any snapshot completion: a store result equal to the
/// recorded identifier never issues a publish action, whatever else is
/// going on.
pub proof fn lemma_no_redundant_publish(m: OrchestratorModel, id: Seq<u8>)
    requires
        wf_model(m),
        m.phase == Phase::Snapshotting,
        m.record == Some(id),
    ensures
        !(step_spec(m, EventModel::StoreDone(Ok(id))).1 is RunPublish),
        step_spec(m, EventModel::StoreDone(Ok(id))).0.record == m.record,
{
}

/// Serialization: a trigger arriving while a sequence is in flight (or
/// while a backoff delay runs) starts nothing — no store or publish action,
/// phase, record and candidate unchanged; only the pending bit is set. At
/// most one sequence is ever in flight.
pub proof fn lemma_trigger_queued(m: OrchestratorModel)
    requires
        wf_model(m),
        m.phase != Phase::Idle,
    ensures
        step_spec(m, EventModel::Trigger).1 == ActionModel::Nothing,
        step_spec(m, EventModel::Trigger).0.phase == m.phase,
        step_spec(m, EventModel::Trigger).0.record == m.record,
        step_spec(m, EventModel::Trigger).0.candidate == m.candidate,
        step_spec(m, EventModel::Trigger).0.pending,
{
}

/// Serialization, stated of every step: work actions are issued only as the
/// machine enters the matching in-flight phase, and a step that begins in
/// an in-flight phase issues new work only on the completion event of that
/// very phase — never on a trigger. Hence snapshot-and-publish sequences
/// never overlap.
pub proof fn lemma_serialized(m: OrchestratorModel, ev: EventModel)
    requires
        wf_model(m),
        event_allowed(m, ev),
    ensures
        step_spec(m, ev).1 == ActionModel::RunStore ==> step_spec(m, ev).0.phase
            == Phase::Snapshotting,
        step_spec(m, ev).1 is RunPublish ==> step_spec(m, ev).0.phase == Phase::Publishing,
        in_flight(m) && ev == EventModel::Trigger ==> step_spec(m, ev).1 == ActionModel::Nothing,
{
}

/// Debounce liveness: a queued trigger is consumed exactly by starting the
/// next store run. A step clears the pending bit if and only if it issues
/// `RunStore`, so a trigger queued during an in-flight sequence leads to
/// exactly one further sequence once the machine comes back to rest —
/// never zero, never two.
pub proof fn lemma_pending_consumed(m: OrchestratorModel, ev: EventModel)
    requires
        wf_model(m),
        event_allowed(m, ev),
        m.pending,
    ensures
        step_spec(m, ev).0.pending <==> step_spec(m, ev).1 != ActionModel::RunStore,
{
}

/// Failure isolation: a store failure on one trigger leaves the record
/// untouched, runs the backoff, and the machine is then as ready as ever —
/// a later, independent trigger is served with a fresh store run. A
/// transient failure never wedges the loop.
pub proof fn lemma_failure_isolation(m: OrchestratorModel, f: Fault)
    requires
        wf_model(m),
        m.phase == Phase::Snapshotting,
        !m.pending,
    ensures
        step_spec(m, EventModel::StoreDone(Err(f))).0.phase == Phase::Failed,
        step_spec(m, EventModel::StoreDone(Err(f))).1 == ActionModel::StartBackoff,
        step_spec(m, EventModel::StoreDone(Err(f))).0.record == m.record,
        step_spec(
            step_spec(m, EventModel::StoreDone(Err(f))).0,
            EventModel::BackoffElapsed,
        ).0.phase == Phase::Idle,
        step_spec(
            step_spec(
                step_spec(m, EventModel::StoreDone(Err(f))).0,
                EventModel::BackoffElapsed,
            ).0,
            EventModel::Trigger,
        ).1 == ActionModel::RunStore,
        step_spec(
            step_spec(
                step_spec(m, EventModel::StoreDone(Err(f))).0,
                EventModel::BackoffElapsed,
            ).0,
            EventModel::Trigger,
        ).0.phase == Phase::Snapshotting,
{
}

/// A successful publish records exactly the identifier that was being
/// published; a failed one records nothing, so the next snapshot of the
/// same tree retries the publish.
pub proof fn lemma_publish_outcome(m: OrchestratorModel, f: Fault)
    requires
        wf_model(m),
        m.phase == Phase::Publishing,
    ensures
        step_spec(m, EventModel::PublishDone(Ok(()))).0.record == m.candidate,
        step_spec(m, EventModel::PublishDone(Err(f))).0.record == m.record,
{
}

/// Drives the watch-and-publish pipeline: owns the publish record and
/// decides, on each event, the next piece of external work.
pub struct Orchestrator {
    phase: Phase,
    record: PublishRecord,
    pending: bool,
    candidate: Option<ContentIdentifier>,
    fault: Option<Fault>,
}

impl View for Orchestrator {
    type V = OrchestratorModel;

    closed spec fn view(&self) -> OrchestratorModel {
        OrchestratorModel {
            phase: self.phase,
            record: self.record@,
            pending: self.pending,
            candidate: match self.candidate {
                Some(id) => Some(id@),
                None => None,
            },
            fault: self.fault,
        }
    }
}

impl Orchestrator {
    /// Well-formedness of the machine's state.
    pub open spec fn wf(&self) -> bool {
        wf_model(self@)
    }

    /// A freshly started orchestrator: at rest, nothing published yet.
    pub fn new() -> (r: Self)
        ensures
            r@ == init_model(),
            r.wf(),
    {
        Orchestrator {
            phase: Phase::Idle,
            record: PublishRecord::new(),
            pending: false,
            candidate: None,
            fault: None,
        }
    }

    /// Consumes one event and answers with the next piece of work, exactly
    /// as `step_spec` prescribes.
    pub fn step(&mut self, event: Event) -> (a: Action)
        requires
            old(self).wf(),
            event_allowed(old(self)@, event@),
        ensures
            final(self).wf(),
            final(self)@ == step_spec(old(self)@, event@).0,
            a@ == step_spec(old(self)@, event@).1,
    {
        match event {
            Event::Trigger => {
                if self.phase == Phase::Idle {
                    self.phase = Phase::Snapshotting;
                    Action::RunStore
                } else {
                    self.pending = true;
                    Action::Nothing
                }
            },
            Event::StoreDone(res) => match res {
                Ok(id) => {
                    let same = match self.record.current() {
                        Some(cur) => cur.same_as(&id),
                        None => false,
                    };
                    if same {
                        if self.pending {
                            self.pending = false;
                            Action::RunStore
                        } else {
                            self.phase = Phase::Idle;
                            Action::Nothing
                        }
                    } else {
                        self.phase = Phase::Publishing;
                        let out = id.clone();
                        self.candidate = Some(id);
                        Action::RunPublish(out)
                    }
                },
                Err(f) => {
                    self.phase = Phase::Failed;
                    self.fault = Some(f);
                    Action::StartBackoff
                },
            },
            Event::PublishDone(res) => match res {
                Ok(_) => {
                    let cand = self.candidate.take();
                    match cand {
                        Some(id) => self.record.update(id),
                        None => (),
                    }
                    if self.pending {
                        self.pending = false;
                        self.phase = Phase::Snapshotting;
                        Action::RunStore
                    } else {
                        self.phase = Phase::Idle;
                        Action::Nothing
                    }
                },
                Err(f) => {
                    self.candidate = None;
                    self.phase = Phase::Failed;
                    self.fault = Some(f);
                    Action::StartBackoff
                },
            },
            Event::BackoffElapsed => {
                if self.pending {
                    self.pending = false;
                    self.phase = Phase::Snapshotting;
                    Action::RunStore
                } else {
                    self.phase = Phase::Idle;
                    Action::Nothing
                }
            },
        }
    }

    /// The current phase, for status queries.
    pub fn phase(&self) -> (p: Phase)
        ensures
            p == self@.phase,
    {
        self.phase
    }

    /// Whether a trigger is queued behind in-flight work.
    pub fn has_pending_trigger(&self) -> (r: bool)
        ensures
            r == self@.pending,
    {
        self.pending
    }

    /// The last successfully published identifier, if any.
    pub fn last_published(&self) -> (r: Option<&ContentIdentifier>)
        ensures
            match r {
                Some(id) => self@.record == Some(id@),
                None => self@.record == None::<Seq<u8>>,
            },
    {
        self.record.current()
    }

    /// The most recent transient failure, if any ever occurred.
    pub fn last_fault(&self) -> (f: Option<Fault>)
        ensures
            f == self@.fault,
    {
        self.fault
    }
}

} // verus!
