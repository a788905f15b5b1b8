//! The trigger-driven pipeline scheduler: a coalescing wake-up channel,
//! the fixed five-stage topology, and the one-shot idempotent bootstrap
//! that fires every stage's first trigger.
//!
//! | stage          | consumes            | produces              | notifies     |
//! |----------------|---------------------|-----------------------|--------------|
//! | Sys-Validate   | validation limbo    | validation limbo      | App-Validate |
//! | App-Validate   | validation limbo    | validation limbo      | Integrate    |
//! | Produce        | authored chain      | authored + int. limbo | Integrate    |
//! | Integrate      | integration limbo   | integrated store      | Publish      |
//! | Publish        | authored store      | —                     | —            |
//!
//! Implicitly, every stage also writes back to its own source queue to
//! remove the item it consumed.
//!
//! The channel here is an explicit state machine: how many signals are
//! queued, up to a fixed capacity, and whether each side is still open.
//! An asynchronous runtime owns the actual suspension; the decisions —
//! what a trigger does, what a wakeup drains, when a waiter must be told
//! the channel closed, which stage to nudge next — are all made and
//! proved here.

use vstd::prelude::*;

verus! {

/// Relies on `num_cpus::get`: the number of logical CPUs of the running
/// system, which its documentation promises is always at least one.
#[verifier::external_body]
fn num_cpus_count() -> (n: usize)
    ensures
        1 <= n,
{
    num_cpus::get()
}

/// Declares whether a workflow pass has exhausted its queue.
#[derive(Clone, Copy, Debug, PartialEq, Eq, Structural)]
pub enum WorkComplete {
    /// The queue has been exhausted.
    Complete,
    /// Items still remain on the queue.
    Incomplete,
}

/// The only error a listener can see: every trigger sender was dropped.
/// This is the shutdown-detection path, not an operational failure.
#[derive(Clone, Copy, Debug, PartialEq, Eq, Structural)]
pub struct QueueTriggerClosedError;

/// Tells a stage's loop whether to run one more pass or shut down.
#[derive(Clone, Copy, Debug, PartialEq, Eq, Structural)]
pub enum Job {
    Run,
    Shutdown,
}

/// A coalescing wake-up channel between an upstream producer and one
/// downstream consumer, as an explicit state machine.
#[derive(Clone, Copy, Debug, PartialEq, Eq, Structural)]
pub struct TriggerChannel {
    /// How many signals are queued, at most `capacity`.
    pub queued: usize,
    /// The channel's buffer bound; excess triggers coalesce against it.
    pub capacity: usize,
    /// Whether any trigger sender is still alive.
    pub senders_open: bool,
    /// Whether the listening consumer is still alive.
    pub receiver_open: bool,
}

/// What one `trigger` call does: enqueue a signal if the consumer is
/// alive and the buffer has room; coalesce silently against a full
/// buffer; drop silently into a closed channel. No case is an error for
/// the triggering side.
pub open spec fn spec_trigger(c: TriggerChannel) -> TriggerChannel {
    if !c.receiver_open {
        c
    } else if c.queued < c.capacity {
        TriggerChannel {
            queued: (c.queued + 1) as usize,
            capacity: c.capacity,
            senders_open: c.senders_open,
            receiver_open: c.receiver_open,
        }
    } else {
        c
    }
}

/// `n` consecutive `trigger` calls.
pub open spec fn spec_trigger_n(c: TriggerChannel, n: nat) -> TriggerChannel
    decreases n,
{
    if n == 0 {
        c
    } else {
        spec_trigger(spec_trigger_n(c, (n - 1) as nat))
    }
}

impl TriggerChannel {
    /// The channel's internal invariant: a positive buffer bound that the
    /// queued signals never exceed.
    pub open spec fn well_formed(&self) -> bool {
        1 <= self.capacity && self.queued <= self.capacity
    }

    /// A fresh channel: empty, with both sides open.
    pub open spec fn spec_fresh(&self) -> bool {
        self.well_formed() && self.queued == 0 && self.senders_open && self.receiver_open
    }

    /// A new channel for waking a consumer.
    ///
    /// The buffer is set to the number of CPUs, as a bound on how many
    /// producer threads could race a signal in before coalescing matters.
    pub fn new() -> (c: TriggerChannel)
        ensures
            c.spec_fresh(),
    {
        let capacity = num_cpus_count();
        TriggerChannel { queued: 0, capacity, senders_open: true, receiver_open: true }
    }

    /// A new channel with a chosen buffer bound.
    pub fn with_capacity(capacity: usize) -> (c: TriggerChannel)
        requires
            1 <= capacity,
        ensures
            c.spec_fresh(),
            c.capacity == capacity,
    {
        TriggerChannel { queued: 0, capacity, senders_open: true, receiver_open: true }
    }

    /// Lazily nudge the consumer: never blocks, never fails, and loses no
    /// wakeup — a pending signal already guarantees one.
    pub fn trigger(&mut self)
        requires
            old(self).well_formed(),
        ensures
            *final(self) == spec_trigger(*old(self)),
            final(self).well_formed(),
    {
        if self.receiver_open && self.queued < self.capacity {
            self.queued = self.queued + 1;
        }
    }

    /// Whether a `listen` call would resolve rather than suspend: a
    /// signal is queued, or the senders are gone.
    pub fn listen_ready(&self) -> (r: bool)
        ensures
            r == (self.queued > 0 || !self.senders_open),
    {
        self.queued > 0 || !self.senders_open
    }

    /// Resolve one wakeup: drain every queued signal, so that any number
    /// of triggers since the last wakeup collapse into this one. Reports
    /// the closed channel — all senders dropped — even if signals were
    /// still queued, since shutdown takes priority.
    ///
    /// The caller suspends until [`Self::listen_ready`]; this models the
    /// resolution of that wait.
    pub fn listen(&mut self) -> (r: Result<(), QueueTriggerClosedError>)
        requires
            old(self).well_formed(),
            old(self).queued > 0 || !old(self).senders_open,
        ensures
            final(self).well_formed(),
            final(self).queued == 0,
            final(self).capacity == old(self).capacity,
            final(self).senders_open == old(self).senders_open,
            final(self).receiver_open == old(self).receiver_open,
            r is Ok <==> old(self).senders_open,
    {
        self.queued = 0;
        if self.senders_open {
            Ok(())
        } else {
            Err(QueueTriggerClosedError)
        }
    }

    /// The last trigger sender is dropped.
    pub fn close_senders(&mut self)
        ensures
            *final(self) == (TriggerChannel { senders_open: false, ..*old(self) }),
    {
        self.senders_open = false;
    }

    /// The listening consumer is dropped.
    pub fn close_receiver(&mut self)
        ensures
            *final(self) == (TriggerChannel { receiver_open: false, ..*old(self) }),
    {
        self.receiver_open = false;
    }
}

/// Triggering preserves the channel's invariant, its capacity and both
/// sides' liveness; only the queued count can move, and never past the
/// capacity.
pub proof fn lemma_trigger_preserves(c: TriggerChannel)
    requires
        c.well_formed(),
    ensures
        spec_trigger(c).well_formed(),
        spec_trigger(c).capacity == c.capacity,
        spec_trigger(c).senders_open == c.senders_open,
        spec_trigger(c).receiver_open == c.receiver_open,
        spec_trigger(c).queued >= c.queued,
{
}

/// Coalescing: any run of `n >= 1` triggers into a live channel leaves at
/// least one signal queued — so the next `listen` resolves, exactly once,
/// draining all of them; a further `listen` would find an empty channel
/// and suspend again. How large `n` is cannot be observed.
pub proof fn lemma_trigger_coalescing(c: TriggerChannel, n: nat)
    requires
        c.well_formed(),
        c.receiver_open,
        n >= 1,
    ensures
        spec_trigger_n(c, n).well_formed(),
        spec_trigger_n(c, n).queued > 0,
        spec_trigger_n(c, n).capacity == c.capacity,
        spec_trigger_n(c, n).senders_open == c.senders_open,
        spec_trigger_n(c, n).receiver_open == c.receiver_open,
    decreases n,
{
    if n == 1 {
        assert(spec_trigger_n(c, 0) == c);
    } else {
        lemma_trigger_coalescing(c, (n - 1) as nat);
    }
}

/// Wait for the next job or the exit command: the decision a stage makes
/// each time it wakes. Shutdown wins a race against a pending trigger,
/// and a closed trigger channel is itself the shutdown signal.
pub fn next_job_or_exit(rx: &mut TriggerChannel, stop_ready: bool) -> (j: Job)
    requires
        old(rx).well_formed(),
        stop_ready || old(rx).queued > 0 || !old(rx).senders_open,
    ensures
        final(rx).well_formed(),
        stop_ready ==> j == Job::Shutdown && *final(rx) == *old(rx),
        !stop_ready ==> {
            &&& final(rx).queued == 0
            &&& final(rx).capacity == old(rx).capacity
            &&& final(rx).senders_open == old(rx).senders_open
            &&& final(rx).receiver_open == old(rx).receiver_open
            &&& (j == Job::Shutdown <==> !old(rx).senders_open)
        },
{
    if stop_ready {
        return Job::Shutdown;
    }
    match rx.listen() {
        Ok(_) => Job::Run,
        Err(_) => Job::Shutdown,
    }
}

/// The five pipeline stages.
#[derive(Clone, Copy, Debug, PartialEq, Eq, Structural)]
pub enum Stage {
    /// Turns the authored chain sequence into operations.
    Produce,
    /// Checks an operation's prerequisites via the dependency resolver.
    SysValidation,
    /// Runs the application's own validation rules.
    AppValidation,
    /// Moves judged operations into the integrated store.
    Integration,
    /// Publishes authored operations to peers.
    Publish,
}

/// The fixed topology: which stage each stage notifies when it produced
/// new data. Gossip and authoring paths share the integration segment.
pub open spec fn spec_downstream(stage: Stage) -> Option<Stage> {
    match stage {
        Stage::Produce => Some(Stage::Integration),
        Stage::SysValidation => Some(Stage::AppValidation),
        Stage::AppValidation => Some(Stage::Integration),
        Stage::Integration => Some(Stage::Publish),
        Stage::Publish => None,
    }
}

/// Executable form of [`spec_downstream`].
pub fn downstream(stage: Stage) -> (r: Option<Stage>)
    ensures
        r == spec_downstream(stage),
{
    match stage {
        Stage::Produce => Some(Stage::Integration),
        Stage::SysValidation => Some(Stage::AppValidation),
        Stage::AppValidation => Some(Stage::Integration),
        Stage::Integration => Some(Stage::Publish),
        Stage::Publish => None,
    }
}

/// One stage's lifecycle: awaiting a trigger, executing one pass, or
/// terminally stopped.
#[derive(Clone, Copy, Debug, PartialEq, Eq, Structural)]
pub enum StageState {
    /// Awaiting a trigger or the shutdown signal.
    Idle,
    /// Executing one pass of the stage's workflow.
    Running,
    /// Shut down; terminal.
    Stopped,
}

/// What a stage's loop can observe.
#[derive(Clone, Copy, Debug, PartialEq, Eq, Structural)]
pub enum StageEvent {
    /// A wakeup resolved on the stage's trigger channel.
    TriggerObserved,
    /// The shutdown broadcast, or the trigger channel closing.
    ShutdownObserved,
    /// The workflow pass finished, its transaction committed or aborted.
    PassComplete,
}

/// The stage lifecycle transitions: a trigger starts a pass, a finished
/// pass returns to waiting, and shutdown is observed only while waiting —
/// a running pass always completes its transaction first. `Stopped` is
/// terminal.
pub open spec fn spec_stage_step(state: StageState, event: StageEvent) -> StageState {
    match (state, event) {
        (StageState::Idle, StageEvent::TriggerObserved) => StageState::Running,
        (StageState::Idle, StageEvent::ShutdownObserved) => StageState::Stopped,
        (StageState::Idle, StageEvent::PassComplete) => StageState::Idle,
        (StageState::Running, StageEvent::PassComplete) => StageState::Idle,
        (StageState::Running, _) => StageState::Running,
        (StageState::Stopped, _) => StageState::Stopped,
    }
}

/// Executable form of [`spec_stage_step`].
pub fn stage_step(state: StageState, event: StageEvent) -> (r: StageState)
    ensures
        r == spec_stage_step(state, event),
{
    match (state, event) {
        (StageState::Idle, StageEvent::TriggerObserved) => StageState::Running,
        (StageState::Idle, StageEvent::ShutdownObserved) => StageState::Stopped,
        (StageState::Idle, StageEvent::PassComplete) => StageState::Idle,
        (StageState::Running, StageEvent::PassComplete) => StageState::Idle,
        (StageState::Running, _) => StageState::Running,
        (StageState::Stopped, _) => StageState::Stopped,
    }
}

/// The entry points for kicking off a chain reaction of queue activity:
/// one trigger channel per stage, and the run-once bootstrap guard.
#[derive(Clone, Copy, Debug, PartialEq, Eq, Structural)]
pub struct InitialQueueTriggers {
    /// Notifies the Sys-Validate workflow, i.e. after handling gossip.
    pub sys_validation: TriggerChannel,
    /// Notifies the Produce workflow, i.e. after an application commit.
    pub produce_dht_ops: TriggerChannel,
    /// Notifies the Publish workflow.
    pub publish_dht_ops: TriggerChannel,
    /// Notifies the App-Validate workflow.
    pub app_validation: TriggerChannel,
    /// Notifies the Integrate workflow.
    pub integrate_dht_ops: TriggerChannel,
    /// The run-once guard: whether the bootstrap fan-out already ran.
    pub initialized: bool,
}

/// The channel that wakes a given stage.
pub open spec fn spec_channel(t: InitialQueueTriggers, stage: Stage) -> TriggerChannel {
    match stage {
        Stage::Produce => t.produce_dht_ops,
        Stage::SysValidation => t.sys_validation,
        Stage::AppValidation => t.app_validation,
        Stage::Integration => t.integrate_dht_ops,
        Stage::Publish => t.publish_dht_ops,
    }
}

/// The triggers with one stage's channel triggered and the rest as they
/// were.
pub open spec fn spec_trigger_stage(t: InitialQueueTriggers, stage: Stage) -> InitialQueueTriggers {
    match stage {
        Stage::Produce => InitialQueueTriggers {
            produce_dht_ops: spec_trigger(t.produce_dht_ops),
            ..t
        },
        Stage::SysValidation => InitialQueueTriggers {
            sys_validation: spec_trigger(t.sys_validation),
            ..t
        },
        Stage::AppValidation => InitialQueueTriggers {
            app_validation: spec_trigger(t.app_validation),
            ..t
        },
        Stage::Integration => InitialQueueTriggers {
            integrate_dht_ops: spec_trigger(t.integrate_dht_ops),
            ..t
        },
        Stage::Publish => InitialQueueTriggers {
            publish_dht_ops: spec_trigger(t.publish_dht_ops),
            ..t
        },
    }
}

/// The one-shot bootstrap fan-out: on the first call every stage's
/// trigger fires once and the guard latches; after that, nothing.
pub open spec fn spec_initialize(t: InitialQueueTriggers) -> InitialQueueTriggers {
    if t.initialized {
        t
    } else {
        InitialQueueTriggers {
            sys_validation: spec_trigger(t.sys_validation),
            produce_dht_ops: spec_trigger(t.produce_dht_ops),
            publish_dht_ops: spec_trigger(t.publish_dht_ops),
            app_validation: spec_trigger(t.app_validation),
            integrate_dht_ops: spec_trigger(t.integrate_dht_ops),
            initialized: true,
        }
    }
}

/// `k` consecutive bootstrap calls.
pub open spec fn spec_initialize_n(t: InitialQueueTriggers, k: nat) -> InitialQueueTriggers
    decreases k,
{
    if k == 0 {
        t
    } else {
        spec_initialize(spec_initialize_n(t, (k - 1) as nat))
    }
}

/// What a completed stage pass does to the triggers: the stage re-nudges
/// itself if its queue still holds work, and nudges its downstream stage
/// if the pass produced new data for it.
pub open spec fn spec_on_pass_complete(
    t: InitialQueueTriggers,
    stage: Stage,
    outcome: WorkComplete,
    produced: bool,
) -> InitialQueueTriggers {
    let t1 = if outcome is Incomplete {
        spec_trigger_stage(t, stage)
    } else {
        t
    };
    if produced {
        match spec_downstream(stage) {
            Some(next) => spec_trigger_stage(t1, next),
            None => t1,
        }
    } else {
        t1
    }
}

impl InitialQueueTriggers {
    /// All five channels hold their invariant.
    pub open spec fn well_formed(&self) -> bool {
        &&& self.sys_validation.well_formed()
        &&& self.produce_dht_ops.well_formed()
        &&& self.publish_dht_ops.well_formed()
        &&& self.app_validation.well_formed()
        &&& self.integrate_dht_ops.well_formed()
    }

    /// All five channels are fresh: empty and fully open.
    pub open spec fn spec_all_fresh(&self) -> bool {
        &&& self.sys_validation.spec_fresh()
        &&& self.produce_dht_ops.spec_fresh()
        &&& self.publish_dht_ops.spec_fresh()
        &&& self.app_validation.spec_fresh()
        &&& self.integrate_dht_ops.spec_fresh()
    }

    /// Wire five freshly created stage channels, with the bootstrap
    /// still to run.
    pub fn new(
        sys_validation: TriggerChannel,
        produce_dht_ops: TriggerChannel,
        publish_dht_ops: TriggerChannel,
        app_validation: TriggerChannel,
        integrate_dht_ops: TriggerChannel,
    ) -> (r: InitialQueueTriggers)
        ensures
            r == (InitialQueueTriggers {
                sys_validation,
                produce_dht_ops,
                publish_dht_ops,
                app_validation,
                integrate_dht_ops,
                initialized: false,
            }),
    {
        InitialQueueTriggers {
            sys_validation,
            produce_dht_ops,
            publish_dht_ops,
            app_validation,
            integrate_dht_ops,
            initialized: false,
        }
    }

    /// The queued wakeups of one stage's channel.
    pub fn queued(&self, stage: Stage) -> (r: usize)
        ensures
            r == spec_channel(*self, stage).queued,
    {
        match stage {
            Stage::Produce => self.produce_dht_ops.queued,
            Stage::SysValidation => self.sys_validation.queued,
            Stage::AppValidation => self.app_validation.queued,
            Stage::Integration => self.integrate_dht_ops.queued,
            Stage::Publish => self.publish_dht_ops.queued,
        }
    }

    /// Nudge one stage.
    pub fn trigger_stage(&mut self, stage: Stage)
        requires
            old(self).well_formed(),
        ensures
            *final(self) == spec_trigger_stage(*old(self), stage),
            final(self).well_formed(),
    {
        match stage {
            Stage::Produce => self.produce_dht_ops.trigger(),
            Stage::SysValidation => self.sys_validation.trigger(),
            Stage::AppValidation => self.app_validation.trigger(),
            Stage::Integration => self.integrate_dht_ops.trigger(),
            Stage::Publish => self.publish_dht_ops.trigger(),
        }
    }

    /// Initialize all the workflows once. This fires every stage's first
    /// trigger exactly once, however many times and from however many
    /// callers it is invoked — without it the pipeline, being entirely
    /// trigger-driven, would deadlock with zero initial signals.
    pub fn initialize_workflows(&mut self)
        requires
            old(self).well_formed(),
        ensures
            *final(self) == spec_initialize(*old(self)),
            final(self).well_formed(),
    {
        if !self.initialized {
            self.sys_validation.trigger();
            self.app_validation.trigger();
            self.publish_dht_ops.trigger();
            self.integrate_dht_ops.trigger();
            self.produce_dht_ops.trigger();
            self.initialized = true;
        }
    }

    /// Fire the triggers a completed stage pass owes: the stage itself on
    /// [`WorkComplete::Incomplete`], and its downstream stage when the
    /// pass produced new data.
    pub fn on_pass_complete(&mut self, stage: Stage, outcome: WorkComplete, produced: bool)
        requires
            old(self).well_formed(),
        ensures
            *final(self) == spec_on_pass_complete(*old(self), stage, outcome, produced),
            final(self).well_formed(),
    {
        match outcome {
            WorkComplete::Incomplete => self.trigger_stage(stage),
            WorkComplete::Complete => {},
        }
        if produced {
            match downstream(stage) {
                Some(next) => self.trigger_stage(next),
                None => {},
            }
        }
    }
}

/// Build the five stage trigger channels and wire them into the fixed
/// topology, ready for their long-running consumer tasks; the bootstrap
/// fan-out has not run yet.
pub fn spawn_queue_consumer_tasks() -> (r: InitialQueueTriggers)
    ensures
        r.spec_all_fresh(),
        r.well_formed(),
        !r.initialized,
{
    let tx_publish = TriggerChannel::new();
    let tx_integration = TriggerChannel::new();
    let tx_app = TriggerChannel::new();
    let tx_sys = TriggerChannel::new();
    let tx_produce = TriggerChannel::new();
    InitialQueueTriggers::new(tx_sys, tx_produce, tx_publish, tx_app, tx_integration)
}

/// The bootstrap is idempotent: a second fan-out changes nothing.
pub proof fn lemma_initialize_idempotent(t: InitialQueueTriggers)
    ensures
        spec_initialize(spec_initialize(t)) == spec_initialize(t),
{
}

/// Idempotent bootstrap: any `k >= 1` bootstrap calls, in any
/// interleaving of callers, amount to exactly the first one.
pub proof fn lemma_initialize_once(t: InitialQueueTriggers, k: nat)
    requires
        k >= 1,
    ensures
        spec_initialize_n(t, k) == spec_initialize(t),
    decreases k,
{
    if k == 1 {
        assert(spec_initialize_n(t, 0) == t);
    } else {
        lemma_initialize_once(t, (k - 1) as nat);
        lemma_initialize_idempotent(t);
    }
}

/// On freshly wired channels the single effective bootstrap leaves
/// exactly one queued wakeup on every stage: each trigger fired exactly
/// once.
pub proof fn lemma_initialize_fires_each_once(t: InitialQueueTriggers)
    requires
        t.spec_all_fresh(),
        !t.initialized,
    ensures
        spec_initialize(t).sys_validation.queued == 1,
        spec_initialize(t).produce_dht_ops.queued == 1,
        spec_initialize(t).publish_dht_ops.queued == 1,
        spec_initialize(t).app_validation.queued == 1,
        spec_initialize(t).integrate_dht_ops.queued == 1,
        spec_initialize(t).initialized,
{
}

} // verus!
