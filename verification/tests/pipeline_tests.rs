//! The pipeline graph: the one-shot idempotent bootstrap, the fixed
//! stage topology, and the per-stage scheduling decisions.

use dht_pipeline::queue_consumer::{downstream, next_job_or_exit, spawn_queue_consumer_tasks,
    stage_step, InitialQueueTriggers, Job, Stage, StageEvent, StageState, TriggerChannel,
    WorkComplete};

fn five_fresh(capacity: usize) -> InitialQueueTriggers {
    InitialQueueTriggers::new(
        TriggerChannel::with_capacity(capacity),
        TriggerChannel::with_capacity(capacity),
        TriggerChannel::with_capacity(capacity),
        TriggerChannel::with_capacity(capacity),
        TriggerChannel::with_capacity(capacity),
    )
}

fn all_stages() -> [Stage; 5] {
    [
        Stage::Produce,
        Stage::SysValidation,
        Stage::AppValidation,
        Stage::Integration,
        Stage::Publish,
    ]
}

#[test]
fn spawn_wires_five_fresh_channels() {
    let t = spawn_queue_consumer_tasks();
    assert!(!t.initialized);
    for stage in all_stages() {
        assert_eq!(t.queued(stage), 0);
    }
    assert!(t.sys_validation.capacity >= 1);
    assert!(t.produce_dht_ops.capacity >= 1);
    assert!(t.publish_dht_ops.capacity >= 1);
    assert!(t.app_validation.capacity >= 1);
    assert!(t.integrate_dht_ops.capacity >= 1);
}

#[test]
fn bootstrap_fires_each_stage_exactly_once() {
    let mut t = spawn_queue_consumer_tasks();
    // Three sequential invocations: the fan-out runs exactly once.
    t.initialize_workflows();
    t.initialize_workflows();
    t.initialize_workflows();
    assert!(t.initialized);
    for stage in all_stages() {
        assert_eq!(t.queued(stage), 1);
    }
}

#[test]
fn bootstrap_after_activity_changes_nothing() {
    let mut t = five_fresh(4);
    t.initialize_workflows();
    t.trigger_stage(Stage::Publish);
    assert_eq!(t.queued(Stage::Publish), 2);
    t.initialize_workflows();
    assert_eq!(t.queued(Stage::Publish), 2);
    assert_eq!(t.queued(Stage::Produce), 1);
}

#[test]
fn downstream_topology_is_fixed() {
    assert_eq!(downstream(Stage::Produce), Some(Stage::Integration));
    assert_eq!(downstream(Stage::SysValidation), Some(Stage::AppValidation));
    assert_eq!(downstream(Stage::AppValidation), Some(Stage::Integration));
    assert_eq!(downstream(Stage::Integration), Some(Stage::Publish));
    assert_eq!(downstream(Stage::Publish), None);
}

#[test]
fn incomplete_pass_retriggers_itself_and_downstream() {
    let mut t = five_fresh(4);
    t.on_pass_complete(Stage::SysValidation, WorkComplete::Incomplete, true);
    assert_eq!(t.queued(Stage::SysValidation), 1);
    assert_eq!(t.queued(Stage::AppValidation), 1);
    assert_eq!(t.queued(Stage::Produce), 0);
    assert_eq!(t.queued(Stage::Integration), 0);
    assert_eq!(t.queued(Stage::Publish), 0);
}

#[test]
fn complete_pass_only_notifies_downstream() {
    let mut t = five_fresh(4);
    t.on_pass_complete(Stage::Integration, WorkComplete::Complete, true);
    assert_eq!(t.queued(Stage::Integration), 0);
    assert_eq!(t.queued(Stage::Publish), 1);
}

#[test]
fn pass_without_new_data_only_retriggers_itself() {
    let mut t = five_fresh(4);
    t.on_pass_complete(Stage::Publish, WorkComplete::Incomplete, false);
    assert_eq!(t.queued(Stage::Publish), 1);
    for stage in [Stage::Produce, Stage::SysValidation, Stage::AppValidation, Stage::Integration] {
        assert_eq!(t.queued(stage), 0);
    }
    let mut t = five_fresh(4);
    t.on_pass_complete(Stage::Publish, WorkComplete::Complete, false);
    for stage in all_stages() {
        assert_eq!(t.queued(stage), 0);
    }
}

#[test]
fn shutdown_wins_race_against_pending_trigger() {
    let mut rx = TriggerChannel::with_capacity(4);
    rx.trigger();
    assert_eq!(next_job_or_exit(&mut rx, true), Job::Shutdown);
    // Shutdown was taken in place of the trigger: nothing was consumed.
    assert_eq!(rx.queued, 1);
}

#[test]
fn trigger_wakes_one_run() {
    let mut rx = TriggerChannel::with_capacity(4);
    rx.trigger();
    rx.trigger();
    assert_eq!(next_job_or_exit(&mut rx, false), Job::Run);
    assert_eq!(rx.queued, 0);
}

#[test]
fn closed_channel_reads_as_shutdown() {
    let mut rx = TriggerChannel::with_capacity(4);
    rx.close_senders();
    assert_eq!(next_job_or_exit(&mut rx, false), Job::Shutdown);
}

#[test]
fn stage_lifecycle_transitions() {
    assert_eq!(stage_step(StageState::Idle, StageEvent::TriggerObserved), StageState::Running);
    assert_eq!(stage_step(StageState::Idle, StageEvent::ShutdownObserved), StageState::Stopped);
    assert_eq!(stage_step(StageState::Idle, StageEvent::PassComplete), StageState::Idle);
    assert_eq!(stage_step(StageState::Running, StageEvent::PassComplete), StageState::Idle);
    // A running pass always completes before shutdown is observed.
    assert_eq!(stage_step(StageState::Running, StageEvent::ShutdownObserved), StageState::Running);
    assert_eq!(stage_step(StageState::Stopped, StageEvent::TriggerObserved), StageState::Stopped);
    assert_eq!(stage_step(StageState::Stopped, StageEvent::ShutdownObserved), StageState::Stopped);
}
