use axial_state::contracts::OperationId;
use axial_state::install_queue::{InstallQueue, MAX_COMPLETED_QUEUE_OUTCOMES};
use axial_state::install_sessions::{InstallAdmissionError, InstallInitializationStatus};
use axial_state::install_store::{
    unix_millis, worker_exit_deferred_nonterminal, worker_exit_interrupt_if_active,
    worker_exit_reconcile_terminal, worker_failure_exit, InstallAdmissionMarker,
    InstallQueueStartAuthority, InstallStore, WorkerStep,
};
use axial_state::install_types::{
    ContentKind, ContentQueueAction, DownloadProgress, Instance, InstallProgressRecord,
    InstallQueueAdmission, InstallQueueEnqueueOutcome, InstallQueuePlacement,
    InstallQueueReservation, InstallQueueSpec, InstallQueueStartFailureDisposition,
    InstallQueueStartReconciliation, InstallSnapshot, InstallWorkerExit, LoaderComponentId,
    QueuedContentSelection, QueuedInstallEntry, SetupInstanceBaseline, SetupInstanceCleanup,
    SetupInstancePathKind, SetupInstancePathSnapshot,
};

const NOW_MS: u64 = 1_750_000_000_000;

fn operation(name: &str) -> OperationId {
    let mut bits: u128 = 0x6c62272e07bb014262b821756295c58d;
    for byte in name.bytes() {
        bits = (bits ^ u128::from(byte)).wrapping_mul(0x0000000001000000000000000000013b);
    }
    OperationId::from_random_bits(bits)
}

fn insert(store: &mut InstallStore, install_id: &str) {
    store
        .admit_install(install_id.to_string(), operation(install_id), NOW_MS)
        .expect("operation id is unique");
}

fn insert_or_existing_vanilla(
    store: &mut InstallStore,
    install_id: &str,
    version_id: &str,
) -> (String, bool) {
    store
        .admit_or_existing_vanilla(
            install_id.to_string(),
            operation(install_id),
            version_id.to_string(),
            NOW_MS,
        )
        .expect("operation id is unique")
}

fn insert_or_existing_loader(
    store: &mut InstallStore,
    install_id: &str,
    component_id: LoaderComponentId,
    build_id: &str,
) -> (String, bool) {
    store
        .admit_or_existing_loader(
            install_id.to_string(),
            operation(install_id),
            component_id,
            build_id.to_string(),
            NOW_MS,
        )
        .expect("operation id is unique")
}

fn build_id_for(_component: LoaderComponentId, minecraft: &str, loader: &str) -> String {
    format!("fabric:{minecraft}:{loader}")
}

fn done_progress() -> DownloadProgress {
    DownloadProgress {
        phase: "done".to_string(),
        current: 1,
        total: 1,
        file: None,
        error: None,
        done: true,
        bytes_done: None,
        bytes_total: None,
    }
}

fn failed_progress() -> DownloadProgress {
    DownloadProgress {
        phase: "error".to_string(),
        current: 0,
        total: 0,
        file: None,
        error: Some("failed".to_string()),
        done: true,
        bytes_done: None,
        bytes_total: None,
    }
}

fn base_progress(phase: &str, done: bool) -> DownloadProgress {
    DownloadProgress {
        phase: phase.to_string(),
        current: if done { 1 } else { 0 },
        total: if done { 1 } else { 0 },
        file: None,
        error: None,
        done,
        bytes_done: None,
        bytes_total: None,
    }
}

fn latest_phase(snapshot: &InstallSnapshot) -> Option<&str> {
    snapshot.latest.as_ref().map(|record| record.progress.phase.as_str())
}

fn dependent_content(prerequisite: &str) -> InstallQueueSpec {
    InstallQueueSpec::Content {
        instance_id: "instance".to_string(),
        label: "Dependent content".to_string(),
        action: ContentQueueAction::Install {
            selections: Vec::new(),
            allow_incompatible: false,
            setup_cleanup: None,
        },
        prerequisite_queue_id: Some(prerequisite.to_string()),
    }
}

#[test]
fn queue_outcomes_keep_reused_ids_recent_and_unique() {
    let mut queue = InstallQueue::new();
    queue.record_queue_outcome("reused", false);
    for index in 0..MAX_COMPLETED_QUEUE_OUTCOMES - 1 {
        queue.record_queue_outcome(&format!("older-{index}"), true);
    }

    queue.record_queue_outcome("reused", true);
    queue.record_queue_outcome("newest", true);

    assert_eq!(queue.queued_install_succeeded("reused"), Some(true));
    assert_eq!(
        queue.outcomes().iter().filter(|outcome| outcome.queue_id.as_str() == "reused").count(),
        1
    );
    assert_eq!(queue.outcomes().len(), MAX_COMPLETED_QUEUE_OUTCOMES);
    assert_eq!(queue.queued_install_succeeded("older-0"), None);
    assert_eq!(queue.queued_install_succeeded("newest"), Some(true));
}

#[test]
fn queue_outcomes_remain_until_pending_dependents_finish() {
    let mut store = InstallStore::new();
    store.enqueue_queued_install(
        "dependent".to_string(),
        dependent_content("prerequisite"),
        InstallQueuePlacement::Back,
    );
    store.queue.record_queue_outcome("prerequisite", true);
    for index in 0..MAX_COMPLETED_QUEUE_OUTCOMES {
        store.queue.record_queue_outcome(&format!("newer-{index}"), true);
    }
    assert_eq!(store.queue.outcomes().len(), MAX_COMPLETED_QUEUE_OUTCOMES);

    assert_eq!(store.queued_install_succeeded("prerequisite"), Some(true));
    let dependent = store.reserve_next_queued_install().reserved().expect("reserve dependent");
    assert_eq!(dependent.queue_id, "dependent");
    assert_eq!(
        store.queued_install_succeeded("prerequisite"),
        Some(true),
        "the active dependent must retain its prerequisite outcome"
    );

    store.complete_reserved_queued_install("dependent", true).expect("complete dependent");
    assert_eq!(store.queued_install_succeeded("prerequisite"), None);
    assert_eq!(store.queue.outcomes().len(), MAX_COMPLETED_QUEUE_OUTCOMES);
}

#[test]
fn install_insert_or_existing_reuses_active_matching_key() {
    let mut store = InstallStore::new();
    let (first_id, first_inserted) =
        insert_or_existing_vanilla(&mut store, "first-install", "1.21.5");
    let (second_id, second_inserted) =
        insert_or_existing_vanilla(&mut store, "second-install", "1.21.5");

    assert_eq!(first_id, "first-install");
    assert!(first_inserted);
    assert_eq!(second_id, "first-install");
    assert!(!second_inserted);
    assert_eq!(store.active_install_count(), 1);
    assert!(store.subscribe_records("second-install").is_none());
}

#[test]
fn install_insert_prunes_done_entries() {
    let mut store = InstallStore::new();
    insert(&mut store, "done-install");
    insert(&mut store, "active-install");
    store.emit("done-install", done_progress());
    let snapshot = store
        .subscribe_records("done-install")
        .expect("terminal install remains subscribable until pruned");
    assert!(snapshot.done);
    assert_eq!(latest_phase(&snapshot), Some("done"));

    insert(&mut store, "fresh-install");

    assert!(store.subscribe_records("done-install").is_none());
    assert!(store.subscribe_records("active-install").is_some());
    assert!(store.subscribe_records("fresh-install").is_some());
    assert_eq!(store.active_install_count(), 2);
}

#[test]
fn install_insert_or_existing_prunes_done_entries_and_reuses_active_match() {
    let mut store = InstallStore::new();
    insert_or_existing_vanilla(&mut store, "done-install", "1.21.4");
    insert_or_existing_vanilla(&mut store, "active-install", "1.21.5");
    store.emit("done-install", done_progress());
    let snapshot = store
        .subscribe_records("done-install")
        .expect("terminal install remains subscribable until pruned");
    assert!(snapshot.done);
    assert_eq!(latest_phase(&snapshot), Some("done"));

    let (install_id, inserted) =
        insert_or_existing_vanilla(&mut store, "duplicate-active-install", "1.21.5");

    assert_eq!(install_id, "active-install");
    assert!(!inserted);
    assert!(store.subscribe_records("done-install").is_none());
    assert!(store.subscribe_records("duplicate-active-install").is_none());
    assert_eq!(store.active_install_count(), 1);
}

#[test]
fn install_insert_or_existing_trims_matching_key_fields() {
    let mut store = InstallStore::new();
    insert_or_existing_vanilla(&mut store, "trimmed-install", " 1.21.5 ");

    let (install_id, inserted) =
        insert_or_existing_vanilla(&mut store, "duplicate-install", "1.21.5");

    assert_eq!(install_id, "trimmed-install");
    assert!(!inserted);
}

#[test]
fn install_insert_or_existing_allows_fresh_install_after_done() {
    let mut store = InstallStore::new();
    insert_or_existing_vanilla(&mut store, "done-install", "1.21.5");
    store.emit("done-install", done_progress());
    let snapshot = store
        .subscribe_records("done-install")
        .expect("terminal install remains subscribable until pruned");
    assert!(snapshot.done);
    assert_eq!(latest_phase(&snapshot), Some("done"));

    let (install_id, inserted) = insert_or_existing_vanilla(&mut store, "fresh-install", "1.21.5");

    assert_eq!(install_id, "fresh-install");
    assert!(inserted);
    assert!(store.subscribe_records("done-install").is_none());
    assert!(store.subscribe_records("fresh-install").is_some());
    assert_eq!(store.active_install_count(), 1);
}

#[test]
fn install_insert_or_existing_allows_fresh_install_after_remove() {
    let mut store = InstallStore::new();
    insert_or_existing_vanilla(&mut store, "removed-install", "1.21.5");
    store.remove("removed-install");

    let (install_id, inserted) = insert_or_existing_vanilla(&mut store, "fresh-install", "1.21.5");

    assert_eq!(install_id, "fresh-install");
    assert!(inserted);
    assert_eq!(store.active_install_count(), 1);
}

#[test]
fn finish_if_active_marks_session_done_and_allows_fresh_retry() {
    let mut store = InstallStore::new();
    insert_or_existing_vanilla(&mut store, "interrupted-install", "1.21.5");

    assert!(store.finish_if_active("interrupted-install", failed_progress()));
    assert_eq!(store.active_install_count(), 0);

    let (install_id, inserted) = insert_or_existing_vanilla(&mut store, "fresh-install", "1.21.5");

    assert_eq!(install_id, "fresh-install");
    assert!(inserted);
    assert!(store.subscribe_records("interrupted-install").is_none());
    assert_eq!(store.active_install_count(), 1);
}

#[test]
fn finish_if_active_ignores_already_done_sessions() {
    let mut store = InstallStore::new();
    insert(&mut store, "done-install");
    store.emit("done-install", done_progress());

    assert!(!store.finish_if_active("done-install", failed_progress()));

    let snapshot =
        store.subscribe_records("done-install").expect("done install remains until pruned");
    assert!(snapshot.done);
    assert_eq!(latest_phase(&snapshot), Some("done"));
}

#[test]
fn emit_ignores_late_progress_after_terminal_session() {
    let mut store = InstallStore::new();
    insert(&mut store, "done-install");
    store.emit("done-install", done_progress());
    store.emit("done-install", base_progress("libraries", false));
    store.emit("done-install", base_progress("assets", true));

    let snapshot =
        store.subscribe_records("done-install").expect("done install remains until pruned");

    assert!(snapshot.done);
    assert_eq!(latest_phase(&snapshot), Some("done"));
}

#[test]
fn install_snapshot_keeps_only_latest_progress_under_many_events() {
    let mut store = InstallStore::new();
    insert(&mut store, "active-install");

    for current in 1..=5_000 {
        store.emit(
            "active-install",
            DownloadProgress {
                phase: "java_runtime".to_string(),
                current,
                total: 5_000,
                file: Some(format!("file-{current}")),
                error: None,
                done: false,
                bytes_done: Some(current as u64),
                bytes_total: Some(5_000),
            },
        );
    }

    let snapshot =
        store.subscribe_records("active-install").expect("active install remains subscribable");
    let latest = snapshot.latest.expect("latest progress");

    assert!(!snapshot.done);
    assert_eq!(latest.progress.phase, "java_runtime");
    assert_eq!(latest.progress.current, 5_000);
    assert_eq!(latest.progress.file.as_deref(), Some("file-5000"));
}

#[test]
fn release_active_queued_install_to_front_restores_pending_item() {
    let mut store = InstallStore::new();
    let spec = InstallQueueSpec::vanilla("1.21.5".to_string());
    store.enqueue_queued_install(
        "queue-install".to_string(),
        spec.clone(),
        InstallQueuePlacement::Back,
    );

    let reserved = store.reserve_next_queued_install().reserved().expect("queued install");

    assert_eq!(reserved.queue_id, "queue-install");
    assert!(store.release_active_queued_install_to_front("queue-install"));
    let snapshot = store.queue_snapshot();
    assert!(snapshot.active.is_none());
    assert_eq!(snapshot.pending.len(), 1);
    assert_eq!(snapshot.pending[0].queue_id, "queue-install");
    assert_eq!(snapshot.pending[0].spec, spec);
}

#[test]
fn unlinked_queue_settlement_cannot_remove_a_linked_install() {
    let mut store = InstallStore::new();
    let queue_id = "linked-queue";
    let install_id = "linked-install";
    store.enqueue_queued_install(
        queue_id.to_string(),
        InstallQueueSpec::vanilla("1.21.5".to_string()),
        InstallQueuePlacement::Back,
    );
    store.reserve_next_queued_install().reserved().expect("reserve queue");
    insert(&mut store, install_id);
    assert!(store.mark_queued_install_started(queue_id, install_id.to_string(), NOW_MS));

    assert!(store.complete_reserved_queued_install(queue_id, false).is_none());
    assert!(!store.discard_active_queued_install(queue_id));
    let active = store.queue_snapshot().active.expect("linked queue remains active");
    assert_eq!(active.queue_id, queue_id);
    assert_eq!(active.install_id.as_deref(), Some(install_id));
}

#[test]
fn queued_admission_reuses_exact_existing_install_identity_atomically() {
    let mut store = InstallStore::new();
    let queue_id = "queue-existing";
    store.enqueue_queued_install(
        queue_id.to_string(),
        InstallQueueSpec::vanilla("1.21.5".to_string()),
        InstallQueuePlacement::Back,
    );
    let reserved = store.reserve_next_queued_install().reserved().expect("queued install");
    let authority = InstallQueueStartAuthority::authorize(&reserved.queue_id);
    let existing_operation = operation("existing-operation");
    store
        .admit_or_existing_vanilla(
            "existing-install".to_string(),
            existing_operation,
            "1.21.5".to_string(),
            NOW_MS,
        )
        .expect("insert existing matching install");
    let mut marker = InstallAdmissionMarker::new();

    assert_eq!(
        store.admit_queued_vanilla(
            &authority,
            &mut marker,
            "duplicate-install".to_string(),
            operation("duplicate-operation"),
            "1.21.5".to_string(),
            NOW_MS + 1,
        ),
        InstallQueueAdmission::Existing {
            install_id: "existing-install".to_string(),
            operation_id: existing_operation,
        }
    );
    assert!(!marker.is_admitted());
    assert_eq!(store.active_install_count(), 1);
    let active = store.queue_snapshot().active.expect("queue remains active");
    assert_eq!(active.queue_id, queue_id);
    assert_eq!(active.install_id.as_deref(), Some("existing-install"));
    assert_eq!(active.install_started_at_ms, Some(NOW_MS));
}

#[test]
fn queued_admission_blocked_after_reservation_restores_exact_head() {
    let mut store = InstallStore::new();
    for (queue_id, version_id) in [("blocked-head", "1.21.5"), ("existing-tail", "1.21.6")] {
        store.enqueue_queued_install(
            queue_id.to_string(),
            InstallQueueSpec::vanilla(version_id.to_string()),
            InstallQueuePlacement::Back,
        );
    }
    let reserved = store.reserve_next_queued_install().reserved().expect("queued install");
    let authority = InstallQueueStartAuthority::authorize(&reserved.queue_id);
    insert_or_existing_vanilla(&mut store, "unrelated-live-install", "1.20.6");
    let mut marker = InstallAdmissionMarker::new();

    assert_eq!(
        store.admit_queued_vanilla(
            &authority,
            &mut marker,
            "blocked-install".to_string(),
            operation("blocked-operation"),
            "1.21.5".to_string(),
            NOW_MS,
        ),
        InstallQueueAdmission::BlockedByLiveSession
    );
    assert!(!marker.is_admitted());
    assert!(store.release_active_queued_install_to_front("blocked-head"));
    let snapshot = store.queue_snapshot();
    assert!(snapshot.active.is_none());
    assert_eq!(
        snapshot.pending.iter().map(|entry| entry.queue_id.as_str()).collect::<Vec<_>>(),
        ["blocked-head", "existing-tail"]
    );
}

#[test]
fn live_recovery_blocks_reservation_without_consuming_pending_entry() {
    let mut store = InstallStore::new();
    insert_or_existing_vanilla(&mut store, "recovering-install", "1.21.5");
    store.enqueue_queued_install(
        "pending-install".to_string(),
        InstallQueueSpec::vanilla("1.21.6".to_string()),
        InstallQueuePlacement::Back,
    );

    assert_eq!(store.reserve_next_queued_install(), InstallQueueReservation::BlockedByLiveSession);
    let snapshot = store.queue_snapshot();
    assert!(snapshot.active.is_none());
    assert_eq!(snapshot.pending.len(), 1);
    assert_eq!(snapshot.pending[0].queue_id, "pending-install");

    store.emit("recovering-install", done_progress());
    assert!(matches!(
        store.reserve_next_queued_install(),
        InstallQueueReservation::Reserved(QueuedInstallEntry { queue_id, .. })
            if queue_id == "pending-install"
    ));
}

#[test]
fn mark_queued_install_started_copies_install_session_start_time() {
    let mut store = InstallStore::new();
    let spec = InstallQueueSpec::vanilla("1.21.5".to_string());
    store.enqueue_queued_install("queue-install".to_string(), spec, InstallQueuePlacement::Back);

    let reserved = store.reserve_next_queued_install().reserved().expect("queued install");

    assert_eq!(reserved.queue_id, "queue-install");
    insert_or_existing_vanilla(&mut store, "active-install", "1.21.5");
    let install_started_at_ms =
        store.install_started_at_ms("active-install").expect("install start time");
    assert!(store.mark_queued_install_started(
        "queue-install",
        "active-install".to_string(),
        NOW_MS + 7
    ));
    let snapshot = store.queue_snapshot();
    let active = snapshot.active.expect("active queue entry");
    assert_eq!(active.install_id.as_deref(), Some("active-install"));
    assert_eq!(active.install_started_at_ms, Some(install_started_at_ms));
}

/// Runs a worker whose handler settles the interruption with what it is given.
fn run_interrupted_worker(store: &mut InstallStore, install_id: &str) -> bool {
    match store.worker_ended(install_id, worker_exit_interrupt_if_active(), failed_progress()) {
        WorkerStep::Interrupt(progress) => store.worker_settled(install_id, Some(progress)),
        _ => false,
    }
}

#[test]
fn tracked_worker_finishes_active_session_after_panic() {
    let mut store = InstallStore::new();
    insert_or_existing_vanilla(&mut store, "panic-install", "1.21.5");

    assert!(run_interrupted_worker(&mut store, "panic-install"));

    assert_eq!(store.active_install_count(), 0);
}

#[test]
fn tracked_worker_finishes_active_session_after_early_return() {
    let mut store = InstallStore::new();
    insert_or_existing_vanilla(&mut store, "early-install", "1.21.5");

    assert!(run_interrupted_worker(&mut store, "early-install"));

    assert_eq!(store.active_install_count(), 0);
}

#[test]
fn tracked_worker_interruption_handler_runs_only_for_active_finish() {
    let mut store = InstallStore::new();
    insert_or_existing_vanilla(&mut store, "early-install", "1.21.5");
    let interrupted = match store.worker_ended(
        "early-install",
        worker_exit_interrupt_if_active(),
        failed_progress(),
    ) {
        WorkerStep::Interrupt(progress) => Some(progress),
        _ => None,
    };
    assert_eq!(
        interrupted.as_ref().map(|progress| progress.phase.as_str()),
        Some("error")
    );
    store.worker_settled("early-install", interrupted);

    insert(&mut store, "done-install");
    store.emit("done-install", done_progress());
    assert!(matches!(
        store.worker_ended("done-install", worker_exit_interrupt_if_active(), failed_progress()),
        WorkerStep::Stop
    ));
}

#[test]
fn deferred_worker_retains_nonterminal_session_and_owner_until_shutdown() {
    let mut store = InstallStore::new();
    insert(&mut store, "deferred-install");

    assert!(matches!(
        store.worker_ended(
            "deferred-install",
            worker_exit_deferred_nonterminal(),
            failed_progress()
        ),
        WorkerStep::Defer
    ));

    assert!(store.snapshot("deferred-install").is_some());
    assert_eq!(store.active_install_count(), 1);
}

#[test]
fn panicked_publication_worker_remains_nonterminal_for_rehydration() {
    let mut store = InstallStore::new();
    insert(&mut store, "panicked-install");

    assert!(matches!(
        store.worker_ended("panicked-install", worker_failure_exit(None), failed_progress()),
        WorkerStep::Defer
    ));

    assert!(store.snapshot("panicked-install").is_some());
    assert_eq!(store.active_install_count(), 1);
}

#[test]
fn panicked_worker_failure_handler_retains_nonterminal_session_until_shutdown() {
    let mut store = InstallStore::new();
    let install_id = "panicked-failure-handler";
    insert(&mut store, install_id);

    assert!(matches!(
        store.worker_ended(install_id, worker_failure_exit(None), failed_progress()),
        WorkerStep::Defer
    ));

    let session = store.sessions.get(install_id).expect("nonterminal install");
    assert!(!session.done);
    assert!(!session.terminalizing);
}

#[test]
fn panicked_terminal_handler_cancels_reservation_and_waits_for_shutdown() {
    let mut store = InstallStore::new();
    let install_id = "panicked-terminal-handler";
    insert(&mut store, install_id);

    assert!(matches!(
        store.worker_ended(
            install_id,
            worker_exit_reconcile_terminal(done_progress()),
            failed_progress()
        ),
        WorkerStep::Reconcile(progress) if progress == done_progress()
    ));
    assert!(store.sessions.get(install_id).expect("nonterminal install").terminalizing);
    assert!(!store.worker_settled(install_id, None));
    assert!(!store.sessions.get(install_id).expect("nonterminal install").terminalizing);
    assert!(!store.snapshot(install_id).expect("install").done);
}

#[test]
fn panicked_interruption_handler_cancels_reservation_and_waits_for_shutdown() {
    let mut store = InstallStore::new();
    let install_id = "panicked-interruption-handler";
    insert(&mut store, install_id);

    assert!(matches!(
        store.worker_ended(install_id, worker_exit_interrupt_if_active(), failed_progress()),
        WorkerStep::Interrupt(_)
    ));
    assert!(!store.worker_settled(install_id, None));
    assert!(!store.sessions.get(install_id).expect("nonterminal install").terminalizing);
    assert!(!store.snapshot(install_id).expect("install").done);
}

#[test]
fn duplicate_install_waits_for_initialization_and_observes_removal() {
    let mut store = InstallStore::new();
    let (install_id, inserted) =
        insert_or_existing_vanilla(&mut store, "initializing-install", "1.21.5");
    assert!(inserted);
    assert_eq!(store.wait_until_initialized(&install_id), None);
    assert!(store.mark_initialized(&install_id));
    assert_eq!(store.wait_until_initialized(&install_id), Some(true));

    let (removed_id, inserted) =
        insert_or_existing_vanilla(&mut store, "removed-initialization", "1.21.6");
    assert!(inserted);
    assert_eq!(store.wait_until_initialized(&removed_id), None);
    store.remove(&removed_id);
    assert_eq!(store.wait_until_initialized(&removed_id), Some(false));
}

#[test]
fn interrupted_status_is_published_only_after_async_handler_succeeds() {
    let mut store = InstallStore::new();
    insert(&mut store, "ordered-interruption");
    let step = store.worker_ended(
        "ordered-interruption",
        worker_exit_interrupt_if_active(),
        failed_progress(),
    );
    assert!(!store.snapshot("ordered-interruption").expect("active install").done);
    let progress = match step {
        WorkerStep::Interrupt(progress) => progress,
        _ => panic!("the interruption has to be settled"),
    };
    assert!(store.worker_settled("ordered-interruption", Some(progress)));
    assert!(store.snapshot("ordered-interruption").expect("terminal install").done);
}

#[test]
fn install_insert_or_existing_keeps_different_versions_independent() {
    let mut store = InstallStore::new();
    insert_or_existing_vanilla(&mut store, "first-install", "1.21.5");

    let (install_id, inserted) =
        insert_or_existing_vanilla(&mut store, "second-install", "1.21.6");

    assert_eq!(install_id, "second-install");
    assert!(inserted);
    assert_eq!(store.active_install_count(), 2);
}

#[test]
fn install_identities_keep_vanilla_and_loader_work_independent() {
    let mut store = InstallStore::new();
    let build_id = build_id_for(LoaderComponentId::Fabric, "1.21.5", "0.16.10");
    insert_or_existing_vanilla(&mut store, "vanilla-install", "1.21.5");

    let (loader_id, loader_inserted) = insert_or_existing_loader(
        &mut store,
        "loader-install",
        LoaderComponentId::Fabric,
        &build_id,
    );
    let (duplicate_loader_id, duplicate_loader_inserted) = insert_or_existing_loader(
        &mut store,
        "duplicate-loader-install",
        LoaderComponentId::Fabric,
        &format!(" {build_id} "),
    );

    assert_eq!(loader_id, "loader-install");
    assert!(loader_inserted);
    assert_eq!(duplicate_loader_id, "loader-install");
    assert!(!duplicate_loader_inserted);
    assert_eq!(store.active_install_count(), 2);
    assert!(store.snapshot("loader-install").expect("loader session").loader_install);
    assert!(!store.snapshot("vanilla-install").expect("vanilla session").loader_install);
}

#[test]
fn install_queue_dedupes_and_moves_retry_to_front() {
    let mut store = InstallStore::new();
    let first = InstallQueueSpec::vanilla("1.21.5".to_string());
    let second = InstallQueueSpec::loader(
        LoaderComponentId::Fabric,
        build_id_for(LoaderComponentId::Fabric, "1.21.6", "0.16.10"),
        "fabric-loader-1.21.6".to_string(),
        "1.21.6".to_string(),
        "0.16.10".to_string(),
    );

    assert_eq!(
        store.enqueue_queued_install(
            "queue-first".to_string(),
            first.clone(),
            InstallQueuePlacement::Back,
        ),
        InstallQueueEnqueueOutcome::Enqueued { queue_id: "queue-first".to_string() }
    );
    assert_eq!(
        store.enqueue_queued_install(
            "queue-second".to_string(),
            second.clone(),
            InstallQueuePlacement::Back,
        ),
        InstallQueueEnqueueOutcome::Enqueued { queue_id: "queue-second".to_string() }
    );
    assert_eq!(
        store.enqueue_queued_install(
            "queue-duplicate".to_string(),
            first.clone(),
            InstallQueuePlacement::Back,
        ),
        InstallQueueEnqueueOutcome::AlreadyQueued { queue_id: "queue-first".to_string() }
    );
    assert_eq!(
        store.enqueue_queued_install(
            "queue-retry".to_string(),
            second,
            InstallQueuePlacement::Front,
        ),
        InstallQueueEnqueueOutcome::MovedToFront { queue_id: "queue-second".to_string() }
    );

    let snapshot = store.queue_snapshot();
    assert_eq!(snapshot.pending.len(), 2);
    assert_eq!(snapshot.pending[0].queue_id, "queue-second");
    assert_eq!(snapshot.pending[1].queue_id, "queue-first");

    let active = store.reserve_next_queued_install().reserved().expect("first queue item");
    assert_eq!(active.queue_id, "queue-second");
    assert_eq!(
        store.enqueue_queued_install(
            "queue-active-duplicate".to_string(),
            active.spec,
            InstallQueuePlacement::Back,
        ),
        InstallQueueEnqueueOutcome::AlreadyActive { queue_id: "queue-second".to_string() }
    );
}

#[test]
fn active_vanilla_install_finds_only_vanilla_identity_by_version() {
    let mut store = InstallStore::new();
    insert_or_existing_vanilla(&mut store, "vanilla-install", "1.21.5");
    insert_or_existing_loader(
        &mut store,
        "loader-install",
        LoaderComponentId::Fabric,
        &build_id_for(LoaderComponentId::Fabric, "1.21.5", "0.16.10"),
    );

    assert_eq!(store.active_vanilla_install(" 1.21.5 "), Some("vanilla-install".to_string()));
}

#[test]
fn active_vanilla_install_ignores_done_removed_and_failed_sessions() {
    let mut store = InstallStore::new();
    insert_or_existing_vanilla(&mut store, "done-install", "1.21.5");
    store.emit("done-install", done_progress());
    assert_eq!(store.active_vanilla_install("1.21.5"), None);

    insert_or_existing_vanilla(&mut store, "failed-install", "1.21.5");
    store.emit("failed-install", failed_progress());
    assert_eq!(store.active_vanilla_install("1.21.5"), None);

    insert_or_existing_vanilla(&mut store, "removed-install", "1.21.5");
    store.remove("removed-install");
    assert_eq!(store.active_vanilla_install("1.21.5"), None);

    let (install_id, inserted) = insert_or_existing_vanilla(&mut store, "fresh-install", "1.21.5");

    assert_eq!(install_id, "fresh-install");
    assert!(inserted);
}

#[test]
fn launch_active_install_count_excludes_done_sessions() {
    let mut store = InstallStore::new();
    insert(&mut store, "active-install");
    insert(&mut store, "done-install");
    store.emit("done-install", done_progress());

    assert_eq!(store.active_install_count(), 1);
}

#[test]
fn sessions_do_not_share_identities_or_operations() {
    let mut store = InstallStore::new();
    insert(&mut store, "first");
    assert_eq!(store.admit_install("first".to_string(), operation("first"), NOW_MS), Ok(()));
    assert_eq!(
        store.admit_install("first".to_string(), operation("other"), NOW_MS),
        Err(InstallAdmissionError::InstallIdCollision)
    );
    assert_eq!(
        store.admit_install("second".to_string(), operation("first"), NOW_MS),
        Err(InstallAdmissionError::OperationIdCollision)
    );
    assert_eq!(
        store.admit_recovering_vanilla(
            "first".to_string(),
            operation("third"),
            "1.21.5".to_string(),
            NOW_MS
        ),
        Err(InstallAdmissionError::InstallIdCollision)
    );
    assert_eq!(
        store.admit_recovering_loader(
            "third".to_string(),
            operation("first"),
            LoaderComponentId::Quilt,
            "build".to_string(),
            NOW_MS
        ),
        Err(InstallAdmissionError::OperationIdCollision)
    );
    assert_eq!(store.active_install_count(), 1);
    assert_eq!(store.operation_id("first"), Some(operation("first")));
    assert!(store.contains_operation_id(&operation("first")));
    assert!(!store.contains_operation_id(&operation("other")));
}

#[test]
fn recovering_sessions_need_no_preparation() {
    let mut store = InstallStore::new();
    store
        .admit_recovering_loader(
            "recovering".to_string(),
            operation("recovering"),
            LoaderComponentId::NeoForge,
            "build".to_string(),
            NOW_MS,
        )
        .expect("recovering session");
    assert_eq!(
        store.wait_for_initialization("recovering"),
        Some(InstallInitializationStatus::Initialized)
    );
    assert!(!store.mark_initialization_reconciling("recovering"));
    assert_eq!(
        store.wait_for_initialization("absent"),
        Some(InstallInitializationStatus::Removed)
    );
}

#[test]
fn reconciling_preparation_is_told_to_those_who_wait() {
    let mut store = InstallStore::new();
    insert_or_existing_vanilla(&mut store, "initializing", "1.21.5");
    assert_eq!(store.wait_for_initialization("initializing"), None);
    assert!(store.mark_initialization_reconciling("initializing"));
    assert_eq!(
        store.wait_for_initialization("initializing"),
        Some(InstallInitializationStatus::Reconciling)
    );
    assert!(store.mark_initialized("initializing"));
    assert_eq!(
        store.wait_for_initialization("initializing"),
        Some(InstallInitializationStatus::Initialized)
    );
    assert!(!store.mark_initialized("absent"));
}

#[test]
fn admitted_request_runs_alone_and_completes_once() {
    let mut store = InstallStore::new();
    store.enqueue_queued_install(
        "loader-queue".to_string(),
        InstallQueueSpec::loader(
            LoaderComponentId::Forge,
            " build ".to_string(),
            " target ".to_string(),
            " 1.21.5 ".to_string(),
            " 50.0 ".to_string(),
        ),
        InstallQueuePlacement::Back,
    );
    let reserved = store.reserve_next_queued_install().reserved().expect("queued install");
    assert!(reserved.spec.is_loader());
    assert!(!reserved.spec.is_content());
    assert_eq!(reserved.spec.target_version_id(), "target");
    let authority = InstallQueueStartAuthority::authorize(&reserved.queue_id);
    let mut marker = InstallAdmissionMarker::new();
    assert_eq!(
        store.admit_queued_loader(
            &authority,
            &mut marker,
            "loader-install".to_string(),
            operation("loader-install"),
            LoaderComponentId::Forge,
            " build ".to_string(),
            NOW_MS,
        ),
        InstallQueueAdmission::Inserted
    );
    assert!(marker.is_admitted());
    assert!(store.queued_install_start_matches(&authority, "loader-install"));
    assert_eq!(
        store.settle_queued_install_start_failure(&authority),
        InstallQueueStartFailureDisposition::Started { install_id: "loader-install".to_string() }
    );
    assert_eq!(
        store.reconcile_queued_install_start("loader-queue"),
        InstallQueueStartReconciliation::Started { install_id: "loader-install".to_string() }
    );
    assert_eq!(
        store.admit_queued_content(
            &authority,
            &mut marker,
            "again".to_string(),
            operation("again"),
            NOW_MS
        ),
        InstallQueueAdmission::ReservationLost
    );
    assert!(store.complete_active_queued_install("other-install", true).is_none());
    let completed =
        store.complete_active_queued_install("loader-install", true).expect("completed request");
    assert_eq!(completed.queue_id, "loader-queue");
    assert_eq!(completed.install_started_at_ms, Some(NOW_MS));
    assert_eq!(store.queued_install_succeeded("loader-queue"), Some(true));
    assert_eq!(
        store.settle_queued_install_start_failure(&authority),
        InstallQueueStartFailureDisposition::Settled
    );
    assert_eq!(
        store.reconcile_queued_install_start("loader-queue"),
        InstallQueueStartReconciliation::Settled
    );
}

#[test]
fn removed_start_can_be_requeued_or_fails() {
    let mut store = InstallStore::new();
    store.enqueue_queued_install(
        "content-queue".to_string(),
        dependent_content("earlier"),
        InstallQueuePlacement::Front,
    );
    store.reserve_next_queued_install().reserved().expect("queued content");
    let authority = InstallQueueStartAuthority::authorize("content-queue");
    let mut marker = InstallAdmissionMarker::new();
    assert_eq!(
        store.admit_queued_content(
            &authority,
            &mut marker,
            "content-install".to_string(),
            operation("content-install"),
            NOW_MS
        ),
        InstallQueueAdmission::Inserted
    );
    assert!(store.remove("content-install"));
    assert!(!store.reset_removed_queued_install_start(&authority, "other-install"));
    assert!(store.reset_removed_queued_install_start(&authority, "content-install"));
    let active = store.queue_snapshot().active.expect("active request");
    assert_eq!(active.install_id, None);
    assert_eq!(active.install_started_at_ms, None);
    assert_eq!(
        store.reconcile_queued_install_start("content-queue"),
        InstallQueueStartReconciliation::Requeued
    );
    store.reserve_next_queued_install().reserved().expect("queued content again");
    assert_eq!(
        store.settle_queued_install_start_failure(&authority),
        InstallQueueStartFailureDisposition::CompletedUnlinked
    );
    assert_eq!(store.queued_install_succeeded("content-queue"), Some(false));
    assert_eq!(store.reserve_next_queued_install(), InstallQueueReservation::Empty);
}

#[test]
fn discarded_and_removed_requests_leave_no_outcome() {
    let mut store = InstallStore::new();
    for (queue_id, version_id) in [("first", "1.21.5"), ("second", "1.21.6")] {
        store.enqueue_queued_install(
            queue_id.to_string(),
            InstallQueueSpec::vanilla(version_id.to_string()),
            InstallQueuePlacement::Back,
        );
    }
    store.reserve_next_queued_install().reserved().expect("first request");
    assert!(!store.discard_active_queued_install("second"));
    assert!(store.discard_active_queued_install("first"));
    assert_eq!(store.queued_install_succeeded("first"), None);
    assert!(store.remove_queued_install("first").is_none());
    let removed = store.remove_queued_install("second").expect("waiting request");
    assert_eq!(removed.spec, InstallQueueSpec::vanilla(" 1.21.6 ".to_string()));
    assert!(store.queue_snapshot().pending.is_empty());
    assert_eq!(store.queued_install_succeeded("second"), None);
}

#[test]
fn event_texts_follow_what_is_installed() {
    let record = InstallProgressRecord::with_event_json(
        base_progress("libraries", false),
        "vanilla text".to_string(),
        "loader text".to_string(),
    );
    assert_eq!(record.event_json(true), Some("loader text"));
    assert_eq!(record.event_json(false), Some("vanilla text"));
    assert_eq!(InstallProgressRecord::new(done_progress()).event_json(true), None);
    let mut store = InstallStore::new();
    insert(&mut store, "session");
    assert!(store.emit_record("session", record.clone()));
    assert_eq!(store.snapshot("session").expect("session").latest, Some(record));
    assert!(!store.emit_record("absent", InstallProgressRecord::new(done_progress())));
}

#[test]
fn worker_exits_say_what_is_settled() {
    assert_eq!(
        worker_failure_exit(Some(done_progress())),
        InstallWorkerExit::ReconcileTerminal(done_progress())
    );
    assert_eq!(worker_failure_exit(None), InstallWorkerExit::DeferredNonterminal);
    let mut store = InstallStore::new();
    insert(&mut store, "session");
    assert!(matches!(
        store.worker_ended(
            "session",
            worker_exit_reconcile_terminal(base_progress("assets", false)),
            failed_progress()
        ),
        WorkerStep::Reconcile(_)
    ));
    assert!(!store.emit("session", done_progress()));
    assert!(store.worker_settled("session", Some(base_progress("assets", false))));
    let snapshot = store.snapshot("session").expect("session");
    assert!(snapshot.done);
    assert!(snapshot.latest.expect("latest").progress.done);
}

#[test]
fn clock_readings_are_bounded() {
    assert_eq!(unix_millis(None), 0);
    assert_eq!(unix_millis(Some(1_750_000_000_000)), 1_750_000_000_000);
    assert_eq!(unix_millis(Some(u128::from(u64::MAX) + 1)), u64::MAX);
}

#[test]
fn content_requests_are_told_apart_by_all_they_hold() {
    let mut store = InstallStore::new();
    let cleanup = |size: u64| SetupInstanceCleanup {
        baseline: Some(SetupInstanceBaseline {
            instance: Instance { record: "{\"id\":\"instance\"}".to_string() },
            paths: vec![
                SetupInstancePathSnapshot {
                    relative_path: vec!["mods".to_string()],
                    kind: SetupInstancePathKind::Directory,
                },
                SetupInstancePathSnapshot {
                    relative_path: vec!["mods".to_string(), "a.jar".to_string()],
                    kind: SetupInstancePathKind::File { size, sha512: "ab".to_string() },
                },
            ],
        }),
    };
    let request = |size: u64| InstallQueueSpec::Content {
        instance_id: "instance".to_string(),
        label: "Content".to_string(),
        action: ContentQueueAction::Install {
            selections: vec![QueuedContentSelection {
                canonical_id: "sodium".to_string(),
                kind: ContentKind::Mod,
                version_id: None,
            }],
            allow_incompatible: false,
            setup_cleanup: Some(cleanup(size)),
        },
        prerequisite_queue_id: None,
    };
    assert_eq!(
        store
            .enqueue_queued_install("one".to_string(), request(1), InstallQueuePlacement::Back)
            .queue_id(),
        "one"
    );
    assert_eq!(
        store
            .enqueue_queued_install("two".to_string(), request(2), InstallQueuePlacement::Back)
            .queue_id(),
        "two"
    );
    assert_eq!(
        store
            .enqueue_queued_install("three".to_string(), request(1), InstallQueuePlacement::Back)
            .queue_id(),
        "one"
    );
    assert_eq!(store.queue_snapshot().pending.len(), 2);
    assert_eq!(request(1).target_version_id(), "instance");
}
