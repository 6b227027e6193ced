use axial_state::contracts::{
    DiagnosisId, GuardianActionKind, GuardianDomain, GuardianMode, OperationId, OwnershipClass,
    PersistedStateRecordStore, PersistedStateRepairTerminalOutcome, ReconciliationComponent,
    ReconciliationLineage, ReconciliationRung, ReconciliationTerminalOutcome,
    ReconciliationVersionBundleOutcome, StabilizationSystem, TargetKind,
};
use axial_state::evidence::{
    JournalId, PersistedStateRepairAttempt, PersistedStateRepairTerminal, ReconciliationAttempt,
    ReconciliationPublication, ReconciliationQuarantineCheckpoint, ReconciliationScope,
    ReconciliationTerminal, TargetDescriptor,
};
use axial_state::failure_entry::{
    FailureMemoryActionOutcome, FailureMemoryKey, FailureMemoryLoadError, FailureMemoryStoreError,
    FailureMemoryValidationError, GuardianFailureMemoryEntry,
};
use axial_state::failure_store::{
    GuardianFailureMemoryStore, MemoryDraft, PendingStep, PersistedStateRepairReserveError,
    ReconciliationAttemptReservation, ReconciliationAttemptReserveError, TerminalStep,
};
use axial_state::failure_validation::{
    assemble_snapshot, encode_snapshot, FailureMemorySnapshot, DEFAULT_FAILURE_MEMORY_LIMIT,
    FAILURE_MEMORY_SCHEMA, FAILURE_MEMORY_SNAPSHOT_FIXED_BYTES, MAX_FAILURE_MEMORY_ENTRY_BYTES,
    MAX_FAILURE_MEMORY_SNAPSHOT_BYTES,
};
use axial_state::instants::Instant;
use axial_state::journal_errors::PersistenceFault;
use axial_state::journal_store::{WriteTicket, DEFAULT_OPERATION_JOURNAL_LIMIT};
use axial_state::rulings::{LauncherRulings, SanitizedId};
use axial_state::temporal::BoundedTemporalPolicy;
use chrono::{DateTime, Duration, Utc};
use serde::ser::{SerializeStruct, Serializer};
use serde_json::Value;

fn operation(name: &str) -> OperationId {
    let mut bits: u128 = 0x6c62272e07bb014262b821756295c58d;
    for byte in name.bytes() {
        bits = (bits ^ u128::from(byte)).wrapping_mul(0x0000000001000000000000000000013b);
    }
    OperationId::from_random_bits(bits)
}

fn time(text: &str) -> DateTime<Utc> {
    DateTime::parse_from_rfc3339(text).expect("test time").with_timezone(&Utc)
}

fn clock(now: DateTime<Utc>) -> BoundedTemporalPolicy {
    BoundedTemporalPolicy::fixed(Instant {
        secs: now.timestamp(),
        nanos: now.timestamp_subsec_nanos(),
    })
}

/// Rulings by which these identifiers may be shown as they are.
fn rulings() -> LauncherRulings {
    let mut ids: Vec<String> = [
        "user_jvm_arguments",
        "performance_rules_remote_source",
        "java_runtime_21",
        "intent_hash_1",
        "intent",
        "intent-a",
        "intent-b",
        "different_intent",
        "different_target",
        "runtime_hash",
        "rules_manifest_v1",
        "diagnosis_inventory",
        "install_provider",
        "minecraft_client_1.21.5",
        "loader_fabric_build",
        "sha256abc123",
        "sha256_old123",
        "sha256_new456",
        "exact-skew",
        "exact-cooldown",
        "offset-exact-cooldown",
        "offset-overlong-cooldown",
        "future-plus-one",
        "cooldown-plus-one",
        "current",
        "valid-after-overlong",
        "clock-jump",
        "same-target",
        "ordinary-expired",
        "same-reconciliation-target",
        "version-bundle",
        "java_override_unavailable",
        "managed_runtime_corrupt",
        "download_unavailable",
        "out_of_memory",
        "performance_rules_invalid",
        "performance_fallback_selected",
        "launch_prepare_failed",
        "startup_failed_unknown",
        "launcher_managed_artifact_corrupt",
        "persisted_state_schema_invalid",
    ]
    .iter()
    .map(|id| id.to_string())
    .collect();
    for index in 0..DEFAULT_FAILURE_MEMORY_LIMIT {
        ids.push(format!("future-{index}"));
        ids.push(format!("library-artifact-{index}"));
    }
    let mut rulings = LauncherRulings::new(8, 8);
    for id in ids {
        for fallback in ["target", "intent", "target_hash"] {
            rulings.sanitized_ids.push(SanitizedId {
                text: id.clone(),
                fallback: fallback.to_string(),
                result: id.clone(),
            });
        }
    }
    rulings
}

fn test_store_at(now: DateTime<Utc>, max_entries: usize) -> GuardianFailureMemoryStore {
    GuardianFailureMemoryStore::with_max_entries(max_entries, clock(now), 1)
}

fn sizes(count: usize) -> Vec<u64> {
    vec![1_000; count]
}

fn snapshot_of(
    entries: Vec<GuardianFailureMemoryEntry>,
) -> Result<FailureMemorySnapshot, FailureMemoryLoadError> {
    let sizes = sizes(entries.len());
    FailureMemorySnapshot::new(entries, &sizes, &rulings())
}

fn load(
    store: &mut GuardianFailureMemoryStore,
    snapshot: FailureMemorySnapshot,
) -> Result<(), FailureMemoryLoadError> {
    let sizes = sizes(snapshot.entries.len());
    store.load_snapshot(snapshot, &sizes, &rulings())
}

fn publish(
    store: &mut GuardianFailureMemoryStore,
    draft: MemoryDraft,
) -> Result<(), FailureMemoryStoreError> {
    let sizes = sizes(draft.candidate.len());
    store.prepare(&draft, &sizes, &rulings())?;
    assert!(store.accept(draft, WriteTicket::Unpersisted).is_none());
    Ok(())
}

fn record(
    store: &mut GuardianFailureMemoryStore,
    entry: GuardianFailureMemoryEntry,
) -> Result<(), FailureMemoryStoreError> {
    let draft = store.record(entry, &rulings())?;
    publish(store, draft)
}

fn reconcile_retries(
    store: &mut GuardianFailureMemoryStore,
    entries: Vec<GuardianFailureMemoryEntry>,
) -> Result<(), FailureMemoryStoreError> {
    match store.reconcile_install_guardian_retry_batch(entries, &rulings())? {
        Some(draft) => publish(store, draft),
        None => Ok(()),
    }
}

fn reconcile_retry(
    store: &mut GuardianFailureMemoryStore,
    entry: GuardianFailureMemoryEntry,
) -> Result<(), FailureMemoryStoreError> {
    match store.reconcile_install_guardian_retry(entry, &rulings())? {
        Some(draft) => publish(store, draft),
        None => Ok(()),
    }
}

fn record_end(
    store: &mut GuardianFailureMemoryStore,
    entry: GuardianFailureMemoryEntry,
    reservation: &ReconciliationAttemptReservation,
) -> Result<(), FailureMemoryStoreError> {
    match store.record_reconciliation_terminal(entry, reservation, false, &rulings())? {
        TerminalStep::Done => Ok(()),
        TerminalStep::RetryFirst => panic!("no write has failed"),
        TerminalStep::Write(draft) => publish(store, draft),
    }
}

fn target(
    system: StabilizationSystem,
    kind: TargetKind,
    id: &str,
    ownership: OwnershipClass,
) -> TargetDescriptor {
    TargetDescriptor { system, kind, id: id.to_string(), ownership }
}

fn observed(
    diagnosis_id: DiagnosisId,
    domain: GuardianDomain,
    target: TargetDescriptor,
    intent: &str,
    observed_at: &str,
) -> GuardianFailureMemoryEntry {
    GuardianFailureMemoryEntry::observed(
        diagnosis_id,
        domain,
        target,
        GuardianMode::Managed,
        Some(intent),
        observed_at.to_string(),
        &rulings(),
    )
}

fn retry_entry(observed_at: &str) -> GuardianFailureMemoryEntry {
    observed(
        DiagnosisId::StartupFailedUnknown,
        GuardianDomain::Launch,
        target(
            StabilizationSystem::Application,
            TargetKind::JvmArguments,
            "user_jvm_arguments",
            OwnershipClass::UserOwned,
        ),
        "intent_hash_1",
        observed_at,
    )
    .with_action(GuardianActionKind::Retry, FailureMemoryActionOutcome::Failed)
}

fn temporal_entry(
    target_id: &str,
    observed_at: &str,
    suppression_until: Option<&str>,
) -> GuardianFailureMemoryEntry {
    let entry = observed(
        DiagnosisId::StartupFailedUnknown,
        GuardianDomain::Launch,
        target(
            StabilizationSystem::Guardian,
            TargetKind::Instance,
            target_id,
            OwnershipClass::LauncherManaged,
        ),
        "intent-a",
        observed_at,
    );
    match suppression_until {
        Some(until) => entry.with_suppression_until(until),
        None => entry,
    }
}

fn temporal_intent_entry(
    intent: &str,
    observed_at: &str,
    suppression_until: &str,
) -> GuardianFailureMemoryEntry {
    observed(
        DiagnosisId::StartupFailedUnknown,
        GuardianDomain::Launch,
        target(
            StabilizationSystem::Guardian,
            TargetKind::Instance,
            "same-target",
            OwnershipClass::LauncherManaged,
        ),
        intent,
        observed_at,
    )
    .with_suppression_until(suppression_until)
}

fn persisted_repair_attempt_at(observed_at: DateTime<Utc>) -> PersistedStateRepairAttempt {
    PersistedStateRepairAttempt {
        operation_id: operation("persisted-repair"),
        journal_id: JournalId { text: operation("persisted-repair").text() },
        store: PersistedStateRecordStore::BenchmarkSuiteDriver,
        record_id: "benchmark-suite-driver-0000000000000001".to_string(),
        physical_identity: "sha256.01010101".to_string(),
        target: target(
            StabilizationSystem::State,
            TargetKind::FilesystemPath,
            "benchmark-suite-driver-0000000000000001",
            OwnershipClass::LauncherManaged,
        ),
        observed_at: observed_at.to_rfc3339(),
        suppression_until: (observed_at + Duration::minutes(15)).to_rfc3339(),
        consistent: true,
    }
}

fn refused_repair(attempt: PersistedStateRepairAttempt) -> GuardianFailureMemoryEntry {
    GuardianFailureMemoryEntry::for_persisted_state_repair_terminal(PersistedStateRepairTerminal {
        suppression_until: attempt.suppression_until.clone(),
        attempt,
        outcome: PersistedStateRepairTerminalOutcome::Refused,
        consistent: true,
    })
}

fn no_quarantine() -> ReconciliationQuarantineCheckpoint {
    ReconciliationQuarantineCheckpoint { records: Vec::new(), bounded: true }
}

fn registered_scope() -> ReconciliationScope {
    ReconciliationScope {
        instance_id: "0123456789abcdef".to_string(),
        fingerprint:
            "sha256.aaaaaaaa.bbbbbbbb.cccccccc.dddddddd.eeeeeeee.ffffffff.01234567.89abcdef"
                .to_string(),
        inventory_fingerprint:
            "sha256.11111111.22222222.33333333.44444444.55555555.66666666.77777777.88888888"
                .to_string(),
        activation_contract_id:
            "managed-install-activation-v1.qqqqqqqqqqqqqqqqqqqqqqqqqqqqqqqqqqqqqqqqqqo"
                .to_string(),
    }
}

fn reconciled(terminal: ReconciliationTerminal) -> GuardianFailureMemoryEntry {
    let attempt = terminal.attempt.clone();
    let action = match attempt.rung {
        ReconciliationRung::RepairArtifact => GuardianActionKind::Repair,
        ReconciliationRung::RebuildComponent => GuardianActionKind::Repair,
    };
    let outcome = match terminal.outcome {
        ReconciliationTerminalOutcome::Succeeded => FailureMemoryActionOutcome::Repaired,
        ReconciliationTerminalOutcome::Failed => FailureMemoryActionOutcome::Failed,
    };
    GuardianFailureMemoryEntry::observed(
        attempt.diagnosis_id,
        attempt.domain,
        attempt.target.clone(),
        attempt.mode,
        None,
        attempt.observed_at.clone(),
        &rulings(),
    )
    .with_action(action, outcome)
    .with_repair_attempt()
    .with_quarantine_checkpoint(terminal.quarantine_checkpoint.clone())
    .with_suppression_until(&attempt.suppression_until)
    .with_reconciliation_terminal(terminal, &rulings())
}

fn reconciliation_attempt(
    operation_name: &str,
    target_id: &str,
    observed_at: String,
    suppression_until: String,
) -> ReconciliationAttempt {
    ReconciliationAttempt {
        operation_id: operation(operation_name),
        diagnosis_id: DiagnosisId::LauncherManagedArtifactCorrupt,
        domain: GuardianDomain::Library,
        rung: ReconciliationRung::RepairArtifact,
        scope: registered_scope(),
        component: ReconciliationComponent::Libraries,
        target: target(
            StabilizationSystem::Execution,
            TargetKind::Artifact,
            target_id,
            OwnershipClass::LauncherManaged,
        ),
        mode: GuardianMode::Managed,
        ownership: OwnershipClass::LauncherManaged,
        observed_at,
        suppression_until,
        lineage: ReconciliationLineage::Initial,
        consistent: true,
    }
}

fn failed_reconciliation(attempt: ReconciliationAttempt) -> GuardianFailureMemoryEntry {
    reconciled(ReconciliationTerminal {
        attempt,
        outcome: ReconciliationTerminalOutcome::Failed,
        quarantine_checkpoint: no_quarantine(),
        version_bundle_publication: None,
        consistent: true,
    })
}

fn reconciliation_entry_at(
    name: &str,
    observed_at: DateTime<Utc>,
    suppression_until: DateTime<Utc>,
) -> GuardianFailureMemoryEntry {
    failed_reconciliation(reconciliation_attempt(
        &format!("temporal-{name}"),
        "same-reconciliation-target",
        observed_at.to_rfc3339(),
        suppression_until.to_rfc3339(),
    ))
}

fn pending_reconciliation_entry_at(
    observed_at: DateTime<Utc>,
    suppression_until: DateTime<Utc>,
) -> GuardianFailureMemoryEntry {
    let mut attempt = reconciliation_attempt(
        "temporal-pending-publication",
        "version-bundle",
        observed_at.to_rfc3339(),
        suppression_until.to_rfc3339(),
    );
    attempt.rung = ReconciliationRung::RebuildComponent;
    attempt.component = ReconciliationComponent::VersionBundle;
    attempt.lineage = ReconciliationLineage::Predecessor {
        operation_id: operation("temporal-pending-predecessor"),
    };
    reconciled(ReconciliationTerminal {
        attempt,
        outcome: ReconciliationTerminalOutcome::Failed,
        quarantine_checkpoint: no_quarantine(),
        version_bundle_publication: Some(ReconciliationPublication {
            evidence: "managed-install-v1.T7ghN0PBffcxr4Rg08bVvTPOl9fRcUh9qyNnWZtd93c.Xsu8KmJnT7So_J1WS8rcqA.X-fR4EpDTc2mbfPpfNOFiA.JGoynsQN9LfT8e7hWyX1fknDskeaM7xQCAbFGATbD-I._FMcn_pUsOarv_sNtTJousevn4S1SMqttV6yiYdONOY".to_string(),
            outcome: ReconciliationVersionBundleOutcome::RolledBack,
            pending: true,
        }),
        consistent: true,
    })
}

const ACTIVE_AT: &str = "2026-06-15T10:00:00Z";

fn active_reconciliation_entry(index: usize) -> GuardianFailureMemoryEntry {
    let observed_at = time(ACTIVE_AT);
    failed_reconciliation(reconciliation_attempt(
        &format!("reconciliation-capacity-{index}"),
        &format!("library-artifact-{index}"),
        observed_at.to_rfc3339(),
        (observed_at + Duration::minutes(15)).to_rfc3339(),
    ))
}

fn active_store(max_entries: usize) -> GuardianFailureMemoryStore {
    test_store_at(time(ACTIVE_AT), max_entries)
}

fn invalid(error: FailureMemoryValidationError) -> FailureMemoryStoreError {
    FailureMemoryStoreError::Validation(error)
}

#[test]
fn behavior_contract_exact_cooldown_and_future_skew_bound_all_admission_paths() {
    let now = time("2026-08-13T10:00:00Z");
    let mut store = test_store_at(now, DEFAULT_FAILURE_MEMORY_LIMIT);
    let exact_observed = (now + Duration::minutes(5)).to_rfc3339();
    let exact_until = (now + Duration::hours(24)).to_rfc3339();
    let exact_skew = temporal_entry("exact-skew", &exact_observed, None);
    store.construct_entry(exact_skew.clone(), &rulings()).expect("exact future skew constructs");
    record(&mut store, exact_skew).expect("exact future skew admits");
    let exact_cooldown = temporal_entry("exact-cooldown", &now.to_rfc3339(), Some(&exact_until));
    store.construct_entry(exact_cooldown.clone(), &rulings()).expect("exact cooldown constructs");
    record(&mut store, exact_cooldown.clone()).expect("exact cooldown admits");

    let snapshot = snapshot_of(vec![exact_cooldown.clone()]).expect("exact cooldown snapshot");
    let mut round_trip = test_store_at(now, DEFAULT_FAILURE_MEMORY_LIMIT);
    load(&mut round_trip, snapshot).expect("max-valid cooldown loads after round trip");
    assert_eq!(round_trip.get(&exact_cooldown.key), Some(exact_cooldown));

    let offset_exact = temporal_entry(
        "offset-exact-cooldown",
        "2026-08-13T12:00:00+02:00",
        Some("2026-08-14T12:00:00+02:00"),
    );
    store
        .construct_entry(offset_exact, &rulings())
        .expect("equivalent offset exact cooldown constructs");
    let offset_overlong = temporal_entry(
        "offset-overlong-cooldown",
        "2026-08-13T12:00:00+02:00",
        Some("2026-08-14T12:00:01+02:00"),
    );
    assert_eq!(
        store.construct_entry(offset_overlong, &rulings()).err(),
        Some(invalid(FailureMemoryValidationError::SuppressionWindowOutOfBounds))
    );

    let future_plus_one = (now + Duration::minutes(5) + Duration::seconds(1)).to_rfc3339();
    let future = temporal_entry("future-plus-one", &future_plus_one, None);
    assert_eq!(
        store.construct_entry(future.clone(), &rulings()).err(),
        Some(invalid(FailureMemoryValidationError::ObservedTimestampTooFarInFuture))
    );
    assert_eq!(
        record(&mut store, future),
        Err(invalid(FailureMemoryValidationError::ObservedTimestampTooFarInFuture))
    );

    let cooldown_observed = now.to_rfc3339();
    let cooldown_plus_one = (now + Duration::hours(24) + Duration::seconds(1)).to_rfc3339();
    let overlong =
        temporal_entry("cooldown-plus-one", &cooldown_observed, Some(&cooldown_plus_one));
    assert_eq!(
        store.construct_entry(overlong.clone(), &rulings()).err(),
        Some(invalid(FailureMemoryValidationError::SuppressionWindowOutOfBounds))
    );
    assert_eq!(
        record(&mut store, overlong),
        Err(invalid(FailureMemoryValidationError::SuppressionWindowOutOfBounds))
    );
}

#[test]
fn behavior_contract_far_future_capacity_is_quarantined_before_valid_admission() {
    let now = time("2026-08-13T10:00:00Z");
    let mut store = test_store_at(now, DEFAULT_FAILURE_MEMORY_LIMIT);
    let far_future = (now + Duration::days(365)).to_rfc3339();
    let snapshot = snapshot_of(
        (0..DEFAULT_FAILURE_MEMORY_LIMIT)
            .map(|index| temporal_entry(&format!("future-{index}"), &far_future, None))
            .collect(),
    )
    .expect("structurally valid current-schema snapshot");

    load(&mut store, snapshot).expect("temporal-invalid rows are quarantined");
    assert!(store.list().is_empty());
    assert_eq!(store.temporal_quarantine_count(), DEFAULT_FAILURE_MEMORY_LIMIT);
    assert_eq!(store.temporal_load_issues().future_observation, DEFAULT_FAILURE_MEMORY_LIMIT);

    let current = temporal_entry("current", &now.to_rfc3339(), None);
    record(&mut store, current).expect("valid work retains capacity");
    assert_eq!(store.list().len(), 1);
}

#[test]
fn behavior_contract_overlong_terminal_is_quarantined_but_malformed_is_fatal() {
    let now = time("2026-08-13T10:00:00Z");
    let valid = temporal_entry("valid-after-overlong", &now.to_rfc3339(), None);
    let overlong = reconciliation_entry_at(
        "overlong-load",
        now,
        now + Duration::hours(24) + Duration::seconds(1),
    );
    let snapshot = snapshot_of(vec![overlong, valid.clone()])
        .expect("overlong terminal remains structurally valid");
    let mut store = test_store_at(now, DEFAULT_FAILURE_MEMORY_LIMIT);
    load(&mut store, snapshot).expect("overlong terminal is quarantined per row");
    assert_eq!(store.list(), vec![valid]);
    assert_eq!(store.temporal_quarantine_count(), 1);
    assert_eq!(store.temporal_load_issues().out_of_bounds_window, 1);

    let mut malformed =
        reconciliation_entry_at("malformed-load", now, now + Duration::minutes(1));
    malformed.last_observed_at = "not-a-timestamp".to_string();
    assert!(matches!(
        snapshot_of(vec![malformed]),
        Err(FailureMemoryLoadError::InvalidEntry(_))
    ));
}

#[test]
fn behavior_contract_monotonic_time_ignores_wall_jumps_and_never_resurrects_expiry() {
    let now = time("2026-08-13T10:00:00Z");
    let mut policy = clock(now);
    let mut store = test_store_at(now, DEFAULT_FAILURE_MEMORY_LIMIT);
    let until = (now + Duration::minutes(30)).to_rfc3339();
    let entry = temporal_entry("clock-jump", &now.to_rfc3339(), Some(&until));
    record(&mut store, entry.clone()).expect("record current cooldown");

    policy.observe(0, 0);
    store.set_temporal(policy);
    assert!(store.suppression_active(&entry, &rulings()));

    policy.observe(30 * 60, 0);
    store.set_temporal(policy);
    assert!(!store.suppression_active(&entry, &rulings()));
    policy.observe(0, 0);
    store.set_temporal(policy);
    assert!(!store.suppression_active(&entry, &rulings()));
}

#[test]
fn behavior_contract_temporal_policy_preserves_exact_intent_keys() {
    let now = time("2026-08-13T10:00:00Z");
    let mut store = test_store_at(now, DEFAULT_FAILURE_MEMORY_LIMIT);
    let until = (now + Duration::minutes(30)).to_rfc3339();
    let first = temporal_intent_entry("intent-a", &now.to_rfc3339(), &until);
    let second = temporal_intent_entry("intent-b", &now.to_rfc3339(), &until);
    let constructed = store.construct_entry(first.clone(), &rulings()).expect("construct first");
    record(&mut store, constructed).expect("admit first");
    let snapshot =
        snapshot_of(vec![first.clone(), second.clone()]).expect("same temporal rules load");
    load(&mut store, snapshot).expect("load exact intent entries");

    assert_ne!(first.key, second.key);
    assert_eq!(store.get(&first.key), Some(first));
    assert_eq!(store.get(&second.key), Some(second));
}

#[test]
fn behavior_contract_repair_reservation_uses_policy_now_not_caller_time() {
    let now = time("2026-08-13T10:00:00Z");
    let mut store = test_store_at(now, DEFAULT_FAILURE_MEMORY_LIMIT);
    let prior = persisted_repair_attempt_at(now);
    record(&mut store, refused_repair(prior)).expect("seed active repair memory");

    let caller_shifted = persisted_repair_attempt_at(now + Duration::minutes(5));
    assert_eq!(
        store.reserve_persisted_state_repair(&caller_shifted).err(),
        Some(PersistedStateRepairReserveError::Suppressed)
    );
}

#[test]
fn behavior_contract_future_replacement_cannot_end_live_suppression_early() {
    let now = time("2026-08-13T10:00:00Z");
    let mut store = test_store_at(now, DEFAULT_FAILURE_MEMORY_LIMIT);
    let existing = reconciliation_entry_at("existing", now, now + Duration::minutes(3));
    let key = existing.key.clone();
    let reservation = store
        .reserve_reconciliation_attempt(key.clone())
        .ok()
        .expect("reserve initial reconciliation");
    record_end(&mut store, existing, &reservation).expect("record active reconciliation");
    store.release_reconciliation_attempt(reservation);

    let replacement = reconciliation_entry_at(
        "replacement",
        now + Duration::minutes(5),
        now + Duration::minutes(35),
    );
    let replacement_reservation = store
        .reserve_reconciliation_attempt(key)
        .ok()
        .expect("same key can reserve its capacity slot");
    assert_eq!(
        store.validate_reconciliation_terminal(
            &replacement,
            &replacement_reservation,
            &rulings()
        ),
        Err(invalid(FailureMemoryValidationError::ReconciliationTerminalMismatch))
    );
}

#[test]
fn behavior_contract_expired_pending_publication_can_be_acknowledged_and_pruned() {
    let now = time("2026-08-13T10:00:00Z");
    let mut policy = clock(now);
    let mut store = test_store_at(now, 1);
    let pending = pending_reconciliation_entry_at(now, now + Duration::minutes(1));
    let key = pending.key.clone();
    let reservation = store
        .reserve_reconciliation_attempt(key)
        .ok()
        .expect("reserve pending publication");
    record_end(&mut store, pending.clone(), &reservation).expect("persist pending publication");
    store.release_reconciliation_attempt(reservation);

    policy.observe(2 * 60, 0);
    store.set_temporal(policy);
    assert_eq!(store.list_current(&rulings()), vec![pending.clone()]);
    assert!(pending.has_pending_publication());
    let mut acknowledged = pending.clone();
    if let Some(terminal) = acknowledged.reconciliation_terminal.as_mut() {
        if let Some(publication) = terminal.version_bundle_publication.as_mut() {
            publication.pending = false;
        }
    }

    let draft = store
        .acknowledge_reconciliation_version_bundle_publication(
            &pending,
            acknowledged.clone(),
            &rulings(),
        )
        .expect("expired pending publication remains acknowledgeable")
        .expect("the acknowledgement is new");
    publish(&mut store, draft).expect("publish the acknowledgement");
    let mut snapshot_entries = store
        .snapshot(&sizes(1), &rulings())
        .expect("snapshot acknowledged carrier")
        .entries;
    snapshot_entries.push(temporal_entry(
        "ordinary-expired",
        &now.to_rfc3339(),
        Some(&(now + Duration::minutes(1)).to_rfc3339()),
    ));
    let snapshot = snapshot_of(snapshot_entries)
        .expect("snapshot acknowledged and ordinary expired entries");
    let mut reloaded = test_store_at(now, 1);
    reloaded.set_temporal(policy);
    load(&mut reloaded, snapshot).expect("reload acknowledged carrier");
    assert_eq!(reloaded.list(), vec![acknowledged]);
    assert!(reloaded.list_current(&rulings()).is_empty());
    let replacement = reconciliation_entry_at(
        "capacity-reused",
        now + Duration::minutes(2),
        now + Duration::minutes(5),
    );
    let replacement_reservation = reloaded
        .reserve_reconciliation_attempt(replacement.key.clone())
        .ok()
        .expect("acknowledged expiry releases capacity");
    record_end(&mut reloaded, replacement.clone(), &replacement_reservation)
        .expect("replacement prunes acknowledged expired carrier");
    assert_eq!(reloaded.list(), vec![replacement]);
}

#[test]
fn failure_memory_store_loads_a_valid_bounded_snapshot() {
    let entry =
        retry_entry("2026-06-15T10:00:00Z").with_suppression_until("2026-06-15T10:30:00Z");
    let snapshot = snapshot_of(vec![entry.clone()]).expect("valid snapshot");
    let mut store = test_store_at(time("2026-06-15T10:00:00Z"), DEFAULT_FAILURE_MEMORY_LIMIT);
    load(&mut store, snapshot).expect("load valid bounded snapshot");
    assert_eq!(store.get(&entry.key), Some(entry));
}

#[test]
fn retired_failure_memory_schemas_are_rejected() {
    for schema in ["axial.guardian.failure_memory.v2", "axial.guardian.failure_memory.v3"] {
        let snapshot = FailureMemorySnapshot { schema: schema.to_string(), entries: Vec::new() };
        assert_eq!(
            snapshot.validate(&Vec::new(), &rulings()),
            Err(FailureMemoryLoadError::InvalidSchema)
        );
    }
}

#[test]
fn retired_failure_memory_schemas_are_strict_invalid_and_preserved_byte_exact() {
    for retired_version in ["v4", "v5", "v6"] {
        let mut store = active_store(DEFAULT_FAILURE_MEMORY_LIMIT);
        let kept = retry_entry("2026-06-15T10:00:00Z");
        record(&mut store, kept.clone()).expect("seed visible memory");
        let retired = FailureMemorySnapshot {
            schema: format!("axial.guardian.failure_memory.{retired_version}"),
            entries: vec![retry_entry("2026-06-15T09:00:00Z")],
        };
        assert_eq!(load(&mut store, retired), Err(FailureMemoryLoadError::InvalidSchema));
        assert_eq!(store.list(), vec![kept]);
    }
    assert_eq!(FAILURE_MEMORY_SCHEMA, "axial.guardian.failure_memory.v7");
}

#[test]
fn failure_memory_snapshot_rejects_an_entry_over_its_schema_budget() {
    let mut entry = retry_entry("2026-06-15T10:00:00Z");
    entry.target_content_hash = Some("x".repeat(MAX_FAILURE_MEMORY_ENTRY_BYTES as usize));

    assert!(matches!(
        FailureMemorySnapshot::new(
            vec![entry],
            &vec![MAX_FAILURE_MEMORY_ENTRY_BYTES as u64 + 1],
            &rulings()
        ),
        Err(FailureMemoryLoadError::TooLarge)
    ));
}

#[test]
fn every_diagnosis_id_round_trips_through_strict_failure_memory_snapshot() {
    for diagnosis_id in [
        DiagnosisId::JavaOverrideUnavailable,
        DiagnosisId::ManagedRuntimeCorrupt,
        DiagnosisId::DownloadUnavailable,
        DiagnosisId::OutOfMemory,
        DiagnosisId::PerformanceRulesInvalid,
        DiagnosisId::PerformanceFallbackSelected,
        DiagnosisId::LaunchPrepareFailed,
        DiagnosisId::StartupFailedUnknown,
        DiagnosisId::LauncherManagedArtifactCorrupt,
        DiagnosisId::PersistedStateSchemaInvalid,
    ] {
        let entry = observed(
            diagnosis_id,
            GuardianDomain::Launch,
            target(
                StabilizationSystem::State,
                TargetKind::FilesystemPath,
                diagnosis_id.as_str(),
                OwnershipClass::UserOwned,
            ),
            "diagnosis_inventory",
            "2026-06-15T10:00:00Z",
        );
        assert_eq!(
            entry.key.as_str(),
            format!(
                "Launch:{0}:State.FilesystemPath.{0}:Managed:diagnosis_inventory",
                diagnosis_id.as_str()
            )
        );
        let snapshot = snapshot_of(vec![entry.clone()]).expect("snapshot");
        assert_eq!(snapshot.schema, FAILURE_MEMORY_SCHEMA);
        let mut store = active_store(DEFAULT_FAILURE_MEMORY_LIMIT);
        load(&mut store, snapshot).expect("strict snapshot");
        assert_eq!(store.list(), vec![entry]);
    }
}

#[test]
fn failure_memory_rejects_unknown_fields_and_unsafe_target_ids() {
    let unsafe_entry = observed(
        DiagnosisId::JavaOverrideUnavailable,
        GuardianDomain::Launch,
        target(
            StabilizationSystem::State,
            TargetKind::FilesystemPath,
            r"C:\Users\Alice\java.exe",
            OwnershipClass::UserOwned,
        ),
        "intent",
        "2026-06-15T10:00:00Z",
    );
    assert!(unsafe_entry.validate(&rulings()).is_err());

    let bad_timestamp = retry_entry("not-a-date");
    assert!(bad_timestamp.validate(&rulings()).is_err());

    let mut mismatched_key = retry_entry("2026-06-15T10:12:00Z");
    mismatched_key.key =
        FailureMemoryKey("Launch:other:State.FilesystemPath.target:Managed:intent".to_string());
    assert_eq!(
        mismatched_key.validate(&rulings()),
        Err(FailureMemoryValidationError::MemoryKeyMismatch)
    );
}

#[test]
fn retry_and_repair_suppression_shape_records_attempts_without_policy() {
    let mut store = test_store_at(time("2026-06-15T10:00:00Z"), DEFAULT_FAILURE_MEMORY_LIMIT);
    let retry =
        retry_entry("2026-06-15T10:00:00Z").with_suppression_until("2026-06-15T10:30:00Z");
    let retry_key = retry.key.clone();
    record(&mut store, retry.clone()).expect("record retry");
    record(&mut store, retry).expect("record repeated retry");
    let stored_retry = store.get(&retry_key).expect("stored retry");

    assert_eq!(stored_retry.occurrence_count, 2);
    assert_eq!(stored_retry.last_action_kind, Some(GuardianActionKind::Retry));
    assert_eq!(stored_retry.last_action_outcome, Some(FailureMemoryActionOutcome::Failed));
    assert_eq!(stored_retry.suppression_until.as_deref(), Some("2026-06-15T10:30:00Z"));

    let repair = observed(
        DiagnosisId::ManagedRuntimeCorrupt,
        GuardianDomain::Runtime,
        target(
            StabilizationSystem::Execution,
            TargetKind::Artifact,
            "java_runtime_21",
            OwnershipClass::LauncherManaged,
        ),
        "runtime_hash",
        "2026-06-15T10:05:00Z",
    )
    .with_action(GuardianActionKind::Repair, FailureMemoryActionOutcome::Failed)
    .with_repair_attempt()
    .with_quarantine_checkpoint(ReconciliationQuarantineCheckpoint {
        records: vec!["runtime:java-runtime-delta".to_string()],
        bounded: true,
    })
    .with_suppression_until("2026-06-15T10:20:00Z");

    assert_eq!(repair.repair_attempt_count, 1);
    assert!(!repair.quarantine_checkpoint.records.is_empty());
    assert_eq!(repair.ownership, OwnershipClass::LauncherManaged);
    assert!(repair.validate(&rulings()).is_ok());

    let repair_key = repair.key.clone();
    record(&mut store, repair.clone()).expect("record repair");
    record(&mut store, repair).expect("record repeated repair");
    let stored_repair = store.get(&repair_key).expect("stored repair");
    assert_eq!(stored_repair.occurrence_count, 2);
    assert_eq!(stored_repair.repair_attempt_count, 2);
}

#[test]
fn startup_install_retry_reconciliation_is_atomic_and_idempotent() {
    let now = time("2026-06-15T10:00:00Z");
    let mut policy = clock(now);
    let mut store = test_store_at(now, DEFAULT_FAILURE_MEMORY_LIMIT);
    let initial = retry_entry("2026-06-15T10:00:00+00:00")
        .with_suppression_until("2026-06-15T10:05:00+00:00");
    let key = initial.key.clone();
    let replacement = retry_entry("2026-06-15T10:10:00+00:00")
        .with_suppression_until("2026-06-15T10:15:00+00:00");

    reconcile_retry(&mut store, initial.clone()).expect("insert initial startup Retry");
    reconcile_retry(&mut store, initial).expect("exact startup Retry is a no-op");
    assert_eq!(store.get(&key).expect("initial Retry").occurrence_count, 1);

    policy.observe(10 * 60, 0);
    store.set_temporal(policy);
    reconcile_retry(&mut store, replacement.clone())
        .expect("replace expired Retry with the new window");
    let merged = store.get(&key).expect("replacement Retry");
    assert_eq!(merged.first_observed_at, "2026-06-15T10:10:00+00:00");
    assert_eq!(merged.last_observed_at, "2026-06-15T10:10:00+00:00");
    assert_eq!(merged.occurrence_count, 1);
    assert_eq!(merged.suppression_until.as_deref(), Some("2026-06-15T10:15:00+00:00"));

    reconcile_retry(&mut store, replacement).expect("repeated merged Retry is a no-op");
    assert_eq!(store.get(&key).expect("idempotent merged Retry"), merged);
}

#[test]
fn startup_install_retry_batch_protects_every_active_key_atomically() {
    let retry = |target_id: &str| {
        observed(
            DiagnosisId::DownloadUnavailable,
            GuardianDomain::Download,
            target(
                StabilizationSystem::Execution,
                TargetKind::Artifact,
                target_id,
                OwnershipClass::LauncherManaged,
            ),
            "install_provider",
            "2026-06-15T10:00:00+00:00",
        )
        .with_action(GuardianActionKind::Retry, FailureMemoryActionOutcome::Retried)
        .with_suppression_until("2026-06-15T10:05:00+00:00")
    };
    let entries = vec![retry("minecraft_client_1.21.5"), retry("loader_fabric_build")];

    let now = time("2026-06-15T10:00:00Z");
    let mut undersized = test_store_at(now, 1);
    assert_eq!(
        reconcile_retries(&mut undersized, entries.clone()),
        Err(FailureMemoryStoreError::CapacityExhausted)
    );
    assert!(undersized.list().is_empty());

    let mut store = test_store_at(now, 2);
    reconcile_retries(&mut store, entries.clone()).expect("persist complete active Retry set");
    let restored = store.list();
    assert_eq!(restored.len(), 2);
    reconcile_retries(&mut store, entries.clone()).expect("exact active Retry batch is a no-op");
    assert_eq!(store.list(), restored);

    let twice = vec![entries[0].clone(), entries[0].clone()];
    assert_eq!(
        reconcile_retries(&mut store, twice),
        Err(invalid(FailureMemoryValidationError::InstallGuardianRetryMismatch))
    );
}

#[test]
fn startup_install_retry_reconciliation_rejects_drift_and_ambiguous_time() {
    let now = time("2026-06-15T10:00:00Z");
    let mut store = test_store_at(now, DEFAULT_FAILURE_MEMORY_LIMIT);
    let initial = retry_entry("2026-06-15T10:00:00+00:00")
        .with_suppression_until("2026-06-15T10:05:00+00:00");
    let key = initial.key.clone();
    reconcile_retry(&mut store, initial.clone()).expect("insert initial startup Retry");

    let replacement = || {
        retry_entry("2026-06-15T10:10:00+00:00")
            .with_suppression_until("2026-06-15T10:15:00+00:00")
    };
    let mut ownership_drift = replacement();
    ownership_drift.ownership = OwnershipClass::LauncherManaged;
    ownership_drift.target.ownership = OwnershipClass::LauncherManaged;
    let mut target_drift = replacement();
    target_drift.target.id = "different_target".to_string();
    let mut domain_drift = replacement();
    domain_drift.domain = GuardianDomain::Runtime;
    let mut mode_drift = replacement();
    mode_drift.mode = GuardianMode::Custom;
    let mut diagnosis_drift = replacement();
    diagnosis_drift.diagnosis_id = DiagnosisId::OutOfMemory;
    let action_drift =
        replacement().with_action(GuardianActionKind::Retry, FailureMemoryActionOutcome::Blocked);
    let mut intent_drift = replacement();
    intent_drift.user_intent_hash = Some("different_intent".to_string());
    let overlapping = retry_entry("2026-06-15T10:04:00+00:00")
        .with_suppression_until("2026-06-15T10:09:00+00:00");
    let reverse = retry_entry("2026-06-15T09:50:00+00:00")
        .with_suppression_until("2026-06-15T09:55:00+00:00");
    let mut ambiguous = replacement();
    ambiguous.last_observed_at = "2026-06-15T10:11:00+00:00".to_string();
    let expired = retry_entry("2026-06-15T10:10:00+00:00")
        .with_suppression_until("2026-06-15T10:10:00+00:00");
    let wrong_deadline = retry_entry("2026-06-15T10:10:00+00:00")
        .with_suppression_until("2026-06-15T10:16:00+00:00");
    let noncanonical_utc =
        retry_entry("2026-06-15T10:10:00Z").with_suppression_until("2026-06-15T10:15:00Z");
    let offset_time = retry_entry("2026-06-15T11:10:00+01:00")
        .with_suppression_until("2026-06-15T11:15:00+01:00");

    for rejected in [
        ownership_drift,
        target_drift,
        domain_drift,
        mode_drift,
        diagnosis_drift,
        action_drift,
        intent_drift,
        overlapping,
        reverse,
        ambiguous,
        expired,
        wrong_deadline,
        noncanonical_utc,
        offset_time,
    ] {
        let result = reconcile_retry(&mut store, rejected);
        assert!(
            matches!(
                result,
                Err(FailureMemoryStoreError::Validation(_)) | Err(FailureMemoryStoreError::Expired)
            ),
            "unexpected retry reconciliation result: {result:?}"
        );
        assert_eq!(store.get(&key), Some(initial.clone()));
    }
}

#[test]
fn changed_target_hash_reset_shape_is_explicit() {
    let entry = retry_entry("2026-06-15T12:00:00Z")
        .with_target_content_hash("sha256_old123", &rulings());

    assert!(!entry.target_content_changed("sha256_old123", &rulings()));
    assert!(entry.target_content_changed("sha256_new456", &rulings()));
}

#[test]
fn invalid_remote_rules_failure_cooldown_uses_external_provider_target() {
    let entry = observed(
        DiagnosisId::PerformanceRulesInvalid,
        GuardianDomain::Performance,
        target(
            StabilizationSystem::Performance,
            TargetKind::PerformanceRules,
            "performance_rules_remote_source",
            OwnershipClass::ExternalProviderDerived,
        ),
        "rules_manifest_v1",
        "2026-06-15T13:00:00Z",
    )
    .with_action(GuardianActionKind::RecordOnly, FailureMemoryActionOutcome::Failed)
    .with_suppression_until("2026-06-15T13:05:00Z");

    assert_eq!(entry.ownership, OwnershipClass::ExternalProviderDerived);
    assert!(entry.validate(&rulings()).is_ok());
}

#[test]
fn failure_memory_store_bounds_retention_to_recent_entries() {
    let mut store = active_store(2);
    for (diagnosis, observed_at) in [
        (DiagnosisId::LaunchPrepareFailed, "2026-06-15T10:00:00Z"),
        (DiagnosisId::StartupFailedUnknown, "2026-06-15T10:01:00Z"),
        (DiagnosisId::OutOfMemory, "2026-06-15T10:02:00Z"),
    ] {
        let entry = observed(
            diagnosis,
            GuardianDomain::Launch,
            target(
                StabilizationSystem::State,
                TargetKind::FilesystemPath,
                diagnosis.as_str(),
                OwnershipClass::UserOwned,
            ),
            "intent",
            observed_at,
        );
        record(&mut store, entry).expect("record memory");
    }

    let entries = store.list();
    assert_eq!(entries.len(), 2);
    assert!(entries.iter().all(|entry| entry.diagnosis_id != DiagnosisId::LaunchPrepareFailed));
}

#[test]
fn active_reconciliation_memory_matches_the_journal_capacity() {
    assert_eq!(DEFAULT_FAILURE_MEMORY_LIMIT, DEFAULT_OPERATION_JOURNAL_LIMIT);
    let mut store = GuardianFailureMemoryStore::new(clock(time(ACTIVE_AT)), 1);

    for index in 0..DEFAULT_OPERATION_JOURNAL_LIMIT {
        let entry = active_reconciliation_entry(index);
        let reservation = store
            .reserve_reconciliation_attempt(entry.key.clone())
            .ok()
            .expect("reserve reconciliation memory slot");
        record_end(&mut store, entry, &reservation)
            .expect("journal-capacity terminal fits failure memory");
        store.release_reconciliation_attempt(reservation);
    }

    assert_eq!(store.list().len(), DEFAULT_OPERATION_JOURNAL_LIMIT);
}

#[test]
fn exact_reconciliation_validation_is_non_mutating_and_reservation_bound() {
    let mut store = active_store(1);
    let entry = active_reconciliation_entry(0);
    let key = entry.key.clone();
    let reservation = store
        .reserve_reconciliation_attempt(key.clone())
        .ok()
        .expect("reserve exact reconciliation slot");

    store
        .validate_reconciliation_terminal(&entry, &reservation, &rulings())
        .expect("exact terminal and reservation validate");
    assert!(store.get(&key).is_none());

    let mut foreign_store =
        GuardianFailureMemoryStore::with_max_entries(1, clock(time(ACTIVE_AT)), 2);
    let foreign_reservation = foreign_store
        .reserve_reconciliation_attempt(key)
        .ok()
        .expect("reserve foreign reconciliation slot");
    assert_eq!(
        store.validate_reconciliation_terminal(&entry, &foreign_reservation, &rulings()),
        Err(invalid(FailureMemoryValidationError::MemoryKeyMismatch))
    );
}

#[test]
fn concurrent_reconciliation_reservations_cannot_overbook_capacity() {
    let mut store = active_store(1);
    let reservations = [active_reconciliation_entry(0).key, active_reconciliation_entry(1).key]
        .map(|key| store.reserve_reconciliation_attempt(key));

    assert_eq!(reservations.iter().filter(|result| result.is_ok()).count(), 1);
    assert_eq!(
        reservations
            .iter()
            .filter(|result| {
                matches!(result, Err(ReconciliationAttemptReserveError::CapacityExhausted))
            })
            .count(),
        1
    );
}

#[test]
fn active_same_key_reconciliation_reservation_reuses_its_capacity_slot() {
    let mut store = active_store(1);
    let active = active_reconciliation_entry(0);
    let active_key = active.key.clone();
    let initial = store
        .reserve_reconciliation_attempt(active_key.clone())
        .ok()
        .expect("reserve initial reconciliation slot");
    record_end(&mut store, active, &initial).expect("record active reconciliation terminal");
    store.release_reconciliation_attempt(initial);

    let replacement = store
        .reserve_reconciliation_attempt(active_key.clone())
        .ok()
        .expect("active key reuses its occupied slot");
    assert!(matches!(
        store.reserve_reconciliation_attempt(active_reconciliation_entry(1).key),
        Err(ReconciliationAttemptReserveError::CapacityExhausted)
    ));
    assert!(matches!(
        store.reserve_reconciliation_attempt(active_key),
        Err(ReconciliationAttemptReserveError::AlreadyReserved)
    ));
    store.release_reconciliation_attempt(replacement);
}

#[test]
fn dropped_reconciliation_reservation_releases_capacity() {
    let mut store = active_store(1);
    let first = store
        .reserve_reconciliation_attempt(active_reconciliation_entry(0).key)
        .ok()
        .expect("reserve only slot");
    let second_key = active_reconciliation_entry(1).key;
    assert!(matches!(
        store.reserve_reconciliation_attempt(second_key.clone()),
        Err(ReconciliationAttemptReserveError::CapacityExhausted)
    ));

    store.release_reconciliation_attempt(first);
    let second = store
        .reserve_reconciliation_attempt(second_key)
        .ok()
        .expect("released slot can be reserved");
    store.release_reconciliation_attempt(second);
}

#[test]
fn ordinary_prunable_memory_does_not_consume_reconciliation_capacity() {
    let mut store = active_store(1);
    let ordinary = retry_entry("2026-06-15T10:00:00Z");
    let ordinary_key = ordinary.key.clone();
    record(&mut store, ordinary).expect("seed ordinary memory");
    let terminal = active_reconciliation_entry(0);
    let terminal_key = terminal.key.clone();
    let reservation = store
        .reserve_reconciliation_attempt(terminal_key.clone())
        .ok()
        .expect("ordinary memory leaves reconciliation capacity available");
    record_end(&mut store, terminal, &reservation)
        .expect("active terminal displaces ordinary memory");

    assert!(store.get(&ordinary_key).is_none());
    assert!(store.get(&terminal_key).is_some());
}

#[test]
fn rejected_active_snapshot_preserves_visible_memory() {
    let mut store = active_store(2);
    let prior = retry_entry("2026-06-15T10:00:00Z");
    record(&mut store, prior.clone()).expect("seed visible memory");
    let before = store.list();
    let snapshot = snapshot_of((0..3).map(active_reconciliation_entry).collect())
        .expect("globally bounded active snapshot");

    assert_eq!(load(&mut store, snapshot), Err(FailureMemoryLoadError::TooManyEntries));
    assert_eq!(store.list(), before);
    assert_eq!(store.get(&prior.key), Some(prior));
}

#[test]
fn failure_memory_burst_coalesces_and_reloads_the_latest_cumulative_snapshot() {
    let mut store = active_store(DEFAULT_FAILURE_MEMORY_LIMIT);
    let key = retry_entry("2026-06-15T10:00:00Z").key;

    for revision in 1..=100 {
        let draft = store
            .record(retry_entry("2026-06-15T10:00:00Z"), &rulings())
            .expect("record burst memory");
        assert!(store.accept(draft, WriteTicket::Debounced(revision)).is_none());
    }

    let snapshot = store.snapshot(&sizes(1), &rulings()).expect("latest snapshot");
    let mut reloaded = active_store(DEFAULT_FAILURE_MEMORY_LIMIT);
    load(&mut reloaded, snapshot).expect("apply reloaded snapshot");
    assert_eq!(reloaded.get(&key).expect("reloaded cumulative memory").occurrence_count, 100);
}

#[test]
fn failed_startup_install_retry_persistence_stays_hidden_until_retry() {
    let mut store = active_store(DEFAULT_FAILURE_MEMORY_LIMIT);
    let entry = retry_entry("2026-06-15T10:00:00+00:00")
        .with_suppression_until("2026-06-15T10:05:00+00:00");
    let key = entry.key.clone();
    let draft = store
        .reconcile_install_guardian_retry(entry.clone(), &rulings())
        .expect("draft the Retry")
        .expect("the Retry is new");
    assert_eq!(store.pending_step(), PendingStep::Nothing);
    let commit = store.accept(draft, WriteTicket::Immediate(1)).expect("the write is waited for");
    assert_eq!(store.pending_step(), PendingStep::Flush);
    assert_eq!(
        store.settle_commit(commit, false),
        Err(FailureMemoryStoreError::Persistence(PersistenceFault::WriteFailed))
    );
    assert!(store.get(&key).is_none());
    assert_eq!(store.pending_step(), PendingStep::Retry);
    assert_eq!(
        record(&mut store, retry_entry("2026-06-15T10:00:00Z")),
        Err(FailureMemoryStoreError::Persistence(PersistenceFault::RetryPending))
    );
    assert!(matches!(
        store.reserve_reconciliation_attempt(key.clone()),
        Err(ReconciliationAttemptReserveError::PersistencePending)
    ));

    assert!(store.retry_commit(2).is_none());
    let again = store.retry_commit(1).expect("the failed write is repeated");
    store.settle_commit(again, true).expect("persist hidden Retry candidate");
    assert_eq!(store.get(&key), Some(entry.clone()));
    assert_eq!(store.pending_step(), PendingStep::Nothing);

    assert!(
        store
            .reconcile_install_guardian_retry(entry, &rulings())
            .expect("persisted Retry replay")
            .is_none(),
        "persisted Retry replay is a no-op"
    );
}

#[test]
fn failure_memory_store_persists_snapshot_for_restart_reasoning() {
    let now = time("2026-06-15T10:00:00Z");
    let mut store = test_store_at(now, DEFAULT_FAILURE_MEMORY_LIMIT);
    let entry =
        retry_entry("2026-06-15T10:00:00Z").with_suppression_until("2026-06-15T10:30:00Z");
    let key = entry.key.clone();
    record(&mut store, entry).expect("record memory");
    let snapshot = store.snapshot(&sizes(1), &rulings()).expect("snapshot failure memory");
    let mut reloaded = test_store_at(now, DEFAULT_FAILURE_MEMORY_LIMIT);
    load(&mut reloaded, snapshot).expect("reload persisted memory");
    let persisted = reloaded.get(&key).expect("persisted memory");
    assert_eq!(persisted.suppression_until.as_deref(), Some("2026-06-15T10:30:00Z"));
    assert!(!format!("{persisted:?}").contains("-Xmx"));
}

#[test]
fn persisted_repairs_are_reserved_once_and_recorded_once() {
    let now = time("2026-08-13T10:00:00Z");
    let mut store = test_store_at(now, DEFAULT_FAILURE_MEMORY_LIMIT);
    let attempt = persisted_repair_attempt_at(now);
    let mut inconsistent = attempt.clone();
    inconsistent.consistent = false;
    assert!(matches!(
        store.reserve_persisted_state_repair(&inconsistent),
        Err(PersistedStateRepairReserveError::InvalidAttempt)
    ));
    let reservation =
        store.reserve_persisted_state_repair(&attempt).ok().expect("reserve the repair");
    assert!(matches!(
        store.reserve_persisted_state_repair(&attempt),
        Err(PersistedStateRepairReserveError::AlreadyReserved)
    ));
    let entry = refused_repair(attempt);
    assert_eq!(
        store.validate_persisted_state_repair_terminal(
            &retry_entry("2026-08-13T10:00:00Z"),
            &reservation,
            &rulings()
        ),
        Err(invalid(FailureMemoryValidationError::InvalidPersistedStateRepairTerminal))
    );
    match store
        .record_persisted_state_repair_terminal(entry.clone(), &reservation, false, &rulings())
        .expect("record the refusal")
    {
        TerminalStep::Write(draft) => publish(&mut store, draft).expect("publish the refusal"),
        _ => panic!("the refusal is new"),
    }
    assert!(matches!(
        store.record_persisted_state_repair_terminal(
            entry.clone(),
            &reservation,
            false,
            &rulings()
        ),
        Ok(TerminalStep::Done)
    ));
    store.release_persisted_state_repair(reservation);
    assert_eq!(store.get(&entry.key), Some(entry));
}

#[test]
fn repeated_end_waits_for_the_failed_write() {
    let mut store = active_store(DEFAULT_FAILURE_MEMORY_LIMIT);
    let first = active_reconciliation_entry(0);
    let second = active_reconciliation_entry(1);
    let first_reservation = store
        .reserve_reconciliation_attempt(first.key.clone())
        .ok()
        .expect("reserve the first end");
    let second_reservation = store
        .reserve_reconciliation_attempt(second.key.clone())
        .ok()
        .expect("reserve the second end");
    let commit = match store
        .record_reconciliation_terminal(first.clone(), &first_reservation, false, &rulings())
        .expect("record the first end")
    {
        TerminalStep::Write(draft) => {
            store.accept(draft, WriteTicket::Immediate(4)).expect("the write is waited for")
        }
        _ => panic!("the end is new"),
    };
    assert!(store.settle_commit(commit, false).is_err());
    assert!(matches!(
        store.record_reconciliation_terminal(
            second.clone(),
            &second_reservation,
            false,
            &rulings()
        ),
        Ok(TerminalStep::RetryFirst)
    ));
    assert!(matches!(
        store.record_reconciliation_terminal(
            second.clone(),
            &second_reservation,
            true,
            &rulings()
        ),
        Err(FailureMemoryStoreError::Persistence(PersistenceFault::RetryPending))
    ));
    let again = store.retry_commit(4).expect("repeat the write");
    store.settle_commit(again, true).expect("the write succeeds");
    assert_eq!(store.get(&first.key), Some(first));
}

#[test]
fn memories_with_faults_are_told_apart() {
    let valid = retry_entry("2026-06-15T10:00:00Z");
    let check = |entry: &GuardianFailureMemoryEntry| entry.validate(&rulings()).err();
    let mut entry = valid.clone();
    entry.key = FailureMemoryKey(" ".to_string());
    assert_eq!(check(&entry), Some(FailureMemoryValidationError::UnsafeKey));
    let mut entry = valid.clone();
    entry.ownership = OwnershipClass::LauncherManaged;
    assert_eq!(check(&entry), Some(FailureMemoryValidationError::OwnershipMismatch));
    let mut entry = valid.clone();
    entry.occurrence_count = 0;
    assert_eq!(check(&entry), Some(FailureMemoryValidationError::ZeroOccurrences));
    let mut entry = valid.clone();
    entry.last_observed_at = "2026-06-15T09:00:00Z".to_string();
    assert_eq!(check(&entry), Some(FailureMemoryValidationError::InvalidObservedTimestamp));
    let mut entry = valid.clone();
    entry.suppression_until = Some("later".to_string());
    assert_eq!(check(&entry), Some(FailureMemoryValidationError::InvalidSuppressionTimestamp));
    let mut entry = valid.clone();
    entry.target_content_hash = Some("a b".to_string());
    assert_eq!(check(&entry), Some(FailureMemoryValidationError::UnsafeTargetHash));
    let mut entry = active_reconciliation_entry(0);
    if let Some(terminal) = entry.reconciliation_terminal.as_mut() {
        terminal.consistent = false;
    }
    assert_eq!(check(&entry), Some(FailureMemoryValidationError::InvalidReconciliationTerminal));
    let mut entry = active_reconciliation_entry(0);
    entry.suppression_until = None;
    assert_eq!(check(&entry), Some(FailureMemoryValidationError::ReconciliationTerminalMismatch));
    let mut entry = refused_repair(persisted_repair_attempt_at(time(ACTIVE_AT)));
    if let Some(terminal) = entry.persisted_state_repair_terminal.as_mut() {
        terminal.consistent = false;
    }
    assert_eq!(
        check(&entry),
        Some(FailureMemoryValidationError::InvalidPersistedStateRepairTerminal)
    );
    assert_eq!(
        snapshot_of(vec![valid.clone(), valid.clone()]).err(),
        Some(FailureMemoryLoadError::DuplicateKey)
    );
}

#[test]
fn failure_memory_encoder_accepts_the_exact_snapshot_bound_and_rejects_one_more_byte() {
    let text = |schema: &str| format!("{{\"schema\":\"{schema}\",\"entries\":[]}}").into_bytes();
    let overhead = text("").len();
    assert_eq!(
        (overhead + FAILURE_MEMORY_SCHEMA.len()) as u64,
        FAILURE_MEMORY_SNAPSHOT_FIXED_BYTES
    );
    let mut schema = "x".repeat(MAX_FAILURE_MEMORY_SNAPSHOT_BYTES as usize - overhead);

    let encoded = encode_snapshot(text(&schema)).expect("accept exact size bound");
    assert_eq!(encoded.len() as u64, MAX_FAILURE_MEMORY_SNAPSHOT_BYTES);
    assert_eq!(encoded, text(&schema));

    schema.push('x');
    assert_eq!(encode_snapshot(text(&schema)), Err(PersistenceFault::SnapshotTooLarge));
}

#[test]
fn the_file_has_room_for_every_memory() {
    let memories = DEFAULT_FAILURE_MEMORY_LIMIT as u64;
    assert_eq!(
        FAILURE_MEMORY_SNAPSHOT_FIXED_BYTES
            + memories * MAX_FAILURE_MEMORY_ENTRY_BYTES
            + (memories - 1),
        MAX_FAILURE_MEMORY_SNAPSHOT_BYTES
    );
}

#[test]
fn a_reservation_is_given_back_to_its_own_store_only() {
    let mut store = active_store(1);
    let mut other = GuardianFailureMemoryStore::with_max_entries(1, clock(time(ACTIVE_AT)), 2);
    let key = active_reconciliation_entry(0).key;
    let own = store.reserve_reconciliation_attempt(key.clone()).ok().expect("reserve the slot");
    let foreign =
        other.reserve_reconciliation_attempt(key.clone()).ok().expect("reserve elsewhere");
    store.release_reconciliation_attempt(foreign);
    assert!(matches!(
        store.reserve_reconciliation_attempt(key.clone()),
        Err(ReconciliationAttemptReserveError::AlreadyReserved)
    ));
    store.release_reconciliation_attempt(own);
    assert!(store.reserve_reconciliation_attempt(key).is_ok());
}

#[test]
fn a_failed_flush_leads_to_a_retry() {
    let mut store = active_store(DEFAULT_FAILURE_MEMORY_LIMIT);
    assert_eq!(store.reconciliation_step(), PendingStep::Flush);
    assert_eq!(PendingStep::Flush.following(true), None);
    assert_eq!(PendingStep::Flush.following(false), Some(PendingStep::Retry));
    assert_eq!(PendingStep::Retry.following(false), None);
    assert_eq!(PendingStep::Nothing.following(false), None);
    let draft = store
        .reconcile_install_guardian_retry(
            retry_entry("2026-06-15T10:00:00+00:00")
                .with_suppression_until("2026-06-15T10:05:00+00:00"),
            &rulings(),
        )
        .expect("draft the Retry")
        .expect("the Retry is new");
    let commit = store.accept(draft, WriteTicket::Immediate(1)).expect("the write is waited for");
    assert!(store.settle_commit(commit, false).is_err());
    assert_eq!(store.reconciliation_step(), PendingStep::Retry);
}

#[test]
fn the_text_of_a_snapshot_frames_the_texts_of_its_memories() {
    let framed = |entries: &str| {
        format!("{{\"schema\":\"{FAILURE_MEMORY_SCHEMA}\",\"entries\":[{entries}]}}").into_bytes()
    };
    assert_eq!(assemble_snapshot(&vec![]), framed(""));
    assert_eq!(assemble_snapshot(&vec![]).len() as u64, FAILURE_MEMORY_SNAPSHOT_FIXED_BYTES);
    assert_eq!(assemble_snapshot(&vec![b"{}".to_vec()]), framed("{}"));
    assert_eq!(
        assemble_snapshot(&vec![b"{}".to_vec(), b"[1]".to_vec(), b"null".to_vec()]),
        framed("{},[1],null")
    );
    let largest = vec![
        vec![b'x'; MAX_FAILURE_MEMORY_ENTRY_BYTES as usize];
        DEFAULT_FAILURE_MEMORY_LIMIT
    ];
    let text = assemble_snapshot(&largest);
    assert_eq!(text.len() as u64, MAX_FAILURE_MEMORY_SNAPSHOT_BYTES);
    assert_eq!(encode_snapshot(text.clone()), Ok(text));
}

#[test]
fn the_text_of_a_snapshot_is_what_serde_writes() {
    let entries: Vec<Value> =
        ["first", "second"].map(|key| Value::from(vec![key, "\u{e9}\"\n"])).to_vec();
    let mut written = Vec::new();
    let mut serializer = serde_json::Serializer::new(&mut written);
    let mut fields = serializer.serialize_struct("FailureMemorySnapshot", 2).expect("begin");
    fields.serialize_field("schema", FAILURE_MEMORY_SCHEMA).expect("write the schema");
    fields.serialize_field("entries", &entries).expect("write the memories");
    fields.end().expect("end");
    let texts =
        entries.iter().map(|entry| serde_json::to_vec(entry).expect("write a memory")).collect();
    assert_eq!(assemble_snapshot(&texts), written);
}
