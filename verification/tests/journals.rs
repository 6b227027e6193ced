use axial_state::contracts::{
    CommandKind, DiagnosisId, GuardianActionKind, GuardianDomain, GuardianFactId, GuardianMode,
    OperationId, OperationOutcome, OperationPhase, OperationStatus, OperationStepResult,
    OwnershipClass, PerformanceOperationAction, PerformanceRollbackTarget, PersistedStateRecordStore,
    PersistedStateRepairTerminalOutcome, ReconciliationComponent, ReconciliationLineage,
    ReconciliationRung, ReconciliationTerminalOutcome, ReconciliationVersionBundleOutcome,
    RollbackState, StabilizationSystem, TargetKind,
};
use axial_state::entry::{
    OperationIntent, OperationJournalEntry, OperationJournalStep, OperationStepMetrics,
    StepMetricsRecord,
};
use axial_state::evidence::{
    DurableGuardianEvidence, GuardianInstallMemoryEvidence, GuardianInstallTerminalEvidence,
    JournalId, PersistedStateRepairAttempt, PersistedStateRepairTerminal, ReconciliationAttempt,
    ReconciliationPublication, ReconciliationQuarantineCheckpoint, ReconciliationScope,
    ReconciliationTerminal, TargetDescriptor,
};
use axial_state::instants::Instant;
use axial_state::journal_errors::{
    OperationJournalLoadError, OperationJournalStoreError, OperationJournalValidationError,
    PersistenceFault,
};
use axial_state::journal_performance::OPERATION_ID_MINT_ATTEMPTS;
use axial_state::journal_queries::PerformanceRestartPlan;
use axial_state::journal_reconciliation::{
    outcome_is_open, try_again, JournalFileAction, OperationJournalReconciliation,
    ReconciliationStep, RestartStep, TransitionReconciliation,
    OPERATION_JOURNAL_TRANSITION_RETRY_ATTEMPTS,
};
use axial_state::journal_revision::{
    checked_replaced_entries_bytes, MAX_OPERATION_JOURNAL_SNAPSHOT_BYTES,
    OPERATION_JOURNAL_SNAPSHOT_ENTRIES_PREFIX, OPERATION_JOURNAL_SNAPSHOT_PREFIX,
    OPERATION_JOURNAL_SNAPSHOT_SUFFIX,
};
use axial_state::journal_snapshot::{OperationJournalSnapshot, OPERATION_JOURNAL_SCHEMA};
use axial_state::journal_store::{
    JournalDraft, OperationJournalStore, WriteTicket, DEFAULT_OPERATION_JOURNAL_LIMIT,
};
use axial_state::journal_validation::{validate_entry, MAX_OPERATION_JOURNAL_STEP_FACTS};
use axial_state::journal_visibility::{
    operation_journal_completed_step_is_visible, operation_journal_plan_is_visible,
    operation_journal_terminal_is_visible, persisted_state_repair_plan_is_visible,
    persisted_state_repair_terminal_is_visible,
};
use axial_state::lifecycle::{
    PerformanceOperationIntent, PerformanceOperationPhase, PerformanceOperationPrepared,
    PerformanceOperationTerminal, PerformanceOperationTransition, PerformancePreparedProof,
};
use axial_state::performance::{
    performance_guardian_evidence_is_visible, performance_guardian_evidence_matches,
    validate_performance_prepared,
};
use axial_state::projection::{OperationRestartDisposition, PerformanceOperationProjection};
use axial_state::rulings::{LauncherRulings, SanitizedEvidence};
use axial_state::temporal::BoundedTemporalPolicy;
use axial_state::tokens::{safe_generated_fact, safe_token, texts_to_judge};
use chrono::{DateTime, Duration, SecondsFormat, Utc};
use serde::ser::{SerializeStruct, Serializer};
use serde_json::Value;

const NOW: &str = "2026-08-13T10:00:00.000Z";
const EVIDENCE: &str = "managed-install-v1.T7ghN0PBffcxr4Rg08bVvTPOl9fRcUh9qyNnWZtd93c.Xsu8KmJnT7So_J1WS8rcqA.X-fR4EpDTc2mbfPpfNOFiA.JGoynsQN9LfT8e7hWyX1fknDskeaM7xQCAbFGATbD-I._FMcn_pUsOarv_sNtTJousevn4S1SMqttV6yiYdONOY";
const CONTRACT: &str = "managed-install-activation-v1.qqqqqqqqqqqqqqqqqqqqqqqqqqqqqqqqqqqqqqqqqqo";
const LOADER_BUILD: &str = "fabric:1.21.5:0.16.10";
const LOADER_VERSION: &str = "loader-v2-fabric-1.21.5-0.16.10";

fn operation(name: &str) -> OperationId {
    let mut bits: u128 = 0x6c62272e07bb014262b821756295c58d;
    for byte in name.bytes() {
        bits = (bits ^ u128::from(byte)).wrapping_mul(0x0000000001000000000000000000013b);
    }
    OperationId::from_random_bits(bits)
}

fn time(text: &str) -> DateTime<Utc> {
    DateTime::parse_from_rfc3339(text).expect("test time").with_timezone(&Utc)
}

fn clock(now: DateTime<Utc>) -> BoundedTemporalPolicy {
    BoundedTemporalPolicy::fixed(Instant {
        secs: now.timestamp(),
        nanos: now.timestamp_subsec_nanos(),
    })
}

/// The rulings of a launcher to which these texts are known.
fn rulings() -> LauncherRulings {
    let mut rulings = LauncherRulings::new(8, 8);
    for text in [
        "1.21.5",
        "fabric",
        "balanced",
        "install_phase:done",
        "install_done:true",
        "different terminal",
        "durable intended failure",
        "bounded failure",
        "absent state cannot fail after an effect",
        "performance operation outcome could not be confirmed after restart",
        "performance operation abandoned before effect",
        "persisted_state_record_quarantined",
    ] {
        for max_chars in [96, 160, 320] {
            rulings.sanitized_evidence.push(SanitizedEvidence {
                text: text.to_string(),
                max_chars,
                result: Some(text.to_string()),
            });
        }
    }
    rulings.instance_ids = [
        "0123456789abcdef",
        "1111111111111111",
        "2222222222222222",
        "3333333333333333",
        "4444444444444444",
        "abababababababab",
        "aaaaaaaaaaaaaaaa",
        "bbbbbbbbbbbbbbbb",
        "bcbcbcbcbcbcbcbc",
        "cccccccccccccccc",
        "cdcdcdcdcdcdcdcd",
        "cfcfcfcfcfcfcfcf",
        "dddddddddddddddd",
        "dededededededede",
        "edededededededed",
        "eeeeeeeeeeeeeeee",
        "ffffffffffffffff",
    ]
    .iter()
    .map(|id| id.to_string())
    .collect();
    for index in 0_u64..128 {
        rulings.instance_ids.push(format!("{index:016x}"));
    }
    rulings.version_ids.push("1.21.5".to_string());
    rulings.installed_loader_ids.push(LOADER_VERSION.to_string());
    rulings.loader_build_ids.push(LOADER_BUILD.to_string());
    rulings.publication_evidence_ids.push(EVIDENCE.to_string());
    rulings.activation_contract_ids.push(CONTRACT.to_string());
    rulings
}

fn new_store() -> OperationJournalStore {
    OperationJournalStore::new(clock(time(NOW)))
}

fn store_of(max_entries: usize) -> OperationJournalStore {
    OperationJournalStore::with_max_entries(max_entries, clock(time(NOW)))
}

fn canonical(entry: &OperationJournalEntry) -> Vec<u8> {
    format!("{{\"operation_id\":\"{}\"}}", entry.operation_id.text()).into_bytes()
}

fn publish(
    store: &mut OperationJournalStore,
    draft: JournalDraft,
) -> Result<(), OperationJournalStoreError> {
    let bytes = canonical(&draft.entry);
    let candidate = store.prepare(draft, bytes)?;
    assert!(store.accept_candidate(candidate, WriteTicket::Unpersisted).is_none());
    Ok(())
}

/// Hands a change to a writer that has to be waited for and tells what the writer answered.
fn write(
    store: &mut OperationJournalStore,
    draft: JournalDraft,
    revision: u64,
    written: bool,
) -> Result<(), OperationJournalStoreError> {
    let bytes = canonical(&draft.entry);
    let candidate = store.prepare(draft, bytes)?;
    let commit = store
        .accept_candidate(candidate, WriteTicket::Immediate(revision))
        .expect("the write is waited for");
    store.settle_commit(commit, written)
}

fn retry(
    store: &mut OperationJournalStore,
    revision: u64,
    written: bool,
) -> Result<(), OperationJournalStoreError> {
    let commit = store.retry_commit(revision);
    store.settle_commit(commit, written)
}

fn create(
    store: &mut OperationJournalStore,
    entry: OperationJournalEntry,
) -> Result<(), OperationJournalStoreError> {
    match store.create(entry, &rulings())? {
        Some(draft) => publish(store, draft),
        None => Ok(()),
    }
}

fn create_fresh(
    store: &mut OperationJournalStore,
    entry: OperationJournalEntry,
) -> Result<(), OperationJournalStoreError> {
    let draft = store.create_fresh(entry, &rulings())?;
    publish(store, draft)
}

fn succeed(
    store: &mut OperationJournalStore,
    operation_id: &OperationId,
    step: OperationJournalStep,
) -> Result<(), OperationJournalStoreError> {
    let draft =
        store.record_success(operation_id, step, OperationOutcome::Succeeded, &rulings())?;
    publish(store, draft)
}

fn mint(seed: &str) -> Vec<OperationId> {
    (0..OPERATION_ID_MINT_ATTEMPTS).map(|index| operation(&format!("{seed}-{index}"))).collect()
}

fn create_performance(
    store: &mut OperationJournalStore,
    intent: &PerformanceOperationIntent,
) -> Result<PerformanceOperationProjection, OperationJournalStoreError> {
    let minted = mint(&format!("minted-{}-{}", intent.instance_id, store.list().len()));
    let draft = store.create_performance(intent, &minted, NOW, &rulings())?;
    let operation_id = draft.entry.operation_id;
    publish(store, draft)?;
    store.created_performance_operation(&operation_id, intent, &rulings())
}

fn transition(
    store: &mut OperationJournalStore,
    operation_id: &OperationId,
    transition: PerformanceOperationTransition,
) -> Result<(), OperationJournalStoreError> {
    let transition = store.request_performance_transition(operation_id, transition, &rulings())?;
    match store.transition_performance(operation_id, &transition, NOW, &rulings())? {
        Some(draft) => publish(store, draft),
        None => Ok(()),
    }
}

fn record_performance_evidence(
    store: &mut OperationJournalStore,
    evidence: DurableGuardianEvidence,
) -> Result<(), OperationJournalStoreError> {
    match store.record_performance_guardian_evidence(&evidence, NOW, &rulings())? {
        Some(draft) => publish(store, draft),
        None => Ok(()),
    }
}

fn settle_restarts(
    store: &mut OperationJournalStore,
) -> Result<PerformanceRestartPlan, OperationJournalStoreError> {
    let settled = store.settle_performance_restarts(NOW, &rulings())?;
    let bytes = settled.iter().map(canonical).collect();
    if let Some(candidate) = store.prepare_restarts(settled, bytes)? {
        assert!(store.accept_candidate(candidate, WriteTicket::Unpersisted).is_none());
    }
    Ok(store.performance_restart_plan())
}

fn load(
    store: &mut OperationJournalStore,
    snapshot: OperationJournalSnapshot,
) -> Result<(), OperationJournalLoadError> {
    let bytes = snapshot.entries.iter().map(canonical).collect();
    store.load_snapshot(snapshot, bytes, &rulings())
}

fn snapshot_of(
    entries: Vec<OperationJournalEntry>,
    next_sequence: u64,
) -> Result<OperationJournalSnapshot, OperationJournalLoadError> {
    OperationJournalSnapshot::new(entries, next_sequence, &rulings())
}

fn durable_evidence(
    operation_id: &OperationId,
    fact_ids: Vec<GuardianFactId>,
    diagnosis_ids: Vec<DiagnosisId>,
) -> DurableGuardianEvidence {
    DurableGuardianEvidence {
        operation_id: *operation_id,
        fact_ids,
        diagnosis_ids,
        install_terminal: None,
    }
}

fn planned_entry(operation_id: &OperationId) -> OperationJournalEntry {
    let mut entry = OperationJournalEntry::new(
        JournalId { text: format!("journal-{}", operation_id.text()) },
        *operation_id,
        CommandKind::InstallVersion,
        StabilizationSystem::Application,
        OwnershipClass::LauncherManaged,
        RollbackState::NotApplicable,
    );
    entry.sequence = 1;
    entry
}

fn completed_step(id: &str) -> OperationJournalStep {
    let mut step = OperationJournalStep::new(id, OperationPhase::Running);
    step.result = OperationStepResult::Completed;
    step
}

fn target(
    system: StabilizationSystem,
    kind: TargetKind,
    id: &str,
    ownership: OwnershipClass,
) -> TargetDescriptor {
    TargetDescriptor { system, kind, id: id.to_string(), ownership }
}

fn test_entry(operation_id: &str) -> OperationJournalEntry {
    let operation_id = operation(operation_id);
    let mut entry = planned_entry(&operation_id);
    entry.status = OperationStatus::Succeeded;
    entry.targets.push(target(
        StabilizationSystem::Application,
        TargetKind::Version,
        "minecraft_1.21.5",
        OwnershipClass::LauncherManaged,
    ));
    let mut completed =
        OperationJournalStep::new("install_progress_done", OperationPhase::Completed);
    completed.result = OperationStepResult::Completed;
    completed.generated_facts.push("install_phase:done".to_string());
    completed.generated_facts.push("install_done:true".to_string());
    entry.completed_steps.push(completed);
    entry.outcome = Some(OperationOutcome::Succeeded);
    entry
}

fn tier2_metrics(counters: [u64; 9]) -> OperationStepMetrics {
    OperationStepMetrics::Tier2Integrity(StepMetricsRecord {
        counters: counters.to_vec(),
        consistent: true,
    })
}

fn performance_intent(instance_id: &str) -> PerformanceOperationIntent {
    PerformanceOperationIntent {
        instance_id: instance_id.to_string(),
        requested_action: PerformanceOperationAction::Install,
        action: PerformanceOperationAction::Install,
        base_target_id: "composition-base".to_string(),
        rollback: RollbackState::Available,
        game_version: Some("1.21.5".to_string()),
        loader: Some("fabric".to_string()),
        mode: Some("balanced".to_string()),
        rollback_id: None,
    }
}

fn performance_prepared() -> PerformanceOperationPrepared {
    PerformanceOperationPrepared {
        result_target_id: "composition-base".to_string(),
        proof: PerformancePreparedProof::InstallPlan {
            graph_sha512: "0123456789abcdef".repeat(8),
            artifact_count: 3,
            aggregate_bytes: 4096,
        },
    }
}

fn invalid_lifecycle() -> OperationJournalStoreError {
    OperationJournalStoreError::Validation(
        OperationJournalValidationError::InvalidPerformanceLifecycle,
    )
}

fn temporal_reconciliation_entry(
    name: &str,
    observed_at: DateTime<Utc>,
    suppression_until: DateTime<Utc>,
    terminal: bool,
    pending_publication: bool,
    predecessor: Option<OperationId>,
) -> OperationJournalEntry {
    let operation_id = operation(name);
    let target_of = target(
        StabilizationSystem::Execution,
        TargetKind::Artifact,
        if pending_publication { "version-bundle" } else { "same-reconciliation-target" },
        OwnershipClass::LauncherManaged,
    );
    let lineage = match predecessor {
        Some(operation_id) => ReconciliationLineage::Predecessor { operation_id },
        None if pending_publication => ReconciliationLineage::Predecessor {
            operation_id: operation("temporal-pending-predecessor"),
        },
        None => ReconciliationLineage::Initial,
    };
    let attempt = ReconciliationAttempt {
        operation_id,
        diagnosis_id: DiagnosisId::LauncherManagedArtifactCorrupt,
        domain: GuardianDomain::Library,
        rung: if pending_publication {
            ReconciliationRung::RebuildComponent
        } else {
            ReconciliationRung::RepairArtifact
        },
        scope: ReconciliationScope {
            instance_id: "0123456789abcdef".to_string(),
            fingerprint:
                "sha256.aaaaaaaa.bbbbbbbb.cccccccc.dddddddd.eeeeeeee.ffffffff.01234567.89abcdef"
                    .to_string(),
            inventory_fingerprint:
                "sha256.11111111.22222222.33333333.44444444.55555555.66666666.77777777.88888888"
                    .to_string(),
            activation_contract_id: CONTRACT.to_string(),
        },
        component: if pending_publication {
            ReconciliationComponent::VersionBundle
        } else {
            ReconciliationComponent::Libraries
        },
        target: target_of.clone(),
        mode: GuardianMode::Managed,
        ownership: OwnershipClass::LauncherManaged,
        observed_at: observed_at.to_rfc3339(),
        suppression_until: suppression_until.to_rfc3339(),
        lineage,
        consistent: true,
    };
    let mut entry = OperationJournalEntry::new(
        JournalId { text: format!("journal-{}", operation_id.text()) },
        operation_id,
        CommandKind::RepairInstance,
        StabilizationSystem::Guardian,
        OwnershipClass::LauncherManaged,
        RollbackState::NotApplicable,
    );
    entry.targets = vec![
        target(
            StabilizationSystem::State,
            TargetKind::Instance,
            "0123456789abcdef",
            OwnershipClass::LauncherManaged,
        ),
        target_of.clone(),
    ];
    entry.guardian_diagnosis_ids.push(DiagnosisId::LauncherManagedArtifactCorrupt);
    entry.reconciliation_attempt = Some(attempt.clone());
    if terminal {
        let mut failed = OperationJournalStep::new(
            "repair_launcher_managed_artifact",
            OperationPhase::Repairing,
        );
        failed.result = OperationStepResult::Failed;
        failed.changed_target = Some(target_of);
        entry.status = OperationStatus::Failed;
        entry.completed_steps.push(failed);
        entry.failure_point = Some("artifact_repair_failed".to_string());
        entry.outcome = Some(OperationOutcome::Failed);
        entry.reconciliation_terminal = Some(ReconciliationTerminal {
            attempt,
            outcome: ReconciliationTerminalOutcome::Failed,
            quarantine_checkpoint: ReconciliationQuarantineCheckpoint {
                records: Vec::new(),
                bounded: true,
            },
            version_bundle_publication: if pending_publication {
                Some(ReconciliationPublication {
                    evidence: EVIDENCE.to_string(),
                    outcome: ReconciliationVersionBundleOutcome::RolledBack,
                    pending: true,
                })
            } else {
                None
            },
            consistent: true,
        });
    }
    entry
}

fn temporal_install_memory_entry(
    name: &str,
    observed_at: DateTime<Utc>,
) -> OperationJournalEntry {
    let mut entry = test_entry(name);
    let target_of = target(
        StabilizationSystem::Execution,
        TargetKind::Artifact,
        "minecraft_client_1.21.5",
        OwnershipClass::LauncherManaged,
    );
    let suppression_until = observed_at + Duration::minutes(5);
    entry.status = OperationStatus::Failed;
    entry.outcome = Some(OperationOutcome::Failed);
    entry.failure_point = Some("content_progress_download".to_string());
    entry.targets.push(target_of.clone());
    entry.guardian_diagnosis_ids.push(DiagnosisId::DownloadUnavailable);
    entry.guardian_install_terminal = Some(GuardianInstallTerminalEvidence {
        diagnosis_id: DiagnosisId::DownloadUnavailable,
        action: GuardianActionKind::Retry,
        memory: Some(GuardianInstallMemoryEvidence {
            binding: "2a".repeat(32),
            target: target_of,
            observed_at: observed_at.to_rfc3339_opts(SecondsFormat::Millis, true),
            suppression_until: suppression_until.to_rfc3339_opts(SecondsFormat::Millis, true),
        }),
        consistent: true,
    });
    entry
}

#[test]
fn behavior_narrow_queries_clone_only_matches_and_preserve_exact_order() {
    let mut store = new_store();
    let entries = ["narrow-c", "narrow-a", "narrow-b"]
        .into_iter()
        .enumerate()
        .map(|(index, id)| {
            let mut entry = test_entry(id);
            entry.sequence = (index + 1) as u64;
            entry
        })
        .collect::<Vec<_>>();
    let snapshot = snapshot_of(entries, 4).expect("valid narrow-query snapshot");
    load(&mut store, snapshot).expect("load narrow-query snapshot");

    let expected =
        store.list().into_iter().filter(|entry| entry.sequence != 2).collect::<Vec<_>>();
    assert_eq!(
        store.matching_entries(|entry: &OperationJournalEntry| entry.sequence != 2),
        expected
    );
    assert!(store.any_matching(|entry: &OperationJournalEntry| entry.sequence == 3));
    assert!(!store.any_matching(|entry: &OperationJournalEntry| entry.sequence == 9));
}

#[test]
fn behavior_contract_reserved_typed_evidence_strings_are_rejected() {
    let binding = "0123456789abcdef".repeat(4);
    let fact = format!("guardian_outcome_memory_binding:{binding}");
    for reserved in [
        fact,
        "guardian_fact:artifact_missing".to_string(),
        "integrity_counter:processed_entry_count:1".to_string(),
        "execution_download_fact:promoted:1".to_string(),
    ] {
        let mut rulings = rulings();
        rulings.sanitized_evidence.push(SanitizedEvidence {
            text: reserved.clone(),
            max_chars: 320,
            result: Some(reserved.clone()),
        });
        assert!(!safe_generated_fact(&reserved, &rulings));
    }
}

#[test]
fn install_publication_evidence_generated_fact_has_exact_safe_shape() {
    let fact = format!("install_publication_evidence:{EVIDENCE}");
    assert!(safe_generated_fact(&fact, &rulings()));
    assert!(!safe_generated_fact(&format!("x{fact}"), &rulings()));
    assert!(!safe_generated_fact(&format!("{fact}:suffix"), &rulings()));
    assert!(!safe_generated_fact(
        &fact.replacen("managed-install-v1", "managed-install-v2", 1),
        &rulings()
    ));
}

#[test]
fn install_activation_contract_generated_fact_has_exact_safe_shape() {
    let fact = format!("install_activation_contract:{CONTRACT}");
    assert!(safe_generated_fact(&fact, &rulings()));
    assert!(!safe_generated_fact(&format!("x{fact}"), &rulings()));
    assert!(!safe_generated_fact(&format!("{fact}:suffix"), &rulings()));
    assert!(!safe_generated_fact("install_activation_contract:", &rulings()));
    assert!(!safe_generated_fact(
        &fact.replacen("managed-install-activation-v1", "managed-install-activation-v2", 1),
        &rulings()
    ));
    assert!(!safe_generated_fact(&fact[..fact.len() - 1], &rulings()));
    assert!(!safe_generated_fact(&format!("{fact}!"), &rulings()));
}

#[test]
fn loader_build_generated_fact_has_exact_safe_shape() {
    let fact = format!("loader_build_id:{LOADER_BUILD}");
    assert!(safe_generated_fact(&fact, &rulings()));
    assert!(!safe_generated_fact(&format!("x{fact}"), &rulings()));
    assert!(!safe_generated_fact(&format!("{fact}:suffix"), &rulings()));
    assert!(!safe_generated_fact("loader_build_id:opaque-token", &rulings()));
}

fn check_version_fact(prefix: &str) {
    let safe = |payload: &str| safe_generated_fact(&format!("{prefix}{payload}"), &rulings());
    assert!(safe("1.21.5"));
    for payload in [
        "",
        "\n",
        "../secrets",
        r"C:\Users\player",
        ".",
        "..",
        " 1.21.5",
        "1.21.5 ",
        "1.21 5",
        "1.21.5-\u{03b2}",
    ] {
        assert!(!safe(payload));
    }
    assert!(!safe(&"v".repeat(257)));

    let fact = format!("{prefix}{LOADER_VERSION}");
    assert!(safe_generated_fact(&fact, &rulings()));
    assert!(!safe_generated_fact(&format!("x{fact}"), &rulings()));
    assert!(!safe_generated_fact(&format!("{fact}:suffix"), &rulings()));
    assert!(!safe("loader-v2-opaque-token"));
}

#[test]
fn install_version_generated_fact_has_exact_safe_shape() {
    check_version_fact("install_version_id:");
}

#[test]
fn install_publication_version_generated_fact_has_exact_safe_shape() {
    check_version_fact("install_publication_version_id:");
}

#[test]
fn performance_plan_graph_generated_fact_has_exact_safe_shape() {
    let digest = "0123456789abcdef".repeat(8);
    let fact = format!("performance_plan_graph_sha512_{digest}");
    let safe = |fact: &str| safe_generated_fact(fact, &rulings());
    assert!(safe(&fact));

    assert!(!safe(&format!(
        "performance_plan_graph_sha512_{}",
        digest.to_ascii_uppercase()
    )));
    assert!(!safe(&format!("performance_plan_graph_sha512_{}", &digest[..127])));
    assert!(!safe(&format!("performance_plan_graph_sha512_{digest}0")));
    assert!(!safe(&format!("performance_plan_graph_sha512_{}g", &digest[..127])));
    assert!(!safe(&format!("x{fact}")));
    assert!(!safe(&format!("{fact}:suffix")));
    assert!(!safe(&format!("opaque_identity_{digest}")));
}

#[test]
fn native_filesystem_contract_operation_identity() {
    let text = "op-123e4567-e89b-42d3-a456-426614174000";
    let operation_id = OperationId::parse(text).expect("canonical operation id");
    assert_eq!(operation_id.text(), text);
    assert!(OperationId::parse("op-123E4567-e89b-42d3-a456-426614174000").is_none());
    assert!(OperationId::parse("op-123e4567-e89b-12d3-a456-426614174000").is_none());
    assert!(OperationId::parse("123e4567-e89b-42d3-a456-426614174000").is_none());

    let mut store = new_store();
    let entry = planned_entry(&operation_id);
    create_fresh(&mut store, entry.clone()).expect("fresh identity is admitted once");
    assert_eq!(
        create_fresh(&mut store, entry.clone()),
        Err(OperationJournalStoreError::AlreadyExists)
    );
    create(&mut store, entry).expect("explicit resume remains idempotent");

    let snapshot = store.snapshot();
    assert_eq!(snapshot.schema, OPERATION_JOURNAL_SCHEMA);
    assert_eq!(snapshot.entries.len(), 1);
    assert_eq!(snapshot.entries[0].sequence, 1);
    assert_eq!(snapshot.entries[0].operation_id, operation_id);
    assert_eq!(snapshot.validate(&rulings()), Ok(()));

    let concurrent_id = OperationId::parse("op-123e4567-e89b-42d3-b456-426614174001")
        .expect("canonical concurrent operation id");
    let concurrent_entry = planned_entry(&concurrent_id);
    let left = create_fresh(&mut store, concurrent_entry.clone());
    let right = create_fresh(&mut store, concurrent_entry);
    assert_eq!(usize::from(left.is_ok()) + usize::from(right.is_ok()), 1);
    assert_eq!(
        left.err().or(right.err()),
        Some(OperationJournalStoreError::AlreadyExists)
    );
}

#[test]
fn performance_lifecycle_contract() {
    let mut store = new_store();
    let status = create_performance(&mut store, &performance_intent("0123456789abcdef"))
        .expect("create sole durable performance lifecycle");
    let id = status.operation_id;
    assert_eq!(status.state, "queued");
    assert!(matches!(status.phase, PerformanceOperationPhase::Accepted {}));
    assert_eq!(
        transition(&mut store, &id, PerformanceOperationTransition::EffectStarted),
        Err(OperationJournalStoreError::AlreadyExists)
    );
    transition(&mut store, &id, PerformanceOperationTransition::Planning)
        .expect("Accepted advances to Planning");
    let evidence = || {
        durable_evidence(
            &id,
            vec![GuardianFactId::PerformanceFallbackSelected],
            vec![DiagnosisId::PerformanceFallbackSelected],
        )
    };
    let other_evidence = || {
        durable_evidence(
            &id,
            vec![GuardianFactId::PerformanceRulesInvalid],
            vec![DiagnosisId::PerformanceFallbackSelected],
        )
    };
    record_performance_evidence(&mut store, evidence())
        .expect("supporting Guardian evidence is journal-owned after Planning");
    let evidence_snapshot = store.snapshot();
    record_performance_evidence(&mut store, evidence())
        .expect("deduplicated exact evidence retry is idempotent");
    assert_eq!(store.snapshot(), evidence_snapshot);
    assert_eq!(
        record_performance_evidence(&mut store, other_evidence()),
        Err(OperationJournalStoreError::AlreadyExists)
    );
    let prepared = performance_prepared();
    transition(&mut store, &id, PerformanceOperationTransition::Prepared(prepared.clone()))
        .expect("Planning advances to typed Prepared");
    record_performance_evidence(&mut store, evidence())
        .expect("Prepared restart may replay only the exact admitted Guardian evidence");
    assert_eq!(
        record_performance_evidence(&mut store, other_evidence()),
        Err(OperationJournalStoreError::AlreadyExists)
    );
    assert_eq!(
        store.performance_operation(&id).expect("prepared projection").restart,
        OperationRestartDisposition::Resumable
    );
    transition(&mut store, &id, PerformanceOperationTransition::EffectStarted)
        .expect("Prepared advances to EffectStarted");
    assert_ne!(
        store.performance_operation(&id).expect("effect-started projection").restart,
        OperationRestartDisposition::Resumable
    );

    let terminal = PerformanceOperationTerminal::Succeeded {
        prepared,
        changed_target: true,
        rollback: RollbackState::Available,
    };
    transition(
        &mut store,
        &id,
        PerformanceOperationTransition::RequestTerminal(terminal.clone()),
    )
    .expect("write terminal intent before terminal projection");
    assert_eq!(
        store.performance_operation(&id).expect("terminal intent projection").state,
        "committing_complete"
    );
    transition(&mut store, &id, PerformanceOperationTransition::CommitTerminal(terminal.clone()))
        .expect("commit typed terminal");
    transition(&mut store, &id, PerformanceOperationTransition::CommitTerminal(terminal))
        .expect("exact terminal retry is idempotent");
    let stable = store.snapshot();
    assert_eq!(
        transition(
            &mut store,
            &id,
            PerformanceOperationTransition::CommitTerminal(
                PerformanceOperationTerminal::FailedAfterEffect {
                    prepared: performance_prepared(),
                    changed_target: false,
                    rollback: RollbackState::Available,
                    error: "different terminal".to_string(),
                },
            ),
        ),
        Err(OperationJournalStoreError::AlreadyTerminal)
    );
    assert_eq!(store.snapshot(), stable);
    assert_eq!(
        store
            .record_guardian_evidence(
                &durable_evidence(&id, vec![GuardianFactId::PerformanceRulesInvalid], vec![]),
                &rulings()
            )
            .err(),
        Some(OperationJournalStoreError::AlreadyTerminal)
    );
    let terminal = store.performance_operation(&id).expect("terminal projection");
    assert_eq!(terminal.state, "complete");
    assert!(terminal.terminal);
    assert_eq!(terminal.created_at, status.created_at);
}

#[test]
fn behavior_strict_load_binds_performance_constructor_identity() {
    let mut store = new_store();
    let status = create_performance(&mut store, &performance_intent("abababababababab"))
        .expect("create typed operation");
    let invalid = Err(OperationJournalLoadError::InvalidEntry(
        OperationJournalValidationError::InvalidPerformanceLifecycle,
    ));

    let mut invalid_journal = store.snapshot();
    invalid_journal.entries[0].journal_id = JournalId { text: "journal-different".to_string() };
    assert_eq!(invalid_journal.validate(&rulings()), invalid);

    let mut invalid_action = store.snapshot();
    match &mut invalid_action.entries[0].intent {
        OperationIntent::Performance(lifecycle) => {
            lifecycle.intent.requested_action = PerformanceOperationAction::Remove;
            assert_eq!(lifecycle.intent.action, PerformanceOperationAction::Install);
        }
        _ => panic!("constructor creates a Performance lifecycle"),
    }
    assert_eq!(invalid_action.validate(&rulings()), invalid);

    let mut invalid_parent = store.snapshot();
    invalid_parent.entries[0].parent_operation_id =
        Some(operation("impossible-performance-parent"));
    assert_eq!(invalid_parent.validate(&rulings()), invalid);

    let mut duplicate_evidence = store.snapshot();
    let mut evidence = completed_step("guardian_evidence");
    evidence.guardian_fact_ids = vec![
        GuardianFactId::PerformanceFallbackSelected,
        GuardianFactId::PerformanceFallbackSelected,
    ];
    duplicate_evidence.entries[0].completed_steps = vec![evidence];
    assert_eq!(
        duplicate_evidence.validate(&rulings()),
        Err(OperationJournalLoadError::InvalidEntry(
            OperationJournalValidationError::DuplicateGuardianFact
        ))
    );
    assert_eq!(
        store
            .performance_operation(&status.operation_id)
            .expect("live constructor row remains valid")
            .operation_id,
        status.operation_id
    );
}

#[test]
fn behavior_restart_settlement_is_durable_and_second_restart_is_stable() {
    let mut store = new_store();
    let accepted = create_performance(&mut store, &performance_intent("1111111111111111"))
        .expect("create restart-abandoned operation");
    let effect_started = create_performance(&mut store, &performance_intent("2222222222222222"))
        .expect("create effect-started operation");
    let resumable = create_performance(&mut store, &performance_intent("3333333333333333"))
        .expect("create resumable operation");
    let terminal_intent = create_performance(&mut store, &performance_intent("4444444444444444"))
        .expect("create terminal-intent operation");
    let prepared = performance_prepared();
    for step in [
        PerformanceOperationTransition::Planning,
        PerformanceOperationTransition::Prepared(prepared.clone()),
        PerformanceOperationTransition::EffectStarted,
    ] {
        transition(&mut store, &effect_started.operation_id, step)
            .expect("advance effect-started fixture");
    }
    for operation_id in [resumable.operation_id, terminal_intent.operation_id] {
        transition(&mut store, &operation_id, PerformanceOperationTransition::Planning)
            .expect("advance restart fixture to Planning");
        transition(
            &mut store,
            &operation_id,
            PerformanceOperationTransition::Prepared(performance_prepared()),
        )
        .expect("advance restart fixture to Prepared");
    }
    transition(
        &mut store,
        &terminal_intent.operation_id,
        PerformanceOperationTransition::EffectStarted,
    )
    .expect("start terminal-intent effect");
    let intended_failure = PerformanceOperationTerminal::FailedAfterEffect {
        prepared: performance_prepared(),
        changed_target: false,
        rollback: RollbackState::Available,
        error: "durable intended failure".to_string(),
    };
    transition(
        &mut store,
        &terminal_intent.operation_id,
        PerformanceOperationTransition::RequestTerminal(intended_failure),
    )
    .expect("persist restart terminal intent");

    let mut restarted = new_store();
    load(&mut restarted, store.snapshot()).expect("first restart loads the snapshot");
    let plan = settle_restarts(&mut restarted).expect("durably settle first restart");
    assert_eq!(plan.resumable.len(), 1);
    assert_eq!(plan.resumable[0].operation_id, resumable.operation_id);
    assert!(matches!(
        &plan.resumable[0].phase,
        PerformanceOperationPhase::Prepared { prepared }
            if matches!(
                &prepared.proof,
                PerformancePreparedProof::InstallPlan {
                    graph_sha512,
                    artifact_count: 3,
                    aggregate_bytes: 4096,
                } if graph_sha512 == &"0123456789abcdef".repeat(8)
            )
    ));
    assert_eq!(plan.applied_unverified.len(), 1);
    assert_eq!(plan.applied_unverified[0].operation_id, effect_started.operation_id);
    assert_eq!(
        restarted
            .performance_operation(&accepted.operation_id)
            .expect("abandoned operation retained")
            .state,
        "interrupted"
    );
    assert_eq!(
        restarted
            .performance_operation(&terminal_intent.operation_id)
            .expect("terminal intent committed on restart")
            .state,
        "failed"
    );

    let mut restarted_again = new_store();
    load(&mut restarted_again, restarted.snapshot()).expect("second restart loads settled rows");
    let first = restarted_again.snapshot();
    let second_plan = settle_restarts(&mut restarted_again).expect("second restart is idempotent");
    assert_eq!(second_plan.applied_unverified.len(), 1);
    assert_eq!(restarted_again.snapshot(), first);
    assert!(matches!(
        restarted_again
            .performance_operation(&effect_started.operation_id)
            .expect("applied-unverified row remains explicit")
            .phase,
        PerformanceOperationPhase::AppliedUnverified { prepared: current, .. }
            if current == prepared
    ));
}

#[test]
fn behavior_abandoned_capacity_and_sequence_high_water_survive_pruning() {
    let mut store = store_of(128);
    let mut first = None;
    for index in 0_u64..128 {
        let status = create_performance(&mut store, &performance_intent(&format!("{index:016x}")))
            .expect("fill capacity with pre-effect operation");
        first.get_or_insert(status.operation_id);
    }
    settle_restarts(&mut store).expect("terminalize all abandoned pre-effect rows");
    let replacement = create_performance(&mut store, &performance_intent("ffffffffffffffff"))
        .expect("abandoned rows cannot block one new operation");
    assert_eq!(replacement.sequence, 129);
    assert!(store.get(&first.expect("first operation")).is_none());

    let snapshot = store.snapshot();
    assert_eq!(snapshot.next_sequence, 130);
    let mut restarted = store_of(128);
    load(&mut restarted, snapshot).expect("restart snapshot");
    let next = create_performance(&mut restarted, &performance_intent("eeeeeeeeeeeeeeee"))
        .expect("high-water survives prune and restart");
    assert_eq!(next.sequence, 130);
}

#[test]
fn behavior_applied_unverified_capacity_is_protected() {
    let mut store = store_of(128);
    for index in 0_u64..128 {
        let status = create_performance(&mut store, &performance_intent(&format!("{index:016x}")))
            .expect("create indeterminate operation");
        for step in [
            PerformanceOperationTransition::Planning,
            PerformanceOperationTransition::Prepared(performance_prepared()),
            PerformanceOperationTransition::EffectStarted,
        ] {
            transition(&mut store, &status.operation_id, step)
                .expect("advance indeterminate operation");
        }
    }
    let plan = settle_restarts(&mut store).expect("classify effect-started rows");
    assert_eq!(plan.applied_unverified.len(), 128);
    assert_eq!(
        create_performance(&mut store, &performance_intent("ffffffffffffffff")).err(),
        Some(OperationJournalStoreError::CapacityExhausted)
    );
}

#[test]
fn behavior_snapshot_rejects_parallel_active_instance_lifecycles() {
    let mut store = new_store();
    let status = create_performance(&mut store, &performance_intent("aaaaaaaaaaaaaaaa"))
        .expect("create active operation");
    let first = store.get(&status.operation_id).expect("active entry");
    let mut second = first.clone();
    second.operation_id = operation("parallel-performance");
    second.journal_id = JournalId { text: format!("journal-{}", second.operation_id.text()) };
    second.sequence = 2;
    let snapshot = OperationJournalSnapshot {
        schema: OPERATION_JOURNAL_SCHEMA.to_string(),
        next_sequence: 3,
        entries: vec![first, second],
    };
    assert_eq!(
        snapshot.validate(&rulings()),
        Err(OperationJournalLoadError::InvalidEntry(
            OperationJournalValidationError::InvalidPerformanceLifecycle
        ))
    );
}

#[test]
fn behavior_rejects_inconsistent_action_target_and_rollback_identity() {
    let mut store = new_store();
    let mut intent = performance_intent("bbbbbbbbbbbbbbbb");
    intent.action = PerformanceOperationAction::Remove;
    intent.rollback = RollbackState::Unavailable;
    assert_eq!(create_performance(&mut store, &intent).err(), Some(invalid_lifecycle()));
}

#[test]
fn behavior_prepared_proof_is_bound_to_intent_target() {
    let mut store = new_store();
    let status = create_performance(&mut store, &performance_intent("bcbcbcbcbcbcbcbc"))
        .expect("create target-bound operation");
    transition(&mut store, &status.operation_id, PerformanceOperationTransition::Planning)
        .expect("advance target-bound operation");
    let mut mismatched = performance_prepared();
    mismatched.result_target_id = "foreign-composition".to_string();
    assert_eq!(
        transition(
            &mut store,
            &status.operation_id,
            PerformanceOperationTransition::Prepared(mismatched.clone()),
        ),
        Err(invalid_lifecycle())
    );

    let mut entry = store.get(&status.operation_id).expect("planning entry");
    match &mut entry.intent {
        OperationIntent::Performance(lifecycle) => {
            lifecycle.phase = PerformanceOperationPhase::Prepared { prepared: mismatched };
        }
        _ => panic!("performance lifecycle"),
    }
    entry.status = OperationStatus::Running;
    let invalid = OperationJournalSnapshot {
        schema: OPERATION_JOURNAL_SCHEMA.to_string(),
        next_sequence: 2,
        entries: vec![entry],
    };
    assert_eq!(
        invalid.validate(&rulings()),
        Err(OperationJournalLoadError::InvalidEntry(
            OperationJournalValidationError::InvalidPerformanceLifecycle
        ))
    );
}

#[test]
fn behavior_rollback_proof_target_class_matches_exact_target() {
    let proof = |target| PerformancePreparedProof::RollbackSnapshot {
        snapshot_id: "snapshot-safe".to_string(),
        target,
        artifact_count: 1,
    };
    let mut intent = performance_intent("cdcdcdcdcdcdcdcd");
    intent.requested_action = PerformanceOperationAction::Rollback;
    intent.action = PerformanceOperationAction::Rollback;
    intent.rollback = RollbackState::Available;
    intent.base_target_id = "performance_managed_state_absent".to_string();
    let absent = PerformanceOperationPrepared {
        result_target_id: intent.base_target_id.clone(),
        proof: proof(PerformanceRollbackTarget::ManagedStateAbsent),
    };
    assert!(validate_performance_prepared(&intent, &absent).is_ok());
    let mut wrong_absent = absent.clone();
    wrong_absent.proof = proof(PerformanceRollbackTarget::ManagedComposition);
    assert!(validate_performance_prepared(&intent, &wrong_absent).is_err());

    intent.base_target_id = "managed-composition-target".to_string();
    let composition = PerformanceOperationPrepared {
        result_target_id: intent.base_target_id.clone(),
        proof: proof(PerformanceRollbackTarget::ManagedComposition),
    };
    assert!(validate_performance_prepared(&intent, &composition).is_ok());
    let mut wrong_composition = composition;
    wrong_composition.proof = proof(PerformanceRollbackTarget::ManagedStateAbsent);
    assert!(validate_performance_prepared(&intent, &wrong_composition).is_err());
}

#[test]
fn behavior_remove_absent_commits_without_effect() {
    let mut store = new_store();
    let mut intent = performance_intent("dddddddddddddddd");
    intent.action = PerformanceOperationAction::Remove;
    intent.base_target_id = "performance_composition_lock".to_string();
    intent.rollback = RollbackState::Unavailable;
    let status = create_performance(&mut store, &intent).expect("create absent remove");
    let id = status.operation_id;
    transition(&mut store, &id, PerformanceOperationTransition::Planning)
        .expect("plan absent remove");
    let prepared = PerformanceOperationPrepared {
        result_target_id: "performance_composition_lock".to_string(),
        proof: PerformancePreparedProof::ManagedStateAbsent {},
    };
    transition(&mut store, &id, PerformanceOperationTransition::Prepared(prepared.clone()))
        .expect("prepare known absent remove");
    assert_eq!(
        transition(&mut store, &id, PerformanceOperationTransition::EffectStarted),
        Err(OperationJournalStoreError::AlreadyExists)
    );
    assert_eq!(
        transition(
            &mut store,
            &id,
            PerformanceOperationTransition::RequestTerminal(
                PerformanceOperationTerminal::Succeeded {
                    prepared: prepared.clone(),
                    changed_target: true,
                    rollback: RollbackState::Unavailable,
                },
            ),
        ),
        Err(invalid_lifecycle())
    );
    assert_eq!(
        transition(
            &mut store,
            &id,
            PerformanceOperationTransition::RequestTerminal(
                PerformanceOperationTerminal::FailedAfterEffect {
                    prepared: prepared.clone(),
                    changed_target: false,
                    rollback: RollbackState::Unavailable,
                    error: "absent state cannot fail after an effect".to_string(),
                },
            ),
        ),
        Err(invalid_lifecycle())
    );
    let terminal = PerformanceOperationTerminal::Succeeded {
        prepared,
        changed_target: false,
        rollback: RollbackState::Unavailable,
    };
    transition(
        &mut store,
        &id,
        PerformanceOperationTransition::RequestTerminal(terminal.clone()),
    )
    .expect("write known no-effect terminal intent");
    transition(&mut store, &id, PerformanceOperationTransition::CommitTerminal(terminal))
        .expect("commit known no-effect terminal");
}

#[test]
fn behavior_terminal_retains_effective_rollback_fact() {
    let mut store = new_store();
    let mut intent = performance_intent("eeeeeeeeeeeeeeee");
    intent.rollback = RollbackState::Unavailable;
    let status = create_performance(&mut store, &intent).expect("create first install");
    let id = status.operation_id;
    let prepared = performance_prepared();
    for step in [
        PerformanceOperationTransition::Planning,
        PerformanceOperationTransition::Prepared(prepared.clone()),
        PerformanceOperationTransition::EffectStarted,
    ] {
        transition(&mut store, &id, step).expect("advance first install");
    }
    let terminal = PerformanceOperationTerminal::Succeeded {
        prepared,
        changed_target: true,
        rollback: RollbackState::Available,
    };
    transition(
        &mut store,
        &id,
        PerformanceOperationTransition::RequestTerminal(terminal.clone()),
    )
    .expect("write terminal intent");
    assert_eq!(
        store.get(&id).expect("terminal intent journal").rollback,
        RollbackState::Unavailable
    );
    transition(&mut store, &id, PerformanceOperationTransition::CommitTerminal(terminal))
        .expect("commit effective rollback");
    let snapshot = store.snapshot();
    assert_eq!(snapshot.entries[0].rollback, RollbackState::Available);
    load(&mut new_store(), snapshot).expect("reload effective rollback fact");
}

#[test]
fn behavior_exact_install_reapply_commits_without_effect_started() {
    let mut store = new_store();
    let mut intent = performance_intent("edededededededed");
    intent.rollback = RollbackState::Unavailable;
    let status = create_performance(&mut store, &intent).expect("create exact install reapply");
    let prepared = performance_prepared();
    let terminal = PerformanceOperationTerminal::Succeeded {
        prepared: prepared.clone(),
        changed_target: false,
        rollback: RollbackState::Unavailable,
    };
    for step in [
        PerformanceOperationTransition::Planning,
        PerformanceOperationTransition::Prepared(prepared),
        PerformanceOperationTransition::RequestTerminal(terminal.clone()),
        PerformanceOperationTransition::CommitTerminal(terminal),
    ] {
        transition(&mut store, &status.operation_id, step)
            .expect("commit exact no-effect install");
    }
    assert_eq!(
        store
            .performance_operation(&status.operation_id)
            .expect("terminal exact install")
            .state,
        "complete"
    );
}

#[test]
fn behavior_strict_sequence_high_water_rejects_missing_reuse_and_overflow() {
    let mut entry = test_entry("strict-sequence");
    entry.sequence = 7;
    let snapshot = snapshot_of(vec![entry], 8).expect("strict snapshot");
    assert_eq!(snapshot.next_sequence, 8);

    let mut reused = snapshot.clone();
    reused.next_sequence = 7;
    assert_eq!(reused.validate(&rulings()), Err(OperationJournalLoadError::InvalidSequence));

    let mut maximum = snapshot.entries[0].clone();
    maximum.sequence = u64::MAX;
    assert_eq!(
        snapshot_of(vec![maximum], u64::MAX).err(),
        Some(OperationJournalLoadError::InvalidSequence)
    );
}

#[test]
fn behavior_flush_retries_semantic_candidate_before_success() {
    let mut store = new_store();
    let operation_id = operation("strict-flush-candidate");
    let draft = store
        .create(planned_entry(&operation_id), &rulings())
        .expect("draft")
        .expect("the journal is new");
    assert_eq!(
        write(&mut store, draft, 1, false),
        Err(OperationJournalStoreError::Persistence(PersistenceFault::WriteFailed))
    );
    assert!(store.has_retry_candidate());
    assert!(store.get(&operation_id).is_none());

    assert!(retry(&mut store, 1, false).is_err());
    assert!(store.has_retry_candidate());
    assert!(store.get(&operation_id).is_none());

    retry(&mut store, 1, true).expect("retry candidate then flush");
    assert!(!store.has_retry_candidate());
    assert!(store.get(&operation_id).is_some());
}

#[test]
fn behavior_create_failure_retains_minted_identity_and_same_candidate() {
    let mut store = new_store();
    let intent = performance_intent("cccccccccccccccc");
    let draft = store
        .create_performance(&intent, &mint("create-identity"), NOW, &rulings())
        .expect("draft the lifecycle");
    let operation_id = draft.entry.operation_id;
    let error = write(&mut store, draft, 1, false).expect_err("initial commit fails");
    assert!(outcome_is_open(&error));
    assert!(store.get(&operation_id).is_none());
    assert!(store.has_retry_candidate());

    retry(&mut store, 1, true).expect("reconcile exact admitted performance candidate");
    let projection = store
        .created_performance_operation(&operation_id, &intent, &rulings())
        .expect("the created operation is visible");
    assert_eq!(projection.operation_id, operation_id);
    assert_eq!(projection.sequence, 1);
    assert_eq!(store.list().len(), 1);
}

#[test]
fn behavior_create_reconciliation_accepts_an_exact_planning_descendant() {
    let mut store = new_store();
    let intent = performance_intent("cfcfcfcfcfcfcfcf");
    let status = create_performance(&mut store, &intent).expect("create the lifecycle");
    transition(&mut store, &status.operation_id, PerformanceOperationTransition::Planning)
        .expect("another owner advances Planning");
    let projection = store
        .created_performance_operation(&status.operation_id, &intent, &rulings())
        .expect("creator accepts exact Planning descendant");
    assert!(matches!(projection.phase, PerformanceOperationPhase::Planning {}));
    let other = performance_intent("cdcdcdcdcdcdcdcd");
    assert!(store.created_performance_operation(&status.operation_id, &other, &rulings()).is_err());
}

#[test]
fn behavior_performance_evidence_converges_own_and_foreign_failed_commits() {
    let mut store = new_store();
    let status = create_performance(&mut store, &performance_intent("dddddddddddddddd"))
        .expect("create performance operation");
    transition(&mut store, &status.operation_id, PerformanceOperationTransition::Planning)
        .expect("advance before Guardian evidence");

    let fact = GuardianFactId::PerformanceFallbackSelected;
    let diagnosis = DiagnosisId::PerformanceFallbackSelected;
    let evidence = durable_evidence(&status.operation_id, vec![fact], vec![diagnosis]);
    let draft = store
        .record_performance_guardian_evidence(&evidence, NOW, &rulings())
        .expect("draft evidence")
        .expect("evidence is new");
    assert!(write(&mut store, draft, 1, false).is_err());
    retry(&mut store, 1, true)
        .expect("accepted evidence commit converges after persistence failure");
    let entry = store.get(&status.operation_id).expect("visible evidence");
    assert_eq!(entry.completed_steps.len(), 1);
    assert_eq!(entry.completed_steps[0].guardian_fact_ids, vec![fact]);
    assert_eq!(entry.guardian_diagnosis_ids, vec![diagnosis]);

    let exact_snapshot = store.snapshot();
    record_performance_evidence(&mut store, evidence).expect("exact evidence retry is stable");
    assert_eq!(store.snapshot(), exact_snapshot);

    let second = create_performance(&mut store, &performance_intent("abababababababab"))
        .expect("create second performance operation");
    let foreign_id = operation("foreign-evidence-candidate");
    let foreign = store
        .create(planned_entry(&foreign_id), &rulings())
        .expect("draft foreign entry")
        .expect("foreign entry is new");
    assert!(write(&mut store, foreign, 2, false).is_err());
    let second_evidence = durable_evidence(&second.operation_id, vec![fact], vec![diagnosis]);
    assert_eq!(
        record_performance_evidence(&mut store, second_evidence.clone()),
        Err(OperationJournalStoreError::RetryRequired)
    );
    retry(&mut store, 2, true).expect("foreign candidate drains");
    record_performance_evidence(&mut store, second_evidence.clone())
        .expect("typed evidence is reapplied");
    assert!(store.get(&foreign_id).is_some());
    assert!(performance_guardian_evidence_matches(
        &store.get(&second.operation_id).expect("second evidence visible"),
        &second_evidence,
    ));
}

#[test]
fn evidence_shows_only_before_anything_is_prepared() {
    let mut store = new_store();
    let status = create_performance(&mut store, &performance_intent("bcbcbcbcbcbcbcbc"))
        .expect("create performance operation");
    let id = status.operation_id;
    let evidence = durable_evidence(
        &id,
        vec![GuardianFactId::PerformanceFallbackSelected],
        vec![DiagnosisId::PerformanceFallbackSelected],
    );
    let shows = |store: &OperationJournalStore| {
        let entry = store.get(&id).expect("the journal of the operation");
        performance_guardian_evidence_is_visible(&entry, &evidence)
    };
    assert!(!shows(&store));
    record_performance_evidence(&mut store, evidence.clone()).expect("record the evidence");
    assert!(shows(&store));
    transition(&mut store, &id, PerformanceOperationTransition::Planning).expect("plan");
    assert!(shows(&store));
    transition(
        &mut store,
        &id,
        PerformanceOperationTransition::Prepared(performance_prepared()),
    )
    .expect("prepare");
    assert!(!shows(&store));
    assert!(performance_guardian_evidence_matches(
        &store.get(&id).expect("the journal of the operation"),
        &evidence
    ));
}

#[test]
fn behavior_transitions_and_restart_settlement_converge_failed_commits() {
    let mut store = new_store();
    let status = create_performance(&mut store, &performance_intent("eeeeeeeeeeeeeeee"))
        .expect("create performance operation");
    let id = status.operation_id;
    let draft = store
        .transition_performance(&id, &PerformanceOperationTransition::Planning, NOW, &rulings())
        .expect("draft Planning")
        .expect("Planning is new");
    assert!(write(&mut store, draft, 1, false).is_err());
    retry(&mut store, 1, true).expect("nonterminal transition reconciles exact candidate");
    let before_retry = store.snapshot();
    transition(&mut store, &id, PerformanceOperationTransition::Planning)
        .expect("exact transition replay");
    assert_eq!(store.snapshot(), before_retry);

    let terminal = PerformanceOperationTerminal::FailedBeforeEffect {
        error: "bounded failure".to_string(),
    };
    transition(
        &mut store,
        &id,
        PerformanceOperationTransition::RequestTerminal(terminal.clone()),
    )
    .expect("terminal intent");
    transition(&mut store, &id, PerformanceOperationTransition::CommitTerminal(terminal))
        .expect("terminal commit");

    let abandoned = create_performance(&mut store, &performance_intent("ffffffffffffffff"))
        .expect("create restart-abandoned row");
    let settled =
        store.settle_performance_restarts(NOW, &rulings()).expect("draft restart settlement");
    let bytes = settled.iter().map(canonical).collect();
    let candidate = store
        .prepare_restarts(settled, bytes)
        .expect("prepare restart settlement")
        .expect("one row is settled");
    let commit = store
        .accept_candidate(candidate, WriteTicket::Immediate(2))
        .expect("the write is waited for");
    assert!(store.settle_commit(commit, false).is_err());
    assert_eq!(
        store.settle_performance_restarts(NOW, &rulings()).err(),
        Some(OperationJournalStoreError::RetryRequired)
    );
    retry(&mut store, 2, true).expect("restart settlement retries its exact candidate");
    assert_eq!(
        store
            .performance_operation(&abandoned.operation_id)
            .expect("settled restart row")
            .state,
        "interrupted"
    );
}

#[test]
fn behavior_prepared_commit_accepts_a_proven_effect_started_descendant() {
    let mut store = new_store();
    let status = create_performance(&mut store, &performance_intent("dededededededede"))
        .expect("create descendant convergence operation");
    let id = status.operation_id;
    let prepared = performance_prepared();
    for step in [
        PerformanceOperationTransition::Planning,
        PerformanceOperationTransition::Prepared(prepared.clone()),
        PerformanceOperationTransition::EffectStarted,
    ] {
        transition(&mut store, &id, step).expect("another owner advances EffectStarted");
    }
    let before = store.snapshot();
    transition(&mut store, &id, PerformanceOperationTransition::Prepared(prepared.clone()))
        .expect("first owner accepts proven Prepared descendant");
    assert_eq!(store.snapshot(), before);
    assert!(matches!(
        store.performance_operation(&id).expect("descendant projection").phase,
        PerformanceOperationPhase::EffectStarted { prepared: current } if current == prepared
    ));
}

#[test]
fn journal_store_creates_updates_and_reads_records() {
    let mut store = new_store();
    let operation_id = operation("operation-1");
    let mut entry = OperationJournalEntry::new(
        JournalId { text: "journal-1".to_string() },
        operation_id,
        CommandKind::RefreshPerformanceRules,
        StabilizationSystem::Application,
        OwnershipClass::LauncherManaged,
        RollbackState::NotApplicable,
    );
    entry
        .planned_steps
        .push(OperationJournalStep::new("refresh_remote_rules", OperationPhase::Running));

    create(&mut store, entry).expect("create journal");

    let draft = store
        .record_progress(
            &operation_id,
            completed_step("refresh_remote_rules_progress"),
            &rulings(),
        )
        .expect("record progress");
    publish(&mut store, draft).expect("publish progress");
    succeed(&mut store, &operation_id, completed_step("refresh_remote_rules"))
        .expect("record success");

    let stored = store.get(&operation_id).expect("journal record");
    assert_eq!(stored.status, OperationStatus::Succeeded);
    assert_eq!(stored.completed_steps.len(), 2);
    assert_eq!(stored.completed_steps[0].step_id, "refresh_remote_rules_progress");
    assert_eq!(stored.outcome, Some(OperationOutcome::Succeeded));
    assert_eq!(
        store
            .latest_for_command(CommandKind::RefreshPerformanceRules)
            .expect("latest journal")
            .operation_id,
        operation_id
    );
}

#[test]
fn latest_and_retention_use_store_sequence_not_random_operation_identity() {
    let mut store = store_of(2);
    let first_id = operation("sequence-first");
    let second_id = operation("sequence-second");
    let third_id = operation("sequence-third");

    for (operation_id, step_id) in [(first_id, "first_done"), (second_id, "second_done")] {
        create(&mut store, planned_entry(&operation_id)).expect("create terminal candidate");
        succeed(&mut store, &operation_id, completed_step(step_id)).expect("terminalize candidate");
    }
    assert_eq!(
        store
            .latest_for_command(CommandKind::InstallVersion)
            .expect("latest command")
            .operation_id,
        second_id
    );

    create(&mut store, planned_entry(&third_id)).expect("create third");
    assert!(store.get(&first_id).is_none(), "oldest sequence is pruned");
    assert!(store.get(&second_id).is_some());
    assert!(store.get(&third_id).is_some());
}

#[test]
fn terminal_journal_outcome_is_immutable_after_success() {
    let mut store = new_store();
    let operation_id = operation("operation-terminal-success");
    create(&mut store, planned_entry(&operation_id)).expect("create journal");

    let mut success = OperationJournalStep::new("install_done", OperationPhase::Completed);
    success.result = OperationStepResult::Completed;
    succeed(&mut store, &operation_id, success).expect("record success");

    let mut failure = OperationJournalStep::new("install_failed", OperationPhase::Failed);
    failure.result = OperationStepResult::Failed;
    assert_eq!(
        store
            .record_failure(
                &operation_id,
                failure,
                "download_failed".to_string(),
                OperationOutcome::Failed,
                &rulings()
            )
            .err(),
        Some(OperationJournalStoreError::AlreadyTerminal)
    );

    let stored = store.get(&operation_id).expect("journal");
    assert_eq!(stored.status, OperationStatus::Succeeded);
    assert_eq!(stored.outcome, Some(OperationOutcome::Succeeded));
    assert_eq!(stored.failure_point, None);
    assert_eq!(stored.completed_steps.len(), 1);
    assert_eq!(stored.completed_steps[0].step_id, "install_done");
}

#[test]
fn terminal_journal_outcome_is_immutable_after_failure() {
    let mut store = new_store();
    let operation_id = operation("operation-terminal-failure");
    create(&mut store, planned_entry(&operation_id)).expect("create journal");

    let mut failure = OperationJournalStep::new("install_failed", OperationPhase::Failed);
    failure.result = OperationStepResult::Failed;
    let draft = store
        .record_failure(
            &operation_id,
            failure,
            "download_failed".to_string(),
            OperationOutcome::Failed,
            &rulings(),
        )
        .expect("record failure");
    publish(&mut store, draft).expect("publish failure");

    let mut success = OperationJournalStep::new("install_done", OperationPhase::Completed);
    success.result = OperationStepResult::Completed;
    succeed(&mut store, &operation_id, success).expect_err("terminal journal rejects success");

    let stored = store.get(&operation_id).expect("journal");
    assert_eq!(stored.status, OperationStatus::Failed);
    assert_eq!(stored.outcome, Some(OperationOutcome::Failed));
    assert_eq!(stored.failure_point.as_deref(), Some("download_failed"));
    assert_eq!(stored.completed_steps.len(), 1);
    assert_eq!(stored.completed_steps[0].step_id, "install_failed");
}

#[test]
fn success_with_guardian_evidence_is_one_terminal_transition() {
    let mut store = new_store();
    let operation_id = operation("integrity-sweep-atomic-success");
    let mut planned = planned_entry(&operation_id);
    planned.command = CommandKind::ValidateInstance;
    create(&mut store, planned).expect("create planned journal");
    let mut step = OperationJournalStep::new("tier2_integrity_sweep", OperationPhase::Validating);
    step.result = OperationStepResult::Completed;
    step.metrics = Some(tier2_metrics([1, 1, 1, 1, 1, 1, 0, 0, 0]));

    let draft = store
        .record_success_with_guardian_evidence(
            step,
            &durable_evidence(
                &operation_id,
                vec![GuardianFactId::ArtifactHashMismatch],
                vec![DiagnosisId::LauncherManagedArtifactCorrupt],
            ),
            &rulings(),
        )
        .expect("record atomic terminal evidence");
    publish(&mut store, draft).expect("publish atomic terminal evidence");

    let stored = store.get(&operation_id).expect("terminal journal");
    assert_eq!(stored.status, OperationStatus::Succeeded);
    assert_eq!(stored.outcome, Some(OperationOutcome::Succeeded));
    assert_eq!(stored.completed_steps.len(), 1);
    assert!(stored.completed_steps[0].generated_facts.is_empty());
    assert_eq!(
        stored.completed_steps[0].guardian_fact_ids,
        vec![GuardianFactId::ArtifactHashMismatch]
    );
    assert_eq!(
        stored.guardian_diagnosis_ids,
        vec![DiagnosisId::LauncherManagedArtifactCorrupt]
    );
}

#[test]
fn typed_terminal_methods_reject_mismatched_step_results_without_mutation() {
    let mut store = new_store();
    let validated = |store: &mut OperationJournalStore, name: &str| {
        let operation_id = operation(name);
        let mut entry = planned_entry(&operation_id);
        entry.command = CommandKind::ValidateInstance;
        create(store, entry).expect("create entry");
        operation_id
    };

    let success_id = validated(&mut store, "typed-success-result-mismatch");
    let success_before = store.get(&success_id).expect("success entry");
    let mut failed_metrics =
        OperationJournalStep::new("tier2_integrity_sweep", OperationPhase::Validating);
    failed_metrics.result = OperationStepResult::Failed;
    failed_metrics.metrics = Some(tier2_metrics([1, 1, 1, 1, 1, 1, 0, 0, 0]));
    assert_eq!(
        store.record_success_with_metrics(&success_id, failed_metrics, &rulings()).err(),
        Some(OperationJournalStoreError::InvalidOperationMetrics)
    );
    assert_eq!(store.get(&success_id), Some(success_before));

    let failure_id = validated(&mut store, "typed-failure-result-mismatch");
    let failure_before = store.get(&failure_id).expect("failure entry");
    assert_eq!(
        store
            .record_failure_with_guardian_evidence(
                completed_step("tier2_integrity_sweep"),
                "integrity_failed".to_string(),
                OperationOutcome::Failed,
                &durable_evidence(
                    &failure_id,
                    vec![GuardianFactId::ArtifactMissing],
                    vec![DiagnosisId::LauncherManagedArtifactCorrupt],
                ),
                &rulings(),
            )
            .err(),
        Some(OperationJournalStoreError::InvalidGuardianOutcome)
    );
    assert_eq!(store.get(&failure_id), Some(failure_before));

    let cancellation_id = validated(&mut store, "typed-cancellation-result-mismatch");
    let cancellation_before = store.get(&cancellation_id).expect("cancellation entry");
    let mut completed_metrics = completed_step("tier2_integrity_sweep");
    completed_metrics.metrics = Some(tier2_metrics([1, 1, 1, 1, 1, 1, 0, 0, 0]));
    assert_eq!(
        store
            .record_cancellation_with_metrics(&cancellation_id, completed_metrics, &rulings())
            .err(),
        Some(OperationJournalStoreError::InvalidOperationMetrics)
    );
    assert_eq!(store.get(&cancellation_id), Some(cancellation_before));
}

#[test]
fn cancellation_atomically_replaces_nonterminal_findings() {
    let mut store = new_store();
    let operation_id = operation("integrity-sweep-atomic-cancel");
    let mut planned = planned_entry(&operation_id);
    planned.command = CommandKind::ValidateInstance;
    create(&mut store, planned).expect("create planned journal");
    let draft = store
        .record_checkpoint(&operation_id, completed_step("obsolete_progress"), &rulings())
        .expect("record nonterminal progress");
    publish(&mut store, draft).expect("publish nonterminal progress");
    let draft = store
        .record_guardian_evidence(
            &durable_evidence(
                &operation_id,
                vec![GuardianFactId::ArtifactMissing],
                vec![DiagnosisId::LauncherManagedArtifactCorrupt],
            ),
            &rulings(),
        )
        .expect("record nonterminal diagnosis");
    publish(&mut store, draft).expect("publish nonterminal diagnosis");
    let mut cancelled =
        OperationJournalStep::new("tier2_integrity_sweep", OperationPhase::Validating);
    cancelled.result = OperationStepResult::Skipped;
    cancelled.metrics = Some(tier2_metrics([0; 9]));

    let draft = store
        .record_cancellation_with_metrics(&operation_id, cancelled, &rulings())
        .expect("record atomic cancellation");
    publish(&mut store, draft).expect("publish atomic cancellation");

    let stored = store.get(&operation_id).expect("cancelled journal");
    assert_eq!(stored.status, OperationStatus::Cancelled);
    assert_eq!(stored.outcome, Some(OperationOutcome::Cancelled));
    assert_eq!(stored.completed_steps.len(), 1);
    assert!(stored.completed_steps[0].generated_facts.is_empty());
    assert!(matches!(
        stored.completed_steps[0].metrics,
        Some(OperationStepMetrics::Tier2Integrity(_))
    ));
    assert!(stored.guardian_diagnosis_ids.is_empty());
    assert_eq!(stored.failure_point, None);
}

#[test]
fn operation_journal_snapshot_rejects_raw_public_evidence() {
    let mut entry = test_entry("operation-raw");
    entry.completed_steps[0]
        .generated_facts
        .push(r"C:\Users\Alice\.minecraft --accessToken secret -Xmx8192M".to_string());

    assert!(snapshot_of(vec![entry], 2).is_err());

    let mut unsafe_target = test_entry("operation-unsafe-target");
    unsafe_target.targets.push(target(
        StabilizationSystem::State,
        TargetKind::FilesystemPath,
        "/home/alice/.axial/libraries/secret.jar",
        OwnershipClass::LauncherManaged,
    ));
    assert!(snapshot_of(vec![unsafe_target], 2).is_err());
}

#[test]
fn operation_journal_error_class_never_exposes_raw_persistence_details() {
    let error = OperationJournalStoreError::Persistence(PersistenceFault::WriteFailed);

    assert_eq!(error.class(), "persistence");
    assert!(!error.class().contains("Alice"));
    assert!(!error.class().contains("token"));
}

#[test]
fn structured_tokens_accept_uuid_ids_without_allowing_secret_runs() {
    assert!(safe_token("performance-rules-refresh-123e4567-e89b-12d3-a456-426614174000", 128));
    assert!(safe_token("guardian-artifact-repair:123e4567-e89b-12d3-a456-426614174000", 128));
    assert!(!safe_token(
        "operation-abcdefghijklmnopqrstuvwxyzabcdefghijklmnopqrstuvwxyz123456",
        128,
    ));
    assert!(!safe_token("operation-access-token-secret", 128));
}

#[test]
fn journal_store_persists_snapshot_for_restart_replay() {
    let mut store = new_store();
    let entry = test_entry("install-operation-restart-replay");
    let operation_id = entry.operation_id;
    create(&mut store, entry).expect("create journal");
    let draft = store
        .record_guardian_evidence(
            &durable_evidence(
                &operation_id,
                vec![GuardianFactId::DownloadProviderUnavailable],
                vec![DiagnosisId::DownloadUnavailable],
            ),
            &rulings(),
        )
        .expect("record Guardian evidence");
    publish(&mut store, draft).expect("publish Guardian evidence");

    let snapshot = store.snapshot();
    assert_eq!(snapshot.validate(&rulings()), Ok(()));
    assert_eq!(snapshot.entries.len(), 1);

    let mut reloaded = new_store();
    load(&mut reloaded, snapshot).expect("reload operation journals");
    let loaded = reloaded.get(&operation_id).expect("reloaded journal");
    assert_eq!(loaded.operation_id, operation_id);
    assert_eq!(loaded.status, OperationStatus::Succeeded);
    assert!(loaded.guardian_diagnosis_ids.contains(&DiagnosisId::DownloadUnavailable));
}

#[test]
fn journal_store_preserves_future_schema_and_fails_closed() {
    let mut store = new_store();
    create(&mut store, test_entry("kept")).expect("seed a journal");
    let before = store.snapshot();
    let future = OperationJournalSnapshot {
        schema: "axial.state.operation_journals.v11".to_string(),
        next_sequence: 1,
        entries: Vec::new(),
    };
    assert_eq!(load(&mut store, future), Err(OperationJournalLoadError::InvalidSchema));
    assert_eq!(store.snapshot(), before);
}

#[test]
fn previous_operation_journal_schema_is_strict_invalid_and_preserved_byte_exact() {
    let mut store = new_store();
    let mut previous =
        snapshot_of(vec![test_entry("previous-schema")], 2).expect("valid snapshot");
    previous.schema = "axial.state.operation_journals.v9".to_string();
    assert_eq!(load(&mut store, previous), Err(OperationJournalLoadError::InvalidSchema));
    assert!(store.list().is_empty());
    assert_eq!(OPERATION_JOURNAL_SCHEMA, "axial.state.operation_journals.v10");
}

#[test]
fn behavior_contract_revision_reuses_unchanged_entries_and_encodes_canonically() {
    let mut store = new_store();
    let mut entries = Vec::new();
    for index in 0..DEFAULT_OPERATION_JOURNAL_LIMIT {
        let mut entry = test_entry(&format!("operation-temporal-journal-cached-{index:03}"));
        entry.sequence = index as u64 + 1;
        entries.push(entry);
    }
    let snapshot = snapshot_of(entries, DEFAULT_OPERATION_JOURNAL_LIMIT as u64 + 1)
        .expect("maximum-cardinality snapshot");
    load(&mut store, snapshot).expect("accept maximum-cardinality revision");
    let encoded = store.visible().assemble();
    let expected = format!(
        "{}{}{}{}{}",
        OPERATION_JOURNAL_SNAPSHOT_PREFIX,
        DEFAULT_OPERATION_JOURNAL_LIMIT + 1,
        OPERATION_JOURNAL_SNAPSHOT_ENTRIES_PREFIX,
        store
            .list()
            .iter()
            .map(|entry| String::from_utf8(canonical(entry)).expect("text"))
            .collect::<Vec<_>>()
            .join(","),
        OPERATION_JOURNAL_SNAPSHOT_SUFFIX
    );
    assert_eq!(encoded, expected.into_bytes());
    assert_eq!(encoded.len(), store.visible().encoded_len());

    assert_eq!(checked_replaced_entries_bytes(10, 4, 7), Ok(13));
    assert!(checked_replaced_entries_bytes(3, 4, 7).is_err());
    assert!(checked_replaced_entries_bytes(usize::MAX, 0, 1).is_err());
}

#[test]
fn behavior_contract_revision_accounts_exact_eight_mib_before_encoding() {
    let mut entry = test_entry("operation-temporal-journal-exact-size");
    entry.sequence = 1;
    let fixed = OPERATION_JOURNAL_SNAPSHOT_PREFIX.len()
        + 1
        + OPERATION_JOURNAL_SNAPSHOT_ENTRIES_PREFIX.len()
        + OPERATION_JOURNAL_SNAPSHOT_SUFFIX.len();
    let exact_entry_bytes = MAX_OPERATION_JOURNAL_SNAPSHOT_BYTES as usize - fixed;
    let snapshot = snapshot_of(vec![entry], 2).expect("valid snapshot");
    let mut store = new_store();
    store
        .load_snapshot(snapshot.clone(), vec![vec![b'x'; exact_entry_bytes]], &rulings())
        .expect("accept exact aggregate");
    assert_eq!(
        store.visible().encoded_len() as u64,
        MAX_OPERATION_JOURNAL_SNAPSHOT_BYTES
    );

    assert_eq!(
        new_store().load_snapshot(snapshot, vec![vec![b'x'; exact_entry_bytes + 1]], &rulings()),
        Err(OperationJournalLoadError::TooLarge)
    );
}

#[test]
fn behavior_contract_oversized_candidate_is_rejected_before_visibility() {
    let mut store = new_store();
    let mut oversized = test_entry("operation-oversized-candidate");
    let fact = "\u{1f600}".repeat(320);
    oversized.completed_steps = (0..110)
        .map(|index| {
            let mut step = completed_step(&format!("oversized-step-{index}"));
            step.generated_facts = vec![fact.clone(); MAX_OPERATION_JOURNAL_STEP_FACTS];
            step
        })
        .collect();
    let mut rulings = rulings();
    rulings.sanitized_evidence.push(SanitizedEvidence {
        text: fact.clone(),
        max_chars: 320,
        result: Some(fact.clone()),
    });
    assert!(validate_entry(&oversized, &rulings).is_ok());
    let facts_alone =
        fact.into_bytes().repeat(oversized.completed_steps.len() * MAX_OPERATION_JOURNAL_STEP_FACTS);
    assert!(facts_alone.len() as u64 > MAX_OPERATION_JOURNAL_SNAPSHOT_BYTES);
    let draft = store
        .create(oversized, &rulings)
        .expect("draft oversized candidate")
        .expect("the candidate is new");
    assert_eq!(
        store.prepare(draft, facts_alone).err(),
        Some(OperationJournalStoreError::Persistence(PersistenceFault::SnapshotTooLarge))
    );
    assert!(!store.has_retry_candidate());
    assert!(store.list().is_empty());

    let accepted = operation("operation-after-oversized-candidate");
    create(&mut store, planned_entry(&accepted)).expect("later bounded candidate remains writable");
    assert!(store.get(&accepted).is_some());
}

#[test]
fn journal_store_retention_evicts_only_terminal_entries() {
    let mut store = store_of(2);
    let pinned = operation("operation-pinned");
    create(&mut store, planned_entry(&pinned)).expect("create pinned journal");

    for index in 0..16 {
        let operation_id = operation(&format!("operation-terminal-{index:02}"));
        create(&mut store, planned_entry(&operation_id)).expect("create terminal churn journal");
        succeed(&mut store, &operation_id, completed_step("done"))
            .expect("terminalize churn journal");
        assert!(store.get(&pinned).is_some());
    }

    let entries = store.list();
    assert_eq!(entries.len(), 2);
    assert!(entries.iter().any(|entry| entry.operation_id == pinned));
}

#[test]
fn journal_store_rejects_capacity_exhausted_by_nonterminal_entries() {
    let mut store = store_of(2);
    for id in ["operation-active-1", "operation-active-2"] {
        create(&mut store, planned_entry(&operation(id))).expect("create journal");
    }
    let before = store.snapshot();

    assert_eq!(
        create(&mut store, planned_entry(&operation("operation-active-3"))),
        Err(OperationJournalStoreError::CapacityExhausted)
    );
    assert_eq!(store.snapshot(), before);
    assert_eq!(
        create(&mut store, test_entry("operation-terminal-new")),
        Err(OperationJournalStoreError::CapacityExhausted)
    );
    assert_eq!(store.snapshot(), before);
}

#[test]
fn journal_store_accepts_exact_duplicate_create_without_rewriting() {
    let mut store = new_store();
    let entry = test_entry("operation-exact-duplicate");
    create(&mut store, entry.clone()).expect("create journal");
    assert!(
        store.create(entry, &rulings()).expect("exact duplicate").is_none(),
        "exact duplicate is idempotent"
    );
    assert_eq!(store.list().len(), 1);
}

#[test]
fn exact_idempotent_checkpoint_duplicate_does_not_submit_persistence() {
    let mut store = new_store();
    let operation_id = operation("operation-idempotent-checkpoint");
    create(&mut store, planned_entry(&operation_id)).expect("create journal");
    let checkpoint = completed_step("durable_checkpoint");
    let draft = store
        .record_idempotent_checkpoint(&operation_id, checkpoint.clone(), &rulings())
        .expect("record checkpoint")
        .expect("the checkpoint is new");
    publish(&mut store, draft).expect("publish checkpoint");

    assert!(
        store
            .record_idempotent_checkpoint(&operation_id, checkpoint, &rulings())
            .expect("exact checkpoint")
            .is_none(),
        "exact checkpoint duplicate is a no-op"
    );
    assert!(!store.has_retry_candidate());
    assert_eq!(
        store.get(&operation_id).expect("checkpoint journal").completed_steps.len(),
        1
    );
}

#[test]
fn journal_store_rejects_duplicate_create_over_terminal_record() {
    let mut store = new_store();
    let operation_id = operation("operation-terminal-duplicate");
    let planned = planned_entry(&operation_id);
    create(&mut store, planned.clone()).expect("create journal");
    succeed(&mut store, &operation_id, completed_step("done")).expect("terminalize journal");

    assert_eq!(create(&mut store, planned), Err(OperationJournalStoreError::AlreadyExists));
    assert_eq!(
        store.get(&operation_id).expect("terminal journal").status,
        OperationStatus::Succeeded
    );
}

#[test]
fn initial_journal_is_hidden_until_the_physical_commit_finishes() {
    let mut store = new_store();
    let operation_id = operation("operation-gated-initial");
    let draft = store
        .create(planned_entry(&operation_id), &rulings())
        .expect("draft journal")
        .expect("the journal is new");
    let bytes = canonical(&draft.entry);
    let candidate = store.prepare(draft, bytes).expect("prepare journal");
    let commit = store
        .accept_candidate(candidate, WriteTicket::Immediate(1))
        .expect("the write is waited for");
    assert!(store.get(&operation_id).is_none());
    store.settle_commit(commit, true).expect("commit initial journal");
    assert_eq!(
        store.get(&operation_id).expect("visible journal").status,
        OperationStatus::Planned
    );
}

#[test]
fn behavior_contract_cross_owner_coalesced_revision_reloads_exactly() {
    let mut store = new_store();
    let operation_id = operation("operation-progress-burst");
    create(&mut store, planned_entry(&operation_id)).expect("create journal");
    for index in 0..100 {
        let draft = store
            .record_progress(
                &operation_id,
                completed_step(&format!("progress_{index}")),
                &rulings(),
            )
            .expect("accept progress");
        let bytes = canonical(&draft.entry);
        let candidate = store.prepare(draft, bytes).expect("prepare progress");
        assert!(
            store.accept_candidate(candidate, WriteTicket::Debounced(index + 1)).is_none()
        );
    }

    let mut reloaded = new_store();
    load(&mut reloaded, store.snapshot()).expect("reload journal store");
    assert_eq!(
        reloaded.get(&operation_id).expect("reloaded journal").completed_steps.len(),
        100
    );
}

#[test]
fn behavior_contract_failed_immediate_commit_retries_exact_hidden_candidate() {
    let mut store = new_store();
    let operation_id = operation("operation-failure-retry");
    create(&mut store, planned_entry(&operation_id)).expect("create journal");
    let draft = store
        .record_success(
            &operation_id,
            completed_step("operation_done"),
            OperationOutcome::Succeeded,
            &rulings(),
        )
        .expect("draft success");
    assert!(write(&mut store, draft, 1, false).is_err());
    assert_eq!(
        store.get(&operation_id).expect("nonterminal journal").status,
        OperationStatus::Planned
    );
    assert_eq!(
        store
            .record_progress(&operation_id, completed_step("late_progress"), &rulings())
            .err(),
        Some(OperationJournalStoreError::RetryRequired)
    );
    retry(&mut store, 1, true).expect("flush observed retry");
    assert_eq!(
        store.get(&operation_id).expect("retried journal").status,
        OperationStatus::Succeeded
    );
}

#[test]
fn reconciliation_verifies_own_transition_after_another_owner_clears_candidate() {
    let mut store = new_store();
    let operation_id = operation("operation-reconcile-own");
    create(&mut store, planned_entry(&operation_id)).expect("create journal");
    let terminal_step = completed_step("operation_done");
    let draft = store
        .record_success(
            &operation_id,
            terminal_step.clone(),
            OperationOutcome::Succeeded,
            &rulings(),
        )
        .expect("draft success");
    let error = write(&mut store, draft, 1, false).expect_err("terminal commit fails physically");

    retry(&mut store, 1, true).expect("second owner commits accepted candidate");
    assert!(!store.has_retry_candidate());
    let reconciliation =
        TransitionReconciliation::start(error, 1, 5).expect("the outcome is open");
    assert_eq!(
        reconciliation.next_step(store.has_retry_candidate()),
        ReconciliationStep::Conclude
    );
    let entry = store.get(&operation_id).expect("visible journal");
    let shows = entry.status == OperationStatus::Succeeded
        && entry.outcome == Some(OperationOutcome::Succeeded)
        && entry.failure_point.is_none()
        && operation_journal_completed_step_is_visible(&entry, &terminal_step);
    assert!(matches!(
        reconciliation.conclude(shows),
        Ok(OperationJournalReconciliation::CommittedAfterPersistenceFailure(_))
    ));
}

#[test]
fn reconciliation_retains_a_permanent_candidate_without_retrying_forever() {
    let mut store = new_store();
    let operation_id = operation("operation-reconcile-permanent-failure");
    create(&mut store, planned_entry(&operation_id)).expect("create journal");
    let draft = store
        .record_success(
            &operation_id,
            completed_step("never_persisted"),
            OperationOutcome::Succeeded,
            &rulings(),
        )
        .expect("draft success");
    let error = write(&mut store, draft, 1, false).expect_err("initial persistence fails");

    let mut reconciliation =
        TransitionReconciliation::start(error, 1, 2).expect("the outcome is open");
    let mut waits = Vec::new();
    let mut step = reconciliation.next_step(store.has_retry_candidate());
    let mut attempts = 0;
    loop {
        match step {
            ReconciliationStep::Retry => {
                attempts += 1;
                let outcome = retry(&mut store, 1, false);
                step = reconciliation.note_retry(outcome, store.has_retry_candidate());
            }
            ReconciliationStep::WaitMillis(millis) => {
                waits.push(millis);
                step = reconciliation.next_step(store.has_retry_candidate());
            }
            ReconciliationStep::Conclude => break,
        }
    }
    assert_eq!(attempts, OPERATION_JOURNAL_TRANSITION_RETRY_ATTEMPTS);
    assert_eq!(waits, vec![1, 2, 2]);
    assert_eq!(
        reconciliation.conclude(false),
        Err(OperationJournalStoreError::Persistence(PersistenceFault::WriteFailed))
    );
    assert!(store.has_retry_candidate());
    assert_eq!(
        store.get(&operation_id).expect("last durable journal").status,
        OperationStatus::Planned
    );
}

#[test]
fn planned_transition_rejects_an_advanced_journal_to_prevent_effect_replay() {
    let operation_id = operation("operation-plan-visible-after-progress");
    let expected = planned_entry(&operation_id);
    let mut advanced = expected.clone();
    advanced.status = OperationStatus::Running;
    advanced.completed_steps.push(completed_step("progress"));

    assert!(!operation_journal_plan_is_visible(&advanced, &expected));
    advanced = expected.clone();
    assert!(operation_journal_plan_is_visible(&advanced, &expected));
    advanced.owner = StabilizationSystem::Execution;
    assert!(!operation_journal_plan_is_visible(&advanced, &expected));
}

#[test]
fn reconciliation_reapplies_after_foreign_candidate_is_cleared() {
    let mut store = new_store();
    let requested_id = operation("operation-reconcile-requested");
    let foreign_id = operation("operation-reconcile-foreign");
    create(&mut store, planned_entry(&requested_id)).expect("create requested journal");
    create(&mut store, planned_entry(&foreign_id)).expect("create foreign journal");
    let foreign = store
        .record_success(
            &foreign_id,
            completed_step("foreign_done"),
            OperationOutcome::Succeeded,
            &rulings(),
        )
        .expect("draft foreign success");
    write(&mut store, foreign, 1, false).expect_err("foreign terminal commit fails physically");
    let requested_step = completed_step("requested_checkpoint");
    let error = store
        .record_checkpoint(&requested_id, requested_step.clone(), &rulings())
        .err()
        .expect("requested transition waits for foreign candidate");

    retry(&mut store, 1, true).expect("second owner commits foreign candidate");
    let reconciliation =
        TransitionReconciliation::start(error, 1, 5).expect("the request is tried again");
    assert_eq!(
        reconciliation.next_step(store.has_retry_candidate()),
        ReconciliationStep::Conclude
    );
    let entry = store.get(&requested_id).expect("requested journal");
    let shows = operation_journal_completed_step_is_visible(&entry, &requested_step);
    assert!(!shows);
    let found = reconciliation.conclude(shows).expect("the requested transition is reapplied");
    assert_eq!(found, OperationJournalReconciliation::RetryRequestedTransition);
    assert_eq!(try_again(0, found), Ok(Some(1)));
    assert_eq!(
        try_again(OPERATION_JOURNAL_TRANSITION_RETRY_ATTEMPTS, found),
        Err(OperationJournalStoreError::RetryRequired)
    );
    assert_eq!(
        reconciliation.conclude(true),
        Ok(OperationJournalReconciliation::RequestedTransitionAlreadyCommitted)
    );
    assert!(
        TransitionReconciliation::start(OperationJournalStoreError::AlreadyExists, 1, 5).is_err()
    );
}

#[test]
fn behavior_contract_install_memory_load_is_structural_and_rejects_invalid_window() {
    let now = time("2026-08-13T10:00:00Z");
    let mut store = OperationJournalStore::with_max_entries(2, clock(now));
    let mut future = temporal_install_memory_entry(
        "evidence-contracts-future-install-memory",
        now + Duration::seconds(301),
    );
    future.sequence = 1;
    let mut current = test_entry("evidence-contracts-current-after-future");
    current.sequence = 2;
    load(
        &mut store,
        OperationJournalSnapshot {
            schema: OPERATION_JOURNAL_SCHEMA.to_string(),
            next_sequence: 3,
            entries: vec![future, current.clone()],
        },
    )
    .expect("structurally valid install memory is not journal temporal authority");
    assert_eq!(store.list().len(), 2);
    assert!(store.get(&current.operation_id).is_some());
    assert_eq!(store.temporal_load_issues().future_observation, 0);

    let mut inconsistent =
        temporal_install_memory_entry("evidence-contracts-overlong-install-memory", now);
    if let Some(terminal) = inconsistent.guardian_install_terminal.as_mut() {
        terminal.consistent = false;
    }
    assert_eq!(
        snapshot_of(vec![inconsistent], 2).err(),
        Some(OperationJournalLoadError::InvalidEntry(
            OperationJournalValidationError::InvalidGuardianInstallTerminal
        ))
    );
}

#[test]
fn behavior_contract_install_memory_does_not_protect_operation_from_capacity_pruning() {
    let now = time("2026-08-13T10:00:00Z");
    let mut store = OperationJournalStore::with_max_entries(1, clock(now));
    let unprotected =
        temporal_install_memory_entry("evidence-contracts-current-install-memory", now);
    let unprotected_id = unprotected.operation_id;
    create(&mut store, unprotected).expect("admit install memory");
    let replacement = test_entry("evidence-contracts-expired-replacement");
    let replacement_id = replacement.operation_id;
    create(&mut store, replacement).expect("install memory does not protect operation capacity");
    assert!(store.get(&unprotected_id).is_none());
    assert!(store.get(&replacement_id).is_some());
}

#[test]
fn behavior_contract_restart_retains_only_live_child_predecessor() {
    let now = time("2026-08-13T10:00:00Z");
    let mut predecessor = temporal_reconciliation_entry(
        "restart-expired-predecessor",
        now - Duration::hours(2),
        now - Duration::hours(1),
        true,
        false,
        None,
    );
    predecessor.sequence = 1;
    let predecessor_id = predecessor.operation_id;
    let mut unrelated = temporal_reconciliation_entry(
        "restart-unrelated-expired",
        now - Duration::hours(2),
        now - Duration::hours(1),
        true,
        false,
        None,
    );
    unrelated.sequence = 2;
    let unrelated_id = unrelated.operation_id;
    let mut child = temporal_reconciliation_entry(
        "restart-live-version-bundle-child",
        now,
        now + Duration::hours(1),
        false,
        true,
        Some(predecessor_id),
    );
    child.sequence = 3;
    let child_id = child.operation_id;
    assert!(child.parent_operation_id.is_none());

    let persisted = snapshot_of(vec![predecessor, unrelated, child.clone()], 4)
        .expect("valid relational restart snapshot");
    let mut store = OperationJournalStore::with_max_entries(2, clock(now));
    load(&mut store, persisted).expect("reload relational snapshot");
    assert!(
        store.get(&predecessor_id).is_some(),
        "the exact expired predecessor remains available to startup reconstruction"
    );
    assert!(store.get(&child_id).is_some());
    assert!(
        store.get(&unrelated_id).is_none(),
        "unrelated expired terminal history is not retained"
    );

    let attempt = child.reconciliation_attempt.clone().expect("VersionBundle child attempt");
    let mut failed = OperationJournalStep::new("rebuild_version_bundle", OperationPhase::Repairing);
    failed.result = OperationStepResult::Failed;
    failed.changed_target = Some(attempt.target.clone());
    let terminal = ReconciliationTerminal {
        attempt,
        outcome: ReconciliationTerminalOutcome::Failed,
        quarantine_checkpoint: ReconciliationQuarantineCheckpoint {
            records: Vec::new(),
            bounded: true,
        },
        version_bundle_publication: None,
        consistent: true,
    };
    let draft = store
        .record_reconciliation_failure(
            &child_id,
            failed,
            "version_bundle_rebuild_failed".to_string(),
            terminal,
            &rulings(),
        )
        .expect("resolve the live child obligation");
    publish(&mut store, draft).expect("publish the resolution");

    let replacement = test_entry("after-restart-child-resolution");
    let replacement_id = replacement.operation_id;
    create(&mut store, replacement).expect("resolved predecessor is capacity eligible");
    assert!(store.get(&predecessor_id).is_none());
    assert!(store.get(&child_id).is_some());
    assert!(store.get(&replacement_id).is_some());
}

#[test]
fn behavior_contract_temporal_load_filters_before_capacity_and_counts_reasons() {
    let now = time("2026-08-13T10:00:00Z");
    let mut store = OperationJournalStore::with_max_entries(2, clock(now));
    let future = now + Duration::minutes(6);
    let overlong = now + Duration::hours(25);
    let mut entries = (0..128)
        .map(|index| {
            let observed = if index % 2 == 0 { future } else { now };
            let until = if index % 2 == 0 { future + Duration::hours(1) } else { overlong };
            let mut entry = temporal_reconciliation_entry(
                &format!("temporal-invalid-{index}"),
                observed,
                until,
                true,
                false,
                None,
            );
            entry.sequence = index + 1;
            entry
        })
        .collect::<Vec<_>>();
    let mut current = test_entry("temporal-current");
    current.sequence = 129;
    entries.push(current.clone());
    let snapshot = OperationJournalSnapshot {
        schema: OPERATION_JOURNAL_SCHEMA.to_string(),
        next_sequence: 130,
        entries,
    };

    load(&mut store, snapshot).expect("invalid temporal rows are excluded before capacity");
    assert_eq!(store.list(), vec![current]);
    assert_eq!(store.load_issue_count(), 128);
    assert_eq!(store.temporal_load_issues().future_observation, 64);
    assert_eq!(store.temporal_load_issues().out_of_bounds_window, 64);
}

#[test]
fn behavior_contract_temporal_admission_rejects_future_and_overlong_attempts() {
    let now = time("2026-08-13T10:00:00Z");
    let mut store = OperationJournalStore::with_max_entries(128, clock(now));
    for (name, observed, until) in [
        ("future-attempt", now + Duration::seconds(301), now + Duration::hours(1)),
        ("overlong-attempt", now, now + Duration::seconds(86_401)),
    ] {
        for terminal in [false, true] {
            let entry = temporal_reconciliation_entry(
                &format!("{name}-{terminal}"),
                observed,
                until,
                terminal,
                false,
                None,
            );
            assert_eq!(
                create(&mut store, entry),
                Err(OperationJournalStoreError::Validation(
                    OperationJournalValidationError::InvalidReconciliationTerminal
                ))
            );
        }
    }
    for (name, observed, until) in [
        ("exact-future-bound", now + Duration::seconds(300), now + Duration::hours(1)),
        ("exact-window-bound", now, now + Duration::seconds(86_400)),
    ] {
        create(
            &mut store,
            temporal_reconciliation_entry(name, observed, until, false, false, None),
        )
        .expect("exact temporal boundary is admitted");
    }
    assert_eq!(store.list().len(), 2);
}

#[test]
fn behavior_contract_expired_pending_publication_ack_becomes_evictable() {
    let now = time("2026-08-13T10:00:00Z");
    let mut policy = clock(now);
    let mut store = OperationJournalStore::with_max_entries(1, policy);
    let mut pending = temporal_reconciliation_entry(
        "expired-pending-publication",
        now - Duration::hours(2),
        now - Duration::hours(1),
        true,
        true,
        None,
    );
    pending.sequence = 1;
    let expected = pending.reconciliation_terminal.clone().expect("pending terminal");
    load(
        &mut store,
        OperationJournalSnapshot {
            schema: OPERATION_JOURNAL_SCHEMA.to_string(),
            next_sequence: 2,
            entries: vec![pending],
        },
    )
    .expect("expired pending publication stays current");

    policy.observe(1, 0);
    store.set_temporal(policy);
    let acknowledged = store
        .acknowledge_reconciliation_version_bundle_publication(&expected, &rulings())
        .expect("exact acknowledgement bypasses terminal expiry");
    assert!(
        !acknowledged
            .terminal
            .version_bundle_publication
            .as_ref()
            .expect("publication")
            .pending
    );
    publish(&mut store, acknowledged.draft.expect("the acknowledgement is new"))
        .expect("publish the acknowledgement");

    let replacement = test_entry("after-expired-publication-ack");
    let replacement_id = replacement.operation_id;
    create(&mut store, replacement).expect("acknowledged expired record is capacity eligible");
    assert!(store.get(&expected.attempt.operation_id).is_none());
    assert!(store.get(&replacement_id).is_some());
}

#[test]
fn behavior_contract_expired_reconciliation_settlement_commits_then_is_evictable() {
    let now = time("2026-08-13T10:00:00Z");
    let mut policy = clock(now);
    let mut store = OperationJournalStore::with_max_entries(1, policy);
    let suppression_until = now + Duration::hours(1);
    let plan = temporal_reconciliation_entry(
        "expired-terminal-settlement",
        now,
        suppression_until,
        false,
        false,
        None,
    );
    let operation_id = plan.operation_id;
    create(&mut store, plan).expect("admit current plan");

    policy.observe(2 * 60 * 60, 0);
    store.set_temporal(policy);
    let mut terminal_entry = temporal_reconciliation_entry(
        "expired-terminal-settlement",
        now,
        suppression_until,
        true,
        false,
        None,
    );
    let failure_step = terminal_entry.completed_steps.remove(0);
    let terminal = terminal_entry.reconciliation_terminal.take().expect("failed terminal");
    let draft = store
        .record_reconciliation_failure(
            &operation_id,
            failure_step,
            "artifact_repair_failed".to_string(),
            terminal,
            &rulings(),
        )
        .expect("expiry does not strand an admitted terminal settlement");
    publish(&mut store, draft).expect("publish the settlement");
    assert_eq!(
        store.get(&operation_id).expect("settled journal").status,
        OperationStatus::Failed
    );

    let replacement = test_entry("after-expired-terminal-settlement");
    let replacement_id = replacement.operation_id;
    create(&mut store, replacement).expect("expired settled terminal is capacity eligible");
    assert!(store.get(&operation_id).is_none());
    assert!(store.get(&replacement_id).is_some());
}

#[test]
fn persisted_repair_is_planned_and_settled() {
    let now = time(NOW);
    let mut store = new_store();
    let operation_id = operation("persisted-repair");
    let attempt = PersistedStateRepairAttempt {
        operation_id,
        journal_id: JournalId { text: format!("journal-{}", operation_id.text()) },
        store: PersistedStateRecordStore::BenchmarkSuiteDriver,
        record_id: "benchmark-suite-driver-0000000000000001".to_string(),
        physical_identity: "sha256.01010101".to_string(),
        target: target(
            StabilizationSystem::State,
            TargetKind::FilesystemPath,
            "benchmark-suite-driver-0000000000000001",
            OwnershipClass::LauncherManaged,
        ),
        observed_at: now.to_rfc3339(),
        suppression_until: (now + Duration::minutes(15)).to_rfc3339(),
        consistent: true,
    };
    let refusal = |attempt: PersistedStateRepairAttempt| {
        store.create_persisted_state_repair_plan(attempt, &rulings()).err()
    };
    assert_eq!(
        refusal(PersistedStateRepairAttempt { consistent: false, ..attempt.clone() }),
        Some(OperationJournalStoreError::Validation(
            OperationJournalValidationError::InvalidPersistedStateRepair
        ))
    );
    assert_eq!(
        refusal(PersistedStateRepairAttempt {
            target: TargetDescriptor { id: "a/b".to_string(), ..attempt.target.clone() },
            ..attempt.clone()
        }),
        Some(OperationJournalStoreError::Validation(
            OperationJournalValidationError::UnsafeTargetId
        ))
    );
    let draft = store
        .create_persisted_state_repair_plan(attempt.clone(), &rulings())
        .expect("plan the repair");
    publish(&mut store, draft).expect("publish the plan");
    let planned = store.get(&operation_id).expect("planned repair");
    assert!(persisted_state_repair_plan_is_visible(&planned, &attempt, &rulings()));
    assert_eq!(planned.sequence, 1);
    assert_eq!(planned.status, OperationStatus::Planned);
    assert_eq!(planned.command, CommandKind::RepairPersistedState);
    assert_eq!(planned.targets, vec![attempt.target.clone()]);
    assert_eq!(planned.guardian_diagnosis_ids, vec![DiagnosisId::PersistedStateSchemaInvalid]);
    assert_eq!(planned.planned_steps[0].step_id, "quarantine_rejected_restart_record");
    assert_eq!(store.snapshot().next_sequence, 2);
    assert_eq!(
        store.create_persisted_state_repair_plan(attempt.clone(), &rulings()).err(),
        Some(OperationJournalStoreError::AlreadyExists)
    );

    let terminal = PersistedStateRepairTerminal {
        attempt: attempt.clone(),
        outcome: PersistedStateRepairTerminalOutcome::Quarantined,
        suppression_until: attempt.suppression_until.clone(),
        consistent: true,
    };
    assert!(!persisted_state_repair_terminal_is_visible(&planned, &terminal, &rulings()));
    let draft = store
        .record_persisted_state_repair_terminal(&operation_id, terminal.clone(), &rulings())
        .expect("settle the repair");
    publish(&mut store, draft).expect("publish the settlement");
    let settled = store.get(&operation_id).expect("settled repair");
    assert!(persisted_state_repair_terminal_is_visible(&settled, &terminal, &rulings()));
    assert!(!persisted_state_repair_plan_is_visible(&settled, &attempt, &rulings()));
    assert!(operation_journal_terminal_is_visible(&settled, &settled));
    assert_eq!(
        store
            .record_persisted_state_repair_terminal(&operation_id, terminal, &rulings())
            .err(),
        Some(OperationJournalStoreError::AlreadyTerminal)
    );
}

#[test]
fn performance_operations_are_found_by_their_instance() {
    let mut store = new_store();
    let intent = performance_intent("aaaaaaaaaaaaaaaa");
    assert!(store.current_or_latest_performance_operation("aaaaaaaaaaaaaaaa").is_none());
    let first = create_performance(&mut store, &intent).expect("create the first operation");
    assert_eq!(
        create_performance(&mut store, &intent).err(),
        Some(OperationJournalStoreError::Conflict)
    );
    settle_restarts(&mut store).expect("abandon the first operation");
    let second = create_performance(&mut store, &intent).expect("create the second operation");
    let found = store
        .current_or_latest_performance_operation("aaaaaaaaaaaaaaaa")
        .expect("the operation of the instance");
    assert_eq!(found.operation_id, second.operation_id);
    assert_ne!(found.operation_id, first.operation_id);
    assert!(store.performance_operation(&operation("absent")).is_none());
}

#[test]
fn journals_with_faults_are_told_apart() {
    let valid = planned_entry(&operation("faults"));
    let check = |entry: &OperationJournalEntry| validate_entry(entry, &rulings()).err();
    assert_eq!(check(&valid), None);
    let mut entry = valid.clone();
    entry.journal_id = JournalId { text: "a b".to_string() };
    assert_eq!(check(&entry), Some(OperationJournalValidationError::UnsafeJournalId));
    let mut entry = valid.clone();
    entry.parent_operation_id = Some(entry.operation_id);
    assert_eq!(check(&entry), Some(OperationJournalValidationError::InvalidParentOperationId));
    let mut entry = valid.clone();
    entry.completed_steps.push(completed_step(""));
    assert_eq!(check(&entry), Some(OperationJournalValidationError::UnsafeStepId));
    let mut entry = valid.clone();
    entry.failure_point = Some("C:\\secret".to_string());
    assert_eq!(check(&entry), Some(OperationJournalValidationError::UnsafeFailurePoint));
    let mut entry = valid.clone();
    entry.guardian_diagnosis_ids =
        vec![DiagnosisId::DownloadUnavailable, DiagnosisId::DownloadUnavailable];
    assert_eq!(check(&entry), Some(OperationJournalValidationError::DuplicateDiagnosis));
    let mut entry = valid.clone();
    for index in 0..17 {
        entry.targets.push(target(
            StabilizationSystem::Execution,
            TargetKind::Artifact,
            &format!("target-{index}"),
            OwnershipClass::LauncherManaged,
        ));
    }
    assert_eq!(check(&entry), Some(OperationJournalValidationError::TooManyTargets));
    let mut entry = valid.clone();
    let mut step = completed_step("measured");
    step.metrics = Some(tier2_metrics([1; 9]));
    entry.completed_steps.push(step);
    assert_eq!(check(&entry), Some(OperationJournalValidationError::InvalidOperationMetrics));

    let mut twice = valid.clone();
    twice.sequence = 2;
    assert_eq!(
        snapshot_of(vec![valid.clone(), twice], 3).err(),
        Some(OperationJournalLoadError::DuplicateOperationId)
    );
    assert_eq!(
        new_store()
            .record_progress(&operation("absent"), completed_step("late"), &rulings())
            .err(),
        Some(OperationJournalStoreError::MissingOperation)
    );
}

#[test]
fn behavior_contract_blocked_encoder_keeps_queries_responsive_and_candidate_hidden() {
    let mut store = new_store();
    let operation_id = operation("operation-temporal-journal-blocked-encoder");
    create(&mut store, planned_entry(&operation_id)).expect("create journal before blocked encoding");
    let draft = store
        .record_checkpoint(&operation_id, completed_step("encoded_off_lock"), &rulings())
        .expect("draft checkpoint");
    let bytes = canonical(&draft.entry);
    let candidate = store.prepare(draft, bytes).expect("prepare checkpoint");

    let visible = store.get(&operation_id).expect("last committed journal");
    assert!(visible.completed_steps.is_empty());
    assert_eq!(store.list().len(), 1);
    assert!(store.snapshot().entries[0].completed_steps.is_empty());

    let commit = store
        .accept_candidate(candidate, WriteTicket::Immediate(1))
        .expect("the write is waited for");
    store.settle_commit(commit, true).expect("commit off-lock encoding");
    assert_eq!(
        store.get(&operation_id).expect("committed checkpoint").completed_steps.len(),
        1
    );
}

#[test]
fn gated_terminal_serializes_later_progress_without_visibility_regression() {
    let mut store = new_store();
    let terminal_id = operation("operation-terminal-a");
    let progress_id = operation("operation-progress-b");
    create(&mut store, planned_entry(&terminal_id)).expect("create terminal operation");
    create(&mut store, planned_entry(&progress_id)).expect("create progress operation");

    let draft = store
        .record_success(
            &terminal_id,
            completed_step("terminal_done"),
            OperationOutcome::Succeeded,
            &rulings(),
        )
        .expect("draft terminal");
    let bytes = canonical(&draft.entry);
    let candidate = store.prepare(draft, bytes).expect("prepare terminal");
    let commit = store
        .accept_candidate(candidate, WriteTicket::Immediate(1))
        .expect("the write is waited for");
    assert_eq!(
        store.get(&terminal_id).expect("terminal hidden").status,
        OperationStatus::Planned
    );
    assert_eq!(
        store.get(&progress_id).expect("progress still planned").completed_steps.len(),
        0
    );

    store.settle_commit(commit, true).expect("terminal commit");
    let draft = store
        .record_progress(&progress_id, completed_step("progress_update"), &rulings())
        .expect("draft progress");
    let bytes = canonical(&draft.entry);
    let candidate = store.prepare(draft, bytes).expect("prepare progress");
    assert!(store.accept_candidate(candidate, WriteTicket::Debounced(2)).is_none());
    assert_eq!(
        store.get(&terminal_id).expect("terminal visible").status,
        OperationStatus::Succeeded
    );
    assert_eq!(
        store.get(&progress_id).expect("progress visible").completed_steps.len(),
        1
    );
}

#[test]
fn behavior_contract_failed_debounced_commit_retries_latest_snapshot() {
    let mut store = new_store();
    let operation_id = operation("operation-close-progress-retry");
    create(&mut store, planned_entry(&operation_id)).expect("create journal");
    for (revision, step) in [(1, "progress_first"), (2, "progress_latest")] {
        let draft = store
            .record_progress(&operation_id, completed_step(step), &rulings())
            .expect("draft progress");
        let bytes = canonical(&draft.entry);
        let candidate = store.prepare(draft, bytes).expect("prepare progress");
        assert!(store.accept_candidate(candidate, WriteTicket::Debounced(revision)).is_none());
    }
    assert!(!store.has_retry_candidate());

    let before = store.snapshot();
    retry(&mut store, 2, true).expect("close retries exact debounced snapshot");
    assert_eq!(store.snapshot(), before);
    let mut reloaded = new_store();
    load(&mut reloaded, store.snapshot()).expect("reload the written snapshot");
    let journal = reloaded.get(&operation_id).expect("progress reloads");
    assert_eq!(journal.status, OperationStatus::Running);
    assert_eq!(journal.completed_steps.len(), 2);
    assert_eq!(journal.completed_steps[1].step_id, "progress_latest");
}

#[test]
fn acknowledging_a_publication_twice_changes_nothing() {
    let now = time(NOW);
    let mut store = new_store();
    let pending = temporal_reconciliation_entry(
        "current-pending-publication",
        now,
        now + Duration::hours(1),
        true,
        true,
        None,
    );
    let expected = pending.reconciliation_terminal.clone().expect("pending terminal");
    create(&mut store, pending).expect("create a journal whose publication is pending");
    let first = store
        .acknowledge_reconciliation_version_bundle_publication(&expected, &rulings())
        .expect("first acknowledgement");
    let acknowledged = first.terminal.clone();
    publish(&mut store, first.draft.expect("the acknowledgement is new"))
        .expect("publish the acknowledgement");
    for terminal in [&expected, &acknowledged] {
        let again = store
            .acknowledge_reconciliation_version_bundle_publication(terminal, &rulings())
            .expect("repeated acknowledgement");
        assert!(again.draft.is_none());
        assert_eq!(again.terminal, acknowledged);
    }

    let mut other = expected.clone();
    other.outcome = ReconciliationTerminalOutcome::Succeeded;
    assert_eq!(
        store
            .acknowledge_reconciliation_version_bundle_publication(&other, &rulings())
            .err(),
        Some(OperationJournalStoreError::Validation(
            OperationJournalValidationError::ReconciliationTerminalMismatch
        ))
    );
}

#[test]
fn a_created_performance_operation_shows_in_its_first_phase() {
    let mut store = new_store();
    let intent = performance_intent("2222222222222222");
    let created = create_performance(&mut store, &intent).expect("create the operation");
    assert_eq!(created.phase, PerformanceOperationPhase::Accepted {});
    assert_eq!(created.intent, intent);
    assert_eq!(created.created_at, NOW);
    assert_eq!(created.updated_at, NOW);
    assert_eq!(created.restart, OperationRestartDisposition::AbandonedBeforeEffect);
    assert_eq!(created.sequence, 1);
    assert_eq!(created.state, "queued");
    assert!(!created.terminal);
    assert_eq!(store.snapshot().next_sequence, 2);
    let before = store.snapshot();
    assert_eq!(
        create_performance(&mut store, &intent).err(),
        Some(OperationJournalStoreError::Conflict)
    );
    assert_eq!(store.snapshot(), before);
    let entry = store.get(&created.operation_id).expect("the journal of the operation");
    assert_eq!(entry.journal_id.text, format!("journal-{}", created.operation_id.text()));
    assert_eq!(entry.targets.len(), 2);
    assert_eq!(entry.status, OperationStatus::Planned);
}

#[test]
fn an_ended_operation_takes_no_other_transition() {
    let mut store = new_store();
    let created = create_performance(&mut store, &performance_intent("3333333333333333"))
        .expect("create the operation");
    let id = created.operation_id;
    let end = |error: &str| PerformanceOperationTerminal::FailedBeforeEffect {
        error: error.to_string(),
    };
    let commit = PerformanceOperationTransition::CommitTerminal(end("bounded failure"));
    transition(
        &mut store,
        &id,
        PerformanceOperationTransition::RequestTerminal(end("bounded failure")),
    )
    .expect("write the intended end");
    transition(&mut store, &id, commit.clone()).expect("end the operation");
    let ended = store.snapshot();
    assert!(store
        .transition_performance(&id, &commit, "2099-01-01T00:00:00.000Z", &rulings())
        .expect("repeat the end")
        .is_none());
    for other in [
        PerformanceOperationTransition::CommitTerminal(end("different terminal")),
        PerformanceOperationTransition::RequestTerminal(end("different terminal")),
        PerformanceOperationTransition::EffectStarted,
    ] {
        assert_eq!(
            transition(&mut store, &id, other),
            Err(OperationJournalStoreError::AlreadyTerminal)
        );
    }
    assert_eq!(store.snapshot(), ended);
}

#[test]
fn a_restart_repeats_a_failed_write_before_it_settles() {
    let mut store = new_store();
    assert_eq!(store.restart_step(), RestartStep::Settle);
    let draft = store
        .create_performance(
            &performance_intent("4444444444444444"),
            &mint("restart-step"),
            NOW,
            &rulings(),
        )
        .expect("draft the operation");
    assert_eq!(store.restart_step_after_write(true), RestartStep::Report);
    assert_eq!(store.restart_step_after_write(false), RestartStep::Fail);
    assert!(write(&mut store, draft, 1, false).is_err());
    assert_eq!(store.restart_step(), RestartStep::RetryFirst);
    assert_eq!(store.restart_step_after_write(false), RestartStep::RetryThenReport);
    retry(&mut store, 1, true).expect("repeat the write");
    assert_eq!(store.restart_step(), RestartStep::Settle);
}

#[test]
fn the_file_is_flushed_and_closed_after_a_failed_write_is_repeated() {
    let mut store = new_store();
    assert_eq!(store.flush_actions(false), vec![]);
    assert_eq!(store.close_actions(false), vec![]);
    assert_eq!(store.flush_actions(true), vec![JournalFileAction::Flush]);
    assert_eq!(
        store.close_actions(true),
        vec![JournalFileAction::Settle, JournalFileAction::Close]
    );
    let draft = store
        .create(planned_entry(&operation("file-actions")), &rulings())
        .expect("draft the journal")
        .expect("the journal is new");
    assert!(write(&mut store, draft, 1, false).is_err());
    assert_eq!(store.flush_actions(false), vec![JournalFileAction::Retry]);
    assert_eq!(
        store.flush_actions(true),
        vec![JournalFileAction::Retry, JournalFileAction::Flush]
    );
    assert_eq!(
        store.close_actions(true),
        vec![JournalFileAction::Retry, JournalFileAction::Settle, JournalFileAction::Close]
    );
}

#[test]
fn verdicts_are_needed_on_what_a_fact_names() {
    assert_eq!(texts_to_judge(" done "), vec![" done ", "done"]);
    assert_eq!(
        texts_to_judge("loader_build_id:fabric:1.21.5"),
        vec![
            "loader_build_id:fabric:1.21.5",
            "loader_build_id:fabric:1.21.5",
            "fabric:1.21.5"
        ]
    );
    assert_eq!(texts_to_judge("install_version_id:1.21.5").last().unwrap(), "1.21.5");
    assert_eq!(texts_to_judge("x loader_build_id:1").len(), 2);
}

#[test]
fn the_assembled_journals_are_what_serde_writes() {
    let mut entries: Vec<OperationJournalEntry> =
        ["serde-first", "serde-second"].map(test_entry).to_vec();
    entries.sort_by_key(|entry| entry.operation_id.value);
    for (index, entry) in entries.iter_mut().enumerate() {
        entry.sequence = index as u64 + 1;
    }
    let values: Vec<Value> =
        entries.iter().map(|entry| Value::from(vec![entry.journal_id.text.clone()])).collect();
    let mut written = Vec::new();
    let mut serializer = serde_json::Serializer::new(&mut written);
    let mut fields = serializer.serialize_struct("OperationJournalSnapshot", 3).expect("begin");
    fields.serialize_field("schema", OPERATION_JOURNAL_SCHEMA).expect("write the schema");
    fields.serialize_field("next_sequence", &1234567_u64).expect("write the sequence");
    fields.serialize_field("entries", &values).expect("write the journals");
    fields.end().expect("end");

    let texts =
        values.iter().map(|value| serde_json::to_vec(value).expect("write a journal")).collect();
    let mut store = new_store();
    store
        .load_snapshot(
            snapshot_of(entries, 1234567).expect("valid snapshot"),
            texts,
            &rulings(),
        )
        .expect("load the journals");
    assert_eq!(store.visible().assemble(), written);
    assert_eq!(store.visible().encoded_len(), written.len());
}

#[test]
fn a_restart_before_an_operation_began_is_refused() {
    let mut store = new_store();
    create_performance(&mut store, &performance_intent("5555555555555555"))
        .expect_err("an instance that nobody knows");
    create_performance(&mut store, &performance_intent("1111111111111111"))
        .expect("create the operation");
    let before = store.snapshot();
    assert_eq!(
        store.settle_performance_restarts("2000-01-01T00:00:00.000Z", &rulings()).err(),
        Some(invalid_lifecycle())
    );
    assert_eq!(store.snapshot(), before);
    let mut silent = rulings();
    silent.sanitized_evidence.clear();
    assert!(store.settle_performance_restarts(NOW, &silent).is_err());
    assert_eq!(store.settle_performance_restarts(NOW, &rulings()).map(|rows| rows.len()), Ok(1));
}
