//! Under which identity a failure is remembered, and how what is remembered of it comes about.

use crate::contracts::{
    DiagnosisId, GuardianActionKind, GuardianDomain, GuardianMode, OwnershipClass,
    PersistedStateRecordStore, PersistedStateRepairTerminalOutcome, ReconciliationComponent,
    ReconciliationRung, ReconciliationTerminalOutcome, StabilizationSystem, TargetKind,
};
use crate::evidence::{
    PersistedStateRepairAttempt, PersistedStateRepairAttemptView, PersistedStateRepairTerminal,
    PersistedStateRepairTerminalView, ReconciliationQuarantineCheckpoint,
    ReconciliationQuarantineCheckpointView, ReconciliationScope, ReconciliationScopeView,
    ReconciliationTerminal, ReconciliationTerminalView, TargetDescriptor, TargetDescriptorView,
};
use crate::failure_entry::{
    FailureMemoryActionOutcome, FailureMemoryKey, GuardianFailureMemoryEntry,
    GuardianFailureMemoryEntryView,
};
use crate::record::{opt_same, opt_view, Record};
use crate::rulings::{ruled_id, LauncherRulings, LauncherRulingsView};
use crate::text::{is_empty, same_text, trim, trimmed};
use vstd::prelude::*;

verus! {

impl DiagnosisId {
    /// The diagnosis as it is written.
    pub open spec fn text(self) -> Seq<char> {
        match self {
            DiagnosisId::JavaOverrideUnavailable => "java_override_unavailable"@,
            DiagnosisId::ManagedRuntimeCorrupt => "managed_runtime_corrupt"@,
            DiagnosisId::DownloadUnavailable => "download_unavailable"@,
            DiagnosisId::OutOfMemory => "out_of_memory"@,
            DiagnosisId::PerformanceRulesInvalid => "performance_rules_invalid"@,
            DiagnosisId::PerformanceFallbackSelected => "performance_fallback_selected"@,
            DiagnosisId::LaunchPrepareFailed => "launch_prepare_failed"@,
            DiagnosisId::StartupFailedUnknown => "startup_failed_unknown"@,
            DiagnosisId::LauncherManagedArtifactCorrupt => "launcher_managed_artifact_corrupt"@,
            DiagnosisId::PersistedStateSchemaInvalid => "persisted_state_schema_invalid"@,
        }
    }

    /// The diagnosis as it is written.
    pub fn as_str(&self) -> (r: &'static str)
        ensures
            r@ == self.text(),
    {
        match self {
            DiagnosisId::JavaOverrideUnavailable => "java_override_unavailable",
            DiagnosisId::ManagedRuntimeCorrupt => "managed_runtime_corrupt",
            DiagnosisId::DownloadUnavailable => "download_unavailable",
            DiagnosisId::OutOfMemory => "out_of_memory",
            DiagnosisId::PerformanceRulesInvalid => "performance_rules_invalid",
            DiagnosisId::PerformanceFallbackSelected => "performance_fallback_selected",
            DiagnosisId::LaunchPrepareFailed => "launch_prepare_failed",
            DiagnosisId::StartupFailedUnknown => "startup_failed_unknown",
            DiagnosisId::LauncherManagedArtifactCorrupt => "launcher_managed_artifact_corrupt",
            DiagnosisId::PersistedStateSchemaInvalid => "persisted_state_schema_invalid",
        }
    }
}

impl GuardianDomain {
    /// The domain as it is written in the identity of a failure.
    pub open spec fn memory_text(self) -> Seq<char> {
        match self {
            GuardianDomain::Launch => "Launch"@,
            GuardianDomain::Runtime => "Runtime"@,
            GuardianDomain::Download => "Download"@,
            GuardianDomain::Library => "Library"@,
            GuardianDomain::Performance => "Performance"@,
            GuardianDomain::State => "State"@,
        }
    }

    /// The domain as it is written in the identity of a failure.
    pub fn failure_memory_id(&self) -> (r: &'static str)
        ensures
            r@ == self.memory_text(),
    {
        match self {
            GuardianDomain::Launch => "Launch",
            GuardianDomain::Runtime => "Runtime",
            GuardianDomain::Download => "Download",
            GuardianDomain::Library => "Library",
            GuardianDomain::Performance => "Performance",
            GuardianDomain::State => "State",
        }
    }
}

impl StabilizationSystem {
    /// The system as it is written in the identity of a failure.
    pub open spec fn memory_text(self) -> Seq<char> {
        match self {
            StabilizationSystem::Application => "Application"@,
            StabilizationSystem::Execution => "Execution"@,
            StabilizationSystem::Guardian => "Guardian"@,
            StabilizationSystem::State => "State"@,
            StabilizationSystem::Performance => "Performance"@,
        }
    }

    /// The system as it is written in the identity of a failure.
    pub fn failure_memory_id(&self) -> (r: &'static str)
        ensures
            r@ == self.memory_text(),
    {
        match self {
            StabilizationSystem::Application => "Application",
            StabilizationSystem::Execution => "Execution",
            StabilizationSystem::Guardian => "Guardian",
            StabilizationSystem::State => "State",
            StabilizationSystem::Performance => "Performance",
        }
    }
}

impl TargetKind {
    /// The kind of target as it is written in the identity of a failure.
    pub open spec fn memory_text(self) -> Seq<char> {
        match self {
            TargetKind::Instance => "Instance"@,
            TargetKind::Artifact => "Artifact"@,
            TargetKind::Version => "Version"@,
            TargetKind::FilesystemPath => "FilesystemPath"@,
            TargetKind::JvmArguments => "JvmArguments"@,
            TargetKind::PerformanceComposition => "PerformanceComposition"@,
            TargetKind::PerformanceRules => "PerformanceRules"@,
        }
    }

    /// The kind of target as it is written in the identity of a failure.
    pub fn failure_memory_id(&self) -> (r: &'static str)
        ensures
            r@ == self.memory_text(),
    {
        match self {
            TargetKind::Instance => "Instance",
            TargetKind::Artifact => "Artifact",
            TargetKind::Version => "Version",
            TargetKind::FilesystemPath => "FilesystemPath",
            TargetKind::JvmArguments => "JvmArguments",
            TargetKind::PerformanceComposition => "PerformanceComposition",
            TargetKind::PerformanceRules => "PerformanceRules",
        }
    }
}

impl GuardianMode {
    /// The mode as it is written in the identity of a failure.
    pub open spec fn memory_text(self) -> Seq<char> {
        match self {
            GuardianMode::Managed => "Managed"@,
            GuardianMode::Custom => "Custom"@,
        }
    }

    /// The mode as it is written in the identity of a failure.
    pub fn failure_memory_id(&self) -> (r: &'static str)
        ensures
            r@ == self.memory_text(),
    {
        match self {
            GuardianMode::Managed => "Managed",
            GuardianMode::Custom => "Custom",
        }
    }
}

impl ReconciliationRung {
    /// The rung as it is written in the identity of a failure.
    pub open spec fn memory_text(self) -> Seq<char> {
        match self {
            ReconciliationRung::RepairArtifact => "RepairArtifact"@,
            ReconciliationRung::RebuildComponent => "RebuildComponent"@,
        }
    }

    /// The rung as it is written in the identity of a failure.
    pub fn failure_memory_id(&self) -> (r: &'static str)
        ensures
            r@ == self.memory_text(),
    {
        match self {
            ReconciliationRung::RepairArtifact => "RepairArtifact",
            ReconciliationRung::RebuildComponent => "RebuildComponent",
        }
    }
}

impl ReconciliationComponent {
    /// The component as it is written in the identity of a failure.
    pub open spec fn memory_text(self) -> Seq<char> {
        match self {
            ReconciliationComponent::Libraries => "Libraries"@,
            ReconciliationComponent::Runtime => "Runtime"@,
            ReconciliationComponent::VersionBundle => "VersionBundle"@,
        }
    }

    /// The component as it is written in the identity of a failure.
    pub fn failure_memory_id(&self) -> (r: &'static str)
        ensures
            r@ == self.memory_text(),
    {
        match self {
            ReconciliationComponent::Libraries => "Libraries",
            ReconciliationComponent::Runtime => "Runtime",
            ReconciliationComponent::VersionBundle => "VersionBundle",
        }
    }
}

impl PersistedStateRecordStore {
    /// The store as it is written in the identity of a failure.
    pub open spec fn memory_text(self) -> Seq<char> {
        match self {
            PersistedStateRecordStore::BenchmarkSuiteDriver => "BenchmarkSuiteDriver"@,
        }
    }

    /// The store as it is written in the identity of a failure.
    pub fn failure_memory_id(&self) -> (r: &'static str)
        ensures
            r@ == self.memory_text(),
    {
        match self {
            PersistedStateRecordStore::BenchmarkSuiteDriver => "BenchmarkSuiteDriver",
        }
    }
}

/// An identifier made safe to show, as the launcher rules.
pub open spec fn safe_id(
    text: Seq<char>,
    fallback: Seq<char>,
    rulings: LauncherRulingsView,
) -> Seq<char> {
    ruled_id(rulings.sanitized_ids, text, fallback)
}

/// What is kept of a user's intent.
pub open spec fn kept_intent(intent: Option<Seq<char>>, rulings: LauncherRulingsView) -> Option<
    Seq<char>,
> {
    match intent {
        Some(text) => if safe_id(text, "intent"@, rulings).len() == 0 {
            None
        } else {
            Some(safe_id(text, "intent"@, rulings))
        },
        None => None,
    }
}

/// The identity of an observed failure.
pub open spec fn observation_key(
    domain: GuardianDomain,
    diagnosis_id: DiagnosisId,
    target: TargetDescriptorView,
    mode: GuardianMode,
    user_intent_hash: Option<Seq<char>>,
    rulings: LauncherRulingsView,
) -> Seq<char> {
    let intent = match kept_intent(user_intent_hash, rulings) {
        Some(text) => text,
        None => "no_intent"@,
    };
    domain.memory_text() + ":"@ + diagnosis_id.text() + ":"@ + target.system.memory_text() + "."@
        + target.kind.memory_text() + "."@ + safe_id(target.id, "target"@, rulings) + ":"@
        + mode.memory_text() + ":"@ + intent
}

/// The identity of a failure on which a reconciliation has been tried.
pub open spec fn reconciliation_key(
    domain: GuardianDomain,
    diagnosis_id: DiagnosisId,
    target: TargetDescriptorView,
    mode: GuardianMode,
    rung: ReconciliationRung,
    component: ReconciliationComponent,
    scope: ReconciliationScopeView,
    rulings: LauncherRulingsView,
) -> Seq<char> {
    observation_key(domain, diagnosis_id, target, mode, None, rulings) + ":rung."@
        + rung.memory_text() + ":component."@ + component.memory_text() + ":scope."@
        + "registered."@ + scope.instance_id + "."@ + scope.fingerprint + "."@
        + scope.inventory_fingerprint + "."@ + scope.activation_contract_id
}

/// The identity of a failure that the end of a reconciliation speaks of.
pub open spec fn terminal_key(
    domain: GuardianDomain,
    diagnosis_id: DiagnosisId,
    target: TargetDescriptorView,
    terminal: ReconciliationTerminalView,
    rulings: LauncherRulingsView,
) -> Seq<char> {
    reconciliation_key(
        domain,
        diagnosis_id,
        target,
        terminal.attempt.mode,
        terminal.attempt.rung,
        terminal.attempt.component,
        terminal.attempt.scope,
        rulings,
    )
}

/// The identity of a persisted record that could not be read.
pub open spec fn repair_key(attempt: PersistedStateRepairAttemptView) -> Seq<char> {
    "State:"@ + DiagnosisId::PersistedStateSchemaInvalid.text() + ":Managed:"@
        + attempt.store.memory_text() + ":"@ + attempt.record_id + ":"@ + attempt.physical_identity
}

fn keep_intent(intent: Option<&str>, rulings: &LauncherRulings) -> (r: Option<String>)
    ensures
        opt_view(r) == kept_intent(
            match intent {
                Some(text) => Some(text@),
                None => None,
            },
            rulings@,
        ),
{
    match intent {
        Some(text) => {
            let safe = rulings.sanitize_target_id(text, "intent");
            if is_empty(safe.as_str()) {
                None
            } else {
                Some(safe)
            }
        },
        None => None,
    }
}

impl FailureMemoryKey {
    /// The identity of an observed failure.
    pub fn for_observation(
        domain: GuardianDomain,
        diagnosis_id: &DiagnosisId,
        target: &TargetDescriptor,
        mode: GuardianMode,
        user_intent_hash: Option<&str>,
        rulings: &LauncherRulings,
    ) -> (r: FailureMemoryKey)
        ensures
            r@ == observation_key(
                domain,
                *diagnosis_id,
                target@,
                mode,
                match user_intent_hash {
                    Some(text) => Some(text@),
                    None => None,
                },
                rulings@,
            ),
    {
        let target_id = rulings.sanitize_target_id(target.id.as_str(), "target");
        let mut text = domain.failure_memory_id().to_owned();
        text.append(":");
        text.append(diagnosis_id.as_str());
        text.append(":");
        text.append(target.system.failure_memory_id());
        text.append(".");
        text.append(target.kind.failure_memory_id());
        text.append(".");
        text.append(target_id.as_str());
        text.append(":");
        text.append(mode.failure_memory_id());
        text.append(":");
        match keep_intent(user_intent_hash, rulings) {
            Some(intent) => {
                text.append(intent.as_str());
            },
            None => {
                text.append("no_intent");
            },
        }
        FailureMemoryKey(text)
    }

    /// The identity as a text.
    pub fn as_str(&self) -> (r: &str)
        ensures
            r@ == self@,
    {
        self.0.as_str()
    }

    /// The identity of a failure that the end of a reconciliation speaks of.
    pub fn for_reconciliation(
        domain: GuardianDomain,
        diagnosis_id: &DiagnosisId,
        target: &TargetDescriptor,
        terminal: &ReconciliationTerminal,
        rulings: &LauncherRulings,
    ) -> (r: FailureMemoryKey)
        ensures
            r@ == terminal_key(domain, *diagnosis_id, target@, terminal@, rulings@),
    {
        FailureMemoryKey::for_reconciliation_parts(
            domain,
            diagnosis_id,
            target,
            terminal.attempt.mode,
            terminal.attempt.rung,
            terminal.attempt.component,
            &terminal.attempt.scope,
            rulings,
        )
    }

    /// The identity of a failure on which a reconciliation has been tried.
    pub fn for_reconciliation_parts(
        domain: GuardianDomain,
        diagnosis_id: &DiagnosisId,
        target: &TargetDescriptor,
        mode: GuardianMode,
        rung: ReconciliationRung,
        component: ReconciliationComponent,
        reconciliation_scope: &ReconciliationScope,
        rulings: &LauncherRulings,
    ) -> (r: FailureMemoryKey)
        ensures
            r@ == reconciliation_key(
                domain,
                *diagnosis_id,
                target@,
                mode,
                rung,
                component,
                reconciliation_scope@,
                rulings@,
            ),
    {
        let base = FailureMemoryKey::for_observation(
            domain,
            diagnosis_id,
            target,
            mode,
            None,
            rulings,
        );
        let mut text = base.0;
        text.append(":rung.");
        text.append(rung.failure_memory_id());
        text.append(":component.");
        text.append(component.failure_memory_id());
        text.append(":scope.");
        text.append("registered.");
        text.append(reconciliation_scope.instance_id.as_str());
        text.append(".");
        text.append(reconciliation_scope.fingerprint.as_str());
        text.append(".");
        text.append(reconciliation_scope.inventory_fingerprint.as_str());
        text.append(".");
        text.append(reconciliation_scope.activation_contract_id.as_str());
        FailureMemoryKey(text)
    }

    /// The identity of a persisted record that could not be read.
    pub fn for_persisted_state_repair(attempt: &PersistedStateRepairAttempt) -> (r: FailureMemoryKey)
        ensures
            r@ == repair_key(attempt@),
    {
        let mut text = "State:".to_owned();
        text.append(DiagnosisId::PersistedStateSchemaInvalid.as_str());
        text.append(":Managed:");
        text.append(attempt.store.failure_memory_id());
        text.append(":");
        text.append(attempt.record_id.as_str());
        text.append(":");
        text.append(attempt.physical_identity.as_str());
        FailureMemoryKey(text)
    }
}

/// A failure that was observed once.
pub open spec fn observed_entry(
    diagnosis_id: DiagnosisId,
    domain: GuardianDomain,
    target: TargetDescriptorView,
    mode: GuardianMode,
    user_intent_hash: Option<Seq<char>>,
    observed_at: Seq<char>,
    rulings: LauncherRulingsView,
) -> GuardianFailureMemoryEntryView {
    let intent = kept_intent(user_intent_hash, rulings);
    GuardianFailureMemoryEntryView {
        key: observation_key(domain, diagnosis_id, target, mode, intent, rulings),
        diagnosis_id,
        domain,
        mode,
        target,
        ownership: target.ownership,
        first_observed_at: observed_at,
        last_observed_at: observed_at,
        occurrence_count: 1,
        last_action_kind: None,
        last_action_outcome: None,
        repair_attempt_count: 0,
        quarantine_checkpoint: no_quarantine(),
        suppression_until: None,
        target_content_hash: None,
        user_intent_hash: intent,
        reconciliation_terminal: None,
        persisted_state_repair_terminal: None,
    }
}

/// A checkpoint at which nothing is in quarantine.
pub open spec fn no_quarantine() -> ReconciliationQuarantineCheckpointView {
    ReconciliationQuarantineCheckpointView { records: Seq::empty(), bounded: true }
}

fn new_quarantine() -> (r: ReconciliationQuarantineCheckpoint)
    ensures
        r@ == no_quarantine(),
{
    let r = ReconciliationQuarantineCheckpoint { records: Vec::new(), bounded: true };
    assert(r@.records =~= Seq::empty());
    r
}

/// What is kept of a fragment: nothing where all of it had to be replaced.
pub open spec fn kept_fragment(
    text: Seq<char>,
    fallback: Seq<char>,
    rulings: LauncherRulingsView,
) -> Option<Seq<char>> {
    let safe = safe_id(text, fallback, rulings);
    if safe.len() == 0 || safe == fallback {
        None
    } else {
        Some(safe)
    }
}

/// A text without white space at its ends, if anything is left of it.
pub open spec fn kept_text(text: Seq<char>) -> Option<Seq<char>> {
    if trimmed(text).len() == 0 {
        None
    } else {
        Some(trimmed(text))
    }
}

/// What is kept of a fragment: nothing where all of it had to be replaced.
pub fn safe_optional_fragment(value: &str, fallback: &str, rulings: &LauncherRulings) -> (r: Option<
    String,
>)
    ensures
        opt_view(r) == kept_fragment(value@, fallback@, rulings@),
{
    let safe = rulings.sanitize_target_id(value, fallback);
    if is_empty(safe.as_str()) || same_text(safe.as_str(), fallback) {
        None
    } else {
        Some(safe)
    }
}

/// A text without white space at its ends, if anything is left of it.
pub fn non_empty_string(value: &str) -> (r: Option<String>)
    ensures
        opt_view(r) == kept_text(value@),
{
    let text = trim(value);
    if is_empty(text) {
        None
    } else {
        Some(text.to_owned())
    }
}

/// A saturating sum of counters.
pub open spec fn counted(a: u32, b: u32) -> u32 {
    if a + b <= u32::MAX {
        (a + b) as u32
    } else {
        u32::MAX
    }
}

/// How the memory calls the end of a repair of a persisted record.
pub open spec fn repair_action_outcome(
    outcome: PersistedStateRepairTerminalOutcome,
) -> FailureMemoryActionOutcome {
    if outcome == PersistedStateRepairTerminalOutcome::Quarantined {
        FailureMemoryActionOutcome::Repaired
    } else {
        FailureMemoryActionOutcome::Failed
    }
}

/// How the memory calls the end of a reconciliation.
pub open spec fn reconciliation_action_outcome(
    outcome: ReconciliationTerminalOutcome,
) -> FailureMemoryActionOutcome {
    match outcome {
        ReconciliationTerminalOutcome::Succeeded => FailureMemoryActionOutcome::Repaired,
        ReconciliationTerminalOutcome::Failed => FailureMemoryActionOutcome::Failed,
    }
}

/// What is remembered of a repair of a persisted record.
pub open spec fn repair_entry(
    terminal: PersistedStateRepairTerminalView,
) -> GuardianFailureMemoryEntryView {
    GuardianFailureMemoryEntryView {
        key: repair_key(terminal.attempt),
        diagnosis_id: DiagnosisId::PersistedStateSchemaInvalid,
        domain: GuardianDomain::State,
        mode: GuardianMode::Managed,
        target: terminal.attempt.target,
        ownership: OwnershipClass::LauncherManaged,
        first_observed_at: terminal.attempt.observed_at,
        last_observed_at: terminal.attempt.observed_at,
        occurrence_count: 1,
        last_action_kind: Some(GuardianActionKind::Quarantine),
        last_action_outcome: Some(repair_action_outcome(terminal.outcome)),
        repair_attempt_count: 1,
        quarantine_checkpoint: no_quarantine(),
        suppression_until: Some(terminal.attempt.suppression_until),
        target_content_hash: None,
        user_intent_hash: None,
        reconciliation_terminal: None,
        persisted_state_repair_terminal: Some(terminal),
    }
}

/// What is remembered of a failure once a reconciliation of it has ended.
pub open spec fn reconciled_entry(
    entry: GuardianFailureMemoryEntryView,
    terminal: ReconciliationTerminalView,
    rulings: LauncherRulingsView,
) -> GuardianFailureMemoryEntryView {
    let target = TargetDescriptorView { ownership: terminal.attempt.ownership, ..entry.target };
    GuardianFailureMemoryEntryView {
        mode: terminal.attempt.mode,
        ownership: terminal.attempt.ownership,
        target,
        user_intent_hash: None,
        key: terminal_key(entry.domain, entry.diagnosis_id, target, terminal, rulings),
        reconciliation_terminal: Some(terminal),
        ..entry
    }
}

/// Whether a failure waits for the acknowledgement of what its reconciliation published.
pub open spec fn publication_is_pending(entry: GuardianFailureMemoryEntryView) -> bool {
    entry.reconciliation_terminal matches Some(terminal) && (
    terminal.version_bundle_publication matches Some(publication) && publication.pending)
}

/// A memory whose last action was this one.
pub open spec fn with_last_action(
    entry: GuardianFailureMemoryEntryView,
    kind: GuardianActionKind,
    outcome: FailureMemoryActionOutcome,
) -> GuardianFailureMemoryEntryView {
    GuardianFailureMemoryEntryView {
        last_action_kind: Some(kind),
        last_action_outcome: Some(outcome),
        ..entry
    }
}

/// A memory of one more attempt to repair.
pub open spec fn with_one_more_attempt(
    entry: GuardianFailureMemoryEntryView,
) -> GuardianFailureMemoryEntryView {
    GuardianFailureMemoryEntryView {
        repair_attempt_count: counted(entry.repair_attempt_count, 1),
        ..entry
    }
}

/// A memory with this checkpoint of what is in quarantine.
pub open spec fn with_checkpoint(
    entry: GuardianFailureMemoryEntryView,
    checkpoint: ReconciliationQuarantineCheckpointView,
) -> GuardianFailureMemoryEntryView {
    GuardianFailureMemoryEntryView { quarantine_checkpoint: checkpoint, ..entry }
}

/// A memory that suppresses until this time.
pub open spec fn with_suppression(
    entry: GuardianFailureMemoryEntryView,
    until: Seq<char>,
) -> GuardianFailureMemoryEntryView {
    GuardianFailureMemoryEntryView { suppression_until: kept_text(until), ..entry }
}

/// A memory of the content that its target had.
pub open spec fn with_content_hash(
    entry: GuardianFailureMemoryEntryView,
    hash: Seq<char>,
    rulings: LauncherRulingsView,
) -> GuardianFailureMemoryEntryView {
    GuardianFailureMemoryEntryView {
        target_content_hash: kept_fragment(hash, "target_hash"@, rulings),
        ..entry
    }
}

/// Whether the content of a target is not the one that is remembered.
pub open spec fn content_has_changed(
    entry: GuardianFailureMemoryEntryView,
    hash: Seq<char>,
    rulings: LauncherRulingsView,
) -> bool {
    kept_fragment(hash, "target_hash"@, rulings) != entry.target_content_hash
}

impl GuardianFailureMemoryEntry {
    /// A failure that was observed once.
    pub fn observed(
        diagnosis_id: DiagnosisId,
        domain: GuardianDomain,
        target: TargetDescriptor,
        mode: GuardianMode,
        user_intent_hash: Option<&str>,
        observed_at: String,
        rulings: &LauncherRulings,
    ) -> (r: GuardianFailureMemoryEntry)
        ensures
            r@ == observed_entry(
                diagnosis_id,
                domain,
                target@,
                mode,
                match user_intent_hash {
                    Some(text) => Some(text@),
                    None => None,
                },
                observed_at@,
                rulings@,
            ),
    {
        let intent = keep_intent(user_intent_hash, rulings);
        let key = match &intent {
            Some(text) => FailureMemoryKey::for_observation(
                domain,
                &diagnosis_id,
                &target,
                mode,
                Some(text.as_str()),
                rulings,
            ),
            None => FailureMemoryKey::for_observation(
                domain,
                &diagnosis_id,
                &target,
                mode,
                None,
                rulings,
            ),
        };
        GuardianFailureMemoryEntry {
            key,
            diagnosis_id,
            domain,
            mode,
            ownership: target.ownership,
            target,
            first_observed_at: observed_at.duplicate(),
            last_observed_at: observed_at,
            occurrence_count: 1,
            last_action_kind: None,
            last_action_outcome: None,
            repair_attempt_count: 0,
            quarantine_checkpoint: new_quarantine(),
            suppression_until: None,
            target_content_hash: None,
            user_intent_hash: intent,
            reconciliation_terminal: None,
            persisted_state_repair_terminal: None,
        }
    }

    /// The failure with the last action on it.
    pub fn with_action(
        self,
        action_kind: GuardianActionKind,
        outcome: FailureMemoryActionOutcome,
    ) -> (r: GuardianFailureMemoryEntry)
        ensures
            r@ == with_last_action(self@, action_kind, outcome),
    {
        let mut entry = self;
        entry.last_action_kind = Some(action_kind);
        entry.last_action_outcome = Some(outcome);
        entry
    }

    /// The failure with one more attempt to repair it.
    pub fn with_repair_attempt(self) -> (r: GuardianFailureMemoryEntry)
        ensures
            r@ == with_one_more_attempt(self@),
    {
        let mut entry = self;
        entry.repair_attempt_count = entry.repair_attempt_count.saturating_add(1);
        entry
    }

    /// The failure with what has been put into quarantine.
    pub fn with_quarantine_checkpoint(self, checkpoint: ReconciliationQuarantineCheckpoint) -> (r:
        GuardianFailureMemoryEntry)
        ensures
            r@ == with_checkpoint(self@, checkpoint@),
    {
        let mut entry = self;
        entry.quarantine_checkpoint = checkpoint;
        entry
    }

    /// The failure with the time until which it suppresses what it is about.
    pub fn with_suppression_until(self, suppression_until: &str) -> (r: GuardianFailureMemoryEntry)
        ensures
            r@ == with_suppression(self@, suppression_until@),
    {
        let mut entry = self;
        entry.suppression_until = non_empty_string(suppression_until);
        entry
    }

    /// The failure with the digest of what its target held.
    pub fn with_target_content_hash(
        self,
        target_content_hash: &str,
        rulings: &LauncherRulings,
    ) -> (r: GuardianFailureMemoryEntry)
        ensures
            r@ == with_content_hash(self@, target_content_hash@, rulings@),
    {
        let mut entry = self;
        entry.target_content_hash = safe_optional_fragment(
            target_content_hash,
            "target_hash",
            rulings,
        );
        entry
    }

    /// Whether the target holds something else than when the failure was observed.
    pub fn target_content_changed(&self, current_hash: &str, rulings: &LauncherRulings) -> (r: bool)
        ensures
            r == content_has_changed(self@, current_hash@, rulings@),
    {
        let current = safe_optional_fragment(current_hash, "target_hash", rulings);
        !opt_same(&current, &self.target_content_hash)
    }

    /// The end of the reconciliation of the failure.
    pub fn reconciliation_terminal(&self) -> (r: Option<&ReconciliationTerminal>)
        ensures
            (match r {
                Some(terminal) => Some(terminal@),
                None => None,
            }) == self@.reconciliation_terminal,
    {
        match &self.reconciliation_terminal {
            Some(terminal) => Some(terminal),
            None => None,
        }
    }

    /// The end of the repair of the persisted record.
    pub fn persisted_state_repair_terminal(&self) -> (r: Option<&PersistedStateRepairTerminal>)
        ensures
            (match r {
                Some(terminal) => Some(terminal@),
                None => None,
            }) == self@.persisted_state_repair_terminal,
    {
        match &self.persisted_state_repair_terminal {
            Some(terminal) => Some(terminal),
            None => None,
        }
    }

    /// Whether the failure waits for the acknowledgement of what its reconciliation published.
    pub fn has_pending_publication(&self) -> (r: bool)
        ensures
            r == publication_is_pending(self@),
    {
        match &self.reconciliation_terminal {
            Some(terminal) => match &terminal.version_bundle_publication {
                Some(publication) => publication.pending,
                None => false,
            },
            None => false,
        }
    }

    /// The failure once a reconciliation of it has ended.
    pub fn with_reconciliation_terminal(
        self,
        terminal: ReconciliationTerminal,
        rulings: &LauncherRulings,
    ) -> (r: GuardianFailureMemoryEntry)
        ensures
            r@ == reconciled_entry(self@, terminal@, rulings@),
    {
        let mut entry = self;
        entry.mode = terminal.attempt.mode;
        entry.ownership = terminal.attempt.ownership;
        entry.target.ownership = terminal.attempt.ownership;
        entry.user_intent_hash = None;
        entry.key = FailureMemoryKey::for_reconciliation(
            entry.domain,
            &entry.diagnosis_id,
            &entry.target,
            &terminal,
            rulings,
        );
        entry.reconciliation_terminal = Some(terminal);
        entry
    }

    /// What is remembered of a repair of a persisted record.
    pub fn for_persisted_state_repair_terminal(terminal: PersistedStateRepairTerminal) -> (r:
        GuardianFailureMemoryEntry)
        ensures
            r@ == repair_entry(terminal@),
    {
        let outcome = match terminal.outcome {
            PersistedStateRepairTerminalOutcome::Quarantined => {
                FailureMemoryActionOutcome::Repaired
            },
            _ => FailureMemoryActionOutcome::Failed,
        };
        GuardianFailureMemoryEntry {
            key: FailureMemoryKey::for_persisted_state_repair(&terminal.attempt),
            diagnosis_id: DiagnosisId::PersistedStateSchemaInvalid,
            domain: GuardianDomain::State,
            mode: GuardianMode::Managed,
            target: terminal.attempt.target.duplicate(),
            ownership: OwnershipClass::LauncherManaged,
            first_observed_at: terminal.attempt.observed_at.duplicate(),
            last_observed_at: terminal.attempt.observed_at.duplicate(),
            occurrence_count: 1,
            last_action_kind: Some(GuardianActionKind::Quarantine),
            last_action_outcome: Some(outcome),
            repair_attempt_count: 1,
            quarantine_checkpoint: new_quarantine(),
            suppression_until: Some(terminal.attempt.suppression_until.duplicate()),
            target_content_hash: None,
            user_intent_hash: None,
            reconciliation_terminal: None,
            persisted_state_repair_terminal: Some(terminal),
        }
    }
}

} // verus!
