//! The vocabulary that operations, diagnoses and targets are described in.

use crate::record::Record;
use vstd::prelude::*;

verus! {

/// The identity of an operation: a random 128-bit identifier.
#[derive(Clone, Copy, Debug, PartialEq, Eq, Structural, PartialOrd, Ord, Hash)]
pub struct OperationId {
    pub value: u128,
}

impl View for OperationId {
    type V = OperationId;

    open spec fn view(&self) -> OperationId {
        *self
    }
}

impl Record for OperationId {
    fn same(&self, other: &Self) -> (r: bool) {
        *self == *other
    }

    fn duplicate(&self) -> (r: Self) {
        *self
    }
}

/// The command that an operation carries out.
#[derive(Clone, Copy, Debug, PartialEq, Eq, Structural, Hash)]
pub enum CommandKind {
    InstallVersion,
    ModifyInstanceContent,
    ValidateInstance,
    RepairInstance,
    RepairPersistedState,
    ApplyPerformancePlan,
    RefreshPerformanceRules,
}

impl View for CommandKind {
    type V = CommandKind;

    open spec fn view(&self) -> CommandKind {
        *self
    }
}

impl Record for CommandKind {
    fn same(&self, other: &Self) -> (r: bool) {
        *self == *other
    }

    fn duplicate(&self) -> (r: Self) {
        *self
    }
}

/// The part of the launcher that owns an operation or a target.
#[derive(Clone, Copy, Debug, PartialEq, Eq, Structural, Hash)]
pub enum StabilizationSystem {
    Application,
    Execution,
    Guardian,
    State,
    Performance,
}

impl View for StabilizationSystem {
    type V = StabilizationSystem;

    open spec fn view(&self) -> StabilizationSystem {
        *self
    }
}

impl Record for StabilizationSystem {
    fn same(&self, other: &Self) -> (r: bool) {
        *self == *other
    }

    fn duplicate(&self) -> (r: Self) {
        *self
    }
}

/// What a target is.
#[derive(Clone, Copy, Debug, PartialEq, Eq, Structural, Hash)]
pub enum TargetKind {
    Instance,
    Artifact,
    Version,
    FilesystemPath,
    JvmArguments,
    PerformanceComposition,
    PerformanceRules,
}

impl View for TargetKind {
    type V = TargetKind;

    open spec fn view(&self) -> TargetKind {
        *self
    }
}

impl Record for TargetKind {
    fn same(&self, other: &Self) -> (r: bool) {
        *self == *other
    }

    fn duplicate(&self) -> (r: Self) {
        *self
    }
}

/// Who owns a target.
#[derive(Clone, Copy, Debug, PartialEq, Eq, Structural, Hash)]
pub enum OwnershipClass {
    LauncherManaged,
    CompositionManaged,
    UserOwned,
    ExternalProviderDerived,
}

impl View for OwnershipClass {
    type V = OwnershipClass;

    open spec fn view(&self) -> OwnershipClass {
        *self
    }
}

impl Record for OwnershipClass {
    fn same(&self, other: &Self) -> (r: bool) {
        *self == *other
    }

    fn duplicate(&self) -> (r: Self) {
        *self
    }
}

/// Whether an operation can be rolled back.
#[derive(Clone, Copy, Debug, PartialEq, Eq, Structural, Hash)]
pub enum RollbackState {
    NotApplicable,
    Available,
    Unavailable,
    Applied,
}

impl View for RollbackState {
    type V = RollbackState;

    open spec fn view(&self) -> RollbackState {
        *self
    }
}

impl Record for RollbackState {
    fn same(&self, other: &Self) -> (r: bool) {
        *self == *other
    }

    fn duplicate(&self) -> (r: Self) {
        *self
    }
}

/// Where an operation stands.
#[derive(Clone, Copy, Debug, PartialEq, Eq, Structural, Hash)]
pub enum OperationStatus {
    Planned,
    Running,
    Succeeded,
    Failed,
    Blocked,
    Cancelled,
}

impl View for OperationStatus {
    type V = OperationStatus;

    open spec fn view(&self) -> OperationStatus {
        *self
    }
}

impl Record for OperationStatus {
    fn same(&self, other: &Self) -> (r: bool) {
        *self == *other
    }

    fn duplicate(&self) -> (r: Self) {
        *self
    }
}

/// How an operation ended.
#[derive(Clone, Copy, Debug, PartialEq, Eq, Structural, Hash)]
pub enum OperationOutcome {
    Succeeded,
    Failed,
    Blocked,
    Cancelled,
}

impl View for OperationOutcome {
    type V = OperationOutcome;

    open spec fn view(&self) -> OperationOutcome {
        *self
    }
}

impl Record for OperationOutcome {
    fn same(&self, other: &Self) -> (r: bool) {
        *self == *other
    }

    fn duplicate(&self) -> (r: Self) {
        *self
    }
}

/// The phase that a step belongs to.
#[derive(Clone, Copy, Debug, PartialEq, Eq, Structural, Hash)]
pub enum OperationPhase {
    Planned,
    Running,
    Downloading,
    Validating,
    Repairing,
    Completed,
    Failed,
}

impl View for OperationPhase {
    type V = OperationPhase;

    open spec fn view(&self) -> OperationPhase {
        *self
    }
}

impl Record for OperationPhase {
    fn same(&self, other: &Self) -> (r: bool) {
        *self == *other
    }

    fn duplicate(&self) -> (r: Self) {
        *self
    }
}

/// How a step ended.
#[derive(Clone, Copy, Debug, PartialEq, Eq, Structural, Hash)]
pub enum OperationStepResult {
    Planned,
    Completed,
    Failed,
    Skipped,
}

impl View for OperationStepResult {
    type V = OperationStepResult;

    open spec fn view(&self) -> OperationStepResult {
        *self
    }
}

impl Record for OperationStepResult {
    fn same(&self, other: &Self) -> (r: bool) {
        *self == *other
    }

    fn duplicate(&self) -> (r: Self) {
        *self
    }
}

/// A diagnosis of the Guardian.
#[derive(Clone, Copy, Debug, PartialEq, Eq, Structural, Hash)]
pub enum DiagnosisId {
    JavaOverrideUnavailable,
    ManagedRuntimeCorrupt,
    DownloadUnavailable,
    OutOfMemory,
    PerformanceRulesInvalid,
    PerformanceFallbackSelected,
    LaunchPrepareFailed,
    StartupFailedUnknown,
    LauncherManagedArtifactCorrupt,
    PersistedStateSchemaInvalid,
}

impl View for DiagnosisId {
    type V = DiagnosisId;

    open spec fn view(&self) -> DiagnosisId {
        *self
    }
}

impl Record for DiagnosisId {
    fn same(&self, other: &Self) -> (r: bool) {
        *self == *other
    }

    fn duplicate(&self) -> (r: Self) {
        *self
    }
}

/// A fact that the Guardian has observed.
#[derive(Clone, Copy, Debug, PartialEq, Eq, Structural, Hash)]
pub enum GuardianFactId {
    ArtifactMissing,
    ArtifactHashMismatch,
    ArtifactChecksumMismatch,
    DownloadProviderUnavailable,
    ManagedRuntimeCorrupt,
    PerformanceFallbackSelected,
    PerformanceRulesInvalid,
}

impl View for GuardianFactId {
    type V = GuardianFactId;

    open spec fn view(&self) -> GuardianFactId {
        *self
    }
}

impl Record for GuardianFactId {
    fn same(&self, other: &Self) -> (r: bool) {
        *self == *other
    }

    fn duplicate(&self) -> (r: Self) {
        *self
    }
}

/// The domain that a diagnosis belongs to.
#[derive(Clone, Copy, Debug, PartialEq, Eq, Structural, Hash)]
pub enum GuardianDomain {
    Launch,
    Runtime,
    Download,
    Library,
    Performance,
    State,
}

impl View for GuardianDomain {
    type V = GuardianDomain;

    open spec fn view(&self) -> GuardianDomain {
        *self
    }
}

impl Record for GuardianDomain {
    fn same(&self, other: &Self) -> (r: bool) {
        *self == *other
    }

    fn duplicate(&self) -> (r: Self) {
        *self
    }
}

/// The mode that the Guardian runs in.
#[derive(Clone, Copy, Debug, PartialEq, Eq, Structural, Hash)]
pub enum GuardianMode {
    Managed,
    Custom,
}

impl View for GuardianMode {
    type V = GuardianMode;

    open spec fn view(&self) -> GuardianMode {
        *self
    }
}

impl Record for GuardianMode {
    fn same(&self, other: &Self) -> (r: bool) {
        *self == *other
    }

    fn duplicate(&self) -> (r: Self) {
        *self
    }
}

/// What the Guardian did about a diagnosis.
#[derive(Clone, Copy, Debug, PartialEq, Eq, Structural, Hash)]
pub enum GuardianActionKind {
    Repair,
    Retry,
    Strip,
    Downgrade,
    Fallback,
    Quarantine,
    Block,
    RecordOnly,
}

impl View for GuardianActionKind {
    type V = GuardianActionKind;

    open spec fn view(&self) -> GuardianActionKind {
        *self
    }
}

impl Record for GuardianActionKind {
    fn same(&self, other: &Self) -> (r: bool) {
        *self == *other
    }

    fn duplicate(&self) -> (r: Self) {
        *self
    }
}

/// How far a reconciliation reaches.
#[derive(Clone, Copy, Debug, PartialEq, Eq, Structural, Hash)]
pub enum ReconciliationRung {
    RepairArtifact,
    RebuildComponent,
}

impl View for ReconciliationRung {
    type V = ReconciliationRung;

    open spec fn view(&self) -> ReconciliationRung {
        *self
    }
}

impl Record for ReconciliationRung {
    fn same(&self, other: &Self) -> (r: bool) {
        *self == *other
    }

    fn duplicate(&self) -> (r: Self) {
        *self
    }
}

/// The component that a reconciliation is about.
#[derive(Clone, Copy, Debug, PartialEq, Eq, Structural, Hash)]
pub enum ReconciliationComponent {
    Libraries,
    Runtime,
    VersionBundle,
}

impl View for ReconciliationComponent {
    type V = ReconciliationComponent;

    open spec fn view(&self) -> ReconciliationComponent {
        *self
    }
}

impl Record for ReconciliationComponent {
    fn same(&self, other: &Self) -> (r: bool) {
        *self == *other
    }

    fn duplicate(&self) -> (r: Self) {
        *self
    }
}

/// How a reconciliation ended.
#[derive(Clone, Copy, Debug, PartialEq, Eq, Structural, Hash)]
pub enum ReconciliationTerminalOutcome {
    Succeeded,
    Failed,
}

impl View for ReconciliationTerminalOutcome {
    type V = ReconciliationTerminalOutcome;

    open spec fn view(&self) -> ReconciliationTerminalOutcome {
        *self
    }
}

impl Record for ReconciliationTerminalOutcome {
    fn same(&self, other: &Self) -> (r: bool) {
        *self == *other
    }

    fn duplicate(&self) -> (r: Self) {
        *self
    }
}

/// What became of the version bundle of a reconciliation.
#[derive(Clone, Copy, Debug, PartialEq, Eq, Structural, Hash)]
pub enum ReconciliationVersionBundleOutcome {
    Published,
    RolledBack,
}

impl View for ReconciliationVersionBundleOutcome {
    type V = ReconciliationVersionBundleOutcome;

    open spec fn view(&self) -> ReconciliationVersionBundleOutcome {
        *self
    }
}

impl Record for ReconciliationVersionBundleOutcome {
    fn same(&self, other: &Self) -> (r: bool) {
        *self == *other
    }

    fn duplicate(&self) -> (r: Self) {
        *self
    }
}

/// Where a reconciliation comes from.
#[derive(Clone, Copy, Debug, PartialEq, Eq, Structural, Hash)]
pub enum ReconciliationLineage {
    Initial,
    Predecessor { operation_id: OperationId },
}

impl View for ReconciliationLineage {
    type V = ReconciliationLineage;

    open spec fn view(&self) -> ReconciliationLineage {
        *self
    }
}

impl Record for ReconciliationLineage {
    fn same(&self, other: &Self) -> (r: bool) {
        *self == *other
    }

    fn duplicate(&self) -> (r: Self) {
        *self
    }
}

/// The store that holds a rejected record.
#[derive(Clone, Copy, Debug, PartialEq, Eq, Structural, Hash)]
pub enum PersistedStateRecordStore {
    BenchmarkSuiteDriver,
}

impl View for PersistedStateRecordStore {
    type V = PersistedStateRecordStore;

    open spec fn view(&self) -> PersistedStateRecordStore {
        *self
    }
}

impl Record for PersistedStateRecordStore {
    fn same(&self, other: &Self) -> (r: bool) {
        *self == *other
    }

    fn duplicate(&self) -> (r: Self) {
        *self
    }
}

/// How the repair of a persisted record ended.
#[derive(Clone, Copy, Debug, PartialEq, Eq, Structural, Hash)]
pub enum PersistedStateRepairTerminalOutcome {
    Quarantined,
    Refused,
    AppliedUnverified,
}

impl View for PersistedStateRepairTerminalOutcome {
    type V = PersistedStateRepairTerminalOutcome;

    open spec fn view(&self) -> PersistedStateRepairTerminalOutcome {
        *self
    }
}

impl Record for PersistedStateRepairTerminalOutcome {
    fn same(&self, other: &Self) -> (r: bool) {
        *self == *other
    }

    fn duplicate(&self) -> (r: Self) {
        *self
    }
}

/// What a performance operation does to the composition.
#[derive(Clone, Copy, Debug, PartialEq, Eq, Structural, Hash)]
pub enum PerformanceOperationAction {
    Install,
    Remove,
    Rollback,
}

impl View for PerformanceOperationAction {
    type V = PerformanceOperationAction;

    open spec fn view(&self) -> PerformanceOperationAction {
        *self
    }
}

impl Record for PerformanceOperationAction {
    fn same(&self, other: &Self) -> (r: bool) {
        *self == *other
    }

    fn duplicate(&self) -> (r: Self) {
        *self
    }
}

/// The state that a rollback restores.
#[derive(Clone, Copy, Debug, PartialEq, Eq, Structural, Hash)]
pub enum PerformanceRollbackTarget {
    ManagedStateAbsent,
    ManagedComposition,
}

impl View for PerformanceRollbackTarget {
    type V = PerformanceRollbackTarget;

    open spec fn view(&self) -> PerformanceRollbackTarget {
        *self
    }
}

impl Record for PerformanceRollbackTarget {
    fn same(&self, other: &Self) -> (r: bool) {
        *self == *other
    }

    fn duplicate(&self) -> (r: Self) {
        *self
    }
}

} // verus!
