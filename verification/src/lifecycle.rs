//! The lifecycle of a performance operation, as it is written down.

use crate::contracts::{PerformanceOperationAction, PerformanceRollbackTarget, RollbackState};
use crate::record::{opt_duplicate, opt_same, opt_view, Record};
use vstd::prelude::*;

verus! {

/// What a performance operation was asked to do.
#[derive(Clone, Debug, PartialEq, Eq)]
pub struct PerformanceOperationIntent {
    pub instance_id: String,
    pub requested_action: PerformanceOperationAction,
    pub action: PerformanceOperationAction,
    pub base_target_id: String,
    pub rollback: RollbackState,
    pub game_version: Option<String>,
    pub loader: Option<String>,
    pub mode: Option<String>,
    pub rollback_id: Option<String>,
}

/// The model of [`PerformanceOperationIntent`].
pub struct PerformanceOperationIntentView {
    pub instance_id: Seq<char>,
    pub requested_action: PerformanceOperationAction,
    pub action: PerformanceOperationAction,
    pub base_target_id: Seq<char>,
    pub rollback: RollbackState,
    pub game_version: Option<Seq<char>>,
    pub loader: Option<Seq<char>>,
    pub mode: Option<Seq<char>>,
    pub rollback_id: Option<Seq<char>>,
}

impl View for PerformanceOperationIntent {
    type V = PerformanceOperationIntentView;

    open spec fn view(&self) -> PerformanceOperationIntentView {
        PerformanceOperationIntentView {
            instance_id: self.instance_id@,
            requested_action: self.requested_action,
            action: self.action,
            base_target_id: self.base_target_id@,
            rollback: self.rollback,
            game_version: opt_view(self.game_version),
            loader: opt_view(self.loader),
            mode: opt_view(self.mode),
            rollback_id: opt_view(self.rollback_id),
        }
    }
}

impl Record for PerformanceOperationIntent {
    fn same(&self, other: &Self) -> (r: bool) {
        self.instance_id.same(&other.instance_id)
            && self.requested_action == other.requested_action
            && self.action == other.action
            && self.base_target_id.same(&other.base_target_id)
            && self.rollback == other.rollback
            && opt_same(&self.game_version, &other.game_version)
            && opt_same(&self.loader, &other.loader)
            && opt_same(&self.mode, &other.mode)
            && opt_same(&self.rollback_id, &other.rollback_id)
    }

    fn duplicate(&self) -> (r: Self) {
        PerformanceOperationIntent {
            instance_id: self.instance_id.duplicate(),
            requested_action: self.requested_action,
            action: self.action,
            base_target_id: self.base_target_id.duplicate(),
            rollback: self.rollback,
            game_version: opt_duplicate(&self.game_version),
            loader: opt_duplicate(&self.loader),
            mode: opt_duplicate(&self.mode),
            rollback_id: opt_duplicate(&self.rollback_id),
        }
    }
}

/// What was established before the composition is touched.
#[derive(Clone, Debug, PartialEq, Eq)]
pub enum PerformancePreparedProof {
    InstallPlan { graph_sha512: String, artifact_count: u64, aggregate_bytes: u64 },
    RemoveCurrent { graph_sha512: String, artifact_count: u64 },
    ManagedStateAbsent {},
    RollbackSnapshot { snapshot_id: String, target: PerformanceRollbackTarget, artifact_count: u64 },
}

/// The model of [`PerformancePreparedProof`].
pub enum PerformancePreparedProofView {
    InstallPlan { graph_sha512: Seq<char>, artifact_count: u64, aggregate_bytes: u64 },
    RemoveCurrent { graph_sha512: Seq<char>, artifact_count: u64 },
    ManagedStateAbsent {},
    RollbackSnapshot { snapshot_id: Seq<char>, target: PerformanceRollbackTarget, artifact_count: u64 },
}

impl View for PerformancePreparedProof {
    type V = PerformancePreparedProofView;

    open spec fn view(&self) -> PerformancePreparedProofView {
        match self {
            PerformancePreparedProof::InstallPlan { graph_sha512, artifact_count, aggregate_bytes } => PerformancePreparedProofView::InstallPlan { graph_sha512: graph_sha512@, artifact_count: *artifact_count, aggregate_bytes: *aggregate_bytes },
            PerformancePreparedProof::RemoveCurrent { graph_sha512, artifact_count } => PerformancePreparedProofView::RemoveCurrent { graph_sha512: graph_sha512@, artifact_count: *artifact_count },
            PerformancePreparedProof::ManagedStateAbsent {} => PerformancePreparedProofView::ManagedStateAbsent {},
            PerformancePreparedProof::RollbackSnapshot { snapshot_id, target, artifact_count } => PerformancePreparedProofView::RollbackSnapshot { snapshot_id: snapshot_id@, target: *target, artifact_count: *artifact_count },
        }
    }
}

impl Record for PerformancePreparedProof {
    fn same(&self, other: &Self) -> (r: bool) {
        match (self, other) {
            (PerformancePreparedProof::InstallPlan { graph_sha512: left_graph_sha512, artifact_count: left_artifact_count, aggregate_bytes: left_aggregate_bytes }, PerformancePreparedProof::InstallPlan { graph_sha512: right_graph_sha512, artifact_count: right_artifact_count, aggregate_bytes: right_aggregate_bytes }) => {
                left_graph_sha512.same(right_graph_sha512) && *left_artifact_count == *right_artifact_count && *left_aggregate_bytes == *right_aggregate_bytes
            },
            (PerformancePreparedProof::RemoveCurrent { graph_sha512: left_graph_sha512, artifact_count: left_artifact_count }, PerformancePreparedProof::RemoveCurrent { graph_sha512: right_graph_sha512, artifact_count: right_artifact_count }) => {
                left_graph_sha512.same(right_graph_sha512) && *left_artifact_count == *right_artifact_count
            },
            (PerformancePreparedProof::ManagedStateAbsent {}, PerformancePreparedProof::ManagedStateAbsent {}) => true,
            (PerformancePreparedProof::RollbackSnapshot { snapshot_id: left_snapshot_id, target: left_target, artifact_count: left_artifact_count }, PerformancePreparedProof::RollbackSnapshot { snapshot_id: right_snapshot_id, target: right_target, artifact_count: right_artifact_count }) => {
                left_snapshot_id.same(right_snapshot_id) && *left_target == *right_target && *left_artifact_count == *right_artifact_count
            },
            _ => false,
        }
    }

    fn duplicate(&self) -> (r: Self) {
        match self {
            PerformancePreparedProof::InstallPlan { graph_sha512, artifact_count, aggregate_bytes } => PerformancePreparedProof::InstallPlan { graph_sha512: graph_sha512.duplicate(), artifact_count: *artifact_count, aggregate_bytes: *aggregate_bytes },
            PerformancePreparedProof::RemoveCurrent { graph_sha512, artifact_count } => PerformancePreparedProof::RemoveCurrent { graph_sha512: graph_sha512.duplicate(), artifact_count: *artifact_count },
            PerformancePreparedProof::ManagedStateAbsent {} => PerformancePreparedProof::ManagedStateAbsent {},
            PerformancePreparedProof::RollbackSnapshot { snapshot_id, target, artifact_count } => PerformancePreparedProof::RollbackSnapshot { snapshot_id: snapshot_id.duplicate(), target: *target, artifact_count: *artifact_count },
        }
    }
}

/// A prepared performance operation.
#[derive(Clone, Debug, PartialEq, Eq)]
pub struct PerformanceOperationPrepared {
    pub result_target_id: String,
    pub proof: PerformancePreparedProof,
}

/// The model of [`PerformanceOperationPrepared`].
pub struct PerformanceOperationPreparedView {
    pub result_target_id: Seq<char>,
    pub proof: PerformancePreparedProofView,
}

impl View for PerformanceOperationPrepared {
    type V = PerformanceOperationPreparedView;

    open spec fn view(&self) -> PerformanceOperationPreparedView {
        PerformanceOperationPreparedView {
            result_target_id: self.result_target_id@,
            proof: self.proof@,
        }
    }
}

impl Record for PerformanceOperationPrepared {
    fn same(&self, other: &Self) -> (r: bool) {
        self.result_target_id.same(&other.result_target_id)
            && self.proof.same(&other.proof)
    }

    fn duplicate(&self) -> (r: Self) {
        PerformanceOperationPrepared {
            result_target_id: self.result_target_id.duplicate(),
            proof: self.proof.duplicate(),
        }
    }
}

/// The end of a performance operation.
#[derive(Clone, Debug, PartialEq, Eq)]
pub enum PerformanceOperationTerminal {
    Succeeded { prepared: PerformanceOperationPrepared, changed_target: bool, rollback: RollbackState },
    FailedAfterEffect { prepared: PerformanceOperationPrepared, changed_target: bool, rollback: RollbackState, error: String },
    FailedBeforeEffect { error: String },
    AbandonedBeforeEffect {},
}

/// The model of [`PerformanceOperationTerminal`].
pub enum PerformanceOperationTerminalView {
    Succeeded { prepared: PerformanceOperationPreparedView, changed_target: bool, rollback: RollbackState },
    FailedAfterEffect { prepared: PerformanceOperationPreparedView, changed_target: bool, rollback: RollbackState, error: Seq<char> },
    FailedBeforeEffect { error: Seq<char> },
    AbandonedBeforeEffect {},
}

impl View for PerformanceOperationTerminal {
    type V = PerformanceOperationTerminalView;

    open spec fn view(&self) -> PerformanceOperationTerminalView {
        match self {
            PerformanceOperationTerminal::Succeeded { prepared, changed_target, rollback } => PerformanceOperationTerminalView::Succeeded { prepared: prepared@, changed_target: *changed_target, rollback: *rollback },
            PerformanceOperationTerminal::FailedAfterEffect { prepared, changed_target, rollback, error } => PerformanceOperationTerminalView::FailedAfterEffect { prepared: prepared@, changed_target: *changed_target, rollback: *rollback, error: error@ },
            PerformanceOperationTerminal::FailedBeforeEffect { error } => PerformanceOperationTerminalView::FailedBeforeEffect { error: error@ },
            PerformanceOperationTerminal::AbandonedBeforeEffect {} => PerformanceOperationTerminalView::AbandonedBeforeEffect {},
        }
    }
}

impl Record for PerformanceOperationTerminal {
    fn same(&self, other: &Self) -> (r: bool) {
        match (self, other) {
            (PerformanceOperationTerminal::Succeeded { prepared: left_prepared, changed_target: left_changed_target, rollback: left_rollback }, PerformanceOperationTerminal::Succeeded { prepared: right_prepared, changed_target: right_changed_target, rollback: right_rollback }) => {
                left_prepared.same(right_prepared) && *left_changed_target == *right_changed_target && *left_rollback == *right_rollback
            },
            (PerformanceOperationTerminal::FailedAfterEffect { prepared: left_prepared, changed_target: left_changed_target, rollback: left_rollback, error: left_error }, PerformanceOperationTerminal::FailedAfterEffect { prepared: right_prepared, changed_target: right_changed_target, rollback: right_rollback, error: right_error }) => {
                left_prepared.same(right_prepared) && *left_changed_target == *right_changed_target && *left_rollback == *right_rollback && left_error.same(right_error)
            },
            (PerformanceOperationTerminal::FailedBeforeEffect { error: left_error }, PerformanceOperationTerminal::FailedBeforeEffect { error: right_error }) => {
                left_error.same(right_error)
            },
            (PerformanceOperationTerminal::AbandonedBeforeEffect {}, PerformanceOperationTerminal::AbandonedBeforeEffect {}) => true,
            _ => false,
        }
    }

    fn duplicate(&self) -> (r: Self) {
        match self {
            PerformanceOperationTerminal::Succeeded { prepared, changed_target, rollback } => PerformanceOperationTerminal::Succeeded { prepared: prepared.duplicate(), changed_target: *changed_target, rollback: *rollback },
            PerformanceOperationTerminal::FailedAfterEffect { prepared, changed_target, rollback, error } => PerformanceOperationTerminal::FailedAfterEffect { prepared: prepared.duplicate(), changed_target: *changed_target, rollback: *rollback, error: error.duplicate() },
            PerformanceOperationTerminal::FailedBeforeEffect { error } => PerformanceOperationTerminal::FailedBeforeEffect { error: error.duplicate() },
            PerformanceOperationTerminal::AbandonedBeforeEffect {} => PerformanceOperationTerminal::AbandonedBeforeEffect {},
        }
    }
}

/// The phase that a performance operation has reached.
#[derive(Clone, Debug, PartialEq, Eq)]
pub enum PerformanceOperationPhase {
    Accepted {},
    Planning {},
    Prepared { prepared: PerformanceOperationPrepared },
    EffectStarted { prepared: PerformanceOperationPrepared },
    AppliedUnverified { prepared: PerformanceOperationPrepared, error: String },
    TerminalIntent { terminal: PerformanceOperationTerminal },
    Terminal { terminal: PerformanceOperationTerminal },
}

/// The model of [`PerformanceOperationPhase`].
pub enum PerformanceOperationPhaseView {
    Accepted {},
    Planning {},
    Prepared { prepared: PerformanceOperationPreparedView },
    EffectStarted { prepared: PerformanceOperationPreparedView },
    AppliedUnverified { prepared: PerformanceOperationPreparedView, error: Seq<char> },
    TerminalIntent { terminal: PerformanceOperationTerminalView },
    Terminal { terminal: PerformanceOperationTerminalView },
}

impl View for PerformanceOperationPhase {
    type V = PerformanceOperationPhaseView;

    open spec fn view(&self) -> PerformanceOperationPhaseView {
        match self {
            PerformanceOperationPhase::Accepted {} => PerformanceOperationPhaseView::Accepted {},
            PerformanceOperationPhase::Planning {} => PerformanceOperationPhaseView::Planning {},
            PerformanceOperationPhase::Prepared { prepared } => PerformanceOperationPhaseView::Prepared { prepared: prepared@ },
            PerformanceOperationPhase::EffectStarted { prepared } => PerformanceOperationPhaseView::EffectStarted { prepared: prepared@ },
            PerformanceOperationPhase::AppliedUnverified { prepared, error } => PerformanceOperationPhaseView::AppliedUnverified { prepared: prepared@, error: error@ },
            PerformanceOperationPhase::TerminalIntent { terminal } => PerformanceOperationPhaseView::TerminalIntent { terminal: terminal@ },
            PerformanceOperationPhase::Terminal { terminal } => PerformanceOperationPhaseView::Terminal { terminal: terminal@ },
        }
    }
}

impl Record for PerformanceOperationPhase {
    fn same(&self, other: &Self) -> (r: bool) {
        match (self, other) {
            (PerformanceOperationPhase::Accepted {}, PerformanceOperationPhase::Accepted {}) => true,
            (PerformanceOperationPhase::Planning {}, PerformanceOperationPhase::Planning {}) => true,
            (PerformanceOperationPhase::Prepared { prepared: left_prepared }, PerformanceOperationPhase::Prepared { prepared: right_prepared }) => {
                left_prepared.same(right_prepared)
            },
            (PerformanceOperationPhase::EffectStarted { prepared: left_prepared }, PerformanceOperationPhase::EffectStarted { prepared: right_prepared }) => {
                left_prepared.same(right_prepared)
            },
            (PerformanceOperationPhase::AppliedUnverified { prepared: left_prepared, error: left_error }, PerformanceOperationPhase::AppliedUnverified { prepared: right_prepared, error: right_error }) => {
                left_prepared.same(right_prepared) && left_error.same(right_error)
            },
            (PerformanceOperationPhase::TerminalIntent { terminal: left_terminal }, PerformanceOperationPhase::TerminalIntent { terminal: right_terminal }) => {
                left_terminal.same(right_terminal)
            },
            (PerformanceOperationPhase::Terminal { terminal: left_terminal }, PerformanceOperationPhase::Terminal { terminal: right_terminal }) => {
                left_terminal.same(right_terminal)
            },
            _ => false,
        }
    }

    fn duplicate(&self) -> (r: Self) {
        match self {
            PerformanceOperationPhase::Accepted {} => PerformanceOperationPhase::Accepted {},
            PerformanceOperationPhase::Planning {} => PerformanceOperationPhase::Planning {},
            PerformanceOperationPhase::Prepared { prepared } => PerformanceOperationPhase::Prepared { prepared: prepared.duplicate() },
            PerformanceOperationPhase::EffectStarted { prepared } => PerformanceOperationPhase::EffectStarted { prepared: prepared.duplicate() },
            PerformanceOperationPhase::AppliedUnverified { prepared, error } => PerformanceOperationPhase::AppliedUnverified { prepared: prepared.duplicate(), error: error.duplicate() },
            PerformanceOperationPhase::TerminalIntent { terminal } => PerformanceOperationPhase::TerminalIntent { terminal: terminal.duplicate() },
            PerformanceOperationPhase::Terminal { terminal } => PerformanceOperationPhase::Terminal { terminal: terminal.duplicate() },
        }
    }
}

/// The lifecycle of a performance operation.
#[derive(Clone, Debug, PartialEq, Eq)]
pub struct PerformanceOperationLifecycle {
    pub intent: PerformanceOperationIntent,
    pub phase: PerformanceOperationPhase,
    pub created_at: String,
    pub updated_at: String,
}

/// The model of [`PerformanceOperationLifecycle`].
pub struct PerformanceOperationLifecycleView {
    pub intent: PerformanceOperationIntentView,
    pub phase: PerformanceOperationPhaseView,
    pub created_at: Seq<char>,
    pub updated_at: Seq<char>,
}

impl View for PerformanceOperationLifecycle {
    type V = PerformanceOperationLifecycleView;

    open spec fn view(&self) -> PerformanceOperationLifecycleView {
        PerformanceOperationLifecycleView {
            intent: self.intent@,
            phase: self.phase@,
            created_at: self.created_at@,
            updated_at: self.updated_at@,
        }
    }
}

impl Record for PerformanceOperationLifecycle {
    fn same(&self, other: &Self) -> (r: bool) {
        self.intent.same(&other.intent)
            && self.phase.same(&other.phase)
            && self.created_at.same(&other.created_at)
            && self.updated_at.same(&other.updated_at)
    }

    fn duplicate(&self) -> (r: Self) {
        PerformanceOperationLifecycle {
            intent: self.intent.duplicate(),
            phase: self.phase.duplicate(),
            created_at: self.created_at.duplicate(),
            updated_at: self.updated_at.duplicate(),
        }
    }
}

/// A step in the lifecycle of a performance operation.
#[derive(Clone, Debug, PartialEq, Eq)]
pub enum PerformanceOperationTransition {
    Planning,
    Prepared(PerformanceOperationPrepared),
    EffectStarted,
    MarkAppliedUnverified(String),
    RequestTerminal(PerformanceOperationTerminal),
    CommitTerminal(PerformanceOperationTerminal),
}

/// The model of [`PerformanceOperationTransition`].
pub enum PerformanceOperationTransitionView {
    Planning,
    Prepared(PerformanceOperationPreparedView),
    EffectStarted,
    MarkAppliedUnverified(Seq<char>),
    RequestTerminal(PerformanceOperationTerminalView),
    CommitTerminal(PerformanceOperationTerminalView),
}

impl View for PerformanceOperationTransition {
    type V = PerformanceOperationTransitionView;

    open spec fn view(&self) -> PerformanceOperationTransitionView {
        match self {
            PerformanceOperationTransition::Planning => PerformanceOperationTransitionView::Planning,
            PerformanceOperationTransition::Prepared(prepared) => PerformanceOperationTransitionView::Prepared(prepared@),
            PerformanceOperationTransition::EffectStarted => PerformanceOperationTransitionView::EffectStarted,
            PerformanceOperationTransition::MarkAppliedUnverified(error) => PerformanceOperationTransitionView::MarkAppliedUnverified(error@),
            PerformanceOperationTransition::RequestTerminal(terminal) => PerformanceOperationTransitionView::RequestTerminal(terminal@),
            PerformanceOperationTransition::CommitTerminal(terminal) => PerformanceOperationTransitionView::CommitTerminal(terminal@),
        }
    }
}

impl Record for PerformanceOperationTransition {
    fn same(&self, other: &Self) -> (r: bool) {
        match (self, other) {
            (PerformanceOperationTransition::Planning, PerformanceOperationTransition::Planning) => true,
            (PerformanceOperationTransition::Prepared(left_prepared), PerformanceOperationTransition::Prepared(right_prepared)) => {
                left_prepared.same(right_prepared)
            },
            (PerformanceOperationTransition::EffectStarted, PerformanceOperationTransition::EffectStarted) => true,
            (PerformanceOperationTransition::MarkAppliedUnverified(left_error), PerformanceOperationTransition::MarkAppliedUnverified(right_error)) => {
                left_error.same(right_error)
            },
            (PerformanceOperationTransition::RequestTerminal(left_terminal), PerformanceOperationTransition::RequestTerminal(right_terminal)) => {
                left_terminal.same(right_terminal)
            },
            (PerformanceOperationTransition::CommitTerminal(left_terminal), PerformanceOperationTransition::CommitTerminal(right_terminal)) => {
                left_terminal.same(right_terminal)
            },
            _ => false,
        }
    }

    fn duplicate(&self) -> (r: Self) {
        match self {
            PerformanceOperationTransition::Planning => PerformanceOperationTransition::Planning,
            PerformanceOperationTransition::Prepared(prepared) => PerformanceOperationTransition::Prepared(prepared.duplicate()),
            PerformanceOperationTransition::EffectStarted => PerformanceOperationTransition::EffectStarted,
            PerformanceOperationTransition::MarkAppliedUnverified(error) => PerformanceOperationTransition::MarkAppliedUnverified(error.duplicate()),
            PerformanceOperationTransition::RequestTerminal(terminal) => PerformanceOperationTransition::RequestTerminal(terminal.duplicate()),
            PerformanceOperationTransition::CommitTerminal(terminal) => PerformanceOperationTransition::CommitTerminal(terminal.duplicate()),
        }
    }
}

} // verus!
