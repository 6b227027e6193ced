//! What is shown of a performance operation, and what becomes of it at a restart.

use crate::contracts::{OperationId, PerformanceOperationAction};
use crate::entry::{OperationIntent, OperationJournalEntry, OperationJournalEntryView};
use crate::lifecycle::{
    PerformanceOperationIntent, PerformanceOperationIntentView, PerformanceOperationPhase,
    PerformanceOperationPhaseView, PerformanceOperationTerminal, PerformanceOperationTerminalView,
};
use crate::performance::{lifecycle_of, performance_phase_error, phase_error};
use crate::record::{opt_view, Record};
use vstd::prelude::*;

verus! {

/// What becomes of a performance operation at a restart.
#[derive(Clone, Copy, Debug, PartialEq, Eq, Structural, Hash)]
pub enum OperationRestartDisposition {
    AbandonedBeforeEffect,
    Resumable,
    AppliedUnverified,
    TerminalIntent,
    Terminal,
}

/// What is shown of a performance operation.
#[derive(Clone, Debug, PartialEq, Eq)]
pub struct PerformanceOperationProjection {
    pub operation_id: OperationId,
    pub sequence: u64,
    pub intent: PerformanceOperationIntent,
    pub phase: PerformanceOperationPhase,
    pub state: &'static str,
    pub error: Option<String>,
    pub created_at: String,
    pub updated_at: String,
    pub terminal: bool,
    pub restart: OperationRestartDisposition,
}

/// The model of [`PerformanceOperationProjection`].
pub struct PerformanceOperationProjectionView {
    pub operation_id: OperationId,
    pub sequence: u64,
    pub intent: PerformanceOperationIntentView,
    pub phase: PerformanceOperationPhaseView,
    pub state: Seq<char>,
    pub error: Option<Seq<char>>,
    pub created_at: Seq<char>,
    pub updated_at: Seq<char>,
    pub terminal: bool,
    pub restart: OperationRestartDisposition,
}

impl View for PerformanceOperationProjection {
    type V = PerformanceOperationProjectionView;

    open spec fn view(&self) -> PerformanceOperationProjectionView {
        PerformanceOperationProjectionView {
            operation_id: self.operation_id,
            sequence: self.sequence,
            intent: self.intent@,
            phase: self.phase@,
            state: self.state@,
            error: opt_view(self.error),
            created_at: self.created_at@,
            updated_at: self.updated_at@,
            terminal: self.terminal,
            restart: self.restart,
        }
    }
}

/// What becomes of an operation in a phase at a restart.
pub open spec fn restart_of(phase: PerformanceOperationPhaseView) -> OperationRestartDisposition {
    match phase {
        PerformanceOperationPhaseView::Accepted {  } => {
            OperationRestartDisposition::AbandonedBeforeEffect
        },
        PerformanceOperationPhaseView::Planning {  } => {
            OperationRestartDisposition::AbandonedBeforeEffect
        },
        PerformanceOperationPhaseView::Prepared { .. } => OperationRestartDisposition::Resumable,
        PerformanceOperationPhaseView::EffectStarted { .. } => {
            OperationRestartDisposition::AppliedUnverified
        },
        PerformanceOperationPhaseView::AppliedUnverified { .. } => {
            OperationRestartDisposition::AppliedUnverified
        },
        PerformanceOperationPhaseView::TerminalIntent { .. } => {
            OperationRestartDisposition::TerminalIntent
        },
        PerformanceOperationPhaseView::Terminal { .. } => OperationRestartDisposition::Terminal,
    }
}

/// The word for the state of an operation.
pub open spec fn state_text(
    action: PerformanceOperationAction,
    phase: PerformanceOperationPhaseView,
) -> Seq<char> {
    match phase {
        PerformanceOperationPhaseView::Accepted {  } => "queued"@,
        PerformanceOperationPhaseView::Planning {  } => "planning"@,
        PerformanceOperationPhaseView::Prepared { .. } => "planning"@,
        PerformanceOperationPhaseView::EffectStarted { .. } => match action {
            PerformanceOperationAction::Install => "applying"@,
            PerformanceOperationAction::Remove => "removing"@,
            PerformanceOperationAction::Rollback => "rolling_back"@,
        },
        PerformanceOperationPhaseView::AppliedUnverified { .. } => "applied_unverified"@,
        PerformanceOperationPhaseView::TerminalIntent { terminal } => if terminal is Succeeded {
            "committing_complete"@
        } else {
            "committing_failed"@
        },
        PerformanceOperationPhaseView::Terminal { terminal } => match terminal {
            PerformanceOperationTerminalView::Succeeded { .. } => "complete"@,
            PerformanceOperationTerminalView::AbandonedBeforeEffect {  } => "interrupted"@,
            _ => "failed"@,
        },
    }
}

/// What is shown of the performance operation that an entry is about.
pub open spec fn projection_of(entry: OperationJournalEntryView) -> Option<
    PerformanceOperationProjectionView,
> {
    match lifecycle_of(entry) {
        Some(lifecycle) => Some(
            PerformanceOperationProjectionView {
                operation_id: entry.operation_id,
                sequence: entry.sequence,
                intent: lifecycle.intent,
                phase: lifecycle.phase,
                state: state_text(lifecycle.intent.action, lifecycle.phase),
                error: phase_error(lifecycle.phase),
                created_at: lifecycle.created_at,
                updated_at: lifecycle.updated_at,
                terminal: lifecycle.phase is Terminal,
                restart: restart_of(lifecycle.phase),
            },
        ),
        None => None,
    }
}

/// What becomes of an entry's performance operation at a restart.
pub fn performance_restart_disposition(entry: &OperationJournalEntry) -> (r: Option<
    OperationRestartDisposition,
>)
    ensures
        r == (match lifecycle_of(entry@) {
            Some(lifecycle) => Some(restart_of(lifecycle.phase)),
            None => None,
        }),
{
    match &entry.intent {
        OperationIntent::Performance(lifecycle) => Some(
            match &lifecycle.phase {
                PerformanceOperationPhase::Accepted {  } => {
                    OperationRestartDisposition::AbandonedBeforeEffect
                },
                PerformanceOperationPhase::Planning {  } => {
                    OperationRestartDisposition::AbandonedBeforeEffect
                },
                PerformanceOperationPhase::Prepared { .. } => OperationRestartDisposition::Resumable,
                PerformanceOperationPhase::EffectStarted { .. } => {
                    OperationRestartDisposition::AppliedUnverified
                },
                PerformanceOperationPhase::AppliedUnverified { .. } => {
                    OperationRestartDisposition::AppliedUnverified
                },
                PerformanceOperationPhase::TerminalIntent { .. } => {
                    OperationRestartDisposition::TerminalIntent
                },
                PerformanceOperationPhase::Terminal { .. } => OperationRestartDisposition::Terminal,
            },
        ),
        OperationIntent::Generic {  } => None,
    }
}

/// What is shown of the performance operation that an entry is about.
pub fn performance_operation_projection(entry: &OperationJournalEntry) -> (r: Option<
    PerformanceOperationProjection,
>)
    ensures
        opt_view(r) == projection_of(entry@),
{
    let lifecycle = match &entry.intent {
        OperationIntent::Performance(lifecycle) => lifecycle,
        OperationIntent::Generic {  } => {
            return None;
        },
    };
    let restart = match performance_restart_disposition(entry) {
        Some(restart) => restart,
        None => {
            return None;
        },
    };
    let state = match &lifecycle.phase {
        PerformanceOperationPhase::Accepted {  } => "queued",
        PerformanceOperationPhase::Planning {  } => "planning",
        PerformanceOperationPhase::Prepared { .. } => "planning",
        PerformanceOperationPhase::EffectStarted { .. } => match lifecycle.intent.action {
            PerformanceOperationAction::Install => "applying",
            PerformanceOperationAction::Remove => "removing",
            PerformanceOperationAction::Rollback => "rolling_back",
        },
        PerformanceOperationPhase::AppliedUnverified { .. } => "applied_unverified",
        PerformanceOperationPhase::TerminalIntent { terminal } => match terminal {
            PerformanceOperationTerminal::Succeeded { .. } => "committing_complete",
            _ => "committing_failed",
        },
        PerformanceOperationPhase::Terminal { terminal } => match terminal {
            PerformanceOperationTerminal::Succeeded { .. } => "complete",
            PerformanceOperationTerminal::AbandonedBeforeEffect {  } => "interrupted",
            _ => "failed",
        },
    };
    Some(
        PerformanceOperationProjection {
            operation_id: entry.operation_id,
            sequence: entry.sequence,
            intent: lifecycle.intent.duplicate(),
            phase: lifecycle.phase.duplicate(),
            state,
            error: performance_phase_error(&lifecycle.phase),
            created_at: lifecycle.created_at.duplicate(),
            updated_at: lifecycle.updated_at.duplicate(),
            terminal: restart == OperationRestartDisposition::Terminal,
            restart,
        },
    )
}

} // verus!
