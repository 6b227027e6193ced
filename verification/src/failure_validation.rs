//! Which memories of failures, and snapshots of them, are in order.

use crate::contracts::{
    DiagnosisId, GuardianActionKind, GuardianDomain, GuardianMode, OwnershipClass,
    PersistedStateRepairTerminalOutcome, ReconciliationTerminalOutcome,
};
use crate::evidence::{
    PersistedStateRepairTerminal, PersistedStateRepairTerminalView, ReconciliationTerminal,
    ReconciliationTerminalView,
};
use crate::failure_entry::{
    FailureMemoryActionOutcome, FailureMemoryKey, FailureMemoryLoadError,
    FailureMemoryValidationError, GuardianFailureMemoryEntry, GuardianFailureMemoryEntryView,
};
use crate::failure_keys::{
    observation_key, reconciliation_action_outcome, repair_action_outcome, repair_key, terminal_key,
};
use crate::instants::{parse_timestamp, text_instant};
use crate::journal_errors::PersistenceFault;
use crate::journal_revision::{push_bytes, push_text, text_bytes};
use crate::record::{opt_view, views, Record};
use crate::rulings::{LauncherRulings, LauncherRulingsView};
use crate::text::{alphanumeric, chars_of, is_alphanumeric, is_empty, same_text, trim, trimmed};
use vstd::prelude::*;

verus! {

/// The name of the form in which the failure memory is written down.
pub const FAILURE_MEMORY_SCHEMA: &'static str = "axial.guardian.failure_memory.v7";

/// How many failures are remembered at most.
pub const DEFAULT_FAILURE_MEMORY_LIMIT: usize = 128;

/// The largest size of what is remembered of one failure, in bytes.
pub const MAX_FAILURE_MEMORY_ENTRY_BYTES: u64 = 16_384;

/// How many bytes a snapshot of the failure memory takes beside the memories: the schema, and
/// `{"schema":"","entries":[]}` around it.
pub const FAILURE_MEMORY_SNAPSHOT_FIXED_BYTES: u64 = 58;

/// How the text of a snapshot of the failure memory begins.
pub const FAILURE_MEMORY_SNAPSHOT_PREFIX: &'static str =
    "{\"schema\":\"axial.guardian.failure_memory.v7\",\"entries\":[";

/// How the text of a snapshot of the failure memory ends.
pub const FAILURE_MEMORY_SNAPSHOT_SUFFIX: &'static str = "]}";

/// The largest size of a snapshot of the failure memory, in bytes: as many memories as may be
/// remembered, each as large as it may be, with a comma between every two.
pub const MAX_FAILURE_MEMORY_SNAPSHOT_BYTES: u64 = 2_097_337;

/// The verdict on what is remembered of a failure.
pub type MemoryVerdict = Result<(), FailureMemoryValidationError>;

/// Whether a character may stand in a fragment of the failure memory.
pub open spec fn is_fragment_char(c: char) -> bool {
    is_alphanumeric(c) || c == '-' || c == '_' || c == '.' || c == ':'
}

/// Whether a text may stand in the failure memory.
pub open spec fn is_memory_fragment(text: Seq<char>) -> bool {
    trimmed(text).len() > 0 && forall|i: int|
        0 <= i < text.len() ==> is_fragment_char(#[trigger] text[i])
}

/// Whether a text may stand in the failure memory.
pub fn is_safe_memory_fragment(value: &str) -> (r: bool)
    ensures
        r == is_memory_fragment(value@),
{
    if is_empty(trim(value)) {
        return false;
    }
    let chars = chars_of(value);
    let mut i: usize = 0;
    while i < chars.len()
        invariant
            i <= chars.len(),
            chars@ == value@,
            forall|k: int| 0 <= k < i ==> is_fragment_char(#[trigger] value@[k]),
        decreases chars.len() - i,
    {
        let c = chars[i];
        if !(alphanumeric(c) || c == '-' || c == '_' || c == '.' || c == ':') {
            assert(!is_fragment_char(value@[i as int]));
            return false;
        }
        i = i + 1;
    }
    true
}

/// The identity that a memory should have.
pub open spec fn expected_key(
    entry: GuardianFailureMemoryEntryView,
    rulings: LauncherRulingsView,
) -> Seq<char> {
    if let Some(terminal) = entry.persisted_state_repair_terminal {
        repair_key(terminal.attempt)
    } else if let Some(terminal) = entry.reconciliation_terminal {
        terminal_key(entry.domain, entry.diagnosis_id, entry.target, terminal, rulings)
    } else {
        observation_key(
            entry.domain,
            entry.diagnosis_id,
            entry.target,
            entry.mode,
            entry.user_intent_hash,
            rulings,
        )
    }
}

/// Whether the times at which a failure was observed are in order.
pub open spec fn observations_are_in_order(entry: GuardianFailureMemoryEntryView) -> bool {
    match (text_instant(entry.first_observed_at), text_instant(entry.last_observed_at)) {
        (Some(first), Some(last)) => !last.is_before(first),
        _ => false,
    }
}

/// Whether a memory is of the end of this reconciliation.
pub open spec fn memory_fits_terminal(
    entry: GuardianFailureMemoryEntryView,
    terminal: ReconciliationTerminalView,
) -> bool {
    &&& entry.mode == terminal.attempt.mode
    &&& entry.diagnosis_id == terminal.attempt.diagnosis_id
    &&& entry.domain == terminal.attempt.domain
    &&& entry.ownership == terminal.attempt.ownership
    &&& entry.target.ownership == terminal.attempt.ownership
    &&& entry.target == terminal.attempt.target
    &&& entry.user_intent_hash is None
    &&& entry.last_action_kind == Some(GuardianActionKind::Repair)
    &&& entry.repair_attempt_count > 0
    &&& entry.last_observed_at == terminal.attempt.observed_at
    &&& entry.suppression_until == Some(terminal.attempt.suppression_until)
    &&& entry.quarantine_checkpoint == terminal.quarantine_checkpoint
    &&& entry.last_action_outcome == Some(reconciliation_action_outcome(terminal.outcome))
}

/// Whether a memory is of the end of this repair of a persisted record.
pub open spec fn memory_fits_repair(
    entry: GuardianFailureMemoryEntryView,
    terminal: PersistedStateRepairTerminalView,
) -> bool {
    &&& entry.diagnosis_id == DiagnosisId::PersistedStateSchemaInvalid
    &&& entry.domain == GuardianDomain::State
    &&& entry.mode == GuardianMode::Managed
    &&& entry.ownership == OwnershipClass::LauncherManaged
    &&& entry.target == terminal.attempt.target
    &&& entry.user_intent_hash is None
    &&& entry.target_content_hash is None
    &&& entry.last_action_kind == Some(GuardianActionKind::Quarantine)
    &&& entry.last_action_outcome == Some(repair_action_outcome(terminal.outcome))
    &&& entry.first_observed_at == terminal.attempt.observed_at
    &&& entry.last_observed_at == terminal.attempt.observed_at
    &&& entry.occurrence_count == 1
    &&& entry.repair_attempt_count == 1
    &&& entry.suppression_until == Some(terminal.attempt.suppression_until)
    &&& entry.quarantine_checkpoint.records.len() == 0
}

/// The verdict on the identity, the target and the counters of a memory.
pub open spec fn subject_verdict(
    entry: GuardianFailureMemoryEntryView,
    rulings: LauncherRulingsView,
) -> MemoryVerdict {
    if !is_memory_fragment(entry.key) {
        Err(FailureMemoryValidationError::UnsafeKey)
    } else if entry.reconciliation_terminal is Some && entry.persisted_state_repair_terminal
        is Some {
        Err(FailureMemoryValidationError::PersistedStateRepairTerminalMismatch)
    } else if entry.key != expected_key(entry, rulings) {
        Err(FailureMemoryValidationError::MemoryKeyMismatch)
    } else if !is_memory_fragment(entry.target.id) {
        Err(FailureMemoryValidationError::UnsafeTargetId)
    } else if entry.ownership != entry.target.ownership {
        Err(FailureMemoryValidationError::OwnershipMismatch)
    } else if entry.occurrence_count == 0 {
        Err(FailureMemoryValidationError::ZeroOccurrences)
    } else {
        Ok(())
    }
}

/// The verdict on the times and the fragments of a memory.
pub open spec fn details_verdict(entry: GuardianFailureMemoryEntryView) -> MemoryVerdict {
    if !observations_are_in_order(entry) {
        Err(FailureMemoryValidationError::InvalidObservedTimestamp)
    } else if !entry.quarantine_checkpoint.bounded {
        Err(FailureMemoryValidationError::UnsafeTargetId)
    } else if entry.suppression_until matches Some(text) && text_instant(text) is None {
        Err(FailureMemoryValidationError::InvalidSuppressionTimestamp)
    } else if entry.target_content_hash matches Some(text) && !is_memory_fragment(text) {
        Err(FailureMemoryValidationError::UnsafeTargetHash)
    } else if entry.user_intent_hash matches Some(text) && !is_memory_fragment(text) {
        Err(FailureMemoryValidationError::UnsafeUserIntentHash)
    } else {
        Ok(())
    }
}

/// The verdict on the ends of repairs that a memory holds.
pub open spec fn ends_verdict(entry: GuardianFailureMemoryEntryView) -> MemoryVerdict {
    if entry.reconciliation_terminal matches Some(terminal) && !terminal.consistent {
        Err(FailureMemoryValidationError::InvalidReconciliationTerminal)
    } else if entry.reconciliation_terminal matches Some(terminal) && !memory_fits_terminal(
        entry,
        terminal,
    ) {
        Err(FailureMemoryValidationError::ReconciliationTerminalMismatch)
    } else if entry.persisted_state_repair_terminal matches Some(terminal)
        && !terminal.consistent {
        Err(FailureMemoryValidationError::InvalidPersistedStateRepairTerminal)
    } else if entry.persisted_state_repair_terminal matches Some(terminal) && !memory_fits_repair(
        entry,
        terminal,
    ) {
        Err(FailureMemoryValidationError::PersistedStateRepairTerminalMismatch)
    } else {
        Ok(())
    }
}

/// The verdict on what is remembered of a failure: the first error in the order in which it is
/// looked at.
pub open spec fn memory_verdict(
    entry: GuardianFailureMemoryEntryView,
    rulings: LauncherRulingsView,
) -> MemoryVerdict {
    match subject_verdict(entry, rulings) {
        Err(error) => Err(error),
        Ok(()) => match details_verdict(entry) {
            Err(error) => Err(error),
            Ok(()) => ends_verdict(entry),
        },
    }
}

fn optional_fragment_is_safe(value: &Option<String>) -> (r: bool)
    ensures
        r == (opt_view(*value) matches Some(text) ==> is_memory_fragment(text)),
{
    match value {
        Some(text) => is_safe_memory_fragment(text.as_str()),
        None => true,
    }
}

impl GuardianFailureMemoryEntry {
    fn expected_key(&self, rulings: &LauncherRulings) -> (r: FailureMemoryKey)
        ensures
            r@ == expected_key(self@, rulings@),
    {
        match &self.persisted_state_repair_terminal {
            Some(terminal) => {
                return FailureMemoryKey::for_persisted_state_repair(&terminal.attempt);
            },
            None => {},
        }
        match &self.reconciliation_terminal {
            Some(terminal) => {
                return FailureMemoryKey::for_reconciliation(
                    self.domain,
                    &self.diagnosis_id,
                    &self.target,
                    terminal,
                    rulings,
                );
            },
            None => {},
        }
        let intent = match &self.user_intent_hash {
            Some(text) => Some(text.as_str()),
            None => None,
        };
        FailureMemoryKey::for_observation(
            self.domain,
            &self.diagnosis_id,
            &self.target,
            self.mode,
            intent,
            rulings,
        )
    }

    fn validate_subject(&self, rulings: &LauncherRulings) -> (r: MemoryVerdict)
        ensures
            r == subject_verdict(self@, rulings@),
    {
        if !is_safe_memory_fragment(self.key.as_str()) {
            return Err(FailureMemoryValidationError::UnsafeKey);
        }
        if self.reconciliation_terminal.is_some() && self.persisted_state_repair_terminal.is_some() {
            return Err(FailureMemoryValidationError::PersistedStateRepairTerminalMismatch);
        }
        if !self.key.same(&self.expected_key(rulings)) {
            return Err(FailureMemoryValidationError::MemoryKeyMismatch);
        }
        if !is_safe_memory_fragment(self.target.id.as_str()) {
            return Err(FailureMemoryValidationError::UnsafeTargetId);
        }
        if self.ownership != self.target.ownership {
            return Err(FailureMemoryValidationError::OwnershipMismatch);
        }
        if self.occurrence_count == 0 {
            return Err(FailureMemoryValidationError::ZeroOccurrences);
        }
        Ok(())
    }

    fn validate_details(&self) -> (r: MemoryVerdict)
        ensures
            r == details_verdict(self@),
    {
        let in_order = match (
            parse_timestamp(self.first_observed_at.as_str()),
            parse_timestamp(self.last_observed_at.as_str()),
        ) {
            (Some(first), Some(last)) => !last.before(&first),
            _ => false,
        };
        if !in_order {
            return Err(FailureMemoryValidationError::InvalidObservedTimestamp);
        }
        if !self.quarantine_checkpoint.bounded {
            return Err(FailureMemoryValidationError::UnsafeTargetId);
        }
        match &self.suppression_until {
            Some(text) => {
                if parse_timestamp(text.as_str()).is_none() {
                    return Err(FailureMemoryValidationError::InvalidSuppressionTimestamp);
                }
            },
            None => {},
        }
        if !optional_fragment_is_safe(&self.target_content_hash) {
            return Err(FailureMemoryValidationError::UnsafeTargetHash);
        }
        if !optional_fragment_is_safe(&self.user_intent_hash) {
            return Err(FailureMemoryValidationError::UnsafeUserIntentHash);
        }
        Ok(())
    }

    fn acted(&self, kind: GuardianActionKind, outcome: FailureMemoryActionOutcome) -> (r: bool)
        ensures
            r == (self@.last_action_kind == Some(kind) && self@.last_action_outcome == Some(
                outcome,
            )),
    {
        match (self.last_action_kind, self.last_action_outcome) {
            (Some(a), Some(b)) => a == kind && b == outcome,
            _ => false,
        }
    }

    fn suppressed_until(&self, text: &str) -> (r: bool)
        ensures
            r == (self@.suppression_until == Some(text@)),
    {
        match &self.suppression_until {
            Some(until) => same_text(until.as_str(), text),
            None => false,
        }
    }

    fn fits_terminal(&self, terminal: &ReconciliationTerminal) -> (r: bool)
        ensures
            r == memory_fits_terminal(self@, terminal@),
    {
        let outcome = match terminal.outcome {
            ReconciliationTerminalOutcome::Succeeded => FailureMemoryActionOutcome::Repaired,
            ReconciliationTerminalOutcome::Failed => FailureMemoryActionOutcome::Failed,
        };
        self.mode == terminal.attempt.mode && self.diagnosis_id == terminal.attempt.diagnosis_id
            && self.domain == terminal.attempt.domain && self.ownership
            == terminal.attempt.ownership && self.target.ownership == terminal.attempt.ownership
            && self.target.same(&terminal.attempt.target) && self.user_intent_hash.is_none()
            && self.acted(GuardianActionKind::Repair, outcome) && self.repair_attempt_count > 0
            && self.last_observed_at.same(&terminal.attempt.observed_at) && self.suppressed_until(
            terminal.attempt.suppression_until.as_str(),
        ) && self.quarantine_checkpoint.same(&terminal.quarantine_checkpoint)
    }

    fn fits_repair(&self, terminal: &PersistedStateRepairTerminal) -> (r: bool)
        ensures
            r == memory_fits_repair(self@, terminal@),
    {
        let outcome = match terminal.outcome {
            PersistedStateRepairTerminalOutcome::Quarantined => {
                FailureMemoryActionOutcome::Repaired
            },
            _ => FailureMemoryActionOutcome::Failed,
        };
        self.diagnosis_id == DiagnosisId::PersistedStateSchemaInvalid && self.domain
            == GuardianDomain::State && self.mode == GuardianMode::Managed && self.ownership
            == OwnershipClass::LauncherManaged && self.target.same(&terminal.attempt.target)
            && self.user_intent_hash.is_none() && self.target_content_hash.is_none() && self.acted(
            GuardianActionKind::Quarantine,
            outcome,
        ) && self.first_observed_at.same(&terminal.attempt.observed_at)
            && self.last_observed_at.same(&terminal.attempt.observed_at) && self.occurrence_count
            == 1 && self.repair_attempt_count == 1 && self.suppressed_until(
            terminal.attempt.suppression_until.as_str(),
        ) && self.quarantine_checkpoint.records.len() == 0
    }

    fn validate_ends(&self) -> (r: MemoryVerdict)
        ensures
            r == ends_verdict(self@),
    {
        match &self.reconciliation_terminal {
            Some(terminal) => {
                if !terminal.consistent {
                    return Err(FailureMemoryValidationError::InvalidReconciliationTerminal);
                }
                if !self.fits_terminal(terminal) {
                    return Err(FailureMemoryValidationError::ReconciliationTerminalMismatch);
                }
            },
            None => {},
        }
        match &self.persisted_state_repair_terminal {
            Some(terminal) => {
                if !terminal.consistent {
                    return Err(FailureMemoryValidationError::InvalidPersistedStateRepairTerminal);
                }
                if !self.fits_repair(terminal) {
                    return Err(FailureMemoryValidationError::PersistedStateRepairTerminalMismatch);
                }
            },
            None => {},
        }
        Ok(())
    }

    /// Checks what is remembered of a failure.
    pub fn validate(&self, rulings: &LauncherRulings) -> (r: MemoryVerdict)
        ensures
            r == memory_verdict(self@, rulings@),
    {
        match self.validate_subject(rulings) {
            Ok(()) => {},
            Err(error) => {
                return Err(error);
            },
        }
        match self.validate_details() {
            Ok(()) => {},
            Err(error) => {
                return Err(error);
            },
        }
        self.validate_ends()
    }
}

/// The failures that are remembered.
#[derive(Clone, Debug, PartialEq, Eq)]
pub struct FailureMemorySnapshot {
    pub schema: String,
    pub entries: Vec<GuardianFailureMemoryEntry>,
}

/// The model of [`FailureMemorySnapshot`].
pub struct FailureMemorySnapshotView {
    pub schema: Seq<char>,
    pub entries: Seq<GuardianFailureMemoryEntryView>,
}

impl View for FailureMemorySnapshot {
    type V = FailureMemorySnapshotView;

    open spec fn view(&self) -> FailureMemorySnapshotView {
        FailureMemorySnapshotView { schema: self.schema@, entries: views(self.entries@) }
    }
}

/// The verdict on a snapshot of the failure memory, or on a part of it.
pub type MemoryLoadVerdict = Result<(), FailureMemoryLoadError>;

/// The verdict on the memory at an index, given the ones before it and the size of each.
pub open spec fn memory_row_verdict(
    entries: Seq<GuardianFailureMemoryEntryView>,
    sizes: Seq<u64>,
    i: int,
    rulings: LauncherRulingsView,
) -> MemoryLoadVerdict {
    if sizes[i] > MAX_FAILURE_MEMORY_ENTRY_BYTES {
        Err(FailureMemoryLoadError::TooLarge)
    } else if let Err(error) = memory_verdict(entries[i], rulings) {
        Err(FailureMemoryLoadError::InvalidEntry(error))
    } else if exists|j: int| 0 <= j < i && (#[trigger] entries[j]).key == entries[i].key {
        Err(FailureMemoryLoadError::DuplicateKey)
    } else {
        Ok(())
    }
}

/// The first error among the first `n` memories.
pub open spec fn memory_rows_verdict(
    entries: Seq<GuardianFailureMemoryEntryView>,
    sizes: Seq<u64>,
    n: nat,
    rulings: LauncherRulingsView,
) -> MemoryLoadVerdict
    decreases n,
{
    if n == 0 {
        Ok(())
    } else {
        match memory_rows_verdict(entries, sizes, (n - 1) as nat, rulings) {
            Ok(()) => memory_row_verdict(entries, sizes, n - 1, rulings),
            Err(error) => Err(error),
        }
    }
}

/// The verdict on a snapshot of the failure memory, given the size of each memory.
pub open spec fn memory_snapshot_verdict(
    snapshot: FailureMemorySnapshotView,
    sizes: Seq<u64>,
    rulings: LauncherRulingsView,
) -> MemoryLoadVerdict {
    if snapshot.schema != FAILURE_MEMORY_SCHEMA@ {
        Err(FailureMemoryLoadError::InvalidSchema)
    } else if snapshot.entries.len() > DEFAULT_FAILURE_MEMORY_LIMIT {
        Err(FailureMemoryLoadError::TooManyEntries)
    } else {
        memory_rows_verdict(snapshot.entries, sizes, snapshot.entries.len(), rulings)
    }
}

proof fn memory_row_error_stays(
    entries: Seq<GuardianFailureMemoryEntryView>,
    sizes: Seq<u64>,
    n: nat,
    m: nat,
    rulings: LauncherRulingsView,
)
    requires
        n <= m,
        memory_rows_verdict(entries, sizes, n, rulings) is Err,
    ensures
        memory_rows_verdict(entries, sizes, m, rulings) == memory_rows_verdict(
            entries,
            sizes,
            n,
            rulings,
        ),
    decreases m - n,
{
    if n < m {
        memory_row_error_stays(entries, sizes, n, (m - 1) as nat, rulings);
    }
}

proof fn memory_rows_are_in_order(
    entries: Seq<GuardianFailureMemoryEntryView>,
    sizes: Seq<u64>,
    n: nat,
    i: int,
    rulings: LauncherRulingsView,
)
    requires
        0 <= i < n,
        memory_rows_verdict(entries, sizes, n, rulings) is Ok,
    ensures
        memory_row_verdict(entries, sizes, i, rulings) is Ok,
    decreases n,
{
    if i < n - 1 {
        memory_rows_are_in_order(entries, sizes, (n - 1) as nat, i, rulings);
    }
}

/// In a snapshot that is in order every memory is valid and small enough, and no failure is
/// remembered twice.
pub proof fn memory_snapshot_in_order(
    snapshot: FailureMemorySnapshotView,
    sizes: Seq<u64>,
    rulings: LauncherRulingsView,
    i: int,
)
    requires
        memory_snapshot_verdict(snapshot, sizes, rulings) is Ok,
        0 <= i < snapshot.entries.len(),
    ensures
        memory_verdict(snapshot.entries[i], rulings) is Ok,
        sizes[i] <= MAX_FAILURE_MEMORY_ENTRY_BYTES,
        forall|j: int|
            0 <= j < snapshot.entries.len() && j != i ==> (#[trigger] snapshot.entries[j]).key
                != snapshot.entries[i].key,
{
    let entries = snapshot.entries;
    memory_rows_are_in_order(entries, sizes, entries.len(), i, rulings);
    assert forall|j: int| 0 <= j < entries.len() && j != i implies (#[trigger] entries[j]).key
        != entries[i].key by {
        memory_rows_are_in_order(entries, sizes, entries.len(), j, rulings);
    }
}

/// How many bytes these sizes make together.
pub open spec fn total_size(sizes: Seq<u64>) -> int
    decreases sizes.len(),
{
    if sizes.len() == 0 {
        0
    } else {
        total_size(sizes.drop_last()) + sizes.last()
    }
}

/// How many bytes the compact text of a snapshot takes, given the size of each memory.
pub open spec fn encoded_size(sizes: Seq<u64>) -> int {
    FAILURE_MEMORY_SNAPSHOT_FIXED_BYTES + total_size(sizes) + if sizes.len() > 1 {
        sizes.len() - 1
    } else {
        0
    }
}

proof fn small_sizes_add_up(sizes: Seq<u64>)
    requires
        forall|i: int| 0 <= i < sizes.len() ==> #[trigger] sizes[i] <= MAX_FAILURE_MEMORY_ENTRY_BYTES,
    ensures
        total_size(sizes) <= sizes.len() * MAX_FAILURE_MEMORY_ENTRY_BYTES,
    decreases sizes.len(),
{
    if sizes.len() > 0 {
        assert forall|i: int| 0 <= i < sizes.drop_last().len() implies #[trigger] sizes.drop_last()[i]
            <= MAX_FAILURE_MEMORY_ENTRY_BYTES by {
            assert(sizes.drop_last()[i] == sizes[i]);
        }
        small_sizes_add_up(sizes.drop_last());
        assert(sizes.last() <= MAX_FAILURE_MEMORY_ENTRY_BYTES);
    }
}

/// Texts with commas between them.
pub open spec fn comma_joined(texts: Seq<Seq<u8>>) -> Seq<u8>
    decreases texts.len(),
{
    if texts.len() == 0 {
        Seq::empty()
    } else if texts.len() == 1 {
        texts[0]
    } else {
        comma_joined(texts.drop_last()).push(44u8) + texts.last()
    }
}

/// The compact text of a snapshot, given the text of each memory.
pub open spec fn snapshot_text(texts: Seq<Seq<u8>>) -> Seq<u8> {
    text_bytes(FAILURE_MEMORY_SNAPSHOT_PREFIX@) + comma_joined(texts) + text_bytes(
        FAILURE_MEMORY_SNAPSHOT_SUFFIX@,
    )
}

proof fn joined_texts_len(texts: Seq<Seq<u8>>, sizes: Seq<u64>)
    requires
        sizes.len() == texts.len(),
        forall|i: int| 0 <= i < texts.len() ==> (#[trigger] texts[i]).len() == sizes[i],
    ensures
        comma_joined(texts).len() == total_size(sizes) + if sizes.len() > 1 {
            sizes.len() - 1
        } else {
            0
        },
    decreases texts.len(),
{
    if texts.len() > 0 {
        let first = texts.drop_last();
        assert forall|i: int| 0 <= i < first.len() implies (#[trigger] first[i]).len()
            == sizes.drop_last()[i] by {
            assert(first[i] == texts[i]);
        }
        joined_texts_len(first, sizes.drop_last());
        assert(texts[texts.len() - 1].len() == sizes.last());
    }
}

/// A snapshot that is in order fits the file that it is kept in: its text is as long as the sizes of
/// its memories say, and no longer than the file may be.
pub proof fn memory_snapshot_fits_its_file(
    snapshot: FailureMemorySnapshotView,
    texts: Seq<Seq<u8>>,
    sizes: Seq<u64>,
    rulings: LauncherRulingsView,
)
    requires
        memory_snapshot_verdict(snapshot, sizes, rulings) is Ok,
        sizes.len() == snapshot.entries.len(),
        texts.len() == sizes.len(),
        forall|i: int| 0 <= i < texts.len() ==> (#[trigger] texts[i]).len() == sizes[i],
    ensures
        snapshot_text(texts).len() == encoded_size(sizes),
        snapshot_text(texts).len() <= MAX_FAILURE_MEMORY_SNAPSHOT_BYTES,
{
    assert forall|i: int| 0 <= i < sizes.len() implies #[trigger] sizes[i]
        <= MAX_FAILURE_MEMORY_ENTRY_BYTES by {
        memory_snapshot_in_order(snapshot, sizes, rulings, i);
    }
    small_sizes_add_up(sizes);
    joined_texts_len(texts, sizes);
    reveal_strlit("{\"schema\":\"axial.guardian.failure_memory.v7\",\"entries\":[");
    reveal_strlit("]}");
}

/// The compact text of a snapshot, given the text of each memory.
pub fn assemble_snapshot(texts: &Vec<Vec<u8>>) -> (r: Vec<u8>)
    ensures
        r@ == snapshot_text(views(texts@)),
{
    let ghost all = views(texts@);
    let mut buffer: Vec<u8> = Vec::new();
    push_text(&mut buffer, FAILURE_MEMORY_SNAPSHOT_PREFIX);
    let ghost head = buffer@;
    let mut i: usize = 0;
    assert(buffer@ =~= head + comma_joined(all.subrange(0, 0)));
    while i < texts.len()
        invariant
            i <= texts.len(),
            all == views(texts@),
            buffer@ == head + comma_joined(all.subrange(0, i as int)),
        decreases texts.len() - i,
    {
        let ghost upto = all.subrange(0, i + 1);
        assert(upto.drop_last() =~= all.subrange(0, i as int));
        assert(upto.last() == texts@[i as int]@);
        if i > 0 {
            buffer.push(44u8);
        }
        push_bytes(&mut buffer, &texts[i]);
        assert(buffer@ =~= head + comma_joined(upto));
        i = i + 1;
    }
    assert(all.subrange(0, all.len() as int) =~= all);
    push_text(&mut buffer, FAILURE_MEMORY_SNAPSHOT_SUFFIX);
    assert(buffer@ =~= snapshot_text(all));
    buffer
}

/// The text of a snapshot as it goes to its file, unless it is larger than that file may be.
pub fn encode_snapshot(encoded: Vec<u8>) -> (r: Result<Vec<u8>, PersistenceFault>)
    ensures
        r == (if encoded.len() > MAX_FAILURE_MEMORY_SNAPSHOT_BYTES {
            Err::<Vec<u8>, _>(PersistenceFault::SnapshotTooLarge)
        } else {
            Ok(encoded)
        }),
{
    if encoded.len() as u64 > MAX_FAILURE_MEMORY_SNAPSHOT_BYTES {
        Err(PersistenceFault::SnapshotTooLarge)
    } else {
        Ok(encoded)
    }
}

impl FailureMemorySnapshot {
    /// A snapshot of these memories, if they are in order, given the size of each.
    pub fn new(
        entries: Vec<GuardianFailureMemoryEntry>,
        sizes: &Vec<u64>,
        rulings: &LauncherRulings,
    ) -> (r: Result<FailureMemorySnapshot, FailureMemoryLoadError>)
        requires
            sizes.len() == entries.len(),
        ensures
            ({
                let snapshot = FailureMemorySnapshotView {
                    schema: FAILURE_MEMORY_SCHEMA@,
                    entries: views(entries@),
                };
                match memory_snapshot_verdict(snapshot, sizes@, rulings@) {
                    Ok(()) => r matches Ok(made) && made@ == snapshot,
                    Err(error) => r == Err::<FailureMemorySnapshot, _>(error),
                }
            }),
    {
        let snapshot = FailureMemorySnapshot { schema: FAILURE_MEMORY_SCHEMA.to_owned(), entries };
        match snapshot.validate(sizes, rulings) {
            Ok(()) => Ok(snapshot),
            Err(error) => Err(error),
        }
    }

    /// Checks that a snapshot is in order, given the size of each memory.
    pub fn validate(&self, sizes: &Vec<u64>, rulings: &LauncherRulings) -> (r: MemoryLoadVerdict)
        requires
            sizes.len() == self.entries.len(),
        ensures
            r == memory_snapshot_verdict(self@, sizes@, rulings@),
    {
        if !same_text(self.schema.as_str(), FAILURE_MEMORY_SCHEMA) {
            return Err(FailureMemoryLoadError::InvalidSchema);
        }
        if self.entries.len() > DEFAULT_FAILURE_MEMORY_LIMIT {
            return Err(FailureMemoryLoadError::TooManyEntries);
        }
        let ghost all = self@.entries;
        let mut i: usize = 0;
        while i < self.entries.len()
            invariant
                i <= self.entries.len() <= DEFAULT_FAILURE_MEMORY_LIMIT,
                sizes.len() == self.entries.len(),
                all == self@.entries,
                self@.schema == FAILURE_MEMORY_SCHEMA@,
                memory_rows_verdict(all, sizes@, i as nat, rulings@) is Ok,
            decreases self.entries.len() - i,
        {
            match self.validate_row(sizes, i, rulings) {
                Ok(()) => {},
                Err(error) => {
                    proof {
                        memory_row_error_stays(
                            all,
                            sizes@,
                            (i + 1) as nat,
                            all.len(),
                            rulings@,
                        );
                    }
                    return Err(error);
                },
            }
            i = i + 1;
        }
        Ok(())
    }

    fn validate_row(&self, sizes: &Vec<u64>, i: usize, rulings: &LauncherRulings) -> (r:
        MemoryLoadVerdict)
        requires
            i < self.entries.len(),
            sizes.len() == self.entries.len(),
        ensures
            r == memory_row_verdict(self@.entries, sizes@, i as int, rulings@),
    {
        let ghost all = self@.entries;
        let entry = &self.entries[i];
        assert(all[i as int] == entry@);
        if sizes[i] > MAX_FAILURE_MEMORY_ENTRY_BYTES {
            return Err(FailureMemoryLoadError::TooLarge);
        }
        match entry.validate(rulings) {
            Ok(()) => {},
            Err(error) => {
                return Err(FailureMemoryLoadError::InvalidEntry(error));
            },
        }
        let mut j: usize = 0;
        while j < i
            invariant
                j <= i < self.entries.len(),
                sizes.len() == self.entries.len(),
                sizes@[i as int] <= MAX_FAILURE_MEMORY_ENTRY_BYTES,
                memory_verdict(entry@, rulings@) is Ok,
                all == self@.entries,
                entry@ == all[i as int],
                forall|k: int| 0 <= k < j ==> (#[trigger] all[k]).key != entry@.key,
            decreases i - j,
        {
            assert(all[j as int] == self.entries@[j as int]@);
            if self.entries[j].key.same(&entry.key) {
                return Err(FailureMemoryLoadError::DuplicateKey);
            }
            j = j + 1;
        }
        Ok(())
    }
}

} // verus!
