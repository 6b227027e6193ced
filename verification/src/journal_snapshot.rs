//! Snapshots of the journals.

use crate::entry::{OperationIntent, OperationJournalEntry, OperationJournalEntryView};
use crate::journal_errors::{OperationJournalLoadError, OperationJournalValidationError};
use crate::journal_validation::{
    entry_verdict, is_terminal, operation_journal_status_is_terminal, validate_entry,
};
use crate::performance::lifecycle_of;
use crate::record::views;
use crate::rulings::{LauncherRulings, LauncherRulingsView};
use crate::text::same_text;
use vstd::prelude::*;

verus! {

/// The name of the form in which journals are written down.
pub const OPERATION_JOURNAL_SCHEMA: &'static str = "axial.state.operation_journals.v10";

/// The journals that a store holds, and the sequence that it will assign next.
#[derive(Clone, Debug, PartialEq, Eq)]
pub struct OperationJournalSnapshot {
    pub schema: String,
    pub next_sequence: u64,
    pub entries: Vec<OperationJournalEntry>,
}

/// The model of [`OperationJournalSnapshot`].
pub struct OperationJournalSnapshotView {
    pub schema: Seq<char>,
    pub next_sequence: u64,
    pub entries: Seq<OperationJournalEntryView>,
}

impl View for OperationJournalSnapshot {
    type V = OperationJournalSnapshotView;

    open spec fn view(&self) -> OperationJournalSnapshotView {
        OperationJournalSnapshotView {
            schema: self.schema@,
            next_sequence: self.next_sequence,
            entries: views(self.entries@),
        }
    }
}

/// The verdict on a snapshot, or on a part of it.
pub type LoadVerdict = Result<(), OperationJournalLoadError>;

/// The instance whose performance operation is under way in this entry, if there is one.
pub open spec fn active_performance_instance(entry: OperationJournalEntryView) -> Option<
    Seq<char>,
> {
    if is_terminal(entry.status) {
        None
    } else {
        match lifecycle_of(entry) {
            Some(lifecycle) => Some(lifecycle.intent.instance_id),
            None => None,
        }
    }
}

/// The verdict on the entry at an index, given the entries before it.
pub open spec fn row_verdict(
    entries: Seq<OperationJournalEntryView>,
    i: int,
    rulings: LauncherRulingsView,
) -> LoadVerdict {
    let entry = entries[i];
    if let Err(error) = entry_verdict(entry, rulings) {
        Err(OperationJournalLoadError::InvalidEntry(error))
    } else if exists|j: int|
        0 <= j < i && (#[trigger] entries[j]).operation_id == entry.operation_id {
        Err(OperationJournalLoadError::DuplicateOperationId)
    } else if entry.sequence == 0 || exists|j: int|
        0 <= j < i && (#[trigger] entries[j]).sequence == entry.sequence {
        Err(OperationJournalLoadError::InvalidSequence)
    } else if active_performance_instance(entry) is Some && exists|j: int|
        0 <= j < i && active_performance_instance(#[trigger] entries[j])
            == active_performance_instance(entry) {
        Err(
            OperationJournalLoadError::InvalidEntry(
                OperationJournalValidationError::InvalidPerformanceLifecycle,
            ),
        )
    } else {
        Ok(())
    }
}

/// The first error among the first `n` entries.
pub open spec fn rows_verdict(
    entries: Seq<OperationJournalEntryView>,
    n: nat,
    rulings: LauncherRulingsView,
) -> LoadVerdict
    decreases n,
{
    if n == 0 {
        Ok(())
    } else {
        match rows_verdict(entries, (n - 1) as nat, rulings) {
            Ok(()) => row_verdict(entries, n - 1, rulings),
            Err(error) => Err(error),
        }
    }
}

/// The verdict on a snapshot.
pub open spec fn snapshot_verdict(
    snapshot: OperationJournalSnapshotView,
    rulings: LauncherRulingsView,
) -> LoadVerdict {
    if snapshot.schema != OPERATION_JOURNAL_SCHEMA@ {
        Err(OperationJournalLoadError::InvalidSchema)
    } else if let Err(error) = rows_verdict(snapshot.entries, snapshot.entries.len(), rulings) {
        Err(error)
    } else if snapshot.next_sequence == 0 || exists|i: int|
        0 <= i < snapshot.entries.len() && (#[trigger] snapshot.entries[i]).sequence
            >= snapshot.next_sequence {
        Err(OperationJournalLoadError::InvalidSequence)
    } else {
        Ok(())
    }
}

/// An error among the first entries is the error of the whole.
proof fn row_error_stays(
    entries: Seq<OperationJournalEntryView>,
    n: nat,
    m: nat,
    rulings: LauncherRulingsView,
)
    requires
        n <= m,
        rows_verdict(entries, n, rulings) is Err,
    ensures
        rows_verdict(entries, m, rulings) == rows_verdict(entries, n, rulings),
    decreases m - n,
{
    if n < m {
        row_error_stays(entries, n, (m - 1) as nat, rulings);
    }
}

proof fn rows_are_in_order(
    entries: Seq<OperationJournalEntryView>,
    n: nat,
    i: int,
    rulings: LauncherRulingsView,
)
    requires
        0 <= i < n,
        rows_verdict(entries, n, rulings) is Ok,
    ensures
        row_verdict(entries, i, rulings) is Ok,
    decreases n,
{
    if i < n - 1 {
        rows_are_in_order(entries, (n - 1) as nat, i, rulings);
    }
}

/// In a snapshot that is in order every entry is valid, no operation and no sequence occurs twice,
/// every sequence was assigned before the next one, and no instance has two performance operations
/// under way.
pub proof fn snapshot_in_order(
    snapshot: OperationJournalSnapshotView,
    rulings: LauncherRulingsView,
    i: int,
)
    requires
        snapshot_verdict(snapshot, rulings) is Ok,
        0 <= i < snapshot.entries.len(),
    ensures
        entry_verdict(snapshot.entries[i], rulings) is Ok,
        1 <= snapshot.entries[i].sequence < snapshot.next_sequence,
        forall|j: int|
            0 <= j < snapshot.entries.len() && j != i ==> {
                &&& (#[trigger] snapshot.entries[j]).operation_id
                    != snapshot.entries[i].operation_id
                &&& snapshot.entries[j].sequence != snapshot.entries[i].sequence
                &&& active_performance_instance(snapshot.entries[i]) is Some
                    ==> active_performance_instance(snapshot.entries[j])
                    != active_performance_instance(snapshot.entries[i])
            },
{
    let entries = snapshot.entries;
    rows_are_in_order(entries, entries.len(), i, rulings);
    assert(entries[i] == snapshot.entries[i]);
    assert forall|j: int| 0 <= j < entries.len() && j != i implies {
        &&& (#[trigger] entries[j]).operation_id != entries[i].operation_id
        &&& entries[j].sequence != entries[i].sequence
        &&& active_performance_instance(entries[i]) is Some ==> active_performance_instance(
            entries[j],
        ) != active_performance_instance(entries[i])
    } by {
        rows_are_in_order(entries, entries.len(), j, rulings);
    }
}

fn active_instance(entry: &OperationJournalEntry) -> (r: Option<&str>)
    ensures
        (match r {
            Some(text) => Some(text@),
            None => None,
        }) == active_performance_instance(entry@),
{
    if operation_journal_status_is_terminal(entry.status) {
        return None;
    }
    match &entry.intent {
        OperationIntent::Performance(lifecycle) => Some(lifecycle.intent.instance_id.as_str()),
        OperationIntent::Generic {  } => None,
    }
}

/// Whether two entries have a performance operation of the same instance under way.
pub fn same_active_performance(left: &OperationJournalEntry, right: &OperationJournalEntry) -> (r:
    bool)
    ensures
        r == (active_performance_instance(left@) is Some && active_performance_instance(left@)
            == active_performance_instance(right@)),
{
    match (active_instance(left), active_instance(right)) {
        (Some(a), Some(b)) => same_text(a, b),
        _ => false,
    }
}

impl OperationJournalSnapshot {
    /// A snapshot of these entries, if they are in order.
    pub fn new(
        entries: Vec<OperationJournalEntry>,
        next_sequence: u64,
        rulings: &LauncherRulings,
    ) -> (r: Result<OperationJournalSnapshot, OperationJournalLoadError>)
        ensures
            ({
                let snapshot = OperationJournalSnapshotView {
                    schema: OPERATION_JOURNAL_SCHEMA@,
                    next_sequence,
                    entries: views(entries@),
                };
                match snapshot_verdict(snapshot, rulings@) {
                    Ok(()) => r matches Ok(made) && made@ == snapshot,
                    Err(error) => r == Err::<OperationJournalSnapshot, _>(error),
                }
            }),
    {
        let snapshot = OperationJournalSnapshot {
            schema: OPERATION_JOURNAL_SCHEMA.to_owned(),
            next_sequence,
            entries,
        };
        match snapshot.validate(rulings) {
            Ok(()) => Ok(snapshot),
            Err(error) => Err(error),
        }
    }

    fn validate_row(&self, i: usize, rulings: &LauncherRulings) -> (r: LoadVerdict)
        requires
            i < self.entries.len(),
        ensures
            r == row_verdict(self@.entries, i as int, rulings@),
    {
        let ghost all = self@.entries;
        let entry = &self.entries[i];
        assert(all[i as int] == entry@);
        match validate_entry(entry, rulings) {
            Ok(()) => {},
            Err(error) => {
                return Err(OperationJournalLoadError::InvalidEntry(error));
            },
        }
        let mut same_operation = false;
        let mut same_sequence = false;
        let mut same_instance = false;
        let mut j: usize = 0;
        while j < i
            invariant
                j <= i < self.entries.len(),
                all == self@.entries,
                entry@ == all[i as int],
                same_operation == (exists|k: int|
                    0 <= k < j && (#[trigger] all[k]).operation_id == entry.operation_id),
                same_sequence == (exists|k: int|
                    0 <= k < j && (#[trigger] all[k]).sequence == entry.sequence),
                same_instance == (active_performance_instance(entry@) is Some && exists|k: int|
                    0 <= k < j && active_performance_instance(#[trigger] all[k])
                        == active_performance_instance(entry@)),
            decreases i - j,
        {
            let other = &self.entries[j];
            assert(all[j as int] == other@);
            same_operation = same_operation || other.operation_id == entry.operation_id;
            same_sequence = same_sequence || other.sequence == entry.sequence;
            same_instance = same_instance || same_active_performance(entry, other);
            j = j + 1;
        }
        if same_operation {
            return Err(OperationJournalLoadError::DuplicateOperationId);
        }
        if entry.sequence == 0 || same_sequence {
            return Err(OperationJournalLoadError::InvalidSequence);
        }
        if same_instance {
            return Err(
                OperationJournalLoadError::InvalidEntry(
                    OperationJournalValidationError::InvalidPerformanceLifecycle,
                ),
            );
        }
        Ok(())
    }

    /// Checks that a snapshot is in order.
    pub fn validate(&self, rulings: &LauncherRulings) -> (r: LoadVerdict)
        ensures
            r == snapshot_verdict(self@, rulings@),
    {
        if !same_text(self.schema.as_str(), OPERATION_JOURNAL_SCHEMA) {
            return Err(OperationJournalLoadError::InvalidSchema);
        }
        let ghost all = self@.entries;
        let mut maximum: u64 = 0;
        let mut i: usize = 0;
        while i < self.entries.len()
            invariant
                i <= self.entries.len(),
                all == self@.entries,
                self@.schema == OPERATION_JOURNAL_SCHEMA@,
                rows_verdict(all, i as nat, rulings@) is Ok,
                forall|k: int| 0 <= k < i ==> (#[trigger] all[k]).sequence <= maximum,
                maximum == 0 || exists|k: int|
                    0 <= k < i && (#[trigger] all[k]).sequence == maximum,
            decreases self.entries.len() - i,
        {
            assert(all[i as int] == self.entries@[i as int]@);
            match self.validate_row(i, rulings) {
                Ok(()) => {},
                Err(error) => {
                    proof {
                        row_error_stays(all, (i + 1) as nat, all.len(), rulings@);
                    }
                    return Err(error);
                },
            }
            if self.entries[i].sequence > maximum {
                maximum = self.entries[i].sequence;
            }
            i = i + 1;
        }
        if self.next_sequence == 0 || self.next_sequence <= maximum {
            return Err(OperationJournalLoadError::InvalidSequence);
        }
        Ok(())
    }
}

} // verus!
