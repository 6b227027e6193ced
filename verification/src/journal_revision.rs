//! The journals that a store holds at one moment, and the text in which they are written down.

use crate::contracts::OperationId;
use crate::entry::{OperationJournalEntry, OperationJournalEntryView};
use crate::journal_errors::{
    OperationJournalLoadError, OperationJournalStoreError, PersistenceFault,
};
use crate::journal_pruning::{prune_records, pruned, rules_for};
use crate::journal_snapshot::{
    OperationJournalSnapshot, OperationJournalSnapshotView, OPERATION_JOURNAL_SCHEMA,
};
use crate::ordered::{
    ascending, ascending_lists, listed_set_is_finite, listing_is_unique, lists, removal_lists,
};
use crate::record::{views, Record};
use crate::temporal::{BoundedTemporalPolicy, ClockView};
use crate::text::chars_of;
use im::OrdMap;
use std::sync::Arc;
use vstd::prelude::*;

verus! {

/// The largest size of a snapshot of the journals, in bytes.
pub const MAX_OPERATION_JOURNAL_SNAPSHOT_BYTES: u64 = 8_388_608;

/// How a snapshot begins, up to the next sequence.
pub const OPERATION_JOURNAL_SNAPSHOT_PREFIX: &'static str =
    "{\"schema\":\"axial.state.operation_journals.v10\",\"next_sequence\":";

/// What stands between the next sequence and the entries.
pub const OPERATION_JOURNAL_SNAPSHOT_ENTRIES_PREFIX: &'static str = ",\"entries\":[";

/// How a snapshot ends.
pub const OPERATION_JOURNAL_SNAPSHOT_SUFFIX: &'static str = "]}";

/// An entry, and the text in which it is written down.
pub struct AcceptedJournalEntry {
    pub entry: OperationJournalEntry,
    pub canonical: Vec<u8>,
}

/// The model of [`AcceptedJournalEntry`].
pub struct AcceptedJournalEntryView {
    pub entry: OperationJournalEntryView,
    pub canonical: Seq<u8>,
}

impl View for AcceptedJournalEntry {
    type V = AcceptedJournalEntryView;

    open spec fn view(&self) -> AcceptedJournalEntryView {
        AcceptedJournalEntryView { entry: self.entry@, canonical: self.canonical@ }
    }
}

/// The entries of a revision by the value of their operation.
pub type JournalMap = Map<u128, AcceptedJournalEntryView>;

/// No entries at all.
pub open spec fn no_entries() -> JournalMap {
    Map::empty()
}

/// The persistent ordered map of the `im` crate.
#[verifier::external_type_specification]
#[verifier::external_body]
#[verifier::reject_recursive_types(K)]
#[verifier::reject_recursive_types(V)]
pub struct ExOrdMap<K, V>(OrdMap<K, V>);

/// What a persistent map holds.
pub uninterp spec fn contents(map: OrdMap<u128, Arc<AcceptedJournalEntry>>) -> Map<
    u128,
    AcceptedJournalEntryView,
>;

/// `im::OrdMap::new`: a map that holds nothing.
#[verifier::external_body]
pub(crate) fn map_new() -> (r: OrdMap<u128, Arc<AcceptedJournalEntry>>)
    ensures
        contents(r) == no_entries(),
{
    OrdMap::new()
}

/// `im::OrdMap::clone`: a map that holds the same.
#[verifier::external_body]
pub(crate) fn map_clone(map: &OrdMap<u128, Arc<AcceptedJournalEntry>>) -> (r: OrdMap<
    u128,
    Arc<AcceptedJournalEntry>,
>)
    ensures
        contents(r) == contents(*map),
{
    map.clone()
}

/// `im::OrdMap::len`: how many keys the map holds.
#[verifier::external_body]
pub(crate) fn map_len(map: &OrdMap<u128, Arc<AcceptedJournalEntry>>) -> (r: usize)
    ensures
        r == contents(*map).dom().len(),
{
    map.len()
}

/// `im::OrdMap::get`: what the map holds under a key.
#[verifier::external_body]
pub(crate) fn map_get(map: &OrdMap<u128, Arc<AcceptedJournalEntry>>, key: u128) -> (r: Option<
    &AcceptedJournalEntry,
>)
    ensures
        r is Some <==> contents(*map).contains_key(key),
        r matches Some(value) ==> value@ == contents(*map)[key],
{
    map.get(&key).map(|value| value.as_ref())
}

/// `im::OrdMap::insert`: puts a value under a key, in place of what stood there.
#[verifier::external_body]
pub(crate) fn map_insert(
    map: &mut OrdMap<u128, Arc<AcceptedJournalEntry>>,
    key: u128,
    value: AcceptedJournalEntry,
)
    ensures
        contents(*final(map)) == contents(*old(map)).insert(key, value@),
{
    map.insert(key, Arc::new(value));
}

/// `im::OrdMap::remove`: takes a key and its value out of the map.
#[verifier::external_body]
pub(crate) fn map_remove(map: &mut OrdMap<u128, Arc<AcceptedJournalEntry>>, key: u128)
    ensures
        contents(*final(map)) == contents(*old(map)).remove(key),
{
    map.remove(&key);
}

/// `im::OrdMap::keys`: the keys of the map in ascending order.
#[verifier::external_body]
pub(crate) fn map_keys(map: &OrdMap<u128, Arc<AcceptedJournalEntry>>) -> (r: Vec<u128>)
    ensures
        lists(r@, contents(*map).dom()),
{
    map.keys().copied().collect()
}

/// How many bytes the texts of these entries take.
pub open spec fn bytes_at(map: JournalMap, keys: Seq<u128>) -> nat
    decreases keys.len(),
{
    if keys.len() == 0 {
        0
    } else {
        bytes_at(map, keys.drop_last()) + map[keys.last()].canonical.len()
    }
}

/// How many bytes the texts of all entries take.
pub open spec fn bytes_of(map: JournalMap) -> nat {
    bytes_at(map, ascending(map.dom()))
}

proof fn bytes_agree(a: JournalMap, b: JournalMap, keys: Seq<u128>)
    requires
        forall|i: int| 0 <= i < keys.len() ==> a[#[trigger] keys[i]] == b[keys[i]],
    ensures
        bytes_at(a, keys) == bytes_at(b, keys),
    decreases keys.len(),
{
    if keys.len() > 0 {
        assert(a[keys[keys.len() - 1]] == b[keys[keys.len() - 1]]);
        assert forall|i: int| 0 <= i < keys.drop_last().len() implies a[#[trigger] keys.drop_last()[i]]
            == b[keys.drop_last()[i]] by {
            assert(keys.drop_last()[i] == keys[i]);
        }
        bytes_agree(a, b, keys.drop_last());
    }
}

proof fn bytes_without(map: JournalMap, keys: Seq<u128>, at: int)
    requires
        0 <= at < keys.len(),
    ensures
        bytes_at(map, keys) == bytes_at(map, keys.remove(at)) + map[keys[at]].canonical.len(),
    decreases keys.len(),
{
    if at == keys.len() - 1 {
        assert(keys.remove(at) =~= keys.drop_last());
    } else {
        bytes_without(map, keys.drop_last(), at);
        assert(keys.remove(at).drop_last() =~= keys.drop_last().remove(at));
        assert(keys.remove(at).last() == keys.last());
    }
}

/// What leaves takes its bytes with it.
pub proof fn bytes_after_removal(map: JournalMap, key: u128)
    requires
        map.dom().finite(),
        map.contains_key(key),
    ensures
        bytes_of(map) == bytes_of(map.remove(key)) + map[key].canonical.len(),
{
    let keys = ascending(map.dom());
    ascending_lists(map.dom());
    assert(keys.contains(key));
    let at = choose|i: int| 0 <= i < keys.len() && keys[i] == key;
    bytes_without(map, keys, at);
    removal_lists(keys, map.dom(), at);
    let less = map.remove(key);
    assert(less.dom() =~= map.dom().remove(key));
    let rest = keys.remove(at);
    assert forall|i: int| 0 <= i < rest.len() implies map[#[trigger] rest[i]] == less[rest[i]] by {
        assert(rest.contains(rest[i]));
        assert(map.dom().remove(key).contains(rest[i]));
    }
    bytes_agree(map, less, rest);
}

/// What is put in adds its bytes, and what it replaces takes its own away.
pub proof fn bytes_after_insertion(map: JournalMap, key: u128, value: AcceptedJournalEntryView)
    requires
        map.dom().finite(),
    ensures
        bytes_of(map.insert(key, value)) == bytes_of(map.remove(key)) + value.canonical.len(),
        map.contains_key(key) ==> bytes_of(map.insert(key, value)) == bytes_of(map)
            - map[key].canonical.len() + value.canonical.len(),
        !map.contains_key(key) ==> bytes_of(map.insert(key, value)) == bytes_of(map)
            + value.canonical.len(),
{
    let more = map.insert(key, value);
    bytes_after_removal(more, key);
    assert(more.remove(key) =~= map.remove(key));
    if map.contains_key(key) {
        bytes_after_removal(map, key);
    } else {
        assert(map.remove(key) =~= map);
    }
}

/// A text of plain characters as bytes.
pub open spec fn text_bytes(text: Seq<char>) -> Seq<u8> {
    Seq::new(text.len(), |i: int| text[i] as u8)
}

/// A number in decimal digits.
pub open spec fn decimal(n: nat) -> Seq<u8>
    decreases n,
{
    if n < 10 {
        seq![(48 + n) as u8]
    } else {
        decimal(n / 10).push((48 + n % 10) as u8)
    }
}

/// The texts of these entries, with commas between them.
pub open spec fn joined(map: JournalMap, keys: Seq<u128>) -> Seq<u8>
    decreases keys.len(),
{
    if keys.len() == 0 {
        Seq::empty()
    } else if keys.len() == 1 {
        map[keys[0]].canonical
    } else {
        joined(map, keys.drop_last()).push(44u8) + map[keys.last()].canonical
    }
}

/// The text in which the journals are written down.
pub open spec fn encoded(map: JournalMap, next_sequence: u64) -> Seq<u8> {
    text_bytes(OPERATION_JOURNAL_SNAPSHOT_PREFIX@) + decimal(next_sequence as nat) + text_bytes(
        OPERATION_JOURNAL_SNAPSHOT_ENTRIES_PREFIX@,
    ) + joined(map, ascending(map.dom())) + text_bytes(OPERATION_JOURNAL_SNAPSHOT_SUFFIX@)
}

proof fn joined_len(map: JournalMap, keys: Seq<u128>)
    ensures
        joined(map, keys).len() == bytes_at(map, keys) + (if keys.len() == 0 {
            0
        } else {
            keys.len() - 1
        }),
    decreases keys.len(),
{
    if keys.len() == 1 {
        assert(bytes_at(map, keys.drop_last()) == 0);
        assert(keys.last() == keys[0]);
    } else if keys.len() > 1 {
        joined_len(map, keys.drop_last());
    }
}

/// The length of the text in which the journals are written down.
pub proof fn encoded_length(map: JournalMap, next_sequence: u64)
    requires
        map.dom().finite(),
    ensures
        encoded(map, next_sequence).len() == OPERATION_JOURNAL_SNAPSHOT_PREFIX@.len() + decimal(
            next_sequence as nat,
        ).len() + OPERATION_JOURNAL_SNAPSHOT_ENTRIES_PREFIX@.len() + (if map.dom().len() == 0 {
            0
        } else {
            map.dom().len() - 1
        }) + bytes_of(map) + OPERATION_JOURNAL_SNAPSHOT_SUFFIX@.len(),
{
    let keys = ascending(map.dom());
    ascending_lists(map.dom());
    listed_set_is_finite(keys, map.dom());
    joined_len(map, keys);
}

/// Whether the journals can be written down within the bound.
pub open spec fn fits(map: JournalMap, next_sequence: u64) -> bool {
    encoded(map, next_sequence).len() <= MAX_OPERATION_JOURNAL_SNAPSHOT_BYTES
}

/// The fault of a snapshot that is larger than it may be.
pub open spec fn too_large() -> OperationJournalStoreError {
    OperationJournalStoreError::Persistence(PersistenceFault::SnapshotTooLarge)
}

/// The journals that a store holds at one moment.
pub struct AcceptedJournalRevision {
    entries: OrdMap<u128, Arc<AcceptedJournalEntry>>,
    entries_bytes: usize,
    next_sequence: u64,
    next_sequence_bytes: Vec<u8>,
    encoded_len: usize,
}

/// The model of [`AcceptedJournalRevision`].
pub struct AcceptedJournalRevisionView {
    pub entries: JournalMap,
    pub next_sequence: u64,
}

impl View for AcceptedJournalRevision {
    type V = AcceptedJournalRevisionView;

    closed spec fn view(&self) -> AcceptedJournalRevisionView {
        AcceptedJournalRevisionView {
            entries: contents(self.entries),
            next_sequence: self.next_sequence,
        }
    }
}

fn decimal_bytes(n: u64) -> (r: Vec<u8>)
    ensures
        r@ == decimal(n as nat),
    decreases n,
{
    if n < 10 {
        let mut r: Vec<u8> = Vec::new();
        r.push(48u8 + n as u8);
        assert(r@ =~= decimal(n as nat));
        r
    } else {
        let mut r = decimal_bytes(n / 10);
        r.push(48u8 + (n % 10) as u8);
        r
    }
}

/// Puts a text of plain characters at the end of some bytes.
pub(crate) fn push_text(buffer: &mut Vec<u8>, text: &str)
    ensures
        final(buffer)@ == old(buffer)@ + text_bytes(text@),
{
    let chars = chars_of(text);
    let mut i: usize = 0;
    assert(buffer@ =~= old(buffer)@ + text_bytes(text@).subrange(0, 0));
    while i < chars.len()
        invariant
            i <= chars.len(),
            chars@ == text@,
            buffer@ == old(buffer)@ + text_bytes(text@).subrange(0, i as int),
        decreases chars.len() - i,
    {
        #[verifier::truncate]
        let byte: u8 = chars[i] as u8;
        buffer.push(byte);
        assert(buffer@ =~= old(buffer)@ + text_bytes(text@).subrange(0, i + 1));
        i = i + 1;
    }
    assert(text_bytes(text@).subrange(0, text@.len() as int) =~= text_bytes(text@));
}

/// Puts bytes at the end of others.
pub(crate) fn push_bytes(buffer: &mut Vec<u8>, bytes: &Vec<u8>)
    ensures
        final(buffer)@ == old(buffer)@ + bytes@,
{
    let mut i: usize = 0;
    assert(buffer@ =~= old(buffer)@ + bytes@.subrange(0, 0));
    while i < bytes.len()
        invariant
            i <= bytes.len(),
            buffer@ == old(buffer)@ + bytes@.subrange(0, i as int),
        decreases bytes.len() - i,
    {
        buffer.push(bytes[i]);
        assert(buffer@ =~= old(buffer)@ + bytes@.subrange(0, i + 1));
        i = i + 1;
    }
    assert(bytes@.subrange(0, bytes@.len() as int) =~= bytes@);
}

/// How many bytes the entries take once one of them has been replaced.
pub fn checked_replaced_entries_bytes(
    entries_bytes: usize,
    previous_bytes: usize,
    replacement_bytes: usize,
) -> (r: Result<usize, OperationJournalStoreError>)
    ensures
        r == (if previous_bytes <= entries_bytes && entries_bytes - previous_bytes
            + replacement_bytes <= usize::MAX {
            Ok::<usize, OperationJournalStoreError>(
                (entries_bytes - previous_bytes + replacement_bytes) as usize,
            )
        } else {
            Err(too_large())
        }),
{
    if previous_bytes > entries_bytes {
        return Err(OperationJournalStoreError::Persistence(PersistenceFault::SnapshotTooLarge));
    }
    match (entries_bytes - previous_bytes).checked_add(replacement_bytes) {
        Some(total) => Ok(total),
        None => Err(OperationJournalStoreError::Persistence(PersistenceFault::SnapshotTooLarge)),
    }
}

/// What a revision becomes when an entry is put into it: the oldest journals that may give way leave
/// until at most `max` are left.
pub open spec fn candidate(
    map: JournalMap,
    value: AcceptedJournalEntryView,
    next_sequence: u64,
    protected: Option<u128>,
    max: nat,
    now: ClockView,
) -> Result<JournalMap, OperationJournalStoreError> {
    let more = map.insert(value.entry.operation_id.value, value);
    if bytes_of(more) > usize::MAX {
        Err(too_large())
    } else {
        match pruned(more, max, rules_for(more, protected, now)) {
            None => Err(OperationJournalStoreError::CapacityExhausted),
            Some(left) => if fits(left, next_sequence) {
                Ok(left)
            } else {
                Err(too_large())
            },
        }
    }
}

/// A map into which entries have been put one after the other.
pub open spec fn inserted(map: JournalMap, values: Seq<AcceptedJournalEntryView>) -> JournalMap
    decreases values.len(),
{
    if values.len() == 0 {
        map
    } else {
        inserted(map, values.drop_last()).insert(
            values.last().entry.operation_id.value,
            values.last(),
        )
    }
}

/// What a revision becomes when entries are replaced and none leaves.
pub open spec fn replaced(
    map: JournalMap,
    values: Seq<AcceptedJournalEntryView>,
    next_sequence: u64,
) -> Result<JournalMap, OperationJournalStoreError> {
    let map_after = inserted(map, values);
    if (exists|n: int|
        0 <= n <= values.len() && #[trigger] bytes_of(inserted(map, values.subrange(0, n)))
            > usize::MAX) || !fits(map_after, next_sequence) {
        Err(too_large())
    } else {
        Ok(map_after)
    }
}

/// The entries of a revision in the order of their operations.
pub open spec fn listed(map: JournalMap) -> Seq<OperationJournalEntryView> {
    let keys = ascending(map.dom());
    Seq::new(keys.len(), |i: int| map[keys[i]].entry)
}

impl AcceptedJournalRevision {
    #[verifier::type_invariant]
    spec fn well_formed(self) -> bool {
        &&& contents(self.entries).dom().finite()
        &&& self.entries_bytes == bytes_of(contents(self.entries))
        &&& self.next_sequence_bytes@ == decimal(self.next_sequence as nat)
        &&& self.encoded_len == encoded(contents(self.entries), self.next_sequence).len()
        &&& self.encoded_len <= MAX_OPERATION_JOURNAL_SNAPSHOT_BYTES
    }

    /// A revision without entries.
    pub fn empty() -> (r: AcceptedJournalRevision)
        ensures
            r@ == (AcceptedJournalRevisionView { entries: no_entries(), next_sequence: 1 }),
            r@.entries.dom().finite(),
    {
        let entries = map_new();
        proof {
            reveal_strlit("{\"schema\":\"axial.state.operation_journals.v10\",\"next_sequence\":");
            reveal_strlit(",\"entries\":[");
            reveal_strlit("]}");
            let map = contents(entries);
            assert(map.dom() =~= Set::empty());
            ascending_lists(map.dom());
            listed_set_is_finite(ascending(map.dom()), map.dom());
            encoded_length(map, 1);
        }
        let mut prefix: Vec<u8> = Vec::new();
        push_text(&mut prefix, OPERATION_JOURNAL_SNAPSHOT_PREFIX);
        push_text(&mut prefix, OPERATION_JOURNAL_SNAPSHOT_ENTRIES_PREFIX);
        push_text(&mut prefix, OPERATION_JOURNAL_SNAPSHOT_SUFFIX);
        AcceptedJournalRevision {
            entries,
            entries_bytes: 0,
            next_sequence: 1,
            next_sequence_bytes: decimal_bytes(1),
            encoded_len: prefix.len() + 1,
        }
    }

    /// A revision of these entries, if they can be written down within the bound.
    fn accept_changed(
        entries: OrdMap<u128, Arc<AcceptedJournalEntry>>,
        next_sequence: u64,
        entries_bytes: usize,
    ) -> (r: Result<AcceptedJournalRevision, OperationJournalStoreError>)
        requires
            contents(entries).dom().finite(),
            entries_bytes == bytes_of(contents(entries)),
        ensures
            match r {
                Ok(made) => {
                    &&& fits(contents(entries), next_sequence)
                    &&& made@.entries == contents(entries)
                    &&& made@.next_sequence == next_sequence
                },
                Err(error) => !fits(contents(entries), next_sequence) && error == too_large(),
            },
    {
        let next_sequence_bytes = decimal_bytes(next_sequence);
        let count: usize = map_len(&entries);
        let commas: usize = if count == 0 {
            0
        } else {
            count - 1
        };
        let mut frame: Vec<u8> = Vec::new();
        push_text(&mut frame, OPERATION_JOURNAL_SNAPSHOT_PREFIX);
        push_text(&mut frame, OPERATION_JOURNAL_SNAPSHOT_ENTRIES_PREFIX);
        push_text(&mut frame, OPERATION_JOURNAL_SNAPSHOT_SUFFIX);
        proof {
            encoded_length(contents(entries), next_sequence);
        }
        let total: u128 = frame.len() as u128 + next_sequence_bytes.len() as u128 + commas as u128
            + entries_bytes as u128;
        if total > MAX_OPERATION_JOURNAL_SNAPSHOT_BYTES as u128 {
            return Err(OperationJournalStoreError::Persistence(PersistenceFault::SnapshotTooLarge));
        }
        Ok(
            AcceptedJournalRevision {
                entries,
                entries_bytes,
                next_sequence,
                next_sequence_bytes,
                encoded_len: total as usize,
            },
        )
    }

    /// A revision of these entries as they were read, if they can be written down within the bound.
    fn accept_loaded(
        entries: OrdMap<u128, Arc<AcceptedJournalEntry>>,
        next_sequence: u64,
    ) -> (r: Result<AcceptedJournalRevision, OperationJournalStoreError>)
        requires
            contents(entries).dom().finite(),
        ensures
            match r {
                Ok(made) => {
                    &&& fits(contents(entries), next_sequence)
                    &&& made@.entries == contents(entries)
                    &&& made@.next_sequence == next_sequence
                },
                Err(error) => !fits(contents(entries), next_sequence) && error == too_large(),
            },
    {
        let keys = map_keys(&entries);
        let ghost map = contents(entries);
        proof {
            listing_is_unique(keys@, ascending(map.dom()), map.dom());
            encoded_length(map, next_sequence);
        }
        let mut total: usize = 0;
        let mut i: usize = 0;
        assert(keys@.subrange(0, 0) =~= Seq::empty());
        while i < keys.len()
            invariant
                i <= keys.len(),
                map == contents(entries),
                map.dom().finite(),
                lists(keys@, map.dom()),
                bytes_of(map) == bytes_at(map, keys@),
                total == bytes_at(map, keys@.subrange(0, i as int)),
                encoded(map, next_sequence).len() >= bytes_of(map),
            decreases keys.len() - i,
        {
            assert(keys@.contains(keys@[i as int]));
            assert(keys@.subrange(0, i + 1).drop_last() =~= keys@.subrange(0, i as int));
            assert(keys@.subrange(0, i + 1).last() == keys@[i as int]);
            let bytes: usize = match map_get(&entries, keys[i]) {
                Some(accepted) => accepted.canonical.len(),
                None => 0,
            };
            match total.checked_add(bytes) {
                Some(sum) => {
                    total = sum;
                },
                None => {
                    proof {
                        bytes_grow(map, keys@, i + 1);
                    }
                    return Err(
                        OperationJournalStoreError::Persistence(PersistenceFault::SnapshotTooLarge),
                    );
                },
            }
            i = i + 1;
        }
        assert(keys@.subrange(0, keys@.len() as int) =~= keys@);
        AcceptedJournalRevision::accept_changed(entries, next_sequence, total)
    }

    /// The revision again.
    pub fn duplicate(&self) -> (r: AcceptedJournalRevision)
        ensures
            r@ == self@,
    {
        proof {
            use_type_invariant(self);
        }
        let mut next_sequence_bytes: Vec<u8> = Vec::new();
        push_bytes(&mut next_sequence_bytes, &self.next_sequence_bytes);
        assert(next_sequence_bytes@ =~= self.next_sequence_bytes@);
        AcceptedJournalRevision {
            entries: map_clone(&self.entries),
            entries_bytes: self.entries_bytes,
            next_sequence: self.next_sequence,
            next_sequence_bytes,
            encoded_len: self.encoded_len,
        }
    }

    /// The sequence that is assigned next.
    pub fn next_sequence(&self) -> (r: u64)
        ensures
            r == self@.next_sequence,
    {
        self.next_sequence
    }

    /// The length of the text in which the revision is written down. It is within the bound.
    pub fn encoded_len(&self) -> (r: usize)
        ensures
            r == encoded(self@.entries, self@.next_sequence).len(),
            fits(self@.entries, self@.next_sequence),
    {
        proof {
            use_type_invariant(self);
        }
        self.encoded_len
    }

    /// The operations whose journals the revision holds, in ascending order.
    pub fn keys(&self) -> (r: Vec<u128>)
        ensures
            r@ == ascending(self@.entries.dom()),
            lists(r@, self@.entries.dom()),
            self@.entries.dom().finite(),
    {
        proof {
            use_type_invariant(self);
        }
        let keys = map_keys(&self.entries);
        proof {
            listing_is_unique(
                keys@,
                ascending(contents(self.entries).dom()),
                contents(self.entries).dom(),
            );
        }
        keys
    }

    /// The journal of an operation, if the revision holds it.
    pub fn entry(&self, operation_id: &OperationId) -> (r: Option<&OperationJournalEntry>)
        ensures
            match r {
                Some(entry) => self@.entries.contains_key(operation_id.value) && entry@
                    == self@.entries[operation_id.value].entry,
                None => !self@.entries.contains_key(operation_id.value),
            },
    {
        match map_get(&self.entries, operation_id.value) {
            Some(accepted) => Some(&accepted.entry),
            None => None,
        }
    }

    /// All journals of the revision, in the order of their operations.
    pub fn list(&self) -> (r: Vec<OperationJournalEntry>)
        ensures
            views(r@) == listed(self@.entries),
    {
        let keys = self.keys();
        let ghost map = self@.entries;
        let mut r: Vec<OperationJournalEntry> = Vec::new();
        let mut i: usize = 0;
        while i < keys.len()
            invariant
                i <= keys.len(),
                map == contents(self.entries),
                keys@ == ascending(map.dom()),
                lists(keys@, map.dom()),
                r.len() == i,
                forall|k: int| 0 <= k < i ==> (#[trigger] r@[k])@ == map[keys@[k]].entry,
            decreases keys.len() - i,
        {
            assert(keys@.contains(keys@[i as int]));
            match map_get(&self.entries, keys[i]) {
                Some(accepted) => {
                    r.push(accepted.entry.duplicate());
                },
                None => {},
            }
            i = i + 1;
        }
        assert(views(r@) =~= listed(map));
        r
    }

    /// The snapshot of the revision.
    pub fn snapshot(&self) -> (r: OperationJournalSnapshot)
        ensures
            r@ == (OperationJournalSnapshotView {
                schema: OPERATION_JOURNAL_SCHEMA@,
                next_sequence: self@.next_sequence,
                entries: listed(self@.entries),
            }),
    {
        OperationJournalSnapshot {
            schema: OPERATION_JOURNAL_SCHEMA.to_owned(),
            next_sequence: self.next_sequence,
            entries: self.list(),
        }
    }

    /// The text in which the revision is written down.
    pub fn assemble(&self) -> (r: Vec<u8>)
        ensures
            r@ == encoded(self@.entries, self@.next_sequence),
    {
        proof {
            use_type_invariant(self);
        }
        let keys = self.keys();
        let ghost map = self@.entries;
        let mut buffer: Vec<u8> = Vec::new();
        push_text(&mut buffer, OPERATION_JOURNAL_SNAPSHOT_PREFIX);
        push_bytes(&mut buffer, &self.next_sequence_bytes);
        push_text(&mut buffer, OPERATION_JOURNAL_SNAPSHOT_ENTRIES_PREFIX);
        let ghost head = buffer@;
        let mut i: usize = 0;
        assert(keys@.subrange(0, 0) =~= Seq::empty());
        assert(buffer@ =~= head + joined(map, keys@.subrange(0, 0)));
        while i < keys.len()
            invariant
                i <= keys.len(),
                map == contents(self.entries),
                lists(keys@, map.dom()),
                buffer@ == head + joined(map, keys@.subrange(0, i as int)),
            decreases keys.len() - i,
        {
            assert(keys@.contains(keys@[i as int]));
            let ghost upto = keys@.subrange(0, i + 1);
            assert(upto.drop_last() =~= keys@.subrange(0, i as int));
            assert(upto.last() == keys@[i as int]);
            if i > 0 {
                buffer.push(44u8);
            }
            match map_get(&self.entries, keys[i]) {
                Some(accepted) => {
                    push_bytes(&mut buffer, &accepted.canonical);
                },
                None => {},
            }
            assert(buffer@ =~= head + joined(map, upto));
            i = i + 1;
        }
        assert(keys@.subrange(0, keys@.len() as int) =~= keys@);
        push_text(&mut buffer, OPERATION_JOURNAL_SNAPSHOT_SUFFIX);
        assert(buffer@ =~= encoded(map, self@.next_sequence));
        buffer
    }

    /// The revision with an entry put into it, in place of the one of the same operation.
    pub fn with_entry(
        &self,
        accepted: AcceptedJournalEntry,
        next_sequence: u64,
        protect: bool,
        max_entries: usize,
        temporal: &BoundedTemporalPolicy,
    ) -> (r: Result<AcceptedJournalRevision, OperationJournalStoreError>)
        ensures
            ({
                let key = accepted@.entry.operation_id.value;
                let protected = if protect {
                    Some(key)
                } else {
                    None
                };
                match candidate(
                    self@.entries,
                    accepted@,
                    next_sequence,
                    protected,
                    max_entries as nat,
                    temporal@,
                ) {
                    Ok(left) => r matches Ok(made) && made@ == (AcceptedJournalRevisionView {
                        entries: left,
                        next_sequence,
                    }),
                    Err(error) => r == Err::<AcceptedJournalRevision, _>(error),
                }
            }),
    {
        proof {
            use_type_invariant(self);
            bytes_after_insertion(
                contents(self.entries),
                accepted@.entry.operation_id.value,
                accepted@,
            );
        }
        let key: u128 = accepted.entry.operation_id.value;
        let protected: Option<u128> = if protect {
            Some(key)
        } else {
            None
        };
        let bytes: usize = accepted.canonical.len();
        let total: usize = match map_get(&self.entries, key) {
            Some(existing) => {
                proof {
                    bytes_after_removal(contents(self.entries), key);
                }
                match checked_replaced_entries_bytes(
                    self.entries_bytes,
                    existing.canonical.len(),
                    bytes,
                ) {
                    Ok(total) => total,
                    Err(error) => {
                        return Err(error);
                    },
                }
            },
            None => match self.entries_bytes.checked_add(bytes) {
                Some(total) => total,
                None => {
                    return Err(
                        OperationJournalStoreError::Persistence(PersistenceFault::SnapshotTooLarge),
                    );
                },
            },
        };
        let mut entries = map_clone(&self.entries);
        map_insert(&mut entries, key, accepted);
        match prune_records(&mut entries, max_entries, protected, temporal) {
            None => Err(OperationJournalStoreError::CapacityExhausted),
            Some(removed) => AcceptedJournalRevision::accept_changed(
                entries,
                next_sequence,
                total - removed,
            ),
        }
    }

    /// The revision with entries replaced one after the other.
    pub fn with_replaced(&self, values: Vec<AcceptedJournalEntry>) -> (r: Result<
        AcceptedJournalRevision,
        OperationJournalStoreError,
    >)
        ensures
            match replaced(self@.entries, views(values@), self@.next_sequence) {
                Ok(map) => r matches Ok(made) && made@ == (AcceptedJournalRevisionView {
                    entries: map,
                    next_sequence: self@.next_sequence,
                }),
                Err(error) => r == Err::<AcceptedJournalRevision, _>(error),
            },
    {
        proof {
            use_type_invariant(self);
        }
        let ghost all = views(values@);
        let ghost map = contents(self.entries);
        let mut entries = map_clone(&self.entries);
        let mut total: usize = self.entries_bytes;
        let mut rest = values;
        let count: usize = rest.len();
        let mut n: usize = 0;
        assert(all.subrange(0, 0) =~= Seq::empty());
        while n < count
            invariant
                n <= count,
                count == all.len(),
                all == views(values@),
                rest.len() == count - n,
                forall|k: int| 0 <= k < rest.len() ==> (#[trigger] rest@[k])@ == all[n + k],
                map.dom().finite(),
                map == self@.entries,
                contents(entries) == inserted(map, all.subrange(0, n as int)),
                contents(entries).dom().finite(),
                total == bytes_of(contents(entries)),
                forall|k: int|
                    0 <= k <= n ==> #[trigger] bytes_of(inserted(map, all.subrange(0, k)))
                        <= usize::MAX,
            decreases count - n,
        {
            let ghost held = contents(entries);
            let ghost upto = all.subrange(0, n + 1);
            let accepted = rest.remove(0);
            assert(upto.drop_last() =~= all.subrange(0, n as int));
            assert(upto.last() == accepted@);
            let key: u128 = accepted.entry.operation_id.value;
            proof {
                bytes_after_insertion(held, key, accepted@);
            }
            let bytes: usize = accepted.canonical.len();
            let previous: usize = match map_get(&entries, key) {
                Some(existing) => existing.canonical.len(),
                None => 0,
            };
            proof {
                if held.contains_key(key) {
                    bytes_after_removal(held, key);
                }
                assert(bytes_of(inserted(map, upto)) == total - previous + bytes);
            }
            match checked_replaced_entries_bytes(total, previous, bytes) {
                Ok(sum) => {
                    total = sum;
                },
                Err(error) => {
                    assert(bytes_of(inserted(map, all.subrange(0, n + 1))) > usize::MAX);
                    return Err(error);
                },
            }
            map_insert(&mut entries, key, accepted);
            n = n + 1;
        }
        assert(all.subrange(0, all.len() as int) =~= all);
        AcceptedJournalRevision::accept_changed(entries, self.next_sequence, total)
    }

    /// A revision of entries as they were read, of which at most `max_entries` stay.
    pub fn load(
        values: Vec<AcceptedJournalEntry>,
        next_sequence: u64,
        max_entries: usize,
        temporal: &BoundedTemporalPolicy,
    ) -> (r: Result<AcceptedJournalRevision, OperationJournalLoadError>)
        ensures
            ({
                let map = inserted(no_entries(), views(values@));
                let left = pruned(map, max_entries as nat, rules_for(map, None, temporal@));
                match r {
                    Ok(made) => left == Some(made@.entries) && made@.next_sequence == next_sequence
                        && fits(made@.entries, next_sequence),
                    Err(error) => {
                        ||| left is None && error == OperationJournalLoadError::TooManyEntries
                        ||| left matches Some(kept) && !fits(kept, next_sequence) && error
                            == OperationJournalLoadError::TooLarge
                        ||| bytes_of(map) > usize::MAX && error
                            == OperationJournalLoadError::TooManyEntries
                    },
                }
            }),
    {
        let ghost all = views(values@);
        let mut entries = map_new();
        let mut rest = values;
        let count: usize = rest.len();
        let mut n: usize = 0;
        assert(all.subrange(0, 0) =~= Seq::empty());
        while n < count
            invariant
                n <= count,
                count == all.len(),
                all == views(values@),
                rest.len() == count - n,
                forall|k: int| 0 <= k < rest.len() ==> (#[trigger] rest@[k])@ == all[n + k],
                contents(entries) == inserted(no_entries(), all.subrange(0, n as int)),
                contents(entries).dom().finite(),
            decreases count - n,
        {
            let ghost upto = all.subrange(0, n + 1);
            let accepted = rest.remove(0);
            assert(upto.drop_last() =~= all.subrange(0, n as int));
            assert(upto.last() == accepted@);
            let key: u128 = accepted.entry.operation_id.value;
            map_insert(&mut entries, key, accepted);
            n = n + 1;
        }
        assert(all.subrange(0, all.len() as int) =~= all);
        match prune_records(&mut entries, max_entries, None, temporal) {
            None => Err(OperationJournalLoadError::TooManyEntries),
            Some(_) => match AcceptedJournalRevision::accept_loaded(entries, next_sequence) {
                Ok(made) => Ok(made),
                Err(_) => Err(OperationJournalLoadError::TooLarge),
            },
        }
    }
}

proof fn bytes_grow(map: JournalMap, keys: Seq<u128>, n: int)
    requires
        0 <= n <= keys.len(),
    ensures
        bytes_at(map, keys.subrange(0, n)) <= bytes_at(map, keys),
    decreases keys.len() - n,
{
    if n < keys.len() {
        bytes_grow(map, keys, n + 1);
        assert(keys.subrange(0, n + 1).drop_last() =~= keys.subrange(0, n));
    } else {
        assert(keys.subrange(0, n) =~= keys);
    }
}

} // verus!
