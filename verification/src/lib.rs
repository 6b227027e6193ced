//! The state of a launcher: the journals of its operations, its memory of failures, and its
//! installation sessions with their queue.
//!
//! Every function states in its contract what it returns and changes, over a model of each type: the
//! type's [`View`](vstd::prelude::View). The stores hold plain state. A change is drafted first, then
//! handed to whoever writes it down, and it becomes visible once that has answered.
//!
//! - Journals: `entry`, `lifecycle`, `evidence` and `contracts` say what they are made of;
//!   `journal_validation`, `journal_snapshot`, `performance` and `tokens` which of them are in order;
//!   `journal_records`, `journal_performance` and `journal_queries` what can be recorded and asked;
//!   `journal_revision`, `journal_pruning` and `journal_store` how they are kept; `journal_laws`,
//!   `journal_replays` and `journal_success` what holds of the store as a whole; `record_laws`,
//!   `settlement_laws`, `performance_laws` and `store_laws` what each recording, settlement,
//!   lifecycle and question comes to.
//! - Failures: `failure_entry` and `failure_keys` say what is remembered, `failure_validation` which
//!   memories are in order, `failure_apply` how observations add up, `failure_records` and
//!   `failure_store` how they are kept, `failure_laws` what holds of the memory as a whole,
//!   `memory_laws` and `keeping_laws` what is remembered of a failure and for how long.
//! - Installations: `install_types`, `install_sessions`, `install_queue` and `install_store`, with
//!   `install_laws` on what becomes of a request and of a session.
//! - `temporal` and `instants` say how long something stays in force; `rulings` holds what other parts
//!   of the launcher have decided; `order_laws`, `refusal_laws`, `room_laws` and `reading_laws` say
//!   what is accepted, what is refused and why, what there is room for, and how texts are read.

pub mod contracts;
pub mod entry;
pub mod evidence;
pub mod failure_apply;
pub mod failure_entry;
pub mod failure_keys;
pub mod failure_laws;
pub mod failure_records;
pub mod failure_store;
pub mod failure_validation;
pub mod guardian_evidence;
pub mod install_laws;
pub mod install_queue;
pub mod install_sessions;
pub mod install_store;
pub mod install_types;
pub mod instants;
pub mod journal_errors;
pub mod journal_laws;
pub mod journal_names;
pub mod journal_performance;
pub mod journal_pruning;
pub mod journal_queries;
pub mod journal_reconciliation;
pub mod journal_records;
pub mod journal_replays;
pub mod journal_revision;
pub mod journal_snapshot;
pub mod journal_store;
pub mod journal_success;
pub mod journal_temporal;
pub mod journal_validation;
pub mod journal_visibility;
pub mod keeping_laws;
pub mod lifecycle;
pub mod memory_laws;
pub mod operation_id;
pub mod order_laws;
pub mod ordered;
pub mod performance;
pub mod performance_laws;
pub mod places;
pub mod projection;
pub mod reading_laws;
pub mod record;
pub mod record_laws;
pub mod refusal_laws;
pub mod room_laws;
pub mod rulings;
pub mod settlement_laws;
pub mod store_laws;
pub mod temporal;
pub mod text;
pub mod tokens;
