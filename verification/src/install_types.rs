//! What installation sessions and the installation queue are made of.

use crate::contracts::OperationId;
use crate::record::{list_duplicate, list_same, opt_duplicate, opt_same, opt_view, views, Record};
use vstd::prelude::*;

verus! {

/// A mod loader.
#[derive(Clone, Copy, Debug, PartialEq, Eq, Structural, Hash)]
pub enum LoaderComponentId {
    Fabric,
    Quilt,
    Forge,
    NeoForge,
}

impl View for LoaderComponentId {
    type V = LoaderComponentId;

    open spec fn view(&self) -> LoaderComponentId {
        *self
    }
}

impl Record for LoaderComponentId {
    fn same(&self, other: &Self) -> (r: bool) {
        *self == *other
    }

    fn duplicate(&self) -> (r: Self) {
        *self
    }
}

/// What kind of content is installed into an instance.
#[derive(Clone, Copy, Debug, PartialEq, Eq, Structural, Hash)]
pub enum ContentKind {
    Mod,
    ResourcePack,
    ShaderPack,
    DataPack,
    Modpack,
}

impl View for ContentKind {
    type V = ContentKind;

    open spec fn view(&self) -> ContentKind {
        *self
    }
}

impl Record for ContentKind {
    fn same(&self, other: &Self) -> (r: bool) {
        *self == *other
    }

    fn duplicate(&self) -> (r: Self) {
        *self
    }
}

/// Where a request is put into the queue.
#[derive(Clone, Copy, Debug, PartialEq, Eq, Structural, Hash)]
pub enum InstallQueuePlacement {
    Back,
    Front,
}

impl View for InstallQueuePlacement {
    type V = InstallQueuePlacement;

    open spec fn view(&self) -> InstallQueuePlacement {
        *self
    }
}

impl Record for InstallQueuePlacement {
    fn same(&self, other: &Self) -> (r: bool) {
        *self == *other
    }

    fn duplicate(&self) -> (r: Self) {
        *self
    }
}

/// How far an installation has got.
#[derive(Clone, Debug, PartialEq, Eq)]
pub struct DownloadProgress {
    pub phase: String,
    pub current: i32,
    pub total: i32,
    pub file: Option<String>,
    pub error: Option<String>,
    pub done: bool,
    pub bytes_done: Option<u64>,
    pub bytes_total: Option<u64>,
}

/// The model of [`DownloadProgress`].
pub struct DownloadProgressView {
    pub phase: Seq<char>,
    pub current: i32,
    pub total: i32,
    pub file: Option<Seq<char>>,
    pub error: Option<Seq<char>>,
    pub done: bool,
    pub bytes_done: Option<u64>,
    pub bytes_total: Option<u64>,
}

impl View for DownloadProgress {
    type V = DownloadProgressView;

    open spec fn view(&self) -> DownloadProgressView {
        DownloadProgressView {
            phase: self.phase@,
            current: self.current,
            total: self.total,
            file: opt_view(self.file),
            error: opt_view(self.error),
            done: self.done,
            bytes_done: self.bytes_done,
            bytes_total: self.bytes_total,
        }
    }
}

impl Record for DownloadProgress {
    fn same(&self, other: &Self) -> (r: bool) {
        self.phase.same(&other.phase)
            && self.current == other.current
            && self.total == other.total
            && opt_same(&self.file, &other.file)
            && opt_same(&self.error, &other.error)
            && self.done == other.done
            && opt_same(&self.bytes_done, &other.bytes_done)
            && opt_same(&self.bytes_total, &other.bytes_total)
    }

    fn duplicate(&self) -> (r: Self) {
        DownloadProgress {
            phase: self.phase.duplicate(),
            current: self.current,
            total: self.total,
            file: opt_duplicate(&self.file),
            error: opt_duplicate(&self.error),
            done: self.done,
            bytes_done: self.bytes_done,
            bytes_total: self.bytes_total,
        }
    }
}

/// How far an installation has got, with the texts that are sent about it.
#[derive(Clone, Debug, PartialEq, Eq)]
pub struct InstallProgressRecord {
    pub progress: DownloadProgress,
    pub vanilla_event_json: Option<String>,
    pub loader_event_json: Option<String>,
}

/// The model of [`InstallProgressRecord`].
pub struct InstallProgressRecordView {
    pub progress: DownloadProgressView,
    pub vanilla_event_json: Option<Seq<char>>,
    pub loader_event_json: Option<Seq<char>>,
}

impl View for InstallProgressRecord {
    type V = InstallProgressRecordView;

    open spec fn view(&self) -> InstallProgressRecordView {
        InstallProgressRecordView {
            progress: self.progress@,
            vanilla_event_json: opt_view(self.vanilla_event_json),
            loader_event_json: opt_view(self.loader_event_json),
        }
    }
}

impl Record for InstallProgressRecord {
    fn same(&self, other: &Self) -> (r: bool) {
        self.progress.same(&other.progress)
            && opt_same(&self.vanilla_event_json, &other.vanilla_event_json)
            && opt_same(&self.loader_event_json, &other.loader_event_json)
    }

    fn duplicate(&self) -> (r: Self) {
        InstallProgressRecord {
            progress: self.progress.duplicate(),
            vanilla_event_json: opt_duplicate(&self.vanilla_event_json),
            loader_event_json: opt_duplicate(&self.loader_event_json),
        }
    }
}

/// A piece of content that was chosen.
#[derive(Clone, Debug, PartialEq, Eq)]
pub struct QueuedContentSelection {
    pub canonical_id: String,
    pub kind: ContentKind,
    pub version_id: Option<String>,
}

/// The model of [`QueuedContentSelection`].
pub struct QueuedContentSelectionView {
    pub canonical_id: Seq<char>,
    pub kind: ContentKind,
    pub version_id: Option<Seq<char>>,
}

impl View for QueuedContentSelection {
    type V = QueuedContentSelectionView;

    open spec fn view(&self) -> QueuedContentSelectionView {
        QueuedContentSelectionView {
            canonical_id: self.canonical_id@,
            kind: self.kind,
            version_id: opt_view(self.version_id),
        }
    }
}

impl Record for QueuedContentSelection {
    fn same(&self, other: &Self) -> (r: bool) {
        self.canonical_id.same(&other.canonical_id)
            && self.kind == other.kind
            && opt_same(&self.version_id, &other.version_id)
    }

    fn duplicate(&self) -> (r: Self) {
        QueuedContentSelection {
            canonical_id: self.canonical_id.duplicate(),
            kind: self.kind,
            version_id: opt_duplicate(&self.version_id),
        }
    }
}

/// An instance of the game: the text of its record, which is handed on and compared.
#[derive(Clone, Debug, PartialEq, Eq)]
pub struct Instance {
    pub record: String,
}

/// The model of [`Instance`].
pub struct InstanceView {
    pub record: Seq<char>,
}

impl View for Instance {
    type V = InstanceView;

    open spec fn view(&self) -> InstanceView {
        InstanceView {
            record: self.record@,
        }
    }
}

impl Record for Instance {
    fn same(&self, other: &Self) -> (r: bool) {
        self.record.same(&other.record)
    }

    fn duplicate(&self) -> (r: Self) {
        Instance {
            record: self.record.duplicate(),
        }
    }
}

/// What lay at a path of an instance.
#[derive(Clone, Debug, PartialEq, Eq)]
pub enum SetupInstancePathKind {
    Directory,
    File { size: u64, sha512: String },
}

/// The model of [`SetupInstancePathKind`].
pub enum SetupInstancePathKindView {
    Directory,
    File { size: u64, sha512: Seq<char> },
}

impl View for SetupInstancePathKind {
    type V = SetupInstancePathKindView;

    open spec fn view(&self) -> SetupInstancePathKindView {
        match self {
            SetupInstancePathKind::Directory => SetupInstancePathKindView::Directory,
            SetupInstancePathKind::File { size, sha512 } => SetupInstancePathKindView::File { size: *size, sha512: sha512@ },
        }
    }
}

impl Record for SetupInstancePathKind {
    fn same(&self, other: &Self) -> (r: bool) {
        match (self, other) {
            (SetupInstancePathKind::Directory, SetupInstancePathKind::Directory) => true,
            (SetupInstancePathKind::File { size: left_size, sha512: left_sha512 }, SetupInstancePathKind::File { size: right_size, sha512: right_sha512 }) => {
                *left_size == *right_size && left_sha512.same(right_sha512)
            },
            _ => false,
        }
    }

    fn duplicate(&self) -> (r: Self) {
        match self {
            SetupInstancePathKind::Directory => SetupInstancePathKind::Directory,
            SetupInstancePathKind::File { size, sha512 } => SetupInstancePathKind::File { size: *size, sha512: sha512.duplicate() },
        }
    }
}

/// What lay at a path of an instance. The path is relative to the instance.
#[derive(Clone, Debug, PartialEq, Eq)]
pub struct SetupInstancePathSnapshot {
    /// The components of the path.
    pub relative_path: Vec<String>,
    pub kind: SetupInstancePathKind,
}

/// The model of [`SetupInstancePathSnapshot`].
pub struct SetupInstancePathSnapshotView {
    pub relative_path: Seq<Seq<char>>,
    pub kind: SetupInstancePathKindView,
}

impl View for SetupInstancePathSnapshot {
    type V = SetupInstancePathSnapshotView;

    open spec fn view(&self) -> SetupInstancePathSnapshotView {
        SetupInstancePathSnapshotView {
            relative_path: views(self.relative_path@),
            kind: self.kind@,
        }
    }
}

impl Record for SetupInstancePathSnapshot {
    fn same(&self, other: &Self) -> (r: bool) {
        list_same(&self.relative_path, &other.relative_path)
            && self.kind.same(&other.kind)
    }

    fn duplicate(&self) -> (r: Self) {
        SetupInstancePathSnapshot {
            relative_path: list_duplicate(&self.relative_path),
            kind: self.kind.duplicate(),
        }
    }
}

/// An instance as it was before it was set up.
#[derive(Clone, Debug, PartialEq, Eq)]
pub struct SetupInstanceBaseline {
    pub instance: Instance,
    pub paths: Vec<SetupInstancePathSnapshot>,
}

/// The model of [`SetupInstanceBaseline`].
pub struct SetupInstanceBaselineView {
    pub instance: InstanceView,
    pub paths: Seq<SetupInstancePathSnapshotView>,
}

impl View for SetupInstanceBaseline {
    type V = SetupInstanceBaselineView;

    open spec fn view(&self) -> SetupInstanceBaselineView {
        SetupInstanceBaselineView {
            instance: self.instance@,
            paths: views(self.paths@),
        }
    }
}

impl Record for SetupInstanceBaseline {
    fn same(&self, other: &Self) -> (r: bool) {
        self.instance.same(&other.instance)
            && list_same(&self.paths, &other.paths)
    }

    fn duplicate(&self) -> (r: Self) {
        SetupInstanceBaseline {
            instance: self.instance.duplicate(),
            paths: list_duplicate(&self.paths),
        }
    }
}

/// How the setup of an instance is taken back.
#[derive(Clone, Debug, PartialEq, Eq)]
pub struct SetupInstanceCleanup {
    pub baseline: Option<SetupInstanceBaseline>,
}

/// The model of [`SetupInstanceCleanup`].
pub struct SetupInstanceCleanupView {
    pub baseline: Option<SetupInstanceBaselineView>,
}

impl View for SetupInstanceCleanup {
    type V = SetupInstanceCleanupView;

    open spec fn view(&self) -> SetupInstanceCleanupView {
        SetupInstanceCleanupView {
            baseline: opt_view(self.baseline),
        }
    }
}

impl Record for SetupInstanceCleanup {
    fn same(&self, other: &Self) -> (r: bool) {
        opt_same(&self.baseline, &other.baseline)
    }

    fn duplicate(&self) -> (r: Self) {
        SetupInstanceCleanup {
            baseline: opt_duplicate(&self.baseline),
        }
    }
}

/// What is done with the content of an instance.
#[derive(Clone, Debug, PartialEq, Eq)]
pub enum ContentQueueAction {
    Install { selections: Vec<QueuedContentSelection>, allow_incompatible: bool, setup_cleanup: Option<SetupInstanceCleanup> },
    Uninstall { canonical_ids: Vec<String> },
    Modpack { canonical_id: String, version_id: String, selected_file_ids: Vec<String>, include_overrides: bool, setup_cleanup: Option<SetupInstanceCleanup> },
}

/// The model of [`ContentQueueAction`].
pub enum ContentQueueActionView {
    Install { selections: Seq<QueuedContentSelectionView>, allow_incompatible: bool, setup_cleanup: Option<SetupInstanceCleanupView> },
    Uninstall { canonical_ids: Seq<Seq<char>> },
    Modpack { canonical_id: Seq<char>, version_id: Seq<char>, selected_file_ids: Seq<Seq<char>>, include_overrides: bool, setup_cleanup: Option<SetupInstanceCleanupView> },
}

impl View for ContentQueueAction {
    type V = ContentQueueActionView;

    open spec fn view(&self) -> ContentQueueActionView {
        match self {
            ContentQueueAction::Install { selections, allow_incompatible, setup_cleanup } => ContentQueueActionView::Install { selections: views(selections@), allow_incompatible: *allow_incompatible, setup_cleanup: opt_view(*setup_cleanup) },
            ContentQueueAction::Uninstall { canonical_ids } => ContentQueueActionView::Uninstall { canonical_ids: views(canonical_ids@) },
            ContentQueueAction::Modpack { canonical_id, version_id, selected_file_ids, include_overrides, setup_cleanup } => ContentQueueActionView::Modpack { canonical_id: canonical_id@, version_id: version_id@, selected_file_ids: views(selected_file_ids@), include_overrides: *include_overrides, setup_cleanup: opt_view(*setup_cleanup) },
        }
    }
}

impl Record for ContentQueueAction {
    fn same(&self, other: &Self) -> (r: bool) {
        match (self, other) {
            (ContentQueueAction::Install { selections: left_selections, allow_incompatible: left_allow_incompatible, setup_cleanup: left_setup_cleanup }, ContentQueueAction::Install { selections: right_selections, allow_incompatible: right_allow_incompatible, setup_cleanup: right_setup_cleanup }) => {
                list_same(left_selections, right_selections) && *left_allow_incompatible == *right_allow_incompatible && opt_same(left_setup_cleanup, right_setup_cleanup)
            },
            (ContentQueueAction::Uninstall { canonical_ids: left_canonical_ids }, ContentQueueAction::Uninstall { canonical_ids: right_canonical_ids }) => {
                list_same(left_canonical_ids, right_canonical_ids)
            },
            (ContentQueueAction::Modpack { canonical_id: left_canonical_id, version_id: left_version_id, selected_file_ids: left_selected_file_ids, include_overrides: left_include_overrides, setup_cleanup: left_setup_cleanup }, ContentQueueAction::Modpack { canonical_id: right_canonical_id, version_id: right_version_id, selected_file_ids: right_selected_file_ids, include_overrides: right_include_overrides, setup_cleanup: right_setup_cleanup }) => {
                left_canonical_id.same(right_canonical_id) && left_version_id.same(right_version_id) && list_same(left_selected_file_ids, right_selected_file_ids) && *left_include_overrides == *right_include_overrides && opt_same(left_setup_cleanup, right_setup_cleanup)
            },
            _ => false,
        }
    }

    fn duplicate(&self) -> (r: Self) {
        match self {
            ContentQueueAction::Install { selections, allow_incompatible, setup_cleanup } => ContentQueueAction::Install { selections: list_duplicate(selections), allow_incompatible: *allow_incompatible, setup_cleanup: opt_duplicate(setup_cleanup) },
            ContentQueueAction::Uninstall { canonical_ids } => ContentQueueAction::Uninstall { canonical_ids: list_duplicate(canonical_ids) },
            ContentQueueAction::Modpack { canonical_id, version_id, selected_file_ids, include_overrides, setup_cleanup } => ContentQueueAction::Modpack { canonical_id: canonical_id.duplicate(), version_id: version_id.duplicate(), selected_file_ids: list_duplicate(selected_file_ids), include_overrides: *include_overrides, setup_cleanup: opt_duplicate(setup_cleanup) },
        }
    }
}

/// What a request in the queue asks for.
#[derive(Clone, Debug, PartialEq, Eq)]
pub enum InstallQueueSpec {
    Vanilla { version_id: String },
    Loader { component_id: LoaderComponentId, build_id: String, target_version_id: String, minecraft_version: String, loader_version: String },
    Content { instance_id: String, label: String, action: ContentQueueAction, prerequisite_queue_id: Option<String> },
}

/// The model of [`InstallQueueSpec`].
pub enum InstallQueueSpecView {
    Vanilla { version_id: Seq<char> },
    Loader { component_id: LoaderComponentId, build_id: Seq<char>, target_version_id: Seq<char>, minecraft_version: Seq<char>, loader_version: Seq<char> },
    Content { instance_id: Seq<char>, label: Seq<char>, action: ContentQueueActionView, prerequisite_queue_id: Option<Seq<char>> },
}

impl View for InstallQueueSpec {
    type V = InstallQueueSpecView;

    open spec fn view(&self) -> InstallQueueSpecView {
        match self {
            InstallQueueSpec::Vanilla { version_id } => InstallQueueSpecView::Vanilla { version_id: version_id@ },
            InstallQueueSpec::Loader { component_id, build_id, target_version_id, minecraft_version, loader_version } => InstallQueueSpecView::Loader { component_id: *component_id, build_id: build_id@, target_version_id: target_version_id@, minecraft_version: minecraft_version@, loader_version: loader_version@ },
            InstallQueueSpec::Content { instance_id, label, action, prerequisite_queue_id } => InstallQueueSpecView::Content { instance_id: instance_id@, label: label@, action: action@, prerequisite_queue_id: opt_view(*prerequisite_queue_id) },
        }
    }
}

impl Record for InstallQueueSpec {
    fn same(&self, other: &Self) -> (r: bool) {
        match (self, other) {
            (InstallQueueSpec::Vanilla { version_id: left_version_id }, InstallQueueSpec::Vanilla { version_id: right_version_id }) => {
                left_version_id.same(right_version_id)
            },
            (InstallQueueSpec::Loader { component_id: left_component_id, build_id: left_build_id, target_version_id: left_target_version_id, minecraft_version: left_minecraft_version, loader_version: left_loader_version }, InstallQueueSpec::Loader { component_id: right_component_id, build_id: right_build_id, target_version_id: right_target_version_id, minecraft_version: right_minecraft_version, loader_version: right_loader_version }) => {
                *left_component_id == *right_component_id && left_build_id.same(right_build_id) && left_target_version_id.same(right_target_version_id) && left_minecraft_version.same(right_minecraft_version) && left_loader_version.same(right_loader_version)
            },
            (InstallQueueSpec::Content { instance_id: left_instance_id, label: left_label, action: left_action, prerequisite_queue_id: left_prerequisite_queue_id }, InstallQueueSpec::Content { instance_id: right_instance_id, label: right_label, action: right_action, prerequisite_queue_id: right_prerequisite_queue_id }) => {
                left_instance_id.same(right_instance_id) && left_label.same(right_label) && left_action.same(right_action) && opt_same(left_prerequisite_queue_id, right_prerequisite_queue_id)
            },
            _ => false,
        }
    }

    fn duplicate(&self) -> (r: Self) {
        match self {
            InstallQueueSpec::Vanilla { version_id } => InstallQueueSpec::Vanilla { version_id: version_id.duplicate() },
            InstallQueueSpec::Loader { component_id, build_id, target_version_id, minecraft_version, loader_version } => InstallQueueSpec::Loader { component_id: *component_id, build_id: build_id.duplicate(), target_version_id: target_version_id.duplicate(), minecraft_version: minecraft_version.duplicate(), loader_version: loader_version.duplicate() },
            InstallQueueSpec::Content { instance_id, label, action, prerequisite_queue_id } => InstallQueueSpec::Content { instance_id: instance_id.duplicate(), label: label.duplicate(), action: action.duplicate(), prerequisite_queue_id: opt_duplicate(prerequisite_queue_id) },
        }
    }
}

/// A request that waits in the queue.
#[derive(Clone, Debug, PartialEq, Eq)]
pub struct QueuedInstallEntry {
    pub queue_id: String,
    pub spec: InstallQueueSpec,
}

/// The model of [`QueuedInstallEntry`].
pub struct QueuedInstallEntryView {
    pub queue_id: Seq<char>,
    pub spec: InstallQueueSpecView,
}

impl View for QueuedInstallEntry {
    type V = QueuedInstallEntryView;

    open spec fn view(&self) -> QueuedInstallEntryView {
        QueuedInstallEntryView {
            queue_id: self.queue_id@,
            spec: self.spec@,
        }
    }
}

impl Record for QueuedInstallEntry {
    fn same(&self, other: &Self) -> (r: bool) {
        self.queue_id.same(&other.queue_id)
            && self.spec.same(&other.spec)
    }

    fn duplicate(&self) -> (r: Self) {
        QueuedInstallEntry {
            queue_id: self.queue_id.duplicate(),
            spec: self.spec.duplicate(),
        }
    }
}

/// The request that has the lane.
#[derive(Clone, Debug, PartialEq, Eq)]
pub struct ActiveQueuedInstallEntry {
    pub queue_id: String,
    /// The session that carries the request out; `None` while none has begun.
    pub install_id: Option<String>,
    /// When that session began, in milliseconds since 1970; `None` while none has begun.
    pub install_started_at_ms: Option<u64>,
    pub spec: InstallQueueSpec,
}

/// The model of [`ActiveQueuedInstallEntry`].
pub struct ActiveQueuedInstallEntryView {
    pub queue_id: Seq<char>,
    pub install_id: Option<Seq<char>>,
    pub install_started_at_ms: Option<u64>,
    pub spec: InstallQueueSpecView,
}

impl View for ActiveQueuedInstallEntry {
    type V = ActiveQueuedInstallEntryView;

    open spec fn view(&self) -> ActiveQueuedInstallEntryView {
        ActiveQueuedInstallEntryView {
            queue_id: self.queue_id@,
            install_id: opt_view(self.install_id),
            install_started_at_ms: self.install_started_at_ms,
            spec: self.spec@,
        }
    }
}

impl Record for ActiveQueuedInstallEntry {
    fn same(&self, other: &Self) -> (r: bool) {
        self.queue_id.same(&other.queue_id)
            && opt_same(&self.install_id, &other.install_id)
            && opt_same(&self.install_started_at_ms, &other.install_started_at_ms)
            && self.spec.same(&other.spec)
    }

    fn duplicate(&self) -> (r: Self) {
        ActiveQueuedInstallEntry {
            queue_id: self.queue_id.duplicate(),
            install_id: opt_duplicate(&self.install_id),
            install_started_at_ms: self.install_started_at_ms,
            spec: self.spec.duplicate(),
        }
    }
}

/// The queue as it is.
#[derive(Clone, Debug, PartialEq, Eq)]
pub struct InstallQueueSnapshot {
    pub active: Option<ActiveQueuedInstallEntry>,
    pub pending: Vec<QueuedInstallEntry>,
}

/// The model of [`InstallQueueSnapshot`].
pub struct InstallQueueSnapshotView {
    pub active: Option<ActiveQueuedInstallEntryView>,
    pub pending: Seq<QueuedInstallEntryView>,
}

impl View for InstallQueueSnapshot {
    type V = InstallQueueSnapshotView;

    open spec fn view(&self) -> InstallQueueSnapshotView {
        InstallQueueSnapshotView {
            active: opt_view(self.active),
            pending: views(self.pending@),
        }
    }
}

impl Record for InstallQueueSnapshot {
    fn same(&self, other: &Self) -> (r: bool) {
        opt_same(&self.active, &other.active)
            && list_same(&self.pending, &other.pending)
    }

    fn duplicate(&self) -> (r: Self) {
        InstallQueueSnapshot {
            active: opt_duplicate(&self.active),
            pending: list_duplicate(&self.pending),
        }
    }
}

/// What became of a request for the queue.
#[derive(Clone, Debug, PartialEq, Eq)]
pub enum InstallQueueEnqueueOutcome {
    Enqueued { queue_id: String },
    AlreadyActive { queue_id: String },
    AlreadyQueued { queue_id: String },
    MovedToFront { queue_id: String },
}

/// The model of [`InstallQueueEnqueueOutcome`].
pub enum InstallQueueEnqueueOutcomeView {
    Enqueued { queue_id: Seq<char> },
    AlreadyActive { queue_id: Seq<char> },
    AlreadyQueued { queue_id: Seq<char> },
    MovedToFront { queue_id: Seq<char> },
}

impl View for InstallQueueEnqueueOutcome {
    type V = InstallQueueEnqueueOutcomeView;

    open spec fn view(&self) -> InstallQueueEnqueueOutcomeView {
        match self {
            InstallQueueEnqueueOutcome::Enqueued { queue_id } => InstallQueueEnqueueOutcomeView::Enqueued { queue_id: queue_id@ },
            InstallQueueEnqueueOutcome::AlreadyActive { queue_id } => InstallQueueEnqueueOutcomeView::AlreadyActive { queue_id: queue_id@ },
            InstallQueueEnqueueOutcome::AlreadyQueued { queue_id } => InstallQueueEnqueueOutcomeView::AlreadyQueued { queue_id: queue_id@ },
            InstallQueueEnqueueOutcome::MovedToFront { queue_id } => InstallQueueEnqueueOutcomeView::MovedToFront { queue_id: queue_id@ },
        }
    }
}

impl Record for InstallQueueEnqueueOutcome {
    fn same(&self, other: &Self) -> (r: bool) {
        match (self, other) {
            (InstallQueueEnqueueOutcome::Enqueued { queue_id: left_queue_id }, InstallQueueEnqueueOutcome::Enqueued { queue_id: right_queue_id }) => {
                left_queue_id.same(right_queue_id)
            },
            (InstallQueueEnqueueOutcome::AlreadyActive { queue_id: left_queue_id }, InstallQueueEnqueueOutcome::AlreadyActive { queue_id: right_queue_id }) => {
                left_queue_id.same(right_queue_id)
            },
            (InstallQueueEnqueueOutcome::AlreadyQueued { queue_id: left_queue_id }, InstallQueueEnqueueOutcome::AlreadyQueued { queue_id: right_queue_id }) => {
                left_queue_id.same(right_queue_id)
            },
            (InstallQueueEnqueueOutcome::MovedToFront { queue_id: left_queue_id }, InstallQueueEnqueueOutcome::MovedToFront { queue_id: right_queue_id }) => {
                left_queue_id.same(right_queue_id)
            },
            _ => false,
        }
    }

    fn duplicate(&self) -> (r: Self) {
        match self {
            InstallQueueEnqueueOutcome::Enqueued { queue_id } => InstallQueueEnqueueOutcome::Enqueued { queue_id: queue_id.duplicate() },
            InstallQueueEnqueueOutcome::AlreadyActive { queue_id } => InstallQueueEnqueueOutcome::AlreadyActive { queue_id: queue_id.duplicate() },
            InstallQueueEnqueueOutcome::AlreadyQueued { queue_id } => InstallQueueEnqueueOutcome::AlreadyQueued { queue_id: queue_id.duplicate() },
            InstallQueueEnqueueOutcome::MovedToFront { queue_id } => InstallQueueEnqueueOutcome::MovedToFront { queue_id: queue_id.duplicate() },
        }
    }
}

/// How a request of the queue ended.
#[derive(Clone, Debug, PartialEq, Eq)]
pub struct QueueOutcome {
    pub queue_id: String,
    pub succeeded: bool,
}

/// The model of [`QueueOutcome`].
pub struct QueueOutcomeView {
    pub queue_id: Seq<char>,
    pub succeeded: bool,
}

impl View for QueueOutcome {
    type V = QueueOutcomeView;

    open spec fn view(&self) -> QueueOutcomeView {
        QueueOutcomeView {
            queue_id: self.queue_id@,
            succeeded: self.succeeded,
        }
    }
}

impl Record for QueueOutcome {
    fn same(&self, other: &Self) -> (r: bool) {
        self.queue_id.same(&other.queue_id)
            && self.succeeded == other.succeeded
    }

    fn duplicate(&self) -> (r: Self) {
        QueueOutcome {
            queue_id: self.queue_id.duplicate(),
            succeeded: self.succeeded,
        }
    }
}

/// What a session installs.
#[derive(Clone, Debug, PartialEq, Eq)]
pub enum InstallKey {
    Vanilla { version_id: String },
    Loader { component_id: LoaderComponentId, build_id: String },
}

/// The model of [`InstallKey`].
pub enum InstallKeyView {
    Vanilla { version_id: Seq<char> },
    Loader { component_id: LoaderComponentId, build_id: Seq<char> },
}

impl View for InstallKey {
    type V = InstallKeyView;

    open spec fn view(&self) -> InstallKeyView {
        match self {
            InstallKey::Vanilla { version_id } => InstallKeyView::Vanilla { version_id: version_id@ },
            InstallKey::Loader { component_id, build_id } => InstallKeyView::Loader { component_id: *component_id, build_id: build_id@ },
        }
    }
}

impl Record for InstallKey {
    fn same(&self, other: &Self) -> (r: bool) {
        match (self, other) {
            (InstallKey::Vanilla { version_id: left_version_id }, InstallKey::Vanilla { version_id: right_version_id }) => {
                left_version_id.same(right_version_id)
            },
            (InstallKey::Loader { component_id: left_component_id, build_id: left_build_id }, InstallKey::Loader { component_id: right_component_id, build_id: right_build_id }) => {
                *left_component_id == *right_component_id && left_build_id.same(right_build_id)
            },
            _ => false,
        }
    }

    fn duplicate(&self) -> (r: Self) {
        match self {
            InstallKey::Vanilla { version_id } => InstallKey::Vanilla { version_id: version_id.duplicate() },
            InstallKey::Loader { component_id, build_id } => InstallKey::Loader { component_id: *component_id, build_id: build_id.duplicate() },
        }
    }
}

/// A session as it is shown.
#[derive(Clone, Debug, PartialEq, Eq)]
pub struct InstallSnapshot {
    pub operation_id: OperationId,
    pub latest: Option<InstallProgressRecord>,
    pub done: bool,
    pub loader_install: bool,
}

/// The model of [`InstallSnapshot`].
pub struct InstallSnapshotView {
    pub operation_id: OperationId,
    pub latest: Option<InstallProgressRecordView>,
    pub done: bool,
    pub loader_install: bool,
}

impl View for InstallSnapshot {
    type V = InstallSnapshotView;

    open spec fn view(&self) -> InstallSnapshotView {
        InstallSnapshotView {
            operation_id: self.operation_id,
            latest: opt_view(self.latest),
            done: self.done,
            loader_install: self.loader_install,
        }
    }
}

impl Record for InstallSnapshot {
    fn same(&self, other: &Self) -> (r: bool) {
        self.operation_id == other.operation_id
            && opt_same(&self.latest, &other.latest)
            && self.done == other.done
            && self.loader_install == other.loader_install
    }

    fn duplicate(&self) -> (r: Self) {
        InstallSnapshot {
            operation_id: self.operation_id,
            latest: opt_duplicate(&self.latest),
            done: self.done,
            loader_install: self.loader_install,
        }
    }
}

/// A session that installs something.
#[derive(Clone, Debug, PartialEq, Eq)]
pub struct InstallSession {
    pub install_id: String,
    pub operation_id: OperationId,
    pub key: Option<InstallKey>,
    pub started_at_ms: u64,
    pub latest: Option<InstallProgressRecord>,
    pub done: bool,
    pub initializing: bool,
    pub initialization_reconciling: bool,
    pub terminalizing: bool,
}

/// The model of [`InstallSession`].
pub struct InstallSessionView {
    pub install_id: Seq<char>,
    pub operation_id: OperationId,
    pub key: Option<InstallKeyView>,
    pub started_at_ms: u64,
    pub latest: Option<InstallProgressRecordView>,
    pub done: bool,
    pub initializing: bool,
    pub initialization_reconciling: bool,
    pub terminalizing: bool,
}

impl View for InstallSession {
    type V = InstallSessionView;

    open spec fn view(&self) -> InstallSessionView {
        InstallSessionView {
            install_id: self.install_id@,
            operation_id: self.operation_id,
            key: opt_view(self.key),
            started_at_ms: self.started_at_ms,
            latest: opt_view(self.latest),
            done: self.done,
            initializing: self.initializing,
            initialization_reconciling: self.initialization_reconciling,
            terminalizing: self.terminalizing,
        }
    }
}

impl Record for InstallSession {
    fn same(&self, other: &Self) -> (r: bool) {
        self.install_id.same(&other.install_id)
            && self.operation_id == other.operation_id
            && opt_same(&self.key, &other.key)
            && self.started_at_ms == other.started_at_ms
            && opt_same(&self.latest, &other.latest)
            && self.done == other.done
            && self.initializing == other.initializing
            && self.initialization_reconciling == other.initialization_reconciling
            && self.terminalizing == other.terminalizing
    }

    fn duplicate(&self) -> (r: Self) {
        InstallSession {
            install_id: self.install_id.duplicate(),
            operation_id: self.operation_id,
            key: opt_duplicate(&self.key),
            started_at_ms: self.started_at_ms,
            latest: opt_duplicate(&self.latest),
            done: self.done,
            initializing: self.initializing,
            initialization_reconciling: self.initialization_reconciling,
            terminalizing: self.terminalizing,
        }
    }
}

/// What came of the attempt to give the lane to the next request.
#[derive(Clone, Debug, PartialEq, Eq)]
pub enum InstallQueueReservation {
    Reserved(QueuedInstallEntry),
    Empty,
    BlockedByLiveSession,
}

/// The model of [`InstallQueueReservation`].
pub enum InstallQueueReservationView {
    Reserved(QueuedInstallEntryView),
    Empty,
    BlockedByLiveSession,
}

impl View for InstallQueueReservation {
    type V = InstallQueueReservationView;

    open spec fn view(&self) -> InstallQueueReservationView {
        match self {
            InstallQueueReservation::Reserved(entry) => InstallQueueReservationView::Reserved(entry@),
            InstallQueueReservation::Empty => InstallQueueReservationView::Empty,
            InstallQueueReservation::BlockedByLiveSession => InstallQueueReservationView::BlockedByLiveSession,
        }
    }
}

impl Record for InstallQueueReservation {
    fn same(&self, other: &Self) -> (r: bool) {
        match (self, other) {
            (InstallQueueReservation::Reserved(left_entry), InstallQueueReservation::Reserved(right_entry)) => {
                left_entry.same(right_entry)
            },
            (InstallQueueReservation::Empty, InstallQueueReservation::Empty) => true,
            (InstallQueueReservation::BlockedByLiveSession, InstallQueueReservation::BlockedByLiveSession) => true,
            _ => false,
        }
    }

    fn duplicate(&self) -> (r: Self) {
        match self {
            InstallQueueReservation::Reserved(entry) => InstallQueueReservation::Reserved(entry.duplicate()),
            InstallQueueReservation::Empty => InstallQueueReservation::Empty,
            InstallQueueReservation::BlockedByLiveSession => InstallQueueReservation::BlockedByLiveSession,
        }
    }
}

/// What came of the attempt to begin a session for the active request.
#[derive(Clone, Debug, PartialEq, Eq)]
pub enum InstallQueueAdmission {
    Inserted,
    Existing { install_id: String, operation_id: OperationId },
    BlockedByLiveSession,
    InstallIdCollision,
    OperationIdCollision,
    ReservationLost,
}

/// The model of [`InstallQueueAdmission`].
pub enum InstallQueueAdmissionView {
    Inserted,
    Existing { install_id: Seq<char>, operation_id: OperationId },
    BlockedByLiveSession,
    InstallIdCollision,
    OperationIdCollision,
    ReservationLost,
}

impl View for InstallQueueAdmission {
    type V = InstallQueueAdmissionView;

    open spec fn view(&self) -> InstallQueueAdmissionView {
        match self {
            InstallQueueAdmission::Inserted => InstallQueueAdmissionView::Inserted,
            InstallQueueAdmission::Existing { install_id, operation_id } => InstallQueueAdmissionView::Existing { install_id: install_id@, operation_id: *operation_id },
            InstallQueueAdmission::BlockedByLiveSession => InstallQueueAdmissionView::BlockedByLiveSession,
            InstallQueueAdmission::InstallIdCollision => InstallQueueAdmissionView::InstallIdCollision,
            InstallQueueAdmission::OperationIdCollision => InstallQueueAdmissionView::OperationIdCollision,
            InstallQueueAdmission::ReservationLost => InstallQueueAdmissionView::ReservationLost,
        }
    }
}

impl Record for InstallQueueAdmission {
    fn same(&self, other: &Self) -> (r: bool) {
        match (self, other) {
            (InstallQueueAdmission::Inserted, InstallQueueAdmission::Inserted) => true,
            (InstallQueueAdmission::Existing { install_id: left_install_id, operation_id: left_operation_id }, InstallQueueAdmission::Existing { install_id: right_install_id, operation_id: right_operation_id }) => {
                left_install_id.same(right_install_id) && *left_operation_id == *right_operation_id
            },
            (InstallQueueAdmission::BlockedByLiveSession, InstallQueueAdmission::BlockedByLiveSession) => true,
            (InstallQueueAdmission::InstallIdCollision, InstallQueueAdmission::InstallIdCollision) => true,
            (InstallQueueAdmission::OperationIdCollision, InstallQueueAdmission::OperationIdCollision) => true,
            (InstallQueueAdmission::ReservationLost, InstallQueueAdmission::ReservationLost) => true,
            _ => false,
        }
    }

    fn duplicate(&self) -> (r: Self) {
        match self {
            InstallQueueAdmission::Inserted => InstallQueueAdmission::Inserted,
            InstallQueueAdmission::Existing { install_id, operation_id } => InstallQueueAdmission::Existing { install_id: install_id.duplicate(), operation_id: *operation_id },
            InstallQueueAdmission::BlockedByLiveSession => InstallQueueAdmission::BlockedByLiveSession,
            InstallQueueAdmission::InstallIdCollision => InstallQueueAdmission::InstallIdCollision,
            InstallQueueAdmission::OperationIdCollision => InstallQueueAdmission::OperationIdCollision,
            InstallQueueAdmission::ReservationLost => InstallQueueAdmission::ReservationLost,
        }
    }
}

/// What became of a request whose start was interrupted.
#[derive(Clone, Debug, PartialEq, Eq)]
pub enum InstallQueueStartReconciliation {
    Requeued,
    Started { install_id: String },
    Settled,
}

/// The model of [`InstallQueueStartReconciliation`].
pub enum InstallQueueStartReconciliationView {
    Requeued,
    Started { install_id: Seq<char> },
    Settled,
}

impl View for InstallQueueStartReconciliation {
    type V = InstallQueueStartReconciliationView;

    open spec fn view(&self) -> InstallQueueStartReconciliationView {
        match self {
            InstallQueueStartReconciliation::Requeued => InstallQueueStartReconciliationView::Requeued,
            InstallQueueStartReconciliation::Started { install_id } => InstallQueueStartReconciliationView::Started { install_id: install_id@ },
            InstallQueueStartReconciliation::Settled => InstallQueueStartReconciliationView::Settled,
        }
    }
}

impl Record for InstallQueueStartReconciliation {
    fn same(&self, other: &Self) -> (r: bool) {
        match (self, other) {
            (InstallQueueStartReconciliation::Requeued, InstallQueueStartReconciliation::Requeued) => true,
            (InstallQueueStartReconciliation::Started { install_id: left_install_id }, InstallQueueStartReconciliation::Started { install_id: right_install_id }) => {
                left_install_id.same(right_install_id)
            },
            (InstallQueueStartReconciliation::Settled, InstallQueueStartReconciliation::Settled) => true,
            _ => false,
        }
    }

    fn duplicate(&self) -> (r: Self) {
        match self {
            InstallQueueStartReconciliation::Requeued => InstallQueueStartReconciliation::Requeued,
            InstallQueueStartReconciliation::Started { install_id } => InstallQueueStartReconciliation::Started { install_id: install_id.duplicate() },
            InstallQueueStartReconciliation::Settled => InstallQueueStartReconciliation::Settled,
        }
    }
}

/// What becomes of a request whose start failed.
#[derive(Clone, Debug, PartialEq, Eq)]
pub enum InstallQueueStartFailureDisposition {
    CompletedUnlinked,
    Started { install_id: String },
    Settled,
}

/// The model of [`InstallQueueStartFailureDisposition`].
pub enum InstallQueueStartFailureDispositionView {
    CompletedUnlinked,
    Started { install_id: Seq<char> },
    Settled,
}

impl View for InstallQueueStartFailureDisposition {
    type V = InstallQueueStartFailureDispositionView;

    open spec fn view(&self) -> InstallQueueStartFailureDispositionView {
        match self {
            InstallQueueStartFailureDisposition::CompletedUnlinked => InstallQueueStartFailureDispositionView::CompletedUnlinked,
            InstallQueueStartFailureDisposition::Started { install_id } => InstallQueueStartFailureDispositionView::Started { install_id: install_id@ },
            InstallQueueStartFailureDisposition::Settled => InstallQueueStartFailureDispositionView::Settled,
        }
    }
}

impl Record for InstallQueueStartFailureDisposition {
    fn same(&self, other: &Self) -> (r: bool) {
        match (self, other) {
            (InstallQueueStartFailureDisposition::CompletedUnlinked, InstallQueueStartFailureDisposition::CompletedUnlinked) => true,
            (InstallQueueStartFailureDisposition::Started { install_id: left_install_id }, InstallQueueStartFailureDisposition::Started { install_id: right_install_id }) => {
                left_install_id.same(right_install_id)
            },
            (InstallQueueStartFailureDisposition::Settled, InstallQueueStartFailureDisposition::Settled) => true,
            _ => false,
        }
    }

    fn duplicate(&self) -> (r: Self) {
        match self {
            InstallQueueStartFailureDisposition::CompletedUnlinked => InstallQueueStartFailureDisposition::CompletedUnlinked,
            InstallQueueStartFailureDisposition::Started { install_id } => InstallQueueStartFailureDisposition::Started { install_id: install_id.duplicate() },
            InstallQueueStartFailureDisposition::Settled => InstallQueueStartFailureDisposition::Settled,
        }
    }
}

/// How the work of a session ended.
#[derive(Clone, Debug, PartialEq, Eq)]
pub enum InstallWorkerExit {
    InterruptIfActive,
    ReconcileTerminal(DownloadProgress),
    DeferredNonterminal,
}

/// The model of [`InstallWorkerExit`].
pub enum InstallWorkerExitView {
    InterruptIfActive,
    ReconcileTerminal(DownloadProgressView),
    DeferredNonterminal,
}

impl View for InstallWorkerExit {
    type V = InstallWorkerExitView;

    open spec fn view(&self) -> InstallWorkerExitView {
        match self {
            InstallWorkerExit::InterruptIfActive => InstallWorkerExitView::InterruptIfActive,
            InstallWorkerExit::ReconcileTerminal(progress) => InstallWorkerExitView::ReconcileTerminal(progress@),
            InstallWorkerExit::DeferredNonterminal => InstallWorkerExitView::DeferredNonterminal,
        }
    }
}

impl Record for InstallWorkerExit {
    fn same(&self, other: &Self) -> (r: bool) {
        match (self, other) {
            (InstallWorkerExit::InterruptIfActive, InstallWorkerExit::InterruptIfActive) => true,
            (InstallWorkerExit::ReconcileTerminal(left_progress), InstallWorkerExit::ReconcileTerminal(right_progress)) => {
                left_progress.same(right_progress)
            },
            (InstallWorkerExit::DeferredNonterminal, InstallWorkerExit::DeferredNonterminal) => true,
            _ => false,
        }
    }

    fn duplicate(&self) -> (r: Self) {
        match self {
            InstallWorkerExit::InterruptIfActive => InstallWorkerExit::InterruptIfActive,
            InstallWorkerExit::ReconcileTerminal(progress) => InstallWorkerExit::ReconcileTerminal(progress.duplicate()),
            InstallWorkerExit::DeferredNonterminal => InstallWorkerExit::DeferredNonterminal,
        }
    }
}

} // verus!
