//! The move of a partition as a state machine.
//!
//! A move backs the partition's content up into a staging directory,
//! deletes the partition, creates it anew at the target offset, and copies
//! the content back. The machine decides; its caller does the work: each
//! step hands out the progress records to publish and the action to
//! perform, and takes back what came of that action.

use crate::error::{ErrorKind, ErrorView, PartitionError};
use crate::move_partition::{
    backing_up_record, capped, move_validation, plain_record, restoring_record, validate_move,
    verifying_record, MovePartitionOptions, MovePhase, MoveProgress, ProgressView,
};
use crate::platform::Platform;
use crate::text::{decimal, decimal_string, holds, join, join_text};
use crate::types::{opt_text, DiskInfo, DiskView, PartitionInfo, PartitionView};
use vstd::prelude::*;
use vstd::string::*;

verus! {

/// What came of the action that a step handed out.
#[derive(Debug, Clone)]
pub enum MoveEvent {
    /// The running copy has handled this many bytes so far.
    Copied { bytes: u64 },
    /// The action succeeded.
    Succeeded,
    /// The new partition was created, and is mounted where given.
    Created { mount_point: Option<String> },
    /// The action failed; the native tool said this.
    Failed { diagnostic: String },
    /// The driver has no means to verify the restored content.
    VerifyUnavailable,
    /// The caller asks for the move to be cancelled.
    Cancel,
}

/// What the caller is to do next.
#[derive(Debug, Clone)]
pub enum MoveAction {
    /// Copy the tree under `source` into `destination`, with its
    /// attributes. Report the bytes handled with `Copied`.
    CopyTree { source: String, destination: String },
    /// Remove the partition's entry from the partition table.
    DeleteTableEntry { device_path: String },
    /// Create an entry of `size` bytes at `offset`, and report where the
    /// new partition is mounted with `Created`.
    CreateTableEntry { offset: u64, size: u64 },
    /// Check the content under `mount_point` against the staging copy.
    Verify { staging: String, mount_point: String },
    /// Nothing new: go on with what is running, or, once the move has
    /// ended, do nothing.
    Wait,
    /// The move has succeeded: remove the staging directory.
    Finish { remove_staging: String },
    /// The move has failed: stop what is running, leave the staging
    /// directory alone, and report the error.
    Fail { error: PartitionError },
}

/// An action as a mathematical value.
pub enum ActionView {
    CopyTree { source: Seq<char>, destination: Seq<char> },
    DeleteTableEntry { device_path: Seq<char> },
    CreateTableEntry { offset: nat, size: nat },
    Verify { staging: Seq<char>, mount_point: Seq<char> },
    Wait,
    Finish { remove_staging: Seq<char> },
    Fail { error: ErrorView },
}

impl View for MoveAction {
    type V = ActionView;

    open spec fn view(&self) -> ActionView {
        match self {
            MoveAction::CopyTree { source, destination } => ActionView::CopyTree {
                source: source@,
                destination: destination@,
            },
            MoveAction::DeleteTableEntry { device_path } => ActionView::DeleteTableEntry {
                device_path: device_path@,
            },
            MoveAction::CreateTableEntry { offset, size } => ActionView::CreateTableEntry {
                offset: *offset as nat,
                size: *size as nat,
            },
            MoveAction::Verify { staging, mount_point } => ActionView::Verify {
                staging: staging@,
                mount_point: mount_point@,
            },
            MoveAction::Wait => ActionView::Wait,
            MoveAction::Finish { remove_staging } => ActionView::Finish {
                remove_staging: remove_staging@,
            },
            MoveAction::Fail { error } => ActionView::Fail { error: error@ },
        }
    }
}

/// The state of a move.
#[derive(Debug)]
pub struct MoveOrchestrator {
    phase: MovePhase,
    percent: u8,
    verify_after_move: bool,
    target_offset: u64,
    total_bytes: u64,
    device_path: String,
    mount_point: String,
    staging: String,
}

/// The state of a move as a mathematical value.
pub struct MachineView {
    pub phase: MovePhase,
    /// The percentage last reported.
    pub percent: nat,
    pub verify_after_move: bool,
    pub target_offset: nat,
    pub total_bytes: nat,
    pub device_path: Seq<char>,
    /// Where the content lies: the old partition's mount point, and the
    /// new one's once it is created.
    pub mount_point: Seq<char>,
    /// The staging directory.
    pub staging: Seq<char>,
}

impl MachineView {
    /// The invariant of a move: the percentage last reported lies in the
    /// range of the phase.
    pub open spec fn well_formed(self) -> bool {
        self.phase.lowest() <= self.percent <= self.phase.highest()
    }
}

/// A step of a move: the state after it, the records to publish, in order,
/// and the action to perform.
#[derive(Debug)]
pub struct MoveStep {
    pub machine: MoveOrchestrator,
    pub records: Vec<MoveProgress>,
    pub action: MoveAction,
}

/// A step as a mathematical value.
pub struct StepView {
    pub machine: MachineView,
    pub records: Seq<ProgressView>,
    pub action: ActionView,
}

/// The views of a vector of records.
pub open spec fn record_views(v: Seq<MoveProgress>) -> Seq<ProgressView> {
    v.map_values(|r: MoveProgress| r@)
}

impl View for MoveOrchestrator {
    type V = MachineView;

    closed spec fn view(&self) -> MachineView {
        MachineView {
            phase: self.phase,
            percent: self.percent as nat,
            verify_after_move: self.verify_after_move,
            target_offset: self.target_offset as nat,
            total_bytes: self.total_bytes as nat,
            device_path: self.device_path@,
            mount_point: self.mount_point@,
            staging: self.staging@,
        }
    }
}

impl View for MoveStep {
    type V = StepView;

    open spec fn view(&self) -> StepView {
        StepView {
            machine: self.machine@,
            records: record_views(self.records@),
            action: self.action@,
        }
    }
}

/// How far a copy of `total` bytes is, in percent, once it has handled
/// `bytes` of them.
pub open spec fn copy_share(bytes: nat, total: nat) -> nat {
    if total == 0 {
        0
    } else {
        capped(bytes * 100 / total)
    }
}

/// The message of a failure after the old partition was deleted: what went
/// wrong, and where the content is kept.
pub open spec fn at_risk_text(what: Seq<char>, staging: Seq<char>) -> Seq<char> {
    what + ". DATA AT RISK: the old partition no longer exists. Its content is kept in '"@
        + staging + "' and can be restored from there by hand."@
}

/// The message of a move that was cancelled during the backup.
pub open spec fn cancelled_text(staging: Seq<char>) -> Seq<char> {
    "Move cancelled. The disk was not changed. The partial backup is kept in '"@ + staging
        + "'."@
}

/// The message of a move that has succeeded.
pub open spec fn moved_text() -> Seq<char> {
    "Partition moved successfully!"@
}

/// The message of a move that has succeeded without a verification.
pub open spec fn moved_unverified_text() -> Seq<char> {
    "Partition moved successfully! The restored data was not verified: the driver offers no verification."@
}

/// The step that changes nothing.
pub open spec fn halted(m: MachineView) -> StepView {
    StepView { machine: m, records: Seq::empty(), action: ActionView::Wait }
}

/// The step that ends the move with an error of the given kind, raised in
/// the phase the move was in.
pub open spec fn failure(m: MachineView, kind: ErrorKind, message: Seq<char>) -> StepView {
    StepView {
        machine: MachineView { phase: MovePhase::Error, ..m },
        records: seq![plain_record(MovePhase::Error, m.percent, message)],
        action: ActionView::Fail {
            error: ErrorView { kind, phase: m.phase.name_text(), message },
        },
    }
}

/// The step that takes the move into `phase`, at the percentage of the last
/// of its records.
pub open spec fn proceed(
    m: MachineView,
    phase: MovePhase,
    records: Seq<ProgressView>,
    action: ActionView,
) -> StepView {
    StepView {
        machine: MachineView { phase, percent: records.last().percent, ..m },
        records,
        action,
    }
}

/// The step for a report of a running copy: the record is published unless
/// it would take the percentage back.
pub open spec fn copy_step(m: MachineView, record: ProgressView) -> StepView {
    if record.percent >= m.percent {
        StepView {
            machine: MachineView { percent: record.percent, ..m },
            records: seq![record],
            action: ActionView::Wait,
        }
    } else {
        halted(m)
    }
}

/// The step that ends the move with success.
pub open spec fn finish(m: MachineView, records: Seq<ProgressView>) -> StepView {
    proceed(m, MovePhase::Complete, records, ActionView::Finish { remove_staging: m.staging })
}

/// How a move in state `m` answers the event `e`.
///
/// An event that the phase does not wait for changes nothing. In
/// particular a request to cancel is honoured during the backup and
/// ignored from the deletion on: no later phase is safe to stop in.
pub open spec fn advance_model(m: MachineView, e: MoveEvent) -> StepView {
    match m.phase {
        MovePhase::BackingUp => match e {
            MoveEvent::Copied { bytes } => copy_step(
                m,
                backing_up_record(
                    copy_share(bytes as nat, m.total_bytes),
                    bytes as nat,
                    m.total_bytes,
                ),
            ),
            MoveEvent::Succeeded => proceed(
                m,
                MovePhase::DeletingOldPartition,
                seq![
                    backing_up_record(100, m.total_bytes, m.total_bytes),
                    plain_record(MovePhase::DeletingOldPartition, 40, "Deleting old partition..."@),
                ],
                ActionView::DeleteTableEntry { device_path: m.device_path },
            ),
            MoveEvent::Failed { diagnostic } => failure(
                m,
                ErrorKind::Driver,
                "Failed to backup partition data: "@ + diagnostic@,
            ),
            MoveEvent::Cancel => failure(m, ErrorKind::Cancelled, cancelled_text(m.staging)),
            _ => halted(m),
        },
        MovePhase::DeletingOldPartition => match e {
            MoveEvent::Succeeded => proceed(
                m,
                MovePhase::CreatingNewPartition,
                seq![
                    plain_record(
                        MovePhase::CreatingNewPartition,
                        50,
                        "Creating partition at new location..."@,
                    ),
                ],
                ActionView::CreateTableEntry { offset: m.target_offset, size: m.total_bytes },
            ),
            MoveEvent::Failed { diagnostic } => failure(
                m,
                ErrorKind::Driver,
                "Failed to delete old partition: "@ + diagnostic@,
            ),
            _ => halted(m),
        },
        MovePhase::CreatingNewPartition => match e {
            MoveEvent::Created { mount_point: Some(mp) } => StepView {
                machine: MachineView {
                    phase: MovePhase::RestoringData,
                    percent: 50,
                    mount_point: mp@,
                    ..m
                },
                records: seq![restoring_record(0, 0, m.total_bytes)],
                action: ActionView::CopyTree { source: m.staging, destination: mp@ },
            },
            MoveEvent::Created { mount_point: None } => failure(
                m,
                ErrorKind::DataAtRisk,
                at_risk_text("Target partition must be mounted to restore data"@, m.staging),
            ),
            MoveEvent::Failed { diagnostic } => failure(
                m,
                ErrorKind::DataAtRisk,
                at_risk_text(
                    "Failed to create partition at new location: "@ + diagnostic@,
                    m.staging,
                ),
            ),
            _ => halted(m),
        },
        MovePhase::RestoringData => match e {
            MoveEvent::Copied { bytes } => copy_step(
                m,
                restoring_record(
                    copy_share(bytes as nat, m.total_bytes),
                    bytes as nat,
                    m.total_bytes,
                ),
            ),
            MoveEvent::Succeeded => if m.verify_after_move {
                proceed(
                    m,
                    MovePhase::Verifying,
                    seq![
                        restoring_record(100, m.total_bytes, m.total_bytes),
                        verifying_record(0),
                    ],
                    ActionView::Verify { staging: m.staging, mount_point: m.mount_point },
                )
            } else {
                finish(
                    m,
                    seq![
                        restoring_record(100, m.total_bytes, m.total_bytes),
                        plain_record(MovePhase::Complete, 100, moved_text()),
                    ],
                )
            },
            MoveEvent::Failed { diagnostic } => failure(
                m,
                ErrorKind::DataAtRisk,
                at_risk_text("Failed to restore partition data: "@ + diagnostic@, m.staging),
            ),
            _ => halted(m),
        },
        MovePhase::Verifying => match e {
            MoveEvent::Succeeded => finish(
                m,
                seq![verifying_record(100), plain_record(MovePhase::Complete, 100, moved_text())],
            ),
            MoveEvent::VerifyUnavailable => finish(
                m,
                seq![plain_record(MovePhase::Complete, 100, moved_unverified_text())],
            ),
            MoveEvent::Failed { diagnostic } => failure(
                m,
                ErrorKind::DataAtRisk,
                at_risk_text("Data verification failed: "@ + diagnostic@, m.staging),
            ),
            _ => halted(m),
        },
        _ => halted(m),
    }
}

/// The separator of path components on a platform.
pub open spec fn separator_text(platform: Platform) -> Seq<char> {
    if platform == Platform::Windows {
        "\\"@
    } else {
        "/"@
    }
}

/// The staging directory of a move: the one asked for, or else the
/// directory `partition_backup_` with the partition's number, under the
/// temporary directory.
pub open spec fn staging_text(
    platform: Platform,
    backup_path: Option<Seq<char>>,
    temp_dir: Seq<char>,
    number: nat,
) -> Seq<char> {
    match backup_path {
        Some(path) => path,
        None => temp_dir + separator_text(platform) + "partition_backup_"@ + decimal(number),
    }
}

/// The message of a move that validation refused.
pub open spec fn refused_text(errors: Seq<Seq<char>>) -> Seq<char> {
    "Move validation failed: "@ + join_text(errors, ", "@)
}

/// How a move begins: it is validated; a valid move of a mounted partition
/// starts its backup, any other ends at once.
pub open spec fn begin_model(
    platform: Platform,
    p: PartitionView,
    d: DiskView,
    options: MovePartitionOptions,
    temp_dir: Seq<char>,
) -> StepView {
    let verdict = move_validation(p, d, options.target_offset as nat);
    let staging = staging_text(platform, opt_text(options.backup_path), temp_dir, p.number);
    let opening = plain_record(MovePhase::Validating, 0, "Validating move operation..."@);
    let preparing = plain_record(MovePhase::Validating, 0, "Preparing backup location..."@);
    let m = MachineView {
        phase: MovePhase::Validating,
        percent: 0,
        verify_after_move: options.verify_after_move,
        target_offset: options.target_offset as nat,
        total_bytes: p.total_size,
        device_path: p.device_path,
        mount_point: match p.mount_point {
            Some(mp) => mp,
            None => Seq::empty(),
        },
        staging,
    };
    if !verdict.is_valid {
        let end = failure(m, ErrorKind::Validation, refused_text(verdict.errors));
        StepView { records: seq![opening] + end.records, ..end }
    } else if p.mount_point is None {
        let end = failure(
            MachineView { phase: MovePhase::BackingUp, ..m },
            ErrorKind::Precondition,
            "Partition must be mounted to back up its data"@,
        );
        StepView { records: seq![opening, preparing] + end.records, ..end }
    } else {
        StepView {
            machine: MachineView { phase: MovePhase::BackingUp, ..m },
            records: seq![opening, preparing, backing_up_record(0, 0, p.total_size)],
            action: ActionView::CopyTree { source: m.mount_point, destination: staging },
        }
    }
}

/// The records that a move in state `m` publishes while it answers
/// `events`, one after the other.
pub open spec fn run_records(m: MachineView, events: Seq<MoveEvent>) -> Seq<ProgressView>
    decreases events.len(),
{
    if events.len() == 0 {
        Seq::empty()
    } else {
        let step = advance_model(m, events[0]);
        step.records + run_records(step.machine, events.drop_first())
    }
}

/// The state of a move that started in `m`, after it has answered `events`.
pub open spec fn run_state(m: MachineView, events: Seq<MoveEvent>) -> MachineView
    decreases events.len(),
{
    if events.len() == 0 {
        m
    } else {
        run_state(advance_model(m, events[0]).machine, events.drop_first())
    }
}

/// Whether every record is well formed and reports at least `at_least`
/// percent, and no record reports less than one before it, or an earlier
/// phase.
pub open spec fn steady(records: Seq<ProgressView>, at_least: nat, from: MovePhase) -> bool {
    &&& forall|i: int| 0 <= i < records.len() ==> (#[trigger] records[i]).well_formed()
    &&& forall|i: int| 0 <= i < records.len() ==> (#[trigger] records[i]).percent >= at_least
    &&& forall|i: int|
        0 <= i < records.len() ==> (#[trigger] records[i]).phase.rank() >= from.rank()
    &&& forall|i: int, j: int|
        0 <= i <= j < records.len() ==> (#[trigger] records[i]).percent <= (
        #[trigger] records[j]).percent
    &&& forall|i: int, j: int|
        0 <= i <= j < records.len() ==> (#[trigger] records[i]).phase.rank() <= (
        #[trigger] records[j]).phase.rank()
}

/// One step of a move keeps its invariant. Its records are well formed,
/// none reports less than the state before or than a record before it, and
/// the state after is at the percentage and in the phase of the last
/// record. The phase never goes back.
pub proof fn lemma_step_is_steady(m: MachineView, e: MoveEvent)
    requires
        m.well_formed(),
    ensures
        advance_model(m, e).machine.well_formed(),
        steady(advance_model(m, e).records, m.percent, m.phase),
        advance_model(m, e).machine.percent >= m.percent,
        advance_model(m, e).machine.phase.rank() >= m.phase.rank(),
        advance_model(m, e).records.len() > 0 ==> {
            &&& advance_model(m, e).records.last().percent == advance_model(m, e).machine.percent
            &&& advance_model(m, e).records.last().phase == advance_model(m, e).machine.phase
        },
{
}

/// Over a whole run, from any state that a move can be in, the published
/// percentages never decrease, each lies in the range of its record's
/// phase, and the phases never go back.
pub proof fn lemma_run_is_steady(m: MachineView, events: Seq<MoveEvent>)
    requires
        m.well_formed(),
    ensures
        steady(run_records(m, events), m.percent, m.phase),
        run_state(m, events).well_formed(),
        run_state(m, events).percent >= m.percent,
    decreases events.len(),
{
    if events.len() > 0 {
        let step = advance_model(m, events[0]);
        lemma_step_is_steady(m, events[0]);
        lemma_run_is_steady(step.machine, events.drop_first());
        let head = step.records;
        let rest = run_records(step.machine, events.drop_first());
        let all = run_records(m, events);
        assert(all == head + rest);
        assert forall|i: int| 0 <= i < all.len() implies (#[trigger] all[i]).well_formed()
            && all[i].percent >= m.percent && all[i].phase.rank() >= m.phase.rank() by {
            if i < head.len() {
                assert(all[i] == head[i]);
            } else {
                assert(all[i] == rest[i - head.len()]);
            }
        }
        assert forall|i: int, j: int| 0 <= i <= j < all.len() implies (#[trigger] all[i]).percent
            <= (#[trigger] all[j]).percent && all[i].phase.rank() <= all[j].phase.rank() by {
            if j < head.len() {
                assert(all[i] == head[i] && all[j] == head[j]);
            } else if i >= head.len() {
                assert(all[i] == rest[i - head.len()] && all[j] == rest[j - head.len()]);
            } else {
                assert(all[i] == head[i] && all[j] == rest[j - head.len()]);
                assert(head[i].percent <= head.last().percent);
                assert(head[i].phase.rank() <= head.last().phase.rank());
            }
        }
    }
}

/// A move begins in a state that keeps the invariant, and the records of
/// its beginning are steady from zero.
pub proof fn lemma_begin_is_steady(
    platform: Platform,
    p: PartitionView,
    d: DiskView,
    options: MovePartitionOptions,
    temp_dir: Seq<char>,
)
    ensures
        begin_model(platform, p, d, options, temp_dir).machine.well_formed(),
        steady(begin_model(platform, p, d, options, temp_dir).records, 0, MovePhase::Validating),
        begin_model(platform, p, d, options, temp_dir).records.last().percent == begin_model(
            platform,
            p,
            d,
            options,
            temp_dir,
        ).machine.percent,
{
}

/// Only a move that validation accepts begins: a move starts its backup
/// exactly if it is valid and its partition is mounted, and any other ends
/// at once with an error of validation or of a precondition, before any
/// call is made.
pub proof fn lemma_only_valid_moves_begin(
    platform: Platform,
    p: PartitionView,
    d: DiskView,
    options: MovePartitionOptions,
    temp_dir: Seq<char>,
)
    ensures
        ({
            let begin = begin_model(platform, p, d, options, temp_dir);
            let valid = move_validation(p, d, options.target_offset as nat).is_valid;
            &&& begin.machine.phase == MovePhase::BackingUp <==> valid && p.mount_point is Some
            &&& begin.machine.phase == MovePhase::BackingUp || begin.machine.phase
                == MovePhase::Error
            &&& begin.action is CopyTree <==> begin.machine.phase == MovePhase::BackingUp
            &&& begin.action is Fail <==> begin.machine.phase == MovePhase::Error
            &&& !valid ==> begin.action->error.kind == ErrorKind::Validation
            &&& valid && p.mount_point is None ==> begin.action->error.kind
                == ErrorKind::Precondition
        }),
{
}

/// Over a whole move, from its beginning through whatever events follow,
/// the published percentages never decrease, each lies in the range of its
/// record's phase, and the phases never go back.
pub proof fn lemma_whole_move_is_steady(
    platform: Platform,
    p: PartitionView,
    d: DiskView,
    options: MovePartitionOptions,
    temp_dir: Seq<char>,
    events: Seq<MoveEvent>,
)
    ensures
        steady(
            begin_model(platform, p, d, options, temp_dir).records + run_records(
                begin_model(platform, p, d, options, temp_dir).machine,
                events,
            ),
            0,
            MovePhase::Validating,
        ),
{
    let begin = begin_model(platform, p, d, options, temp_dir);
    lemma_begin_is_steady(platform, p, d, options, temp_dir);
    lemma_run_is_steady(begin.machine, events);
    let head = begin.records;
    let rest = run_records(begin.machine, events);
    let all = head + rest;
    assert(head.last().phase == begin.machine.phase);
    assert forall|i: int| 0 <= i < all.len() implies (#[trigger] all[i]).well_formed()
        && all[i].percent >= 0 && all[i].phase.rank() >= MovePhase::Validating.rank() by {
        if i < head.len() {
            assert(all[i] == head[i]);
        } else {
            assert(all[i] == rest[i - head.len()]);
        }
    }
    assert forall|i: int, j: int| 0 <= i <= j < all.len() implies (#[trigger] all[i]).percent <= (
    #[trigger] all[j]).percent && all[i].phase.rank() <= all[j].phase.rank() by {
        if j < head.len() {
            assert(all[i] == head[i] && all[j] == head[j]);
        } else if i >= head.len() {
            assert(all[i] == rest[i - head.len()] && all[j] == rest[j - head.len()]);
        } else {
            assert(all[i] == head[i] && all[j] == rest[j - head.len()]);
            assert(head[i].percent <= head.last().percent);
            assert(head[i].phase.rank() <= head.last().phase.rank());
        }
    }
}

/// While a move is in a phase, every percentage it publishes for that
/// phase lies in the phase's range: a backup never reports more than 40
/// before the deletion begins, a restore reports 50 to 90, a verification
/// 90 to 100.
pub proof fn lemma_records_stay_in_range(m: MachineView, e: MoveEvent, i: int)
    requires
        0 <= i < advance_model(m, e).records.len(),
    ensures
        advance_model(m, e).records[i].phase.lowest() <= advance_model(m, e).records[i].percent
            <= advance_model(m, e).records[i].phase.highest() || advance_model(
            m,
            e,
        ).records[i].phase == MovePhase::Error,
        advance_model(m, e).records[i].phase == MovePhase::BackingUp ==> advance_model(
            m,
            e,
        ).records[i].percent <= 40,
        advance_model(m, e).records[i].can_cancel == advance_model(
            m,
            e,
        ).records[i].phase.cancellable(),
{
}

/// The phase that follows a phase on the way of a move.
pub open spec fn following(phase: MovePhase) -> MovePhase {
    match phase {
        MovePhase::Validating => MovePhase::BackingUp,
        MovePhase::BackingUp => MovePhase::DeletingOldPartition,
        MovePhase::DeletingOldPartition => MovePhase::CreatingNewPartition,
        MovePhase::CreatingNewPartition => MovePhase::RestoringData,
        MovePhase::RestoringData => MovePhase::Verifying,
        MovePhase::Verifying => MovePhase::Complete,
        MovePhase::Complete => MovePhase::Complete,
        MovePhase::Error => MovePhase::Error,
    }
}

/// A move passes through its phases in their order. A step leaves the move
/// in its phase, takes it into the phase that follows, or ends it in
/// `Error`; only a move that is not to be verified goes from the restore
/// straight to `Complete`. A move that has ended stays as it is.
pub proof fn lemma_phases_follow_in_order(m: MachineView, e: MoveEvent)
    ensures
        ({
            let next = advance_model(m, e).machine.phase;
            ||| next == m.phase
            ||| next == following(m.phase)
            ||| next == MovePhase::Error
            ||| (m.phase == MovePhase::RestoringData && !m.verify_after_move && next
                == MovePhase::Complete)
        }),
        m.phase.terminal() ==> advance_model(m, e) == halted(m),
        m.phase == MovePhase::RestoringData && advance_model(m, e).machine.phase
            == MovePhase::Verifying ==> m.verify_after_move,
{
}

/// Every error of a move names the phase in which it came up.
pub proof fn lemma_errors_name_their_phase(m: MachineView, e: MoveEvent)
    requires
        advance_model(m, e).action is Fail,
    ensures
        advance_model(m, e).action->error.phase == m.phase.name_text(),
        advance_model(m, e).records.len() == 1,
        advance_model(m, e).records[0].phase == MovePhase::Error,
        advance_model(m, e).records[0].message == advance_model(m, e).action->error.message,
{
}

/// A move can be cancelled only before the old partition is deleted: from
/// the deletion on a request to cancel changes nothing.
pub proof fn lemma_cancel_only_while_safe(m: MachineView)
    ensures
        !m.phase.cancellable() ==> advance_model(m, MoveEvent::Cancel) == halted(m),
        m.phase == MovePhase::BackingUp ==> advance_model(m, MoveEvent::Cancel).machine.phase
            == MovePhase::Error,
{
}

/// The staging directory is removed on the way to `Complete` and on no
/// other: a step hands out `Finish` exactly if it takes the move into
/// `Complete`, and a step into `Error` hands out `Fail`.
pub proof fn lemma_staging_kept_unless_complete(m: MachineView, e: MoveEvent)
    ensures
        advance_model(m, e).action is Finish <==> (m.phase != MovePhase::Complete
            && advance_model(m, e).machine.phase == MovePhase::Complete),
        advance_model(m, e).action matches ActionView::Finish { remove_staging }
            ==> remove_staging == m.staging,
        (m.phase != MovePhase::Error && advance_model(m, e).machine.phase == MovePhase::Error)
            <==> advance_model(m, e).action is Fail,
{
}

/// A message about data at risk holds the staging directory.
pub proof fn lemma_at_risk_names_staging(what: Seq<char>, staging: Seq<char>)
    ensures
        holds(at_risk_text(what, staging), staging),
{
    let lead = what
        + ". DATA AT RISK: the old partition no longer exists. Its content is kept in '"@;
    let text = at_risk_text(what, staging);
    assert(text.subrange(lead.len() as int, (lead.len() + staging.len()) as int) =~= staging);
}

/// A move that fails once the old partition is deleted, that is from the
/// creation of the new partition on, fails with data at risk, and its
/// message holds the staging directory.
pub proof fn lemma_late_failure_is_data_at_risk(m: MachineView, e: MoveEvent)
    requires
        m.phase.rank() >= MovePhase::CreatingNewPartition.rank(),
        advance_model(m, e).action is Fail,
    ensures
        advance_model(m, e).action->error.kind == ErrorKind::DataAtRisk,
        holds(advance_model(m, e).action->error.message, m.staging),
        advance_model(m, e).action->error.phase == m.phase.name_text(),
{
    match e {
        MoveEvent::Failed { diagnostic } => {
            lemma_at_risk_names_staging(
                "Failed to create partition at new location: "@ + diagnostic@,
                m.staging,
            );
            lemma_at_risk_names_staging(
                "Failed to restore partition data: "@ + diagnostic@,
                m.staging,
            );
            lemma_at_risk_names_staging("Data verification failed: "@ + diagnostic@, m.staging);
        },
        _ => {
            lemma_at_risk_names_staging(
                "Target partition must be mounted to restore data"@,
                m.staging,
            );
        },
    }
}

/// Computes how far a copy of `total` bytes is, in percent, once it has
/// handled `bytes` of them.
pub fn copy_percent(bytes: u64, total: u64) -> (p: u8)
    ensures
        p == copy_share(bytes as nat, total as nat),
{
    if total == 0 {
        0
    } else {
        let q: u128 = bytes as u128 * 100 / total as u128;
        if q > 100 {
            100
        } else {
            q as u8
        }
    }
}

fn at_risk_message(what: String, staging: &str) -> (s: String)
    ensures
        s@ == at_risk_text(what@, staging@),
{
    let mut s = what;
    s.append(". DATA AT RISK: the old partition no longer exists. Its content is kept in '");
    s.append(staging);
    s.append("' and can be restored from there by hand.");
    s
}

fn with_diagnostic(lead: &str, diagnostic: &str) -> (s: String)
    ensures
        s@ == lead@ + diagnostic@,
{
    let mut s = String::from_str(lead);
    s.append(diagnostic);
    s
}

fn one_record(record: MoveProgress) -> (v: Vec<MoveProgress>)
    ensures
        record_views(v@) == seq![record@],
{
    let mut v: Vec<MoveProgress> = Vec::new();
    v.push(record);
    assert(record_views(v@) =~= seq![record@]);
    v
}

fn two_records(first: MoveProgress, second: MoveProgress) -> (v: Vec<MoveProgress>)
    ensures
        record_views(v@) == seq![first@, second@],
{
    let mut v: Vec<MoveProgress> = Vec::new();
    v.push(first);
    v.push(second);
    assert(record_views(v@) =~= seq![first@, second@]);
    v
}

impl MoveOrchestrator {
    #[verifier::type_invariant]
    closed spec fn percent_in_range(&self) -> bool {
        self.phase.lowest() <= self.percent <= self.phase.highest()
    }

    /// The phase the move is in.
    pub fn phase(&self) -> (phase: MovePhase)
        ensures
            phase == self@.phase,
    {
        self.phase
    }

    /// The percentage last reported.
    pub fn percent(&self) -> (percent: u8)
        ensures
            percent == self@.percent,
            self@.well_formed(),
    {
        proof {
            use_type_invariant(self);
        }
        self.percent
    }

    /// The staging directory of the move.
    pub fn staging(&self) -> (path: &str)
        ensures
            path@ == self@.staging,
    {
        self.staging.as_str()
    }

    /// Whether the move can still be cancelled.
    pub fn can_cancel(&self) -> (r: bool)
        ensures
            r == self@.phase.cancellable(),
    {
        self.phase.can_cancel()
    }

    /// Whether the move has ended, in `Complete` or in `Error`.
    pub fn is_finished(&self) -> (r: bool)
        ensures
            r == self@.phase.terminal(),
    {
        self.phase.is_terminal()
    }

    fn halt(self) -> (step: MoveStep)
        ensures
            step@ == halted(self@),
            step.machine@.well_formed(),
    {
        proof {
            use_type_invariant(&self);
        }
        let records: Vec<MoveProgress> = Vec::new();
        assert(record_views(records@) =~= Seq::empty());
        MoveStep { machine: self, records, action: MoveAction::Wait }
    }

    fn fail(self, kind: ErrorKind, message: String) -> (step: MoveStep)
        ensures
            step@ == failure(self@, kind, message@),
            step.machine@.well_formed(),
    {
        proof {
            use_type_invariant(&self);
        }
        let record = MoveProgress::failed_at(self.percent, message.as_str());
        let error = PartitionError::new(kind, self.phase.name(), message);
        let machine = MoveOrchestrator { phase: MovePhase::Error, ..self };
        MoveStep { machine, records: one_record(record), action: MoveAction::Fail { error } }
    }

    fn report_copy(self, record: MoveProgress) -> (step: MoveStep)
        requires
            record@.phase == self@.phase,
            record@.well_formed(),
        ensures
            step@ == copy_step(self@, record@),
            step.machine@.well_formed(),
    {
        proof {
            use_type_invariant(&self);
        }
        if record.percent >= self.percent {
            let machine = MoveOrchestrator { percent: record.percent, ..self };
            MoveStep { machine, records: one_record(record), action: MoveAction::Wait }
        } else {
            self.halt()
        }
    }

    fn complete(self, records: Vec<MoveProgress>) -> (step: MoveStep)
        requires
            records.len() > 0,
            record_views(records@).last().percent == 100,
        ensures
            step@ == finish(self@, record_views(records@)),
            step.machine@.well_formed(),
    {
        let remove_staging = self.staging.clone();
        let machine = MoveOrchestrator { phase: MovePhase::Complete, percent: 100, ..self };
        MoveStep { machine, records, action: MoveAction::Finish { remove_staging } }
    }

    /// Answers what came of the last action: gives the state after it, the
    /// records to publish and the action to perform next.
    pub fn advance(self, event: MoveEvent) -> (step: MoveStep)
        ensures
            step@ == advance_model(self@, event),
            step.machine@.well_formed(),
    {
        proof {
            use_type_invariant(&self);
        }
        let total: u64 = self.total_bytes;
        match self.phase {
            MovePhase::BackingUp => match event {
                MoveEvent::Copied { bytes } => {
                    let record = MoveProgress::backing_up(copy_percent(bytes, total), bytes, total);
                    self.report_copy(record)
                },
                MoveEvent::Succeeded => {
                    let records = two_records(
                        MoveProgress::backing_up(100, total, total),
                        MoveProgress::deleting_partition("Deleting old partition..."),
                    );
                    let device_path = self.device_path.clone();
                    let machine = MoveOrchestrator {
                        phase: MovePhase::DeletingOldPartition,
                        percent: 40,
                        ..self
                    };
                    MoveStep {
                        machine,
                        records,
                        action: MoveAction::DeleteTableEntry { device_path },
                    }
                },
                MoveEvent::Failed { diagnostic } => {
                    let message = with_diagnostic(
                        "Failed to backup partition data: ",
                        diagnostic.as_str(),
                    );
                    self.fail(ErrorKind::Driver, message)
                },
                MoveEvent::Cancel => {
                    let mut message = String::from_str(
                        "Move cancelled. The disk was not changed. The partial backup is kept in '",
                    );
                    message.append(self.staging.as_str());
                    message.append("'.");
                    self.fail(ErrorKind::Cancelled, message)
                },
                _ => self.halt(),
            },
            MovePhase::DeletingOldPartition => match event {
                MoveEvent::Succeeded => {
                    let records = one_record(
                        MoveProgress::creating_partition("Creating partition at new location..."),
                    );
                    let offset: u64 = self.target_offset;
                    let machine = MoveOrchestrator {
                        phase: MovePhase::CreatingNewPartition,
                        percent: 50,
                        ..self
                    };
                    MoveStep {
                        machine,
                        records,
                        action: MoveAction::CreateTableEntry { offset, size: total },
                    }
                },
                MoveEvent::Failed { diagnostic } => {
                    let message = with_diagnostic(
                        "Failed to delete old partition: ",
                        diagnostic.as_str(),
                    );
                    self.fail(ErrorKind::Driver, message)
                },
                _ => self.halt(),
            },
            MovePhase::CreatingNewPartition => match event {
                MoveEvent::Created { mount_point: Some(mp) } => {
                    let records = one_record(MoveProgress::restoring_data(0, 0, total));
                    let source = self.staging.clone();
                    let destination = mp.clone();
                    let machine = MoveOrchestrator {
                        phase: MovePhase::RestoringData,
                        percent: 50,
                        mount_point: mp,
                        ..self
                    };
                    MoveStep {
                        machine,
                        records,
                        action: MoveAction::CopyTree { source, destination },
                    }
                },
                MoveEvent::Created { mount_point: None } => {
                    let message = at_risk_message(
                        String::from_str("Target partition must be mounted to restore data"),
                        self.staging.as_str(),
                    );
                    self.fail(ErrorKind::DataAtRisk, message)
                },
                MoveEvent::Failed { diagnostic } => {
                    let message = at_risk_message(
                        with_diagnostic(
                            "Failed to create partition at new location: ",
                            diagnostic.as_str(),
                        ),
                        self.staging.as_str(),
                    );
                    self.fail(ErrorKind::DataAtRisk, message)
                },
                _ => self.halt(),
            },
            MovePhase::RestoringData => match event {
                MoveEvent::Copied { bytes } => {
                    let record = MoveProgress::restoring_data(
                        copy_percent(bytes, total),
                        bytes,
                        total,
                    );
                    self.report_copy(record)
                },
                MoveEvent::Succeeded => {
                    if self.verify_after_move {
                        let records = two_records(
                            MoveProgress::restoring_data(100, total, total),
                            MoveProgress::verifying(0),
                        );
                        let staging = self.staging.clone();
                        let mount_point = self.mount_point.clone();
                        let machine = MoveOrchestrator {
                            phase: MovePhase::Verifying,
                            percent: 90,
                            ..self
                        };
                        MoveStep {
                            machine,
                            records,
                            action: MoveAction::Verify { staging, mount_point },
                        }
                    } else {
                        let records = two_records(
                            MoveProgress::restoring_data(100, total, total),
                            MoveProgress::complete("Partition moved successfully!"),
                        );
                        self.complete(records)
                    }
                },
                MoveEvent::Failed { diagnostic } => {
                    let message = at_risk_message(
                        with_diagnostic("Failed to restore partition data: ", diagnostic.as_str()),
                        self.staging.as_str(),
                    );
                    self.fail(ErrorKind::DataAtRisk, message)
                },
                _ => self.halt(),
            },
            MovePhase::Verifying => match event {
                MoveEvent::Succeeded => {
                    let records = two_records(
                        MoveProgress::verifying(100),
                        MoveProgress::complete("Partition moved successfully!"),
                    );
                    self.complete(records)
                },
                MoveEvent::VerifyUnavailable => {
                    let records = one_record(
                        MoveProgress::complete(
                            "Partition moved successfully! The restored data was not verified: the driver offers no verification.",
                        ),
                    );
                    self.complete(records)
                },
                MoveEvent::Failed { diagnostic } => {
                    let message = at_risk_message(
                        with_diagnostic("Data verification failed: ", diagnostic.as_str()),
                        self.staging.as_str(),
                    );
                    self.fail(ErrorKind::DataAtRisk, message)
                },
                _ => self.halt(),
            },
            _ => self.halt(),
        }
    }
}

/// Chooses the staging directory of a move: the one asked for, or else the
/// directory `partition_backup_` with the partition's number, under the
/// temporary directory.
pub fn staging_path(
    platform: Platform,
    backup_path: &Option<String>,
    temp_dir: &str,
    number: u32,
) -> (path: String)
    ensures
        path@ == staging_text(platform, opt_text(*backup_path), temp_dir@, number as nat),
{
    match backup_path {
        Some(path) => path.clone(),
        None => {
            let mut path = String::from_str(temp_dir);
            match platform {
                Platform::Windows => path.append("\\"),
                _ => path.append("/"),
            }
            path.append("partition_backup_");
            path.append(decimal_string(number as u128).as_str());
            path
        },
    }
}

/// Begins the move of `partition` on `disk`.
///
/// The move is validated first. A valid move of a mounted partition starts
/// with the backup of the partition's content into the staging directory;
/// any other ends at once, with nothing changed. What follows is decided by
/// `MoveOrchestrator::advance`, event by event.
pub fn move_partition(
    platform: Platform,
    partition: &PartitionInfo,
    disk: &DiskInfo,
    options: &MovePartitionOptions,
    temp_dir: &str,
) -> (step: MoveStep)
    ensures
        step@ == begin_model(platform, partition@, disk@, *options, temp_dir@),
        step.machine@.well_formed(),
{
    let verdict = validate_move(partition, disk, options.target_offset);
    let staging = staging_path(platform, &options.backup_path, temp_dir, partition.number);
    let opening = MoveProgress::validating("Validating move operation...");
    let mount_point = match &partition.mount_point {
        Some(mp) => mp.clone(),
        None => String::new(),
    };
    let machine = MoveOrchestrator {
        phase: MovePhase::Validating,
        percent: 0,
        verify_after_move: options.verify_after_move,
        target_offset: options.target_offset,
        total_bytes: partition.total_size,
        device_path: partition.device_path.clone(),
        mount_point,
        staging,
    };
    if !verdict.is_valid {
        let mut message = String::from_str("Move validation failed: ");
        message.append(join(&verdict.errors, ", ").as_str());
        let end = machine.fail(ErrorKind::Validation, message);
        let mut records = one_record(opening);
        let mut rest = end.records;
        let ghost before = record_views(records@);
        let ghost after = record_views(rest@);
        records.append(&mut rest);
        assert(record_views(records@) =~= before + after);
        MoveStep { machine: end.machine, records, action: end.action }
    } else {
        let preparing = MoveProgress::validating("Preparing backup location...");
        let backing = MoveOrchestrator { phase: MovePhase::BackingUp, ..machine };
        match &partition.mount_point {
            None => {
                let end = backing.fail(
                    ErrorKind::Precondition,
                    String::from_str("Partition must be mounted to back up its data"),
                );
                let mut records = two_records(opening, preparing);
                let mut rest = end.records;
                let ghost before = record_views(records@);
                let ghost after = record_views(rest@);
                records.append(&mut rest);
                assert(record_views(records@) =~= before + after);
                MoveStep { machine: end.machine, records, action: end.action }
            },
            Some(mp) => {
                let mut records = two_records(opening, preparing);
                let ghost before = record_views(records@);
                let first = MoveProgress::backing_up(0, 0, partition.total_size);
                records.push(first);
                assert(record_views(records@) =~= seq![opening@, preparing@, first@]);
                let source = mp.clone();
                let destination = backing.staging.clone();
                MoveStep {
                    machine: backing,
                    records,
                    action: MoveAction::CopyTree { source, destination },
                }
            },
        }
    }
}

} // verus!
