//! Moving a partition to another place on its disk: validation of the
//! target, and the progress records of the move.

use crate::resize::validation::{
    only_if, push_message, push_text, ValidationResult, ValidationView,
};
use crate::text::{
    decimal, decimal_string, format_byte_sum, format_bytes, format_bytes_text, holds, texts,
};
use crate::types::{DiskInfo, DiskView, PartitionFlag, PartitionInfo, PartitionView};
use vstd::prelude::*;
use vstd::string::*;

verus! {

/// What a caller asks of a move.
#[derive(Debug, Clone)]
pub struct MovePartitionOptions {
    /// Where the partition shall start, in bytes from the start of the disk.
    pub target_offset: u64,
    /// Whether the content is verified once it has been restored.
    pub verify_after_move: bool,
    /// The staging directory; a directory under the temporary directory,
    /// named after the partition's number, where none is given.
    pub backup_path: Option<String>,
}

/// Whether a partition of `size` bytes placed at `target` collides with `q`:
/// its start lies in `q`, or its end lies in `q`, or it spans `q`.
pub open spec fn collides(target: nat, size: nat, q: PartitionView) -> bool {
    let end = target + size;
    ||| q.start_offset <= target < q.end()
    ||| q.start_offset < end <= q.end()
    ||| (target <= q.start_offset && q.end() <= end)
}

/// Whether `q` is a partition other than the moved one, by id, that a
/// partition of `size` bytes placed at `target` collides with.
pub open spec fn conflicts(id: Seq<char>, target: nat, size: nat, q: PartitionView) -> bool {
    q.id != id && collides(target, size, q)
}

/// Whether any of `parts` conflicts with the placement.
pub open spec fn has_conflict(
    parts: Seq<PartitionView>,
    id: Seq<char>,
    target: nat,
    size: nat,
) -> bool {
    exists|i: int| 0 <= i < parts.len() && conflicts(id, target, size, #[trigger] parts[i])
}

/// The error that names a partition in the way of a move.
pub open spec fn overlap_text(q: PartitionView) -> Seq<char> {
    "Target location overlaps with partition '"@ + q.device_path + "' at offset "@
        + format_bytes_text(q.start_offset)
}

/// One overlap error for each conflicting partition, in the disk's order.
pub open spec fn overlap_errors(
    parts: Seq<PartitionView>,
    id: Seq<char>,
    target: nat,
    size: nat,
) -> Seq<Seq<char>>
    decreases parts.len(),
{
    if parts.len() == 0 {
        Seq::empty()
    } else {
        overlap_errors(parts.drop_last(), id, target, size) + only_if(
            conflicts(id, target, size, parts.last()),
            seq![overlap_text(parts.last())],
        )
    }
}

/// The error for a target beyond the end of the disk.
pub open spec fn out_of_bounds_text(disk_size: nat, required: nat) -> Seq<char> {
    "Target location is outside disk bounds. Disk size: "@ + format_bytes_text(disk_size)
        + ", Required: "@ + format_bytes_text(required)
}

/// The warning for moving a mounted partition.
pub open spec fn move_mounted_text() -> Seq<char> {
    "Partition is currently mounted. It must be unmounted before moving."@
}

/// The error for moving a mounted boot or system partition.
pub open spec fn move_mounted_critical_text() -> Seq<char> {
    "Cannot move system or boot partition while it's mounted."@
}

/// The warning for moving a boot partition.
pub open spec fn move_boot_text() -> Seq<char> {
    "WARNING: This is a boot partition. Moving it may make the system unbootable!"@
}

/// The warning for moving a system partition.
pub open spec fn move_system_text() -> Seq<char> {
    "WARNING: This is a system partition. Moving it requires extreme caution!"@
}

/// The warning that states how much room the staging copy needs.
pub open spec fn backup_space_text(size: nat) -> Seq<char> {
    "Moving requires temporary backup space of approximately "@ + format_bytes_text(size)
        + ". Ensure you have enough free disk space."@
}

/// The verdict on moving `p` on disk `d` so that it starts at `target`.
///
/// The move is valid exactly if the moved partition ends within the disk,
/// conflicts with no other partition, and is not a mounted boot or system
/// partition.
pub open spec fn move_validation(p: PartitionView, d: DiskView, target: nat) -> ValidationView {
    let in_bounds = target + p.total_size <= d.total_size;
    let blocked = p.is_mounted && p.is_critical();
    ValidationView {
        is_valid: in_bounds && !has_conflict(d.partitions, p.id, target, p.total_size)
            && !blocked,
        errors: only_if(!in_bounds, seq![out_of_bounds_text(d.total_size, target + p.total_size)])
            + overlap_errors(d.partitions, p.id, target, p.total_size) + only_if(
            blocked,
            seq![move_mounted_critical_text()],
        ),
        warnings: only_if(p.is_mounted, seq![move_mounted_text()]) + only_if(
            p.has(PartitionFlag::Boot),
            seq![move_boot_text()],
        ) + only_if(p.has(PartitionFlag::System), seq![move_system_text()]) + seq![
            backup_space_text(p.total_size),
        ],
        safe_size: Some(p.total_size),
        minimum_size: None,
        maximum_size: None,
        has_adjacent_space: false,
        adjacent_space: 0,
    }
}

/// Every partition that conflicts with a placement has its overlap error
/// among the overlap errors, and that error holds the partition's device
/// path.
pub proof fn lemma_overlap_errors_name_conflicts(
    parts: Seq<PartitionView>,
    id: Seq<char>,
    target: nat,
    size: nat,
    i: int,
)
    requires
        0 <= i < parts.len(),
        conflicts(id, target, size, parts[i]),
    ensures
        overlap_errors(parts, id, target, size).contains(overlap_text(parts[i])),
        holds(overlap_text(parts[i]), parts[i].device_path),
    decreases parts.len(),
{
    let init = parts.drop_last();
    let head = overlap_errors(init, id, target, size);
    let all = overlap_errors(parts, id, target, size);
    if i == parts.len() - 1 {
        assert(all[all.len() - 1] == overlap_text(parts[i]));
    } else {
        lemma_overlap_errors_name_conflicts(init, id, target, size, i);
        let k = choose|k: int| 0 <= k < head.len() && head[k] == overlap_text(init[i]);
        assert(all[k] == overlap_text(parts[i]));
    }
    let text = overlap_text(parts[i]);
    let lead = "Target location overlaps with partition '"@;
    let path = parts[i].device_path;
    assert(text.subrange(lead.len() as int, (lead.len() + path.len()) as int) =~= path);
}

/// There are overlap errors exactly if some partition conflicts.
pub proof fn lemma_overlap_errors_empty(
    parts: Seq<PartitionView>,
    id: Seq<char>,
    target: nat,
    size: nat,
)
    ensures
        overlap_errors(parts, id, target, size).len() == 0 <==> !has_conflict(
            parts,
            id,
            target,
            size,
        ),
    decreases parts.len(),
{
    if parts.len() > 0 {
        let init = parts.drop_last();
        lemma_overlap_errors_empty(init, id, target, size);
        if has_conflict(init, id, target, size) {
            let w = choose|i: int|
                0 <= i < init.len() && conflicts(id, target, size, #[trigger] init[i]);
            assert(conflicts(id, target, size, parts[w]));
        }
        if has_conflict(parts, id, target, size) {
            let w = choose|i: int|
                0 <= i < parts.len() && conflicts(id, target, size, #[trigger] parts[i]);
            if w < init.len() {
                assert(conflicts(id, target, size, init[w]));
            }
        }
        if conflicts(id, target, size, parts.last()) {
            assert(conflicts(id, target, size, parts[parts.len() - 1]));
        }
    }
}

/// A placement of at least one byte collides with a partition of at least
/// one byte exactly if the two have a byte in common.
pub proof fn lemma_collides_iff_shared_byte(target: nat, size: nat, q: PartitionView)
    requires
        size > 0,
        q.total_size > 0,
    ensures
        collides(target, size, q) <==> q.shares_bytes_with(target, size),
{
    crate::types::lemma_intervals_share_bytes(q.start_offset, q.total_size, target, size);
}

/// A move whose target collides with another partition of the disk is
/// reported invalid, with an error that names that partition.
pub proof fn lemma_conflicting_move_is_invalid(
    p: PartitionView,
    d: DiskView,
    target: nat,
    i: int,
)
    requires
        0 <= i < d.partitions.len(),
        d.partitions[i].id != p.id,
        collides(target, p.total_size, d.partitions[i]),
    ensures
        !move_validation(p, d, target).is_valid,
        move_validation(p, d, target).errors.contains(overlap_text(d.partitions[i])),
        holds(overlap_text(d.partitions[i]), d.partitions[i].device_path),
{
    lemma_overlap_errors_name_conflicts(d.partitions, p.id, target, p.total_size, i);
    let inner = overlap_errors(d.partitions, p.id, target, p.total_size);
    let all = move_validation(p, d, target).errors;
    let k = choose|k: int| 0 <= k < inner.len() && inner[k] == overlap_text(d.partitions[i]);
    let lead = only_if(
        !(target + p.total_size <= d.total_size),
        seq![out_of_bounds_text(d.total_size, target + p.total_size)],
    );
    assert(all[lead.len() + k] == overlap_text(d.partitions[i]));
}

/// Whenever two intervals have a byte in common, the placement of the one
/// collides with the other.
pub proof fn lemma_shared_byte_collides(target: nat, size: nat, q: PartitionView)
    requires
        q.shares_bytes_with(target, size),
    ensures
        collides(target, size, q),
{
    crate::types::lemma_intervals_share_bytes(q.start_offset, q.total_size, target, size);
}

/// Whether no two partitions of the disk have the same id.
pub open spec fn ids_distinct(d: DiskView) -> bool {
    forall|i: int, j: int| #[trigger] d.distinct_pair(i, j) ==> d.partitions[i].id != d.partitions[j].id
}

/// On a well-formed disk whose partitions have ids of their own, a valid
/// move of one of them leaves the disk well-formed: the partition at its
/// new place lies within the disk and shares no byte with another.
pub proof fn lemma_valid_move_keeps_disk_well_formed(d: DiskView, k: int, target: nat)
    requires
        d.well_formed(),
        ids_distinct(d),
        0 <= k < d.partitions.len(),
        move_validation(d.partitions[k], d, target).is_valid,
    ensures
        (DiskView {
            partitions: d.partitions.update(
                k,
                PartitionView { start_offset: target, ..d.partitions[k] },
            ),
            ..d
        }).well_formed(),
{
    let p = d.partitions[k];
    let moved = PartitionView { start_offset: target, ..p };
    let after = DiskView { partitions: d.partitions.update(k, moved), ..d };
    assert forall|i: int| 0 <= i < after.partitions.len() implies (
    #[trigger] after.partitions[i]).end() <= after.total_size by {
        if i != k {
            assert(d.partitions[i].end() <= d.total_size);
        }
    }
    assert forall|i: int, j: int| #[trigger] after.distinct_pair(i, j) implies !after.partitions[i].shares_bytes_with(
        after.partitions[j].start_offset,
        after.partitions[j].total_size,
    ) by {
        assert(d.distinct_pair(i, j));
        assert(d.distinct_pair(j, i));
        let a = after.partitions[i];
        let b = after.partitions[j];
        crate::types::lemma_intervals_share_bytes(
            a.start_offset,
            a.total_size,
            b.start_offset,
            b.total_size,
        );
        if i == k {
            assert(!conflicts(p.id, target, p.total_size, d.partitions[j]));
            crate::types::lemma_intervals_share_bytes(
                b.start_offset,
                b.total_size,
                target,
                p.total_size,
            );
            if a.shares_bytes_with(b.start_offset, b.total_size) {
                lemma_shared_byte_collides(target, p.total_size, b);
            }
        } else if j == k {
            assert(!conflicts(p.id, target, p.total_size, d.partitions[i]));
            if a.shares_bytes_with(b.start_offset, b.total_size) {
                lemma_shared_byte_collides(target, p.total_size, a);
            }
        }
    }
}

fn out_of_bounds_message(disk_size: u64, target: u64, size: u64) -> (s: String)
    ensures
        s@ == out_of_bounds_text(disk_size as nat, (target + size) as nat),
{
    let mut s = String::from_str("Target location is outside disk bounds. Disk size: ");
    s.append(format_bytes(disk_size).as_str());
    s.append(", Required: ");
    s.append(format_byte_sum(target, size).as_str());
    s
}

fn overlap_message(other: &PartitionInfo) -> (s: String)
    ensures
        s@ == overlap_text(other@),
{
    let mut s = String::from_str("Target location overlaps with partition '");
    s.append(other.device_path.as_str());
    s.append("' at offset ");
    s.append(format_bytes(other.start_offset).as_str());
    s
}

fn backup_space_message(size: u64) -> (s: String)
    ensures
        s@ == backup_space_text(size as nat),
{
    let mut s = String::from_str("Moving requires temporary backup space of approximately ");
    s.append(format_bytes(size).as_str());
    s.append(". Ensure you have enough free disk space.");
    s
}

/// Decides whether a partition of `size` bytes placed at `target` collides
/// with `other`.
pub fn placement_collides(target: u64, size: u64, other: &PartitionInfo) -> (r: bool)
    ensures
        r == collides(target as nat, size as nat, other@),
{
    let start: u128 = target as u128;
    let end: u128 = target as u128 + size as u128;
    let other_start: u128 = other.start_offset as u128;
    let other_end: u128 = other.end_offset();
    (start >= other_start && start < other_end) || (end > other_start && end <= other_end) || (
    start <= other_start && end >= other_end)
}

/// Validates a request to move `partition` on `disk` so that it starts at
/// `target_offset`. Reads nothing but its arguments.
pub fn validate_move(partition: &PartitionInfo, disk: &DiskInfo, target_offset: u64) -> (result:
    ValidationResult)
    ensures
        result@ == move_validation(partition@, disk@, target_offset as nat),
{
    let mut errors: Vec<String> = Vec::new();
    let mut warnings: Vec<String> = Vec::new();
    let mut is_valid = true;
    assert(texts(errors@) =~= Seq::empty());
    assert(texts(warnings@) =~= Seq::empty());
    let size: u64 = partition.total_size;

    if target_offset as u128 + size as u128 > disk.total_size as u128 {
        is_valid = false;
        push_message(&mut errors, out_of_bounds_message(disk.total_size, target_offset, size));
    }
    let ghost lead = texts(errors@);
    let ghost in_bounds = is_valid;

    let n: usize = disk.partitions.len();
    let mut i: usize = 0;
    while i < n
        invariant
            n == disk.partitions.len(),
            i <= n,
            size == partition.total_size,
            texts(errors@) == lead + overlap_errors(
                disk@.partitions.take(i as int),
                partition@.id,
                target_offset as nat,
                size as nat,
            ),
            is_valid == (in_bounds && !has_conflict(
                disk@.partitions.take(i as int),
                partition@.id,
                target_offset as nat,
                size as nat,
            )),
        decreases n - i,
    {
        let other = &disk.partitions[i];
        proof {
            let done = disk@.partitions.take(i as int);
            let more = disk@.partitions.take(i + 1);
            assert(more.drop_last() =~= done);
            assert(more.last() == other@);
            lemma_overlap_errors_empty(done, partition@.id, target_offset as nat, size as nat);
            lemma_overlap_errors_empty(more, partition@.id, target_offset as nat, size as nat);
        }
        if other.id != partition.id && placement_collides(target_offset, size, other) {
            is_valid = false;
            push_message(&mut errors, overlap_message(other));
        }
        i = i + 1;
    }
    proof {
        assert(disk@.partitions.take(n as int) =~= disk@.partitions);
    }

    let boot = partition.has_flag(PartitionFlag::Boot);
    let system = partition.has_flag(PartitionFlag::System);
    if partition.is_mounted {
        push_text(&mut warnings, "Partition is currently mounted. It must be unmounted before moving.");
        if system || boot {
            is_valid = false;
            push_text(&mut errors, "Cannot move system or boot partition while it's mounted.");
        }
    }
    if boot {
        push_text(
            &mut warnings,
            "WARNING: This is a boot partition. Moving it may make the system unbootable!",
        );
    }
    if system {
        push_text(
            &mut warnings,
            "WARNING: This is a system partition. Moving it requires extreme caution!",
        );
    }
    push_message(&mut warnings, backup_space_message(size));

    let result = ValidationResult {
        is_valid,
        errors,
        warnings,
        safe_size: Some(size),
        minimum_size: None,
        maximum_size: None,
        has_adjacent_space: false,
        adjacent_space: 0,
    };
    proof {
        let want = move_validation(partition@, disk@, target_offset as nat);
        assert(result@.errors =~= want.errors);
        assert(result@.warnings =~= want.warnings);
    }
    result
}

/// The phases of a move, in the order in which a move passes through them;
/// `Error` can follow any phase but `Complete`.
#[derive(Debug, Clone, Copy, PartialEq, Eq, Structural)]
pub enum MovePhase {
    Validating,
    BackingUp,
    DeletingOldPartition,
    CreatingNewPartition,
    RestoringData,
    Verifying,
    Complete,
    Error,
}

impl MovePhase {
    /// The place of the phase in the order of a move.
    pub open spec fn rank(self) -> nat {
        match self {
            MovePhase::Validating => 0,
            MovePhase::BackingUp => 1,
            MovePhase::DeletingOldPartition => 2,
            MovePhase::CreatingNewPartition => 3,
            MovePhase::RestoringData => 4,
            MovePhase::Verifying => 5,
            MovePhase::Complete => 6,
            MovePhase::Error => 7,
        }
    }

    /// The least percentage of the whole move that the phase reports.
    pub open spec fn lowest(self) -> nat {
        match self {
            MovePhase::Validating => 0,
            MovePhase::BackingUp => 0,
            MovePhase::DeletingOldPartition => 40,
            MovePhase::CreatingNewPartition => 50,
            MovePhase::RestoringData => 50,
            MovePhase::Verifying => 90,
            MovePhase::Complete => 100,
            MovePhase::Error => 0,
        }
    }

    /// The greatest percentage of the whole move that the phase reports.
    pub open spec fn highest(self) -> nat {
        match self {
            MovePhase::Validating => 0,
            MovePhase::BackingUp => 40,
            MovePhase::DeletingOldPartition => 40,
            MovePhase::CreatingNewPartition => 50,
            MovePhase::RestoringData => 90,
            MovePhase::Verifying => 100,
            MovePhase::Complete => 100,
            MovePhase::Error => 100,
        }
    }

    /// Whether a move may still be cancelled in this phase: only before the
    /// old partition is deleted.
    pub open spec fn cancellable(self) -> bool {
        self == MovePhase::Validating || self == MovePhase::BackingUp
    }

    /// Whether a move rests in this phase for good.
    pub open spec fn terminal(self) -> bool {
        self == MovePhase::Complete || self == MovePhase::Error
    }

    /// The name of the phase.
    pub open spec fn name_text(self) -> Seq<char> {
        match self {
            MovePhase::Validating => "Validating"@,
            MovePhase::BackingUp => "BackingUp"@,
            MovePhase::DeletingOldPartition => "DeletingOldPartition"@,
            MovePhase::CreatingNewPartition => "CreatingNewPartition"@,
            MovePhase::RestoringData => "RestoringData"@,
            MovePhase::Verifying => "Verifying"@,
            MovePhase::Complete => "Complete"@,
            MovePhase::Error => "Error"@,
        }
    }

    /// Whether a move may still be cancelled in this phase.
    pub fn can_cancel(&self) -> (r: bool)
        ensures
            r == self.cancellable(),
    {
        match self {
            MovePhase::Validating | MovePhase::BackingUp => true,
            _ => false,
        }
    }

    /// Whether a move rests in this phase for good.
    pub fn is_terminal(&self) -> (r: bool)
        ensures
            r == self.terminal(),
    {
        match self {
            MovePhase::Complete | MovePhase::Error => true,
            _ => false,
        }
    }

    /// The name of the phase, as errors give it.
    pub fn name(&self) -> (s: &'static str)
        ensures
            s@ == self.name_text(),
    {
        match self {
            MovePhase::Validating => "Validating",
            MovePhase::BackingUp => "BackingUp",
            MovePhase::DeletingOldPartition => "DeletingOldPartition",
            MovePhase::CreatingNewPartition => "CreatingNewPartition",
            MovePhase::RestoringData => "RestoringData",
            MovePhase::Verifying => "Verifying",
            MovePhase::Complete => "Complete",
            MovePhase::Error => "Error",
        }
    }
}

/// A snapshot of a move's progress, as handed to an observer.
#[derive(Debug, Clone)]
pub struct MoveProgress {
    pub phase: MovePhase,
    /// How much of the whole move is done, from 0 to 100.
    pub percent: u8,
    pub message: String,
    pub bytes_processed: u64,
    pub total_bytes: u64,
    /// Whether the move can be cancelled at this point.
    pub can_cancel: bool,
}

/// A progress record as a mathematical value.
pub struct ProgressView {
    pub phase: MovePhase,
    pub percent: nat,
    pub message: Seq<char>,
    pub bytes_processed: nat,
    pub total_bytes: nat,
    pub can_cancel: bool,
}

impl View for MoveProgress {
    type V = ProgressView;

    open spec fn view(&self) -> ProgressView {
        ProgressView {
            phase: self.phase,
            percent: self.percent as nat,
            message: self.message@,
            bytes_processed: self.bytes_processed as nat,
            total_bytes: self.total_bytes as nat,
            can_cancel: self.can_cancel,
        }
    }
}

impl ProgressView {
    /// The invariant of a progress record: the percentage lies in the range
    /// of its phase, and the record allows cancelling exactly if its phase
    /// does.
    pub open spec fn well_formed(self) -> bool {
        &&& self.phase.lowest() <= self.percent <= self.phase.highest()
        &&& self.can_cancel == self.phase.cancellable()
    }
}

/// A phase's own percentage, cut off at 100.
pub open spec fn capped(percent: nat) -> nat {
    if percent > 100 {
        100
    } else {
        percent
    }
}

/// The share of the whole move that is done when the backup is at
/// `percent`: the backup covers 0 to 40.
pub open spec fn backup_share(percent: nat) -> nat {
    capped(percent) * 2 / 5
}

/// The share of the whole move that is done when the restore is at
/// `percent`: the restore covers 50 to 90.
pub open spec fn restore_share(percent: nat) -> nat {
    50 + capped(percent) * 2 / 5
}

/// The share of the whole move that is done when the verification is at
/// `percent`: the verification covers 90 to 100.
pub open spec fn verify_share(percent: nat) -> nat {
    90 + capped(percent) / 10
}

/// A message that ends in a phase's own percentage with one decimal.
pub open spec fn percent_text(lead: Seq<char>, percent: nat) -> Seq<char> {
    lead + decimal(capped(percent)) + ".0%"@
}

/// The record of a phase that reports no bytes.
pub open spec fn plain_record(phase: MovePhase, percent: nat, message: Seq<char>) -> ProgressView {
    ProgressView {
        phase,
        percent,
        message,
        bytes_processed: 0,
        total_bytes: 0,
        can_cancel: phase.cancellable(),
    }
}

/// The record of a backup at `percent` of its own work.
pub open spec fn backing_up_record(percent: nat, bytes_processed: nat, total_bytes: nat) -> ProgressView {
    ProgressView {
        phase: MovePhase::BackingUp,
        percent: backup_share(percent),
        message: percent_text("Backing up partition data... "@, percent),
        bytes_processed,
        total_bytes,
        can_cancel: true,
    }
}

/// The record of a restore at `percent` of its own work.
pub open spec fn restoring_record(percent: nat, bytes_processed: nat, total_bytes: nat) -> ProgressView {
    ProgressView {
        phase: MovePhase::RestoringData,
        percent: restore_share(percent),
        message: percent_text("Restoring partition data... "@, percent),
        bytes_processed,
        total_bytes,
        can_cancel: false,
    }
}

/// The record of a verification at `percent` of its own work.
pub open spec fn verifying_record(percent: nat) -> ProgressView {
    plain_record(
        MovePhase::Verifying,
        verify_share(percent),
        percent_text("Verifying data integrity... "@, percent),
    )
}

fn percent_message(lead: &str, percent: u8) -> (s: String)
    requires
        percent <= 100,
    ensures
        s@ == percent_text(lead@, percent as nat),
{
    let mut s = String::from_str(lead);
    s.append(decimal_string(percent as u128).as_str());
    s.append(".0%");
    s
}

fn cap(percent: u8) -> (c: u8)
    ensures
        c == capped(percent as nat),
{
    if percent > 100 {
        100
    } else {
        percent
    }
}

impl MoveProgress {
    /// The record of the validation, at 0 percent.
    pub fn validating(message: &str) -> (r: MoveProgress)
        ensures
            r@ == plain_record(MovePhase::Validating, 0, message@),
            r@.well_formed(),
    {
        MoveProgress {
            phase: MovePhase::Validating,
            percent: 0,
            message: String::from_str(message),
            bytes_processed: 0,
            total_bytes: 0,
            can_cancel: true,
        }
    }

    /// The record of a backup that has done `percent` of its own work,
    /// which is 0 to 40 percent of the move.
    pub fn backing_up(percent: u8, bytes_processed: u64, total_bytes: u64) -> (r: MoveProgress)
        ensures
            r@ == backing_up_record(percent as nat, bytes_processed as nat, total_bytes as nat),
            r@.well_formed(),
    {
        let own: u8 = cap(percent);
        MoveProgress {
            phase: MovePhase::BackingUp,
            percent: own * 2 / 5,
            message: percent_message("Backing up partition data... ", own),
            bytes_processed,
            total_bytes,
            can_cancel: true,
        }
    }

    /// The record of the deletion of the old partition, at 40 percent. From
    /// here on a move cannot be cancelled.
    pub fn deleting_partition(message: &str) -> (r: MoveProgress)
        ensures
            r@ == plain_record(MovePhase::DeletingOldPartition, 40, message@),
            r@.well_formed(),
    {
        MoveProgress {
            phase: MovePhase::DeletingOldPartition,
            percent: 40,
            message: String::from_str(message),
            bytes_processed: 0,
            total_bytes: 0,
            can_cancel: false,
        }
    }

    /// The record of the creation of the new partition, at 50 percent.
    pub fn creating_partition(message: &str) -> (r: MoveProgress)
        ensures
            r@ == plain_record(MovePhase::CreatingNewPartition, 50, message@),
            r@.well_formed(),
    {
        MoveProgress {
            phase: MovePhase::CreatingNewPartition,
            percent: 50,
            message: String::from_str(message),
            bytes_processed: 0,
            total_bytes: 0,
            can_cancel: false,
        }
    }

    /// The record of a restore that has done `percent` of its own work,
    /// which is 50 to 90 percent of the move.
    pub fn restoring_data(percent: u8, bytes_processed: u64, total_bytes: u64) -> (r:
        MoveProgress)
        ensures
            r@ == restoring_record(percent as nat, bytes_processed as nat, total_bytes as nat),
            r@.well_formed(),
    {
        let own: u8 = cap(percent);
        MoveProgress {
            phase: MovePhase::RestoringData,
            percent: 50 + own * 2 / 5,
            message: percent_message("Restoring partition data... ", own),
            bytes_processed,
            total_bytes,
            can_cancel: false,
        }
    }

    /// The record of a verification that has done `percent` of its own
    /// work, which is 90 to 100 percent of the move.
    pub fn verifying(percent: u8) -> (r: MoveProgress)
        ensures
            r@ == verifying_record(percent as nat),
            r@.well_formed(),
    {
        let own: u8 = cap(percent);
        MoveProgress {
            phase: MovePhase::Verifying,
            percent: 90 + own / 10,
            message: percent_message("Verifying data integrity... ", own),
            bytes_processed: 0,
            total_bytes: 0,
            can_cancel: false,
        }
    }

    /// The record of a move that has succeeded, at 100 percent.
    pub fn complete(message: &str) -> (r: MoveProgress)
        ensures
            r@ == plain_record(MovePhase::Complete, 100, message@),
            r@.well_formed(),
    {
        MoveProgress {
            phase: MovePhase::Complete,
            percent: 100,
            message: String::from_str(message),
            bytes_processed: 0,
            total_bytes: 0,
            can_cancel: false,
        }
    }

    /// The record of a move that has failed before it made any progress.
    pub fn error(message: &str) -> (r: MoveProgress)
        ensures
            r@ == plain_record(MovePhase::Error, 0, message@),
            r@.well_formed(),
    {
        MoveProgress::failed_at(0, message)
    }

    /// The record of a move that has failed at `percent` of its work, or at
    /// 100 where `percent` is more.
    pub fn failed_at(percent: u8, message: &str) -> (r: MoveProgress)
        ensures
            r@ == plain_record(MovePhase::Error, capped(percent as nat), message@),
            r@.well_formed(),
    {
        MoveProgress {
            phase: MovePhase::Error,
            percent: cap(percent),
            message: String::from_str(message),
            bytes_processed: 0,
            total_bytes: 0,
            can_cancel: false,
        }
    }
}

} // verus!
