//! Plans of several moves on one disk. The moves of a plan are carried out
//! strictly one after the other, each against a snapshot taken after the
//! move before it: every move shifts offsets.

use crate::error::PartitionError;
use crate::move_partition::{capped, MovePartitionOptions, MovePhase, MoveProgress};
use crate::move_simple::MoveOperation;
use crate::types::{DiskInfo, DiskView};
use vstd::prelude::*;
use vstd::string::*;

verus! {

/// The phases of a resize, as shown to an observer.
#[derive(Debug, Clone, Copy, PartialEq, Eq, Structural)]
pub enum ResizePhase {
    Validating,
    CreatingBackup,
    UpdatingPartitionTable,
    ResizingFilesystem,
    Verifying,
    Complete,
    Error,
}

/// A snapshot of the progress of a resize or of a plan of moves.
#[derive(Debug, Clone)]
pub struct ResizeProgress {
    pub phase: ResizePhase,
    /// How much of the whole is done, from 0 to 100.
    pub percent: u8,
    pub message: String,
    pub can_cancel: bool,
}

/// The phase under which a phase of a move is shown within a plan.
pub open spec fn shown_phase(phase: MovePhase) -> ResizePhase {
    match phase {
        MovePhase::Validating => ResizePhase::Validating,
        MovePhase::BackingUp => ResizePhase::CreatingBackup,
        MovePhase::DeletingOldPartition => ResizePhase::UpdatingPartitionTable,
        MovePhase::CreatingNewPartition => ResizePhase::UpdatingPartitionTable,
        MovePhase::RestoringData => ResizePhase::ResizingFilesystem,
        MovePhase::Verifying => ResizePhase::Verifying,
        MovePhase::Complete => ResizePhase::Complete,
        MovePhase::Error => ResizePhase::Error,
    }
}

/// How much of a plan of `count` moves is done when the move at `index`,
/// counted from zero, is at `percent`: each move is an equal share of the
/// plan.
pub open spec fn plan_share(index: nat, count: nat, percent: nat) -> nat
    recommends
        index < count,
{
    (index * 100 + capped(percent)) / count
}

/// The message of a move within a plan.
pub open spec fn plan_message(partition_id: Seq<char>, message: Seq<char>) -> Seq<char> {
    "Partition "@ + partition_id + ": "@ + message
}

/// The progress of a plan never exceeds 100 and never goes back: it grows
/// with the percentage of the running move and from one move to the next,
/// starts at 0 and ends at 100, and a move that is complete counts as much
/// as the next that has not begun.
pub proof fn lemma_plan_share_is_steady(index: nat, count: nat, lower: nat, higher: nat)
    requires
        index < count,
        lower <= higher,
    ensures
        plan_share(index, count, higher) <= 100,
        plan_share(index, count, lower) <= plan_share(index, count, higher),
        index + 1 < count ==> plan_share(index, count, higher) <= plan_share(
            index + 1,
            count,
            lower,
        ),
        index + 1 < count ==> plan_share(index, count, 100) == plan_share(index + 1, count, 0),
        plan_share(0, count, 0) == 0,
        plan_share((count - 1) as nat, count, 100) == 100,
{
    let a = index * 100 + capped(lower);
    let b = index * 100 + capped(higher);
    let c = (index + 1) * 100 + capped(lower);
    assert(a <= b <= index * 100 + 100 <= c);
    assert(index * 100 + 100 == (index + 1) * 100) by (nonlinear_arith);
    assert((index + 1) * 100 <= count * 100) by (nonlinear_arith)
        requires
            index + 1 <= count,
    ;
    vstd::arithmetic::div_mod::lemma_div_is_ordered(a as int, b as int, count as int);
    vstd::arithmetic::div_mod::lemma_div_is_ordered(b as int, c as int, count as int);
    vstd::arithmetic::div_mod::lemma_div_is_ordered(b as int, (count * 100) as int, count as int);
    vstd::arithmetic::div_mod::lemma_div_multiples_vanish(100, count as int);
    assert(count * 100 == 100 * count) by (nonlinear_arith);
    assert((count - 1) * 100 + 100 == 100 * count) by (nonlinear_arith);
    assert(0 * 100 + 0 == 0);
    vstd::arithmetic::div_mod::lemma_div_basics(count as int);
}

/// Computes how much of a plan of `count` moves is done when the move at
/// `index` is at `percent`.
pub fn global_percent(index: usize, count: usize, percent: u8) -> (share: u8)
    requires
        index < count,
    ensures
        share == plan_share(index as nat, count as nat, percent as nat),
        share <= 100,
{
    let own: u8 = if percent > 100 {
        100
    } else {
        percent
    };
    proof {
        lemma_plan_share_is_steady(index as nat, count as nat, percent as nat, percent as nat);
    }
    let sum: u128 = index as u128 * 100 + own as u128;
    (sum / count as u128) as u8
}

/// Shows a phase of a move as a phase of a resize.
pub fn resize_phase_of(phase: MovePhase) -> (shown: ResizePhase)
    ensures
        shown == shown_phase(phase),
{
    match phase {
        MovePhase::Validating => ResizePhase::Validating,
        MovePhase::BackingUp => ResizePhase::CreatingBackup,
        MovePhase::DeletingOldPartition => ResizePhase::UpdatingPartitionTable,
        MovePhase::CreatingNewPartition => ResizePhase::UpdatingPartitionTable,
        MovePhase::RestoringData => ResizePhase::ResizingFilesystem,
        MovePhase::Verifying => ResizePhase::Verifying,
        MovePhase::Complete => ResizePhase::Complete,
        MovePhase::Error => ResizePhase::Error,
    }
}

/// Turns a record of the move at `index` of a plan of `count` moves into a
/// record of the plan: the percentage is that of the plan, the message
/// names the partition, and a plan cannot be cancelled.
pub fn plan_progress(index: usize, count: usize, partition_id: &str, record: &MoveProgress) -> (r:
    ResizeProgress)
    requires
        index < count,
    ensures
        r.phase == shown_phase(record.phase),
        r.percent == plan_share(index as nat, count as nat, record.percent as nat),
        r.percent <= 100,
        r.message@ == plan_message(partition_id@, record.message@),
        !r.can_cancel,
{
    let mut message = String::from_str("Partition ");
    message.append(partition_id);
    message.append(": ");
    message.append(record.message.as_str());
    ResizeProgress {
        phase: resize_phase_of(record.phase),
        percent: global_percent(index, count, record.percent),
        message,
        can_cancel: false,
    }
}

/// Makes the last record of a resize: `Complete` at 100 percent with the
/// given message where the resize succeeded, and else `Error` with the
/// error in one line, its phase in front.
pub fn resize_finished(outcome: &Result<(), PartitionError>, done_message: &str) -> (r:
    ResizeProgress)
    ensures
        !r.can_cancel,
        match *outcome {
            Ok(_) => r.phase == ResizePhase::Complete && r.percent == 100 && r.message@
                == done_message@,
            Err(e) => r.phase == ResizePhase::Error && r.percent == 0 && r.message@
                == e@.line(),
        },
{
    match outcome {
        Ok(_) => ResizeProgress {
            phase: ResizePhase::Complete,
            percent: 100,
            message: String::from_str(done_message),
            can_cancel: false,
        },
        Err(e) => ResizeProgress {
            phase: ResizePhase::Error,
            percent: 0,
            message: e.to_line(),
            can_cancel: false,
        },
    }
}

/// The options with which a move of a plan is carried out: to the
/// operation's target, with verification, staged in the default place.
pub fn move_options_for(operation: &MoveOperation) -> (options: MovePartitionOptions)
    ensures
        options.target_offset == operation.to_offset,
        options.verify_after_move,
        options.backup_path is None,
{
    MovePartitionOptions {
        target_offset: operation.to_offset,
        verify_after_move: true,
        backup_path: None,
    }
}

/// Whether partition `j` of disk `i` has the given id.
pub open spec fn is_at(disks: Seq<DiskView>, id: Seq<char>, i: int, j: int) -> bool {
    0 <= i < disks.len() && 0 <= j < disks[i].partitions.len() && disks[i].partitions[j].id == id
}

/// Whether disk `i` has a partition with the given id.
pub open spec fn disk_has(disks: Seq<DiskView>, id: Seq<char>, i: int) -> bool {
    exists|j: int| is_at(disks, id, i, j)
}

/// The views of a vector of disks.
pub open spec fn disk_views(disks: Seq<DiskInfo>) -> Seq<DiskView> {
    disks.map_values(|d: DiskInfo| d@)
}

/// Finds the partition with the given id in freshly discovered disks: the
/// first disk that has one, and the first such partition on it.
pub fn locate_partition(disks: &Vec<DiskInfo>, partition_id: &str) -> (place: Option<
    (usize, usize),
>)
    ensures
        match place {
            Some((i, j)) => {
                &&& is_at(disk_views(disks@), partition_id@, i as int, j as int)
                &&& forall|k: int| 0 <= k < i ==> !disk_has(disk_views(disks@), partition_id@, k)
                &&& forall|k: int| 0 <= k < j ==> !is_at(disk_views(disks@), partition_id@, i as int, k)
            },
            None => forall|k: int| !disk_has(disk_views(disks@), partition_id@, k),
        },
{
    let wanted = String::from_str(partition_id);
    let n: usize = disks.len();
    let mut i: usize = 0;
    while i < n
        invariant
            n == disks.len(),
            i <= n,
            wanted@ == partition_id@,
            forall|k: int| 0 <= k < i ==> !disk_has(disk_views(disks@), partition_id@, k),
        decreases n - i,
    {
        let disk = &disks[i];
        assert(disk@ == disk_views(disks@)[i as int]);
        let m: usize = disk.partitions.len();
        let mut j: usize = 0;
        while j < m
            invariant
                i < n,
                n == disks.len(),
                m == disk.partitions.len(),
                j <= m,
                wanted@ == partition_id@,
                disk@ == disk_views(disks@)[i as int],
                forall|k: int| 0 <= k < i ==> !disk_has(disk_views(disks@), partition_id@, k),
                forall|k: int| 0 <= k < j ==> !is_at(disk_views(disks@), partition_id@, i as int, k),
            decreases m - j,
        {
            assert(disk.partitions[j as int]@ == disk@.partitions[j as int]);
            if disk.partitions[j].id == wanted {
                return Some((i, j));
            }
            j = j + 1;
        }
        i = i + 1;
    }
    None
}

} // verus!
