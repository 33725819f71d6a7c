//! The cautious check of a planned move: boot and system partitions are
//! refused outright, and the caller is told what to prepare.

use crate::driver::{
    status_step, stop, Check, CheckView, DriverStep, DriverStepView, PlanStep, PlanStepView,
};
use crate::error::{ErrorKind, ErrorView, PartitionError};
use crate::platform::{args4, command_with, plain_command, push_arg, Platform};
use crate::resize::expand::{run_by_status, stop_with};
use crate::resize::validation::{only_if, push_message, push_text};
use crate::text::{format_gibibytes, gibibytes_text, texts};
use crate::types::{PartitionFlag, PartitionInfo, PartitionView};
use vstd::prelude::*;
use vstd::string::*;

verus! {

/// One move of a plan: which partition goes from where to where.
#[derive(Debug, Clone)]
pub struct MoveOperation {
    pub partition_id: String,
    pub from_offset: u64,
    pub to_offset: u64,
}

/// A plan of moves, to be carried out one after the other.
#[derive(Debug, Clone)]
pub struct MoveExecutionPlan {
    pub operations: Vec<MoveOperation>,
    pub estimated_duration_minutes: u32,
    pub requires_backup: bool,
    pub affected_partitions: Vec<String>,
}

/// The refusal to move a boot partition.
pub open spec fn boot_refusal_text() -> Seq<char> {
    "Cannot move boot partition - this would make the system unbootable!"@
}

/// The refusal to move a system partition.
pub open spec fn system_refusal_text() -> Seq<char> {
    "Cannot move system/EFI partition - this would make the system unbootable!"@
}

/// The refusal of a location beyond the end of the disk.
pub open spec fn beyond_disk_text() -> Seq<char> {
    "New location would exceed disk size. Cannot move partition."@
}

/// The warning for a partition that holds data.
pub open spec fn holds_data_text(used: nat) -> Seq<char> {
    "⚠️ This partition contains "@ + gibibytes_text(used)
        + " GB of data. Backup is REQUIRED before moving!"@
}

/// The warning for a partition that is mounted.
pub open spec fn needs_unmount_text() -> Seq<char> {
    "⚠️ Partition is currently mounted and will need to be unmounted during the move."@
}

/// Why the move of `p` to `new_offset` is refused, if it is: a boot
/// partition first, then a system partition, then a location that ends
/// beyond the disk.
pub open spec fn move_refusal(p: PartitionView, new_offset: nat, disk_size: nat) -> Option<
    Seq<char>,
> {
    if p.has(PartitionFlag::Boot) {
        Some(boot_refusal_text())
    } else if p.has(PartitionFlag::System) {
        Some(system_refusal_text())
    } else if new_offset + p.total_size > disk_size {
        Some(beyond_disk_text())
    } else {
        None
    }
}

/// What the caller of an accepted move is warned of: data on the partition,
/// and a partition that is mounted.
pub open spec fn move_warnings(p: PartitionView) -> Seq<Seq<char>> {
    (match p.used_space {
        Some(used) => only_if(used > 0, seq![holds_data_text(used)]),
        None => Seq::empty(),
    }) + only_if(p.is_mounted, seq![needs_unmount_text()])
}

/// A refusal as an error of validation.
pub open spec fn refusal(message: Seq<char>) -> ErrorView {
    ErrorView { kind: ErrorKind::Validation, phase: "Validating"@, message }
}

/// Checks the move of `partition` to `new_offset` on a disk of `disk_size`
/// bytes. A boot or system partition, and a location that ends beyond the
/// disk, are refused; an accepted move comes with its warnings.
pub fn validate_move_operation(partition: &PartitionInfo, new_offset: u64, disk_size: u64) -> (r:
    Result<Vec<String>, PartitionError>)
    ensures
        match r {
            Ok(warnings) => move_refusal(partition@, new_offset as nat, disk_size as nat) is None
                && texts(warnings@) == move_warnings(partition@),
            Err(e) => move_refusal(partition@, new_offset as nat, disk_size as nat) matches Some(
                message,
            ) && e@ == refusal(message),
        },
{
    if partition.has_flag(PartitionFlag::Boot) {
        return Err(
            PartitionError::new(
                ErrorKind::Validation,
                "Validating",
                String::from_str(
                    "Cannot move boot partition - this would make the system unbootable!",
                ),
            ),
        );
    }
    if partition.has_flag(PartitionFlag::System) {
        return Err(
            PartitionError::new(
                ErrorKind::Validation,
                "Validating",
                String::from_str(
                    "Cannot move system/EFI partition - this would make the system unbootable!",
                ),
            ),
        );
    }
    if new_offset as u128 + partition.total_size as u128 > disk_size as u128 {
        return Err(
            PartitionError::new(
                ErrorKind::Validation,
                "Validating",
                String::from_str("New location would exceed disk size. Cannot move partition."),
            ),
        );
    }
    let mut warnings: Vec<String> = Vec::new();
    assert(texts(warnings@) =~= Seq::empty());
    match partition.used_space {
        Some(used) => {
            if used > 0 {
                let mut message = String::from_str("⚠️ This partition contains ");
                message.append(format_gibibytes(used).as_str());
                message.append(" GB of data. Backup is REQUIRED before moving!");
                push_message(&mut warnings, message);
            }
        },
        None => {},
    }
    if partition.is_mounted {
        push_text(
            &mut warnings,
            "⚠️ Partition is currently mounted and will need to be unmounted during the move.",
        );
    }
    assert(texts(warnings@) =~= move_warnings(partition@));
    Ok(warnings)
}

/// The arguments of `robocopy` for a quiet copy of a whole tree with all
/// file information, three tries per file and eight threads.
pub open spec fn quiet_robocopy_args(source: Seq<char>, destination: Seq<char>) -> Seq<Seq<char>> {
    seq![source, destination, "/E"@, "/COPYALL"@, "/R:3"@, "/W:5"@, "/MT:8"@, "/NP"@]
}

/// How a tree is copied for a backup or a restore of the cautious kind: by
/// `robocopy` on Windows, and elsewhere by `rsync` in archive mode.
pub open spec fn simple_copy_step(
    platform: Platform,
    phase: Seq<char>,
    source: Seq<char>,
    destination: Seq<char>,
    lead: Seq<char>,
) -> PlanStepView {
    match platform {
        Platform::Windows => PlanStepView::Run {
            step: DriverStepView {
                phase,
                command: plain_command("robocopy"@, quiet_robocopy_args(source, destination)),
                check: CheckView::RobocopyRange { lead },
            },
        },
        _ => run_by_status(
            phase,
            plain_command("rsync"@, seq!["-av"@, "--progress"@, source + "/"@, destination]),
            lead,
        ),
    }
}

/// How the content of `p` is backed up into `backup_path`; the partition
/// must be mounted.
pub open spec fn backup_step(platform: Platform, p: PartitionView, backup_path: Seq<char>) -> PlanStepView {
    match p.mount_point {
        None => stop_with(
            ErrorKind::Precondition,
            "BackingUp"@,
            "Partition must be mounted to backup"@,
        ),
        Some(source) => simple_copy_step(
            platform,
            "BackingUp"@,
            source,
            backup_path,
            "Backup failed: "@,
        ),
    }
}

/// How the content of `p` is restored from `backup_path`; the partition
/// must be mounted.
pub open spec fn restore_step(platform: Platform, backup_path: Seq<char>, p: PartitionView) -> PlanStepView {
    match p.mount_point {
        None => stop_with(
            ErrorKind::Precondition,
            "RestoringData"@,
            "Partition must be mounted to restore"@,
        ),
        Some(destination) => simple_copy_step(
            platform,
            "RestoringData"@,
            backup_path,
            destination,
            "Restore failed: "@,
        ),
    }
}

/// What a caller is told who asks for a move of the cautious kind to be
/// carried out.
pub open spec fn manual_move_text() -> Seq<char> {
    "Partition moving requires manual backup and restore. Please use this feature as a planning tool, then:\n1. Backup your data manually\n2. Use Windows Disk Management or other tools to move the partition\n3. Restore your data if needed"@
}

fn plan_simple_copy(
    platform: Platform,
    phase: &str,
    source: &str,
    destination: &str,
    lead: &str,
) -> (step: PlanStep)
    ensures
        step@ == simple_copy_step(platform, phase@, source@, destination@, lead@),
{
    match platform {
        Platform::Windows => {
            let mut args = args4(source, destination, "/E", "/COPYALL");
            push_arg(&mut args, "/R:3");
            push_arg(&mut args, "/W:5");
            push_arg(&mut args, "/MT:8");
            push_arg(&mut args, "/NP");
            assert(texts(args@) =~= quiet_robocopy_args(source@, destination@));
            PlanStep::Run {
                step: DriverStep {
                    phase: String::from_str(phase),
                    command: command_with("robocopy", args),
                    check: Check::RobocopyRange { lead: String::from_str(lead) },
                },
            }
        },
        _ => {
            let mut content = String::from_str(source);
            content.append("/");
            let args = args4("-av", "--progress", content.as_str(), destination);
            status_step(phase, command_with("rsync", args), lead)
        },
    }
}

/// Plans the backup of the content of `partition` into `backup_path`.
pub fn backup_partition_data(platform: Platform, partition: &PartitionInfo, backup_path: &str) -> (step:
    PlanStep)
    ensures
        step@ == backup_step(platform, partition@, backup_path@),
{
    match &partition.mount_point {
        None => stop(ErrorKind::Precondition, "BackingUp", "Partition must be mounted to backup"),
        Some(source) => plan_simple_copy(
            platform,
            "BackingUp",
            source.as_str(),
            backup_path,
            "Backup failed: ",
        ),
    }
}

/// Plans the restore of the content of `partition` from `backup_path`.
pub fn restore_partition_data(platform: Platform, backup_path: &str, partition: &PartitionInfo) -> (step:
    PlanStep)
    ensures
        step@ == restore_step(platform, backup_path@, partition@),
{
    match &partition.mount_point {
        None => stop(
            ErrorKind::Precondition,
            "RestoringData",
            "Partition must be mounted to restore",
        ),
        Some(destination) => plan_simple_copy(
            platform,
            "RestoringData",
            backup_path,
            destination.as_str(),
            "Restore failed: ",
        ),
    }
}

/// Answers a request to carry out a move of the cautious kind. The move is
/// checked, and a move that the check refuses is refused; any other is
/// declined too, with the advice to carry it out by hand: this kind of
/// move is for planning only.
pub fn execute_simple_move(partition: &PartitionInfo, new_offset: u64, disk_size: u64) -> (r:
    Result<(), PartitionError>)
    ensures
        r matches Err(e) && e@ == (match move_refusal(
            partition@,
            new_offset as nat,
            disk_size as nat,
        ) {
            Some(message) => refusal(message),
            None => ErrorView {
                kind: ErrorKind::Unsupported,
                phase: "BackingUp"@,
                message: manual_move_text(),
            },
        }),
{
    match validate_move_operation(partition, new_offset, disk_size) {
        Err(e) => Err(e),
        Ok(_) => Err(
            PartitionError::new(
                ErrorKind::Unsupported,
                "BackingUp",
                String::from_str(
                    "Partition moving requires manual backup and restore. Please use this feature as a planning tool, then:\n1. Backup your data manually\n2. Use Windows Disk Management or other tools to move the partition\n3. Restore your data if needed",
                ),
            ),
        ),
    }
}

} // verus!
