//! The calls of native tools that carry out the actions of a move: copying
//! a tree, deleting a partition's entry, creating an entry at an offset.

use crate::device::{
    base_device_text, drive_letter, drive_letter_text, partition_number_text, split_device_path,
};
use crate::driver::{
    status_step, stop, Check, CheckView, DriverStep, DriverStepView, PlanStep, PlanStepView,
};
use crate::error::ErrorKind;
use crate::platform::{
    args3, args4, command_with, diskpart, diskpart_command, plain_command, push_arg, Platform,
};
use crate::resize::expand::{run_by_status, stop_with};
use crate::strings::{remove_all, without};
use crate::text::{decimal, decimal_string, strip_prefix, strip_prefix_text, texts, KIB, MIB};
use crate::types::{DiskInfo, DiskView, PartitionInfo, PartitionView};
use vstd::prelude::*;
use vstd::string::*;

verus! {

/// The two copies of a move.
#[derive(Debug, Clone, Copy, PartialEq, Eq, Structural)]
pub enum CopyPurpose {
    /// From the partition into the staging directory.
    Backup,
    /// From the staging directory into the new partition.
    Restore,
}

/// The phase that a copy belongs to.
pub open spec fn copy_phase(purpose: CopyPurpose) -> Seq<char> {
    match purpose {
        CopyPurpose::Backup => "BackingUp"@,
        CopyPurpose::Restore => "RestoringData"@,
    }
}

/// The arguments of `robocopy` for a copy of a whole tree with all file
/// information, three tries per file and eight threads.
pub open spec fn robocopy_args(source: Seq<char>, destination: Seq<char>) -> Seq<Seq<char>> {
    seq![source, destination, "/E"@, "/COPYALL"@, "/R:3"@, "/W:5"@, "/MT:8"@]
}

/// How the tree under `source` is copied into `destination`: by `robocopy`
/// on Windows, and elsewhere by `rsync` in archive mode, from the content
/// of `source`.
pub open spec fn copy_tree_step(
    platform: Platform,
    purpose: CopyPurpose,
    source: Seq<char>,
    destination: Seq<char>,
) -> PlanStepView {
    match platform {
        Platform::Windows => PlanStepView::Run {
            step: DriverStepView {
                phase: copy_phase(purpose),
                command: plain_command("robocopy"@, robocopy_args(source, destination)),
                check: CheckView::Robocopy {
                    lead: match purpose {
                        CopyPurpose::Backup => "Robocopy failed with exit code "@,
                        CopyPurpose::Restore => "Robocopy restore failed code "@,
                    },
                },
            },
        },
        _ => run_by_status(
            copy_phase(purpose),
            plain_command("rsync"@, seq!["-av"@, "--progress"@, source + "/"@, destination]),
            match purpose {
                CopyPurpose::Backup => "Rsync failed: "@,
                CopyPurpose::Restore => "Rsync restore failed: "@,
            },
        ),
    }
}

/// The script by which `diskpart` deletes the volume with the given drive
/// letter.
pub open spec fn delete_script(letter: Seq<char>) -> Seq<char> {
    "select volume "@ + letter + "\ndelete partition\n"@
}

/// How the entry of `p` is removed from the partition table.
pub open spec fn delete_entry_step(platform: Platform, p: PartitionView) -> PlanStepView {
    match platform {
        Platform::Windows => match drive_letter_text(p.mount_point) {
            None => stop_with(
                ErrorKind::Precondition,
                "DeletingOldPartition"@,
                "No drive letter found for partition"@,
            ),
            Some(letter) => run_by_status(
                "DeletingOldPartition"@,
                diskpart_command("diskpart_delete.txt"@, delete_script(letter)),
                "Diskpart delete failed: "@,
            ),
        },
        Platform::Linux => run_by_status(
            "DeletingOldPartition"@,
            plain_command(
                "parted"@,
                seq![
                    base_device_text(p.device_path),
                    "rm"@,
                    partition_number_text(p.device_path),
                ],
            ),
            "parted delete failed: "@,
        ),
        Platform::MacOS => run_by_status(
            "DeletingOldPartition"@,
            plain_command(
                "diskutil"@,
                seq!["eraseVolume"@, "Free Space"@, "Untitled"@, p.device_path],
            ),
            "diskutil delete failed: "@,
        ),
    }
}

/// The number by which `diskpart` knows a disk: what follows `disk-` in its
/// id, or else its device path without `\\.\PhysicalDrive`.
pub open spec fn disk_number_text(d: DiskView) -> Seq<char> {
    match strip_prefix_text(d.id, "disk-"@) {
        Some(rest) => rest,
        None => without(d.device_path, "\\\\.\\PhysicalDrive"@),
    }
}

/// The script by which `diskpart` creates a primary partition of a size in
/// mebibytes at an offset in kibibytes, formats it and gives it a letter.
pub open spec fn create_script(disk_number: Seq<char>, size_mib: nat, offset_kib: nat) -> Seq<
    char,
> {
    "select disk "@ + disk_number + "\ncreate partition primary size="@ + decimal(size_mib)
        + " offset="@ + decimal(offset_kib) + "\nformat fs=ntfs quick\nassign\n"@
}

/// How an entry of `size` bytes is created at `offset` on disk `d`: by
/// `diskpart` on Windows, and not at all elsewhere.
pub open spec fn create_entry_step(platform: Platform, d: DiskView, size: nat, offset: nat) -> PlanStepView {
    match platform {
        Platform::Windows => run_by_status(
            "CreatingNewPartition"@,
            diskpart_command(
                "diskpart_create.txt"@,
                create_script(disk_number_text(d), size / MIB as nat, offset / KIB as nat),
            ),
            "Diskpart create failed: "@,
        ),
        _ => stop_with(
            ErrorKind::Unsupported,
            "CreatingNewPartition"@,
            "Partition creation at specific offset not yet fully implemented for this platform."@,
        ),
    }
}

/// Plans the copy of the tree under `source` into `destination`.
pub fn plan_copy_tree(
    platform: Platform,
    purpose: CopyPurpose,
    source: &str,
    destination: &str,
) -> (step: PlanStep)
    ensures
        step@ == copy_tree_step(platform, purpose, source@, destination@),
{
    let phase: &str = match purpose {
        CopyPurpose::Backup => "BackingUp",
        CopyPurpose::Restore => "RestoringData",
    };
    match platform {
        Platform::Windows => {
            let mut args = args4(source, destination, "/E", "/COPYALL");
            push_arg(&mut args, "/R:3");
            push_arg(&mut args, "/W:5");
            push_arg(&mut args, "/MT:8");
            assert(texts(args@) =~= robocopy_args(source@, destination@));
            let lead: &str = match purpose {
                CopyPurpose::Backup => "Robocopy failed with exit code ",
                CopyPurpose::Restore => "Robocopy restore failed code ",
            };
            PlanStep::Run {
                step: DriverStep {
                    phase: String::from_str(phase),
                    command: command_with("robocopy", args),
                    check: Check::Robocopy { lead: String::from_str(lead) },
                },
            }
        },
        _ => {
            let mut content = String::from_str(source);
            content.append("/");
            let args = args4("-av", "--progress", content.as_str(), destination);
            let lead: &str = match purpose {
                CopyPurpose::Backup => "Rsync failed: ",
                CopyPurpose::Restore => "Rsync restore failed: ",
            };
            status_step(phase, command_with("rsync", args), lead)
        },
    }
}

/// Plans the removal of the entry of `partition` from the partition table.
pub fn plan_delete_entry(platform: Platform, partition: &PartitionInfo) -> (step: PlanStep)
    ensures
        step@ == delete_entry_step(platform, partition@),
{
    match platform {
        Platform::Windows => match drive_letter(partition) {
            None => stop(
                ErrorKind::Precondition,
                "DeletingOldPartition",
                "No drive letter found for partition",
            ),
            Some(letter) => {
                let mut script = String::from_str("select volume ");
                script.append(letter);
                script.append("\ndelete partition\n");
                status_step(
                    "DeletingOldPartition",
                    diskpart("diskpart_delete.txt", script),
                    "Diskpart delete failed: ",
                )
            },
        },
        Platform::Linux => {
            let (base, number) = split_device_path(partition.device_path.as_str());
            status_step(
                "DeletingOldPartition",
                command_with("parted", args3(base, "rm", number)),
                "parted delete failed: ",
            )
        },
        Platform::MacOS => status_step(
            "DeletingOldPartition",
            command_with(
                "diskutil",
                args4("eraseVolume", "Free Space", "Untitled", partition.device_path.as_str()),
            ),
            "diskutil delete failed: ",
        ),
    }
}

/// Finds the number by which `diskpart` knows the disk.
pub fn disk_number(disk: &DiskInfo) -> (number: String)
    ensures
        number@ == disk_number_text(disk@),
{
    match strip_prefix(disk.id.as_str(), "disk-") {
        Some(rest) => String::from_str(rest),
        None => remove_all(disk.device_path.as_str(), "\\\\.\\PhysicalDrive"),
    }
}

/// Plans the creation of an entry of `size` bytes at `offset` on `disk`.
pub fn plan_create_entry(platform: Platform, disk: &DiskInfo, size: u64, offset: u64) -> (step:
    PlanStep)
    ensures
        step@ == create_entry_step(platform, disk@, size as nat, offset as nat),
{
    match platform {
        Platform::Windows => {
            let mut script = String::from_str("select disk ");
            script.append(disk_number(disk).as_str());
            script.append("\ncreate partition primary size=");
            script.append(decimal_string((size / MIB) as u128).as_str());
            script.append(" offset=");
            script.append(decimal_string((offset / KIB) as u128).as_str());
            script.append("\nformat fs=ntfs quick\nassign\n");
            status_step(
                "CreatingNewPartition",
                diskpart("diskpart_create.txt", script),
                "Diskpart create failed: ",
            )
        },
        _ => stop(
            ErrorKind::Unsupported,
            "CreatingNewPartition",
            "Partition creation at specific offset not yet fully implemented for this platform.",
        ),
    }
}

} // verus!
