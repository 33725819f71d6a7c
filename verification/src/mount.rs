//! Mounting and unmounting a partition.

use crate::device::{drive_letter, drive_letter_text};
use crate::driver::{status_step, stop, PlanStep, PlanStepView};
use crate::error::ErrorKind;
use crate::platform::{args1, args2, command_with, diskpart, diskpart_command, plain_command, Platform};
use crate::resize::expand::{run_by_status, stop_with};
use crate::resize::shrink::{run_by_word, word_step};
use crate::types::{PartitionInfo, PartitionView};
use vstd::prelude::*;
use vstd::string::*;

verus! {

/// The script by which `diskpart` takes the drive letter away from a
/// volume, which unmounts it.
pub open spec fn unmount_script(letter: Seq<char>) -> Seq<char> {
    "select volume "@ + letter + "\nremove letter="@ + letter + "\n"@
}

/// How `p` is unmounted.
///
/// On Windows `diskpart` removes the drive letter; the partition must have
/// one. On macOS `diskutil` unmounts the device. On Linux `umount` unmounts
/// the mount point; the partition must have one.
pub open spec fn unmount_step(platform: Platform, p: PartitionView) -> PlanStepView {
    match platform {
        Platform::Windows => match drive_letter_text(p.mount_point) {
            None => stop_with(
                ErrorKind::Precondition,
                "Unmount"@,
                "No drive letter found for partition"@,
            ),
            Some(letter) => run_by_word(
                "Unmount"@,
                diskpart_command("unmount_partition.txt"@, unmount_script(letter)),
                "Diskpart unmount failed."@,
                true,
                "successfully"@,
                "removed"@,
                "Unmount may have failed. Output: "@,
            ),
        },
        Platform::MacOS => run_by_status(
            "Unmount"@,
            plain_command("diskutil"@, seq!["unmount"@, p.device_path]),
            "diskutil unmount failed: "@,
        ),
        Platform::Linux => match p.mount_point {
            None => stop_with(ErrorKind::Precondition, "Unmount"@, "Partition is not mounted"@),
            Some(mp) => run_by_status(
                "Unmount"@,
                plain_command("umount"@, seq![mp]),
                "umount failed: "@,
            ),
        },
    }
}

/// How `p` is mounted: by `diskutil` on macOS, and not at all elsewhere.
pub open spec fn mount_step(platform: Platform, p: PartitionView) -> PlanStepView {
    match platform {
        Platform::Windows => stop_with(
            ErrorKind::Unsupported,
            "Mount"@,
            "Automatic mounting not yet implemented on Windows. Please use Disk Management to assign a drive letter."@,
        ),
        Platform::MacOS => run_by_status(
            "Mount"@,
            plain_command("diskutil"@, seq!["mount"@, p.device_path]),
            "diskutil mount failed: "@,
        ),
        Platform::Linux => stop_with(
            ErrorKind::Unsupported,
            "Mount"@,
            "Automatic mounting not yet implemented on Linux. Please use mount command manually."@,
        ),
    }
}

/// Plans the unmounting of `partition`: the call to run, or the reason why
/// there is none.
pub fn unmount_partition(platform: Platform, partition: &PartitionInfo) -> (step: PlanStep)
    ensures
        step@ == unmount_step(platform, partition@),
{
    match platform {
        Platform::Windows => match drive_letter(partition) {
            None => stop(ErrorKind::Precondition, "Unmount", "No drive letter found for partition"),
            Some(letter) => {
                let mut script = String::from_str("select volume ");
                script.append(letter);
                script.append("\nremove letter=");
                script.append(letter);
                script.append("\n");
                word_step(
                    "Unmount",
                    diskpart("unmount_partition.txt", script),
                    "Diskpart unmount failed.",
                    true,
                    "successfully",
                    "removed",
                    "Unmount may have failed. Output: ",
                )
            },
        },
        Platform::MacOS => status_step(
            "Unmount",
            command_with("diskutil", args2("unmount", partition.device_path.as_str())),
            "diskutil unmount failed: ",
        ),
        Platform::Linux => match &partition.mount_point {
            None => stop(ErrorKind::Precondition, "Unmount", "Partition is not mounted"),
            Some(mp) => status_step(
                "Unmount",
                command_with("umount", args1(mp.as_str())),
                "umount failed: ",
            ),
        },
    }
}

/// Plans the mounting of `partition`: the call to run, or the reason why
/// there is none.
pub fn mount_partition(platform: Platform, partition: &PartitionInfo) -> (step: PlanStep)
    ensures
        step@ == mount_step(platform, partition@),
{
    match platform {
        Platform::Windows => stop(
            ErrorKind::Unsupported,
            "Mount",
            "Automatic mounting not yet implemented on Windows. Please use Disk Management to assign a drive letter.",
        ),
        Platform::MacOS => status_step(
            "Mount",
            command_with("diskutil", args2("mount", partition.device_path.as_str())),
            "diskutil mount failed: ",
        ),
        Platform::Linux => stop(
            ErrorKind::Unsupported,
            "Mount",
            "Automatic mounting not yet implemented on Linux. Please use mount command manually.",
        ),
    }
}

} // verus!
