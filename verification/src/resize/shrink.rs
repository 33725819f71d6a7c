//! Shrinking a partition. The filesystem is made smaller before the entry
//! in the partition table is, or in one call with it: an entry that shrinks
//! first would cut off what the filesystem still keeps beyond the new end.

use crate::device::{drive_letter, drive_letter_text};
use crate::driver::{
    plan_of, plan_views, status_step, stop, Check, CheckView, DriverStep, DriverStepView,
    PlanStep, PlanStepView,
};
use crate::error::{ErrorKind, PartitionError};
use crate::platform::{
    args2, args3, command_with, diskpart, diskpart_command, plain_command, CommandView,
    DriverCommand, Platform,
};
use crate::resize::expand::{run_by_status, stop_with};
use crate::resize::validation::{shrink_validation, validate_shrink};
use crate::text::{decimal, decimal_string, join, join_text, GIB, MIB};
use crate::types::{PartitionInfo, PartitionView};
use vstd::prelude::*;
use vstd::string::*;

verus! {

/// The bytes in a sector, the unit in which `resize2fs` is given a size.
pub const SECTOR: u64 = 512;

/// A size as `diskutil` takes it: in whole gibibytes where it is a multiple
/// of one, else in whole mebibytes where it is at least one, else in bytes.
pub open spec fn diskutil_size_text(bytes: nat) -> Seq<char> {
    if bytes >= GIB && bytes % (GIB as nat) == 0 {
        decimal(bytes / GIB as nat) + "G"@
    } else if bytes >= MIB {
        decimal(bytes / MIB as nat) + "M"@
    } else {
        decimal(bytes) + "B"@
    }
}

/// Writes a size as `diskutil` takes it, such as `100G` or `500M`.
pub fn format_size_for_diskutil(bytes: u64) -> (s: String)
    ensures
        s@ == diskutil_size_text(bytes as nat),
{
    if bytes >= GIB && bytes % GIB == 0 {
        let mut s = decimal_string((bytes / GIB) as u128);
        s.append("G");
        s
    } else if bytes >= MIB {
        let mut s = decimal_string((bytes / MIB) as u128);
        s.append("M");
        s
    } else {
        let mut s = decimal_string(bytes as u128);
        s.append("B");
        s
    }
}

/// The script by which `diskpart` shrinks the volume with the given drive
/// letter by a number of mebibytes.
pub open spec fn shrink_script(letter: Seq<char>, decrease_mib: nat) -> Seq<char> {
    "select volume "@ + letter + "\nShrink desired="@ + decimal(decrease_mib) + "\n"@
}

/// The error for a shrink that validation refused.
pub open spec fn shrink_refused_text(errors: Seq<Seq<char>>) -> Seq<char> {
    "Shrink validation failed: "@ + join_text(errors, ", "@)
}

/// The error that ends a shrink on Linux once the filesystem is shrunk.
pub open spec fn table_shrink_missing_text() -> Seq<char> {
    "The filesystem was shrunk, but shrinking the entry in the partition table is not implemented on Linux: the partition keeps its old size."@
}

/// A plan item that runs a call whose output must hold one of two words.
pub open spec fn run_by_word(
    phase: Seq<char>,
    command: CommandView,
    failed: Seq<char>,
    both_streams: bool,
    first: Seq<char>,
    second: Seq<char>,
    unsure: Seq<char>,
) -> PlanStepView {
    PlanStepView::Run {
        step: DriverStepView {
            phase,
            command,
            check: CheckView::Word { failed, both_streams, first, second, unsure },
        },
    }
}

/// How a valid shrink of `p` to `target` bytes is carried out.
///
/// On Windows `diskpart` shrinks volume and entry in one call, by the
/// decrease in mebibytes; the volume must have a drive letter. On macOS
/// `diskutil` resizes volume and entry in one call. On Linux the partition
/// must be unmounted; the filesystem is checked, then shrunk to the new
/// size in sectors, and the plan ends by saying that the entry in the
/// partition table was left as it is.
pub open spec fn shrink_steps(platform: Platform, p: PartitionView, target: nat) -> Seq<
    PlanStepView,
> {
    match platform {
        Platform::Windows => match p.mount_point {
            None => seq![
                stop_with(
                    ErrorKind::Precondition,
                    "Shrink"@,
                    "Cannot shrink unmounted partition on Windows. Please mount the partition first or use Disk Management."@,
                ),
            ],
            Some(mp) => match drive_letter_text(p.mount_point) {
                None => seq![
                    stop_with(ErrorKind::Precondition, "Shrink"@, "Invalid mount point format"@),
                ],
                Some(letter) => seq![
                    run_by_word(
                        "Shrink"@,
                        diskpart_command(
                            "shrink_partition.txt"@,
                            shrink_script(letter, ((p.total_size - target) / MIB as int) as nat),
                        ),
                        "Diskpart shrink failed."@,
                        true,
                        "successfully"@,
                        "completed"@,
                        "Shrink operation may have failed. Output: "@,
                    ),
                ],
            },
        },
        Platform::MacOS => seq![
            run_by_word(
                "Shrink"@,
                plain_command(
                    "diskutil"@,
                    seq!["resizeVolume"@, p.device_path, diskutil_size_text(target)],
                ),
                "diskutil resize failed: "@,
                false,
                "Finished"@,
                "successfully"@,
                "Resize operation may have failed. Output: "@,
            ),
        ],
        Platform::Linux => if p.is_mounted {
            seq![
                stop_with(
                    ErrorKind::Precondition,
                    "FilesystemCheck"@,
                    "Partition must be unmounted before shrinking"@,
                ),
            ]
        } else {
            seq![
                run_by_status(
                    "FilesystemCheck"@,
                    plain_command("e2fsck"@, seq!["-f"@, "-y"@, p.device_path]),
                    "Filesystem check failed: "@,
                ),
                run_by_status(
                    "FilesystemShrink"@,
                    plain_command(
                        "resize2fs"@,
                        seq![p.device_path, decimal(target / SECTOR as nat) + "s"@],
                    ),
                    "resize2fs failed: "@,
                ),
                stop_with(ErrorKind::Unsupported, "TableShrink"@, table_shrink_missing_text()),
            ]
        },
    }
}

/// The plan of a shrink of `p` to `target` bytes: a request that validation
/// refuses ends at once, before any call; a valid one is carried out as the
/// platform asks.
pub open spec fn shrink_plan(platform: Platform, p: PartitionView, target: nat) -> Seq<
    PlanStepView,
> {
    let verdict = shrink_validation(p, target);
    if !verdict.is_valid {
        seq![
            stop_with(ErrorKind::Validation, "Validating"@, shrink_refused_text(verdict.errors)),
        ]
    } else {
        shrink_steps(platform, p, target)
    }
}

/// Whether a plan item runs the given program.
pub open spec fn runs(item: PlanStepView, program: Seq<char>) -> bool {
    item matches PlanStepView::Run { step } && step.command.program == program
}

/// A shrink runs a call only if validation accepts it: the plan of a
/// shrink that validation refuses is the refusal alone.
pub proof fn lemma_shrink_runs_only_if_valid(
    platform: Platform,
    p: PartitionView,
    target: nat,
    i: int,
)
    requires
        0 <= i < shrink_plan(platform, p, target).len(),
        shrink_plan(platform, p, target)[i] is Run,
    ensures
        shrink_validation(p, target).is_valid,
        target < p.total_size,
{
}

/// In every plan of a shrink, a call of `resize2fs` comes right after a
/// forced check of the same filesystem by `e2fsck`, and nothing is run
/// once a partition on Linux is found mounted.
pub proof fn lemma_shrink_checks_before_resize(
    platform: Platform,
    p: PartitionView,
    target: nat,
    i: int,
)
    requires
        0 <= i < shrink_plan(platform, p, target).len(),
        runs(shrink_plan(platform, p, target)[i], "resize2fs"@),
    ensures
        i > 0,
        shrink_plan(platform, p, target)[i - 1] == run_by_status(
            "FilesystemCheck"@,
            plain_command("e2fsck"@, seq!["-f"@, "-y"@, p.device_path]),
            "Filesystem check failed: "@,
        ),
        !p.is_mounted,
{
    reveal_strlit("resize2fs");
    reveal_strlit("diskutil");
    reveal_strlit("diskpart");
    reveal_strlit("e2fsck");
    assert("resize2fs"@.len() == 9);
    assert("diskutil"@.len() == 8);
    assert("diskpart"@.len() == 8);
    assert("e2fsck"@.len() == 6);
    let plan = shrink_plan(platform, p, target);
    if shrink_validation(p, target).is_valid {
        match platform {
            Platform::Windows => {
                assert(plan.len() == 1);
                assert(!runs(plan[0], "resize2fs"@));
            },
            Platform::MacOS => {
                assert(plan.len() == 1);
                assert(!runs(plan[0], "resize2fs"@));
            },
            Platform::Linux => {
                if !p.is_mounted {
                    assert(plan.len() == 3);
                    assert(!runs(plan[0], "resize2fs"@));
                    assert(!runs(plan[2], "resize2fs"@));
                }
            },
        }
    }
}

fn shrink_script_string(letter: &str, decrease_mib: u64) -> (s: String)
    ensures
        s@ == shrink_script(letter@, decrease_mib as nat),
{
    let mut s = String::from_str("select volume ");
    s.append(letter);
    s.append("\nShrink desired=");
    s.append(decimal_string(decrease_mib as u128).as_str());
    s.append("\n");
    s
}

/// Makes a step whose output must hold one of two words.
pub fn word_step(
    phase: &str,
    command: DriverCommand,
    failed: &str,
    both_streams: bool,
    first: &str,
    second: &str,
    unsure: &str,
) -> (step: PlanStep)
    ensures
        step@ == run_by_word(
            phase@,
            command@,
            failed@,
            both_streams,
            first@,
            second@,
            unsure@,
        ),
{
    PlanStep::Run {
        step: DriverStep {
            phase: String::from_str(phase),
            command,
            check: Check::Word {
                failed: String::from_str(failed),
                both_streams,
                first: String::from_str(first),
                second: String::from_str(second),
                unsure: String::from_str(unsure),
            },
        },
    }
}

fn plan_shrink_steps(platform: Platform, partition: &PartitionInfo, target_size: u64) -> (plan:
    Vec<PlanStep>)
    requires
        target_size < partition.total_size,
    ensures
        plan_views(plan@) == shrink_steps(platform, partition@, target_size as nat),
{
    match platform {
        Platform::Windows => match &partition.mount_point {
            None => plan_of(
                stop(
                    ErrorKind::Precondition,
                    "Shrink",
                    "Cannot shrink unmounted partition on Windows. Please mount the partition first or use Disk Management.",
                ),
            ),
            Some(mp) => match drive_letter(partition) {
                None => plan_of(
                    stop(ErrorKind::Precondition, "Shrink", "Invalid mount point format"),
                ),
                Some(letter) => {
                    let decrease: u64 = (partition.total_size - target_size) / MIB;
                    let script = shrink_script_string(letter, decrease);
                    plan_of(
                        word_step(
                            "Shrink",
                            diskpart("shrink_partition.txt", script),
                            "Diskpart shrink failed.",
                            true,
                            "successfully",
                            "completed",
                            "Shrink operation may have failed. Output: ",
                        ),
                    )
                },
            },
        },
        Platform::MacOS => {
            let size = format_size_for_diskutil(target_size);
            let args = args3("resizeVolume", partition.device_path.as_str(), size.as_str());
            plan_of(
                word_step(
                    "Shrink",
                    command_with("diskutil", args),
                    "diskutil resize failed: ",
                    false,
                    "Finished",
                    "successfully",
                    "Resize operation may have failed. Output: ",
                ),
            )
        },
        Platform::Linux => {
            if partition.is_mounted {
                plan_of(
                    stop(
                        ErrorKind::Precondition,
                        "FilesystemCheck",
                        "Partition must be unmounted before shrinking",
                    ),
                )
            } else {
                let device: &str = partition.device_path.as_str();
                let mut sectors = decimal_string((target_size / SECTOR) as u128);
                sectors.append("s");
                let mut plan: Vec<PlanStep> = Vec::new();
                plan.push(
                    status_step(
                        "FilesystemCheck",
                        command_with("e2fsck", args3("-f", "-y", device)),
                        "Filesystem check failed: ",
                    ),
                );
                plan.push(
                    status_step(
                        "FilesystemShrink",
                        command_with("resize2fs", args2(device, sectors.as_str())),
                        "resize2fs failed: ",
                    ),
                );
                plan.push(
                    stop(
                        ErrorKind::Unsupported,
                        "TableShrink",
                        "The filesystem was shrunk, but shrinking the entry in the partition table is not implemented on Linux: the partition keeps its old size.",
                    ),
                );
                assert(plan_views(plan@) =~= shrink_steps(
                    platform,
                    partition@,
                    target_size as nat,
                ));
                plan
            }
        },
    }
}

/// Plans the shrink of `partition` to `target_size` bytes. The request is
/// validated first, and a request that validation refuses runs no call.
pub fn shrink_partition(platform: Platform, partition: &PartitionInfo, target_size: u64) -> (plan:
    Vec<PlanStep>)
    ensures
        plan_views(plan@) == shrink_plan(platform, partition@, target_size as nat),
{
    let verdict = validate_shrink(partition, target_size);
    if !verdict.is_valid {
        let mut message = String::from_str("Shrink validation failed: ");
        message.append(join(&verdict.errors, ", ").as_str());
        plan_of(
            PlanStep::Stop {
                error: PartitionError::new(ErrorKind::Validation, "Validating", message),
            },
        )
    } else {
        plan_shrink_steps(platform, partition, target_size)
    }
}

} // verus!
