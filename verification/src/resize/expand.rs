//! Expanding a partition: first the entry in the partition table, then the
//! filesystem. What the first phase has done stays done if the second
//! fails.

use crate::device::{
    base_device_text, drive_letter, drive_letter_text, partition_number_text, split_device_path,
};
use crate::driver::{
    empty_plan, plan_of, plan_of_two, plan_views, status_step, stop, Check, CheckView, DriverStep,
    DriverStepView, PlanStep, PlanStepView,
};
use crate::error::{ErrorKind, ErrorView, PartitionError};
use crate::platform::{
    args1, args2, args3, args4, command_with, diskpart, diskpart_command, plain_command,
    CommandView, Platform,
};
use crate::text::{decimal, decimal_string, MIB};
use crate::types::{FilesystemType, PartitionInfo, PartitionView};
use vstd::prelude::*;
use vstd::string::*;

verus! {

/// The name of the phase that extends the entry in the partition table.
pub open spec fn table_extend_phase() -> Seq<char> {
    "TableExtend"@
}

/// The name of the phase that expands the filesystem.
pub open spec fn filesystem_expand_phase() -> Seq<char> {
    "FilesystemExpand"@
}

/// By how many whole mebibytes an expansion to `target` enlarges `p`.
pub open spec fn increase_in_mib(p: PartitionView, target: nat) -> nat {
    if target > p.total_size {
        ((target - p.total_size) / MIB as int) as nat
    } else {
        0
    }
}

/// The script by which `diskpart` extends the volume with the given drive
/// letter. `diskpart` takes the increase, not the new size.
pub open spec fn extend_script(letter: Seq<char>, increase_mib: nat) -> Seq<char> {
    "select volume "@ + letter + "\nextend size="@ + decimal(increase_mib) + "\n"@
}

/// A plan item that runs a call under the check of its status.
pub open spec fn run_by_status(phase: Seq<char>, command: CommandView, lead: Seq<char>) -> PlanStepView {
    PlanStepView::Run { step: DriverStepView { phase, command, check: CheckView::Status { lead } } }
}

/// A plan item that ends the plan in an error.
pub open spec fn stop_with(kind: ErrorKind, phase: Seq<char>, message: Seq<char>) -> PlanStepView {
    PlanStepView::Stop { error: ErrorView { kind, phase, message } }
}

/// The first phase of an expansion: how the entry in the partition table
/// is extended.
///
/// On Windows `diskpart` extends the volume by the increase in mebibytes;
/// on Linux `parted` resizes the entry to the new size in mebibytes; on
/// macOS there is nothing to do, the resize of the volume covers it.
pub open spec fn table_extend_plan(platform: Platform, p: PartitionView, target: nat) -> Seq<
    PlanStepView,
> {
    match platform {
        Platform::Windows => match drive_letter_text(p.mount_point) {
            None => seq![
                stop_with(
                    ErrorKind::Precondition,
                    table_extend_phase(),
                    "No drive letter found for partition"@,
                ),
            ],
            Some(letter) => if increase_in_mib(p, target) == 0 {
                seq![
                    stop_with(
                        ErrorKind::Validation,
                        table_extend_phase(),
                        "Target size must be larger than current size"@,
                    ),
                ]
            } else {
                seq![
                    PlanStepView::Run {
                        step: DriverStepView {
                            phase: table_extend_phase(),
                            command: diskpart_command(
                                "diskpart_expand.txt"@,
                                extend_script(letter, increase_in_mib(p, target)),
                            ),
                            check: CheckView::Diskpart {
                                script: extend_script(letter, increase_in_mib(p, target)),
                            },
                        },
                    },
                ]
            },
        },
        Platform::Linux => seq![
            run_by_status(
                table_extend_phase(),
                plain_command(
                    "parted"@,
                    seq![
                        base_device_text(p.device_path),
                        "resizepart"@,
                        partition_number_text(p.device_path),
                        decimal(target / MIB as nat) + "MB"@,
                    ],
                ),
                "parted failed: "@,
            ),
        ],
        Platform::MacOS => Seq::empty(),
    }
}

/// The calls by which `ntfsresize` expands a filesystem: a dry run, then
/// the resize.
pub open spec fn ntfs_resize_plan(device: Seq<char>) -> Seq<PlanStepView> {
    seq![
        run_by_status(
            filesystem_expand_phase(),
            plain_command("ntfsresize"@, seq!["--force"@, "--no-action"@, device]),
            "NTFS dry-run failed: "@,
        ),
        run_by_status(
            filesystem_expand_phase(),
            plain_command("ntfsresize"@, seq!["--force"@, device]),
            "NTFS resize failed: "@,
        ),
    ]
}

/// The error for a filesystem that the engine cannot expand.
pub open spec fn expansion_unsupported_text(fs: FilesystemType) -> Seq<char> {
    "Filesystem expansion not supported for "@ + fs.name_text()
}

/// The second phase of an expansion: how the filesystem is expanded to
/// `target` bytes.
///
/// NTFS has grown with the volume on Windows and is resized by
/// `ntfsresize` elsewhere; the ext family is resized by `resize2fs`, on
/// Linux only; APFS and HFS+ are resized by `diskutil`, on macOS only.
pub open spec fn filesystem_expand_plan(platform: Platform, p: PartitionView, target: nat) -> Seq<
    PlanStepView,
> {
    if p.filesystem == FilesystemType::NTFS {
        if platform == Platform::Windows {
            Seq::empty()
        } else {
            ntfs_resize_plan(p.device_path)
        }
    } else if p.filesystem.is_ext() {
        if platform == Platform::Linux {
            seq![
                run_by_status(
                    filesystem_expand_phase(),
                    plain_command("resize2fs"@, seq![p.device_path]),
                    "resize2fs failed: "@,
                ),
            ]
        } else {
            seq![
                stop_with(
                    ErrorKind::Unsupported,
                    filesystem_expand_phase(),
                    "ext4 resize is only supported on Linux"@,
                ),
            ]
        }
    } else if p.filesystem.is_apple() {
        if platform == Platform::MacOS {
            seq![
                run_by_status(
                    filesystem_expand_phase(),
                    plain_command(
                        "diskutil"@,
                        seq!["resizeVolume"@, p.device_path, decimal(target) + "B"@],
                    ),
                    "diskutil resizeVolume failed: "@,
                ),
            ]
        } else {
            seq![
                stop_with(
                    ErrorKind::Unsupported,
                    filesystem_expand_phase(),
                    "APFS/HFS+ resize is only supported on macOS"@,
                ),
            ]
        }
    } else {
        seq![
            stop_with(
                ErrorKind::Unsupported,
                filesystem_expand_phase(),
                expansion_unsupported_text(p.filesystem),
            ),
        ]
    }
}

/// Whether the plan's last item ends it in an error.
pub open spec fn ends_in_stop(plan: Seq<PlanStepView>) -> bool {
    plan.len() > 0 && plan.last() is Stop
}

/// The plan of an expansion of `p` to `target` bytes: the table phase, then
/// the filesystem phase, unless the table phase cannot even start.
pub open spec fn expand_plan(platform: Platform, p: PartitionView, target: nat) -> Seq<
    PlanStepView,
> {
    let table = table_extend_plan(platform, p, target);
    if ends_in_stop(table) {
        table
    } else {
        table + filesystem_expand_plan(platform, p, target)
    }
}

fn extend_script_string(letter: &str, increase_mib: u64) -> (s: String)
    ensures
        s@ == extend_script(letter@, increase_mib as nat),
{
    let mut s = String::from_str("select volume ");
    s.append(letter);
    s.append("\nextend size=");
    s.append(decimal_string(increase_mib as u128).as_str());
    s.append("\n");
    s
}

fn with_suffix(number: u128, suffix: &str) -> (s: String)
    ensures
        s@ == decimal(number as nat) + suffix@,
{
    let mut s = decimal_string(number);
    s.append(suffix);
    s
}

/// Plans the first phase of an expansion: the extension of the entry in the
/// partition table.
pub fn expand_partition_table(platform: Platform, partition: &PartitionInfo, target_size: u64) -> (plan:
    Vec<PlanStep>)
    ensures
        plan_views(plan@) == table_extend_plan(platform, partition@, target_size as nat),
{
    match platform {
        Platform::Windows => match drive_letter(partition) {
            None => plan_of(
                stop(ErrorKind::Precondition, "TableExtend", "No drive letter found for partition"),
            ),
            Some(letter) => {
                let increase: u64 = if target_size > partition.total_size {
                    (target_size - partition.total_size) / MIB
                } else {
                    0
                };
                if increase == 0 {
                    plan_of(
                        stop(
                            ErrorKind::Validation,
                            "TableExtend",
                            "Target size must be larger than current size",
                        ),
                    )
                } else {
                    let script = extend_script_string(letter, increase);
                    let command = diskpart("diskpart_expand.txt", script.clone());
                    plan_of(
                        PlanStep::Run {
                            step: DriverStep {
                                phase: String::from_str("TableExtend"),
                                command,
                                check: Check::Diskpart { script },
                            },
                        },
                    )
                }
            },
        },
        Platform::Linux => {
            let (base, number) = split_device_path(partition.device_path.as_str());
            let size = with_suffix((target_size / MIB) as u128, "MB");
            let args = args4(base, "resizepart", number, size.as_str());
            plan_of(status_step("TableExtend", command_with("parted", args), "parted failed: "))
        },
        Platform::MacOS => empty_plan(),
    }
}

/// Plans the second phase of an expansion: the expansion of the filesystem
/// to `target_size` bytes.
pub fn expand_filesystem(
    platform: Platform,
    partition: &PartitionInfo,
    target_size: u64,
) -> (plan: Vec<PlanStep>)
    ensures
        plan_views(plan@) == filesystem_expand_plan(platform, partition@, target_size as nat),
{
    let device: &str = partition.device_path.as_str();
    match partition.filesystem {
        FilesystemType::NTFS => match platform {
            Platform::Windows => empty_plan(),
            _ => plan_of_two(
                status_step(
                    "FilesystemExpand",
                    command_with("ntfsresize", args3("--force", "--no-action", device)),
                    "NTFS dry-run failed: ",
                ),
                status_step(
                    "FilesystemExpand",
                    command_with("ntfsresize", args2("--force", device)),
                    "NTFS resize failed: ",
                ),
            ),
        },
        FilesystemType::Ext2 | FilesystemType::Ext3 | FilesystemType::Ext4 => match platform {
            Platform::Linux => plan_of(
                status_step(
                    "FilesystemExpand",
                    command_with("resize2fs", args1(device)),
                    "resize2fs failed: ",
                ),
            ),
            _ => plan_of(
                stop(
                    ErrorKind::Unsupported,
                    "FilesystemExpand",
                    "ext4 resize is only supported on Linux",
                ),
            ),
        },
        FilesystemType::APFS | FilesystemType::HFSPlus => match platform {
            Platform::MacOS => {
                let size = with_suffix(target_size as u128, "B");
                plan_of(
                    status_step(
                        "FilesystemExpand",
                        command_with("diskutil", args3("resizeVolume", device, size.as_str())),
                        "diskutil resizeVolume failed: ",
                    ),
                )
            },
            _ => plan_of(
                stop(
                    ErrorKind::Unsupported,
                    "FilesystemExpand",
                    "APFS/HFS+ resize is only supported on macOS",
                ),
            ),
        },
        _ => {
            let mut message = String::from_str("Filesystem expansion not supported for ");
            message.append(partition.filesystem.display_name());
            plan_of(
                PlanStep::Stop {
                    error: PartitionError::new(ErrorKind::Unsupported, "FilesystemExpand", message),
                },
            )
        },
    }
}

/// Decides whether the plan's last item ends it in an error.
pub fn plan_ends_in_stop(plan: &Vec<PlanStep>) -> (r: bool)
    ensures
        r == ends_in_stop(plan_views(plan@)),
{
    let n: usize = plan.len();
    if n == 0 {
        false
    } else {
        match &plan[n - 1] {
            PlanStep::Stop { error } => true,
            PlanStep::Run { step } => false,
        }
    }
}

/// Plans the expansion of `partition` to `target_size` bytes: the calls
/// that extend the entry in the partition table, then those that expand
/// the filesystem.
pub fn expand_partition(platform: Platform, partition: &PartitionInfo, target_size: u64) -> (plan:
    Vec<PlanStep>)
    ensures
        plan_views(plan@) == expand_plan(platform, partition@, target_size as nat),
{
    let mut plan = expand_partition_table(platform, partition, target_size);
    if !plan_ends_in_stop(&plan) {
        let mut rest = expand_filesystem(platform, partition, target_size);
        let ghost head = plan_views(plan@);
        let ghost tail = plan_views(rest@);
        plan.append(&mut rest);
        assert(plan_views(plan@) =~= head + tail);
    }
    plan
}

} // verus!
