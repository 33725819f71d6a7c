use partition_engine::driver::{
    judge, plan_begin, plan_enter, plan_resume, Check, DriverStep, PlanStep, PlanVerdict,
};
use partition_engine::error::ErrorKind;
use partition_engine::mount::{mount_partition, unmount_partition};
use partition_engine::platform::{CommandOutput, DriverCommand, Platform};
use partition_engine::resize::expand::{
    expand_partition, expand_filesystem, expand_partition_table,
};
use partition_engine::resize::shrink::{format_size_for_diskutil, shrink_partition};
use partition_engine::types::{FilesystemType, PartitionFlag, PartitionInfo, PartitionType};

const MIB: u64 = 1024 * 1024;
const GIB: u64 = 1024 * 1024 * 1024;

fn partition(device: &str, fs: FilesystemType, mount: Option<&str>) -> PartitionInfo {
    PartitionInfo {
        id: "p".to_string(),
        number: 2,
        device_path: device.to_string(),
        label: None,
        start_offset: MIB,
        total_size: 100 * GIB,
        used_space: Some(10 * GIB),
        partition_type: PartitionType::Primary,
        filesystem: fs,
        mount_point: mount.map(|m| m.to_string()),
        is_mounted: mount.is_some(),
        flags: vec![],
    }
}

fn ok(stdout: &str) -> CommandOutput {
    CommandOutput {
        success: true,
        exit_code: Some(0),
        stdout: stdout.to_string(),
        stderr: String::new(),
    }
}

fn failed(stdout: &str, stderr: &str) -> CommandOutput {
    CommandOutput {
        success: false,
        exit_code: Some(1),
        stdout: stdout.to_string(),
        stderr: stderr.to_string(),
    }
}

fn run_of(step: &PlanStep) -> &DriverStep {
    match step {
        PlanStep::Run { step } => step,
        PlanStep::Stop { error } => panic!("the plan stops: {}", error.message),
    }
}

fn stop_of(step: &PlanStep) -> (ErrorKind, String, String) {
    match step {
        PlanStep::Stop { error } => (error.kind, error.phase.clone(), error.message.clone()),
        PlanStep::Run { step } => panic!("the plan runs {}", step.command.program),
    }
}

fn call(command: &DriverCommand) -> (String, Vec<String>) {
    (command.program.clone(), command.args.clone())
}

fn strings(items: &[&str]) -> Vec<String> {
    items.iter().map(|s| s.to_string()).collect()
}

#[test]
fn test_format_size_for_diskutil() {
    assert_eq!(format_size_for_diskutil(100 * 1024 * 1024 * 1024), "100G");
    assert_eq!(format_size_for_diskutil(500 * 1024 * 1024), "500M");
    assert_eq!(format_size_for_diskutil(1024), "1024B");
}

#[test]
fn diskutil_sizes_at_the_edges() {
    assert_eq!(format_size_for_diskutil(0), "0B");
    assert_eq!(format_size_for_diskutil(MIB - 1), "1048575B");
    assert_eq!(format_size_for_diskutil(MIB), "1M");
    assert_eq!(format_size_for_diskutil(GIB), "1G");
    assert_eq!(format_size_for_diskutil(GIB + 1), "1024M");
    assert_eq!(format_size_for_diskutil(GIB + GIB / 2), "1536M");
    assert_eq!(format_size_for_diskutil(u64::MAX), "17592186044415M");
}

#[test]
fn expand_on_windows_extends_by_the_increase() {
    let p = partition("D:", FilesystemType::NTFS, Some("D:"));
    let plan = expand_partition(Platform::Windows, &p, 150 * GIB);
    assert_eq!(plan.len(), 1);
    let step = run_of(&plan[0]);
    assert_eq!(step.phase, "TableExtend");
    assert_eq!(call(&step.command), ("diskpart".to_string(), strings(&["/s"])));
    let script = step.command.script.as_ref().unwrap();
    assert_eq!(script.file_name, "diskpart_expand.txt");
    assert_eq!(script.content, "select volume D\nextend size=51200\n");
    match &step.check {
        Check::Diskpart { script } => assert_eq!(script, "select volume D\nextend size=51200\n"),
        other => panic!("unexpected check {:?}", other),
    }
}

#[test]
fn expand_on_windows_needs_a_letter_and_a_whole_mebibyte() {
    let unmounted = partition("D:", FilesystemType::NTFS, None);
    let plan = expand_partition(Platform::Windows, &unmounted, 150 * GIB);
    assert_eq!(plan.len(), 1);
    assert_eq!(
        stop_of(&plan[0]),
        (
            ErrorKind::Precondition,
            "TableExtend".to_string(),
            "No drive letter found for partition".to_string()
        )
    );
    let empty_mount = partition("D:", FilesystemType::NTFS, Some(""));
    assert_eq!(
        stop_of(&expand_partition(Platform::Windows, &empty_mount, 150 * GIB)[0]).2,
        "No drive letter found for partition"
    );

    let p = partition("D:", FilesystemType::NTFS, Some("D:"));
    for target in [100 * GIB + MIB - 1, 100 * GIB, 5] {
        let plan = expand_partition(Platform::Windows, &p, target);
        assert_eq!(plan.len(), 1);
        assert_eq!(
            stop_of(&plan[0]),
            (
                ErrorKind::Validation,
                "TableExtend".to_string(),
                "Target size must be larger than current size".to_string()
            )
        );
    }
    let one = expand_partition(Platform::Windows, &p, 100 * GIB + MIB);
    assert_eq!(
        run_of(&one[0]).command.script.as_ref().unwrap().content,
        "select volume D\nextend size=1\n"
    );
}

#[test]
fn expand_on_windows_fails_late_for_other_filesystems() {
    let p = partition("E:", FilesystemType::Ext4, Some("E:"));
    let plan = expand_partition(Platform::Windows, &p, 150 * GIB);
    assert_eq!(plan.len(), 2);
    assert_eq!(run_of(&plan[0]).command.program, "diskpart");
    assert_eq!(
        stop_of(&plan[1]),
        (
            ErrorKind::Unsupported,
            "FilesystemExpand".to_string(),
            "ext4 resize is only supported on Linux".to_string()
        )
    );
    let fat = partition("F:", FilesystemType::FAT32, Some("F:"));
    let plan = expand_partition(Platform::Windows, &fat, 150 * GIB);
    assert_eq!(stop_of(&plan[1]).2, "Filesystem expansion not supported for FAT32");
    let apfs = partition("G:", FilesystemType::APFS, Some("G:"));
    let plan = expand_partition(Platform::Windows, &apfs, 150 * GIB);
    assert_eq!(stop_of(&plan[1]).2, "APFS/HFS+ resize is only supported on macOS");
}

#[test]
fn expand_on_linux_resizes_the_entry_to_the_new_size() {
    let p = partition("/dev/sda12", FilesystemType::Ext4, Some("/data"));
    let plan = expand_partition(Platform::Linux, &p, 150 * GIB);
    assert_eq!(plan.len(), 2);
    let table = run_of(&plan[0]);
    assert_eq!(table.phase, "TableExtend");
    assert_eq!(
        call(&table.command),
        ("parted".to_string(), strings(&["/dev/sda", "resizepart", "12", "153600MB"]))
    );
    assert!(table.command.script.is_none());
    let fs = run_of(&plan[1]);
    assert_eq!(fs.phase, "FilesystemExpand");
    assert_eq!(call(&fs.command), ("resize2fs".to_string(), strings(&["/dev/sda12"])));
}

#[test]
fn expand_of_ntfs_outside_windows_tries_a_dry_run_first() {
    let p = partition("/dev/sdb1", FilesystemType::NTFS, None);
    let plan = expand_filesystem(Platform::Linux, &p, 150 * GIB);
    assert_eq!(plan.len(), 2);
    assert_eq!(
        call(&run_of(&plan[0]).command),
        ("ntfsresize".to_string(), strings(&["--force", "--no-action", "/dev/sdb1"]))
    );
    assert_eq!(
        call(&run_of(&plan[1]).command),
        ("ntfsresize".to_string(), strings(&["--force", "/dev/sdb1"]))
    );
    let dry = failed("", "bad sectors");
    assert_eq!(
        judge(run_of(&plan[0]), &dry).unwrap_err().message,
        "NTFS dry-run failed: bad sectors"
    );
    assert_eq!(
        judge(run_of(&plan[1]), &dry).unwrap_err().message,
        "NTFS resize failed: bad sectors"
    );
    assert!(expand_filesystem(Platform::Windows, &p, 150 * GIB).is_empty());
    assert_eq!(expand_filesystem(Platform::MacOS, &p, 150 * GIB).len(), 2);
}

#[test]
fn expand_on_macos_resizes_the_volume() {
    let p = partition("/dev/disk1s2", FilesystemType::APFS, Some("/Volumes/Data"));
    assert!(expand_partition_table(Platform::MacOS, &p, 150 * GIB).is_empty());
    let plan = expand_partition(Platform::MacOS, &p, 150 * GIB);
    assert_eq!(plan.len(), 1);
    assert_eq!(
        call(&run_of(&plan[0]).command),
        (
            "diskutil".to_string(),
            strings(&["resizeVolume", "/dev/disk1s2", "161061273600B"])
        )
    );
    let hfs = partition("/dev/disk1s3", FilesystemType::HFSPlus, None);
    assert_eq!(expand_partition(Platform::MacOS, &hfs, GIB).len(), 1);
    let ext = partition("/dev/disk1s4", FilesystemType::Ext2, None);
    assert_eq!(
        stop_of(&expand_partition(Platform::MacOS, &ext, 150 * GIB)[0]).2,
        "ext4 resize is only supported on Linux"
    );
}

#[test]
fn extension_by_diskpart_is_judged_by_status_and_words() {
    let p = partition("D:", FilesystemType::NTFS, Some("D:"));
    let plan = expand_partition(Platform::Windows, &p, 150 * GIB);
    let step = run_of(&plan[0]);
    assert!(judge(step, &ok("DiskPart successfully extended the volume.")).is_ok());
    let e = judge(step, &ok("The extend failed.")).unwrap_err();
    assert_eq!(e.kind, ErrorKind::Driver);
    assert_eq!(e.phase, "TableExtend");
    assert_eq!(
        e.message,
        "Diskpart failed: The extend failed.\n\nScript used:\nselect volume D\nextend size=51200\n\n\nFull output:\nThe extend failed."
    );
    let e = judge(step, &failed("  out  ", "\n Access is denied. \n")).unwrap_err();
    assert_eq!(
        e.message,
        "Diskpart failed: Access is denied.\n\nScript used:\nselect volume D\nextend size=51200\n\n\nFull output:\n  out  "
    );
    let e = judge(step, &failed("", "")).unwrap_err();
    assert!(e.message.starts_with("Diskpart failed: Unknown diskpart error\n\nScript used:\n"));
    assert!(judge(step, &ok("an error occurred")).is_err());
    assert!(judge(step, &ok("Error")).is_ok());
}

#[test]
fn shrink_is_validated_before_anything_runs() {
    let p = partition("D:", FilesystemType::NTFS, Some("D:"));
    for platform in [Platform::Windows, Platform::MacOS, Platform::Linux] {
        let plan = shrink_partition(platform, &p, 11 * GIB);
        assert_eq!(plan.len(), 1);
        assert_eq!(
            stop_of(&plan[0]),
            (
                ErrorKind::Validation,
                "Validating".to_string(),
                "Shrink validation failed: Target size (11.00 GB) is too small. Used space: 10.00 GB, Minimum safe size: 12.00 GB"
                    .to_string()
            )
        );
    }
    let mut fat = partition("D:", FilesystemType::FAT32, Some("D:"));
    fat.used_space = None;
    let plan = shrink_partition(Platform::Windows, &fat, 200 * GIB);
    assert_eq!(
        stop_of(&plan[0]).2,
        "Shrink validation failed: Target size (200.00 GB) must be smaller than current size (100.00 GB), Filesystem type 'FAT32' does not support resize operations"
    );
}

#[test]
fn shrink_on_windows_shrinks_by_the_decrease() {
    let p = partition("D:", FilesystemType::NTFS, Some("D:\\"));
    let plan = shrink_partition(Platform::Windows, &p, 60 * GIB);
    assert_eq!(plan.len(), 1);
    let step = run_of(&plan[0]);
    assert_eq!(step.phase, "Shrink");
    assert_eq!(call(&step.command), ("diskpart".to_string(), strings(&["/s"])));
    let script = step.command.script.as_ref().unwrap();
    assert_eq!(script.file_name, "shrink_partition.txt");
    assert_eq!(script.content, "select volume D\nShrink desired=40960\n");

    assert!(judge(step, &ok("DiskPart successfully shrunk the volume")).is_ok());
    assert!(judge(step, &ok("operation completed")).is_ok());
    assert_eq!(
        judge(step, &ok("nothing happened")).unwrap_err().message,
        "Shrink operation may have failed. Output: nothing happened"
    );
    assert_eq!(
        judge(step, &failed("successfully", "denied")).unwrap_err().message,
        "Diskpart shrink failed.\nStdout: successfully\nStderr: denied"
    );
}

#[test]
fn shrink_on_windows_needs_a_mounted_volume() {
    let p = partition("D:", FilesystemType::NTFS, None);
    let plan = shrink_partition(Platform::Windows, &p, 60 * GIB);
    assert_eq!(
        stop_of(&plan[0]),
        (
            ErrorKind::Precondition,
            "Shrink".to_string(),
            "Cannot shrink unmounted partition on Windows. Please mount the partition first or use Disk Management."
                .to_string()
        )
    );
    let odd = partition("D:", FilesystemType::NTFS, Some(""));
    assert_eq!(
        stop_of(&shrink_partition(Platform::Windows, &odd, 60 * GIB)[0]).2,
        "Invalid mount point format"
    );
}

#[test]
fn shrink_on_macos_resizes_the_volume() {
    let p = partition("/dev/disk1s2", FilesystemType::APFS, Some("/Volumes/Data"));
    let plan = shrink_partition(Platform::MacOS, &p, 60 * GIB);
    assert_eq!(plan.len(), 1);
    let step = run_of(&plan[0]);
    assert_eq!(
        call(&step.command),
        ("diskutil".to_string(), strings(&["resizeVolume", "/dev/disk1s2", "60G"]))
    );
    assert!(judge(step, &ok("Finished APFS operation")).is_ok());
    assert!(judge(step, &ok("resized successfully")).is_ok());
    assert_eq!(
        judge(step, &ok("hm")).unwrap_err().message,
        "Resize operation may have failed. Output: hm"
    );
    assert_eq!(
        judge(step, &failed("Finished", "no space")).unwrap_err().message,
        "diskutil resize failed: no space"
    );
}

#[test]
fn shrink_on_linux_checks_then_shrinks_the_filesystem() {
    let p = partition("/dev/sda2", FilesystemType::Ext4, None);
    let plan = shrink_partition(Platform::Linux, &p, 60 * GIB);
    assert_eq!(plan.len(), 3);
    let check = run_of(&plan[0]);
    assert_eq!(check.phase, "FilesystemCheck");
    assert_eq!(call(&check.command), ("e2fsck".to_string(), strings(&["-f", "-y", "/dev/sda2"])));
    let resize = run_of(&plan[1]);
    assert_eq!(resize.phase, "FilesystemShrink");
    assert_eq!(
        call(&resize.command),
        ("resize2fs".to_string(), strings(&["/dev/sda2", "125829120s"]))
    );
    assert_eq!(
        stop_of(&plan[2]),
        (
            ErrorKind::Unsupported,
            "TableShrink".to_string(),
            "The filesystem was shrunk, but shrinking the entry in the partition table is not implemented on Linux: the partition keeps its old size."
                .to_string()
        )
    );
    assert_eq!(
        judge(check, &failed("", "errors left")).unwrap_err().message,
        "Filesystem check failed: errors left"
    );
}

#[test]
fn shrink_on_linux_refuses_a_mounted_partition() {
    let p = partition("/dev/sda2", FilesystemType::Ext4, Some("/data"));
    let plan = shrink_partition(Platform::Linux, &p, 60 * GIB);
    assert_eq!(plan.len(), 1);
    assert_eq!(
        stop_of(&plan[0]),
        (
            ErrorKind::Precondition,
            "FilesystemCheck".to_string(),
            "Partition must be unmounted before shrinking".to_string()
        )
    );
}

#[test]
fn shrink_of_a_boot_partition_is_planned_all_the_same() {
    let mut p = partition("/dev/sda2", FilesystemType::Ext4, None);
    p.flags = vec![PartitionFlag::Boot];
    assert_eq!(shrink_partition(Platform::Linux, &p, 60 * GIB).len(), 3);
}

#[test]
fn a_plan_runs_each_call_once_and_stops_at_the_first_failure() {
    let p = partition("/dev/sda2", FilesystemType::Ext4, None);
    let plan = shrink_partition(Platform::Linux, &p, 60 * GIB);
    assert!(matches!(plan_begin(&plan), PlanVerdict::Run { index: 0 }));
    assert!(matches!(plan_resume(&plan, 0, &ok("")), PlanVerdict::Run { index: 1 }));
    match plan_resume(&plan, 0, &failed("", "broken")) {
        PlanVerdict::Failed { error } => {
            assert_eq!(error.kind, ErrorKind::Driver);
            assert_eq!(error.phase, "FilesystemCheck");
            assert_eq!(error.message, "Filesystem check failed: broken");
        }
        other => panic!("unexpected verdict {:?}", other),
    }
    match plan_resume(&plan, 1, &ok("")) {
        PlanVerdict::Failed { error } => assert_eq!(error.kind, ErrorKind::Unsupported),
        other => panic!("unexpected verdict {:?}", other),
    }
    assert!(matches!(plan_enter(&plan, 3), PlanVerdict::Finished));
    assert!(matches!(plan_resume(&plan, 7, &ok("")), PlanVerdict::Finished));

    let linux = partition("/dev/sda12", FilesystemType::Ext4, Some("/data"));
    let expand = expand_partition(Platform::Linux, &linux, 150 * GIB);
    assert!(matches!(plan_resume(&expand, 0, &ok("")), PlanVerdict::Run { index: 1 }));
    assert!(matches!(plan_resume(&expand, 1, &ok("")), PlanVerdict::Finished));
    match plan_resume(&expand, 1, &failed("", "no room")) {
        PlanVerdict::Failed { error } => {
            assert_eq!(error.phase, "FilesystemExpand");
            assert_eq!(error.message, "resize2fs failed: no room");
        }
        other => panic!("unexpected verdict {:?}", other),
    }
    let nothing: Vec<PlanStep> = Vec::new();
    assert!(matches!(plan_begin(&nothing), PlanVerdict::Finished));
}

#[test]
fn unmount_by_platform() {
    let win = partition("D:", FilesystemType::NTFS, Some("D:"));
    let step = unmount_partition(Platform::Windows, &win);
    let run = run_of(&step);
    assert_eq!(run.phase, "Unmount");
    let script = run.command.script.as_ref().unwrap();
    assert_eq!(script.file_name, "unmount_partition.txt");
    assert_eq!(script.content, "select volume D\nremove letter=D\n");
    assert!(judge(run, &ok("DiskPart successfully removed the drive letter")).is_ok());
    assert!(judge(run, &ok("letter removed")).is_ok());
    assert_eq!(
        judge(run, &ok("?")).unwrap_err().message,
        "Unmount may have failed. Output: ?"
    );
    assert_eq!(
        judge(run, &failed("a", "b")).unwrap_err().message,
        "Diskpart unmount failed.\nStdout: a\nStderr: b"
    );
    let no_letter = partition("D:", FilesystemType::NTFS, None);
    assert_eq!(
        stop_of(&unmount_partition(Platform::Windows, &no_letter)),
        (
            ErrorKind::Precondition,
            "Unmount".to_string(),
            "No drive letter found for partition".to_string()
        )
    );

    let mac = partition("/dev/disk1s2", FilesystemType::APFS, None);
    let step = unmount_partition(Platform::MacOS, &mac);
    assert_eq!(
        call(&run_of(&step).command),
        ("diskutil".to_string(), strings(&["unmount", "/dev/disk1s2"]))
    );
    assert_eq!(
        judge(run_of(&step), &failed("", "busy")).unwrap_err().message,
        "diskutil unmount failed: busy"
    );

    let linux = partition("/dev/sda2", FilesystemType::Ext4, Some("/data"));
    let step = unmount_partition(Platform::Linux, &linux);
    assert_eq!(call(&run_of(&step).command), ("umount".to_string(), strings(&["/data"])));
    assert_eq!(
        judge(run_of(&step), &failed("", "target is busy")).unwrap_err().message,
        "umount failed: target is busy"
    );
    let loose = partition("/dev/sda2", FilesystemType::Ext4, None);
    assert_eq!(stop_of(&unmount_partition(Platform::Linux, &loose)).2, "Partition is not mounted");
}

#[test]
fn mount_by_platform() {
    let p = partition("/dev/disk1s2", FilesystemType::APFS, None);
    let step = mount_partition(Platform::MacOS, &p);
    assert_eq!(run_of(&step).phase, "Mount");
    assert_eq!(
        call(&run_of(&step).command),
        ("diskutil".to_string(), strings(&["mount", "/dev/disk1s2"]))
    );
    assert_eq!(
        judge(run_of(&step), &failed("", "nope")).unwrap_err().message,
        "diskutil mount failed: nope"
    );
    assert_eq!(
        stop_of(&mount_partition(Platform::Windows, &p)),
        (
            ErrorKind::Unsupported,
            "Mount".to_string(),
            "Automatic mounting not yet implemented on Windows. Please use Disk Management to assign a drive letter."
                .to_string()
        )
    );
    assert_eq!(
        stop_of(&mount_partition(Platform::Linux, &p)).2,
        "Automatic mounting not yet implemented on Linux. Please use mount command manually."
    );
}
