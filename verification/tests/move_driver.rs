use partition_engine::device::{drive_letter, split_device_path};
use partition_engine::driver::{judge, Check, DriverStep, PlanStep};
use partition_engine::error::ErrorKind;
use partition_engine::move_driver::{
    disk_number, plan_copy_tree, plan_create_entry, plan_delete_entry, CopyPurpose,
};
use partition_engine::move_simple::MoveOperation;
use partition_engine::error::PartitionError;
use partition_engine::plan::{
    global_percent, locate_partition, move_options_for, plan_progress, resize_finished,
    resize_phase_of, ResizePhase,
};
use partition_engine::move_partition::{MovePhase, MoveProgress};
use partition_engine::platform::{CommandOutput, Platform};
use partition_engine::types::{
    DiskInfo, DiskStatus, FilesystemType, PartitionInfo, PartitionTableType, PartitionType,
};

const GIB: u64 = 1024 * 1024 * 1024;

fn partition(id: &str, device: &str, mount: Option<&str>) -> PartitionInfo {
    PartitionInfo {
        id: id.to_string(),
        number: 1,
        device_path: device.to_string(),
        label: None,
        start_offset: 0,
        total_size: 10 * GIB,
        used_space: None,
        partition_type: PartitionType::Primary,
        filesystem: FilesystemType::NTFS,
        mount_point: mount.map(|m| m.to_string()),
        is_mounted: mount.is_some(),
        flags: vec![],
    }
}

fn disk(id: &str, device: &str, partitions: Vec<PartitionInfo>) -> DiskInfo {
    DiskInfo {
        id: id.to_string(),
        device_path: device.to_string(),
        model: "Test Disk".to_string(),
        total_size: 100 * GIB,
        table_type: PartitionTableType::GPT,
        partitions,
        serial_number: None,
        status: DiskStatus { is_online: true, has_errors: false, smart_status: None },
    }
}

fn output(success: bool, code: Option<i32>, stderr: &str) -> CommandOutput {
    CommandOutput { success, exit_code: code, stdout: String::new(), stderr: stderr.to_string() }
}

fn run_of(step: &PlanStep) -> &DriverStep {
    match step {
        PlanStep::Run { step } => step,
        PlanStep::Stop { error } => panic!("the plan stops: {}", error.message),
    }
}

fn strings(items: &[&str]) -> Vec<String> {
    items.iter().map(|s| s.to_string()).collect()
}

#[test]
fn device_paths_end_in_the_partition_number() {
    assert_eq!(split_device_path("/dev/sda1"), ("/dev/sda", "1"));
    assert_eq!(split_device_path("/dev/sda12"), ("/dev/sda", "12"));
    assert_eq!(split_device_path("/dev/nvme0n1p3"), ("/dev/nvme0n1p", "3"));
    assert_eq!(split_device_path("/dev/sda"), ("/dev/sda", ""));
    assert_eq!(split_device_path("42"), ("", "42"));
    assert_eq!(split_device_path(""), ("", ""));
    assert_eq!(split_device_path("/dev/sd\u{0663}"), ("/dev/sd", "\u{0663}"));
}

#[test]
fn drive_letter_is_the_first_character_of_the_mount_point() {
    assert_eq!(drive_letter(&partition("p", "D:", Some("D:\\"))), Some("D"));
    assert_eq!(drive_letter(&partition("p", "D:", Some("é:"))), Some("é"));
    assert_eq!(drive_letter(&partition("p", "D:", Some(""))), None);
    assert_eq!(drive_letter(&partition("p", "D:", None)), None);
}

#[test]
fn trees_are_copied_by_robocopy_on_windows() {
    let step = plan_copy_tree(Platform::Windows, CopyPurpose::Backup, "D:", "C:\\stage");
    let run = run_of(&step);
    assert_eq!(run.phase, "BackingUp");
    assert_eq!(run.command.program, "robocopy");
    assert_eq!(
        run.command.args,
        strings(&["D:", "C:\\stage", "/E", "/COPYALL", "/R:3", "/W:5", "/MT:8"])
    );
    assert!(matches!(run.check, Check::Robocopy { .. }));
    assert!(judge(run, &output(false, Some(0), "")).is_ok());
    assert!(judge(run, &output(false, Some(7), "")).is_ok());
    assert!(judge(run, &output(true, Some(-1), "")).is_ok());
    let e = judge(run, &output(true, Some(8), "some files failed")).unwrap_err();
    assert_eq!(e.kind, ErrorKind::Driver);
    assert_eq!(e.phase, "BackingUp");
    assert_eq!(e.message, "Robocopy failed with exit code 8: some files failed");
    assert_eq!(
        judge(run, &output(true, None, "killed")).unwrap_err().message,
        "Robocopy failed with exit code 16: killed"
    );

    let back = plan_copy_tree(Platform::Windows, CopyPurpose::Restore, "C:\\stage", "E:");
    assert_eq!(run_of(&back).phase, "RestoringData");
    assert_eq!(
        judge(run_of(&back), &output(false, Some(9), "x")).unwrap_err().message,
        "Robocopy restore failed code 9: x"
    );
}

#[test]
fn trees_are_copied_by_rsync_elsewhere() {
    for platform in [Platform::Linux, Platform::MacOS] {
        let step = plan_copy_tree(platform, CopyPurpose::Backup, "/data", "/stage");
        let run = run_of(&step);
        assert_eq!(run.command.program, "rsync");
        assert_eq!(run.command.args, strings(&["-av", "--progress", "/data/", "/stage"]));
        assert!(judge(run, &output(true, Some(0), "")).is_ok());
        assert_eq!(
            judge(run, &output(false, Some(23), "partial")).unwrap_err().message,
            "Rsync failed: partial"
        );
        let back = plan_copy_tree(platform, CopyPurpose::Restore, "/stage", "/data");
        assert_eq!(run_of(&back).command.args, strings(&["-av", "--progress", "/stage/", "/data"]));
        assert_eq!(
            judge(run_of(&back), &output(false, None, "gone")).unwrap_err().message,
            "Rsync restore failed: gone"
        );
    }
}

#[test]
fn entries_are_deleted_by_the_tools_of_the_platform() {
    let win = partition("p", "D:", Some("D:"));
    let step = plan_delete_entry(Platform::Windows, &win);
    let run = run_of(&step);
    assert_eq!(run.phase, "DeletingOldPartition");
    assert_eq!(run.command.program, "diskpart");
    let script = run.command.script.as_ref().unwrap();
    assert_eq!(script.file_name, "diskpart_delete.txt");
    assert_eq!(script.content, "select volume D\ndelete partition\n");
    assert_eq!(
        judge(run, &output(false, Some(1), "denied")).unwrap_err().message,
        "Diskpart delete failed: denied"
    );
    match plan_delete_entry(Platform::Windows, &partition("p", "D:", None)) {
        PlanStep::Stop { error } => {
            assert_eq!(error.kind, ErrorKind::Precondition);
            assert_eq!(error.message, "No drive letter found for partition");
        }
        PlanStep::Run { .. } => panic!("nothing can be run without a drive letter"),
    }

    let linux = partition("p", "/dev/sdb7", None);
    let step = plan_delete_entry(Platform::Linux, &linux);
    assert_eq!(run_of(&step).command.program, "parted");
    assert_eq!(run_of(&step).command.args, strings(&["/dev/sdb", "rm", "7"]));
    assert_eq!(
        judge(run_of(&step), &output(false, Some(1), "busy")).unwrap_err().message,
        "parted delete failed: busy"
    );

    let mac = partition("p", "/dev/disk2s1", None);
    let step = plan_delete_entry(Platform::MacOS, &mac);
    assert_eq!(run_of(&step).command.program, "diskutil");
    assert_eq!(
        run_of(&step).command.args,
        strings(&["eraseVolume", "Free Space", "Untitled", "/dev/disk2s1"])
    );
    assert_eq!(
        judge(run_of(&step), &output(false, Some(1), "no")).unwrap_err().message,
        "diskutil delete failed: no"
    );
}

#[test]
fn entries_are_created_on_windows_only() {
    let d = disk("disk-3", "\\\\.\\PhysicalDrive3", vec![]);
    let step = plan_create_entry(Platform::Windows, &d, 10 * GIB, 50 * GIB);
    let run = run_of(&step);
    assert_eq!(run.phase, "CreatingNewPartition");
    let script = run.command.script.as_ref().unwrap();
    assert_eq!(script.file_name, "diskpart_create.txt");
    assert_eq!(
        script.content,
        "select disk 3\ncreate partition primary size=10240 offset=52428800\nformat fs=ntfs quick\nassign\n"
    );
    assert_eq!(
        judge(run, &output(false, Some(1), "no room")).unwrap_err().message,
        "Diskpart create failed: no room"
    );
    let small = plan_create_entry(Platform::Windows, &d, 1024 * 1024 - 1, 1023);
    assert_eq!(
        run_of(&small).command.script.as_ref().unwrap().content,
        "select disk 3\ncreate partition primary size=0 offset=0\nformat fs=ntfs quick\nassign\n"
    );
    for platform in [Platform::Linux, Platform::MacOS] {
        match plan_create_entry(platform, &d, 10 * GIB, 50 * GIB) {
            PlanStep::Stop { error } => {
                assert_eq!(error.kind, ErrorKind::Unsupported);
                assert_eq!(error.phase, "CreatingNewPartition");
                assert_eq!(
                    error.message,
                    "Partition creation at specific offset not yet fully implemented for this platform."
                );
            }
            PlanStep::Run { .. } => panic!("nothing creates an entry here"),
        }
    }
}

#[test]
fn disks_are_numbered_by_id_or_else_by_device_path() {
    assert_eq!(disk_number(&disk("disk-0", "\\\\.\\PhysicalDrive7", vec![])), "0");
    assert_eq!(disk_number(&disk("disk-12", "x", vec![])), "12");
    assert_eq!(disk_number(&disk("disk-", "x", vec![])), "");
    assert_eq!(disk_number(&disk("sda", "\\\\.\\PhysicalDrive7", vec![])), "7");
    assert_eq!(disk_number(&disk("disk", "\\\\.\\PhysicalDrive7", vec![])), "7");
    assert_eq!(disk_number(&disk("sda", "/dev/sda", vec![])), "/dev/sda");
}

#[test]
fn global_progress_of_a_plan() {
    assert_eq!(global_percent(0, 1, 0), 0);
    assert_eq!(global_percent(0, 1, 37), 37);
    assert_eq!(global_percent(0, 1, 100), 100);
    assert_eq!(global_percent(0, 2, 100), 50);
    assert_eq!(global_percent(1, 2, 0), 50);
    assert_eq!(global_percent(1, 2, 50), 75);
    assert_eq!(global_percent(1, 2, 100), 100);
    assert_eq!(global_percent(1, 4, 50), 37);
    assert_eq!(global_percent(2, 3, 200), 100);
    assert_eq!(global_percent(0, 3, 50), 16);
    assert_eq!(global_percent(usize::MAX - 1, usize::MAX, 100), 100);
}

#[test]
fn records_of_a_move_become_records_of_the_plan() {
    let record = MoveProgress::restoring_data(50, 5, 10);
    let shown = plan_progress(1, 2, "partition-0-2", &record);
    assert_eq!(shown.phase, ResizePhase::ResizingFilesystem);
    assert_eq!(shown.percent, 85);
    assert_eq!(shown.message, "Partition partition-0-2: Restoring partition data... 50.0%");
    assert!(!shown.can_cancel);
    let first = plan_progress(0, 2, "a", &MoveProgress::validating("Validating move operation..."));
    assert_eq!(first.percent, 0);
    assert!(!first.can_cancel);
    let last = plan_progress(1, 2, "b", &MoveProgress::complete("Partition moved successfully!"));
    assert_eq!(last.percent, 100);
    assert_eq!(last.phase, ResizePhase::Complete);
}

#[test]
fn phases_of_a_move_as_phases_of_a_resize() {
    assert_eq!(resize_phase_of(MovePhase::Validating), ResizePhase::Validating);
    assert_eq!(resize_phase_of(MovePhase::BackingUp), ResizePhase::CreatingBackup);
    assert_eq!(
        resize_phase_of(MovePhase::DeletingOldPartition),
        ResizePhase::UpdatingPartitionTable
    );
    assert_eq!(
        resize_phase_of(MovePhase::CreatingNewPartition),
        ResizePhase::UpdatingPartitionTable
    );
    assert_eq!(resize_phase_of(MovePhase::RestoringData), ResizePhase::ResizingFilesystem);
    assert_eq!(resize_phase_of(MovePhase::Verifying), ResizePhase::Verifying);
    assert_eq!(resize_phase_of(MovePhase::Complete), ResizePhase::Complete);
    assert_eq!(resize_phase_of(MovePhase::Error), ResizePhase::Error);
}

#[test]
fn moves_of_a_plan_are_verified_and_staged_in_the_default_place() {
    let op = MoveOperation {
        partition_id: "partition-0-2".to_string(),
        from_offset: 10 * GIB,
        to_offset: 50 * GIB,
    };
    let options = move_options_for(&op);
    assert_eq!(options.target_offset, 50 * GIB);
    assert!(options.verify_after_move);
    assert_eq!(options.backup_path, None);
}

#[test]
fn partitions_are_located_in_fresh_snapshots() {
    let disks = vec![
        disk("disk-0", "/dev/sda", vec![partition("a", "/dev/sda1", None)]),
        disk("disk-1", "/dev/sdb", vec![]),
        disk(
            "disk-2",
            "/dev/sdc",
            vec![
                partition("b", "/dev/sdc1", None),
                partition("c", "/dev/sdc2", None),
                partition("c", "/dev/sdc3", None),
            ],
        ),
        disk("disk-3", "/dev/sdd", vec![partition("c", "/dev/sdd1", None)]),
    ];
    assert_eq!(locate_partition(&disks, "a"), Some((0, 0)));
    assert_eq!(locate_partition(&disks, "b"), Some((2, 0)));
    assert_eq!(locate_partition(&disks, "c"), Some((2, 1)));
    assert_eq!(locate_partition(&disks, "d"), None);
    assert_eq!(locate_partition(&disks, ""), None);
    assert_eq!(locate_partition(&Vec::new(), "a"), None);
}

#[test]
fn a_resize_ends_in_complete_or_in_error() {
    let done = resize_finished(&Ok(()), "Partition expanded successfully!");
    assert_eq!(done.phase, ResizePhase::Complete);
    assert_eq!(done.percent, 100);
    assert_eq!(done.message, "Partition expanded successfully!");
    assert!(!done.can_cancel);
    let error = PartitionError::new(
        ErrorKind::Driver,
        "FilesystemExpand",
        "resize2fs failed: no room".to_string(),
    );
    let failed = resize_finished(&Err(error), "Partition expanded successfully!");
    assert_eq!(failed.phase, ResizePhase::Error);
    assert_eq!(failed.percent, 0);
    assert_eq!(failed.message, "[FilesystemExpand] resize2fs failed: no room");
    assert!(!failed.can_cancel);
}
