use partition_engine::error::ErrorKind;
use partition_engine::move_orchestrator::{
    copy_percent, move_partition, staging_path, MoveAction, MoveEvent, MoveStep,
};
use partition_engine::move_partition::{MovePartitionOptions, MovePhase, MoveProgress};
use partition_engine::platform::Platform;
use partition_engine::types::{
    DiskInfo, DiskStatus, FilesystemType, PartitionFlag, PartitionInfo, PartitionTableType,
    PartitionType,
};

const GIB: u64 = 1024 * 1024 * 1024;

fn partition(mount: Option<&str>) -> PartitionInfo {
    PartitionInfo {
        id: "partition-0-2".to_string(),
        number: 2,
        device_path: "D:".to_string(),
        label: None,
        start_offset: 10 * GIB,
        total_size: 10 * GIB,
        used_space: Some(GIB),
        partition_type: PartitionType::Primary,
        filesystem: FilesystemType::NTFS,
        mount_point: mount.map(|m| m.to_string()),
        is_mounted: false,
        flags: vec![],
    }
}

fn disk(p: &PartitionInfo) -> DiskInfo {
    DiskInfo {
        id: "disk-0".to_string(),
        device_path: "\\\\.\\PhysicalDrive0".to_string(),
        model: "Test Disk".to_string(),
        total_size: 100 * GIB,
        table_type: PartitionTableType::GPT,
        partitions: vec![p.clone()],
        serial_number: None,
        status: DiskStatus { is_online: true, has_errors: false, smart_status: None },
    }
}

fn options(verify: bool) -> MovePartitionOptions {
    MovePartitionOptions {
        target_offset: 50 * GIB,
        verify_after_move: verify,
        backup_path: Some("/staging".to_string()),
    }
}

fn begin(verify: bool) -> MoveStep {
    let p = partition(Some("D:"));
    move_partition(Platform::Windows, &p, &disk(&p), &options(verify), "C:\\Temp")
}

fn seen(records: &[MoveProgress]) -> Vec<(MovePhase, u8, bool)> {
    records.iter().map(|r| (r.phase, r.percent, r.can_cancel)).collect()
}

fn failed(text: &str) -> MoveEvent {
    MoveEvent::Failed { diagnostic: text.to_string() }
}

#[test]
fn progress_records_of_each_phase() {
    let v = MoveProgress::validating("Validating move operation...");
    assert_eq!((v.phase, v.percent, v.can_cancel), (MovePhase::Validating, 0, true));
    assert_eq!(v.message, "Validating move operation...");
    assert_eq!((v.bytes_processed, v.total_bytes), (0, 0));

    let b = MoveProgress::backing_up(50, 5, 10);
    assert_eq!((b.phase, b.percent, b.can_cancel), (MovePhase::BackingUp, 20, true));
    assert_eq!(b.message, "Backing up partition data... 50.0%");
    assert_eq!((b.bytes_processed, b.total_bytes), (5, 10));
    assert_eq!(MoveProgress::backing_up(0, 0, 10).percent, 0);
    assert_eq!(MoveProgress::backing_up(1, 0, 10).percent, 0);
    assert_eq!(MoveProgress::backing_up(3, 0, 10).percent, 1);
    assert_eq!(MoveProgress::backing_up(100, 10, 10).percent, 40);
    assert_eq!(MoveProgress::backing_up(255, 10, 10).percent, 40);
    assert_eq!(
        MoveProgress::backing_up(255, 10, 10).message,
        "Backing up partition data... 100.0%"
    );

    let d = MoveProgress::deleting_partition("Deleting old partition...");
    assert_eq!((d.phase, d.percent, d.can_cancel), (MovePhase::DeletingOldPartition, 40, false));

    let c = MoveProgress::creating_partition("Creating partition at new location...");
    assert_eq!((c.phase, c.percent, c.can_cancel), (MovePhase::CreatingNewPartition, 50, false));

    let r = MoveProgress::restoring_data(50, 5, 10);
    assert_eq!((r.phase, r.percent, r.can_cancel), (MovePhase::RestoringData, 70, false));
    assert_eq!(r.message, "Restoring partition data... 50.0%");
    assert_eq!(MoveProgress::restoring_data(0, 0, 10).percent, 50);
    assert_eq!(MoveProgress::restoring_data(100, 10, 10).percent, 90);
    assert_eq!(MoveProgress::restoring_data(200, 10, 10).percent, 90);

    let y = MoveProgress::verifying(0);
    assert_eq!((y.phase, y.percent, y.can_cancel), (MovePhase::Verifying, 90, false));
    assert_eq!(y.message, "Verifying data integrity... 0.0%");
    assert_eq!(MoveProgress::verifying(55).percent, 95);
    assert_eq!(MoveProgress::verifying(100).percent, 100);
    assert_eq!(MoveProgress::verifying(101).percent, 100);

    let done = MoveProgress::complete("Partition moved successfully!");
    assert_eq!((done.phase, done.percent, done.can_cancel), (MovePhase::Complete, 100, false));

    let e = MoveProgress::error("it broke");
    assert_eq!((e.phase, e.percent, e.can_cancel), (MovePhase::Error, 0, false));
    assert_eq!(e.message, "it broke");
    assert_eq!(MoveProgress::failed_at(40, "late").percent, 40);
    assert_eq!(MoveProgress::failed_at(200, "late").percent, 100);
}

#[test]
fn phases_know_their_names_and_whether_they_can_be_cancelled() {
    let all = [
        MovePhase::Validating,
        MovePhase::BackingUp,
        MovePhase::DeletingOldPartition,
        MovePhase::CreatingNewPartition,
        MovePhase::RestoringData,
        MovePhase::Verifying,
        MovePhase::Complete,
        MovePhase::Error,
    ];
    let names: Vec<&str> = all.iter().map(|p| p.name()).collect();
    assert_eq!(
        names,
        vec![
            "Validating",
            "BackingUp",
            "DeletingOldPartition",
            "CreatingNewPartition",
            "RestoringData",
            "Verifying",
            "Complete",
            "Error"
        ]
    );
    let cancellable: Vec<bool> = all.iter().map(|p| p.can_cancel()).collect();
    assert_eq!(cancellable, vec![true, true, false, false, false, false, false, false]);
    let terminal: Vec<bool> = all.iter().map(|p| p.is_terminal()).collect();
    assert_eq!(terminal, vec![false, false, false, false, false, false, true, true]);
}

#[test]
fn staging_directory_defaults_to_the_temporary_directory() {
    assert_eq!(staging_path(Platform::Linux, &None, "/tmp", 3), "/tmp/partition_backup_3");
    assert_eq!(
        staging_path(Platform::MacOS, &None, "/var/tmp", 12),
        "/var/tmp/partition_backup_12"
    );
    assert_eq!(
        staging_path(Platform::Windows, &None, "C:\\Temp", 0),
        "C:\\Temp\\partition_backup_0"
    );
    assert_eq!(
        staging_path(Platform::Linux, &Some("/mnt/stage".to_string()), "/tmp", 3),
        "/mnt/stage"
    );
}

#[test]
fn copy_percent_is_the_share_of_bytes_handled() {
    assert_eq!(copy_percent(0, 0), 0);
    assert_eq!(copy_percent(5, 0), 0);
    assert_eq!(copy_percent(0, 10), 0);
    assert_eq!(copy_percent(1, 3), 33);
    assert_eq!(copy_percent(2, 3), 66);
    assert_eq!(copy_percent(3, 3), 100);
    assert_eq!(copy_percent(4, 3), 100);
    assert_eq!(copy_percent(u64::MAX, u64::MAX), 100);
    assert_eq!(copy_percent(u64::MAX, 1), 100);
}

#[test]
fn a_move_runs_through_its_phases_in_order() {
    let step = begin(true);
    assert_eq!(step.machine.phase(), MovePhase::BackingUp);
    assert_eq!(step.machine.staging(), "/staging");
    assert!(step.machine.can_cancel());
    assert_eq!(
        seen(&step.records),
        vec![
            (MovePhase::Validating, 0, true),
            (MovePhase::Validating, 0, true),
            (MovePhase::BackingUp, 0, true)
        ]
    );
    assert_eq!(step.records[0].message, "Validating move operation...");
    assert_eq!(step.records[1].message, "Preparing backup location...");
    assert_eq!(step.records[2].total_bytes, 10 * GIB);
    match &step.action {
        MoveAction::CopyTree { source, destination } => {
            assert_eq!(source, "D:");
            assert_eq!(destination, "/staging");
        }
        other => panic!("unexpected action {:?}", other),
    }

    let step = step.machine.advance(MoveEvent::Copied { bytes: 5 * GIB });
    assert_eq!(seen(&step.records), vec![(MovePhase::BackingUp, 20, true)]);
    assert_eq!(step.records[0].message, "Backing up partition data... 50.0%");
    assert_eq!(step.records[0].bytes_processed, 5 * GIB);
    assert!(matches!(step.action, MoveAction::Wait));
    assert_eq!(step.machine.percent(), 20);

    let step = step.machine.advance(MoveEvent::Succeeded);
    assert_eq!(
        seen(&step.records),
        vec![(MovePhase::BackingUp, 40, true), (MovePhase::DeletingOldPartition, 40, false)]
    );
    assert_eq!(step.records[1].message, "Deleting old partition...");
    match &step.action {
        MoveAction::DeleteTableEntry { device_path } => assert_eq!(device_path, "D:"),
        other => panic!("unexpected action {:?}", other),
    }
    assert!(!step.machine.can_cancel());

    let step = step.machine.advance(MoveEvent::Succeeded);
    assert_eq!(seen(&step.records), vec![(MovePhase::CreatingNewPartition, 50, false)]);
    assert_eq!(step.records[0].message, "Creating partition at new location...");
    match &step.action {
        MoveAction::CreateTableEntry { offset, size } => {
            assert_eq!((*offset, *size), (50 * GIB, 10 * GIB));
        }
        other => panic!("unexpected action {:?}", other),
    }

    let step = step.machine.advance(MoveEvent::Created { mount_point: Some("E:".to_string()) });
    assert_eq!(seen(&step.records), vec![(MovePhase::RestoringData, 50, false)]);
    match &step.action {
        MoveAction::CopyTree { source, destination } => {
            assert_eq!(source, "/staging");
            assert_eq!(destination, "E:");
        }
        other => panic!("unexpected action {:?}", other),
    }

    let step = step.machine.advance(MoveEvent::Copied { bytes: 10 * GIB / 4 });
    assert_eq!(seen(&step.records), vec![(MovePhase::RestoringData, 60, false)]);

    let step = step.machine.advance(MoveEvent::Succeeded);
    assert_eq!(
        seen(&step.records),
        vec![(MovePhase::RestoringData, 90, false), (MovePhase::Verifying, 90, false)]
    );
    match &step.action {
        MoveAction::Verify { staging, mount_point } => {
            assert_eq!(staging, "/staging");
            assert_eq!(mount_point, "E:");
        }
        other => panic!("unexpected action {:?}", other),
    }

    let step = step.machine.advance(MoveEvent::Succeeded);
    assert_eq!(
        seen(&step.records),
        vec![(MovePhase::Verifying, 100, false), (MovePhase::Complete, 100, false)]
    );
    assert_eq!(step.records[1].message, "Partition moved successfully!");
    match &step.action {
        MoveAction::Finish { remove_staging } => assert_eq!(remove_staging, "/staging"),
        other => panic!("unexpected action {:?}", other),
    }
    assert!(step.machine.is_finished());
    assert_eq!(step.machine.percent(), 100);

    let step = step.machine.advance(MoveEvent::Succeeded);
    assert!(step.records.is_empty());
    assert!(matches!(step.action, MoveAction::Wait));
    assert_eq!(step.machine.phase(), MovePhase::Complete);
}

#[test]
fn percentages_of_a_run_never_go_back() {
    let mut step = begin(true);
    let mut all: Vec<u8> = step.records.iter().map(|r| r.percent).collect();
    let events = vec![
        MoveEvent::Copied { bytes: 6 * GIB },
        MoveEvent::Copied { bytes: 2 * GIB },
        MoveEvent::Copied { bytes: 20 * GIB },
        MoveEvent::Succeeded,
        MoveEvent::Cancel,
        MoveEvent::Copied { bytes: 1 },
        MoveEvent::Succeeded,
        MoveEvent::Created { mount_point: Some("E:".to_string()) },
        MoveEvent::Copied { bytes: 9 * GIB },
        MoveEvent::Copied { bytes: 3 * GIB },
        MoveEvent::Succeeded,
        MoveEvent::VerifyUnavailable,
    ];
    for event in events {
        step = step.machine.advance(event);
        for r in &step.records {
            all.push(r.percent);
            assert!(r.percent <= 100);
            if r.phase == MovePhase::BackingUp {
                assert!(r.percent <= 40);
            }
            if r.phase == MovePhase::RestoringData {
                assert!(50 <= r.percent && r.percent <= 90);
            }
        }
    }
    assert_eq!(all, vec![0, 0, 0, 24, 40, 40, 40, 50, 50, 86, 90, 90, 100]);
    assert_eq!(step.machine.phase(), MovePhase::Complete);
}

#[test]
fn a_move_without_verification_completes_after_the_restore() {
    let step = begin(false);
    let step = step.machine.advance(MoveEvent::Succeeded);
    let step = step.machine.advance(MoveEvent::Succeeded);
    let step = step.machine.advance(MoveEvent::Created { mount_point: Some("E:".to_string()) });
    let step = step.machine.advance(MoveEvent::Succeeded);
    assert_eq!(
        seen(&step.records),
        vec![(MovePhase::RestoringData, 90, false), (MovePhase::Complete, 100, false)]
    );
    assert!(matches!(step.action, MoveAction::Finish { .. }));
}

#[test]
fn a_move_whose_driver_cannot_verify_says_so() {
    let step = begin(true);
    let step = step.machine.advance(MoveEvent::Succeeded);
    let step = step.machine.advance(MoveEvent::Succeeded);
    let step = step.machine.advance(MoveEvent::Created { mount_point: Some("E:".to_string()) });
    let step = step.machine.advance(MoveEvent::Succeeded);
    let step = step.machine.advance(MoveEvent::VerifyUnavailable);
    assert_eq!(seen(&step.records), vec![(MovePhase::Complete, 100, false)]);
    assert_eq!(
        step.records[0].message,
        "Partition moved successfully! The restored data was not verified: the driver offers no verification."
    );
    assert!(matches!(step.action, MoveAction::Finish { .. }));
}

#[test]
fn an_invalid_move_ends_before_anything_is_done() {
    let mut p = partition(Some("D:"));
    p.is_mounted = true;
    p.flags = vec![PartitionFlag::Boot];
    let mut o = options(true);
    o.target_offset = 95 * GIB;
    let step = move_partition(Platform::Windows, &p, &disk(&p), &o, "C:\\Temp");
    assert_eq!(step.machine.phase(), MovePhase::Error);
    assert_eq!(
        seen(&step.records),
        vec![(MovePhase::Validating, 0, true), (MovePhase::Error, 0, false)]
    );
    match &step.action {
        MoveAction::Fail { error } => {
            assert_eq!(error.kind, ErrorKind::Validation);
            assert_eq!(error.phase, "Validating");
            assert_eq!(
                error.message,
                "Move validation failed: Target location is outside disk bounds. Disk size: 100.00 GB, Required: 105.00 GB, Cannot move system or boot partition while it's mounted."
            );
            assert_eq!(
                error.to_line(),
                "[Validating] Move validation failed: Target location is outside disk bounds. Disk size: 100.00 GB, Required: 105.00 GB, Cannot move system or boot partition while it's mounted."
            );
            assert_eq!(step.records[1].message, error.message);
        }
        other => panic!("unexpected action {:?}", other),
    }
}

#[test]
fn a_move_of_an_unmounted_partition_cannot_be_backed_up() {
    let p = partition(None);
    let step = move_partition(Platform::Linux, &p, &disk(&p), &options(true), "/tmp");
    assert_eq!(step.machine.phase(), MovePhase::Error);
    assert_eq!(
        seen(&step.records),
        vec![
            (MovePhase::Validating, 0, true),
            (MovePhase::Validating, 0, true),
            (MovePhase::Error, 0, false)
        ]
    );
    match &step.action {
        MoveAction::Fail { error } => {
            assert_eq!(error.kind, ErrorKind::Precondition);
            assert_eq!(error.phase, "BackingUp");
            assert_eq!(error.message, "Partition must be mounted to back up its data");
        }
        other => panic!("unexpected action {:?}", other),
    }
}

#[test]
fn a_failed_backup_is_a_driver_error_and_changes_nothing() {
    let step = begin(true);
    let step = step.machine.advance(MoveEvent::Copied { bytes: 5 * GIB });
    let step = step.machine.advance(failed("Robocopy failed with exit code 16: no access"));
    assert_eq!(seen(&step.records), vec![(MovePhase::Error, 20, false)]);
    match &step.action {
        MoveAction::Fail { error } => {
            assert_eq!(error.kind, ErrorKind::Driver);
            assert_eq!(error.phase, "BackingUp");
            assert_eq!(
                error.message,
                "Failed to backup partition data: Robocopy failed with exit code 16: no access"
            );
        }
        other => panic!("unexpected action {:?}", other),
    }
    assert!(step.machine.is_finished());
    let step = step.machine.advance(MoveEvent::Succeeded);
    assert!(step.records.is_empty());
    assert_eq!(step.machine.phase(), MovePhase::Error);
}

#[test]
fn a_failed_deletion_is_a_driver_error() {
    let step = begin(true);
    let step = step.machine.advance(MoveEvent::Succeeded);
    let step = step.machine.advance(failed("Diskpart delete failed: busy"));
    assert_eq!(seen(&step.records), vec![(MovePhase::Error, 40, false)]);
    match &step.action {
        MoveAction::Fail { error } => {
            assert_eq!(error.kind, ErrorKind::Driver);
            assert_eq!(error.phase, "DeletingOldPartition");
            assert_eq!(
                error.message,
                "Failed to delete old partition: Diskpart delete failed: busy"
            );
        }
        other => panic!("unexpected action {:?}", other),
    }
}

#[test]
fn failures_after_the_deletion_put_data_at_risk_and_name_the_staging_directory() {
    let tail = ". DATA AT RISK: the old partition no longer exists. Its content is kept in '/staging' and can be restored from there by hand.";

    let step = begin(true);
    let step = step.machine.advance(MoveEvent::Succeeded);
    let step = step.machine.advance(MoveEvent::Succeeded);
    let create = step.machine.advance(failed("no room"));
    match &create.action {
        MoveAction::Fail { error } => {
            assert_eq!(error.kind, ErrorKind::DataAtRisk);
            assert_eq!(error.phase, "CreatingNewPartition");
            assert_eq!(
                error.message,
                format!("Failed to create partition at new location: no room{}", tail)
            );
        }
        other => panic!("unexpected action {:?}", other),
    }
    assert_eq!(seen(&create.records), vec![(MovePhase::Error, 50, false)]);

    let step = begin(true);
    let step = step.machine.advance(MoveEvent::Succeeded);
    let step = step.machine.advance(MoveEvent::Succeeded);
    let unmounted = step.machine.advance(MoveEvent::Created { mount_point: None });
    match &unmounted.action {
        MoveAction::Fail { error } => {
            assert_eq!(error.kind, ErrorKind::DataAtRisk);
            assert_eq!(
                error.message,
                format!("Target partition must be mounted to restore data{}", tail)
            );
        }
        other => panic!("unexpected action {:?}", other),
    }

    let step = begin(true);
    let step = step.machine.advance(MoveEvent::Succeeded);
    let step = step.machine.advance(MoveEvent::Succeeded);
    let step = step.machine.advance(MoveEvent::Created { mount_point: Some("E:".to_string()) });
    let step = step.machine.advance(MoveEvent::Copied { bytes: 5 * GIB });
    let restore = step.machine.advance(failed("disk full"));
    assert_eq!(seen(&restore.records), vec![(MovePhase::Error, 70, false)]);
    match &restore.action {
        MoveAction::Fail { error } => {
            assert_eq!(error.kind, ErrorKind::DataAtRisk);
            assert_eq!(error.phase, "RestoringData");
            assert_eq!(
                error.message,
                format!("Failed to restore partition data: disk full{}", tail)
            );
            assert!(error.message.contains("/staging"));
        }
        other => panic!("unexpected action {:?}", other),
    }

    let step = begin(true);
    let step = step.machine.advance(MoveEvent::Succeeded);
    let step = step.machine.advance(MoveEvent::Succeeded);
    let step = step.machine.advance(MoveEvent::Created { mount_point: Some("E:".to_string()) });
    let step = step.machine.advance(MoveEvent::Succeeded);
    let verify = step.machine.advance(failed("3 files differ"));
    match &verify.action {
        MoveAction::Fail { error } => {
            assert_eq!(error.kind, ErrorKind::DataAtRisk);
            assert_eq!(error.phase, "Verifying");
            assert_eq!(error.message, format!("Data verification failed: 3 files differ{}", tail));
        }
        other => panic!("unexpected action {:?}", other),
    }
}

#[test]
fn a_move_can_be_cancelled_during_the_backup_only() {
    let step = begin(true);
    let step = step.machine.advance(MoveEvent::Copied { bytes: 5 * GIB });
    let cancelled = step.machine.advance(MoveEvent::Cancel);
    assert_eq!(seen(&cancelled.records), vec![(MovePhase::Error, 20, false)]);
    match &cancelled.action {
        MoveAction::Fail { error } => {
            assert_eq!(error.kind, ErrorKind::Cancelled);
            assert_eq!(error.phase, "BackingUp");
            assert_eq!(
                error.message,
                "Move cancelled. The disk was not changed. The partial backup is kept in '/staging'."
            );
        }
        other => panic!("unexpected action {:?}", other),
    }

    let step = begin(true);
    let step = step.machine.advance(MoveEvent::Succeeded);
    let ignored = step.machine.advance(MoveEvent::Cancel);
    assert!(ignored.records.is_empty());
    assert!(matches!(ignored.action, MoveAction::Wait));
    assert_eq!(ignored.machine.phase(), MovePhase::DeletingOldPartition);
    let step = ignored.machine.advance(MoveEvent::Succeeded);
    let ignored = step.machine.advance(MoveEvent::Cancel);
    assert_eq!(ignored.machine.phase(), MovePhase::CreatingNewPartition);
    let step = ignored.machine.advance(MoveEvent::Created { mount_point: Some("E:".to_string()) });
    let ignored = step.machine.advance(MoveEvent::Cancel);
    assert_eq!(ignored.machine.phase(), MovePhase::RestoringData);
    assert!(matches!(ignored.action, MoveAction::Wait));
}

#[test]
fn events_that_a_phase_does_not_wait_for_change_nothing() {
    let step = begin(true);
    let step = step.machine.advance(MoveEvent::Created { mount_point: Some("E:".to_string()) });
    assert!(step.records.is_empty());
    assert_eq!(step.machine.phase(), MovePhase::BackingUp);
    let step = step.machine.advance(MoveEvent::VerifyUnavailable);
    assert_eq!(step.machine.phase(), MovePhase::BackingUp);
    let step = step.machine.advance(MoveEvent::Succeeded);
    let step = step.machine.advance(MoveEvent::Copied { bytes: 1 });
    assert!(step.records.is_empty());
    assert_eq!(step.machine.phase(), MovePhase::DeletingOldPartition);
    let step = step.machine.advance(MoveEvent::Succeeded);
    let step = step.machine.advance(MoveEvent::Succeeded);
    assert!(step.records.is_empty());
    assert_eq!(step.machine.phase(), MovePhase::CreatingNewPartition);
}
