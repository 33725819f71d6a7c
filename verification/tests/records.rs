use partition_engine::ai::{AIErrorType, TokenUsage};
use partition_engine::error::{ErrorKind, PartitionError};
use partition_engine::mcp::{human_readable_size, DirectorySizeInfo, EditFileResult, ServerInfo};
use partition_engine::system_tools::{port_report, scan_report, DiskInfo, NetworkInterface};
use partition_engine::text::strip_prefix;
use partition_engine::types::FilesystemType;

#[test]
fn filesystems_that_can_be_resized() {
    let all = [
        FilesystemType::NTFS,
        FilesystemType::FAT32,
        FilesystemType::ExFAT,
        FilesystemType::Ext2,
        FilesystemType::Ext3,
        FilesystemType::Ext4,
        FilesystemType::APFS,
        FilesystemType::HFSPlus,
        FilesystemType::RAW,
        FilesystemType::Unknown,
    ];
    let resizable: Vec<bool> = all.iter().map(|f| f.supports_resize()).collect();
    assert_eq!(resizable, vec![true, false, false, true, true, true, true, true, false, false]);
    let names: Vec<&str> = all.iter().map(|f| f.display_name()).collect();
    assert_eq!(
        names,
        vec!["NTFS", "FAT32", "exFAT", "ext2", "ext3", "ext4", "APFS", "HFS+", "RAW", "Unknown"]
    );
}

#[test]
fn errors_in_one_line() {
    let e = PartitionError::new(ErrorKind::Driver, "TableExtend", "parted failed: x".to_string());
    assert_eq!(e.kind, ErrorKind::Driver);
    assert_eq!(e.phase, "TableExtend");
    assert_eq!(e.message, "parted failed: x");
    assert_eq!(e.to_line(), "[TableExtend] parted failed: x");
}

#[test]
fn prefixes_are_stripped_from_the_front_only() {
    assert_eq!(strip_prefix("disk-12", "disk-"), Some("12"));
    assert_eq!(strip_prefix("disk-", "disk-"), Some(""));
    assert_eq!(strip_prefix("disk", "disk-"), None);
    assert_eq!(strip_prefix("a-disk-1", "disk-"), None);
    assert_eq!(strip_prefix("anything", ""), Some("anything"));
    assert_eq!(strip_prefix("", ""), Some(""));
    assert_eq!(strip_prefix("", "x"), None);
    assert_eq!(strip_prefix("été", "é"), Some("té"));
}

#[test]
fn disk_usage_is_what_is_not_available() {
    let d = DiskInfo::from_space(
        "sda1".to_string(),
        1000,
        400,
        "/".to_string(),
        "ext4".to_string(),
        "SSD".to_string(),
        false,
    );
    assert_eq!((d.size, d.used, d.available), (1000, 600, 400));
    assert_eq!(d.mount_point.as_deref(), Some("/"));
    assert_eq!(d.file_system.as_deref(), Some("ext4"));
    assert_eq!(d.disk_type.as_deref(), Some("SSD"));
    assert!(!d.removable);
    let full = DiskInfo::from_space(
        "x".to_string(),
        5,
        0,
        String::new(),
        String::new(),
        String::new(),
        true,
    );
    assert_eq!(full.used, 5);
    let empty = DiskInfo::from_space(
        "x".to_string(),
        5,
        5,
        String::new(),
        String::new(),
        String::new(),
        true,
    );
    assert_eq!(empty.used, 0);
}

#[test]
fn interfaces_with_traffic_are_up() {
    let up = NetworkInterface::observed("eth0".to_string(), "aa:bb".to_string(), 1, 0);
    assert!(up.is_up);
    assert_eq!(up.ip_address, None);
    assert_eq!(up.mac_address.as_deref(), Some("aa:bb"));
    assert!(NetworkInterface::observed("eth0".to_string(), String::new(), 0, 7).is_up);
    assert!(!NetworkInterface::observed("eth0".to_string(), String::new(), 0, 0).is_up);
}

#[test]
fn port_scans_are_reported_line_by_line() {
    assert_eq!(port_report(80, true), "Port 80 is OPEN");
    assert_eq!(port_report(65535, false), "Port 65535 is CLOSED");
    assert_eq!(scan_report(&vec![]), "");
    assert_eq!(
        scan_report(&vec![(22, true), (23, false), (0, false)]),
        "Port 22 is OPEN\nPort 23 is CLOSED\nPort 0 is CLOSED"
    );
}

#[test]
fn sizes_as_the_file_tools_show_them() {
    assert_eq!(human_readable_size(0), "0 B");
    assert_eq!(human_readable_size(1023), "1023 B");
    assert_eq!(human_readable_size(1024), "1.00 KB");
    assert_eq!(human_readable_size(1536 * 1024), "1.50 MB");
    assert_eq!(human_readable_size(3 * 1024 * 1024 * 1024), "3.00 GB");
    let info = DirectorySizeInfo::counted("/data".to_string(), 2048, 3, 1);
    assert_eq!(info.path, "/data");
    assert_eq!((info.total_bytes, info.file_count, info.dir_count), (2048, 3, 1));
    assert_eq!(info.human_readable, "2.00 KB");
}

#[test]
fn the_file_server_introduces_itself() {
    let info = ServerInfo::current();
    assert_eq!(info.name, "RoRo-mcp-fs");
    assert_eq!(info.version, "0.2.0");
    assert_eq!(info.protocol_version, "2024-11-05");
    let missing = EditFileResult::not_found();
    assert!(!missing.success);
    assert_eq!(missing.changes_made, 0);
    assert_eq!(missing.diff, None);
    assert_eq!(missing.error.as_deref(), Some("Pattern not found in file"));
}

#[test]
fn failures_of_an_inference_in_one_line() {
    assert_eq!(AIErrorType::ModelNotFound.name(), "ModelNotFound");
    assert_eq!(AIErrorType::ContextTooLarge.name(), "ContextTooLarge");
    assert_eq!(
        AIErrorType::NetworkError.describe("connection refused"),
        "NetworkError: connection refused"
    );
    let usage = TokenUsage::counted(12, 30).unwrap();
    assert_eq!(
        (usage.prompt_tokens, usage.completion_tokens, usage.total_tokens),
        (12, 30, 42)
    );
    assert!(TokenUsage::counted(u32::MAX, 1).is_none());
}
