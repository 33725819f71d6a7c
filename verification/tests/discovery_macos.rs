use partition_engine::discovery::macos::{
    assemble_disk, disk_headed_by, get_disks, get_partition_info, get_partitions_for_disk,
    parse_disk_details, parse_disk_ids, parse_partition_ids, personality_named, scheme_named,
    DiskReport, PartitionReport,
};
use partition_engine::paths::normalize_path;
use partition_engine::text::{find_char, second_piece, starts_with};
use partition_engine::types::{FilesystemType, PartitionTableType, PartitionType};

const LIST: &str = "/dev/disk0 (internal, physical):
   #:                       TYPE NAME                    SIZE       IDENTIFIER
   0:      GUID_partition_scheme                        *500.3 GB   disk0
   1:                        EFI EFI                     314.6 MB   disk0s1
   2:                 Apple_APFS Container disk1         500.0 GB   disk0s2

/dev/disk1 (synthesized):
   #:                       TYPE NAME                    SIZE       IDENTIFIER
   0:      APFS Container Scheme -                      +500.0 GB   disk1
   1:                APFS Volume Macintosh HD            11.2 GB    disk1s1

/dev/disk2s1 (disk image):
/dev/disky (external):
/dev/disk3
not/dev/disk4 (x):
";

const DISK_INFO: &str = "   Device Identifier:         disk0
   Device Node:               /dev/disk0
   Whole:                     Yes
   Device / Media Name:       APPLE SSD AP0512M

   Content (IOContent):       GUID_partition_scheme
   Disk Size:                 500.3 GB (500277792768 Bytes) (exactly 977105064 512-Byte-Units)
";

const PARTITION_INFO: &str = "   Device Identifier:         disk1s1
   Volume Name:               Macintosh HD
   Mounted:                   Yes
   Mount Point:               /System/Volumes/Data
   File System Personality:   APFS
   Type (Bundle):             apfs
   Disk Size:                 500.1 GB (500068036608 Bytes) (exactly 976695384 512-Byte-Units)
   Volume Used Space:         11.2 GB (11234567890 Bytes) (exactly 21942515 512-Byte-Units)
";

#[test]
fn disks_are_the_lines_that_head_a_list() {
    assert_eq!(
        parse_disk_ids(LIST),
        vec!["disk0".to_string(), "disk1".to_string(), "disky".to_string()]
    );
    assert!(parse_disk_ids("").is_empty());
    assert_eq!(disk_headed_by("/dev/disk0 (internal, physical):").as_deref(), Some("disk0"));
    assert_eq!(disk_headed_by("/dev/disk12 (external):").as_deref(), Some("disk12"));
    assert_eq!(disk_headed_by("/dev/disk0s1 (internal):"), None);
    assert_eq!(disk_headed_by("/dev/disk0 (internal)"), None);
    assert_eq!(disk_headed_by(" /dev/disk0 (internal):"), None);
    assert_eq!(disk_headed_by("/dev/disk (internal):").as_deref(), Some("disk"));
}

#[test]
fn partitions_are_the_words_that_start_with_the_disk() {
    assert_eq!(
        parse_partition_ids(LIST, "disk0"),
        vec!["disk0".to_string(), "disk0s1".to_string(), "disk0s2".to_string()]
    );
    assert_eq!(
        parse_partition_ids(LIST, "disk1"),
        vec!["disk1".to_string(), "disk1".to_string(), "disk1s1".to_string()]
    );
    assert!(parse_partition_ids(LIST, "disk9").is_empty());
    assert!(parse_partition_ids("", "disk0").is_empty());
}

#[test]
fn details_of_a_disk_are_read_line_by_line() {
    let d = parse_disk_details(DISK_INFO);
    assert_eq!(d.model, "APPLE SSD AP0512M");
    assert_eq!(d.total_size, 500277792768);
    assert_eq!(d.table_type, PartitionTableType::GPT);

    let blank = parse_disk_details("");
    assert_eq!(blank.model, "Unknown Disk");
    assert_eq!(blank.total_size, 0);
    assert_eq!(blank.table_type, PartitionTableType::Unknown);

    let odd = parse_disk_details(
        "Device / Media Name: first\nDevice / Media Name: second: third\nDisk Size: 7 GB\nDisk Size: (lots Bytes)\nContent (IOContent): FDisk_partition_scheme\n",
    );
    assert_eq!(odd.model, "second");
    assert_eq!(odd.total_size, 0);
    assert_eq!(odd.table_type, PartitionTableType::MBR);

    let kept = parse_disk_details("Disk Size: (12 Bytes)\nDisk Size: none\nDisk Size: (\n");
    assert_eq!(kept.total_size, 12);
    let reset = parse_disk_details("Disk Size: (12 Bytes)\nDisk Size: ( )\n");
    assert_eq!(reset.total_size, 0);
}

#[test]
fn details_of_a_partition_are_read_line_by_line() {
    let p = get_partition_info(PARTITION_INFO, "disk1s1", 2);
    assert_eq!(p.id, "disk1s1");
    assert_eq!(p.number, 2);
    assert_eq!(p.device_path, "/dev/disk1s1");
    assert_eq!(p.label.as_deref(), Some("Macintosh HD"));
    assert_eq!(p.start_offset, 0);
    assert_eq!(p.total_size, 500068036608);
    assert_eq!(p.used_space, Some(11234567890));
    assert_eq!(p.partition_type, PartitionType::Normal);
    assert_eq!(p.filesystem, FilesystemType::Unknown);
    assert_eq!(p.mount_point.as_deref(), Some("/System/Volumes/Data"));
    assert!(p.is_mounted);
    assert!(p.flags.is_empty());

    let loose = get_partition_info(
        "Volume Name:\nMount Point: Not Mounted\nFile System Personality: Journaled HFS+\nVolume Total Space: 1 KB (1024 Bytes)\nVolume Used Space: 1 KB (many Bytes)\n",
        "disk2s1",
        1,
    );
    assert_eq!(loose.label.as_deref(), Some(""));
    assert_eq!(loose.mount_point, None);
    assert!(!loose.is_mounted);
    assert_eq!(loose.filesystem, FilesystemType::HFSPlus);
    assert_eq!(loose.total_size, 1024);
    assert_eq!(loose.used_space, Some(0));

    let flipped = get_partition_info("Mount Point: /Volumes/X\nMounted: No\n", "disk2s2", 1);
    assert_eq!(flipped.mount_point.as_deref(), Some("/Volumes/X"));
    assert!(!flipped.is_mounted);

    let blank = get_partition_info("", "disk2s3", 7);
    assert_eq!(blank.label, None);
    assert_eq!(blank.total_size, 0);
    assert_eq!(blank.used_space, None);
    assert_eq!(blank.filesystem, FilesystemType::Unknown);
}

#[test]
fn schemes_and_personalities() {
    assert_eq!(scheme_named("GUID_partition_scheme"), PartitionTableType::GPT);
    assert_eq!(scheme_named("FDisk_partition_scheme"), PartitionTableType::MBR);
    assert_eq!(scheme_named("Apple_partition_scheme"), PartitionTableType::Unknown);
    assert_eq!(scheme_named(""), PartitionTableType::Unknown);
    assert_eq!(personality_named("APFS"), FilesystemType::APFS);
    assert_eq!(personality_named("Case-sensitive APFS"), FilesystemType::APFS);
    assert_eq!(personality_named("Journaled HFS+"), FilesystemType::HFSPlus);
    assert_eq!(personality_named("MS-DOS FAT32"), FilesystemType::FAT32);
    assert_eq!(personality_named("ExFAT"), FilesystemType::ExFAT);
    assert_eq!(personality_named("apfs"), FilesystemType::Unknown);
    assert_eq!(personality_named("NTFS"), FilesystemType::Unknown);
}

#[test]
fn a_disk_is_put_together_from_its_parts() {
    let details = parse_disk_details(DISK_INFO);
    let partitions = vec![get_partition_info(PARTITION_INFO, "disk0s1", 1)];
    let d = assemble_disk("disk0", details, partitions);
    assert_eq!(d.id, "disk0");
    assert_eq!(d.device_path, "/dev/disk0");
    assert_eq!(d.model, "APPLE SSD AP0512M");
    assert_eq!(d.total_size, 500277792768);
    assert_eq!(d.table_type, PartitionTableType::GPT);
    assert_eq!(d.partitions.len(), 1);
    assert_eq!(d.serial_number, None);
    assert!(d.status.is_online);
    assert!(!d.status.has_errors);
    assert_eq!(d.status.smart_status, None);
}

#[test]
fn pieces_and_prefixes_of_lines() {
    assert_eq!(second_piece("a:b:c", ':'), Some("b"));
    assert_eq!(second_piece("a:b", ':'), Some("b"));
    assert_eq!(second_piece("a:", ':'), Some(""));
    assert_eq!(second_piece(":", ':'), Some(""));
    assert_eq!(second_piece("::x", ':'), Some(""));
    assert_eq!(second_piece("abc", ':'), None);
    assert_eq!(second_piece("", ':'), None);
    assert_eq!(second_piece("é(ü)ö", '('), Some("ü)ö"));
    assert_eq!(find_char("a:b:c", ':', 0), 1);
    assert_eq!(find_char("a:b:c", ':', 1), 1);
    assert_eq!(find_char("a:b:c", ':', 2), 3);
    assert_eq!(find_char("a:b:c", ':', 4), 5);
    assert_eq!(find_char("a:b:c", ':', 5), 5);
    assert_eq!(find_char("", ':', 0), 0);
    assert_eq!(find_char("a:b", ':', 9), 3);
    assert!(starts_with("Disk Size: 1", "Disk Size:"));
    assert!(starts_with("x", ""));
    assert!(!starts_with("Disk", "Disk Size:"));
    assert!(!starts_with(" Disk Size:", "Disk Size:"));
}

#[test]
fn paths_that_differ_by_a_trailing_separator_give_one_key() {
    assert_eq!(normalize_path("/home/user/"), "/home/user");
    assert_eq!(normalize_path("/home/user"), "/home/user");
    assert_eq!(normalize_path("C:\\Users\\"), "C:\\Users");
    assert_eq!(normalize_path("C:/Users/"), "C:/Users");
    assert_eq!(normalize_path("C:\\"), "C:\\");
    assert_eq!(normalize_path("C:/"), "C:/");
    assert_eq!(normalize_path("/"), "/");
    assert_eq!(normalize_path("\\"), "\\");
    assert_eq!(normalize_path(""), "");
    assert_eq!(normalize_path("//"), "/");
    assert_eq!(normalize_path("a/"), "a");
    assert_eq!(normalize_path("ab/"), "ab");
    assert_eq!(normalize_path("é/"), "é");
    assert_eq!(normalize_path("/home/user//"), "/home/user/");
}

#[test]
fn disks_are_read_from_the_reports_of_diskutil() {
    let reports = vec![
        DiskReport {
            id: "disk0".to_string(),
            info: DISK_INFO.to_string(),
            partitions: vec![
                PartitionReport { id: "disk0".to_string(), info: None },
                PartitionReport { id: "disk0s1".to_string(), info: Some(PARTITION_INFO.to_string()) },
                PartitionReport { id: "disk0s2".to_string(), info: Some(String::new()) },
            ],
        },
        DiskReport { id: "disk1".to_string(), info: String::new(), partitions: vec![] },
    ];
    let disks = get_disks(&reports);
    assert_eq!(disks.len(), 2);
    assert_eq!(disks[0].id, "disk0");
    assert_eq!(disks[0].model, "APPLE SSD AP0512M");
    assert_eq!(disks[0].partitions.len(), 2);
    assert_eq!(disks[0].partitions[0].id, "disk0s1");
    assert_eq!(disks[0].partitions[0].number, 2);
    assert_eq!(disks[0].partitions[0].total_size, 500068036608);
    assert_eq!(disks[0].partitions[1].id, "disk0s2");
    assert_eq!(disks[0].partitions[1].number, 3);
    assert_eq!(disks[1].id, "disk1");
    assert_eq!(disks[1].device_path, "/dev/disk1");
    assert_eq!(disks[1].model, "Unknown Disk");
    assert!(disks[1].partitions.is_empty());
    assert!(get_disks(&vec![]).is_empty());
    assert!(get_partitions_for_disk(&vec![]).is_empty());
}
