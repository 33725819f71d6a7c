//! Disks on Windows, from the records that the management interface hands
//! out: one record is a list of named properties.

use crate::plan::disk_views;
use crate::strings::{number_of, parse_number, text_contains, to_uppercase, trim_start_matches, uppercase, without_leading};
use crate::text::{decimal, decimal_string, holds, same_text};
use crate::types::{
    opt_nat, opt_text, DiskInfo, DiskStatus, DiskView, FilesystemType, PartitionFlag,
    PartitionInfo, PartitionTableType, PartitionType, PartitionView, StatusView,
};
use vstd::prelude::*;
use vstd::string::*;

verus! {

/// The value of a property.
#[derive(Debug, Clone)]
pub enum WmiValue {
    Text(String),
    /// An unsigned integer of 8 bytes.
    UI8(u64),
    /// A signed integer of 4 bytes.
    I4(i32),
    /// An unsigned integer of 4 bytes.
    UI4(u32),
    Bool(bool),
    /// A value of a kind that the engine does not read.
    Other,
}

/// A named property of a record.
#[derive(Debug, Clone)]
pub struct WmiProperty {
    pub name: String,
    pub value: WmiValue,
}

/// A partition as the management interface describes it: its own record, and
/// the record of the logical disk on it, if there is one.
#[derive(Debug, Clone)]
pub struct WmiPartition {
    pub record: Vec<WmiProperty>,
    pub logical_disk: Option<Vec<WmiProperty>>,
}

/// A disk as the management interface describes it: its own record, its
/// partitions, and the record of the first partition that was found by the
/// disk's index, from which the kind of partition table is told.
#[derive(Debug, Clone)]
pub struct WmiDisk {
    pub record: Vec<WmiProperty>,
    pub partitions: Vec<WmiPartition>,
    pub table_probe: Option<Vec<WmiProperty>>,
}

/// The value of the first property of the record with the given name.
pub open spec fn property(record: Seq<WmiProperty>, key: Seq<char>) -> Option<WmiValue>
    decreases record.len(),
{
    if record.len() == 0 {
        None
    } else if record[0].name@ == key {
        Some(record[0].value)
    } else {
        property(record.drop_first(), key)
    }
}

/// The text of a property, if the property is a text.
pub open spec fn text_property(record: Seq<WmiProperty>, key: Seq<char>) -> Option<Seq<char>> {
    match property(record, key) {
        Some(WmiValue::Text(s)) => Some(s@),
        _ => None,
    }
}

/// A signed integer of 4 bytes read as an unsigned one of 8: a negative
/// number counts from the top.
pub open spec fn widened(n: i32) -> u64 {
    if n >= 0 {
        n as u64
    } else {
        (0x1_0000_0000_0000_0000 + n) as u64
    }
}

/// The number of a property as 8 bytes: an integer as it is, a text as the
/// number it is the numeral of.
pub open spec fn u64_property(record: Seq<WmiProperty>, key: Seq<char>) -> Option<u64> {
    match property(record, key) {
        Some(WmiValue::UI8(n)) => Some(n),
        Some(WmiValue::I4(n)) => Some(widened(n)),
        Some(WmiValue::UI4(n)) => Some(n as u64),
        Some(WmiValue::Text(s)) => number_of(s@),
        _ => None,
    }
}

/// A text as a number of 4 bytes.
pub open spec fn small_number_of(text: Seq<char>) -> Option<u32> {
    match number_of(text) {
        Some(n) => if n <= u32::MAX {
            Some(n as u32)
        } else {
            None
        },
        None => None,
    }
}

/// The number of a property as 4 bytes: an integer cut to its low 4 bytes,
/// a text as the number it is the numeral of.
pub open spec fn u32_property(record: Seq<WmiProperty>, key: Seq<char>) -> Option<u32> {
    match property(record, key) {
        Some(WmiValue::UI8(n)) => Some((n % 0x1_0000_0000) as u32),
        Some(WmiValue::I4(n)) => Some((widened(n) % 0x1_0000_0000) as u32),
        Some(WmiValue::UI4(n)) => Some(n),
        Some(WmiValue::Text(s)) => small_number_of(s@),
        _ => None,
    }
}

/// The truth value of a property, if the property is one.
pub open spec fn bool_property(record: Seq<WmiProperty>, key: Seq<char>) -> Option<bool> {
    match property(record, key) {
        Some(WmiValue::Bool(b)) => Some(b),
        _ => None,
    }
}

/// The filesystem that Windows names, in whatever case.
pub open spec fn windows_filesystem(name: Seq<char>) -> FilesystemType {
    upper_case_filesystem(uppercase(name))
}

/// The filesystem that a name in upper case stands for.
pub open spec fn upper_case_filesystem(upper: Seq<char>) -> FilesystemType {
    if upper == "NTFS"@ {
        FilesystemType::NTFS
    } else if upper == "FAT32"@ || upper == "FAT"@ {
        FilesystemType::FAT32
    } else if upper == "EXFAT"@ {
        FilesystemType::ExFAT
    } else if upper == "RAW"@ {
        FilesystemType::RAW
    } else {
        FilesystemType::Unknown
    }
}

/// The kind of partition table, told from the type of a disk's first
/// partition.
pub open spec fn probed_table(probe: Option<Seq<WmiProperty>>) -> PartitionTableType {
    match probe {
        None => PartitionTableType::Unknown,
        Some(record) => {
            let kind = match text_property(record, "Type"@) {
                Some(t) => t,
                None => Seq::empty(),
            };
            if holds(kind, "GPT"@) {
                PartitionTableType::GPT
            } else if holds(kind, "MBR"@) || holds(kind, "Installable File System"@) {
                PartitionTableType::MBR
            } else {
                PartitionTableType::Unknown
            }
        },
    }
}

/// The index of a disk, told from its device path: the number after
/// `\\.\PhysicalDrive`, or 0.
pub open spec fn disk_index_in(device_path: Seq<char>) -> u32 {
    match small_number_of(without_leading(device_path, "\\\\.\\PhysicalDrive"@)) {
        Some(n) => n,
        None => 0,
    }
}

/// The used space on a logical disk: its size less its free space, where
/// both are known and the free space is no more than the size.
pub open spec fn logical_used(logical: Seq<WmiProperty>) -> Option<nat> {
    match (u64_property(logical, "Size"@), u64_property(logical, "FreeSpace"@)) {
        (Some(total), Some(free)) => if free <= total {
            Some((total - free) as nat)
        } else {
            None
        },
        _ => None,
    }
}

/// The number of a partition: its index and one, and no more than a number
/// can hold.
pub open spec fn partition_number(record: Seq<WmiProperty>) -> nat {
    match u32_property(record, "Index"@) {
        Some(i) => if i == u32::MAX {
            u32::MAX as nat
        } else {
            (i + 1) as nat
        },
        None => 1,
    }
}

/// The drive letter of a partition: the device id of the logical disk.
pub open spec fn logical_letter(logical: Option<Seq<WmiProperty>>) -> Option<Seq<char>> {
    match logical {
        Some(l) => text_property(l, "DeviceID"@),
        None => None,
    }
}

/// The name of the filesystem on a partition: that of the logical disk, or
/// else `Unknown`.
pub open spec fn logical_filesystem(logical: Option<Seq<WmiProperty>>) -> Seq<char> {
    match logical {
        Some(l) => match text_property(l, "FileSystem"@) {
            Some(f) => f,
            None => "Unknown"@,
        },
        None => "Unknown"@,
    }
}

/// The partition that the records describe.
pub open spec fn wmi_partition(
    disk_index: nat,
    record: Seq<WmiProperty>,
    logical: Option<Seq<WmiProperty>>,
) -> PartitionView {
    let number = partition_number(record);
    let letter = logical_letter(logical);
    PartitionView {
        id: "partition-"@ + decimal(disk_index) + "-"@ + decimal(number),
        number,
        device_path: match letter {
            Some(l) => l,
            None => match text_property(record, "DeviceID"@) {
                Some(d) => d,
                None => "Partition "@ + decimal(number),
            },
        },
        label: match logical {
            Some(l) => text_property(l, "VolumeName"@),
            None => None,
        },
        start_offset: match u64_property(record, "StartingOffset"@) {
            Some(n) => n as nat,
            None => 0,
        },
        total_size: match u64_property(record, "Size"@) {
            Some(n) => n as nat,
            None => 0,
        },
        used_space: match logical {
            Some(l) => logical_used(l),
            None => None,
        },
        partition_type: if bool_property(record, "PrimaryPartition"@) == Some(true) {
            PartitionType::Primary
        } else {
            PartitionType::Logical
        },
        filesystem: windows_filesystem(logical_filesystem(logical)),
        mount_point: letter,
        is_mounted: letter is Some,
        flags: if bool_property(record, "BootPartition"@) == Some(true) {
            set![PartitionFlag::Boot]
        } else {
            Set::empty()
        },
    }
}

/// The record of the logical disk of a partition, if there is one.
pub open spec fn logical_of(partition: WmiPartition) -> Option<Seq<WmiProperty>> {
    match partition.logical_disk {
        Some(l) => Some(l@),
        None => None,
    }
}

/// The device path of a disk: its device id, or else `\\.\PhysicalDrive`
/// with its index.
pub open spec fn wmi_device_path(index: nat, record: Seq<WmiProperty>) -> Seq<char> {
    match text_property(record, "DeviceID"@) {
        Some(d) => d,
        None => "\\\\.\\PhysicalDrive"@ + decimal(index),
    }
}

/// The disk at `index` that the records describe.
pub open spec fn wmi_disk(index: nat, disk: WmiDisk) -> DiskView {
    DiskView {
        id: "disk-"@ + decimal(index),
        device_path: wmi_device_path(index, disk.record@),
        model: match text_property(disk.record@, "Model"@) {
            Some(m) => m,
            None => "Unknown Disk"@,
        },
        total_size: match u64_property(disk.record@, "Size"@) {
            Some(n) => n as nat,
            None => 0,
        },
        table_type: probed_table(
            match disk.table_probe {
                Some(p) => Some(p@),
                None => None,
            },
        ),
        partitions: Seq::new(
            disk.partitions@.len(),
            |i: int|
                wmi_partition(index, disk.partitions@[i].record@, logical_of(disk.partitions@[i])),
        ),
        serial_number: text_property(disk.record@, "SerialNumber"@),
        status: StatusView { is_online: true, has_errors: false, smart_status: None },
    }
}

fn find_property<'a>(data: &'a Vec<WmiProperty>, key: &str) -> (found: Option<&'a WmiValue>)
    ensures
        match found {
            Some(v) => property(data@, key@) == Some(*v),
            None => property(data@, key@) is None,
        },
{
    let n: usize = data.len();
    let mut i: usize = 0;
    assert(data@.skip(0) =~= data@);
    while i < n
        invariant
            n == data.len(),
            i <= n,
            property(data@, key@) == property(data@.skip(i as int), key@),
        decreases n - i,
    {
        proof {
            let rest = data@.skip(i as int);
            assert(rest[0] == data@[i as int]);
            assert(rest.drop_first() =~= data@.skip(i + 1));
        }
        if same_text(data[i].name.as_str(), key) {
            return Some(&data[i].value);
        }
        i = i + 1;
    }
    assert(data@.skip(n as int).len() == 0);
    None
}

fn widen(n: i32) -> (w: u64)
    ensures
        w == widened(n),
{
    if n >= 0 {
        n as u64
    } else {
        u64::MAX - ((-(n as i64) - 1) as u64)
    }
}

fn parse_small_number(text: &str) -> (r: Option<u32>)
    ensures
        r == small_number_of(text@),
{
    match parse_number(text) {
        Some(n) => {
            if n <= u32::MAX as u64 {
                Some(n as u32)
            } else {
                None
            }
        },
        None => None,
    }
}

/// Reads a property that is a text.
pub fn get_string_property(data: &Vec<WmiProperty>, key: &str) -> (r: Option<String>)
    ensures
        opt_text(r) == text_property(data@, key@),
{
    match find_property(data, key) {
        Some(WmiValue::Text(s)) => Some(s.clone()),
        _ => None,
    }
}

/// Reads a property as a number of 8 bytes.
pub fn get_u64_property(data: &Vec<WmiProperty>, key: &str) -> (r: Option<u64>)
    ensures
        r == u64_property(data@, key@),
{
    match find_property(data, key) {
        Some(WmiValue::UI8(n)) => Some(*n),
        Some(WmiValue::I4(n)) => Some(widen(*n)),
        Some(WmiValue::UI4(n)) => Some(*n as u64),
        Some(WmiValue::Text(s)) => parse_number(s.as_str()),
        _ => None,
    }
}

/// Reads a property as a number of 4 bytes.
pub fn get_u32_property(data: &Vec<WmiProperty>, key: &str) -> (r: Option<u32>)
    ensures
        r == u32_property(data@, key@),
{
    match find_property(data, key) {
        Some(WmiValue::UI8(n)) => Some((*n % 0x1_0000_0000) as u32),
        Some(WmiValue::I4(n)) => Some((widen(*n) % 0x1_0000_0000) as u32),
        Some(WmiValue::UI4(n)) => Some(*n),
        Some(WmiValue::Text(s)) => parse_small_number(s.as_str()),
        _ => None,
    }
}

/// Reads a property that is a truth value.
pub fn get_bool_property(data: &Vec<WmiProperty>, key: &str) -> (r: Option<bool>)
    ensures
        r == bool_property(data@, key@),
{
    match find_property(data, key) {
        Some(WmiValue::Bool(b)) => Some(*b),
        _ => None,
    }
}

/// Tells the filesystem that Windows names.
pub fn parse_filesystem_type(fs_str: &str) -> (fs: FilesystemType)
    ensures
        fs == windows_filesystem(fs_str@),
{
    filesystem_in_upper_case(to_uppercase(fs_str).as_str())
}

/// Tells the filesystem that a name in upper case stands for.
pub fn filesystem_in_upper_case(upper: &str) -> (fs: FilesystemType)
    ensures
        fs == upper_case_filesystem(upper@),
{
    if same_text(upper, "NTFS") {
        FilesystemType::NTFS
    } else if same_text(upper, "FAT32") || same_text(upper, "FAT") {
        FilesystemType::FAT32
    } else if same_text(upper, "EXFAT") {
        FilesystemType::ExFAT
    } else if same_text(upper, "RAW") {
        FilesystemType::RAW
    } else {
        FilesystemType::Unknown
    }
}

/// Tells the kind of partition table from the record of a disk's first
/// partition.
pub fn detect_partition_table_type(probe: &Option<Vec<WmiProperty>>) -> (table: PartitionTableType)
    ensures
        table == probed_table(
            match *probe {
                Some(p) => Some(p@),
                None => None,
            },
        ),
{
    match probe {
        None => PartitionTableType::Unknown,
        Some(record) => {
            let kind = match get_string_property(record, "Type") {
                Some(t) => t,
                None => String::new(),
            };
            if text_contains(kind.as_str(), "GPT") {
                PartitionTableType::GPT
            } else if text_contains(kind.as_str(), "MBR") || text_contains(
                kind.as_str(),
                "Installable File System",
            ) {
                PartitionTableType::MBR
            } else {
                PartitionTableType::Unknown
            }
        },
    }
}

/// Tells the index of a disk from its device path.
pub fn disk_index_of(device_path: &str) -> (index: u32)
    ensures
        index == disk_index_in(device_path@),
{
    match parse_small_number(trim_start_matches(device_path, "\\\\.\\PhysicalDrive")) {
        Some(n) => n,
        None => 0,
    }
}

/// Tells the device path of the disk at `index`.
pub fn device_path_of(index: u32, record: &Vec<WmiProperty>) -> (path: String)
    ensures
        path@ == wmi_device_path(index as nat, record@),
{
    match get_string_property(record, "DeviceID") {
        Some(d) => d,
        None => {
            let mut path = String::from_str("\\\\.\\PhysicalDrive");
            path.append(decimal_string(index as u128).as_str());
            path
        },
    }
}

/// Reads what the logical disk on a partition tells of it: the drive
/// letter, the name of the filesystem, the used space and the label.
pub fn get_logical_disk_info(logical_disk: &Option<Vec<WmiProperty>>) -> (info: (
    Option<String>,
    String,
    Option<u64>,
    Option<String>,
))
    ensures
        opt_text(info.0) == logical_letter(
            match *logical_disk {
                Some(l) => Some(l@),
                None => None,
            },
        ),
        info.1@ == logical_filesystem(
            match *logical_disk {
                Some(l) => Some(l@),
                None => None,
            },
        ),
        opt_nat(info.2) == (match *logical_disk {
            Some(l) => logical_used(l@),
            None => None,
        }),
        opt_text(info.3) == (match *logical_disk {
            Some(l) => text_property(l@, "VolumeName"@),
            None => None,
        }),
{
    match logical_disk {
        Some(logical) => {
            let letter = get_string_property(logical, "DeviceID");
            let filesystem = match get_string_property(logical, "FileSystem") {
                Some(f) => f,
                None => String::from_str("Unknown"),
            };
            let total = get_u64_property(logical, "Size");
            let free = get_u64_property(logical, "FreeSpace");
            let used_space = match (total, free) {
                (Some(t), Some(f)) => if f <= t {
                    Some(t - f)
                } else {
                    None
                },
                _ => None,
            };
            let label = get_string_property(logical, "VolumeName");
            (letter, filesystem, used_space, label)
        },
        None => (None, String::from_str("Unknown"), None, None),
    }
}

/// Reads the partition that the records describe.
pub fn partition_from_records(disk_index: u32, partition: &WmiPartition) -> (p: PartitionInfo)
    ensures
        p@ == wmi_partition(disk_index as nat, partition.record@, logical_of(*partition)),
{
    let record = &partition.record;
    let number: u32 = match get_u32_property(record, "Index") {
        Some(i) => if i == u32::MAX {
            u32::MAX
        } else {
            i + 1
        },
        None => 1,
    };
    let size: u64 = match get_u64_property(record, "Size") {
        Some(n) => n,
        None => 0,
    };
    let start_offset: u64 = match get_u64_property(record, "StartingOffset") {
        Some(n) => n,
        None => 0,
    };
    let is_boot = match get_bool_property(record, "BootPartition") {
        Some(b) => b,
        None => false,
    };
    let is_primary = match get_bool_property(record, "PrimaryPartition") {
        Some(b) => b,
        None => false,
    };
    let (letter, filesystem_name, used_space, label) = get_logical_disk_info(
        &partition.logical_disk,
    );
    let filesystem = parse_filesystem_type(filesystem_name.as_str());
    let mut flags: Vec<PartitionFlag> = Vec::new();
    if is_boot {
        flags.push(PartitionFlag::Boot);
        assert(flags@.to_set() =~= set![PartitionFlag::Boot]) by {
            assert(flags@[0] == PartitionFlag::Boot);
        }
    } else {
        assert(flags@.to_set() =~= Set::empty());
    }
    let mut id = String::from_str("partition-");
    id.append(decimal_string(disk_index as u128).as_str());
    id.append("-");
    id.append(decimal_string(number as u128).as_str());
    let device_path = match &letter {
        Some(l) => l.clone(),
        None => match get_string_property(record, "DeviceID") {
            Some(d) => d,
            None => {
                let mut d = String::from_str("Partition ");
                d.append(decimal_string(number as u128).as_str());
                d
            },
        },
    };
    let is_mounted = letter.is_some();
    PartitionInfo {
        id,
        number,
        device_path,
        label,
        start_offset,
        total_size: size,
        used_space,
        partition_type: if is_primary {
            PartitionType::Primary
        } else {
            PartitionType::Logical
        },
        filesystem,
        mount_point: letter,
        is_mounted,
        flags,
    }
}

/// Reads the partitions of the disk at `disk_index`, in order.
pub fn get_partitions_for_disk(disk_index: u32, partitions: &Vec<WmiPartition>) -> (found: Vec<
    PartitionInfo,
>)
    ensures
        found@.map_values(|p: PartitionInfo| p@) == Seq::new(
            partitions@.len(),
            |i: int|
                wmi_partition(
                    disk_index as nat,
                    partitions@[i].record@,
                    logical_of(partitions@[i]),
                ),
        ),
{
    let mut found: Vec<PartitionInfo> = Vec::new();
    let n: usize = partitions.len();
    let mut i: usize = 0;
    while i < n
        invariant
            n == partitions.len(),
            i <= n,
            found.len() == i,
            forall|k: int|
                0 <= k < i ==> (#[trigger] found@[k])@ == wmi_partition(
                    disk_index as nat,
                    partitions@[k].record@,
                    logical_of(partitions@[k]),
                ),
        decreases n - i,
    {
        found.push(partition_from_records(disk_index, &partitions[i]));
        i = i + 1;
    }
    assert(found@.map_values(|p: PartitionInfo| p@) =~= Seq::new(
        partitions@.len(),
        |i: int|
            wmi_partition(disk_index as nat, partitions@[i].record@, logical_of(partitions@[i])),
    ));
    found
}

/// Reads the disk at `index` that the records describe.
pub fn disk_from_records(index: u32, disk: &WmiDisk) -> (d: DiskInfo)
    ensures
        d@ == wmi_disk(index as nat, *disk),
{
    let mut id = String::from_str("disk-");
    id.append(decimal_string(index as u128).as_str());
    DiskInfo {
        id,
        device_path: device_path_of(index, &disk.record),
        model: match get_string_property(&disk.record, "Model") {
            Some(m) => m,
            None => String::from_str("Unknown Disk"),
        },
        total_size: match get_u64_property(&disk.record, "Size") {
            Some(n) => n,
            None => 0,
        },
        table_type: detect_partition_table_type(&disk.table_probe),
        partitions: get_partitions_for_disk(index, &disk.partitions),
        serial_number: get_string_property(&disk.record, "SerialNumber"),
        status: DiskStatus { is_online: true, has_errors: false, smart_status: None },
    }
}

/// The index of the disk at place `i` of a list: the place, and no more
/// than an index can hold.
pub open spec fn index_at(i: int) -> nat {
    if i > u32::MAX {
        u32::MAX as nat
    } else {
        i as nat
    }
}

/// Reads the disks that the records describe, in order; the index of a
/// disk is its place in the list.
pub fn get_disks(disks: &Vec<WmiDisk>) -> (found: Vec<DiskInfo>)
    ensures
        disk_views(found@) == Seq::new(disks@.len(), |i: int| wmi_disk(index_at(i), disks@[i])),
{
    let mut found: Vec<DiskInfo> = Vec::new();
    let n: usize = disks.len();
    let mut i: usize = 0;
    while i < n
        invariant
            n == disks.len(),
            i <= n,
            found.len() == i,
            forall|k: int|
                0 <= k < i ==> (#[trigger] found@[k])@ == wmi_disk(index_at(k), disks@[k]),
        decreases n - i,
    {
        let index: u32 = if i > u32::MAX as usize {
            u32::MAX
        } else {
            i as u32
        };
        found.push(disk_from_records(index, &disks[i]));
        i = i + 1;
    }
    assert(disk_views(found@) =~= Seq::new(
        disks@.len(),
        |i: int| wmi_disk(index_at(i), disks@[i]),
    ));
    found
}

} // verus!
