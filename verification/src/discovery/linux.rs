//! Disks on Linux, from the JSON that `lsblk` prints and the table that
//! `df` prints.

use crate::json::{
    as_items, as_number, as_text, json_document, json_items, json_member, json_number, json_text,
    member, parse_json,
};
use crate::plan::disk_views;
use crate::strings::{lines, lines_of, number_of, parse_number, trim, trimmed, words, words_of};
use crate::text::{same_text, texts};
use crate::types::{
    DiskInfo, DiskStatus, DiskView, FilesystemType, PartitionInfo, PartitionTableType,
    PartitionType, PartitionView, StatusView,
};
use vstd::prelude::*;
use vstd::string::*;

verus! {

/// The used space of a mount point, as measured.
#[derive(Debug, Clone)]
pub struct Usage {
    pub mount_point: String,
    pub used: u64,
}

/// The measurements as pairs of mount point and used space.
pub open spec fn usage_views(usage: Seq<Usage>) -> Seq<(Seq<char>, u64)> {
    usage.map_values(|u: Usage| (u.mount_point@, u.used))
}

/// The used space measured for a mount point: that of the first
/// measurement of it.
pub open spec fn used_at(usage: Seq<(Seq<char>, u64)>, mount_point: Seq<char>) -> Option<u64>
    decreases usage.len(),
{
    if usage.len() == 0 {
        None
    } else if usage[0].0 == mount_point {
        Some(usage[0].1)
    } else {
        used_at(usage.drop_first(), mount_point)
    }
}

/// The used space that `df` reports: the third word of its second line,
/// read as a number of bytes.
pub open spec fn df_used(output: Seq<char>) -> Option<u64> {
    let rows = lines_of(output);
    if rows.len() < 2 {
        None
    } else {
        let columns = words_of(rows[1]);
        if columns.len() < 3 {
            None
        } else {
            number_of(columns[2])
        }
    }
}

/// The text of a member, or `default` where the member is no string.
pub open spec fn text_or(value: serde_json::Value, key: Seq<char>, default: Seq<char>) -> Seq<
    char,
> {
    match json_text(json_member(value, key)) {
        Some(t) => t,
        None => default,
    }
}

/// The number of a member, or 0 where the member is no such number.
pub open spec fn number_or_zero(value: serde_json::Value, key: Seq<char>) -> nat {
    match json_number(json_member(value, key)) {
        Some(n) => n as nat,
        None => 0,
    }
}

/// The filesystem that `lsblk` names.
pub open spec fn named_filesystem(name: Option<Seq<char>>) -> FilesystemType {
    match name {
        None => FilesystemType::Unknown,
        Some(t) => if t == "ext2"@ {
            FilesystemType::Ext2
        } else if t == "ext3"@ {
            FilesystemType::Ext3
        } else if t == "ext4"@ {
            FilesystemType::Ext4
        } else if t == "ntfs"@ {
            FilesystemType::NTFS
        } else if t == "vfat"@ {
            FilesystemType::FAT32
        } else if t == "exfat"@ {
            FilesystemType::ExFAT
        } else if t == "apfs"@ {
            FilesystemType::APFS
        } else if t == "hfsplus"@ || t == "hfs+"@ {
            FilesystemType::HFSPlus
        } else {
            FilesystemType::Unknown
        },
    }
}

/// The kind of partition table that `lsblk` names.
pub open spec fn named_table(name: Option<Seq<char>>) -> PartitionTableType {
    match name {
        None => PartitionTableType::Unknown,
        Some(t) => if t == "gpt"@ {
            PartitionTableType::GPT
        } else if t == "dos"@ || t == "mbr"@ {
            PartitionTableType::MBR
        } else {
            PartitionTableType::Unknown
        },
    }
}

/// The number of the child at `index`: counted from one, and no more than a
/// number can hold.
pub open spec fn child_number(index: int) -> nat {
    if index + 1 > u32::MAX {
        u32::MAX as nat
    } else {
        (index + 1) as nat
    }
}

/// The partition that a child of a disk describes. `lsblk` gives no start
/// offset; the used space is that measured at the mount point.
pub open spec fn lsblk_partition(
    child: serde_json::Value,
    number: nat,
    usage: Seq<(Seq<char>, u64)>,
) -> PartitionView {
    let name = text_or(child, "name"@, "unknown"@);
    let mount_point = json_text(json_member(child, "mountpoint"@));
    PartitionView {
        id: name,
        number,
        device_path: "/dev/"@ + name,
        label: json_text(json_member(child, "label"@)),
        start_offset: 0,
        total_size: number_or_zero(child, "size"@),
        used_space: match mount_point {
            Some(mp) => match used_at(usage, mp) {
                Some(used) => Some(used as nat),
                None => None,
            },
            None => None,
        },
        partition_type: PartitionType::Normal,
        filesystem: named_filesystem(json_text(json_member(child, "fstype"@))),
        mount_point,
        is_mounted: mount_point is Some,
        flags: Set::empty(),
    }
}

/// The partitions that the children of a disk describe, in order.
pub open spec fn lsblk_partitions(
    children: Seq<serde_json::Value>,
    usage: Seq<(Seq<char>, u64)>,
) -> Seq<PartitionView> {
    Seq::new(children.len(), |i: int| lsblk_partition(children[i], child_number(i), usage))
}

/// The disk that a block device describes.
pub open spec fn lsblk_disk(device: serde_json::Value, usage: Seq<(Seq<char>, u64)>) -> DiskView {
    let name = text_or(device, "name"@, "unknown"@);
    DiskView {
        id: name,
        device_path: "/dev/"@ + name,
        model: trimmed(text_or(device, "model"@, "Unknown Disk"@)),
        total_size: number_or_zero(device, "size"@),
        table_type: named_table(json_text(json_member(device, "pttype"@))),
        partitions: match json_items(json_member(device, "children"@)) {
            Some(children) => lsblk_partitions(children, usage),
            None => Seq::empty(),
        },
        serial_number: None,
        status: StatusView { is_online: true, has_errors: false, smart_status: None },
    }
}

/// Whether a block device is a disk, not a partition, a loop device or the
/// like.
pub open spec fn is_disk(device: serde_json::Value) -> bool {
    json_text(json_member(device, "type"@)) == Some("disk"@)
}

/// The disks among block devices, in order.
pub open spec fn lsblk_disks(devices: Seq<serde_json::Value>, usage: Seq<(Seq<char>, u64)>) -> Seq<
    DiskView,
>
    decreases devices.len(),
{
    if devices.len() == 0 {
        Seq::empty()
    } else {
        let before = lsblk_disks(devices.drop_last(), usage);
        if is_disk(devices.last()) {
            before.push(lsblk_disk(devices.last(), usage))
        } else {
            before
        }
    }
}

/// The disks that a document of `lsblk` describes: the disks among the
/// items of its member `blockdevices`.
pub open spec fn document_disks(document: serde_json::Value, usage: Seq<(Seq<char>, u64)>) -> Seq<
    DiskView,
> {
    match json_items(json_member(document, "blockdevices"@)) {
        Some(devices) => lsblk_disks(devices, usage),
        None => Seq::empty(),
    }
}

/// The mount points of the children of a block device, in order.
pub open spec fn child_mount_points(children: Seq<serde_json::Value>) -> Seq<Seq<char>>
    decreases children.len(),
{
    if children.len() == 0 {
        Seq::empty()
    } else {
        let before = child_mount_points(children.drop_last());
        match json_text(json_member(children.last(), "mountpoint"@)) {
            Some(mp) => before.push(mp),
            None => before,
        }
    }
}

/// The mount points of the partitions of the disks among block devices, in
/// order.
pub open spec fn device_mount_points(devices: Seq<serde_json::Value>) -> Seq<Seq<char>>
    decreases devices.len(),
{
    if devices.len() == 0 {
        Seq::empty()
    } else {
        let before = device_mount_points(devices.drop_last());
        if is_disk(devices.last()) {
            match json_items(json_member(devices.last(), "children"@)) {
                Some(children) => before + child_mount_points(children),
                None => before,
            }
        } else {
            before
        }
    }
}

/// The mount points in a document of `lsblk`.
pub open spec fn document_mount_points(document: serde_json::Value) -> Seq<Seq<char>> {
    match json_items(json_member(document, "blockdevices"@)) {
        Some(devices) => device_mount_points(devices),
        None => Seq::empty(),
    }
}

/// Reads the used space from what `df -B1` printed for one mount point.
pub fn get_used_space(output: &str) -> (used: Option<u64>)
    ensures
        used == df_used(output@),
{
    let rows = lines(output);
    if rows.len() < 2 {
        return None;
    }
    let columns = words(rows[1].as_str());
    if columns.len() < 3 {
        return None;
    }
    assert(texts(rows@)[1] == rows@[1]@);
    assert(texts(columns@)[2] == columns@[2]@);
    parse_number(columns[2].as_str())
}

/// Looks the used space of a mount point up among the measurements.
pub fn find_used(usage: &Vec<Usage>, mount_point: &str) -> (used: Option<u64>)
    ensures
        used == used_at(usage_views(usage@), mount_point@),
{
    let n: usize = usage.len();
    let mut i: usize = 0;
    assert(usage_views(usage@).skip(0) =~= usage_views(usage@));
    while i < n
        invariant
            n == usage.len(),
            i <= n,
            used_at(usage_views(usage@), mount_point@) == used_at(
                usage_views(usage@).skip(i as int),
                mount_point@,
            ),
        decreases n - i,
    {
        proof {
            let rest = usage_views(usage@).skip(i as int);
            assert(rest[0] == (usage@[i as int].mount_point@, usage@[i as int].used));
            assert(rest.drop_first() =~= usage_views(usage@).skip(i + 1));
        }
        if same_text(usage[i].mount_point.as_str(), mount_point) {
            return Some(usage[i].used);
        }
        i = i + 1;
    }
    assert(usage_views(usage@).skip(n as int).len() == 0);
    None
}

fn text_member_or(value: &serde_json::Value, key: &str, default: &str) -> (s: String)
    ensures
        s@ == text_or(*value, key@, default@),
{
    match as_text(member(value, key)) {
        Some(t) => String::from_str(t),
        None => String::from_str(default),
    }
}

fn number_member_or_zero(value: &serde_json::Value, key: &str) -> (n: u64)
    ensures
        n == number_or_zero(*value, key@),
{
    match as_number(member(value, key)) {
        Some(n) => n,
        None => 0,
    }
}

fn optional_text(value: &serde_json::Value, key: &str) -> (s: Option<String>)
    ensures
        crate::types::opt_text(s) == json_text(json_member(*value, key@)),
{
    match as_text(member(value, key)) {
        Some(t) => Some(String::from_str(t)),
        None => None,
    }
}

/// Tells the filesystem that `lsblk` names.
pub fn filesystem_named(name: Option<&str>) -> (fs: FilesystemType)
    ensures
        fs == named_filesystem(
            match name {
                Some(t) => Some(t@),
                None => None,
            },
        ),
{
    match name {
        None => FilesystemType::Unknown,
        Some(t) => {
            if same_text(t, "ext2") {
                FilesystemType::Ext2
            } else if same_text(t, "ext3") {
                FilesystemType::Ext3
            } else if same_text(t, "ext4") {
                FilesystemType::Ext4
            } else if same_text(t, "ntfs") {
                FilesystemType::NTFS
            } else if same_text(t, "vfat") {
                FilesystemType::FAT32
            } else if same_text(t, "exfat") {
                FilesystemType::ExFAT
            } else if same_text(t, "apfs") {
                FilesystemType::APFS
            } else if same_text(t, "hfsplus") || same_text(t, "hfs+") {
                FilesystemType::HFSPlus
            } else {
                FilesystemType::Unknown
            }
        },
    }
}

/// Tells the kind of partition table that `lsblk` names.
pub fn table_named(name: Option<&str>) -> (table: PartitionTableType)
    ensures
        table == named_table(
            match name {
                Some(t) => Some(t@),
                None => None,
            },
        ),
{
    match name {
        None => PartitionTableType::Unknown,
        Some(t) => {
            if same_text(t, "gpt") {
                PartitionTableType::GPT
            } else if same_text(t, "dos") || same_text(t, "mbr") {
                PartitionTableType::MBR
            } else {
                PartitionTableType::Unknown
            }
        },
    }
}

/// Reads the partition that a child of a disk describes.
pub fn parse_partition_info(child: &serde_json::Value, number: u32, usage: &Vec<Usage>) -> (p:
    PartitionInfo)
    ensures
        p@ == lsblk_partition(*child, number as nat, usage_views(usage@)),
{
    let name = text_member_or(child, "name", "unknown");
    let mut device_path = String::from_str("/dev/");
    device_path.append(name.as_str());
    let mount_point = optional_text(child, "mountpoint");
    let used_space = match &mount_point {
        Some(mp) => find_used(usage, mp.as_str()),
        None => None,
    };
    let is_mounted = mount_point.is_some();
    let flags: Vec<crate::types::PartitionFlag> = Vec::new();
    assert(flags@.to_set() =~= Set::empty());
    PartitionInfo {
        id: name,
        number,
        device_path,
        label: optional_text(child, "label"),
        start_offset: 0,
        total_size: number_member_or_zero(child, "size"),
        used_space,
        partition_type: PartitionType::Normal,
        filesystem: filesystem_named(as_text(member(child, "fstype"))),
        mount_point,
        is_mounted,
        flags,
    }
}

/// Reads the disk that a block device describes, with its partitions.
pub fn parse_disk_info(device: &serde_json::Value, usage: &Vec<Usage>) -> (d: DiskInfo)
    ensures
        d@ == lsblk_disk(*device, usage_views(usage@)),
{
    let name = text_member_or(device, "name", "unknown");
    let mut device_path = String::from_str("/dev/");
    device_path.append(name.as_str());
    let model = String::from_str(trim(text_member_or(device, "model", "Unknown Disk").as_str()));
    let mut partitions: Vec<PartitionInfo> = Vec::new();
    match as_items(member(device, "children")) {
        Some(children) => {
            let n: usize = children.len();
            let mut i: usize = 0;
            while i < n
                invariant
                    n == children.len(),
                    i <= n,
                    partitions.len() == i,
                    forall|k: int|
                        0 <= k < i ==> (#[trigger] partitions@[k])@ == lsblk_partition(
                            children@[k],
                            child_number(k),
                            usage_views(usage@),
                        ),
                decreases n - i,
            {
                let number: u32 = if i < u32::MAX as usize {
                    (i + 1) as u32
                } else {
                    u32::MAX
                };
                partitions.push(parse_partition_info(&children[i], number, usage));
                i = i + 1;
            }
            assert(partitions@.map_values(|p: PartitionInfo| p@) =~= lsblk_partitions(
                children@,
                usage_views(usage@),
            ));
        },
        None => {
            assert(partitions@.map_values(|p: PartitionInfo| p@) =~= Seq::empty());
        },
    }
    DiskInfo {
        id: name,
        device_path,
        model,
        total_size: number_member_or_zero(device, "size"),
        table_type: table_named(as_text(member(device, "pttype"))),
        partitions,
        serial_number: None,
        status: DiskStatus { is_online: true, has_errors: false, smart_status: None },
    }
}

/// Decides whether a block device is a disk.
pub fn device_is_disk(device: &serde_json::Value) -> (r: bool)
    ensures
        r == is_disk(*device),
{
    match as_text(member(device, "type")) {
        Some(t) => same_text(t, "disk"),
        None => false,
    }
}

/// Reads the disks that a document of `lsblk` describes.
pub fn disks_from_document(document: &serde_json::Value, usage: &Vec<Usage>) -> (disks: Vec<
    DiskInfo,
>)
    ensures
        disk_views(disks@) == document_disks(*document, usage_views(usage@)),
{
    let mut disks: Vec<DiskInfo> = Vec::new();
    assert(disk_views(disks@) =~= Seq::empty());
    match as_items(member(document, "blockdevices")) {
        Some(devices) => {
            let n: usize = devices.len();
            let mut i: usize = 0;
            assert(devices@.take(0).len() == 0);
            while i < n
                invariant
                    n == devices.len(),
                    i <= n,
                    disk_views(disks@) == lsblk_disks(
                        devices@.take(i as int),
                        usage_views(usage@),
                    ),
                decreases n - i,
            {
                proof {
                    let more = devices@.take(i + 1);
                    assert(more.drop_last() =~= devices@.take(i as int));
                    assert(more.last() == devices@[i as int]);
                }
                if device_is_disk(&devices[i]) {
                    let ghost before = disk_views(disks@);
                    let disk = parse_disk_info(&devices[i], usage);
                    disks.push(disk);
                    assert(disk_views(disks@) =~= before.push(disk@));
                }
                i = i + 1;
            }
            assert(devices@.take(n as int) =~= devices@);
        },
        None => {},
    }
    disks
}

/// Reads the disks that the JSON of `lsblk` describes. A text that is no
/// JSON, or that has no array `blockdevices`, describes none.
pub fn get_disks(json: &str, usage: &Vec<Usage>) -> (disks: Vec<DiskInfo>)
    ensures
        disk_views(disks@) == (match json_document(json@) {
            Some(document) => document_disks(document, usage_views(usage@)),
            None => Seq::empty(),
        }),
{
    match parse_json(json) {
        Some(document) => disks_from_document(&document, usage),
        None => {
            let disks: Vec<DiskInfo> = Vec::new();
            assert(disk_views(disks@) =~= Seq::empty());
            disks
        },
    }
}

/// Lists the mount points in a document of `lsblk`: those of the
/// partitions of its disks, in order.
pub fn mount_points_in_document(document: &serde_json::Value) -> (found: Vec<String>)
    ensures
        texts(found@) == document_mount_points(*document),
{
    let mut found: Vec<String> = Vec::new();
    assert(texts(found@) =~= Seq::empty());
    match as_items(member(document, "blockdevices")) {
        Some(devices) => {
            let n: usize = devices.len();
            let mut i: usize = 0;
            assert(devices@.take(0).len() == 0);
            while i < n
                invariant
                    n == devices.len(),
                    i <= n,
                    texts(found@) == device_mount_points(devices@.take(i as int)),
                decreases n - i,
            {
                proof {
                    let more = devices@.take(i + 1);
                    assert(more.drop_last() =~= devices@.take(i as int));
                    assert(more.last() == devices@[i as int]);
                }
                if device_is_disk(&devices[i]) {
                    match as_items(member(&devices[i], "children")) {
                        Some(children) => {
                            let ghost before = texts(found@);
                            let m: usize = children.len();
                            let mut j: usize = 0;
                            assert(children@.take(0).len() == 0);
                            while j < m
                                invariant
                                    m == children.len(),
                                    j <= m,
                                    texts(found@) == before + child_mount_points(
                                        children@.take(j as int),
                                    ),
                                decreases m - j,
                            {
                                proof {
                                    let more = children@.take(j + 1);
                                    assert(more.drop_last() =~= children@.take(j as int));
                                    assert(more.last() == children@[j as int]);
                                }
                                match as_text(member(&children[j], "mountpoint")) {
                                    Some(mp) => {
                                        let ghost so_far = texts(found@);
                                        found.push(String::from_str(mp));
                                        assert(texts(found@) =~= so_far.push(mp@));
                                    },
                                    None => {},
                                }
                                j = j + 1;
                            }
                            assert(children@.take(m as int) =~= children@);
                        },
                        None => {},
                    }
                }
                i = i + 1;
            }
            assert(devices@.take(n as int) =~= devices@);
        },
        None => {},
    }
    found
}

/// Lists the mount points in the JSON of `lsblk`.
pub fn mount_points_in_lsblk(json: &str) -> (found: Vec<String>)
    ensures
        texts(found@) == (match json_document(json@) {
            Some(document) => document_mount_points(document),
            None => Seq::empty(),
        }),
{
    match parse_json(json) {
        Some(document) => mount_points_in_document(&document),
        None => {
            let found: Vec<String> = Vec::new();
            assert(texts(found@) =~= Seq::empty());
            found
        },
    }
}

} // verus!
