//! Disks on macOS, from what `diskutil list` and `diskutil info` print.

use crate::strings::{lines, lines_of, number_of, parse_number, text_contains, trim, trimmed, words, words_of};
use crate::text::{holds, same_text, second_piece, second_piece_text, starts_with, starts_with_text, strip_prefix, strip_prefix_text, texts};
use crate::types::{
    opt_nat, opt_text, DiskInfo, DiskStatus, DiskView, FilesystemType, PartitionFlag,
    PartitionInfo, PartitionTableType, PartitionType, PartitionView, StatusView,
};
use vstd::prelude::*;
use vstd::string::*;

verus! {

/// What `diskutil info` tells of a disk.
#[derive(Debug, Clone)]
pub struct DiskDetails {
    pub model: String,
    pub total_size: u64,
    pub table_type: PartitionTableType,
}

/// The details of a disk as a mathematical value.
pub struct DiskDetailsView {
    pub model: Seq<char>,
    pub total_size: u64,
    pub table_type: PartitionTableType,
}

impl View for DiskDetails {
    type V = DiskDetailsView;

    open spec fn view(&self) -> DiskDetailsView {
        DiskDetailsView {
            model: self.model@,
            total_size: self.total_size,
            table_type: self.table_type,
        }
    }
}

/// What `diskutil info` tells of a partition.
pub struct VolumeView {
    pub label: Option<Seq<char>>,
    pub total_size: u64,
    pub used_space: Option<u64>,
    pub filesystem: FilesystemType,
    pub mount_point: Option<Seq<char>>,
    pub is_mounted: bool,
}

/// The value of a line: the second of its pieces between colons, trimmed,
/// or `default` where the line has no colon.
pub open spec fn value_text(line: Seq<char>, default: Seq<char>) -> Seq<char> {
    trimmed(
        match second_piece_text(line, ':') {
            Some(v) => v,
            None => default,
        },
    )
}

/// The number of bytes that a line gives in brackets, as in
/// `500.1 GB (500107862016 Bytes)`: the first word after the first opening
/// bracket, read as a number, or 0 where it is none. A line without a
/// bracket, or without a word after it, gives nothing.
pub open spec fn bracket_number(line: Seq<char>) -> Option<u64> {
    match second_piece_text(line, '(') {
        None => None,
        Some(rest) => if words_of(rest).len() == 0 {
            None
        } else {
            Some(
                match number_of(words_of(rest)[0]) {
                    Some(n) => n,
                    None => 0,
                },
            )
        },
    }
}

/// The kind of partition table that a content line names.
pub open spec fn named_scheme(content: Seq<char>) -> PartitionTableType {
    if holds(content, "GUID_partition_scheme"@) {
        PartitionTableType::GPT
    } else if holds(content, "FDisk_partition_scheme"@) {
        PartitionTableType::MBR
    } else {
        PartitionTableType::Unknown
    }
}

/// The filesystem that a type line names.
pub open spec fn named_personality(name: Seq<char>) -> FilesystemType {
    if holds(name, "APFS"@) {
        FilesystemType::APFS
    } else if holds(name, "HFS"@) {
        FilesystemType::HFSPlus
    } else if holds(name, "FAT32"@) || holds(name, "MS-DOS FAT32"@) {
        FilesystemType::FAT32
    } else if holds(name, "ExFAT"@) {
        FilesystemType::ExFAT
    } else {
        FilesystemType::Unknown
    }
}

/// The details of a disk before any line is read.
pub open spec fn no_details() -> DiskDetailsView {
    DiskDetailsView {
        model: "Unknown Disk"@,
        total_size: 0,
        table_type: PartitionTableType::Unknown,
    }
}

/// The details of a disk once one more line, trimmed, is read.
pub open spec fn details_with(d: DiskDetailsView, line: Seq<char>) -> DiskDetailsView {
    if starts_with_text(line, "Device / Media Name:"@) {
        DiskDetailsView { model: value_text(line, "Unknown"@), ..d }
    } else if starts_with_text(line, "Disk Size:"@) {
        match bracket_number(line) {
            Some(n) => DiskDetailsView { total_size: n, ..d },
            None => d,
        }
    } else if starts_with_text(line, "Content (IOContent):"@) {
        DiskDetailsView { table_type: named_scheme(value_text(line, ""@)), ..d }
    } else {
        d
    }
}

/// The details of a disk that the lines of `diskutil info` give: each line
/// is trimmed and read in turn, and a later line overrides an earlier one.
pub open spec fn details_of(rows: Seq<Seq<char>>) -> DiskDetailsView
    decreases rows.len(),
{
    if rows.len() == 0 {
        no_details()
    } else {
        details_with(details_of(rows.drop_last()), trimmed(rows.last()))
    }
}

/// What is known of a partition before any line is read.
pub open spec fn no_volume() -> VolumeView {
    VolumeView {
        label: None,
        total_size: 0,
        used_space: None,
        filesystem: FilesystemType::Unknown,
        mount_point: None,
        is_mounted: false,
    }
}

/// What is known of a partition once one more line, trimmed, is read.
pub open spec fn volume_with(v: VolumeView, line: Seq<char>) -> VolumeView {
    if starts_with_text(line, "Volume Name:"@) {
        VolumeView { label: Some(value_text(line, ""@)), ..v }
    } else if starts_with_text(line, "Disk Size:"@) || starts_with_text(
        line,
        "Volume Total Space:"@,
    ) {
        match bracket_number(line) {
            Some(n) => VolumeView { total_size: n, ..v },
            None => v,
        }
    } else if starts_with_text(line, "Volume Used Space:"@) {
        match bracket_number(line) {
            Some(n) => VolumeView { used_space: Some(n), ..v },
            None => v,
        }
    } else if starts_with_text(line, "Type (Bundle):"@) || starts_with_text(
        line,
        "File System Personality:"@,
    ) {
        VolumeView { filesystem: named_personality(value_text(line, ""@)), ..v }
    } else if starts_with_text(line, "Mount Point:"@) {
        let mp = value_text(line, ""@);
        if mp.len() > 0 && mp != "Not Mounted"@ {
            VolumeView { mount_point: Some(mp), is_mounted: true, ..v }
        } else {
            v
        }
    } else if starts_with_text(line, "Mounted:"@) {
        VolumeView { is_mounted: holds(line, "Yes"@), ..v }
    } else {
        v
    }
}

/// What the lines of `diskutil info` tell of a partition.
pub open spec fn volume_of(rows: Seq<Seq<char>>) -> VolumeView
    decreases rows.len(),
{
    if rows.len() == 0 {
        no_volume()
    } else {
        volume_with(volume_of(rows.drop_last()), trimmed(rows.last()))
    }
}

/// The partition with the given identifier and number that `diskutil info`
/// describes. `diskutil` gives no start offset.
pub open spec fn macos_partition(info: Seq<char>, partition_id: Seq<char>, number: nat) -> PartitionView {
    let v = volume_of(lines_of(info));
    PartitionView {
        id: partition_id,
        number,
        device_path: "/dev/"@ + partition_id,
        label: v.label,
        start_offset: 0,
        total_size: v.total_size as nat,
        used_space: opt_nat(v.used_space),
        partition_type: PartitionType::Normal,
        filesystem: v.filesystem,
        mount_point: v.mount_point,
        is_mounted: v.is_mounted,
        flags: Set::empty(),
    }
}

/// The identifier of the disk that a line of `diskutil list` heads, if the
/// line heads one: the line starts with `/dev/disk` and holds `):`, and
/// what follows `disk` in its first word holds no `s`, which would make it
/// a partition.
pub open spec fn headed_disk(line: Seq<char>) -> Option<Seq<char>> {
    if starts_with_text(line, "/dev/disk"@) && holds(line, "):"@) && words_of(line).len() > 0 {
        match strip_prefix_text(words_of(line)[0], "/dev/"@) {
            Some(id) => match strip_prefix_text(id, "disk"@) {
                Some(rest) => if holds(rest, "s"@) {
                    None
                } else {
                    Some(id)
                },
                None => None,
            },
            None => None,
        }
    } else {
        None
    }
}

/// The identifiers of the disks that the lines of `diskutil list` head, in
/// order.
pub open spec fn disk_ids_of(rows: Seq<Seq<char>>) -> Seq<Seq<char>>
    decreases rows.len(),
{
    if rows.len() == 0 {
        Seq::empty()
    } else {
        let before = disk_ids_of(rows.drop_last());
        match headed_disk(rows.last()) {
            Some(id) => before.push(id),
            None => before,
        }
    }
}

/// The first of the words that starts with the identifier of the disk and
/// holds an `s`.
pub open spec fn first_partition_word(found: Seq<Seq<char>>, disk_id: Seq<char>) -> Option<
    Seq<char>,
>
    decreases found.len(),
{
    if found.len() == 0 {
        None
    } else if starts_with_text(found[0], disk_id) && holds(found[0], "s"@) {
        Some(found[0])
    } else {
        first_partition_word(found.drop_first(), disk_id)
    }
}

/// The identifiers of partitions that the lines of `diskutil list` for one
/// disk name, one for each line that names one, in order.
pub open spec fn partition_ids_of(rows: Seq<Seq<char>>, disk_id: Seq<char>) -> Seq<Seq<char>>
    decreases rows.len(),
{
    if rows.len() == 0 {
        Seq::empty()
    } else {
        let before = partition_ids_of(rows.drop_last(), disk_id);
        match first_partition_word(words_of(rows.last()), disk_id) {
            Some(id) => before.push(id),
            None => before,
        }
    }
}

/// The disk with the given identifier, details and partitions.
pub open spec fn macos_disk(
    disk_id: Seq<char>,
    details: DiskDetailsView,
    partitions: Seq<PartitionView>,
) -> DiskView {
    DiskView {
        id: disk_id,
        device_path: "/dev/"@ + disk_id,
        model: details.model,
        total_size: details.total_size as nat,
        table_type: details.table_type,
        partitions,
        serial_number: None,
        status: StatusView { is_online: true, has_errors: false, smart_status: None },
    }
}

/// What `diskutil info` printed for a partition, if it printed anything.
#[derive(Debug, Clone)]
pub struct PartitionReport {
    pub id: String,
    pub info: Option<String>,
}

/// What `diskutil info` printed for a disk, and the reports of the
/// partitions that `diskutil list` names for it, in order.
#[derive(Debug, Clone)]
pub struct DiskReport {
    pub id: String,
    pub info: String,
    pub partitions: Vec<PartitionReport>,
}

/// The number of the partition at a place of the list: counted from one,
/// and no more than a number can hold.
pub open spec fn number_at(index: int) -> nat {
    if index + 1 > u32::MAX {
        u32::MAX as nat
    } else {
        (index + 1) as nat
    }
}

/// The partitions that the reports describe, in order. A partition
/// without a report is left out, and still counts for the numbers of those
/// behind it.
pub open spec fn reported_partitions(reports: Seq<PartitionReport>) -> Seq<PartitionView>
    decreases reports.len(),
{
    if reports.len() == 0 {
        Seq::empty()
    } else {
        let before = reported_partitions(reports.drop_last());
        match reports.last().info {
            Some(info) => before.push(
                macos_partition(info@, reports.last().id@, number_at(reports.len() - 1)),
            ),
            None => before,
        }
    }
}

/// The disk that a report describes.
pub open spec fn reported_disk(report: DiskReport) -> DiskView {
    macos_disk(
        report.id@,
        details_of(lines_of(report.info@)),
        reported_partitions(report.partitions@),
    )
}

fn line_value(line: &str, default: &str) -> (value: String)
    ensures
        value@ == value_text(line@, default@),
{
    match second_piece(line, ':') {
        Some(v) => String::from_str(trim(v)),
        None => String::from_str(trim(default)),
    }
}

fn number_in_brackets(line: &str) -> (n: Option<u64>)
    ensures
        n == bracket_number(line@),
{
    match second_piece(line, '(') {
        None => None,
        Some(rest) => {
            let found = words(rest);
            if found.len() == 0 {
                None
            } else {
                assert(texts(found@)[0] == found@[0]@);
                match parse_number(found[0].as_str()) {
                    Some(n) => Some(n),
                    None => Some(0),
                }
            }
        },
    }
}

/// Tells the kind of partition table that a content line names.
pub fn scheme_named(content: &str) -> (table: PartitionTableType)
    ensures
        table == named_scheme(content@),
{
    if text_contains(content, "GUID_partition_scheme") {
        PartitionTableType::GPT
    } else if text_contains(content, "FDisk_partition_scheme") {
        PartitionTableType::MBR
    } else {
        PartitionTableType::Unknown
    }
}

/// Tells the filesystem that a type line names.
pub fn personality_named(name: &str) -> (fs: FilesystemType)
    ensures
        fs == named_personality(name@),
{
    if text_contains(name, "APFS") {
        FilesystemType::APFS
    } else if text_contains(name, "HFS") {
        FilesystemType::HFSPlus
    } else if text_contains(name, "FAT32") || text_contains(name, "MS-DOS FAT32") {
        FilesystemType::FAT32
    } else if text_contains(name, "ExFAT") {
        FilesystemType::ExFAT
    } else {
        FilesystemType::Unknown
    }
}

fn read_disk_line(details: DiskDetails, line: &str) -> (next: DiskDetails)
    ensures
        next@ == details_with(details@, line@),
{
    if starts_with(line, "Device / Media Name:") {
        DiskDetails {
            model: line_value(line, "Unknown"),
            total_size: details.total_size,
            table_type: details.table_type,
        }
    } else if starts_with(line, "Disk Size:") {
        match number_in_brackets(line) {
            Some(bytes) => DiskDetails {
                model: details.model,
                total_size: bytes,
                table_type: details.table_type,
            },
            None => details,
        }
    } else if starts_with(line, "Content (IOContent):") {
        DiskDetails {
            model: details.model,
            total_size: details.total_size,
            table_type: scheme_named(line_value(line, "").as_str()),
        }
    } else {
        details
    }
}

/// Reads the details of a disk from what `diskutil info` printed.
pub fn parse_disk_details(info: &str) -> (details: DiskDetails)
    ensures
        details@ == details_of(lines_of(info@)),
{
    let rows = lines(info);
    let mut details = DiskDetails {
        model: String::from_str("Unknown Disk"),
        total_size: 0,
        table_type: PartitionTableType::Unknown,
    };
    let n: usize = rows.len();
    let mut i: usize = 0;
    assert(texts(rows@).take(0).len() == 0);
    while i < n
        invariant
            n == rows.len(),
            i <= n,
            details@ == details_of(texts(rows@).take(i as int)),
        decreases n - i,
    {
        proof {
            let more = texts(rows@).take(i + 1);
            assert(more.drop_last() =~= texts(rows@).take(i as int));
            assert(more.last() == rows@[i as int]@);
        }
        details = read_disk_line(details, trim(rows[i].as_str()));
        i = i + 1;
    }
    assert(texts(rows@).take(n as int) =~= texts(rows@));
    details
}

struct Volume {
    label: Option<String>,
    total_size: u64,
    used_space: Option<u64>,
    filesystem: FilesystemType,
    mount_point: Option<String>,
    is_mounted: bool,
}

impl View for Volume {
    type V = VolumeView;

    closed spec fn view(&self) -> VolumeView {
        VolumeView {
            label: opt_text(self.label),
            total_size: self.total_size,
            used_space: self.used_space,
            filesystem: self.filesystem,
            mount_point: opt_text(self.mount_point),
            is_mounted: self.is_mounted,
        }
    }
}

fn read_volume_line(v: Volume, line: &str) -> (next: Volume)
    ensures
        next@ == volume_with(v@, line@),
{
    if starts_with(line, "Volume Name:") {
        Volume { label: Some(line_value(line, "")), ..v }
    } else if starts_with(line, "Disk Size:") || starts_with(line, "Volume Total Space:") {
        match number_in_brackets(line) {
            Some(bytes) => Volume { total_size: bytes, ..v },
            None => v,
        }
    } else if starts_with(line, "Volume Used Space:") {
        match number_in_brackets(line) {
            Some(bytes) => Volume { used_space: Some(bytes), ..v },
            None => v,
        }
    } else if starts_with(line, "Type (Bundle):") || starts_with(line, "File System Personality:") {
        Volume { filesystem: personality_named(line_value(line, "").as_str()), ..v }
    } else if starts_with(line, "Mount Point:") {
        let mp = line_value(line, "");
        if !mp.as_str().is_empty() && !same_text(mp.as_str(), "Not Mounted") {
            Volume { mount_point: Some(mp), is_mounted: true, ..v }
        } else {
            v
        }
    } else if starts_with(line, "Mounted:") {
        Volume { is_mounted: text_contains(line, "Yes"), ..v }
    } else {
        v
    }
}

/// Reads a partition from what `diskutil info` printed for it.
pub fn get_partition_info(info: &str, partition_id: &str, number: u32) -> (p: PartitionInfo)
    ensures
        p@ == macos_partition(info@, partition_id@, number as nat),
{
    let rows = lines(info);
    let mut volume = Volume {
        label: None,
        total_size: 0,
        used_space: None,
        filesystem: FilesystemType::Unknown,
        mount_point: None,
        is_mounted: false,
    };
    let n: usize = rows.len();
    let mut i: usize = 0;
    assert(texts(rows@).take(0).len() == 0);
    while i < n
        invariant
            n == rows.len(),
            i <= n,
            volume@ == volume_of(texts(rows@).take(i as int)),
        decreases n - i,
    {
        proof {
            let more = texts(rows@).take(i + 1);
            assert(more.drop_last() =~= texts(rows@).take(i as int));
            assert(more.last() == rows@[i as int]@);
        }
        volume = read_volume_line(volume, trim(rows[i].as_str()));
        i = i + 1;
    }
    assert(texts(rows@).take(n as int) =~= texts(rows@));
    let mut device_path = String::from_str("/dev/");
    device_path.append(partition_id);
    let flags: Vec<PartitionFlag> = Vec::new();
    assert(flags@.to_set() =~= Set::empty());
    PartitionInfo {
        id: String::from_str(partition_id),
        number,
        device_path,
        label: volume.label,
        start_offset: 0,
        total_size: volume.total_size,
        used_space: volume.used_space,
        partition_type: PartitionType::Normal,
        filesystem: volume.filesystem,
        mount_point: volume.mount_point,
        is_mounted: volume.is_mounted,
        flags,
    }
}

/// Tells the identifier of the disk that a line of `diskutil list` heads,
/// if the line heads one.
pub fn disk_headed_by(line: &str) -> (id: Option<String>)
    ensures
        opt_text(id) == headed_disk(line@),
{
    if starts_with(line, "/dev/disk") && text_contains(line, "):") {
        let found = words(line);
        if found.len() > 0 {
            assert(texts(found@)[0] == found@[0]@);
            match strip_prefix(found[0].as_str(), "/dev/") {
                Some(id) => match strip_prefix(id, "disk") {
                    Some(rest) => {
                        if text_contains(rest, "s") {
                            None
                        } else {
                            Some(String::from_str(id))
                        }
                    },
                    None => None,
                },
                None => None,
            }
        } else {
            None
        }
    } else {
        None
    }
}

/// Reads the identifiers of the disks from what `diskutil list` printed.
pub fn parse_disk_ids(list: &str) -> (ids: Vec<String>)
    ensures
        texts(ids@) == disk_ids_of(lines_of(list@)),
{
    let rows = lines(list);
    let mut ids: Vec<String> = Vec::new();
    assert(texts(ids@) =~= Seq::empty());
    let n: usize = rows.len();
    let mut i: usize = 0;
    assert(texts(rows@).take(0).len() == 0);
    while i < n
        invariant
            n == rows.len(),
            i <= n,
            texts(ids@) == disk_ids_of(texts(rows@).take(i as int)),
        decreases n - i,
    {
        proof {
            let more = texts(rows@).take(i + 1);
            assert(more.drop_last() =~= texts(rows@).take(i as int));
            assert(more.last() == rows@[i as int]@);
        }
        match disk_headed_by(rows[i].as_str()) {
            Some(id) => {
                let ghost before = texts(ids@);
                ids.push(id);
                assert(texts(ids@) =~= before.push(id@));
            },
            None => {},
        }
        i = i + 1;
    }
    assert(texts(rows@).take(n as int) =~= texts(rows@));
    ids
}

/// Finds the first of the words that starts with the identifier of the
/// disk and holds an `s`.
pub fn partition_word(found: &Vec<String>, disk_id: &str) -> (word: Option<String>)
    ensures
        opt_text(word) == first_partition_word(texts(found@), disk_id@),
{
    let n: usize = found.len();
    let mut i: usize = 0;
    assert(texts(found@).skip(0) =~= texts(found@));
    while i < n
        invariant
            n == found.len(),
            i <= n,
            first_partition_word(texts(found@), disk_id@) == first_partition_word(
                texts(found@).skip(i as int),
                disk_id@,
            ),
        decreases n - i,
    {
        proof {
            let rest = texts(found@).skip(i as int);
            assert(rest[0] == found@[i as int]@);
            assert(rest.drop_first() =~= texts(found@).skip(i + 1));
        }
        if starts_with(found[i].as_str(), disk_id) && text_contains(found[i].as_str(), "s") {
            return Some(found[i].clone());
        }
        i = i + 1;
    }
    assert(texts(found@).skip(n as int).len() == 0);
    None
}

/// Reads the identifiers of a disk's partitions from what `diskutil list`
/// printed for the disk.
pub fn parse_partition_ids(list: &str, disk_id: &str) -> (ids: Vec<String>)
    ensures
        texts(ids@) == partition_ids_of(lines_of(list@), disk_id@),
{
    let rows = lines(list);
    let mut ids: Vec<String> = Vec::new();
    assert(texts(ids@) =~= Seq::empty());
    let n: usize = rows.len();
    let mut i: usize = 0;
    assert(texts(rows@).take(0).len() == 0);
    while i < n
        invariant
            n == rows.len(),
            i <= n,
            texts(ids@) == partition_ids_of(texts(rows@).take(i as int), disk_id@),
        decreases n - i,
    {
        proof {
            let more = texts(rows@).take(i + 1);
            assert(more.drop_last() =~= texts(rows@).take(i as int));
            assert(more.last() == rows@[i as int]@);
        }
        let found = words(rows[i].as_str());
        match partition_word(&found, disk_id) {
            Some(id) => {
                let ghost before = texts(ids@);
                ids.push(id);
                assert(texts(ids@) =~= before.push(id@));
            },
            None => {},
        }
        i = i + 1;
    }
    assert(texts(rows@).take(n as int) =~= texts(rows@));
    ids
}

/// Puts a disk together from its identifier, its details and its
/// partitions.
pub fn assemble_disk(disk_id: &str, details: DiskDetails, partitions: Vec<PartitionInfo>) -> (d:
    DiskInfo)
    ensures
        d@ == macos_disk(disk_id@, details@, partitions@.map_values(|p: PartitionInfo| p@)),
{
    let mut device_path = String::from_str("/dev/");
    device_path.append(disk_id);
    DiskInfo {
        id: String::from_str(disk_id),
        device_path,
        model: details.model,
        total_size: details.total_size,
        table_type: details.table_type,
        partitions,
        serial_number: None,
        status: DiskStatus { is_online: true, has_errors: false, smart_status: None },
    }
}

/// Reads the partitions that the reports describe.
pub fn get_partitions_for_disk(reports: &Vec<PartitionReport>) -> (found: Vec<PartitionInfo>)
    ensures
        found@.map_values(|p: PartitionInfo| p@) == reported_partitions(reports@),
{
    let mut found: Vec<PartitionInfo> = Vec::new();
    assert(found@.map_values(|p: PartitionInfo| p@) =~= Seq::empty());
    let n: usize = reports.len();
    let mut i: usize = 0;
    assert(reports@.take(0).len() == 0);
    while i < n
        invariant
            n == reports.len(),
            i <= n,
            found@.map_values(|p: PartitionInfo| p@) == reported_partitions(
                reports@.take(i as int),
            ),
        decreases n - i,
    {
        proof {
            let more = reports@.take(i + 1);
            assert(more.drop_last() =~= reports@.take(i as int));
            assert(more.last() == reports@[i as int]);
        }
        match &reports[i].info {
            Some(info) => {
                let number: u32 = if i < u32::MAX as usize {
                    (i + 1) as u32
                } else {
                    u32::MAX
                };
                let ghost before = found@.map_values(|p: PartitionInfo| p@);
                let partition = get_partition_info(info.as_str(), reports[i].id.as_str(), number);
                found.push(partition);
                assert(found@.map_values(|p: PartitionInfo| p@) =~= before.push(partition@));
            },
            None => {},
        }
        i = i + 1;
    }
    assert(reports@.take(n as int) =~= reports@);
    found
}

/// Reads the disk that a report describes.
pub fn get_disk_info(report: &DiskReport) -> (disk: DiskInfo)
    ensures
        disk@ == reported_disk(*report),
{
    assemble_disk(
        report.id.as_str(),
        parse_disk_details(report.info.as_str()),
        get_partitions_for_disk(&report.partitions),
    )
}

/// Reads the disks that the reports describe, in order.
pub fn get_disks(reports: &Vec<DiskReport>) -> (disks: Vec<DiskInfo>)
    ensures
        disks@.map_values(|d: DiskInfo| d@) == reports@.map_values(
            |r: DiskReport| reported_disk(r),
        ),
{
    let mut disks: Vec<DiskInfo> = Vec::new();
    let n: usize = reports.len();
    let mut i: usize = 0;
    while i < n
        invariant
            n == reports.len(),
            i <= n,
            disks.len() == i,
            forall|k: int| 0 <= k < i ==> (#[trigger] disks@[k])@ == reported_disk(reports@[k]),
        decreases n - i,
    {
        disks.push(get_disk_info(&reports[i]));
        i = i + 1;
    }
    assert(disks@.map_values(|d: DiskInfo| d@) =~= reports@.map_values(
        |r: DiskReport| reported_disk(r),
    ));
    disks
}

} // verus!
