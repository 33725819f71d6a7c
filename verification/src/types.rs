//! The data model shared by validation and the orchestrators: disks,
//! partitions, and the mathematical view of each that contracts speak of.

use vstd::prelude::*;
use vstd::string::*;

verus! {

/// The format of a disk's partition table.
#[derive(Debug, Clone, Copy, PartialEq, Eq, Structural)]
pub enum PartitionTableType {
    MBR,
    GPT,
    Unknown,
}

/// The role of a partition within its table.
#[derive(Debug, Clone, Copy, PartialEq, Eq, Structural)]
pub enum PartitionType {
    Primary,
    Logical,
    Normal,
}

/// The filesystem a partition holds.
#[derive(Debug, Clone, Copy, PartialEq, Eq, Structural)]
pub enum FilesystemType {
    NTFS,
    FAT32,
    ExFAT,
    Ext2,
    Ext3,
    Ext4,
    APFS,
    HFSPlus,
    RAW,
    Unknown,
}

/// A property that a partition table records for a partition.
#[derive(Debug, Clone, Copy, PartialEq, Eq, Structural)]
pub enum PartitionFlag {
    Boot,
    System,
    Hidden,
    ReadOnly,
}

impl FilesystemType {
    /// Whether the engine can grow or shrink a filesystem of this kind.
    pub open spec fn resizable(self) -> bool {
        self == FilesystemType::NTFS || self.is_ext() || self.is_apple()
    }

    /// Whether this is ext2, ext3 or ext4.
    pub open spec fn is_ext(self) -> bool {
        self == FilesystemType::Ext2 || self == FilesystemType::Ext3 || self
            == FilesystemType::Ext4
    }

    /// Whether this is APFS or HFS+.
    pub open spec fn is_apple(self) -> bool {
        self == FilesystemType::APFS || self == FilesystemType::HFSPlus
    }

    /// The name under which the filesystem is shown.
    pub open spec fn name_text(self) -> Seq<char> {
        match self {
            FilesystemType::NTFS => "NTFS"@,
            FilesystemType::FAT32 => "FAT32"@,
            FilesystemType::ExFAT => "exFAT"@,
            FilesystemType::Ext2 => "ext2"@,
            FilesystemType::Ext3 => "ext3"@,
            FilesystemType::Ext4 => "ext4"@,
            FilesystemType::APFS => "APFS"@,
            FilesystemType::HFSPlus => "HFS+"@,
            FilesystemType::RAW => "RAW"@,
            FilesystemType::Unknown => "Unknown"@,
        }
    }

    /// Whether the engine can grow or shrink a filesystem of this kind:
    /// NTFS, the ext family, APFS and HFS+.
    pub fn supports_resize(&self) -> (r: bool)
        ensures
            r == self.resizable(),
    {
        match self {
            FilesystemType::NTFS => true,
            FilesystemType::Ext2 | FilesystemType::Ext3 | FilesystemType::Ext4 => true,
            FilesystemType::APFS | FilesystemType::HFSPlus => true,
            _ => false,
        }
    }

    /// The name under which the filesystem is shown.
    pub fn display_name(&self) -> (s: &'static str)
        ensures
            s@ == self.name_text(),
    {
        match self {
            FilesystemType::NTFS => "NTFS",
            FilesystemType::FAT32 => "FAT32",
            FilesystemType::ExFAT => "exFAT",
            FilesystemType::Ext2 => "ext2",
            FilesystemType::Ext3 => "ext3",
            FilesystemType::Ext4 => "ext4",
            FilesystemType::APFS => "APFS",
            FilesystemType::HFSPlus => "HFS+",
            FilesystemType::RAW => "RAW",
            FilesystemType::Unknown => "Unknown",
        }
    }
}

/// The health of a disk as discovery reports it.
#[derive(Debug, Clone)]
pub struct DiskStatus {
    pub is_online: bool,
    pub has_errors: bool,
    pub smart_status: Option<String>,
}

/// A snapshot of one partition.
#[derive(Debug, Clone)]
pub struct PartitionInfo {
    pub id: String,
    pub number: u32,
    pub device_path: String,
    pub label: Option<String>,
    /// Bytes from the start of the disk.
    pub start_offset: u64,
    pub total_size: u64,
    pub used_space: Option<u64>,
    pub partition_type: PartitionType,
    pub filesystem: FilesystemType,
    pub mount_point: Option<String>,
    pub is_mounted: bool,
    pub flags: Vec<PartitionFlag>,
}

/// A snapshot of one disk with its partitions, in the order of discovery.
#[derive(Debug, Clone)]
pub struct DiskInfo {
    pub id: String,
    pub device_path: String,
    pub model: String,
    pub total_size: u64,
    pub table_type: PartitionTableType,
    pub partitions: Vec<PartitionInfo>,
    pub serial_number: Option<String>,
    pub status: DiskStatus,
}

/// A partition as a mathematical value.
pub struct PartitionView {
    pub id: Seq<char>,
    pub number: nat,
    pub device_path: Seq<char>,
    pub label: Option<Seq<char>>,
    pub start_offset: nat,
    pub total_size: nat,
    pub used_space: Option<nat>,
    pub partition_type: PartitionType,
    pub filesystem: FilesystemType,
    pub mount_point: Option<Seq<char>>,
    pub is_mounted: bool,
    pub flags: Set<PartitionFlag>,
}

/// The health of a disk as a mathematical value.
pub struct StatusView {
    pub is_online: bool,
    pub has_errors: bool,
    pub smart_status: Option<Seq<char>>,
}

/// A disk as a mathematical value.
pub struct DiskView {
    pub id: Seq<char>,
    pub device_path: Seq<char>,
    pub model: Seq<char>,
    pub total_size: nat,
    pub table_type: PartitionTableType,
    pub partitions: Seq<PartitionView>,
    pub serial_number: Option<Seq<char>>,
    pub status: StatusView,
}

impl PartitionView {
    /// The first byte after the partition.
    pub open spec fn end(self) -> nat {
        self.start_offset + self.total_size
    }

    /// Whether the partition carries the flag.
    pub open spec fn has(self, flag: PartitionFlag) -> bool {
        self.flags.contains(flag)
    }

    /// Whether the partition is flagged Boot or System.
    pub open spec fn is_critical(self) -> bool {
        self.has(PartitionFlag::Boot) || self.has(PartitionFlag::System)
    }

    /// Whether the partition's bytes and the interval `[start, start + size)`
    /// have a byte in common.
    pub open spec fn shares_bytes_with(self, start: nat, size: nat) -> bool {
        intervals_share_bytes(self.start_offset, self.total_size, start, size)
    }
}

impl DiskView {
    /// Whether `i` and `j` name two partitions of the disk.
    pub open spec fn distinct_pair(self, i: int, j: int) -> bool {
        0 <= i < self.partitions.len() && 0 <= j < self.partitions.len() && i != j
    }

    /// The invariant of a disk snapshot: every partition lies within the
    /// disk, and no two partitions have a byte in common.
    pub open spec fn well_formed(self) -> bool {
        &&& forall|i: int|
            0 <= i < self.partitions.len() ==> (#[trigger] self.partitions[i]).end()
                <= self.total_size
        &&& forall|i: int, j: int| #[trigger]
            self.distinct_pair(i, j) ==> !self.partitions[i].shares_bytes_with(
                self.partitions[j].start_offset,
                self.partitions[j].total_size,
            )
    }
}

/// The optional string as an optional text.
pub open spec fn opt_text(s: Option<String>) -> Option<Seq<char>> {
    match s {
        Some(t) => Some(t@),
        None => None,
    }
}

/// The optional size as an optional natural number.
pub open spec fn opt_nat(n: Option<u64>) -> Option<nat> {
    match n {
        Some(v) => Some(v as nat),
        None => None,
    }
}

impl View for DiskStatus {
    type V = StatusView;

    open spec fn view(&self) -> StatusView {
        StatusView {
            is_online: self.is_online,
            has_errors: self.has_errors,
            smart_status: opt_text(self.smart_status),
        }
    }
}

impl View for PartitionInfo {
    type V = PartitionView;

    open spec fn view(&self) -> PartitionView {
        PartitionView {
            id: self.id@,
            number: self.number as nat,
            device_path: self.device_path@,
            label: opt_text(self.label),
            start_offset: self.start_offset as nat,
            total_size: self.total_size as nat,
            used_space: opt_nat(self.used_space),
            partition_type: self.partition_type,
            filesystem: self.filesystem,
            mount_point: opt_text(self.mount_point),
            is_mounted: self.is_mounted,
            flags: self.flags@.to_set(),
        }
    }
}

impl View for DiskInfo {
    type V = DiskView;

    open spec fn view(&self) -> DiskView {
        DiskView {
            id: self.id@,
            device_path: self.device_path@,
            model: self.model@,
            total_size: self.total_size as nat,
            table_type: self.table_type,
            partitions: self.partitions@.map_values(|p: PartitionInfo| p@),
            serial_number: opt_text(self.serial_number),
            status: self.status@,
        }
    }
}

impl PartitionInfo {
    /// Whether the partition carries the flag.
    pub fn has_flag(&self, flag: PartitionFlag) -> (r: bool)
        ensures
            r == self@.has(flag),
    {
        let n: usize = self.flags.len();
        let mut i: usize = 0;
        while i < n
            invariant
                n == self.flags.len(),
                i <= n,
                forall|j: int| 0 <= j < i ==> self.flags@[j] != flag,
            decreases n - i,
        {
            if self.flags[i] == flag {
                assert(self.flags@.contains(flag));
                return true;
            }
            i = i + 1;
        }
        false
    }

    /// The first byte after the partition.
    pub fn end_offset(&self) -> (e: u128)
        ensures
            e == self@.end(),
    {
        self.start_offset as u128 + self.total_size as u128
    }
}

impl DiskInfo {
    /// Whether the snapshot satisfies the invariant of a disk: every
    /// partition lies within the disk and no two overlap.
    pub fn is_well_formed(&self) -> (r: bool)
        ensures
            r == self@.well_formed(),
    {
        let n: usize = self.partitions.len();
        let mut i: usize = 0;
        while i < n
            invariant
                n == self.partitions.len(),
                i <= n,
                forall|k: int| 0 <= k < i ==> (#[trigger] self@.partitions[k]).end() <= self@.total_size,
                forall|k: int, j: int|
                    0 <= k < i && #[trigger] self@.distinct_pair(k, j)
                        ==> !self@.partitions[k].shares_bytes_with(
                        self@.partitions[j].start_offset,
                        self@.partitions[j].total_size,
                    ),
            decreases n - i,
        {
            let p = &self.partitions[i];
            assert(p@ == self@.partitions[i as int]);
            if p.end_offset() > self.total_size as u128 {
                return false;
            }
            let mut j: usize = 0;
            while j < n
                invariant
                    n == self.partitions.len(),
                    i < n,
                    j <= n,
                    p@ == self@.partitions[i as int],
                    forall|m: int|
                        0 <= m < j && #[trigger] self@.distinct_pair(i as int, m)
                            ==> !self@.partitions[i as int].shares_bytes_with(
                            self@.partitions[m].start_offset,
                            self@.partitions[m].total_size,
                        ),
                decreases n - j,
            {
                if j != i {
                    let q = &self.partitions[j];
                    assert(q@ == self@.partitions[j as int]);
                    if intervals_meet(
                        p.start_offset,
                        p.total_size,
                        q.start_offset,
                        q.total_size,
                    ) {
                        assert(self@.distinct_pair(i as int, j as int));
                        return false;
                    }
                }
                j = j + 1;
            }
            i = i + 1;
        }
        true
    }
}

/// Whether `[a_start, a_start + a_size)` and `[b_start, b_start + b_size)`
/// have a byte in common.
pub open spec fn intervals_share_bytes(a_start: nat, a_size: nat, b_start: nat, b_size: nat) -> bool {
    exists|b: nat| #[trigger] in_interval(b, a_start, a_size) && in_interval(b, b_start, b_size)
}

/// Whether byte `b` lies in `[start, start + size)`.
pub open spec fn in_interval(b: nat, start: nat, size: nat) -> bool {
    start <= b < start + size
}

/// Two intervals have a byte in common exactly if both are non-empty and
/// each starts before the other ends.
pub proof fn lemma_intervals_share_bytes(a_start: nat, a_size: nat, b_start: nat, b_size: nat)
    ensures
        intervals_share_bytes(a_start, a_size, b_start, b_size) <==> (a_size > 0 && b_size > 0
            && a_start < b_start + b_size && b_start < a_start + a_size),
{
    if a_size > 0 && b_size > 0 && a_start < b_start + b_size && b_start < a_start + a_size {
        let w: nat = if a_start >= b_start {
            a_start
        } else {
            b_start
        };
        assert(in_interval(w, a_start, a_size) && in_interval(w, b_start, b_size));
    }
}

/// Decides whether two byte intervals have a byte in common.
pub fn intervals_meet(a_start: u64, a_size: u64, b_start: u64, b_size: u64) -> (r: bool)
    ensures
        r == intervals_share_bytes(a_start as nat, a_size as nat, b_start as nat, b_size as nat),
{
    proof {
        lemma_intervals_share_bytes(a_start as nat, a_size as nat, b_start as nat, b_size as nat);
    }
    a_size > 0 && b_size > 0 && (a_start as u128) < b_start as u128 + b_size as u128 && (
    b_start as u128) < a_start as u128 + a_size as u128
}

} // verus!
