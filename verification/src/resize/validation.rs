//! Validation of resize requests: pure functions from a snapshot and a
//! target size to a verdict with its messages.

use crate::text::{decimal, decimal_string, format_bytes, format_bytes_text, texts};
use crate::types::{opt_nat, DiskInfo, DiskView, FilesystemType, PartitionFlag, PartitionInfo, PartitionView};
use vstd::prelude::*;
use vstd::string::*;

verus! {

/// The free space a shrink must leave for no warning: 100 MiB.
pub const LOW_FREE_SPACE: u64 = 104_857_600;

/// The verdict of a validation: whether the request may proceed, why not,
/// what to be aware of, and the sizes a client may clamp to.
#[derive(Debug, Clone)]
pub struct ValidationResult {
    pub is_valid: bool,
    pub errors: Vec<String>,
    pub warnings: Vec<String>,
    /// The size the request would be carried out with.
    pub safe_size: Option<u64>,
    pub minimum_size: Option<u64>,
    pub maximum_size: Option<u64>,
    pub has_adjacent_space: bool,
    /// Unallocated bytes between the partition's end and whatever follows.
    pub adjacent_space: u64,
}

/// The verdict as a mathematical value.
pub struct ValidationView {
    pub is_valid: bool,
    pub errors: Seq<Seq<char>>,
    pub warnings: Seq<Seq<char>>,
    pub safe_size: Option<nat>,
    pub minimum_size: Option<nat>,
    pub maximum_size: Option<nat>,
    pub has_adjacent_space: bool,
    pub adjacent_space: nat,
}

impl View for ValidationResult {
    type V = ValidationView;

    open spec fn view(&self) -> ValidationView {
        ValidationView {
            is_valid: self.is_valid,
            errors: texts(self.errors@),
            warnings: texts(self.warnings@),
            safe_size: opt_nat(self.safe_size),
            minimum_size: opt_nat(self.minimum_size),
            maximum_size: opt_nat(self.maximum_size),
            has_adjacent_space: self.has_adjacent_space,
            adjacent_space: self.adjacent_space as nat,
        }
    }
}

/// `items` if `cond` holds, nothing otherwise.
pub open spec fn only_if(cond: bool, items: Seq<Seq<char>>) -> Seq<Seq<char>> {
    if cond {
        items
    } else {
        Seq::empty()
    }
}

/// The least start offset at or after `end` among `parts`, if there is one.
pub open spec fn next_start(parts: Seq<PartitionView>, end: nat) -> Option<nat>
    decreases parts.len(),
{
    if parts.len() == 0 {
        None
    } else {
        let before = next_start(parts.drop_last(), end);
        let s = parts.last().start_offset;
        if s >= end && (before is None || s < before.unwrap()) {
            Some(s)
        } else {
            before
        }
    }
}

/// Whether some partition of `parts` starts at or after `end`.
pub open spec fn has_follower(parts: Seq<PartitionView>, end: nat) -> bool {
    exists|i: int| 0 <= i < parts.len() && (#[trigger] parts[i]).start_offset >= end
}

/// `next_start` is the least start offset at or after `end`: it is `None`
/// exactly if no partition starts there, and otherwise it is the start of
/// some such partition and no such partition starts earlier.
pub proof fn lemma_next_start_least(parts: Seq<PartitionView>, end: nat)
    ensures
        next_start(parts, end) is None <==> !has_follower(parts, end),
        next_start(parts, end) matches Some(s) ==> {
            &&& s >= end
            &&& exists|i: int| 0 <= i < parts.len() && (#[trigger] parts[i]).start_offset == s
            &&& forall|j: int|
                0 <= j < parts.len() && (#[trigger] parts[j]).start_offset >= end ==> s
                    <= parts[j].start_offset
        },
    decreases parts.len(),
{
    if parts.len() > 0 {
        let init = parts.drop_last();
        lemma_next_start_least(init, end);
        assert forall|j: int| 0 <= j < init.len() implies init[j] == parts[j] by {}
        if has_follower(init, end) {
            let w = choose|i: int| 0 <= i < init.len() && (#[trigger] init[i]).start_offset >= end;
            assert(parts[w].start_offset >= end);
        }
        if has_follower(parts, end) && !has_follower(init, end) {
            let w = choose|i: int|
                0 <= i < parts.len() && (#[trigger] parts[i]).start_offset >= end;
            if w < init.len() {
                assert(init[w].start_offset >= end);
            }
        }
        match next_start(parts, end) {
            Some(s) => {
                if next_start(init, end) == Some(s) {
                    let w = choose|i: int|
                        0 <= i < init.len() && (#[trigger] init[i]).start_offset == s;
                    assert(parts[w].start_offset == s);
                } else {
                    assert(parts[parts.len() - 1].start_offset == s);
                }
                assert forall|j: int|
                    0 <= j < parts.len() && (#[trigger] parts[j]).start_offset >= end implies s
                    <= parts[j].start_offset by {
                    if j < init.len() {
                        assert(init[j].start_offset >= end);
                    }
                }
            },
            None => {},
        }
    }
}

/// The unallocated bytes between the end of `p` and the next partition of
/// the disk, or the end of the disk where none follows.
pub open spec fn adjacent_space(p: PartitionView, d: DiskView) -> nat {
    match next_start(d.partitions, p.end()) {
        Some(s) => (s - p.end()) as nat,
        None => if d.total_size >= p.end() {
            (d.total_size - p.end()) as nat
        } else {
            0
        },
    }
}

/// The error for an expansion whose target does not exceed the current size.
pub open spec fn not_larger_text(target: nat, current: nat) -> Seq<char> {
    "Target size ("@ + format_bytes_text(target) + ") must be larger than current size ("@
        + format_bytes_text(current) + ")"@
}

/// The error for an expansion that asks for more than the adjacent space;
/// both amounts are given rounded and in exact bytes.
pub open spec fn not_enough_space_text(increase: nat, available: nat) -> Seq<char> {
    "Not enough adjacent space. Requested increase: "@ + format_bytes_text(increase) + " ("@
        + decimal(increase) + " bytes), Available: "@ + format_bytes_text(available) + " ("@
        + decimal(available) + " bytes)"@
}

/// The error for a filesystem that cannot be resized.
pub open spec fn unsupported_filesystem_text(fs: FilesystemType) -> Seq<char> {
    "Filesystem type '"@ + fs.name_text() + "' does not support resize operations"@
}

/// The warning for expanding a mounted partition.
pub open spec fn expand_mounted_text() -> Seq<char> {
    "Partition is currently mounted. Expansion may require unmounting or system restart."@
}

/// The error for a shrink whose target is not below the current size.
pub open spec fn not_smaller_text(target: nat, current: nat) -> Seq<char> {
    "Target size ("@ + format_bytes_text(target) + ") must be smaller than current size ("@
        + format_bytes_text(current) + ")"@
}

/// The error for a shrink below the minimum safe size.
pub open spec fn too_small_text(target: nat, used: nat, minimum: nat) -> Seq<char> {
    "Target size ("@ + format_bytes_text(target) + ") is too small. Used space: "@
        + format_bytes_text(used) + ", Minimum safe size: "@ + format_bytes_text(minimum)
}

/// The warning for a shrink that leaves less than 100 MiB free.
pub open spec fn low_free_space_text() -> Seq<char> {
    "Target size leaves less than 100MB free space. This is not recommended."@
}

/// The warning for a shrink of a partition whose used space is unknown.
pub open spec fn unknown_used_space_text() -> Seq<char> {
    "Cannot determine used space. Shrink operation may fail if target size is too small."@
}

/// The warning for shrinking a mounted partition.
pub open spec fn shrink_mounted_text() -> Seq<char> {
    "This partition is mounted. You may need to unmount it before shrinking on this OS."@
}

/// The warning for shrinking a boot partition.
pub open spec fn shrink_boot_text() -> Seq<char> {
    "WARNING: This is a boot partition. Shrinking it may make the system unbootable!"@
}

/// The warning for shrinking a system partition.
pub open spec fn shrink_system_text() -> Seq<char> {
    "WARNING: This is a system partition. Shrinking it requires extreme caution!"@
}

/// The verdict on expanding `p` on disk `d` to `target` bytes.
///
/// The request is valid exactly if the target exceeds the current size, the
/// increase fits into the adjacent space and the filesystem can be resized.
/// The adjacent space and the maximum size are given whatever the target.
pub open spec fn expand_validation(p: PartitionView, d: DiskView, target: nat) -> ValidationView {
    let space = adjacent_space(p, d);
    let larger = target > p.total_size;
    let fits = target <= p.total_size + space;
    let supported = p.filesystem.resizable();
    ValidationView {
        is_valid: larger && fits && supported,
        errors: only_if(!larger, seq![not_larger_text(target, p.total_size)]) + only_if(
            !fits,
            seq![not_enough_space_text((target - p.total_size) as nat, space)],
        ) + only_if(!supported, seq![unsupported_filesystem_text(p.filesystem)]),
        warnings: only_if(p.is_mounted, seq![expand_mounted_text()]),
        safe_size: Some(target),
        minimum_size: Some(p.total_size),
        maximum_size: Some(p.total_size + space),
        has_adjacent_space: space > 0,
        adjacent_space: space,
    }
}

/// The least size a partition with `used` bytes in use may be shrunk to:
/// the used space and a fifth more, rounded up to whole bytes, and no more
/// than a size can hold.
pub open spec fn minimum_safe_size(used: nat) -> nat {
    let needed = (used * 6 + 4) / 5;
    if needed > u64::MAX {
        u64::MAX as nat
    } else {
        needed
    }
}

/// The verdict on shrinking `p` to `target` bytes.
///
/// The request is valid exactly if the target is below the current size,
/// not below the minimum safe size where the used space is known, and the
/// filesystem can be resized.
pub open spec fn shrink_validation(p: PartitionView, target: nat) -> ValidationView {
    let smaller = target < p.total_size;
    let supported = p.filesystem.resizable();
    let roomy = match p.used_space {
        Some(used) => target >= minimum_safe_size(used),
        None => true,
    };
    ValidationView {
        is_valid: smaller && roomy && supported,
        errors: only_if(!smaller, seq![not_smaller_text(target, p.total_size)]) + (match p.used_space {
            Some(used) => only_if(
                !roomy,
                seq![too_small_text(target, used, minimum_safe_size(used))],
            ),
            None => Seq::empty(),
        }) + only_if(!supported, seq![unsupported_filesystem_text(p.filesystem)]),
        warnings: (match p.used_space {
            Some(used) => only_if(
                roomy && target < used + LOW_FREE_SPACE,
                seq![low_free_space_text()],
            ),
            None => seq![unknown_used_space_text()],
        }) + only_if(p.is_mounted, seq![shrink_mounted_text()]) + only_if(
            p.has(PartitionFlag::Boot),
            seq![shrink_boot_text()],
        ) + only_if(p.has(PartitionFlag::System), seq![shrink_system_text()]),
        safe_size: Some(target),
        minimum_size: match p.used_space {
            Some(used) => Some(minimum_safe_size(used)),
            None => None,
        },
        maximum_size: Some(p.total_size),
        has_adjacent_space: false,
        adjacent_space: 0,
    }
}

/// An expansion of a partition that nothing follows, on a disk that holds
/// it, is bounded by the end of the disk alone. The maximum size reaches
/// from the partition's start to the disk's end, which for a partition at
/// the start of the disk is the size of the disk. A target above the
/// current size, for a filesystem that can be resized, is valid exactly if
/// it does not exceed that maximum.
pub proof fn lemma_expand_to_disk_end(p: PartitionView, d: DiskView, target: nat)
    requires
        !has_follower(d.partitions, p.end()),
        p.end() <= d.total_size,
    ensures
        expand_validation(p, d, target).adjacent_space == d.total_size - p.end(),
        expand_validation(p, d, target).maximum_size == Some(
            (d.total_size - p.start_offset) as nat,
        ),
        p.start_offset == 0 ==> expand_validation(p, d, target).maximum_size == Some(d.total_size),
        p.filesystem.resizable() && target > p.total_size ==> (expand_validation(
            p,
            d,
            target,
        ).is_valid <==> target <= d.total_size - p.start_offset),
        p.filesystem.resizable() && target > p.total_size && p.start_offset == 0 && target
            <= d.total_size ==> expand_validation(p, d, target).is_valid,
{
    lemma_next_start_least(d.partitions, p.end());
}

/// Whatever the target, the adjacent space and the maximum size of an
/// expansion are those of the partition and its disk alone.
pub proof fn lemma_expand_limits_ignore_target(
    p: PartitionView,
    d: DiskView,
    target: nat,
    other: nat,
)
    ensures
        expand_validation(p, d, target).maximum_size == expand_validation(p, d, other).maximum_size,
        expand_validation(p, d, target).adjacent_space == expand_validation(
            p,
            d,
            other,
        ).adjacent_space,
        expand_validation(p, d, target).maximum_size == Some(p.total_size + adjacent_space(p, d)),
{
}

/// On a well-formed disk a valid expansion of one of its partitions, if
/// that has at least one byte, leaves the disk well-formed: the partition
/// at its new size lies within the disk and shares no byte with another.
pub proof fn lemma_valid_expansion_keeps_disk_well_formed(d: DiskView, k: int, target: nat)
    requires
        d.well_formed(),
        0 <= k < d.partitions.len(),
        d.partitions[k].total_size > 0,
        expand_validation(d.partitions[k], d, target).is_valid,
    ensures
        (DiskView {
            partitions: d.partitions.update(
                k,
                PartitionView { total_size: target, ..d.partitions[k] },
            ),
            ..d
        }).well_formed(),
{
    let p = d.partitions[k];
    let grown = PartitionView { total_size: target, ..p };
    let after = DiskView { partitions: d.partitions.update(k, grown), ..d };
    lemma_next_start_least(d.partitions, p.end());
    assert(grown.end() <= d.total_size) by {
        if has_follower(d.partitions, p.end()) {
            let s = next_start(d.partitions, p.end()).unwrap();
            let w = choose|i: int|
                0 <= i < d.partitions.len() && (#[trigger] d.partitions[i]).start_offset == s;
            assert(d.partitions[w].end() <= d.total_size);
        } else {
            assert(d.partitions[k].end() <= d.total_size);
        }
    }
    assert forall|i: int| 0 <= i < after.partitions.len() implies (
    #[trigger] after.partitions[i]).end() <= after.total_size by {
        if i != k {
            assert(d.partitions[i].end() <= d.total_size);
        }
    }
    assert forall|i: int, j: int| #[trigger] after.distinct_pair(i, j) implies !after.partitions[i].shares_bytes_with(
        after.partitions[j].start_offset,
        after.partitions[j].total_size,
    ) by {
        assert(d.distinct_pair(i, j));
        assert(d.distinct_pair(j, i));
        let a = d.partitions[i];
        let b = d.partitions[j];
        crate::types::lemma_intervals_share_bytes(
            a.start_offset,
            a.total_size,
            b.start_offset,
            b.total_size,
        );
        crate::types::lemma_intervals_share_bytes(
            after.partitions[i].start_offset,
            after.partitions[i].total_size,
            after.partitions[j].start_offset,
            after.partitions[j].total_size,
        );
        if i == k {
            if b.start_offset >= p.end() {
                assert(d.partitions[j].start_offset >= p.end());
            }
        } else if j == k {
            if a.start_offset >= p.end() {
                assert(d.partitions[i].start_offset >= p.end());
            }
        }
    }
}

/// The boundary of a shrink is strict. With `used` bytes in use, a target
/// below six fifths of `used` is invalid; a target of at least six fifths
/// of `used` is valid if it is below the current size and the filesystem
/// can be resized.
pub proof fn lemma_shrink_boundary(p: PartitionView, used: nat, target: nat)
    requires
        p.used_space == Some(used),
        p.total_size <= u64::MAX,
    ensures
        5 * target < 6 * used ==> !shrink_validation(p, target).is_valid,
        5 * target >= 6 * used && target < p.total_size && p.filesystem.resizable()
            ==> shrink_validation(p, target).is_valid,
        shrink_validation(p, target).is_valid ==> 5 * target >= 6 * used && target
            < p.total_size,
{
}

/// The minimum safe size is the least whole number of bytes that is at
/// least six fifths of the used space, where that fits a size.
pub proof fn lemma_minimum_safe_size(used: nat)
    requires
        (used * 6 + 4) / 5 <= u64::MAX,
    ensures
        5 * minimum_safe_size(used) >= 6 * used,
        5 * (minimum_safe_size(used) - 1) < 6 * used,
{
}

/// Appends `message` to `list`.
pub fn push_message(list: &mut Vec<String>, message: String)
    ensures
        texts(final(list)@) == texts(old(list)@) + seq![message@],
{
    list.push(message);
    assert(texts(list@) =~= texts(old(list)@) + seq![message@]);
}

/// Appends the text of `message` to `list`.
pub fn push_text(list: &mut Vec<String>, message: &str)
    ensures
        texts(final(list)@) == texts(old(list)@) + seq![message@],
{
    push_message(list, String::from_str(message));
}

fn not_larger_message(target: u64, current: u64) -> (s: String)
    ensures
        s@ == not_larger_text(target as nat, current as nat),
{
    let mut s = String::from_str("Target size (");
    s.append(format_bytes(target).as_str());
    s.append(") must be larger than current size (");
    s.append(format_bytes(current).as_str());
    s.append(")");
    s
}

fn not_enough_space_message(increase: u64, available: u64) -> (s: String)
    ensures
        s@ == not_enough_space_text(increase as nat, available as nat),
{
    let mut s = String::from_str("Not enough adjacent space. Requested increase: ");
    s.append(format_bytes(increase).as_str());
    s.append(" (");
    s.append(decimal_string(increase as u128).as_str());
    s.append(" bytes), Available: ");
    s.append(format_bytes(available).as_str());
    s.append(" (");
    s.append(decimal_string(available as u128).as_str());
    s.append(" bytes)");
    s
}

/// The error for a filesystem that cannot be resized.
pub fn unsupported_filesystem_message(fs: FilesystemType) -> (s: String)
    ensures
        s@ == unsupported_filesystem_text(fs),
{
    let mut s = String::from_str("Filesystem type '");
    s.append(fs.display_name());
    s.append("' does not support resize operations");
    s
}

fn not_smaller_message(target: u64, current: u64) -> (s: String)
    ensures
        s@ == not_smaller_text(target as nat, current as nat),
{
    let mut s = String::from_str("Target size (");
    s.append(format_bytes(target).as_str());
    s.append(") must be smaller than current size (");
    s.append(format_bytes(current).as_str());
    s.append(")");
    s
}

fn too_small_message(target: u64, used: u64, minimum: u64) -> (s: String)
    ensures
        s@ == too_small_text(target as nat, used as nat, minimum as nat),
{
    let mut s = String::from_str("Target size (");
    s.append(format_bytes(target).as_str());
    s.append(") is too small. Used space: ");
    s.append(format_bytes(used).as_str());
    s.append(", Minimum safe size: ");
    s.append(format_bytes(minimum).as_str());
    s
}

/// Finds the partition that follows `current` on the disk: the one with the
/// least start offset at or after the end of `current`, the first of them in
/// the order of discovery where several start there.
pub fn find_next_partition<'a>(disk: &'a DiskInfo, current: &PartitionInfo) -> (r: Option<
    &'a PartitionInfo,
>)
    ensures
        next_start(disk@.partitions, current@.end()) == (match r {
            Some(q) => Some(q@.start_offset),
            None => None,
        }),
        r matches Some(q) ==> exists|i: int|
            {
                &&& 0 <= i < disk.partitions.len()
                &&& #[trigger] disk.partitions@[i] == *q
                &&& forall|j: int|
                    0 <= j < i && (#[trigger] disk.partitions@[j]).start_offset >= current@.end()
                        ==> disk.partitions@[j].start_offset > q.start_offset
            },
{
    let end: u128 = current.end_offset();
    let n: usize = disk.partitions.len();
    let mut best: Option<&'a PartitionInfo> = None;
    let ghost mut at: int = 0;
    let mut i: usize = 0;
    while i < n
        invariant
            n == disk.partitions.len(),
            i <= n,
            end == current@.end(),
            next_start(disk@.partitions.take(i as int), end as nat) == (match best {
                Some(q) => Some(q@.start_offset),
                None => None,
            }),
            best matches Some(q) ==> {
                &&& 0 <= at < i
                &&& disk.partitions@[at] == *q
                &&& q.start_offset >= end
                &&& forall|j: int|
                    0 <= j < at && (#[trigger] disk.partitions@[j]).start_offset >= end
                        ==> disk.partitions@[j].start_offset > q.start_offset
            },
        decreases n - i,
    {
        let p = &disk.partitions[i];
        proof {
            let done = disk@.partitions.take(i as int);
            let more = disk@.partitions.take(i + 1);
            assert(more.drop_last() =~= done);
            assert(more.last() == p@);
        }
        let better = p.start_offset as u128 >= end && match best {
            Some(q) => p.start_offset < q.start_offset,
            None => true,
        };
        if better {
            proof {
                if best is Some {
                    let w = at;
                    assert forall|j: int|
                        0 <= j < i && (#[trigger] disk.partitions@[j]).start_offset
                            >= end implies disk.partitions@[j].start_offset
                        > p.start_offset by {
                        lemma_next_start_least(disk@.partitions.take(i as int), end as nat);
                        assert(disk@.partitions.take(i as int)[j].start_offset >= end);
                    }
                } else {
                    assert forall|j: int|
                        0 <= j < i && (#[trigger] disk.partitions@[j]).start_offset
                            >= end implies disk.partitions@[j].start_offset
                        > p.start_offset by {
                        lemma_next_start_least(disk@.partitions.take(i as int), end as nat);
                        assert(disk@.partitions.take(i as int)[j].start_offset >= end);
                    }
                }
                at = i as int;
            }
            best = Some(p);
        }
        i = i + 1;
    }
    proof {
        assert(disk@.partitions.take(n as int) =~= disk@.partitions);
    }
    best
}

/// Measures the unallocated bytes that follow `partition` on `disk`.
pub fn measure_adjacent_space(partition: &PartitionInfo, disk: &DiskInfo) -> (space: u64)
    ensures
        space == adjacent_space(partition@, disk@),
        partition.total_size + space <= u64::MAX,
{
    let end: u128 = partition.end_offset();
    match find_next_partition(disk, partition) {
        Some(next) => {
            proof {
                lemma_next_start_least(disk@.partitions, partition@.end());
            }
            (next.start_offset as u128 - end) as u64
        },
        None => {
            if disk.total_size as u128 >= end {
                (disk.total_size as u128 - end) as u64
            } else {
                0
            }
        },
    }
}

/// Validates a request to expand `partition` on `disk` to `target_size`
/// bytes. Reads nothing but its arguments.
pub fn validate_expand(partition: &PartitionInfo, disk: &DiskInfo, target_size: u64) -> (result:
    ValidationResult)
    ensures
        result@ == expand_validation(partition@, disk@, target_size as nat),
{
    let mut errors: Vec<String> = Vec::new();
    let mut warnings: Vec<String> = Vec::new();
    let mut is_valid = true;
    assert(texts(errors@) =~= Seq::empty());
    assert(texts(warnings@) =~= Seq::empty());

    if target_size <= partition.total_size {
        is_valid = false;
        push_message(&mut errors, not_larger_message(target_size, partition.total_size));
    }
    let space: u64 = measure_adjacent_space(partition, disk);
    if target_size > partition.total_size && target_size - partition.total_size > space {
        is_valid = false;
        push_message(
            &mut errors,
            not_enough_space_message(target_size - partition.total_size, space),
        );
    }
    if partition.is_mounted {
        push_text(
            &mut warnings,
            "Partition is currently mounted. Expansion may require unmounting or system restart.",
        );
    }
    if !partition.filesystem.supports_resize() {
        is_valid = false;
        push_message(&mut errors, unsupported_filesystem_message(partition.filesystem));
    }
    let result = ValidationResult {
        is_valid,
        errors,
        warnings,
        safe_size: Some(target_size),
        minimum_size: Some(partition.total_size),
        maximum_size: Some(partition.total_size + space),
        has_adjacent_space: space > 0,
        adjacent_space: space,
    };
    proof {
        let want = expand_validation(partition@, disk@, target_size as nat);
        assert(result@.errors =~= want.errors);
        assert(result@.warnings =~= want.warnings);
    }
    result
}

/// Computes the least size a partition with `used` bytes in use may be
/// shrunk to.
pub fn compute_minimum_safe_size(used: u64) -> (m: u64)
    ensures
        m == minimum_safe_size(used as nat),
{
    let needed: u128 = (used as u128 * 6 + 4) / 5;
    if needed > u64::MAX as u128 {
        u64::MAX
    } else {
        needed as u64
    }
}

/// Validates a request to shrink `partition` to `target_size` bytes. Reads
/// nothing but its arguments.
pub fn validate_shrink(partition: &PartitionInfo, target_size: u64) -> (result: ValidationResult)
    ensures
        result@ == shrink_validation(partition@, target_size as nat),
{
    let mut errors: Vec<String> = Vec::new();
    let mut warnings: Vec<String> = Vec::new();
    let mut is_valid = true;
    let mut minimum_size: Option<u64> = None;
    assert(texts(errors@) =~= Seq::empty());
    assert(texts(warnings@) =~= Seq::empty());

    if target_size >= partition.total_size {
        is_valid = false;
        push_message(&mut errors, not_smaller_message(target_size, partition.total_size));
    }
    match partition.used_space {
        Some(used) => {
            let minimum: u64 = compute_minimum_safe_size(used);
            minimum_size = Some(minimum);
            if target_size < minimum {
                is_valid = false;
                push_message(&mut errors, too_small_message(target_size, used, minimum));
            } else if (target_size as u128) < used as u128 + LOW_FREE_SPACE as u128 {
                push_text(
                    &mut warnings,
                    "Target size leaves less than 100MB free space. This is not recommended.",
                );
            }
        },
        None => {
            push_text(
                &mut warnings,
                "Cannot determine used space. Shrink operation may fail if target size is too small.",
            );
        },
    }
    if !partition.filesystem.supports_resize() {
        is_valid = false;
        push_message(&mut errors, unsupported_filesystem_message(partition.filesystem));
    }
    if partition.is_mounted {
        push_text(
            &mut warnings,
            "This partition is mounted. You may need to unmount it before shrinking on this OS.",
        );
    }
    if partition.has_flag(PartitionFlag::Boot) {
        push_text(
            &mut warnings,
            "WARNING: This is a boot partition. Shrinking it may make the system unbootable!",
        );
    }
    if partition.has_flag(PartitionFlag::System) {
        push_text(
            &mut warnings,
            "WARNING: This is a system partition. Shrinking it requires extreme caution!",
        );
    }
    let result = ValidationResult {
        is_valid,
        errors,
        warnings,
        safe_size: Some(target_size),
        minimum_size,
        maximum_size: Some(partition.total_size),
        has_adjacent_space: false,
        adjacent_space: 0,
    };
    proof {
        let want = shrink_validation(partition@, target_size as nat);
        assert(result@.errors =~= want.errors);
        assert(result@.warnings =~= want.warnings);
    }
    result
}

} // verus!
