//! How the native tools name a partition: by drive letter on Windows, by
//! disk and partition number elsewhere.

use crate::strings::{is_numeric, numeric};
use crate::types::PartitionInfo;
use vstd::prelude::*;
use vstd::string::*;

verus! {

/// The first character of a text, as a text of its own.
pub open spec fn first_char_text(text: Seq<char>) -> Option<Seq<char>> {
    if text.len() == 0 {
        None
    } else {
        Some(text.subrange(0, 1))
    }
}

/// The drive letter of a partition: the first character of its mount
/// point.
pub open spec fn drive_letter_text(mount_point: Option<Seq<char>>) -> Option<Seq<char>> {
    match mount_point {
        Some(mp) => first_char_text(mp),
        None => None,
    }
}

/// The number of numeric characters at the end of a text.
pub open spec fn numeric_suffix_len(text: Seq<char>) -> nat
    decreases text.len(),
{
    if text.len() == 0 || !numeric(text.last()) {
        0
    } else {
        1 + numeric_suffix_len(text.drop_last())
    }
}

/// The partition number in a device path: its numeric characters at the
/// end, as in `/dev/sda12`.
pub open spec fn partition_number_text(device: Seq<char>) -> Seq<char> {
    device.subrange(device.len() - numeric_suffix_len(device), device.len() as int)
}

/// The disk in a device path: the path without the partition number.
pub open spec fn base_device_text(device: Seq<char>) -> Seq<char> {
    device.subrange(0, device.len() - numeric_suffix_len(device))
}

/// The numeric suffix is a suffix indeed, each of its characters is
/// numeric, and the character before it is not.
pub proof fn lemma_numeric_suffix(text: Seq<char>)
    ensures
        numeric_suffix_len(text) <= text.len(),
        forall|i: int|
            text.len() - numeric_suffix_len(text) <= i < text.len() ==> numeric(#[trigger] text[i]),
        numeric_suffix_len(text) < text.len() ==> !numeric(
            text[text.len() - numeric_suffix_len(text) - 1],
        ),
        base_device_text(text) + partition_number_text(text) == text,
    decreases text.len(),
{
    if text.len() > 0 && numeric(text.last()) {
        let init = text.drop_last();
        lemma_numeric_suffix(init);
        assert forall|i: int|
            text.len() - numeric_suffix_len(text) <= i < text.len() implies numeric(
            #[trigger] text[i],
        ) by {
            if i < init.len() {
                assert(init[i] == text[i]);
            }
        }
        if numeric_suffix_len(text) < text.len() {
            assert(init[init.len() - numeric_suffix_len(init) - 1] == text[text.len()
                - numeric_suffix_len(text) - 1]);
        }
    }
    assert(base_device_text(text) + partition_number_text(text) =~= text);
}

/// Takes the drive letter of a partition: the first character of its mount
/// point.
pub fn drive_letter(partition: &PartitionInfo) -> (letter: Option<&str>)
    ensures
        match letter {
            Some(l) => drive_letter_text(partition@.mount_point) == Some(l@),
            None => drive_letter_text(partition@.mount_point) is None,
        },
{
    match &partition.mount_point {
        Some(mp) => {
            if mp.as_str().is_empty() {
                None
            } else {
                Some(mp.as_str().substring_char(0, 1))
            }
        },
        None => None,
    }
}

/// Splits a device path into the disk and the partition number.
pub fn split_device_path(device: &str) -> (parts: (&str, &str))
    ensures
        parts.0@ == base_device_text(device@),
        parts.1@ == partition_number_text(device@),
{
    let n: usize = device.unicode_len();
    let mut k: usize = n;
    assert(device@.take(n as int) =~= device@);
    while k > 0 && is_numeric(device.get_char(k - 1))
        invariant
            n == device@.len(),
            k <= n,
            numeric_suffix_len(device@) == numeric_suffix_len(device@.take(k as int)) + (n - k),
        decreases k,
    {
        proof {
            let before = device@.take(k as int);
            assert(before.last() == device@[k - 1]);
            assert(before.drop_last() =~= device@.take(k - 1));
        }
        k = k - 1;
    }
    proof {
        assert(device@.take(n as int) =~= device@);
        let rest = device@.take(k as int);
        if k > 0 {
            assert(rest.last() == device@[k - 1]);
        }
        assert(numeric_suffix_len(rest) == 0);
    }
    (device.substring_char(0, k), device.substring_char(k, n))
}

} // verus!
