//! Paths as keys: two spellings of one directory are to give one key.

use vstd::prelude::*;
use vstd::string::*;
use vstd::utf8::encode_utf8;

verus! {

/// Whether the path is the root of a drive, such as `C:\`: three bytes
/// long, with a colon in the second place.
pub open spec fn is_drive_root(path: Seq<char>) -> bool {
    encode_utf8(path).len() == 3 && path.len() > 1 && path[1] == ':'
}

/// Whether the path ends in a separator that is not all of it.
pub open spec fn has_trailing_separator(path: Seq<char>) -> bool {
    encode_utf8(path).len() > 1 && path.len() > 0 && (path.last() == '/' || path.last() == '\\')
}

/// The key of a path: the path without its trailing separator, unless the
/// path is the root of a drive or the separator is all of it.
pub open spec fn normalized_path(path: Seq<char>) -> Seq<char> {
    if has_trailing_separator(path) && !is_drive_root(path) {
        path.drop_last()
    } else {
        path
    }
}

/// Makes the key of a path: `/home/user/` and `/home/user` give one key,
/// and `C:\` and `/` stay as they are.
pub fn normalize_path(path: &str) -> (key: String)
    ensures
        key@ == normalized_path(path@),
{
    let bytes: usize = path.as_bytes().len();
    let n: usize = path.unicode_len();
    if bytes > 1 && n > 0 {
        let last = path.get_char(n - 1);
        if last == '/' || last == '\\' {
            let is_root = bytes == 3 && n > 1 && path.get_char(1) == ':';
            if !is_root {
                return String::from_str(path.substring_char(0, n - 1));
            }
        }
    }
    String::from_str(path)
}

} // verus!
