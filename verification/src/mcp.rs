//! The records of the file tools: what is reported of the server, of files
//! and directories, and of edits.

use crate::text::{
    decimal, decimal_string, format_bytes, format_bytes_text, KIB,
};
use vstd::prelude::*;
use vstd::string::*;

verus! {

/// The server's name, version and protocol.
#[derive(Debug, Clone)]
pub struct ServerInfo {
    pub name: String,
    pub version: String,
    pub protocol_version: String,
}

/// An entry of a directory.
#[derive(Debug, Clone)]
pub struct FileInfo {
    pub name: String,
    pub path: String,
    pub is_dir: bool,
    pub size: u64,
    pub modified: Option<u64>,
}

/// The size of a directory with all that is in it.
#[derive(Debug, Clone)]
pub struct DirectorySizeInfo {
    pub path: String,
    pub total_bytes: u64,
    pub file_count: usize,
    pub dir_count: usize,
    pub human_readable: String,
}

/// A node of a directory tree.
#[derive(Debug)]
pub struct DirectoryTreeNode {
    pub name: String,
    pub path: String,
    pub is_dir: bool,
    pub size: Option<u64>,
    pub children: Option<Vec<DirectoryTreeNode>>,
}

/// What came of reading one of several files.
#[derive(Debug, Clone)]
pub struct MultiFileResult {
    pub path: String,
    pub content: Option<String>,
    pub error: Option<String>,
}

/// What came of an edit.
#[derive(Debug, Clone)]
pub struct EditFileResult {
    pub success: bool,
    pub changes_made: usize,
    pub diff: Option<String>,
    pub error: Option<String>,
}

/// A size as the file tools show it: in bytes without decimals below one
/// kibibyte, and else in its unit with two decimals.
pub open spec fn size_text(bytes: nat) -> Seq<char> {
    if bytes < KIB {
        decimal(bytes) + " B"@
    } else {
        format_bytes_text(bytes)
    }
}

/// Writes a size as the file tools show it.
pub fn human_readable_size(bytes: u64) -> (s: String)
    ensures
        s@ == size_text(bytes as nat),
{
    if bytes < KIB {
        let mut s = decimal_string(bytes as u128);
        s.append(" B");
        s
    } else {
        format_bytes(bytes)
    }
}

impl ServerInfo {
    /// What the file server says of itself.
    pub fn current() -> (info: ServerInfo)
        ensures
            info.name@ == "RoRo-mcp-fs"@,
            info.version@ == "0.2.0"@,
            info.protocol_version@ == "2024-11-05"@,
    {
        ServerInfo {
            name: String::from_str("RoRo-mcp-fs"),
            version: String::from_str("0.2.0"),
            protocol_version: String::from_str("2024-11-05"),
        }
    }
}

impl DirectorySizeInfo {
    /// The record of a directory from what was counted in it.
    pub fn counted(path: String, total_bytes: u64, file_count: usize, dir_count: usize) -> (info:
        DirectorySizeInfo)
        ensures
            info.path@ == path@,
            info.total_bytes == total_bytes,
            info.file_count == file_count,
            info.dir_count == dir_count,
            info.human_readable@ == size_text(total_bytes as nat),
    {
        DirectorySizeInfo {
            path,
            total_bytes,
            file_count,
            dir_count,
            human_readable: human_readable_size(total_bytes),
        }
    }
}

impl EditFileResult {
    /// The record of an edit whose pattern was not found.
    pub fn not_found() -> (r: EditFileResult)
        ensures
            !r.success,
            r.changes_made == 0,
            r.diff is None,
            r.error matches Some(e) && e@ == "Pattern not found in file"@,
    {
        EditFileResult {
            success: false,
            changes_made: 0,
            diff: None,
            error: Some(String::from_str("Pattern not found in file")),
        }
    }
}

} // verus!
