//! The kind of a filesystem node and its one-letter persisted code.

use vstd::prelude::*;
use crate::text::str_eq;

verus! {

/// What a node is to the kernel.
#[derive(Debug, Clone, Copy, PartialEq, Eq, Structural)]
pub enum FileType {
    RegularFile,
    Directory,
    CharDevice,
    NamedPipe,
    BlockDevice,
    Socket,
    Symlink,
}

/// The persisted code of a kind.
pub open spec fn spec_file_type_code(kind: FileType) -> Seq<char> {
    match kind {
        FileType::RegularFile => "F"@,
        FileType::Directory => "D"@,
        FileType::CharDevice => "C"@,
        FileType::NamedPipe => "P"@,
        FileType::BlockDevice => "B"@,
        FileType::Socket => "S"@,
        FileType::Symlink => "L"@,
    }
}

/// The kind that a persisted code stands for, if it stands for one.
pub open spec fn spec_file_type_of(code: Seq<char>) -> Option<FileType> {
    if code == "F"@ {
        Some(FileType::RegularFile)
    } else if code == "D"@ {
        Some(FileType::Directory)
    } else if code == "C"@ {
        Some(FileType::CharDevice)
    } else if code == "P"@ {
        Some(FileType::NamedPipe)
    } else if code == "B"@ {
        Some(FileType::BlockDevice)
    } else if code == "S"@ {
        Some(FileType::Socket)
    } else if code == "L"@ {
        Some(FileType::Symlink)
    } else {
        None
    }
}

/// Reads a persisted code. `None` marks a code that names no kind.
pub fn parse_file_type(val: &str) -> (kind: Option<FileType>)
    ensures
        kind == spec_file_type_of(val@),
{
    if str_eq(val, "F") {
        Some(FileType::RegularFile)
    } else if str_eq(val, "D") {
        Some(FileType::Directory)
    } else if str_eq(val, "C") {
        Some(FileType::CharDevice)
    } else if str_eq(val, "P") {
        Some(FileType::NamedPipe)
    } else if str_eq(val, "B") {
        Some(FileType::BlockDevice)
    } else if str_eq(val, "S") {
        Some(FileType::Socket)
    } else if str_eq(val, "L") {
        Some(FileType::Symlink)
    } else {
        None
    }
}

/// The code under which a kind is persisted.
pub fn file_type2string(kind: FileType) -> (code: &'static str)
    ensures
        code@ == spec_file_type_code(kind),
{
    match kind {
        FileType::RegularFile => "F",
        FileType::Directory => "D",
        FileType::CharDevice => "C",
        FileType::NamedPipe => "P",
        FileType::BlockDevice => "B",
        FileType::Socket => "S",
        FileType::Symlink => "L",
    }
}

/// Every kind is read back from its own code.
pub proof fn lemma_file_type_round_trip(kind: FileType)
    ensures
        spec_file_type_of(spec_file_type_code(kind)) == Some(kind),
{
    reveal_strlit("F");
    reveal_strlit("D");
    reveal_strlit("C");
    reveal_strlit("P");
    reveal_strlit("B");
    reveal_strlit("S");
    reveal_strlit("L");
    let code = spec_file_type_code(kind);
    assert(code.len() == 1);
    assert("F"@[0] == 'F' && "D"@[0] == 'D' && "C"@[0] == 'C' && "P"@[0] == 'P');
    assert("B"@[0] == 'B' && "S"@[0] == 'S' && "L"@[0] == 'L');
}

/// A code that is read as a kind is the code of that kind.
pub proof fn lemma_file_type_code_unique(code: Seq<char>, kind: FileType)
    requires
        spec_file_type_of(code) == Some(kind),
    ensures
        spec_file_type_code(kind) == code,
{
}

} // verus!
