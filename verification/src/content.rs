//! The shapes of the content layer: streams, file nodes and their metadata.
//!
//! These are data only. Nothing in the store is built on them yet.

use vstd::prelude::*;
use std::collections::HashMap;

verus! {

/// The longest text that a metadata value may hold, in bytes.
pub const MAX_STRING_SIZE: u64 = 4096;

/// A moment in universal time.
#[derive(Debug, Clone, Copy, PartialEq, Eq, Structural)]
pub struct Timestamp {
    /// Whole seconds since the Unix epoch; negative before it.
    pub secs: i64,
    /// The part of the second, in nanoseconds.
    pub nanos: u32,
}

/// How a generated stream is put together. Streams are named by the bits of
/// their uuids.
#[derive(Debug)]
pub struct StreamGeneration {
    pub id: u128,
    pub generator: String,
    pub used_streams: HashMap<u128, Timestamp>,
}

#[derive(Debug)]
pub struct SimpleStreamGeneration {
    pub id: u128,
    pub generator: String,
    pub used_streams: HashMap<u128, Timestamp>,
}

/// A piece of a generated stream: bytes, or a range of another stream as it
/// was at some moment.
#[derive(Debug)]
pub enum StreamGenerationSegment {
    Data(Vec<u8>),
    StreamLink(u128, Timestamp, u64, u64),
}

#[derive(Debug, Clone, Copy, PartialEq, Eq, Structural)]
pub enum CompressionAlg {
    Gzip,
    Xz,
}

#[derive(Debug)]
pub struct FileStream {
    pub id: u128,
    pub pool: u128,
    pub created: Timestamp,
    pub modified: Timestamp,
    /// For a generated stream this is an estimate.
    pub size: u64,
    /// The generation behind the stream; a real stream has none.
    pub generator: Option<u128>,
    pub flag_immutable: bool,
    pub compression: Option<CompressionAlg>,
}

impl FileStream {
    /// Whether the stream holds its own bytes.
    pub fn is_real(&self) -> (res: bool)
        ensures
            res == (self.generator is None),
    {
        self.generator.is_none()
    }

    /// Whether the stream may be written to: it is real and not frozen.
    pub fn is_mutable(&self) -> (mutable: bool)
        ensures
            mutable == (!self.flag_immutable && self.generator is None),
    {
        !self.flag_immutable && self.is_real()
    }
}

#[derive(Debug)]
pub enum FileContent {
    Nothing,
    /// Up to two kilobytes, kept in place.
    ShortData(Vec<u8>),
    /// A stream, and whether it is copied on write.
    Stream(u128, bool),
    SymLink(String),
    NamedPipe(u128),
    CharDevice(u128),
    BlockDevice(u128),
    Socket(u128),
}

#[derive(Debug)]
pub struct UnixPermission {
    pub mask: u16,
    pub uid: u16,
    pub gid: u16,
    pub uname: String,
    pub gname: String,
}

#[derive(Debug)]
pub struct BasicFileNode {
    pub id: u128,
    pub content: FileContent,
    pub uperm: UnixPermission,
    pub created: Timestamp,
    pub modified: Timestamp,
}

#[derive(Debug)]
pub struct RichFileNode {
    pub id: u128,
    pub content: FileContent,
    pub uperm: UnixPermission,
    /// Named pieces of content, no name twice.
    pub metadata: Vec<(String, FileContent)>,
    pub created: Timestamp,
    pub modified: Timestamp,
}

#[derive(Debug)]
pub enum MetadataValue {
    Text(String),
    List(Vec<MetadataValue>),
    /// Values without order, no value twice.
    ValueSet(Vec<MetadataValue>),
    /// Named values, no name twice.
    ValueMap(Vec<(String, MetadataValue)>),
    Binary(Vec<u8>),
    MagicValue(u128),
    Stream(u128),
    StreamSegment(u128, u64, u64),
}

#[derive(Debug)]
pub struct MetadataEntry {
    pub entry_name: String,
    pub content: MetadataValue,
    pub created: Timestamp,
    pub modified: Timestamp,
}

#[derive(Debug)]
pub enum OSAccount {
    PosixAccount(i32, String),
}

} // verus!
