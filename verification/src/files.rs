//! File nodes that are named by uuid, and the minting of their uuids.

use vstd::prelude::*;
use crate::content::Timestamp;

verus! {

/// `uuid::ContextV1`, the clock sequence of version 1 uuids.
#[verifier::external_type_specification]
#[verifier::external_body]
pub struct ExUuidContext(uuid::ContextV1);

/// A clock sequence that starts at `count`, by `uuid::ContextV1::new`.
#[verifier::external_body]
fn new_context(count: u16) -> uuid::ContextV1 {
    uuid::ContextV1::new(count)
}

/// The moment of a version 1 uuid: the count of 100-nanosecond steps since
/// 15 October 1582, as far as 64 bits hold it.
pub open spec fn spec_gregorian_ticks(secs: u64, nanos: u32) -> int {
    (0x01B2_1DD2_1381_4000 + secs * 10_000_000 + nanos / 100) % 0x1_0000_0000_0000_0000
}

/// The six bytes of a node identity as one number, first byte first.
pub open spec fn spec_node_number(node_id: [u8; 6]) -> int {
    node_id@[0] * 0x100_0000_0000 + node_id@[1] * 0x1_0000_0000 + node_id@[2] * 0x100_0000
        + node_id@[3] * 0x1_0000 + node_id@[4] * 0x100 + node_id@[5]
}

/// A version 1 uuid without its clock sequence: the low 32 bits of the
/// moment, its next 16 bits, the version with its top 12 bits, the variant,
/// and the node identity in the low 48 bits.
pub open spec fn spec_v1_frame(secs: u64, nanos: u32, node_id: [u8; 6]) -> int {
    let ticks = spec_gregorian_ticks(secs, nanos);
    (ticks % 0x1_0000_0000) * 0x1_0000_0000_0000_0000_0000_0000 + ((ticks / 0x1_0000_0000)
        % 0x1_0000) * 0x1_0000_0000_0000_0000_0000 + (0x1000 + (ticks / 0x1_0000_0000_0000)
        % 0x1000) * 0x1_0000_0000_0000_0000 + 0x8000_0000_0000_0000 + spec_node_number(node_id)
}

/// Whether `bits` are a version 1 uuid for a moment and a node: the frame
/// for them, with some clock sequence of 14 bits above the node identity.
pub open spec fn spec_is_v1(bits: u128, secs: u64, nanos: u32, node_id: [u8; 6]) -> bool {
    exists|sequence: int|
        0 <= sequence < 0x4000 && bits == spec_v1_frame(secs, nanos, node_id) + #[trigger] spec_shifted(
            sequence,
        )
}

/// A clock sequence at its place in a uuid, right above the node identity.
pub open spec fn spec_shifted(sequence: int) -> int {
    sequence * 0x1_0000_0000_0000
}

/// Whether `bits` are a random uuid: version 4 in bits 76 to 79 and the
/// variant `10` in bits 62 and 63.
pub open spec fn spec_is_v4(bits: u128) -> bool {
    (bits / 0x1000_0000_0000_0000_0000) % 16 == 4 && (bits / 0x4000_0000_0000_0000) % 4 == 2
}

/// Whether `bits` are what a mint for `node_id` gives for the moment `now`:
/// a version 1 uuid that carries the moment and the node, or a random one
/// for a moment before the epoch.
pub open spec fn spec_minted(bits: u128, now: Timestamp, node_id: [u8; 6]) -> bool {
    if now.secs >= 0 {
        spec_is_v1(bits, now.secs as u64, now.nanos, node_id)
    } else {
        spec_is_v4(bits)
    }
}

/// The bits of a version 1 uuid for a moment and a node, by
/// `uuid::Timestamp::from_unix` and `uuid::Uuid::new_v1`. The moment and the
/// node identity stand at their places in the uuid; the clock sequence
/// moves on with every call, so only its place is known.
#[verifier::external_body]
fn uuid_v1(context: &uuid::ContextV1, secs: u64, nanos: u32, node_id: &[u8; 6]) -> (bits: u128)
    ensures
        spec_is_v1(bits, secs, nanos, *node_id),
{
    uuid::Uuid::new_v1(uuid::Timestamp::from_unix(context, secs, nanos), node_id).as_u128()
}

/// The bits of a random uuid, by `uuid::Uuid::new_v4`, which sets the
/// version and the variant and leaves the rest to chance. Where the system
/// hands out no random bytes the call does not return; no argument decides
/// that.
#[verifier::external_body]
fn uuid_v4() -> (bits: u128)
    ensures
        spec_is_v4(bits),
{
    uuid::Uuid::new_v4().as_u128()
}

/// Mints uuids for one node of the network.
pub struct UuidMint {
    context: uuid::ContextV1,
    node_id: [u8; 6],
}

impl UuidMint {
    /// The identity of the node that the uuids of this mint carry.
    pub closed spec fn spec_node_id(&self) -> [u8; 6] {
        self.node_id
    }

    /// A mint for the node with this identity.
    pub fn new(node_id: [u8; 6]) -> (mint: UuidMint)
        ensures
            mint.spec_node_id() == node_id,
    {
        UuidMint { context: new_context(0), node_id }
    }

    /// A fresh uuid for the moment `now`: one that carries the moment and
    /// the node, or a random one for a moment before the epoch.
    pub fn new_uuid_at(&self, now: Timestamp) -> (bits: u128)
        ensures
            spec_minted(bits, now, self.spec_node_id()),
    {
        if now.secs >= 0 {
            uuid_v1(&self.context, now.secs as u64, now.nanos, &self.node_id)
        } else {
            uuid_v4()
        }
    }
}

/// A node of the tree of files.
#[derive(Debug)]
pub struct FileNode {
    pub uuid: u128,
    pub parent: u128,
    pub inode_num: Option<u64>,
    pub filename: String,
    pub superhidden: bool,
    pub contents: Vec<u8>,
    pub changed_at: Timestamp,
    pub created_at: Timestamp,
}

impl FileNode {
    pub fn uuid(&self) -> (bits: u128)
        ensures
            bits == self.uuid,
    {
        self.uuid
    }

    /// An empty node without name and inode, created at `now`.
    pub fn new_with_uuid(now: Timestamp, uuid: u128, parent: u128) -> (node: FileNode)
        ensures
            node.uuid == uuid,
            node.parent == parent,
            node.inode_num is None,
            node.filename@.len() == 0,
            !node.superhidden,
            node.contents@.len() == 0,
            node.changed_at == now,
            node.created_at == now,
    {
        FileNode {
            uuid,
            parent,
            inode_num: None,
            filename: String::new(),
            superhidden: false,
            contents: Vec::new(),
            changed_at: now,
            created_at: now,
        }
    }

    /// An empty node under `parent` with a fresh uuid.
    pub fn new(now: Timestamp, mint: &UuidMint, parent: u128) -> (node: FileNode)
        ensures
            spec_minted(node.uuid, now, mint.spec_node_id()),
            node.parent == parent,
            node.inode_num is None,
            node.filename@.len() == 0,
            !node.superhidden,
            node.contents@.len() == 0,
            node.changed_at == now,
            node.created_at == now,
    {
        FileNode::new_with_uuid(now, mint.new_uuid_at(now), parent)
    }

    /// An empty root with a fresh uuid: a node that is its own parent.
    pub fn new_root(now: Timestamp, mint: &UuidMint) -> (node: FileNode)
        ensures
            spec_minted(node.uuid, now, mint.spec_node_id()),
            node.parent == node.uuid,
            node.inode_num is None,
            node.filename@.len() == 0,
            !node.superhidden,
            node.contents@.len() == 0,
            node.changed_at == now,
            node.created_at == now,
    {
        let uuid = mint.new_uuid_at(now);
        FileNode::new_with_uuid(now, uuid, uuid)
    }
}

/// A file node as it is reached: the nodes on the way to it, the name under
/// which it was reached, and the node.
#[derive(Debug)]
pub struct FileHandle {
    pub path: Vec<u128>,
    pub name: String,
    pub node: FileNode,
}

} // verus!
