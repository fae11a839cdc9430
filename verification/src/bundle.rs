//! Bundles and their files: the objects that nodes of the tree stand for.

use vstd::prelude::*;
use crate::content::Timestamp;
use crate::object_type::ObjectType;

verus! {

/// Something that a node of the tree can stand for.
pub trait INodeRegisterable {
    /// The uuid under which the object is registered.
    spec fn spec_uuid(&self) -> u128;

    /// The object type under which the object is registered.
    spec fn spec_obj_type(&self) -> ObjectType;

    /// The name under which the object is registered.
    spec fn spec_name(&self) -> Seq<char>;

    fn get_uuid(&self) -> (bits: u128)
        ensures
            bits == self.spec_uuid(),
    ;

    fn get_obj_type(&self) -> (kind: ObjectType)
        ensures
            kind == self.spec_obj_type(),
    ;

    fn get_name(&self) -> (name: String)
        ensures
            name@ == self.spec_name(),
    ;
}

/// How far a bundle is from being in step with its peers.
#[derive(Debug, Clone, Copy, PartialEq, Eq, Structural)]
pub enum BundleSyncStatus {
    Unavailable,
    Downloading,
    Uploading,
    /// Downloading and uploading at once.
    Syncing,
    Ready,
}

#[derive(Debug)]
pub struct Bundle {
    pub bundle_uuid: u128,
    pub conflicts_from: Option<u128>,
    pub sync_status: BundleSyncStatus,
    pub name: String,
}

/// A bundle is registered as a bundle root, under its own uuid and without
/// a name.
impl INodeRegisterable for Bundle {
    open spec fn spec_uuid(&self) -> u128 {
        self.bundle_uuid
    }

    open spec fn spec_obj_type(&self) -> ObjectType {
        ObjectType::BundleRoot
    }

    open spec fn spec_name(&self) -> Seq<char> {
        Seq::empty()
    }

    fn get_uuid(&self) -> (bits: u128) {
        self.bundle_uuid
    }

    fn get_obj_type(&self) -> (kind: ObjectType) {
        ObjectType::BundleRoot
    }

    fn get_name(&self) -> (name: String) {
        String::new()
    }
}

#[derive(Debug, Clone, Copy, PartialEq, Eq, Structural)]
pub enum BundleFileKind {
    File,
    Dir,
    Link,
}

#[derive(Debug)]
pub struct BundleFile {
    pub file_uuid: u128,
    pub bundle_uuid: u128,
    pub modified: Timestamp,
    pub base_blob_uuid: Option<u128>,
    pub tree_hash: String,
    pub kind: BundleFileKind,
    pub unix_perm: i64,
    pub size: u64,
    pub path: String,
}

/// A file of a bundle is registered as a bundle element, under the uuid of
/// its bundle and with its path as its name.
impl INodeRegisterable for BundleFile {
    open spec fn spec_uuid(&self) -> u128 {
        self.bundle_uuid
    }

    open spec fn spec_obj_type(&self) -> ObjectType {
        ObjectType::BundleElement
    }

    open spec fn spec_name(&self) -> Seq<char> {
        self.path@
    }

    fn get_uuid(&self) -> (bits: u128) {
        self.bundle_uuid
    }

    fn get_obj_type(&self) -> (kind: ObjectType) {
        ObjectType::BundleElement
    }

    fn get_name(&self) -> (name: String) {
        self.path.clone()
    }
}

} // verus!
