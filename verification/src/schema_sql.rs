//! The text of the statements that lay out the store.

use vstd::prelude::*;

verus! {

/// The table of settings, one row for each key.
pub const CREATE_APP_CONFIG_SQL: &'static str =
    "CREATE TABLE IF NOT EXISTS `app_config` (`key` TEXT PRIMARY KEY, `value_txt` TEXT, `value_num` INTEGER);";

pub const CREATE_BUNDLES_SQL: &'static str =
    "CREATE TABLE IF NOT EXISTS `bundles` (`bundle_uuid` CHAR(36), `conflicts_from` CHAR(36), `sync_status` INT, `name` VARCHAR(250));";

pub const INDEX_BUNDLES_SYNC_STATUS_SQL: &'static str =
    "CREATE INDEX IF NOT EXISTS `bundles_sync_status_idx` ON `bundles` (`sync_status`);";

pub const CREATE_FILES_SQL: &'static str =
    "CREATE TABLE IF NOT EXISTS `files` (`file_uuid` CHAR(36), `bundle_uuid` CHAR(36), `base_blob_uuid` CHAR(36), `tree_hash` VARCHAR(200), `kind` CHAR(1), `unix_perm` INTEGER, `size` INTEGER, `path` VARCHAR(250));";

pub const INDEX_FILES_BUNDLE_UUID_SQL: &'static str =
    "CREATE INDEX IF NOT EXISTS `files_bundle_uuid_idx` ON `files` (`bundle_uuid`);";

pub const CREATE_BLOBS_SQL: &'static str =
    "CREATE TABLE IF NOT EXISTS `blobs` (`blob_uuid` CHAR(36), `size` INTEGER, `status` INTEGER);";

pub const INDEX_BLOBS_BLOB_UUID_SQL: &'static str =
    "CREATE INDEX IF NOT EXISTS `blobs_blob_uuid_idx` ON `blobs` (`blob_uuid`);";

pub const INDEX_BLOBS_STATUS_SQL: &'static str =
    "CREATE INDEX IF NOT EXISTS `blobs_status_idx` ON `blobs` (`status`);";

pub const CREATE_BLOCKS_SQL: &'static str =
    "CREATE TABLE IF NOT EXISTS `blocks` (`blob_uuid` CHAR(36), `file_uuid` CHAR(36), `block_num` INTEGER);";

pub const INDEX_BLOCKS_FILE_UUID_SQL: &'static str =
    "CREATE INDEX IF NOT EXISTS `blocks_file_uuid_idx` ON `blocks` (`file_uuid`);";

pub const INDEX_BLOCKS_BLOB_UUID_SQL: &'static str =
    "CREATE INDEX IF NOT EXISTS `blocks_blob_uuid_idx` ON `blocks` (`blob_uuid`);";

pub const CREATE_BASIC_METADATA_SQL: &'static str =
    "CREATE TABLE IF NOT EXISTS `basic_metadata` (`subject_uuid` CHAR(36), `predicate` VARCHAR(250), `value` TEXT);";

pub const INDEX_BASIC_METADATA_SUBJECT_SQL: &'static str =
    "CREATE INDEX IF NOT EXISTS `basic_metadata_subject_uuid_idx` ON `basic_metadata` (`subject_uuid`);";

pub const INDEX_BASIC_METADATA_PREDICATE_SQL: &'static str =
    "CREATE INDEX IF NOT EXISTS `basic_metadata_predicate_idx` ON `basic_metadata` (`predicate`);";

/// The metadata of every inode. The inode is the key; there is no other row
/// identity.
pub const CREATE_NODE_META_SQL: &'static str =
    "CREATE TABLE IF NOT EXISTS `node_meta` (`inode` INTEGER PRIMARY KEY ASC, `main_parent` INTEGER NOT NULL, `obj_uuid` CHAR(36), `obj_type` VARCHAR(20), `file_type` VARCHAR(1), `mtime` INTEGER DEFAULT (strftime('%s','now')) NOT NULL, `ctime` INTEGER DEFAULT (strftime('%s','now')) NOT NULL, `crtime` INTEGER DEFAULT (strftime('%s','now')) NOT NULL) WITHOUT ROWID;";

pub const INDEX_NODE_META_INODE_SQL: &'static str =
    "CREATE INDEX IF NOT EXISTS `node_meta_inode_idx` ON `node_meta` (`inode`);";

pub const INDEX_NODE_META_OBJ_UUID_SQL: &'static str =
    "CREATE INDEX IF NOT EXISTS `node_meta_obj_uuid_idx` ON `node_meta` (`obj_uuid`);";

/// The names of every inode.
pub const CREATE_NODE_NAME_SQL: &'static str =
    "CREATE TABLE IF NOT EXISTS `node_name` (`inode` INTEGER NOT NULL, `parent` INTEGER, `hidden` BOOLEAN DEFAULT 0 NOT NULL, `name` VARCHAR(250) NOT NULL)";

pub const INDEX_NODE_NAME_INODE_SQL: &'static str =
    "CREATE INDEX IF NOT EXISTS `node_names_inode_idx` ON `node_name` (`inode`);";

pub const INDEX_NODE_NAME_PARENT_SQL: &'static str =
    "CREATE INDEX IF NOT EXISTS `node_names_parent_idx` ON `node_name` (`parent`);";

/// No two names share inode, parent and text.
pub const INDEX_NODE_NAME_UNIQUE_SQL: &'static str =
    "CREATE UNIQUE INDEX IF NOT EXISTS `node_names_uniq_idx` ON `node_name` (`inode`, `parent`, `name`);";

/// One row for each name of each inode; an inode without names has one row
/// whose name and parent are null.
pub const CREATE_NODE_VIEW_SQL: &'static str =
    "CREATE VIEW IF NOT EXISTS `node_view` AS SELECT `node_meta`.`inode` AS `inode`, `node_meta`.`main_parent` AS `main_parent`, `node_meta`.`obj_uuid` AS `obj_uuid`, `node_meta`.`obj_type` AS `obj_type`, `node_meta`.`file_type` AS `file_type`, `node_meta`.`mtime` AS `mtime`, `node_meta`.`ctime` AS `ctime`, `node_meta`.`crtime` AS `crtime`, `node_name`.`parent` AS `parent`, `node_name`.`hidden` AS `hidden`, `node_name`.`name` AS `name` FROM `node_meta` LEFT JOIN `node_name` ON (`node_meta`.`inode` = `node_name`.`inode`)";

/// One row for each inode, with the count of its names.
pub const CREATE_NODE_VIEW_NLINK_SQL: &'static str =
    "CREATE VIEW IF NOT EXISTS `node_view_nlink` AS SELECT `node_meta`.`inode` AS `inode`, `node_meta`.`main_parent` AS `main_parent`, COUNT(`node_name`.`name`) AS `nlink`, `node_meta`.`obj_uuid` AS `obj_uuid`, `node_meta`.`obj_type` AS `obj_type`, `node_meta`.`file_type` AS `file_type`, `node_meta`.`mtime` AS `mtime`, `node_meta`.`ctime` AS `ctime`, `node_meta`.`crtime` AS `crtime`, `node_name`.`parent` AS `parent`, `node_name`.`hidden` AS `hidden` FROM `node_meta` LEFT JOIN `node_name` ON (`node_meta`.`inode` = `node_name`.`inode`) GROUP BY `node_meta`.`inode`";

/// Records the version that the schema has reached.
pub const SET_SCHEMA_VERSION_SQL: &'static str =
    "INSERT INTO `app_config` (`key`, `value_num`) VALUES ('schema_version', ?);";

/// Reads the version that the schema has reached.
pub const GET_SCHEMA_VERSION_SQL: &'static str =
    "SELECT `value_num` FROM `app_config` WHERE `key` = 'schema_version'";

/// Counts the rows of the reserved range that are not marked as reserved.
/// Inodes are compared as the unsigned numbers that they stand for.
pub const COUNT_RESERVED_VIOLATIONS_SQL: &'static str =
    "SELECT COUNT() FROM `node_meta` WHERE `inode` >= 0 AND `inode` < ? AND `obj_type` != 'R'";

/// Puts the placeholder of one reserved inode in place: a row that is not
/// there is inserted, a row that is there is reset to a placeholder. The
/// three times of a row that is there are kept, so a run on a store that is
/// in shape changes nothing.
pub const RESERVE_INODE_SQL: &'static str =
    "INSERT INTO `node_meta` (`inode`, `main_parent`, `obj_uuid`, `obj_type`) VALUES (?, 1, '00000000-0000-0000-0000-000000000000', 'R') ON CONFLICT(`inode`) DO UPDATE SET `main_parent` = 1, `obj_uuid` = '00000000-0000-0000-0000-000000000000', `obj_type` = 'R', `file_type` = NULL";

/// Sets the file type of one inode.
pub const SET_FILE_TYPE_SQL: &'static str = "UPDATE `node_meta` SET `file_type` = ? WHERE `inode` = ?";

/// Reads the largest persisted inode twice: over all rows, and over the rows
/// whose signed form is negative. The latter stand for the largest unsigned
/// numbers.
pub const HIGHEST_INODE_SQL: &'static str =
    "SELECT MAX(`inode`), MAX(CASE WHEN `inode` < 0 THEN `inode` END) FROM `node_meta`";

/// The statements that bring an empty store to version one, in the order in
/// which they run: each table or view, followed by its indexes.
pub open spec fn spec_schema_v1() -> Seq<&'static str> {
    seq![
        CREATE_BUNDLES_SQL,
        INDEX_BUNDLES_SYNC_STATUS_SQL,
        CREATE_FILES_SQL,
        INDEX_FILES_BUNDLE_UUID_SQL,
        CREATE_BLOBS_SQL,
        INDEX_BLOBS_BLOB_UUID_SQL,
        INDEX_BLOBS_STATUS_SQL,
        CREATE_BLOCKS_SQL,
        INDEX_BLOCKS_FILE_UUID_SQL,
        INDEX_BLOCKS_BLOB_UUID_SQL,
        CREATE_BASIC_METADATA_SQL,
        INDEX_BASIC_METADATA_SUBJECT_SQL,
        INDEX_BASIC_METADATA_PREDICATE_SQL,
        CREATE_NODE_META_SQL,
        INDEX_NODE_META_INODE_SQL,
        INDEX_NODE_META_OBJ_UUID_SQL,
        CREATE_NODE_NAME_SQL,
        INDEX_NODE_NAME_INODE_SQL,
        INDEX_NODE_NAME_PARENT_SQL,
        INDEX_NODE_NAME_UNIQUE_SQL,
        CREATE_NODE_VIEW_SQL,
        CREATE_NODE_VIEW_NLINK_SQL,
    ]
}

/// The statements that bring an empty store to version one.
pub fn schema_v1_statements() -> (list: Vec<&'static str>)
    ensures
        list@ == spec_schema_v1(),
{
    let mut list: Vec<&'static str> = Vec::new();
    list.push(CREATE_BUNDLES_SQL);
    list.push(INDEX_BUNDLES_SYNC_STATUS_SQL);
    list.push(CREATE_FILES_SQL);
    list.push(INDEX_FILES_BUNDLE_UUID_SQL);
    list.push(CREATE_BLOBS_SQL);
    list.push(INDEX_BLOBS_BLOB_UUID_SQL);
    list.push(INDEX_BLOBS_STATUS_SQL);
    list.push(CREATE_BLOCKS_SQL);
    list.push(INDEX_BLOCKS_FILE_UUID_SQL);
    list.push(INDEX_BLOCKS_BLOB_UUID_SQL);
    list.push(CREATE_BASIC_METADATA_SQL);
    list.push(INDEX_BASIC_METADATA_SUBJECT_SQL);
    list.push(INDEX_BASIC_METADATA_PREDICATE_SQL);
    list.push(CREATE_NODE_META_SQL);
    list.push(INDEX_NODE_META_INODE_SQL);
    list.push(INDEX_NODE_META_OBJ_UUID_SQL);
    list.push(CREATE_NODE_NAME_SQL);
    list.push(INDEX_NODE_NAME_INODE_SQL);
    list.push(INDEX_NODE_NAME_PARENT_SQL);
    list.push(INDEX_NODE_NAME_UNIQUE_SQL);
    list.push(CREATE_NODE_VIEW_SQL);
    list.push(CREATE_NODE_VIEW_NLINK_SQL);
    assert(list@ =~= spec_schema_v1());
    list
}

} // verus!
