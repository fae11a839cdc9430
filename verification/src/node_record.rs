//! Metadata: what an inode is, apart from what it is called.

use vstd::prelude::*;
use rusqlite::Connection;
use crate::allocator::InodeAllocator;
use crate::allocator::INODE_NULL;
use crate::allocator::INODE_ROOT;
use crate::bits::i64_to_u64;
use crate::bits::spec_i64_to_u64;
use crate::bits::spec_u64_to_i64;
use crate::bits::u64_to_i64;
use crate::clock::now_unix;
use crate::clock::sql2time;
use crate::clock::spec_sql2time;
use crate::errors::DVError;
use crate::errors::DVResult;
use crate::file_type::file_type2string;
use crate::file_type::parse_file_type;
use crate::file_type::spec_file_type_code;
use crate::file_type::spec_file_type_of;
use crate::file_type::FileType;
use crate::ids::parse_uuid;
use crate::ids::spec_uuid_hyphenated;
use crate::ids::uuid_text_value;
use crate::ids::uuid_to_string;
use crate::errors::written;
use crate::node_name::spec_first_good;
use crate::node_name::NodeName;
use crate::node_name::NodeNameIter;
use crate::object_type::spec_object_type_code;
use crate::object_type::spec_object_type_of;
use crate::object_type::ObjectType;
use crate::sql::cell_i64;
use crate::sql::cell_text;
use crate::sql::cell_u32;
use crate::sql::execute;
use crate::sql::query;
use crate::sql::spec_cell_i64;
use crate::sql::spec_cell_text;
use crate::sql::spec_cell_u32;
use crate::sql::spec_clause;
use crate::sql::Cell;
use crate::sql::SqlFailure;
use crate::sql::SqlStatement;
use crate::sql::SqlValue;
use crate::sql::StatementView;

verus! {

/// The link count that a directory has at least; the root always reports it.
pub const MIN_HARD_LINKS_DIR: u32 = 2;

/// The permission bits of every node.
pub const DEFAULT_DIR_PERM: u16 = 0o755;

/// The permission bits meant for plain files.
pub const DEFAULT_FILE_PERM: u16 = 0o644;

/// The owner of every node.
pub const DEFAULT_UID: u32 = 0;

/// The group of every node.
pub const DEFAULT_GID: u32 = 0;

/// The size of a block, in bytes.
pub const BLOCK_SIZE: u64 = 4096;

pub const DEFAULT_RDEV: u32 = 0;

pub const DEFAULT_NODE_FLAGS: u32 = 0;

/// Reads the metadata of one inode together with the count of its names.
pub const GET_RECORD_SQL: &'static str =
    "SELECT `inode`, `nlink`, `main_parent`, `obj_uuid`, `obj_type`, `file_type`, `mtime`, `ctime`, `crtime` FROM `node_view_nlink` WHERE `inode` = ?";

/// Removes the metadata of one inode.
pub const DELETE_RECORD_SQL: &'static str = "DELETE FROM `node_meta` WHERE `inode` = ?";

/// Sets the time of the last change of content.
pub const UPDATE_MTIME_SQL: &'static str = "UPDATE `node_meta` SET `mtime` = ? WHERE `inode` = ?";

/// Sets the time of the last change of attributes.
pub const UPDATE_CTIME_SQL: &'static str = "UPDATE `node_meta` SET `ctime` = ? WHERE `inode` = ?";

/// Reads metadata by name: one row for each name of each inode, with the
/// count of all names of that inode.
pub const SEARCH_SQL: &'static str =
    "SELECT `node_view`.`inode`, `node_view_nlink`.`nlink`, `node_view`.`main_parent`, `node_view`.`obj_uuid`, `node_view`.`obj_type`, `node_view`.`file_type`, `node_view`.`mtime`, `node_view`.`ctime`, `node_view`.`crtime` FROM `node_view` JOIN `node_view_nlink` ON `node_view`.`inode` = `node_view_nlink`.`inode` WHERE 1 = 1";

pub const BY_PARENT_SQL: &'static str = " AND `node_view`.`parent` = ?";

pub const BY_NAME_SQL: &'static str = " AND `node_view`.`name` = ?";

/// Keeps out the rows of inodes that have no name.
pub const ANY_NAME_SQL: &'static str = " AND `node_view`.`name` IS NOT NULL";

pub const BY_OBJ_TYPE_SQL: &'static str = " AND `node_view`.`obj_type` = ?";

pub const BY_OBJ_UUID_SQL: &'static str = " AND `node_view`.`obj_uuid` = ?";

pub const BY_FILE_TYPE_SQL: &'static str = " AND `node_view`.`file_type` = ?";

/// Fixes the order of the rows, so that pages do not overlap.
pub const BY_INODE_ORDER_SQL: &'static str = " ORDER BY `node_view`.`inode` ASC";

pub const LIMIT_SQL: &'static str = " LIMIT ?";

pub const OFFSET_SQL: &'static str = " OFFSET ?";

/// Persists the metadata of an inode that the store does not hold yet.
pub const INSERT_RECORD_SQL: &'static str =
    "INSERT INTO `node_meta` (`inode`, `main_parent`, `obj_uuid`, `obj_type`, `file_type`, `mtime`, `ctime`, `crtime`) VALUES (?, ?, ?, ?, ?, ?, ?, ?)";

/// Persists the metadata of an inode in place of what the store holds of it.
pub const REPLACE_RECORD_SQL: &'static str =
    "REPLACE INTO `node_meta` (`inode`, `main_parent`, `obj_uuid`, `obj_type`, `file_type`, `mtime`, `ctime`, `crtime`) VALUES (?, ?, ?, ?, ?, ?, ?, ?)";

/// The metadata of one inode, with the number of its names.
#[derive(Debug, Clone)]
pub struct NodeRecord {
    /// The identity of the node; [`INODE_NULL`] until the store knows it.
    pub inode: u64,
    /// How many names the node has. The root always reports two.
    pub nlink: u32,
    /// The parent that `..` leads to, whatever names the node has.
    pub main_parent: u64,
    /// The bits of the uuid of the object behind the node.
    pub obj_uuid: u128,
    pub obj_type: ObjectType,
    pub file_type: FileType,
    /// Last change of content, in seconds since the epoch.
    pub mtime: u64,
    /// Last change of attributes, in seconds since the epoch.
    pub ctime: u64,
    /// Creation, in seconds since the epoch.
    pub crtime: u64,
    pub names: Option<Vec<NodeName>>,
}

/// The attributes of a node as the kernel is told them. Times are seconds
/// since the epoch.
#[derive(Debug, Clone, Copy, PartialEq, Eq, Structural)]
pub struct FileAttr {
    pub ino: u64,
    pub size: u64,
    pub blocks: u64,
    pub atime: u64,
    pub mtime: u64,
    pub ctime: u64,
    pub crtime: u64,
    pub kind: FileType,
    pub perm: u16,
    pub nlink: u32,
    pub uid: u32,
    pub gid: u32,
    pub rdev: u32,
    pub blksize: u32,
    pub flags: u32,
}

/// The link count that is reported for an inode whose names were counted.
pub open spec fn spec_reported_nlink(inode: u64, counted: u32) -> u32 {
    if inode == INODE_ROOT {
        MIN_HARD_LINKS_DIR
    } else {
        counted
    }
}

/// The attributes of a record whose content has `size` bytes.
pub open spec fn spec_file_attr(record: NodeRecord, size: u64) -> FileAttr {
    FileAttr {
        ino: record.inode,
        size,
        blocks: size / BLOCK_SIZE,
        atime: record.mtime,
        mtime: record.mtime,
        ctime: record.ctime,
        crtime: record.crtime,
        kind: record.file_type,
        perm: DEFAULT_DIR_PERM,
        nlink: record.nlink,
        uid: DEFAULT_UID,
        gid: DEFAULT_GID,
        rdev: DEFAULT_RDEV,
        blksize: BLOCK_SIZE as u32,
        flags: DEFAULT_NODE_FLAGS,
    }
}

/// The statement that reads the metadata of `inode`.
pub open spec fn spec_get_record(inode: u64) -> StatementView {
    StatementView { sql: GET_RECORD_SQL@, params: seq![Cell::Integer(spec_u64_to_i64(inode))] }
}

/// The statement that removes the metadata of `inode`.
pub open spec fn spec_delete_record(inode: u64) -> StatementView {
    StatementView { sql: DELETE_RECORD_SQL@, params: seq![Cell::Integer(spec_u64_to_i64(inode))] }
}

/// The statement that sets one time of `inode` to `now`.
pub open spec fn spec_touch(sql: Seq<char>, inode: u64, now: u64) -> StatementView {
    StatementView {
        sql,
        params: seq![
            Cell::Integer(spec_u64_to_i64(now)),
            Cell::Integer(spec_u64_to_i64(inode)),
        ],
    }
}

/// The statement that persists a record: an insert for a record that is new
/// to the store, a replacement otherwise.
pub open spec fn spec_save_record(record: NodeRecord, fresh: bool) -> StatementView {
    StatementView {
        sql: if fresh {
            INSERT_RECORD_SQL@
        } else {
            REPLACE_RECORD_SQL@
        },
        params: seq![
            Cell::Integer(spec_u64_to_i64(record.inode)),
            Cell::Integer(spec_u64_to_i64(record.main_parent)),
            Cell::Text(spec_uuid_hyphenated(record.obj_uuid)),
            Cell::Text(spec_object_type_code(record.obj_type)),
            Cell::Text(spec_file_type_code(record.file_type)),
            Cell::Integer(spec_u64_to_i64(record.mtime)),
            Cell::Integer(spec_u64_to_i64(record.ctime)),
            Cell::Integer(spec_u64_to_i64(record.crtime)),
        ],
    }
}

/// The statement of a search. Every condition that is given narrows the
/// search. Without a name, only inodes that have a name are found. With an
/// offset the rows are ordered by inode. A limit applies only where it is
/// given, and an offset only together with a limit.
pub open spec fn spec_search(
    parent: Option<u64>,
    name: Option<Seq<char>>,
    obj_type: Option<ObjectType>,
    obj_uuid: Option<u128>,
    file_type: Option<FileType>,
    limit: Option<u64>,
    offset: Option<i64>,
) -> StatementView {
    let s0 = StatementView { sql: SEARCH_SQL@, params: Seq::empty() };
    let s1 = match parent {
        Some(p) => spec_clause(s0, BY_PARENT_SQL@, Some(Cell::Integer(spec_u64_to_i64(p)))),
        None => s0,
    };
    let s2 = match name {
        Some(n) => spec_clause(s1, BY_NAME_SQL@, Some(Cell::Text(n))),
        None => spec_clause(s1, ANY_NAME_SQL@, None),
    };
    let s3 = match obj_type {
        Some(t) => spec_clause(s2, BY_OBJ_TYPE_SQL@, Some(Cell::Text(spec_object_type_code(t)))),
        None => s2,
    };
    let s4 = match obj_uuid {
        Some(u) => spec_clause(s3, BY_OBJ_UUID_SQL@, Some(Cell::Text(spec_uuid_hyphenated(u)))),
        None => s3,
    };
    let s5 = match file_type {
        Some(t) => spec_clause(s4, BY_FILE_TYPE_SQL@, Some(Cell::Text(spec_file_type_code(t)))),
        None => s4,
    };
    let s6 = if offset is Some {
        spec_clause(s5, BY_INODE_ORDER_SQL@, None)
    } else {
        s5
    };
    let s7 = match limit {
        Some(l) => spec_clause(s6, LIMIT_SQL@, Some(Cell::Integer(spec_u64_to_i64(l)))),
        None => s6,
    };
    match (limit, offset) {
        (Some(_), Some(o)) => spec_clause(s7, OFFSET_SQL@, Some(Cell::Integer(o))),
        _ => s7,
    }
}

/// What reading a row of metadata gives.
pub open spec fn spec_record_from_row(row: Seq<SqlValue>) -> DVResult<NodeRecord> {
    spec_record_of_row(row, spec_row_uuid(row))
}

/// The records of the rows that can be read, in the order of the rows.
pub open spec fn spec_good_records(rows: Seq<Vec<SqlValue>>) -> Seq<NodeRecord>
    decreases rows.len(),
{
    if rows.len() == 0 {
        Seq::empty()
    } else {
        match spec_record_from_row(rows.last()@) {
            Ok(record) => spec_good_records(rows.drop_last()).push(record),
            Err(_) => spec_good_records(rows.drop_last()),
        }
    }
}

/// The error of the last row that cannot be read, if there is such a row.
pub open spec fn spec_last_error(rows: Seq<Vec<SqlValue>>) -> Option<DVError>
    decreases rows.len(),
{
    if rows.len() == 0 {
        None
    } else {
        match spec_record_from_row(rows.last()@) {
            Ok(_) => spec_last_error(rows.drop_last()),
            Err(err) => Some(err),
        }
    }
}

/// What a search makes of the answer of the store: the records of the rows
/// that can be read. Where none can be read although rows were asked for,
/// the error of the last row is the result.
pub open spec fn spec_search_outcome(
    limit: Option<u64>,
    fetched: Result<Vec<Vec<SqlValue>>, SqlFailure>,
    res: DVResult<Vec<NodeRecord>>,
) -> bool {
    match fetched {
        Err(failure) => res matches Err(err) && err == DVError::SQLError(failure),
        Ok(rows) => if spec_good_records(rows@).len() == 0 && limit != Some(0u64)
            && spec_last_error(rows@) is Some {
            res matches Err(err) && err == spec_last_error(rows@)->Some_0
        } else {
            res matches Ok(records) && records@ == spec_good_records(rows@)
        },
    }
}

/// What [`NodeRecord::find_one`] makes of what a search found: the first
/// record, `NotFound` where there is none.
pub open spec fn spec_find_one_outcome(
    found: DVResult<Vec<NodeRecord>>,
    res: DVResult<NodeRecord>,
) -> bool {
    match found {
        Err(err) => res matches Err(e) && e == err,
        Ok(records) => if records.len() == 0 {
            res matches Err(e) && e == DVError::SQLError(SqlFailure::NotFound)
        } else {
            res matches Ok(record) && record == records[0]
        },
    }
}

/// What a lookup by inode makes of the answer of the store: the first row
/// read as a record, `NotFound` where there is no row.
pub open spec fn spec_get_outcome(fetched: Result<Vec<Vec<SqlValue>>, SqlFailure>) -> DVResult<
    NodeRecord,
> {
    match fetched {
        Err(failure) => Err(DVError::SQLError(failure)),
        Ok(rows) => if rows.len() == 0 {
            Err(DVError::SQLError(SqlFailure::NotFound))
        } else {
            spec_record_of_row(rows[0]@, spec_row_uuid(rows[0]@))
        },
    }
}

/// What a change of one row reports: `NotFound` where no row was changed.
pub open spec fn spec_touched(outcome: Result<usize, SqlFailure>) -> DVResult<()> {
    match outcome {
        Err(failure) => Err(DVError::SQLError(failure)),
        Ok(changed) => if changed == 0 {
            Err(DVError::SQLError(SqlFailure::NotFound))
        } else {
            Ok(())
        },
    }
}

/// Whether an operation failed because the clock could not be read.
pub open spec fn spec_clock_failed(res: DVResult<()>) -> bool {
    match res {
        Err(DVError::SystemTimeError(_)) => true,
        _ => false,
    }
}

/// The record as it stands after it was saved at `now` under `inode`: a
/// record that was new to the store has all three times set, any other only
/// the time of its last change of attributes.
pub open spec fn spec_saved(record: NodeRecord, now: u64, inode: u64) -> NodeRecord {
    if record.inode == INODE_NULL {
        NodeRecord { inode, mtime: now, ctime: now, crtime: now, ..record }
    } else {
        NodeRecord { ctime: now, ..record }
    }
}

/// How [`NodeRecord::save_at`] relates what it finds to what it leaves.
pub open spec fn spec_save_relation(
    before: NodeRecord,
    alloc_before: InodeAllocator,
    now: u64,
    res: DVResult<()>,
    after: NodeRecord,
    alloc_after: InodeAllocator,
) -> bool {
    if before.inode == INODE_NULL && alloc_before.upcoming() is None {
        &&& res == Err::<(), DVError>(DVError::InodesExhausted)
        &&& after == before
        &&& alloc_after.upcoming() is None
    } else {
        &&& alloc_after == if before.inode == INODE_NULL {
            alloc_before.advanced()
        } else {
            alloc_before
        }
        &&& match res {
            Ok(_) => after == spec_saved(
                before,
                now,
                if before.inode == INODE_NULL {
                    alloc_before.upcoming()->Some_0
                } else {
                    before.inode
                },
            ) && after.inode != INODE_NULL && (before.inode == INODE_NULL ==> after.inode
                >= crate::allocator::INODE_MIN),
            Err(err) => after == before && (err matches DVError::SQLError(failure) && failure
                is Other),
        }
    }
}

/// How a change of one time relates what it finds to what it leaves: a
/// record without inode is refused, and the record changes only on success.
pub open spec fn spec_touch_relation(
    before: NodeRecord,
    res: DVResult<()>,
    after: NodeRecord,
    changed: NodeRecord,
) -> bool {
    if before.inode == INODE_NULL {
        res == Err::<(), DVError>(DVError::NodeNoNum) && after == before
    } else {
        match res {
            Ok(_) => after == changed,
            Err(err) => after == before && err is SQLError,
        }
    }
}

/// How a change of the content time relates what it finds to what it leaves.
pub open spec fn spec_mtime_relation(
    before: NodeRecord,
    now: u64,
    res: DVResult<()>,
    after: NodeRecord,
) -> bool {
    spec_touch_relation(before, res, after, (NodeRecord { mtime: now, ..before }))
}

/// How a change of the attribute time relates what it finds to what it
/// leaves.
pub open spec fn spec_ctime_relation(
    before: NodeRecord,
    now: u64,
    res: DVResult<()>,
    after: NodeRecord,
) -> bool {
    spec_touch_relation(before, res, after, (NodeRecord { ctime: now, ..before }))
}

/// The three times of a row, read from columns 6, 7 and 8.
pub open spec fn spec_times_of_row(row: Seq<SqlValue>) -> DVResult<(u64, u64, u64)> {
    match spec_cell_i64(row, 6) {
        Err(failure) => Err(DVError::SQLError(failure)),
        Ok(m) => match spec_sql2time(m) {
            Err(err) => Err(err),
            Ok(mtime) => match spec_cell_i64(row, 7) {
                Err(failure) => Err(DVError::SQLError(failure)),
                Ok(c) => match spec_sql2time(c) {
                    Err(err) => Err(err),
                    Ok(ctime) => match spec_cell_i64(row, 8) {
                        Err(failure) => Err(DVError::SQLError(failure)),
                        Ok(cr) => match spec_sql2time(cr) {
                            Err(err) => Err(err),
                            Ok(crtime) => Ok((mtime, ctime, crtime)),
                        },
                    },
                },
            },
        },
    }
}

/// The two type codes of a row, read from columns 4 and 5.
pub open spec fn spec_types_of_row(row: Seq<SqlValue>) -> DVResult<(ObjectType, FileType)> {
    match spec_cell_text(row, 4) {
        Err(failure) => Err(DVError::SQLError(failure)),
        Ok(object_code) => match spec_object_type_of(object_code@) {
            None => Err(DVError::ObjectTypeParseError(object_code)),
            Some(obj_type) => match spec_cell_text(row, 5) {
                Err(failure) => Err(DVError::SQLError(failure)),
                Ok(file_code) => match spec_file_type_of(file_code@) {
                    None => Err(DVError::FuseTypeParseError(file_code)),
                    Some(file_type) => Ok((obj_type, file_type)),
                },
            },
        },
    }
}

/// What reading a row of metadata gives, where `parsed` is what the uuid
/// text of column 3 was read as. The columns are inode, counted names, main
/// parent, uuid, object type code, file type code and the three times. The
/// error is that of the first column that cannot be read.
pub open spec fn spec_record_of_row(row: Seq<SqlValue>, parsed: Option<u128>) -> DVResult<
    NodeRecord,
> {
    match spec_cell_i64(row, 0) {
        Err(failure) => Err(DVError::SQLError(failure)),
        Ok(inode) => match spec_cell_u32(row, 1) {
            Err(failure) => Err(DVError::SQLError(failure)),
            Ok(counted) => match spec_cell_i64(row, 2) {
                Err(failure) => Err(DVError::SQLError(failure)),
                Ok(main_parent) => match spec_cell_text(row, 3) {
                    Err(failure) => Err(DVError::SQLError(failure)),
                    Ok(uuid_text) => match parsed {
                        None => Err(DVError::UuidParseError(uuid_text)),
                        Some(obj_uuid) => match spec_types_of_row(row) {
                            Err(err) => Err(err),
                            Ok(types) => match spec_times_of_row(row) {
                                Err(err) => Err(err),
                                Ok(times) => Ok(
                                    NodeRecord {
                                        inode: spec_i64_to_u64(inode),
                                        nlink: spec_reported_nlink(
                                            spec_i64_to_u64(inode),
                                            counted,
                                        ),
                                        main_parent: spec_i64_to_u64(main_parent),
                                        obj_uuid,
                                        obj_type: types.0,
                                        file_type: types.1,
                                        mtime: times.0,
                                        ctime: times.1,
                                        crtime: times.2,
                                        names: None,
                                    },
                                ),
                            },
                        },
                    },
                },
            },
        },
    }
}

/// What the uuid text of a row is read as: nothing where column 3 holds no
/// text.
pub open spec fn spec_row_uuid(row: Seq<SqlValue>) -> Option<u128> {
    match spec_cell_text(row, 3) {
        Ok(text) => uuid_text_value(text@),
        Err(_) => None,
    }
}

/// Reads the two type codes of a row.
fn types_of_row(row: &Vec<SqlValue>) -> (res: DVResult<(ObjectType, FileType)>)
    ensures
        res == spec_types_of_row(row@),
{
    let object_code = match cell_text(row, 4) {
        Ok(v) => v,
        Err(failure) => { return Err(DVError::SQLError(failure)); },
    };
    let obj_type = match ObjectType::from_code(object_code.as_str()) {
        Ok(v) => v,
        Err(_) => { return Err(DVError::ObjectTypeParseError(object_code)); },
    };
    let file_code = match cell_text(row, 5) {
        Ok(v) => v,
        Err(failure) => { return Err(DVError::SQLError(failure)); },
    };
    match parse_file_type(file_code.as_str()) {
        Some(file_type) => Ok((obj_type, file_type)),
        None => Err(DVError::FuseTypeParseError(file_code)),
    }
}

/// Reads one persisted time from column `idx`.
fn time_of_row(row: &Vec<SqlValue>, idx: usize) -> (res: DVResult<u64>)
    ensures
        res == match spec_cell_i64(row@, idx) {
            Err(failure) => Err(DVError::SQLError(failure)),
            Ok(t) => spec_sql2time(t),
        },
{
    match cell_i64(row, idx) {
        Ok(t) => sql2time(t),
        Err(failure) => Err(DVError::SQLError(failure)),
    }
}

/// Reads the three times of a row.
fn times_of_row(row: &Vec<SqlValue>) -> (res: DVResult<(u64, u64, u64)>)
    ensures
        res == spec_times_of_row(row@),
{
    let mtime = match time_of_row(row, 6) {
        Ok(v) => v,
        Err(err) => { return Err(err); },
    };
    let ctime = match time_of_row(row, 7) {
        Ok(v) => v,
        Err(err) => { return Err(err); },
    };
    let crtime = match time_of_row(row, 8) {
        Ok(v) => v,
        Err(err) => { return Err(err); },
    };
    Ok((mtime, ctime, crtime))
}

impl NodeRecord {
    /// A record with the given times and without names.
    pub fn new(
        inode: u64,
        nlink: u32,
        main_parent: u64,
        obj_uuid: u128,
        obj_type: ObjectType,
        file_type: FileType,
        mtime: u64,
        ctime: u64,
        crtime: u64,
    ) -> (res: NodeRecord)
        ensures
            res == (NodeRecord {
                inode,
                nlink,
                main_parent,
                obj_uuid,
                obj_type,
                file_type,
                mtime,
                ctime,
                crtime,
                names: None,
            }),
    {
        NodeRecord {
            inode,
            nlink,
            main_parent,
            obj_uuid,
            obj_type,
            file_type,
            mtime,
            ctime,
            crtime,
            names: None,
        }
    }

    /// A record all of whose times are `now`.
    pub fn new_at(
        now: u64,
        inode: u64,
        nlink: u32,
        main_parent: u64,
        obj_uuid: u128,
        obj_type: ObjectType,
        file_type: FileType,
    ) -> (res: NodeRecord)
        ensures
            res == (NodeRecord {
                inode,
                nlink,
                main_parent,
                obj_uuid,
                obj_type,
                file_type,
                mtime: now,
                ctime: now,
                crtime: now,
                names: None,
            }),
    {
        NodeRecord::new(inode, nlink, main_parent, obj_uuid, obj_type, file_type, now, now, now)
    }

    /// A record all of whose times are the present second. Its main parent
    /// is the root.
    pub fn new_now(inode: u64, nlink: u32, obj_uuid: u128, obj_type: ObjectType, file_type: FileType) -> (res:
        DVResult<NodeRecord>)
        ensures
            match res {
                Ok(record) => exists|now: u64|
                    record == (NodeRecord {
                        inode,
                        nlink,
                        main_parent: INODE_ROOT,
                        obj_uuid,
                        obj_type,
                        file_type,
                        mtime: now,
                        ctime: now,
                        crtime: now,
                        names: None,
                    }),
                Err(err) => err is SystemTimeError,
            },
    {
        match now_unix() {
            Ok(now) => Ok(
                NodeRecord::new_at(now, inode, nlink, INODE_ROOT, obj_uuid, obj_type, file_type),
            ),
            Err(err) => Err(err),
        }
    }

    /// Reads a row of metadata once its uuid text has been read as `parsed`.
    pub fn decode_row(row: &Vec<SqlValue>, parsed: Option<u128>) -> (res: DVResult<NodeRecord>)
        ensures
            res == spec_record_of_row(row@, parsed),
    {
        let inode = match cell_i64(row, 0) {
            Ok(v) => i64_to_u64(v),
            Err(failure) => { return Err(DVError::SQLError(failure)); },
        };
        let counted = match cell_u32(row, 1) {
            Ok(v) => v,
            Err(failure) => { return Err(DVError::SQLError(failure)); },
        };
        let main_parent = match cell_i64(row, 2) {
            Ok(v) => i64_to_u64(v),
            Err(failure) => { return Err(DVError::SQLError(failure)); },
        };
        let uuid_text = match cell_text(row, 3) {
            Ok(v) => v,
            Err(failure) => { return Err(DVError::SQLError(failure)); },
        };
        let obj_uuid = match parsed {
            Some(v) => v,
            None => { return Err(DVError::UuidParseError(uuid_text)); },
        };
        let types = match types_of_row(row) {
            Ok(v) => v,
            Err(err) => { return Err(err); },
        };
        let times = match times_of_row(row) {
            Ok(v) => v,
            Err(err) => { return Err(err); },
        };
        let nlink = if inode == INODE_ROOT {
            MIN_HARD_LINKS_DIR
        } else {
            counted
        };
        Ok(
            NodeRecord::new(
                inode,
                nlink,
                main_parent,
                obj_uuid,
                types.0,
                types.1,
                times.0,
                times.1,
                times.2,
            ),
        )
    }

    /// Reads a row of metadata. The root reports two links whatever was
    /// counted; every other inode reports the count of its names.
    pub fn from_row(row: &Vec<SqlValue>) -> (res: DVResult<NodeRecord>)
        ensures
            res == spec_record_of_row(row@, spec_row_uuid(row@)),
    {
        let parsed = match cell_text(row, 3) {
            Ok(text) => match parse_uuid(text.as_str()) {
                Ok(bits) => Some(bits),
                Err(_) => None,
            },
            Err(_) => None,
        };
        NodeRecord::decode_row(row, parsed)
    }

    pub fn get_inode(&self) -> (inode: u64)
        ensures
            inode == self.inode,
    {
        self.inode
    }

    /// The inode in the signed form of the store.
    pub fn get_inode_i64(&self) -> (inode: i64)
        ensures
            inode == spec_u64_to_i64(self.inode),
    {
        u64_to_i64(self.inode)
    }

    pub fn get_main_parent(&self) -> (parent: u64)
        ensures
            parent == self.main_parent,
    {
        self.main_parent
    }

    pub fn get_obj_uuid(&self) -> (bits: u128)
        ensures
            bits == self.obj_uuid,
    {
        self.obj_uuid
    }

    pub fn get_obj_type(&self) -> (kind: ObjectType)
        ensures
            kind == self.obj_type,
    {
        self.obj_type
    }

    pub fn get_file_type(&self) -> (kind: FileType)
        ensures
            kind == self.file_type,
    {
        self.file_type
    }

    pub fn get_names(&self) -> (names: Option<&Vec<NodeName>>)
        ensures
            match self.names {
                Some(list) => names == Some(&list),
                None => names is None,
            },
    {
        self.names.as_ref()
    }

    /// The statement that [`NodeRecord::get`] runs.
    pub fn get_statement(inode: u64) -> (stmt: SqlStatement)
        ensures
            stmt@ == spec_get_record(inode),
    {
        let mut params: Vec<SqlValue> = Vec::new();
        params.push(SqlValue::Integer(u64_to_i64(inode)));
        let stmt = SqlStatement { sql: String::from_str(GET_RECORD_SQL), params };
        assert(stmt@.params =~= spec_get_record(inode).params);
        stmt
    }

    /// The statement that [`NodeRecord::del`] runs.
    pub fn del_statement(inode: u64) -> (stmt: SqlStatement)
        ensures
            stmt@ == spec_delete_record(inode),
    {
        let mut params: Vec<SqlValue> = Vec::new();
        params.push(SqlValue::Integer(u64_to_i64(inode)));
        let stmt = SqlStatement { sql: String::from_str(DELETE_RECORD_SQL), params };
        assert(stmt@.params =~= spec_delete_record(inode).params);
        stmt
    }

    /// The statement that sets one time of `inode` to `now`; `sql` is its
    /// text.
    pub fn touch_statement(sql: &str, inode: u64, now: u64) -> (stmt: SqlStatement)
        ensures
            stmt@ == spec_touch(sql@, inode, now),
    {
        let mut params: Vec<SqlValue> = Vec::new();
        params.push(SqlValue::Integer(u64_to_i64(now)));
        params.push(SqlValue::Integer(u64_to_i64(inode)));
        let stmt = SqlStatement { sql: String::from_str(sql), params };
        assert(stmt@.params =~= spec_touch(sql@, inode, now).params);
        stmt
    }

    /// The statement that persists this record.
    pub fn save_statement(&self, fresh: bool) -> (stmt: SqlStatement)
        ensures
            stmt@ == spec_save_record(*self, fresh),
    {
        let mut params: Vec<SqlValue> = Vec::new();
        params.push(SqlValue::Integer(u64_to_i64(self.inode)));
        params.push(SqlValue::Integer(u64_to_i64(self.main_parent)));
        params.push(SqlValue::Text(uuid_to_string(self.obj_uuid)));
        params.push(SqlValue::Text(self.obj_type.to_string()));
        params.push(SqlValue::Text(String::from_str(file_type2string(self.file_type))));
        params.push(SqlValue::Integer(u64_to_i64(self.mtime)));
        params.push(SqlValue::Integer(u64_to_i64(self.ctime)));
        params.push(SqlValue::Integer(u64_to_i64(self.crtime)));
        let sql = if fresh {
            String::from_str(INSERT_RECORD_SQL)
        } else {
            String::from_str(REPLACE_RECORD_SQL)
        };
        let stmt = SqlStatement { sql, params };
        assert(stmt@.params =~= spec_save_record(*self, fresh).params);
        stmt
    }

    /// The statement that persists this record at `now`, where `inode` is
    /// the inode that a record without one is given: the record is handed
    /// over as it stands after the save.
    pub fn save_statement_at(&self, inode: u64, now: u64) -> (stmt: SqlStatement)
        ensures
            stmt@ == spec_save_record(spec_saved(*self, now, inode), self.inode == INODE_NULL),
    {
        let fresh = self.inode == INODE_NULL;
        let candidate = if fresh {
            NodeRecord::new(
                inode,
                self.nlink,
                self.main_parent,
                self.obj_uuid,
                self.obj_type,
                self.file_type,
                now,
                now,
                now,
            )
        } else {
            NodeRecord::new(
                self.inode,
                self.nlink,
                self.main_parent,
                self.obj_uuid,
                self.obj_type,
                self.file_type,
                self.mtime,
                now,
                self.crtime,
            )
        };
        candidate.save_statement(fresh)
    }

    /// The statement that sets the time of the last change of content.
    pub fn mtime_statement(inode: u64, now: u64) -> (stmt: SqlStatement)
        ensures
            stmt@ == spec_touch(UPDATE_MTIME_SQL@, inode, now),
    {
        NodeRecord::touch_statement(UPDATE_MTIME_SQL, inode, now)
    }

    /// The statement that sets the time of the last change of attributes.
    pub fn ctime_statement(inode: u64, now: u64) -> (stmt: SqlStatement)
        ensures
            stmt@ == spec_touch(UPDATE_CTIME_SQL@, inode, now),
    {
        NodeRecord::touch_statement(UPDATE_CTIME_SQL, inode, now)
    }

    /// The statement that [`NodeRecord::find_one`] runs: a search that is
    /// capped at one row.
    pub fn find_one_statement(
        parent: Option<u64>,
        name: Option<&str>,
        obj_type: Option<ObjectType>,
        obj_uuid: Option<u128>,
        file_type: Option<FileType>,
    ) -> (stmt: SqlStatement)
        ensures
            stmt@ == spec_search(
                parent,
                match name {
                    Some(n) => Some(n@),
                    None => None,
                },
                obj_type,
                obj_uuid,
                file_type,
                Some(1u64),
                None,
            ),
    {
        NodeRecord::search_statement(parent, name, obj_type, obj_uuid, file_type, Some(1), None)
    }

    /// The statement that [`NodeRecord::can_readdir`] runs: every name under
    /// the node counts, also a hidden one.
    pub fn children_statement(inode: u64) -> (stmt: SqlStatement)
        ensures
            stmt@ == crate::node_name::spec_find_names(inode, true, None),
    {
        NodeName::find_statement(inode, true, None)
    }

    /// Makes the result of [`NodeRecord::get`] of the answer of the store.
    pub fn get_outcome(fetched: Result<Vec<Vec<SqlValue>>, SqlFailure>) -> (res: DVResult<NodeRecord>)
        ensures
            res == spec_get_outcome(fetched),
    {
        match fetched {
            Err(failure) => Err(DVError::SQLError(failure)),
            Ok(rows) => {
                if rows.len() == 0 {
                    Err(DVError::SQLError(SqlFailure::NotFound))
                } else {
                    NodeRecord::from_row(&rows[0])
                }
            },
        }
    }

    /// Makes the result of a change of one row of its outcome.
    pub fn touched(outcome: Result<usize, SqlFailure>) -> (res: DVResult<()>)
        ensures
            res == spec_touched(outcome),
    {
        match outcome {
            Err(failure) => Err(DVError::SQLError(failure)),
            Ok(changed) => {
                if changed == 0 {
                    Err(DVError::SQLError(SqlFailure::NotFound))
                } else {
                    Ok(())
                }
            },
        }
    }

    /// Fetches the record of `inode`, with the count of its names. An inode
    /// that the store does not hold gives `NotFound`.
    pub fn get(inode: u64, conn: &Connection) -> (res: DVResult<NodeRecord>)
        ensures
            exists|fetched: Result<Vec<Vec<SqlValue>>, SqlFailure>|
                (fetched is Err ==> fetched->Err_0 is Other) && res == #[trigger] spec_get_outcome(
                    fetched,
                ),
    {
        let stmt = NodeRecord::get_statement(inode);
        let fetched = query(conn, &stmt);
        let ghost seen = fetched;
        let res = NodeRecord::get_outcome(fetched);
        assert(res == spec_get_outcome(seen));
        res
    }

    /// Deletes the metadata of `inode`. Deleting what is not there succeeds.
    pub fn del(inode: u64, conn: &Connection) -> (res: DVResult<()>)
        ensures
            res matches Err(err) ==> err matches DVError::SQLError(failure) && failure is Other,
    {
        let stmt = NodeRecord::del_statement(inode);
        written(execute(conn, &stmt))
    }

    /// Persists this record at the time `now`. A record without inode is
    /// given the next one of `alloc` and inserted with all three times set to
    /// `now`; any other record replaces what the store holds of its inode,
    /// with the time of its last change of attributes set to `now`.
    pub fn save_at(&mut self, now: u64, alloc: &mut InodeAllocator, conn: &Connection) -> (res:
        DVResult<()>)
        ensures
            spec_save_relation(*old(self), *old(alloc), now, res, *final(self), *final(alloc)),
    {
        let fresh = self.inode == INODE_NULL;
        let inode = if fresh {
            match alloc.next() {
                Some(v) => v,
                None => { return Err(DVError::InodesExhausted); },
            }
        } else {
            self.inode
        };
        let mtime = if fresh { now } else { self.mtime };
        let crtime = if fresh { now } else { self.crtime };
        let stmt = self.save_statement_at(inode, now);
        match execute(conn, &stmt) {
            Ok(_) => {
                self.inode = inode;
                self.mtime = mtime;
                self.ctime = now;
                self.crtime = crtime;
                Ok(())
            },
            Err(failure) => Err(DVError::SQLError(failure)),
        }
    }

    /// Persists this record at the present second.
    pub fn save(&mut self, alloc: &mut InodeAllocator, conn: &Connection) -> (res: DVResult<()>)
        ensures
            spec_clock_failed(res) ==> *final(self) == *old(self),
            spec_clock_failed(res) ==> *final(alloc) == *old(alloc),
            !spec_clock_failed(res) ==> exists|now: u64| #[trigger]
                spec_save_relation(*old(self), *old(alloc), now, res, *final(self), *final(alloc)),
    {
        match now_unix() {
            Ok(now) => {
                let res = self.save_at(now, alloc, conn);
                assert(spec_save_relation(*old(self), *old(alloc), now, res, *self, *alloc));
                res
            },
            Err(err) => Err(err),
        }
    }

    /// Records at `now` that the content of this node has changed. It must
    /// be called whenever the content changes.
    pub fn update_mtime_at(&mut self, now: u64, conn: &Connection) -> (res: DVResult<()>)
        ensures
            spec_mtime_relation(*old(self), now, res, *final(self)),
            res matches Err(DVError::SQLError(failure)) ==> failure is Other,
    {
        if self.inode == INODE_NULL {
            return Err(DVError::NodeNoNum);
        }
        let stmt = NodeRecord::mtime_statement(self.inode, now);
        match written(execute(conn, &stmt)) {
            Ok(_) => {
                self.mtime = now;
                Ok(())
            },
            Err(err) => Err(err),
        }
    }

    /// Records at the present second that the content has changed. A record
    /// without inode is refused before the clock is read.
    pub fn update_mtime(&mut self, conn: &Connection) -> (res: DVResult<()>)
        ensures
            old(self).inode == INODE_NULL ==> res == Err::<(), DVError>(DVError::NodeNoNum),
            old(self).inode == INODE_NULL ==> *final(self) == *old(self),
            spec_clock_failed(res) ==> *final(self) == *old(self),
            !spec_clock_failed(res) ==> exists|now: u64| #[trigger]
                spec_mtime_relation(*old(self), now, res, *final(self)),
    {
        if self.inode == INODE_NULL {
            assert(spec_mtime_relation(*old(self), 0, Err::<(), DVError>(DVError::NodeNoNum), *self));
            return Err(DVError::NodeNoNum);
        }
        match now_unix() {
            Ok(now) => {
                let res = self.update_mtime_at(now, conn);
                assert(spec_mtime_relation(*old(self), now, res, *self));
                res
            },
            Err(err) => Err(err),
        }
    }

    /// Records at `now` that the attributes of this node have changed. An
    /// inode that the store does not hold gives `NotFound`.
    pub fn update_metadata_at(&mut self, now: u64, conn: &Connection) -> (res: DVResult<()>)
        ensures
            spec_ctime_relation(*old(self), now, res, *final(self)),
    {
        if self.inode == INODE_NULL {
            return Err(DVError::NodeNoNum);
        }
        let stmt = NodeRecord::ctime_statement(self.inode, now);
        match NodeRecord::touched(execute(conn, &stmt)) {
            Ok(_) => {
                self.ctime = now;
                Ok(())
            },
            Err(err) => Err(err),
        }
    }

    /// Records at the present second that the attributes have changed. A
    /// record without inode is refused before the clock is read.
    pub fn update_metadata(&mut self, conn: &Connection) -> (res: DVResult<()>)
        ensures
            old(self).inode == INODE_NULL ==> res == Err::<(), DVError>(DVError::NodeNoNum),
            old(self).inode == INODE_NULL ==> *final(self) == *old(self),
            spec_clock_failed(res) ==> *final(self) == *old(self),
            !spec_clock_failed(res) ==> exists|now: u64| #[trigger]
                spec_ctime_relation(*old(self), now, res, *final(self)),
    {
        if self.inode == INODE_NULL {
            assert(spec_ctime_relation(*old(self), 0, Err::<(), DVError>(DVError::NodeNoNum), *self));
            return Err(DVError::NodeNoNum);
        }
        match now_unix() {
            Ok(now) => {
                let res = self.update_metadata_at(now, conn);
                assert(spec_ctime_relation(*old(self), now, res, *self));
                res
            },
            Err(err) => Err(err),
        }
    }

    /// The statement that [`NodeRecord::search`] runs.
    pub fn search_statement(
        parent: Option<u64>,
        name: Option<&str>,
        obj_type: Option<ObjectType>,
        obj_uuid: Option<u128>,
        file_type: Option<FileType>,
        limit: Option<u64>,
        offset: Option<i64>,
    ) -> (stmt: SqlStatement)
        ensures
            stmt@ == spec_search(
                parent,
                match name {
                    Some(n) => Some(n@),
                    None => None,
                },
                obj_type,
                obj_uuid,
                file_type,
                limit,
                offset,
            ),
    {
        let mut stmt = SqlStatement::new(SEARCH_SQL);
        if let Some(p) = parent {
            stmt.add(BY_PARENT_SQL, Some(SqlValue::Integer(u64_to_i64(p))));
        }
        match name {
            Some(n) => {
                stmt.add(BY_NAME_SQL, Some(SqlValue::Text(String::from_str(n))));
            },
            None => {
                stmt.add(ANY_NAME_SQL, None);
            },
        }
        if let Some(t) = obj_type {
            stmt.add(BY_OBJ_TYPE_SQL, Some(SqlValue::Text(t.to_string())));
        }
        if let Some(u) = obj_uuid {
            stmt.add(BY_OBJ_UUID_SQL, Some(SqlValue::Text(uuid_to_string(u))));
        }
        if let Some(t) = file_type {
            stmt.add(BY_FILE_TYPE_SQL, Some(SqlValue::Text(String::from_str(file_type2string(t)))));
        }
        if offset.is_some() {
            stmt.add(BY_INODE_ORDER_SQL, None);
        }
        if let Some(l) = limit {
            stmt.add(LIMIT_SQL, Some(SqlValue::Integer(u64_to_i64(l))));
            if let Some(o) = offset {
                stmt.add(OFFSET_SQL, Some(SqlValue::Integer(o)));
            }
        }
        stmt
    }

    /// Makes the result of [`NodeRecord::search`] of the answer of the
    /// store.
    pub fn search_outcome(limit: Option<u64>, fetched: Result<Vec<Vec<SqlValue>>, SqlFailure>) -> (res:
        DVResult<Vec<NodeRecord>>)
        ensures
            spec_search_outcome(limit, fetched, res),
    {
        let rows = match fetched {
            Ok(rows) => rows,
            Err(failure) => { return Err(DVError::SQLError(failure)); },
        };
        let mut records: Vec<NodeRecord> = Vec::new();
        let mut last_err: Option<DVError> = None;
        let mut i: usize = 0;
        assert(rows@.take(0) =~= Seq::<Vec<SqlValue>>::empty());
        while i < rows.len()
            invariant
                i <= rows.len(),
                records@ == spec_good_records(rows@.take(i as int)),
                last_err == spec_last_error(rows@.take(i as int)),
            decreases rows.len() - i,
        {
            proof {
                let upto = rows@.take(i + 1);
                assert(upto.last() == rows@[i as int]);
                assert(upto.drop_last() =~= rows@.take(i as int));
            }
            match NodeRecord::from_row(&rows[i]) {
                Ok(record) => {
                    records.push(record);
                },
                Err(err) => {
                    last_err = Some(err);
                },
            }
            i = i + 1;
        }
        assert(rows@.take(rows.len() as int) =~= rows@);
        let wanted = match limit {
            Some(l) => l > 0,
            None => true,
        };
        if records.len() == 0 && wanted {
            if let Some(err) = last_err {
                return Err(err);
            }
        }
        Ok(records)
    }

    /// Searches the metadata by parent, name, object type, uuid and file
    /// type; a condition that is `None` is not asked for.
    pub fn search(
        parent: Option<u64>,
        name: Option<&str>,
        obj_type: Option<ObjectType>,
        obj_uuid: Option<u128>,
        file_type: Option<FileType>,
        limit: Option<u64>,
        offset: Option<i64>,
        conn: &Connection,
    ) -> (res: DVResult<Vec<NodeRecord>>)
        ensures
            exists|fetched: Result<Vec<Vec<SqlValue>>, SqlFailure>|
                (fetched is Err ==> fetched->Err_0 is Other) && #[trigger] spec_search_outcome(
                    limit,
                    fetched,
                    res,
                ),
    {
        let stmt = NodeRecord::search_statement(
            parent,
            name,
            obj_type,
            obj_uuid,
            file_type,
            limit,
            offset,
        );
        let fetched = query(conn, &stmt);
        let ghost seen = fetched;
        let res = NodeRecord::search_outcome(limit, fetched);
        assert(spec_search_outcome(limit, seen, res));
        res
    }

    /// Makes the result of [`NodeRecord::find_one`] of what a search found.
    pub fn find_one_outcome(found: DVResult<Vec<NodeRecord>>) -> (res: DVResult<NodeRecord>)
        ensures
            spec_find_one_outcome(found, res),
    {
        match found {
            Err(err) => Err(err),
            Ok(mut records) => {
                if records.len() == 0 {
                    Err(DVError::SQLError(SqlFailure::NotFound))
                } else {
                    Ok(records.remove(0))
                }
            },
        }
    }

    /// Finds the first record that a search with a limit of one gives;
    /// `NotFound` where it gives none.
    pub fn find_one(
        parent: Option<u64>,
        name: Option<&str>,
        obj_type: Option<ObjectType>,
        obj_uuid: Option<u128>,
        file_type: Option<FileType>,
        conn: &Connection,
    ) -> (res: DVResult<NodeRecord>)
        ensures
            exists|fetched: Result<Vec<Vec<SqlValue>>, SqlFailure>, found: DVResult<Vec<NodeRecord>>|
                (fetched is Err ==> fetched->Err_0 is Other) && #[trigger] spec_search_outcome(
                    Some(1u64),
                    fetched,
                    found,
                ) && spec_find_one_outcome(found, res),
    {
        let stmt = NodeRecord::find_one_statement(parent, name, obj_type, obj_uuid, file_type);
        let fetched = query(conn, &stmt);
        let ghost seen = fetched;
        let found = NodeRecord::search_outcome(Some(1), fetched);
        let ghost met = found;
        let res = NodeRecord::find_one_outcome(found);
        assert(spec_search_outcome(Some(1u64), seen, met) && spec_find_one_outcome(met, res));
        res
    }

    /// Whether a node of this file type with this listing of names can be
    /// opened as a directory: it is one, or it has a name under it.
    pub open spec fn spec_can_list(file_type: FileType, listing: DVResult<NodeNameIter>) -> bool {
        file_type == FileType::Directory || (listing matches Ok(names) && spec_first_good(
            names.remaining(),
        ) < names.remaining().len())
    }

    /// Decides whether a node can be opened as a directory, from its file
    /// type and the listing of the visible names under it.
    pub fn can_list(file_type: FileType, listing: DVResult<NodeNameIter>) -> (able: bool)
        ensures
            able == NodeRecord::spec_can_list(file_type, listing),
    {
        match file_type {
            FileType::Directory => true,
            _ => match listing {
                Ok(mut names) => names.next_name().is_some(),
                Err(_) => false,
            },
        }
    }

    /// How [`NodeRecord::can_readdir`] reads the answer of the store to the
    /// listing of the names under the node.
    pub open spec fn spec_can_readdir(
        file_type: FileType,
        inode: u64,
        fetched: Result<Vec<Vec<SqlValue>>, SqlFailure>,
        listing: DVResult<NodeNameIter>,
        able: bool,
    ) -> bool {
        &&& fetched is Err ==> fetched->Err_0 is Other
        &&& NodeNameIter::spec_listing(inode, fetched, listing)
        &&& able == NodeRecord::spec_can_list(file_type, listing)
    }

    /// Whether this node can be opened as a directory. A node whose declared
    /// type is stale but which still has a name under it behaves as one;
    /// hidden names count.
    pub fn can_readdir(&self, conn: &Connection) -> (able: bool)
        ensures
            self.file_type == FileType::Directory ==> able,
            exists|fetched: Result<Vec<Vec<SqlValue>>, SqlFailure>, listing: DVResult<NodeNameIter>|
                #[trigger] NodeRecord::spec_can_readdir(
                    self.file_type,
                    self.inode,
                    fetched,
                    listing,
                    able,
                ),
    {
        match self.file_type {
            FileType::Directory => {
                proof {
                    let text: String = vstd::pervasive::arbitrary();
                    let fetched: Result<Vec<Vec<SqlValue>>, SqlFailure> = Err(
                        SqlFailure::Other(text),
                    );
                    let listing: DVResult<NodeNameIter> = Err(
                        DVError::SQLError(SqlFailure::Other(text)),
                    );
                    assert(NodeRecord::spec_can_readdir(
                        self.file_type,
                        self.inode,
                        fetched,
                        listing,
                        true,
                    ));
                }
                true
            },
            _ => {
                let stmt = NodeRecord::children_statement(self.inode);
                let fetched = query(conn, &stmt);
                let ghost seen = fetched;
                let listing = NodeNameIter::from_rows(self.inode, fetched);
                let ghost listed = listing;
                let able = NodeRecord::can_list(self.file_type, listing);
                assert(NodeRecord::spec_can_readdir(
                    self.file_type,
                    self.inode,
                    seen,
                    listed,
                    able,
                ));
                able
            },
        }
    }

    /// The attributes of this node for content of `size` bytes. The access
    /// time is the time of the last change of content.
    pub fn to_file_attr(&self, size: u64) -> (attr: FileAttr)
        ensures
            attr == spec_file_attr(*self, size),
    {
        FileAttr {
            ino: self.inode,
            size,
            blocks: size / BLOCK_SIZE,
            atime: self.mtime,
            mtime: self.mtime,
            ctime: self.ctime,
            crtime: self.crtime,
            kind: self.file_type,
            perm: DEFAULT_DIR_PERM,
            nlink: self.nlink,
            uid: DEFAULT_UID,
            gid: DEFAULT_GID,
            rdev: DEFAULT_RDEV,
            blksize: 4096,
            flags: DEFAULT_NODE_FLAGS,
        }
    }
}

/// The root always reports two links, whatever was counted. Every other
/// inode reports the count of its names, so one without names reports none.
pub proof fn lemma_reported_links(inode: u64, counted: u32)
    ensures
        inode == INODE_ROOT ==> spec_reported_nlink(inode, counted) == 2,
        inode != INODE_ROOT ==> spec_reported_nlink(inode, counted) == counted,
        inode != INODE_ROOT ==> spec_reported_nlink(inode, 0) == 0,
{
}

/// The link count of every record that is read from the store is the
/// reported count for its inode and the counted names of its row.
pub proof fn lemma_record_links(row: Seq<SqlValue>, parsed: Option<u128>)
    requires
        spec_record_of_row(row, parsed) is Ok,
    ensures
        spec_cell_u32(row, 1) is Ok,
        spec_record_of_row(row, parsed)->Ok_0.nlink == spec_reported_nlink(
            spec_record_of_row(row, parsed)->Ok_0.inode,
            spec_cell_u32(row, 1)->Ok_0,
        ),
{
}

/// An inode that the store does not hold is not found, whatever the inode.
pub proof fn lemma_absent_inode_not_found(rows: Vec<Vec<SqlValue>>)
    requires
        rows.len() == 0,
    ensures
        spec_get_outcome(Ok(rows)) == Err::<NodeRecord, DVError>(
            DVError::SQLError(SqlFailure::NotFound),
        ),
        crate::errors::spec_is_not_found(spec_get_outcome(Ok(rows))->Err_0),
{
}

/// The attributes count the blocks that the content fills completely.
pub proof fn lemma_attr_blocks(record: NodeRecord, size: u64)
    ensures
        spec_file_attr(record, size).blocks * BLOCK_SIZE <= size,
        size < (spec_file_attr(record, size).blocks + 1) * BLOCK_SIZE,
        spec_file_attr(record, size).ino == record.inode,
        spec_file_attr(record, size).nlink == record.nlink,
{
}

/// Two pages of one search run the same statement text and differ only in
/// their last parameter, the offset; both are ordered by inode. So over an
/// unchanged store the pages are consecutive pieces of one ordered listing.
pub proof fn lemma_pages_share_statement(
    parent: Option<u64>,
    name: Option<Seq<char>>,
    obj_type: Option<ObjectType>,
    obj_uuid: Option<u128>,
    file_type: Option<FileType>,
    limit: u64,
    first: i64,
    second: i64,
)
    ensures
        spec_search(parent, name, obj_type, obj_uuid, file_type, Some(limit), Some(first)).sql
            == spec_search(parent, name, obj_type, obj_uuid, file_type, Some(limit), Some(second)).sql,
        spec_search(
            parent,
            name,
            obj_type,
            obj_uuid,
            file_type,
            Some(limit),
            Some(first),
        ).params.drop_last() == spec_search(
            parent,
            name,
            obj_type,
            obj_uuid,
            file_type,
            Some(limit),
            Some(second),
        ).params.drop_last(),
        spec_search(parent, name, obj_type, obj_uuid, file_type, Some(limit), Some(first)).params.last()
            == Cell::Integer(first),
        spec_search(
            parent,
            name,
            obj_type,
            obj_uuid,
            file_type,
            Some(limit),
            Some(first),
        ).params.drop_last().last() == Cell::Integer(spec_u64_to_i64(limit)),
{
    let a = spec_search(parent, name, obj_type, obj_uuid, file_type, Some(limit), Some(first));
    let b = spec_search(parent, name, obj_type, obj_uuid, file_type, Some(limit), Some(second));
    let common = spec_search(parent, name, obj_type, obj_uuid, file_type, Some(limit), None);
    assert(a.params.drop_last() =~= b.params.drop_last());
}

/// Whether a row holds what saving `record` hands to the store, together
/// with a count of names.
pub open spec fn spec_row_holds(row: Seq<SqlValue>, record: NodeRecord, counted: u32) -> bool {
    &&& row.len() == 9
    &&& row[0] == SqlValue::Integer(spec_u64_to_i64(record.inode))
    &&& row[1] == SqlValue::Integer(counted as i64)
    &&& row[2] == SqlValue::Integer(spec_u64_to_i64(record.main_parent))
    &&& row[3] matches SqlValue::Text(text) && text@ == spec_uuid_hyphenated(record.obj_uuid)
    &&& row[4] matches SqlValue::Text(text) && text@ == spec_object_type_code(record.obj_type)
    &&& row[5] matches SqlValue::Text(text) && text@ == spec_file_type_code(record.file_type)
    &&& row[6] == SqlValue::Integer(spec_u64_to_i64(record.mtime))
    &&& row[7] == SqlValue::Integer(spec_u64_to_i64(record.ctime))
    &&& row[8] == SqlValue::Integer(spec_u64_to_i64(record.crtime))
}

/// What is saved is what is read: a row that holds the values that saving a
/// record hands to the store is read as that record, with the reported link
/// count in place of the count of the row. This holds for every inode of
/// the unsigned range, for times that can be persisted, and for a uuid whose
/// text is read back as the uuid.
pub proof fn lemma_saved_record_is_read_back(row: Seq<SqlValue>, record: NodeRecord, counted: u32)
    requires
        spec_row_holds(row, record, counted),
        record.mtime <= crate::clock::MAX_TIMESTAMP,
        record.ctime <= crate::clock::MAX_TIMESTAMP,
        record.crtime <= crate::clock::MAX_TIMESTAMP,
        uuid_text_value(spec_uuid_hyphenated(record.obj_uuid)) == Some(record.obj_uuid),
    ensures
        spec_record_from_row(row) == Ok::<NodeRecord, DVError>(
            NodeRecord {
                nlink: spec_reported_nlink(record.inode, counted),
                names: None,
                ..record
            },
        ),
{
    crate::object_type::lemma_object_type_round_trip(record.obj_type);
    crate::file_type::lemma_file_type_round_trip(record.file_type);
    crate::bits::lemma_u64_round_trip(record.inode);
    crate::bits::lemma_u64_round_trip(record.main_parent);
    crate::bits::lemma_u64_round_trip(record.mtime);
    crate::bits::lemma_u64_round_trip(record.ctime);
    crate::bits::lemma_u64_round_trip(record.crtime);
    assert(spec_types_of_row(row) == Ok::<(ObjectType, FileType), DVError>(
        (record.obj_type, record.file_type),
    ));
    assert(spec_times_of_row(row) == Ok::<(u64, u64, u64), DVError>(
        (record.mtime, record.ctime, record.crtime),
    ));
    assert(spec_cell_u32(row, 1) == Ok::<u32, SqlFailure>(counted));
}

} // verus!
