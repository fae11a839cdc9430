use datavir::allocator::{InodeAllocator, INODE_ROOT};
use datavir::clock::{now_unix, sql2time, time2sql, to_timestamp, MAX_TIMESTAMP};
use datavir::errors::DVError;
use datavir::file_type::FileType;
use datavir::ids::{parse_uuid, uuid_outcome, uuid_to_string, NIL_UUID};
use datavir::node_name::NodeName;
use datavir::node_record::{NodeRecord, BLOCK_SIZE};
use datavir::object_type::ObjectType;
use datavir::schema::open_database;
use datavir::sql::{cell_bool, cell_i64, cell_opt_i64, cell_text, cell_u32, SqlFailure, SqlStatement, SqlValue};
use std::time::{Duration, UNIX_EPOCH};

fn populated() -> (rusqlite::Connection, InodeAllocator) {
    let mut alloc = InodeAllocator::new();
    let conn = open_database(":memory:", &mut alloc).unwrap();
    let kinds = [
        (FileType::Directory, ObjectType::OrgDir, 11u128),
        (FileType::RegularFile, ObjectType::BundleElement, 12u128),
        (FileType::RegularFile, ObjectType::BundleElement, 13u128),
        (FileType::Symlink, ObjectType::Filter, 14u128),
        (FileType::RegularFile, ObjectType::BundleRoot, 15u128),
    ];
    for (i, (file_type, obj_type, uuid)) in kinds.iter().enumerate() {
        let mut record = NodeRecord::new_at(50, 0, 0, INODE_ROOT, *uuid, *obj_type, *file_type);
        record.save_at(50, &mut alloc, &conn).unwrap();
        NodeName::new(record.inode, 500, false, format!("n{}", i)).save(&conn).unwrap();
    }
    (conn, alloc)
}

fn inodes(records: &[NodeRecord]) -> Vec<u64> {
    records.iter().map(|r| r.get_inode()).collect()
}

#[test]
fn search_pages_do_not_overlap() {
    let (conn, _) = populated();
    let first = NodeRecord::search(Some(500), None, None, None, None, Some(2), Some(0), &conn).unwrap();
    let second = NodeRecord::search(Some(500), None, None, None, None, Some(2), Some(2), &conn).unwrap();
    assert_eq!(inodes(&first), vec![64, 65]);
    assert_eq!(inodes(&second), vec![66, 67]);
    let third = NodeRecord::search(Some(500), None, None, None, None, Some(2), Some(4), &conn).unwrap();
    assert_eq!(inodes(&third), vec![68]);
    let whole = NodeRecord::search(Some(500), None, None, None, None, None, None, &conn).unwrap();
    assert_eq!(whole.len(), 5);
}

#[test]
fn search_combines_conditions() {
    let (conn, _) = populated();
    let files = NodeRecord::search(Some(500), None, None, None, Some(FileType::RegularFile), None, Some(0), &conn).unwrap();
    assert_eq!(inodes(&files), vec![65, 66, 68]);
    let elements = NodeRecord::search(None, None, Some(ObjectType::BundleElement), None, Some(FileType::RegularFile), None, Some(0), &conn).unwrap();
    assert_eq!(inodes(&elements), vec![65, 66]);
    let by_uuid = NodeRecord::search(None, None, None, Some(14), None, None, None, &conn).unwrap();
    assert_eq!(inodes(&by_uuid), vec![67]);
    assert_eq!(by_uuid[0].get_obj_uuid(), 14);
    assert_eq!(by_uuid[0].get_obj_type(), ObjectType::Filter);
    assert_eq!(by_uuid[0].get_file_type(), FileType::Symlink);
    assert_eq!(by_uuid[0].get_main_parent(), INODE_ROOT);
    assert!(by_uuid[0].get_names().is_none());
    let by_name = NodeRecord::search(Some(500), Some("n3"), None, None, None, None, None, &conn).unwrap();
    assert_eq!(inodes(&by_name), vec![67]);
    let nothing = NodeRecord::search(Some(501), None, None, None, None, None, None, &conn).unwrap();
    assert!(nothing.is_empty());
}

#[test]
fn search_without_name_leaves_out_unnamed_inodes() {
    let (conn, mut alloc) = populated();
    let mut unnamed = NodeRecord::new_at(50, 0, 0, INODE_ROOT, 99, ObjectType::Filter, FileType::RegularFile);
    unnamed.save_at(50, &mut alloc, &conn).unwrap();
    let found = NodeRecord::search(None, None, None, Some(99), None, None, None, &conn).unwrap();
    assert!(found.is_empty());
    assert_eq!(NodeRecord::get(unnamed.inode, &conn).unwrap().obj_uuid, 99);
}

#[test]
fn search_honours_offset_only_with_limit() {
    let (conn, _) = populated();
    let ordered = NodeRecord::search(Some(500), None, None, None, None, None, Some(3), &conn).unwrap();
    assert_eq!(inodes(&ordered), vec![64, 65, 66, 67, 68]);
    let capped = NodeRecord::search(Some(500), None, None, None, None, Some(1), None, &conn).unwrap();
    assert_eq!(capped.len(), 1);
    let none = NodeRecord::search(Some(500), None, None, None, None, Some(0), None, &conn).unwrap();
    assert!(none.is_empty());
    let huge = NodeRecord::search(Some(500), None, None, None, None, Some(u64::MAX), Some(1), &conn).unwrap();
    assert_eq!(inodes(&huge), vec![65, 66, 67, 68]);
}

#[test]
fn search_counts_hard_links() {
    let (conn, _) = populated();
    NodeName::new(65, 500, false, "again".to_string()).save(&conn).unwrap();
    NodeName::new(65, 600, false, "elsewhere".to_string()).save(&conn).unwrap();
    let found = NodeRecord::search(Some(500), Some("again"), None, None, None, None, None, &conn).unwrap();
    assert_eq!(found.len(), 1);
    assert_eq!(found[0].nlink, 3);
    let both = NodeRecord::search(Some(500), None, None, Some(12), None, None, Some(0), &conn).unwrap();
    assert_eq!(inodes(&both), vec![65, 65]);
}

#[test]
fn find_one_gives_first_or_not_found() {
    let (conn, _) = populated();
    let found = NodeRecord::find_one(Some(500), Some("n1"), None, None, None, &conn).unwrap();
    assert_eq!(found.inode, 65);
    assert_eq!(found.nlink, 1);
    let missing = NodeRecord::find_one(Some(500), Some("zz"), None, None, None, &conn);
    assert!(matches!(missing, Err(DVError::SQLError(SqlFailure::NotFound))));
    assert!(matches!(
        NodeRecord::find_one_outcome(Err(DVError::NodeNoNum)),
        Err(DVError::NodeNoNum)
    ));
}

#[test]
fn search_reports_the_error_of_unreadable_rows() {
    let (conn, _) = populated();
    conn.execute("UPDATE `node_meta` SET `file_type` = 'Q' WHERE `inode` = 66", []).unwrap();
    let rest = NodeRecord::search(Some(500), None, None, None, None, None, Some(0), &conn).unwrap();
    assert_eq!(inodes(&rest), vec![64, 65, 67, 68]);
    let only_bad = NodeRecord::search(Some(500), Some("n2"), None, None, None, None, None, &conn);
    assert!(matches!(only_bad, Err(DVError::FuseTypeParseError(code)) if code == "Q"));
    let not_asked = NodeRecord::search(Some(500), Some("n2"), None, None, None, Some(0), None, &conn).unwrap();
    assert!(not_asked.is_empty());
    assert!(matches!(NodeRecord::get(66, &conn), Err(DVError::FuseTypeParseError(_))));
    conn.execute("UPDATE `node_meta` SET `obj_type` = 'QQ' WHERE `inode` = 67", []).unwrap();
    assert!(matches!(NodeRecord::get(67, &conn), Err(DVError::ObjectTypeParseError(code)) if code == "QQ"));
    conn.execute("UPDATE `node_meta` SET `obj_uuid` = 'no uuid' WHERE `inode` = 68", []).unwrap();
    assert!(matches!(NodeRecord::get(68, &conn), Err(DVError::UuidParseError(text)) if text == "no uuid"));
    conn.execute("UPDATE `node_meta` SET `mtime` = -2 WHERE `inode` = 65", []).unwrap();
    assert!(matches!(
        NodeRecord::get(65, &conn),
        Err(DVError::TimeConversionErrorFromSecs(secs)) if secs == u64::MAX - 1
    ));
}

#[test]
fn saving_sets_times_and_inode() {
    let (conn, mut alloc) = populated();
    let mut record = NodeRecord::new(0, 0, 7, 0xabc, ObjectType::Filter, FileType::NamedPipe, 1, 2, 3);
    let stmt = record.save_statement_at(321, 1000);
    assert!(stmt.sql.starts_with("INSERT INTO `node_meta`"));
    assert!(matches!(stmt.params[0], SqlValue::Integer(321)));
    assert!(matches!(stmt.params[5], SqlValue::Integer(1000)));
    assert!(matches!(stmt.params[7], SqlValue::Integer(1000)));
    record.save_at(1000, &mut alloc, &conn).unwrap();
    assert_eq!(record.inode, 69);
    assert!(record.inode >= 64);
    let stmt = record.save_statement_at(321, 2000);
    assert!(stmt.sql.starts_with("REPLACE INTO `node_meta`"));
    assert!(matches!(stmt.params[0], SqlValue::Integer(69)));
    assert!(matches!(stmt.params[5], SqlValue::Integer(1000)));
    assert!(matches!(stmt.params[6], SqlValue::Integer(2000)));
    assert!(NodeRecord::mtime_statement(4, 9).sql.contains("SET `mtime` = ?"));
    assert!(NodeRecord::ctime_statement(4, 9).sql.contains("SET `ctime` = ?"));
    assert!(matches!(NodeRecord::ctime_statement(4, 9).params[0], SqlValue::Integer(9)));
    assert!(matches!(NodeRecord::ctime_statement(4, 9).params[1], SqlValue::Integer(4)));
    assert_eq!((record.mtime, record.ctime, record.crtime), (1000, 1000, 1000));
    record.file_type = FileType::Socket;
    record.save_at(2000, &mut alloc, &conn).unwrap();
    assert_eq!(record.inode, 69);
    assert_eq!((record.mtime, record.ctime, record.crtime), (1000, 2000, 1000));
    let read = NodeRecord::get(69, &conn).unwrap();
    assert_eq!(read.file_type, FileType::Socket);
    assert_eq!(read.main_parent, 7);
    assert_eq!(read.obj_uuid, 0xabc);
    assert_eq!((read.mtime, read.ctime, read.crtime), (1000, 2000, 1000));
    assert_eq!(alloc.peek(), Some(70));
}

#[test]
fn saving_fails_on_a_taken_inode_and_on_a_spent_allocator() {
    let (conn, _) = populated();
    let mut behind = InodeAllocator::recover(Some(64));
    let mut clash = NodeRecord::new_at(1, 0, 0, INODE_ROOT, 1, ObjectType::Filter, FileType::RegularFile);
    let res = clash.save_at(1, &mut behind, &conn);
    assert!(matches!(res, Err(DVError::SQLError(SqlFailure::Other(_)))));
    assert_eq!(clash.inode, 0);
    assert_eq!(behind.peek(), Some(66));
    let mut spent = InodeAllocator::recover(Some(u64::MAX));
    let res = clash.save_at(1, &mut spent, &conn);
    assert!(matches!(res, Err(DVError::InodesExhausted)));
    assert_eq!(clash.inode, 0);
}

#[test]
fn times_are_bumped_one_at_a_time() {
    let (conn, mut alloc) = populated();
    let mut record = NodeRecord::get(64, &conn).unwrap();
    record.update_mtime_at(777, &conn).unwrap();
    assert_eq!(record.mtime, 777);
    let read = NodeRecord::get(64, &conn).unwrap();
    assert_eq!((read.mtime, read.ctime, read.crtime), (777, 50, 50));
    record.update_metadata_at(888, &conn).unwrap();
    assert_eq!(record.ctime, 888);
    let read = NodeRecord::get(64, &conn).unwrap();
    assert_eq!((read.mtime, read.ctime, read.crtime), (777, 888, 50));
    let mut unsaved = NodeRecord::new_at(1, 0, 0, INODE_ROOT, 1, ObjectType::Filter, FileType::RegularFile);
    assert!(matches!(unsaved.update_mtime_at(5, &conn), Err(DVError::NodeNoNum)));
    assert!(matches!(unsaved.update_metadata_at(5, &conn), Err(DVError::NodeNoNum)));
    assert!(matches!(unsaved.update_mtime(&conn), Err(DVError::NodeNoNum)));
    assert!(matches!(unsaved.update_metadata(&conn), Err(DVError::NodeNoNum)));
    assert_eq!((unsaved.mtime, unsaved.ctime, unsaved.inode), (1, 1, 0));
    let mut absent = NodeRecord::new_at(1, 4000, 0, INODE_ROOT, 1, ObjectType::Filter, FileType::RegularFile);
    assert!(matches!(absent.update_metadata_at(5, &conn), Err(DVError::SQLError(SqlFailure::NotFound))));
    assert_eq!(absent.ctime, 1);
    assert!(absent.update_mtime_at(5, &conn).is_ok());
    let before = now_unix().unwrap();
    record.update_mtime(&conn).unwrap();
    record.update_metadata(&conn).unwrap();
    assert!(record.mtime >= before && record.ctime >= before);
    let mut fresh = NodeRecord::new_now(0, 0, 3, ObjectType::Filter, FileType::RegularFile).unwrap();
    assert!(fresh.crtime >= before);
    assert_eq!(fresh.main_parent, INODE_ROOT);
    fresh.save(&mut alloc, &conn).unwrap();
    assert_eq!(fresh.inode, 69);
}

#[test]
fn deleting_a_record_is_final() {
    let (conn, _) = populated();
    NodeRecord::del(66, &conn).unwrap();
    assert!(matches!(NodeRecord::get(66, &conn), Err(DVError::SQLError(SqlFailure::NotFound))));
    NodeRecord::del(66, &conn).unwrap();
    assert!(NodeRecord::get(65, &conn).is_ok());
}

#[test]
fn attributes_come_from_the_record() {
    let record = NodeRecord::new(70, 3, 1, 9, ObjectType::Filter, FileType::Symlink, 10, 20, 30);
    let attr = record.to_file_attr(3 * BLOCK_SIZE + 1);
    assert_eq!(attr.ino, 70);
    assert_eq!(attr.size, 12289);
    assert_eq!(attr.blocks, 3);
    assert_eq!((attr.atime, attr.mtime, attr.ctime, attr.crtime), (10, 10, 20, 30));
    assert_eq!(attr.kind, FileType::Symlink);
    assert_eq!(attr.nlink, 3);
    assert_eq!(attr.rdev, 0);
    assert_eq!(attr.flags, 0);
    assert_eq!(record.to_file_attr(4095).blocks, 0);
    assert_eq!(record.to_file_attr(u64::MAX).blocks, u64::MAX / 4096);
}

#[test]
fn uuids_are_read_and_written_by_the_uuid_crate() {
    let bits = 0x0123_4567_89ab_cdef_0011_2233_4455_6677u128;
    assert_eq!(uuid_to_string(bits), "01234567-89ab-cdef-0011-223344556677");
    assert_eq!(uuid_to_string(NIL_UUID), "00000000-0000-0000-0000-000000000000");
    assert_eq!(uuid_to_string(u128::MAX), "ffffffff-ffff-ffff-ffff-ffffffffffff");
    assert_eq!(parse_uuid("01234567-89ab-cdef-0011-223344556677").unwrap(), bits);
    assert_eq!(parse_uuid("0123456789ABCDEF0011223344556677").unwrap(), bits);
    assert_eq!(parse_uuid(&uuid::Uuid::from_u128(bits).urn().to_string()).unwrap(), bits);
    assert!(matches!(parse_uuid("not-a-uuid"), Err(DVError::UuidParseError(text)) if text == "not-a-uuid"));
    assert!(matches!(parse_uuid(""), Err(DVError::UuidParseError(_))));
    assert_eq!(uuid_outcome("x", Some(5)).unwrap(), 5);
    assert!(matches!(uuid_outcome("x", None), Err(DVError::UuidParseError(text)) if text == "x"));
}

#[test]
fn persisted_times_are_read_by_their_bits() {
    assert_eq!(sql2time(0).unwrap(), 0);
    assert_eq!(sql2time(1_700_000_000).unwrap(), 1_700_000_000);
    assert_eq!(sql2time(i64::MAX).unwrap(), MAX_TIMESTAMP);
    assert!(matches!(sql2time(-1), Err(DVError::TimeConversionErrorFromSecs(u64::MAX))));
    assert!(matches!(sql2time(i64::MIN), Err(DVError::TimeConversionErrorFromSecs(secs)) if secs == 1u64 << 63));
    assert_eq!(to_timestamp(UNIX_EPOCH + Duration::new(90, 999_999_999)).unwrap(), 90);
    assert_eq!(time2sql(UNIX_EPOCH + Duration::from_secs(12)).unwrap(), 12);
    assert!(to_timestamp(UNIX_EPOCH - Duration::from_secs(1)).is_err());
    assert!(time2sql(UNIX_EPOCH - Duration::from_secs(1)).is_err());
    assert!(now_unix().unwrap() > 1_600_000_000);
}

#[test]
fn cells_are_read_by_type() {
    let row = vec![
        SqlValue::Integer(-3),
        SqlValue::Text("t".to_string()),
        SqlValue::Null,
        SqlValue::Integer(0),
        SqlValue::Integer(1i64 << 32),
        SqlValue::Opaque,
        SqlValue::Blob(vec![1]),
    ];
    assert_eq!(cell_i64(&row, 0).unwrap(), -3);
    assert!(matches!(cell_i64(&row, 1), Err(SqlFailure::InvalidColumn(1))));
    assert!(matches!(cell_i64(&row, 2), Err(SqlFailure::InvalidColumn(2))));
    assert!(matches!(cell_i64(&row, 7), Err(SqlFailure::InvalidColumn(7))));
    assert_eq!(cell_opt_i64(&row, 2).unwrap(), None);
    assert_eq!(cell_opt_i64(&row, 0).unwrap(), Some(-3));
    assert!(cell_opt_i64(&row, 5).is_err());
    assert_eq!(cell_text(&row, 1).unwrap(), "t");
    assert!(matches!(cell_text(&row, 0), Err(SqlFailure::InvalidColumn(0))));
    assert!(cell_text(&row, 6).is_err());
    assert!(cell_bool(&row, 0).unwrap());
    assert!(!cell_bool(&row, 3).unwrap());
    assert!(cell_bool(&row, 1).is_err());
    assert_eq!(cell_u32(&row, 3).unwrap(), 0);
    assert!(matches!(cell_u32(&row, 0), Err(SqlFailure::InvalidColumn(0))));
    assert!(matches!(cell_u32(&row, 4), Err(SqlFailure::InvalidColumn(4))));
    let max = vec![SqlValue::Integer(u32::MAX as i64)];
    assert_eq!(cell_u32(&max, 0).unwrap(), u32::MAX);
}

#[test]
fn rows_decode_with_root_override() {
    let row = |inode: i64, counted: i64| {
        vec![
            SqlValue::Integer(inode),
            SqlValue::Integer(counted),
            SqlValue::Integer(1),
            SqlValue::Text("00000000-0000-0000-0000-00000000002a".to_string()),
            SqlValue::Text("O".to_string()),
            SqlValue::Text("D".to_string()),
            SqlValue::Integer(1),
            SqlValue::Integer(2),
            SqlValue::Integer(3),
        ]
    };
    let root = NodeRecord::from_row(&row(1, 0)).unwrap();
    assert_eq!(root.nlink, 2);
    assert_eq!(NodeRecord::from_row(&row(1, 17)).unwrap().nlink, 2);
    let other = NodeRecord::from_row(&row(70, 0)).unwrap();
    assert_eq!(other.nlink, 0);
    assert_eq!(other.obj_uuid, 42);
    assert_eq!((other.mtime, other.ctime, other.crtime), (1, 2, 3));
    assert_eq!(NodeRecord::from_row(&row(70, 5)).unwrap().nlink, 5);
    assert_eq!(NodeRecord::from_row(&row(-2, 5)).unwrap().inode, u64::MAX - 1);
    assert!(matches!(NodeRecord::from_row(&row(70, -1)), Err(DVError::SQLError(SqlFailure::InvalidColumn(1)))));
    assert!(matches!(NodeRecord::decode_row(&row(70, 1), None), Err(DVError::UuidParseError(_))));
    assert_eq!(NodeRecord::decode_row(&row(70, 1), Some(8)).unwrap().obj_uuid, 8);
    let mut short = row(70, 1);
    short.truncate(8);
    assert!(matches!(NodeRecord::from_row(&short), Err(DVError::SQLError(SqlFailure::InvalidColumn(8)))));
    assert!(matches!(
        NodeRecord::get_outcome(Ok(Vec::new())),
        Err(DVError::SQLError(SqlFailure::NotFound))
    ));
    assert!(matches!(
        NodeRecord::get_outcome(Err(SqlFailure::Other("io".to_string()))),
        Err(DVError::SQLError(SqlFailure::Other(_)))
    ));
    assert_eq!(NodeRecord::get_outcome(Ok(vec![row(70, 4), row(71, 1)])).unwrap().inode, 70);
}

#[test]
fn statements_say_what_is_handed_to_the_store() {
    let stmt = NodeRecord::search_statement(Some(5), None, None, None, None, Some(2), Some(4));
    assert!(stmt.sql.ends_with(
        "WHERE 1 = 1 AND `node_view`.`parent` = ? AND `node_view`.`name` IS NOT NULL ORDER BY `node_view`.`inode` ASC LIMIT ? OFFSET ?"
    ));
    assert_eq!(stmt.params.len(), 3);
    assert!(matches!(stmt.params[0], SqlValue::Integer(5)));
    assert!(matches!(stmt.params[1], SqlValue::Integer(2)));
    assert!(matches!(stmt.params[2], SqlValue::Integer(4)));
    let stmt = NodeRecord::search_statement(None, Some("n"), Some(ObjectType::BundleRoot), Some(1), Some(FileType::Socket), None, Some(4));
    assert!(stmt.sql.ends_with(
        "WHERE 1 = 1 AND `node_view`.`name` = ? AND `node_view`.`obj_type` = ? AND `node_view`.`obj_uuid` = ? AND `node_view`.`file_type` = ? ORDER BY `node_view`.`inode` ASC"
    ));
    assert_eq!(stmt.params.len(), 4);
    assert!(matches!(&stmt.params[1], SqlValue::Text(code) if code == "BR"));
    assert!(matches!(&stmt.params[2], SqlValue::Text(text) if text == "00000000-0000-0000-0000-000000000001"));
    assert!(matches!(&stmt.params[3], SqlValue::Text(code) if code == "S"));
    let stmt = NodeName::find_statement(u64::MAX, false, Some(3));
    assert_eq!(
        stmt.sql,
        "SELECT `inode`, `parent`, `hidden`, `name`, `file_type` FROM `node_view` WHERE `parent` = ? AND `hidden` = 0 ORDER BY `inode` ASC, `name` ASC LIMIT -1 OFFSET ?"
    );
    assert!(matches!(stmt.params[0], SqlValue::Integer(-1)));
    assert!(matches!(stmt.params[1], SqlValue::Integer(3)));
    let stmt = NodeName::find_statement(1, true, None);
    assert_eq!(stmt.sql, "SELECT `inode`, `parent`, `hidden`, `name`, `file_type` FROM `node_view` WHERE `parent` = ?");
    assert_eq!(stmt.params.len(), 1);
    let stmt = NodeName::new(1u64 << 63, 2, true, "n".to_string()).save_statement();
    assert!(matches!(stmt.params[0], SqlValue::Integer(i64::MIN)));
    assert!(matches!(stmt.params[2], SqlValue::Integer(1)));
    let stmt = NodeName::new(3, 2, false, "n".to_string()).del_statement();
    assert_eq!(stmt.params.len(), 3);
    let mut built = SqlStatement::new("SELECT ?");
    built.add(", ?", Some(SqlValue::Null));
    built.add(" -- done", None);
    assert_eq!(built.sql, "SELECT ?, ? -- done");
    assert_eq!(built.params.len(), 1);
}
