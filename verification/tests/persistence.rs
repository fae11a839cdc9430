use datavir::allocator::{InodeAllocator, INODE_ROOT};
use datavir::datavir_fs::{commit_tx, DataVirFS};
use datavir::errors::DVError;
use datavir::file_type::FileType;
use datavir::node_name::NodeName;
use datavir::node_record::NodeRecord;
use datavir::object_type::ObjectType;
use datavir::schema::{get_highest_inode, get_schema_version, open_database, reserve_inodes, set_inode_counter};
use datavir::sql::SqlFailure;
use std::time::{SystemTime, UNIX_EPOCH};

fn store_path(tag: &str) -> String {
    let nanos = SystemTime::now().duration_since(UNIX_EPOCH).unwrap().as_nanos();
    format!("/tmp/datavir-test-{}-{}.sqlite", tag, nanos)
}

fn reserved_rows(conn: &rusqlite::Connection) -> Vec<(i64, i64, String, String, Option<String>, (i64, i64, i64))> {
    let mut stmt = conn
        .prepare("SELECT `inode`, `main_parent`, `obj_uuid`, `obj_type`, `file_type`, `mtime`, `ctime`, `crtime` FROM `node_meta` WHERE `inode` < 64 ORDER BY `inode`")
        .unwrap();
    let rows = stmt
        .query_map([], |row| {
            Ok((row.get(0)?, row.get(1)?, row.get(2)?, row.get(3)?, row.get(4)?, (row.get(5)?, row.get(6)?, row.get(7)?)))
        })
        .unwrap();
    rows.map(|r| r.unwrap()).collect()
}

fn reserved_names(conn: &rusqlite::Connection) -> Vec<(i64, i64, bool, String)> {
    let mut stmt = conn
        .prepare("SELECT `inode`, `parent`, `hidden`, `name` FROM `node_name` ORDER BY `inode`, `name`")
        .unwrap();
    let rows = stmt.query_map([], |row| Ok((row.get(0)?, row.get(1)?, row.get(2)?, row.get(3)?))).unwrap();
    rows.map(|r| r.unwrap()).collect()
}

#[test]
fn reopening_goes_on_after_the_highest_inode() {
    let path = store_path("reopen");
    {
        let mut alloc = InodeAllocator::new();
        let conn = open_database(&path, &mut alloc).unwrap();
        for _ in 0..3 {
            let mut record =
                NodeRecord::new_at(5, 0, 0, INODE_ROOT, 1, ObjectType::OrgDir, FileType::Directory);
            record.save_at(5, &mut alloc, &conn).unwrap();
        }
        assert_eq!(get_highest_inode(&conn).unwrap(), Some(66));
    }
    let mut alloc = InodeAllocator::new();
    let conn = open_database(&path, &mut alloc).unwrap();
    assert_eq!(alloc.next(), Some(67));
    assert_eq!(get_schema_version(&conn).unwrap(), 1);
}

#[test]
fn highest_inode_is_read_as_unsigned() {
    let mut alloc = InodeAllocator::new();
    let conn = open_database(":memory:", &mut alloc).unwrap();
    let big = (1u64 << 63) + 5;
    let mut record = NodeRecord::new_at(5, big, 0, INODE_ROOT, 1, ObjectType::OrgDir, FileType::Directory);
    record.save_at(5, &mut alloc, &conn).unwrap();
    let mut bigger = NodeRecord::new_at(5, big + 10, 0, INODE_ROOT, 1, ObjectType::OrgDir, FileType::Directory);
    bigger.save_at(5, &mut alloc, &conn).unwrap();
    assert_eq!(get_highest_inode(&conn).unwrap(), Some(big + 10));
    set_inode_counter(&conn, &mut alloc).unwrap();
    assert_eq!(alloc.next(), Some(big + 11));
    assert_eq!(NodeRecord::get(big, &conn).unwrap().inode, big);
}

#[test]
fn reservation_is_idempotent() {
    let mut alloc = InodeAllocator::new();
    let conn = open_database(":memory:", &mut alloc).unwrap();
    conn.execute("UPDATE `node_meta` SET `mtime` = 5, `ctime` = 6, `crtime` = 7 WHERE `inode` < 64", []).unwrap();
    let rows_once = reserved_rows(&conn);
    let names_once = reserved_names(&conn);
    reserve_inodes(&conn).unwrap();
    reserve_inodes(&conn).unwrap();
    assert_eq!(reserved_rows(&conn), rows_once);
    assert_eq!(reserved_names(&conn), names_once);
    assert_eq!(rows_once.len(), 64);
    assert_eq!(names_once.len(), 7);
    assert_eq!(
        rows_once[1],
        (1, 1, "00000000-0000-0000-0000-000000000000".to_string(), "R".to_string(), Some("D".to_string()), (5, 6, 7))
    );
    assert_eq!(rows_once[3].4, Some("S".to_string()));
    assert_eq!(rows_once[9].4, None);
    assert_eq!(names_once[0], (2, 1, false, "datavir.toml".to_string()));
    assert_eq!(names_once[6], (8, 1, false, "Trash".to_string()));
    conn.execute("UPDATE `node_meta` SET `file_type` = 'L', `main_parent` = 9 WHERE `inode` = 30", []).unwrap();
    reserve_inodes(&conn).unwrap();
    assert_eq!(reserved_rows(&conn), rows_once);
}

#[test]
fn tampered_reserved_names_are_healed_on_reopen() {
    let path = store_path("heal");
    {
        let mut alloc = InodeAllocator::new();
        let conn = open_database(&path, &mut alloc).unwrap();
        conn.execute("DELETE FROM `node_name` WHERE `inode` = 8", []).unwrap();
        conn.execute("UPDATE `node_meta` SET `file_type` = 'F' WHERE `inode` = 1", []).unwrap();
    }
    let mut alloc = InodeAllocator::new();
    let conn = open_database(&path, &mut alloc).unwrap();
    assert_eq!(reserved_names(&conn).len(), 7);
    assert_eq!(NodeRecord::get(INODE_ROOT, &conn).unwrap().file_type, FileType::Directory);
}

#[test]
fn unreserved_row_in_reserved_range_is_fatal() {
    let path = store_path("fatal");
    {
        let mut alloc = InodeAllocator::new();
        let conn = open_database(&path, &mut alloc).unwrap();
        conn.execute(
            "INSERT OR REPLACE INTO `node_meta` (`inode`, `main_parent`, `obj_uuid`, `obj_type`, `file_type`) VALUES (40, 1, '00000000-0000-0000-0000-000000000000', 'F', 'F')",
            [],
        )
        .unwrap();
    }
    let mut alloc = InodeAllocator::new();
    match open_database(&path, &mut alloc) {
        Err(err) => {
            assert!(matches!(err, DVError::ReservedRangeViolated(1)));
            assert!(err.is_fatal());
        }
        Ok(_) => panic!("a corrupt store must not open"),
    }
    assert_eq!(alloc.peek(), Some(64));
}

#[test]
fn upsert_of_a_name_keeps_one_row() {
    let mut alloc = InodeAllocator::new();
    let conn = open_database(":memory:", &mut alloc).unwrap();
    let name = NodeName::new(5, 1, false, "x".to_string());
    name.save(&conn).unwrap();
    name.save(&conn).unwrap();
    let count: i64 = conn
        .query_row("SELECT COUNT(*) FROM `node_name` WHERE `inode` = 5 AND `parent` = 1 AND `name` = 'x'", [], |r| r.get(0))
        .unwrap();
    assert_eq!(count, 1);
    let hidden = NodeName::new(5, 1, true, "x".to_string());
    hidden.save(&conn).unwrap();
    let flags: Vec<bool> = {
        let mut stmt = conn.prepare("SELECT `hidden` FROM `node_name` WHERE `inode` = 5 AND `name` = 'x'").unwrap();
        let rows = stmt.query_map([], |r| r.get(0)).unwrap();
        rows.map(|r| r.unwrap()).collect()
    };
    assert_eq!(flags, vec![true]);
}

#[test]
fn same_name_for_another_inode_is_another_row() {
    let mut alloc = InodeAllocator::new();
    let conn = open_database(":memory:", &mut alloc).unwrap();
    NodeName::new(5, 1, false, "x".to_string()).save(&conn).unwrap();
    NodeName::new(6, 1, false, "x".to_string()).save(&conn).unwrap();
    NodeName::new(5, 2, false, "x".to_string()).save(&conn).unwrap();
    let count: i64 = conn.query_row("SELECT COUNT(*) FROM `node_name` WHERE `name` = 'x'", [], |r| r.get(0)).unwrap();
    assert_eq!(count, 3);
    let clash = conn.execute("INSERT INTO `node_name` (`inode`, `parent`, `hidden`, `name`) VALUES (5, 1, 0, 'x')", []);
    assert!(clash.is_err());
}

#[test]
fn deleting_a_name_removes_exactly_that_row() {
    let mut alloc = InodeAllocator::new();
    let conn = open_database(":memory:", &mut alloc).unwrap();
    NodeName::new(70, 1, false, "a".to_string()).save(&conn).unwrap();
    NodeName::new(70, 1, false, "b".to_string()).save(&conn).unwrap();
    NodeName::new(70, 2, false, "a".to_string()).save(&conn).unwrap();
    NodeName::new(70, 1, false, "a".to_string()).del(&conn).unwrap();
    let left: i64 = conn.query_row("SELECT COUNT(*) FROM `node_name` WHERE `inode` = 70", [], |r| r.get(0)).unwrap();
    assert_eq!(left, 2);
    NodeName::new(70, 1, false, "missing".to_string()).del(&conn).unwrap();
}

#[test]
fn dropped_transaction_leaves_the_store_unchanged() {
    let path = store_path("rollback");
    {
        let mut fs = DataVirFS::new("/tmp", "/tmp/none", &path).unwrap();
        let mut kept = NodeRecord::new_at(9, 0, 0, INODE_ROOT, 3, ObjectType::Filter, FileType::RegularFile);
        fs.save(&mut kept).unwrap();
        assert_eq!(kept.inode, 64);
        {
            let tx = fs.new_tx().unwrap();
            let mut alloc = InodeAllocator::recover(Some(100));
            let mut lost = NodeRecord::new_at(9, 0, 0, INODE_ROOT, 4, ObjectType::Filter, FileType::RegularFile);
            lost.save_at(9, &mut alloc, &tx).unwrap();
            assert_eq!(lost.inode, 101);
            NodeName::new(101, 1, false, "lost".to_string()).save(&tx).unwrap();
            assert!(NodeRecord::get(101, &tx).is_ok());
        }
        {
            let tx = fs.new_tx().unwrap();
            let mut alloc = InodeAllocator::recover(Some(200));
            let mut stays = NodeRecord::new_at(9, 0, 0, INODE_ROOT, 5, ObjectType::Filter, FileType::RegularFile);
            stays.save_at(9, &mut alloc, &tx).unwrap();
            commit_tx(tx).unwrap();
        }
    }
    let mut alloc = InodeAllocator::new();
    let conn = open_database(&path, &mut alloc).unwrap();
    assert!(NodeRecord::get(64, &conn).is_ok());
    assert!(matches!(NodeRecord::get(101, &conn), Err(DVError::SQLError(SqlFailure::NotFound))));
    assert!(NodeRecord::get(201, &conn).is_ok());
    let names: i64 = conn.query_row("SELECT COUNT(*) FROM `node_name` WHERE `name` = 'lost'", [], |r| r.get(0)).unwrap();
    assert_eq!(names, 0);
    assert_eq!(alloc.peek(), Some(202));
}
