use datavir::allocator::{InodeAllocator, INODE_ROOT};
use datavir::datavir_fs::{
    ensure_auto_unmount, ensure_fs_name, readdir_reply, refusal, DataVirFS, DirHandle, FsOperation, MountOpt,
};
use datavir::dir_entries::{dir_entries, names_to_skip, DirEntry};
use datavir::errors::{DVError, Errno};
use datavir::file_type::FileType;
use datavir::node_name::{NodeName, NodeNameIter};
use datavir::node_record::NodeRecord;
use datavir::object_type::ObjectType;
use datavir::sql::{SqlFailure, SqlValue};

fn tree() -> (DataVirFS, u64) {
    let mut fs = DataVirFS::new("/tmp", "/tmp/none", ":memory:").unwrap();
    let mut dir = NodeRecord::new_at(100, 0, 0, INODE_ROOT, 1, ObjectType::OrgDir, FileType::Directory);
    fs.save(&mut dir).unwrap();
    let parent = dir.inode;
    NodeName::new(parent, INODE_ROOT, false, "P".to_string()).save(fs.connection()).unwrap();
    for (name, hidden) in [("a", false), ("b", false), ("c", false), ("d", true)] {
        let mut child =
            NodeRecord::new_at(100, 0, 0, parent, 2, ObjectType::BundleElement, FileType::RegularFile);
        fs.save(&mut child).unwrap();
        NodeName::new(child.inode, parent, hidden, name.to_string()).save(fs.connection()).unwrap();
    }
    (fs, parent)
}

fn names_of(entries: &[DirEntry]) -> Vec<String> {
    entries.iter().map(|e| e.name.clone()).collect()
}

#[test]
fn readdir_lists_synthetic_entries_then_visible_names() {
    let (fs, parent) = tree();
    let entries = fs.readdir(parent, 0).unwrap();
    assert_eq!(names_of(&entries), vec![".", "..", "a", "b", "c"]);
    assert_eq!(entries[0].ino, parent);
    assert_eq!(entries[1].ino, INODE_ROOT);
    assert_eq!(entries[0].kind, FileType::Directory);
    assert_eq!(entries[1].kind, FileType::Directory);
    assert_eq!(entries[2].kind, FileType::RegularFile);
    let offsets: Vec<i64> = entries.iter().map(|e| e.offset).collect();
    assert_eq!(offsets, vec![1, 2, 3, 4, 5]);
    assert_eq!(entries[2].ino, parent + 1);
}

#[test]
fn readdir_resumes_without_repeating() {
    let (fs, parent) = tree();
    assert_eq!(names_of(&fs.readdir(parent, 2).unwrap()), vec!["a", "b", "c"]);
    assert_eq!(names_of(&fs.readdir(parent, 1).unwrap()), vec!["..", "a", "b", "c"]);
    assert_eq!(names_of(&fs.readdir(parent, 3).unwrap()), vec!["b", "c"]);
    assert_eq!(names_of(&fs.readdir(parent, 4).unwrap()), vec!["c"]);
    assert!(fs.readdir(parent, 5).unwrap().is_empty());
    assert!(fs.readdir(parent, 50).unwrap().is_empty());
    let resumed = fs.readdir(parent, 3).unwrap();
    assert_eq!(resumed[0].offset, 4);
    assert_eq!(resumed[1].offset, 5);
    let again = fs.readdir(parent, 3).unwrap();
    assert_eq!(names_of(&again), names_of(&resumed));
}

#[test]
fn readdir_of_absent_inode_is_not_found() {
    let (fs, _) = tree();
    assert_eq!(fs.readdir(9999, 0).unwrap_err(), Errno::NotFound);
    assert_eq!(fs.readdir(9999, 1).unwrap_err(), Errno::NotFound);
    assert!(fs.readdir(9999, 2).unwrap().is_empty());
}

#[test]
fn hidden_names_are_listed_only_on_request() {
    let (fs, parent) = tree();
    let visible = NodeName::find(parent, false, None, fs.connection()).unwrap().collect_names();
    assert_eq!(visible.len(), 3);
    assert!(visible.iter().all(|n| !n.get_hidden()));
    let mut all = NodeName::find(parent, true, Some(0), fs.connection()).unwrap();
    assert_eq!(all.get_parent(), parent);
    let all = all.collect_names();
    let names: Vec<String> = all.iter().map(|n| n.get_name()).collect();
    assert_eq!(names, vec!["a", "b", "c", "d"]);
    assert!(all[3].get_hidden());
    assert_eq!(all[0].get_file_type(), Some(FileType::RegularFile));
    assert_eq!(all[0].get_parent(), parent);
    let skipped = NodeName::find(parent, true, Some(3), fs.connection()).unwrap().collect_names();
    assert_eq!(skipped.len(), 1);
    assert_eq!(skipped[0].get_name(), "d");
}

#[test]
fn root_lists_the_well_known_nodes() {
    let (fs, _) = tree();
    let names = names_of(&fs.readdir(INODE_ROOT, 0).unwrap());
    assert_eq!(
        names,
        vec![".", "..", "datavir.toml", ".datavir.socket", ".datavir.status", "Volumes", "All Bundles", "All Filters", "Trash", "P"]
    );
}

#[test]
fn lookup_and_getattr_give_attributes() {
    let (fs, parent) = tree();
    let attr = fs.lookup(parent, "b").unwrap();
    assert_eq!(attr.ino, parent + 2);
    assert_eq!(attr.kind, FileType::RegularFile);
    assert_eq!(attr.nlink, 1);
    assert_eq!(attr.size, 0);
    assert_eq!(attr.blocks, 0);
    assert_eq!(attr.blksize, 4096);
    assert_eq!(attr.perm, 0o755);
    assert_eq!(attr.uid, 0);
    assert_eq!(attr.gid, 0);
    assert_eq!(attr.mtime, attr.atime);
    assert_eq!(fs.lookup(parent, "nope").unwrap_err(), Errno::NotFound);
    assert_eq!(fs.lookup(parent + 1, "a").unwrap_err(), Errno::NotFound);
    let hidden = fs.lookup(parent, "d").unwrap();
    assert_eq!(hidden.ino, parent + 4);
    let same = fs.getattr(parent + 2).unwrap();
    assert_eq!(same, attr);
    assert_eq!(fs.getattr(INODE_ROOT).unwrap().nlink, 2);
    assert_eq!(fs.getattr(424242).unwrap_err(), Errno::NotFound);
    assert_eq!(fs.getattr(0).unwrap_err(), Errno::Io);
}

#[test]
fn opendir_takes_directories_and_nodes_with_names_under_them() {
    let (mut fs, parent) = tree();
    assert_eq!(fs.opendir(parent, 0).unwrap(), DirHandle { fh: 0, flags: 0 });
    assert_eq!(fs.opendir(INODE_ROOT, 0).unwrap(), DirHandle { fh: 0, flags: 0 });
    assert_eq!(fs.opendir(parent + 1, 0).unwrap_err(), Errno::NotADirectory);
    assert_eq!(fs.opendir(777777, 0).unwrap_err(), Errno::NotFound);
    let mut stale = NodeRecord::new_at(100, 0, 0, INODE_ROOT, 2, ObjectType::OrgDir, FileType::RegularFile);
    fs.save(&mut stale).unwrap();
    assert_eq!(fs.opendir(stale.inode, 0).unwrap_err(), Errno::NotADirectory);
    assert!(!stale.can_readdir(fs.connection()));
    NodeName::new(parent + 1, stale.inode, true, "secret".to_string()).save(fs.connection()).unwrap();
    assert_eq!(fs.opendir(stale.inode, 0).unwrap(), DirHandle { fh: 0, flags: 0 });
    assert!(stale.can_readdir(fs.connection()));
    assert!(fs.readdir(stale.inode, 2).unwrap().is_empty());
    let mut other = NodeRecord::new_at(100, 0, 0, INODE_ROOT, 2, ObjectType::OrgDir, FileType::Symlink);
    fs.save(&mut other).unwrap();
    assert_eq!(fs.opendir(other.inode, 0).unwrap_err(), Errno::NotADirectory);
    NodeName::new(parent + 1, other.inode, false, "inside".to_string()).save(fs.connection()).unwrap();
    assert_eq!(fs.opendir(other.inode, 0).unwrap(), DirHandle { fh: 0, flags: 0 });
}

#[test]
fn calls_that_are_not_served_are_refused_as_not_implemented() {
    let refused = [
        FsOperation::SetAttr,
        FsOperation::ReadLink,
        FsOperation::MkNod,
        FsOperation::MkDir,
        FsOperation::Unlink,
        FsOperation::RmDir,
        FsOperation::Symlink,
        FsOperation::Rename,
        FsOperation::Link,
        FsOperation::Open,
        FsOperation::Read,
        FsOperation::Write,
        FsOperation::Flush,
        FsOperation::Release,
        FsOperation::FSync,
        FsOperation::ReadDirPlus,
        FsOperation::ReleaseDir,
        FsOperation::FSyncDir,
        FsOperation::StatFs,
        FsOperation::SetXAttr,
        FsOperation::GetXAttr,
        FsOperation::ListXAttr,
        FsOperation::RemoveXAttr,
        FsOperation::Access,
        FsOperation::GetLk,
        FsOperation::SetLk,
        FsOperation::BMap,
        FsOperation::IoCtl,
        FsOperation::FAllocate,
        FsOperation::LSeek,
        FsOperation::CopyFileRange,
    ];
    for op in refused {
        assert_eq!(refusal(op), Some(Errno::NotImplemented));
    }
    for op in [
        FsOperation::Lookup,
        FsOperation::GetAttr,
        FsOperation::OpenDir,
        FsOperation::ReadDir,
        FsOperation::Destroy,
        FsOperation::Forget,
    ] {
        assert_eq!(refusal(op), None);
    }
}

#[test]
fn mount_options_are_completed_once() {
    let (mut fs, _) = tree();
    assert_eq!(fs.get_data_path(), "/tmp");
    assert_eq!(fs.get_mount_path(), "/tmp/none");
    assert_eq!(fs.get_basic_ttl(), 1);
    {
        let opts = fs.mount_options();
        assert_eq!(opts.len(), 2);
        assert!(matches!(&opts[0], MountOpt::FSName(name) if name == "datavir"));
        assert!(matches!(&opts[1], MountOpt::AutoUnmount));
    }
    assert_eq!(fs.mount_options().len(), 2);
    let mut opts = vec![MountOpt::Custom("ro".to_string()), MountOpt::FSName("mine".to_string())];
    ensure_fs_name(&mut opts, "datavir");
    assert_eq!(opts.len(), 2);
    assert!(matches!(&opts[1], MountOpt::FSName(name) if name == "mine"));
    ensure_auto_unmount(&mut opts);
    ensure_auto_unmount(&mut opts);
    assert_eq!(opts.len(), 3);
    assert!(matches!(&opts[2], MountOpt::AutoUnmount));
}

#[test]
fn entries_are_built_from_names_and_offset() {
    let mut names = Vec::new();
    for (i, name) in ["x", "y"].iter().enumerate() {
        let row = vec![
            SqlValue::Integer(70 + i as i64),
            SqlValue::Integer(9),
            SqlValue::Integer(0),
            SqlValue::Text(name.to_string()),
            SqlValue::Text("D".to_string()),
        ];
        names.push(NodeName::from_row(&row).unwrap());
    }
    let entries = dir_entries(9, 4, 0, &names);
    assert_eq!(names_of(&entries), vec![".", "..", "x", "y"]);
    assert_eq!(entries[1].ino, 4);
    assert_eq!(entries[3].offset, 4);
    assert_eq!(entries[3].ino, 71);
    assert_eq!(entries[3].kind, FileType::Directory);
    let resumed = dir_entries(9, 4, 7, &names);
    assert_eq!(resumed.iter().map(|e| e.offset).collect::<Vec<i64>>(), vec![8, 9]);
    let negative = dir_entries(9, 4, -5, &names);
    assert_eq!(names_of(&negative), vec![".", "..", "x", "y"]);
    let late = dir_entries(9, 4, i64::MAX, &names);
    assert!(late.is_empty());
    let nearly = dir_entries(9, 4, i64::MAX - 1, &names);
    assert_eq!(nearly.len(), 1);
    assert_eq!(nearly[0].offset, i64::MAX);
    assert_eq!(names_to_skip(-1), 0);
    assert_eq!(names_to_skip(0), 0);
    assert_eq!(names_to_skip(2), 0);
    assert_eq!(names_to_skip(3), 1);
    assert_eq!(names_to_skip(i64::MAX), i64::MAX - 2);
}

#[test]
fn readdir_reply_reports_the_first_failure() {
    let none: Vec<NodeName> = Vec::new();
    let reply = readdir_reply(5, 0, Err(DVError::SQLError(SqlFailure::NotFound)), Ok(none));
    assert_eq!(reply.unwrap_err(), Errno::NotFound);
    let reply = readdir_reply(5, 2, Err(DVError::SQLError(SqlFailure::NotFound)), Ok(Vec::new()));
    assert!(reply.unwrap().is_empty());
    let reply = readdir_reply(5, 0, Ok(1), Err(DVError::SQLError(SqlFailure::Other("locked".to_string()))));
    assert_eq!(reply.unwrap_err(), Errno::Io);
    let reply = readdir_reply(5, 1, Ok(3), Ok(Vec::new())).unwrap();
    assert_eq!(reply.len(), 1);
    assert_eq!(reply[0].ino, 3);
    assert_eq!(reply[0].name, "..");
}

#[test]
fn malformed_rows_do_not_end_a_listing() {
    let good = |inode: i64, name: &str| {
        vec![
            SqlValue::Integer(inode),
            SqlValue::Integer(1),
            SqlValue::Integer(1),
            SqlValue::Text(name.to_string()),
            SqlValue::Text("F".to_string()),
        ]
    };
    let bad_code = vec![
        SqlValue::Integer(3),
        SqlValue::Integer(1),
        SqlValue::Integer(0),
        SqlValue::Text("odd".to_string()),
        SqlValue::Text("?".to_string()),
    ];
    let short = vec![SqlValue::Integer(4)];
    let wrong = vec![
        SqlValue::Text("5".to_string()),
        SqlValue::Integer(1),
        SqlValue::Integer(0),
        SqlValue::Text("n".to_string()),
        SqlValue::Text("F".to_string()),
    ];
    let rows = vec![bad_code.clone(), good(10, "first"), short.clone(), wrong.clone(), good(-1, "last")];
    let mut listing = NodeNameIter::from_rows(1, Ok(rows.clone())).unwrap();
    assert_eq!(listing.get_pos(), 0);
    assert!(matches!(listing.try_next(), Err(DVError::FuseTypeParseError(code)) if code == "?"));
    assert_eq!(listing.get_pos(), 0);
    let first = listing.try_next().unwrap();
    assert_eq!(first.get_inode(), 10);
    assert!(first.get_hidden());
    assert_eq!(listing.get_pos(), 1);
    assert!(matches!(listing.try_next(), Err(DVError::SQLError(SqlFailure::InvalidColumn(1)))));
    assert!(matches!(listing.try_next(), Err(DVError::SQLError(SqlFailure::InvalidColumn(0)))));
    let last = listing.try_next().unwrap();
    assert_eq!(last.get_inode(), u64::MAX);
    assert_eq!(listing.get_pos(), 2);
    assert!(matches!(listing.try_next(), Err(DVError::NoMoreResults)));
    assert!(matches!(listing.try_next(), Err(DVError::NoMoreResults)));

    let mut skipping = NodeNameIter::from_rows(1, Ok(rows.clone())).unwrap();
    assert_eq!(skipping.next_name().unwrap().get_name(), "first");
    assert_eq!(skipping.next_name().unwrap().get_name(), "last");
    assert!(skipping.next_name().is_none());
    assert_eq!(skipping.get_pos(), 2);

    let mut all = NodeNameIter::from_rows(1, Ok(rows)).unwrap();
    let names = all.collect_names();
    assert_eq!(names.len(), 2);
    assert_eq!(all.get_pos(), 2);
    assert!(all.next_name().is_none());
    assert!(matches!(
        NodeNameIter::from_rows(1, Err(SqlFailure::Other("gone".to_string()))),
        Err(DVError::SQLError(SqlFailure::Other(_)))
    ));
}

#[test]
fn calls_hand_over_what_they_were_asked() {
    let stmt = DataVirFS::lookup_statement(9, "child");
    assert!(stmt.sql.ends_with("WHERE 1 = 1 AND `node_view`.`parent` = ? AND `node_view`.`name` = ? LIMIT ?"));
    assert_eq!(stmt.params.len(), 3);
    assert!(matches!(stmt.params[0], SqlValue::Integer(9)));
    assert!(matches!(&stmt.params[1], SqlValue::Text(name) if name == "child"));
    assert!(matches!(stmt.params[2], SqlValue::Integer(1)));
    let stmt = DataVirFS::listing_statement(9, 7);
    assert!(stmt.sql.contains(" AND `hidden` = 0"));
    assert!(stmt.sql.ends_with(" LIMIT -1 OFFSET ?"));
    assert!(matches!(stmt.params[0], SqlValue::Integer(9)));
    assert!(matches!(stmt.params[1], SqlValue::Integer(5)));
    assert!(matches!(DataVirFS::listing_statement(9, 0).params[1], SqlValue::Integer(0)));
    let stmt = NodeRecord::children_statement(9);
    assert!(!stmt.sql.contains("`hidden`, `name`, `file_type` FROM `node_view` WHERE `parent` = ? AND"));
    assert_eq!(stmt.params.len(), 1);
    let stmt = NodeRecord::find_one_statement(None, None, Some(ObjectType::Filter), None, None);
    assert!(stmt.sql.ends_with(" AND `node_view`.`name` IS NOT NULL AND `node_view`.`obj_type` = ? LIMIT ?"));
    assert!(matches!(stmt.params[1], SqlValue::Integer(1)));
}
