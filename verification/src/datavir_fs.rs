//! The filesystem as the kernel sees it: every call becomes a transaction on
//! the store and a reply made of plain values.
//!
//! A transaction that is not committed is rolled back when it is dropped.
//! The calls that read never commit, so a call that ends early leaves the
//! store as it was.

use vstd::prelude::*;
use rusqlite::Connection;
use rusqlite::Transaction;
use crate::allocator::InodeAllocator;
use crate::dir_entries::dir_entries;
use crate::dir_entries::entry_views;
use crate::dir_entries::names_to_skip;
use crate::dir_entries::spec_dir_entries;
use crate::dir_entries::DirEntry;
use crate::errors::spec_errno;
use crate::errors::DVError;
use crate::errors::DVResult;
use crate::errors::Errno;
use crate::dir_entries::spec_names_to_skip;
use crate::node_name::spec_find_names;
use crate::node_name::spec_good_names;
use crate::node_name::NodeName;
use crate::node_name::NodeNameIter;
use crate::node_record::spec_clock_failed;
use crate::node_record::spec_file_attr;
use crate::node_record::spec_find_one_outcome;
use crate::node_record::spec_get_outcome;
use crate::node_record::spec_search;
use crate::node_record::spec_search_outcome;
use crate::node_record::spec_save_relation;
use crate::node_record::FileAttr;
use crate::node_record::NodeRecord;
use crate::schema::open_database;
use crate::schema::spec_bootstrap_error;
use crate::schema::spec_recovered;
use crate::sql::SqlFailure;
use crate::sql::sql_failure;
use crate::sql::query;
use crate::sql::SqlStatement;
use crate::sql::SqlValue;

verus! {

/// The name under which the filesystem shows up among the mounts.
pub const DEFAULT_FS_NAME: &'static str = "datavir";

/// For how many seconds the kernel may keep a reply.
pub const BASIC_TTL_SECS: u64 = 1;

/// Begins a transaction with `rusqlite::Connection::unchecked_transaction`.
/// It is rolled back when it is dropped, unless it was committed.
#[verifier::external_body]
fn begin_transaction<'conn>(conn: &'conn Connection) -> Result<Transaction<'conn>, rusqlite::Error> {
    conn.unchecked_transaction()
}

/// The connection that a transaction works on, which `rusqlite::Transaction`
/// dereferences to.
#[verifier::external_body]
fn transaction_connection<'a, 'conn>(tx: &'a Transaction<'conn>) -> &'a Connection {
    tx
}

/// Commits a transaction with `rusqlite::Transaction::commit`.
#[verifier::external_body]
fn commit_transaction(tx: Transaction<'_>) -> Result<(), rusqlite::Error> {
    tx.commit()
}

/// An option of a mount.
#[derive(Debug)]
pub enum MountOpt {
    /// The name of the filesystem.
    FSName(String),
    /// Unmount when the process ends.
    AutoUnmount,
    /// Any other option, as the text that the mount takes.
    Custom(String),
}

/// The handle of an opened directory. Nothing is kept for it.
#[derive(Debug, Clone, Copy, PartialEq, Eq, Structural)]
pub struct DirHandle {
    pub fh: u64,
    pub flags: u32,
}

/// The calls that the kernel makes.
#[derive(Debug, Clone, Copy, PartialEq, Eq, Structural)]
pub enum FsOperation {
    Destroy,
    Lookup,
    Forget,
    GetAttr,
    SetAttr,
    ReadLink,
    MkNod,
    MkDir,
    Unlink,
    RmDir,
    Symlink,
    Rename,
    Link,
    Open,
    Read,
    Write,
    Flush,
    Release,
    FSync,
    OpenDir,
    ReadDir,
    ReadDirPlus,
    ReleaseDir,
    FSyncDir,
    StatFs,
    SetXAttr,
    GetXAttr,
    ListXAttr,
    RemoveXAttr,
    Access,
    GetLk,
    SetLk,
    BMap,
    IoCtl,
    FAllocate,
    LSeek,
    CopyFileRange,
}

/// Whether a call is answered from the store. `Destroy` and `Forget` need
/// no answer and do nothing.
pub open spec fn spec_is_served(op: FsOperation) -> bool {
    op == FsOperation::Lookup || op == FsOperation::GetAttr || op == FsOperation::OpenDir || op
        == FsOperation::ReadDir || op == FsOperation::Destroy || op == FsOperation::Forget
}

/// Whether a call would change the tree or the content of a file.
pub open spec fn spec_is_mutating(op: FsOperation) -> bool {
    op == FsOperation::SetAttr || op == FsOperation::MkNod || op == FsOperation::MkDir || op
        == FsOperation::Unlink || op == FsOperation::RmDir || op == FsOperation::Symlink || op
        == FsOperation::Rename || op == FsOperation::Link || op == FsOperation::Write || op
        == FsOperation::SetXAttr || op == FsOperation::RemoveXAttr || op == FsOperation::FAllocate
        || op == FsOperation::CopyFileRange
}

/// The reply to a call that is not answered from the store.
pub open spec fn spec_refusal(op: FsOperation) -> Option<Errno> {
    if spec_is_served(op) {
        None
    } else {
        Some(Errno::NotImplemented)
    }
}

/// The reply to a call that is not answered from the store: always "not
/// implemented". Such a call never reaches the store. `None` marks a call
/// that is served.
pub fn refusal(op: FsOperation) -> (reply: Option<Errno>)
    ensures
        reply == spec_refusal(op),
{
    match op {
        FsOperation::Lookup => None,
        FsOperation::GetAttr => None,
        FsOperation::OpenDir => None,
        FsOperation::ReadDir => None,
        FsOperation::Destroy => None,
        FsOperation::Forget => None,
        _ => Some(Errno::NotImplemented),
    }
}

/// Every call that would change the tree or a file is refused as not
/// implemented.
pub proof fn lemma_mutating_calls_are_refused(op: FsOperation)
    requires
        spec_is_mutating(op),
    ensures
        spec_refusal(op) == Some(Errno::NotImplemented),
{
}

/// The reply that carries the attributes of a node, or the POSIX condition
/// of the error that kept them from being found.
pub open spec fn spec_attr_reply(found: DVResult<NodeRecord>) -> Result<FileAttr, Errno> {
    match found {
        Ok(record) => Ok(spec_file_attr(record, 0)),
        Err(err) => Err(spec_errno(err)),
    }
}

/// Makes the reply to `lookup` and `getattr` of what the store gave.
pub fn attr_reply(found: DVResult<NodeRecord>) -> (reply: Result<FileAttr, Errno>)
    ensures
        reply == spec_attr_reply(found),
{
    match found {
        Ok(record) => Ok(record.to_file_attr(0)),
        Err(err) => Err(err.errno()),
    }
}

/// The reply to `opendir`: a handle for a node that can be listed, "not a
/// directory" for one that cannot.
pub open spec fn spec_open_reply(found: DVResult<NodeRecord>, able: bool) -> Result<DirHandle, Errno> {
    match found {
        Err(err) => Err(spec_errno(err)),
        Ok(_) => if able {
            Ok(DirHandle { fh: 0, flags: 0 })
        } else {
            Err(Errno::NotADirectory)
        },
    }
}

/// The reply to `readdir`. The main parent is needed only where `..` is
/// part of the listing.
pub open spec fn spec_readdir_reply(
    ino: u64,
    offset: i64,
    parent: DVResult<u64>,
    listing: DVResult<Vec<NodeName>>,
    reply: Result<Vec<DirEntry>, Errno>,
) -> bool {
    if offset <= 1 && parent is Err {
        reply matches Err(errno) && errno == spec_errno(parent->Err_0)
    } else {
        match listing {
            Err(err) => reply matches Err(errno) && errno == spec_errno(err),
            Ok(names) => reply matches Ok(entries) && entry_views(entries@) == spec_dir_entries(
                ino,
                if parent is Ok {
                    parent->Ok_0
                } else {
                    0
                },
                offset,
                names@,
            ),
        }
    }
}

/// Whether every name carries its file type.
pub open spec fn spec_names_typed(listing: DVResult<Vec<NodeName>>) -> bool {
    listing matches Ok(names) ==> forall|i: int|
        0 <= i < names.len() ==> (#[trigger] names[i]).file_type is Some
}

/// Makes the reply to `readdir` of the main parent and the names that the
/// store gave.
pub fn readdir_reply(ino: u64, offset: i64, parent: DVResult<u64>, listing: DVResult<Vec<NodeName>>) -> (reply:
    Result<Vec<DirEntry>, Errno>)
    requires
        spec_names_typed(listing),
    ensures
        spec_readdir_reply(ino, offset, parent, listing, reply),
{
    let parent_inode = match parent {
        Ok(inode) => inode,
        Err(err) => {
            if offset <= 1 {
                return Err(err.errno());
            }
            0
        },
    };
    match listing {
        Err(err) => Err(err.errno()),
        Ok(names) => Ok(dir_entries(ino, parent_inode, offset, &names)),
    }
}

/// Whether a list of mount options names the filesystem.
pub open spec fn spec_has_fs_name(opts: Seq<MountOpt>) -> bool {
    exists|i: int| 0 <= i < opts.len() && (#[trigger] opts[i]) is FSName
}

/// Whether a list of mount options asks to unmount when the process ends.
pub open spec fn spec_has_auto_unmount(opts: Seq<MountOpt>) -> bool {
    exists|i: int| 0 <= i < opts.len() && (#[trigger] opts[i]) is AutoUnmount
}

/// Gives the filesystem a name unless the options already hold one.
pub fn ensure_fs_name(opts: &mut Vec<MountOpt>, default_name: &str)
    ensures
        spec_has_fs_name(old(opts)@) ==> final(opts)@ == old(opts)@,
        !spec_has_fs_name(old(opts)@) ==> final(opts)@.len() == old(opts)@.len() + 1,
        !spec_has_fs_name(old(opts)@) ==> final(opts)@.drop_last() == old(opts)@,
        !spec_has_fs_name(old(opts)@) ==> (final(opts)@.last() matches MountOpt::FSName(name)
            && name@ == default_name@),
{
    let mut i: usize = 0;
    while i < opts.len()
        invariant
            i <= opts.len(),
            *opts == *old(opts),
            forall|j: int| 0 <= j < i ==> !((#[trigger] opts[j]) is FSName),
        decreases opts.len() - i,
    {
        if let MountOpt::FSName(_) = &opts[i] {
            return ;
        }
        i = i + 1;
    }
    opts.push(MountOpt::FSName(String::from_str(default_name)));
    assert(opts@.drop_last() =~= old(opts)@);
}

/// Asks for the unmount at the end of the process unless the options
/// already do.
pub fn ensure_auto_unmount(opts: &mut Vec<MountOpt>)
    ensures
        spec_has_auto_unmount(old(opts)@) ==> final(opts)@ == old(opts)@,
        !spec_has_auto_unmount(old(opts)@) ==> final(opts)@ == old(opts)@.push(
            MountOpt::AutoUnmount,
        ),
{
    let mut i: usize = 0;
    while i < opts.len()
        invariant
            i <= opts.len(),
            *opts == *old(opts),
            forall|j: int| 0 <= j < i ==> !((#[trigger] opts[j]) is AutoUnmount),
        decreases opts.len() - i,
    {
        if let MountOpt::AutoUnmount = &opts[i] {
            return ;
        }
        i = i + 1;
    }
    opts.push(MountOpt::AutoUnmount);
}

/// A store that is ready to be mounted.
#[derive(Debug)]
pub struct DataVirFS {
    conn: Connection,
    data_path: String,
    mount_path: String,
    mount_opts: Vec<MountOpt>,
    inode_next: InodeAllocator,
}

impl DataVirFS {
    /// The connection on which every call of this session works.
    pub closed spec fn spec_connection(&self) -> Connection {
        self.conn
    }

    /// The allocator of this session.
    pub closed spec fn spec_allocator(&self) -> InodeAllocator {
        self.inode_next
    }

    /// The inode that the next new node gets.
    pub open spec fn upcoming_inode(&self) -> Option<u64> {
        self.spec_allocator().upcoming()
    }

    /// The directory that holds the store.
    pub closed spec fn spec_data_path(&self) -> Seq<char> {
        self.data_path@
    }

    /// The directory on which the store is mounted.
    pub closed spec fn spec_mount_path(&self) -> Seq<char> {
        self.mount_path@
    }

    /// The options of the mount.
    pub closed spec fn spec_mount_opts(&self) -> Seq<MountOpt> {
        self.mount_opts@
    }

    /// Opens the store at `db_path`, which lies in the data directory, and
    /// brings it into shape. The directories must have been checked before.
    pub fn new(data_path: &str, mount_path: &str, db_path: &str) -> (res: DVResult<DataVirFS>)
        ensures
            res matches Ok(fs) ==> fs.spec_mount_opts().len() == 0 && fs.spec_data_path()
                == data_path@ && fs.spec_mount_path() == mount_path@,
            res is Ok ==> exists|fetched: Result<Vec<Vec<SqlValue>>, SqlFailure>|
                #[trigger] spec_recovered(fetched, res->Ok_0.spec_allocator()),
            res matches Err(err) ==> spec_bootstrap_error(err),
    {
        let mut inode_next = InodeAllocator::new();
        match open_database(db_path, &mut inode_next) {
            Ok(conn) => {
                let ghost fetched = choose|fetched: Result<Vec<Vec<SqlValue>>, SqlFailure>|
                    #[trigger] spec_recovered(fetched, inode_next);
                let fs = DataVirFS {
                    conn,
                    data_path: String::from_str(data_path),
                    mount_path: String::from_str(mount_path),
                    mount_opts: Vec::new(),
                    inode_next,
                };
                let res: DVResult<DataVirFS> = Ok(fs);
                assert(spec_recovered(fetched, res->Ok_0.spec_allocator()));
                res
            },
            Err(err) => Err(err),
        }
    }

    pub fn get_data_path(&self) -> (path: &str)
        ensures
            path@ == self.spec_data_path(),
    {
        self.data_path.as_str()
    }

    pub fn get_mount_path(&self) -> (path: &str)
        ensures
            path@ == self.spec_mount_path(),
    {
        self.mount_path.as_str()
    }

    /// For how many seconds the kernel may keep a reply.
    pub fn get_basic_ttl(&self) -> (secs: u64)
        ensures
            secs == BASIC_TTL_SECS,
    {
        BASIC_TTL_SECS
    }

    /// The connection to the store.
    pub fn connection(&self) -> (conn: &Connection)
        ensures
            *conn == self.spec_connection(),
    {
        &self.conn
    }

    /// Persists a record with the allocator of this session, outside any
    /// transaction.
    pub fn save(&mut self, record: &mut NodeRecord) -> (res: DVResult<()>)
        ensures
            final(self).spec_mount_opts() == old(self).spec_mount_opts(),
            spec_clock_failed(res) ==> *final(record) == *old(record),
            spec_clock_failed(res) ==> final(self).spec_allocator() == old(self).spec_allocator(),
            !spec_clock_failed(res) ==> exists|now: u64| #[trigger]
                spec_save_relation(
                    *old(record),
                    old(self).spec_allocator(),
                    now,
                    res,
                    *final(record),
                    final(self).spec_allocator(),
                ),
    {
        let res = record.save(&mut self.inode_next, &self.conn);
        proof {
            if !spec_clock_failed(res) {
                let now = choose|now: u64| #[trigger]
                    spec_save_relation(
                        *old(record),
                        old(self).inode_next,
                        now,
                        res,
                        *record,
                        self.inode_next,
                    );
                assert(spec_save_relation(
                    *old(record),
                    old(self).spec_allocator(),
                    now,
                    res,
                    *record,
                    self.spec_allocator(),
                ));
            }
        }
        res
    }

    /// Completes the options of the mount and hands them out: the
    /// filesystem gets its name, and the unmount at the end of the process
    /// is asked for.
    pub fn mount_options(&mut self) -> (opts: &Vec<MountOpt>)
        ensures
            opts@ == final(self).spec_mount_opts(),
            spec_has_fs_name(opts@),
            spec_has_auto_unmount(opts@),
            final(self).upcoming_inode() == old(self).upcoming_inode(),
    {
        ensure_fs_name(&mut self.mount_opts, DEFAULT_FS_NAME);
        let ghost named = self.mount_opts@;
        proof {
            if !spec_has_fs_name(old(self).mount_opts@) {
                assert(named[named.len() - 1] is FSName);
            }
            assert(spec_has_fs_name(named));
            let i = choose|i: int| 0 <= i < named.len() && (#[trigger] named[i]) is FSName;
            assert(named[i] is FSName);
        }
        ensure_auto_unmount(&mut self.mount_opts);
        proof {
            let i = choose|i: int| 0 <= i < named.len() && (#[trigger] named[i]) is FSName;
            assert(self.mount_opts@[i] is FSName);
            if !spec_has_auto_unmount(named) {
                assert(self.mount_opts@[named.len() as int] is AutoUnmount);
            }
        }
        &self.mount_opts
    }

    /// Begins a transaction on the store. It is rolled back when it is
    /// dropped, unless it was committed.
    pub fn new_tx(&self) -> (res: DVResult<Transaction<'_>>)
        ensures
            res matches Err(err) ==> err matches DVError::SQLError(failure) && failure is Other,
    {
        match self.begin() {
            Ok(tx) => Ok(tx),
            Err(failure) => Err(DVError::SQLError(failure)),
        }
    }

    /// Begins a transaction and keeps the failure of the store as it is.
    fn begin(&self) -> (res: Result<Transaction<'_>, SqlFailure>)
        ensures
            res matches Err(failure) ==> failure is Other,
    {
        match begin_transaction(&self.conn) {
            Ok(tx) => Ok(tx),
            Err(err) => Err(sql_failure(err)),
        }
    }

    /// Runs a query in a transaction of its own, which is rolled back when
    /// the answer is there. A transaction that cannot be begun counts as a
    /// failure of the store.
    fn ask(&self, stmt: &SqlStatement) -> (fetched: Result<Vec<Vec<SqlValue>>, SqlFailure>)
        ensures
            fetched is Err ==> fetched->Err_0 is Other,
    {
        match self.begin() {
            Ok(tx) => query(transaction_connection(&tx), stmt),
            Err(failure) => Err(failure),
        }
    }

    /// The statement that [`DataVirFS::lookup`] runs: the search for the
    /// one node that is called `name` under `parent`.
    pub fn lookup_statement(parent: u64, name: &str) -> (stmt: SqlStatement)
        ensures
            stmt@ == spec_search(Some(parent), Some(name@), None, None, None, Some(1u64), None),
    {
        NodeRecord::find_one_statement(Some(parent), Some(name), None, None, None)
    }

    /// The statement that [`DataVirFS::readdir`] runs: the visible names
    /// under `ino`, without the names that the offset stands for.
    pub fn listing_statement(ino: u64, offset: i64) -> (stmt: SqlStatement)
        ensures
            stmt@ == spec_find_names(ino, false, Some(spec_names_to_skip(offset) as i64)),
    {
        NodeName::find_statement(ino, false, Some(names_to_skip(offset)))
    }

    /// How [`DataVirFS::lookup`] makes its reply of the answer of the store:
    /// the first record that the search gives is the node, and its
    /// attributes are the reply.
    pub open spec fn spec_lookup(
        fetched: Result<Vec<Vec<SqlValue>>, SqlFailure>,
        found: DVResult<Vec<NodeRecord>>,
        node: DVResult<NodeRecord>,
        reply: Result<FileAttr, Errno>,
    ) -> bool {
        &&& fetched is Err ==> fetched->Err_0 is Other
        &&& spec_search_outcome(Some(1u64), fetched, found)
        &&& spec_find_one_outcome(found, node)
        &&& reply == spec_attr_reply(node)
    }

    /// Looks up the node called `name` under `parent` and gives its
    /// attributes; a name that is not there is not found.
    pub fn lookup(&self, parent: u64, name: &str) -> (reply: Result<FileAttr, Errno>)
        ensures
            exists|
                fetched: Result<Vec<Vec<SqlValue>>, SqlFailure>,
                found: DVResult<Vec<NodeRecord>>,
                node: DVResult<NodeRecord>,
            | #[trigger] DataVirFS::spec_lookup(fetched, found, node, reply),
    {
        let stmt = DataVirFS::lookup_statement(parent, name);
        let fetched = self.ask(&stmt);
        let ghost seen = fetched;
        let found = NodeRecord::search_outcome(Some(1), fetched);
        let ghost met = found;
        let node = NodeRecord::find_one_outcome(found);
        let ghost looked = node;
        let reply = attr_reply(node);
        assert(DataVirFS::spec_lookup(seen, met, looked, reply));
        reply
    }

    /// How [`DataVirFS::getattr`] makes its reply of the answer of the
    /// store: the attributes of the record that the answer holds.
    pub open spec fn spec_getattr(
        fetched: Result<Vec<Vec<SqlValue>>, SqlFailure>,
        reply: Result<FileAttr, Errno>,
    ) -> bool {
        &&& fetched is Err ==> fetched->Err_0 is Other
        &&& reply == spec_attr_reply(spec_get_outcome(fetched))
    }

    /// Gives the attributes of `ino`; an inode that the store does not hold
    /// is not found.
    pub fn getattr(&self, ino: u64) -> (reply: Result<FileAttr, Errno>)
        ensures
            exists|fetched: Result<Vec<Vec<SqlValue>>, SqlFailure>| #[trigger]
                DataVirFS::spec_getattr(fetched, reply),
    {
        let stmt = NodeRecord::get_statement(ino);
        let fetched = self.ask(&stmt);
        let ghost seen = fetched;
        let reply = attr_reply(NodeRecord::get_outcome(fetched));
        assert(DataVirFS::spec_getattr(seen, reply));
        reply
    }

    /// How [`DataVirFS::opendir`] makes its reply of the two answers of the
    /// store, the record and the names under it: an inode that is not there
    /// is not found, and a node can be opened where it is a directory or has
    /// a name under it.
    pub open spec fn spec_opendir(
        fetched: Result<Vec<Vec<SqlValue>>, SqlFailure>,
        children: Result<Vec<Vec<SqlValue>>, SqlFailure>,
        listing: DVResult<NodeNameIter>,
        reply: Result<DirHandle, Errno>,
    ) -> bool {
        &&& fetched is Err ==> fetched->Err_0 is Other
        &&& match spec_get_outcome(fetched) {
            Err(err) => reply == Err::<DirHandle, Errno>(spec_errno(err)),
            Ok(record) => exists|able: bool|
                #[trigger] NodeRecord::spec_can_readdir(
                    record.file_type,
                    record.inode,
                    children,
                    listing,
                    able,
                ) && reply == spec_open_reply(Ok(record), able),
        }
    }

    /// Opens `ino` as a directory. It succeeds for a directory and for any
    /// node that has a name under it.
    pub fn opendir(&self, ino: u64, flags: i32) -> (reply: Result<DirHandle, Errno>)
        ensures
            exists|
                fetched: Result<Vec<Vec<SqlValue>>, SqlFailure>,
                children: Result<Vec<Vec<SqlValue>>, SqlFailure>,
                listing: DVResult<NodeNameIter>,
            | #[trigger] DataVirFS::spec_opendir(fetched, children, listing, reply),
    {
        let tx = match self.begin() {
            Ok(tx) => tx,
            Err(failure) => {
                let ghost fetched: Result<Vec<Vec<SqlValue>>, SqlFailure> = Err(failure);
                let ghost listing: DVResult<NodeNameIter> = Err(DVError::NoMoreResults);
                let reply = Err(DVError::SQLError(failure).errno());
                assert(DataVirFS::spec_opendir(fetched, fetched, listing, reply));
                return reply;
            },
        };
        let conn = transaction_connection(&tx);
        let stmt = NodeRecord::get_statement(ino);
        let fetched = query(conn, &stmt);
        let ghost seen = fetched;
        match NodeRecord::get_outcome(fetched) {
            Err(err) => {
                let ghost listing: DVResult<NodeNameIter> = Err(DVError::NoMoreResults);
                let reply = Err(err.errno());
                assert(DataVirFS::spec_opendir(seen, seen, listing, reply));
                reply
            },
            Ok(record) => {
                let able = record.can_readdir(conn);
                let reply = if able {
                    Ok(DirHandle { fh: 0, flags: 0 })
                } else {
                    Err(Errno::NotADirectory)
                };
                proof {
                    let (children, listing) = choose|
                        children: Result<Vec<Vec<SqlValue>>, SqlFailure>,
                        listing: DVResult<NodeNameIter>,
                    | #[trigger]
                        NodeRecord::spec_can_readdir(
                            record.file_type,
                            record.inode,
                            children,
                            listing,
                            able,
                        );
                    assert(reply == spec_open_reply(Ok(record), able));
                    assert(DataVirFS::spec_opendir(seen, children, listing, reply));
                }
                reply
            },
        }
    }

    /// How [`DataVirFS::readdir`] makes its reply of the two answers of the
    /// store. The record of the directory is read only where `..` is part of
    /// the listing, and gives its main parent; the names are those of the
    /// rows that can be read.
    pub open spec fn spec_readdir(
        ino: u64,
        offset: i64,
        fetched: Result<Vec<Vec<SqlValue>>, SqlFailure>,
        children: Result<Vec<Vec<SqlValue>>, SqlFailure>,
        listing: DVResult<Vec<NodeName>>,
        reply: Result<Vec<DirEntry>, Errno>,
    ) -> bool {
        &&& fetched is Err ==> fetched->Err_0 is Other
        &&& children is Err ==> children->Err_0 is Other
        &&& match children {
            Err(failure) => listing matches Err(err) && err == DVError::SQLError(failure),
            Ok(rows) => listing matches Ok(names) && names@ == spec_good_names(rows@),
        }
        &&& spec_readdir_reply(
            ino,
            offset,
            if offset <= 1 {
                match spec_get_outcome(fetched) {
                    Ok(record) => Ok(record.main_parent),
                    Err(err) => Err(err),
                }
            } else {
                Ok(0u64)
            },
            listing,
            reply,
        )
    }

    /// Lists `ino` from `offset` on. The reply holds every entry that is
    /// left; the caller hands them to the kernel until its buffer is full,
    /// and the kernel asks again with the offset of the last entry it took.
    pub fn readdir(&self, ino: u64, offset: i64) -> (reply: Result<Vec<DirEntry>, Errno>)
        ensures
            exists|
                fetched: Result<Vec<Vec<SqlValue>>, SqlFailure>,
                children: Result<Vec<Vec<SqlValue>>, SqlFailure>,
                listing: DVResult<Vec<NodeName>>,
            | #[trigger] DataVirFS::spec_readdir(ino, offset, fetched, children, listing, reply),
    {
        let tx = match self.begin() {
            Ok(tx) => tx,
            Err(failure) => {
                let ghost fetched: Result<Vec<Vec<SqlValue>>, SqlFailure> = Err(failure);
                let ghost listing: DVResult<Vec<NodeName>> = Err(DVError::SQLError(failure));
                let reply = Err(DVError::SQLError(failure).errno());
                assert(DataVirFS::spec_readdir(ino, offset, fetched, fetched, listing, reply));
                return reply;
            },
        };
        let conn = transaction_connection(&tx);
        let ghost mut seen: Result<Vec<Vec<SqlValue>>, SqlFailure> = Err(
            SqlFailure::Other(vstd::pervasive::arbitrary()),
        );
        let parent = if offset <= 1 {
            let stmt = NodeRecord::get_statement(ino);
            let fetched = query(conn, &stmt);
            proof {
                seen = fetched;
            }
            match NodeRecord::get_outcome(fetched) {
                Ok(record) => Ok(record.main_parent),
                Err(err) => {
                    let reply = Err(err.errno());
                    proof {
                        let text: String = vstd::pervasive::arbitrary();
                        let children: Result<Vec<Vec<SqlValue>>, SqlFailure> = Err(
                            SqlFailure::Other(text),
                        );
                        let listing: DVResult<Vec<NodeName>> = Err(
                            DVError::SQLError(SqlFailure::Other(text)),
                        );
                        assert(DataVirFS::spec_readdir(ino, offset, seen, children, listing, reply));
                    }
                    return reply;
                },
            }
        } else {
            Ok(0)
        };
        let stmt = DataVirFS::listing_statement(ino, offset);
        let children = query(conn, &stmt);
        let ghost listed = children;
        let listing = match NodeNameIter::from_rows(ino, children) {
            Ok(mut names) => Ok(names.collect_names()),
            Err(err) => Err(err),
        };
        let ghost read = listing;
        let reply = readdir_reply(ino, offset, parent, listing);
        assert(DataVirFS::spec_readdir(ino, offset, seen, listed, read, reply));
        reply
    }
}

/// Commits a transaction: what was written in it stays.
pub fn commit_tx(tx: Transaction<'_>) -> (res: DVResult<()>)
    ensures
        res matches Err(err) ==> err matches DVError::SQLError(failure) && failure is Other,
{
    match commit_transaction(tx) {
        Ok(_) => Ok(()),
        Err(err) => Err(DVError::SQLError(sql_failure(err))),
    }
}

/// An inode that the store does not hold is answered with "no such entry".
pub proof fn lemma_absent_inode_is_enoent(rows: Vec<Vec<SqlValue>>)
    requires
        rows.len() == 0,
    ensures
        spec_attr_reply(crate::node_record::spec_get_outcome(Ok(rows))) == Err::<FileAttr, Errno>(
            Errno::NotFound,
        ),
{
}

} // verus!
