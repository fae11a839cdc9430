//! Names: which inode is called what, and under which parent.
//!
//! One inode may have many names (hard links), under one parent or several.
//! A name is identified by its inode, its parent and its text together.

use vstd::prelude::*;
use rusqlite::Connection;
use crate::bits::i64_to_u64;
use crate::bits::spec_i64_to_u64;
use crate::bits::spec_u64_to_i64;
use crate::bits::u64_to_i64;
use crate::errors::DVError;
use crate::errors::DVResult;
use crate::errors::written;
use crate::file_type::parse_file_type;
use crate::file_type::spec_file_type_of;
use crate::file_type::FileType;
use crate::sql::cell_bool;
use crate::sql::cell_i64;
use crate::sql::cell_text;
use crate::sql::execute;
use crate::sql::query;
use crate::sql::spec_cell_bool;
use crate::sql::spec_cell_i64;
use crate::sql::spec_cell_text;
use crate::sql::Cell;
use crate::sql::SqlFailure;
use crate::sql::SqlStatement;
use crate::sql::SqlValue;
use crate::sql::StatementView;

verus! {

/// Inserts a name, or replaces the one with the same inode, parent and text.
pub const SAVE_NAME_SQL: &'static str =
    "INSERT OR REPLACE INTO `node_name` (`inode`, `parent`, `hidden`, `name`) VALUES (?, ?, ?, ?)";

/// Removes exactly one name.
pub const DELETE_NAME_SQL: &'static str =
    "DELETE FROM `node_name` WHERE `inode` = ? AND `parent` = ? AND `name` = ?";

/// Lists the names under one parent, each with the file type of its inode.
pub const FIND_NAMES_SQL: &'static str =
    "SELECT `inode`, `parent`, `hidden`, `name`, `file_type` FROM `node_view` WHERE `parent` = ?";

/// Leaves hidden names out of a listing.
pub const VISIBLE_ONLY_SQL: &'static str = " AND `hidden` = 0";

/// Fixes the order of a listing and skips its first rows, without a cap on
/// how many follow: the engine takes no offset without a limit, and reads a
/// negative limit as none.
pub const SKIP_ROWS_SQL: &'static str = " ORDER BY `inode` ASC, `name` ASC LIMIT -1 OFFSET ?";

/// One name of one inode.
#[derive(Debug, Clone)]
pub struct NodeName {
    pub inode: u64,
    pub parent: u64,
    /// Keeps the name out of default listings. This is neither a leading dot
    /// nor a file attribute of the host.
    pub hidden: bool,
    pub name: String,
    /// The file type of the inode; known only for names read from the store.
    pub file_type: Option<FileType>,
}

/// What reading a row of a listing gives: the name, or the error of the
/// first column that cannot be read. The columns are inode, parent, hidden,
/// name and file type code.
pub open spec fn spec_name_of_row(row: Seq<SqlValue>) -> DVResult<NodeName> {
    match spec_cell_i64(row, 0) {
        Err(failure) => Err(DVError::SQLError(failure)),
        Ok(inode) => match spec_cell_i64(row, 1) {
            Err(failure) => Err(DVError::SQLError(failure)),
            Ok(parent) => match spec_cell_bool(row, 2) {
                Err(failure) => Err(DVError::SQLError(failure)),
                Ok(hidden) => match spec_cell_text(row, 3) {
                    Err(failure) => Err(DVError::SQLError(failure)),
                    Ok(name) => match spec_cell_text(row, 4) {
                        Err(failure) => Err(DVError::SQLError(failure)),
                        Ok(code) => match spec_file_type_of(code@) {
                            None => Err(DVError::FuseTypeParseError(code)),
                            Some(kind) => Ok(
                                NodeName {
                                    inode: spec_i64_to_u64(inode),
                                    parent: spec_i64_to_u64(parent),
                                    hidden,
                                    name,
                                    file_type: Some(kind),
                                },
                            ),
                        },
                    },
                },
            },
        },
    }
}

/// The statement that saves the name `text` of `inode` under `parent`.
pub open spec fn spec_save_name_of(inode: u64, parent: u64, hidden: bool, text: Seq<char>) -> StatementView {
    StatementView {
        sql: SAVE_NAME_SQL@,
        params: seq![
            Cell::Integer(spec_u64_to_i64(inode)),
            Cell::Integer(spec_u64_to_i64(parent)),
            Cell::Integer(if hidden { 1i64 } else { 0i64 }),
            Cell::Text(text),
        ],
    }
}

/// The statement that saves a name.
pub open spec fn spec_save_name(name: NodeName) -> StatementView {
    spec_save_name_of(name.inode, name.parent, name.hidden, name.name@)
}

/// The statement that deletes a name.
pub open spec fn spec_delete_name(name: NodeName) -> StatementView {
    StatementView {
        sql: DELETE_NAME_SQL@,
        params: seq![
            Cell::Integer(spec_u64_to_i64(name.inode)),
            Cell::Integer(spec_u64_to_i64(name.parent)),
            Cell::Text(name.name@),
        ],
    }
}

/// The statement that lists the names under `parent`.
pub open spec fn spec_find_names(parent: u64, include_hidden: bool, offset: Option<i64>) -> StatementView {
    let visible = if include_hidden {
        Seq::<char>::empty()
    } else {
        VISIBLE_ONLY_SQL@
    };
    match offset {
        Some(skip) => StatementView {
            sql: FIND_NAMES_SQL@ + visible + SKIP_ROWS_SQL@,
            params: seq![Cell::Integer(spec_u64_to_i64(parent)), Cell::Integer(skip)],
        },
        None => StatementView {
            sql: FIND_NAMES_SQL@ + visible,
            params: seq![Cell::Integer(spec_u64_to_i64(parent))],
        },
    }
}

impl NodeName {
    /// A name that is not yet known to the store.
    pub fn new(inode: u64, parent: u64, hidden: bool, name: String) -> (res: NodeName)
        ensures
            res == (NodeName { inode, parent, hidden, name, file_type: None }),
    {
        NodeName { inode, parent, hidden, name, file_type: None }
    }

    /// Reads a row of a listing: inode, parent, hidden, name, file type code.
    pub fn from_row(row: &Vec<SqlValue>) -> (res: DVResult<NodeName>)
        ensures
            res == spec_name_of_row(row@),
    {
        let inode = match cell_i64(row, 0) {
            Ok(v) => v,
            Err(failure) => { return Err(DVError::SQLError(failure)); },
        };
        let parent = match cell_i64(row, 1) {
            Ok(v) => v,
            Err(failure) => { return Err(DVError::SQLError(failure)); },
        };
        let hidden = match cell_bool(row, 2) {
            Ok(v) => v,
            Err(failure) => { return Err(DVError::SQLError(failure)); },
        };
        let name = match cell_text(row, 3) {
            Ok(v) => v,
            Err(failure) => { return Err(DVError::SQLError(failure)); },
        };
        let code = match cell_text(row, 4) {
            Ok(v) => v,
            Err(failure) => { return Err(DVError::SQLError(failure)); },
        };
        match parse_file_type(code.as_str()) {
            Some(kind) => Ok(
                NodeName {
                    inode: i64_to_u64(inode),
                    parent: i64_to_u64(parent),
                    hidden,
                    name,
                    file_type: Some(kind),
                },
            ),
            None => Err(DVError::FuseTypeParseError(code)),
        }
    }

    pub fn get_inode(&self) -> (inode: u64)
        ensures
            inode == self.inode,
    {
        self.inode
    }

    /// The inode in the signed form of the store.
    pub fn get_inode_i64(&self) -> (inode: i64)
        ensures
            inode == spec_u64_to_i64(self.inode),
    {
        u64_to_i64(self.inode)
    }

    pub fn get_parent(&self) -> (parent: u64)
        ensures
            parent == self.parent,
    {
        self.parent
    }

    /// The parent in the signed form of the store.
    pub fn get_parent_i64(&self) -> (parent: i64)
        ensures
            parent == spec_u64_to_i64(self.parent),
    {
        u64_to_i64(self.parent)
    }

    pub fn get_hidden(&self) -> (hidden: bool)
        ensures
            hidden == self.hidden,
    {
        self.hidden
    }

    pub fn get_name(&self) -> (name: String)
        ensures
            name == self.name,
    {
        self.name.clone()
    }

    pub fn get_file_type(&self) -> (kind: Option<FileType>)
        ensures
            kind == self.file_type,
    {
        self.file_type
    }

    /// The statement that [`NodeName::save`] runs.
    pub fn save_statement(&self) -> (stmt: SqlStatement)
        ensures
            stmt@ == spec_save_name(*self),
    {
        let mut params: Vec<SqlValue> = Vec::new();
        params.push(SqlValue::Integer(self.get_inode_i64()));
        params.push(SqlValue::Integer(self.get_parent_i64()));
        params.push(SqlValue::Integer(if self.hidden { 1 } else { 0 }));
        params.push(SqlValue::Text(self.name.clone()));
        let stmt = SqlStatement { sql: String::from_str(SAVE_NAME_SQL), params };
        assert(stmt@.params =~= spec_save_name(*self).params);
        stmt
    }

    /// The statement that [`NodeName::del`] runs.
    pub fn del_statement(&self) -> (stmt: SqlStatement)
        ensures
            stmt@ == spec_delete_name(*self),
    {
        let mut params: Vec<SqlValue> = Vec::new();
        params.push(SqlValue::Integer(self.get_inode_i64()));
        params.push(SqlValue::Integer(self.get_parent_i64()));
        params.push(SqlValue::Text(self.name.clone()));
        let stmt = SqlStatement { sql: String::from_str(DELETE_NAME_SQL), params };
        assert(stmt@.params =~= spec_delete_name(*self).params);
        stmt
    }

    /// The statement that [`NodeName::find`] runs.
    pub fn find_statement(parent: u64, include_hidden: bool, offset: Option<i64>) -> (stmt:
        SqlStatement)
        ensures
            stmt@ == spec_find_names(parent, include_hidden, offset),
    {
        let mut sql = String::from_str(FIND_NAMES_SQL);
        if !include_hidden {
            sql.append(VISIBLE_ONLY_SQL);
        }
        let mut params: Vec<SqlValue> = Vec::new();
        params.push(SqlValue::Integer(u64_to_i64(parent)));
        if let Some(skip) = offset {
            sql.append(SKIP_ROWS_SQL);
            params.push(SqlValue::Integer(skip));
        }
        let stmt = SqlStatement { sql, params };
        assert(stmt@.params =~= spec_find_names(parent, include_hidden, offset).params);
        assert(stmt@.sql =~= spec_find_names(parent, include_hidden, offset).sql);
        stmt
    }

    /// Saves this name. Saving the same name again changes nothing: the
    /// store keeps one row for each inode, parent and text.
    pub fn save(&self, conn: &Connection) -> (res: DVResult<()>)
        ensures
            res matches Err(err) ==> err matches DVError::SQLError(failure) && failure is Other,
    {
        let stmt = self.save_statement();
        written(execute(conn, &stmt))
    }

    /// Removes exactly this name: the row with its inode, parent and text.
    pub fn del(&self, conn: &Connection) -> (res: DVResult<()>)
        ensures
            res matches Err(err) ==> err matches DVError::SQLError(failure) && failure is Other,
    {
        let stmt = self.del_statement();
        written(execute(conn, &stmt))
    }
}

/// How many rows at the front of a listing cannot be read as names.
pub open spec fn spec_first_good(rows: Seq<Vec<SqlValue>>) -> nat
    decreases rows.len(),
{
    if rows.len() == 0 {
        0
    } else if spec_name_of_row(rows[0]@) is Ok {
        0
    } else {
        1 + spec_first_good(rows.skip(1))
    }
}

/// The names of the rows that can be read, in the order of the rows.
pub open spec fn spec_good_names(rows: Seq<Vec<SqlValue>>) -> Seq<NodeName>
    decreases rows.len(),
{
    if rows.len() == 0 {
        Seq::empty()
    } else {
        match spec_name_of_row(rows[0]@) {
            Ok(name) => seq![name] + spec_good_names(rows.skip(1)),
            Err(_) => spec_good_names(rows.skip(1)),
        }
    }
}

/// A listing of names: the rows that the store gave, read one at a time from
/// the front. It only moves forward; to start again, ask the store again.
#[derive(Debug)]
pub struct NodeNameIter {
    pos: u64,
    parent: u64,
    rows: Vec<Vec<SqlValue>>,
    cursor: usize,
}

impl NodeNameIter {
    #[verifier::type_invariant]
    spec fn well_formed(&self) -> bool {
        self.cursor <= self.rows.len() && self.pos <= self.cursor
    }

    /// The rows that have not been read yet.
    pub closed spec fn remaining(&self) -> Seq<Vec<SqlValue>> {
        self.rows@.skip(self.cursor as int)
    }

    /// How many names have been handed out.
    pub closed spec fn spec_pos(&self) -> u64 {
        self.pos
    }

    /// The parent whose names are listed.
    pub closed spec fn spec_parent(&self) -> u64 {
        self.parent
    }

    /// How reading one row relates the listing before to the result and the
    /// listing after: the first remaining row is read and left behind, and
    /// the count of names goes up where the row gave one.
    pub open spec fn spec_try_next(
        before: NodeNameIter,
        res: DVResult<NodeName>,
        after: NodeNameIter,
    ) -> bool {
        &&& after.spec_parent() == before.spec_parent()
        &&& if before.remaining().len() == 0 {
            &&& res == Err::<NodeName, DVError>(DVError::NoMoreResults)
            &&& after.remaining() == before.remaining()
            &&& after.spec_pos() == before.spec_pos()
        } else {
            &&& res == spec_name_of_row(before.remaining()[0]@)
            &&& after.remaining() == before.remaining().skip(1)
            &&& after.spec_pos() == before.spec_pos() + (if res is Ok {
                1int
            } else {
                0int
            })
        }
    }

    /// How handing out one name relates the listing before to the result
    /// and the listing after: the rows that cannot be read are passed over,
    /// the first that can is handed out, and the listing stands behind it.
    pub open spec fn spec_next_name(
        before: NodeNameIter,
        res: Option<NodeName>,
        after: NodeNameIter,
    ) -> bool {
        let rows = before.remaining();
        let bad = spec_first_good(rows) as int;
        &&& after.spec_parent() == before.spec_parent()
        &&& if bad < rows.len() {
            &&& res is Some
            &&& spec_name_of_row(rows[bad]@) == Ok::<NodeName, DVError>(res->Some_0)
            &&& after.remaining() == rows.skip(bad + 1)
            &&& after.spec_pos() == before.spec_pos() + 1
        } else {
            &&& res is None
            &&& after.remaining().len() == 0
            &&& after.spec_pos() == before.spec_pos()
        }
    }

    /// What [`NodeName::find`] makes of the answer of the store: a listing
    /// that stands before the first row, or the failure.
    pub open spec fn spec_listing(
        parent: u64,
        fetched: Result<Vec<Vec<SqlValue>>, SqlFailure>,
        res: DVResult<NodeNameIter>,
    ) -> bool {
        match fetched {
            Ok(rows) => res matches Ok(listing) && listing.remaining() == rows@ && listing.spec_pos()
                == 0 && listing.spec_parent() == parent,
            Err(failure) => res matches Err(err) && err == DVError::SQLError(failure),
        }
    }

    /// Makes a listing of the answer of the store.
    pub fn from_rows(parent: u64, fetched: Result<Vec<Vec<SqlValue>>, SqlFailure>) -> (res: DVResult<
        NodeNameIter,
    >)
        ensures
            NodeNameIter::spec_listing(parent, fetched, res),
    {
        match fetched {
            Ok(rows) => {
                let listing = NodeNameIter { pos: 0, parent, rows, cursor: 0 };
                assert(listing.remaining() =~= rows@);
                Ok(listing)
            },
            Err(failure) => Err(DVError::SQLError(failure)),
        }
    }

    pub fn get_pos(&self) -> (pos: u64)
        ensures
            pos == self.spec_pos(),
    {
        self.pos
    }

    pub fn get_parent(&self) -> (parent: u64)
        ensures
            parent == self.spec_parent(),
    {
        self.parent
    }

    /// Reads the next row. At the end of the listing the result is
    /// `NoMoreResults`, which is no failure. A row that cannot be read gives
    /// its error and is passed over: the next call reads the row after it.
    pub fn try_next(&mut self) -> (res: DVResult<NodeName>)
        ensures
            NodeNameIter::spec_try_next(*old(self), res, *final(self)),
    {
        proof {
            use_type_invariant(&*self);
        }
        if self.cursor >= self.rows.len() {
            return Err(DVError::NoMoreResults);
        }
        let res = NodeName::from_row(&self.rows[self.cursor]);
        assert(self.rows@.skip(self.cursor as int)[0] == self.rows@[self.cursor as int]);
        assert(self.rows@.skip(self.cursor as int).skip(1) =~= self.rows@.skip(self.cursor + 1));
        self.cursor = self.cursor + 1;
        if res.is_ok() {
            self.pos = self.pos + 1;
        }
        res
    }

    /// Hands out the next name, passing over rows that cannot be read: one
    /// bad row does not end the listing. `None` marks the end.
    pub fn next_name(&mut self) -> (res: Option<NodeName>)
        ensures
            NodeNameIter::spec_next_name(*old(self), res, *final(self)),
    {
        proof {
            use_type_invariant(&*self);
        }
        let ghost start = self.remaining();
        let ghost start_pos = self.pos;
        let ghost passed: nat = 0;
        assert(start.skip(0) =~= start);
        loop
            invariant
                self.cursor <= self.rows.len(),
                self.pos <= self.cursor,
                self.pos == start_pos,
                start_pos == old(self).spec_pos(),
                start == old(self).remaining(),
                self.parent == old(self).spec_parent(),
                passed <= start.len(),
                self.remaining() == start.skip(passed as int),
                spec_first_good(start) == passed + spec_first_good(start.skip(passed as int)),
            decreases self.rows.len() - self.cursor,
        {
            if self.cursor >= self.rows.len() {
                assert(self.remaining().len() == 0);
                assert(passed == start.len());
                return None;
            }
            let res = NodeName::from_row(&self.rows[self.cursor]);
            let ghost rest = start.skip(passed as int);
            proof {
                assert(rest.len() > 0);
                assert(rest[0] == self.rows@[self.cursor as int]);
                assert(rest[0] == start[passed as int]);
                assert(rest.skip(1) =~= start.skip(passed as int + 1));
                assert(self.rows@.skip(self.cursor as int).skip(1) =~= self.rows@.skip(
                    self.cursor + 1,
                ));
            }
            self.cursor = self.cursor + 1;
            match res {
                Ok(name) => {
                    assert(spec_name_of_row(rest[0]@) == Ok::<NodeName, DVError>(name));
                    assert(spec_first_good(rest) == 0);
                    self.pos = self.pos + 1;
                    return Some(name);
                },
                Err(_) => {
                    assert(spec_name_of_row(rest[0]@) is Err);
                    assert(spec_first_good(rest) == 1 + spec_first_good(rest.skip(1)));
                    proof {
                        passed = passed + 1;
                    }
                },
            }
        }
    }

    /// Reads the listing to its end and gives every name that can be read,
    /// in the order of the rows.
    pub fn collect_names(&mut self) -> (names: Vec<NodeName>)
        ensures
            final(self).spec_parent() == old(self).spec_parent(),
            names@ == spec_good_names(old(self).remaining()),
            final(self).remaining().len() == 0,
            final(self).spec_pos() == old(self).spec_pos() + names.len(),
            forall|i: int| 0 <= i < names.len() ==> (#[trigger] names[i]).file_type is Some,
    {
        proof {
            use_type_invariant(&*self);
        }
        let ghost start = self.remaining();
        let ghost start_pos = self.pos;
        let mut names: Vec<NodeName> = Vec::new();
        while self.cursor < self.rows.len()
            invariant
                self.cursor <= self.rows.len(),
                self.pos <= self.cursor,
                self.pos == start_pos + names.len(),
                start_pos == old(self).spec_pos(),
                start == old(self).remaining(),
                self.parent == old(self).spec_parent(),
                spec_good_names(start) == names@ + spec_good_names(self.remaining()),
                forall|i: int| 0 <= i < names.len() ==> (#[trigger] names[i]).file_type is Some,
            decreases self.rows.len() - self.cursor,
        {
            let res = NodeName::from_row(&self.rows[self.cursor]);
            proof {
                let rest = self.remaining();
                assert(rest[0] == self.rows@[self.cursor as int]);
                assert(rest.skip(1) =~= self.rows@.skip(self.cursor + 1));
            }
            let ghost before = names@;
            self.cursor = self.cursor + 1;
            match res {
                Ok(name) => {
                    self.pos = self.pos + 1;
                    names.push(name);
                    assert(names@ =~= before + seq![name]);
                    assert(before + (seq![name] + spec_good_names(self.remaining())) =~= names@
                        + spec_good_names(self.remaining()));
                },
                Err(_) => {},
            }
        }
        assert(self.remaining().len() == 0);
        assert(names@ + spec_good_names(self.remaining()) =~= names@);
        names
    }
}

impl NodeName {
    /// Lists the names under `parent`: all of them, or only those that are
    /// not hidden. With an offset the listing has a fixed order and leaves
    /// out that many rows at its front.
    pub fn find(parent: u64, include_hidden: bool, offset: Option<i64>, conn: &Connection) -> (res:
        DVResult<NodeNameIter>)
        ensures
            exists|fetched: Result<Vec<Vec<SqlValue>>, SqlFailure>|
                (fetched is Err ==> fetched->Err_0 is Other) && #[trigger] NodeNameIter::spec_listing(
                    parent,
                    fetched,
                    res,
                ),
    {
        let stmt = NodeName::find_statement(parent, include_hidden, offset);
        let fetched = query(conn, &stmt);
        let ghost seen = fetched;
        let res = NodeNameIter::from_rows(parent, fetched);
        assert(NodeNameIter::spec_listing(parent, seen, res));
        res
    }
}

/// What is saved is what is listed: a row that holds the values that
/// saving a name hands to the store, with the code of a file type, is read
/// as that name with that file type.
pub proof fn lemma_saved_name_is_read_back(row: Seq<SqlValue>, name: NodeName, kind: FileType)
    requires
        row.len() == 5,
        row[0] == SqlValue::Integer(spec_u64_to_i64(name.inode)),
        row[1] == SqlValue::Integer(spec_u64_to_i64(name.parent)),
        row[2] == SqlValue::Integer(if name.hidden { 1i64 } else { 0i64 }),
        row[3] == SqlValue::Text(name.name),
        row[4] matches SqlValue::Text(code) && code@ == crate::file_type::spec_file_type_code(kind),
    ensures
        spec_name_of_row(row) == Ok::<NodeName, DVError>(
            NodeName { file_type: Some(kind), ..name },
        ),
{
    crate::file_type::lemma_file_type_round_trip(kind);
    crate::bits::lemma_u64_round_trip(name.inode);
    crate::bits::lemma_u64_round_trip(name.parent);
}

/// A listing hands out only names that carry their file type, and as many
/// of them as there are rows that can be read.
pub proof fn lemma_good_names_are_typed(rows: Seq<Vec<SqlValue>>)
    ensures
        spec_good_names(rows).len() <= rows.len(),
        forall|i: int|
            0 <= i < spec_good_names(rows).len() ==> (#[trigger] spec_good_names(rows)[i]).file_type
                is Some,
    decreases rows.len(),
{
    if rows.len() > 0 {
        lemma_good_names_are_typed(rows.skip(1));
    }
}

} // verus!
