//! Bringing a store into shape every time it is opened.
//!
//! The schema is created where it is missing and lifted to the version this
//! crate works with. After that the reserved inodes are put back in place,
//! whatever happened to them since, and the allocator is told where to go on.

use vstd::prelude::*;
use rusqlite::Connection;
use crate::allocator::spec_first_after;
use crate::allocator::InodeAllocator;
use crate::allocator::INODE_MIN;
use crate::bits::i64_to_u64;
use crate::bits::spec_i64_to_u64;
use crate::errors::DVError;
use crate::errors::DVResult;
use crate::schema_sql::schema_v1_statements;
use crate::schema_sql::spec_schema_v1;
use crate::schema_sql::CREATE_APP_CONFIG_SQL;
use crate::schema_sql::COUNT_RESERVED_VIOLATIONS_SQL;
use crate::schema_sql::GET_SCHEMA_VERSION_SQL;
use crate::schema_sql::HIGHEST_INODE_SQL;
use crate::schema_sql::SET_SCHEMA_VERSION_SQL;
use crate::sql::cell_i64;
use crate::sql::cell_opt_i64;
use crate::sql::execute;
use crate::sql::query;
use crate::sql::sql_failure;
use crate::sql::open;
use crate::errors::written;
use crate::sql::spec_cell_i64;
use crate::sql::spec_cell_opt_i64;
use crate::sql::SqlFailure;
use crate::sql::SqlStatement;
use crate::sql::SqlValue;
use crate::sql::Cell;
use crate::sql::StatementView;
use crate::allocator::INODE_ALL_BUNDLES_DIR;
use crate::allocator::INODE_ALL_FILTERS_DIR;
use crate::allocator::INODE_CONFIG;
use crate::allocator::INODE_ROOT;
use crate::allocator::INODE_SOCKET;
use crate::allocator::INODE_STATUS_FILE;
use crate::allocator::INODE_TRASH_DIR;
use crate::allocator::INODE_VOLUMES_DIR;
use crate::bits::spec_u64_to_i64;
use crate::bits::u64_to_i64;
use crate::file_type::file_type2string;
use crate::file_type::spec_file_type_code;
use crate::file_type::FileType;
use crate::node_name::spec_save_name_of;
use crate::node_name::NodeName;
use crate::schema_sql::RESERVE_INODE_SQL;
use crate::schema_sql::SET_FILE_TYPE_SQL;

verus! {

/// The version of the schema that this crate works with.
pub const SCHEMA_VERSION: i32 = 1;

/// How many rounds of migration a store may take before the process gives
/// up on it.
pub const MIGRATION_CEILING: u32 = 100;

/// A switch of the engine that is set on every connection.
#[derive(Debug, Clone, Copy, PartialEq, Eq, Structural)]
pub enum DbOption {
    /// Enforcement of foreign keys.
    EnableFkey,
    /// Triggers.
    EnableTrigger,
    /// The tokenizer of the full-text search.
    EnableFts3Tokenizer,
    /// Set to leave out the checkpoint when the connection closes.
    NoCkptOnClose,
    /// Stable query planning.
    EnableQpsg,
    /// Refusal of statements that can corrupt the store.
    Defensive,
}

/// The switches of a connection, in the order in which they are set: no
/// foreign keys, triggers, no full-text tokenizer, a checkpoint on close,
/// stable query planning, and the defensive mode.
pub open spec fn spec_connection_options() -> Seq<(DbOption, bool)> {
    seq![
        (DbOption::EnableFkey, false),
        (DbOption::EnableTrigger, true),
        (DbOption::EnableFts3Tokenizer, false),
        (DbOption::NoCkptOnClose, false),
        (DbOption::EnableQpsg, true),
        (DbOption::Defensive, true),
    ]
}

/// The switches of a connection.
pub fn connection_options() -> (list: Vec<(DbOption, bool)>)
    ensures
        list@ == spec_connection_options(),
{
    let mut list: Vec<(DbOption, bool)> = Vec::new();
    list.push((DbOption::EnableFkey, false));
    list.push((DbOption::EnableTrigger, true));
    list.push((DbOption::EnableFts3Tokenizer, false));
    list.push((DbOption::NoCkptOnClose, false));
    list.push((DbOption::EnableQpsg, true));
    list.push((DbOption::Defensive, true));
    assert(list@ =~= spec_connection_options());
    list
}

/// Sets one switch with `rusqlite::Connection::set_db_config`; the switch is
/// named by the variant of `rusqlite::config::DbConfig` that stands for it.
#[verifier::external_body]
fn set_db_option(conn: &Connection, option: DbOption, on: bool) -> Result<bool, rusqlite::Error> {
    conn.set_db_config(
        match option {
            DbOption::EnableFkey => rusqlite::config::DbConfig::SQLITE_DBCONFIG_ENABLE_FKEY,
            DbOption::EnableTrigger => rusqlite::config::DbConfig::SQLITE_DBCONFIG_ENABLE_TRIGGER,
            DbOption::EnableFts3Tokenizer => rusqlite::config::DbConfig::SQLITE_DBCONFIG_ENABLE_FTS3_TOKENIZER,
            DbOption::NoCkptOnClose => rusqlite::config::DbConfig::SQLITE_DBCONFIG_NO_CKPT_ON_CLOSE,
            DbOption::EnableQpsg => rusqlite::config::DbConfig::SQLITE_DBCONFIG_ENABLE_QPSG,
            DbOption::Defensive => rusqlite::config::DbConfig::SQLITE_DBCONFIG_DEFENSIVE,
        },
        on,
    )
}

/// What the next round of migration has to do.
#[derive(Debug, Clone, Copy, PartialEq, Eq, Structural)]
pub enum MigrationStep {
    /// The schema has the version this crate works with.
    UpToDate,
    /// The statements of version one have to run.
    ApplyV1,
    /// Too many rounds have run without reaching the version.
    Stuck,
}

/// What has to be done for a store at `version` after `rounds` rounds.
pub open spec fn spec_next_migration(version: i32, rounds: u32) -> MigrationStep {
    if version >= SCHEMA_VERSION {
        MigrationStep::UpToDate
    } else if rounds > MIGRATION_CEILING {
        MigrationStep::Stuck
    } else {
        MigrationStep::ApplyV1
    }
}

/// Decides the next round of migration: as long as the store is below the
/// version of this crate the next migration runs, but never more than the
/// ceiling allows.
pub fn next_migration(version: i32, rounds: u32) -> (step: MigrationStep)
    ensures
        step == spec_next_migration(version, rounds),
{
    if version >= SCHEMA_VERSION {
        MigrationStep::UpToDate
    } else if rounds > MIGRATION_CEILING {
        MigrationStep::Stuck
    } else {
        MigrationStep::ApplyV1
    }
}

/// The schema version that the answer of the store stands for: zero for a
/// store that records none.
pub open spec fn spec_schema_version(fetched: Result<Vec<Vec<SqlValue>>, SqlFailure>) -> DVResult<
    i32,
> {
    match fetched {
        Err(failure) => Err(DVError::SQLError(failure)),
        Ok(rows) => if rows.len() == 0 {
            Ok(0i32)
        } else {
            match spec_cell_i64(rows[0]@, 0) {
                Err(failure) => Err(DVError::SQLError(failure)),
                Ok(n) => if i32::MIN <= n <= i32::MAX {
                    Ok(n as i32)
                } else {
                    Err(DVError::SQLError(SqlFailure::InvalidColumn(0)))
                },
            }
        },
    }
}

/// Reads the schema version from the answer of the store.
pub fn schema_version_outcome(fetched: Result<Vec<Vec<SqlValue>>, SqlFailure>) -> (res: DVResult<i32>)
    ensures
        res == spec_schema_version(fetched),
{
    match fetched {
        Err(failure) => Err(DVError::SQLError(failure)),
        Ok(rows) => {
            if rows.len() == 0 {
                Ok(0)
            } else {
                match cell_i64(&rows[0], 0) {
                    Err(failure) => Err(DVError::SQLError(failure)),
                    Ok(n) => {
                        if -0x8000_0000 <= n && n <= 0x7fff_ffff {
                            Ok(n as i32)
                        } else {
                            Err(DVError::SQLError(SqlFailure::InvalidColumn(0)))
                        }
                    },
                }
            }
        },
    }
}

/// What the count of unreserved rows in the reserved range means: any such
/// row is a sign of corruption.
pub open spec fn spec_reserved_guard(fetched: Result<Vec<Vec<SqlValue>>, SqlFailure>) -> DVResult<
    (),
> {
    match fetched {
        Err(failure) => Err(DVError::SQLError(failure)),
        Ok(rows) => if rows.len() == 0 {
            Err(DVError::SQLError(SqlFailure::NotFound))
        } else {
            match spec_cell_i64(rows[0]@, 0) {
                Err(failure) => Err(DVError::SQLError(failure)),
                Ok(count) => if count > 0 {
                    Err(DVError::ReservedRangeViolated(count))
                } else {
                    Ok(())
                },
            }
        },
    }
}

/// Checks the count of unreserved rows in the reserved range.
pub fn reserved_guard(fetched: Result<Vec<Vec<SqlValue>>, SqlFailure>) -> (res: DVResult<()>)
    ensures
        res == spec_reserved_guard(fetched),
{
    match fetched {
        Err(failure) => Err(DVError::SQLError(failure)),
        Ok(rows) => {
            if rows.len() == 0 {
                Err(DVError::SQLError(SqlFailure::NotFound))
            } else {
                match cell_i64(&rows[0], 0) {
                    Err(failure) => Err(DVError::SQLError(failure)),
                    Ok(count) => {
                        if count > 0 {
                            Err(DVError::ReservedRangeViolated(count))
                        } else {
                            Ok(())
                        }
                    },
                }
            }
        },
    }
}

/// The highest inode as an unsigned number, given the largest persisted
/// value over all rows and over the rows with a negative signed form.
pub open spec fn spec_highest_of(largest: Option<i64>, largest_negative: Option<i64>) -> Option<u64> {
    match largest_negative {
        Some(n) => Some(spec_i64_to_u64(n)),
        None => match largest {
            Some(n) => Some(spec_i64_to_u64(n)),
            None => None,
        },
    }
}

/// The highest persisted inode that the answer of the store stands for;
/// `None` for a store without rows.
pub open spec fn spec_highest_inode(fetched: Result<Vec<Vec<SqlValue>>, SqlFailure>) -> DVResult<
    Option<u64>,
> {
    match fetched {
        Err(failure) => Err(DVError::SQLError(failure)),
        Ok(rows) => if rows.len() == 0 {
            Ok(None)
        } else {
            match spec_cell_opt_i64(rows[0]@, 0) {
                Err(failure) => Err(DVError::SQLError(failure)),
                Ok(largest) => match spec_cell_opt_i64(rows[0]@, 1) {
                    Err(failure) => Err(DVError::SQLError(failure)),
                    Ok(largest_negative) => Ok(spec_highest_of(largest, largest_negative)),
                },
            }
        },
    }
}

/// Reads the highest persisted inode from the answer of the store.
pub fn highest_inode_outcome(fetched: Result<Vec<Vec<SqlValue>>, SqlFailure>) -> (res: DVResult<
    Option<u64>,
>)
    ensures
        res == spec_highest_inode(fetched),
{
    match fetched {
        Err(failure) => Err(DVError::SQLError(failure)),
        Ok(rows) => {
            if rows.len() == 0 {
                return Ok(None);
            }
            let largest = match cell_opt_i64(&rows[0], 0) {
                Ok(v) => v,
                Err(failure) => { return Err(DVError::SQLError(failure)); },
            };
            let largest_negative = match cell_opt_i64(&rows[0], 1) {
                Ok(v) => v,
                Err(failure) => { return Err(DVError::SQLError(failure)); },
            };
            match largest_negative {
                Some(n) => Ok(Some(i64_to_u64(n))),
                None => match largest {
                    Some(n) => Ok(Some(i64_to_u64(n))),
                    None => Ok(None),
                },
            }
        },
    }
}

pub const CONFIG_FILE_NAME: &'static str = "datavir.toml";

pub const SOCKET_NAME: &'static str = ".datavir.socket";

pub const STATUS_FILE_NAME: &'static str = ".datavir.status";

pub const VOLUMES_DIR_NAME: &'static str = "Volumes";

pub const ALL_BUNDLES_DIR_NAME: &'static str = "All Bundles";

pub const ALL_FILTERS_DIR_NAME: &'static str = "All Filters";

pub const TRASH_DIR_NAME: &'static str = "Trash";

/// The statement that puts the placeholder of a reserved inode in place.
pub open spec fn spec_placeholder(inode: u64) -> StatementView {
    StatementView { sql: RESERVE_INODE_SQL@, params: seq![Cell::Integer(spec_u64_to_i64(inode))] }
}

/// The statement that sets the file type of an inode.
pub open spec fn spec_set_file_type(inode: u64, kind: FileType) -> StatementView {
    StatementView {
        sql: SET_FILE_TYPE_SQL@,
        params: seq![
            Cell::Text(spec_file_type_code(kind)),
            Cell::Integer(spec_u64_to_i64(inode)),
        ],
    }
}

/// The statements that give every well-known inode its file type and its
/// name under the root. The root itself is a directory without a name.
pub open spec fn spec_catalogue() -> Seq<StatementView> {
    seq![
        spec_set_file_type(INODE_ROOT, FileType::Directory),
        spec_set_file_type(INODE_CONFIG, FileType::RegularFile),
        spec_save_name_of(INODE_CONFIG, INODE_ROOT, false, CONFIG_FILE_NAME@),
        spec_set_file_type(INODE_SOCKET, FileType::Socket),
        spec_save_name_of(INODE_SOCKET, INODE_ROOT, false, SOCKET_NAME@),
        spec_set_file_type(INODE_STATUS_FILE, FileType::RegularFile),
        spec_save_name_of(INODE_STATUS_FILE, INODE_ROOT, false, STATUS_FILE_NAME@),
        spec_set_file_type(INODE_VOLUMES_DIR, FileType::Directory),
        spec_save_name_of(INODE_VOLUMES_DIR, INODE_ROOT, false, VOLUMES_DIR_NAME@),
        spec_set_file_type(INODE_ALL_BUNDLES_DIR, FileType::Directory),
        spec_save_name_of(INODE_ALL_BUNDLES_DIR, INODE_ROOT, false, ALL_BUNDLES_DIR_NAME@),
        spec_set_file_type(INODE_ALL_FILTERS_DIR, FileType::Directory),
        spec_save_name_of(INODE_ALL_FILTERS_DIR, INODE_ROOT, false, ALL_FILTERS_DIR_NAME@),
        spec_set_file_type(INODE_TRASH_DIR, FileType::Directory),
        spec_save_name_of(INODE_TRASH_DIR, INODE_ROOT, false, TRASH_DIR_NAME@),
    ]
}

/// Everything the reservation runs: a placeholder for every inode of the
/// reserved range, from zero upwards, and then the catalogue. The list
/// depends on nothing, so every run asks the store for the same rows.
pub open spec fn spec_reservation() -> Seq<StatementView> {
    Seq::new(INODE_MIN as nat, |i: int| spec_placeholder(i as u64)) + spec_catalogue()
}

/// What a list of statements says.
pub open spec fn statement_views(list: Seq<SqlStatement>) -> Seq<StatementView> {
    list.map_values(|stmt: SqlStatement| stmt@)
}

/// The statement that sets the file type of an inode.
pub fn set_file_type_statement(inode: u64, kind: FileType) -> (stmt: SqlStatement)
    ensures
        stmt@ == spec_set_file_type(inode, kind),
{
    let mut params: Vec<SqlValue> = Vec::new();
    params.push(SqlValue::Text(String::from_str(file_type2string(kind))));
    params.push(SqlValue::Integer(u64_to_i64(inode)));
    let stmt = SqlStatement { sql: String::from_str(SET_FILE_TYPE_SQL), params };
    assert(stmt@.params =~= spec_set_file_type(inode, kind).params);
    stmt
}

/// The statement that puts the placeholder of a reserved inode in place.
pub fn placeholder_statement(inode: u64) -> (stmt: SqlStatement)
    ensures
        stmt@ == spec_placeholder(inode),
{
    let mut params: Vec<SqlValue> = Vec::new();
    params.push(SqlValue::Integer(u64_to_i64(inode)));
    let stmt = SqlStatement { sql: String::from_str(RESERVE_INODE_SQL), params };
    assert(stmt@.params =~= spec_placeholder(inode).params);
    stmt
}

/// Adds the statements of one well-known inode to a list.
fn push_reserved(list: &mut Vec<SqlStatement>, inode: u64, kind: FileType, name: &str)
    ensures
        statement_views(final(list)@) == statement_views(old(list)@).push(
            spec_set_file_type(inode, kind),
        ).push(spec_save_name_of(inode, INODE_ROOT, false, name@)),
{
    let first = set_file_type_statement(inode, kind);
    let second = NodeName::new(inode, INODE_ROOT, false, String::from_str(name)).save_statement();
    list.push(first);
    list.push(second);
    assert(statement_views(list@) =~= statement_views(old(list)@).push(first@).push(second@));
}

/// Everything the reservation runs.
pub fn reservation_statements() -> (list: Vec<SqlStatement>)
    ensures
        statement_views(list@) == spec_reservation(),
{
    let mut list: Vec<SqlStatement> = Vec::new();
    let mut inode: u64 = 0;
    while inode < INODE_MIN
        invariant
            inode <= INODE_MIN,
            statement_views(list@) == Seq::new(inode as nat, |i: int| spec_placeholder(i as u64)),
        decreases INODE_MIN - inode,
    {
        let stmt = placeholder_statement(inode);
        let ghost before = list@;
        list.push(stmt);
        assert(statement_views(list@) =~= statement_views(before).push(stmt@));
        assert(statement_views(list@) =~= Seq::new(
            (inode + 1) as nat,
            |i: int| spec_placeholder(i as u64),
        ));
        inode = inode + 1;
    }
    let ghost placeholders = statement_views(list@);
    let root = set_file_type_statement(INODE_ROOT, FileType::Directory);
    let ghost before = list@;
    list.push(root);
    assert(statement_views(list@) =~= statement_views(before).push(root@));
    push_reserved(&mut list, INODE_CONFIG, FileType::RegularFile, CONFIG_FILE_NAME);
    push_reserved(&mut list, INODE_SOCKET, FileType::Socket, SOCKET_NAME);
    push_reserved(&mut list, INODE_STATUS_FILE, FileType::RegularFile, STATUS_FILE_NAME);
    push_reserved(&mut list, INODE_VOLUMES_DIR, FileType::Directory, VOLUMES_DIR_NAME);
    push_reserved(&mut list, INODE_ALL_BUNDLES_DIR, FileType::Directory, ALL_BUNDLES_DIR_NAME);
    push_reserved(&mut list, INODE_ALL_FILTERS_DIR, FileType::Directory, ALL_FILTERS_DIR_NAME);
    push_reserved(&mut list, INODE_TRASH_DIR, FileType::Directory, TRASH_DIR_NAME);
    assert(statement_views(list@) =~= placeholders + spec_catalogue());
    list
}

/// Whether an error is one that bringing a store into shape can end with: a
/// failure of the store, or one of the two signs that the process must stop.
pub open spec fn spec_bootstrap_error(err: DVError) -> bool {
    err is SQLError || err is ReservedRangeViolated || err is SchemaUpgradeStuck
}

/// Runs statements in their order and stops at the first that fails. With
/// nothing to run there is nothing that can fail.
pub fn run_all(conn: &Connection, list: &Vec<SqlStatement>) -> (res: DVResult<()>)
    ensures
        list.len() == 0 ==> res is Ok,
        res matches Err(err) ==> err matches DVError::SQLError(failure) && failure is Other,
{
    let mut i: usize = 0;
    while i < list.len()
        invariant
            i <= list.len(),
        decreases list.len() - i,
    {
        match execute(conn, &list[i]) {
            Ok(_) => {},
            Err(failure) => { return Err(DVError::SQLError(failure)); },
        }
        i = i + 1;
    }
    Ok(())
}

/// Everything that the migration to version one hands to the store, in its
/// order: each text of the schema as a statement without parameters, and
/// then the statement that records version 1.
pub open spec fn spec_schema_v1_run() -> Seq<StatementView> {
    spec_schema_v1().map_values(
        |text: &'static str| StatementView { sql: text@, params: Seq::empty() },
    ).push(StatementView { sql: SET_SCHEMA_VERSION_SQL@, params: seq![Cell::Integer(1)] })
}

/// Everything that the migration to version one hands to the store.
pub fn schema_v1_run() -> (list: Vec<SqlStatement>)
    ensures
        statement_views(list@) == spec_schema_v1_run(),
{
    let texts = schema_v1_statements();
    let mut list: Vec<SqlStatement> = Vec::new();
    let mut i: usize = 0;
    while i < texts.len()
        invariant
            i <= texts.len(),
            texts@ == spec_schema_v1(),
            statement_views(list@) == texts@.take(i as int).map_values(
                |text: &'static str| StatementView { sql: text@, params: Seq::empty() },
            ),
        decreases texts.len() - i,
    {
        let stmt = SqlStatement::new(texts[i]);
        let ghost before = list@;
        list.push(stmt);
        assert(statement_views(list@) =~= statement_views(before).push(stmt@));
        assert(statement_views(list@) =~= texts@.take(i + 1).map_values(
            |text: &'static str| StatementView { sql: text@, params: Seq::empty() },
        ));
        i = i + 1;
    }
    assert(texts@.take(texts.len() as int) =~= texts@);
    let mut record = SqlStatement::new(SET_SCHEMA_VERSION_SQL);
    record.bind(SqlValue::Integer(1));
    assert(record@.params =~= seq![Cell::Integer(1)]);
    let ghost before = list@;
    list.push(record);
    assert(statement_views(list@) =~= statement_views(before).push(record@));
    list
}

/// The statement that creates the table of settings where it is missing.
pub fn app_config_statement() -> (stmt: SqlStatement)
    ensures
        stmt@ == (StatementView { sql: CREATE_APP_CONFIG_SQL@, params: Seq::empty() }),
{
    SqlStatement::new(CREATE_APP_CONFIG_SQL)
}

/// The statement that reads the version of the schema.
pub fn schema_version_statement() -> (stmt: SqlStatement)
    ensures
        stmt@ == (StatementView { sql: GET_SCHEMA_VERSION_SQL@, params: Seq::empty() }),
{
    SqlStatement::new(GET_SCHEMA_VERSION_SQL)
}

/// The statement that reads the highest persisted inode.
pub fn highest_inode_statement() -> (stmt: SqlStatement)
    ensures
        stmt@ == (StatementView { sql: HIGHEST_INODE_SQL@, params: Seq::empty() }),
{
    SqlStatement::new(HIGHEST_INODE_SQL)
}

/// The statement that counts the rows of the reserved range that are not
/// marked as reserved: the range ends before the first dynamic inode.
pub fn reserved_guard_statement() -> (stmt: SqlStatement)
    ensures
        stmt@ == (StatementView {
            sql: COUNT_RESERVED_VIOLATIONS_SQL@,
            params: seq![Cell::Integer(INODE_MIN as i64)],
        }),
{
    let mut stmt = SqlStatement::new(COUNT_RESERVED_VIOLATIONS_SQL);
    stmt.bind(SqlValue::Integer(u64_to_i64(INODE_MIN)));
    assert(stmt@.params =~= seq![Cell::Integer(INODE_MIN as i64)]);
    stmt
}

/// Creates the tables, indexes and views of version one where they are
/// missing, and records the version: it runs [`schema_v1_run`] and stops at
/// the first statement that the store refuses.
pub fn schema_upgrade_to_v1(conn: &Connection) -> (res: DVResult<()>)
    ensures
        res matches Err(err) ==> err matches DVError::SQLError(failure) && failure is Other,
{
    let list = schema_v1_run();
    run_all(conn, &list)
}

/// Reads the version of the schema; zero for a store that records none.
pub fn get_schema_version(conn: &Connection) -> (res: DVResult<i32>)
    ensures
        exists|fetched: Result<Vec<Vec<SqlValue>>, SqlFailure>|
            (fetched is Err ==> fetched->Err_0 is Other) && res == #[trigger] spec_schema_version(
                fetched,
            ),
{
    let stmt = schema_version_statement();
    let fetched = query(conn, &stmt);
    let ghost seen = fetched;
    let res = schema_version_outcome(fetched);
    assert(res == spec_schema_version(seen));
    res
}

/// How the reservation ends, given the answer of the store to the count of
/// unreserved rows in the reserved range: the verdict of the guard where it
/// refuses, and otherwise the outcome of the writes.
pub open spec fn spec_reservation_outcome(
    fetched: Result<Vec<Vec<SqlValue>>, SqlFailure>,
    res: DVResult<()>,
) -> bool {
    match spec_reserved_guard(fetched) {
        Err(err) => res == Err::<(), DVError>(err),
        Ok(_) => res is Ok || (res matches Err(DVError::SQLError(failure)) && failure is Other),
    }
}

/// Puts the reserved inodes back in place. A row of the reserved range
/// that is not marked as reserved ends the run at once, before anything is
/// written: the store is corrupt.
pub fn reserve_inodes(conn: &Connection) -> (res: DVResult<()>)
    ensures
        exists|fetched: Result<Vec<Vec<SqlValue>>, SqlFailure>|
            (fetched is Err ==> fetched->Err_0 is Other) && #[trigger] spec_reservation_outcome(
                fetched,
                res,
            ),
        res matches Err(err) ==> err is SQLError || (err matches DVError::ReservedRangeViolated(
            count,
        ) && count > 0),
{
    let guard = reserved_guard_statement();
    let fetched = query(conn, &guard);
    let ghost seen = fetched;
    match reserved_guard(fetched) {
        Ok(_) => {},
        Err(err) => {
            assert(spec_reservation_outcome(seen, Err::<(), DVError>(err)));
            return Err(err);
        },
    }
    let list = reservation_statements();
    let res = run_all(conn, &list);
    assert(spec_reservation_outcome(seen, res));
    res
}

/// Reads the highest persisted inode; `None` for a store without rows.
pub fn get_highest_inode(conn: &Connection) -> (res: DVResult<Option<u64>>)
    ensures
        exists|fetched: Result<Vec<Vec<SqlValue>>, SqlFailure>|
            (fetched is Err ==> fetched->Err_0 is Other) && res == #[trigger] spec_highest_inode(
                fetched,
            ),
{
    let stmt = highest_inode_statement();
    let fetched = query(conn, &stmt);
    let ghost seen = fetched;
    let res = highest_inode_outcome(fetched);
    assert(res == spec_highest_inode(seen));
    res
}

/// Whether an allocator is the one that is recovered from this answer of
/// the store to the question for its highest inode: the answer can be read,
/// and the allocator goes on right above the inode that it holds.
pub open spec fn spec_recovered(
    fetched: Result<Vec<Vec<SqlValue>>, SqlFailure>,
    alloc: InodeAllocator,
) -> bool {
    &&& fetched is Err ==> fetched->Err_0 is Other
    &&& spec_highest_inode(fetched) matches Ok(observed) && alloc.upcoming() == spec_first_after(
        observed,
    )
}

/// Tells the allocator where to go on: right above the highest persisted
/// inode. Where the store cannot be read the allocator stays as it is.
pub fn set_inode_counter(conn: &Connection, inode_next: &mut InodeAllocator) -> (res: DVResult<()>)
    ensures
        res is Ok ==> exists|fetched: Result<Vec<Vec<SqlValue>>, SqlFailure>| #[trigger]
            spec_recovered(fetched, *final(inode_next)),
        res matches Err(err) ==> err is SQLError && *final(inode_next) == *old(inode_next),
        res matches Err(err) ==> exists|fetched: Result<Vec<Vec<SqlValue>>, SqlFailure>|
            (fetched is Err ==> fetched->Err_0 is Other) && #[trigger] spec_highest_inode(fetched)
                == Err::<Option<u64>, DVError>(err),
{
    let stmt = highest_inode_statement();
    let fetched = query(conn, &stmt);
    let ghost seen = fetched;
    match highest_inode_outcome(fetched) {
        Ok(observed) => {
            *inode_next = InodeAllocator::recover(observed);
            assert(spec_recovered(seen, *inode_next));
            Ok(())
        },
        Err(err) => {
            assert(spec_highest_inode(seen) == Err::<Option<u64>, DVError>(err));
            Err(err)
        },
    }
}

/// Lifts the schema to the version of this crate, puts the reserved inodes
/// in place and recovers the allocator.
pub fn upgrade_schema(conn: &Connection, inode_next: &mut InodeAllocator) -> (res: DVResult<()>)
    ensures
        res is Ok ==> exists|fetched: Result<Vec<Vec<SqlValue>>, SqlFailure>| #[trigger]
            spec_recovered(fetched, *final(inode_next)),
        res matches Err(err) ==> spec_bootstrap_error(err) && *final(inode_next) == *old(
            inode_next,
        ),
{
    let create = app_config_statement();
    match execute(conn, &create) {
        Ok(_) => {},
        Err(failure) => { return Err(DVError::SQLError(failure)); },
    }
    let mut rounds: u32 = 0;
    loop
        invariant
            rounds <= MIGRATION_CEILING + 1,
            *inode_next == *old(inode_next),
        decreases MIGRATION_CEILING + 1 - rounds,
    {
        let version = match get_schema_version(conn) {
            Ok(v) => v,
            Err(err) => { return Err(err); },
        };
        match next_migration(version, rounds) {
            MigrationStep::UpToDate => { break ; },
            MigrationStep::Stuck => { return Err(DVError::SchemaUpgradeStuck); },
            MigrationStep::ApplyV1 => {
                match schema_upgrade_to_v1(conn) {
                    Ok(_) => {},
                    Err(err) => { return Err(err); },
                }
            },
        }
        rounds = rounds + 1;
    }
    match reserve_inodes(conn) {
        Ok(_) => {},
        Err(err) => { return Err(err); },
    }
    set_inode_counter(conn, inode_next)
}

/// Sets the switches of a connection, in their order.
pub fn set_conn_options(conn: &Connection) -> (res: DVResult<()>)
    ensures
        res matches Err(err) ==> err matches DVError::SQLError(failure) && failure is Other,
{
    let options = connection_options();
    let mut i: usize = 0;
    while i < options.len()
        invariant
            i <= options.len(),
        decreases options.len() - i,
    {
        let option = options[i];
        match set_db_option(conn, option.0, option.1) {
            Ok(_) => {},
            Err(err) => { return Err(DVError::SQLError(sql_failure(err))); },
        }
        i = i + 1;
    }
    Ok(())
}

/// Opens the store at `db_path`, creating it where it is missing, and
/// brings it into shape.
pub fn open_database(db_path: &str, inode_next: &mut InodeAllocator) -> (res: DVResult<Connection>)
    ensures
        res is Ok ==> exists|fetched: Result<Vec<Vec<SqlValue>>, SqlFailure>| #[trigger]
            spec_recovered(fetched, *final(inode_next)),
        res matches Err(err) ==> spec_bootstrap_error(err) && *final(inode_next) == *old(
            inode_next,
        ),
{
    let conn = match open(db_path) {
        Ok(conn) => conn,
        Err(failure) => { return Err(DVError::SQLError(failure)); },
    };
    match set_conn_options(&conn) {
        Ok(_) => {},
        Err(err) => { return Err(err); },
    }
    match upgrade_schema(&conn, inode_next) {
        Ok(_) => Ok(conn),
        Err(err) => Err(err),
    }
}

/// Whether `largest` is the largest of the persisted values `stored`.
pub open spec fn spec_is_largest(stored: Seq<i64>, largest: Option<i64>) -> bool {
    match largest {
        None => stored.len() == 0,
        Some(m) => stored.contains(m) && forall|i: int| 0 <= i < stored.len() ==> stored[i] <= m,
    }
}

/// Whether `largest` is the largest of the negative values among `stored`.
pub open spec fn spec_is_largest_negative(stored: Seq<i64>, largest: Option<i64>) -> bool {
    match largest {
        None => forall|i: int| 0 <= i < stored.len() ==> stored[i] >= 0,
        Some(m) => m < 0 && stored.contains(m) && forall|i: int|
            0 <= i < stored.len() && stored[i] < 0 ==> stored[i] <= m,
    }
}

/// The highest inode is found over the whole unsigned range: of the values
/// that the signed column holds, the one that is read is the largest as an
/// unsigned number, also where some of them are 2^63 or more.
pub proof fn lemma_highest_is_unsigned_maximum(
    stored: Seq<i64>,
    largest: Option<i64>,
    largest_negative: Option<i64>,
)
    requires
        stored.len() > 0,
        spec_is_largest(stored, largest),
        spec_is_largest_negative(stored, largest_negative),
    ensures
        spec_highest_of(largest, largest_negative) is Some,
        exists|i: int|
            0 <= i < stored.len() && spec_i64_to_u64(#[trigger] stored[i]) == spec_highest_of(
                largest,
                largest_negative,
            )->Some_0,
        forall|i: int|
            0 <= i < stored.len() ==> spec_i64_to_u64(#[trigger] stored[i]) <= spec_highest_of(
                largest,
                largest_negative,
            )->Some_0,
{
    match largest_negative {
        Some(m) => {
            let i = choose|i: int| 0 <= i < stored.len() && stored[i] == m;
            assert(spec_i64_to_u64(stored[i]) == spec_highest_of(largest, largest_negative)->Some_0);
        },
        None => {
            let m = largest->Some_0;
            let i = choose|i: int| 0 <= i < stored.len() && stored[i] == m;
            assert(spec_i64_to_u64(stored[i]) == spec_highest_of(largest, largest_negative)->Some_0);
        },
    }
}

/// The allocator that is recovered from a store goes on above every inode
/// that the store holds, so no persisted inode is handed out again.
pub proof fn lemma_recovery_is_above_every_inode(
    stored: Seq<i64>,
    largest: Option<i64>,
    largest_negative: Option<i64>,
    i: int,
)
    requires
        0 <= i < stored.len(),
        spec_is_largest(stored, largest),
        spec_is_largest_negative(stored, largest_negative),
    ensures
        spec_first_after(spec_highest_of(largest, largest_negative)) matches Some(first)
            ==> spec_i64_to_u64(stored[i]) < first,
{
    lemma_highest_is_unsigned_maximum(stored, largest, largest_negative);
}

/// Any row of the reserved range that is not marked as reserved stops the
/// opening of the store with the error after which the process must not go
/// on.
pub proof fn lemma_reserved_violation_is_fatal(rows: Vec<Vec<SqlValue>>, count: i64)
    requires
        rows.len() > 0,
        spec_cell_i64(rows[0]@, 0) == Ok::<i64, SqlFailure>(count),
        count > 0,
    ensures
        spec_reserved_guard(Ok(rows)) == Err::<(), DVError>(DVError::ReservedRangeViolated(count)),
        crate::errors::spec_is_fatal(spec_reserved_guard(Ok(rows))->Err_0),
{
}

/// A store that never reaches the version of this crate is given up after
/// the ceiling of rounds, and a store that has reached it is left alone.
pub proof fn lemma_migration_is_bounded(version: i32, rounds: u32)
    ensures
        version >= SCHEMA_VERSION ==> spec_next_migration(version, rounds) == MigrationStep::UpToDate,
        version < SCHEMA_VERSION && rounds > MIGRATION_CEILING ==> spec_next_migration(
            version,
            rounds,
        ) == MigrationStep::Stuck,
        spec_next_migration(version, rounds) == MigrationStep::ApplyV1 ==> version < SCHEMA_VERSION
            && rounds <= MIGRATION_CEILING,
{
}

/// After a store is reopened, the first inode that is handed out is one
/// more than the highest inode that the store holds: where the store
/// answers the question for its highest inode with the largest of its
/// values and the largest of its negative values, and that highest inode
/// `m` is read as an unsigned number with `63 <= m < u64::MAX`, the
/// recovered allocator hands out `m + 1` next.
pub proof fn lemma_reopen_starts_after_highest(
    rows: Vec<Vec<SqlValue>>,
    stored: Seq<i64>,
    largest: Option<i64>,
    largest_negative: Option<i64>,
    alloc: InodeAllocator,
)
    requires
        stored.len() > 0,
        spec_is_largest(stored, largest),
        spec_is_largest_negative(stored, largest_negative),
        rows.len() > 0,
        spec_cell_opt_i64(rows[0]@, 0) == Ok::<Option<i64>, SqlFailure>(largest),
        spec_cell_opt_i64(rows[0]@, 1) == Ok::<Option<i64>, SqlFailure>(largest_negative),
        spec_recovered(Ok(rows), alloc),
        spec_highest_of(largest, largest_negative)->Some_0 >= INODE_MIN - 1,
        spec_highest_of(largest, largest_negative)->Some_0 < u64::MAX,
    ensures
        alloc.upcoming() == Some((spec_highest_of(largest, largest_negative)->Some_0 + 1) as u64),
        forall|i: int|
            0 <= i < stored.len() ==> spec_i64_to_u64(#[trigger] stored[i]) < alloc.upcoming()->Some_0,
{
    lemma_highest_is_unsigned_maximum(stored, largest, largest_negative);
}

} // verus!
