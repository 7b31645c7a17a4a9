//! The voicemail store over SQLite.
//!
//! Two tables hold the data: `voicemail(id, event_time, caller, time, data)`
//! and `contacts(caller, name)`.  A recording row is inserted with its blob
//! pre-allocated at a fixed capacity and then written in place through
//! SQLite's incremental blob I/O, so a 30-second call never rewrites a
//! megabyte value.  Every SQL call goes through a small trusted wrapper;
//! the shapes of the results, the id validation and the append-offset
//! arithmetic are verified here.

use crate::store::{zero_blob, BLOB_CAPACITY};
use crate::time::{format_date, is_valid_id, valid_compact_id};
use vstd::prelude::*;

verus! {

#[verifier::external_type_specification]
#[verifier::external_body]
pub struct ExConnection(rusqlite::Connection);

#[verifier::external_type_specification]
#[verifier::external_body]
pub struct ExSqliteError(rusqlite::Error);

/// A row or value coming back from the store.
#[derive(Debug, Clone)]
pub enum DataType {
    VoiceList { id: i64, event_time: String, caller: String, tel: String, time: u64 },
    Data { data: Vec<u8> },
    Id { id: i64 },
    BlobSize { offset: u64 },
}

/// The typed command surface over the store.
pub enum Queries {
    AllVoicemail,
    VoiceData(i64),
    DeleteVoicemail(i64),
    InsertData(i64, String, Vec<u8>),
    UpdateSampleTime(i64, u64),
    AddContacts(String, String),
    DeleteContacts(String),
    DeleteBlob(i64),
}

/// Errors of the store layer.
#[derive(Clone, Copy, Debug, PartialEq, Eq, Structural)]
pub enum DbError {
    /// The underlying SQLite call failed.
    Sqlite,
    /// The id is not a valid 14-digit timestamp.
    InvalidId,
}

/// One row of the voicemail listing, joined with the contacts table.
#[derive(Debug, Clone)]
pub struct VoiceRow {
    pub id: i64,
    pub event_time: String,
    pub tel: String,
    pub caller: String,
    pub time: i64,
}

/// Relies on rusqlite's `Connection::execute`: runs one SQL statement with
/// a single integer parameter, returning how many rows changed.
#[verifier::external_body]
fn db_execute_i64(conn: &rusqlite::Connection, sql: &str, p: i64) -> (r: Result<
    usize,
    rusqlite::Error,
>)
{
    conn.execute(sql, [p])
}

/// Relies on rusqlite's `Connection::execute`: one SQL statement with one
/// text parameter.
#[verifier::external_body]
fn db_execute_str1(conn: &rusqlite::Connection, sql: &str, a: &str) -> (r: Result<
    usize,
    rusqlite::Error,
>)
{
    conn.execute(sql, [a])
}

/// Relies on rusqlite's `Connection::execute`: one SQL statement with two
/// text parameters bound in order.
#[verifier::external_body]
fn db_execute_str2(conn: &rusqlite::Connection, sql: &str, a: &str, b: &str) -> (r: Result<
    usize,
    rusqlite::Error,
>)
{
    conn.execute(sql, [a, b])
}

/// Relies on rusqlite's `Connection::execute`: one SQL statement with two
/// integer parameters bound in order.
#[verifier::external_body]
fn db_execute_i64_i64(conn: &rusqlite::Connection, sql: &str, a: i64, b: i64) -> (r: Result<
    usize,
    rusqlite::Error,
>)
{
    conn.execute(sql, (a, b))
}

/// Relies on rusqlite's `Connection::execute`: the voicemail insert, with
/// id, event time, caller and blob bound in order.
#[verifier::external_body]
fn db_execute_insert(
    conn: &rusqlite::Connection,
    sql: &str,
    id: i64,
    event_time: &str,
    caller: &str,
    data: &[u8],
) -> (r: Result<usize, rusqlite::Error>)
{
    conn.execute(sql, (id, event_time, caller, data))
}

/// Relies on rusqlite's `Connection::query_row`: one SQL query with one
/// integer parameter, reading a single integer column off the first row.
#[verifier::external_body]
fn db_query_i64(conn: &rusqlite::Connection, sql: &str, p: i64) -> (r: Result<
    i64,
    rusqlite::Error,
>)
{
    conn.query_row(sql, [p], |row| row.get(0))
}

/// Relies on rusqlite's `Connection::query_row`: one SQL query with one
/// integer parameter, reading a single blob column off the first row.
#[verifier::external_body]
fn db_query_blob(conn: &rusqlite::Connection, sql: &str, p: i64) -> (r: Result<
    Vec<u8>,
    rusqlite::Error,
>)
{
    conn.query_row(sql, [p], |row| row.get(0))
}

/// Relies on rusqlite's `Connection::prepare` and `Statement::query`: runs
/// the listing query and copies each row's five columns out; a NULL sample
/// time reads as zero.
#[verifier::external_body]
fn db_query_voice_rows(conn: &rusqlite::Connection, sql: &str) -> (r: Result<
    Vec<VoiceRow>,
    rusqlite::Error,
>)
{
    let mut stmt = conn.prepare(sql)?;
    let mut rows = stmt.query([])?;
    let mut out = Vec::new();
    while let Some(row) = rows.next()? {
        let (id, event_time) = (row.get(0)?, row.get(1)?);
        let (tel, caller) = (row.get(2)?, row.get(3)?);
        let time = row.get::<_, i64>(4).unwrap_or(0);
        out.push(VoiceRow { id, event_time, tel, caller, time });
    }
    Ok(out)
}

/// The outcome of one incremental blob write.
pub enum BlobWrite {
    /// The write went through; this many bytes were written.
    Wrote(usize),
    /// The seek failed: the offset lies past the end of the blob.  Nothing
    /// was written.
    SeekFailed,
    /// Opening the blob or writing to it failed.
    Failed,
}

/// Relies on rusqlite's `Connection::blob_open` with the std `Seek` and
/// `Write` impls on `Blob`: seeking fails exactly when the offset lies past
/// the blob's end, and a successful write stores `min(data.len(), size −
/// offset)` bytes at the offset, never more than `data.len()`.
#[verifier::external_body]
fn db_blob_write_at(
    conn: &rusqlite::Connection,
    table: &str,
    column: &str,
    rowid: i64,
    offset: u64,
    data: &[u8],
) -> (r: BlobWrite)
    ensures
        r matches BlobWrite::Wrote(n) ==> n <= data@.len(),
{
    let mut blob = match conn.blob_open(rusqlite::MAIN_DB, table, column, rowid, false) {
        Ok(b) => b,
        Err(_) => return BlobWrite::Failed,
    };
    match std::io::Seek::seek(&mut blob, std::io::SeekFrom::Start(offset)) {
        Err(_) => BlobWrite::SeekFailed,
        Ok(_) => match std::io::Write::write(&mut blob, data) {
            Ok(n) => BlobWrite::Wrote(n),
            Err(_) => BlobWrite::Failed,
        },
    }
}

/// A stored sample time, read back as unsigned: negative values clamp to
/// zero.
pub open spec fn clamp_time(t: int) -> int {
    if t < 0 {
        0
    } else {
        t
    }
}

/// Turn the listing rows into the typed listing.
pub fn map_stmt_rows(rows: Vec<VoiceRow>) -> (r: Vec<DataType>)
    ensures
        r@.len() == rows@.len(),
        forall|i: int|
            0 <= i < r@.len() ==> {
                &&& #[trigger] r@[i] matches DataType::VoiceList {
                    id,
                    event_time,
                    caller,
                    tel,
                    time,
                }
                &&& id == rows@[i].id
                &&& event_time@ == rows@[i].event_time@
                &&& caller@ == rows@[i].caller@
                &&& tel@ == rows@[i].tel@
                &&& time as int == clamp_time(rows@[i].time as int)
            },
{
    let mut out: Vec<DataType> = Vec::new();
    let mut rest = rows;
    let ghost all = rest@;
    let mut i: usize = 0;
    while i < rest.len()
        invariant
            all == rest@,
            i <= rest@.len(),
            out@.len() == i,
            forall|j: int|
                0 <= j < i ==> {
                    &&& #[trigger] out@[j] matches DataType::VoiceList {
                        id,
                        event_time,
                        caller,
                        tel,
                        time,
                    }
                    &&& id == all[j].id
                    &&& event_time@ == all[j].event_time@
                    &&& caller@ == all[j].caller@
                    &&& tel@ == all[j].tel@
                    &&& time as int == clamp_time(all[j].time as int)
                },
        decreases rest@.len() - i,
    {
        let row = &rest[i];
        out.push(
            DataType::VoiceList {
                id: row.id,
                event_time: row.event_time.clone(),
                caller: row.caller.clone(),
                tel: row.tel.clone(),
                time: if row.time < 0 {
                    0
                } else {
                    row.time as u64
                },
            },
        );
        i = i + 1;
    }
    out
}

/// Does every element of the listing have the `VoiceList` shape?
pub open spec fn all_voice_list(v: Seq<DataType>) -> bool {
    forall|i: int| 0 <= i < v.len() ==> (#[trigger] v[i]) is VoiceList
}

/// The full listing: every voicemail row joined with its contact name.
pub fn all_voicemail(conn: &rusqlite::Connection) -> (r: Result<Vec<DataType>, DbError>)
    ensures
        r matches Ok(v) ==> all_voice_list(v@),
{
    let rows = match db_query_voice_rows(
        conn,
        "SELECT A.id, A.event_time, A.caller as tel,\n        COALESCE(B.name, A.caller) AS caller,\n        A.time\n    FROM voicemail as A\n    LEFT JOIN contacts as B\n    ON A.caller = B.caller",
    ) {
        Ok(rows) => rows,
        Err(_) => {
            return Err(DbError::Sqlite);
        },
    };
    Ok(map_stmt_rows(rows))
}

/// One recording's blob, as `[Data]`.
pub fn voice_data(conn: &rusqlite::Connection, id: i64) -> (r: Result<Vec<DataType>, DbError>)
    ensures
        r matches Ok(v) ==> v@.len() == 1 && v@[0] is Data,
{
    match db_query_blob(conn, "SELECT data FROM voicemail WHERE id = (?1)", id) {
        Ok(data) => {
            let mut v: Vec<DataType> = Vec::new();
            v.push(DataType::Data { data });
            Ok(v)
        },
        Err(_) => Err(DbError::Sqlite),
    }
}

/// Delete a recording row, answering with the refreshed listing.
pub fn del_voicemail(conn: &rusqlite::Connection, id: i64) -> (r: Result<Vec<DataType>, DbError>)
    ensures
        r matches Ok(v) ==> all_voice_list(v@),
{
    match db_execute_i64(conn, "DELETE FROM voicemail WHERE id = (?1)", id) {
        Ok(_) => all_voicemail(conn),
        Err(_) => Err(DbError::Sqlite),
    }
}

/// Null out a recording's blob, keeping the row.
pub fn del_blob(conn: &rusqlite::Connection, id: i64) -> (r: Result<Vec<DataType>, DbError>)
    ensures
        r matches Ok(v) ==> {
            &&& v@.len() == 1
            &&& v@[0] matches DataType::Id { id: i } && i == id
        },
{
    match db_execute_i64(conn, "UPDATE voicemail SET data = null WHERE id = (?1)", id) {
        Ok(_) => {
            let mut v: Vec<DataType> = Vec::new();
            v.push(DataType::Id { id });
            Ok(v)
        },
        Err(_) => Err(DbError::Sqlite),
    }
}

/// Insert a recording row.  The id must be a valid 14-digit timestamp — its
/// RFC 3339 rendering becomes the row's event time — and a colliding id
/// fails the insert.
pub fn insert_data(conn: &rusqlite::Connection, id: i64, caller: &str, data: &[u8]) -> (r: Result<
    Vec<DataType>,
    DbError,
>)
    ensures
        r matches Ok(v) ==> {
            &&& valid_compact_id(id as int)
            &&& v@.len() == 1
            &&& v@[0] matches DataType::Id { id: i } && i == id
        },
        !valid_compact_id(id as int) ==> r == Result::<Vec<DataType>, DbError>::Err(
            DbError::InvalidId,
        ),
{
    if !is_valid_id(id) {
        return Err(DbError::InvalidId);
    }
    let event_time = format_date(id);
    match db_execute_insert(
        conn,
        "INSERT INTO voicemail (id, event_time, caller, data) VALUES (?1, ?2, ?3, ?4)",
        id,
        event_time.as_str(),
        caller,
        data,
    ) {
        Ok(_) => {
            let mut v: Vec<DataType> = Vec::new();
            v.push(DataType::Id { id });
            Ok(v)
        },
        Err(_) => Err(DbError::Sqlite),
    }
}

/// Record a recording's final sample length.  A length beyond `i64::MAX`
/// cannot be stored in the integer column and fails.
pub fn update_sample_time(conn: &rusqlite::Connection, id: i64, time: u64) -> (r: Result<
    Vec<DataType>,
    DbError,
>)
    ensures
        r matches Ok(v) ==> {
            &&& time <= i64::MAX
            &&& v@.len() == 1
            &&& v@[0] matches DataType::Id { id: i } && i == id
        },
{
    if time > 0x7fff_ffff_ffff_ffff {
        return Err(DbError::Sqlite);
    }
    match db_execute_i64_i64(
        conn,
        "UPDATE voicemail SET time = (?2) WHERE id = (?1)",
        id,
        time as i64,
    ) {
        Ok(_) => {
            let mut v: Vec<DataType> = Vec::new();
            v.push(DataType::Id { id });
            Ok(v)
        },
        Err(_) => Err(DbError::Sqlite),
    }
}

/// Insert a contact; fails on a colliding caller.
pub fn insert_contacts(conn: &rusqlite::Connection, caller: &str, name: &str) -> (r: Result<
    usize,
    DbError,
>)
{
    match db_execute_str2(conn, "INSERT INTO contacts (caller, name) VALUES (?1, ?2)", caller, name)
    {
        Ok(n) => Ok(n),
        Err(_) => Err(DbError::Sqlite),
    }
}

/// Rename an existing contact.
pub fn update_contacts(conn: &rusqlite::Connection, caller: &str, name: &str) -> (r: Result<
    usize,
    DbError,
>)
{
    match db_execute_str2(
        conn,
        "UPDATE contacts SET name = (?2) WHERE caller = (?1)",
        caller,
        name,
    ) {
        Ok(n) => Ok(n),
        Err(_) => Err(DbError::Sqlite),
    }
}

/// Remove a contact, answering with the refreshed listing.
pub fn delete_contacts(conn: &rusqlite::Connection, caller: &str) -> (r: Result<
    Vec<DataType>,
    DbError,
>)
    ensures
        r matches Ok(v) ==> all_voice_list(v@),
{
    match db_execute_str1(conn, "DELETE FROM contacts WHERE caller = (?1)", caller) {
        Ok(_) => all_voicemail(conn),
        Err(_) => Err(DbError::Sqlite),
    }
}

/// Upsert a contact — insert, and on a collision update — answering with
/// the refreshed listing.
pub fn add_contacts(conn: &rusqlite::Connection, caller: &str, name: &str) -> (r: Result<
    Vec<DataType>,
    DbError,
>)
    ensures
        r matches Ok(v) ==> all_voice_list(v@),
{
    match insert_contacts(conn, caller, name) {
        Ok(_) => {},
        Err(_) => {
            match update_contacts(conn, caller, name) {
                Ok(_) => {},
                Err(e) => {
                    return Err(e);
                },
            }
        },
    }
    all_voicemail(conn)
}

/// Append one chunk of audio at the given offset of a recording's blob.
///
/// On success the new offset is the old one advanced by the number of bytes
/// actually written (never more than the chunk).  A failed seek is a no-op:
/// the offset comes back unchanged so the caller can retry at the same
/// cursor position.
pub fn append_chunk_blob(conn: &rusqlite::Connection, id: i64, offset: u64, data: &[u8]) -> (r:
    Result<u64, DbError>)
    requires
        offset + data@.len() <= u64::MAX,
    ensures
        r matches Ok(o) ==> offset <= o <= offset + data@.len(),
{
    let rowid = match db_query_i64(conn, "SELECT rowid FROM voicemail WHERE id = (?1)", id) {
        Ok(rowid) => rowid,
        Err(_) => {
            return Err(DbError::Sqlite);
        },
    };
    match db_blob_write_at(conn, "voicemail", "data", rowid, offset, data) {
        BlobWrite::Wrote(n) => Ok(offset + n as u64),
        BlobWrite::SeekFailed => Ok(offset),
        BlobWrite::Failed => Err(DbError::Sqlite),
    }
}

/// Insert the pre-allocated row for an answered call: a zero-filled blob of
/// the full recording capacity under the call's id and caller.
pub fn recved_call(conn: &rusqlite::Connection, id: i64, caller: &str) -> (r: Result<(), DbError>)
    ensures
        r is Ok ==> valid_compact_id(id as int),
        !valid_compact_id(id as int) ==> r == Result::<(), DbError>::Err(DbError::InvalidId),
{
    let blob = zero_blob(BLOB_CAPACITY);
    match insert_data(conn, id, caller, blob.as_slice()) {
        Ok(_) => Ok(()),
        Err(e) => Err(e),
    }
}

/// Run one typed command against the store.
pub fn execute(conn: &rusqlite::Connection, query: Queries) -> (r: Result<Vec<DataType>, DbError>)
    ensures
        r matches Ok(v) ==> match query {
            Queries::AllVoicemail => all_voice_list(v@),
            Queries::VoiceData(_) => v@.len() == 1 && v@[0] is Data,
            Queries::DeleteVoicemail(_) => all_voice_list(v@),
            Queries::InsertData(id, _, _) => {
                &&& valid_compact_id(id as int)
                &&& v@.len() == 1
                &&& v@[0] matches DataType::Id { id: i } && i == id
            },
            Queries::UpdateSampleTime(id, _) => {
                &&& v@.len() == 1
                &&& v@[0] matches DataType::Id { id: i } && i == id
            },
            Queries::AddContacts(_, _) => all_voice_list(v@),
            Queries::DeleteContacts(_) => all_voice_list(v@),
            Queries::DeleteBlob(id) => {
                &&& v@.len() == 1
                &&& v@[0] matches DataType::Id { id: i } && i == id
            },
        },
{
    match query {
        Queries::AllVoicemail => all_voicemail(conn),
        Queries::VoiceData(id) => voice_data(conn, id),
        Queries::DeleteVoicemail(id) => del_voicemail(conn, id),
        Queries::InsertData(id, caller, data) => insert_data(
            conn,
            id,
            caller.as_str(),
            data.as_slice(),
        ),
        Queries::UpdateSampleTime(id, time) => update_sample_time(conn, id, time),
        Queries::AddContacts(caller, name) => add_contacts(conn, caller.as_str(), name.as_str()),
        Queries::DeleteContacts(caller) => delete_contacts(conn, caller.as_str()),
        Queries::DeleteBlob(id) => del_blob(conn, id),
    }
}

} // verus!
