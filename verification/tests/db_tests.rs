use voicemail::db::{
    all_voicemail, append_chunk_blob, execute, recved_call, update_sample_time, voice_data,
    DataType, DbError, Queries,
};
use voicemail::utils::trim_null_bytes;
use voicemail::web::modify_caller_query;

fn open_db() -> rusqlite::Connection {
    let conn = rusqlite::Connection::open_in_memory().unwrap();
    conn.execute_batch(
        "create table voicemail (
            id INTEGER PRIMARY KEY,
            event_time TEXT NOT NULL DEFAULT current_timestamp,
            caller TEXT,
            time INTEGER,
            data BLOB
        );
        create table contacts (
            caller TEXT PRIMARY KEY,
            name TEXT
        );",
    )
    .unwrap();
    conn
}

const ID: i64 = 20250913013410;

#[test]
fn recording_row_carries_caller_and_event_time() {
    let conn = open_db();
    recved_call(&conn, ID, "102").unwrap();
    let rows = all_voicemail(&conn).unwrap();
    assert_eq!(rows.len(), 1);
    match &rows[0] {
        DataType::VoiceList {
            id,
            event_time,
            caller,
            tel,
            time,
        } => {
            assert_eq!(*id, ID);
            assert_eq!(event_time, "2025-09-13T01:34:10Z");
            // no contact yet: the display name falls back to the number
            assert_eq!(caller, "102");
            assert_eq!(tel, "102");
            assert_eq!(*time, 0);
        }
        other => panic!("expected VoiceList, got {:?}", other),
    }
}

#[test]
fn insert_rejects_invalid_and_colliding_ids() {
    let conn = open_db();
    assert_eq!(recved_call(&conn, 123, "x"), Err(DbError::InvalidId));
    assert_eq!(all_voicemail(&conn).unwrap().len(), 0);
    recved_call(&conn, ID, "102").unwrap();
    // same second again: the primary key collides and the insert fails
    assert_eq!(recved_call(&conn, ID, "102"), Err(DbError::Sqlite));
    assert_eq!(all_voicemail(&conn).unwrap().len(), 1);
}

#[test]
fn captured_packets_land_as_a_prefix() {
    // a recorded call: 250 packets of 160 µ-law bytes appended in order
    let conn = open_db();
    recved_call(&conn, ID, "102").unwrap();
    let mut offset: u64 = 0;
    for i in 0..250u64 {
        assert_eq!(offset, 160 * i); // offsets 0, 160, 320, ...
        offset = append_chunk_blob(&conn, ID, offset, &[0xFFu8; 160]).unwrap();
    }
    assert_eq!(offset, 40000);
    let result = voice_data(&conn, ID).unwrap();
    match &result[0] {
        DataType::Data { data } => {
            assert_eq!(data.len(), 300000); // pre-allocated capacity
            assert_eq!(trim_null_bytes(data).len(), 40000);
            assert!(trim_null_bytes(data).iter().all(|&b| b == 0xFF));
        }
        other => panic!("expected Data, got {:?}", other),
    }
}

#[test]
fn append_with_failing_seek_keeps_the_offset() {
    let conn = open_db();
    recved_call(&conn, ID, "102").unwrap();
    // past the pre-allocated end: the seek fails and nothing moves
    let off = append_chunk_blob(&conn, ID, 300001, &[1u8; 160]).unwrap();
    assert_eq!(off, 300001);
    let off = append_chunk_blob(&conn, ID, 300001, &[1u8; 160]).unwrap();
    assert_eq!(off, 300001);
    match &voice_data(&conn, ID).unwrap()[0] {
        DataType::Data { data } => assert_eq!(trim_null_bytes(data).len(), 0),
        _ => panic!("expected Data"),
    }
}

#[test]
fn appends_stop_growing_at_capacity() {
    let conn = open_db();
    recved_call(&conn, ID, "102").unwrap();
    let mut offset: u64 = 0;
    for _ in 0..31 {
        offset = append_chunk_blob(&conn, ID, offset, &[0x55u8; 10000]).unwrap();
    }
    // 310000 bytes offered, capacity keeps the last 10000 out
    assert_eq!(offset, 300000);
    match &voice_data(&conn, ID).unwrap()[0] {
        DataType::Data { data } => assert_eq!(trim_null_bytes(data).len(), 300000),
        _ => panic!("expected Data"),
    }
}

#[test]
fn append_on_a_missing_row_fails() {
    let conn = open_db();
    assert_eq!(
        append_chunk_blob(&conn, ID, 0, &[1u8; 16]),
        Err(DbError::Sqlite)
    );
}

#[test]
fn sample_time_update() {
    let conn = open_db();
    recved_call(&conn, ID, "102").unwrap();
    update_sample_time(&conn, ID, 40000).unwrap();
    match &all_voicemail(&conn).unwrap()[0] {
        DataType::VoiceList { time, .. } => assert_eq!(*time, 40000),
        _ => panic!("expected VoiceList"),
    }
}

#[test]
fn contact_names_join_the_listing() {
    let conn = open_db();
    recved_call(&conn, ID, "102").unwrap();
    let q = modify_caller_query(String::from("102"), String::from("Alice"));
    execute(&conn, q).unwrap();
    match &all_voicemail(&conn).unwrap()[0] {
        DataType::VoiceList { caller, tel, .. } => {
            assert_eq!(caller, "Alice");
            assert_eq!(tel, "102");
        }
        _ => panic!("expected VoiceList"),
    }
    // renaming goes through the update path of the upsert
    execute(
        &conn,
        modify_caller_query(String::from("102"), String::from("Bob")),
    )
    .unwrap();
    match &all_voicemail(&conn).unwrap()[0] {
        DataType::VoiceList { caller, .. } => assert_eq!(caller, "Bob"),
        _ => panic!("expected VoiceList"),
    }
    // an empty (trimmed) name deletes the contact again
    execute(
        &conn,
        modify_caller_query(String::from("102"), String::new()),
    )
    .unwrap();
    match &all_voicemail(&conn).unwrap()[0] {
        DataType::VoiceList { caller, .. } => assert_eq!(caller, "102"),
        _ => panic!("expected VoiceList"),
    }
}

#[test]
fn deleting_rows_and_blobs() {
    let conn = open_db();
    recved_call(&conn, ID, "102").unwrap();
    match execute(&conn, Queries::DeleteBlob(ID)).unwrap().as_slice() {
        [DataType::Id { id }] => assert_eq!(*id, ID),
        _ => panic!("expected [Id]"),
    }
    let rows = execute(&conn, Queries::DeleteVoicemail(ID)).unwrap();
    assert_eq!(rows.len(), 0);
}
