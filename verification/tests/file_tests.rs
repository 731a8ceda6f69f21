use solve::config::{log_level_of, new_storage, LocalStorageConfig, LogLevel, S3StorageConfig, StorageConfig};
use solve::error::ErrorKind;
use solve::files::{
    check_loadable, confirm_update, delete_decision, deletion_update, file_create_event_query,
    file_create_query, file_delete_queries, file_update_queries, file_update_query, format_key,
    generate_key, pending_file_row, status_fence, storage_path, to_hex, upload_digests,
    upload_meta, FileMeta, LocalStorage, PendingFile, UploadResult,
};
use solve::models::{FileStatus, Instant, JSON};
use solve::objects::File;
use solve::query::QueryBuilder;
use solve::value::Value;

#[test]
fn hex_rendering() {
    // `{:x}` on a byte has no leading zero.
    assert_eq!(to_hex(vec![]), "");
    assert_eq!(to_hex(vec![0]), "0");
    assert_eq!(to_hex(vec![9]), "9");
    assert_eq!(to_hex(vec![15]), "f");
    assert_eq!(to_hex(vec![16]), "10");
    assert_eq!(to_hex(vec![17]), "11");
    assert_eq!(to_hex(vec![255]), "ff");
    assert_eq!(to_hex(vec![0xde, 0xad, 0x01]), "dead1");
}

#[test]
fn digests_of_hello() {
    let data: Vec<u8> = b"hello".to_vec();
    let result = upload_digests(&data);
    assert_eq!(result.size, 5);
    assert_eq!(result.md5, "5d41402abc4b2a76b9719d911017c592");
    assert_eq!(result.md5.len(), 32);
    // Two digest bytes are below sixteen, so the `{:x}` rendering is
    // two characters shorter than the zero-padded form.
    assert_eq!(
        result.sha3_224,
        "b87f88c7272fff1748e58b87e9141a42cdbedc29a78cb0d4a5cd81"
    );
}

#[test]
fn key_formatting() {
    let key = format_key(vec![0xab, 0xcd, 0x12, 0x34], vec![0x56]);
    assert_eq!(key, "abcd/123456");
    let key = generate_key();
    // Two hex digits per leading byte, then the directory separator.
    let slash = key.find('/').unwrap();
    assert!(slash >= 2 && slash <= 4);
}

#[test]
fn storage_paths() {
    let storage = LocalStorage::new("/var/files").unwrap();
    assert_eq!(storage.load("ab/cd").unwrap(), "/var/files/ab/cd");
    let err = storage.load("").unwrap_err();
    assert_eq!(err.kind(), ErrorKind::Storage);
    assert_eq!(storage_path("/r", "k").unwrap(), "/r/k");
}

#[test]
fn meta_document() {
    let meta = FileMeta {
        name: "solution \"x\".cpp".to_string(),
        size: None,
        md5: None,
        sha3_224: None,
    };
    assert_eq!(
        meta.to_json(),
        "{\"name\":\"solution \\\"x\\\".cpp\",\"size\":null,\"md5\":null,\"sha3_224\":null}"
    );

    let result = UploadResult {
        size: 5,
        md5: "5d41402abc4b2a76b9719d911017c592".to_string(),
        sha3_224: "b87f88c7272fff1748e58b87e9141a42cdbedc29a78cb0d4a5cd81".to_string(),
    };
    let meta = upload_meta("hello.txt".to_string(), &result);
    assert_eq!(
        meta.to_json(),
        "{\"name\":\"hello.txt\",\"size\":5,\
         \"md5\":\"5d41402abc4b2a76b9719d911017c592\",\
         \"sha3_224\":\"b87f88c7272fff1748e58b87e9141a42cdbedc29a78cb0d4a5cd81\"}"
    );
}

#[test]
fn upload_round_trip() {
    // The settling of a 5-byte upload: pending with a TTL, digests in
    // the metadata, then confirmed available with the expiry cleared.
    let now = Instant { secs: 5000 };
    let data: Vec<u8> = b"hello".to_vec();
    let digests = upload_digests(&data);
    let meta = upload_meta("hello".to_string(), &digests);
    let row = pending_file_row("ab/cd".to_string(), meta.to_column(), now);
    assert_eq!(row.status, FileStatus::Pending);
    assert_eq!(row.expire_time, Some(Instant { secs: 5060 }));
    assert_eq!(row.path, "ab/cd");
    assert!(row.meta.text.contains("5d41402abc4b2a76b9719d911017c592"));

    assert!(check_loadable(&row).is_err());
    let confirmed = confirm_update(row);
    assert_eq!(confirmed.status, FileStatus::Available);
    assert_eq!(confirmed.expire_time, None);
    assert!(check_loadable(&confirmed).is_ok());
}

#[test]
fn deletion_rules() {
    let now = Instant { secs: 5000 };
    let pending_fresh = File {
        id: 1,
        status: FileStatus::Pending,
        expire_time: Some(Instant { secs: 5050 }),
        path: "k".to_string(),
        meta: JSON { text: "null".to_string() },
    };
    // A pending upload that may still settle is refused.
    let err = delete_decision(&pending_fresh, now).unwrap_err();
    assert_eq!(err.kind(), ErrorKind::Conflict);

    let mut pending_stale = pending_fresh.clone();
    pending_stale.expire_time = Some(Instant { secs: 4000 });
    assert_eq!(delete_decision(&pending_stale, now).unwrap(), Instant { secs: 4000 });

    let mut available = pending_fresh.clone();
    available.status = FileStatus::Available;
    let ttl = delete_decision(&available, now).unwrap();
    assert_eq!(ttl, Instant { secs: 5060 });
    let marked = deletion_update(available, ttl);
    assert_eq!(marked.status, FileStatus::Pending);
    assert_eq!(marked.expire_time, Some(Instant { secs: 5060 }));
}

#[test]
fn status_fence_sql() {
    let fence = status_fence(FileStatus::Pending);
    let mut builder = QueryBuilder::new();
    fence.push_into(&mut builder);
    let q = builder.build();
    assert_eq!(q.query(), "\"status\" = $1");
    assert_eq!(q.values(), &vec![Value::BigInt(0)]);
}

#[test]
fn storage_from_config() {
    let local = StorageConfig::Local(LocalStorageConfig { files_dir: "/var/files".to_string() });
    assert!(matches!(new_storage(&local), Ok(_)));
    let s3 = StorageConfig::S3(S3StorageConfig {
        region: String::new(),
        access_key_id: String::new(),
        secret_access_key: String::new(),
        endpoint: String::new(),
        bucket: String::new(),
        path_prefix: String::new(),
        use_path_style: false,
    });
    match new_storage(&s3) {
        Ok(_) => panic!("expected a refusal"),
        Err(err) => assert_eq!(err.kind(), ErrorKind::Storage),
    }
}

#[test]
fn log_levels() {
    assert_eq!(log_level_of("debug"), LogLevel::Debug);
    assert_eq!(log_level_of("info"), LogLevel::Info);
    assert_eq!(log_level_of("warning"), LogLevel::Warning);
    assert_eq!(log_level_of("error"), LogLevel::Error);
    assert_eq!(log_level_of("critical"), LogLevel::Critical);
    assert_eq!(log_level_of(""), LogLevel::Info);
    assert_eq!(log_level_of("verbose"), LogLevel::Info);
}

#[test]
fn confirm_is_fenced_on_pending() {
    let now = Instant { secs: 5000 };
    let mut row = pending_file_row(
        "ab/cd".to_string(),
        JSON { text: "null".to_string() },
        now,
    );
    row.id = 12;
    let pending = PendingFile::new(row);
    let q = pending.confirm();
    assert_eq!(
        q.query(),
        "UPDATE \"solve_file\" SET \"status\" = $1, \"expire_time\" = $2, \"path\" = $3, \
         \"meta\" = $4 WHERE \"id\" = $5 AND \"status\" = $6 RETURNING \"id\", \"status\", \
         \"expire_time\", \"path\", \"meta\""
    );
    assert_eq!(
        q.values(),
        &vec![
            Value::BigInt(1),
            Value::Null,
            Value::Text("ab/cd".to_string()),
            Value::Text("null".to_string()),
            Value::BigInt(12),
            Value::BigInt(0),
        ]
    );
}

#[test]
fn deletion_write_is_fenced_on_observed_status() {
    let file = File {
        id: 4,
        status: FileStatus::Pending,
        expire_time: Some(Instant { secs: 9 }),
        path: "k".to_string(),
        meta: JSON { text: "null".to_string() },
    };
    let q = file_update_query(file, FileStatus::Available);
    assert!(q.query().ends_with(
        "WHERE \"id\" = $5 AND \"status\" = $6 RETURNING \"id\", \"status\", \
         \"expire_time\", \"path\", \"meta\""
    ));
    assert_eq!(q.values()[4], Value::BigInt(4));
    assert_eq!(q.values()[5], Value::BigInt(1));
}

#[test]
fn file_mutations_pair_with_events() {
    let at = Instant { secs: 70 };
    let fresh = pending_file_row("ab/cd".to_string(), JSON { text: "null".to_string() }, at);
    let q = file_create_query(fresh).unwrap();
    assert_eq!(
        q.query(),
        "INSERT INTO \"solve_file\" (\"status\", \"expire_time\", \"path\", \"meta\") \
         VALUES ($1, $2, $3, $4) RETURNING \"id\", \"status\", \"expire_time\", \"path\", \
         \"meta\""
    );

    let mut invalid = pending_file_row("k".to_string(), JSON { text: "null".to_string() }, at);
    invalid.status = FileStatus::Unknown(9);
    assert!(file_create_query(invalid).is_err());

    let mut persisted = pending_file_row("ab/cd".to_string(), JSON { text: "null".to_string() }, at);
    persisted.id = 3;
    let ev = file_create_event_query(persisted.clone(), at, None);
    assert!(ev.query().starts_with("INSERT INTO \"solve_file_event\""));
    assert_eq!(ev.values()[0], Value::BigInt(3));
    assert_eq!(ev.values()[7], Value::BigInt(1));

    // Confirming pairs the fenced update with its Update event.
    let confirmed = confirm_update(persisted);
    let (update, event) = file_update_queries(confirmed, FileStatus::Pending, at, None);
    assert!(update.query().contains("WHERE \"id\" = $5 AND \"status\" = $6"));
    assert_eq!(event.values()[1], Value::BigInt(1));
    assert_eq!(event.values()[7], Value::BigInt(3));

    // Deleting pairs the fenced removal with a Delete event whose object
    // is the zero file carrying only the id.
    let (removal, event) = file_delete_queries(3, FileStatus::Pending, at, None);
    assert_eq!(
        removal.query(),
        "DELETE FROM \"solve_file\" WHERE \"id\" = $1 AND \"status\" = $2"
    );
    assert_eq!(removal.values(), &vec![Value::BigInt(3), Value::BigInt(0)]);
    assert_eq!(event.values()[0], Value::BigInt(3));
    assert_eq!(event.values()[1], Value::BigInt(0));
    assert_eq!(event.values()[2], Value::Null);
    assert_eq!(event.values()[3], Value::Text(String::new()));
    assert_eq!(event.values()[4], Value::Text("null".to_string()));
    assert_eq!(event.values()[7], Value::BigInt(2));
}
