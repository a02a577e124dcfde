use malloc_test::rocksdb::{EngineError, EngineOptions, LogLevel, DB};

#[test]
fn bootstrap_options() {
    let options = EngineOptions::bootstrap();
    assert!(options.create_if_missing);
    assert!(options.create_missing_column_families);
    assert!(options.enable_statistics);
    assert_eq!(options.log_level, LogLevel::Info);
    assert!(options.dump_malloc_stats);
}

#[test]
fn an_open_engine_becomes_the_handle() {
    let db = match DB::init("/tmp/kv_store", Ok::<u32, String>(7)) {
        Ok(db) => db,
        Err(err) => panic!("{}", err.message()),
    };
    assert_eq!(*db.engine(), 7);
    assert_eq!(db.path(), "/tmp/kv_store");
    assert_eq!(db.options(), EngineOptions::bootstrap());
}

#[test]
fn a_failed_open_names_the_path_and_the_cause() {
    let outcome = DB::<u32>::init(
        "/tmp/kv_store",
        Err("IO error: While lock file: /tmp/kv_store/LOCK: Resource temporarily unavailable"
            .to_string()),
    );
    let err = match outcome {
        Ok(_) => panic!("a failed open gives no handle"),
        Err(err) => err,
    };
    assert_eq!(err.path, "/tmp/kv_store");
    assert_eq!(
        err.cause,
        "IO error: While lock file: /tmp/kv_store/LOCK: Resource temporarily unavailable"
    );
    assert_eq!(
        err.message(),
        "failed to open DB. DB path: /tmp/kv_store: IO error: While lock file: /tmp/kv_store/LOCK: Resource temporarily unavailable"
    );
}

#[test]
fn error_message_layout() {
    let err = EngineError { path: "/data".to_string(), cause: "Corruption: bad manifest".to_string() };
    assert_eq!(err.message(), "failed to open DB. DB path: /data: Corruption: bad manifest");
}

#[test]
fn clones_share_one_engine() {
    let db = match DB::init("/tmp/kv_store", Ok::<String, String>("engine".to_string())) {
        Ok(db) => db,
        Err(err) => panic!("{}", err.message()),
    };
    let other = db.clone();
    assert!(std::ptr::eq(db.engine(), other.engine()));
    assert_eq!(other.path(), "/tmp/kv_store");
    assert_eq!(other.options(), db.options());
    drop(db);
    assert_eq!(other.engine(), "engine");
}
