use epoch_db::metadata::now_secs;
use epoch_db::{TransientError, DB};
use tempfile::tempdir;

#[test]
fn test_set() {
    let temp_dir = tempdir().unwrap();

    let db = DB::new(&temp_dir.path()).unwrap();

    db.set("user:1", "Alice", None).unwrap();

    assert_eq!("Alice", db.get("user:1").unwrap().unwrap());
}

#[test]
fn test_rm() {
    let temp_dir = tempdir().unwrap();

    let db = DB::new(&temp_dir.path()).unwrap();

    db.set("user:1", "Alice", None).unwrap();

    assert_eq!("Alice", db.get("user:1").unwrap().unwrap());

    db.remove("user:1").unwrap();

    assert!(db.get("user:1").unwrap().is_none());
}

#[test]
fn test_get_metadata() {
    let temp_dir = tempdir().unwrap();

    let db = DB::new(&temp_dir.path()).unwrap();

    db.set("user:1", "Alice", None).unwrap();

    assert_eq!("Alice", db.get("user:1").unwrap().unwrap());

    db.increment_frequency("user:1").unwrap();

    let meta = db.get_metadata("user:1").unwrap().unwrap();

    assert_eq!(meta.freq, 1);

    // Wait for the clock to pass the creation second.
    while now_secs().unwrap() <= meta.created_at {}

    assert!(now_secs().unwrap() > meta.created_at)
}

#[test]
fn test_data_integrity_on_update() {
    let temp_dir = tempdir().unwrap();
    let db = DB::new(&temp_dir.path()).unwrap();

    let key = "user:integrity";

    db.set(key, "Version 1", None).unwrap();
    let initial_meta = db.get_metadata(key).unwrap().unwrap();
    assert_eq!(initial_meta.freq, 0);

    db.increment_frequency(key).unwrap();
    let incremented_meta = db.get_metadata(key).unwrap().unwrap();
    assert_eq!(incremented_meta.freq, 1);
    assert_eq!(
        initial_meta.created_at, incremented_meta.created_at,
        "created_at timestamp should not change on increment."
    );

    db.set(key, "Version 2", None).unwrap();

    let final_meta = db.get_metadata(key).unwrap().unwrap();
    let final_value = db.get(key).unwrap().unwrap();

    assert_eq!(final_value, "Version 2", "Value should be updated.");
    assert_eq!(
        final_meta.freq, 1,
        "Frequency should not be reset on a value update."
    );
    assert_eq!(
        final_meta.created_at, initial_meta.created_at,
        "created_at timestamp should not change on a value update."
    );
}

#[test]
fn increments_add_up_to_calls() {
    let temp_dir = tempdir().unwrap();
    let db = DB::new(&temp_dir.path()).unwrap();
    db.set("k", "v", None).unwrap();
    for _ in 0..10 {
        for _ in 0..100 {
            db.increment_frequency("k").unwrap();
        }
    }
    assert_eq!(db.get_metadata("k").unwrap().unwrap().freq, 1000);
}

#[test]
fn first_set_has_counter_zero() {
    let temp_dir = tempdir().unwrap();
    let db = DB::new(&temp_dir.path()).unwrap();
    let before = now_secs().unwrap();
    db.set("user:1", "Alice", None).unwrap();
    let after = now_secs().unwrap();
    assert_eq!(db.get("user:1").unwrap().unwrap(), "Alice");
    let meta = db.get_metadata("user:1").unwrap().unwrap();
    assert_eq!(meta.freq, 0);
    assert_eq!(meta.ttl, None);
    assert!(before <= meta.created_at && meta.created_at <= after);
}

#[test]
fn one_increment_keeps_creation_time() {
    let temp_dir = tempdir().unwrap();
    let db = DB::new(&temp_dir.path()).unwrap();
    db.set("user:1", "Alice", None).unwrap();
    let first = db.get_metadata("user:1").unwrap().unwrap();
    db.increment_frequency("user:1").unwrap();
    let second = db.get_metadata("user:1").unwrap().unwrap();
    assert_eq!(second.freq, 1);
    assert_eq!(second.created_at, first.created_at);
    assert_eq!(second.ttl, first.ttl);
}

#[test]
fn overwrite_keeps_counter_and_creation_time() {
    let temp_dir = tempdir().unwrap();
    let db = DB::new(&temp_dir.path()).unwrap();
    db.set("a", "v1", None).unwrap();
    let first = db.get_metadata("a").unwrap().unwrap();
    db.set("a", "v2", None).unwrap();
    assert_eq!(db.get("a").unwrap().unwrap(), "v2");
    let second = db.get_metadata("a").unwrap().unwrap();
    assert_eq!(second.created_at, first.created_at);
    assert_eq!(second.freq, first.freq);
}

#[test]
fn remove_of_missing_key_fails() {
    let temp_dir = tempdir().unwrap();
    let db = DB::new(&temp_dir.path()).unwrap();
    let e = db.remove("nobody").unwrap_err();
    assert!(matches!(e, TransientError::SledTransactionError));
}

#[test]
fn increment_of_missing_key_fails() {
    let temp_dir = tempdir().unwrap();
    let db = DB::new(&temp_dir.path()).unwrap();
    let e = db.increment_frequency("nobody").unwrap_err();
    assert!(matches!(e, TransientError::IncretmentError));
}

#[test]
fn missing_key_reads_as_absent() {
    let temp_dir = tempdir().unwrap();
    let db = DB::new(&temp_dir.path()).unwrap();
    assert_eq!(db.get("nobody").unwrap(), None);
    assert_eq!(db.get_metadata("nobody").unwrap(), None);
}

#[test]
fn remove_then_set_starts_a_new_record() {
    let temp_dir = tempdir().unwrap();
    let db = DB::new(&temp_dir.path()).unwrap();
    db.set("k", "one", None).unwrap();
    db.increment_frequency("k").unwrap();
    db.remove("k").unwrap();
    db.set("k", "two", None).unwrap();
    assert_eq!(db.get("k").unwrap().unwrap(), "two");
    assert_eq!(db.get_metadata("k").unwrap().unwrap().freq, 0);
}

#[test]
fn values_survive_reopening() {
    let temp_dir = tempdir().unwrap();
    {
        let db = DB::new(&temp_dir.path()).unwrap();
        db.set("k", "kept", None).unwrap();
        db.flush().unwrap();
    }
    let db = DB::new(&temp_dir.path()).unwrap();
    assert_eq!(db.get("k").unwrap().unwrap(), "kept");
}

#[test]
fn empty_value_and_unicode_round_trip() {
    let temp_dir = tempdir().unwrap();
    let db = DB::new(&temp_dir.path()).unwrap();
    db.set("empty", "", None).unwrap();
    db.set("text", "héllo ✓", None).unwrap();
    assert_eq!(db.get("empty").unwrap().unwrap(), "");
    assert_eq!(db.get("text").unwrap().unwrap(), "héllo ✓");
}
