use epoch_db::db::{counted_record, decode_record, expiry_time, put_step, remove_step, value_text, TxnStep};
use epoch_db::index::{ttl_key, ttl_key_time};
use epoch_db::model::{Partition, Write};
use epoch_db::plan::{plan_reap, plan_remove, plan_set, reap_decision, staged_write};
use epoch_db::{Metadata, ReaperEvent, ReaperState, TransientError};

fn record(freq: u64, created_at: u64, ttl: Option<u64>) -> Metadata {
    Metadata { freq, created_at, ttl }
}

#[test]
fn new_record_starts_at_zero() {
    let m = Metadata::new(Some(42));
    assert_eq!(m.freq, 0);
    assert_eq!(m.ttl, Some(42));
    assert_eq!(Metadata::new_at(None, 1700), record(0, 1700, None));
}

#[test]
fn counter_steps() {
    let m = record(7, 100, Some(200));
    assert_eq!(m.freq_incretement(), record(8, 100, Some(200)));
    assert_eq!(m.freq_decretement(), record(6, 100, Some(200)));
}

#[test]
fn codec_round_trips() {
    for m in [
        record(0, 0, None),
        record(5, 1_700_000_000, Some(1_700_000_100)),
        record(u64::MAX, u64::MAX, Some(u64::MAX)),
        record(250, 251, Some(0)),
    ] {
        let bytes = m.to_u8().unwrap();
        assert_eq!(Metadata::from_u8(&bytes).unwrap(), m);
    }
}

#[test]
fn codec_tells_presence_of_expiration() {
    let with = record(1, 2, Some(0)).to_u8().unwrap();
    let without = record(1, 2, None).to_u8().unwrap();
    assert_ne!(with, without);
    assert!(!with.is_empty());
}

#[test]
fn codec_rejects_truncated_bytes() {
    assert!(Metadata::from_u8(&[]).is_err());
    let e = decode_record(&[]).unwrap_err();
    assert!(matches!(e, TransientError::ParsingToByteError));
}

#[test]
fn ttl_key_is_big_endian_time_then_key() {
    assert_eq!(ttl_key(1, b"ab"), vec![0, 0, 0, 0, 0, 0, 0, 1, b'a', b'b']);
    assert_eq!(
        ttl_key(0x0102030405060708, b""),
        vec![1, 2, 3, 4, 5, 6, 7, 8]
    );
}

#[test]
fn ttl_key_time_reads_the_prefix() {
    assert_eq!(ttl_key_time(&ttl_key(1_700_000_000, b"user:1")).unwrap(), 1_700_000_000);
    assert_eq!(ttl_key_time(&ttl_key(u64::MAX, b"")).unwrap(), u64::MAX);
    let e = ttl_key_time(&[1, 2, 3, 4, 5, 6, 7]).unwrap_err();
    assert!(matches!(e, TransientError::ParsingToU64ByteFailed));
}

#[test]
fn ttl_keys_sort_by_time() {
    let early = ttl_key(255, b"zzzz");
    let late = ttl_key(256, b"a");
    assert!(early < late);
}

#[test]
fn reap_decision_follows_time() {
    let k = ttl_key(100, b"k");
    assert_eq!(reap_decision(&k, 99).unwrap(), false);
    assert_eq!(reap_decision(&k, 100).unwrap(), true);
    assert_eq!(reap_decision(&k, 101).unwrap(), true);
    let e = reap_decision(b"short", 1000).unwrap_err();
    assert!(matches!(e, TransientError::ParsingToU64ByteFailed));
}

#[test]
fn value_text_checks_utf8() {
    assert_eq!(value_text("héllo".as_bytes()).unwrap(), "héllo");
    assert_eq!(value_text(b"").unwrap(), "");
    let e = value_text(&[0xff, 0xfe]).unwrap_err();
    assert!(matches!(e, TransientError::ParsingToUTF8Error));
}

#[test]
fn counted_record_adds_one() {
    let m = record(3, 10, Some(20));
    let next = counted_record(&m.to_u8().unwrap()).unwrap();
    assert_eq!(Metadata::from_u8(&next).unwrap(), record(4, 10, Some(20)));
}

#[test]
fn counted_record_refuses_overflow() {
    let m = record(u64::MAX, 10, None);
    let e = counted_record(&m.to_u8().unwrap()).unwrap_err();
    assert!(matches!(e, TransientError::IncretmentError));
    let e = counted_record(&[]).unwrap_err();
    assert!(matches!(e, TransientError::ParsingToByteError));
}

#[test]
fn expiry_time_adds_and_saturates() {
    assert_eq!(expiry_time(100, Some(5)), Some(105));
    assert_eq!(expiry_time(100, None), None);
    assert_eq!(expiry_time(u64::MAX - 1, Some(5)), Some(u64::MAX));
}

#[test]
fn plan_set_for_new_key() {
    let ws = plan_set(b"k", b"v", None, Some(50), 10);
    assert_eq!(
        ws,
        vec![
            Write::PutMeta { key: b"k".to_vec(), meta: record(0, 10, Some(50)) },
            Write::PutData { key: b"k".to_vec(), value: b"v".to_vec() },
            Write::PutTtl { ttl_key: ttl_key(50, b"k"), key: b"k".to_vec() },
        ]
    );
}

#[test]
fn plan_set_for_existing_key_moves_its_entry() {
    let ws = plan_set(b"k", b"v2", Some(record(3, 5, Some(40))), None, 99);
    assert_eq!(
        ws,
        vec![
            Write::DelTtl { ttl_key: ttl_key(40, b"k") },
            Write::PutMeta { key: b"k".to_vec(), meta: record(3, 5, None) },
            Write::PutData { key: b"k".to_vec(), value: b"v2".to_vec() },
        ]
    );
}

#[test]
fn plan_remove_needs_a_record() {
    assert_eq!(plan_remove(b"k", None), None);
    assert_eq!(
        plan_remove(b"k", Some(record(0, 1, Some(9)))).unwrap(),
        vec![
            Write::DelData { key: b"k".to_vec() },
            Write::DelMeta { key: b"k".to_vec() },
            Write::DelTtl { ttl_key: ttl_key(9, b"k") },
        ]
    );
}

#[test]
fn plan_reap_of_gone_entry_is_empty() {
    let tk = ttl_key(9, b"k");
    assert_eq!(plan_reap(&tk, None), vec![]);
    assert_eq!(
        plan_reap(&tk, Some(b"k".to_vec())),
        vec![
            Write::DelData { key: b"k".to_vec() },
            Write::DelMeta { key: b"k".to_vec() },
            Write::DelTtl { ttl_key: tk.clone() },
        ]
    );
}

#[test]
fn reaper_state_machine() {
    let running = ReaperState::Running;
    assert_eq!(running.next(ReaperEvent::PassDone), ReaperState::Running);
    assert_eq!(running.next(ReaperEvent::ShutdownSeen), ReaperState::ShuttingDown);
    assert_eq!(running.next(ReaperEvent::PassFailed), ReaperState::Exited { ok: false });
    assert_eq!(ReaperState::ShuttingDown.next(ReaperEvent::PassDone), ReaperState::Exited { ok: true });
    let done = ReaperState::Exited { ok: true };
    assert_eq!(done.next(ReaperEvent::PassFailed), done);
    assert!(running.is_live());
    assert!(!done.is_live());
}

#[test]
fn every_record_encodes() {
    for m in [record(0, 0, None), record(u64::MAX, 0, Some(u64::MAX)), record(1, u64::MAX, Some(0))] {
        assert!(m.to_u8().is_ok());
    }
}

#[test]
fn staged_writes_go_to_their_partitions() {
    let m = record(2, 3, Some(4));
    let st = staged_write(&Write::PutMeta { key: b"k".to_vec(), meta: m });
    assert_eq!(st.partition, Partition::Meta);
    assert_eq!(st.key, b"k".to_vec());
    assert_eq!(st.bytes, Some(m.to_u8().unwrap()));
    let st = staged_write(&Write::PutData { key: b"k".to_vec(), value: b"v".to_vec() });
    assert_eq!(st.partition, Partition::Data);
    assert_eq!(st.bytes, Some(b"v".to_vec()));
    let st = staged_write(&Write::PutTtl { ttl_key: ttl_key(4, b"k"), key: b"k".to_vec() });
    assert_eq!(st.partition, Partition::Ttl);
    assert_eq!(st.key, ttl_key(4, b"k"));
    assert_eq!(st.bytes, Some(b"k".to_vec()));
    let st = staged_write(&Write::DelTtl { ttl_key: ttl_key(4, b"k") });
    assert_eq!(st.partition, Partition::Ttl);
    assert_eq!(st.bytes, None);
    let st = staged_write(&Write::DelData { key: b"k".to_vec() });
    assert_eq!(st.partition, Partition::Data);
    assert_eq!(st.bytes, None);
    let st = staged_write(&Write::DelMeta { key: b"k".to_vec() });
    assert_eq!(st.partition, Partition::Meta);
    assert_eq!(st.bytes, None);
}

#[test]
fn put_and_remove_steps() {
    match put_step("user:1", "Alice", Some(7), 100) {
        TxnStep::Put { key, value, expires_at, now } => {
            assert_eq!(key, b"user:1".to_vec());
            assert_eq!(value, b"Alice".to_vec());
            assert_eq!(expires_at, Some(107));
            assert_eq!(now, 100);
        }
        _ => panic!("not a put"),
    }
    match put_step("k", "", None, 5) {
        TxnStep::Put { expires_at, .. } => assert_eq!(expires_at, None),
        _ => panic!("not a put"),
    }
    match remove_step("user:1") {
        TxnStep::Remove { key } => assert_eq!(key, b"user:1".to_vec()),
        _ => panic!("not a remove"),
    }
}
