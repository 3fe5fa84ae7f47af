//! The store handle and its operations. Each mutation reads what it needs
//! inside one transaction over the three partitions, lets a verified planner
//! compute the writes, and stages them; the transaction commits them together.

use vstd::prelude::*;

pub mod errors;

use crate::db::errors::TransientError;
use crate::metadata::{now_secs, Metadata};
use crate::model::{is_due, Partition, Write};
use crate::plan::{plan_reap, plan_remove, plan_set, reap_decision, staged_write};
use crate::storage::{
    iter_next, open_engine, open_partition, transact, tree_flush, tree_get, tree_iter, tree_swap,
    txn_abort, txn_get, txn_insert, txn_pass_on, txn_remove,
};
use vstd::string::StringSliceAdditionalSpecFns;
use vstd::utf8::{decode_utf8, valid_utf8};

verus! {

/// Size of the storage engine's page cache, in bytes.
pub const CACHE_CAPACITY: u64 = 536870912;

/// Names of the three partitions on disk.
pub const DATA_PARTITION: &'static str = "data_tree";
pub const META_PARTITION: &'static str = "freq_tree";
pub const TTL_PARTITION: &'static str = "ttl_tree";

/// The store: the values, the metadata records and the expiration index,
/// each a partition of one storage engine. Expired keys are taken out by
/// `reap_expired`, which the owner of the handle runs periodically (see
/// `crate::reaper`).
#[derive(Debug)]
pub struct DB {
    data_tree: sled::Tree,
    meta_tree: sled::Tree,
    ttl_tree: sled::Tree,
}

/// The work of one transaction.
pub enum TxnStep {
    /// Store `value` under `key`, expiring at `expires_at`, at time `now`.
    Put { key: Vec<u8>, value: Vec<u8>, expires_at: Option<u64>, now: u64 },
    /// Take `key` out of all three partitions.
    Remove { key: Vec<u8> },
    /// Take the expiration-index entry `ttl_key`, and the key it names, out
    /// of all three partitions.
    Reap { ttl_key: Vec<u8> },
}

/// Relies on `std::str::from_utf8`: the bytes read as text exactly when they
/// are valid UTF-8.
#[verifier::external_body]
fn utf8_text(b: &[u8]) -> (r: Option<&str>)
    ensures
        r is Some <==> valid_utf8(b@),
        r matches Some(s) ==> s.spec_bytes() == b@,
{
    std::str::from_utf8(b).ok()
}

/// The stored bytes of a value, read as text: an error where they are not
/// valid UTF-8.
pub fn value_text(bytes: &[u8]) -> (r: Result<String, TransientError>)
    ensures
        r is Ok <==> valid_utf8(bytes@),
        r matches Ok(t) ==> t@ == decode_utf8(bytes@),
        r matches Err(e) ==> e is ParsingToUTF8Error,
{
    broadcast use vstd::utf8::encode_utf8_decode_utf8;
    match utf8_text(bytes) {
        Some(s) => Ok(s.to_owned()),
        None => Err(TransientError::ParsingToUTF8Error),
    }
}

/// The stored bytes of a metadata record, decoded: the record whose
/// encoding they are, or an error where the codec rejects them.
pub fn decode_record(bytes: &[u8]) -> (r: Result<Metadata, TransientError>)
    ensures
        forall|m: Metadata| bytes@ == m.encoding() ==> r == Ok::<Metadata, TransientError>(m),
        r matches Err(e) ==> e is ParsingToByteError,
{
    match Metadata::from_u8(bytes) {
        Ok(m) => Ok(m),
        Err(_) => Err(TransientError::ParsingToByteError),
    }
}

/// The bytes that replace a stored record when one access is counted:
/// those of the same record with its counter one higher. An error where
/// the counter is already at its largest value, or the codec fails.
pub fn counted_record(current: &[u8]) -> (r: Result<Vec<u8>, TransientError>)
    ensures
        forall|m: Metadata|
            current@ == m.encoding() ==> {
                &&& (m.freq == u64::MAX ==> r == Err::<Vec<u8>, TransientError>(TransientError::IncretmentError))
                &&& (m.freq < u64::MAX ==> r is Ok)
                &&& (r matches Ok(b) ==> m.freq < u64::MAX && b@ == (Metadata { freq: (m.freq + 1) as u64, ..m }).encoding())
            },
        r matches Err(e) ==> e is IncretmentError || e is ParsingToByteError,
{
    let m = match decode_record(current) {
        Ok(m) => m,
        Err(e) => return Err(e),
    };
    if m.freq == u64::MAX {
        return Err(TransientError::IncretmentError);
    }
    Ok(m.freq_incretement().to_u8().unwrap())
}

/// The expiration time of a key stored at `now` with time-to-live `ttl_secs`;
/// a time past the largest one representable is held at that largest time.
pub open spec fn expiry_of(now: u64, ttl_secs: Option<u64>) -> Option<u64> {
    match ttl_secs {
        Some(d) => Some(if now + d <= u64::MAX { (now + d) as u64 } else { u64::MAX }),
        None => None,
    }
}

/// The expiration time of a key stored at `now` with time-to-live `ttl_secs`.
pub fn expiry_time(now: u64, ttl_secs: Option<u64>) -> (r: Option<u64>)
    ensures
        r == expiry_of(now, ttl_secs),
{
    match ttl_secs {
        Some(d) => Some(now.saturating_add(d)),
        None => None,
    }
}

/// Reads a metadata record inside a transaction; aborts it where the stored
/// bytes do not decode.
fn txn_read_record(
    meta: &sled::transaction::TransactionalTree,
    key: &[u8],
) -> (r: Result<Option<Metadata>, sled::transaction::ConflictableTransactionError<()>>) {
    match txn_get(meta, key) {
        Err(e) => Err(txn_pass_on(e)),
        Ok(None) => Ok(None),
        Ok(Some(b)) => match decode_record(&b) {
            Ok(m) => Ok(Some(m)),
            Err(_) => Err(txn_abort()),
        },
    }
}

/// The transaction's view of the partition `p`.
fn partition_tree<'a>(
    p: Partition,
    data: &'a sled::transaction::TransactionalTree,
    meta: &'a sled::transaction::TransactionalTree,
    ttl: &'a sled::transaction::TransactionalTree,
) -> (r: &'a sled::transaction::TransactionalTree)
    ensures
        p is Data ==> r == data,
        p is Meta ==> r == meta,
        p is Ttl ==> r == ttl,
{
    match p {
        Partition::Data => data,
        Partition::Meta => meta,
        Partition::Ttl => ttl,
    }
}

/// Stages one write inside a transaction, in the partition that
/// `staged_write` names.
fn txn_stage(
    data: &sled::transaction::TransactionalTree,
    meta: &sled::transaction::TransactionalTree,
    ttl: &sled::transaction::TransactionalTree,
    w: &Write,
) -> (r: Result<(), sled::transaction::ConflictableTransactionError<()>>) {
    let st = staged_write(w);
    let tree = partition_tree(st.partition, data, meta, ttl);
    let staged = match st.bytes {
        Some(b) => txn_insert(tree, st.key.as_slice(), b),
        None => txn_remove(tree, st.key.as_slice()),
    };
    match staged {
        Ok(()) => Ok(()),
        Err(e) => Err(txn_pass_on(e)),
    }
}

/// Stages the writes inside a transaction, in order.
fn txn_stage_all(
    data: &sled::transaction::TransactionalTree,
    meta: &sled::transaction::TransactionalTree,
    ttl: &sled::transaction::TransactionalTree,
    ws: &Vec<Write>,
) -> (r: Result<(), sled::transaction::ConflictableTransactionError<()>>) {
    let mut i: usize = 0;
    while i < ws.len()
        invariant
            i <= ws@.len(),
        decreases ws@.len() - i,
    {
        match txn_stage(data, meta, ttl, &ws[i]) {
            Ok(()) => {},
            Err(e) => return Err(e),
        }
        i = i + 1;
    }
    Ok(())
}

/// The body of every transaction over the three partitions: reads what the
/// step needs, plans its writes and stages them.
pub(crate) fn run_step(
    data: &sled::transaction::TransactionalTree,
    meta: &sled::transaction::TransactionalTree,
    ttl: &sled::transaction::TransactionalTree,
    step: &TxnStep,
) -> (r: Result<(), sled::transaction::ConflictableTransactionError<()>>) {
    match step {
        TxnStep::Put { key, value, expires_at, now } => {
            let prior = match txn_read_record(meta, key.as_slice()) {
                Ok(p) => p,
                Err(e) => return Err(e),
            };
            let ws = plan_set(key.as_slice(), value.as_slice(), prior, *expires_at, *now);
            txn_stage_all(data, meta, ttl, &ws)
        },
        TxnStep::Remove { key } => {
            let prior = match txn_read_record(meta, key.as_slice()) {
                Ok(p) => p,
                Err(e) => return Err(e),
            };
            match plan_remove(key.as_slice(), prior) {
                Some(ws) => txn_stage_all(data, meta, ttl, &ws),
                None => Err(txn_abort()),
            }
        },
        TxnStep::Reap { ttl_key } => {
            let named = match txn_get(ttl, ttl_key.as_slice()) {
                Ok(n) => n,
                Err(e) => return Err(txn_pass_on(e)),
            };
            let ws = plan_reap(ttl_key.as_slice(), named);
            txn_stage_all(data, meta, ttl, &ws)
        },
    }
}

/// The transaction step of `set(key, val)` with time-to-live `ttl_secs`, at
/// time `now`.
pub fn put_step(key: &str, val: &str, ttl_secs: Option<u64>, now: u64) -> (r: TxnStep)
    ensures
        r matches TxnStep::Put { key: k, value: v, expires_at: e, now: n } && k@ == key.spec_bytes()
            && v@ == val.spec_bytes() && e == expiry_of(now, ttl_secs) && n == now,
{
    TxnStep::Put {
        key: vstd::slice::slice_to_vec(key.as_bytes()),
        value: vstd::slice::slice_to_vec(val.as_bytes()),
        expires_at: expiry_time(now, ttl_secs),
        now,
    }
}

/// The transaction step of `remove(key)`.
pub fn remove_step(key: &str) -> (r: TxnStep)
    ensures
        r matches TxnStep::Remove { key: k } && k@ == key.spec_bytes(),
{
    TxnStep::Remove { key: vstd::slice::slice_to_vec(key.as_bytes()) }
}

impl DB {
    /// Opens the store in the directory at `path`, creating it if needed.
    pub fn new(path: &std::path::Path) -> (r: Result<DB, sled::Error>) {
        let engine = match open_engine(path, CACHE_CAPACITY) {
            Ok(e) => e,
            Err(e) => return Err(e),
        };
        let data_tree = match open_partition(&engine, DATA_PARTITION) {
            Ok(t) => t,
            Err(e) => return Err(e),
        };
        let meta_tree = match open_partition(&engine, META_PARTITION) {
            Ok(t) => t,
            Err(e) => return Err(e),
        };
        let ttl_tree = match open_partition(&engine, TTL_PARTITION) {
            Ok(t) => t,
            Err(e) => return Err(e),
        };
        Ok(DB { data_tree, meta_tree, ttl_tree })
    }

    /// Stores `val` under `key`. With a time-to-live of `ttl` whole seconds
    /// the key expires that long after now; without one it is persistent. A
    /// key that was already stored keeps its counter and creation time.
    pub fn set(&self, key: &str, val: &str, ttl: Option<u64>) -> (r: Result<(), TransientError>)
        ensures
            r matches Err(e) ==> e is ClockError || e is SledTransactionError,
    {
        let now = match now_secs() {
            Some(t) => t,
            None => return Err(TransientError::ClockError),
        };
        let step = put_step(key, val, ttl, now);
        match transact(&self.data_tree, &self.meta_tree, &self.ttl_tree, &step) {
            Ok(()) => Ok(()),
            Err(_) => Err(TransientError::SledTransactionError),
        }
    }

    /// The value stored under `key`, if any.
    pub fn get(&self, key: &str) -> (r: Result<Option<String>, TransientError>)
        ensures
            r matches Err(e) ==> e is SledError || e is ParsingToUTF8Error,
    {
        match tree_get(&self.data_tree, key.as_bytes()) {
            Err(e) => Err(TransientError::SledError { error: e }),
            Ok(None) => Ok(None),
            Ok(Some(b)) => match value_text(&b) {
                Ok(t) => Ok(Some(t)),
                Err(e) => Err(e),
            },
        }
    }

    /// Counts one access of `key`: its counter goes one up and nothing else
    /// of its record changes. A concurrent change of the record makes the
    /// swap fail, and the count is retried on the new record; the attempt
    /// counter only bounds the loop, which contention never exhausts.
    pub fn increment_frequency(&self, key: &str) -> (r: Result<(), TransientError>)
        ensures
            r matches Err(e) ==> e is IncretmentError || e is ParsingToByteError || e is SledError,
    {
        let k = key.as_bytes();
        let mut attempts: u64 = 0;
        while attempts < u64::MAX
            decreases u64::MAX - attempts,
        {
            attempts = attempts + 1;
            let current = match tree_get(&self.meta_tree, k) {
                Err(e) => return Err(TransientError::SledError { error: e }),
                Ok(None) => return Err(TransientError::IncretmentError),
                Ok(Some(b)) => b,
            };
            let next = match counted_record(&current) {
                Ok(b) => b,
                Err(e) => return Err(e),
            };
            match tree_swap(&self.meta_tree, k, &current, next) {
                Ok(true) => return Ok(()),
                Ok(false) => {},
                Err(e) => return Err(TransientError::SledError { error: e }),
            }
        }
        Err(TransientError::IncretmentError)
    }

    /// Takes `key` out of all three partitions; an error where it has no
    /// record.
    pub fn remove(&self, key: &str) -> (r: Result<(), TransientError>)
        ensures
            r matches Err(e) ==> e is SledTransactionError,
    {
        let step = remove_step(key);
        match transact(&self.data_tree, &self.meta_tree, &self.ttl_tree, &step) {
            Ok(()) => Ok(()),
            Err(_) => Err(TransientError::SledTransactionError),
        }
    }

    /// The metadata record of `key`, if it has one.
    pub fn get_metadata(&self, key: &str) -> (r: Result<Option<Metadata>, TransientError>)
        ensures
            r matches Err(e) ==> e is SledError || e is ParsingToByteError,
    {
        match tree_get(&self.meta_tree, key.as_bytes()) {
            Err(e) => Err(TransientError::SledError { error: e }),
            Ok(None) => Ok(None),
            Ok(Some(b)) => match decode_record(&b) {
                Ok(m) => Ok(Some(m)),
                Err(e) => Err(e),
            },
        }
    }

    /// One pass of the reaper at time `now`: walks the expiration index in
    /// ascending time order and reaps each due entry, with its key, until
    /// the first entry that is not yet due. Returns the expiration-index keys
    /// that it reaped, each of them due at `now`.
    pub fn reap_expired(&self, now: u64) -> (r: Result<Vec<Vec<u8>>, TransientError>)
        ensures
            r matches Ok(reaped) ==> forall|i: int|
                0 <= i < reaped@.len() ==> #[trigger] reaped@[i]@.len() >= 8 && is_due(reaped@[i]@, now),
            r matches Err(e) ==> e is ParsingToU64ByteFailed || e is SledError || e is SledTransactionError,
    {
        let mut it = tree_iter(&self.ttl_tree);
        let mut reaped: Vec<Vec<u8>> = Vec::new();
        let mut seen: u64 = 0;
        while seen < u64::MAX
            invariant
                forall|i: int| 0 <= i < reaped@.len() ==> #[trigger] reaped@[i]@.len() >= 8 && is_due(reaped@[i]@, now),
            decreases u64::MAX - seen,
        {
            seen = seen + 1;
            let (tk, _named) = match iter_next(&mut it) {
                None => return Ok(reaped),
                Some(Err(e)) => return Err(TransientError::SledError { error: e }),
                Some(Ok(entry)) => entry,
            };
            match reap_decision(&tk, now) {
                Err(e) => return Err(e),
                Ok(false) => return Ok(reaped),
                Ok(true) => {},
            }
            let step = TxnStep::Reap { ttl_key: vstd::slice::slice_to_vec(tk.as_slice()) };
            match transact(&self.data_tree, &self.meta_tree, &self.ttl_tree, &step) {
                Ok(()) => reaped.push(tk),
                Err(_) => return Err(TransientError::SledTransactionError),
            }
        }
        Ok(reaped)
    }

    /// Writes buffered changes of all three partitions to disk.
    pub fn flush(&self) -> (r: Result<(), TransientError>)
        ensures
            r matches Err(e) ==> e is SledError,
    {
        match tree_flush(&self.data_tree) {
            Ok(_) => {},
            Err(e) => return Err(TransientError::SledError { error: e }),
        }
        match tree_flush(&self.meta_tree) {
            Ok(_) => {},
            Err(e) => return Err(TransientError::SledError { error: e }),
        }
        match tree_flush(&self.ttl_tree) {
            Ok(_) => Ok(()),
            Err(e) => Err(TransientError::SledError { error: e }),
        }
    }
}

} // verus!
