//! The writes that each mutating operation stages in its transaction,
//! computed from what the transaction read.

use vstd::prelude::*;

use crate::index::{ttl_key, ttl_key_time};
use crate::metadata::Metadata;
use crate::model::{
    apply_writes, is_due, remove_effect, reap_effect, set_effect, write_bytes, write_key, write_partition, Partition,
    StoreModel, Write,
};
use crate::db::errors::TransientError;

verus! {

/// The writes of `set(key, value)` with expiration `expires_at` at time
/// `now`, given the record that `key` had (`prior`): they take every state in
/// which `key` had that record to the state that `set` leaves.
pub fn plan_set(key: &[u8], value: &[u8], prior: Option<Metadata>, expires_at: Option<u64>, now: u64) -> (r: Vec<Write>)
    ensures
        forall|s: StoreModel|
            s.meta_of(key@) == prior ==> #[trigger] apply_writes(s, r@) == set_effect(s, key@, value@, expires_at, now),
{
    let mut ws: Vec<Write> = Vec::new();
    let record = match prior {
        Some(m) => {
            if let Some(t) = m.ttl {
                ws.push(Write::DelTtl { ttl_key: ttl_key(t, key) });
            }
            Metadata { ttl: expires_at, ..m }
        },
        None => Metadata::new_at(expires_at, now),
    };
    ws.push(Write::PutMeta { key: vstd::slice::slice_to_vec(key), meta: record });
    ws.push(Write::PutData { key: vstd::slice::slice_to_vec(key), value: vstd::slice::slice_to_vec(value) });
    if let Some(t) = expires_at {
        ws.push(Write::PutTtl { ttl_key: ttl_key(t, key), key: vstd::slice::slice_to_vec(key) });
    }
    proof {
        assert forall|s: StoreModel| s.meta_of(key@) == prior implies #[trigger] apply_writes(s, ws@)
            == set_effect(s, key@, value@, expires_at, now) by {
            reveal_with_fuel(apply_writes, 5);
        }
    }
    ws
}

/// The writes of `remove(key)`, given the record that `key` had; `None`
/// where it had none, which aborts the transaction.
pub fn plan_remove(key: &[u8], prior: Option<Metadata>) -> (r: Option<Vec<Write>>)
    ensures
        r is None <==> prior is None,
        r matches Some(ws) ==> forall|s: StoreModel|
            s.meta_of(key@) == prior ==> #[trigger] apply_writes(s, ws@) == remove_effect(s, key@),
{
    match prior {
        None => None,
        Some(m) => {
            let mut ws: Vec<Write> = Vec::new();
            ws.push(Write::DelData { key: vstd::slice::slice_to_vec(key) });
            ws.push(Write::DelMeta { key: vstd::slice::slice_to_vec(key) });
            if let Some(t) = m.ttl {
                ws.push(Write::DelTtl { ttl_key: ttl_key(t, key) });
            }
            proof {
                assert forall|s: StoreModel| s.meta_of(key@) == prior implies #[trigger] apply_writes(s, ws@)
                    == remove_effect(s, key@) by {
                    reveal_with_fuel(apply_writes, 4);
                }
            }
            Some(ws)
        },
    }
}

/// The writes that reap the expiration-index entry `tk`, given the user key
/// that it named when read (`named`); none where it is already gone.
pub fn plan_reap(tk: &[u8], named: Option<Vec<u8>>) -> (r: Vec<Write>)
    ensures
        forall|s: StoreModel|
            s.ttl_of(tk@) == (match named {
                Some(k) => Some(k@),
                None => None,
            }) ==> #[trigger] apply_writes(s, r@) == reap_effect(s, tk@),
{
    let mut ws: Vec<Write> = Vec::new();
    if let Some(k) = named {
        let k2 = k.clone();
        ws.push(Write::DelData { key: k });
        ws.push(Write::DelMeta { key: k2 });
        ws.push(Write::DelTtl { ttl_key: vstd::slice::slice_to_vec(tk) });
    }
    proof {
        assert forall|s: StoreModel| s.ttl_of(tk@) == (match named {
            Some(k) => Some(k@),
            None => None,
        }) implies #[trigger] apply_writes(s, ws@) == reap_effect(s, tk@) by {
            reveal_with_fuel(apply_writes, 4);
        }
    }
    ws
}

/// What the reaper does with an expiration-index entry that it reads at time
/// `now`: `Ok(true)` to reap a due entry, `Ok(false)` to stop the scan at
/// the first entry not yet due, and an error for a key too short to hold a
/// time.
pub fn reap_decision(tk: &[u8], now: u64) -> (r: Result<bool, TransientError>)
    ensures
        tk@.len() < 8 <==> r is Err,
        r is Err ==> r->Err_0 is ParsingToU64ByteFailed,
        r matches Ok(due) ==> due == is_due(tk@, now),
{
    match ttl_key_time(tk) {
        Ok(t) => Ok(t <= now),
        Err(e) => Err(e),
    }
}

/// One write in the form in which a transaction stages it: the partition,
/// the key, and the bytes to store (`None` to remove the key).
pub struct Staged {
    pub partition: Partition,
    pub key: Vec<u8>,
    pub bytes: Option<Vec<u8>>,
}

/// How a write is staged: in its partition, under its key, with a metadata
/// record stored as its encoding.
pub fn staged_write(w: &Write) -> (r: Staged)
    ensures
        r.partition == write_partition(*w),
        r.key@ == write_key(*w),
        write_bytes(*w) == (match r.bytes {
            Some(b) => Some(b@),
            None => None,
        }),
{
    match w {
        Write::PutData { key, value } => Staged { partition: Partition::Data, key: key.clone(), bytes: Some(value.clone()) },
        Write::DelData { key } => Staged { partition: Partition::Data, key: key.clone(), bytes: None },
        Write::PutMeta { key, meta } => Staged {
            partition: Partition::Meta,
            key: key.clone(),
            bytes: Some(meta.to_u8().unwrap()),
        },
        Write::DelMeta { key } => Staged { partition: Partition::Meta, key: key.clone(), bytes: None },
        Write::PutTtl { ttl_key, key } => Staged { partition: Partition::Ttl, key: ttl_key.clone(), bytes: Some(key.clone()) },
        Write::DelTtl { ttl_key } => Staged { partition: Partition::Ttl, key: ttl_key.clone(), bytes: None },
    }
}

} // verus!
