//! A mathematical model of the three partitions (values, metadata and the
//! expiration index), the effect of each operation on it, and the laws that
//! the operations keep.

use vstd::prelude::*;

use crate::index::{
    be_bytes, be_value, bytes_le, lemma_be_round_trip, lemma_key_order_is_time_order, lemma_ttl_key_injective,
    ttl_key_of,
};
use crate::metadata::Metadata;

verus! {

/// The contents of the three partitions at one moment.
pub struct StoreModel {
    /// User key to user value.
    pub data: Map<Seq<u8>, Seq<u8>>,
    /// User key to its metadata record.
    pub meta: Map<Seq<u8>, Metadata>,
    /// Expiration-index key to user key.
    pub ttl: Map<Seq<u8>, Seq<u8>>,
}

/// One write that a transaction stages on one partition.
#[derive(Debug, PartialEq, Eq)]
pub enum Write {
    PutData { key: Vec<u8>, value: Vec<u8> },
    DelData { key: Vec<u8> },
    PutMeta { key: Vec<u8>, meta: Metadata },
    DelMeta { key: Vec<u8> },
    PutTtl { ttl_key: Vec<u8>, key: Vec<u8> },
    DelTtl { ttl_key: Vec<u8> },
}

/// The three partitions of the store.
#[derive(Clone, Copy, Debug, PartialEq, Eq, Structural)]
pub enum Partition {
    Data,
    Meta,
    Ttl,
}

/// The partition that a write goes to.
pub open spec fn write_partition(w: Write) -> Partition {
    match w {
        Write::PutData { .. } | Write::DelData { .. } => Partition::Data,
        Write::PutMeta { .. } | Write::DelMeta { .. } => Partition::Meta,
        Write::PutTtl { .. } | Write::DelTtl { .. } => Partition::Ttl,
    }
}

/// The partition key that a write touches.
pub open spec fn write_key(w: Write) -> Seq<u8> {
    match w {
        Write::PutData { key, .. } => key@,
        Write::DelData { key } => key@,
        Write::PutMeta { key, .. } => key@,
        Write::DelMeta { key } => key@,
        Write::PutTtl { ttl_key, .. } => ttl_key@,
        Write::DelTtl { ttl_key } => ttl_key@,
    }
}

/// The bytes that a write stores under its key; `None` for a removal.
pub open spec fn write_bytes(w: Write) -> Option<Seq<u8>> {
    match w {
        Write::PutData { value, .. } => Some(value@),
        Write::PutMeta { meta, .. } => Some(meta.encoding()),
        Write::PutTtl { key, .. } => Some(key@),
        _ => None,
    }
}

impl StoreModel {
    /// The metadata record of `key`, if it has one.
    pub open spec fn meta_of(self, key: Seq<u8>) -> Option<Metadata> {
        if self.meta.contains_key(key) {
            Some(self.meta[key])
        } else {
            None
        }
    }

    /// The user key that the expiration-index entry `tk` names, if present.
    pub open spec fn ttl_of(self, tk: Seq<u8>) -> Option<Seq<u8>> {
        if self.ttl.contains_key(tk) {
            Some(self.ttl[tk])
        } else {
            None
        }
    }

    /// The expiration-index entry `tk` is the one that its key's record asks for.
    pub open spec fn ttl_entry_ok(self, tk: Seq<u8>) -> bool {
        let k = self.ttl[tk];
        &&& self.meta.contains_key(k)
        &&& self.meta[k].ttl is Some
        &&& tk == ttl_key_of(self.meta[k].ttl->0, k)
    }

    /// The cross-index invariants: every stored value has a record; every
    /// record with an expiration has exactly its one index entry, one without
    /// has none; and no index entry names a key without a record.
    pub open spec fn well_formed(self) -> bool {
        &&& forall|k: Seq<u8>| #[trigger] self.data.contains_key(k) ==> self.meta.contains_key(k)
        &&& forall|k: Seq<u8>|
            #[trigger] self.meta.contains_key(k) && self.meta[k].ttl is Some ==> {
                let tk = ttl_key_of(self.meta[k].ttl->0, k);
                self.ttl.contains_key(tk) && self.ttl[tk] == k
            }
        &&& forall|tk: Seq<u8>| #[trigger] self.ttl.contains_key(tk) ==> self.ttl_entry_ok(tk)
    }

    /// Every key with a record in both states kept its creation time.
    pub open spec fn keeps_created_at(self, later: StoreModel) -> bool {
        forall|k: Seq<u8>|
            self.meta.contains_key(k) && #[trigger] later.meta.contains_key(k)
                ==> later.meta[k].created_at == self.meta[k].created_at
    }
}

/// The state after one write.
pub open spec fn apply_write(s: StoreModel, w: Write) -> StoreModel {
    match w {
        Write::PutData { key, value } => StoreModel { data: s.data.insert(key@, value@), ..s },
        Write::DelData { key } => StoreModel { data: s.data.remove(key@), ..s },
        Write::PutMeta { key, meta } => StoreModel { meta: s.meta.insert(key@, meta), ..s },
        Write::DelMeta { key } => StoreModel { meta: s.meta.remove(key@), ..s },
        Write::PutTtl { ttl_key, key } => StoreModel { ttl: s.ttl.insert(ttl_key@, key@), ..s },
        Write::DelTtl { ttl_key } => StoreModel { ttl: s.ttl.remove(ttl_key@), ..s },
    }
}

/// The state after the writes, in order.
pub open spec fn apply_writes(s: StoreModel, ws: Seq<Write>) -> StoreModel
    decreases ws.len(),
{
    if ws.len() == 0 {
        s
    } else {
        apply_writes(apply_write(s, ws[0]), ws.drop_first())
    }
}

/// The expiration index without the entry of `key` expiring at `exp`.
pub open spec fn drop_ttl(ttl: Map<Seq<u8>, Seq<u8>>, key: Seq<u8>, exp: Option<u64>) -> Map<Seq<u8>, Seq<u8>> {
    match exp {
        Some(t) => ttl.remove(ttl_key_of(t, key)),
        None => ttl,
    }
}

/// The expiration index with an entry of `key` expiring at `exp`.
pub open spec fn add_ttl(ttl: Map<Seq<u8>, Seq<u8>>, key: Seq<u8>, exp: Option<u64>) -> Map<Seq<u8>, Seq<u8>> {
    match exp {
        Some(t) => ttl.insert(ttl_key_of(t, key), key),
        None => ttl,
    }
}

/// The record that `set` stores: the prior one with the new expiration, or
/// a fresh one created at `now`.
pub open spec fn set_record(prior: Option<Metadata>, exp: Option<u64>, now: u64) -> Metadata {
    match prior {
        Some(m) => Metadata { ttl: exp, ..m },
        None => Metadata { freq: 0, created_at: now, ttl: exp },
    }
}

/// The state after `set(key, value)` with expiration `exp`, at time `now`.
pub open spec fn set_effect(s: StoreModel, key: Seq<u8>, value: Seq<u8>, exp: Option<u64>, now: u64) -> StoreModel {
    let prior = s.meta_of(key);
    let old_exp = match prior {
        Some(m) => m.ttl,
        None => None,
    };
    StoreModel {
        data: s.data.insert(key, value),
        meta: s.meta.insert(key, set_record(prior, exp, now)),
        ttl: add_ttl(drop_ttl(s.ttl, key, old_exp), key, exp),
    }
}

/// The state after `remove(key)`, for a key that has a record.
pub open spec fn remove_effect(s: StoreModel, key: Seq<u8>) -> StoreModel {
    StoreModel {
        data: s.data.remove(key),
        meta: s.meta.remove(key),
        ttl: drop_ttl(s.ttl, key, s.meta[key].ttl),
    }
}

/// The state after the reaper deletes the expiration-index entry `tk`: the
/// entry and the key that it names go from all three partitions; an entry
/// that is already gone leaves the state as it is.
pub open spec fn reap_effect(s: StoreModel, tk: Seq<u8>) -> StoreModel {
    if s.ttl.contains_key(tk) {
        let k = s.ttl[tk];
        StoreModel { data: s.data.remove(k), meta: s.meta.remove(k), ttl: s.ttl.remove(tk) }
    } else {
        s
    }
}

/// The state after one counted access of `key`.
pub open spec fn increment_effect(s: StoreModel, key: Seq<u8>) -> StoreModel {
    let m = s.meta[key];
    StoreModel { meta: s.meta.insert(key, Metadata { freq: (m.freq + 1) as u64, ..m }), ..s }
}

/// The state after `n` counted accesses of `key`.
pub open spec fn increment_n(s: StoreModel, key: Seq<u8>, n: nat) -> StoreModel
    decreases n,
{
    if n == 0 {
        s
    } else {
        increment_effect(increment_n(s, key, (n - 1) as nat), key)
    }
}

/// An expiration-index entry is due at `now` when its time is not after `now`.
pub open spec fn is_due(tk: Seq<u8>, now: u64) -> bool {
    be_value(tk) <= now
}

/// `set` keeps the cross-index invariants, and every other key's creation time.
pub proof fn lemma_set_keeps_invariants(s: StoreModel, key: Seq<u8>, value: Seq<u8>, exp: Option<u64>, now: u64)
    requires
        s.well_formed(),
    ensures
        set_effect(s, key, value, exp, now).well_formed(),
        s.keeps_created_at(set_effect(s, key, value, exp, now)),
{
    let s2 = set_effect(s, key, value, exp, now);
    let old_exp = match s.meta_of(key) {
        Some(m) => m.ttl,
        None => None,
    };
    assert forall|k: Seq<u8>| #[trigger] s2.meta.contains_key(k) && s2.meta[k].ttl is Some implies ({
        let tk = ttl_key_of(s2.meta[k].ttl->0, k);
        s2.ttl.contains_key(tk) && s2.ttl[tk] == k
    }) by {
        if k != key {
            let t = s2.meta[k].ttl->0;
            let tk = ttl_key_of(t, k);
            if let Some(o) = old_exp {
                lemma_ttl_key_injective(t, k, o, key);
            }
            if let Some(e) = exp {
                lemma_ttl_key_injective(t, k, e, key);
            }
        }
    }
    assert forall|tk: Seq<u8>| #[trigger] s2.ttl.contains_key(tk) implies s2.ttl_entry_ok(tk) by {
        if let Some(e) = exp {
            if tk != ttl_key_of(e, key) {
                let k = s.ttl[tk];
                assert(s.ttl_entry_ok(tk));
                if k == key {
                    assert(old_exp == s.meta[key].ttl);
                }
            }
        } else {
            let k = s.ttl[tk];
            assert(s.ttl_entry_ok(tk));
            if k == key {
                assert(old_exp == s.meta[key].ttl);
            }
        }
    }
}

/// `remove` keeps the cross-index invariants, and every other key's creation time.
pub proof fn lemma_remove_keeps_invariants(s: StoreModel, key: Seq<u8>)
    requires
        s.well_formed(),
        s.meta.contains_key(key),
    ensures
        remove_effect(s, key).well_formed(),
        s.keeps_created_at(remove_effect(s, key)),
{
    let s2 = remove_effect(s, key);
    assert forall|k: Seq<u8>| #[trigger] s2.meta.contains_key(k) && s2.meta[k].ttl is Some implies ({
        let tk = ttl_key_of(s2.meta[k].ttl->0, k);
        s2.ttl.contains_key(tk) && s2.ttl[tk] == k
    }) by {
        if let Some(o) = s.meta[key].ttl {
            lemma_ttl_key_injective(s2.meta[k].ttl->0, k, o, key);
        }
    }
    assert forall|tk: Seq<u8>| #[trigger] s2.ttl.contains_key(tk) implies s2.ttl_entry_ok(tk) by {
        assert(s.ttl_entry_ok(tk));
    }
}

/// Reaping an expiration-index entry keeps the cross-index invariants, and
/// every remaining key's creation time.
pub proof fn lemma_reap_keeps_invariants(s: StoreModel, tk: Seq<u8>)
    requires
        s.well_formed(),
    ensures
        reap_effect(s, tk).well_formed(),
        s.keeps_created_at(reap_effect(s, tk)),
{
    if s.ttl.contains_key(tk) {
        let s2 = reap_effect(s, tk);
        let gone = s.ttl[tk];
        assert(s.ttl_entry_ok(tk));
        assert forall|k: Seq<u8>| #[trigger] s2.meta.contains_key(k) && s2.meta[k].ttl is Some implies ({
            let tk2 = ttl_key_of(s2.meta[k].ttl->0, k);
            s2.ttl.contains_key(tk2) && s2.ttl[tk2] == k
        }) by {
            lemma_ttl_key_injective(s2.meta[k].ttl->0, k, s.meta[gone].ttl->0, gone);
        }
        assert forall|tk2: Seq<u8>| #[trigger] s2.ttl.contains_key(tk2) implies s2.ttl_entry_ok(tk2) by {
            assert(s.ttl_entry_ok(tk2));
        }
    }
}

/// Counting an access keeps the cross-index invariants and changes nothing
/// of the key but its counter.
pub proof fn lemma_increment_keeps_invariants(s: StoreModel, key: Seq<u8>)
    requires
        s.well_formed(),
        s.meta.contains_key(key),
        s.meta[key].freq < u64::MAX,
    ensures
        increment_effect(s, key).well_formed(),
        s.keeps_created_at(increment_effect(s, key)),
        increment_effect(s, key).meta[key].ttl == s.meta[key].ttl,
        increment_effect(s, key).data == s.data,
        increment_effect(s, key).ttl == s.ttl,
{
    let s2 = increment_effect(s, key);
    assert forall|tk: Seq<u8>| #[trigger] s2.ttl.contains_key(tk) implies s2.ttl_entry_ok(tk) by {
        assert(s.ttl_entry_ok(tk));
    }
}

/// `n` counted accesses of a key, from any number of callers, raise its
/// counter by exactly `n` and leave its creation time and expiration alone.
pub proof fn lemma_increments_add_up(s: StoreModel, key: Seq<u8>, n: nat)
    requires
        s.well_formed(),
        s.meta.contains_key(key),
        s.meta[key].freq + n <= u64::MAX,
    ensures
        increment_n(s, key, n).well_formed(),
        increment_n(s, key, n).meta.contains_key(key),
        increment_n(s, key, n).meta[key].freq == s.meta[key].freq + n,
        increment_n(s, key, n).meta[key].created_at == s.meta[key].created_at,
        increment_n(s, key, n).meta[key].ttl == s.meta[key].ttl,
        increment_n(s, key, n).data == s.data,
    decreases n,
{
    if n > 0 {
        lemma_increments_add_up(s, key, (n - 1) as nat);
        lemma_increment_keeps_invariants(increment_n(s, key, (n - 1) as nat), key);
    }
}

/// A key stored without an expiration is never taken by the reaper: reaping
/// any entry of a well-formed state leaves its value and record in place.
pub proof fn lemma_reap_spares_persistent(s: StoreModel, tk: Seq<u8>, key: Seq<u8>)
    requires
        s.well_formed(),
        s.meta.contains_key(key),
        s.meta[key].ttl is None,
    ensures
        reap_effect(s, tk).meta.contains_key(key),
        reap_effect(s, tk).meta[key] == s.meta[key],
        reap_effect(s, tk).data.contains_key(key) == s.data.contains_key(key),
        s.data.contains_key(key) ==> reap_effect(s, tk).data[key] == s.data[key],
{
    if s.ttl.contains_key(tk) {
        assert(s.ttl_entry_ok(tk));
    }
}

/// A key set with an expiration at `exp` has its expiration-index entry, that
/// entry is due at every time from `exp` on, and reaping it removes the key
/// from the values and the records.
pub proof fn lemma_expiring_key_is_reaped(
    s: StoreModel,
    key: Seq<u8>,
    value: Seq<u8>,
    exp: u64,
    now: u64,
    later: u64,
)
    requires
        s.well_formed(),
        exp <= later,
    ensures
        ({
            let s2 = set_effect(s, key, value, Some(exp), now);
            let tk = ttl_key_of(exp, key);
            &&& s2.ttl.contains_key(tk)
            &&& s2.ttl[tk] == key
            &&& is_due(tk, later)
            &&& !reap_effect(s2, tk).data.contains_key(key)
            &&& !reap_effect(s2, tk).meta.contains_key(key)
        }),
{
    let tk = ttl_key_of(exp, key);
    lemma_be_round_trip(exp);
    assert(tk.subrange(0, 8) =~= be_bytes(exp));
    assert(be_value(tk) == be_value(be_bytes(exp)));
}

/// One operation on the store, as the model sees it.
pub enum ModelOp {
    Put { key: Seq<u8>, value: Seq<u8>, exp: Option<u64>, now: u64 },
    Remove { key: Seq<u8> },
    Reap { ttl_key: Seq<u8> },
    Increment { key: Seq<u8> },
}

/// The state after one operation; one that fails (removing or counting a
/// key without a record, or a counter at its largest value) changes nothing.
pub open spec fn step(s: StoreModel, op: ModelOp) -> StoreModel {
    match op {
        ModelOp::Put { key, value, exp, now } => set_effect(s, key, value, exp, now),
        ModelOp::Remove { key } => if s.meta.contains_key(key) {
            remove_effect(s, key)
        } else {
            s
        },
        ModelOp::Reap { ttl_key } => reap_effect(s, ttl_key),
        ModelOp::Increment { key } => if s.meta.contains_key(key) && s.meta[key].freq < u64::MAX {
            increment_effect(s, key)
        } else {
            s
        },
    }
}

/// The state after the operations, in order.
pub open spec fn run(s: StoreModel, ops: Seq<ModelOp>) -> StoreModel
    decreases ops.len(),
{
    if ops.len() == 0 {
        s
    } else {
        run(step(s, ops[0]), ops.drop_first())
    }
}

/// `key` has a record before, during and after the operations.
pub open spec fn stays(s: StoreModel, ops: Seq<ModelOp>, key: Seq<u8>) -> bool
    decreases ops.len(),
{
    &&& s.meta.contains_key(key)
    &&& (ops.len() > 0 ==> stays(step(s, ops[0]), ops.drop_first(), key))
}

/// One operation keeps the cross-index invariants and every creation time.
pub proof fn lemma_step_keeps_invariants(s: StoreModel, op: ModelOp)
    requires
        s.well_formed(),
    ensures
        step(s, op).well_formed(),
        s.keeps_created_at(step(s, op)),
{
    match op {
        ModelOp::Put { key, value, exp, now } => lemma_set_keeps_invariants(s, key, value, exp, now),
        ModelOp::Remove { key } => if s.meta.contains_key(key) {
            lemma_remove_keeps_invariants(s, key);
        },
        ModelOp::Reap { ttl_key } => lemma_reap_keeps_invariants(s, ttl_key),
        ModelOp::Increment { key } => if s.meta.contains_key(key) && s.meta[key].freq < u64::MAX {
            lemma_increment_keeps_invariants(s, key);
        },
    }
}

/// Any sequence of operations from a well-formed state ends in a
/// well-formed state, and a key that keeps its record throughout keeps the
/// creation time that it had at the start.
pub proof fn lemma_run_keeps_invariants(s: StoreModel, ops: Seq<ModelOp>)
    requires
        s.well_formed(),
    ensures
        run(s, ops).well_formed(),
        forall|k: Seq<u8>| #[trigger] stays(s, ops, k) ==> run(s, ops).meta[k].created_at == s.meta[k].created_at,
    decreases ops.len(),
{
    if ops.len() > 0 {
        let s1 = step(s, ops[0]);
        lemma_step_keeps_invariants(s, ops[0]);
        lemma_run_keeps_invariants(s1, ops.drop_first());
        assert forall|k: Seq<u8>| #[trigger] stays(s, ops, k) implies run(s, ops).meta[k].created_at
            == s.meta[k].created_at by {
            assert(stays(s1, ops.drop_first(), k));
            assert(s1.meta.contains_key(k));
        }
    }
}

/// The empty store is well formed.
pub proof fn lemma_empty_is_well_formed()
    ensures
        (StoreModel { data: Map::empty(), meta: Map::empty(), ttl: Map::empty() }).well_formed(),
{
}

/// The reaper may stop at the first entry that is not yet due: every entry
/// after it in the engine's order is not due either.
pub proof fn lemma_no_due_entry_after_stop(first: Seq<u8>, later_entry: Seq<u8>, now: u64)
    requires
        first.len() >= 8,
        later_entry.len() >= 8,
        bytes_le(first, later_entry),
        !is_due(first, now),
    ensures
        !is_due(later_entry, now),
{
    lemma_key_order_is_time_order(first, later_entry);
}

} // verus!
