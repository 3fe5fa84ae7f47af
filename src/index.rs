//! Key encoding of the expiration index: the expiration time as eight
//! big-endian bytes, followed by the user key.

use vstd::prelude::*;

use crate::db::errors::TransientError;

verus! {

/// The eight big-endian bytes of `t`.
pub open spec fn be_bytes(t: u64) -> Seq<u8> {
    seq![
        (t >> 56u64) as u8,
        (t >> 48u64) as u8,
        (t >> 40u64) as u8,
        (t >> 32u64) as u8,
        (t >> 24u64) as u8,
        (t >> 16u64) as u8,
        (t >> 8u64) as u8,
        t as u8,
    ]
}

/// The number whose big-endian bytes are the first eight of `b`.
pub open spec fn be_value(b: Seq<u8>) -> u64
    recommends
        b.len() >= 8,
{
    join_be(b[0], b[1], b[2], b[3], b[4], b[5], b[6], b[7])
}

pub open spec fn join_be(b0: u8, b1: u8, b2: u8, b3: u8, b4: u8, b5: u8, b6: u8, b7: u8) -> u64 {
    (b0 as u64) << 56u64 | (b1 as u64) << 48u64 | (b2 as u64) << 40u64 | (b3 as u64) << 32u64
        | (b4 as u64) << 24u64 | (b5 as u64) << 16u64 | (b6 as u64) << 8u64 | (b7 as u64)
}

/// The expiration-index key of `key` expiring at `expires_at`.
pub open spec fn ttl_key_of(expires_at: u64, key: Seq<u8>) -> Seq<u8> {
    be_bytes(expires_at) + key
}

proof fn lemma_join_of_bytes(t: u64)
    ensures
        join_be(
            (t >> 56u64) as u8,
            (t >> 48u64) as u8,
            (t >> 40u64) as u8,
            (t >> 32u64) as u8,
            (t >> 24u64) as u8,
            (t >> 16u64) as u8,
            (t >> 8u64) as u8,
            t as u8,
        ) == t,
{
    assert(((((t >> 56u64) as u8) as u64) << 56u64 | (((t >> 48u64) as u8) as u64) << 48u64
        | (((t >> 40u64) as u8) as u64) << 40u64 | (((t >> 32u64) as u8) as u64) << 32u64
        | (((t >> 24u64) as u8) as u64) << 24u64 | (((t >> 16u64) as u8) as u64) << 16u64
        | (((t >> 8u64) as u8) as u64) << 8u64 | ((t as u8) as u64)) == t) by (bit_vector);
}

/// Reading the eight bytes of `t` back gives `t`.
pub proof fn lemma_be_round_trip(t: u64)
    ensures
        be_value(be_bytes(t)) == t,
{
    lemma_join_of_bytes(t);
}

/// Two numbers with the same bytes are equal.
pub proof fn lemma_be_bytes_injective(t1: u64, t2: u64)
    ensures
        be_bytes(t1) == be_bytes(t2) ==> t1 == t2,
{
    lemma_be_round_trip(t1);
    lemma_be_round_trip(t2);
}

/// An expiration-index key determines both the time and the user key.
pub proof fn lemma_ttl_key_injective(t1: u64, k1: Seq<u8>, t2: u64, k2: Seq<u8>)
    ensures
        ttl_key_of(t1, k1) == ttl_key_of(t2, k2) ==> t1 == t2 && k1 == k2,
{
    if ttl_key_of(t1, k1) == ttl_key_of(t2, k2) {
        let a = ttl_key_of(t1, k1);
        assert(be_bytes(t1) =~= a.subrange(0, 8));
        assert(be_bytes(t2) =~= a.subrange(0, 8));
        lemma_be_bytes_injective(t1, t2);
        assert(k1 =~= a.subrange(8, a.len() as int));
        assert(k2 =~= a.subrange(8, a.len() as int));
    }
}

/// The expiration-index key of `key` expiring at `expires_at`.
pub fn ttl_key(expires_at: u64, key: &[u8]) -> (r: Vec<u8>)
    ensures
        r@ == ttl_key_of(expires_at, key@),
{
    let mut r: Vec<u8> = Vec::new();
    r.push(#[verifier::truncate] ((expires_at >> 56u64) as u8));
    r.push(#[verifier::truncate] ((expires_at >> 48u64) as u8));
    r.push(#[verifier::truncate] ((expires_at >> 40u64) as u8));
    r.push(#[verifier::truncate] ((expires_at >> 32u64) as u8));
    r.push(#[verifier::truncate] ((expires_at >> 24u64) as u8));
    r.push(#[verifier::truncate] ((expires_at >> 16u64) as u8));
    r.push(#[verifier::truncate] ((expires_at >> 8u64) as u8));
    r.push(#[verifier::truncate] (expires_at as u8));
    let mut i: usize = 0;
    while i < key.len()
        invariant
            i <= key@.len(),
            r@ == be_bytes(expires_at) + key@.subrange(0, i as int),
        decreases key@.len() - i,
    {
        r.push(key[i]);
        i = i + 1;
        assert(key@.subrange(0, i as int) =~= key@.subrange(0, i - 1) + seq![key@[i - 1]]);
    }
    assert(key@.subrange(0, key@.len() as int) =~= key@);
    r
}

/// The expiration time in the eight-byte prefix of an expiration-index key.
pub fn ttl_key_time(k: &[u8]) -> (r: Result<u64, TransientError>)
    ensures
        k@.len() < 8 <==> r is Err,
        r is Err ==> r->Err_0 is ParsingToU64ByteFailed,
        r matches Ok(t) ==> t == be_value(k@) && be_bytes(t) == k@.subrange(0, 8),
{
    if k.len() < 8 {
        return Err(TransientError::ParsingToU64ByteFailed);
    }
    let t = ((k[0] as u64) << 56u64) | ((k[1] as u64) << 48u64) | ((k[2] as u64) << 40u64)
        | ((k[3] as u64) << 32u64) | ((k[4] as u64) << 24u64) | ((k[5] as u64) << 16u64)
        | ((k[6] as u64) << 8u64) | (k[7] as u64);
    proof {
        let (b0, b1, b2, b3, b4, b5, b6, b7) = (k@[0], k@[1], k@[2], k@[3], k@[4], k@[5], k@[6], k@[7]);
        assert(t == join_be(b0, b1, b2, b3, b4, b5, b6, b7));
        lemma_bytes_of_join(b0, b1, b2, b3, b4, b5, b6, b7);
        assert(be_bytes(t) =~= k@.subrange(0, 8));
    }
    Ok(t)
}

proof fn lemma_bytes_of_join(b0: u8, b1: u8, b2: u8, b3: u8, b4: u8, b5: u8, b6: u8, b7: u8)
    ensures
        be_bytes(join_be(b0, b1, b2, b3, b4, b5, b6, b7)) == seq![b0, b1, b2, b3, b4, b5, b6, b7],
{
    let t = join_be(b0, b1, b2, b3, b4, b5, b6, b7);
    assert(t == (b0 as u64) << 56u64 | (b1 as u64) << 48u64 | (b2 as u64) << 40u64 | (b3 as u64) << 32u64
        | (b4 as u64) << 24u64 | (b5 as u64) << 16u64 | (b6 as u64) << 8u64 | (b7 as u64));
    assert(
        (t >> 56u64) as u8 == b0 && (t >> 48u64) as u8 == b1 && (t >> 40u64) as u8 == b2
        && (t >> 32u64) as u8 == b3 && (t >> 24u64) as u8 == b4 && (t >> 16u64) as u8 == b5
        && (t >> 8u64) as u8 == b6 && t as u8 == b7
    ) by (bit_vector)
        requires
            t == (b0 as u64) << 56u64 | (b1 as u64) << 48u64 | (b2 as u64) << 40u64 | (b3 as u64) << 32u64
                | (b4 as u64) << 24u64 | (b5 as u64) << 16u64 | (b6 as u64) << 8u64 | (b7 as u64),
    ;
    assert(be_bytes(t) =~= seq![b0, b1, b2, b3, b4, b5, b6, b7]);
}

/// `a` comes no later than `b` in the ascending byte order in which the
/// storage engine walks a partition.
pub open spec fn bytes_le(a: Seq<u8>, b: Seq<u8>) -> bool {
    exists|i: int|
        0 <= i <= a.len() && i <= b.len() && a.subrange(0, i) == b.subrange(0, i) && (i == a.len() || (i
            < b.len() && a[i] < b[i]))
}

proof fn lemma_join_as_sum(b0: u8, b1: u8, b2: u8, b3: u8, b4: u8, b5: u8, b6: u8, b7: u8)
    ensures
        join_be(b0, b1, b2, b3, b4, b5, b6, b7) == (b0 as u64) * 0x100000000000000u64 + (b1 as u64)
            * 0x1000000000000u64 + (b2 as u64) * 0x10000000000u64 + (b3 as u64) * 0x100000000u64 + (b4 as u64)
            * 0x1000000u64 + (b5 as u64) * 0x10000u64 + (b6 as u64) * 0x100u64 + (b7 as u64),
{
    let t = join_be(b0, b1, b2, b3, b4, b5, b6, b7);
    assert(t == (b0 as u64) << 56u64 | (b1 as u64) << 48u64 | (b2 as u64) << 40u64 | (b3 as u64) << 32u64
        | (b4 as u64) << 24u64 | (b5 as u64) << 16u64 | (b6 as u64) << 8u64 | (b7 as u64));
    assert(t == (b0 as u64) * 0x100000000000000u64 + (b1 as u64) * 0x1000000000000u64 + (b2 as u64)
        * 0x10000000000u64 + (b3 as u64) * 0x100000000u64 + (b4 as u64) * 0x1000000u64 + (b5 as u64)
        * 0x10000u64 + (b6 as u64) * 0x100u64 + (b7 as u64)) by (bit_vector)
        requires
            t == (b0 as u64) << 56u64 | (b1 as u64) << 48u64 | (b2 as u64) << 40u64 | (b3 as u64) << 32u64
                | (b4 as u64) << 24u64 | (b5 as u64) << 16u64 | (b6 as u64) << 8u64 | (b7 as u64),
    ;
}

/// Ascending byte order of expiration-index keys is ascending time order:
/// the storage engine meets the entries in the order in which they fall due.
pub proof fn lemma_key_order_is_time_order(a: Seq<u8>, b: Seq<u8>)
    requires
        a.len() >= 8,
        b.len() >= 8,
        bytes_le(a, b),
    ensures
        be_value(a) <= be_value(b),
{
    let i = choose|i: int|
        0 <= i <= a.len() && i <= b.len() && a.subrange(0, i) == b.subrange(0, i) && (i == a.len() || (i
            < b.len() && a[i] < b[i]));
    assert forall|j: int| 0 <= j < i implies a[j] == b[j] by {
        assert(a[j] == a.subrange(0, i)[j]);
        assert(b[j] == b.subrange(0, i)[j]);
    }
    lemma_join_as_sum(a[0], a[1], a[2], a[3], a[4], a[5], a[6], a[7]);
    lemma_join_as_sum(b[0], b[1], b[2], b[3], b[4], b[5], b[6], b[7]);
    if i < 8 {
        assert(a[i] < b[i]);
        if i == 0 {
        } else if i == 1 {
            assert(a[0] == b[0]);
        } else if i == 2 {
            assert(a[0] == b[0] && a[1] == b[1]);
        } else if i == 3 {
            assert(a[0] == b[0] && a[1] == b[1] && a[2] == b[2]);
        } else if i == 4 {
            assert(a[0] == b[0] && a[1] == b[1] && a[2] == b[2] && a[3] == b[3]);
        } else if i == 5 {
            assert(a[0] == b[0] && a[1] == b[1] && a[2] == b[2] && a[3] == b[3] && a[4] == b[4]);
        } else if i == 6 {
            assert(a[0] == b[0] && a[1] == b[1] && a[2] == b[2] && a[3] == b[3] && a[4] == b[4] && a[5] == b[5]);
        } else {
            assert(a[0] == b[0] && a[1] == b[1] && a[2] == b[2] && a[3] == b[3] && a[4] == b[4] && a[5] == b[5]
                && a[6] == b[6]);
        }
    } else {
        assert(a[0] == b[0] && a[1] == b[1] && a[2] == b[2] && a[3] == b[3] && a[4] == b[4] && a[5] == b[5]
            && a[6] == b[6] && a[7] == b[7]);
    }
}

} // verus!
