//! The per-key metadata record and its binary codec.

use vstd::prelude::*;

verus! {

/// Information kept beside each key: how often it was accessed, when it was
/// first stored, and when it expires.
#[derive(Clone, Copy, Debug, PartialEq, Eq, Structural)]
pub struct Metadata {
    /// The number of times the key has been accessed.
    pub freq: u64,
    /// Seconds since the UNIX epoch at which the key was first stored.
    pub created_at: u64,
    /// Seconds since the UNIX epoch at which the key expires; `None` for a
    /// persistent key.
    pub ttl: Option<u64>,
}

/// The bytes that the codec produces for a record with these fields.
pub uninterp spec fn encoded_record(freq: u64, created_at: u64, ttl: Option<u64>) -> Seq<u8>;

/// Relies on `bincode::serde::encode_to_vec` with the standard configuration:
/// a record is encoded as the tuple of its three fields, and the bytes depend
/// on the field values alone. Two integers and an optional integer written
/// into a growable buffer never fail to encode.
#[verifier::external_body]
fn encode_fields(m: &Metadata) -> (r: Result<Vec<u8>, bincode::error::EncodeError>)
    ensures
        r is Ok,
        r matches Ok(b) ==> b@ == encoded_record(m.freq, m.created_at, m.ttl),
{
    bincode::serde::encode_to_vec((m.freq, m.created_at, m.ttl), bincode::config::standard())
}

/// Relies on `bincode::serde::decode_from_slice` with the standard
/// configuration: bytes that encode a tuple of the three fields decode back
/// to exactly that tuple.
#[verifier::external_body]
fn decode_fields(b: &[u8]) -> (r: Result<Metadata, bincode::error::DecodeError>)
    ensures
        forall|m: Metadata| b@ == encoded_record(m.freq, m.created_at, m.ttl) ==> r is Ok && r->Ok_0 == m,
{
    bincode::serde::decode_from_slice::<(u64, u64, Option<u64>), _>(b, bincode::config::standard())
        .map(|((freq, created_at, ttl), _)| Metadata { freq, created_at, ttl })
}

/// bincode's encoding error.
#[verifier::external_type_specification]
#[verifier::external_body]
pub struct ExEncodeError(bincode::error::EncodeError);

/// bincode's decoding error.
#[verifier::external_type_specification]
#[verifier::external_body]
pub struct ExDecodeError(bincode::error::DecodeError);

/// A wall-clock time.
#[verifier::external_type_specification]
#[verifier::external_body]
pub struct ExSystemTime(std::time::SystemTime);

/// Relies on `std::time::SystemTime::now`: the wall-clock time.
#[verifier::external_body]
fn clock_now() -> (r: std::time::SystemTime) {
    std::time::SystemTime::now()
}

/// Relies on `std::time::SystemTime::duration_since` from `UNIX_EPOCH`: the
/// time elapsed since the epoch; `None` for a time before it.
#[verifier::external_body]
fn since_epoch(t: &std::time::SystemTime) -> (r: Option<std::time::Duration>) {
    t.duration_since(std::time::UNIX_EPOCH).ok()
}

/// Relies on `std::time::Duration::as_secs`: the whole seconds of `d`.
#[verifier::external_body]
fn whole_secs(d: &std::time::Duration) -> (r: u64) {
    d.as_secs()
}

/// The wall-clock time in whole seconds since the UNIX epoch; `None` where
/// the clock reads a time before the epoch.
pub fn now_secs() -> (r: Option<u64>) {
    match since_epoch(&clock_now()) {
        Some(d) => Some(whole_secs(&d)),
        None => None,
    }
}

impl Metadata {
    /// The bytes under which this record is stored.
    pub open spec fn encoding(self) -> Seq<u8> {
        encoded_record(self.freq, self.created_at, self.ttl)
    }

    /// A fresh record for a key first stored at `now`: no accesses yet.
    pub fn new_at(ttl: Option<u64>, now: u64) -> (r: Metadata)
        ensures
            r == (Metadata { freq: 0, created_at: now, ttl }),
    {
        Metadata { freq: 0, created_at: now, ttl }
    }

    /// A fresh record created now: no accesses yet, and the given expiration.
    /// A clock that reads a time before the UNIX epoch gives creation time 0.
    pub fn new(ttl: Option<u64>) -> (r: Metadata)
        ensures
            r.freq == 0,
            r.ttl == ttl,
    {
        let now = match now_secs() {
            Some(t) => t,
            None => 0,
        };
        Metadata::new_at(ttl, now)
    }

    /// The record with one more access counted.
    pub fn freq_incretement(self) -> (r: Metadata)
        requires
            self.freq < u64::MAX,
        ensures
            r == (Metadata { freq: (self.freq + 1) as u64, ..self }),
    {
        let mut m = self;
        m.freq = m.freq + 1;
        m
    }

    /// The record with one access fewer counted.
    pub fn freq_decretement(self) -> (r: Metadata)
        requires
            self.freq > 0,
        ensures
            r == (Metadata { freq: (self.freq - 1) as u64, ..self }),
    {
        let mut m = self;
        m.freq = m.freq - 1;
        m
    }

    /// Encodes the record into bytes; every record encodes.
    pub fn to_u8(&self) -> (r: Result<Vec<u8>, bincode::error::EncodeError>)
        ensures
            r is Ok,
            r matches Ok(b) ==> b@ == self.encoding(),
    {
        encode_fields(self)
    }

    /// Decodes a record from bytes; the bytes of an encoded record give it back.
    pub fn from_u8(slice: &[u8]) -> (r: Result<Metadata, bincode::error::DecodeError>)
        ensures
            forall|m: Metadata| slice@ == m.encoding() ==> r is Ok && r->Ok_0 == m,
    {
        decode_fields(slice)
    }
}

} // verus!
