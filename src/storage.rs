//! The storage engine's types and the calls into it that the store makes.
//! Each call reads or changes what is on disk, so none of these promises
//! more about its result than its type says.

use vstd::prelude::*;

use crate::db::{run_step, TxnStep};
use sled::Transactional;

verus! {

/// sled's error, carried as it is.
#[verifier::external_type_specification]
#[verifier::external_body]
pub struct ExSledError(sled::Error);

/// An open sled database.
#[verifier::external_type_specification]
#[verifier::external_body]
pub struct ExDb(sled::Db);

/// One partition (tree) of a sled database.
#[verifier::external_type_specification]
#[verifier::external_body]
pub struct ExTree(sled::Tree);

/// sled's byte buffer, which its iterator yields.
#[verifier::external_type_specification]
#[verifier::external_body]
pub struct ExIVec(sled::IVec);

/// An iterator over a sled partition.
#[verifier::external_type_specification]
#[verifier::external_body]
pub struct ExIter(sled::Iter);

/// A partition as one transaction sees it.
#[verifier::external_type_specification]
#[verifier::external_body]
pub struct ExTransactionalTree(sled::transaction::TransactionalTree);

/// The error of a read or write inside a transaction.
#[verifier::external_type_specification]
#[verifier::external_body]
pub struct ExUnabortableTransactionError(sled::transaction::UnabortableTransactionError);

/// The error with which a transaction body ends.
#[verifier::external_type_specification]
#[verifier::external_body]
#[verifier::reject_recursive_types(T)]
pub struct ExConflictableTransactionError<T>(sled::transaction::ConflictableTransactionError<T>);

/// The error with which a whole transaction ends.
#[verifier::external_type_specification]
#[verifier::external_body]
#[verifier::reject_recursive_types(T)]
pub struct ExTransactionError<T>(sled::transaction::TransactionError<T>);

/// A filesystem path.
#[verifier::external_type_specification]
#[verifier::external_body]
pub struct ExPath(std::path::Path);

/// Relies on `sled::Config::open`: opens (or creates) the engine's directory
/// at `path`, with a page cache of `cache_capacity` bytes.
#[verifier::external_body]
pub(crate) fn open_engine(path: &std::path::Path, cache_capacity: u64) -> (r: Result<sled::Db, sled::Error>) {
    sled::Config::new().path(path).cache_capacity(cache_capacity).open()
}

/// Relies on `sled::Db::open_tree`: opens (or creates) the named partition.
#[verifier::external_body]
pub(crate) fn open_partition(db: &sled::Db, name: &str) -> (r: Result<sled::Tree, sled::Error>) {
    db.open_tree(name)
}

/// Relies on `sled::Tree::get`: the value stored under `key`, if any.
#[verifier::external_body]
pub(crate) fn tree_get(tree: &sled::Tree, key: &[u8]) -> (r: Result<Option<Vec<u8>>, sled::Error>) {
    tree.get(key).map(|v| v.map(|b| b.to_vec()))
}

/// Relies on `sled::Tree::compare_and_swap`: replaces the value under `key`
/// by `new` if it is still `current`; `Ok(false)` where it no longer is.
#[verifier::external_body]
pub(crate) fn tree_swap(tree: &sled::Tree, key: &[u8], current: &[u8], new: Vec<u8>) -> (r: Result<bool, sled::Error>) {
    match tree.compare_and_swap(key, Some(current), Some(new)) {
        Ok(Ok(())) => Ok(true),
        Ok(Err(_)) => Ok(false),
        Err(e) => Err(e),
    }
}

/// Relies on `sled::Tree::flush`: writes buffered changes to disk.
#[verifier::external_body]
pub(crate) fn tree_flush(tree: &sled::Tree) -> (r: Result<usize, sled::Error>) {
    tree.flush()
}

/// Relies on `sled::Tree::iter`: an iterator over the partition in
/// ascending key order.
#[verifier::external_body]
pub(crate) fn tree_iter(tree: &sled::Tree) -> (r: sled::Iter) {
    tree.iter()
}

/// Relies on `Iterator::next` of `sled::Iter`: the next key and value.
#[verifier::external_body]
pub(crate) fn iter_next(it: &mut sled::Iter) -> (r: Option<Result<(Vec<u8>, Vec<u8>), sled::Error>>) {
    it.next().map(|e| e.map(|(k, v)| (k.to_vec(), v.to_vec())))
}

/// Relies on `sled::transaction::TransactionalTree::get`: the value under
/// `key` as this transaction sees it.
#[verifier::external_body]
pub(crate) fn txn_get(
    tree: &sled::transaction::TransactionalTree,
    key: &[u8],
) -> (r: Result<Option<Vec<u8>>, sled::transaction::UnabortableTransactionError>) {
    tree.get(key).map(|v| v.map(|b| b.to_vec()))
}

/// Relies on `sled::transaction::TransactionalTree::insert`: stages `value`
/// under `key`.
#[verifier::external_body]
pub(crate) fn txn_insert(
    tree: &sled::transaction::TransactionalTree,
    key: &[u8],
    value: Vec<u8>,
) -> (r: Result<(), sled::transaction::UnabortableTransactionError>) {
    tree.insert(key, value).map(|_| ())
}

/// Relies on `sled::transaction::TransactionalTree::remove`: stages the
/// removal of `key`; an absent key is no error.
#[verifier::external_body]
pub(crate) fn txn_remove(
    tree: &sled::transaction::TransactionalTree,
    key: &[u8],
) -> (r: Result<(), sled::transaction::UnabortableTransactionError>) {
    tree.remove(key).map(|_| ())
}

/// Relies on sled's `From<UnabortableTransactionError>` for
/// `ConflictableTransactionError`: passes a conflict or storage failure on
/// to the transaction, which retries or fails.
#[verifier::external_body]
pub(crate) fn txn_pass_on(
    e: sled::transaction::UnabortableTransactionError,
) -> (r: sled::transaction::ConflictableTransactionError<()>) {
    sled::transaction::ConflictableTransactionError::from(e)
}

/// Relies on `sled::transaction::ConflictableTransactionError::Abort`: the
/// error that ends a transaction without committing any of its writes.
#[verifier::external_body]
pub(crate) fn txn_abort() -> (r: sled::transaction::ConflictableTransactionError<()>) {
    sled::transaction::ConflictableTransactionError::Abort(())
}

/// Relies on `sled::Transactional::transaction` over the three partitions:
/// runs the step (again after a conflict) and commits its writes to all
/// three at once, or none of them.
#[verifier::external_body]
pub(crate) fn transact(
    data: &sled::Tree,
    meta: &sled::Tree,
    ttl: &sled::Tree,
    step: &TxnStep,
) -> (r: Result<(), sled::transaction::TransactionError<()>>) {
    (data, meta, ttl).transaction(|v| run_step(&v.0, &v.1, &v.2, step))
}

} // verus!
