//! Cursors over hashed accounts and hashed storage in the database.

use alloy_primitives::{B256, U256};
use parking_lot::Mutex;
use std::sync::Arc;
use vstd::prelude::*;

verus! {

/// `lock_api::Mutex::new`, which `parking_lot::Mutex::new` is. Nothing is said of the mutex that
/// it returns but that the call returned it.
pub assume_specification<R: parking_lot::lock_api::RawMutex, T>[ parking_lot::lock_api::Mutex::<
    R,
    T,
>::new ](val: T) -> (r: parking_lot::lock_api::Mutex<R, T>)
;

/// Clones by `Arc::clone`: the result is another pointer to the same value.
#[verifier::external_body]
fn share<T>(shared: &Arc<T>) -> (r: Arc<T>)
    ensures
        r == *shared,
{
    Arc::clone(shared)
}

/// Locks `mutex` by `lock_api::Mutex::lock`, runs `access` on the value that it guards, and
/// unlocks it: the result is one that `access` gives for some value. Which value that is rests
/// on what the holders of the lock before did to it, so nothing is said of it. The call waits
/// for the lock, and forever where the calling thread holds it already.
#[verifier::external_body]
fn with_locked<C, T, F: FnOnce(&mut C) -> T>(mutex: &Mutex<C>, access: F) -> (r: T)
    requires
        forall|value: &mut C| #[trigger] call_requires(access, (value,)),
    ensures
        exists|value: &mut C| #[trigger] call_ensures(access, (value,), r),
{
    access(&mut *mutex.lock())
}

/// A storage slot, as the database holds it.
#[derive(Debug, Clone, Copy, PartialEq, Eq)]
pub struct StorageEntry {
    /// Hashed storage key.
    pub key: B256,
    /// Value on storage key.
    pub value: U256,
}

/// The key and the value of the entry that a lookup found.
pub open spec fn slot_of<E>(reply: Result<Option<StorageEntry>, E>) -> Result<
    Option<(B256, U256)>,
    E,
> {
    match reply {
        Ok(Some(entry)) => Ok(Some((entry.key, entry.value))),
        Ok(None) => Ok(None),
        Err(error) => Err(error),
    }
}

/// Whether a lookup found nothing.
pub open spec fn absence_of<T, E>(reply: Result<Option<T>, E>) -> Result<bool, E> {
    match reply {
        Ok(found) => Ok(found is None),
        Err(error) => Err(error),
    }
}

/// Takes the key and the value out of the entry that a lookup found.
pub fn entry_slot<E>(reply: Result<Option<StorageEntry>, E>) -> (r: Result<
    Option<(B256, U256)>,
    E,
>)
    ensures
        reply matches Ok(Some(entry)) ==> r == Ok::<_, E>(Some((entry.key, entry.value))),
        reply matches Ok(None) ==> r == Ok::<Option<(B256, U256)>, E>(None),
        reply matches Err(error) ==> r == Err::<Option<(B256, U256)>, E>(error),
        r == slot_of(reply),
{
    match reply {
        Ok(Some(entry)) => Ok(Some((entry.key, entry.value))),
        Ok(None) => Ok(None),
        Err(error) => Err(error),
    }
}

/// Says whether a lookup found nothing.
pub fn found_nothing<T, E>(reply: Result<Option<T>, E>) -> (r: Result<bool, E>)
    ensures
        reply matches Ok(Some(_)) ==> r == Ok::<bool, E>(false),
        reply matches Ok(None) ==> r == Ok::<bool, E>(true),
        reply matches Err(error) ==> r == Err::<bool, E>(error),
        r == absence_of(reply),
{
    match reply {
        Ok(found) => Ok(found.is_none()),
        Err(error) => Err(error),
    }
}

/// The structure wrapping a database cursor for hashed storage and a target hashed address.
///
/// The database cursor can be shared, so each call locks it while it looks something up.
#[verifier::reject_recursive_types(C)]
#[derive(Debug)]
pub struct DatabaseHashedStorageCursor<C> {
    /// Database hashed storage cursor.
    cursor: Arc<Mutex<C>>,
    /// Target hashed address of the account that the storage belongs to.
    hashed_address: B256,
}

impl<C> DatabaseHashedStorageCursor<C> {
    /// The database cursor, which other cursors may share.
    pub closed spec fn shared(&self) -> Arc<Mutex<C>> {
        self.cursor
    }

    /// The account whose storage the cursor is over.
    pub closed spec fn address(&self) -> B256 {
        self.hashed_address
    }

    /// Create new [`DatabaseHashedStorageCursor`].
    pub fn new(cursor: Arc<Mutex<C>>, hashed_address: B256) -> (r: Self)
        ensures
            r.shared() == cursor,
            r.address() == hashed_address,
    {
        Self { cursor, hashed_address }
    }

    /// Seeks the storage slot that the database finds for `subkey` under the target address.
    ///
    /// `seek_by_key_subkey` looks a slot up in the database by the cursor, an account and a key.
    pub fn seek<E, F: FnOnce(&mut C, B256, B256) -> Result<Option<StorageEntry>, E>>(
        &mut self,
        subkey: B256,
        seek_by_key_subkey: F,
    ) -> (r: Result<Option<(B256, U256)>, E>)
        requires
            forall|cursor: &mut C| #[trigger]
                call_requires(seek_by_key_subkey, (cursor, old(self).address(), subkey)),
        ensures
            *final(self) == *old(self),
            exists|cursor: &mut C, reply: Result<Option<StorageEntry>, E>| #[trigger]
                call_ensures(seek_by_key_subkey, (cursor, old(self).address(), subkey), reply) && {
                    &&& reply matches Ok(Some(entry)) ==> r == Ok::<_, E>(
                        Some((entry.key, entry.value)),
                    )
                    &&& reply matches Ok(None) ==> r == Ok::<Option<(B256, U256)>, E>(None)
                    &&& reply matches Err(error) ==> r == Err::<Option<(B256, U256)>, E>(error)
                    &&& r == slot_of(reply)
                },
    {
        let address = self.hashed_address;
        let lookup = |cursor: &mut C| -> (reply: Result<Option<StorageEntry>, E>)
            requires
                forall|c: &mut C| #[trigger] call_requires(seek_by_key_subkey, (c, address, subkey)),
            ensures
                exists|c: &mut C| #[trigger]
                    call_ensures(seek_by_key_subkey, (c, address, subkey), reply),
            { seek_by_key_subkey(cursor, address, subkey) };
        assert(address == old(self).address());
        entry_slot(with_locked(&self.cursor, lookup))
    }

    /// Moves to the next storage slot of the account that the database cursor is at.
    ///
    /// `next_dup_val` moves the database cursor to the next entry of the same account.
    pub fn next<E, F: FnOnce(&mut C) -> Result<Option<StorageEntry>, E>>(
        &mut self,
        next_dup_val: F,
    ) -> (r: Result<Option<(B256, U256)>, E>)
        requires
            forall|cursor: &mut C| #[trigger] call_requires(next_dup_val, (cursor,)),
        ensures
            *final(self) == *old(self),
            exists|cursor: &mut C, reply: Result<Option<StorageEntry>, E>| #[trigger]
                call_ensures(next_dup_val, (cursor,), reply) && {
                    &&& reply matches Ok(Some(entry)) ==> r == Ok::<_, E>(
                        Some((entry.key, entry.value)),
                    )
                    &&& reply matches Ok(None) ==> r == Ok::<Option<(B256, U256)>, E>(None)
                    &&& reply matches Err(error) ==> r == Err::<Option<(B256, U256)>, E>(error)
                    &&& r == slot_of(reply)
                },
    {
        entry_slot(with_locked(&self.cursor, next_dup_val))
    }

    /// Whether the database finds no storage under the target address.
    ///
    /// `seek_exact` looks the first entry of an account up in the database.
    pub fn is_storage_empty<T, E, F: FnOnce(&mut C, B256) -> Result<Option<T>, E>>(
        &mut self,
        seek_exact: F,
    ) -> (r: Result<bool, E>)
        requires
            forall|cursor: &mut C| #[trigger]
                call_requires(seek_exact, (cursor, old(self).address())),
        ensures
            *final(self) == *old(self),
            exists|cursor: &mut C, reply: Result<Option<T>, E>| #[trigger]
                call_ensures(seek_exact, (cursor, old(self).address()), reply) && {
                    &&& reply matches Ok(Some(_)) ==> r == Ok::<bool, E>(false)
                    &&& reply matches Ok(None) ==> r == Ok::<bool, E>(true)
                    &&& reply matches Err(error) ==> r == Err::<bool, E>(error)
                    &&& r == absence_of(reply)
                },
    {
        let address = self.hashed_address;
        let lookup = |cursor: &mut C| -> (reply: Result<Option<T>, E>)
            requires
                forall|c: &mut C| #[trigger] call_requires(seek_exact, (c, address)),
            ensures
                exists|c: &mut C| #[trigger] call_ensures(seek_exact, (c, address), reply),
            { seek_exact(cursor, address) };
        assert(address == old(self).address());
        found_nothing(with_locked(&self.cursor, lookup))
    }
}

impl<C> Clone for DatabaseHashedStorageCursor<C> {
    /// A cursor over the same account that shares the database cursor.
    fn clone(&self) -> (r: Self)
        ensures
            r.shared() == self.shared(),
            r.address() == self.address(),
    {
        Self { cursor: share(&self.cursor), hashed_address: self.hashed_address }
    }
}

/// A struct wrapping a database cursor over hashed accounts for iterating over accounts.
#[derive(Debug)]
pub struct DatabaseHashedAccountCursor<C>(C);

impl<C> DatabaseHashedAccountCursor<C> {
    /// The database cursor.
    pub closed spec fn inner(&self) -> C {
        self.0
    }

    /// Create new database hashed account cursor.
    pub fn new(cursor: C) -> (r: Self)
        ensures
            r.inner() == cursor,
    {
        Self(cursor)
    }

    /// Seeks the account that the database finds for `key`.
    ///
    /// `seek` looks an account up in the database by the cursor and its hashed address.
    pub fn seek<A, E, F: FnOnce(&mut C, B256) -> Result<Option<(B256, A)>, E>>(
        &mut self,
        key: B256,
        seek: F,
    ) -> (r: Result<Option<(B256, A)>, E>)
        requires
            forall|cursor: &mut C|
                *cursor == old(self).inner() ==> #[trigger] call_requires(seek, (cursor, key)),
        ensures
            exists|cursor: &mut C|
                *cursor == old(self).inner() && *final(cursor) == final(self).inner()
                    && #[trigger] call_ensures(seek, (cursor, key), r),
    {
        seek(&mut self.0, key)
    }

    /// Moves to the account after the one that the database cursor is at.
    ///
    /// `next` moves the database cursor to the next account.
    pub fn next<A, E, F: FnOnce(&mut C) -> Result<Option<(B256, A)>, E>>(
        &mut self,
        next: F,
    ) -> (r: Result<Option<(B256, A)>, E>)
        requires
            forall|cursor: &mut C|
                *cursor == old(self).inner() ==> #[trigger] call_requires(next, (cursor,)),
        ensures
            exists|cursor: &mut C|
                *cursor == old(self).inner() && *final(cursor) == final(self).inner()
                    && #[trigger] call_ensures(next, (cursor,), r),
    {
        next(&mut self.0)
    }
}

/// A struct wrapping a database transaction that makes cursors over hashed state.
///
/// It caches and shares a single cursor over hashed storage across calls to
/// `hashed_storage_cursor` within the same factory, to avoid repeatedly creating new database
/// cursor handles during a state root run.
#[verifier::reject_recursive_types(C)]
pub struct DatabaseHashedCursorFactory<'a, TX, C> {
    tx: &'a TX,
    /// Shared cursor over hashed storage, reused across calls.
    shared_storage_cursor: Arc<Mutex<C>>,
}

impl<'a, TX, C> DatabaseHashedCursorFactory<'a, TX, C> {
    /// The database transaction.
    pub closed spec fn transaction(&self) -> &'a TX {
        self.tx
    }

    /// The one cursor over hashed storage.
    pub closed spec fn shared(&self) -> Arc<Mutex<C>> {
        self.shared_storage_cursor
    }

    /// Create new database hashed cursor factory.
    ///
    /// `cursor_dup_read` opens the cursor over hashed storage, which must succeed.
    pub fn new<E, F: FnOnce(&'a TX) -> Result<C, E>>(tx: &'a TX, cursor_dup_read: F) -> (r: Self)
        requires
            call_requires(cursor_dup_read, (tx,)),
            forall|reply: Result<C, E>| #[trigger]
                call_ensures(cursor_dup_read, (tx,), reply) ==> reply is Ok,
        ensures
            r.transaction() == tx,
            exists|cursor: C, mutex: Mutex<C>|
                call_ensures(cursor_dup_read, (tx,), Ok::<C, E>(cursor)) && #[trigger] call_ensures(
                    Mutex::<C>::new,
                    (cursor,),
                    mutex,
                ) && *r.shared() == mutex,
    {
        let cursor = match cursor_dup_read(tx) {
            Ok(cursor) => cursor,
            Err(_) => vstd::pervasive::unreached(),
        };
        Self { tx, shared_storage_cursor: Arc::new(Mutex::new(cursor)) }
    }

    /// What the factory is shown as when debugging: its name, without what it holds.
    pub fn debug_name(&self) -> (r: &'static str)
        ensures
            r@ == "DatabaseHashedCursorFactory"@,
    {
        "DatabaseHashedCursorFactory"
    }

    /// Makes a cursor over hashed accounts.
    ///
    /// `cursor_read` opens it.
    pub fn hashed_account_cursor<A, E, F: FnOnce(&'a TX) -> Result<A, E>>(
        &self,
        cursor_read: F,
    ) -> (r: Result<DatabaseHashedAccountCursor<A>, E>)
        requires
            call_requires(cursor_read, (self.transaction(),)),
        ensures
            r matches Ok(cursor) ==> call_ensures(
                cursor_read,
                (self.transaction(),),
                Ok::<A, E>(cursor.inner()),
            ),
            r matches Err(error) ==> call_ensures(
                cursor_read,
                (self.transaction(),),
                Err::<A, E>(error),
            ),
    {
        match cursor_read(self.tx) {
            Ok(cursor) => Ok(DatabaseHashedAccountCursor::new(cursor)),
            Err(error) => Err(error),
        }
    }

    /// Makes a cursor over the hashed storage of the account at `hashed_address`. It shares the
    /// one cursor of the factory.
    pub fn hashed_storage_cursor<E>(&self, hashed_address: B256) -> (r: Result<
        DatabaseHashedStorageCursor<C>,
        E,
    >)
        ensures
            r matches Ok(cursor) && cursor.shared() == self.shared() && cursor.address()
                == hashed_address,
    {
        Ok(DatabaseHashedStorageCursor::new(share(&self.shared_storage_cursor), hashed_address))
    }
}

impl<'a, TX, C> Clone for DatabaseHashedCursorFactory<'a, TX, C> {
    /// A factory on the same transaction that shares the cursor over hashed storage.
    fn clone(&self) -> (r: Self)
        ensures
            r.transaction() == self.transaction(),
            r.shared() == self.shared(),
    {
        Self { tx: self.tx, shared_storage_cursor: share(&self.shared_storage_cursor) }
    }
}

} // verus!
