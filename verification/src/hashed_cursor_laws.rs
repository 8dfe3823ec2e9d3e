//! What holds of lookups and walks over hashed accounts and hashed storage.

use crate::hashed_cursor::{absence_of, slot_of, DatabaseHashedAccountCursor, StorageEntry};
use alloy_primitives::{B256, U256};
use vstd::prelude::*;
use vstd::relations::{irreflexive, transitive};

verus! {

/// Whether `accounts` is a table: its keys increase by the order `precedes`.
pub open spec fn is_table<A>(
    accounts: Seq<(B256, A)>,
    precedes: spec_fn(B256, B256) -> bool,
) -> bool {
    &&& irreflexive(precedes)
    &&& transitive(precedes)
    &&& forall|i: int, j: int|
        0 <= i < j < accounts.len() ==> precedes(
            (#[trigger] accounts[i]).0,
            (#[trigger] accounts[j]).0,
        )
}

/// The accounts of a table from `key` on.
pub open spec fn accounts_from<A>(
    accounts: Seq<(B256, A)>,
    precedes: spec_fn(B256, B256) -> bool,
    key: B256,
) -> Seq<(B256, A)> {
    accounts.filter(|account: (B256, A)| !precedes(account.0, key))
}

/// Whether `place` is that of the first account from `key` on, or the end of the table.
pub open spec fn is_first_from<A>(
    accounts: Seq<(B256, A)>,
    precedes: spec_fn(B256, B256) -> bool,
    key: B256,
    place: int,
) -> bool {
    &&& 0 <= place <= accounts.len()
    &&& forall|i: int| 0 <= i < place ==> precedes((#[trigger] accounts[i]).0, key)
    &&& place < accounts.len() ==> !precedes(accounts[place].0, key)
}

/// What a lookup returns that leaves the database cursor at `place`.
pub open spec fn account_at<A, E>(accounts: Seq<(B256, A)>, place: int) -> Result<
    Option<(B256, A)>,
    E,
> {
    if 0 <= place < accounts.len() {
        Ok(Some(accounts[place]))
    } else {
        Ok(None)
    }
}

/// The accounts from a key on are those from the place of the first of them on.
proof fn lemma_accounts_from<A>(
    accounts: Seq<(B256, A)>,
    precedes: spec_fn(B256, B256) -> bool,
    key: B256,
    place: int,
)
    requires
        is_table(accounts, precedes),
        is_first_from(accounts, precedes, key, place),
    ensures
        accounts_from(accounts, precedes, key) == accounts.subrange(place, accounts.len() as int),
    decreases accounts.len(),
{
    reveal(Seq::filter);
    if accounts.len() > 0 {
        let rest = accounts.drop_last();
        if place == accounts.len() {
            lemma_accounts_from(rest, precedes, key, place - 1);
        } else {
            assert(!precedes(accounts.last().0, key)) by {
                if place < accounts.len() - 1 {
                    assert(precedes(accounts[place].0, accounts.last().0));
                }
            }
            lemma_accounts_from(rest, precedes, key, place);
        }
    }
    assert(accounts_from(accounts, precedes, key) =~= accounts.subrange(
        place,
        accounts.len() as int,
    ));
}

/// After each call of a walk the database cursor is one place further, and the call returned the
/// account there.
proof fn lemma_walk_place<
    C,
    A,
    E,
    Seek: FnOnce(&mut C, B256) -> Result<Option<(B256, A)>, E>,
    Next: FnOnce(&mut C) -> Result<Option<(B256, A)>, E>,
>(
    accounts: Seq<(B256, A)>,
    precedes: spec_fn(B256, B256) -> bool,
    place_of: spec_fn(C) -> int,
    key: B256,
    seek: Seek,
    nexts: Seq<Next>,
    cursors: Seq<DatabaseHashedAccountCursor<C>>,
    results: Seq<Result<Option<(B256, A)>, E>>,
    i: int,
)
    requires
        // `seek` moves to the first account from a key on and returns it.
        forall|cursor: &mut C, key: B256, reply: Result<Option<(B256, A)>, E>| #[trigger]
            call_ensures(seek, (cursor, key), reply) ==> {
                &&& is_first_from(accounts, precedes, key, place_of(*final(cursor)))
                &&& reply == account_at::<A, E>(accounts, place_of(*final(cursor)))
            },
        // `next` moves from an account to the place after it and returns the account there.
        forall|i: int, cursor: &mut C, reply: Result<Option<(B256, A)>, E>|
            0 <= i < nexts.len() && #[trigger] call_ensures(nexts[i], (cursor,), reply) && 0
                <= place_of(*cursor) < accounts.len() ==> {
                &&& place_of(*final(cursor)) == place_of(*cursor) + 1
                &&& reply == account_at::<A, E>(accounts, place_of(*final(cursor)))
            },
        // The walk, as the contracts of the cursor's `seek` and `next` have it.
        results.len() == nexts.len() + 1,
        cursors.len() == nexts.len() + 2,
        exists|cursor: &mut C|
            *cursor == cursors[0].inner() && *final(cursor) == cursors[1].inner() && #[trigger]
                call_ensures(seek, (cursor, key), results[0]),
        results.len() > 1 ==> results[0] != Ok::<Option<(B256, A)>, E>(None),
        forall|i: int|
            0 < i < results.len() ==> {
                &&& i < results.len() - 1 ==> #[trigger] results[i] != Ok::<
                    Option<(B256, A)>,
                    E,
                >(None)
                &&& exists|cursor: &mut C|
                    *cursor == cursors[i].inner() && *final(cursor) == cursors[i + 1].inner()
                        && #[trigger] call_ensures(nexts[i - 1], (cursor,), results[i])
            },
        0 <= i < results.len(),
    ensures
        is_first_from(accounts, precedes, key, place_of(cursors[1].inner())),
        place_of(cursors[i + 1].inner()) == place_of(cursors[1].inner()) + i,
        place_of(cursors[i + 1].inner()) <= accounts.len(),
        results[i] == account_at::<A, E>(accounts, place_of(cursors[i + 1].inner())),
    decreases i,
{
    if i > 0 {
        lemma_walk_place(
            accounts,
            precedes,
            place_of,
            key,
            seek,
            nexts,
            cursors,
            results,
            i - 1,
        );
        assert(results[i - 1] != Ok::<Option<(B256, A)>, E>(None));
    }
}

/// A walk over hashed accounts, `seek` for a key and then `next` until nothing is found, returns
/// exactly the accounts of the table from that key on, each once and in the order of their keys.
///
/// `cursors` is the cursor before the first call and after each; `place_of` is where in the table
/// a database cursor is. The database's own calls are taken to move in the table without an error.
pub proof fn law_walk_gives_the_accounts_from_key<
    C,
    A,
    E,
    Seek: FnOnce(&mut C, B256) -> Result<Option<(B256, A)>, E>,
    Next: FnOnce(&mut C) -> Result<Option<(B256, A)>, E>,
>(
    accounts: Seq<(B256, A)>,
    precedes: spec_fn(B256, B256) -> bool,
    place_of: spec_fn(C) -> int,
    key: B256,
    seek: Seek,
    nexts: Seq<Next>,
    cursors: Seq<DatabaseHashedAccountCursor<C>>,
    results: Seq<Result<Option<(B256, A)>, E>>,
)
    requires
        is_table(accounts, precedes),
        // `seek` moves to the first account from a key on and returns it.
        forall|cursor: &mut C, key: B256, reply: Result<Option<(B256, A)>, E>| #[trigger]
            call_ensures(seek, (cursor, key), reply) ==> {
                &&& is_first_from(accounts, precedes, key, place_of(*final(cursor)))
                &&& reply == account_at::<A, E>(accounts, place_of(*final(cursor)))
            },
        // `next` moves from an account to the place after it and returns the account there.
        forall|i: int, cursor: &mut C, reply: Result<Option<(B256, A)>, E>|
            0 <= i < nexts.len() && #[trigger] call_ensures(nexts[i], (cursor,), reply) && 0
                <= place_of(*cursor) < accounts.len() ==> {
                &&& place_of(*final(cursor)) == place_of(*cursor) + 1
                &&& reply == account_at::<A, E>(accounts, place_of(*final(cursor)))
            },
        // The walk, as the contracts of the cursor's `seek` and `next` have it.
        results.len() == nexts.len() + 1,
        cursors.len() == nexts.len() + 2,
        exists|cursor: &mut C|
            *cursor == cursors[0].inner() && *final(cursor) == cursors[1].inner() && #[trigger]
                call_ensures(seek, (cursor, key), results[0]),
        results.len() > 1 ==> results[0] != Ok::<Option<(B256, A)>, E>(None),
        forall|i: int|
            0 < i < results.len() ==> {
                &&& i < results.len() - 1 ==> #[trigger] results[i] != Ok::<
                    Option<(B256, A)>,
                    E,
                >(None)
                &&& exists|cursor: &mut C|
                    *cursor == cursors[i].inner() && *final(cursor) == cursors[i + 1].inner()
                        && #[trigger] call_ensures(nexts[i - 1], (cursor,), results[i])
            },
        results.last() == Ok::<Option<(B256, A)>, E>(None),
    ensures
        results.drop_last() == accounts_from(accounts, precedes, key).map_values(
            |account: (B256, A)| Ok::<Option<(B256, A)>, E>(Some(account)),
        ),
        forall|account: (B256, A)| #[trigger]
            accounts_from(accounts, precedes, key).contains(account) <==> accounts.contains(account)
                && !precedes(account.0, key),
        is_table(accounts_from(accounts, precedes, key), precedes),
{
    let first = place_of(cursors[1].inner());
    let found = accounts_from(accounts, precedes, key);
    assert forall|i: int| 0 <= i < results.len() implies is_first_from(
        accounts,
        precedes,
        key,
        first,
    ) && first + i <= accounts.len() && #[trigger] results[i] == account_at::<A, E>(
        accounts,
        first + i,
    ) by {
        lemma_walk_place(accounts, precedes, place_of, key, seek, nexts, cursors, results, i);
    }
    lemma_accounts_from(accounts, precedes, key, first);
    assert(results[results.len() - 1] == results.last());
    assert(results.drop_last() =~= found.map_values(
        |account: (B256, A)| Ok::<Option<(B256, A)>, E>(Some(account)),
    ));
    assert forall|account: (B256, A)|
        accounts.contains(account) && !precedes(account.0, key) implies #[trigger] found.contains(
        account,
    ) by {
        let i = choose|i: int| 0 <= i < accounts.len() && accounts[i] == account;
        assert(found[i - first] == account);
    }
    assert forall|account: (B256, A)| #[trigger] found.contains(account) implies accounts.contains(
        account,
    ) && !precedes(account.0, key) by {
        let i = choose|i: int| 0 <= i < found.len() && found[i] == account;
        assert(accounts[first + i] == account);
        assert(i > 0 ==> precedes(accounts[first].0, accounts[first + i].0));
    }
}

/// A lookup loses nothing that the database replied: an entry that was found comes back with its
/// key and its value, nothing found and an error as such. Different replies stay different.
pub proof fn law_found_slot_is_returned<E>(
    reply: Result<Option<StorageEntry>, E>,
    other: Result<Option<StorageEntry>, E>,
)
    ensures
        reply matches Ok(Some(entry)) ==> slot_of(reply) == Ok::<_, E>(
            Some((entry.key, entry.value)),
        ),
        reply matches Ok(None) ==> slot_of(reply) == Ok::<Option<(B256, U256)>, E>(None),
        reply matches Err(error) ==> slot_of(reply) == Err::<Option<(B256, U256)>, E>(error),
        slot_of(reply) == slot_of(other) ==> reply == other,
{
}

/// Storage counts as empty exactly where the database replied that it found no entry, and an
/// error stays one.
pub proof fn law_storage_is_empty_where_nothing_is_found<T, E>(reply: Result<Option<T>, E>)
    ensures
        absence_of(reply) == Ok::<bool, E>(true) <==> reply == Ok::<Option<T>, E>(None),
        absence_of(reply) == Ok::<bool, E>(false) <==> reply matches Ok(Some(_)),
        reply matches Err(error) ==> absence_of(reply) == Err::<bool, E>(error),
{
}

/// A walk over the hashed storage of an account, `seek` for a key and then `next` until nothing is
/// found, returns exactly the slots of the account from that key on, each with its value, once and
/// in their order.
///
/// `slots` are those slots. The database is taken to reply to the calls of the walk with them, one
/// after the other and without an error, which it does where nothing else moves the cursor.
pub proof fn law_walk_gives_the_slots_from_key<
    C,
    E,
    Seek: FnOnce(&mut C, B256, B256) -> Result<Option<StorageEntry>, E>,
    Next: FnOnce(&mut C) -> Result<Option<StorageEntry>, E>,
>(
    slots: Seq<StorageEntry>,
    address: B256,
    key: B256,
    seek: Seek,
    nexts: Seq<Next>,
    results: Seq<Result<Option<(B256, U256)>, E>>,
)
    requires
        nexts.len() == slots.len(),
        results.len() == nexts.len() + 1,
        // The database finds the first slot, and after each the one that follows it.
        forall|cursor: &mut C, reply: Result<Option<StorageEntry>, E>| #[trigger]
            call_ensures(seek, (cursor, address, key), reply) ==> reply == Ok::<_, E>(
                if slots.len() > 0 {
                    Some(slots[0])
                } else {
                    None
                },
            ),
        forall|i: int, cursor: &mut C, reply: Result<Option<StorageEntry>, E>|
            0 <= i < nexts.len() && #[trigger] call_ensures(nexts[i], (cursor,), reply)
                ==> reply == Ok::<_, E>(
                if i + 1 < slots.len() {
                    Some(slots[i + 1])
                } else {
                    None
                },
            ),
        // The walk, as the contracts of the cursor's `seek` and `next` have it.
        exists|cursor: &mut C, reply: Result<Option<StorageEntry>, E>| #[trigger]
            call_ensures(seek, (cursor, address, key), reply) && results[0] == slot_of(reply),
        forall|i: int|
            0 < i < results.len() ==> exists|
                cursor: &mut C,
                reply: Result<Option<StorageEntry>, E>,
            | #[trigger]
                call_ensures(nexts[i - 1], (cursor,), reply) && #[trigger] results[i] == slot_of(
                    reply,
                ),
    ensures
        forall|i: int|
            0 <= i < slots.len() ==> #[trigger] results[i] == Ok::<_, E>(
                Some((slots[i].key, slots[i].value)),
            ),
        results.last() == Ok::<Option<(B256, U256)>, E>(None),
{
    assert forall|i: int| 0 <= i < results.len() implies #[trigger] results[i] == Ok::<_, E>(
        if i < slots.len() {
            Some((slots[i].key, slots[i].value))
        } else {
            None
        },
    ) by {
        if i > 0 {
            let (cursor, reply) = choose|
                cursor: &mut C,
                reply: Result<Option<StorageEntry>, E>,
            | #[trigger]
                call_ensures(nexts[i - 1], (cursor,), reply) && results[i] == slot_of(reply);
            assert(call_ensures(nexts[i - 1], (cursor,), reply));
        }
    }
    assert(results.last() == results[results.len() - 1]);
}

} // verus!
