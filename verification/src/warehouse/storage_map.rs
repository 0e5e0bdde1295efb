//! The storage map as a mathematical value: string keys, each with the bytes
//! stored under it.
//!
//! The storage engine's view is such a map. The laws in this file say how
//! reads relate to the writes that came before them.

use bytes::Bytes;
use crate::buffers::bytes_contents;
use vstd::prelude::*;

verus! {

/// What the storage engine holds: the bytes stored under each key.
pub type StorageView = Map<Seq<char>, Seq<u8>>;

/// One write: a key and the bytes stored under it.
pub type Write = (Seq<char>, Seq<u8>);

/// What a read of `key` finds in `map`.
pub open spec fn lookup(map: StorageView, key: Seq<char>) -> Option<Seq<u8>> {
    if map.contains_key(key) {
        Some(map[key])
    } else {
        None
    }
}

/// The bytes of a value that a read handed out, if it handed one out.
pub open spec fn found_contents(found: Option<Bytes>) -> Option<Seq<u8>> {
    match found {
        Some(value) => Some(bytes_contents(value)),
        None => None,
    }
}

/// The map that the writes in `writes`, carried out in order on an empty map,
/// leave behind.
pub open spec fn replay(writes: Seq<Write>) -> StorageView
    decreases writes.len(),
{
    if writes.len() == 0 {
        Map::empty()
    } else {
        replay(writes.drop_last()).insert(writes.last().0, writes.last().1)
    }
}

/// A key that was never written is absent.
pub proof fn law_unwritten_key_is_absent(writes: Seq<Write>, key: Seq<char>)
    requires
        forall|i: int| 0 <= i < writes.len() ==> (#[trigger] writes[i]).0 != key,
    ensures
        lookup(replay(writes), key) is None,
    decreases writes.len(),
{
    if writes.len() > 0 {
        let earlier = writes.drop_last();
        assert forall|i: int| 0 <= i < earlier.len() implies (#[trigger] earlier[i]).0 != key by {
            assert(earlier[i] == writes[i]);
        }
        law_unwritten_key_is_absent(earlier, key);
        assert(writes.last() == writes[writes.len() - 1]);
    }
}

/// A read finds what the last write to its key stored: the write at `at`
/// decides, when no later write went to the same key.
pub proof fn law_last_write_wins(writes: Seq<Write>, at: int)
    requires
        0 <= at < writes.len(),
        forall|j: int| at < j < writes.len() ==> (#[trigger] writes[j]).0 != writes[at].0,
    ensures
        lookup(replay(writes), writes[at].0) == Some(writes[at].1),
    decreases writes.len(),
{
    let earlier = writes.drop_last();
    if at < writes.len() - 1 {
        assert(earlier[at] == writes[at]);
        assert forall|j: int| at < j < earlier.len() implies (#[trigger] earlier[j]).0
            != earlier[at].0 by {
            assert(earlier[j] == writes[j]);
        }
        law_last_write_wins(earlier, at);
        assert(writes.last() == writes[writes.len() - 1]);
    }
}

/// A read finds nothing but what a write stored: whatever is read under a key
/// is, whole, the value of one of the writes to that key.
pub proof fn law_read_finds_a_written_value(writes: Seq<Write>, key: Seq<char>)
    requires
        lookup(replay(writes), key) is Some,
    ensures
        exists|i: int|
            0 <= i < writes.len() && #[trigger] writes[i] == (key, lookup(replay(writes), key)->0),
    decreases writes.len(),
{
    if writes.len() > 0 {
        let earlier = writes.drop_last();
        let last = writes.len() - 1;
        if writes[last].0 == key {
            assert(writes[last] == (key, lookup(replay(writes), key)->0));
        } else {
            law_read_finds_a_written_value(earlier, key);
            let i = choose|i: int|
                0 <= i < earlier.len() && #[trigger] earlier[i] == (
                    key,
                    lookup(replay(earlier), key)->0,
                );
            assert(writes[i] == earlier[i]);
        }
    }
}

/// A read after a write to the same key finds the bytes that were written.
pub proof fn law_read_after_write(map: StorageView, key: Seq<char>, value: Seq<u8>)
    ensures
        lookup(map.insert(key, value), key) == Some(value),
{
}

/// Of two writes to one key the second decides what a read finds.
pub proof fn law_overwrite(map: StorageView, key: Seq<char>, first: Seq<u8>, second: Seq<u8>)
    ensures
        lookup(map.insert(key, first).insert(key, second), key) == Some(second),
        map.insert(key, first).insert(key, second) == map.insert(key, second),
{
    assert(map.insert(key, first).insert(key, second) =~= map.insert(key, second));
}

/// A write to one key leaves what is read under every other key as it was.
pub proof fn law_write_keeps_other_keys(
    map: StorageView,
    key: Seq<char>,
    value: Seq<u8>,
    other: Seq<char>,
)
    requires
        other != key,
    ensures
        lookup(map.insert(key, value), other) == lookup(map, other),
{
}

/// A write that repeats the one before it changes nothing.
pub proof fn law_repeated_write_changes_nothing(map: StorageView, key: Seq<char>, value: Seq<u8>)
    ensures
        map.insert(key, value).insert(key, value) == map.insert(key, value),
{
    assert(map.insert(key, value).insert(key, value) =~= map.insert(key, value));
}

/// Writes to different keys can change places: either order leaves the same
/// map.
pub proof fn law_writes_to_distinct_keys_commute(
    map: StorageView,
    key: Seq<char>,
    value: Seq<u8>,
    other: Seq<char>,
    other_value: Seq<u8>,
)
    requires
        other != key,
    ensures
        map.insert(key, value).insert(other, other_value) == map.insert(other, other_value).insert(
            key,
            value,
        ),
{
    assert(map.insert(key, value).insert(other, other_value) =~= map.insert(
        other,
        other_value,
    ).insert(key, value));
}

/// Writes to distinct keys lose no update: after them every key reads as the
/// bytes written to it.
pub proof fn law_distinct_writes_all_kept(writes: Seq<Write>)
    requires
        forall|i: int, j: int|
            0 <= i < j < writes.len() ==> (#[trigger] writes[i]).0 != (#[trigger] writes[j]).0,
    ensures
        forall|i: int|
            0 <= i < writes.len() ==> lookup(replay(writes), (#[trigger] writes[i]).0) == Some(
                writes[i].1,
            ),
{
    assert forall|i: int| 0 <= i < writes.len() implies lookup(
        replay(writes),
        (#[trigger] writes[i]).0,
    ) == Some(writes[i].1) by {
        law_last_write_wins(writes, i);
    }
}

} // verus!
