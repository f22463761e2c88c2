use crate::template::{Notification, NotificationView};
use indexmap::IndexMap;
use vstd::prelude::*;

verus! {

/// The ordered map of the indexmap crate, opaque to the verifier.
#[verifier::external_type_specification]
#[verifier::external_body]
#[verifier::reject_recursive_types(K)]
#[verifier::reject_recursive_types(V)]
#[verifier::reject_recursive_types(S)]
pub struct ExIndexMap<K, V, S>(IndexMap<K, V, S>);

/// The entries of an ordered history, in insertion order, as (id, notification).
pub type Entries = Seq<(u32, NotificationView)>;

/// What a history map holds, in its iteration order.
pub uninterp spec fn entries_of(m: IndexMap<u32, Notification>) -> Entries;

/// Position of the last entry with key `k`, or -1 when there is none.
pub open spec fn find_key(s: Entries, k: u32) -> int
    decreases s.len(),
{
    if s.len() == 0 {
        -1
    } else if s.last().0 == k {
        s.len() - 1
    } else {
        find_key(s.drop_last(), k)
    }
}

/// No id occurs twice.
pub open spec fn keys_unique(s: Entries) -> bool {
    forall|i: int, j: int| 0 <= i < j < s.len() ==> s[i].0 != s[j].0
}

/// The entries after inserting `v` under `k`: the value is replaced in place
/// where the key is present, otherwise the pair is appended.
pub open spec fn upsert(s: Entries, k: u32, v: NotificationView) -> Entries {
    if find_key(s, k) >= 0 {
        s.update(find_key(s, k), (k, v))
    } else {
        s.push((k, v))
    }
}

/// The entries after removing the one under `k`, if any.
pub open spec fn remove_key(s: Entries, k: u32) -> Entries {
    if find_key(s, k) >= 0 {
        s.remove(find_key(s, k))
    } else {
        s
    }
}

/// `find_key` finds a position holding the key exactly when one exists, and
/// with distinct keys it is the only such position.
pub proof fn lemma_find_key(s: Entries, k: u32)
    ensures
        -1 <= find_key(s, k) < s.len(),
        find_key(s, k) >= 0 ==> s[find_key(s, k)].0 == k,
        find_key(s, k) == -1 <==> forall|j: int| 0 <= j < s.len() ==> s[j].0 != k,
        keys_unique(s) ==> forall|j: int| 0 <= j < s.len() && s[j].0 == k ==> find_key(s, k) == j,
    decreases s.len(),
{
    if s.len() > 0 {
        lemma_find_key(s.drop_last(), k);
        if s.last().0 != k {
            assert forall|j: int| 0 <= j < s.len() - 1 implies s[j] == s.drop_last()[j] by {}
        }
    }
}

/// Inserting keeps keys distinct; the key then sits at its old position, or
/// at the end when it is new.
pub proof fn lemma_upsert(s: Entries, k: u32, v: NotificationView)
    requires
        keys_unique(s),
    ensures
        keys_unique(upsert(s, k, v)),
        0 <= find_key(upsert(s, k, v), k) < upsert(s, k, v).len(),
        find_key(s, k) >= 0 ==> find_key(upsert(s, k, v), k) == find_key(s, k),
        find_key(s, k) < 0 ==> find_key(upsert(s, k, v), k) == s.len(),
        upsert(s, k, v)[find_key(upsert(s, k, v), k)] == (k, v),
{
    lemma_find_key(s, k);
    let u = upsert(s, k, v);
    let pos = if find_key(s, k) >= 0 { find_key(s, k) } else { s.len() as int };
    assert(u[pos] == (k, v));
    assert forall|a: int, b: int| 0 <= a < b < u.len() implies u[a].0 != u[b].0 by {
        if a != pos && b != pos {
            assert(u[a] == s[a] && u[b] == s[b]);
        } else if a == pos {
            assert(u[b] == s[b]);
        } else {
            assert(u[a] == s[a]);
        }
    }
    lemma_find_key(u, k);
}

/// Removing an entry keeps keys distinct.
pub proof fn lemma_remove_unique(s: Entries, i: int)
    requires
        keys_unique(s),
        0 <= i < s.len(),
    ensures
        keys_unique(s.remove(i)),
{
    let r = s.remove(i);
    assert forall|a: int, b: int| 0 <= a < b < r.len() implies r[a].0 != r[b].0 by {
        let a2 = if a < i { a } else { a + 1 };
        let b2 = if b < i { b } else { b + 1 };
        assert(r[a] == s[a2] && r[b] == s[b2]);
    }
}

/// Relies on IndexMap::new: the new map is empty.
#[verifier::external_body]
pub(crate) fn map_new() -> (r: IndexMap<u32, Notification>)
    ensures
        entries_of(r) == Seq::<(u32, NotificationView)>::empty(),
{
    IndexMap::new()
}

/// Relies on IndexMap::len: the number of entries.
#[verifier::external_body]
pub(crate) fn map_len(m: &IndexMap<u32, Notification>) -> (r: usize)
    ensures
        r == entries_of(*m).len(),
{
    m.len()
}

/// Relies on IndexMap::get_index: the pair at a position, or `None` past the end.
#[verifier::external_body]
pub(crate) fn map_get_index(m: &IndexMap<u32, Notification>, i: usize) -> (r: Option<
    (&u32, &Notification),
>)
    ensures
        r is Some <==> i < entries_of(*m).len(),
        r matches Some(p) ==> (*p.0, p.1@) == entries_of(*m)[i as int],
{
    m.get_index(i)
}

/// Relies on IndexMap::insert_full: a present key keeps its position and gets
/// the new value; a new key is appended. Returns the position.
#[verifier::external_body]
pub(crate) fn map_insert_full(m: &mut IndexMap<u32, Notification>, k: u32, v: Notification) -> (r:
    usize)
    ensures
        r <= entries_of(*old(m)).len(),
        r < entries_of(*old(m)).len() ==> entries_of(*old(m))[r as int].0 == k && entries_of(
            *final(m),
        ) == entries_of(*old(m)).update(r as int, (k, v@)),
        r == entries_of(*old(m)).len() ==> (forall|j: int|
            0 <= j < entries_of(*old(m)).len() ==> entries_of(*old(m))[j].0 != k) && entries_of(
            *final(m),
        ) == entries_of(*old(m)).push((k, v@)),
{
    m.insert_full(k, v).0
}

/// Relies on IndexMap::shift_remove_full: removes the pair under a key, keeping
/// the order of the rest, and gives its former position.
#[verifier::external_body]
pub(crate) fn map_shift_remove(m: &mut IndexMap<u32, Notification>, k: u32) -> (r: Option<usize>)
    ensures
        r matches Some(i) ==> i < entries_of(*old(m)).len() && entries_of(*old(m))[i as int].0
            == k && entries_of(*final(m)) == entries_of(*old(m)).remove(i as int),
        r is None ==> (forall|j: int|
            0 <= j < entries_of(*old(m)).len() ==> entries_of(*old(m))[j].0 != k) && entries_of(
            *final(m),
        ) == entries_of(*old(m)),
{
    m.shift_remove_full(&k).map(|(i, _, _)| i)
}

/// Relies on IndexMap::shift_remove_index: removes the pair at a position,
/// keeping the order of the rest; nothing happens past the end.
#[verifier::external_body]
pub(crate) fn map_shift_remove_index(m: &mut IndexMap<u32, Notification>, i: usize)
    ensures
        i < entries_of(*old(m)).len() ==> entries_of(*final(m)) == entries_of(*old(m)).remove(
            i as int,
        ),
        i >= entries_of(*old(m)).len() ==> entries_of(*final(m)) == entries_of(*old(m)),
{
    m.shift_remove_index(i);
}

} // verus!
