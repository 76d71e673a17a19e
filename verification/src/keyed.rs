//! Collections that the service writes as a list and that are a mapping by
//! the identifier that each item carries.

use vstd::pervasive::unreached;
use vstd::prelude::*;
use std::collections::HashMap;
use vstd::std_specs::iter::IteratorSpec;

verus! {

/// An item that carries the identifier under which it is filed.
pub trait Keyed {
    /// The identifier of the item.
    spec fn key_of(&self) -> u64;

    /// The identifier of the item.
    fn key(&self) -> (k: u64)
        ensures
            k == self.key_of(),
    ;
}

/// The mapping that a list of items stands for: each item under its own
/// identifier, a later item in place of an earlier one with the same.
pub open spec fn keyed<T: Keyed>(items: Seq<T>) -> Map<u64, T>
    decreases items.len(),
{
    if items.len() == 0 {
        Map::empty()
    } else {
        keyed(items.drop_last()).insert(items.last().key_of(), items.last())
    }
}

/// Whether `items` lists the values of `map`, each key's value once, in some
/// order.
pub open spec fn lists_values<T>(items: Seq<T>, map: Map<u64, T>) -> bool {
    exists|keys: Seq<u64>| is_listing(items, keys, map)
}

/// Whether `items` lists the values of `map` in the order of `keys`, which
/// are the keys of `map`, each once.
pub open spec fn is_listing<T>(items: Seq<T>, keys: Seq<u64>, map: Map<u64, T>) -> bool {
    &&& keys.no_duplicates()
    &&& keys.len() == items.len()
    &&& forall|k: u64| keys.contains(k) <==> map.contains_key(k)
    &&& forall|i: int| 0 <= i < keys.len() ==> items[i] == map[#[trigger] keys[i]]
}

/// Whether each value of a mapping is filed under its own identifier.
pub open spec fn self_keyed<T: Keyed>(map: Map<u64, T>) -> bool {
    forall|k: u64| map.contains_key(k) ==> (#[trigger] map[k]).key_of() == k
}

/// The mapping of a list holds exactly the identifiers of its items, and
/// under each the last item that carries it.
pub proof fn lemma_last_occurrence_wins<T: Keyed>(items: Seq<T>)
    ensures
        forall|k: u64|
            keyed(items).contains_key(k) <==> exists|i: int|
                0 <= i < items.len() && (#[trigger] items[i]).key_of() == k,
        forall|i: int|
            0 <= i < items.len() && (forall|j: int|
                i < j < items.len() ==> (#[trigger] items[j]).key_of() != items[i].key_of())
                ==> keyed(items)[(#[trigger] items[i]).key_of()] == items[i],
        self_keyed(keyed(items)),
        keyed(items).dom().finite(),
        keyed(items).dom().len() <= items.len(),
    decreases items.len(),
{
    if items.len() > 0 {
        let front = items.drop_last();
        let last = items.last();
        lemma_last_occurrence_wins(front);
        assert forall|k: u64| keyed(items).contains_key(k) implies exists|i: int|
            0 <= i < items.len() && (#[trigger] items[i]).key_of() == k by {
            if k == last.key_of() {
                assert(items[items.len() - 1].key_of() == k);
            } else {
                assert(keyed(front).contains_key(k));
                let i = choose|i: int| 0 <= i < front.len() && (#[trigger] front[i]).key_of() == k;
                assert(items[i].key_of() == k);
            }
        }
        assert forall|k: u64|
            (exists|i: int|
                0 <= i < items.len() && (#[trigger] items[i]).key_of() == k) implies keyed(
            items,
        ).contains_key(k) by {
            let i = choose|i: int| 0 <= i < items.len() && (#[trigger] items[i]).key_of() == k;
            if i < items.len() - 1 {
                assert(front[i].key_of() == k);
            }
        }
        assert forall|i: int|
            0 <= i < items.len() && (forall|j: int|
                i < j < items.len() ==> (#[trigger] items[j]).key_of()
                    != items[i].key_of()) implies keyed(items)[(#[trigger] items[i]).key_of()]
            == items[i] by {
            if i < items.len() - 1 {
                assert(items[items.len() - 1].key_of() != items[i].key_of());
                assert(front[i] == items[i]);
                assert forall|j: int| i < j < front.len() implies (#[trigger] front[j]).key_of()
                    != front[i].key_of() by {
                    assert(front[j] == items[j]);
                }
            }
        }
    }
}

/// Writing a mapping out as a list and reading the list back gives the
/// mapping, where each value is filed under its own identifier; the order
/// of the list does not matter.
pub proof fn lemma_list_then_keyed<T: Keyed>(items: Seq<T>, map: Map<u64, T>)
    requires
        lists_values(items, map),
        self_keyed(map),
    ensures
        keyed(items) == map,
{
    let keys = choose|keys: Seq<u64>| is_listing(items, keys, map);
    lemma_last_occurrence_wins(items);
    assert forall|i: int| 0 <= i < items.len() implies (#[trigger] items[i]).key_of()
        == keys[i] by {
        assert(keys.contains(keys[i]));
    }
    assert forall|k: u64| keyed(items).contains_key(k) <==> map.contains_key(k) by {
        if keyed(items).contains_key(k) {
            let i = choose|i: int| 0 <= i < items.len() && (#[trigger] items[i]).key_of() == k;
            assert(keys[i] == k);
            assert(keys.contains(k));
        }
        if map.contains_key(k) {
            assert(keys.contains(k));
            let i = choose|i: int| 0 <= i < keys.len() && keys[i] == k;
            assert(items[i].key_of() == k);
        }
    }
    assert forall|k: u64| keyed(items).contains_key(k) implies keyed(items)[k] == map[k] by {
        assert(keys.contains(k));
        let i = choose|i: int| 0 <= i < keys.len() && keys[i] == k;
        assert(items[i].key_of() == k);
        assert forall|j: int| i < j < items.len() implies (#[trigger] items[j]).key_of()
            != items[i].key_of() by {
            assert(keys[j] != keys[i]);
        }
    }
    assert(keyed(items) =~= map);
}

/// Decodes a list into the mapping by identifier. Where two items carry the
/// same identifier the later one stays.
pub fn decode_keyed<T: Keyed>(items: Vec<T>) -> (map: HashMap<u64, T>)
    ensures
        map@ == keyed(items@),
{
    broadcast use vstd::std_specs::hash::group_hash_axioms;

    let ghost all = items@;
    let mut map: HashMap<u64, T> = HashMap::new();
    for item in it: items.into_iter()
        invariant
            it.seq() == all,
            map@ == keyed(all.take(it.index() as int)),
    {
        proof {
            let n = it.index() as int;
            assert(all.take(n + 1).drop_last() =~= all.take(n));
            assert(all.take(n + 1).last() == item);
        }
        let k = item.key();
        map.insert(k, item);
    }
    proof {
        assert(all.take(all.len() as int) =~= all);
    }
    map
}

/// Decodes a field that holds such a list; an absent field is the empty
/// mapping.
pub fn decode_keyed_field<T: Keyed>(items: Option<Vec<T>>) -> (map: HashMap<u64, T>)
    ensures
        map@ == match items {
            Some(list) => keyed(list@),
            None => Map::<u64, T>::empty(),
        },
{
    match items {
        Some(list) => decode_keyed(list),
        None => HashMap::new(),
    }
}

/// Encodes a mapping as the list of its values, in the order in which the
/// mapping hands out its keys. That order is not part of the contract: the
/// list holds each key's value once.
pub fn encode_keyed<T>(map: HashMap<u64, T>) -> (items: Vec<T>)
    ensures
        lists_values(items@, map@),
        items@.len() == map@.dom().len(),
{
    broadcast use vstd::std_specs::hash::group_hash_axioms;

    let ghost whole = map@;
    let mut map = map;
    let mut keys: Vec<u64> = Vec::new();
    for k in it: map.keys()
        invariant
            keys@.len() == it.index(),
            forall|i: int| 0 <= i < keys@.len() ==> keys@[i] == *(#[trigger] it.seq()[i]),
    {
        keys.push(*k);
    }
    proof {
        let listed = map.keys().remaining();
        assert(keys@ =~= listed.unref());
        assert(keys@.to_set() == whole.dom());
        assert forall|i: int, j: int|
            0 <= i < keys@.len() && 0 <= j < keys@.len() && i != j implies keys@[i]
            != keys@[j] by {
            assert(listed[i] != listed[j]);
        }
        assert forall|k: u64| keys@.contains(k) <==> whole.contains_key(k) by {
            assert(keys@.to_set().contains(k) <==> whole.dom().contains(k));
        }
    }
    let mut items: Vec<T> = Vec::new();
    let mut i: usize = 0;
    while i < keys.len()
        invariant
            i <= keys.len(),
            keys@.no_duplicates(),
            forall|k: u64| keys@.contains(k) <==> whole.contains_key(k),
            items@.len() == i,
            forall|j: int| 0 <= j < i ==> items@[j] == whole[#[trigger] keys@[j]],
            forall|j: int|
                i <= j < keys@.len() ==> map@.contains_key(#[trigger] keys@[j]) && map@[keys@[j]]
                    == whole[keys@[j]],
        decreases keys.len() - i,
    {
        let k = keys[i];
        let ghost before = map@;
        match map.remove(&k) {
            Some(v) => {
                items.push(v);
            },
            None => unreached(),
        }
        proof {
            assert(map@ == before.remove(k));
            assert forall|j: int| i + 1 <= j < keys@.len() implies map@.contains_key(
                #[trigger] keys@[j],
            ) && map@[keys@[j]] == whole[keys@[j]] by {
                assert(keys@[j] != keys@[i as int]);
            }
        }
        i = i + 1;
    }
    proof {
        assert(is_listing(items@, keys@, whole));
        keys@.unique_seq_to_set();
    }
    items
}

} // verus!
