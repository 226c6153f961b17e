//! Seeding: the keys that a document binds data to are made sure of in the
//! store, so that every label and graph has a channel to read from.

use crate::schema::{bound_key, bound_keys, DocumentView, SchemaDocument};
use crate::store::{consistent, ensured, fresh_channel, StoreModel, TelemetryStore};
use vstd::prelude::*;

verus! {

/// The store after every key of `keys` has been made sure of: what the store
/// held stays as it was, and each key that it did not hold gets a fresh
/// channel.
pub open spec fn seeded(m: StoreModel, keys: Set<Seq<char>>) -> StoreModel {
    Map::new(
        |k: Seq<char>| m.contains_key(k) || keys.contains(k),
        |k: Seq<char>|
            if m.contains_key(k) {
                m[k]
            } else {
                fresh_channel()
            },
    )
}

/// The keys of the first `n` data sources of `doc`.
spec fn source_keys(doc: DocumentView, n: int) -> Set<Seq<char>> {
    Set::new(
        |k: Seq<char>| exists|i: int| 0 <= i < n && (#[trigger] doc.data_sources[i]).key == k,
    )
}

/// The keys that the first `n` widgets of `doc` bind data to.
spec fn widget_keys(doc: DocumentView, n: int) -> Set<Seq<char>> {
    Set::new(
        |k: Seq<char>| exists|i: int| 0 <= i < n && bound_key(#[trigger] doc.components[i]) == Some(k),
    )
}

/// Making sure of one more key, after a set of keys, is seeding with the set
/// and the key.
proof fn lemma_seed_one_more(m: StoreModel, keys: Set<Seq<char>>, key: Seq<char>)
    ensures
        ensured(seeded(m, keys), key) == seeded(m, keys.insert(key)),
{
}

/// Makes sure of every key that `doc` binds data to: those of its data
/// sources and those of its labels and graphs. Channels that the store holds
/// already keep their value and their history.
pub fn seed_store(store: &mut TelemetryStore, doc: &SchemaDocument)
    ensures
        final(store)@ == seeded(old(store)@, bound_keys(doc@)),
        consistent(old(store)@) ==> consistent(final(store)@),
{
    let ghost start = store@;
    let mut i: usize = 0;
    while i < doc.data_sources.len()
        invariant
            i <= doc.data_sources@.len(),
            store@ == seeded(start, source_keys(doc@, i as int)),
        decreases doc.data_sources@.len() - i,
    {
        let ghost key = doc.data_sources@[i as int].key@;
        assert(doc@.data_sources[i as int].key == key);
        store.ensure_key(doc.data_sources[i].key.as_str());
        proof {
            lemma_seed_one_more(start, source_keys(doc@, i as int), key);
        }
        i += 1;
    }
    let ghost sources = source_keys(doc@, doc@.data_sources.len() as int);
    let mut j: usize = 0;
    while j < doc.components.len()
        invariant
            j <= doc.components@.len(),
            sources == source_keys(doc@, doc@.data_sources.len() as int),
            store@ == seeded(start, sources.union(widget_keys(doc@, j as int))),
        decreases doc.components@.len() - j,
    {
        let ghost so_far = sources.union(widget_keys(doc@, j as int));
        assert(doc@.components[j as int] == doc.components@[j as int]@);
        match doc.components[j].data_key() {
            Some(key) => {
                store.ensure_key(key.as_str());
                proof {
                    lemma_seed_one_more(start, so_far, key@);
                }
            },
            None => {},
        }
        j += 1;
    }
    proof {
        if consistent(start) {
            lemma_seeded_consistent(start, bound_keys(doc@));
        }
    }
}

/// Seeding keeps a consistent store consistent.
pub proof fn lemma_seeded_consistent(m: StoreModel, keys: Set<Seq<char>>)
    requires
        consistent(m),
    ensures
        consistent(seeded(m, keys)),
{
}

/// After seeding, the store holds every key of the set, and reads for every
/// key what it read before: seeding twice is seeding once.
pub proof fn lemma_seeded_idempotent(m: StoreModel, keys: Set<Seq<char>>)
    ensures
        forall|k: Seq<char>| keys.contains(k) ==> #[trigger] seeded(m, keys).contains_key(k),
        seeded(seeded(m, keys), keys) == seeded(m, keys),
{
}

} // verus!
