//! A model of the persisted store, and what the locking discipline
//! guarantees over it.
//!
//! The store is the finite map from file paths to the bytes persisted at
//! them. Because every write holds an exclusive advisory lock while it
//! truncates and rewrites the whole file, and every read holds a shared
//! lock while it reads the whole file, each operation is one atomic step on
//! this map: a write replaces a path's content whole, a read observes one
//! path's content whole, a removal deletes the path. The laws below state
//! what that discipline buys — no lost writes, no mixed content, no trace
//! of overwritten values, and nothing left behind by a cleanup.

use vstd::prelude::*;

use crate::search::{first_success, lemma_exhaustion};

verus! {

/// The content persisted at `path`, when the file exists.
pub open spec fn read_result(store: Map<Seq<char>, Seq<u8>>, path: Seq<char>) -> Option<Seq<u8>> {
    if store.dom().contains(path) {
        Some(store[path])
    } else {
        None
    }
}

/// What a locked write does to the store: the file at `path` is created or
/// truncated and the whole content written, in one atomic step.
pub open spec fn write_effect(
    store: Map<Seq<char>, Seq<u8>>,
    path: Seq<char>,
    content: Seq<u8>,
) -> Map<Seq<char>, Seq<u8>> {
    store.insert(path, content)
}

/// What removing the file at `path` does to the store.
pub open spec fn remove_effect(store: Map<Seq<char>, Seq<u8>>, path: Seq<char>) -> Map<
    Seq<char>,
    Seq<u8>,
> {
    store.remove(path)
}

/// What a cleanup does: remove the file from each candidate path in order.
pub open spec fn cleanup_effect(store: Map<Seq<char>, Seq<u8>>, paths: Seq<Seq<char>>) -> Map<
    Seq<char>,
    Seq<u8>,
>
    decreases paths.len(),
{
    if paths.len() == 0 {
        store
    } else {
        cleanup_effect(remove_effect(store, paths[0]), paths.drop_first())
    }
}

/// What a sequence of locked writes to one path does: each replaces the
/// content whole, in the order the exclusive lock granted them.
pub open spec fn apply_writes(
    store: Map<Seq<char>, Seq<u8>>,
    path: Seq<char>,
    payloads: Seq<Seq<u8>>,
) -> Map<Seq<char>, Seq<u8>>
    decreases payloads.len(),
{
    if payloads.len() == 0 {
        store
    } else {
        apply_writes(write_effect(store, path, payloads[0]), path, payloads.drop_first())
    }
}

/// Round trip: a read after a write returns exactly the bytes written.
pub proof fn lemma_write_then_read(
    store: Map<Seq<char>, Seq<u8>>,
    path: Seq<char>,
    content: Seq<u8>,
)
    ensures
        read_result(write_effect(store, path, content), path) == Some(content),
{
}

/// Overwrite: after writing one content and then another to the same path,
/// only the second is readable, and the store is exactly as if the first
/// write had never happened — no trace of it remains.
pub proof fn lemma_overwrite(
    store: Map<Seq<char>, Seq<u8>>,
    path: Seq<char>,
    first: Seq<u8>,
    second: Seq<u8>,
)
    ensures
        read_result(write_effect(write_effect(store, path, first), path, second), path) == Some(
            second,
        ),
        write_effect(write_effect(store, path, first), path, second) == write_effect(
            store,
            path,
            second,
        ),
{
    assert(write_effect(write_effect(store, path, first), path, second) =~= write_effect(
        store,
        path,
        second,
    ));
}

/// Concurrent-write serialization: writers holding the exclusive lock run
/// one after another, so after any number of whole-content writes the
/// readable content is the last writer's payload — one of the payloads in
/// full, never a mix of two.
pub proof fn lemma_serialized_writes(
    store: Map<Seq<char>, Seq<u8>>,
    path: Seq<char>,
    payloads: Seq<Seq<u8>>,
)
    requires
        payloads.len() > 0,
    ensures
        read_result(apply_writes(store, path, payloads), path) == Some(payloads.last()),
        payloads.contains(payloads.last()),
    decreases payloads.len(),
{
    assert(payloads[payloads.len() - 1] == payloads.last());
    if payloads.len() == 1 {
        assert(apply_writes(store, path, payloads) == write_effect(store, path, payloads[0]));
    } else {
        lemma_serialized_writes(write_effect(store, path, payloads[0]), path, payloads.drop_first());
        assert(payloads.drop_first().last() == payloads.last());
    }
}

/// A cleanup introduces no file: a path the store did not hold stays absent.
pub proof fn lemma_cleanup_adds_nothing(
    store: Map<Seq<char>, Seq<u8>>,
    paths: Seq<Seq<char>>,
    p: Seq<char>,
)
    requires
        read_result(store, p) is None,
    ensures
        read_result(cleanup_effect(store, paths), p) is None,
    decreases paths.len(),
{
    if paths.len() > 0 {
        lemma_cleanup_adds_nothing(remove_effect(store, paths[0]), paths.drop_first(), p);
    }
}

/// Cleanup completeness: after a cleanup over the candidate paths, none of
/// them holds the file any more.
pub proof fn lemma_cleanup_complete(store: Map<Seq<char>, Seq<u8>>, paths: Seq<Seq<char>>)
    ensures
        forall|i: int|
            0 <= i < paths.len() ==> read_result(cleanup_effect(store, paths), paths[i]) is None,
    decreases paths.len(),
{
    if paths.len() > 0 {
        let store1 = remove_effect(store, paths[0]);
        lemma_cleanup_complete(store1, paths.drop_first());
        lemma_cleanup_adds_nothing(store1, paths.drop_first(), paths[0]);
        assert forall|i: int| 0 <= i < paths.len() implies read_result(
            cleanup_effect(store, paths),
            paths[i],
        ) is None by {
            if i > 0 {
                assert(paths.drop_first()[i - 1] == paths[i]);
            }
        }
    }
}

/// After a cleanup, an open search over the same candidates is exhausted:
/// every existence probe fails, so the search settles on no candidate and
/// the caller sees the not-found outcome.
pub proof fn lemma_open_after_cleanup(
    store: Map<Seq<char>, Seq<u8>>,
    paths: Seq<Seq<char>>,
    probes: Seq<bool>,
)
    requires
        probes.len() == paths.len(),
        forall|i: int|
            0 <= i < paths.len() ==> probes[i] == (read_result(
                cleanup_effect(store, paths),
                paths[i],
            ) is Some),
    ensures
        first_success(probes) is None,
{
    lemma_cleanup_complete(store, paths);
    lemma_exhaustion(probes);
}

} // verus!
