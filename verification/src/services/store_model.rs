//! An ideal object store: a backend that does exactly what it is asked.
//! It serves to say what the operations of this library amount to; nothing
//! of it runs.

use vstd::prelude::*;
use crate::error::AppErrorView;
use crate::services::buckets::{copy_of, rename_step, CopyRequestView, RenameStepView};
use crate::services::objects::WriteRequestView;

verus! {

/// Whether the store holds an object under `key` in `bucket`.
pub open spec fn holds(
    store: Map<(Seq<char>, Seq<char>), Seq<u8>>,
    bucket: Seq<char>,
    key: Seq<char>,
) -> bool {
    store.contains_key((bucket, key))
}

/// The store after a write in `bucket`: the key holds the data, whatever it
/// held.
pub open spec fn written(
    store: Map<(Seq<char>, Seq<char>), Seq<u8>>,
    bucket: Seq<char>,
    request: WriteRequestView,
) -> Map<(Seq<char>, Seq<char>), Seq<u8>> {
    store.insert((bucket, request.key), request.data)
}

/// What a read of `key` in `bucket` gives: the content, or `refusal` where
/// there is none.
pub open spec fn read_reply(
    store: Map<(Seq<char>, Seq<char>), Seq<u8>>,
    bucket: Seq<char>,
    key: Seq<char>,
    refusal: Seq<char>,
) -> Result<Seq<u8>, Seq<char>> {
    if holds(store, bucket, key) {
        Ok(store[(bucket, key)])
    } else {
        Err(refusal)
    }
}

/// What a delete gives: it is never refused, whether the key holds
/// something or not.
pub open spec fn delete_reply(
    store: Map<(Seq<char>, Seq<char>), Seq<u8>>,
    bucket: Seq<char>,
    key: Seq<char>,
) -> Result<(), Seq<char>> {
    Ok(())
}

/// The store after a delete: the key is gone.
pub open spec fn deleted(
    store: Map<(Seq<char>, Seq<char>), Seq<u8>>,
    bucket: Seq<char>,
    key: Seq<char>,
) -> Map<(Seq<char>, Seq<char>), Seq<u8>> {
    store.remove((bucket, key))
}

/// Where the first `/` of `text` stands, or its length where it has none.
pub open spec fn first_slash(text: Seq<char>) -> int
    decreases text.len(),
{
    if text.len() == 0 || text.first() == '/' {
        0
    } else {
        1 + first_slash(text.drop_first())
    }
}

/// The bucket and the key that a copy source names: what stands before its
/// first `/`, and what stands behind it.
pub open spec fn source_of(copy_source: Seq<char>) -> (Seq<char>, Seq<char>) {
    let at = first_slash(copy_source);
    (copy_source.take(at), copy_source.skip(at + 1))
}

/// The store after a copy: the destination holds what the source holds. A
/// copy from a key that holds nothing changes nothing.
pub open spec fn copied(store: Map<(Seq<char>, Seq<char>), Seq<u8>>, request: CopyRequestView) -> Map<
    (Seq<char>, Seq<char>),
    Seq<u8>,
> {
    let source = source_of(request.copy_source);
    if store.contains_key(source) {
        store.insert((request.bucket, request.key), store[source])
    } else {
        store
    }
}

/// What the library reports of a backend's reply: its value, or the
/// failure as a backend error with the backend's description.
pub open spec fn reported<T>(reply: Result<T, Seq<char>>) -> Result<T, AppErrorView> {
    match reply {
        Ok(value) => Ok(value),
        Err(description) => Err(AppErrorView::BackendError(description)),
    }
}

proof fn lemma_first_slash(bucket: Seq<char>, rest: Seq<char>)
    requires
        !bucket.contains('/'),
    ensures
        first_slash(bucket.push('/') + rest) == bucket.len(),
    decreases bucket.len(),
{
    let text = bucket.push('/') + rest;
    if bucket.len() == 0 {
        assert(text.first() == '/');
    } else {
        assert(text.first() == bucket[0]);
        assert(bucket.contains(bucket[0]));
        let shorter = bucket.drop_first();
        assert(!shorter.contains('/')) by {
            if shorter.contains('/') {
                let i = choose|i: int| 0 <= i < shorter.len() && shorter[i] == '/';
                assert(bucket[i + 1] == '/');
            }
        }
        assert(text.drop_first() =~= shorter.push('/') + rest);
        lemma_first_slash(shorter, rest);
    }
}

/// A copy request names its source such that bucket and key can be told
/// apart again, as long as the bucket's name holds no `/`.
pub proof fn copy_source_names_bucket_and_key(
    source_bucket: Seq<char>,
    source_key: Seq<char>,
    dest_bucket: Seq<char>,
    dest_key: Seq<char>,
)
    requires
        !source_bucket.contains('/'),
    ensures
        source_of(copy_of(source_bucket, source_key, dest_bucket, dest_key).copy_source) == (
            source_bucket,
            source_key,
        ),
{
    lemma_first_slash(source_bucket, source_key);
    let text = source_bucket.push('/') + source_key;
    assert(text.take(source_bucket.len() as int) =~= source_bucket);
    assert(text.skip(source_bucket.len() as int + 1) =~= source_key);
}

/// What is written under a key is what a read of the key reports, byte for
/// byte, whatever the store held before.
pub proof fn read_gives_back_what_was_written(
    store: Map<(Seq<char>, Seq<char>), Seq<u8>>,
    bucket: Seq<char>,
    key: Seq<char>,
    data: Seq<u8>,
    refusal: Seq<char>,
)
    ensures
        reported(
            read_reply(written(store, bucket, WriteRequestView { key, data }), bucket, key, refusal),
        ) == Ok::<Seq<u8>, AppErrorView>(data),
{
}

/// Deleting a key that holds nothing changes nothing, and is reported as a
/// success like any other delete.
pub proof fn delete_of_missing_key_succeeds(
    store: Map<(Seq<char>, Seq<char>), Seq<u8>>,
    bucket: Seq<char>,
    key: Seq<char>,
)
    requires
        !holds(store, bucket, key),
    ensures
        deleted(store, bucket, key) == store,
        reported(delete_reply(store, bucket, key)) is Ok,
{
    assert(deleted(store, bucket, key) =~= store);
}

/// A rename that runs to its end moves the object: the old key is gone and
/// the new key holds what the old one held; nothing else changes. This is
/// said of two different keys, and of a bucket whose name holds no `/`.
pub proof fn rename_moves_the_object(
    store: Map<(Seq<char>, Seq<char>), Seq<u8>>,
    bucket: Seq<char>,
    old_key: Seq<char>,
    new_key: Seq<char>,
)
    requires
        holds(store, bucket, old_key),
        old_key != new_key,
        !bucket.contains('/'),
    ensures
        ({
            let first = rename_step(bucket, old_key, new_key, None, None);
            let second = rename_step(bucket, old_key, new_key, Some(Ok(())), None);
            let last = rename_step(bucket, old_key, new_key, Some(Ok(())), Some(Ok(())));
            let after_copy = copied(store, first->Copy_0);
            let after = deleted(after_copy, bucket, second->key);
            &&& first is Copy
            &&& second is Delete
            &&& last == RenameStepView::Done(Ok(()))
            &&& !holds(after, bucket, old_key)
            &&& holds(after, bucket, new_key)
            &&& after[(bucket, new_key)] == store[(bucket, old_key)]
            &&& after == store.insert((bucket, new_key), store[(bucket, old_key)]).remove(
                (bucket, old_key),
            )
        }),
{
    copy_source_names_bucket_and_key(bucket, old_key, bucket, new_key);
}

/// A rename whose delete fails after the copy was made reports that
/// failure and leaves both objects: the old key and the new key hold the
/// same content. The copy is not taken back.
pub proof fn failed_delete_leaves_both_objects(
    store: Map<(Seq<char>, Seq<char>), Seq<u8>>,
    bucket: Seq<char>,
    old_key: Seq<char>,
    new_key: Seq<char>,
    refusal: Seq<char>,
)
    requires
        holds(store, bucket, old_key),
        !bucket.contains('/'),
    ensures
        ({
            let first = rename_step(bucket, old_key, new_key, None, None);
            let last = rename_step(bucket, old_key, new_key, Some(Ok(())), Some(Err(refusal)));
            let after_copy = copied(store, first->Copy_0);
            &&& first is Copy
            &&& last == RenameStepView::Done(Err(AppErrorView::BackendError(refusal)))
            &&& holds(after_copy, bucket, old_key)
            &&& holds(after_copy, bucket, new_key)
            &&& after_copy[(bucket, new_key)] == store[(bucket, old_key)]
            &&& after_copy[(bucket, old_key)] == store[(bucket, old_key)]
        }),
{
    copy_source_names_bucket_and_key(bucket, old_key, bucket, new_key);
}

/// A rename whose copy fails asks for no delete: the failure is reported
/// and the store is as it was.
pub proof fn failed_copy_deletes_nothing(
    bucket: Seq<char>,
    old_key: Seq<char>,
    new_key: Seq<char>,
    refusal: Seq<char>,
    deleted_reply: Option<Result<(), Seq<char>>>,
)
    ensures
        rename_step(bucket, old_key, new_key, Some(Err(refusal)), deleted_reply)
            == RenameStepView::Done(Err(AppErrorView::BackendError(refusal))),
{
}

} // verus!
