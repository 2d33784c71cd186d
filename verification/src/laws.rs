//! The store's lifecycle laws, stated and proved over the map view and the
//! transition functions that the operations' own contracts use.

use vstd::prelude::*;
use crate::record::Errors;
use crate::record::MAX_CONTENT_CHARS;
use crate::record::RecordView;
use crate::record::TxError;
use crate::store::create_post;
use crate::store::create_result;
use crate::store::delete_post;
use crate::store::delete_result;

verus! {

/// Any content of at most the cap in scalar values is accepted for an
/// author who holds no record, and is then stored verbatim, together with
/// the author's identity and the clock reading.
pub proof fn lemma_create_accepts(
    pre: Map<Seq<u8>, RecordView>,
    author: Seq<u8>,
    content: Seq<char>,
    now: i64,
)
    requires
        !pre.contains_key(author),
        content.len() <= MAX_CONTENT_CHARS,
    ensures
        create_result(pre, author, content) is Ok,
        create_post(pre, author, content, now) == pre.insert(
            author,
            (RecordView { author, content, timestamp: now }),
        ),
        create_post(pre, author, content, now)[author].content == content,
{
}

/// Content over the cap is never persisted: creation fails and the account
/// space is unchanged. For an author who holds no record the failure is the
/// store's own typed error.
pub proof fn lemma_create_rejects_long(
    pre: Map<Seq<u8>, RecordView>,
    author: Seq<u8>,
    content: Seq<char>,
    now: i64,
)
    requires
        content.len() > MAX_CONTENT_CHARS,
    ensures
        create_result(pre, author, content) is Err,
        create_post(pre, author, content, now) == pre,
        !pre.contains_key(author) ==> create_result(pre, author, content) == Err::<
            (),
            TxError,
        >(TxError::Program(Errors::ContentTooLong)),
{
}

/// A record is never overwritten: after one successful creation, a second
/// creation for the same author fails — whatever its content — and leaves
/// the stored record as it was.
pub proof fn lemma_no_double_create(
    pre: Map<Seq<u8>, RecordView>,
    author: Seq<u8>,
    first: Seq<char>,
    now1: i64,
    second: Seq<char>,
    now2: i64,
)
    requires
        create_result(pre, author, first) is Ok,
    ensures
        ({
            let mid = create_post(pre, author, first, now1);
            &&& create_result(mid, author, second) == Err::<(), TxError>(TxError::AddressInUse)
            &&& create_post(mid, author, second, now2) == mid
            &&& mid[author] == (RecordView { author, content: first, timestamp: now1 })
        }),
{
}

/// Deletion for an author who holds no record fails, and every author's
/// state stays as it was.
pub proof fn lemma_delete_absent(pre: Map<Seq<u8>, RecordView>, author: Seq<u8>)
    requires
        !pre.contains_key(author),
    ensures
        delete_result(pre, author, author) == Err::<(), TxError>(TxError::RecordMissing),
        delete_post(pre, author, author) == pre,
{
}

/// A caller whose identity differs from the stored author cannot delete the
/// record: the operation fails and the record stands unchanged.
pub proof fn lemma_delete_wrong_caller(
    pre: Map<Seq<u8>, RecordView>,
    caller: Seq<u8>,
    target: Seq<u8>,
)
    requires
        caller != target,
    ensures
        delete_result(pre, caller, target) is Err,
        delete_post(pre, caller, target) == pre,
        pre.contains_key(target) ==> delete_result(pre, caller, target) == Err::<
            (),
            TxError,
        >(TxError::AuthorMismatch),
        pre.contains_key(target) ==> delete_post(pre, caller, target)[target] == pre[target],
{
}

/// The full cycle: from an absent state, creation succeeds and stores the
/// record; the author's own deletion then succeeds and restores the account
/// space exactly; and a fresh creation succeeds again with the new clock
/// reading.
pub proof fn lemma_full_cycle(
    pre: Map<Seq<u8>, RecordView>,
    author: Seq<u8>,
    first: Seq<char>,
    now1: i64,
    second: Seq<char>,
    now2: i64,
)
    requires
        !pre.contains_key(author),
        first.len() <= MAX_CONTENT_CHARS,
        second.len() <= MAX_CONTENT_CHARS,
    ensures
        ({
            let held = create_post(pre, author, first, now1);
            let cleared = delete_post(held, author, author);
            &&& create_result(pre, author, first) is Ok
            &&& held[author] == (RecordView { author, content: first, timestamp: now1 })
            &&& delete_result(held, author, author) is Ok
            &&& !cleared.contains_key(author)
            &&& cleared == pre
            &&& create_result(cleared, author, second) is Ok
            &&& create_post(cleared, author, second, now2)[author] == (RecordView {
                author,
                content: second,
                timestamp: now2,
            })
        }),
{
    let held = create_post(pre, author, first, now1);
    let cleared = delete_post(held, author, author);
    assert(cleared =~= pre);
}

/// Distinct authors never interfere: an operation by one author leaves the
/// other author's state — present or absent, and the record itself — exactly
/// as it was.
pub proof fn lemma_authors_independent(
    pre: Map<Seq<u8>, RecordView>,
    author: Seq<u8>,
    other: Seq<u8>,
    content: Seq<char>,
    now: i64,
)
    requires
        author != other,
    ensures
        create_post(pre, author, content, now).contains_key(other) == pre.contains_key(other),
        pre.contains_key(other) ==> create_post(pre, author, content, now)[other] == pre[other],
        delete_post(pre, author, author).contains_key(other) == pre.contains_key(other),
        pre.contains_key(other) ==> delete_post(pre, author, author)[other] == pre[other],
{
}

/// Two distinct authors can each hold their own record at the same time:
/// after both create from an absent state, both records stand, each under
/// its own author with its own content.
pub proof fn lemma_two_records_coexist(
    pre: Map<Seq<u8>, RecordView>,
    author_a: Seq<u8>,
    author_b: Seq<u8>,
    content_a: Seq<char>,
    now_a: i64,
    content_b: Seq<char>,
    now_b: i64,
)
    requires
        author_a != author_b,
        !pre.contains_key(author_a),
        !pre.contains_key(author_b),
        content_a.len() <= MAX_CONTENT_CHARS,
        content_b.len() <= MAX_CONTENT_CHARS,
    ensures
        ({
            let after_a = create_post(pre, author_a, content_a, now_a);
            let after_b = create_post(after_a, author_b, content_b, now_b);
            &&& create_result(pre, author_a, content_a) is Ok
            &&& create_result(after_a, author_b, content_b) is Ok
            &&& after_b[author_a] == (RecordView {
                author: author_a,
                content: content_a,
                timestamp: now_a,
            })
            &&& after_b[author_b] == (RecordView {
                author: author_b,
                content: content_b,
                timestamp: now_b,
            })
        }),
{
}

} // verus!
