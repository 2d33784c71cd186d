//! The account space as the store sees it, and the two operations on it.
//!
//! The host derives each record's address deterministically from its author's
//! key, so the address space restricted to this store is in bijection with
//! the set of authors that hold a record. The model therefore keys records
//! directly by author identity; its view is a map from author bytes to the
//! stored record.

use vstd::prelude::*;
use crate::record::Errors;
use crate::record::MAX_CONTENT_CHARS;
use crate::record::Pubkey;
use crate::record::RecordView;
use crate::record::Tweet;
use crate::record::TxError;
use vstd::string::StrSliceExecFns;

verus! {

/// What `create_record` returns, as a function of the pre-state and the
/// inputs. The host's exactly-once allocation check runs before the handler
/// itself, so an occupied address fails first, whatever the content.
pub open spec fn create_result(
    pre: Map<Seq<u8>, RecordView>,
    author: Seq<u8>,
    content: Seq<char>,
) -> Result<(), TxError> {
    if pre.contains_key(author) {
        Err(TxError::AddressInUse)
    } else if content.len() > MAX_CONTENT_CHARS {
        Err(TxError::Program(Errors::ContentTooLong))
    } else {
        Ok(())
    }
}

/// The account space after `create_record`: on success the author's record,
/// with the content verbatim and the clock reading, stands at the derived
/// address; on any failure nothing was persisted.
pub open spec fn create_post(
    pre: Map<Seq<u8>, RecordView>,
    author: Seq<u8>,
    content: Seq<char>,
    now: i64,
) -> Map<Seq<u8>, RecordView> {
    if create_result(pre, author, content) is Ok {
        pre.insert(author, RecordView { author, content, timestamp: now })
    } else {
        pre
    }
}

/// What `delete_record` returns. The host resolves the record at the address
/// derived from `target` and lets the handler run only when that record
/// exists and the authenticated caller is its author.
pub open spec fn delete_result(
    pre: Map<Seq<u8>, RecordView>,
    caller: Seq<u8>,
    target: Seq<u8>,
) -> Result<(), TxError> {
    if !pre.contains_key(target) {
        Err(TxError::RecordMissing)
    } else if caller != target {
        Err(TxError::AuthorMismatch)
    } else {
        Ok(())
    }
}

/// The account space after `delete_record`: on success the record is gone
/// and its storage reclaimed; on any failure it stands untouched.
pub open spec fn delete_post(
    pre: Map<Seq<u8>, RecordView>,
    caller: Seq<u8>,
    target: Seq<u8>,
) -> Map<Seq<u8>, RecordView> {
    if delete_result(pre, caller, target) is Ok {
        pre.remove(target)
    } else {
        pre
    }
}

/// The persisted records, at most one per author. The host owns this space;
/// the store never caches a copy of it across calls.
pub struct TweetStore {
    records: Vec<Tweet>,
}

impl View for TweetStore {
    type V = Map<Seq<u8>, RecordView>;

    closed spec fn view(&self) -> Map<Seq<u8>, RecordView> {
        Map::new(
            |a: Seq<u8>| self.has_author(a),
            |a: Seq<u8>|
                self.records@[choose|i: int|
                    0 <= i < self.records@.len() && self.records@[i].author@ == a]@,
        )
    }
}

impl TweetStore {
    spec fn has_author(self, a: Seq<u8>) -> bool {
        exists|i: int|
            0 <= i < self.records@.len() && (#[trigger] self.records@[i]).author@ == a
    }

    /// Every stored record is within the content cap, and no two records
    /// share an author: each author holds at most one record.
    pub closed spec fn inv(self) -> bool {
        &&& forall|i: int|
            0 <= i < self.records@.len() ==> (#[trigger] self.records@[i]).wf()
        &&& forall|i: int, j: int|
            0 <= i < j < self.records@.len()
                ==> self.records@[i].author@ != self.records@[j].author@
    }

    /// An empty account space: every author starts absent.
    pub fn new() -> (s: TweetStore)
        ensures
            s.inv(),
            s@ == Map::<Seq<u8>, RecordView>::empty(),
    {
        let s = TweetStore { records: Vec::new() };
        proof {
            assert(s@ =~= Map::<Seq<u8>, RecordView>::empty());
        }
        s
    }

    /// The slot holding `author`'s record, if there is one.
    fn find_index(&self, author: &Pubkey) -> (r: Option<usize>)
        ensures
            match r {
                Some(i) => i < self.records@.len() && self.records@[i as int].author@ == author@,
                None => !self.has_author(author@),
            },
    {
        let mut i: usize = 0;
        while i < self.records.len()
            invariant
                i <= self.records@.len(),
                forall|j: int| 0 <= j < i ==> (#[trigger] self.records@[j]).author@ != author@,
            decreases self.records@.len() - i,
        {
            if self.records[i].author.same_key(author) {
                return Some(i);
            }
            i += 1;
        }
        None
    }

    /// The host's account lookup at the address derived from `author`.
    pub fn get_record(&self, author: &Pubkey) -> (r: Option<&Tweet>)
        requires
            self.inv(),
        ensures
            match r {
                Some(t) => self@.contains_key(author@) && t@ == self@[author@],
                None => !self@.contains_key(author@),
            },
    {
        match self.find_index(author) {
            Some(i) => {
                proof {
                    self.lemma_view_at(i as int);
                }
                Some(&self.records[i])
            },
            None => None,
        }
    }

    /// Validates and persists a fresh record for `author`. `author` is the
    /// authenticated signer handed in by the host binding layer; `now` is the
    /// host clock oracle's reading at creation time. Succeeds exactly when
    /// the derived address is free and the content is within the cap, and
    /// then stores the content verbatim; on failure the space is unchanged.
    pub fn create_record(&mut self, author: &Pubkey, content: String, now: i64) -> (r: Result<
        (),
        TxError,
    >)
        requires
            old(self).inv(),
        ensures
            final(self).inv(),
            r == create_result(old(self)@, author@, content@),
            final(self)@ == create_post(old(self)@, author@, content@, now),
            r is Err ==> *final(self) == *old(self),
    {
        if self.find_index(author).is_some() {
            return Err(TxError::AddressInUse);
        }
        let len: usize = content.as_str().unicode_len();
        if len > MAX_CONTENT_CHARS {
            return Err(TxError::Program(Errors::ContentTooLong));
        }
        let tweet = Tweet { author: *author, content, timestamp: now };
        let ghost pre = *self;
        self.records.push(tweet);
        proof {
            pre.lemma_view_push(*self, tweet);
        }
        Ok(())
    }

    /// Pushing a record for an author who holds none inserts exactly that
    /// record into the map view and keeps the invariant.
    proof fn lemma_view_push(self, post: TweetStore, t: Tweet)
        requires
            self.inv(),
            t.wf(),
            !self.has_author(t.author@),
            post.records@ == self.records@.push(t),
        ensures
            post.inv(),
            post@ == self@.insert(t.author@, t@),
    {
        let n = self.records@.len() as int;
        assert forall|i: int, j: int| 0 <= i < j < post.records@.len() implies post.records@[i].author@
            != post.records@[j].author@ by {
            if j == n {
                assert(post.records@[i] == self.records@[i]);
                if self.records@[i].author@ == t.author@ {
                    assert(self.has_author(t.author@));
                }
            } else {
                assert(post.records@[i] == self.records@[i]);
                assert(post.records@[j] == self.records@[j]);
            }
        };
        assert(post.inv());
        assert forall|a: Seq<u8>| #[trigger] post.has_author(a) implies (self.has_author(a) || a
            == t.author@) by {
            let i = choose|i: int|
                0 <= i < post.records@.len() && post.records@[i].author@ == a;
            if i < n {
                assert(self.records@[i] == post.records@[i]);
                assert(self.has_author(a));
            }
        };
        assert forall|a: Seq<u8>| #[trigger] self.has_author(a) implies post.has_author(a) by {
            let i = choose|i: int|
                0 <= i < self.records@.len() && self.records@[i].author@ == a;
            assert(post.records@[i] == self.records@[i]);
        };
        assert(post.has_author(t.author@)) by {
            assert(post.records@[n].author@ == t.author@);
        };
        assert forall|a: Seq<u8>| post.has_author(a) implies post@[a] == self@.insert(
            t.author@,
            t@,
        )[a] by {
            let i = choose|i: int|
                0 <= i < post.records@.len() && post.records@[i].author@ == a;
            post.lemma_view_at(i);
            if a == t.author@ {
                post.lemma_view_at(n);
            } else {
                assert(i < n);
                assert(self.records@[i] == post.records@[i]);
                self.lemma_view_at(i);
            }
        };
        assert(post@ =~= self@.insert(t.author@, t@));
    }

    /// Closes the record at the address derived from `target` and returns
    /// its storage to the caller. `caller` is the authenticated signer.
    /// Succeeds exactly when such a record exists and the caller is its
    /// author; on failure the space is unchanged.
    pub fn delete_record(&mut self, caller: &Pubkey, target: &Pubkey) -> (r: Result<(), TxError>)
        requires
            old(self).inv(),
        ensures
            final(self).inv(),
            r == delete_result(old(self)@, caller@, target@),
            final(self)@ == delete_post(old(self)@, caller@, target@),
            r is Err ==> *final(self) == *old(self),
    {
        match self.find_index(target) {
            None => Err(TxError::RecordMissing),
            Some(i) => {
                proof {
                    self.lemma_view_at(i as int);
                }
                if !caller.same_key(target) {
                    Err(TxError::AuthorMismatch)
                } else {
                    let ghost pre = *self;
                    self.records.remove(i);
                    proof {
                        pre.lemma_view_remove(*self, i as int);
                    }
                    Ok(())
                }
            },
        }
    }

    /// Removing the one slot that holds an author's record removes exactly
    /// that author's entry from the map view and keeps the invariant.
    proof fn lemma_view_remove(self, post: TweetStore, k: int)
        requires
            self.inv(),
            0 <= k < self.records@.len(),
            post.records@ == self.records@.remove(k),
        ensures
            post.inv(),
            post@ == self@.remove(self.records@[k].author@),
    {
        let n = self.records@.len() as int;
        let gone = self.records@[k].author@;
        assert forall|j: int| 0 <= j < post.records@.len() implies post.records@[j] == (if j < k {
            self.records@[j]
        } else {
            self.records@[j + 1]
        }) by {};
        assert forall|i: int, j: int| 0 <= i < j < post.records@.len() implies post.records@[i].author@
            != post.records@[j].author@ by {
            let i0 = if i < k { i } else { i + 1 };
            let j0 = if j < k { j } else { j + 1 };
            assert(self.records@[i0].author@ != self.records@[j0].author@);
        };
        assert(post.inv());
        assert forall|a: Seq<u8>| #[trigger] post.has_author(a) implies (self.has_author(a) && a
            != gone) by {
            let i = choose|i: int|
                0 <= i < post.records@.len() && post.records@[i].author@ == a;
            let i0 = if i < k { i } else { i + 1 };
            assert(self.records@[i0].author@ == a);
            if a == gone {
                if i0 < k {
                    assert(self.records@[i0].author@ != self.records@[k].author@);
                } else {
                    assert(self.records@[k].author@ != self.records@[i0].author@);
                }
            }
        };
        assert forall|a: Seq<u8>| #[trigger] self.has_author(a) && a != gone implies post.has_author(
            a,
        ) by {
            let i = choose|i: int|
                0 <= i < self.records@.len() && self.records@[i].author@ == a;
            if i < k {
                assert(post.records@[i].author@ == a);
            } else {
                assert(i != k);
                assert(post.records@[i - 1].author@ == a);
            }
        };
        assert forall|a: Seq<u8>| post.has_author(a) implies post@[a] == self@.remove(gone)[a] by {
            let i = choose|i: int|
                0 <= i < post.records@.len() && post.records@[i].author@ == a;
            post.lemma_view_at(i);
            let i0 = if i < k { i } else { i + 1 };
            assert(self.records@[i0] == post.records@[i]);
            self.lemma_view_at(i0);
        };
        assert(post@ =~= self@.remove(gone));
    }

    /// Every record the view holds stands under its own author's key and
    /// keeps its content within the scalar-value cap.
    pub proof fn lemma_view_well_formed(self)
        requires
            self.inv(),
        ensures
            forall|a: Seq<u8>| #[trigger] self@.contains_key(a) ==> self@[a].author == a
                && self@[a].content.len() <= MAX_CONTENT_CHARS,
    {
        assert forall|a: Seq<u8>| #[trigger] self@.contains_key(a) implies self@[a].author == a
            && self@[a].content.len() <= MAX_CONTENT_CHARS by {
            let i = choose|i: int|
                0 <= i < self.records@.len() && self.records@[i].author@ == a;
            self.lemma_view_at(i);
            assert(self.records@[i].wf());
        };
    }

    /// With no two records sharing an author, the record in a given slot is
    /// exactly what the map view yields for its author.
    proof fn lemma_view_at(self, i: int)
        requires
            self.inv(),
            0 <= i < self.records@.len(),
        ensures
            self@.contains_key(self.records@[i].author@),
            self@[self.records@[i].author@] == self.records@[i]@,
    {
        let a = self.records@[i].author@;
        assert(self.has_author(a));
        let j = choose|j: int|
            0 <= j < self.records@.len() && self.records@[j].author@ == a;
        if j != i {
            if j < i {
                assert(self.records@[j].author@ != self.records@[i].author@);
            } else {
                assert(self.records@[i].author@ != self.records@[j].author@);
            }
        }
    }
}

/// The host-resolved accounts for `send_tweet`: the record account to
/// initialise is implied by the derivation from `sender`'s key, and the
/// system allocator is the host's own, so only the authenticated signer
/// appears here as a plain value.
pub struct SendTweet {
    /// The authenticated signer: owner of the new record and payer of its
    /// storage rent.
    pub sender: Pubkey,
}

/// The host-resolved accounts for `delete_tweet`.
pub struct DeleteTweet {
    /// The author key from which the target record's address was derived.
    pub tweet_author: Pubkey,
    /// The authenticated signer, who receives the reclaimed funds.
    pub sender: Pubkey,
}

/// Entry point: create the sender's record. `now` stands for the host clock
/// oracle's reading, injected as a plain value.
pub fn send_tweet(store: &mut TweetStore, ctx: &SendTweet, content: String, now: i64) -> (r:
    Result<(), TxError>)
    requires
        old(store).inv(),
    ensures
        final(store).inv(),
        r == create_result(old(store)@, ctx.sender@, content@),
        final(store)@ == create_post(old(store)@, ctx.sender@, content@, now),
        r is Err ==> *final(store) == *old(store),
{
    store.create_record(&ctx.sender, content, now)
}

/// Entry point: close the record the transaction targets and return its
/// storage to the sender. The handler itself has nothing left to compute:
/// everything here models the host's own resolution and ownership checks,
/// which run before the handler is allowed to run at all.
pub fn delete_tweet(store: &mut TweetStore, ctx: &DeleteTweet) -> (r: Result<(), TxError>)
    requires
        old(store).inv(),
    ensures
        final(store).inv(),
        r == delete_result(old(store)@, ctx.sender@, ctx.tweet_author@),
        final(store)@ == delete_post(old(store)@, ctx.sender@, ctx.tweet_author@),
        r is Err ==> *final(store) == *old(store),
{
    store.delete_record(&ctx.sender, &ctx.tweet_author)
}

} // verus!
