//! The persisted record, its author identity, and the store's typed errors.

use vstd::prelude::*;

verus! {

/// Bytes the host reserves at the front of every account to tag its type.
pub const DISCRIMINATOR_LENGTH: usize = 8;

/// Size in bytes of an author identity (a public key).
pub const PUBLIC_KEY_LENGTH: usize = 32;

/// Size in bytes of the signed 64-bit creation timestamp.
pub const PUBLIC_TIMESTAMP_LENGTH: usize = 8;

/// Bytes of the unsigned length prefix that frames the content bytes.
pub const STRING_LENGTH_PREFIX: usize = 4;

/// The cap on content length, counted in Unicode scalar values.
pub const MAX_CONTENT_CHARS: usize = 250;

/// Bytes reserved for the content itself: the cap times the worst-case
/// four-byte UTF-8 encoding of one scalar value, so the record never needs
/// to be resized in place.
pub const MAX_CONTENT_LENGTH: usize = MAX_CONTENT_CHARS * 4;

/// A fixed-size author identity, standing for the public key of the signer
/// who owns a record.
#[derive(Clone, Copy, Debug)]
pub struct Pubkey {
    pub bytes: [u8; 32],
}

impl View for Pubkey {
    type V = Seq<u8>;

    open spec fn view(&self) -> Seq<u8> {
        self.bytes@
    }
}

impl Pubkey {
    /// Wraps 32 raw identity bytes.
    pub fn new(bytes: [u8; 32]) -> (k: Pubkey)
        ensures
            k@ == bytes@,
    {
        Pubkey { bytes }
    }

    /// Byte-for-byte identity comparison.
    pub fn same_key(&self, other: &Pubkey) -> (r: bool)
        ensures
            r == (self@ == other@),
    {
        let mut i: usize = 0;
        while i < 32
            invariant
                i <= 32,
                forall|j: int| 0 <= j < i ==> self.bytes@[j] == other.bytes@[j],
            decreases 32 - i,
        {
            if self.bytes[i] != other.bytes[i] {
                assert(self@[i as int] != other@[i as int]);
                return false;
            }
            i += 1;
        }
        assert(self@ =~= other@);
        true
    }
}

/// The mathematical image of one stored record.
#[verifier::ext_equal]
pub ghost struct RecordView {
    pub author: Seq<u8>,
    pub content: Seq<char>,
    pub timestamp: i64,
}

/// One persisted record: its owner, its text, and when it was created.
/// The owner and the timestamp are set once at creation and never change;
/// there is no update operation.
#[derive(Debug)]
pub struct Tweet {
    pub author: Pubkey,
    pub content: String,
    pub timestamp: i64,
}

impl View for Tweet {
    type V = RecordView;

    open spec fn view(&self) -> RecordView {
        RecordView { author: self.author@, content: self.content@, timestamp: self.timestamp }
    }
}

impl Tweet {
    /// The fixed allocation for one record, reserved in full at creation
    /// time whatever the actual content length.
    pub const LEN: usize = DISCRIMINATOR_LENGTH + PUBLIC_KEY_LENGTH + PUBLIC_TIMESTAMP_LENGTH
        + STRING_LENGTH_PREFIX + MAX_CONTENT_LENGTH;

    /// The content stays within the scalar-value cap.
    pub open spec fn wf(self) -> bool {
        self.content@.len() <= MAX_CONTENT_CHARS
    }
}

/// The store's own typed, user-facing failures.
#[derive(Clone, Copy, Debug, PartialEq, Eq, Structural)]
pub enum Errors {
    /// The content holds more than `MAX_CONTENT_CHARS` Unicode scalar values.
    ContentTooLong,
}

impl Errors {
    /// The user-facing wording of this failure.
    pub fn message(&self) -> (r: String)
        ensures
            r@ == "The tweet is too long"@,
    {
        "The tweet is too long".to_owned()
    }
}

/// How a whole transaction can fail: with the store's own typed error, or
/// with one of the generic refusals the host raises around the handler
/// (allocation of an occupied address, lookup of a missing record, a caller
/// who is not the stored author).
#[derive(Clone, Copy, Debug, PartialEq, Eq, Structural)]
pub enum TxError {
    /// The store's own validation rejected the input.
    Program(Errors),
    /// The host refused to allocate: the derived address already holds a record.
    AddressInUse,
    /// The host found no record at the derived address.
    RecordMissing,
    /// The stored record's author is not the authenticated caller.
    AuthorMismatch,
}

} // verus!
