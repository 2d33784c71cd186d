//! Content validation, the entry points, and the fixed record layout.

use solana_twitter::record::Pubkey;
use solana_twitter::record::TxError;
use solana_twitter::record::DISCRIMINATOR_LENGTH;
use solana_twitter::record::MAX_CONTENT_CHARS;
use solana_twitter::record::MAX_CONTENT_LENGTH;
use solana_twitter::record::PUBLIC_KEY_LENGTH;
use solana_twitter::record::PUBLIC_TIMESTAMP_LENGTH;
use solana_twitter::record::STRING_LENGTH_PREFIX;
use solana_twitter::store::TweetStore;
use solana_twitter::delete_tweet;
use solana_twitter::send_tweet;
use solana_twitter::DeleteTweet;
use solana_twitter::Errors;
use solana_twitter::SendTweet;
use solana_twitter::Tweet;

fn author(tag: u8) -> Pubkey {
    Pubkey::new([tag; 32])
}

#[test]
fn content_of_exactly_250_scalar_values_accepted() {
    let mut store = TweetStore::new();
    let a = author(1);
    assert!(store.create_record(&a, "a".repeat(250), 1).is_ok());
    let tweet = store.get_record(&a).expect("record should be present");
    assert_eq!(tweet.content.chars().count(), 250);
}

#[test]
fn content_of_251_scalar_values_rejected() {
    let mut store = TweetStore::new();
    let a = author(1);
    let r = store.create_record(&a, "a".repeat(251), 1);
    assert_eq!(r, Err(TxError::Program(Errors::ContentTooLong)));
    assert!(store.get_record(&a).is_none());
}

#[test]
fn length_is_counted_in_scalar_values_not_bytes() {
    let mut store = TweetStore::new();
    let a = author(1);
    // 250 crab emoji: 1000 UTF-8 bytes, but only 250 scalar values.
    let heavy = "\u{1F980}".repeat(250);
    assert_eq!(heavy.len(), 1000);
    assert!(store.create_record(&a, heavy.clone(), 1).is_ok());
    let tweet = store.get_record(&a).expect("record should be present");
    assert_eq!(tweet.content, heavy);

    let b = author(2);
    // 251 two-byte scalar values: still over the cap.
    let r = store.create_record(&b, "\u{3B1}".repeat(251), 1);
    assert_eq!(r, Err(TxError::Program(Errors::ContentTooLong)));
}

#[test]
fn send_and_delete_entry_points() {
    let mut store = TweetStore::new();
    let sender = author(9);
    let send_ctx = SendTweet { sender };
    assert!(send_tweet(&mut store, &send_ctx, "gm".to_string(), 42).is_ok());
    let tweet = store.get_record(&sender).expect("record should be present");
    assert_eq!(tweet.content, "gm");
    assert_eq!(tweet.timestamp, 42);

    let intruder = author(8);
    let stolen_ctx = DeleteTweet { tweet_author: sender, sender: intruder };
    assert_eq!(
        delete_tweet(&mut store, &stolen_ctx),
        Err(TxError::AuthorMismatch)
    );

    let own_ctx = DeleteTweet { tweet_author: sender, sender };
    assert!(delete_tweet(&mut store, &own_ctx).is_ok());
    assert!(store.get_record(&sender).is_none());
    assert_eq!(
        delete_tweet(&mut store, &own_ctx),
        Err(TxError::RecordMissing)
    );
}

#[test]
fn send_tweet_rejects_long_content() {
    let mut store = TweetStore::new();
    let sender = author(4);
    let ctx = SendTweet { sender };
    let r = send_tweet(&mut store, &ctx, "y".repeat(300), 1);
    assert_eq!(r, Err(TxError::Program(Errors::ContentTooLong)));
    assert!(store.get_record(&sender).is_none());
}

#[test]
fn record_layout_totals_1052_bytes() {
    assert_eq!(MAX_CONTENT_CHARS, 250);
    assert_eq!(MAX_CONTENT_LENGTH, 1000);
    assert_eq!(
        Tweet::LEN,
        DISCRIMINATOR_LENGTH
            + PUBLIC_KEY_LENGTH
            + PUBLIC_TIMESTAMP_LENGTH
            + STRING_LENGTH_PREFIX
            + MAX_CONTENT_LENGTH
    );
    assert_eq!(Tweet::LEN, 1052);
}

#[test]
fn content_too_long_message() {
    assert_eq!(Errors::ContentTooLong.message(), "The tweet is too long");
}

#[test]
fn same_key_compares_all_bytes() {
    let a = author(1);
    let b = author(1);
    assert!(a.same_key(&b));
    let mut bytes = [1u8; 32];
    bytes[31] = 2;
    let c = Pubkey::new(bytes);
    assert!(!a.same_key(&c));
    assert!(!c.same_key(&a));
}
