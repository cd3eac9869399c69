use lotto_engine::account_struct::FeedReading;
use lotto_engine::lotto_enum::LottoError;
use lotto_engine::lotto_util::{codes_equal, read_feed_reading, read_feed_value, u64_to_be_bytes, transfer_lamports};
use lotto_engine::account_size::{get_configuration_size, get_lottery_size, get_transaction_bundle_size};

const SCALE: i128 = 1_000_000_000_000_000_000;

#[test]
fn code_of_small_value_is_big_endian() {
    assert_eq!(u64_to_be_bytes(42), [0, 0, 0, 0, 0, 0, 0, 42]);
    assert_eq!(u64_to_be_bytes(0), [0; 8]);
    assert_eq!(
        u64_to_be_bytes(0x0102030405060708),
        [1, 2, 3, 4, 5, 6, 7, 8]
    );
    assert_eq!(u64_to_be_bytes(u64::MAX), [0xff; 8]);
}

#[test]
fn codes_compare_byte_for_byte() {
    assert!(codes_equal(&u64_to_be_bytes(7), &u64_to_be_bytes(7)));
    assert!(!codes_equal(&u64_to_be_bytes(7), &u64_to_be_bytes(8)));
    assert!(!codes_equal(&[0, 0, 0, 0, 0, 0, 0, 1], &[1, 0, 0, 0, 0, 0, 0, 0]));
}

#[test]
fn feed_reading_truncates_scale_toward_zero() {
    let feed = FeedReading { value: 42 * SCALE + (SCALE - 1), last_update_timestamp: 5 };
    assert_eq!(read_feed_reading(&feed), Ok(u64_to_be_bytes(42)));
    // A negative value above -1.0 truncates to exactly zero.
    let feed = FeedReading { value: -(SCALE - 1), last_update_timestamp: 5 };
    assert_eq!(read_feed_reading(&feed), Ok(u64_to_be_bytes(0)));
}

#[test]
fn feed_reading_rejects_never_updated_feed() {
    let feed = FeedReading { value: 42 * SCALE, last_update_timestamp: 0 };
    assert_eq!(read_feed_reading(&feed), Err(LottoError::FeedNoValue));
}

#[test]
fn feed_reading_rejects_values_outside_code_range() {
    let feed = FeedReading { value: -SCALE, last_update_timestamp: 5 };
    assert_eq!(read_feed_reading(&feed), Err(LottoError::HexTooLong));
    let feed = FeedReading { value: i128::MAX, last_update_timestamp: 5 };
    assert_eq!(read_feed_reading(&feed), Err(LottoError::HexTooLong));
    let feed = FeedReading { value: i128::MIN, last_update_timestamp: 5 };
    assert_eq!(read_feed_reading(&feed), Err(LottoError::HexTooLong));
    // The largest encodable value sits exactly at the 8-byte bound.
    let feed = FeedReading { value: (u64::MAX as i128) * SCALE, last_update_timestamp: 5 };
    assert_eq!(read_feed_reading(&feed), Ok(u64_to_be_bytes(u64::MAX)));
}

#[test]
fn feed_record_of_garbage_bytes_fails_parse() {
    // Too short for a discriminator.
    assert_eq!(read_feed_value(&[1, 2, 3]), Err(LottoError::FeedParseError));
    // Long enough, but the discriminator is wrong.
    assert_eq!(read_feed_value(&[0u8; 4096]), Err(LottoError::FeedParseError));
}

#[test]
fn transfer_moves_exact_amount_or_nothing() {
    let mut from = 1000u64;
    let mut to = 5u64;
    assert_eq!(transfer_lamports(&mut from, &mut to, 300), Ok(()));
    assert_eq!((from, to), (700, 305));
    assert_eq!(
        transfer_lamports(&mut from, &mut to, 701),
        Err(LottoError::InsufficientLamports)
    );
    assert_eq!((from, to), (700, 305));
}

#[test]
fn record_sizes_match_layout() {
    assert_eq!(get_configuration_size(), 48);
    assert_eq!(get_lottery_size(), 112);
    assert_eq!(get_transaction_bundle_size(), 889);
}

#[test]
fn error_messages_are_stable() {
    assert_eq!(
        LottoError::AdminOnlyAction.message(),
        "Only admin can perform this action."
    );
    assert_eq!(
        LottoError::BundleFull.message(),
        "Transaction bundle already contains the maximum limit of 100 tickets."
    );
    assert_eq!(
        LottoError::InsufficientLamports.message(),
        "Source account does not have enough lamports."
    );
}
