use vstd::prelude::*;
use crate::account_struct::FeedReading;
use crate::lotto_enum::LottoError;

verus! {

/// Scale of the oracle feed's fixed-point value: 18 decimal places.
pub const FEED_SCALE: i128 = 1_000_000_000_000_000_000;

/// The fixed 8-byte big-endian code of an integer value.
pub open spec fn be_bytes_of(v: u64) -> Seq<u8> {
    seq![
        (v >> 56) as u8,
        (v >> 48) as u8,
        (v >> 40) as u8,
        (v >> 32) as u8,
        (v >> 24) as u8,
        (v >> 16) as u8,
        (v >> 8) as u8,
        v as u8,
    ]
}

/// The feed's scaled value reduced to an integer: division by 10^18 with
/// truncation toward zero.
pub open spec fn feed_int_value(value: i128) -> int {
    if value >= 0 {
        (value as int) / (FEED_SCALE as int)
    } else {
        -((-(value as int)) / (FEED_SCALE as int))
    }
}

/// What reading an oracle feed yields: the 8-byte big-endian code of the
/// feed's integer value, or the exact failure. A feed that was never updated
/// has no value; an integer value outside the 8-byte range cannot be encoded.
pub open spec fn feed_code(feed: FeedReading) -> Result<Seq<u8>, LottoError> {
    if feed.last_update_timestamp == 0 {
        Err(LottoError::FeedNoValue)
    } else if feed_int_value(feed.value) < 0 || feed_int_value(feed.value) > u64::MAX {
        Err(LottoError::HexTooLong)
    } else {
        Ok(be_bytes_of(feed_int_value(feed.value) as u64))
    }
}

/// Encode a value as its fixed 8-byte big-endian code.
pub fn u64_to_be_bytes(v: u64) -> (r: [u8; 8])
    ensures
        r@ == be_bytes_of(v),
{
    [
        (v >> 56) as u8,
        (v >> 48) as u8,
        (v >> 40) as u8,
        (v >> 32) as u8,
        (v >> 24) as u8,
        (v >> 16) as u8,
        (v >> 8) as u8,
        v as u8,
    ]
}

/// Compare two fixed 8-byte ticket codes byte for byte.
pub fn codes_equal(a: &[u8; 8], b: &[u8; 8]) -> (r: bool)
    ensures
        r == (a@ == b@),
{
    let mut i: usize = 0;
    while i < 8
        invariant
            i <= 8,
            forall|j: int| 0 <= j < i ==> a@[j] == b@[j],
        decreases 8 - i,
    {
        if a[i] != b[i] {
            assert(a@ != b@);
            return false;
        }
        i += 1;
    }
    assert(a@ =~= b@);
    true
}

/// Derive the winning code from an already-decoded feed reading.
pub fn read_feed_reading(feed: &FeedReading) -> (r: Result<[u8; 8], LottoError>)
    ensures
        match r {
            Ok(code) => feed_code(*feed) == Ok::<Seq<u8>, LottoError>(code@),
            Err(e) => feed_code(*feed) == Err::<Seq<u8>, LottoError>(e),
        },
{
    if feed.last_update_timestamp == 0 {
        return Err(LottoError::FeedNoValue);
    }
    let v = feed.value;
    if v >= 0 {
        let q: u128 = (v as u128) / (FEED_SCALE as u128);
        if q > u64::MAX as u128 {
            return Err(LottoError::HexTooLong);
        }
        Ok(u64_to_be_bytes(q as u64))
    } else {
        // Magnitude of v, computed without negating i128::MIN.
        let mag: u128 = ((-(v + 1)) as u128) + 1;
        let q: u128 = mag / (FEED_SCALE as u128);
        if q > 0 {
            // The integer value truncates to a negative number.
            return Err(LottoError::HexTooLong);
        }
        // A negative value above -10^18 truncates toward zero to exactly 0.
        Ok(u64_to_be_bytes(0))
    }
}

/// Relies on switchboard_on_demand::PullFeedAccountData::parse: decodes a pull
/// feed record's raw bytes after checking discriminator, length and alignment,
/// without panicking; on success the reading carries the record's scaled value
/// and last update timestamp. Every decode failure is reported as
/// FeedParseError; nothing is claimed of the values a well-formed record holds.
#[verifier::external_body]
pub(crate) fn parse_pull_feed(data: &[u8]) -> (r: Result<FeedReading, LottoError>)
    ensures
        r matches Err(e) ==> e == LottoError::FeedParseError,
{
    let mut buf: Vec<u8> = data.to_vec();
    let cell = std::cell::RefCell::new(buf.as_mut_slice());
    let out = match switchboard_on_demand::PullFeedAccountData::parse(cell.borrow()) {
        Ok(feed) => Ok(FeedReading {
            value: feed.result.value,
            last_update_timestamp: feed.last_update_timestamp,
        }),
        Err(_) => Err(LottoError::FeedParseError),
    };
    out
}

/// Read the winning code from an oracle feed record's raw bytes: decode the
/// record, then derive the fixed 8-byte big-endian code of its integer value.
pub fn read_feed_value(data: &[u8]) -> (r: Result<[u8; 8], LottoError>)
    ensures
        match r {
            Ok(code) => exists|f: FeedReading| #[trigger] feed_code(f) == Ok::<Seq<u8>, LottoError>(code@),
            Err(e) => e == LottoError::FeedParseError || e == LottoError::FeedNoValue
                || e == LottoError::HexTooLong,
        },
{
    let feed = match parse_pull_feed(data) {
        Ok(feed) => feed,
        Err(e) => {
            return Err(e);
        },
    };
    match read_feed_reading(&feed) {
        Ok(code) => {
            assert(feed_code(feed) == Ok::<Seq<u8>, LottoError>(code@));
            Ok(code)
        },
        Err(e) => Err(e),
    }
}

/// Move lamports between two record balances, all or nothing: the transfer
/// fails, and moves nothing, unless the source holds at least the amount.
pub fn transfer_lamports(from: &mut u64, to: &mut u64, lamports: u64) -> (r: Result<(), LottoError>)
    requires
        *old(to) + lamports <= u64::MAX,
    ensures
        match r {
            Ok(()) => *old(from) >= lamports && *final(from) == *old(from) - lamports
                && *final(to) == *old(to) + lamports,
            Err(e) => e == LottoError::InsufficientLamports && *old(from) < lamports
                && *final(from) == *old(from) && *final(to) == *old(to),
        },
{
    if *from < lamports {
        return Err(LottoError::InsufficientLamports);
    }
    *from = *from - lamports;
    *to = *to + lamports;
    Ok(())
}

} // verus!
