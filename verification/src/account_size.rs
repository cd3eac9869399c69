use vstd::prelude::*;

verus! {

/// Storage size of the Configuration record: an 8-byte discriminator, the
/// 32-byte admin address, and an 8-byte safety buffer.
pub fn get_configuration_size() -> (size: usize)
    ensures
        size == 48,
{
    let discriminator: usize = 8;
    let admin: usize = 32;
    let buffer: usize = 8;

    discriminator + admin + buffer
}

/// Storage size of the Lottery record. Each hex bound is stored as a 4-byte
/// length plus at most 6 hex characters; a 32-byte safety buffer is kept for
/// future fields.
pub fn get_lottery_size() -> (size: usize)
    ensures
        size == 112,
{
    let discriminator: usize = 8;

    let switchboard_feed: usize = 32;
    let tickets_sold: usize = 4;
    let lamports_per_ticket: usize = 8;

    let start_hex: usize = 4 + 6;
    let end_hex: usize = 4 + 6;

    let winner_settled: usize = 1;
    let refunds_settled: usize = 4;
    let open: usize = 1;
    let platform_fee_percentage: usize = 2;

    let buffer: usize = 32;

    discriminator + switchboard_feed + tickets_sold + lamports_per_ticket + start_hex + end_hex
        + winner_settled + refunds_settled + open + platform_fee_percentage + buffer
}

/// Storage size of the TransactionBundle record: the 100 ticket slots of 8
/// bytes each dominate.
pub fn get_transaction_bundle_size() -> (size: usize)
    ensures
        size == 889,
{
    let discriminator: usize = 8;
    let lottery: usize = 32;
    let owner: usize = 32;
    let tickets: usize = 100 * 8;
    let refunded: usize = 1;
    let buffer: usize = 16;

    discriminator + lottery + owner + tickets + refunded + buffer
}

} // verus!
