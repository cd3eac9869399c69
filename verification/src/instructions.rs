use vstd::prelude::*;
use vstd::arithmetic::div_mod::{lemma_div_by_multiple, lemma_div_is_ordered, lemma_div_pos_is_pos};
use crate::Address;
use crate::account_struct::{Configuration, FeedReading, Lottery, TransactionBundle};
use crate::lotto_enum::LottoError;
use crate::lotto_util::{codes_equal, feed_code, read_feed_reading, transfer_lamports};

verus! {

// ---------------------------------------------------------------------------
// Lottery transitions. Each operation's contract pins the new lottery value
// through one of these relations; the preserved invariants are proved over
// them in the laws module.
// ---------------------------------------------------------------------------

/// The fields no operation ever rewrites after creation.
pub open spec fn lottery_config_fixed(l0: Lottery, l1: Lottery) -> bool {
    &&& l1.switchboard_feed_btc_block_decimal == l0.switchboard_feed_btc_block_decimal
    &&& l1.lamports_per_ticket == l0.lamports_per_ticket
    &&& l1.ticket_code_start_hex@ == l0.ticket_code_start_hex@
    &&& l1.ticket_code_end_hex@ == l0.ticket_code_end_hex@
    &&& l1.platform_fee_percentage == l0.platform_fee_percentage
}

/// Issuing a bundle adds its ticket count to the lottery's sales and touches
/// nothing else.
pub open spec fn issue_step(l0: Lottery, l1: Lottery, count: int) -> bool {
    &&& lottery_config_fixed(l0, l1)
    &&& l1.tickets_sold == l0.tickets_sold + count
    &&& l1.winner_settled == l0.winner_settled
    &&& l1.refunds_settled == l0.refunds_settled
    &&& l1.open == l0.open
}

/// Winner settlement: only allowed while wholly unsettled, and it sets the
/// winner flag once and for all.
pub open spec fn reward_step(l0: Lottery, l1: Lottery) -> bool {
    &&& !l0.winner_settled
    &&& l0.refunds_settled == 0
    &&& lottery_config_fixed(l0, l1)
    &&& l1.tickets_sold == l0.tickets_sold
    &&& l1.winner_settled
    &&& l1.refunds_settled == 0
    &&& l1.open == l0.open
}

/// Refund settlement as seen by the lottery: only while no winner is settled,
/// and it counts one more refunded bundle.
pub open spec fn refund_lottery_step(l0: Lottery, l1: Lottery) -> bool {
    &&& !l0.winner_settled
    &&& l0.tickets_sold > 0
    &&& lottery_config_fixed(l0, l1)
    &&& l1.tickets_sold == l0.tickets_sold
    &&& !l1.winner_settled
    &&& l1.refunds_settled == l0.refunds_settled + 1
    &&& l1.open == l0.open
}

/// Refund settlement as seen by the bundle: its refunded flag goes from false
/// to true and nothing else moves.
pub open spec fn bundle_refund_step(b0: TransactionBundle, b1: TransactionBundle) -> bool {
    &&& !b0.refunded
    &&& b1.refunded
    &&& b1.lottery_pda == b0.lottery_pda
    &&& b1.owner == b0.owner
    &&& b1.tickets@ == b0.tickets@
}

/// Closing a lottery for sales clears its open flag and touches nothing else.
pub open spec fn close_step(l0: Lottery, l1: Lottery) -> bool {
    &&& lottery_config_fixed(l0, l1)
    &&& l1.tickets_sold == l0.tickets_sold
    &&& l1.winner_settled == l0.winner_settled
    &&& l1.refunds_settled == l0.refunds_settled
    &&& !l1.open
}

// ---------------------------------------------------------------------------
// Validation cascades: each operation checks in this order, first failure
// wins, and a failed call leaves every record unchanged.
// ---------------------------------------------------------------------------

/// Bundle issuance fails for a non-admin caller, then for more codes than the
/// bundle's 100-slot capacity.
pub open spec fn create_bundle_check(caller: Address, config: Configuration, count: int) -> Option<
    LottoError,
> {
    if caller != config.admin {
        Some(LottoError::AdminOnlyAction)
    } else if count > 100 {
        Some(LottoError::BundleFull)
    } else {
        None
    }
}

/// Winner settlement checks, in order: the caller is the admin; neither
/// settlement path was taken yet; the supplied feed is the one the lottery
/// trusts; the feed yields a code; the claimed code equals the live oracle
/// code; the bundle belongs to this lottery; the bundle owner is the supplied
/// winner; the claimed code is among the bundle's tickets; and the lottery
/// balance covers the payout.
pub open spec fn reward_check(
    caller: Address,
    config: Configuration,
    lottery: Lottery,
    lottery_addr: Address,
    bundle: TransactionBundle,
    feed_addr: Address,
    feed: FeedReading,
    owner: Address,
    winning: Seq<u8>,
    lottery_lamports: u64,
) -> Option<LottoError> {
    if caller != config.admin {
        Some(LottoError::AdminOnlyAction)
    } else if lottery.winner_settled {
        Some(LottoError::DuplicateRequest)
    } else if lottery.refunds_settled != 0 {
        Some(LottoError::DuplicateRequest)
    } else if feed_addr != lottery.switchboard_feed_btc_block_decimal {
        Some(LottoError::SwitchboardFeedMismatch)
    } else if feed_code(feed) is Err {
        Some(LottoError::FeedParseError)
    } else if feed_code(feed)->Ok_0 != winning {
        Some(LottoError::FeedValueMismatch)
    } else if bundle.lottery_pda != lottery_addr {
        Some(LottoError::KeyMismatch)
    } else if bundle.owner != owner {
        Some(LottoError::WinnerMismatch)
    } else if !bundle.has_ticket(winning) {
        Some(LottoError::TicketNotInBundle)
    } else if lottery_lamports < lottery.winner_payout() {
        Some(LottoError::InsufficientLamports)
    } else {
        None
    }
}

/// Refund checks, in order: the caller is the admin; at least one ticket was
/// sold; this bundle was not refunded yet; no winner was settled; the bundle
/// belongs to this lottery; and the lottery balance covers the share.
pub open spec fn refund_check(
    caller: Address,
    config: Configuration,
    lottery: Lottery,
    lottery_addr: Address,
    bundle: TransactionBundle,
    deduct_fee: bool,
    lottery_lamports: u64,
) -> Option<LottoError> {
    if caller != config.admin {
        Some(LottoError::AdminOnlyAction)
    } else if lottery.tickets_sold == 0 {
        Some(LottoError::NoTicketSoldToRefund)
    } else if bundle.refunded {
        Some(LottoError::DuplicateRequest)
    } else if lottery.winner_settled {
        Some(LottoError::DuplicateRequest)
    } else if bundle.lottery_pda != lottery_addr {
        Some(LottoError::KeyMismatch)
    } else if lottery_lamports < lottery.refund_share(deduct_fee) {
        Some(LottoError::InsufficientLamports)
    } else {
        None
    }
}

// ---------------------------------------------------------------------------
// Operations
// ---------------------------------------------------------------------------

/// Create the singleton configuration: the caller that pays for it becomes
/// the global admin.
pub fn create_configuration_pda(admin: Address) -> (config: Configuration)
    ensures
        config.admin == admin,
{
    Configuration { admin }
}

/// Create a lottery: admin only. Counters start at zero, the lottery opens
/// for sales, and the fee and code-range bounds are stored as given; neither
/// the range order nor the fee percentage is validated here.
pub fn create_lottery_pda(
    caller: Address,
    config: &Configuration,
    switchboard_feed: Address,
    lamports_per_ticket: u64,
    start_hex: String,
    end_hex: String,
    fee_percent: u16,
) -> (r: Result<Lottery, LottoError>)
    ensures
        match r {
            Ok(lottery) => {
                &&& caller == config.admin
                &&& lottery.switchboard_feed_btc_block_decimal == switchboard_feed
                &&& lottery.tickets_sold == 0
                &&& lottery.refunds_settled == 0
                &&& !lottery.winner_settled
                &&& lottery.open
                &&& lottery.lamports_per_ticket == lamports_per_ticket
                &&& lottery.ticket_code_start_hex@ == start_hex@
                &&& lottery.ticket_code_end_hex@ == end_hex@
                &&& lottery.platform_fee_percentage == fee_percent
            },
            Err(e) => e == LottoError::AdminOnlyAction && caller != config.admin,
        },
{
    if caller != config.admin {
        return Err(LottoError::AdminOnlyAction);
    }
    Ok(
        Lottery {
            switchboard_feed_btc_block_decimal: switchboard_feed,
            tickets_sold: 0,
            lamports_per_ticket,
            ticket_code_start_hex: start_hex,
            ticket_code_end_hex: end_hex,
            winner_settled: false,
            refunds_settled: 0,
            open: true,
            platform_fee_percentage: fee_percent,
        },
    )
}

/// Issue a bundle of purchased ticket codes to an owner: admin only, at most
/// 100 codes. The codes are stored in order and the lottery's sales counter
/// grows by their number. Replay protection is structural: the host derives
/// the bundle's address from the purchase transaction, so a replayed purchase
/// collides there and never reaches this logic twice.
pub fn create_transaction_bundle(
    caller: Address,
    config: &Configuration,
    lottery_addr: Address,
    lottery: &mut Lottery,
    owner: Address,
    purchased_numbers: Vec<[u8; 8]>,
) -> (r: Result<TransactionBundle, LottoError>)
    requires
        old(lottery).tickets_sold + purchased_numbers@.len() <= u32::MAX,
    ensures
        match r {
            Ok(bundle) => {
                &&& create_bundle_check(caller, *config, purchased_numbers@.len() as int) is None
                &&& issue_step(*old(lottery), *final(lottery), purchased_numbers@.len() as int)
                &&& bundle.lottery_pda == lottery_addr
                &&& bundle.owner == owner
                &&& bundle.tickets@ == purchased_numbers@
                &&& !bundle.refunded
                &&& bundle.well_formed()
            },
            Err(e) => {
                &&& create_bundle_check(caller, *config, purchased_numbers@.len() as int)
                    == Some(e)
                &&& *final(lottery) == *old(lottery)
            },
        },
{
    if caller != config.admin {
        return Err(LottoError::AdminOnlyAction);
    }
    let count = purchased_numbers.len();
    if count > 100 {
        return Err(LottoError::BundleFull);
    }
    let bundle = TransactionBundle {
        lottery_pda: lottery_addr,
        owner,
        tickets: purchased_numbers,
        refunded: false,
    };
    lottery.tickets_sold = lottery.tickets_sold + (count as u32);
    Ok(bundle)
}

/// Settle the winner against an already-decoded feed reading: validate the
/// whole cascade, pay `winner_payout` from the lottery balance to the owner
/// balance, and set the winner flag. A failed call changes nothing. Feed
/// failures (no value yet, value out of code range) surface as
/// `FeedParseError`, as the decode failure does.
pub fn reward_bundle_with_reading(
    caller: Address,
    config: &Configuration,
    lottery_addr: Address,
    lottery: &mut Lottery,
    bundle: &TransactionBundle,
    feed_addr: Address,
    feed: &FeedReading,
    owner: Address,
    winning_bytes: [u8; 8],
    lottery_lamports: &mut u64,
    owner_lamports: &mut u64,
) -> (r: Result<(), LottoError>)
    requires
        old(lottery).platform_fee_percentage <= 100,
        old(lottery).total_pot() <= u64::MAX,
        old(lottery).total_pot() * old(lottery).platform_fee_percentage <= u64::MAX,
        *old(owner_lamports) + old(lottery).winner_payout() <= u64::MAX,
    ensures
        match r {
            Ok(()) => {
                &&& reward_check(
                    caller,
                    *config,
                    *old(lottery),
                    lottery_addr,
                    *bundle,
                    feed_addr,
                    *feed,
                    owner,
                    winning_bytes@,
                    *old(lottery_lamports),
                ) is None
                &&& reward_step(*old(lottery), *final(lottery))
                &&& *final(lottery_lamports) == *old(lottery_lamports) - old(
                    lottery,
                ).winner_payout()
                &&& *final(owner_lamports) == *old(owner_lamports) + old(lottery).winner_payout()
            },
            Err(e) => {
                &&& reward_check(
                    caller,
                    *config,
                    *old(lottery),
                    lottery_addr,
                    *bundle,
                    feed_addr,
                    *feed,
                    owner,
                    winning_bytes@,
                    *old(lottery_lamports),
                ) == Some(e)
                &&& *final(lottery) == *old(lottery)
                &&& *final(lottery_lamports) == *old(lottery_lamports)
                &&& *final(owner_lamports) == *old(owner_lamports)
            },
        },
{
    if caller != config.admin {
        return Err(LottoError::AdminOnlyAction);
    }
    if lottery.winner_settled {
        return Err(LottoError::DuplicateRequest);
    }
    if lottery.refunds_settled != 0 {
        return Err(LottoError::DuplicateRequest);
    }
    if feed_addr != lottery.switchboard_feed_btc_block_decimal {
        return Err(LottoError::SwitchboardFeedMismatch);
    }
    let sb_winning_bytes = match read_feed_reading(feed) {
        Ok(code) => code,
        Err(_) => {
            return Err(LottoError::FeedParseError);
        },
    };
    if !codes_equal(&winning_bytes, &sb_winning_bytes) {
        return Err(LottoError::FeedValueMismatch);
    }
    if bundle.lottery_pda != lottery_addr {
        return Err(LottoError::KeyMismatch);
    }
    if bundle.owner != owner {
        return Err(LottoError::WinnerMismatch);
    }
    if !bundle.contains_code(&winning_bytes) {
        return Err(LottoError::TicketNotInBundle);
    }
    let total_lamports = lottery.lamports_per_ticket * (lottery.tickets_sold as u64);
    let platform_fee = total_lamports * (lottery.platform_fee_percentage as u64) / 100;
    proof {
        lemma_fee_within_pot(*lottery);
    }
    let payout_amount = total_lamports - platform_fee;
    match transfer_lamports(lottery_lamports, owner_lamports, payout_amount) {
        Ok(()) => {},
        Err(e) => {
            return Err(e);
        },
    }
    lottery.winner_settled = true;
    Ok(())
}

/// Settle the winner straight from the oracle feed record's raw bytes: decode
/// the record, then run the full reward cascade against the decoded reading.
/// Which reading the record holds is the feed's affair, so the contract
/// quantifies over it: a success paid out under a reading that passed every
/// check, and a failure changed nothing and came either from the decode or
/// from the cascade under some reading.
pub fn reward_transaction_bundle(
    caller: Address,
    config: &Configuration,
    lottery_addr: Address,
    lottery: &mut Lottery,
    bundle: &TransactionBundle,
    feed_addr: Address,
    feed_data: &[u8],
    owner: Address,
    winning_bytes: [u8; 8],
    lottery_lamports: &mut u64,
    owner_lamports: &mut u64,
) -> (r: Result<(), LottoError>)
    requires
        old(lottery).platform_fee_percentage <= 100,
        old(lottery).total_pot() <= u64::MAX,
        old(lottery).total_pot() * old(lottery).platform_fee_percentage <= u64::MAX,
        *old(owner_lamports) + old(lottery).winner_payout() <= u64::MAX,
    ensures
        match r {
            Ok(()) => {
                &&& exists|feed: FeedReading|
                    #[trigger] reward_check(
                        caller,
                        *config,
                        *old(lottery),
                        lottery_addr,
                        *bundle,
                        feed_addr,
                        feed,
                        owner,
                        winning_bytes@,
                        *old(lottery_lamports),
                    ) is None
                &&& reward_step(*old(lottery), *final(lottery))
                &&& *final(lottery_lamports) == *old(lottery_lamports) - old(
                    lottery,
                ).winner_payout()
                &&& *final(owner_lamports) == *old(owner_lamports) + old(lottery).winner_payout()
            },
            Err(e) => {
                &&& e == LottoError::FeedParseError || exists|feed: FeedReading|
                    #[trigger] reward_check(
                        caller,
                        *config,
                        *old(lottery),
                        lottery_addr,
                        *bundle,
                        feed_addr,
                        feed,
                        owner,
                        winning_bytes@,
                        *old(lottery_lamports),
                    ) == Some(e)
                &&& *final(lottery) == *old(lottery)
                &&& *final(lottery_lamports) == *old(lottery_lamports)
                &&& *final(owner_lamports) == *old(owner_lamports)
            },
        },
{
    let feed = match crate::lotto_util::parse_pull_feed(feed_data) {
        Ok(feed) => feed,
        Err(_) => {
            return Err(LottoError::FeedParseError);
        },
    };
    reward_bundle_with_reading(
        caller,
        config,
        lottery_addr,
        lottery,
        bundle,
        feed_addr,
        &feed,
        owner,
        winning_bytes,
        lottery_lamports,
        owner_lamports,
    )
}

/// Refund one bundle: validate, pay the per-ticket share of the pot (after
/// the optional fee deduction) to the owner balance, mark the bundle
/// refunded, and count it on the lottery. Each bundle is refunded at most
/// once; a failed call changes nothing.
pub fn refund_transaction_bundle(
    caller: Address,
    config: &Configuration,
    lottery_addr: Address,
    lottery: &mut Lottery,
    bundle: &mut TransactionBundle,
    deduct_fee: bool,
    lottery_lamports: &mut u64,
    owner_lamports: &mut u64,
) -> (r: Result<(), LottoError>)
    requires
        old(lottery).platform_fee_percentage <= 100,
        old(lottery).total_pot() <= u64::MAX,
        old(lottery).total_pot() * old(lottery).platform_fee_percentage <= u64::MAX,
        old(lottery).refunds_settled < u32::MAX,
        *old(owner_lamports) + old(lottery).total_pot() <= u64::MAX,
    ensures
        match r {
            Ok(()) => {
                &&& refund_check(
                    caller,
                    *config,
                    *old(lottery),
                    lottery_addr,
                    *old(bundle),
                    deduct_fee,
                    *old(lottery_lamports),
                ) is None
                &&& refund_lottery_step(*old(lottery), *final(lottery))
                &&& bundle_refund_step(*old(bundle), *final(bundle))
                &&& *final(lottery_lamports) == *old(lottery_lamports) - old(lottery).refund_share(
                    deduct_fee,
                )
                &&& *final(owner_lamports) == *old(owner_lamports) + old(lottery).refund_share(
                    deduct_fee,
                )
            },
            Err(e) => {
                &&& refund_check(
                    caller,
                    *config,
                    *old(lottery),
                    lottery_addr,
                    *old(bundle),
                    deduct_fee,
                    *old(lottery_lamports),
                ) == Some(e)
                &&& *final(lottery) == *old(lottery)
                &&& *final(bundle) == *old(bundle)
                &&& *final(lottery_lamports) == *old(lottery_lamports)
                &&& *final(owner_lamports) == *old(owner_lamports)
            },
        },
{
    if caller != config.admin {
        return Err(LottoError::AdminOnlyAction);
    }
    if lottery.tickets_sold == 0 {
        return Err(LottoError::NoTicketSoldToRefund);
    }
    if bundle.refunded {
        return Err(LottoError::DuplicateRequest);
    }
    if lottery.winner_settled {
        return Err(LottoError::DuplicateRequest);
    }
    if bundle.lottery_pda != lottery_addr {
        return Err(LottoError::KeyMismatch);
    }
    let total_lamports = lottery.lamports_per_ticket * (lottery.tickets_sold as u64);
    let platform_fee = if deduct_fee {
        total_lamports * (lottery.platform_fee_percentage as u64) / 100
    } else {
        0
    };
    proof {
        lemma_fee_within_pot(*lottery);
        lemma_div_is_ordered(
            total_lamports - platform_fee,
            total_lamports as int,
            lottery.tickets_sold as int,
        );
        vstd::arithmetic::div_mod::lemma_div_nonincreasing(
            total_lamports as int,
            lottery.tickets_sold as int,
        );
    }
    let refund_per_user = (total_lamports - platform_fee) / (lottery.tickets_sold as u64);
    match transfer_lamports(lottery_lamports, owner_lamports, refund_per_user) {
        Ok(()) => {},
        Err(e) => {
            return Err(e);
        },
    }
    lottery.refunds_settled = lottery.refunds_settled + 1;
    bundle.refunded = true;
    Ok(())
}

/// Close a lottery for new purchases: admin only, clears the open flag. By
/// design this does not block later issuance or settlement.
pub fn close_lottery(caller: Address, config: &Configuration, lottery: &mut Lottery) -> (r: Result<
    (),
    LottoError,
>)
    ensures
        match r {
            Ok(()) => caller == config.admin && close_step(*old(lottery), *final(lottery)),
            Err(e) => {
                &&& e == LottoError::AdminOnlyAction
                &&& caller != config.admin
                &&& *final(lottery) == *old(lottery)
            },
        },
{
    if caller != config.admin {
        return Err(LottoError::AdminOnlyAction);
    }
    lottery.open = false;
    Ok(())
}

/// Authorize destroying a bundle record: admin only. The host destroys the
/// record once authorized; its storage cost, handed in here, is routed to the
/// admin's balance. No business-state precondition is enforced.
pub fn close_transaction_bundle(
    caller: Address,
    config: &Configuration,
    bundle_lamports: u64,
    admin_lamports: &mut u64,
) -> (r: Result<(), LottoError>)
    requires
        *old(admin_lamports) + bundle_lamports <= u64::MAX,
    ensures
        match r {
            Ok(()) => caller == config.admin && *final(admin_lamports) == *old(admin_lamports)
                + bundle_lamports,
            Err(e) => {
                &&& e == LottoError::AdminOnlyAction
                &&& caller != config.admin
                &&& *final(admin_lamports) == *old(admin_lamports)
            },
        },
{
    if caller != config.admin {
        return Err(LottoError::AdminOnlyAction);
    }
    *admin_lamports = *admin_lamports + bundle_lamports;
    Ok(())
}

/// Authorize destroying a lottery record: admin only. The host destroys the
/// record once authorized; its storage cost is routed to the admin's balance.
/// No check that its tickets were settled first.
pub fn close_lottery_pda(
    caller: Address,
    config: &Configuration,
    lottery_lamports: u64,
    admin_lamports: &mut u64,
) -> (r: Result<(), LottoError>)
    requires
        *old(admin_lamports) + lottery_lamports <= u64::MAX,
    ensures
        match r {
            Ok(()) => caller == config.admin && *final(admin_lamports) == *old(admin_lamports)
                + lottery_lamports,
            Err(e) => {
                &&& e == LottoError::AdminOnlyAction
                &&& caller != config.admin
                &&& *final(admin_lamports) == *old(admin_lamports)
            },
        },
{
    if caller != config.admin {
        return Err(LottoError::AdminOnlyAction);
    }
    *admin_lamports = *admin_lamports + lottery_lamports;
    Ok(())
}

/// Authorize destroying the configuration record: admin only. The host
/// destroys the record once authorized; its storage cost is routed to the
/// admin's balance. Recreating a configuration afterwards is the only way to
/// replace the admin.
pub fn close_configuration_pda(
    caller: Address,
    config: &Configuration,
    configuration_lamports: u64,
    admin_lamports: &mut u64,
) -> (r: Result<(), LottoError>)
    requires
        *old(admin_lamports) + configuration_lamports <= u64::MAX,
    ensures
        match r {
            Ok(()) => caller == config.admin && *final(admin_lamports) == *old(admin_lamports)
                + configuration_lamports,
            Err(e) => {
                &&& e == LottoError::AdminOnlyAction
                &&& caller != config.admin
                &&& *final(admin_lamports) == *old(admin_lamports)
            },
        },
{
    if caller != config.admin {
        return Err(LottoError::AdminOnlyAction);
    }
    *admin_lamports = *admin_lamports + configuration_lamports;
    Ok(())
}

// ---------------------------------------------------------------------------
// Arithmetic helpers
// ---------------------------------------------------------------------------

/// The platform fee is a truncating percentage of the pot, so with a
/// percentage of at most 100 it never exceeds the pot.
pub proof fn lemma_fee_within_pot(lottery: Lottery)
    requires
        lottery.platform_fee_percentage <= 100,
    ensures
        0 <= lottery.platform_fee() <= lottery.total_pot(),
{
    let pot = lottery.total_pot();
    let pct = lottery.platform_fee_percentage as int;
    assert(0 <= pot && pot * pct <= pot * 100) by (nonlinear_arith)
        requires
            0 <= lottery.lamports_per_ticket,
            0 <= lottery.tickets_sold,
            pot == lottery.lamports_per_ticket * lottery.tickets_sold,
            0 <= pct <= 100,
    ;
    lemma_div_pos_is_pos(pot * pct, 100);
    lemma_div_is_ordered(pot * pct, pot * 100, 100);
    lemma_div_by_multiple(pot, 100);
}

} // verus!
