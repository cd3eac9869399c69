use vstd::prelude::*;
use vstd::arithmetic::div_mod::{lemma_fundamental_div_mod, lemma_mod_bound};
use crate::Address;
use crate::account_struct::{Configuration, FeedReading, Lottery, TransactionBundle};
use crate::instructions::{
    bundle_refund_step, close_step, issue_step, lemma_fee_within_pot, refund_check,
    refund_lottery_step, reward_check, reward_step,
};
use crate::lotto_enum::LottoError;
use crate::lotto_util::{be_bytes_of, feed_code};

verus! {

/// The filled ticket slots of a sequence of bundles, counted together.
pub open spec fn sum_ticket_counts(bundles: Seq<TransactionBundle>) -> int
    decreases bundles.len(),
{
    if bundles.len() == 0 {
        0
    } else {
        sum_ticket_counts(bundles.drop_last()) + bundles.last().ticket_count()
    }
}

/// A lottery's sales counter accounts exactly for the ticket slots of its
/// bundles.
pub open spec fn tickets_accounted(lottery: Lottery, bundles: Seq<TransactionBundle>) -> bool {
    lottery.tickets_sold == sum_ticket_counts(bundles)
}

/// Law: a lottery starts with its sales counter accounting for its (empty)
/// set of bundles; with the two preservation laws below, the accounting holds
/// for all lotteries across any sequence of operations.
pub proof fn lemma_new_lottery_accounting(lottery: Lottery)
    requires
        lottery.tickets_sold == 0,
    ensures
        tickets_accounted(lottery, Seq::<TransactionBundle>::empty()),
{
}

/// Law: issuing a bundle keeps the ticket accounting — the sales counter grows
/// by exactly the slots of the bundle that joins the lottery's bundles.
pub proof fn lemma_issue_preserves_ticket_accounting(
    l0: Lottery,
    l1: Lottery,
    bundles: Seq<TransactionBundle>,
    bundle: TransactionBundle,
)
    requires
        tickets_accounted(l0, bundles),
        issue_step(l0, l1, bundle.ticket_count()),
    ensures
        tickets_accounted(l1, bundles.push(bundle)),
{
    assert(bundles.push(bundle).drop_last() =~= bundles);
    assert(bundles.push(bundle).last() == bundle);
}

/// Law: settlement, refund and closing never move the sales counter, so the
/// ticket accounting survives every step but issuance.
pub proof fn lemma_settlement_preserves_ticket_accounting(
    l0: Lottery,
    l1: Lottery,
    bundles: Seq<TransactionBundle>,
)
    requires
        tickets_accounted(l0, bundles),
        reward_step(l0, l1) || refund_lottery_step(l0, l1) || close_step(l0, l1),
    ensures
        tickets_accounted(l1, bundles),
{
}

/// Law: the settlement paths exclude each other for the lifetime of a
/// lottery. Every transition a lottery can take keeps `winner_settled` and a
/// positive `refunds_settled` from holding together: a reward demands that no
/// refund was counted, a refund demands that no winner was settled, and the
/// other steps do not touch either flag.
pub proof fn lemma_settlement_mutual_exclusion(l0: Lottery, l1: Lottery, count: int)
    requires
        l0.settlement_exclusive(),
        issue_step(l0, l1, count) || reward_step(l0, l1) || refund_lottery_step(l0, l1)
            || close_step(l0, l1),
    ensures
        l1.settlement_exclusive(),
{
}

/// Law: a bundle is refunded at most once. After a refund settles a bundle,
/// a second refund request for it — by the admin, under the same lottery, with
/// either fee policy and whatever the balances are — always fails
/// `DuplicateRequest`.
pub proof fn lemma_refund_runs_once(
    caller: Address,
    config: Configuration,
    l0: Lottery,
    l1: Lottery,
    lottery_addr: Address,
    b0: TransactionBundle,
    b1: TransactionBundle,
    deduct_fee_again: bool,
    lamports_again: u64,
)
    requires
        caller == config.admin,
        refund_lottery_step(l0, l1),
        bundle_refund_step(b0, b1),
    ensures
        refund_check(caller, config, l1, lottery_addr, b1, deduct_fee_again, lamports_again)
            == Some(LottoError::DuplicateRequest),
{
}

/// Law: the winner is rewarded at most once. After a reward settles the
/// lottery, a second reward request — by the admin, whatever its other inputs —
/// always fails `DuplicateRequest`.
pub proof fn lemma_reward_runs_once(
    caller: Address,
    config: Configuration,
    l0: Lottery,
    l1: Lottery,
    lottery_addr: Address,
    bundle: TransactionBundle,
    feed_addr: Address,
    feed: FeedReading,
    owner: Address,
    winning: Seq<u8>,
    lamports_again: u64,
)
    requires
        caller == config.admin,
        reward_step(l0, l1),
    ensures
        reward_check(caller, config, l1, lottery_addr, bundle, feed_addr, feed, owner, winning,
            lamports_again) == Some(LottoError::DuplicateRequest),
{
}

/// Law: a reward passes validation only if the claimed code is bit-identical
/// to the code the live oracle reading derives, the claimed code appears among
/// the bundle's ticket slots, and the bundle's owner is the supplied winner.
pub proof fn lemma_reward_validation(
    caller: Address,
    config: Configuration,
    lottery: Lottery,
    lottery_addr: Address,
    bundle: TransactionBundle,
    feed_addr: Address,
    feed: FeedReading,
    owner: Address,
    winning: Seq<u8>,
    lottery_lamports: u64,
)
    requires
        reward_check(caller, config, lottery, lottery_addr, bundle, feed_addr, feed, owner,
            winning, lottery_lamports) is None,
    ensures
        feed_code(feed) == Ok::<Seq<u8>, LottoError>(winning),
        bundle.has_ticket(winning),
        bundle.owner == owner,
        bundle.lottery_pda == lottery_addr,
        caller == config.admin,
        !lottery.winner_settled && lottery.refunds_settled == 0,
{
}

/// Law: a claimed code that differs from the live oracle code is rejected
/// with `FeedValueMismatch`, even when that code sits inside the bundle — the
/// engine derives the authoritative value from the feed, never from the claim.
pub proof fn lemma_stale_claim_rejected(
    caller: Address,
    config: Configuration,
    lottery: Lottery,
    lottery_addr: Address,
    bundle: TransactionBundle,
    feed_addr: Address,
    feed: FeedReading,
    owner: Address,
    winning: Seq<u8>,
    lottery_lamports: u64,
)
    requires
        caller == config.admin,
        !lottery.winner_settled,
        lottery.refunds_settled == 0,
        feed_addr == lottery.switchboard_feed_btc_block_decimal,
        feed_code(feed) is Ok,
        feed_code(feed) != Ok::<Seq<u8>, LottoError>(winning),
        bundle.has_ticket(winning),
    ensures
        reward_check(caller, config, lottery, lottery_addr, bundle, feed_addr, feed, owner,
            winning, lottery_lamports) == Some(LottoError::FeedValueMismatch),
{
}

/// Law: the fixed 8-byte big-endian code is faithful — two values with the
/// same code are the same value, so comparing codes byte for byte compares
/// the encoded values themselves.
pub proof fn lemma_code_faithful(a: u64, b: u64)
    requires
        be_bytes_of(a) == be_bytes_of(b),
    ensures
        a == b,
{
    assert((a >> 56) as u8 == (b >> 56) as u8 && (a >> 48) as u8 == (b >> 48) as u8 && (a >> 40)
        as u8 == (b >> 40) as u8 && (a >> 32) as u8 == (b >> 32) as u8 && (a >> 24) as u8 == (b
        >> 24) as u8 && (a >> 16) as u8 == (b >> 16) as u8 && (a >> 8) as u8 == (b >> 8) as u8 && a
        as u8 == b as u8) by {
        assert(be_bytes_of(a)[0] == be_bytes_of(b)[0]);
        assert(be_bytes_of(a)[1] == be_bytes_of(b)[1]);
        assert(be_bytes_of(a)[2] == be_bytes_of(b)[2]);
        assert(be_bytes_of(a)[3] == be_bytes_of(b)[3]);
        assert(be_bytes_of(a)[4] == be_bytes_of(b)[4]);
        assert(be_bytes_of(a)[5] == be_bytes_of(b)[5]);
        assert(be_bytes_of(a)[6] == be_bytes_of(b)[6]);
        assert(be_bytes_of(a)[7] == be_bytes_of(b)[7]);
    }
    assert(((a >> 56) as u8 == (b >> 56) as u8 && (a >> 48) as u8 == (b >> 48) as u8 && (a >> 40)
        as u8 == (b >> 40) as u8 && (a >> 32) as u8 == (b >> 32) as u8 && (a >> 24) as u8 == (b
        >> 24) as u8 && (a >> 16) as u8 == (b >> 16) as u8 && (a >> 8) as u8 == (b >> 8) as u8 && a
        as u8 == b as u8) ==> a == b) by (bit_vector);
}

/// Law: the payout conserves the pot exactly — what the winner receives and
/// what the platform keeps add up to price per ticket times tickets sold, to
/// the lamport.
pub proof fn lemma_payout_conservation(lottery: Lottery)
    ensures
        lottery.winner_payout() + lottery.platform_fee() == lottery.total_pot(),
{
}

/// Law: the per-bundle refund share never over-draws the pool — the share times
/// the ticket count stays within the pot after the fee — and the truncation
/// loses at most `tickets_sold - 1` lamports in all.
pub proof fn lemma_refund_share_bound(lottery: Lottery, deduct_fee: bool)
    requires
        lottery.tickets_sold > 0,
        lottery.platform_fee_percentage <= 100,
    ensures
        0 <= lottery.refund_share(deduct_fee),
        lottery.refund_share(deduct_fee) * lottery.tickets_sold <= lottery.total_pot() - (
        if deduct_fee {
            lottery.platform_fee()
        } else {
            0
        }),
        lottery.total_pot() - (
        if deduct_fee {
            lottery.platform_fee()
        } else {
            0
        }) - lottery.refund_share(deduct_fee) * lottery.tickets_sold <= lottery.tickets_sold - 1,
{
    lemma_fee_within_pot(lottery);
    let pool = lottery.total_pot() - (
    if deduct_fee {
        lottery.platform_fee()
    } else {
        0
    });
    let n = lottery.tickets_sold as int;
    lemma_fundamental_div_mod(pool, n);
    lemma_mod_bound(pool, n);
    assert(lottery.refund_share(deduct_fee) * n == n * (pool / n)) by (nonlinear_arith)
        requires
            lottery.refund_share(deduct_fee) == pool / n,
    ;
    vstd::arithmetic::div_mod::lemma_div_pos_is_pos(pool, n);
}

} // verus!
