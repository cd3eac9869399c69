use vstd::prelude::*;
use crate::Address;

verus! {

/// Singleton configuration record: the single global admin identity. Every
/// privileged operation checks its caller against this address.
#[derive(PartialEq, Eq, Structural, Clone, Copy, Debug)]
pub struct Configuration {
    /// Global admin of the entire lottery program.
    pub admin: Address,
}

/// One lottery instance: sales counters, settlement flags and fee policy.
pub struct Lottery {
    /// Oracle feed used to read the winning value (BTC block height, decimal).
    pub switchboard_feed_btc_block_decimal: Address,
    /// Total number of tickets sold for this lottery.
    pub tickets_sold: u32,
    /// Lamports charged per ticket.
    pub lamports_per_ticket: u64,
    /// Starting hex bound of the ticket-code range (display only).
    pub ticket_code_start_hex: String,
    /// Ending hex bound of the ticket-code range (display only).
    pub ticket_code_end_hex: String,
    /// Whether the winner payout is completed.
    pub winner_settled: bool,
    /// Number of bundles refunded so far.
    pub refunds_settled: u32,
    /// Whether the lottery is open for new purchases.
    pub open: bool,
    /// Platform fee in percent.
    pub platform_fee_percentage: u16,
}

/// One ticket-purchase transaction: the codes bought by one owner, linked to
/// exactly one lottery. The slot count is carried explicitly as the length of
/// `tickets`, bounded by the 100-slot capacity.
pub struct TransactionBundle {
    /// Lottery this bundle belongs to.
    pub lottery_pda: Address,
    /// The owner of all the tickets in this bundle.
    pub owner: Address,
    /// Each ticket is a fixed 8-byte code, compared byte for byte.
    pub tickets: Vec<[u8; 8]>,
    /// Whether the refund for this bundle has been issued.
    pub refunded: bool,
}

/// What the engine reads from an oracle feed record: the scaled fixed-point
/// value (18 decimal places) and the time of the feed's last update.
#[derive(PartialEq, Eq, Structural, Clone, Copy, Debug)]
pub struct FeedReading {
    /// Signed fixed-point value, scaled by 10^18.
    pub value: i128,
    /// Unix timestamp of the last feed update; zero means never updated.
    pub last_update_timestamp: i64,
}

impl Lottery {
    /// The whole pot: price per ticket times tickets sold.
    pub open spec fn total_pot(self) -> int {
        self.lamports_per_ticket * self.tickets_sold
    }

    /// The platform fee: a truncating percentage of the pot. The truncated
    /// remainder is under-collected and stays with the payer pool.
    pub open spec fn platform_fee(self) -> int {
        self.total_pot() * self.platform_fee_percentage / 100
    }

    /// What the winner is paid: the pot less the platform fee.
    pub open spec fn winner_payout(self) -> int {
        self.total_pot() - self.platform_fee()
    }

    /// The per-bundle refund: an equal, truncating share of the pot after the
    /// optional fee deduction.
    pub open spec fn refund_share(self, deduct_fee: bool) -> int {
        (self.total_pot() - if deduct_fee {
            self.platform_fee()
        } else {
            0
        }) / (self.tickets_sold as int)
    }

    /// Settlement flags are mutually exclusive: once a winner is paid no
    /// refund may start, and once any bundle is refunded no winner may be paid.
    pub open spec fn settlement_exclusive(self) -> bool {
        !(self.winner_settled && self.refunds_settled > 0)
    }
}

impl TransactionBundle {
    /// A bundle never holds more ticket codes than its fixed capacity.
    pub open spec fn well_formed(self) -> bool {
        self.tickets@.len() <= 100
    }

    /// How many ticket slots of this bundle are filled.
    pub open spec fn ticket_count(self) -> int {
        self.tickets@.len() as int
    }

    /// Whether the given 8-byte code appears among this bundle's ticket slots.
    pub open spec fn has_ticket(self, code: Seq<u8>) -> bool {
        exists|i: int| 0 <= i < self.tickets@.len() && self.tickets@[i]@ == code
    }

    /// Search this bundle's ticket slots for the given code, byte for byte.
    pub fn contains_code(&self, code: &[u8; 8]) -> (r: bool)
        ensures
            r == self.has_ticket(code@),
    {
        let mut i: usize = 0;
        while i < self.tickets.len()
            invariant
                i <= self.tickets@.len(),
                forall|j: int| 0 <= j < i ==> self.tickets@[j]@ != code@,
            decreases self.tickets@.len() - i,
        {
            if crate::lotto_util::codes_equal(&self.tickets[i], code) {
                assert(self.has_ticket(code@));
                return true;
            }
            i += 1;
        }
        false
    }
}

} // verus!
