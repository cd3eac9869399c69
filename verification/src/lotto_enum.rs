use vstd::prelude::*;

verus! {

/// Failure codes of the settlement engine. Every operation validates before it
/// mutates, so a call that returns one of these has changed nothing.
#[derive(PartialEq, Eq, Structural, Clone, Copy, Debug)]
pub enum LottoError {
    /// Caller is not the configured admin.
    AdminOnlyAction,
    /// Lottery is closed.
    LotteryClosed,
    /// A record cannot be closed because the required conditions are not met.
    PDACloseConditionNotMet,
    /// A settlement flag was already set, or an issuance was replayed.
    DuplicateRequest,
    /// A cross-record reference does not match the expected record.
    KeyMismatch,
    /// The lottery has no tickets sold, so there is nothing to refund.
    NoTicketSoldToRefund,
    /// Issuance would exceed the 100-ticket capacity of a bundle.
    BundleFull,
    /// The oracle value does not fit the fixed 8-byte code width.
    HexTooLong,
    /// The claimed code is absent from the bundle's ticket slots.
    TicketNotInBundle,
    /// The bundle owner does not match the provided owner account.
    WinnerMismatch,
    /// Requested ticket code is outside the valid lottery range.
    TicketCodeOutOfRange,
    /// The supplied oracle feed is not the one this lottery trusts.
    SwitchboardFeedMismatch,
    /// The oracle feed record could not be decoded.
    FeedParseError,
    /// The oracle feed has never been updated.
    FeedNoValue,
    /// The claimed winning code differs from the live oracle value.
    FeedValueMismatch,
    /// Source account balance is insufficient for a transfer.
    InsufficientLamports,
}

impl LottoError {
    /// The human-readable message that accompanies each failure code.
    pub open spec fn message_spec(self) -> Seq<char> {
        match self {
            LottoError::AdminOnlyAction => "Only admin can perform this action."@,
            LottoError::LotteryClosed => "Lottery is closed."@,
            LottoError::PDACloseConditionNotMet => "Cannot close PDA because the required conditions are not met."@,
            LottoError::DuplicateRequest => "Invalid Transaction request."@,
            LottoError::KeyMismatch => "Key mismatch."@,
            LottoError::NoTicketSoldToRefund => "The lottery has not tickets to issue refund."@,
            LottoError::BundleFull => "Transaction bundle already contains the maximum limit of 100 tickets."@,
            LottoError::HexTooLong => "Hex exceeds maximum allowed length of 8 characters."@,
            LottoError::TicketNotInBundle => "Ticket not found inside this transaction bundle."@,
            LottoError::WinnerMismatch => "The bundle owner does not match the provided owner account."@,
            LottoError::TicketCodeOutOfRange => "Requested ticket code is outside the valid lottery range."@,
            LottoError::SwitchboardFeedMismatch => "Switchboard feed account mismatch."@,
            LottoError::FeedParseError => "Unable to parse Switchboard feed account data."@,
            LottoError::FeedNoValue => "Switchboard feed contains no value yet."@,
            LottoError::FeedValueMismatch => "Switchboard feed value mismatch."@,
            LottoError::InsufficientLamports => "Source account does not have enough lamports."@,
        }
    }

    /// Human-readable message for this failure code.
    pub fn message(&self) -> (m: &'static str)
        ensures
            m@ == self.message_spec(),
    {
        match self {
            LottoError::AdminOnlyAction => "Only admin can perform this action.",
            LottoError::LotteryClosed => "Lottery is closed.",
            LottoError::PDACloseConditionNotMet => "Cannot close PDA because the required conditions are not met.",
            LottoError::DuplicateRequest => "Invalid Transaction request.",
            LottoError::KeyMismatch => "Key mismatch.",
            LottoError::NoTicketSoldToRefund => "The lottery has not tickets to issue refund.",
            LottoError::BundleFull => "Transaction bundle already contains the maximum limit of 100 tickets.",
            LottoError::HexTooLong => "Hex exceeds maximum allowed length of 8 characters.",
            LottoError::TicketNotInBundle => "Ticket not found inside this transaction bundle.",
            LottoError::WinnerMismatch => "The bundle owner does not match the provided owner account.",
            LottoError::TicketCodeOutOfRange => "Requested ticket code is outside the valid lottery range.",
            LottoError::SwitchboardFeedMismatch => "Switchboard feed account mismatch.",
            LottoError::FeedParseError => "Unable to parse Switchboard feed account data.",
            LottoError::FeedNoValue => "Switchboard feed contains no value yet.",
            LottoError::FeedValueMismatch => "Switchboard feed value mismatch.",
            LottoError::InsufficientLamports => "Source account does not have enough lamports.",
        }
    }
}

} // verus!
