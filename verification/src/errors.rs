use vstd::prelude::*;

verus! {

/// Every way an auction operation can be rejected.
///
/// A rejected operation is a pure refusal: it leaves the stored state
/// unchanged, and the kind says exactly why the call was refused.
#[derive(Clone, Copy, Debug, PartialEq, Eq, Structural)]
pub enum TenderError {
    /// The tender (or, on a reveal, the bid) does not exist.
    NotFound,
    /// Creation was asked for a schedule without `createdAt < bidDeadline < revealDeadline`.
    InvalidSchedule,
    /// A submission arrived at or after the bidding deadline.
    DeadlineExceeded,
    /// A reveal arrived before the bidding deadline, or a close before the reveal deadline.
    TooEarly,
    /// A reveal arrived at or after the reveal deadline.
    TooLate,
    /// The bidder already has a bid on this tender.
    DuplicateBid,
    /// The bid has already been revealed.
    AlreadyRevealed,
    /// The tender has already been closed.
    AlreadyClosed,
    /// The tender is closed, so no bid can be submitted.
    Closed,
    /// The disclosed amount and secret do not match the stored commitment.
    ProofMismatch,
    /// The disclosed amount is below the tender's minimum bid.
    BelowMinimum,
    /// The caller is neither the admin nor the tender's creator.
    Unauthorized,
    /// The admin was already fixed by an earlier initialization.
    AlreadyInitialized,
}

/// Every way the transport encryption helpers can fail.
#[derive(Clone, Copy, Debug, PartialEq, Eq, Structural)]
pub enum EncryptionError {
    /// The cipher refused to open the data (it does not authenticate).
    Aes,
    /// The text is not valid base64.
    Base64,
    /// The decoded data is too short for a nonce, or the plaintext is not an
    /// amount's sixteen bytes.
    InvalidData,
    /// A key of the wrong length was offered to the cipher.
    InvalidLength,
}

} // verus!
