//! An oracle bridge: an off-chain worker fetches a price from a remote
//! endpoint, converts it to a fixed-point integer, and injects it into the
//! ledger through an unsigned transaction that carries a signed payload.
//! Every node runs the admission validator before letting such a transaction
//! into its pending pool.

use vstd::prelude::*;

pub mod convert;
pub mod crypto;
pub mod fetch;
pub mod json;
pub mod module;
pub mod payload;
pub mod pool;
pub mod validate;
pub mod window;
pub mod worker;

verus! {

/// Capacity of the bounded price window.
pub const NUM_VEC_LEN: usize = 10;

/// Priority granted to an accepted price transaction, above default-priority ones.
pub const UNSIGNED_TXS_PRIORITY: u64 = 100;

/// Blocks for which an accepted-but-not-included price transaction stays eligible.
pub const UNSIGNED_TXS_LONGEVITY: u64 = 3;

/// Scale factor of the fixed-point price representation.
pub const PRICE_SCALE: u32 = 10000;

/// Deadline of one remote fetch, in milliseconds.
pub const FETCH_TIMEOUT_PERIOD: u64 = 3000;

/// Expiration of the optional per-node fetch lock, in milliseconds.
pub const LOCK_TIMEOUT_EXPIRATION: u64 = FETCH_TIMEOUT_PERIOD + 1000;

/// Expiration of the optional per-node fetch lock, in blocks.
pub const LOCK_BLOCK_EXPIRATION: u32 = 3;

/// Everything that can go wrong in one off-chain round, kept apart by the
/// stage that failed.
#[derive(Clone, Copy, PartialEq, Eq, Structural, Debug)]
pub enum Error {
    /// No usable signing identity is available locally.
    NoLocalAcctForSigning,
    /// Signing or pool submission of the unsigned transaction failed.
    OffchainUnsignedTxSignedPayloadError,
    /// The fetch-and-decode stage failed, whatever the reason.
    HttpFetchingError,
    /// The decoded price string does not parse as a decimal number.
    ParseError,
    /// The remote endpoint answered with a status other than 200.
    WrongRespondCode,
    /// The response body is not the expected JSON document.
    StringToJsonError,
    /// Reading the response bytes from the remote failed.
    GetbytesError,
    /// Sending the request out failed.
    PendingError,
    /// Waiting for the response ran into the deadline.
    DoubleResultOneError,
    /// The transport reported an error after the wait.
    DoubleResultTwoError,
}

} // verus!
