//! The admission validator: the rule every node applies to a candidate
//! transaction before letting it into its pending pool. Only the recognized
//! price-submission operation is accepted, only with a signature that
//! verifies, and then with a fixed priority, a de-duplication tag, a short
//! longevity, and leave to propagate.

use vstd::prelude::*;

use crate::UNSIGNED_TXS_LONGEVITY;
use crate::UNSIGNED_TXS_PRIORITY;
use crate::crypto::signature_verifies;
use crate::payload::Payload;

verus! {

/// Where a candidate transaction came from. The validator's verdict does not
/// depend on it.
#[derive(Clone, Copy, PartialEq, Eq, Structural, Debug)]
pub enum TransactionSource {
    InBlock,
    Local,
    External,
}

/// A dispatchable operation of the module, as carried by a transaction.
#[derive(Clone, Copy, PartialEq, Eq, Debug)]
pub enum Call {
    /// The recognized operation: submit a signed price payload without a
    /// fee-paying origin.
    SubmitPriceUnsignedWithSignedPayload { payload: Payload, signature: [u8; 64] },
    /// Any other dispatch of the surrounding runtime; none carries a signed
    /// price payload.
    Other,
}

/// The de-duplication token: every price-submission transaction provides the
/// same tag, so a pool retains at most one of them as pending at a time.
#[derive(Clone, Copy, PartialEq, Eq, Structural, Debug)]
pub enum ProvidesTag {
    SubmitPriceUnsignedWithSignedPayload,
}

/// The verdict on an accepted transaction.
#[derive(Clone, Copy, PartialEq, Eq, Structural, Debug)]
pub struct ValidTransaction {
    pub priority: u64,
    pub provides: ProvidesTag,
    pub longevity: u64,
    pub propagate: bool,
}

/// Why a candidate transaction is rejected.
#[derive(Clone, Copy, PartialEq, Eq, Structural, Debug)]
pub enum InvalidTransaction {
    /// The declared operation is not the recognized one.
    Call,
    /// The attached signature does not verify against payload and declared
    /// origin identity.
    BadProof,
}

pub type TransactionValidity = Result<ValidTransaction, InvalidTransaction>;

/// The verdict the validator owes each call: rejection with `Call` for an
/// unrecognized operation, rejection with `BadProof` for a signature that
/// does not verify, and otherwise acceptance with the fixed priority, the
/// shared tag, the fixed longevity, and propagation allowed.
pub open spec fn spec_validate_unsigned(call: Call) -> TransactionValidity {
    match call {
        Call::SubmitPriceUnsignedWithSignedPayload { payload, signature } => {
            if signature_verifies(payload.spec_public()@, payload.encoding(), signature@) {
                Ok(
                    ValidTransaction {
                        priority: UNSIGNED_TXS_PRIORITY,
                        provides: ProvidesTag::SubmitPriceUnsignedWithSignedPayload,
                        longevity: UNSIGNED_TXS_LONGEVITY,
                        propagate: true,
                    },
                )
            } else {
                Err(InvalidTransaction::BadProof)
            }
        },
        Call::Other => Err(InvalidTransaction::Call),
    }
}

/// The signature gate as a law: a price-submission transaction is accepted
/// exactly when its signature verifies against the payload's encoding and
/// its declared identity; one whose signature does not verify — such as a
/// payload altered after signing — is rejected with `BadProof`.
pub proof fn lemma_signature_gate(payload: Payload, signature: [u8; 64])
    ensures
        spec_validate_unsigned(
            Call::SubmitPriceUnsignedWithSignedPayload { payload, signature },
        ) is Ok <==> signature_verifies(payload.spec_public()@, payload.encoding(), signature@),
        !signature_verifies(payload.spec_public()@, payload.encoding(), signature@)
            ==> spec_validate_unsigned(
            Call::SubmitPriceUnsignedWithSignedPayload { payload, signature },
        ) == Err::<ValidTransaction, InvalidTransaction>(InvalidTransaction::BadProof),
{
}

/// Decide whether a candidate transaction may enter a pending pool. A pure
/// function of the call; the source plays no part in the verdict.
pub fn validate_unsigned(_source: TransactionSource, call: &Call) -> (r: TransactionValidity)
    ensures
        r == spec_validate_unsigned(*call),
{
    match call {
        Call::SubmitPriceUnsignedWithSignedPayload { payload, signature } => {
            if !payload.verify(signature) {
                return Err(InvalidTransaction::BadProof);
            }
            Ok(
                ValidTransaction {
                    priority: UNSIGNED_TXS_PRIORITY,
                    provides: ProvidesTag::SubmitPriceUnsignedWithSignedPayload,
                    longevity: UNSIGNED_TXS_LONGEVITY,
                    propagate: true,
                },
            )
        },
        Call::Other => Err(InvalidTransaction::Call),
    }
}

} // verus!
