//! The off-chain round, run once per block: fetch, convert, note the price
//! in the node's local window, then build the signed payload and offer the
//! unsigned transaction to the pool. Any failure aborts the round with the
//! responsible error kind and leaves no partial state behind; the local
//! window append is advisory only — the on-ledger window is the
//! authoritative one.

use vstd::prelude::*;

use crate::Error;
use crate::UNSIGNED_TXS_LONGEVITY;
use crate::UNSIGNED_TXS_PRIORITY;
use crate::convert::parse_price;
use crate::convert::vec_to_u32;
use crate::crypto::TestAuthId;
use crate::crypto::public_of;
use crate::crypto::signature_of;
use crate::fetch::FetchOutcome;
use crate::json::parse_get_price_spec;
use crate::json::parse_get_price_struct;
use crate::payload::Payload;
use crate::pool::TransactionPool;
use crate::pool::remove_tag;
use crate::validate::Call;
use crate::validate::ProvidesTag;
use crate::validate::TransactionSource;
use crate::window::PriceWindow;
use crate::window::evict_append;

verus! {

/// The price one round obtains, or the error that ends it: any failure of
/// the fetch-and-decode stage surfaces as `HttpFetchingError`, a price
/// string that is no decimal number as `ParseError`.
pub open spec fn spec_round_price(outcome: FetchOutcome) -> Result<u32, Error> {
    match parse_get_price_spec(outcome) {
        Ok(bytes) => match parse_price(bytes) {
            Some(p) => Ok(p),
            None => Err(Error::ParseError),
        },
        Err(_) => Err(Error::HttpFetchingError),
    }
}

/// One round of the worker: on success the local window has taken the
/// price and the pool holds, in the one tag slot, the freshly signed
/// payload transaction accepted at `block_number`. With no local signing
/// identity the round ends with `NoLocalAcctForSigning` after the advisory
/// window append; a failed round leaves the pool unchanged.
pub fn offchain_unsigned_tx_signed_payload(
    block_number: u64,
    outcome: FetchOutcome,
    seed: Option<&[u8; 32]>,
    local_prices: &mut PriceWindow,
    pool: &mut TransactionPool,
) -> (r: Result<(), Error>)
    requires
        old(local_prices).wf(),
        old(pool).wf(),
    ensures
        final(local_prices).wf(),
        final(pool).wf(),
        spec_round_price(outcome) matches Err(e) ==> r == Err::<(), Error>(e)
            && final(local_prices)@ == old(local_prices)@ && final(pool)@ == old(pool)@,
        spec_round_price(outcome) matches Ok(p) ==> final(local_prices)@ == evict_append(
            old(local_prices)@,
            p,
        ),
        spec_round_price(outcome) matches Ok(p) ==> (seed is None ==> r == Err::<(), Error>(
            Error::NoLocalAcctForSigning,
        ) && final(pool)@ == old(pool)@),
        spec_round_price(outcome) matches Ok(p) ==> (seed matches Some(s) ==> r == Ok::<
            (),
            Error,
        >(()) && ({
            let entry = final(pool)@.last();
            &&& final(pool)@ == remove_tag(
                old(pool)@,
                ProvidesTag::SubmitPriceUnsignedWithSignedPayload,
            ).push(entry)
            &&& entry.call matches Call::SubmitPriceUnsignedWithSignedPayload {
                payload,
                signature,
            } && payload.spec_price() == p && payload.spec_public()@ == public_of(s@)
                && signature@ == signature_of(s@, payload.encoding())
            &&& entry.provides == ProvidesTag::SubmitPriceUnsignedWithSignedPayload
            &&& entry.priority == UNSIGNED_TXS_PRIORITY
            &&& entry.longevity == UNSIGNED_TXS_LONGEVITY
            &&& entry.propagate
            &&& entry.accepted_at == block_number
        })),
{
    let price_struct = match parse_get_price_struct(outcome) {
        Ok(p) => p,
        Err(_) => {
            return Err(Error::HttpFetchingError);
        },
    };
    let price_u32 = match vec_to_u32(price_struct.price_usd) {
        Ok(p) => p,
        Err(_) => {
            return Err(Error::ParseError);
        },
    };
    local_prices.append_or_replace_price(price_u32);
    let s = match seed {
        Some(s) => s,
        None => {
            return Err(Error::NoLocalAcctForSigning);
        },
    };
    let public = TestAuthId::public(s);
    let payload = Payload::new(price_u32, public);
    let signature = payload.sign(s);
    let call = Call::SubmitPriceUnsignedWithSignedPayload { payload, signature };
    match pool.submit(TransactionSource::Local, call, block_number) {
        Ok(_) => Ok(()),
        Err(_) => Err(Error::OffchainUnsignedTxSignedPayloadError),
    }
}

} // verus!
