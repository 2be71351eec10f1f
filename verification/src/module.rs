//! The on-ledger side: the owned state (the bounded price window and the
//! emitted events) and the one dispatchable operation that mutates it. The
//! signature is checked again at execution time, before any state changes;
//! the window mutation and the event emission happen together or not at all.

use vstd::prelude::*;

use crate::crypto::signature_verifies;
use crate::payload::Payload;
use crate::window::PriceWindow;
use crate::window::evict_append;

verus! {

/// Where a dispatch came from. The price submission is accepted only without
/// an originating account.
#[derive(Clone, Copy, PartialEq, Eq, Debug)]
pub enum Origin {
    /// No fee-paying account: the transaction came in unsigned.
    Unsigned,
    /// A signed dispatch from the given account.
    Signed([u8; 32]),
}

/// An observable event of the module.
#[derive(Clone, Copy, PartialEq, Eq, Debug)]
pub enum Event {
    /// A new price was accepted into the window, submitted by the identity.
    NewPrice(Option<[u8; 32]>, u32),
}

/// Why a dispatch was refused.
#[derive(Clone, Copy, PartialEq, Eq, Structural, Debug)]
pub enum DispatchError {
    /// The dispatch did not come in as an unsigned transaction.
    BadOrigin,
    /// The payload's signature does not verify at execution time.
    BadProof,
}

/// The module's owned ledger state.
pub struct Module {
    prices: PriceWindow,
    events: Vec<Event>,
}

impl Module {
    pub closed spec fn spec_prices(&self) -> Seq<u32> {
        self.prices@
    }

    pub closed spec fn spec_events(&self) -> Seq<Event> {
        self.events@
    }

    pub closed spec fn wf(&self) -> bool {
        self.prices.wf()
    }

    pub fn new() -> (m: Module)
        ensures
            m.spec_prices() == Seq::<u32>::empty(),
            m.spec_events() == Seq::<Event>::empty(),
            m.wf(),
    {
        Module { prices: PriceWindow::new(), events: Vec::new() }
    }

    /// The stored window of recent prices.
    pub fn prices(&self) -> (r: &PriceWindow)
        ensures
            r@ == self.spec_prices(),
    {
        &self.prices
    }

    /// The events emitted so far, in order.
    pub fn events(&self) -> (r: &Vec<Event>)
        ensures
            r@ == self.spec_events(),
    {
        &self.events
    }

    /// Execute the price submission: only for an unsigned origin, only after
    /// the payload's signature verifies against its declared identity; then
    /// the window takes the price and the event is emitted, atomically.
    pub fn submit_price_unsigned_with_signed_payload(
        &mut self,
        origin: Origin,
        payload: Payload,
        signature: [u8; 64],
    ) -> (r: Result<(), DispatchError>)
        requires
            old(self).wf(),
        ensures
            final(self).wf(),
            !(origin matches Origin::Unsigned) ==> r == Err::<(), DispatchError>(
                DispatchError::BadOrigin,
            ) && final(self).spec_prices() == old(self).spec_prices() && final(self).spec_events()
                == old(self).spec_events(),
            (origin matches Origin::Unsigned && !signature_verifies(
                payload.spec_public()@,
                payload.encoding(),
                signature@,
            )) ==> r == Err::<(), DispatchError>(DispatchError::BadProof)
                && final(self).spec_prices() == old(self).spec_prices()
                && final(self).spec_events() == old(self).spec_events(),
            (origin matches Origin::Unsigned && signature_verifies(
                payload.spec_public()@,
                payload.encoding(),
                signature@,
            )) ==> r == Ok::<(), DispatchError>(()) && final(self).spec_prices() == evict_append(
                old(self).spec_prices(),
                payload.spec_price(),
            ) && final(self).spec_events() == old(self).spec_events().push(
                Event::NewPrice(Some(payload.spec_public()), payload.spec_price()),
            ),
    {
        match origin {
            Origin::Unsigned => {},
            _ => {
                return Err(DispatchError::BadOrigin);
            },
        }
        if !payload.verify(&signature) {
            return Err(DispatchError::BadProof);
        }
        let price = payload.price();
        self.prices.append_or_replace_price(price);
        self.events.push(Event::NewPrice(Some(payload.public()), price));
        Ok(())
    }
}

} // verus!
