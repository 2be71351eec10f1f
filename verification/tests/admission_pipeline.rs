use ocw_demo::Error;
use ocw_demo::crypto::TestAuthId;
use ocw_demo::fetch::FetchOutcome;
use ocw_demo::module::DispatchError;
use ocw_demo::module::Event;
use ocw_demo::module::Module;
use ocw_demo::module::Origin;
use ocw_demo::payload::Payload;
use ocw_demo::pool::TransactionPool;
use ocw_demo::validate::Call;
use ocw_demo::validate::InvalidTransaction;
use ocw_demo::validate::ProvidesTag;
use ocw_demo::validate::TransactionSource;
use ocw_demo::validate::validate_unsigned;
use ocw_demo::window::PriceWindow;
use ocw_demo::worker::offchain_unsigned_tx_signed_payload;

fn price_body(price: &str) -> FetchOutcome {
    let body = format!("{{\"data\":{{\"priceUsd\":\"{}\"}}}}", price).into_bytes();
    FetchOutcome::Completed { code: 200, body }
}

#[test]
fn payload_encodes_price_le_then_public() {
    let payload = Payload::new(0x01020304, [7u8; 32]);
    let mut expected = vec![0x04u8, 0x03, 0x02, 0x01];
    expected.extend_from_slice(&[7u8; 32]);
    assert_eq!(payload.encode(), expected);
}

#[test]
fn validator_accepts_a_correctly_signed_payload() {
    let seed = [1u8; 32];
    let public = TestAuthId::public(&seed);
    let payload = Payload::new(419234, public);
    let signature = payload.sign(&seed);
    let call = Call::SubmitPriceUnsignedWithSignedPayload { payload, signature };
    let verdict = validate_unsigned(TransactionSource::External, &call).unwrap();
    assert_eq!(verdict.priority, 100);
    assert_eq!(verdict.longevity, 3);
    assert!(verdict.propagate);
    assert_eq!(verdict.provides, ProvidesTag::SubmitPriceUnsignedWithSignedPayload);
}

#[test]
fn validator_rejects_a_tampered_payload() {
    let seed = [1u8; 32];
    let public = TestAuthId::public(&seed);
    let payload = Payload::new(419234, public);
    let signature = payload.sign(&seed);
    // the price changes after signing: the old signature must not carry over
    let tampered = Payload::new(419235, public);
    let call = Call::SubmitPriceUnsignedWithSignedPayload { payload: tampered, signature };
    assert_eq!(
        validate_unsigned(TransactionSource::External, &call),
        Err(InvalidTransaction::BadProof)
    );
}

#[test]
fn validator_rejects_a_foreign_identity() {
    let seed = [1u8; 32];
    let other_public = TestAuthId::public(&[2u8; 32]);
    let payload = Payload::new(419234, other_public);
    let signature = payload.sign(&seed);
    let call = Call::SubmitPriceUnsignedWithSignedPayload { payload, signature };
    assert_eq!(
        validate_unsigned(TransactionSource::External, &call),
        Err(InvalidTransaction::BadProof)
    );
}

#[test]
fn validator_rejects_an_unrecognized_operation() {
    assert_eq!(
        validate_unsigned(TransactionSource::External, &Call::Other),
        Err(InvalidTransaction::Call)
    );
}

#[test]
fn pool_keeps_one_transaction_per_tag() {
    let mut pool = TransactionPool::new();
    let seed_a = [1u8; 32];
    let payload_a = Payload::new(100, TestAuthId::public(&seed_a));
    let call_a = Call::SubmitPriceUnsignedWithSignedPayload {
        payload: payload_a,
        signature: payload_a.sign(&seed_a),
    };
    let seed_b = [2u8; 32];
    let payload_b = Payload::new(200, TestAuthId::public(&seed_b));
    let call_b = Call::SubmitPriceUnsignedWithSignedPayload {
        payload: payload_b,
        signature: payload_b.sign(&seed_b),
    };
    pool.submit(TransactionSource::Local, call_a, 1).unwrap();
    pool.submit(TransactionSource::External, call_b, 2).unwrap();
    assert_eq!(pool.pending().len(), 1);
    match pool.pending()[0].call {
        Call::SubmitPriceUnsignedWithSignedPayload { payload, .. } => {
            assert_eq!(payload.price(), 200);
        }
        Call::Other => panic!("wrong call retained"),
    }
}

#[test]
fn pool_refuses_what_the_validator_refuses() {
    let mut pool = TransactionPool::new();
    let payload = Payload::new(100, TestAuthId::public(&[1u8; 32]));
    let call = Call::SubmitPriceUnsignedWithSignedPayload { payload, signature: [0u8; 64] };
    assert_eq!(
        pool.submit(TransactionSource::Local, call, 1),
        Err(InvalidTransaction::BadProof)
    );
    assert_eq!(pool.pending().len(), 0);
}

#[test]
fn accepted_transaction_expires_after_its_longevity() {
    let mut pool = TransactionPool::new();
    let seed = [1u8; 32];
    let payload = Payload::new(100, TestAuthId::public(&seed));
    let call = Call::SubmitPriceUnsignedWithSignedPayload { payload, signature: payload.sign(&seed) };
    pool.submit(TransactionSource::Local, call, 5).unwrap();
    let entry = pool.pending()[0];
    assert!(entry.can_include(5));
    assert!(entry.can_include(6));
    assert!(entry.can_include(7));
    assert!(!entry.can_include(8));
}

#[test]
fn round_aborts_cleanly_on_timeout() {
    let mut window = PriceWindow::new();
    let mut pool = TransactionPool::new();
    let seed = [1u8; 32];
    let r = offchain_unsigned_tx_signed_payload(
        1,
        FetchOutcome::TimedOut,
        Some(&seed),
        &mut window,
        &mut pool,
    );
    assert_eq!(r, Err(Error::HttpFetchingError));
    assert_eq!(window.len(), 0);
    assert_eq!(pool.pending().len(), 0);
}

#[test]
fn round_reports_a_price_that_does_not_parse() {
    let mut window = PriceWindow::new();
    let mut pool = TransactionPool::new();
    let seed = [1u8; 32];
    let r = offchain_unsigned_tx_signed_payload(
        1,
        price_body("abc"),
        Some(&seed),
        &mut window,
        &mut pool,
    );
    assert_eq!(r, Err(Error::ParseError));
    assert_eq!(window.len(), 0);
    assert_eq!(pool.pending().len(), 0);
}

#[test]
fn round_without_an_identity_submits_nothing() {
    let mut window = PriceWindow::new();
    let mut pool = TransactionPool::new();
    let r = offchain_unsigned_tx_signed_payload(
        1,
        price_body("42.0000"),
        None,
        &mut window,
        &mut pool,
    );
    assert_eq!(r, Err(Error::NoLocalAcctForSigning));
    // the advisory local append has already happened by then
    assert_eq!(window.prices(), &vec![420000u32]);
    assert_eq!(pool.pending().len(), 0);
}

#[test]
fn dispatch_requires_an_unsigned_origin() {
    let mut module = Module::new();
    let seed = [1u8; 32];
    let payload = Payload::new(420000, TestAuthId::public(&seed));
    let signature = payload.sign(&seed);
    let r = module.submit_price_unsigned_with_signed_payload(
        Origin::Signed([9u8; 32]),
        payload,
        signature,
    );
    assert_eq!(r, Err(DispatchError::BadOrigin));
    assert_eq!(module.prices().len(), 0);
    assert_eq!(module.events().len(), 0);
}

#[test]
fn dispatch_checks_the_signature_before_any_state_change() {
    let mut module = Module::new();
    let seed = [1u8; 32];
    let payload = Payload::new(420000, TestAuthId::public(&seed));
    let r = module.submit_price_unsigned_with_signed_payload(
        Origin::Unsigned,
        payload,
        [0u8; 64],
    );
    assert_eq!(r, Err(DispatchError::BadProof));
    assert_eq!(module.prices().len(), 0);
    assert_eq!(module.events().len(), 0);
}

#[test]
fn fetched_price_reaches_the_ledger_and_its_event() {
    let mut window = PriceWindow::new();
    let mut pool = TransactionPool::new();
    let seed = [1u8; 32];
    let public = TestAuthId::public(&seed);

    let r = offchain_unsigned_tx_signed_payload(
        1,
        price_body("42.0000"),
        Some(&seed),
        &mut window,
        &mut pool,
    );
    assert_eq!(r, Ok(()));
    assert_eq!(window.prices(), &vec![420000u32]);
    assert_eq!(pool.pending().len(), 1);

    // every node re-validates the transaction it received
    let entry = pool.pending()[0];
    assert!(validate_unsigned(TransactionSource::External, &entry.call).is_ok());

    // inclusion executes the dispatch against the ledger state
    let mut module = Module::new();
    match entry.call {
        Call::SubmitPriceUnsignedWithSignedPayload { payload, signature } => {
            let d = module.submit_price_unsigned_with_signed_payload(
                Origin::Unsigned,
                payload,
                signature,
            );
            assert_eq!(d, Ok(()));
        }
        Call::Other => panic!("wrong call in the pool"),
    }
    assert_eq!(module.prices().prices(), &vec![420000u32]);
    assert_eq!(module.events(), &vec![Event::NewPrice(Some(public), 420000)]);
}
