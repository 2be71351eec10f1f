use ocw_demo::Error;
use ocw_demo::convert::vec_to_u32;
use ocw_demo::fetch::FetchOutcome;
use ocw_demo::fetch::fetch_from_remote;
use ocw_demo::json::parse_get_price_struct;
use ocw_demo::window::PriceWindow;

#[test]
fn convert_scales_four_decimals() {
    assert_eq!(vec_to_u32(b"41.9234".to_vec()), Ok(419234));
}

#[test]
fn convert_scales_integer() {
    assert_eq!(vec_to_u32(b"100".to_vec()), Ok(1000000));
}

#[test]
fn convert_rejects_malformed() {
    assert_eq!(vec_to_u32(b"abc".to_vec()), Err(Error::ParseError));
}

#[test]
fn convert_truncates_extra_digits() {
    assert_eq!(vec_to_u32(b"1.23456".to_vec()), Ok(12345));
}

#[test]
fn convert_pads_short_fraction() {
    assert_eq!(vec_to_u32(b".5".to_vec()), Ok(5000));
    assert_eq!(vec_to_u32(b"12.".to_vec()), Ok(120000));
    assert_eq!(vec_to_u32(b"3.07".to_vec()), Ok(30700));
}

#[test]
fn convert_rejects_signs_and_dots_alone() {
    assert_eq!(vec_to_u32(b"".to_vec()), Err(Error::ParseError));
    assert_eq!(vec_to_u32(b".".to_vec()), Err(Error::ParseError));
    assert_eq!(vec_to_u32(b"+".to_vec()), Err(Error::ParseError));
    assert_eq!(vec_to_u32(b"-.".to_vec()), Err(Error::ParseError));
    assert_eq!(vec_to_u32(b"1.2.3".to_vec()), Err(Error::ParseError));
    assert_eq!(vec_to_u32(b"4 2".to_vec()), Err(Error::ParseError));
}

#[test]
fn convert_clamps_negative_to_zero() {
    assert_eq!(vec_to_u32(b"-1.5".to_vec()), Ok(0));
}

#[test]
fn convert_accepts_plus_sign() {
    assert_eq!(vec_to_u32(b"+2".to_vec()), Ok(20000));
}

#[test]
fn convert_saturates_at_u32_max() {
    assert_eq!(vec_to_u32(b"429496.7295".to_vec()), Ok(4294967295));
    assert_eq!(vec_to_u32(b"429497".to_vec()), Ok(4294967295));
    assert_eq!(vec_to_u32(b"99999999999999999999".to_vec()), Ok(4294967295));
}

#[test]
fn window_keeps_last_ten() {
    let mut w = PriceWindow::new();
    for v in 0u32..15u32 {
        w.append_or_replace_price(v);
    }
    assert_eq!(w.len(), 10);
    assert_eq!(w.prices(), &vec![5u32, 6, 7, 8, 9, 10, 11, 12, 13, 14]);
}

#[test]
fn window_below_capacity_keeps_all() {
    let mut w = PriceWindow::new();
    w.append_or_replace_price(7);
    w.append_or_replace_price(8);
    w.append_or_replace_price(9);
    assert_eq!(w.prices(), &vec![7u32, 8, 9]);
}

#[test]
fn fetch_timeout_is_an_ordinary_error() {
    assert_eq!(fetch_from_remote(FetchOutcome::TimedOut), Err(Error::DoubleResultOneError));
}

#[test]
fn fetch_failures_map_to_their_stage() {
    assert_eq!(fetch_from_remote(FetchOutcome::SendFailed), Err(Error::PendingError));
    assert_eq!(fetch_from_remote(FetchOutcome::TransportFailed), Err(Error::DoubleResultTwoError));
}

#[test]
fn fetch_rejects_non_200_status() {
    let outcome = FetchOutcome::Completed { code: 404, body: b"not found".to_vec() };
    assert_eq!(fetch_from_remote(outcome), Err(Error::WrongRespondCode));
}

#[test]
fn fetch_hands_on_the_body_of_a_200() {
    let outcome = FetchOutcome::Completed { code: 200, body: b"hello".to_vec() };
    assert_eq!(fetch_from_remote(outcome), Ok(b"hello".to_vec()));
}

#[test]
fn decode_reads_the_nested_price_string() {
    let body = b"{\"data\":{\"priceUsd\":\"42.0000\"}}".to_vec();
    let outcome = FetchOutcome::Completed { code: 200, body };
    let price = parse_get_price_struct(outcome).unwrap();
    assert_eq!(price.price_usd, b"42.0000".to_vec());
}

#[test]
fn decode_rejects_missing_field() {
    let body = b"{\"data\":{\"volumeUsd\":\"42.0000\"}}".to_vec();
    let outcome = FetchOutcome::Completed { code: 200, body };
    assert!(matches!(parse_get_price_struct(outcome), Err(Error::StringToJsonError)));
}

#[test]
fn decode_rejects_malformed_document() {
    let outcome = FetchOutcome::Completed { code: 200, body: b"{not json".to_vec() };
    assert!(matches!(parse_get_price_struct(outcome), Err(Error::StringToJsonError)));
    let outcome = FetchOutcome::Completed { code: 200, body: vec![0xff, 0xfe] };
    assert!(matches!(parse_get_price_struct(outcome), Err(Error::StringToJsonError)));
}

#[test]
fn decode_rejects_a_numeric_price() {
    let body = b"{\"data\":{\"priceUsd\":42.0}}".to_vec();
    let outcome = FetchOutcome::Completed { code: 200, body };
    assert!(matches!(parse_get_price_struct(outcome), Err(Error::StringToJsonError)));
}

#[test]
fn decode_reports_a_failed_fetch() {
    assert!(matches!(parse_get_price_struct(FetchOutcome::SendFailed), Err(Error::GetbytesError)));
}
