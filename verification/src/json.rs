//! Decoding the fetched response: the body is a JSON document whose only
//! consumed field is the string under `data` -> `priceUsd`. JSON parsing
//! itself is a black box of serde_json; everything around it is verified.

use vstd::prelude::*;

use crate::Error;
use crate::fetch::FetchOutcome;
use crate::fetch::fetch_from_remote;
use crate::fetch::fetch_spec;

verus! {

/// The `data`.`priceUsd` string of the JSON document in `body`, as bytes, or
/// `None` when the bytes are not such a document. A function of the bytes
/// alone.
pub uninterp spec fn price_field(body: Seq<u8>) -> Option<Seq<u8>>;

/// Relies on serde_json::from_slice, serde_json::Value::get and
/// serde_json::Value::as_str: parsing the document and reading the string
/// field `data`.`priceUsd` depend on the input bytes alone, and each step
/// returns `None` (an error for `from_slice`) exactly when the document,
/// the field, or the string form is missing.
#[verifier::external_body]
fn json_price_field(body: &[u8]) -> (r: Option<Vec<u8>>)
    ensures
        r is Some <==> price_field(body@) is Some,
        r matches Some(v) ==> price_field(body@) == Some(v@),
{
    let doc: serde_json::Value = match serde_json::from_slice(body) {
        Ok(doc) => doc,
        Err(_) => return None,
    };
    let data = match doc.get("data") { Some(data) => data, None => return None };
    let price = match data.get("priceUsd") { Some(p) => p, None => return None };
    match price.as_str() {
        Some(s) => Some(s.as_bytes().to_vec()),
        None => None,
    }
}

/// The decoded response: the decimal price string as fetched.
pub struct Price {
    pub price_usd: Vec<u8>,
}

/// What fetching-and-decoding yields for each outcome: the price string of a
/// well-formed 200 response; `GetbytesError` when the fetch stage failed;
/// `StringToJsonError` when the body is not the expected document.
pub open spec fn parse_get_price_spec(outcome: FetchOutcome) -> Result<Seq<u8>, Error> {
    match fetch_spec(outcome) {
        Ok(body) => match price_field(body) {
            Some(v) => Ok(v),
            None => Err(Error::StringToJsonError),
        },
        Err(_) => Err(Error::GetbytesError),
    }
}

/// Fetch from remote and decode the JSON document into the price string.
pub fn parse_get_price_struct(outcome: FetchOutcome) -> (r: Result<Price, Error>)
    ensures
        r matches Ok(p) ==> parse_get_price_spec(outcome) == Ok::<Seq<u8>, Error>(p.price_usd@),
        r matches Err(e) ==> parse_get_price_spec(outcome) == Err::<Seq<u8>, Error>(e),
{
    let resp_bytes = match fetch_from_remote(outcome) {
        Ok(b) => b,
        Err(_) => return Err(Error::GetbytesError),
    };
    match json_price_field(resp_bytes.as_slice()) {
        Some(v) => Ok(Price { price_usd: v }),
        None => Err(Error::StringToJsonError),
    }
}

} // verus!
