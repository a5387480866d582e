//! Extraction of a bearer credential from an `Authorization` header value.
use axum::headers::authorization::Bearer;
use axum::headers::{Authorization, Header};
use vstd::prelude::*;

verus! {

/// A byte that may stand in a header value read as text: visible ASCII or tab.
pub open spec fn is_visible_ascii(b: u8) -> bool {
    (32 <= b && b < 127) || b == 9
}

/// The scheme word `Bearer`, as bytes.
pub open spec fn bearer_scheme() -> Seq<u8> {
    seq![66u8, 101u8, 97u8, 114u8, 101u8, 114u8]
}

/// The token that a header value carries under the bearer scheme: the value
/// must be text, start with `Bearer` and a space, and hold at least one byte
/// more; the token is everything after that space.
pub open spec fn bearer_token_of(v: Seq<u8>) -> Option<Seq<char>> {
    if v.len() > 6 && v.subrange(0, 6) == bearer_scheme() && v[6] == 32 && forall|i: int|
        0 <= i < v.len() ==> is_visible_ascii(#[trigger] v[i]) {
        Some(v.subrange(7, v.len() as int).map_values(|b: u8| b as char))
    } else {
        None
    }
}

/// Relies on the `headers` crate (through axum) to decode an
/// `Authorization<Bearer>` header from one value, and on `Bearer::token` for
/// what follows the scheme. The value must also be a valid `HeaderValue`,
/// which every text value is.
#[verifier::external_body]
fn decode_bearer(value: &[u8]) -> (r: Option<String>)
    ensures
        match r {
            Some(t) => bearer_token_of(value@) == Some(t@),
            None => bearer_token_of(value@) is None,
        },
{
    let value = axum::http::HeaderValue::from_bytes(value).ok()?;
    let header = Authorization::<Bearer>::decode(&mut std::iter::once(&value)).ok()?;
    Some(header.token().to_owned())
}

/// The bearer credential presented with a request, if any: `None` where the
/// request has no `Authorization` value or the value is not a bearer
/// credential.
pub fn bearer_credential(authorization: &Option<Vec<u8>>) -> (r: Option<String>)
    ensures
        match authorization {
            None => r is None,
            Some(v) => match r {
                Some(t) => bearer_token_of(v@) == Some(t@),
                None => bearer_token_of(v@) is None,
            },
        },
{
    match authorization {
        None => None,
        Some(v) => decode_bearer(v.as_slice()),
    }
}

} // verus!
