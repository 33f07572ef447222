//! The routing header set that the transport attaches to every request.
use vstd::prelude::*;
use vstd::string::StringSliceAdditionalSpecFns;
use reqwest::header::{HeaderMap, HeaderValue, InvalidHeaderValue};
use crate::error::ClientError;

verus! {

/// Name of the header that selects the backend route on the gateway.
pub const VIRTUAL_KEY_HEADER: &'static str = "x-portkey-virtual-key";

/// A byte may stand in a header value: visible ASCII, a space, a tab, or any byte of 0x80
/// and above.
pub open spec fn is_header_value_byte(b: u8) -> bool {
    (b >= 32 && b != 127) || b == 9
}

/// Every byte of `bytes` may stand in a header value.
pub open spec fn valid_header_value(bytes: Seq<u8>) -> bool {
    forall|i: int| 0 <= i < bytes.len() ==> is_header_value_byte(#[trigger] bytes[i])
}

#[verifier::external_type_specification]
#[verifier::external_body]
pub struct ExHeaderValue(HeaderValue);

#[verifier::external_type_specification]
#[verifier::external_body]
pub struct ExInvalidHeaderValue(InvalidHeaderValue);

/// The bytes that a header value holds (a header value is a byte string).
pub uninterp spec fn header_value_bytes(v: HeaderValue) -> Seq<u8>;

/// Relies on http's `HeaderValue::from_str`: it refuses the string exactly when one of its
/// bytes is not a header-value byte, and otherwise copies the bytes unchanged.
pub assume_specification[ HeaderValue::from_str ](src: &str) -> (r: Result<
    HeaderValue,
    InvalidHeaderValue,
>)
    ensures
        r is Ok <==> valid_header_value(src.spec_bytes()),
        r is Ok ==> header_value_bytes(r->Ok_0) == src.spec_bytes(),
;

/// A byte may stand in a header name given as a static string: a lower-case ASCII letter, a
/// digit or a hyphen.
pub open spec fn is_lower_name_byte(b: u8) -> bool {
    (97 <= b <= 122) || (48 <= b <= 57) || b == 45
}

/// `bytes` is a header name that http takes from a static string as it stands: one to 64
/// bytes, each of them a lower-case letter, a digit or a hyphen.
pub open spec fn valid_static_header_name(bytes: Seq<u8>) -> bool {
    &&& 1 <= bytes.len() <= 64
    &&& forall|i: int| 0 <= i < bytes.len() ==> is_lower_name_byte(#[trigger] bytes[i])
}

#[verifier::external_type_specification]
#[verifier::external_body]
#[verifier::reject_recursive_types(T)]
pub struct ExHeaderMap<T>(HeaderMap<T>);

/// What a header map holds: for each header name (its bytes), the bytes of its values in the
/// order they were added.
pub uninterp spec fn header_entries(m: HeaderMap) -> Map<Seq<u8>, Seq<Seq<u8>>>;

/// Relies on http's `HeaderMap::new`: the new map is empty.
pub assume_specification[ HeaderMap::<HeaderValue>::new ]() -> (r: HeaderMap)
    ensures
        header_entries(r).dom() == Set::<Seq<u8>>::empty(),
;

/// Relies on http's `HeaderMap::insert` with a static name: the name, already in lower case,
/// now maps to this one value, and all its earlier values are gone. The name must be valid and
/// the map far below its maximal size, else the call panics.
#[verifier::external_body]
fn insert_header(m: &mut HeaderMap, name: &'static str, value: HeaderValue)
    requires
        valid_static_header_name(name.spec_bytes()),
        header_entries(*old(m)).dom().finite(),
        header_entries(*old(m)).dom().len() < 1024,
    ensures
        header_entries(*final(m)) == header_entries(*old(m)).insert(
            name.spec_bytes(),
            seq![header_value_bytes(value)],
        ),
{
    m.insert(name, value);
}

/// The header set that routes a request to the backend of `virtual_key` (given as bytes): the
/// routing header with that one value, and nothing else.
pub open spec fn routing_headers(virtual_key: Seq<u8>) -> Map<Seq<u8>, Seq<Seq<u8>>> {
    map![VIRTUAL_KEY_HEADER.spec_bytes() => seq![virtual_key]]
}

proof fn lemma_virtual_key_header_name_valid()
    ensures
        valid_static_header_name(VIRTUAL_KEY_HEADER.spec_bytes()),
{
    reveal_strlit("x-portkey-virtual-key");
    let chars = VIRTUAL_KEY_HEADER@;
    assert(vstd::utf8::is_ascii_chars(chars));
    vstd::utf8::is_ascii_chars_encode_utf8(chars);
}

/// Builds the header set that the transport attaches to every request: the routing header
/// with `virtual_key` as its value. Fails with `HeaderEncoding`, and builds nothing, exactly
/// when `virtual_key` holds a byte that may not stand in a header value.
pub fn virtual_key_headers(virtual_key: &str) -> (r: Result<HeaderMap, ClientError>)
    ensures
        r is Err <==> !valid_header_value(virtual_key.spec_bytes()),
        r is Err ==> r->Err_0 == ClientError::HeaderEncoding,
        r is Ok ==> header_entries(r->Ok_0) == routing_headers(virtual_key.spec_bytes()),
{
    let value = match HeaderValue::from_str(virtual_key) {
        Ok(v) => v,
        Err(_) => return Err(ClientError::HeaderEncoding),
    };
    let mut headers = HeaderMap::new();
    proof {
        lemma_virtual_key_header_name_valid();
    }
    insert_header(&mut headers, VIRTUAL_KEY_HEADER, value);
    assert(header_entries(headers) =~= routing_headers(virtual_key.spec_bytes()));
    Ok(headers)
}

} // verus!
