//! Addresses of the identity service.

use vstd::prelude::*;

verus! {

/// The address of a request: the base, the endpoint, then the key as the
/// query.
pub open spec fn request_address(base_url: Seq<char>, endpoint: Seq<char>, api_token: Seq<char>)
    -> Seq<char> {
    base_url + endpoint + "?key="@ + api_token
}

/// Builds the address of a request to an endpoint of the identity service.
pub fn request_url(base_url: &str, endpoint: &str, api_token: &str) -> (r: String)
    ensures
        r@ == request_address(base_url@, endpoint@, api_token@),
{
    base_url.to_owned().concat(endpoint).concat("?key=").concat(api_token)
}

} // verus!
