//! The verified half of the public-IP resolver: the fixed echo
//! endpoints and the classification of the echo service's answer. The
//! HTTP GET itself is performed by the surrounding binary.

use vstd::prelude::*;

use crate::api::ClientError;

verus! {

/// The echo endpoint for the requested address family.
pub fn ip_echo_url(ipv6: bool) -> (r: &'static str)
    ensures
        ipv6 ==> r@ == "https://6.ident.me/"@,
        !ipv6 ==> r@ == "https://4.ident.me/"@,
{
    if ipv6 {
        "https://6.ident.me/"
    } else {
        "https://4.ident.me/"
    }
}

/// Classifies the echo service's HTTP status: 2xx passes, anything
/// else fails the IP lookup with the status recorded.
pub fn ip_status_check(status: u16) -> (r: Result<(), ClientError>)
    ensures
        (200 <= status < 300) <==> r is Ok,
        !(200 <= status < 300) ==> r == Err::<(), ClientError>(
            ClientError::IpLookup { status: Some(status) },
        ),
{
    if 200 <= status && status < 300 {
        Ok(())
    } else {
        Err(ClientError::IpLookup { status: Some(status) })
    }
}

} // verus!
