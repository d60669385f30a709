use vstd::prelude::*;

verus! {

/// Request line and header name before the host.
pub const GET_ROOT_HEAD: &'static str = "GET / HTTP/1.1\r\nHost: ";

/// End of the host header and of the request.
pub const GET_ROOT_TAIL: &'static str = "\r\n\r\n";

/// The HTTP/1.1 request for `/` sent to `host` over a plain TCP stream.
pub fn http_get_request(host: &str) -> (r: String)
    ensures
        r@ == GET_ROOT_HEAD@ + host@ + GET_ROOT_TAIL@,
{
    let mut r = String::from_str(GET_ROOT_HEAD);
    r.append(host);
    r.append(GET_ROOT_TAIL);
    r
}

} // verus!
