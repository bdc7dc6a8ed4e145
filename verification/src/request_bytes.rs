//! The GET request of `request` as the bytes written to the socket.
use vstd::prelude::*;
use vstd::string::*;
use vstd::utf8::encode_utf8;
use crate::request::request_text;

verus! {

/// The UTF-8 bytes of the GET request for `url_part` (everything after the
/// host, such as `/1000/hello`).
pub fn get_req(url_part: &str) -> (req: Vec<u8>)
    ensures
        req@ == encode_utf8(request_text(url_part@)),
{
    let text = crate::request::get_req(url_part);
    text.as_str().as_bytes_vec()
}

} // verus!
