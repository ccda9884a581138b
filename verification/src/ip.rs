//! Reading the host's public IPv4 address from an ipify-style service.
use vstd::prelude::*;

use crate::text::{
    is_white_space, law_trim_leaves_no_edge_space, law_trim_removes_only_edge_space, trim, trim_end_char_seq, trim_seq,
    trim_trailing_slashes,
};

verus! {

/// What can go wrong while asking for the public address.
#[derive(Debug, Clone, PartialEq, Eq)]
pub enum IpError {
    /// The HTTP exchange failed; the text is the transport's own message.
    Request(String),
    /// The service answered with nothing but white space.
    Empty,
}

/// The text that describes `e` to a reader.
pub open spec fn ip_error_text(e: IpError) -> Seq<char> {
    match e {
        IpError::Request(m) => "failed to fetch public IP: "@ + m@,
        IpError::Empty => "ipify returned empty body"@,
    }
}

impl IpError {
    /// The text that describes this error to a reader.
    pub fn message(&self) -> (text: String)
        ensures
            text@ == ip_error_text(*self),
    {
        match self {
            IpError::Request(m) => {
                let mut t = String::from_str("failed to fetch public IP: ");
                t.append(m.as_str());
                t
            },
            IpError::Empty => String::from_str("ipify returned empty body"),
        }
    }
}

/// The address the public IP is asked from: `base_url` without trailing slashes.
pub fn ip_service_url(base_url: &str) -> (url: String)
    ensures
        url@ == trim_end_char_seq(base_url@, '/'),
{
    trim_trailing_slashes(base_url)
}

/// The public address in the service's answer: the body without surrounding
/// white space, or `Empty` when nothing else is left.
pub fn public_ip_from_body(body: &str) -> (res: Result<String, IpError>)
    ensures
        trim_seq(body@).len() == 0 ==> res == Err::<String, IpError>(IpError::Empty),
        trim_seq(body@).len() > 0 ==> (res matches Ok(ip) && ip@ == trim_seq(body@)),
        res matches Ok(ip) ==> !is_white_space(ip@[0]) && !is_white_space(ip@.last()),
        (res is Ok) == (exists|k: int| 0 <= k < body@.len() && !is_white_space(body@[k])),
{
    proof {
        law_trim_leaves_no_edge_space(body@);
        law_trim_removes_only_edge_space(body@);
    }
    let ip = trim(body);
    if ip.as_str().is_empty() {
        return Err(IpError::Empty);
    }
    Ok(ip)
}

} // verus!
