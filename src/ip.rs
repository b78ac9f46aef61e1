use vstd::prelude::*;

verus! {

/// A client address that parsed as IPv4 or IPv6, in its canonical text.
#[derive(Debug)]
pub enum IpAddress {
    V4(String),
    V6(String),
}

/// Address utilities.
pub struct IpUtils;

impl IpUtils {
    /// Splits a parsed client address into its IPv4 and IPv6 candidates: the
    /// family it does not belong to is empty, and so are both when it did not parse.
    pub fn split_ip(ip: Option<IpAddress>) -> (r: (String, String))
        ensures
            match ip {
                Some(IpAddress::V4(a)) => r.0@ == a@ && r.1@.len() == 0,
                Some(IpAddress::V6(a)) => r.0@.len() == 0 && r.1@ == a@,
                None => r.0@.len() == 0 && r.1@.len() == 0,
            },
    {
        match ip {
            Some(IpAddress::V4(a)) => (a, String::new()),
            Some(IpAddress::V6(a)) => (String::new(), a),
            None => (String::new(), String::new()),
        }
    }
}

} // verus!
