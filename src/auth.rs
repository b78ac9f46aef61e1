use vstd::prelude::*;
use crate::config::Config;
use crate::text::{concat, str_eq};

verus! {

/// Whether `auth_header` presents `api_token` as a bearer token. Without a
/// non-empty token on both sides, access is refused.
pub open spec fn authorized(auth_header: Option<Seq<char>>, api_token: Option<Seq<char>>) -> bool {
    match (api_token, auth_header) {
        (Some(token), Some(header)) => token.len() > 0 && header.len() > 0 && header == "Bearer "@
            + token,
        _ => false,
    }
}

pub open spec fn str_opt_view(o: Option<&str>) -> Option<Seq<char>> {
    match o {
        Some(s) => Some(s@),
        None => None,
    }
}

/// Authentication of update requests.
pub struct AuthUtils;

impl AuthUtils {
    /// Checks the request's `Authorization` header against the configured token.
    pub fn check_auth(auth_header: Option<&str>, config: &Config) -> (r: bool)
        ensures
            r == authorized(
                str_opt_view(auth_header),
                match config.api_token {
                    Some(t) => Some(t@),
                    None => None,
                },
            ),
    {
        let token = match &config.api_token {
            Some(t) => Some(t.as_str()),
            None => None,
        };
        Self::check_auth_with_token(auth_header, token)
    }

    /// Validates a bearer token: the header must be exactly "Bearer " and the token.
    pub fn check_auth_with_token(auth_header: Option<&str>, api_token: Option<&str>) -> (r: bool)
        ensures
            r == authorized(str_opt_view(auth_header), str_opt_view(api_token)),
    {
        match (api_token, auth_header) {
            (Some(token), Some(header)) => {
                if token.unicode_len() == 0 || header.unicode_len() == 0 {
                    return false;
                }
                let expected = concat("Bearer ", token);
                str_eq(header, expected.as_str())
            },
            _ => false,
        }
    }
}

} // verus!
