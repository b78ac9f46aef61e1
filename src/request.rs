use vstd::prelude::*;
use crate::text::{contains, has_infix};

verus! {

/// Characters a homename may hold: ASCII letters, `-` and `_`.
pub open spec fn homename_char(c: char) -> bool {
    ('a' <= c && c <= 'z') || ('A' <= c && c <= 'Z') || c == '-' || c == '_'
}

/// A homename is a non-empty run of ASCII letters, `-` and `_`.
pub open spec fn valid_homename(s: Seq<char>) -> bool {
    s.len() > 0 && forall|i: int| 0 <= i < s.len() ==> homename_char(#[trigger] s[i])
}

/// Supported response formats
#[derive(Debug, Clone, Copy, PartialEq, Eq, Structural)]
pub enum Format {
    Text,
    Json,
    Xml,
}

/// Lowercase form of a string, as std's `to_lowercase` gives it.
pub uninterp spec fn lower_of(s: Seq<char>) -> Seq<char>;

/// Relies on str::to_lowercase: the Unicode lowercase mapping of each
/// character, which depends on the characters alone.
#[verifier::external_body]
fn lowercase(s: &str) -> (r: String)
    ensures
        r@ == lower_of(s@),
{
    s.to_lowercase()
}

/// Format asked for by an already lowercased Accept header: JSON wins over XML,
/// and anything else is text.
pub open spec fn format_of(accept: Seq<char>) -> Format {
    if has_infix(accept, "application/json"@) {
        Format::Json
    } else if has_infix(accept, "application/xml"@) || has_infix(accept, "text/xml"@) {
        Format::Xml
    } else {
        Format::Text
    }
}

/// Why a request was refused.
#[derive(Debug, Clone, Copy, PartialEq, Eq, Structural)]
pub enum RequestError {
    /// The `homename` query parameter is absent.
    MissingHomename,
    /// The `homename` query parameter breaks the homename rule.
    InvalidHomename,
}

pub open spec fn request_error_text(e: RequestError) -> Seq<char> {
    match e {
        RequestError::MissingHomename => "homename parameter required"@,
        RequestError::InvalidHomename => "invalid homename"@,
    }
}

impl RequestError {
    pub fn message(&self) -> (r: String)
        ensures
            r@ == request_error_text(*self),
    {
        match self {
            RequestError::MissingHomename => String::from_str("homename parameter required"),
            RequestError::InvalidHomename => String::from_str("invalid homename"),
        }
    }
}

/// Request data that the handler acts on.
pub struct RequestContext {
    /// Validated hostname for DNS record management
    pub homename: String,
    /// Client IP address as the edge reported it
    pub client_ip: String,
    /// Desired response format (text, JSON, or XML)
    pub format: Format,
}

impl RequestContext {
    /// The request context of a request with these parameter and header
    /// values: the homename must be present and valid, a missing client
    /// address is empty.
    pub fn from_request(
        homename: Option<String>,
        client_ip: Option<String>,
        accept_header: Option<&str>,
    ) -> (r: Result<RequestContext, RequestError>)
        ensures
            match homename {
                None => r == Err::<RequestContext, RequestError>(RequestError::MissingHomename),
                Some(h) => if !valid_homename(h@) {
                    r == Err::<RequestContext, RequestError>(RequestError::InvalidHomename)
                } else {
                    match r {
                        Ok(ctx) => ctx.homename@ == h@ && ctx.client_ip@ == match client_ip {
                            Some(ip) => ip@,
                            None => Seq::empty(),
                        } && ctx.format == match accept_header {
                            Some(a) => format_of(lower_of(a@)),
                            None => Format::Text,
                        },
                        Err(_) => false,
                    }
                },
            },
    {
        let homename = match homename {
            Some(h) => h,
            None => return Err(RequestError::MissingHomename),
        };
        if !Self::is_valid_homename(homename.as_str()) {
            return Err(RequestError::InvalidHomename);
        }
        let client_ip = match client_ip {
            Some(ip) => ip,
            None => String::new(),
        };
        let format = Self::detect_format_from_accept(accept_header);
        Ok(RequestContext { homename, client_ip, format })
    }

    /// The format asked for by an Accept header.
    pub fn detect_format_from_accept(accept_header: Option<&str>) -> (r: Format)
        ensures
            r == match accept_header {
                Some(a) => format_of(lower_of(a@)),
                None => Format::Text,
            },
    {
        match accept_header {
            Some(accept) => {
                let lowered = lowercase(accept);
                Self::format_from_lowered(lowered.as_str())
            },
            None => Format::Text,
        }
    }

    /// The format asked for by an Accept header that is already lowercase.
    pub fn format_from_lowered(accept: &str) -> (r: Format)
        ensures
            r == format_of(accept@),
    {
        if contains(accept, "application/json") {
            Format::Json
        } else if contains(accept, "application/xml") || contains(accept, "text/xml") {
            Format::Xml
        } else {
            Format::Text
        }
    }

    /// Whether `name` is non-empty and holds only ASCII letters, `-` or `_`.
    pub fn is_valid_homename(name: &str) -> (r: bool)
        ensures
            r == valid_homename(name@),
    {
        let n = name.unicode_len();
        if n == 0 {
            return false;
        }
        let mut i: usize = 0;
        while i < n
            invariant
                n == name@.len(),
                0 <= i <= n,
                forall|j: int| 0 <= j < i ==> homename_char(#[trigger] name@[j]),
            decreases n - i,
        {
            let c = name.get_char(i);
            if !(('a' <= c && c <= 'z') || ('A' <= c && c <= 'Z') || c == '-' || c == '_') {
                return false;
            }
            i = i + 1;
        }
        true
    }
}

} // verus!
