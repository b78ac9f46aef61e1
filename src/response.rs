use vstd::prelude::*;
use crate::text::concat;

verus! {

/// The addresses reported back to the client.
pub struct IpPayload {
    pub ipv4: String,
    pub ipv6: String,
}

/// Plain-text body: each address on a line of its own.
pub open spec fn text_of(ipv4: Seq<char>, ipv6: Seq<char>) -> Seq<char> {
    ipv4 + "\n"@ + ipv6 + "\n"@
}

/// Escape of one character for XML text.
pub open spec fn escape_char(c: char) -> Seq<char> {
    if c == '&' {
        "&amp;"@
    } else if c == '<' {
        "&lt;"@
    } else if c == '>' {
        "&gt;"@
    } else if c == '"' {
        "&quot;"@
    } else if c == '\'' {
        "&apos;"@
    } else {
        seq![c]
    }
}

/// `s` with each XML special character replaced by its entity.
pub open spec fn escaped(s: Seq<char>) -> Seq<char>
    decreases s.len(),
{
    if s.len() == 0 {
        Seq::empty()
    } else {
        escaped(s.drop_last()) + escape_char(s.last())
    }
}

pub open spec fn xml_of(ipv4: Seq<char>, ipv6: Seq<char>) -> Seq<char> {
    "<ip><ipv4>"@ + escaped(ipv4) + "</ipv4><ipv6>"@ + escaped(ipv6) + "</ipv6></ip>"@
}

/// Response bodies.
pub struct ResponseUtils;

impl ResponseUtils {
    /// Formats IP addresses as plain text
    pub fn format_text(ipv4: &str, ipv6: &str) -> (r: String)
        ensures
            r@ == text_of(ipv4@, ipv6@),
    {
        let mut r = concat(ipv4, "\n");
        r.append(ipv6);
        r.append("\n");
        r
    }

    /// XML body holding both addresses, escaped.
    pub fn xml_body(ipv4: &str, ipv6: &str) -> (r: String)
        ensures
            r@ == xml_of(ipv4@, ipv6@),
    {
        let mut r = String::from_str("<ip><ipv4>");
        let a = Self::escape_xml(ipv4);
        r.append(a.as_str());
        r.append("</ipv4><ipv6>");
        let b = Self::escape_xml(ipv6);
        r.append(b.as_str());
        r.append("</ipv6></ip>");
        r
    }

    /// Escapes XML special characters to prevent injection
    pub fn escape_xml(input: &str) -> (r: String)
        ensures
            r@ == escaped(input@),
    {
        let n = input.unicode_len();
        let mut r = String::new();
        let mut i: usize = 0;
        while i < n
            invariant
                n == input@.len(),
                0 <= i <= n,
                r@ == escaped(input@.subrange(0, i as int)),
            decreases n - i,
        {
            let c = input.get_char(i);
            assert(input@.subrange(0, i + 1).drop_last() =~= input@.subrange(0, i as int));
            if c == '&' {
                r.append("&amp;");
            } else if c == '<' {
                r.append("&lt;");
            } else if c == '>' {
                r.append("&gt;");
            } else if c == '"' {
                r.append("&quot;");
            } else if c == '\'' {
                r.append("&apos;");
            } else {
                let one = input.substring_char(i, i + 1);
                assert(one@ =~= seq![c]);
                r.append(one);
            }
            i = i + 1;
        }
        assert(input@.subrange(0, n as int) =~= input@);
        r
    }
}

} // verus!
