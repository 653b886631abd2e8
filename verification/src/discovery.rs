//! Endpoint discovery results.
//!
//! The remote GetEndpoints call is performed outside the library; what it
//! yields is described here as plain values, and the helpers that read
//! those values are verified.

use vstd::prelude::*;
use crate::i18n::{t, Language, T};
use crate::text::{
    last_at, lemma_last_at, find_last, spec_contains_insensitive, contains_insensitive,
};

verus! {

/// One endpoint advertised by a server.
#[derive(Debug, Clone)]
pub struct EndpointInfo {
    /// Security policy display name.
    pub security_policy_name: String,
    /// Security mode (None, Sign, SignAndEncrypt).
    pub security_mode: String,
    /// Whether the server presented a certificate.
    pub has_certificate: bool,
    /// User identity tokens supported, rendered as text.
    pub user_tokens: Vec<String>,
    /// The endpoint URL returned by the server.
    pub endpoint_url: String,
}

impl EndpointInfo {
    /// Whether some advertised token names anonymous access.
    pub fn allows_anonymous(&self) -> (r: bool)
        ensures
            r == exists|i: int|
                0 <= i < self.user_tokens@.len() && spec_contains_insensitive(
                    #[trigger] self.user_tokens@[i]@,
                    "anonymous"@,
                ),
    {
        let n = self.user_tokens.len();
        let mut i: usize = 0;
        while i < n
            invariant
                0 <= i <= n,
                n == self.user_tokens@.len(),
                forall|j: int|
                    0 <= j < i ==> !spec_contains_insensitive(
                        #[trigger] self.user_tokens@[j]@,
                        "anonymous"@,
                    ),
            decreases n - i,
        {
            if contains_insensitive(self.user_tokens[i].as_str(), "anonymous") {
                return true;
            }
            i += 1;
        }
        false
    }

    /// One-line description of the endpoint for a list of choices.  The
    /// wording of the authentication part is localized text.
    pub fn display_name(&self, lang: Language) -> String {
        let mut out = if self.has_certificate {
            "🔐".to_owned()
        } else {
            "⚠️".to_owned()
        };
        out.append(" ");
        out.append(self.security_policy_name.as_str());
        out.append(" - ");
        out.append(self.security_mode.as_str());
        out.append(" (");
        if self.allows_anonymous() {
            out.append(t(T::Anonymous, lang));
        } else {
            out.append(t(T::AuthRequired, lang));
        }
        out.append(")");
        out
    }
}

/// The short policy name inside a security policy URI: the part after the
/// last '#', else the part after the last '/', else "None" for an empty
/// URI or one that names no security, else the URI itself.
pub open spec fn spec_policy_name(u: Seq<char>) -> Seq<char> {
    if last_at(u, '#') >= 0 {
        u.subrange(last_at(u, '#') + 1, u.len() as int)
    } else if last_at(u, '/') >= 0 {
        u.subrange(last_at(u, '/') + 1, u.len() as int)
    } else if u.len() == 0 || spec_contains_insensitive(u, "none"@) {
        "None"@
    } else {
        u
    }
}

/// Extract the short security policy name from its URI.
pub fn parse_security_policy_name(uri: &str) -> (r: String)
    ensures
        r@ == spec_policy_name(uri@),
{
    let n = uri.unicode_len();
    proof {
        lemma_last_at(uri@, '#');
        lemma_last_at(uri@, '/');
    }
    if let Some(h) = find_last(uri, '#') {
        return uri.substring_char(h + 1, n).to_owned();
    }
    if let Some(s) = find_last(uri, '/') {
        return uri.substring_char(s + 1, n).to_owned();
    }
    if n == 0 || contains_insensitive(uri, "none") {
        return "None".to_owned();
    }
    uri.to_owned()
}

} // verus!
