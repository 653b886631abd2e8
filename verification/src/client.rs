//! Connection configuration handed to the session gateway.
//!
//! Building the session itself — certificates, handshake, identity
//! tokens of the protocol stack — happens outside the library; the
//! configuration here is plain data derived from a bookmark or from the
//! connection form.

use vstd::prelude::*;
use crate::bookmarks::{
    spec_policy_string, AuthMethod, MessageSecurityMode, SecurityPolicy, ServerBookmark,
};

verus! {

/// Configuration for one connection attempt.
#[derive(Debug, Clone)]
pub struct ClientConfig {
    /// Endpoint URL (opc.tcp://...).
    pub endpoint_url: String,
    /// Security policy.
    pub security_policy: SecurityPolicy,
    /// Message security mode.
    pub security_mode: MessageSecurityMode,
    /// Authentication method.
    pub auth_method: AuthMethod,
}

impl ClientConfig {
    /// The configuration a saved bookmark stands for.
    pub fn from_bookmark(bookmark: &ServerBookmark) -> (r: Self)
        ensures
            r.endpoint_url == bookmark.endpoint_url,
            r.security_policy == bookmark.security_policy,
            r.security_mode == bookmark.security_mode,
            match (r.auth_method, bookmark.auth_method) {
                (AuthMethod::Anonymous, AuthMethod::Anonymous) => true,
                (
                    AuthMethod::UserPassword { username: u1, password: p1 },
                    AuthMethod::UserPassword { username: u2, password: p2 },
                ) => u1 == u2 && p1 == p2,
                _ => false,
            },
    {
        Self {
            endpoint_url: bookmark.endpoint_url.clone(),
            security_policy: bookmark.security_policy,
            security_mode: bookmark.security_mode,
            auth_method: match &bookmark.auth_method {
                AuthMethod::Anonymous => AuthMethod::Anonymous,
                AuthMethod::UserPassword { username, password } => AuthMethod::UserPassword {
                    username: username.clone(),
                    password: password.clone(),
                },
            },
        }
    }

    /// The security policy string used for endpoint matching.
    pub fn security_policy_string(&self) -> (r: &'static str)
        ensures
            r@ == spec_policy_string(self.security_policy),
    {
        self.security_policy.policy_string()
    }
}

} // verus!
