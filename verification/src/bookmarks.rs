//! Server bookmarks: connection presets the user can save and reload.
//! Reading and writing the bookmark file happens outside the library.

use vstd::prelude::*;
use crate::i18n::{t, Language, T};

verus! {

/// Security policy for a connection.
#[derive(Debug, Clone, Copy, PartialEq, Eq, Structural)]
pub enum SecurityPolicy {
    NoSecurity,
    Basic128Rsa15,
    Basic256,
    Basic256Sha256,
    Aes128Sha256RsaOaep,
    Aes256Sha256RsaPss,
}

impl Default for SecurityPolicy {
    /// No security, the configuration's starting point.
    fn default() -> (r: Self)
        ensures
            r == SecurityPolicy::NoSecurity,
    {
        SecurityPolicy::NoSecurity
    }
}

impl SecurityPolicy {
    /// All policies, in the order offered to the user.
    pub fn all() -> (r: Vec<Self>)
        ensures
            r@ == seq![
                SecurityPolicy::NoSecurity,
                SecurityPolicy::Basic128Rsa15,
                SecurityPolicy::Basic256,
                SecurityPolicy::Basic256Sha256,
                SecurityPolicy::Aes128Sha256RsaOaep,
                SecurityPolicy::Aes256Sha256RsaPss,
            ],
    {
        let mut v: Vec<Self> = Vec::new();
        v.push(SecurityPolicy::NoSecurity);
        v.push(SecurityPolicy::Basic128Rsa15);
        v.push(SecurityPolicy::Basic256);
        v.push(SecurityPolicy::Basic256Sha256);
        v.push(SecurityPolicy::Aes128Sha256RsaOaep);
        v.push(SecurityPolicy::Aes256Sha256RsaPss);
        proof {
            assert(v@ =~= seq![
                SecurityPolicy::NoSecurity,
                SecurityPolicy::Basic128Rsa15,
                SecurityPolicy::Basic256,
                SecurityPolicy::Basic256Sha256,
                SecurityPolicy::Aes128Sha256RsaOaep,
                SecurityPolicy::Aes256Sha256RsaPss,
            ]);
        }
        v
    }

    /// Localized display name.
    pub fn display_name(&self, lang: Language) -> String {
        match self {
            SecurityPolicy::NoSecurity => t(T::SecurityNone, lang).to_owned(),
            SecurityPolicy::Basic128Rsa15 => t(T::SecurityBasic128Rsa15, lang).to_owned(),
            SecurityPolicy::Basic256 => t(T::SecurityBasic256, lang).to_owned(),
            SecurityPolicy::Basic256Sha256 => t(T::SecurityBasic256Sha256, lang).to_owned(),
            SecurityPolicy::Aes128Sha256RsaOaep => t(
                T::SecurityAes128Sha256RsaOaep,
                lang,
            ).to_owned(),
            SecurityPolicy::Aes256Sha256RsaPss => t(
                T::SecurityAes256Sha256RsaPss,
                lang,
            ).to_owned(),
        }
    }

    /// The policy's name on the wire, used to match endpoints.
    pub fn policy_string(&self) -> (r: &'static str)
        ensures
            r@ == spec_policy_string(*self),
    {
        match self {
            SecurityPolicy::NoSecurity => "None",
            SecurityPolicy::Basic128Rsa15 => "Basic128Rsa15",
            SecurityPolicy::Basic256 => "Basic256",
            SecurityPolicy::Basic256Sha256 => "Basic256Sha256",
            SecurityPolicy::Aes128Sha256RsaOaep => "Aes128_Sha256_RsaOaep",
            SecurityPolicy::Aes256Sha256RsaPss => "Aes256_Sha256_RsaPss",
        }
    }
}

/// The wire name of each security policy.
pub open spec fn spec_policy_string(p: SecurityPolicy) -> Seq<char> {
    match p {
        SecurityPolicy::NoSecurity => "None"@,
        SecurityPolicy::Basic128Rsa15 => "Basic128Rsa15"@,
        SecurityPolicy::Basic256 => "Basic256"@,
        SecurityPolicy::Basic256Sha256 => "Basic256Sha256"@,
        SecurityPolicy::Aes128Sha256RsaOaep => "Aes128_Sha256_RsaOaep"@,
        SecurityPolicy::Aes256Sha256RsaPss => "Aes256_Sha256_RsaPss"@,
    }
}

/// Message security mode.
#[derive(Debug, Clone, Copy, PartialEq, Eq, Structural)]
pub enum MessageSecurityMode {
    NoSecurity,
    Sign,
    SignAndEncrypt,
}

impl Default for MessageSecurityMode {
    /// No signing, the configuration's starting point.
    fn default() -> (r: Self)
        ensures
            r == MessageSecurityMode::NoSecurity,
    {
        MessageSecurityMode::NoSecurity
    }
}

impl MessageSecurityMode {
    /// All modes, in the order offered to the user.
    pub fn all() -> (r: Vec<Self>)
        ensures
            r@ == seq![
                MessageSecurityMode::NoSecurity,
                MessageSecurityMode::Sign,
                MessageSecurityMode::SignAndEncrypt,
            ],
    {
        let mut v: Vec<Self> = Vec::new();
        v.push(MessageSecurityMode::NoSecurity);
        v.push(MessageSecurityMode::Sign);
        v.push(MessageSecurityMode::SignAndEncrypt);
        proof {
            assert(v@ =~= seq![
                MessageSecurityMode::NoSecurity,
                MessageSecurityMode::Sign,
                MessageSecurityMode::SignAndEncrypt,
            ]);
        }
        v
    }

    /// Localized display name.
    pub fn display_name(&self, lang: Language) -> String {
        match self {
            MessageSecurityMode::NoSecurity => t(T::ModeNone, lang).to_owned(),
            MessageSecurityMode::Sign => t(T::ModeSign, lang).to_owned(),
            MessageSecurityMode::SignAndEncrypt => t(T::ModeSignAndEncrypt, lang).to_owned(),
        }
    }
}

/// Authentication method.
#[derive(Debug, Clone)]
pub enum AuthMethod {
    Anonymous,
    UserPassword { username: String, password: String },
}

impl Default for AuthMethod {
    /// Anonymous access.
    fn default() -> (r: Self)
        ensures
            r is Anonymous,
    {
        AuthMethod::Anonymous
    }
}

/// A saved server bookmark.
#[derive(Debug, Clone)]
pub struct ServerBookmark {
    /// Display name for the bookmark.
    pub name: String,
    /// Endpoint URL.
    pub endpoint_url: String,
    /// Security policy.
    pub security_policy: SecurityPolicy,
    /// Message security mode.
    pub security_mode: MessageSecurityMode,
    /// Authentication method.
    pub auth_method: AuthMethod,
}

/// Collection of server bookmarks.
#[derive(Debug, Clone)]
pub struct Bookmarks {
    /// Saved bookmarks, in the order they were added.
    pub servers: Vec<ServerBookmark>,
}

impl Bookmarks {
    /// An empty collection.
    pub fn new() -> (r: Self)
        ensures
            r.servers@.len() == 0,
    {
        Self { servers: Vec::new() }
    }

    /// Add a bookmark at the end.
    pub fn add(&mut self, bookmark: ServerBookmark)
        ensures
            final(self).servers@ == old(self).servers@.push(bookmark),
    {
        self.servers.push(bookmark);
    }

    /// Remove the bookmark at an index; out-of-range indices do nothing.
    pub fn remove(&mut self, index: usize)
        ensures
            index < old(self).servers@.len() ==> final(self).servers@ == old(
                self,
            ).servers@.remove(index as int),
            index >= old(self).servers@.len() ==> final(self).servers@ == old(self).servers@,
    {
        if index < self.servers.len() {
            self.servers.remove(index);
        }
    }

    /// Whether no bookmark is saved.
    pub fn is_empty(&self) -> (r: bool)
        ensures
            r == (self.servers@.len() == 0),
    {
        self.servers.len() == 0
    }
}

impl Default for Bookmarks {
    /// An empty collection.
    fn default() -> (r: Self)
        ensures
            r.servers@.len() == 0,
    {
        Self::new()
    }
}

} // verus!
