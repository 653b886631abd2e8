//! Certificate trust-store state for the interface.
//!
//! The store itself is a directory of files managed outside the library;
//! the panel here holds what those listings reported, as plain values,
//! and decides status text and when a fresh listing is needed.

use vstd::prelude::*;

verus! {

/// A certificate file: its path in string form, and its file name.
#[derive(Debug, Clone)]
pub struct CertificateInfo {
    /// Full path to the certificate file.
    pub path: String,
    /// File name.
    pub name: String,
}

/// Actions requested from the certificates panel.
#[derive(Debug)]
pub enum CertAction {
    /// Move this rejected certificate into the trusted store.
    TrustCert(String),
    /// Delete this certificate file.
    DeleteCert(String),
    /// Open the store's directory for the user.
    OpenPkiFolder,
    /// List the store again.
    Refresh,
}

/// State of the certificates panel.
pub struct CertificatesPanel {
    /// The client's own certificate, when one exists.
    pub client_cert: Option<CertificateInfo>,
    /// Trusted server certificates, as last listed.
    pub trusted_certs: Vec<CertificateInfo>,
    /// Rejected certificates, as last listed.
    pub rejected_certs: Vec<CertificateInfo>,
    /// Status text after the last action.
    pub status: String,
    /// Whether the listings are stale and must be read again.
    pub needs_refresh: bool,
}

impl CertificatesPanel {
    /// An empty panel that still needs its first listing.
    pub fn new() -> (r: Self)
        ensures
            r.client_cert is None,
            r.trusted_certs@.len() == 0,
            r.rejected_certs@.len() == 0,
            r.status@.len() == 0,
            r.needs_refresh,
    {
        Self {
            client_cert: None,
            trusted_certs: Vec::new(),
            rejected_certs: Vec::new(),
            status: String::new(),
            needs_refresh: true,
        }
    }

    /// Take a fresh listing of the store, read outside the library.
    pub fn refresh(
        &mut self,
        client_cert: Option<CertificateInfo>,
        trusted_certs: Vec<CertificateInfo>,
        rejected_certs: Vec<CertificateInfo>,
    )
        ensures
            final(self).client_cert == client_cert,
            final(self).trusted_certs == trusted_certs,
            final(self).rejected_certs == rejected_certs,
            !final(self).needs_refresh,
            final(self).status == old(self).status,
    {
        self.client_cert = client_cert;
        self.trusted_certs = trusted_certs;
        self.rejected_certs = rejected_certs;
        self.needs_refresh = false;
    }

    /// Record the outcome of one performed action: the status text it
    /// earns, and whether the listings went stale.  Trusting or deleting
    /// a file successfully demands a fresh listing; a failure only
    /// reports the error.
    pub fn handle_action(&mut self, action: &CertAction, outcome: Result<(), String>)
        ensures
            final(self).client_cert == old(self).client_cert,
            final(self).trusted_certs == old(self).trusted_certs,
            final(self).rejected_certs == old(self).rejected_certs,
            match action {
                CertAction::TrustCert(p) => match outcome {
                    Ok(u) => final(self).needs_refresh && final(self).status@
                        == "✅ Certificate trusted"@,
                    Err(e) => final(self).status@ == "❌ Error: "@ + e@ && final(self).needs_refresh == old(self).needs_refresh,
                },
                CertAction::DeleteCert(p) => match outcome {
                    Ok(u) => final(self).needs_refresh && final(self).status@
                        == "✅ Certificate deleted"@,
                    Err(e) => final(self).status@ == "❌ Error: "@ + e@ && final(self).needs_refresh == old(self).needs_refresh,
                },
                CertAction::OpenPkiFolder => match outcome {
                    Ok(u) => final(self).needs_refresh == old(self).needs_refresh && final(self).status == old(self).status,
                    Err(e) => final(self).status@ == "❌ Error: "@ + e@ && final(self).needs_refresh == old(self).needs_refresh,
                },
                CertAction::Refresh => final(self).needs_refresh && final(self).status
                    == old(self).status,
            },
    {
        match action {
            CertAction::TrustCert(p) => match outcome {
                Ok(u) => {
                    self.status = "✅ Certificate trusted".to_owned();
                    self.needs_refresh = true;
                },
                Err(e) => {
                    let mut s = "❌ Error: ".to_owned();
                    s.append(e.as_str());
                    self.status = s;
                },
            },
            CertAction::DeleteCert(p) => match outcome {
                Ok(u) => {
                    self.status = "✅ Certificate deleted".to_owned();
                    self.needs_refresh = true;
                },
                Err(e) => {
                    let mut s = "❌ Error: ".to_owned();
                    s.append(e.as_str());
                    self.status = s;
                },
            },
            CertAction::OpenPkiFolder => match outcome {
                Ok(u) => {
                },
                Err(e) => {
                    let mut s = "❌ Error: ".to_owned();
                    s.append(e.as_str());
                    self.status = s;
                },
            },
            CertAction::Refresh => {
                self.needs_refresh = true;
            },
        }
    }
}

impl Default for CertificatesPanel {
    /// An empty panel that still needs its first listing.
    fn default() -> (r: Self)
        ensures
            r.needs_refresh,
            r.trusted_certs@.len() == 0,
            r.rejected_certs@.len() == 0,
    {
        Self::new()
    }
}

} // verus!
