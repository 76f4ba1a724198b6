//! Why an endpoint could not be set up.

use vstd::prelude::*;

verus! {

/// A failure of endpoint setup. Each is final: nothing is retried, and no
/// endpoint is described when one occurs.
#[derive(Clone, Copy, Debug, PartialEq, Eq, Structural)]
pub enum SetupError {
    /// A section of a PEM text could not be decoded.
    MalformedPem,
    /// The certificate text holds no certificate.
    MissingCertificate,
    /// The key text holds no private key.
    MissingPrivateKey,
    /// The TLS layer refused the private key, or the key does not belong to
    /// the first certificate of the chain.
    RejectedIdentity,
    /// A certificate offered as a trusted root cannot serve as one.
    InvalidRootCertificate,
    /// The text of trusted roots holds no certificate.
    NoTrustedRoots,
    /// The liveness mechanism asked for would never act, so that silent
    /// connections would never be given up.
    NoLiveness,
}

impl SetupError {
    /// The words in which the failure is reported.
    pub open spec fn spec_describe(self) -> Seq<char> {
        match self {
            SetupError::MalformedPem => "PEM text could not be decoded"@,
            SetupError::MissingCertificate => "No certificates found"@,
            SetupError::MissingPrivateKey => "No private key found"@,
            SetupError::RejectedIdentity => "certificate chain and private key were refused"@,
            SetupError::InvalidRootCertificate => "a trusted root certificate is not valid"@,
            SetupError::NoTrustedRoots => "No trusted root certificates found"@,
            SetupError::NoLiveness => "the liveness period must not be zero"@,
        }
    }

    /// The words in which the failure is reported.
    pub fn describe(self) -> (text: &'static str)
        ensures
            text@ == self.spec_describe(),
    {
        match self {
            SetupError::MalformedPem => "PEM text could not be decoded",
            SetupError::MissingCertificate => "No certificates found",
            SetupError::MissingPrivateKey => "No private key found",
            SetupError::RejectedIdentity => "certificate chain and private key were refused",
            SetupError::InvalidRootCertificate => "a trusted root certificate is not valid",
            SetupError::NoTrustedRoots => "No trusted root certificates found",
            SetupError::NoLiveness => "the liveness period must not be zero",
        }
    }
}

} // verus!
