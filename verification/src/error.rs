//! The error taxonomy of the provisioning pipeline and the exact texts
//! of the messages it surfaces.

use vstd::prelude::*;
use vstd::string::*;
use crate::text::spec_dec;
use crate::text::u64_to_dec;

verus! {

/// One aggregate error type per pipeline stage family.
#[derive(Debug)]
pub enum InstallError {
    /// Transport or HTTP failure, or an unresolved hostname.
    Network(String),
    /// Corrupt or unknown archive, or a tar unpack failure.
    Extraction(String),
    /// Missing or empty OCI layer set.
    ImageFormat(String),
    /// Directory creation/removal, rename, or permission failure.
    Filesystem(String),
    /// Script- or config-writing failure.
    Configuration(String),
}

impl InstallError {
    /// The human-readable message carried by the error.
    pub open spec fn spec_message(self) -> Seq<char> {
        match self {
            InstallError::Network(m) => m@,
            InstallError::Extraction(m) => m@,
            InstallError::ImageFormat(m) => m@,
            InstallError::Filesystem(m) => m@,
            InstallError::Configuration(m) => m@,
        }
    }

    /// Returns the carried message.
    pub fn message(&self) -> (r: String)
        ensures
            r@ == self.spec_message(),
    {
        match self {
            InstallError::Network(m) => m.clone(),
            InstallError::Extraction(m) => m.clone(),
            InstallError::ImageFormat(m) => m.clone(),
            InstallError::Filesystem(m) => m.clone(),
            InstallError::Configuration(m) => m.clone(),
        }
    }
}

/// The message reported for an HTTP failure status.
pub open spec fn spec_http_error(code: int, status_text: Seq<char>, url: Seq<char>) -> Seq<char> {
    "HTTP Error "@ + spec_dec(code as nat) + ": "@ + status_text + " - URL: "@ + url
}

/// Formats the message for a non-2xx HTTP response.
pub fn http_error_message(code: u16, status_text: &str, url: &str) -> (r: String)
    ensures
        r@ == spec_http_error(code as int, status_text@, url@),
{
    let mut r = String::from_str("HTTP Error ");
    let digits = u64_to_dec(code as u64);
    r.append(digits.as_str());
    r.append(": ");
    r.append(status_text);
    r.append(" - URL: ");
    r.append(url);
    r
}

/// The message reported for a transport-level failure.
pub open spec fn spec_transport_error(cause: Seq<char>, url: Seq<char>) -> Seq<char> {
    "Network Error: "@ + cause + " - URL: "@ + url
}

/// Formats the message for a transport-level failure.
pub fn transport_error_message(cause: &str, url: &str) -> (r: String)
    ensures
        r@ == spec_transport_error(cause@, url@),
{
    let mut r = String::from_str("Network Error: ");
    r.append(cause);
    r.append(" - URL: ");
    r.append(url);
    r
}

} // verus!
