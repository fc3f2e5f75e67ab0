//! What can go wrong in the client itself.

use vstd::prelude::*;
use vstd::string::StringExecFns;
use crate::text::concat;

verus! {

/// An error of the client. Failures of the network or of the service are not
/// among the errors that the client's operations return: those come back as
/// results that say what failed.
#[derive(Debug)]
pub enum LicenseError {
    /// The process-wide client was used before it was set up.
    NotInitialized,
    /// The options hold no public key.
    PublicKeyRequired,
    /// The options hold no product slug.
    ProductSlugRequired,
    /// The feature with this key is not available under the held license.
    FeatureRequired(String),
    /// A request failed in transit; the text says how.
    Http(String),
    /// A body was not the JSON that was expected; the text says why.
    Json(String),
    /// A file could not be read or written; the text says why.
    Io(String),
    /// The service, or the client on its behalf, refused; the text says why.
    Api(String),
}

pub enum LicenseErrorView {
    NotInitialized,
    PublicKeyRequired,
    ProductSlugRequired,
    FeatureRequired(Seq<char>),
    Http(Seq<char>),
    Json(Seq<char>),
    Io(Seq<char>),
    Api(Seq<char>),
}

impl LicenseErrorView {
    /// The error as a sentence for a person to read.
    pub open spec fn message(self) -> Seq<char> {
        match self {
            LicenseErrorView::NotInitialized => "IronLicensing client not initialized"@,
            LicenseErrorView::PublicKeyRequired => "Public key is required"@,
            LicenseErrorView::ProductSlugRequired => "Product slug is required"@,
            LicenseErrorView::FeatureRequired(key) => "Feature '"@ + key + "' requires a valid license"@,
            LicenseErrorView::Http(text) => "HTTP error: "@ + text,
            LicenseErrorView::Json(text) => "JSON error: "@ + text,
            LicenseErrorView::Io(text) => "IO error: "@ + text,
            LicenseErrorView::Api(text) => "API error: "@ + text,
        }
    }
}

impl View for LicenseError {
    type V = LicenseErrorView;

    open spec fn view(&self) -> LicenseErrorView {
        match self {
            LicenseError::NotInitialized => LicenseErrorView::NotInitialized,
            LicenseError::PublicKeyRequired => LicenseErrorView::PublicKeyRequired,
            LicenseError::ProductSlugRequired => LicenseErrorView::ProductSlugRequired,
            LicenseError::FeatureRequired(key) => LicenseErrorView::FeatureRequired(key@),
            LicenseError::Http(text) => LicenseErrorView::Http(text@),
            LicenseError::Json(text) => LicenseErrorView::Json(text@),
            LicenseError::Io(text) => LicenseErrorView::Io(text@),
            LicenseError::Api(text) => LicenseErrorView::Api(text@),
        }
    }
}

impl LicenseError {
    /// The error as a sentence for a person to read.
    pub fn message(&self) -> (text: String)
        ensures
            text@ == self@.message(),
    {
        match self {
            LicenseError::NotInitialized => String::from_str("IronLicensing client not initialized"),
            LicenseError::PublicKeyRequired => String::from_str("Public key is required"),
            LicenseError::ProductSlugRequired => String::from_str("Product slug is required"),
            LicenseError::FeatureRequired(key) => {
                let mut out = concat("Feature '", key.as_str());
                out.append("' requires a valid license");
                out
            },
            LicenseError::Http(text) => concat("HTTP error: ", text.as_str()),
            LicenseError::Json(text) => concat("JSON error: ", text.as_str()),
            LicenseError::Io(text) => concat("IO error: ", text.as_str()),
            LicenseError::Api(text) => concat("API error: ", text.as_str()),
        }
    }
}

/// A value, or the client's error.
pub type Result<T> = std::result::Result<T, LicenseError>;

} // verus!
