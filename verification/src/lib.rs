//! A minimal version-identifier model and version-range matching engine.
//!
//! A [`Version`] is an ordered triple of `u64` components; a
//! [`VersionReq`] is a closed box over the triple space, built from a
//! declarative [`VersionReqVariant`] and tested componentwise.

pub mod decimal;
pub mod split;
pub mod version;
pub mod version_req;

pub use version::Version;
pub use version::VersionParseError;
pub use version_req::VersionReq;
pub use version_req::VersionReqVariant;
pub use version_req::VersionReqVariantLowerBound;
pub use version_req::VersionReqVariantUpperBound;
