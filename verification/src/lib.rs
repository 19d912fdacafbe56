//! Validation of package manifests and content checksums.
//!
//! A manifest names a package, its version and the location of its content,
//! and carries a checksum derived from those three fields. The validator
//! reports every rule a manifest breaks in one result, so that a client can
//! reject a malformed or tampered descriptor before acting on it.

pub mod checksum;
pub mod manifest;
pub mod rules;
pub mod semver;
pub mod status;
pub mod text;

pub use checksum::{compute_checksum, verify_checksum};
pub use manifest::{validate_decoded, AgentPackage};
pub use rules::ValidationResult;
pub use semver::is_valid_semver;
pub use status::format_package_status;
