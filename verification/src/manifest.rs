//! The package manifest: its fields, its checksum and its validation.

use vstd::prelude::*;
use vstd::string::*;
use crate::checksum::{compute_checksum, digest_of, is_checksum_text};
use crate::rules::{check_rules, findings_for, report, report_of, ValidationResult, ValidationView};

verus! {

/// Stands between the fields of a manifest in the text that its checksum is
/// taken of.
pub const FIELD_SEPARATOR: &'static str = ":";

/// Stands before the detail of a decoding failure.
pub const DECODE_FAILURE_PREFIX: &'static str = "Invalid JSON: ";

/// The manifest of a package: its name, its version, the location of its
/// content, and the checksum of those three.
///
/// A manifest is assembled once and never changed. Its checksum is always
/// the one computed from its other fields.
#[derive(Debug)]
pub struct AgentPackage {
    name: String,
    version: String,
    image_uri: String,
    checksum: String,
}

/// A manifest as plain values.
pub struct ManifestView {
    pub name: Seq<char>,
    pub version: Seq<char>,
    pub image_uri: Seq<char>,
    pub checksum: Seq<char>,
}

/// The text that the checksum of a manifest is taken of:
/// `name:version:location`.
pub open spec fn canonical_text(
    name: Seq<char>,
    version: Seq<char>,
    location: Seq<char>,
) -> Seq<char> {
    name + seq![':'] + version + seq![':'] + location
}

/// The manifest that is assembled from a name, a version and a location.
pub open spec fn manifest_of(
    name: Seq<char>,
    version: Seq<char>,
    location: Seq<char>,
) -> ManifestView {
    ManifestView {
        name,
        version,
        image_uri: location,
        checksum: digest_of(canonical_text(name, version, location)),
    }
}

impl ManifestView {
    /// Whether the checksum is the one computed from the other fields.
    pub open spec fn is_consistent(self) -> bool {
        self == manifest_of(self.name, self.version, self.image_uri)
    }
}

/// What validation reports of a manifest: the findings of the rules on its
/// name, version and location, with its checksum handed through.
pub open spec fn validation_of(manifest: ManifestView) -> ValidationView {
    report_of(
        findings_for(manifest.name, manifest.version, manifest.image_uri),
        manifest.checksum,
    )
}

/// What is reported of a document that could not be decoded: it is not
/// valid, the one message gives the detail of the failure, and there is no
/// checksum.
pub open spec fn decode_failure_of(detail: Seq<char>) -> ValidationView {
    ValidationView {
        valid: false,
        errors: DECODE_FAILURE_PREFIX@ + detail,
        checksum: Seq::empty(),
    }
}

impl View for AgentPackage {
    type V = ManifestView;

    closed spec fn view(&self) -> ManifestView {
        ManifestView {
            name: self.name@,
            version: self.version@,
            image_uri: self.image_uri@,
            checksum: self.checksum@,
        }
    }
}

/// Every assembled manifest is consistent.
pub proof fn lemma_assembled_is_consistent(
    name: Seq<char>,
    version: Seq<char>,
    location: Seq<char>,
)
    ensures
        manifest_of(name, version, location).is_consistent(),
{
}

/// Equal names, versions and locations give equal manifests, checksum
/// included.
pub proof fn lemma_assembly_is_deterministic(
    name: Seq<char>,
    version: Seq<char>,
    location: Seq<char>,
    other_name: Seq<char>,
    other_version: Seq<char>,
    other_location: Seq<char>,
)
    requires
        name == other_name,
        version == other_version,
        location == other_location,
    ensures
        manifest_of(name, version, location) == manifest_of(
            other_name,
            other_version,
            other_location,
        ),
{
}

/// A consistent manifest that is assembled again from its own name, version
/// and location is validated exactly as the manifest itself is.
pub proof fn lemma_reassembled_validates_alike(manifest: ManifestView)
    requires
        manifest.is_consistent(),
    ensures
        validation_of(manifest_of(manifest.name, manifest.version, manifest.image_uri))
            == validation_of(manifest),
{
}

/// Validation never changes the checksum.
pub proof fn lemma_validation_keeps_checksum(manifest: ManifestView)
    ensures
        validation_of(manifest).checksum == manifest.checksum,
{
}

/// Writes the text that the checksum of a manifest is taken of.
pub fn canonical_text_of(name: &str, version: &str, location: &str) -> (text: String)
    ensures
        text@ == canonical_text(name@, version@, location@),
{
    proof {
        reveal_strlit(":");
        assert(FIELD_SEPARATOR@ =~= seq![':']);
    }
    let mut text = String::new();
    text.append(name);
    text.append(FIELD_SEPARATOR);
    text.append(version);
    text.append(FIELD_SEPARATOR);
    text.append(location);
    assert(text@ =~= canonical_text(name@, version@, location@));
    text
}

impl AgentPackage {
    #[verifier::type_invariant]
    spec fn well_formed(&self) -> bool {
        self@.is_consistent() && is_checksum_text(self.checksum@)
    }

    /// Assembles a manifest and computes its checksum. No field is
    /// validated here, and no input is refused.
    pub fn new(name: String, version: String, image_uri: String) -> (package: Self)
        ensures
            package@ == manifest_of(name@, version@, image_uri@),
            is_checksum_text(package@.checksum),
    {
        let text = canonical_text_of(name.as_str(), version.as_str(), image_uri.as_str());
        let checksum = compute_checksum(text.as_str());
        AgentPackage { name, version, image_uri, checksum }
    }

    /// The name of the package.
    pub fn name(&self) -> (name: &str)
        ensures
            name@ == self@.name,
    {
        self.name.as_str()
    }

    /// The version of the package.
    pub fn version(&self) -> (version: &str)
        ensures
            version@ == self@.version,
    {
        self.version.as_str()
    }

    /// The location of the package's content.
    pub fn image_uri(&self) -> (location: &str)
        ensures
            location@ == self@.image_uri,
    {
        self.image_uri.as_str()
    }

    /// The checksum of the manifest.
    pub fn checksum(&self) -> (checksum: &str)
        ensures
            checksum@ == self@.checksum,
            self@.is_consistent(),
            is_checksum_text(checksum@),
    {
        proof {
            use_type_invariant(self);
        }
        self.checksum.as_str()
    }

    /// Holds the manifest against every rule and reports all that are
    /// broken, not only the first. The checksum is handed through as it
    /// is.
    pub fn validate(&self) -> (result: ValidationResult)
        ensures
            result@ == validation_of(self@),
            result.valid <==> result.errors@.len() == 0,
            self@.is_consistent(),
    {
        proof {
            use_type_invariant(self);
        }
        let findings = check_rules(
            self.name.as_str(),
            self.version.as_str(),
            self.image_uri.as_str(),
        );
        report(findings, self.checksum.clone())
    }
}

impl Clone for AgentPackage {
    /// A copy with the same fields.
    fn clone(&self) -> (copy: Self)
        ensures
            copy@ == self@,
    {
        proof {
            use_type_invariant(self);
        }
        AgentPackage {
            name: self.name.clone(),
            version: self.version.clone(),
            image_uri: self.image_uri.clone(),
            checksum: self.checksum.clone(),
        }
    }
}

/// Reports that a document could not be decoded.
pub fn decode_failure(detail: &str) -> (result: ValidationResult)
    ensures
        result@ == decode_failure_of(detail@),
{
    let mut errors = String::new();
    errors.append(DECODE_FAILURE_PREFIX);
    errors.append(detail);
    assert(errors@ =~= DECODE_FAILURE_PREFIX@ + detail@);
    ValidationResult { valid: false, errors, checksum: String::new() }
}

/// Validates what a decoder made of a document.
///
/// Where the document was decoded, `decoded` holds its name, version and
/// location; the manifest is assembled from them and validated. A
/// checksum that the document may have carried is not asked for: it is
/// not trusted, and the checksum of the result is always the one computed
/// from the three fields. Where the document could not be decoded,
/// `decoded` holds the detail of the failure, which the result reports.
pub fn validate_decoded(
    decoded: Result<(String, String, String), String>,
) -> (result: ValidationResult)
    ensures
        match decoded {
            Ok(fields) => result@ == validation_of(manifest_of(fields.0@, fields.1@, fields.2@)),
            Err(detail) => result@ == decode_failure_of(detail@),
        },
{
    match decoded {
        Ok(fields) => AgentPackage::new(fields.0, fields.1, fields.2).validate(),
        Err(detail) => decode_failure(detail.as_str()),
    }
}

} // verus!
