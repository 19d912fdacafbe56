//! The validation rules of a manifest and the report of what they found.

use vstd::prelude::*;
use crate::semver::{is_semver, is_valid_semver};
use crate::text::{join_lines, join_with, lemma_join_covers_last, line_views};

verus! {

/// Reported when the package name is empty.
pub const NAME_REQUIRED: &'static str = "Package name is required";

/// Reported when the package name holds a character that no name may hold.
pub const NAME_INVALID: &'static str = "Package name contains invalid characters";

/// Reported when the version is empty.
pub const VERSION_REQUIRED: &'static str = "Version is required";

/// Reported when the version is not a three-component numeric version.
pub const VERSION_INVALID: &'static str = "Version must be valid semver (e.g., 1.0.0)";

/// Reported when the location of the package's content is empty.
pub const LOCATION_REQUIRED: &'static str = "Image URI is required";

/// Stands between two messages of one report.
pub const MESSAGE_SEPARATOR: &'static str = "; ";

/// Whether `c` is a letter or a numeral of any script, as
/// `char::is_alphanumeric` of the standard library decides it.
pub uninterp spec fn is_alphanumeric_char(c: char) -> bool;

/// Calls `char::is_alphanumeric`, which looks the character up in the
/// Unicode tables of letters and numerals. The contract only names the
/// answer.
#[verifier::external_body]
fn char_is_alphanumeric(c: char) -> (yes: bool)
    ensures
        yes == is_alphanumeric_char(c),
{
    c.is_alphanumeric()
}

/// Whether `c` may stand in a package name: a letter, a numeral, `-` or `_`.
pub open spec fn is_name_char(c: char) -> bool {
    is_alphanumeric_char(c) || c == '-' || c == '_'
}

/// Whether every character of `name` may stand in a package name. The empty
/// name passes.
pub open spec fn has_name_chars_only(name: Seq<char>) -> bool {
    forall|i: int| 0 <= i < name.len() ==> is_name_char(#[trigger] name[i])
}

/// Which rules a manifest breaks. The rules are independent of each other.
#[derive(Clone, Copy, Debug)]
pub struct RuleFindings {
    /// The name is empty.
    pub name_missing: bool,
    /// The name holds a character that no name may hold.
    pub name_malformed: bool,
    /// The version is empty.
    pub version_missing: bool,
    /// The version is not a three-component numeric version.
    pub version_malformed: bool,
    /// The location is empty.
    pub location_missing: bool,
}

impl RuleFindings {
    /// Whether at least one rule is broken.
    pub open spec fn any(self) -> bool {
        self.name_missing || self.name_malformed || self.version_missing
            || self.version_malformed || self.location_missing
    }
}

/// What the rules find of a name, a version and a location.
pub open spec fn findings_for(
    name: Seq<char>,
    version: Seq<char>,
    location: Seq<char>,
) -> RuleFindings {
    RuleFindings {
        name_missing: name.len() == 0,
        name_malformed: !has_name_chars_only(name),
        version_missing: version.len() == 0,
        version_malformed: !is_semver(version),
        location_missing: location.len() == 0,
    }
}

/// The message of a rule if it is broken, as a sequence of none or one.
pub open spec fn message_if(broken: bool, message: Seq<char>) -> Seq<Seq<char>> {
    if broken {
        seq![message]
    } else {
        Seq::empty()
    }
}

/// The messages of the broken rules, in the order of the rules.
pub open spec fn messages_for(findings: RuleFindings) -> Seq<Seq<char>> {
    message_if(findings.name_missing, NAME_REQUIRED@) + message_if(
        findings.name_malformed,
        NAME_INVALID@,
    ) + message_if(findings.version_missing, VERSION_REQUIRED@) + message_if(
        findings.version_malformed,
        VERSION_INVALID@,
    ) + message_if(findings.location_missing, LOCATION_REQUIRED@)
}

/// The outcome of validating one manifest.
#[derive(Debug)]
pub struct ValidationResult {
    /// Whether no rule is broken.
    pub valid: bool,
    /// The messages of the broken rules, joined by `"; "`; empty when valid.
    pub errors: String,
    /// The checksum of the manifest, or the empty string where there is no
    /// manifest.
    pub checksum: String,
}

/// A validation result as plain values.
pub struct ValidationView {
    pub valid: bool,
    pub errors: Seq<char>,
    pub checksum: Seq<char>,
}

impl View for ValidationResult {
    type V = ValidationView;

    open spec fn view(&self) -> ValidationView {
        ValidationView { valid: self.valid, errors: self.errors@, checksum: self.checksum@ }
    }
}

impl Clone for ValidationResult {
    /// A copy with the same fields.
    fn clone(&self) -> (copy: Self)
        ensures
            copy@ == self@,
    {
        ValidationResult {
            valid: self.valid,
            errors: self.errors.clone(),
            checksum: self.checksum.clone(),
        }
    }
}

/// The report of `findings` for a manifest with the given checksum.
pub open spec fn report_of(findings: RuleFindings, checksum: Seq<char>) -> ValidationView {
    ValidationView {
        valid: !findings.any(),
        errors: join_with(messages_for(findings), MESSAGE_SEPARATOR@),
        checksum,
    }
}

/// A report says nothing exactly when no rule is broken.
pub proof fn lemma_errors_empty_iff_valid(findings: RuleFindings, checksum: Seq<char>)
    ensures
        report_of(findings, checksum).valid <==> report_of(findings, checksum).errors.len() == 0,
        report_of(findings, checksum).valid <==> messages_for(findings).len() == 0,
{
    reveal_strlit("Package name is required");
    reveal_strlit("Package name contains invalid characters");
    reveal_strlit("Version is required");
    reveal_strlit("Version must be valid semver (e.g., 1.0.0)");
    reveal_strlit("Image URI is required");
    let messages = messages_for(findings);
    if findings.any() {
        assert(messages.len() > 0);
        assert(messages.last().len() > 0);
        lemma_join_covers_last(messages, MESSAGE_SEPARATOR@);
    }
}

/// The empty name breaks the rule that asks for a name, and not the rule on
/// its characters.
pub proof fn lemma_empty_name_only_missing(version: Seq<char>, location: Seq<char>)
    ensures
        findings_for(Seq::empty(), version, location).name_missing,
        !findings_for(Seq::empty(), version, location).name_malformed,
{
}

/// The empty version breaks both rules on the version.
pub proof fn lemma_empty_version_breaks_both(name: Seq<char>, location: Seq<char>)
    ensures
        findings_for(name, Seq::empty(), location).version_missing,
        findings_for(name, Seq::empty(), location).version_malformed,
{
}

/// Decides whether `c` may stand in a package name.
pub fn is_valid_name_char(c: char) -> (ok: bool)
    ensures
        ok == is_name_char(c),
{
    char_is_alphanumeric(c) || c == '-' || c == '_'
}

/// Decides whether every character of `name` may stand in a package name.
pub fn has_valid_name_chars(name: &str) -> (ok: bool)
    ensures
        ok == has_name_chars_only(name@),
{
    for c in it: name.chars()
        invariant
            it.seq() == name@,
            forall|i: int| 0 <= i < it.index() ==> is_name_char(#[trigger] name@[i]),
    {
        if !is_valid_name_char(c) {
            assert(!is_name_char(name@[it.index() as int]));
            return false;
        }
    }
    true
}

/// Holds a name, a version and a location against every rule.
pub fn check_rules(name: &str, version: &str, location: &str) -> (findings: RuleFindings)
    ensures
        findings == findings_for(name@, version@, location@),
{
    RuleFindings {
        name_missing: name.is_empty(),
        name_malformed: !has_valid_name_chars(name),
        version_missing: version.is_empty(),
        version_malformed: !is_valid_semver(version),
        location_missing: location.is_empty(),
    }
}

/// Writes the report of `findings`: one message for each broken rule, in
/// the order of the rules, and the checksum handed through unchanged.
pub fn report(findings: RuleFindings, checksum: String) -> (result: ValidationResult)
    ensures
        result@ == report_of(findings, checksum@),
        result.valid <==> result.errors@.len() == 0,
{
    let mut lines: Vec<&'static str> = Vec::new();
    if findings.name_missing {
        lines.push(NAME_REQUIRED);
    }
    if findings.name_malformed {
        lines.push(NAME_INVALID);
    }
    if findings.version_missing {
        lines.push(VERSION_REQUIRED);
    }
    if findings.version_malformed {
        lines.push(VERSION_INVALID);
    }
    if findings.location_missing {
        lines.push(LOCATION_REQUIRED);
    }
    proof {
        assert(line_views(lines@) =~= messages_for(findings));
        lemma_errors_empty_iff_valid(findings, checksum@);
    }
    let errors = join_lines(&lines, MESSAGE_SEPARATOR);
    ValidationResult { valid: lines.is_empty(), errors, checksum }
}

} // verus!
