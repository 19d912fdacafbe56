//! The one-line status message of a package.

use vstd::prelude::*;
use vstd::string::*;

verus! {

/// The marker that a status line begins with, unless another is given.
pub const BRAND_MARKER: &'static str = "⚓ Stevedore Package";

/// `text` in upper case, as `str::to_uppercase` of the standard library
/// writes it.
pub uninterp spec fn uppercase_of(text: Seq<char>) -> Seq<char>;

/// Calls `str::to_uppercase`, which maps each character to its upper case
/// by the Unicode tables; one character may become several. The contract
/// only names the result.
#[verifier::external_body]
fn to_uppercase(text: &str) -> (upper: String)
    ensures
        upper@ == uppercase_of(text@),
{
    text.to_uppercase()
}

/// The status line: `marker 'name@version' - Status: token`.
pub open spec fn status_line(
    marker: Seq<char>,
    name: Seq<char>,
    version: Seq<char>,
    token: Seq<char>,
) -> Seq<char> {
    marker + " '"@ + name + "@"@ + version + "' - Status: "@ + token
}

/// Writes a status line with the given marker and status token. The token
/// is written as it is given.
pub fn render_status(marker: &str, name: &str, version: &str, token: &str) -> (line: String)
    ensures
        line@ == status_line(marker@, name@, version@, token@),
{
    let mut line = String::new();
    line.append(marker);
    line.append(" '");
    line.append(name);
    line.append("@");
    line.append(version);
    line.append("' - Status: ");
    line.append(token);
    assert(line@ =~= status_line(marker@, name@, version@, token@));
    line
}

/// Writes the status line of a package, with the status in upper case.
pub fn format_package_status(name: &str, version: &str, status: &str) -> (line: String)
    ensures
        line@ == status_line(BRAND_MARKER@, name@, version@, uppercase_of(status@)),
{
    let token = to_uppercase(status);
    render_status(BRAND_MARKER, name, version, token.as_str())
}

} // verus!
