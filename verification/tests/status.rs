use crate_ai_engine::format_package_status;
use crate_ai_engine::status::{render_status, BRAND_MARKER};

#[test]
fn status_line_of_a_package() {
    assert_eq!(
        format_package_status("test-agent", "1.0.0", "ready"),
        "⚓ Stevedore Package 'test-agent@1.0.0' - Status: READY"
    );
}

#[test]
fn status_is_written_in_upper_case() {
    assert_eq!(
        format_package_status("a", "b", "Pending review"),
        "⚓ Stevedore Package 'a@b' - Status: PENDING REVIEW"
    );
    assert_eq!(
        format_package_status("a", "b", "ALREADY"),
        "⚓ Stevedore Package 'a@b' - Status: ALREADY"
    );
    assert_eq!(
        format_package_status("a", "b", "straße"),
        "⚓ Stevedore Package 'a@b' - Status: STRASSE"
    );
}

#[test]
fn status_line_leaves_name_and_version_as_they_are() {
    assert_eq!(
        format_package_status("Mixed-Case", "v1.Beta", "ok"),
        "⚓ Stevedore Package 'Mixed-Case@v1.Beta' - Status: OK"
    );
    assert_eq!(format_package_status("", "", ""), "⚓ Stevedore Package '@' - Status: ");
}

#[test]
fn status_line_with_another_marker() {
    assert_eq!(
        render_status("[pkg]", "agent", "2.0.1", "FAILED"),
        "[pkg] 'agent@2.0.1' - Status: FAILED"
    );
    assert_eq!(render_status("", "n", "v", "t"), " 'n@v' - Status: t");
}

#[test]
fn status_line_writes_the_token_as_given() {
    assert_eq!(
        render_status(BRAND_MARKER, "agent", "1.0.0", "ready"),
        "⚓ Stevedore Package 'agent@1.0.0' - Status: ready"
    );
}
