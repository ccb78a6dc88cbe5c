use meshstack::error::ErrorKind;
use meshstack::profile::{resolve_optional_profile, resolve_profile, ProfileScope};

#[test]
fn allowed_names_resolve_to_their_overlay_file() {
    assert_eq!(resolve_profile("dev", ProfileScope::Install).unwrap(), "dev-values.yaml");
    assert_eq!(resolve_profile("prod", ProfileScope::Install).unwrap(), "prod-values.yaml");
    assert_eq!(resolve_profile("dev", ProfileScope::Deploy).unwrap(), "dev-values.yaml");
    assert_eq!(resolve_profile("prod", ProfileScope::Deploy).unwrap(), "prod-values.yaml");
    assert_eq!(resolve_profile("staging", ProfileScope::Deploy).unwrap(), "staging-values.yaml");
}

#[test]
fn staging_is_not_an_install_profile() {
    let e = resolve_profile("staging", ProfileScope::Install).unwrap_err();
    assert_eq!(e.kind, ErrorKind::UnknownTarget);
    assert_eq!(e.message, "Unknown profile: staging. Valid profiles are: dev, prod, custom");
}

#[test]
fn custom_is_not_implemented_for_any_operation() {
    for scope in [ProfileScope::Install, ProfileScope::Deploy] {
        let e = resolve_profile("custom", scope).unwrap_err();
        assert_eq!(e.kind, ErrorKind::NotImplemented);
        assert_eq!(e.message, "Custom profile not yet implemented.");
    }
}

#[test]
fn unknown_environment_lists_the_valid_ones() {
    let e = resolve_profile("invalid-env", ProfileScope::Deploy).unwrap_err();
    assert_eq!(e.kind, ErrorKind::UnknownTarget);
    assert_eq!(
        e.message,
        "Unknown environment: invalid-env. Valid environments are: dev, prod, staging"
    );
}

#[test]
fn empty_and_near_miss_names_are_unknown() {
    assert_eq!(resolve_profile("", ProfileScope::Install).unwrap_err().kind, ErrorKind::UnknownTarget);
    assert_eq!(resolve_profile("Dev", ProfileScope::Install).unwrap_err().kind, ErrorKind::UnknownTarget);
    assert_eq!(resolve_profile("dev ", ProfileScope::Deploy).unwrap_err().kind, ErrorKind::UnknownTarget);
}

#[test]
fn no_name_selects_no_overlay() {
    assert_eq!(resolve_optional_profile(&None, ProfileScope::Install).unwrap(), None);
    assert_eq!(
        resolve_optional_profile(&Some("prod".to_string()), ProfileScope::Install).unwrap(),
        Some("prod-values.yaml".to_string())
    );
    assert_eq!(
        resolve_optional_profile(&Some("custom".to_string()), ProfileScope::Deploy).unwrap_err().kind,
        ErrorKind::NotImplemented
    );
}
