use kodex::service_identity::validate_service_family_hint;

#[test]
fn service_routing_accepts_package_families() {
    for family in [
        "OpenAI.Kodex_3k8sg7r9htsxt",
        "OpenAI.KodexBeta_jabp31b5fhs74",
    ] {
        assert!(validate_service_family_hint(family).is_ok());
    }
}

#[test]
fn service_routing_rejects_paths_and_malformed_families() {
    for family in [
        "",
        "_3k8sg7r9htsxt",
        "OpenAI.Kodex_bad",
        "OpenAI.Kodex_3k8sg7r9htsxt\\child",
        "..\\OpenAI.Kodex_3k8sg7r9htsxt",
        "OpenAI.Kodex_extra_3k8sg7r9htsxt",
        "OpenAI.Kodex\0_3k8sg7r9htsxt",
    ] {
        assert!(validate_service_family_hint(family).is_err(), "{family:?}");
    }
}

#[test]
fn service_routing_rejects_excluded_base32_letters_and_short_names() {
    // `i`, `l`, `o` and `u` are not base32 digits of a publisher id.
    assert!(validate_service_family_hint("OpenAI.Kodex_3k8sg7r9htsxi").is_err());
    assert!(validate_service_family_hint("OpenAI.Kodex_3K8SG7R9HTSXT").is_err());
    assert!(validate_service_family_hint("ab_3k8sg7r9htsxt").is_err());
    assert!(validate_service_family_hint("abc_3k8sg7r9htsxt").is_ok());
}
