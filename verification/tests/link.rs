use sasl2_sys::config::Platform;
use sasl2_sys::link::{
    found_directives, library_name, link_directive, needs_shared_lookup, search_directive,
    select_link_kind, LinkKind,
};

#[test]
fn an_explicit_preference_is_honoured() {
    for shared_present in [false, true] {
        assert_eq!(select_link_kind(Some(true), shared_present), LinkKind::Static);
        assert_eq!(select_link_kind(Some(false), shared_present), LinkKind::Dynamic);
    }
}

#[test]
fn without_a_preference_a_shared_library_decides() {
    assert_eq!(select_link_kind(None, true), LinkKind::Dynamic);
    assert_eq!(select_link_kind(None, false), LinkKind::Static);
}

#[test]
fn the_file_system_is_asked_only_without_a_preference() {
    assert!(needs_shared_lookup(None));
    assert!(!needs_shared_lookup(Some(true)));
    assert!(!needs_shared_lookup(Some(false)));
}

#[test]
fn writes_the_words_of_the_link_kinds() {
    assert_eq!(LinkKind::Static.word(), "static");
    assert_eq!(LinkKind::Dynamic.word(), "dylib");
}

#[test]
fn names_the_library_by_platform() {
    assert_eq!(library_name(Platform::Unix), "sasl2");
    assert_eq!(library_name(Platform::Windows), "libsasl");
}

#[test]
fn writes_single_directives() {
    assert_eq!(search_directive("/usr/lib"), "cargo:rustc-link-search=native=/usr/lib");
    assert_eq!(search_directive(""), "cargo:rustc-link-search=native=");
    assert_eq!(link_directive(LinkKind::Static, "krb5"), "cargo:rustc-link-lib=static=krb5");
    assert_eq!(link_directive(LinkKind::Dynamic, "sasl2"), "cargo:rustc-link-lib=dylib=sasl2");
}

#[test]
fn writes_the_directives_of_a_found_library() {
    assert_eq!(
        found_directives(Platform::Unix, "/opt/sasl/lib", LinkKind::Dynamic),
        vec!["cargo:rustc-link-search=native=/opt/sasl/lib", "cargo:rustc-link-lib=dylib=sasl2"]
    );
    assert_eq!(
        found_directives(Platform::Windows, "C:\\sasl\\lib", LinkKind::Static),
        vec!["cargo:rustc-link-search=native=C:\\sasl\\lib", "cargo:rustc-link-lib=static=libsasl"]
    );
}
