use crdgen::binder::{bind_capability, request_path, ResourceScope};
use crdgen::error::BuildError;
use crdgen::descriptor::{validate_descriptor, ResourceDescriptor};
use crdgen::names::{is_dns_label, is_dns_subdomain, pluralize, to_ascii_lower};
use crdgen::paths::parse_dot_path;

fn s(x: &str) -> String {
    x.to_string()
}

fn descriptor(group: &str, version: &str, kind: &str, namespaced: bool) -> ResourceDescriptor {
    ResourceDescriptor {
        group: s(group),
        version: s(version),
        kind: s(kind),
        root: None,
        singular: None,
        plural: None,
        short_names: vec![],
        categories: vec![],
        namespaced,
        has_status: false,
        deprecated: false,
        deprecation_warning: None,
    }
}

#[test]
fn capability_for_foo() {
    let d = descriptor("clux.dev", "v1", "Foo", true);
    assert!(validate_descriptor(&d).is_ok());
    let c = bind_capability(&d);
    assert_eq!(c.plural, "foos");
    assert_eq!(c.singular, "foo");
    assert_eq!(c.api_version, "clux.dev/v1");
    assert_eq!(c.kind, "Foo");
    assert_eq!(c.group, "clux.dev");
    assert_eq!(c.version, "v1");
    assert_eq!(c.scope, ResourceScope::Namespaced);
    assert!(is_dns_label(&c.plural));
}

#[test]
fn capability_ignores_schema_validity() {
    // Binding never fails, even for a descriptor the synthesizer rejects.
    let d = descriptor("Not A Subdomain", "v1", "Foo", false);
    assert!(validate_descriptor(&d).is_err());
    let c = bind_capability(&d);
    assert_eq!(c.plural, "foos");
    assert_eq!(c.scope, ResourceScope::Cluster);
}

#[test]
fn capability_core_group() {
    let d = descriptor("", "v1", "Pod", true);
    let c = bind_capability(&d);
    assert_eq!(c.api_version, "v1");
}

#[test]
fn name_overrides_win() {
    let mut d = descriptor("clux.dev", "v1", "Foo", true);
    d.singular = Some(s("foot"));
    d.plural = Some(s("feetz"));
    let c = bind_capability(&d);
    assert_eq!(c.singular, "foot");
    assert_eq!(c.plural, "feetz");
}

#[test]
fn pluralize_suffix_rules() {
    assert_eq!(pluralize("foo"), "foos");
    assert_eq!(pluralize("box"), "boxes");
    assert_eq!(pluralize("bus"), "buses");
    assert_eq!(pluralize("quartz"), "quartzes");
    assert_eq!(pluralize("dish"), "dishes");
    assert_eq!(pluralize("patch"), "patches");
    assert_eq!(pluralize("policy"), "policies");
    assert_eq!(pluralize("gateway"), "gateways");
    assert_eq!(pluralize("y"), "ies");
    assert_eq!(pluralize(""), "");
}

#[test]
fn lowercasing_kind() {
    assert_eq!(to_ascii_lower("FooBar"), "foobar");
    assert_eq!(to_ascii_lower("V2Beta1"), "v2beta1");
    assert_eq!(to_ascii_lower("abc"), "abc");
}

#[test]
fn dns_label_shape() {
    assert!(is_dns_label("foos"));
    assert!(is_dns_label("a"));
    assert!(is_dns_label("a-b-9"));
    assert!(is_dns_label(&"a".repeat(63)));
    assert!(!is_dns_label(&"a".repeat(64)));
    assert!(!is_dns_label(""));
    assert!(!is_dns_label("-ab"));
    assert!(!is_dns_label("ab-"));
    assert!(!is_dns_label("aB"));
    assert!(!is_dns_label("a.b"));
}

#[test]
fn dns_subdomain_shape() {
    assert!(is_dns_subdomain("clux.dev"));
    assert!(is_dns_subdomain("a"));
    assert!(is_dns_subdomain("a.b.c"));
    assert!(!is_dns_subdomain(""));
    assert!(!is_dns_subdomain(".a"));
    assert!(!is_dns_subdomain("a."));
    assert!(!is_dns_subdomain("a..b"));
    assert!(!is_dns_subdomain("a.-b"));
    assert!(!is_dns_subdomain("a-.b"));
    assert!(is_dns_subdomain(&format!("{}.{}", "a".repeat(63), "b")));
    assert!(!is_dns_subdomain(&format!("{}.{}", "a".repeat(64), "b")));
    let long = format!("{}.{}.{}.{}", "a".repeat(63), "b".repeat(63), "c".repeat(63), "d".repeat(61));
    assert_eq!(long.len(), 253);
    assert!(is_dns_subdomain(&long));
    assert!(!is_dns_subdomain(&format!("{}x", long)));
}

#[test]
fn invalid_descriptor_names_are_reported() {
    let d = descriptor("clux.dev", "V1", "Foo", true);
    match validate_descriptor(&d) {
        Err(BuildError::InvalidNaming { field, value }) => {
            assert_eq!(field, "version");
            assert_eq!(value, "V1");
        }
        other => panic!("expected InvalidNaming, got {:?}", other),
    }
    let d = descriptor("clux.dev", "v1", "foo", true);
    match validate_descriptor(&d) {
        Err(BuildError::InvalidNaming { field, .. }) => assert_eq!(field, "kind"),
        other => panic!("expected InvalidNaming, got {:?}", other),
    }
    let mut d = descriptor("clux.dev", "v1", "Foo", true);
    d.plural = Some(s("Feet"));
    match validate_descriptor(&d) {
        Err(BuildError::InvalidNaming { field, value }) => {
            assert_eq!(field, "plural");
            assert_eq!(value, "Feet");
        }
        other => panic!("expected InvalidNaming, got {:?}", other),
    }
}

#[test]
fn request_paths() {
    let d = descriptor("clux.dev", "v1", "Foo", true);
    let c = bind_capability(&d);
    assert_eq!(
        request_path(&c, Some("default"), "foo-1"),
        "/apis/clux.dev/v1/namespaces/default/foos/foo-1"
    );
    assert_eq!(request_path(&c, None, "foo-1"), "/apis/clux.dev/v1/foos/foo-1");
    let core = bind_capability(&descriptor("", "v1", "Pod", true));
    assert_eq!(
        request_path(&core, Some("kube-system"), "p"),
        "/api/v1/namespaces/kube-system/pods/p"
    );
}

#[test]
fn dot_path_parsing() {
    assert_eq!(
        parse_dot_path(".spec.replicas"),
        Some(vec![s("spec"), s("replicas")])
    );
    assert_eq!(parse_dot_path(".spec"), Some(vec![s("spec")]));
    assert_eq!(parse_dot_path(""), None);
    assert_eq!(parse_dot_path("."), None);
    assert_eq!(parse_dot_path("spec.replicas"), None);
    assert_eq!(parse_dot_path(".spec."), None);
    assert_eq!(parse_dot_path("..spec"), None);
    assert_eq!(parse_dot_path(".spec..replicas"), None);
}
