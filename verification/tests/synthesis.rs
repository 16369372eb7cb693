use crdgen::binder::ResourceScope;
use crdgen::descriptor::ResourceDescriptor;
use crdgen::error::BuildError;
use crdgen::rules::compile_rules;
use crdgen::schema::{AdditionalProps, CelRule, EnumVariant, SchemaNode, SchemaShape, VariantShape};
use crdgen::structural::check_structural;
use crdgen::synth::{
    synthesize, PrinterColumn, ScaleSpec, SelectableField, SubresourceSpec, VersionInput,
};

fn s(x: &str) -> String {
    x.to_string()
}

fn descriptor(group: &str, version: &str, kind: &str, namespaced: bool) -> ResourceDescriptor {
    ResourceDescriptor {
        group: s(group),
        version: s(version),
        kind: s(kind),
        root: None,
        singular: None,
        plural: None,
        short_names: vec![],
        categories: vec![],
        namespaced,
        has_status: false,
        deprecated: false,
        deprecation_warning: None,
    }
}

fn bare(shape: SchemaShape) -> SchemaNode {
    SchemaNode { shape, description: None, default: None, rules: vec![] }
}

fn int_node() -> SchemaNode {
    bare(SchemaShape::Integer { minimum: None, maximum: None })
}

fn obj(props: Vec<(&str, SchemaNode)>) -> SchemaNode {
    bare(SchemaShape::Object {
        properties: props.into_iter().map(|(k, v)| (s(k), v)).collect(),
        required: vec![],
        additional: AdditionalProps::Omitted,
    })
}

fn rule(expr: &str, message: Option<&str>, path: Option<&str>) -> CelRule {
    CelRule {
        rule: s(expr),
        message: message.map(s),
        field_path: path.map(s),
        reason: None,
    }
}

fn no_sub() -> SubresourceSpec {
    SubresourceSpec { status: false, scale: None }
}

fn version(name: &str, storage: bool, schema: Option<SchemaNode>) -> VersionInput {
    VersionInput {
        name: s(name),
        served: true,
        storage,
        schema,
        rules: vec![],
        subresources: no_sub(),
        printer_columns: vec![],
        selectable_fields: vec![],
    }
}

fn replicas_schema() -> SchemaNode {
    obj(vec![("spec", obj(vec![("replicas", int_node())]))])
}

fn scale(spec_path: &str, status_path: &str) -> ScaleSpec {
    ScaleSpec {
        spec_replicas_path: s(spec_path),
        status_replicas_path: s(status_path),
        label_selector_path: None,
    }
}

#[test]
fn scope_follows_namespaced_flag() {
    let d = descriptor("clux.dev", "v1", "Foo", true);
    let crd = synthesize(&d, vec![version("v1", true, None)], false).unwrap();
    assert_eq!(crd.scope, ResourceScope::Namespaced);
    assert_eq!(crd.scope.as_str(), "Namespaced");

    let d = descriptor("clux.dev", "v1", "Foo", false);
    let crd = synthesize(&d, vec![version("v1", true, None)], false).unwrap();
    assert_eq!(crd.scope, ResourceScope::Cluster);
    assert_eq!(crd.scope.as_str(), "Cluster");
}

#[test]
fn document_header_and_names() {
    let mut d = descriptor("clux.dev", "v1", "Foo", true);
    d.short_names = vec![s("f")];
    d.categories = vec![s("apps")];
    let crd = synthesize(&d, vec![version("v1", true, Some(replicas_schema()))], false).unwrap();
    assert_eq!(crd.api_version, "apiextensions.k8s.io/v1");
    assert_eq!(crd.kind, "CustomResourceDefinition");
    assert_eq!(crd.metadata_name, "foos.clux.dev");
    assert_eq!(crd.group, "clux.dev");
    assert_eq!(crd.names.kind, "Foo");
    assert_eq!(crd.names.plural, "foos");
    assert_eq!(crd.names.singular, "foo");
    assert_eq!(crd.names.short_names, vec![s("f")]);
    assert_eq!(crd.names.categories, vec![s("apps")]);
    assert_eq!(crd.versions.len(), 1);
    assert_eq!(crd.versions[0].name, "v1");
    assert!(crd.versions[0].served);
    assert!(crd.versions[0].storage);
}

#[test]
fn scale_without_status_always_fails() {
    let d = descriptor("clux.dev", "v1", "Foo", true);
    for (sp, st) in [
        (".spec.replicas", ".status.replicas"),
        (".spec.workers", ".status.workers"),
        (".spec.a.b", ".status.c.d"),
    ] {
        let mut v = version("v1", true, None);
        v.subresources = SubresourceSpec { status: false, scale: Some(scale(sp, st)) };
        match synthesize(&d, vec![v], false) {
            Err(BuildError::ScaleRequiresStatus { version }) => assert_eq!(version, "v1"),
            other => panic!("expected ScaleRequiresStatus, got {:?}", other),
        }
    }
}

#[test]
fn scale_with_status_succeeds() {
    let d = descriptor("clux.dev", "v1", "Foo", true);
    let mut v = version("v1", true, None);
    v.subresources = SubresourceSpec {
        status: true,
        scale: Some(scale(".spec.replicas", ".status.replicas")),
    };
    let crd = synthesize(&d, vec![v], false).unwrap();
    assert!(crd.versions[0].subresources.status);
    assert!(crd.versions[0].subresources.scale.is_some());
}

#[test]
fn scale_paths_must_be_rooted() {
    let d = descriptor("clux.dev", "v1", "Foo", true);
    let mut v = version("v1", true, None);
    v.subresources = SubresourceSpec {
        status: true,
        scale: Some(scale(".status.replicas", ".status.replicas")),
    };
    match synthesize(&d, vec![v], false) {
        Err(BuildError::InvalidJsonPath { path }) => assert_eq!(path, ".status.replicas"),
        other => panic!("expected InvalidJsonPath, got {:?}", other),
    }
    let mut v = version("v1", true, None);
    v.subresources = SubresourceSpec {
        status: true,
        scale: Some(scale(".spec.replicas", "status.replicas")),
    };
    match synthesize(&d, vec![v], false) {
        Err(BuildError::InvalidJsonPath { path }) => assert_eq!(path, "status.replicas"),
        other => panic!("expected InvalidJsonPath, got {:?}", other),
    }
}

#[test]
fn ambiguous_storage_versions() {
    let d = descriptor("clux.dev", "v2", "Foo", true);
    // Two versions both marked storage.
    let r = synthesize(&d, vec![version("v1", true, None), version("v2", true, None)], false);
    assert_eq!(r.unwrap_err(), BuildError::AmbiguousStorageVersion);
    // Two versions, none marked.
    let r = synthesize(&d, vec![version("v1", false, None), version("v2", false, None)], false);
    assert_eq!(r.unwrap_err(), BuildError::AmbiguousStorageVersion);
    // Exactly one marked: that one is storage, the other is not.
    let crd =
        synthesize(&d, vec![version("v1", false, None), version("v2", true, None)], false).unwrap();
    assert!(!crd.versions[0].storage);
    assert!(crd.versions[1].storage);
}

#[test]
fn sole_version_is_storage_by_default() {
    let d = descriptor("clux.dev", "v1", "Foo", true);
    let crd = synthesize(&d, vec![version("v1", false, None)], false).unwrap();
    assert!(crd.versions[0].storage);
}

#[test]
fn cel_rule_attaches_at_field_path() {
    let d = descriptor("clux.dev", "v1", "Foo", true);
    let mut v = version("v1", true, Some(replicas_schema()));
    v.rules = vec![rule(
        "self <= 10",
        Some("at most ten replicas"),
        Some(".spec.replicas"),
    )];
    let crd = synthesize(&d, vec![v], false).unwrap();
    let root = crd.versions[0].schema.as_ref().unwrap();
    let spec_node = match &root.shape {
        SchemaShape::Object { properties, .. } => &properties[0].1,
        other => panic!("expected object root, got {:?}", other),
    };
    let replicas_node = match &spec_node.shape {
        SchemaShape::Object { properties, .. } => &properties[0].1,
        other => panic!("expected object spec, got {:?}", other),
    };
    assert_eq!(replicas_node.rules.len(), 1);
    assert_eq!(replicas_node.rules[0].rule, "self <= 10");
    assert_eq!(replicas_node.rules[0].message.as_deref(), Some("at most ten replicas"));
    assert!(root.rules.is_empty());
    assert!(spec_node.rules.is_empty());
}

#[test]
fn synthesized_schema_is_input_plus_rules() {
    // The schema found in the document equals the pre-synthesis tree
    // augmented only with the validation-rule extensions.
    let d = descriptor("clux.dev", "v1", "Foo", true);
    let mut v = version("v1", true, Some(replicas_schema()));
    v.rules = vec![
        rule("self.spec.replicas >= 0", None, None),
        rule("self <= 10", Some("cap"), Some(".spec.replicas")),
    ];
    let crd = synthesize(&d, vec![v], false).unwrap();

    let mut expected = replicas_schema();
    expected.rules.push(rule("self.spec.replicas >= 0", None, None));
    match &mut expected.shape {
        SchemaShape::Object { properties, .. } => match &mut properties[0].1.shape {
            SchemaShape::Object { properties, .. } => {
                properties[0].1.rules.push(rule("self <= 10", Some("cap"), Some(".spec.replicas")));
            }
            _ => unreachable!(),
        },
        _ => unreachable!(),
    }
    assert_eq!(crd.versions[0].schema, Some(expected));
}

#[test]
fn rule_order_is_preserved_without_dedup() {
    let root = obj(vec![("spec", int_node())]);
    let rules = vec![
        rule("a", None, None),
        rule("a", None, None),
        rule("b", None, Some(".spec")),
    ];
    let t = compile_rules(root, &rules).unwrap();
    assert_eq!(t.rules.len(), 2);
    assert_eq!(t.rules[0].rule, "a");
    assert_eq!(t.rules[1].rule, "a");
    match &t.shape {
        SchemaShape::Object { properties, .. } => {
            assert_eq!(properties[0].1.rules.len(), 1);
            assert_eq!(properties[0].1.rules[0].rule, "b");
        }
        _ => unreachable!(),
    }
}

#[test]
fn unresolved_field_path_fails() {
    let d = descriptor("clux.dev", "v1", "Foo", true);
    let mut v = version("v1", true, Some(replicas_schema()));
    v.rules = vec![rule("true", None, Some(".spec.missing"))];
    match synthesize(&d, vec![v], false) {
        Err(BuildError::UnresolvedFieldPath { path }) => assert_eq!(path, ".spec.missing"),
        other => panic!("expected UnresolvedFieldPath, got {:?}", other),
    }
    // A malformed path resolves nothing either.
    let mut v = version("v1", true, Some(replicas_schema()));
    v.rules = vec![rule("true", None, Some("spec.replicas"))];
    match synthesize(&d, vec![v], false) {
        Err(BuildError::UnresolvedFieldPath { path }) => assert_eq!(path, "spec.replicas"),
        other => panic!("expected UnresolvedFieldPath, got {:?}", other),
    }
    // Rules without any schema have no target.
    let mut v = version("v1", true, None);
    v.rules = vec![rule("true", None, Some(".spec"))];
    match synthesize(&d, vec![v], false) {
        Err(BuildError::UnresolvedFieldPath { .. }) => {}
        other => panic!("expected UnresolvedFieldPath, got {:?}", other),
    }
}

fn enum_schema(variants: Vec<EnumVariant>) -> SchemaNode {
    bare(SchemaShape::OneOf { variants })
}

fn unit_variant(name: &str) -> EnumVariant {
    EnumVariant { name: s(name), shape: VariantShape::Unit }
}

fn struct_variant(name: &str) -> EnumVariant {
    EnumVariant {
        name: s(name),
        shape: VariantShape::Fields(Box::new(obj(vec![("value", int_node())]))),
    }
}

#[test]
fn mixed_enum_shapes_are_non_structural() {
    let d = descriptor("clux.dev", "v1", "Foo", true);
    let mixed = enum_schema(vec![unit_variant("Bar"), struct_variant("Baz")]);
    let v = version("v1", true, Some(mixed));
    match synthesize(&d, vec![v], false) {
        Err(BuildError::NonStructuralSchema) => {}
        other => panic!("expected NonStructuralSchema, got {:?}", other),
    }
}

#[test]
fn uniform_enum_shapes_are_structural() {
    let d = descriptor("clux.dev", "v1", "Foo", true);
    let structs = enum_schema(vec![struct_variant("Bar"), struct_variant("Baz")]);
    assert!(synthesize(&d, vec![version("v1", true, Some(structs))], false).is_ok());
    let units = enum_schema(vec![unit_variant("Bar"), unit_variant("Baz")]);
    assert!(synthesize(&d, vec![version("v1", true, Some(units))], false).is_ok());
}

#[test]
fn strict_mode_rejects_unconstrained_maps() {
    let open_map = bare(SchemaShape::Object {
        properties: vec![],
        required: vec![],
        additional: AdditionalProps::Any,
    });
    assert!(check_structural(&open_map, false).is_ok());
    assert!(check_structural(&open_map, true).is_err());
    let bounded = bare(SchemaShape::Object {
        properties: vec![],
        required: vec![],
        additional: AdditionalProps::Constrained(Box::new(int_node())),
    });
    assert!(check_structural(&bounded, true).is_ok());
}

#[test]
fn printer_columns_and_selectable_fields() {
    let d = descriptor("clux.dev", "v1", "Foo", true);
    let mut v = version("v1", true, None);
    v.printer_columns = vec![PrinterColumn {
        name: s("Replicas"),
        col_type: s("integer"),
        json_path: s(".spec.replicas"),
        description: None,
        priority: None,
    }];
    v.selectable_fields = vec![SelectableField { json_path: s(".spec.color") }];
    let crd = synthesize(&d, vec![v], false).unwrap();
    assert_eq!(crd.versions[0].printer_columns.len(), 1);
    assert_eq!(crd.versions[0].printer_columns[0].json_path, ".spec.replicas");
    assert_eq!(crd.versions[0].selectable_fields[0].json_path, ".spec.color");

    let mut v = version("v1", true, None);
    v.printer_columns = vec![PrinterColumn {
        name: s("Bad"),
        col_type: s("string"),
        json_path: s("no-leading-dot"),
        description: None,
        priority: None,
    }];
    match synthesize(&d, vec![v], false) {
        Err(BuildError::InvalidJsonPath { path }) => assert_eq!(path, "no-leading-dot"),
        other => panic!("expected InvalidJsonPath, got {:?}", other),
    }

    let mut v = version("v1", true, None);
    v.selectable_fields = vec![SelectableField { json_path: s(".metadata.name") }];
    match synthesize(&d, vec![v], false) {
        Err(BuildError::SelectableFieldOutOfScope { path }) => assert_eq!(path, ".metadata.name"),
        other => panic!("expected SelectableFieldOutOfScope, got {:?}", other),
    }
}

#[test]
fn invalid_naming_fails_synthesis() {
    let d = descriptor("clux.dev", "v1", "foo", true);
    match synthesize(&d, vec![version("v1", true, None)], false) {
        Err(BuildError::InvalidNaming { field, .. }) => assert_eq!(field, "kind"),
        other => panic!("expected InvalidNaming, got {:?}", other),
    }
}

#[test]
fn deprecation_is_carried_to_every_version() {
    let mut d = descriptor("clux.dev", "v1", "Foo", true);
    d.deprecated = true;
    d.deprecation_warning = Some(s("use v2 instead"));
    let crd = synthesize(&d, vec![version("v1", true, None)], false).unwrap();
    assert!(crd.versions[0].deprecated);
    assert_eq!(crd.versions[0].deprecation_warning.as_deref(), Some("use v2 instead"));
}

#[test]
fn error_rule_names() {
    assert_eq!(BuildError::AmbiguousStorageVersion.rule_name(), "AmbiguousStorageVersion");
    assert_eq!(BuildError::NonStructuralSchema.rule_name(), "NonStructuralSchema");
    assert_eq!(
        BuildError::ScaleRequiresStatus { version: s("v1") }.rule_name(),
        "ScaleRequiresStatus"
    );
    assert_eq!(
        BuildError::InvalidJsonPath { path: s(".x") }.rule_name(),
        "InvalidJSONPath"
    );
    assert_eq!(
        BuildError::EmptyRuleExpression { index: 0 }.rule_name(),
        "EmptyRuleExpression"
    );
}

#[test]
fn empty_rule_expression_fails() {
    // The expression is a build-time invariant of every rule.
    let root = obj(vec![("spec", int_node())]);
    match compile_rules(root, &vec![rule("", None, None)]) {
        Err(BuildError::EmptyRuleExpression { index }) => assert_eq!(index, 0),
        other => panic!("expected EmptyRuleExpression, got {:?}", other),
    }
    // The first defective rule wins, in declaration order.
    let root = obj(vec![("spec", int_node())]);
    let rules = vec![rule("self > 0", None, Some(".spec")), rule("", None, None)];
    match compile_rules(root, &rules) {
        Err(BuildError::EmptyRuleExpression { index }) => assert_eq!(index, 1),
        other => panic!("expected EmptyRuleExpression, got {:?}", other),
    }
    // Within one rule, the expression is checked before the path.
    let root = obj(vec![("spec", int_node())]);
    match compile_rules(root, &vec![rule("", None, Some(".missing"))]) {
        Err(BuildError::EmptyRuleExpression { index }) => assert_eq!(index, 0),
        other => panic!("expected EmptyRuleExpression, got {:?}", other),
    }
    // The synthesizer reports it the same way, schema or no schema.
    let d = descriptor("clux.dev", "v1", "Foo", true);
    let mut v = version("v1", true, Some(replicas_schema()));
    v.rules = vec![rule("", Some("msg"), Some(".spec.replicas"))];
    match synthesize(&d, vec![v], false) {
        Err(BuildError::EmptyRuleExpression { index }) => assert_eq!(index, 0),
        other => panic!("expected EmptyRuleExpression, got {:?}", other),
    }
    let mut v = version("v1", true, None);
    v.rules = vec![rule("", None, None)];
    match synthesize(&d, vec![v], false) {
        Err(BuildError::EmptyRuleExpression { index }) => assert_eq!(index, 0),
        other => panic!("expected EmptyRuleExpression, got {:?}", other),
    }
}

#[test]
fn malformed_selectable_path_beats_scope() {
    // Path shape is checked for every selectable field before scope is:
    // a malformed path anywhere reports InvalidJSONPath even when an
    // out-of-scope (but well-shaped) path comes earlier.
    let d = descriptor("clux.dev", "v1", "Foo", true);
    let mut v = version("v1", true, None);
    v.selectable_fields = vec![
        SelectableField { json_path: s(".metadata.name") },
        SelectableField { json_path: s("not-a-path") },
    ];
    match synthesize(&d, vec![v], false) {
        Err(BuildError::InvalidJsonPath { path }) => assert_eq!(path, "not-a-path"),
        other => panic!("expected InvalidJsonPath, got {:?}", other),
    }
}
