use crdgen::descriptor::ResourceDescriptor;
use crdgen::json::{crd_to_json, schema_to_json, JsonValue};
use crdgen::schema::{AdditionalProps, CelRule, EnumVariant, SchemaNode, SchemaShape, VariantShape};
use crdgen::synth::{synthesize, ScaleSpec, SubresourceSpec, VersionInput};

fn s(x: &str) -> String {
    x.to_string()
}

fn descriptor(group: &str, version: &str, kind: &str, namespaced: bool) -> ResourceDescriptor {
    ResourceDescriptor {
        group: s(group),
        version: s(version),
        kind: s(kind),
        root: None,
        singular: None,
        plural: None,
        short_names: vec![s("f")],
        categories: vec![],
        namespaced,
        has_status: false,
        deprecated: false,
        deprecation_warning: None,
    }
}

fn get<'a>(j: &'a JsonValue, key: &str) -> &'a JsonValue {
    match j {
        JsonValue::Obj(members) => {
            for (k, v) in members {
                if k == key {
                    return v;
                }
            }
            panic!("no member {:?} in {:?}", key, j);
        }
        other => panic!("not an object: {:?}", other),
    }
}

fn has_key(j: &JsonValue, key: &str) -> bool {
    match j {
        JsonValue::Obj(members) => members.iter().any(|(k, _)| k == key),
        _ => false,
    }
}

fn text(j: &JsonValue) -> &str {
    match j {
        JsonValue::Str(t) => t,
        other => panic!("not a string: {:?}", other),
    }
}

fn bare(shape: SchemaShape) -> SchemaNode {
    SchemaNode { shape, description: None, default: None, rules: vec![] }
}

fn int_node() -> SchemaNode {
    bare(SchemaShape::Integer { minimum: None, maximum: None })
}

fn obj(props: Vec<(&str, SchemaNode)>) -> SchemaNode {
    bare(SchemaShape::Object {
        properties: props.into_iter().map(|(k, v)| (s(k), v)).collect(),
        required: vec![],
        additional: AdditionalProps::Omitted,
    })
}

#[test]
fn document_layout_matches_upstream_names() {
    let d = descriptor("clux.dev", "v1", "Foo", true);
    let schema = obj(vec![("spec", obj(vec![("replicas", int_node())]))]);
    let mut v = VersionInput {
        name: s("v1"),
        served: true,
        storage: true,
        schema: Some(schema),
        rules: vec![CelRule {
            rule: s("self.spec.replicas <= 10"),
            message: Some(s("too many")),
            field_path: None,
            reason: None,
        }],
        subresources: SubresourceSpec {
            status: true,
            scale: Some(ScaleSpec {
                spec_replicas_path: s(".spec.replicas"),
                status_replicas_path: s(".status.replicas"),
                label_selector_path: None,
            }),
        },
        printer_columns: vec![],
        selectable_fields: vec![],
    };
    v.printer_columns = vec![];
    let crd = synthesize(&d, vec![v], true).unwrap();
    let doc = crd_to_json(&crd);

    assert_eq!(text(get(&doc, "apiVersion")), "apiextensions.k8s.io/v1");
    assert_eq!(text(get(&doc, "kind")), "CustomResourceDefinition");
    assert_eq!(text(get(get(&doc, "metadata"), "name")), "foos.clux.dev");
    let spec = get(&doc, "spec");
    assert_eq!(text(get(spec, "group")), "clux.dev");
    assert_eq!(text(get(spec, "scope")), "Namespaced");
    let names = get(spec, "names");
    assert_eq!(text(get(names, "kind")), "Foo");
    assert_eq!(text(get(names, "plural")), "foos");
    assert_eq!(text(get(names, "singular")), "foo");
    assert_eq!(get(names, "shortNames"), &JsonValue::Arr(vec![JsonValue::Str(s("f"))]));
    let versions = match get(spec, "versions") {
        JsonValue::Arr(items) => items,
        other => panic!("versions is not an array: {:?}", other),
    };
    assert_eq!(versions.len(), 1);
    let v0 = &versions[0];
    assert_eq!(text(get(v0, "name")), "v1");
    assert_eq!(get(v0, "served"), &JsonValue::Bool(true));
    assert_eq!(get(v0, "storage"), &JsonValue::Bool(true));
    let subs = get(v0, "subresources");
    assert!(has_key(subs, "status"));
    let scale = get(subs, "scale");
    assert_eq!(text(get(scale, "specReplicasPath")), ".spec.replicas");
    assert_eq!(text(get(scale, "statusReplicasPath")), ".status.replicas");
    let root = get(get(v0, "schema"), "openAPIV3Schema");
    assert_eq!(text(get(root, "type")), "object");
    let rules = match get(root, "x-kubernetes-validations") {
        JsonValue::Arr(items) => items,
        other => panic!("validations is not an array: {:?}", other),
    };
    assert_eq!(text(get(&rules[0], "rule")), "self.spec.replicas <= 10");
    assert_eq!(text(get(&rules[0], "message")), "too many");
    let replicas = get(get(get(get(root, "properties"), "spec"), "properties"), "replicas");
    assert_eq!(text(get(replicas, "type")), "integer");
}

#[test]
fn schema_layout_details() {
    let node = SchemaNode {
        shape: SchemaShape::Text {
            min_length: Some(3),
            max_length: None,
            pattern: Some(s("^a.*")),
        },
        description: Some(s("a name")),
        default: None,
        rules: vec![],
    };
    let j = schema_to_json(&node);
    assert_eq!(text(get(&j, "description")), "a name");
    assert_eq!(text(get(&j, "type")), "string");
    assert_eq!(get(&j, "minLength"), &JsonValue::Int(3));
    assert!(!has_key(&j, "maxLength"));
    assert_eq!(text(get(&j, "pattern")), "^a.*");
    assert!(!has_key(&j, "x-kubernetes-validations"));

    let open_map = bare(SchemaShape::Object {
        properties: vec![],
        required: vec![s("x")],
        additional: AdditionalProps::Any,
    });
    let j = schema_to_json(&open_map);
    assert_eq!(get(&j, "additionalProperties"), &JsonValue::Bool(true));
    assert_eq!(get(&j, "required"), &JsonValue::Arr(vec![JsonValue::Str(s("x"))]));

    let arr = bare(SchemaShape::Array { items: Box::new(int_node()) });
    let j = schema_to_json(&arr);
    assert_eq!(text(get(&j, "type")), "array");
    assert_eq!(text(get(get(&j, "items"), "type")), "integer");
}

#[test]
fn positional_variant_uses_items_array() {
    let node = bare(SchemaShape::OneOf {
        variants: vec![EnumVariant {
            name: s("Pair"),
            shape: VariantShape::Positional(vec![int_node(), int_node()]),
        }],
    });
    let j = schema_to_json(&node);
    let entries = match get(&j, "oneOf") {
        JsonValue::Arr(items) => items,
        other => panic!("oneOf is not an array: {:?}", other),
    };
    let pair = get(get(&entries[0], "properties"), "Pair");
    assert_eq!(text(get(pair, "type")), "array");
    match get(pair, "items") {
        JsonValue::Arr(items) => assert_eq!(items.len(), 2),
        other => panic!("items is not an array: {:?}", other),
    }
}
