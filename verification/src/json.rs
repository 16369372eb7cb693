//! The document surface: a JSON value tree with the exact field names
//! of the `apiextensions.k8s.io/v1` CustomResourceDefinition resource.
//!
//! The synthesizer's output is a plain value object; this module lays it
//! out as the JSON document a downstream API server parses — key for
//! key, including the `x-kubernetes-validations` extension for CEL
//! rules.  Writing the bytes is left to the caller; the tree here fixes
//! names and nesting.

use vstd::prelude::*;

use crate::binder::ResourceScope;
use crate::synth::CrdNames;
use crate::synth::CrdVersion;
use crate::synth::CustomResourceDefinition;
use crate::synth::PrinterColumn;
use crate::synth::ScaleSpec;
use crate::synth::SelectableField;
use crate::synth::SubresourceSpec;
use crate::schema::AdditionalV;
use crate::schema::DefaultV;
use crate::schema::DefaultValue;
use crate::schema::NodeV;
use crate::schema::RuleV;
use crate::schema::SchemaNode;
use crate::schema::SchemaShape;
use crate::schema::ShapeV;
use crate::schema::VariantShapeV;
use crate::schema::VariantV;
use crate::schema::AdditionalProps;
use crate::schema::CelRule;
use crate::schema::EnumVariant;
use crate::schema::VariantShape;

verus! {

/// A JSON value.  Object member order is kept, as a document writer
/// needs it; numbers are integral, which is all a CRD document holds.
#[derive(Debug, PartialEq, Eq)]
pub enum JsonValue {
    Null,
    Bool(bool),
    Int(i64),
    Str(String),
    Arr(Vec<JsonValue>),
    Obj(Vec<(String, JsonValue)>),
}

/// Ghost counterpart of `JsonValue`.
#[verifier::ext_equal]
pub ghost enum JsonV {
    Null,
    Bool(bool),
    Int(int),
    Str(Seq<char>),
    Arr(Seq<JsonV>),
    Obj(Seq<(Seq<char>, JsonV)>),
}

/// The view of a JSON value.
pub open spec fn json_view(j: JsonValue) -> JsonV
    decreases j,
{
    match j {
        JsonValue::Null => JsonV::Null,
        JsonValue::Bool(b) => JsonV::Bool(b),
        JsonValue::Int(n) => JsonV::Int(n as int),
        JsonValue::Str(s) => JsonV::Str(s@),
        JsonValue::Arr(items) => JsonV::Arr(
            Seq::new(
                items@.len(),
                |i: int|
                    if 0 <= i < items@.len() {
                        json_view(items@[i])
                    } else {
                        arbitrary()
                    },
            ),
        ),
        JsonValue::Obj(members) => JsonV::Obj(
            Seq::new(
                members@.len(),
                |i: int|
                    if 0 <= i < members@.len() {
                        (members@[i].0@, json_view(members@[i].1))
                    } else {
                        arbitrary()
                    },
            ),
        ),
    }
}

impl View for JsonValue {
    type V = JsonV;

    open spec fn view(&self) -> JsonV {
        json_view(*self)
    }
}

/// One member of a JSON object.
pub type JsonMember = (Seq<char>, JsonV);

/// A string member when the text is present, nothing otherwise.
pub open spec fn opt_str_entry(key: Seq<char>, o: Option<Seq<char>>) -> Seq<JsonMember> {
    match o {
        Some(s) => seq![(key, JsonV::Str(s))],
        None => Seq::empty(),
    }
}

/// An integer member when the number is present, nothing otherwise.
pub open spec fn opt_int_entry(key: Seq<char>, o: Option<int>) -> Seq<JsonMember> {
    match o {
        Some(n) => seq![(key, JsonV::Int(n))],
        None => Seq::empty(),
    }
}

/// A default value as JSON.
pub open spec fn default_json(d: DefaultV) -> JsonV {
    match d {
        DefaultV::Null => JsonV::Null,
        DefaultV::Bool(b) => JsonV::Bool(b),
        DefaultV::Int(n) => JsonV::Int(n),
        DefaultV::Text(s) => JsonV::Str(s),
    }
}

/// One entry of `x-kubernetes-validations`: the rule expression, then
/// message, fieldPath and reason when present, under the upstream
/// member names.
pub open spec fn rule_json(r: RuleV) -> JsonV {
    JsonV::Obj(
        seq![("rule"@, JsonV::Str(r.rule))] + opt_str_entry("message"@, r.message) + opt_str_entry(
            "fieldPath"@,
            r.field_path,
        ) + opt_str_entry("reason"@, r.reason),
    )
}

/// A schema node as an OpenAPI v3 object.
pub open spec fn schema_json(n: NodeV) -> JsonV
    decreases n,
{
    JsonV::Obj(
        opt_str_entry("description"@, n.description) + shape_entries(n.shape) + (match n.default {
            Some(d) => seq![("default"@, default_json(d))],
            None => Seq::empty(),
        }) + (if n.rules.len() > 0 {
            seq![
                (
                    "x-kubernetes-validations"@,
                    JsonV::Arr(
                        Seq::new(
                            n.rules.len(),
                            |i: int|
                                if 0 <= i < n.rules.len() {
                                    rule_json(n.rules[i])
                                } else {
                                    arbitrary()
                                },
                        ),
                    ),
                ),
            ]
        } else {
            Seq::empty()
        }),
    )
}

/// The members a shape contributes to its node's object.
pub open spec fn shape_entries(s: ShapeV) -> Seq<JsonMember>
    decreases s,
{
    match s {
        ShapeV::Object { properties, required, additional } => seq![
            ("type"@, JsonV::Str("object"@)),
            (
                "properties"@,
                JsonV::Obj(
                    Seq::new(
                        properties.len(),
                        |i: int|
                            if 0 <= i < properties.len() {
                                (properties[i].0, schema_json(properties[i].1))
                            } else {
                                arbitrary()
                            },
                    ),
                ),
            ),
            (
                "required"@,
                JsonV::Arr(
                    Seq::new(
                        required.len(),
                        |i: int|
                            if 0 <= i < required.len() {
                                JsonV::Str(required[i])
                            } else {
                                arbitrary()
                            },
                    ),
                ),
            ),
        ] + (match additional {
            AdditionalV::Omitted => Seq::empty(),
            AdditionalV::Any => seq![("additionalProperties"@, JsonV::Bool(true))],
            AdditionalV::Constrained(b) => seq![("additionalProperties"@, schema_json(*b))],
        }),
        ShapeV::Text { min_length, max_length, pattern } => seq![("type"@, JsonV::Str("string"@))]
            + opt_int_entry("minLength"@, match min_length {
            Some(n) => Some(n as int),
            None => None,
        }) + opt_int_entry("maxLength"@, match max_length {
            Some(n) => Some(n as int),
            None => None,
        }) + opt_str_entry("pattern"@, pattern),
        ShapeV::Integer { minimum, maximum } => seq![("type"@, JsonV::Str("integer"@))]
            + opt_int_entry("minimum"@, match minimum {
            Some(n) => Some(n as int),
            None => None,
        }) + opt_int_entry("maximum"@, match maximum {
            Some(n) => Some(n as int),
            None => None,
        }),
        ShapeV::Number { minimum, maximum } => seq![("type"@, JsonV::Str("number"@))]
            + opt_int_entry("minimum"@, match minimum {
            Some(n) => Some(n as int),
            None => None,
        }) + opt_int_entry("maximum"@, match maximum {
            Some(n) => Some(n as int),
            None => None,
        }),
        ShapeV::Boolean => seq![("type"@, JsonV::Str("boolean"@))],
        ShapeV::Null => seq![("type"@, JsonV::Str("null"@))],
        ShapeV::Array { items } => seq![
            ("type"@, JsonV::Str("array"@)),
            ("items"@, schema_json(*items)),
        ],
        ShapeV::OneOf { variants } => seq![
            (
                "oneOf"@,
                JsonV::Arr(
                    Seq::new(
                        variants.len(),
                        |i: int|
                            if 0 <= i < variants.len() {
                                variant_json(variants[i])
                            } else {
                                arbitrary()
                            },
                    ),
                ),
            ),
        ],
    }
}

/// One externally tagged enum variant: a unit variant is an enum-of-one
/// string schema; a variant with fields is a one-property object
/// requiring its tag; positional fields sit in a tuple-shaped array
/// under the tag.
pub open spec fn variant_json(v: VariantV) -> JsonV
    decreases v,
{
    match v.shape {
        VariantShapeV::Unit => JsonV::Obj(
            seq![
                ("type"@, JsonV::Str("string"@)),
                ("enum"@, JsonV::Arr(seq![JsonV::Str(v.name)])),
            ],
        ),
        VariantShapeV::Fields(b) => JsonV::Obj(
            seq![
                ("type"@, JsonV::Str("object"@)),
                ("properties"@, JsonV::Obj(seq![(v.name, schema_json(*b))])),
                ("required"@, JsonV::Arr(seq![JsonV::Str(v.name)])),
            ],
        ),
        VariantShapeV::Positional(ns) => JsonV::Obj(
            seq![
                ("type"@, JsonV::Str("object"@)),
                (
                    "properties"@,
                    JsonV::Obj(
                        seq![
                            (
                                v.name,
                                JsonV::Obj(
                                    seq![
                                        ("type"@, JsonV::Str("array"@)),
                                        (
                                            "items"@,
                                            JsonV::Arr(
                                                Seq::new(
                                                    ns.len(),
                                                    |i: int|
                                                        if 0 <= i < ns.len() {
                                                            schema_json(ns[i])
                                                        } else {
                                                            arbitrary()
                                                        },
                                                ),
                                            ),
                                        ),
                                    ],
                                ),
                            ),
                        ],
                    ),
                ),
                ("required"@, JsonV::Arr(seq![JsonV::Str(v.name)])),
            ],
        ),
    }
}

/// The members of an object under construction, viewed.
pub open spec fn members_view(v: Seq<(String, JsonValue)>) -> Seq<JsonMember> {
    Seq::new(
        v.len(),
        |i: int|
            if 0 <= i < v.len() {
                (v[i].0@, json_view(v[i].1))
            } else {
                arbitrary()
            },
    )
}

/// The elements of an array under construction, viewed.
pub open spec fn elements_view(v: Seq<JsonValue>) -> Seq<JsonV> {
    Seq::new(
        v.len(),
        |i: int|
            if 0 <= i < v.len() {
                json_view(v[i])
            } else {
                arbitrary()
            },
    )
}


/// Wraps the members into an object, pinning its view.
fn obj_value(members: Vec<(String, JsonValue)>) -> (r: JsonValue)
    ensures
        r@ == JsonV::Obj(members_view(members@)),
{
    let r = JsonValue::Obj(members);
    proof {
        assert(r@->Obj_0 =~= members_view(r->Obj_0@));
        assert(r@ =~= JsonV::Obj(members_view(r->Obj_0@)));
    }
    r
}

/// Wraps the elements into an array, pinning its view.
fn arr_value(items: Vec<JsonValue>) -> (r: JsonValue)
    ensures
        r@ == JsonV::Arr(elements_view(items@)),
{
    let r = JsonValue::Arr(items);
    proof {
        assert(r@->Arr_0 =~= elements_view(r->Arr_0@));
        assert(r@ =~= JsonV::Arr(elements_view(r->Arr_0@)));
    }
    r
}

fn str_entry(key: &str, text: &String) -> (e: (String, JsonValue))
    ensures
        e.0@ == key@,
        e.1@ == JsonV::Str(text@),
{
    (key.to_owned(), JsonValue::Str(text.clone()))
}

fn rule_to_json(r: &CelRule) -> (j: JsonValue)
    ensures
        j@ == rule_json(r@),
{
    let mut ents: Vec<(String, JsonValue)> = Vec::new();
    ents.push(str_entry("rule", &r.rule));
    match &r.message {
        Some(m) => ents.push(str_entry("message", m)),
        None => {},
    }
    match &r.field_path {
        Some(p) => ents.push(str_entry("fieldPath", p)),
        None => {},
    }
    match &r.reason {
        Some(s) => ents.push(str_entry("reason", s)),
        None => {},
    }
    let ghost ev = ents@;
    let j = obj_value(ents);
    proof {
        assert(members_view(ev) =~~= rule_json(r@)->Obj_0);
        assert(j@ =~~= rule_json(r@));
    }
    j
}

/// Lays the schema node out as its OpenAPI v3 object.
#[verifier::loop_isolation(false)]
#[verifier::rlimit(100)]
pub fn schema_to_json(n: &SchemaNode) -> (r: JsonValue)
    ensures
        r@ == schema_json(n@),
    decreases *n,
{
    let mut ents: Vec<(String, JsonValue)> = Vec::new();
    match &n.description {
        Some(text) => ents.push(str_entry("description", text)),
        None => {},
    }
    proof {
        assert(members_view(ents@) =~~= opt_str_entry("description"@, n@.description));
    }
    let ghost head = members_view(ents@);
    match &n.shape {
        SchemaShape::Object { properties, required, additional } => {
            let ghost psv = n@.shape->Object_properties;
            ents.push(str_entry("type", &String::from_str("object")));
            let mut props: Vec<(String, JsonValue)> = Vec::new();
            let mut i: usize = 0;
            while i < properties.len()
                invariant
                    props@.len() == i,
                    0 <= i <= properties@.len(),
                    forall|k: int|
                        0 <= k < i ==> (#[trigger] props@[k]).0@ == psv[k].0 && props@[k].1@
                            == schema_json(psv[k].1),
                decreases properties@.len() - i,
            {
                let child = schema_to_json(&properties[i].1);
                proof {
                    assert(psv[i as int] == (properties@[i as int].0@, properties@[i as int].1@));
                }
                props.push((properties[i].0.clone(), child));
                i += 1;
            }
            let ghost pv = props@;
            ents.push((String::from_str("properties"), obj_value(props)));
            let mut req: Vec<JsonValue> = Vec::new();
            let mut i: usize = 0;
            while i < required.len()
                invariant
                    req@.len() == i,
                    0 <= i <= required@.len(),
                    forall|k: int|
                        0 <= k < i ==> (#[trigger] req@[k])@ == JsonV::Str(required@[k]@),
                decreases required@.len() - i,
            {
                req.push(JsonValue::Str(required[i].clone()));
                i += 1;
            }
            let ghost rv = req@;
            ents.push((String::from_str("required"), arr_value(req)));
            match additional {
                AdditionalProps::Omitted => {},
                AdditionalProps::Any => {
                    ents.push((String::from_str("additionalProperties"), JsonValue::Bool(true)));
                },
                AdditionalProps::Constrained(b) => {
                    let sub = schema_to_json(&**b);
                    ents.push((String::from_str("additionalProperties"), sub));
                },
            }
            proof {
                assert(members_view(pv) =~~= shape_entries(n@.shape)[1].1->Obj_0);
                assert(elements_view(rv) =~~= shape_entries(n@.shape)[2].1->Arr_0);
                assert(members_view(ents@) =~~= head + shape_entries(n@.shape));
            }
        },
        SchemaShape::Text { min_length, max_length, pattern } => {
            ents.push(str_entry("type", &String::from_str("string")));
            match min_length {
                Some(v) => ents.push((String::from_str("minLength"), JsonValue::Int(*v as i64))),
                None => {},
            }
            match max_length {
                Some(v) => ents.push((String::from_str("maxLength"), JsonValue::Int(*v as i64))),
                None => {},
            }
            match pattern {
                Some(p) => ents.push(str_entry("pattern", p)),
                None => {},
            }
            proof {
                assert(members_view(ents@) =~~= head + shape_entries(n@.shape));
            }
        },
        SchemaShape::Integer { minimum, maximum } => {
            ents.push(str_entry("type", &String::from_str("integer")));
            match minimum {
                Some(v) => ents.push((String::from_str("minimum"), JsonValue::Int(*v))),
                None => {},
            }
            match maximum {
                Some(v) => ents.push((String::from_str("maximum"), JsonValue::Int(*v))),
                None => {},
            }
            proof {
                assert(members_view(ents@) =~~= head + shape_entries(n@.shape));
            }
        },
        SchemaShape::Number { minimum, maximum } => {
            ents.push(str_entry("type", &String::from_str("number")));
            match minimum {
                Some(v) => ents.push((String::from_str("minimum"), JsonValue::Int(*v))),
                None => {},
            }
            match maximum {
                Some(v) => ents.push((String::from_str("maximum"), JsonValue::Int(*v))),
                None => {},
            }
            proof {
                assert(members_view(ents@) =~~= head + shape_entries(n@.shape));
            }
        },
        SchemaShape::Boolean => {
            ents.push(str_entry("type", &String::from_str("boolean")));
            proof {
                assert(members_view(ents@) =~~= head + shape_entries(n@.shape));
            }
        },
        SchemaShape::Null => {
            ents.push(str_entry("type", &String::from_str("null")));
            proof {
                assert(members_view(ents@) =~~= head + shape_entries(n@.shape));
            }
        },
        SchemaShape::Array { items } => {
            ents.push(str_entry("type", &String::from_str("array")));
            let sub = schema_to_json(&**items);
            ents.push((String::from_str("items"), sub));
            proof {
                assert(members_view(ents@) =~~= head + shape_entries(n@.shape));
            }
        },
        SchemaShape::OneOf { variants } => {
            let ghost vsv = n@.shape->OneOf_variants;
            let mut arr: Vec<JsonValue> = Vec::new();
            let mut i: usize = 0;
            while i < variants.len()
                invariant
                    arr@.len() == i,
                    0 <= i <= variants@.len(),
                    forall|k: int| 0 <= k < i ==> (#[trigger] arr@[k])@ == variant_json(vsv[k]),
                decreases variants@.len() - i,
            {
                let vj = variant_to_json(&variants[i]);
                proof {
                    assert(vsv[i as int] == variants@[i as int]@);
                }
                arr.push(vj);
                i += 1;
            }
            let ghost av = arr@;
            ents.push((String::from_str("oneOf"), arr_value(arr)));
            proof {
                assert(elements_view(av) =~~= shape_entries(n@.shape)[0].1->Arr_0);
                assert(members_view(ents@) =~~= head + shape_entries(n@.shape));
            }
        },
    }
    let ghost mid = members_view(ents@);
    match &n.default {
        Some(d) => {
            let dv = match d {
                DefaultValue::Null => JsonValue::Null,
                DefaultValue::Bool(b) => JsonValue::Bool(*b),
                DefaultValue::Int(v) => JsonValue::Int(*v),
                DefaultValue::Text(s) => JsonValue::Str(s.clone()),
            };
            ents.push((String::from_str("default"), dv));
        },
        None => {},
    }
    proof {
        assert(members_view(ents@) =~~= mid + (match n@.default {
            Some(d) => seq![("default"@, default_json(d))],
            None => Seq::<JsonMember>::empty(),
        }));
    }
    let ghost mid2 = members_view(ents@);
    if n.rules.len() > 0 {
        let mut arr: Vec<JsonValue> = Vec::new();
        let mut i: usize = 0;
        while i < n.rules.len()
            invariant
                arr@.len() == i,
                0 <= i <= n.rules@.len(),
                forall|k: int| 0 <= k < i ==> (#[trigger] arr@[k])@ == rule_json(n@.rules[k]),
            decreases n.rules@.len() - i,
        {
            let rj = rule_to_json(&n.rules[i]);
            proof {
                assert(n@.rules[i as int] == n.rules@[i as int]@);
            }
            arr.push(rj);
            i += 1;
        }
        let ghost av = arr@;
        ents.push((String::from_str("x-kubernetes-validations"), arr_value(arr)));
        proof {
            assert(elements_view(av) =~~= schema_json(n@)->Obj_0.last().1->Arr_0);
        }
    }
    let ghost ev = ents@;
    let r = obj_value(ents);
    proof {
        assert(members_view(ev) =~~= schema_json(n@)->Obj_0);
        assert(r@ =~~= schema_json(n@));
    }
    r
}

/// Lays one enum variant out as its member of `oneOf`.
#[verifier::loop_isolation(false)]
fn variant_to_json(v: &EnumVariant) -> (r: JsonValue)
    ensures
        r@ == variant_json(v@),
    decreases *v,
{
    match &v.shape {
        VariantShape::Unit => {
            let mut ents: Vec<(String, JsonValue)> = Vec::new();
            ents.push(str_entry("type", &String::from_str("string")));
            let mut names: Vec<JsonValue> = Vec::new();
            names.push(JsonValue::Str(v.name.clone()));
            let ghost nv = names@;
            ents.push((String::from_str("enum"), arr_value(names)));
            let ghost ev = ents@;
            let r = obj_value(ents);
            proof {
                assert(elements_view(nv) =~~= seq![JsonV::Str(v@.name)]);
                assert(members_view(ev) =~~= variant_json(v@)->Obj_0);
                assert(r@ =~~= variant_json(v@));
            }
            r
        },
        VariantShape::Fields(b) => {
            let mut ents: Vec<(String, JsonValue)> = Vec::new();
            ents.push(str_entry("type", &String::from_str("object")));
            let mut props: Vec<(String, JsonValue)> = Vec::new();
            let sub = schema_to_json(&**b);
            props.push((v.name.clone(), sub));
            let ghost pv = props@;
            ents.push((String::from_str("properties"), obj_value(props)));
            let mut names: Vec<JsonValue> = Vec::new();
            names.push(JsonValue::Str(v.name.clone()));
            let ghost nv = names@;
            ents.push((String::from_str("required"), arr_value(names)));
            let ghost ev = ents@;
            let r = obj_value(ents);
            proof {
                assert(members_view(pv) =~~= seq![(v@.name, schema_json(*v@.shape->Fields_0))]);
                assert(elements_view(nv) =~~= seq![JsonV::Str(v@.name)]);
                assert(members_view(ev) =~~= variant_json(v@)->Obj_0);
                assert(r@ =~~= variant_json(v@));
            }
            r
        },
        VariantShape::Positional(ns) => {
            let ghost nsv = v@.shape->Positional_0;
            let mut items: Vec<JsonValue> = Vec::new();
            let mut i: usize = 0;
            while i < ns.len()
                invariant
                    items@.len() == i,
                    0 <= i <= ns@.len(),
                    forall|k: int| 0 <= k < i ==> (#[trigger] items@[k])@ == schema_json(nsv[k]),
                decreases ns@.len() - i,
            {
                let sub = schema_to_json(&ns[i]);
                proof {
                    assert(nsv[i as int] == ns@[i as int]@);
                }
                items.push(sub);
                i += 1;
            }
            let ghost iv = items@;
            let mut tuple_ents: Vec<(String, JsonValue)> = Vec::new();
            tuple_ents.push(str_entry("type", &String::from_str("array")));
            tuple_ents.push((String::from_str("items"), arr_value(items)));
            let ghost tv = tuple_ents@;
            let mut props: Vec<(String, JsonValue)> = Vec::new();
            props.push((v.name.clone(), obj_value(tuple_ents)));
            let ghost pv = props@;
            let mut ents: Vec<(String, JsonValue)> = Vec::new();
            ents.push(str_entry("type", &String::from_str("object")));
            ents.push((String::from_str("properties"), obj_value(props)));
            let mut names: Vec<JsonValue> = Vec::new();
            names.push(JsonValue::Str(v.name.clone()));
            let ghost nv = names@;
            ents.push((String::from_str("required"), arr_value(names)));
            let ghost ev = ents@;
            let r = obj_value(ents);
            proof {
                let spec_obj = variant_json(v@)->Obj_0;
                assert(elements_view(iv) =~~= spec_obj[1].1->Obj_0[0].1->Obj_0[1].1->Arr_0);
                assert(members_view(tv) =~~= spec_obj[1].1->Obj_0[0].1->Obj_0);
                assert(members_view(pv) =~~= spec_obj[1].1->Obj_0);
                assert(elements_view(nv) =~~= seq![JsonV::Str(v@.name)]);
                assert(members_view(ev) =~~= spec_obj);
                assert(r@ =~~= variant_json(v@));
            }
            r
        },
    }
}

/// The `scale` subresource object.
pub open spec fn scale_json(sc: ScaleSpec) -> JsonV {
    JsonV::Obj(
        opt_str_entry("labelSelectorPath"@, match sc.label_selector_path {
            Some(p) => Some(p@),
            None => None,
        }) + seq![
            ("specReplicasPath"@, JsonV::Str(sc.spec_replicas_path@)),
            ("statusReplicasPath"@, JsonV::Str(sc.status_replicas_path@)),
        ],
    )
}

/// The `subresources` members of a version: an empty `status` object
/// when the status subresource is on, and the `scale` object when one
/// is declared.
pub open spec fn subresources_json(s: SubresourceSpec) -> Seq<JsonMember> {
    (match s.scale {
        Some(sc) => seq![("scale"@, scale_json(sc))],
        None => Seq::empty(),
    }) + (if s.status {
        seq![("status"@, JsonV::Obj(Seq::empty()))]
    } else {
        Seq::empty()
    })
}

/// One printer column object.
pub open spec fn column_json(c: PrinterColumn) -> JsonV {
    JsonV::Obj(
        opt_str_entry("description"@, match c.description {
            Some(d) => Some(d@),
            None => None,
        }) + seq![("jsonPath"@, JsonV::Str(c.json_path@)), ("name"@, JsonV::Str(c.name@))]
            + opt_int_entry("priority"@, match c.priority {
            Some(p) => Some(p as int),
            None => None,
        }) + seq![("type"@, JsonV::Str(c.col_type@))],
    )
}

/// One selectable field object.
pub open spec fn selectable_json(f: SelectableField) -> JsonV {
    JsonV::Obj(seq![("jsonPath"@, JsonV::Str(f.json_path@))])
}

/// One entry of `spec.versions`.
pub open spec fn version_json(v: CrdVersion) -> JsonV {
    JsonV::Obj(
        seq![("name"@, JsonV::Str(v.name@))] + (if v.deprecated {
            seq![("deprecated"@, JsonV::Bool(true))]
        } else {
            Seq::empty()
        }) + opt_str_entry("deprecationWarning"@, match v.deprecation_warning {
            Some(w) => Some(w@),
            None => None,
        }) + (match v.schema {
            Some(s) => seq![
                ("schema"@, JsonV::Obj(seq![("openAPIV3Schema"@, schema_json(s@))])),
            ],
            None => Seq::empty(),
        }) + seq![("served"@, JsonV::Bool(v.served)), ("storage"@, JsonV::Bool(v.storage))] + (
        if v.subresources.status || v.subresources.scale is Some {
            seq![("subresources"@, JsonV::Obj(subresources_json(v.subresources)))]
        } else {
            Seq::empty()
        }) + (if v.printer_columns@.len() > 0 {
            seq![
                (
                    "additionalPrinterColumns"@,
                    JsonV::Arr(
                        Seq::new(
                            v.printer_columns@.len(),
                            |i: int|
                                if 0 <= i < v.printer_columns@.len() {
                                    column_json(v.printer_columns@[i])
                                } else {
                                    arbitrary()
                                },
                        ),
                    ),
                ),
            ]
        } else {
            Seq::empty()
        }) + (if v.selectable_fields@.len() > 0 {
            seq![
                (
                    "selectableFields"@,
                    JsonV::Arr(
                        Seq::new(
                            v.selectable_fields@.len(),
                            |i: int|
                                if 0 <= i < v.selectable_fields@.len() {
                                    selectable_json(v.selectable_fields@[i])
                                } else {
                                    arbitrary()
                                },
                        ),
                    ),
                ),
            ]
        } else {
            Seq::empty()
        }),
    )
}

/// The `spec.names` object.
pub open spec fn names_json(n: CrdNames) -> JsonV {
    JsonV::Obj(
        (if n.categories@.len() > 0 {
            seq![
                (
                    "categories"@,
                    JsonV::Arr(
                        Seq::new(
                            n.categories@.len(),
                            |i: int|
                                if 0 <= i < n.categories@.len() {
                                    JsonV::Str(n.categories@[i]@)
                                } else {
                                    arbitrary()
                                },
                        ),
                    ),
                ),
            ]
        } else {
            Seq::empty()
        }) + seq![("kind"@, JsonV::Str(n.kind@)), ("plural"@, JsonV::Str(n.plural@))] + (
        if n.short_names@.len() > 0 {
            seq![
                (
                    "shortNames"@,
                    JsonV::Arr(
                        Seq::new(
                            n.short_names@.len(),
                            |i: int|
                                if 0 <= i < n.short_names@.len() {
                                    JsonV::Str(n.short_names@[i]@)
                                } else {
                                    arbitrary()
                                },
                        ),
                    ),
                ),
            ]
        } else {
            Seq::empty()
        }) + seq![("singular"@, JsonV::Str(n.singular@))],
    )
}

/// The scope literal of the document.
pub open spec fn scope_str(s: ResourceScope) -> Seq<char> {
    match s {
        ResourceScope::Namespaced => "Namespaced"@,
        ResourceScope::Cluster => "Cluster"@,
    }
}

/// The whole CustomResourceDefinition document.
pub open spec fn crd_json(c: CustomResourceDefinition) -> JsonV {
    JsonV::Obj(
        seq![
            ("apiVersion"@, JsonV::Str(c.api_version@)),
            ("kind"@, JsonV::Str(c.kind@)),
            ("metadata"@, JsonV::Obj(seq![("name"@, JsonV::Str(c.metadata_name@))])),
            (
                "spec"@,
                JsonV::Obj(
                    seq![
                        ("group"@, JsonV::Str(c.group@)),
                        ("names"@, names_json(c.names)),
                        ("scope"@, JsonV::Str(scope_str(c.scope))),
                        (
                            "versions"@,
                            JsonV::Arr(
                                Seq::new(
                                    c.versions@.len(),
                                    |i: int|
                                        if 0 <= i < c.versions@.len() {
                                            version_json(c.versions@[i])
                                        } else {
                                            arbitrary()
                                        },
                                ),
                            ),
                        ),
                    ],
                ),
            ),
        ],
    )
}

fn scale_to_json(sc: &ScaleSpec) -> (j: JsonValue)
    ensures
        j@ == scale_json(*sc),
{
    let mut ents: Vec<(String, JsonValue)> = Vec::new();
    match &sc.label_selector_path {
        Some(p) => ents.push(str_entry("labelSelectorPath", p)),
        None => {},
    }
    ents.push(str_entry("specReplicasPath", &sc.spec_replicas_path));
    ents.push(str_entry("statusReplicasPath", &sc.status_replicas_path));
    let ghost ev = ents@;
    let j = obj_value(ents);
    proof {
        assert(members_view(ev) =~~= scale_json(*sc)->Obj_0);
        assert(j@ =~~= scale_json(*sc));
    }
    j
}

fn column_to_json(c: &PrinterColumn) -> (j: JsonValue)
    ensures
        j@ == column_json(*c),
{
    let mut ents: Vec<(String, JsonValue)> = Vec::new();
    match &c.description {
        Some(d) => ents.push(str_entry("description", d)),
        None => {},
    }
    ents.push(str_entry("jsonPath", &c.json_path));
    ents.push(str_entry("name", &c.name));
    match &c.priority {
        Some(p) => ents.push((String::from_str("priority"), JsonValue::Int(*p as i64))),
        None => {},
    }
    ents.push(str_entry("type", &c.col_type));
    let ghost ev = ents@;
    let j = obj_value(ents);
    proof {
        assert(members_view(ev) =~~= column_json(*c)->Obj_0);
        assert(j@ =~~= column_json(*c));
    }
    j
}

fn strings_to_json(v: &Vec<String>) -> (j: JsonValue)
    ensures
        j@ == JsonV::Arr(
            Seq::new(
                v@.len(),
                |i: int|
                    if 0 <= i < v@.len() {
                        JsonV::Str(v@[i]@)
                    } else {
                        arbitrary()
                    },
            ),
        ),
{
    let mut items: Vec<JsonValue> = Vec::new();
    let mut i: usize = 0;
    while i < v.len()
        invariant
            items@.len() == i,
            0 <= i <= v@.len(),
            forall|k: int| 0 <= k < i ==> (#[trigger] items@[k])@ == JsonV::Str(v@[k]@),
        decreases v@.len() - i,
    {
        items.push(JsonValue::Str(v[i].clone()));
        i += 1;
    }
    let ghost iv = items@;
    let j = arr_value(items);
    proof {
        assert(elements_view(iv) =~~= Seq::new(
            v@.len(),
            |i: int|
                if 0 <= i < v@.len() {
                    JsonV::Str(v@[i]@)
                } else {
                    arbitrary()
                },
        ));
    }
    j
}

/// Lays one version block out as its entry of `spec.versions`.
#[verifier::loop_isolation(false)]
#[verifier::rlimit(100)]
fn version_to_json(v: &CrdVersion) -> (j: JsonValue)
    ensures
        j@ == version_json(*v),
{
    let mut ents: Vec<(String, JsonValue)> = Vec::new();
    ents.push(str_entry("name", &v.name));
    proof {
        assert(members_view(ents@) =~~= seq![("name"@, JsonV::Str(v.name@))]);
    }
    let ghost s0 = members_view(ents@);
    if v.deprecated {
        ents.push((String::from_str("deprecated"), JsonValue::Bool(true)));
    }
    proof {
        assert(members_view(ents@) =~~= s0 + (if v.deprecated {
            seq![("deprecated"@, JsonV::Bool(true))]
        } else {
            Seq::<JsonMember>::empty()
        }));
    }
    let ghost s1 = members_view(ents@);
    match &v.deprecation_warning {
        Some(w) => ents.push(str_entry("deprecationWarning", w)),
        None => {},
    }
    proof {
        assert(members_view(ents@) =~~= s1 + opt_str_entry("deprecationWarning"@, match v
            .deprecation_warning {
            Some(w) => Some(w@),
            None => None,
        }));
    }
    let ghost s2 = members_view(ents@);
    match &v.schema {
        Some(s) => {
            let node = schema_to_json(s);
            let mut inner: Vec<(String, JsonValue)> = Vec::new();
            inner.push((String::from_str("openAPIV3Schema"), node));
            let ghost iv = inner@;
            ents.push((String::from_str("schema"), obj_value(inner)));
            proof {
                assert(members_view(iv) =~~= seq![("openAPIV3Schema"@, schema_json(s@))]);
            }
        },
        None => {},
    }
    proof {
        assert(members_view(ents@) =~~= s2 + (match v.schema {
            Some(s) => seq![
                ("schema"@, JsonV::Obj(seq![("openAPIV3Schema"@, schema_json(s@))])),
            ],
            None => Seq::<JsonMember>::empty(),
        }));
    }
    let ghost s3 = members_view(ents@);
    ents.push((String::from_str("served"), JsonValue::Bool(v.served)));
    ents.push((String::from_str("storage"), JsonValue::Bool(v.storage)));
    proof {
        assert(members_view(ents@) =~~= s3 + seq![
            ("served"@, JsonV::Bool(v.served)),
            ("storage"@, JsonV::Bool(v.storage)),
        ]);
    }
    let ghost s4 = members_view(ents@);
    if v.subresources.status || v.subresources.scale.is_some() {
        let mut subs: Vec<(String, JsonValue)> = Vec::new();
        match &v.subresources.scale {
            Some(sc) => subs.push((String::from_str("scale"), scale_to_json(sc))),
            None => {},
        }
        if v.subresources.status {
            let empty: Vec<(String, JsonValue)> = Vec::new();
            subs.push((String::from_str("status"), obj_value(empty)));
        }
        let ghost sv = subs@;
        ents.push((String::from_str("subresources"), obj_value(subs)));
        proof {
            let spec_subs = subresources_json(v.subresources);
            if v.subresources.status {
                let k = spec_subs.len() - 1;
                let ov = members_view(sv)[k].1;
                assert(ov->Obj_0 =~= Seq::<JsonMember>::empty());
                assert(ov == JsonV::Obj(ov->Obj_0));
            }
            assert(members_view(sv) =~~= spec_subs);
        }
    }
    proof {
        assert(members_view(ents@) =~~= s4 + (
        if v.subresources.status || v.subresources.scale is Some {
            seq![("subresources"@, JsonV::Obj(subresources_json(v.subresources)))]
        } else {
            Seq::<JsonMember>::empty()
        }));
    }
    let ghost s5 = members_view(ents@);
    if v.printer_columns.len() > 0 {
        let mut cols: Vec<JsonValue> = Vec::new();
        let mut i: usize = 0;
        while i < v.printer_columns.len()
            invariant
                cols@.len() == i,
                0 <= i <= v.printer_columns@.len(),
                forall|k: int|
                    0 <= k < i ==> (#[trigger] cols@[k])@ == column_json(v.printer_columns@[k]),
            decreases v.printer_columns@.len() - i,
        {
            cols.push(column_to_json(&v.printer_columns[i]));
            i += 1;
        }
        let ghost cv = cols@;
        ents.push((String::from_str("additionalPrinterColumns"), arr_value(cols)));
        proof {
            assert(elements_view(cv) =~~= Seq::new(
                v.printer_columns@.len(),
                |i: int|
                    if 0 <= i < v.printer_columns@.len() {
                        column_json(v.printer_columns@[i])
                    } else {
                        arbitrary()
                    },
            ));
        }
    }
    proof {
        assert(members_view(ents@) =~~= s5 + (if v.printer_columns@.len() > 0 {
            seq![
                (
                    "additionalPrinterColumns"@,
                    JsonV::Arr(
                        Seq::new(
                            v.printer_columns@.len(),
                            |i: int|
                                if 0 <= i < v.printer_columns@.len() {
                                    column_json(v.printer_columns@[i])
                                } else {
                                    arbitrary()
                                },
                        ),
                    ),
                ),
            ]
        } else {
            Seq::<JsonMember>::empty()
        }));
    }
    let ghost s6 = members_view(ents@);
    if v.selectable_fields.len() > 0 {
        let mut fields: Vec<JsonValue> = Vec::new();
        let mut i: usize = 0;
        while i < v.selectable_fields.len()
            invariant
                fields@.len() == i,
                0 <= i <= v.selectable_fields@.len(),
                forall|k: int|
                    0 <= k < i ==> (#[trigger] fields@[k])@ == selectable_json(
                        v.selectable_fields@[k],
                    ),
            decreases v.selectable_fields@.len() - i,
        {
            let mut one: Vec<(String, JsonValue)> = Vec::new();
            one.push(str_entry("jsonPath", &v.selectable_fields[i].json_path));
            let ghost ov = one@;
            let oj = obj_value(one);
            proof {
                assert(members_view(ov) =~~= selectable_json(
                    v.selectable_fields@[i as int],
                )->Obj_0);
                assert(oj@ =~~= selectable_json(v.selectable_fields@[i as int]));
            }
            fields.push(oj);
            i += 1;
        }
        let ghost fv = fields@;
        ents.push((String::from_str("selectableFields"), arr_value(fields)));
        proof {
            assert(elements_view(fv) =~~= Seq::new(
                v.selectable_fields@.len(),
                |i: int|
                    if 0 <= i < v.selectable_fields@.len() {
                        selectable_json(v.selectable_fields@[i])
                    } else {
                        arbitrary()
                    },
            ));
        }
    }
    proof {
        assert(members_view(ents@) =~~= s6 + (if v.selectable_fields@.len() > 0 {
            seq![
                (
                    "selectableFields"@,
                    JsonV::Arr(
                        Seq::new(
                            v.selectable_fields@.len(),
                            |i: int|
                                if 0 <= i < v.selectable_fields@.len() {
                                    selectable_json(v.selectable_fields@[i])
                                } else {
                                    arbitrary()
                                },
                        ),
                    ),
                ),
            ]
        } else {
            Seq::<JsonMember>::empty()
        }));
    }
    let ghost ev = ents@;
    let j = obj_value(ents);
    proof {
        assert(members_view(ev) =~~= version_json(*v)->Obj_0);
        assert(j@ =~~= version_json(*v));
    }
    j
}

/// Lays the whole document out with the exact upstream member names:
/// `apiVersion`, `kind`, `metadata.name`, and `spec` with its `group`,
/// `names`, `scope` and `versions`.
#[verifier::loop_isolation(false)]
pub fn crd_to_json(c: &CustomResourceDefinition) -> (j: JsonValue)
    ensures
        j@ == crd_json(*c),
{
    let mut ents: Vec<(String, JsonValue)> = Vec::new();
    ents.push(str_entry("apiVersion", &c.api_version));
    ents.push(str_entry("kind", &c.kind));
    let mut meta: Vec<(String, JsonValue)> = Vec::new();
    meta.push(str_entry("name", &c.metadata_name));
    let ghost mv = meta@;
    ents.push((String::from_str("metadata"), obj_value(meta)));
    proof {
        assert(members_view(mv) =~~= seq![("name"@, JsonV::Str(c.metadata_name@))]);
    }
    let mut spec_ents: Vec<(String, JsonValue)> = Vec::new();
    spec_ents.push(str_entry("group", &c.group));
    let mut names: Vec<(String, JsonValue)> = Vec::new();
    if c.names.categories.len() > 0 {
        names.push((String::from_str("categories"), strings_to_json(&c.names.categories)));
    }
    names.push(str_entry("kind", &c.names.kind));
    names.push(str_entry("plural", &c.names.plural));
    if c.names.short_names.len() > 0 {
        names.push((String::from_str("shortNames"), strings_to_json(&c.names.short_names)));
    }
    names.push(str_entry("singular", &c.names.singular));
    let ghost nv = names@;
    spec_ents.push((String::from_str("names"), obj_value(names)));
    proof {
        assert(members_view(nv) =~~= names_json(c.names)->Obj_0);
    }
    spec_ents.push((String::from_str("scope"), JsonValue::Str(c.scope.as_str().to_owned())));
    let mut vers: Vec<JsonValue> = Vec::new();
    let mut i: usize = 0;
    while i < c.versions.len()
        invariant
            vers@.len() == i,
            0 <= i <= c.versions@.len(),
            forall|k: int| 0 <= k < i ==> (#[trigger] vers@[k])@ == version_json(c.versions@[k]),
        decreases c.versions@.len() - i,
    {
        vers.push(version_to_json(&c.versions[i]));
        i += 1;
    }
    let ghost vv = vers@;
    spec_ents.push((String::from_str("versions"), arr_value(vers)));
    proof {
        assert(elements_view(vv) =~~= Seq::new(
            c.versions@.len(),
            |i: int|
                if 0 <= i < c.versions@.len() {
                    version_json(c.versions@[i])
                } else {
                    arbitrary()
                },
        ));
    }
    let ghost sv = spec_ents@;
    ents.push((String::from_str("spec"), obj_value(spec_ents)));
    proof {
        assert(members_view(sv) =~~= crd_json(*c)->Obj_0[3].1->Obj_0);
    }
    let ghost ev = ents@;
    let j = obj_value(ents);
    proof {
        assert(members_view(ev) =~~= crd_json(*c)->Obj_0);
        assert(j@ =~~= crd_json(*c));
    }
    j
}


} // verus!
