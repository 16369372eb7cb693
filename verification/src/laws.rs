//! The library-wide laws: what holds of every input, proved once.

use vstd::prelude::*;

use crate::binder::ResourceScope;
use crate::descriptor::ResourceDescriptor;
use crate::descriptor::descriptor_valid;
use crate::descriptor::plural_name;
use crate::descriptor::singular_name;
use crate::names::dns_label;
use crate::schema::RuleV;
use crate::rules::apply_rule;
use crate::rules::attach_one;
use crate::rules::compile_from;
use crate::rules::find_prop;
use crate::rules::lemma_find_prop_props;
use crate::rules::resolves;
use crate::rules::with_rule;
use crate::schema::AdditionalV;
use crate::schema::NodeV;
use crate::schema::ShapeV;
use crate::schema::VariantShapeV;
use crate::schema::VariantV;
use crate::structural::structural;
use crate::structural::variant_structural;
use crate::structural::variants_uniform;
use crate::synth::CustomResourceDefinition;
use crate::synth::VersionInput;
use crate::synth::crd_matches;
use crate::synth::compiled_schema;
use crate::synth::storage_count;
use crate::synth::storage_ok;
use crate::synth::synth_ok;
use crate::synth::version_ok;
use crate::synth::scale_status_ok;

verus! {

/// A valid descriptor always carries DNS-label singular and plural
/// names, so the capability binder — which is total and independent of
/// any schema — hands a generic client names it can put in a request
/// path.
pub proof fn lemma_valid_descriptor_names_are_dns_labels(d: ResourceDescriptor)
    requires
        descriptor_valid(d),
    ensures
        dns_label(plural_name(d)),
        dns_label(singular_name(d)),
{
}

/// Every synthesized document's scope follows the descriptor's
/// namespaced flag: `Namespaced` when set, `Cluster` otherwise.
pub proof fn lemma_scope_follows_namespaced(
    d: ResourceDescriptor,
    vs: Seq<VersionInput>,
    c: CustomResourceDefinition,
)
    requires
        crd_matches(d, vs, c),
    ensures
        d.namespaced ==> c.scope == ResourceScope::Namespaced,
        !d.namespaced ==> c.scope == ResourceScope::Cluster,
{
}

/// A scale subresource declared without the status subresource defeats
/// synthesis, whatever its paths hold.
pub proof fn lemma_scale_without_status_fails(
    d: ResourceDescriptor,
    vs: Seq<VersionInput>,
    strict: bool,
    i: int,
)
    requires
        0 <= i < vs.len(),
        vs[i].subresources.scale is Some,
        !vs[i].subresources.status,
    ensures
        !synth_ok(d, vs, strict),
{
    assert(!scale_status_ok(vs[i]));
    assert(!version_ok(vs[i], strict));
}

proof fn lemma_storage_count_ge_one(vs: Seq<VersionInput>, a: int, i: int)
    requires
        0 <= a <= i < vs.len(),
        vs[i].storage,
    ensures
        storage_count(vs, a) >= 1,
    decreases i - a,
{
    if a < i {
        lemma_storage_count_ge_one(vs, a + 1, i);
    }
}

proof fn lemma_storage_count_ge_two(vs: Seq<VersionInput>, a: int, i: int, j: int)
    requires
        0 <= a <= i < j < vs.len(),
        vs[i].storage,
        vs[j].storage,
    ensures
        storage_count(vs, a) >= 2,
    decreases i - a,
{
    if a < i {
        lemma_storage_count_ge_two(vs, a + 1, i, j);
    } else {
        lemma_storage_count_ge_one(vs, a + 1, j);
    }
}

/// Two versions both marked as the storage version defeat synthesis.
pub proof fn lemma_two_storage_versions_fail(
    d: ResourceDescriptor,
    vs: Seq<VersionInput>,
    strict: bool,
    i: int,
    j: int,
)
    requires
        0 <= i < j < vs.len(),
        vs[i].storage,
        vs[j].storage,
    ensures
        !synth_ok(d, vs, strict),
{
    lemma_storage_count_ge_two(vs, 0, i, j);
    assert(!storage_ok(vs));
}

/// In a synthesized document with several versions, each version's
/// storage flag is exactly the input's marking; with a sole version the
/// flag is always set.
pub proof fn lemma_storage_flags_carried(
    d: ResourceDescriptor,
    vs: Seq<VersionInput>,
    c: CustomResourceDefinition,
    i: int,
)
    requires
        crd_matches(d, vs, c),
        0 <= i < vs.len(),
    ensures
        vs.len() > 1 ==> c.versions@[i].storage == vs[i].storage,
        vs.len() == 1 ==> c.versions@[i].storage,
{
}

/// An enum level mixing a unit-like variant with a struct- or
/// tuple-like one is not a structural schema.
pub proof fn lemma_mixed_enum_not_structural(n: NodeV, strict: bool, i: int, j: int)
    requires
        n.shape matches ShapeV::OneOf { variants } && 0 <= i < variants.len() && 0 <= j
            < variants.len() && variants[i].shape is Unit && !(variants[j].shape is Unit),
    ensures
        !structural(n, strict),
{
    let variants = n.shape->OneOf_variants;
    assert(!variants_uniform(variants));
}

/// An enum level whose variants all carry payloads — none unit-like —
/// presents a uniform encoding, so such a schema passes the guard as
/// soon as each payload does.
pub proof fn lemma_uniform_enum_structural(n: NodeV, strict: bool)
    requires
        n.shape matches ShapeV::OneOf { variants } && (forall|k: int|
            0 <= k < variants.len() ==> !((#[trigger] variants[k].shape) is Unit)) && (forall|
            k: int,
        |
            0 <= k < variants.len() ==> variant_structural(#[trigger] variants[k], strict)),
    ensures
        structural(n, strict),
{
}

/// In the laid-out document, `spec.scope` reads `Namespaced` exactly
/// for a namespaced descriptor, `Cluster` otherwise.
pub proof fn lemma_document_scope(
    d: ResourceDescriptor,
    vs: Seq<VersionInput>,
    c: CustomResourceDefinition,
)
    requires
        crd_matches(d, vs, c),
    ensures
        crate::json::crd_json(c)->Obj_0[3].1->Obj_0[2] == (
            "scope"@,
            crate::json::JsonV::Str(
                if d.namespaced {
                    "Namespaced"@
                } else {
                    "Cluster"@
                },
            ),
        ),
{
}

/// The node of the tree that the path suffix `path[i..]` leads to
/// (meaningful when the path resolves).
pub open spec fn node_at(n: NodeV, path: Seq<Seq<char>>, i: int) -> NodeV
    decreases path.len() - i,
{
    if i < 0 || i >= path.len() {
        n
    } else {
        match n.shape {
            ShapeV::Object { properties, .. } => {
                let j = find_prop(properties, path[i]);
                node_at(properties[j].1, path, i + 1)
            },
            _ => n,
        }
    }
}

/// `find_prop` looks only at the property names.
proof fn lemma_find_prop_same_names(
    ps1: Seq<(Seq<char>, NodeV)>,
    ps2: Seq<(Seq<char>, NodeV)>,
    name: Seq<char>,
)
    requires
        ps1.len() == ps2.len(),
        forall|k: int| 0 <= k < ps1.len() ==> (#[trigger] ps1[k]).0 == ps2[k].0,
    ensures
        find_prop(ps1, name) == find_prop(ps2, name),
    decreases ps1.len(),
{
    if ps1.len() > 0 {
        assert(forall|k: int|
            0 <= k < ps1.len() - 1 ==> (#[trigger] ps1.drop_first()[k]).0 == ps2.drop_first()[
                k
            ].0);
        lemma_find_prop_same_names(ps1.drop_first(), ps2.drop_first(), name);
    }
}

/// Attaching a rule along a resolving path appends it — expression,
/// message and metadata verbatim — to the extension slot of exactly
/// the node the path identifies, after the rules already there.
pub proof fn lemma_attach_places_rule(n: NodeV, path: Seq<Seq<char>>, i: int, r: RuleV)
    requires
        resolves(n, path, i),
    ensures
        node_at(attach_one(n, path, i, r), path, i).rules == node_at(n, path, i).rules.push(r),
    decreases path.len() - i,
{
    if i < 0 || i >= path.len() {
    } else {
        let properties = n.shape->Object_properties;
        let j = find_prop(properties, path[i]);
        lemma_find_prop_props(properties, path[i]);
        let a = attach_one(n, path, i, r);
        let pa = a.shape->Object_properties;
        assert(forall|k: int| 0 <= k < properties.len() ==> (#[trigger] pa[k]).0 == properties[k].0);
        lemma_find_prop_same_names(pa, properties, path[i]);
        assert(pa[j].1 == attach_one(properties[j].1, path, i + 1, r));
        lemma_attach_places_rule(properties[j].1, path, i + 1, r);
    }
}

/// The tree with every extension slot emptied: what a schema says
/// apart from its validation rules.
pub open spec fn strip_rules(n: NodeV) -> NodeV
    decreases n,
{
    NodeV {
        shape: strip_shape(n.shape),
        description: n.description,
        default: n.default,
        rules: Seq::empty(),
    }
}

/// `strip_rules` over a shape's children.
pub open spec fn strip_shape(s: ShapeV) -> ShapeV
    decreases s,
{
    match s {
        ShapeV::Object { properties, required, additional } => ShapeV::Object {
            properties: Seq::new(
                properties.len(),
                |i: int|
                    if 0 <= i < properties.len() {
                        (properties[i].0, strip_rules(properties[i].1))
                    } else {
                        arbitrary()
                    },
            ),
            required,
            additional: match additional {
                AdditionalV::Constrained(b) => AdditionalV::Constrained(Box::new(strip_rules(*b))),
                x => x,
            },
        },
        ShapeV::Array { items } => ShapeV::Array { items: Box::new(strip_rules(*items)) },
        ShapeV::OneOf { variants } => ShapeV::OneOf {
            variants: Seq::new(
                variants.len(),
                |i: int|
                    if 0 <= i < variants.len() {
                        strip_variant(variants[i])
                    } else {
                        arbitrary()
                    },
            ),
        },
        x => x,
    }
}

/// `strip_rules` over one enum variant's payload.
pub open spec fn strip_variant(v: VariantV) -> VariantV
    decreases v,
{
    match v.shape {
        VariantShapeV::Unit => v,
        VariantShapeV::Fields(b) => VariantV {
            name: v.name,
            shape: VariantShapeV::Fields(Box::new(strip_rules(*b))),
        },
        VariantShapeV::Positional(ns) => VariantV {
            name: v.name,
            shape: VariantShapeV::Positional(
                Seq::new(
                    ns.len(),
                    |i: int|
                        if 0 <= i < ns.len() {
                            strip_rules(ns[i])
                        } else {
                            arbitrary()
                        },
                ),
            ),
        },
    }
}

/// Attaching a rule changes nothing but an extension slot: the
/// stripped tree is untouched.
pub proof fn lemma_attach_strips_away(n: NodeV, path: Seq<Seq<char>>, i: int, r: RuleV)
    ensures
        strip_rules(attach_one(n, path, i, r)) == strip_rules(n),
    decreases path.len() - i,
{
    if i < 0 || i >= path.len() {
        assert(strip_rules(attach_one(n, path, i, r)) =~~= strip_rules(n));
    } else {
        match n.shape {
            ShapeV::Object { properties, required, additional } => {
                let j = find_prop(properties, path[i]);
                if 0 <= j < properties.len() {
                    lemma_attach_strips_away(properties[j].1, path, i + 1, r);
                    let a = attach_one(n, path, i, r);
                    let pa = a.shape->Object_properties;
                    assert(pa.len() == properties.len());
                    assert forall|k: int| 0 <= k < properties.len() implies (
                    strip_shape(a.shape)->Object_properties)[k] == (strip_shape(
                        n.shape,
                    )->Object_properties)[k] by {
                        if k == j {
                            assert(pa[k] == (properties[j].0, attach_one(
                                properties[j].1,
                                path,
                                i + 1,
                                r,
                            )));
                        } else {
                            assert(pa[k] == properties[k]);
                        }
                    }
                    assert(strip_shape(a.shape)->Object_properties =~= strip_shape(
                        n.shape,
                    )->Object_properties);
                    assert(strip_shape(a.shape) =~~= strip_shape(n.shape));
                    assert(strip_rules(a) =~~= strip_rules(n));
                }
            },
            _ => {},
        }
    }
}

/// Compiling a rule set only augments extension slots: the compiled
/// tree, stripped of its rules, is the input tree stripped of its
/// rules.  Together with the synthesizer's contract this is the
/// round trip: the schema found in a synthesized document is the
/// pre-synthesis tree, changed in nothing but its validation-rule
/// extensions.
pub proof fn lemma_compile_strips_away(t: NodeV, rs: Seq<RuleV>, i: int, t2: NodeV)
    requires
        compile_from(t, rs, i) == Some(t2),
    ensures
        strip_rules(t2) == strip_rules(t),
    decreases rs.len() - i,
{
    if i < 0 || i >= rs.len() {
        assert(t2 == t);
    } else {
        let t1 = apply_rule(t, rs[i]);
        match rs[i].field_path {
            None => {
                assert(t1 == with_rule(t, rs[i]));
                assert(strip_rules(t1) =~~= strip_rules(t));
            },
            Some(p) => {
                lemma_attach_strips_away(t, crate::paths::path_segs(p), 0, rs[i]);
            },
        }
        lemma_compile_strips_away(t1, rs, i + 1, t2);
    }
}

/// The schema in a synthesized document, stripped of validation rules,
/// is the supplied schema stripped of validation rules: synthesis
/// augments a version's schema only with its rule extensions.
pub proof fn lemma_schema_round_trip(
    d: ResourceDescriptor,
    vs: Seq<VersionInput>,
    c: CustomResourceDefinition,
    i: int,
    s: crate::schema::SchemaNode,
    t: crate::schema::SchemaNode,
)
    requires
        crd_matches(d, vs, c),
        0 <= i < vs.len(),
        vs[i].schema == Some(s),
        c.versions@[i].schema == Some(t),
    ensures
        strip_rules(t@) == strip_rules(s@),
{
    assert(Some(t@) == compiled_schema(vs[i]));
    lemma_compile_strips_away(s@, crate::schema::rules_view(vs[i].rules), 0, t@);
}

} // verus!
