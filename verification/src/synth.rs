//! The CRD synthesizer.
//!
//! Combines a resource descriptor with one or more per-version inputs —
//! a version label, an optional schema with its CEL rules, subresource,
//! printer-column and selectable-field metadata — into a complete
//! CustomResourceDefinition value.  Every failure is detected before any
//! output is produced, and every failure is a deterministic function of
//! the input.

use vstd::prelude::*;

use crate::binder::ResourceScope;
use crate::binder::scope_of;
use crate::descriptor::ResourceDescriptor;
use crate::descriptor::derive_plural;
use crate::descriptor::derive_singular;
use crate::descriptor::descriptor_valid;
use crate::descriptor::plural_name;
use crate::descriptor::singular_name;
use crate::descriptor::validate_descriptor;
use crate::error::BuildError;
use crate::paths::dot_path_wf;
use crate::paths::parse_dot_path;
use crate::paths::path_segs;
use crate::rules::RuleIssue;
use crate::rules::compile_failure;
use crate::rules::compile_from;
use crate::rules::compile_rules;
use crate::schema::CelRule;
use crate::schema::NodeV;
use crate::schema::SchemaNode;
use crate::schema::rules_view;
use crate::structural::check_structural;
use crate::structural::structural;

verus! {

/// The scale subresource: JSON paths for the replica counts and the
/// label selector.
#[derive(Debug, PartialEq, Eq)]
pub struct ScaleSpec {
    /// Where the desired replica count lives; must begin with `.spec`.
    pub spec_replicas_path: String,
    /// Where the observed replica count lives; must begin with `.status`.
    pub status_replicas_path: String,
    /// Where the serialized label selector lives, if exposed.
    pub label_selector_path: Option<String>,
}

/// The subresources a version declares.
#[derive(Debug, PartialEq, Eq)]
pub struct SubresourceSpec {
    /// Whether the status subresource is enabled.
    pub status: bool,
    /// The scale subresource; requires `status`.
    pub scale: Option<ScaleSpec>,
}

/// One additional printer column.
#[derive(Debug, PartialEq, Eq)]
pub struct PrinterColumn {
    pub name: String,
    pub col_type: String,
    pub json_path: String,
    pub description: Option<String>,
    pub priority: Option<i32>,
}

/// One selectable field: a JSON path under `.spec` or `.status`.
#[derive(Debug, PartialEq, Eq)]
pub struct SelectableField {
    pub json_path: String,
}

/// Everything one version of the resource supplies to the synthesizer.
/// `schema` may be absent when schema generation is explicitly disabled
/// for the version; `rules` are compiled into the schema tree.
#[derive(Debug, PartialEq, Eq)]
pub struct VersionInput {
    pub name: String,
    pub served: bool,
    pub storage: bool,
    pub schema: Option<SchemaNode>,
    pub rules: Vec<CelRule>,
    pub subresources: SubresourceSpec,
    pub printer_columns: Vec<PrinterColumn>,
    pub selectable_fields: Vec<SelectableField>,
}

/// One version block of the synthesized document.
#[derive(Debug, PartialEq, Eq)]
pub struct CrdVersion {
    pub name: String,
    pub served: bool,
    pub storage: bool,
    pub deprecated: bool,
    pub deprecation_warning: Option<String>,
    pub schema: Option<SchemaNode>,
    pub subresources: SubresourceSpec,
    pub printer_columns: Vec<PrinterColumn>,
    pub selectable_fields: Vec<SelectableField>,
}

/// The `spec.names` block of the document.
#[derive(Debug, PartialEq, Eq)]
pub struct CrdNames {
    pub kind: String,
    pub plural: String,
    pub singular: String,
    pub short_names: Vec<String>,
    pub categories: Vec<String>,
}

/// A complete CustomResourceDefinition value, shaped after the
/// `apiextensions.k8s.io/v1` resource: synthesized once, immutable.
#[derive(Debug, PartialEq, Eq)]
pub struct CustomResourceDefinition {
    pub api_version: String,
    pub kind: String,
    pub metadata_name: String,
    pub group: String,
    pub names: CrdNames,
    pub scope: ResourceScope,
    pub versions: Vec<CrdVersion>,
}

/// A well-shaped dot path whose first segment is `name`.
pub open spec fn first_seg_is(p: Seq<char>, name: Seq<char>) -> bool {
    dot_path_wf(p) && path_segs(p)[0] == name
}

/// A declared scale subresource demands the status subresource.
pub open spec fn scale_status_ok(v: VersionInput) -> bool {
    v.subresources.scale is Some ==> v.subresources.status
}

/// The scale paths are well-shaped and rooted where Kubernetes demands.
pub open spec fn scale_paths_ok(v: VersionInput) -> bool {
    match v.subresources.scale {
        None => true,
        Some(sc) => {
            &&& first_seg_is(sc.spec_replicas_path@, "spec"@)
            &&& first_seg_is(sc.status_replicas_path@, "status"@)
            &&& match sc.label_selector_path {
                Some(p) => dot_path_wf(p@),
                None => true,
            }
        },
    }
}

/// Every printer column names a well-shaped JSON path.
pub open spec fn columns_ok(v: VersionInput) -> bool {
    forall|i: int|
        0 <= i < v.printer_columns@.len() ==> dot_path_wf(
            (#[trigger] v.printer_columns@[i]).json_path@,
        )
}

/// Every selectable field is a well-shaped path rooted under `.spec`
/// or `.status`.
pub open spec fn selectable_ok(v: VersionInput) -> bool {
    forall|i: int|
        0 <= i < v.selectable_fields@.len() ==> {
            let p = (#[trigger] v.selectable_fields@[i]).json_path@;
            first_seg_is(p, "spec"@) || first_seg_is(p, "status"@)
        }
}

/// Every selectable-field path is well-shaped (its scope aside).
pub open spec fn selectable_wf(v: VersionInput) -> bool {
    forall|i: int|
        0 <= i < v.selectable_fields@.len() ==> dot_path_wf(
            (#[trigger] v.selectable_fields@[i]).json_path@,
        )
}

/// The schema of the version after rule compilation: `None` when the
/// version has no schema or a rule failed to compile.
pub open spec fn compiled_schema(v: VersionInput) -> Option<NodeV> {
    match v.schema {
        Some(s) => compile_from(s@, rules_view(v.rules), 0),
        None => None,
    }
}

/// Every rule of the version is sound: a non-empty expression, and a
/// target — the version has a schema and each rule's path resolves in
/// it (a version without a schema can carry no rules).
pub open spec fn rules_ok(v: VersionInput) -> bool {
    match v.schema {
        Some(s) => compile_from(s@, rules_view(v.rules), 0) is Some,
        None => v.rules@.len() == 0,
    }
}

/// The compiled schema, when there is one, passes the structural guard.
pub open spec fn schema_structural_ok(v: VersionInput, strict: bool) -> bool {
    match compiled_schema(v) {
        Some(t) => structural(t, strict),
        None => true,
    }
}

/// Everything the synthesizer checks about one version.
pub open spec fn version_ok(v: VersionInput, strict: bool) -> bool {
    &&& scale_status_ok(v)
    &&& scale_paths_ok(v)
    &&& columns_ok(v)
    &&& selectable_ok(v)
    &&& rules_ok(v)
    &&& schema_structural_ok(v, strict)
}

/// How many of the versions `vs[i..]` are marked as the storage
/// version.
pub open spec fn storage_count(vs: Seq<VersionInput>, i: int) -> nat
    decreases vs.len() - i,
{
    if i < 0 || i >= vs.len() {
        0
    } else {
        (if vs[i].storage {
            1nat
        } else {
            0nat
        }) + storage_count(vs, i + 1)
    }
}

/// A sole version is the storage version by default; several versions
/// need exactly one marked.
pub open spec fn storage_ok(vs: Seq<VersionInput>) -> bool {
    vs.len() == 1 || storage_count(vs, 0) == 1
}

/// The synthesizer succeeds exactly on these inputs.
pub open spec fn synth_ok(d: ResourceDescriptor, vs: Seq<VersionInput>, strict: bool) -> bool {
    &&& descriptor_valid(d)
    &&& storage_ok(vs)
    &&& forall|i: int| 0 <= i < vs.len() ==> version_ok(#[trigger] vs[i], strict)
}

/// The synthesizer reaches version `i`: the descriptor and the
/// storage-version rule pass, and every earlier version passes all of
/// its checks.
pub open spec fn reaches_version(
    d: ResourceDescriptor,
    vs: Seq<VersionInput>,
    strict: bool,
    i: int,
) -> bool {
    &&& descriptor_valid(d)
    &&& storage_ok(vs)
    &&& 0 <= i < vs.len()
    &&& forall|j: int| 0 <= j < i ==> version_ok(#[trigger] vs[j], strict)
}

/// How one output version block relates to its input: names, flags and
/// metadata carried over verbatim, the storage default applied, and the
/// schema replaced by its rule-compiled form.
pub open spec fn version_out_ok(vin: VersionInput, vout: CrdVersion, sole: bool, d: ResourceDescriptor) -> bool {
    &&& vout.name == vin.name
    &&& vout.served == vin.served
    &&& vout.storage == (sole || vin.storage)
    &&& vout.deprecated == d.deprecated
    &&& vout.deprecation_warning == d.deprecation_warning
    &&& match (vin.schema, vout.schema) {
        (None, None) => true,
        (Some(_), Some(t)) => Some(t@) == compiled_schema(vin),
        _ => false,
    }
    &&& vout.subresources == vin.subresources
    &&& vout.printer_columns == vin.printer_columns
    &&& vout.selectable_fields == vin.selectable_fields
}

/// What the synthesized document promises, field by field.
pub open spec fn crd_matches(
    d: ResourceDescriptor,
    vs: Seq<VersionInput>,
    c: CustomResourceDefinition,
) -> bool {
    &&& c.api_version@ == "apiextensions.k8s.io/v1"@
    &&& c.kind@ == "CustomResourceDefinition"@
    &&& c.metadata_name@ == plural_name(d) + "."@ + d.group@
    &&& c.group == d.group
    &&& c.names.kind == d.kind
    &&& c.names.plural@ == plural_name(d)
    &&& c.names.singular@ == singular_name(d)
    &&& c.names.short_names@ == d.short_names@
    &&& c.names.categories@ == d.categories@
    &&& c.scope == scope_of(d.namespaced)
    &&& c.versions@.len() == vs.len()
    &&& forall|i: int|
        0 <= i < vs.len() ==> version_out_ok(vs[i], #[trigger] c.versions@[i], vs.len() == 1, d)
}

fn clone_opt_string(o: &Option<String>) -> (r: Option<String>)
    ensures
        r == *o,
{
    match o {
        Some(s) => Some(s.clone()),
        None => None,
    }
}

fn clone_strings(v: &Vec<String>) -> (r: Vec<String>)
    ensures
        r@ == v@,
{
    let mut r: Vec<String> = Vec::new();
    let mut i: usize = 0;
    while i < v.len()
        invariant
            0 <= i <= v@.len(),
            r@ =~= v@.subrange(0, i as int),
        decreases v@.len() - i,
    {
        r.push(v[i].clone());
        i += 1;
    }
    proof {
        assert(r@ =~= v@);
    }
    r
}

/// Whether the first segment of a parsed path is `name`.
fn first_segment_is(segs: &Vec<String>, name: &str) -> (r: bool)
    requires
        segs@.len() >= 1,
    ensures
        r == (segs.deep_view()[0] == name@),
{
    let n = name.to_owned();
    let r = segs[0] == n;
    proof {
        assert(segs.deep_view()[0] == segs@[0]@);
    }
    r
}

/// Builds the complete CRD document for the descriptor and its
/// versions.  All checks run before any output exists: descriptor
/// naming, the storage-version rule, scale-requires-status, path shape
/// and scope of every declared JSON path, rule attachment, and the
/// structural guard on every compiled schema.  The first violation is
/// returned as its error; no partial document is ever produced.
///
/// A version without a schema is allowed even as the storage version:
/// the resulting document is not directly installable, a deliberate
/// escape hatch for externally managed CRDs.
#[verifier::loop_isolation(false)]
pub fn synthesize(
    d: &ResourceDescriptor,
    versions: Vec<VersionInput>,
    strict: bool,
) -> (r: Result<CustomResourceDefinition, BuildError>)
    requires
        versions@.len() >= 1,
    ensures
        r is Ok <==> synth_ok(*d, versions@, strict),
        r matches Ok(c) ==> crd_matches(*d, versions@, c),
        r matches Err(e) ==> {
            &&& e is InvalidNaming ==> !descriptor_valid(*d)
            &&& e is AmbiguousStorageVersion ==> !storage_ok(versions@)
            &&& e matches BuildError::ScaleRequiresStatus { version } ==> exists|i: int|
                0 <= i < versions@.len() && !scale_status_ok(#[trigger] versions@[i]) && version@
                    == versions@[i].name@
            &&& e is InvalidJsonPath ==> exists|i: int|
                0 <= i < versions@.len() && !(scale_paths_ok(#[trigger] versions@[i])
                    && columns_ok(versions@[i]) && selectable_wf(versions@[i]))
            &&& e is SelectableFieldOutOfScope ==> exists|i: int|
                0 <= i < versions@.len() && !selectable_ok(#[trigger] versions@[i])
            &&& (e is UnresolvedFieldPath || e is EmptyRuleExpression) ==> exists|i: int|
                0 <= i < versions@.len() && !rules_ok(#[trigger] versions@[i])
            &&& e is NonStructuralSchema ==> exists|i: int|
                0 <= i < versions@.len() && !schema_structural_ok(#[trigger] versions@[i], strict)
        },
        !descriptor_valid(*d) ==> (r matches Err(e) && e is InvalidNaming),
        descriptor_valid(*d) && !storage_ok(versions@) ==> (r matches Err(e)
            && e is AmbiguousStorageVersion),
        forall|i: int|
            #![trigger versions@[i]]
            reaches_version(*d, versions@, strict, i) && !scale_status_ok(versions@[i]) ==> (
            r matches Err(e) && e matches BuildError::ScaleRequiresStatus { version } && version@
                == versions@[i].name@),
        forall|i: int|
            #![trigger versions@[i]]
            reaches_version(*d, versions@, strict, i) && scale_status_ok(versions@[i])
                && !scale_paths_ok(versions@[i]) ==> (r matches Err(e) && e is InvalidJsonPath),
        forall|i: int|
            #![trigger versions@[i]]
            reaches_version(*d, versions@, strict, i) && scale_status_ok(versions@[i])
                && scale_paths_ok(versions@[i]) && !columns_ok(versions@[i]) ==> (r matches Err(e)
                && e is InvalidJsonPath),
        forall|i: int|
            #![trigger versions@[i]]
            reaches_version(*d, versions@, strict, i) && scale_status_ok(versions@[i])
                && scale_paths_ok(versions@[i]) && columns_ok(versions@[i]) && !selectable_wf(
                versions@[i],
            ) ==> (r matches Err(e) && e is InvalidJsonPath),
        forall|i: int|
            #![trigger versions@[i]]
            reaches_version(*d, versions@, strict, i) && scale_status_ok(versions@[i])
                && scale_paths_ok(versions@[i]) && columns_ok(versions@[i]) && selectable_wf(
                versions@[i],
            ) && !selectable_ok(versions@[i]) ==> (r matches Err(e)
                && e is SelectableFieldOutOfScope),
        forall|i: int|
            #![trigger versions@[i]]
            reaches_version(*d, versions@, strict, i) && scale_status_ok(versions@[i])
                && scale_paths_ok(versions@[i]) && columns_ok(versions@[i]) && selectable_ok(
                versions@[i],
            ) && !rules_ok(versions@[i]) ==> (r matches Err(e) && (match versions@[i].schema {
                Some(s) => compile_failure(s@, rules_view(versions@[i].rules), 0) matches Some(f)
                    && (f.1 is EmptyExpression ==> (e matches BuildError::EmptyRuleExpression {
                    index,
                } && index as int == f.0)) && (f.1 matches RuleIssue::MissingTarget(p) ==> (
                e matches BuildError::UnresolvedFieldPath { path } && path@ == p)),
                None => if versions@[i].rules@[0].rule@.len() == 0 {
                    e matches BuildError::EmptyRuleExpression { index } && index == 0
                } else {
                    e is UnresolvedFieldPath
                },
            })),
        forall|i: int|
            #![trigger versions@[i]]
            reaches_version(*d, versions@, strict, i) && scale_status_ok(versions@[i])
                && scale_paths_ok(versions@[i]) && columns_ok(versions@[i]) && selectable_ok(
                versions@[i],
            ) && rules_ok(versions@[i]) && !schema_structural_ok(versions@[i], strict) ==> (
            r matches Err(e) && e is NonStructuralSchema),
{
    let ghost vsv = versions@;
    match validate_descriptor(d) {
        Err(e) => {
            return Err(e);
        },
        Ok(()) => {},
    }
    let n = versions.len();
    let mut marked: usize = 0;
    let mut i: usize = 0;
    while i < n
        invariant
            0 <= i <= n,
            marked <= i,
            marked + storage_count(vsv, i as int) == storage_count(vsv, 0),
        decreases n - i,
    {
        if versions[i].storage {
            marked = marked + 1;
        }
        i += 1;
    }
    if n > 1 && marked != 1 {
        return Err(BuildError::AmbiguousStorageVersion);
    }
    let sole = n == 1;
    let plural = derive_plural(d);
    let singular = derive_singular(d);
    let mut metadata_name = plural.clone();
    metadata_name.append(".");
    metadata_name.append(d.group.as_str());
    proof {
        assert(metadata_name@ =~= plural_name(*d) + "."@ + d.group@);
    }
    let mut vs = versions;
    let mut out_versions: Vec<CrdVersion> = Vec::new();
    let mut idx: usize = 0;
    while idx < n
        invariant
            0 <= idx <= n,
            vs@ =~= vsv.subrange(idx as int, n as int),
            out_versions@.len() == idx,
            forall|k: int| 0 <= k < idx ==> version_ok(#[trigger] vsv[k], strict),
            forall|k: int|
                0 <= k < idx ==> version_out_ok(vsv[k], #[trigger] out_versions@[k], sole, *d),
        decreases n - idx,
    {
        let v = vs.remove(0);
        proof {
            assert(v == vsv[idx as int]);
            assert(vs@ =~= vsv.subrange(idx + 1, n as int));
        }
        // Scale subresource: demands status, and correctly rooted paths.
        match &v.subresources.scale {
            Some(sc) => {
                if !v.subresources.status {
                    proof {
                        assert(!scale_status_ok(vsv[idx as int]));
                        assert(!version_ok(vsv[idx as int], strict));
                    }
                    return Err(BuildError::ScaleRequiresStatus { version: v.name.clone() });
                }
                match parse_dot_path(sc.spec_replicas_path.as_str()) {
                    None => {
                        proof {
                            assert(!scale_paths_ok(vsv[idx as int]));
                            assert(!version_ok(vsv[idx as int], strict));
                        }
                        return Err(
                            BuildError::InvalidJsonPath { path: sc.spec_replicas_path.clone() },
                        );
                    },
                    Some(segs) => {
                        if !first_segment_is(&segs, "spec") {
                            proof {
                                assert(!scale_paths_ok(vsv[idx as int]));
                                assert(!version_ok(vsv[idx as int], strict));
                            }
                            return Err(
                                BuildError::InvalidJsonPath { path: sc.spec_replicas_path.clone() },
                            );
                        }
                    },
                }
                match parse_dot_path(sc.status_replicas_path.as_str()) {
                    None => {
                        proof {
                            assert(!scale_paths_ok(vsv[idx as int]));
                            assert(!version_ok(vsv[idx as int], strict));
                        }
                        return Err(
                            BuildError::InvalidJsonPath { path: sc.status_replicas_path.clone() },
                        );
                    },
                    Some(segs) => {
                        if !first_segment_is(&segs, "status") {
                            proof {
                                assert(!scale_paths_ok(vsv[idx as int]));
                                assert(!version_ok(vsv[idx as int], strict));
                            }
                            return Err(
                                BuildError::InvalidJsonPath {
                                    path: sc.status_replicas_path.clone(),
                                },
                            );
                        }
                    },
                }
                match &sc.label_selector_path {
                    Some(p) => {
                        if parse_dot_path(p.as_str()).is_none() {
                            proof {
                                assert(!scale_paths_ok(vsv[idx as int]));
                                assert(!version_ok(vsv[idx as int], strict));
                            }
                            return Err(BuildError::InvalidJsonPath { path: p.clone() });
                        }
                    },
                    None => {},
                }
            },
            None => {},
        }
        proof {
            assert(scale_status_ok(vsv[idx as int]));
            assert(scale_paths_ok(vsv[idx as int]));
        }
        // Printer columns: every JSON path well-shaped.
        let mut j: usize = 0;
        while j < v.printer_columns.len()
            invariant
                0 <= j <= v.printer_columns@.len(),
                forall|k: int|
                    0 <= k < j ==> dot_path_wf(
                        (#[trigger] v.printer_columns@[k]).json_path@,
                    ),
            decreases v.printer_columns@.len() - j,
        {
            if parse_dot_path(v.printer_columns[j].json_path.as_str()).is_none() {
                proof {
                    assert(!columns_ok(vsv[idx as int]));
                    assert(!version_ok(vsv[idx as int], strict));
                }
                return Err(
                    BuildError::InvalidJsonPath { path: v.printer_columns[j].json_path.clone() },
                );
            }
            j += 1;
        }
        proof {
            assert(columns_ok(vsv[idx as int]));
        }
        // Selectable fields: first every path well-shaped, then every
        // path rooted under .spec or .status.
        let mut j: usize = 0;
        while j < v.selectable_fields.len()
            invariant
                0 <= j <= v.selectable_fields@.len(),
                forall|k: int|
                    0 <= k < j ==> dot_path_wf(
                        (#[trigger] v.selectable_fields@[k]).json_path@,
                    ),
            decreases v.selectable_fields@.len() - j,
        {
            if parse_dot_path(v.selectable_fields[j].json_path.as_str()).is_none() {
                proof {
                    assert(!selectable_wf(vsv[idx as int]));
                    assert(!selectable_ok(vsv[idx as int]));
                    assert(!version_ok(vsv[idx as int], strict));
                }
                return Err(
                    BuildError::InvalidJsonPath {
                        path: v.selectable_fields[j].json_path.clone(),
                    },
                );
            }
            j += 1;
        }
        proof {
            assert(selectable_wf(vsv[idx as int]));
        }
        let mut j: usize = 0;
        while j < v.selectable_fields.len()
            invariant
                0 <= j <= v.selectable_fields@.len(),
                forall|k: int|
                    0 <= k < j ==> {
                        let p = (#[trigger] v.selectable_fields@[k]).json_path@;
                        first_seg_is(p, "spec"@) || first_seg_is(p, "status"@)
                    },
            decreases v.selectable_fields@.len() - j,
        {
            match parse_dot_path(v.selectable_fields[j].json_path.as_str()) {
                None => {
                    // Unreachable: the first pass proved the path
                    // well-shaped.
                    proof {
                        assert(false);
                    }
                    return Err(
                        BuildError::InvalidJsonPath {
                            path: v.selectable_fields[j].json_path.clone(),
                        },
                    );
                },
                Some(segs) => {
                    if !first_segment_is(&segs, "spec") && !first_segment_is(&segs, "status") {
                        proof {
                            assert(!selectable_ok(vsv[idx as int]));
                            assert(!version_ok(vsv[idx as int], strict));
                        }
                        return Err(
                            BuildError::SelectableFieldOutOfScope {
                                path: v.selectable_fields[j].json_path.clone(),
                            },
                        );
                    }
                },
            }
            j += 1;
        }
        proof {
            assert(selectable_ok(vsv[idx as int]));
        }
        // Schema: compile the rules into it, then hold it to the
        // structural guard.
        let VersionInput {
            name,
            served,
            storage,
            schema,
            rules,
            subresources,
            printer_columns,
            selectable_fields,
        } = v;
        let out_schema: Option<SchemaNode> = match schema {
            None => {
                if rules.len() > 0 {
                    proof {
                        assert(!rules_ok(vsv[idx as int]));
                        assert(!version_ok(vsv[idx as int], strict));
                    }
                    if rules[0].rule.as_str().is_empty() {
                        return Err(BuildError::EmptyRuleExpression { index: 0 });
                    }
                    let path = match &rules[0].field_path {
                        Some(p) => p.clone(),
                        None => String::new(),
                    };
                    return Err(BuildError::UnresolvedFieldPath { path });
                }
                None
            },
            Some(s) => {
                match compile_rules(s, &rules) {
                    Err(e) => {
                        proof {
                            assert(!rules_ok(vsv[idx as int]));
                            assert(!version_ok(vsv[idx as int], strict));
                        }
                        return Err(e);
                    },
                    Ok(t) => {
                        match check_structural(&t, strict) {
                            Err(_) => {
                                proof {
                                    assert(rules_ok(vsv[idx as int]));
                                    assert(compiled_schema(vsv[idx as int]) == Some(t@));
                                    assert(!schema_structural_ok(vsv[idx as int], strict));
                                    assert(!version_ok(vsv[idx as int], strict));
                                }
                                return Err(BuildError::NonStructuralSchema);
                            },
                            Ok(()) => Some(t),
                        }
                    },
                }
            },
        };
        out_versions.push(
            CrdVersion {
                name,
                served,
                storage: sole || storage,
                deprecated: d.deprecated,
                deprecation_warning: clone_opt_string(&d.deprecation_warning),
                schema: out_schema,
                subresources,
                printer_columns,
                selectable_fields,
            },
        );
        proof {
            assert(version_ok(vsv[idx as int], strict));
            assert(version_out_ok(
                vsv[idx as int],
                out_versions@[idx as int],
                sole,
                *d,
            ));
        }
        idx += 1;
    }
    let crd = CustomResourceDefinition {
        api_version: String::from_str("apiextensions.k8s.io/v1"),
        kind: String::from_str("CustomResourceDefinition"),
        metadata_name,
        group: d.group.clone(),
        names: CrdNames {
            kind: d.kind.clone(),
            plural,
            singular,
            short_names: clone_strings(&d.short_names),
            categories: clone_strings(&d.categories),
        },
        scope: if d.namespaced {
            ResourceScope::Namespaced
        } else {
            ResourceScope::Cluster
        },
        versions: out_versions,
    };
    Ok(crd)
}

} // verus!
