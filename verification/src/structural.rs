//! The structural-schema guard.
//!
//! Walks a schema tree and rejects what Kubernetes' structural-schema
//! rules forbid: enum levels mixing unit-like variants with struct- or
//! tuple-like ones, and (in strict mode) objects that are unconstrained
//! open-ended maps.  The guard never repairs or drops offending nodes —
//! the caller must fix the source schema — and since it inspects every
//! node, no CEL rule path can cross into a shape-mixing node of an
//! accepted tree.

use vstd::prelude::*;

use crate::error::BuildError;
use crate::schema::AdditionalProps;
use crate::schema::AdditionalV;
use crate::schema::NodeV;
use crate::schema::SchemaNode;
use crate::schema::SchemaShape;
use crate::schema::ShapeV;
use crate::schema::VariantShape;
use crate::schema::VariantShapeV;
use crate::schema::VariantV;

verus! {

/// A uniform discriminant encoding: either every variant is unit-like,
/// or none is.
pub open spec fn variants_uniform(vs: Seq<VariantV>) -> bool {
    ||| forall|i: int| 0 <= i < vs.len() ==> (#[trigger] vs[i].shape) is Unit
    ||| forall|i: int| 0 <= i < vs.len() ==> !((#[trigger] vs[i].shape) is Unit)
}

/// The Kubernetes structural-schema shape rules, over a whole tree:
/// every enum level presents a uniform encoding, and — when `strict` —
/// no object is an unconstrained open-ended map (no properties and no
/// bounded additional-properties schema).
pub open spec fn structural(n: NodeV, strict: bool) -> bool
    decreases n,
{
    match n.shape {
        ShapeV::Object { properties, required, additional } => {
            &&& (strict ==> properties.len() > 0 || additional is Constrained)
            &&& (forall|i: int|
                0 <= i < properties.len() ==> structural(
                    #[trigger] properties[i].1,
                    strict,
                ))
            &&& (match additional {
                AdditionalV::Constrained(b) => structural(*b, strict),
                _ => true,
            })
        },
        ShapeV::Array { items } => structural(*items, strict),
        ShapeV::OneOf { variants } => {
            &&& variants_uniform(variants)
            &&& (forall|i: int|
                0 <= i < variants.len() ==> variant_structural(#[trigger] variants[i], strict))
        },
        _ => true,
    }
}

/// The shape rules on one enum variant's payload.
pub open spec fn variant_structural(v: VariantV, strict: bool) -> bool
    decreases v,
{
    match v.shape {
        VariantShapeV::Unit => true,
        VariantShapeV::Fields(b) => structural(*b, strict),
        VariantShapeV::Positional(ns) => forall|i: int|
            0 <= i < ns.len() ==> structural(#[trigger] ns[i], strict),
    }
}

/// Checks the structural-schema rules on the whole tree: `Ok` exactly
/// when `structural` holds of it.  A pure validation pass — the tree is
/// read, never changed.
#[verifier::loop_isolation(false)]
pub fn check_structural(n: &SchemaNode, strict: bool) -> (r: Result<(), BuildError>)
    ensures
        r is Ok <==> structural(n@, strict),
        r matches Err(e) ==> e is NonStructuralSchema,
    decreases *n,
{
    match &n.shape {
        SchemaShape::Object { properties, required, additional } => {
            let ghost psv = n@.shape->Object_properties;
            if strict && properties.len() == 0 && !matches!(additional, AdditionalProps::Constrained(_)) {
                return Err(BuildError::NonStructuralSchema);
            }
            let m = properties.len();
            let mut i: usize = 0;
            while i < m
                invariant
                    0 <= i <= m,
                    m == properties@.len(),
                    psv.len() == m,
                    forall|k: int| 0 <= k < m ==> psv[k] == (properties@[k].0@, properties@[k].1@),
                    forall|k: int| 0 <= k < i ==> structural(#[trigger] psv[k].1, strict),
                decreases m - i,
            {
                if check_structural(&properties[i].1, strict).is_err() {
                    proof {
                        assert(psv[i as int].1 == properties@[i as int].1@);
                        assert(!structural(psv[i as int].1, strict));
                        assert(!structural(n@, strict));
                    }
                    return Err(BuildError::NonStructuralSchema);
                }
                i += 1;
            }
            match additional {
                AdditionalProps::Constrained(b) => {
                    match check_structural(&**b, strict) {
                        Ok(()) => Ok(()),
                        Err(_) => Err(BuildError::NonStructuralSchema),
                    }
                },
                _ => Ok(()),
            }
        },
        SchemaShape::Array { items } => {
            match check_structural(&**items, strict) {
                Ok(()) => Ok(()),
                Err(_) => Err(BuildError::NonStructuralSchema),
            }
        },
        SchemaShape::OneOf { variants } => {
            let ghost vsv = n@.shape->OneOf_variants;
            let m = variants.len();
            let mut has_unit: bool = false;
            let mut has_other: bool = false;
            let mut i: usize = 0;
            while i < m
                invariant
                    0 <= i <= m,
                    m == variants@.len(),
                    vsv.len() == m,
                    forall|k: int| 0 <= k < m ==> vsv[k] == variants@[k]@,
                    has_unit <==> exists|k: int| 0 <= k < i && (#[trigger] vsv[k].shape) is Unit,
                    has_other <==> exists|k: int|
                        0 <= k < i && !((#[trigger] vsv[k].shape) is Unit),
                    forall|k: int| 0 <= k < i ==> variant_structural(#[trigger] vsv[k], strict),
                decreases m - i,
            {
                match &variants[i].shape {
                    VariantShape::Unit => {
                        has_unit = true;
                    },
                    VariantShape::Fields(b) => {
                        has_other = true;
                        if check_structural(&**b, strict).is_err() {
                            proof {
                                assert(vsv[i as int] == variants@[i as int]@);
                                assert(vsv[i as int].shape matches VariantShapeV::Fields(bb)
                                    && *bb == (**b)@);
                                assert(!variant_structural(vsv[i as int], strict));
                                assert(!structural(n@, strict));
                            }
                            return Err(BuildError::NonStructuralSchema);
                        }
                    },
                    VariantShape::Positional(ns) => {
                        has_other = true;
                        let ghost nsv = vsv[i as int].shape->Positional_0;
                        let mm = ns.len();
                        let mut j: usize = 0;
                        while j < mm
                            invariant
                                0 <= j <= mm,
                                mm == ns@.len(),
                                nsv.len() == mm,
                                forall|k: int| 0 <= k < mm ==> nsv[k] == ns@[k]@,
                                forall|k: int|
                                    0 <= k < j ==> structural(#[trigger] nsv[k], strict),
                            decreases mm - j,
                        {
                            if check_structural(&ns[j], strict).is_err() {
                                proof {
                                    assert(nsv[j as int] == ns@[j as int]@);
                                    assert(!variant_structural(vsv[i as int], strict));
                                    assert(!structural(n@, strict));
                                }
                                return Err(BuildError::NonStructuralSchema);
                            }
                            j += 1;
                        }
                    },
                }
                i += 1;
            }
            if has_unit && has_other {
                return Err(BuildError::NonStructuralSchema);
            }
            Ok(())
        },
        _ => Ok(()),
    }
}

} // verus!
