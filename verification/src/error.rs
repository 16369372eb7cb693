//! Build-time failures.
//!
//! Every failure is detected before any document is produced and is a
//! deterministic function of the input; none is recoverable in-process.

use vstd::prelude::*;

verus! {

/// Why a CRD build was rejected.  Each variant carries enough context to
/// locate the offending source attribute.
#[derive(Debug, PartialEq, Eq)]
pub enum BuildError {
    /// A derived or overridden plural/singular/group/version name fails
    /// the DNS-label/subdomain shape rules.  `field` names the attribute,
    /// `value` holds the rejected name.
    InvalidNaming { field: String, value: String },
    /// A CEL rule's field path does not exist in the schema tree.
    UnresolvedFieldPath { path: String },
    /// A CEL rule's expression is the empty string; `index` is the
    /// rule's position in declaration order.
    EmptyRuleExpression { index: usize },
    /// The schema violates the Kubernetes structural-schema shape rules
    /// (mixed enum encodings, disallowed open maps).
    NonStructuralSchema,
    /// Zero or more than one version was marked as the storage version.
    AmbiguousStorageVersion,
    /// A scale subresource was declared without the status subresource.
    ScaleRequiresStatus { version: String },
    /// A malformed JSON path in a printer column or selectable field.
    InvalidJsonPath { path: String },
    /// A selectable field path not rooted under `.spec` or `.status`.
    SelectableFieldOutOfScope { path: String },
}

impl BuildError {
    /// A short, stable name for the rule this error reports as violated.
    pub fn rule_name(&self) -> (r: &'static str)
        ensures
            self is InvalidNaming ==> r@ == "InvalidNaming"@,
            self is UnresolvedFieldPath ==> r@ == "UnresolvedFieldPath"@,
            self is EmptyRuleExpression ==> r@ == "EmptyRuleExpression"@,
            self is NonStructuralSchema ==> r@ == "NonStructuralSchema"@,
            self is AmbiguousStorageVersion ==> r@ == "AmbiguousStorageVersion"@,
            self is ScaleRequiresStatus ==> r@ == "ScaleRequiresStatus"@,
            self is InvalidJsonPath ==> r@ == "InvalidJSONPath"@,
            self is SelectableFieldOutOfScope ==> r@ == "SelectableFieldOutOfScope"@,
    {
        match self {
            BuildError::InvalidNaming { .. } => "InvalidNaming",
            BuildError::UnresolvedFieldPath { .. } => "UnresolvedFieldPath",
            BuildError::EmptyRuleExpression { .. } => "EmptyRuleExpression",
            BuildError::NonStructuralSchema => "NonStructuralSchema",
            BuildError::AmbiguousStorageVersion => "AmbiguousStorageVersion",
            BuildError::ScaleRequiresStatus { .. } => "ScaleRequiresStatus",
            BuildError::InvalidJsonPath { .. } => "InvalidJSONPath",
            BuildError::SelectableFieldOutOfScope { .. } => "SelectableFieldOutOfScope",
        }
    }
}

} // verus!
