//! The declarative resource descriptor and its naming invariants.

use vstd::prelude::*;

use crate::error::BuildError;
use crate::names::dns_label;
use crate::names::dns_subdomain;
use crate::names::is_dns_label;
use crate::names::is_dns_subdomain;
use crate::names::lower_chars;
use crate::names::plural_of;
use crate::names::pluralize;
use crate::names::to_ascii_lower;

verus! {

/// Everything the source attributes declare about a resource type:
/// addressing names, scope, and the optional metadata flags.  Constructed
/// once, immutable, and consumed by both the capability binder and the
/// CRD synthesizer.
#[derive(Debug, PartialEq, Eq)]
pub struct ResourceDescriptor {
    /// API group, e.g. `clux.dev`; a DNS subdomain.  The empty group is
    /// the core group and is rejected by `validate_descriptor` here: a custom
    /// resource always names its own group.
    pub group: String,
    /// API version label, e.g. `v1`; a DNS label.
    pub version: String,
    /// PascalCase kind name, e.g. `Foo`.
    pub kind: String,
    /// Optional override for the generated root type name; carried as
    /// metadata, not used in any derived name.
    pub root: Option<String>,
    /// Optional override for the singular resource name.
    pub singular: Option<String>,
    /// Optional override for the plural resource name.
    pub plural: Option<String>,
    /// Short names to register for the resource, e.g. `f` for `foos`.
    pub short_names: Vec<String>,
    /// API categories the resource joins, e.g. `all`.
    pub categories: Vec<String>,
    /// Namespace-scoped rather than cluster-scoped.
    pub namespaced: bool,
    /// Whether the generated root type carries a status object; carried
    /// as metadata for the type, like `root`.  The status subresource of
    /// the document itself is declared per version in `SubresourceSpec`.
    pub has_status: bool,
    /// Whether the version is marked deprecated.
    pub deprecated: bool,
    /// Optional deprecation warning text.
    pub deprecation_warning: Option<String>,
}

/// An uppercase ASCII letter.
pub open spec fn is_upper_alpha(c: char) -> bool {
    'A' <= c && c <= 'Z'
}

/// A character of a PascalCase identifier.
pub open spec fn is_ident_char(c: char) -> bool {
    ('a' <= c && c <= 'z') || ('A' <= c && c <= 'Z') || ('0' <= c && c <= '9')
}

/// A PascalCase identifier: non-empty, an uppercase letter followed by
/// ASCII letters and digits.
pub open spec fn pascal_ident(s: Seq<char>) -> bool {
    &&& s.len() >= 1
    &&& is_upper_alpha(s[0])
    &&& forall|i: int| 0 <= i < s.len() ==> is_ident_char(#[trigger] s[i])
}

/// The singular name of the resource: the override when present, the
/// lower-cased kind otherwise.
pub open spec fn singular_name(d: ResourceDescriptor) -> Seq<char> {
    match d.singular {
        Some(s) => s@,
        None => lower_chars(d.kind@),
    }
}

/// The plural name of the resource: the override when present, the
/// lower-cased kind run through the fixed pluralization rule otherwise.
pub open spec fn plural_name(d: ResourceDescriptor) -> Seq<char> {
    match d.plural {
        Some(p) => p@,
        None => plural_of(lower_chars(d.kind@)),
    }
}

/// The descriptor invariant: a non-empty DNS-subdomain group, DNS-label
/// version, PascalCase kind, and derived (or overridden) singular and
/// plural names that are valid DNS labels.
pub open spec fn descriptor_valid(d: ResourceDescriptor) -> bool {
    &&& dns_subdomain(d.group@)
    &&& dns_label(d.version@)
    &&& pascal_ident(d.kind@)
    &&& dns_label(singular_name(d))
    &&& dns_label(plural_name(d))
}

fn is_ident_char_exec(c: char) -> (r: bool)
    ensures
        r == is_ident_char(c),
{
    ('a' <= c && c <= 'z') || ('A' <= c && c <= 'Z') || ('0' <= c && c <= '9')
}

/// Decides whether `s` is a PascalCase identifier.
pub fn is_pascal_ident(s: &str) -> (r: bool)
    ensures
        r == pascal_ident(s@),
{
    let n = s.unicode_len();
    if n == 0 {
        return false;
    }
    let first = s.get_char(0);
    if !('A' <= first && first <= 'Z') {
        return false;
    }
    let mut i: usize = 0;
    while i < n
        invariant
            0 <= i <= n,
            n == s@.len(),
            forall|j: int| 0 <= j < i ==> is_ident_char(#[trigger] s@[j]),
        decreases n - i,
    {
        if !is_ident_char_exec(s.get_char(i)) {
            return false;
        }
        i += 1;
    }
    true
}

/// Computes the singular resource name of the descriptor.
pub fn derive_singular(d: &ResourceDescriptor) -> (r: String)
    ensures
        r@ == singular_name(*d),
{
    match &d.singular {
        Some(s) => s.clone(),
        None => to_ascii_lower(d.kind.as_str()),
    }
}

/// Computes the plural resource name of the descriptor.
pub fn derive_plural(d: &ResourceDescriptor) -> (r: String)
    ensures
        r@ == plural_name(*d),
{
    match &d.plural {
        Some(p) => p.clone(),
        None => {
            let lowered = to_ascii_lower(d.kind.as_str());
            pluralize(lowered.as_str())
        },
    }
}

fn naming_error(field: &str, value: &String) -> (e: BuildError)
    ensures
        e matches BuildError::InvalidNaming { field: f, value: v } && f@ == field@ && v@
            == value@,
{
    BuildError::InvalidNaming { field: field.to_owned(), value: value.clone() }
}

/// Checks the descriptor invariant: every declared and derived name has
/// the DNS shape Kubernetes demands.  Returns precisely which attribute
/// is at fault otherwise.
pub fn validate_descriptor(d: &ResourceDescriptor) -> (r: Result<(), BuildError>)
    ensures
        r is Ok <==> descriptor_valid(*d),
        r matches Err(e) ==> e is InvalidNaming,
{
    if !is_dns_subdomain(d.group.as_str()) {
        return Err(naming_error("group", &d.group));
    }
    if !is_dns_label(d.version.as_str()) {
        return Err(naming_error("version", &d.version));
    }
    if !is_pascal_ident(d.kind.as_str()) {
        return Err(naming_error("kind", &d.kind));
    }
    let singular = derive_singular(d);
    if !is_dns_label(singular.as_str()) {
        return Err(naming_error("singular", &singular));
    }
    let plural = derive_plural(d);
    if !is_dns_label(plural.as_str()) {
        return Err(naming_error("plural", &plural));
    }
    Ok(())
}

} // verus!
