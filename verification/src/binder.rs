//! Addressing metadata for the generated resource type.
//!
//! Independent of whether a schema was produced at all: a resource type
//! stays usable against a cluster whose CRD was installed by other means,
//! so binding never fails.

use vstd::prelude::*;

use crate::descriptor::ResourceDescriptor;
use crate::descriptor::derive_plural;
use crate::descriptor::derive_singular;
use crate::descriptor::plural_name;
use crate::descriptor::singular_name;

verus! {

/// Whether instances of the resource live in a namespace or at cluster
/// level.
#[derive(Clone, Copy, PartialEq, Eq, Structural, Debug)]
pub enum ResourceScope {
    Namespaced,
    Cluster,
}

impl ResourceScope {
    /// The literal the CRD document uses for this scope.
    pub fn as_str(&self) -> (r: &'static str)
        ensures
            *self is Namespaced ==> r@ == "Namespaced"@,
            *self is Cluster ==> r@ == "Cluster"@,
    {
        match self {
            ResourceScope::Namespaced => "Namespaced",
            ResourceScope::Cluster => "Cluster",
        }
    }
}

/// The scope a descriptor declares.
pub open spec fn scope_of(namespaced: bool) -> ResourceScope {
    if namespaced {
        ResourceScope::Namespaced
    } else {
        ResourceScope::Cluster
    }
}

/// The `apiVersion` string of the resource: `group/version`, or just
/// `version` for the core (empty) group.
pub open spec fn api_version_of(d: ResourceDescriptor) -> Seq<char> {
    if d.group@.len() == 0 {
        d.version@
    } else {
        d.group@ + "/"@ + d.version@
    }
}

/// The group-version-kind tuple, names and scope a generic API client
/// needs to address instances of the resource.
#[derive(Debug, PartialEq, Eq)]
pub struct Capability {
    pub group: String,
    pub version: String,
    pub kind: String,
    pub api_version: String,
    pub plural: String,
    pub singular: String,
    pub scope: ResourceScope,
}

/// What `bind_capability` promises of its result, field by field.
pub open spec fn capability_of(d: ResourceDescriptor, c: Capability) -> bool {
    &&& c.group@ == d.group@
    &&& c.version@ == d.version@
    &&& c.kind@ == d.kind@
    &&& c.api_version@ == api_version_of(d)
    &&& c.plural@ == plural_name(d)
    &&& c.singular@ == singular_name(d)
    &&& c.scope == scope_of(d.namespaced)
}

/// Derives the addressing metadata of the descriptor.  Total: it
/// succeeds for every descriptor, whatever the synthesizer would say
/// about its schemas.
pub fn bind_capability(d: &ResourceDescriptor) -> (c: Capability)
    ensures
        capability_of(*d, c),
{
    let api_version = if d.group.as_str().is_empty() {
        d.version.clone()
    } else {
        let mut s = d.group.clone();
        s.append("/");
        s.append(d.version.as_str());
        proof {
            assert(s@ =~= api_version_of(*d));
        }
        s
    };
    Capability {
        group: d.group.clone(),
        version: d.version.clone(),
        kind: d.kind.clone(),
        api_version,
        plural: derive_plural(d),
        singular: derive_singular(d),
        scope: if d.namespaced {
            ResourceScope::Namespaced
        } else {
            ResourceScope::Cluster
        },
    }
}

/// The request path for one instance of the resource: for a namespaced
/// capability, `/apis/<group>/<version>/namespaces/<ns>/<plural>/<name>`;
/// without a namespace, `/apis/<group>/<version>/<plural>/<name>`; for
/// the core group the `/apis/<group>` prefix becomes `/api`.
pub open spec fn request_path_of(c: Capability, ns: Option<Seq<char>>, name: Seq<char>) -> Seq<
    char,
> {
    let prefix = if c.group@.len() == 0 {
        "/api"@
    } else {
        "/apis/"@ + c.group@
    };
    let middle = match ns {
        Some(n) => "/namespaces/"@ + n + "/"@,
        None => "/"@,
    };
    prefix + "/"@ + c.version@ + middle + c.plural@ + "/"@ + name
}

/// Builds the REST request path for the named instance, in the namespace
/// when one is given.
pub fn request_path(c: &Capability, ns: Option<&str>, name: &str) -> (r: String)
    ensures
        r@ == request_path_of(*c, match ns {
            Some(n) => Some(n@),
            None => None,
        }, name@),
{
    let mut s = if c.group.as_str().is_empty() {
        String::from_str("/api")
    } else {
        let mut p = String::from_str("/apis/");
        p.append(c.group.as_str());
        p
    };
    s.append("/");
    s.append(c.version.as_str());
    match ns {
        Some(n) => {
            s.append("/namespaces/");
            s.append(n);
            s.append("/");
        },
        None => {
            s.append("/");
        },
    }
    s.append(c.plural.as_str());
    s.append("/");
    s.append(name);
    proof {
        assert(s@ =~= request_path_of(*c, match ns {
            Some(n) => Some(n@),
            None => None,
        }, name@));
    }
    s
}

} // verus!
