//! Synthesis of Kubernetes CustomResourceDefinition documents.
//!
//! A declarative resource descriptor (API group, version, kind, naming
//! overrides, subresource and printer-column metadata, CEL validation rules)
//! plus a JSON Schema for the resource's fields is compiled into a complete,
//! structurally valid CRD document, together with the addressing metadata a
//! generic API client needs to talk to instances of the new resource kind.
//!
//! Invalid combinations (ambiguous storage versions, scale subresources
//! without status, unresolved rule paths, non-structural schema shapes) are
//! rejected deterministically at build time, before any document is emitted.

pub mod error;
pub mod names;
pub mod descriptor;
pub mod binder;
pub mod schema;
pub mod paths;
pub mod rules;
pub mod structural;
pub mod synth;
pub mod laws;
pub mod json;
