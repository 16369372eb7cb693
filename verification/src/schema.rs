//! The JSON Schema fragment model and its mathematical view.
//!
//! A `SchemaNode` carries exactly one shape — an object with properties, a
//! scalar with its constraints, an array with an item schema, or an
//! externally tagged enum — so a node can never mix shapes (the heart of
//! the Kubernetes structural-schema restriction).  Each node also carries
//! an ordered extension slot of CEL validation rules.
//!
//! Every executable type has a ghost counterpart (`NodeV`, `ShapeV`, ...)
//! built from `Seq` and `Option`; contracts speak about those.

use vstd::prelude::*;

verus! {

/// A CEL validation rule: an opaque expression, never evaluated locally,
/// plus reporting metadata.  `field_path`, when present, is the dot-path
/// of the schema node the rule applies to.
#[derive(Debug, PartialEq, Eq)]
pub struct CelRule {
    pub rule: String,
    pub message: Option<String>,
    pub field_path: Option<String>,
    pub reason: Option<String>,
}

/// A default value for a schema node; scalar-shaped.
#[derive(Debug, PartialEq, Eq)]
pub enum DefaultValue {
    Null,
    Bool(bool),
    Int(i64),
    Text(String),
}

/// What an object schema says about keys outside its property map.
#[derive(Debug, PartialEq, Eq)]
pub enum AdditionalProps {
    /// Nothing declared: an open-ended map.
    Omitted,
    /// Explicitly allows arbitrary values: an open-ended map.
    Any,
    /// A bounded map: every additional value matches the given schema.
    Constrained(Box<SchemaNode>),
}

/// The shape of one variant of an externally tagged enum.
#[derive(Debug, PartialEq, Eq)]
pub enum VariantShape {
    /// A bare name, serialized as a plain string.
    Unit,
    /// Named fields, serialized as a single-key object.
    Fields(Box<SchemaNode>),
    /// Positional fields, serialized as a single-key object holding an
    /// array.
    Positional(Vec<SchemaNode>),
}

/// One variant of an externally tagged enum.
#[derive(Debug, PartialEq, Eq)]
pub struct EnumVariant {
    pub name: String,
    pub shape: VariantShape,
}

/// The single shape a schema node presents.
#[derive(Debug, PartialEq, Eq)]
pub enum SchemaShape {
    /// An object with a property map (insertion order is kept but not
    /// meaningful), a required-property set and an additional-properties
    /// declaration.
    Object {
        properties: Vec<(String, SchemaNode)>,
        required: Vec<String>,
        additional: AdditionalProps,
    },
    /// A string with optional length bounds and pattern.
    Text { min_length: Option<u32>, max_length: Option<u32>, pattern: Option<String> },
    /// An integer with optional bounds.
    Integer { minimum: Option<i64>, maximum: Option<i64> },
    /// A number with optional integral bounds.
    Number { minimum: Option<i64>, maximum: Option<i64> },
    Boolean,
    Null,
    /// An array whose items all match one schema.
    Array { items: Box<SchemaNode> },
    /// An externally tagged enum.
    OneOf { variants: Vec<EnumVariant> },
}

/// A JSON Schema fragment: one shape, a description, a default, and the
/// ordered CEL rule extension slot.
#[derive(Debug, PartialEq, Eq)]
pub struct SchemaNode {
    pub shape: SchemaShape,
    pub description: Option<String>,
    pub default: Option<DefaultValue>,
    pub rules: Vec<CelRule>,
}

/// Ghost counterpart of `CelRule`.
#[verifier::ext_equal]
pub ghost struct RuleV {
    pub rule: Seq<char>,
    pub message: Option<Seq<char>>,
    pub field_path: Option<Seq<char>>,
    pub reason: Option<Seq<char>>,
}

/// Ghost counterpart of `DefaultValue`.
#[verifier::ext_equal]
pub ghost enum DefaultV {
    Null,
    Bool(bool),
    Int(int),
    Text(Seq<char>),
}

/// Ghost counterpart of `AdditionalProps`.
#[verifier::ext_equal]
pub ghost enum AdditionalV {
    Omitted,
    Any,
    Constrained(Box<NodeV>),
}

/// Ghost counterpart of `VariantShape`.
#[verifier::ext_equal]
pub ghost enum VariantShapeV {
    Unit,
    Fields(Box<NodeV>),
    Positional(Seq<NodeV>),
}

/// Ghost counterpart of `EnumVariant`.
#[verifier::ext_equal]
pub ghost struct VariantV {
    pub name: Seq<char>,
    pub shape: VariantShapeV,
}

/// Ghost counterpart of `SchemaShape`.
#[verifier::ext_equal]
pub ghost enum ShapeV {
    Object { properties: Seq<(Seq<char>, NodeV)>, required: Seq<Seq<char>>, additional: AdditionalV },
    Text { min_length: Option<u32>, max_length: Option<u32>, pattern: Option<Seq<char>> },
    Integer { minimum: Option<i64>, maximum: Option<i64> },
    Number { minimum: Option<i64>, maximum: Option<i64> },
    Boolean,
    Null,
    Array { items: Box<NodeV> },
    OneOf { variants: Seq<VariantV> },
}

/// Ghost counterpart of `SchemaNode`.
#[verifier::ext_equal]
pub ghost struct NodeV {
    pub shape: ShapeV,
    pub description: Option<Seq<char>>,
    pub default: Option<DefaultV>,
    pub rules: Seq<RuleV>,
}

/// The view of an optional string.
pub open spec fn opt_str_view(o: Option<String>) -> Option<Seq<char>> {
    match o {
        Some(s) => Some(s@),
        None => None,
    }
}

impl View for CelRule {
    type V = RuleV;

    open spec fn view(&self) -> RuleV {
        RuleV {
            rule: self.rule@,
            message: opt_str_view(self.message),
            field_path: opt_str_view(self.field_path),
            reason: opt_str_view(self.reason),
        }
    }
}

impl View for DefaultValue {
    type V = DefaultV;

    open spec fn view(&self) -> DefaultV {
        match self {
            DefaultValue::Null => DefaultV::Null,
            DefaultValue::Bool(b) => DefaultV::Bool(*b),
            DefaultValue::Int(n) => DefaultV::Int(*n as int),
            DefaultValue::Text(s) => DefaultV::Text(s@),
        }
    }
}

/// The view of a rule vector.
pub open spec fn rules_view(v: Vec<CelRule>) -> Seq<RuleV> {
    v@.map_values(|r: CelRule| r@)
}

/// The view of an optional default.
pub open spec fn opt_default_view(o: Option<DefaultValue>) -> Option<DefaultV> {
    match o {
        Some(d) => Some(d@),
        None => None,
    }
}

/// The view of a vector of names.
pub open spec fn strings_view(v: Vec<String>) -> Seq<Seq<char>> {
    v@.map_values(|s: String| s@)
}

/// The view of a schema node.
pub open spec fn node_view(n: SchemaNode) -> NodeV
    decreases n,
{
    NodeV {
        shape: shape_view(n.shape),
        description: opt_str_view(n.description),
        default: opt_default_view(n.default),
        rules: rules_view(n.rules),
    }
}

/// The view of a schema shape.
pub open spec fn shape_view(s: SchemaShape) -> ShapeV
    decreases s,
{
    match s {
        SchemaShape::Object { properties, required, additional } => ShapeV::Object {
            properties: Seq::new(
                properties@.len(),
                |i: int|
                    if 0 <= i < properties@.len() {
                        (properties@[i].0@, node_view(properties@[i].1))
                    } else {
                        arbitrary()
                    },
            ),
            required: strings_view(required),
            additional: match additional {
                AdditionalProps::Omitted => AdditionalV::Omitted,
                AdditionalProps::Any => AdditionalV::Any,
                AdditionalProps::Constrained(b) => AdditionalV::Constrained(
                    Box::new(node_view(*b)),
                ),
            },
        },
        SchemaShape::Text { min_length, max_length, pattern } => ShapeV::Text {
            min_length,
            max_length,
            pattern: opt_str_view(pattern),
        },
        SchemaShape::Integer { minimum, maximum } => ShapeV::Integer { minimum, maximum },
        SchemaShape::Number { minimum, maximum } => ShapeV::Number { minimum, maximum },
        SchemaShape::Boolean => ShapeV::Boolean,
        SchemaShape::Null => ShapeV::Null,
        SchemaShape::Array { items } => ShapeV::Array { items: Box::new(node_view(*items)) },
        SchemaShape::OneOf { variants } => ShapeV::OneOf {
            variants: Seq::new(
                variants@.len(),
                |i: int|
                    if 0 <= i < variants@.len() {
                        variant_view(variants@[i])
                    } else {
                        arbitrary()
                    },
            ),
        },
    }
}

/// The view of an enum variant.
pub open spec fn variant_view(v: EnumVariant) -> VariantV
    decreases v,
{
    VariantV {
        name: v.name@,
        shape: match v.shape {
            VariantShape::Unit => VariantShapeV::Unit,
            VariantShape::Fields(b) => VariantShapeV::Fields(Box::new(node_view(*b))),
            VariantShape::Positional(ns) => VariantShapeV::Positional(
                Seq::new(
                    ns@.len(),
                    |i: int|
                        if 0 <= i < ns@.len() {
                            node_view(ns@[i])
                        } else {
                            arbitrary()
                        },
                ),
            ),
        },
    }
}

impl View for SchemaNode {
    type V = NodeV;

    open spec fn view(&self) -> NodeV {
        node_view(*self)
    }
}

impl View for EnumVariant {
    type V = VariantV;

    open spec fn view(&self) -> VariantV {
        variant_view(*self)
    }
}

impl CelRule {
    /// An exact copy of the rule.
    pub fn duplicate(&self) -> (r: CelRule)
        ensures
            r == *self,
    {
        CelRule {
            rule: self.rule.clone(),
            message: match &self.message {
                Some(m) => Some(m.clone()),
                None => None,
            },
            field_path: match &self.field_path {
                Some(p) => Some(p.clone()),
                None => None,
            },
            reason: match &self.reason {
                Some(t) => Some(t.clone()),
                None => None,
            },
        }
    }
}

} // verus!
