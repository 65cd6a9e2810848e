use vstd::prelude::*;
use vstd::string::StringExecFns;

verus! {

/// Target of a reference-typed attribute: either the canonical content-derived
/// identifier (SAID) of another bundle, or its short reference name.
#[derive(Clone, Debug, PartialEq, Eq)]
pub enum RefValue {
    Said(String),
    Name(String),
}

/// Declared type of an attribute: a terminal scalar type, a reference to
/// another bundle, a homogeneous array of a nested type, or no declared type.
#[derive(Debug, PartialEq, Eq)]
pub enum NestedAttrType {
    Value(String),
    Reference(RefValue),
    Array(Box<NestedAttrType>),
    Null,
}

/// Loosely structured overlay payload: a tagged union of the shapes a
/// structured document can carry. Numbers keep their decimal text, since the
/// engine never computes with them. Objects keep their declared entry order;
/// keys are expected to be unique, and a lookup takes the first match.
#[derive(Debug, PartialEq, Eq)]
pub enum PropValue {
    Null,
    Bool(bool),
    Num(String),
    Str(String),
    List(Vec<PropValue>),
    Obj(Vec<(String, PropValue)>),
}

/// An auxiliary overlay document: a kind name plus an optional structured
/// payload. Overlays whose kind name contains "label" contribute labels.
#[derive(Debug, PartialEq, Eq)]
pub struct Overlay {
    pub name: String,
    pub properties: Option<PropValue>,
}

/// A schema bundle: an optional canonical identifier, an ordered attribute
/// map (insertion order is semantically meaningful; names are unique within
/// one bundle), and a sequence of overlays.
#[derive(Debug, PartialEq, Eq)]
pub struct Bundle {
    pub said: Option<String>,
    pub attributes: Vec<(String, NestedAttrType)>,
    pub overlays: Vec<Overlay>,
}

/// Read-only lookup table resolving a bundle's canonical identifier, and
/// separately its short reference name, to the bundle it refers to. Keys are
/// expected to be unique; a lookup takes the first match.
#[derive(Debug)]
pub struct DependencyIndex {
    pub by_said: Vec<(String, Bundle)>,
    pub by_refn: Vec<(String, Bundle)>,
}

impl Default for DependencyIndex {
    /// An index that resolves nothing.
    fn default() -> (r: Self)
        ensures
            r.by_said@ == Seq::<(String, Bundle)>::empty(),
            r.by_refn@ == Seq::<(String, Bundle)>::empty(),
    {
        DependencyIndex { by_said: Vec::new(), by_refn: Vec::new() }
    }
}

/// One flattened data-entry column.
#[derive(Clone, Debug, PartialEq, Eq)]
pub struct AttributeSpec {
    pub name: String,
    pub label: Option<String>,
    pub attr_type: Option<String>,
    pub required: bool,
    pub format: Option<String>,
    pub unit: Option<String>,
    pub cardinality: Option<String>,
    pub entry_values: Option<Vec<String>>,
}

/// Mathematical image of an [`AttributeSpec`]: every text field as a
/// sequence of characters.
pub struct AttrSpecView {
    pub name: Seq<char>,
    pub label: Option<Seq<char>>,
    pub attr_type: Option<Seq<char>>,
    pub required: bool,
    pub format: Option<Seq<char>>,
    pub unit: Option<Seq<char>>,
    pub cardinality: Option<Seq<char>>,
    pub entry_values: Option<Seq<Seq<char>>>,
}

impl View for AttributeSpec {
    type V = AttrSpecView;

    open spec fn view(&self) -> AttrSpecView {
        AttrSpecView {
            name: self.name@,
            label: self.label.deep_view(),
            attr_type: self.attr_type.deep_view(),
            required: self.required,
            format: self.format.deep_view(),
            unit: self.unit.deep_view(),
            cardinality: self.cardinality.deep_view(),
            entry_values: self.entry_values.deep_view(),
        }
    }
}

impl DeepView for AttributeSpec {
    type V = AttrSpecView;

    open spec fn deep_view(&self) -> AttrSpecView {
        self.view()
    }
}

/// The engine's sole output: the root bundle's canonical identifier plus the
/// flattened attribute list, in first-discovery order.
#[derive(Clone, Debug, PartialEq, Eq)]
pub struct EntrySchema {
    pub said: String,
    pub attributes: Vec<AttributeSpec>,
}

/// Mathematical image of an [`EntrySchema`].
pub struct EntrySchemaView {
    pub said: Seq<char>,
    pub attributes: Seq<AttrSpecView>,
}

impl View for EntrySchema {
    type V = EntrySchemaView;

    open spec fn view(&self) -> EntrySchemaView {
        EntrySchemaView { said: self.said@, attributes: self.attributes.deep_view() }
    }
}

/// String form of a reference target: the identifier's text for a SAID, the
/// name itself for a reference name.
pub open spec fn ref_text(r: RefValue) -> Seq<char> {
    match r {
        RefValue::Said(s) => s@,
        RefValue::Name(n) => n@,
    }
}

/// Display form of an attribute type descriptor, structural and recursive:
/// `Value(t)` is `t` verbatim, `Reference(r)` is `reference(r)`, `Array(t)`
/// is `array<t>`, and `Null` is `null`.
pub open spec fn fmt_type(t: NestedAttrType) -> Seq<char>
    decreases t,
{
    match t {
        NestedAttrType::Value(v) => v@,
        NestedAttrType::Reference(r) => "reference("@ + ref_text(r) + ")"@,
        NestedAttrType::Array(inner) => "array<"@ + fmt_type(*inner) + ">"@,
        NestedAttrType::Null => "null"@,
    }
}

/// Renders an attribute type descriptor for display.
pub fn format_attr_type(t: &NestedAttrType) -> (r: String)
    ensures
        r@ == fmt_type(*t),
    decreases *t,
{
    match t {
        NestedAttrType::Value(v) => v.clone(),
        NestedAttrType::Reference(r) => {
            let mut s = String::from_str("reference(");
            match r {
                RefValue::Said(said) => { s.append(said.as_str()); },
                RefValue::Name(n) => { s.append(n.as_str()); },
            }
            s.append(")");
            s
        },
        NestedAttrType::Array(inner) => {
            let mut s = String::from_str("array<");
            let i = format_attr_type(inner);
            s.append(i.as_str());
            s.append(">");
            s
        },
        NestedAttrType::Null => String::from_str("null"),
    }
}

} // verus!
