use vstd::prelude::*;
use vstd::string::StringExecFns;
use crate::errors::EntryError;
use crate::labels::{labels_from_bundle, labels_of, map_of, table_get};
use crate::model::{AttrSpecView, AttributeSpec, Bundle, DependencyIndex, EntrySchema,
    EntrySchemaView, NestedAttrType, RefValue, format_attr_type, fmt_type};
use crate::strings::str_equal;

verus! {

/// Options of a single extraction call. `label_lang` selects which overlay
/// language to prefer when building the root label table; absent means take
/// the first unfiltered match. `metadata_lang` is reserved for overlay-driven
/// metadata enrichment, a known future extension, and is not read today.
pub struct ExtractOptions {
    pub label_lang: Option<String>,
    pub metadata_lang: Option<String>,
}

impl Default for ExtractOptions {
    /// No language filter at all.
    fn default() -> (r: Self)
        ensures
            r.label_lang is None,
            r.metadata_lang is None,
    {
        ExtractOptions { label_lang: None, metadata_lang: None }
    }
}

/// Bundle under `key` in one side of the dependency index: the first
/// matching entry.
pub open spec fn index_get(entries: Seq<(String, Bundle)>, key: Seq<char>) -> Option<Bundle>
    decreases entries.len(),
{
    if entries.len() == 0 {
        None
    } else if entries[0].0@ == key {
        Some(entries[0].1)
    } else {
        index_get(entries.drop_first(), key)
    }
}

/// Bundle a reference-typed attribute resolves to: a SAID reference is looked
/// up by the identifier's text, a name reference by the name; any other
/// descriptor resolves to nothing.
pub open spec fn resolve_spec(
    t: NestedAttrType,
    by_said: Seq<(String, Bundle)>,
    by_refn: Seq<(String, Bundle)>,
) -> Option<Bundle> {
    match t {
        NestedAttrType::Reference(RefValue::Said(s)) => index_get(by_said, s@),
        NestedAttrType::Reference(RefValue::Name(n)) => index_get(by_refn, n@),
        _ => None,
    }
}

/// Bundle an attribute expands into: its own resolution, or, for an array
/// whose element type is a reference, the element type's resolution.
pub open spec fn expand_target(
    t: NestedAttrType,
    by_said: Seq<(String, Bundle)>,
    by_refn: Seq<(String, Bundle)>,
) -> Option<Bundle> {
    match resolve_spec(t, by_said, by_refn) {
        Some(b) => Some(b),
        None => match t {
            NestedAttrType::Array(inner) => resolve_spec(*inner, by_said, by_refn),
            _ => None,
        },
    }
}

/// Dotted path of an attribute under a traversal prefix.
pub open spec fn full_path(prefix: Seq<char>, name: Seq<char>) -> Seq<char> {
    if prefix.len() == 0 {
        name
    } else {
        prefix + "."@ + name
    }
}

/// The label composed for a leaf, by case on (inherited label prefix, the
/// attribute's own label); a missing own label falls back to the bare
/// attribute name under a present prefix.
pub open spec fn compose_label(
    label_prefix: Option<Seq<char>>,
    own: Option<Seq<char>>,
    name: Seq<char>,
) -> Option<Seq<char>> {
    match (label_prefix, own) {
        (Some(p), Some(l)) => Some(p + "."@ + l),
        (Some(p), None) => Some(p + "."@ + name),
        (None, Some(l)) => Some(l),
        (None, None) => None,
    }
}

/// The label a table assigns to a bare attribute name, if any.
pub open spec fn own_label(labels: Map<Seq<char>, Seq<char>>, name: Seq<char>) -> Option<
    Seq<char>,
> {
    if labels.contains_key(name) {
        Some(labels[name])
    } else {
        None
    }
}

/// Some attribute already emitted carries this dotted name.
pub open spec fn seen_name(out: Seq<AttrSpecView>, name: Seq<char>) -> bool {
    exists|i: int| 0 <= i < out.len() && out[i].name == name
}

/// The attribute record emitted for a leaf: everything beyond name, label and
/// formatted type stays at its default absent or false value.
pub open spec fn leaf_spec(name: Seq<char>, label: Option<Seq<char>>, ty: NestedAttrType)
    -> AttrSpecView {
    AttrSpecView {
        name: name,
        label: label,
        attr_type: Some(fmt_type(ty)),
        required: false,
        format: None,
        unit: None,
        cardinality: None,
        entry_values: None,
    }
}

/// Leaf emission with first-writer-wins de-duplication: a dotted name already
/// emitted contributes nothing.
pub open spec fn emit_leaf(
    out: Seq<AttrSpecView>,
    name: Seq<char>,
    label: Option<Seq<char>>,
    ty: NestedAttrType,
) -> Seq<AttrSpecView> {
    if seen_name(out, name) {
        out
    } else {
        out.push(leaf_spec(name, label, ty))
    }
}

/// The flattening traversal over the first `n` attributes of the current
/// bundle, in declared order, appended to the accumulator `out`.
///
/// Each attribute either expands into the bundle its type resolves to — the
/// target's attributes are walked under the extended path, with the
/// attribute's raw own label as the new label prefix and the target's
/// unfiltered label table — or is emitted as a leaf. Expansion spends one
/// unit of `fuel`; with none left a resolvable reference is left as a leaf,
/// which bounds the traversal on cyclic reference graphs. The fuel budget of
/// a full extraction exceeds the number of indexed bundles, so on any acyclic
/// graph it is never exhausted.
pub open spec fn collect_upto(
    prefix: Seq<char>,
    label_prefix: Option<Seq<char>>,
    attrs: Seq<(String, NestedAttrType)>,
    by_said: Seq<(String, Bundle)>,
    by_refn: Seq<(String, Bundle)>,
    labels: Map<Seq<char>, Seq<char>>,
    out: Seq<AttrSpecView>,
    fuel: nat,
    n: int,
) -> Seq<AttrSpecView>
    decreases fuel, n,
{
    if n <= 0 {
        out
    } else {
        let prev = collect_upto(prefix, label_prefix, attrs, by_said, by_refn, labels, out, fuel, n - 1);
        let name = attrs[n - 1].0;
        let ty = attrs[n - 1].1;
        let full = full_path(prefix, name@);
        let own = own_label(labels, name@);
        let emitted = emit_leaf(prev, full, compose_label(label_prefix, own, name@), ty);
        if fuel > 0 {
            match expand_target(ty, by_said, by_refn) {
                Some(target) => collect_upto(
                    full,
                    own,
                    target.attributes@,
                    by_said,
                    by_refn,
                    labels_of(target, None),
                    prev,
                    (fuel - 1) as nat,
                    target.attributes@.len() as int,
                ),
                None => emitted,
            }
        } else {
            emitted
        }
    }
}

/// Fuel budget of one extraction: one more than the number of indexed
/// bundles, capped at the largest count the traversal carries. A chain of
/// expansions longer than the index must revisit some bundle, so on an
/// acyclic reference graph this budget is never exhausted.
pub open spec fn extraction_fuel(
    by_said: Seq<(String, Bundle)>,
    by_refn: Seq<(String, Bundle)>,
) -> nat {
    let n = by_said.len() + by_refn.len() + 1;
    if n <= u64::MAX {
        n
    } else {
        u64::MAX as nat
    }
}

/// The whole extraction of a bundle with a present identifier: its SAID plus
/// the flattened attribute list produced by the traversal, starting from an
/// empty path, no label prefix, the root's language-filtered label table and
/// an empty accumulator.
pub open spec fn extract_spec(
    b: Bundle,
    by_said: Seq<(String, Bundle)>,
    by_refn: Seq<(String, Bundle)>,
    label_lang: Option<Seq<char>>,
) -> EntrySchemaView
    recommends
        b.said is Some,
{
    EntrySchemaView {
        said: match b.said {
            Some(s) => s@,
            None => Seq::empty(),
        },
        attributes: collect_upto(
            Seq::empty(),
            None,
            b.attributes@,
            by_said,
            by_refn,
            labels_of(b, label_lang),
            Seq::empty(),
            extraction_fuel(by_said, by_refn),
            b.attributes@.len() as int,
        ),
    }
}

/// Scans one side of the dependency index for a key.
fn index_lookup<'a>(entries: &'a Vec<(String, Bundle)>, key: &String) -> (r: Option<&'a Bundle>)
    ensures
        match r {
            Some(b) => index_get(entries@, key@) == Some(*b),
            None => index_get(entries@, key@) is None,
        },
{
    let mut i: usize = 0;
    assert(entries@.skip(0) =~= entries@);
    while i < entries.len()
        invariant
            i <= entries@.len(),
            index_get(entries@, key@) == index_get(entries@.skip(i as int), key@),
        decreases entries@.len() - i,
    {
        if str_equal(entries[i].0.as_str(), key.as_str()) {
            proof {
                let rest = entries@.skip(i as int);
                assert(rest[0] == entries@[i as int]);
                assert(index_get(rest, key@) == Some(rest[0].1));
            }
            let pair = &entries[i];
            return Some(&pair.1);
        }
        proof {
            assert(entries@.skip(i as int).drop_first() =~= entries@.skip(i + 1));
        }
        i = i + 1;
    }
    assert(entries@.skip(entries@.len() as int) =~= Seq::<(String, Bundle)>::empty());
    None
}

/// Resolves a reference-typed attribute against the dependency index.
fn resolve_reference<'a>(t: &NestedAttrType, deps: &'a DependencyIndex) -> (r: Option<&'a Bundle>)
    ensures
        match r {
            Some(b) => resolve_spec(*t, deps.by_said@, deps.by_refn@) == Some(*b),
            None => resolve_spec(*t, deps.by_said@, deps.by_refn@) is None,
        },
{
    match t {
        NestedAttrType::Reference(RefValue::Said(s)) => index_lookup(&deps.by_said, s),
        NestedAttrType::Reference(RefValue::Name(n)) => index_lookup(&deps.by_refn, n),
        _ => None,
    }
}

/// The bundle an attribute expands into, if any: a resolvable reference, or
/// an array of a resolvable reference.
fn expansion_target<'a>(t: &NestedAttrType, deps: &'a DependencyIndex) -> (r: Option<&'a Bundle>)
    ensures
        match r {
            Some(b) => expand_target(*t, deps.by_said@, deps.by_refn@) == Some(*b),
            None => expand_target(*t, deps.by_said@, deps.by_refn@) is None,
        },
{
    match resolve_reference(t, deps) {
        Some(b) => Some(b),
        None => match t {
            NestedAttrType::Array(inner) => resolve_reference(inner, deps),
            _ => None,
        },
    }
}

/// A dotted name is already present among the emitted attributes.
fn contains_name(out: &Vec<AttributeSpec>, name: &String) -> (r: bool)
    ensures
        r == seen_name(out.deep_view(), name@),
{
    let mut i: usize = 0;
    while i < out.len()
        invariant
            i <= out@.len(),
            forall|j: int| 0 <= j < i ==> out.deep_view()[j].name != name@,
        decreases out@.len() - i,
    {
        if str_equal(out[i].name.as_str(), name.as_str()) {
            assert(out.deep_view()[i as int].name == name@);
            return true;
        }
        i = i + 1;
    }
    false
}

/// One traversal frame: walks the attributes of the current bundle in
/// declared order, expanding resolvable references and emitting leaves into
/// the shared accumulator.
fn collect_attributes(
    prefix: &String,
    label_prefix: Option<&String>,
    attrs: &Vec<(String, NestedAttrType)>,
    deps: &DependencyIndex,
    label_map: &Vec<(String, String)>,
    out: &mut Vec<AttributeSpec>,
    fuel: u64,
)
    ensures
        final(out).deep_view() == collect_upto(
            prefix@,
            label_prefix.deep_view(),
            attrs@,
            deps.by_said@,
            deps.by_refn@,
            map_of(label_map@),
            old(out).deep_view(),
            fuel as nat,
            attrs@.len() as int,
        ),
    decreases fuel,
{
    let ghost out0 = out.deep_view();
    let mut i: usize = 0;
    while i < attrs.len()
        invariant
            i <= attrs@.len(),
            out.deep_view() == collect_upto(
                prefix@,
                label_prefix.deep_view(),
                attrs@,
                deps.by_said@,
                deps.by_refn@,
                map_of(label_map@),
                out0,
                fuel as nat,
                i as int,
            ),
        decreases attrs@.len() - i,
    {
        let ghost prev = out.deep_view();
        let ghost labels = map_of(label_map@);
        let name = &attrs[i].0;
        let ty = &attrs[i].1;

        let full_name = if prefix.as_str().is_empty() {
            name.clone()
        } else {
            let mut s = prefix.clone();
            s.append(".");
            s.append(name.as_str());
            s
        };
        assert(full_name@ == full_path(prefix@, name@));

        let current_label = table_get(label_map, name);
        let ghost own = if labels.contains_key(name@) {
            Some(labels[name@])
        } else {
            None
        };
        assert(current_label.deep_view() == own);

        let combined: Option<String> = match (label_prefix, &current_label) {
            (Some(p), Some(l)) => {
                let mut s = (*p).clone();
                s.append(".");
                s.append(l.as_str());
                Some(s)
            },
            (Some(p), None) => {
                let mut s = (*p).clone();
                s.append(".");
                s.append(name.as_str());
                Some(s)
            },
            (None, Some(l)) => Some(l.clone()),
            (None, None) => None,
        };
        assert(combined.deep_view() == compose_label(label_prefix.deep_view(), own, name@));

        let mut expanded = false;
        if fuel > 0 {
            if let Some(target) = expansion_target(ty, deps) {
                let target_labels = labels_from_bundle(target, None);
                let current_ref = match &current_label {
                    Some(l) => Some(l),
                    None => None,
                };
                collect_attributes(
                    &full_name,
                    current_ref,
                    &target.attributes,
                    deps,
                    &target_labels,
                    out,
                    fuel - 1,
                );
                expanded = true;
            }
        }
        if !expanded {
            if !contains_name(out, &full_name) {
                let leaf = AttributeSpec {
                    name: full_name,
                    label: combined,
                    attr_type: Some(format_attr_type(ty)),
                    required: false,
                    format: None,
                    unit: None,
                    cardinality: None,
                    entry_values: None,
                };
                assert(leaf@ == leaf_spec(full_path(prefix@, name@), compose_label(
                    label_prefix.deep_view(), own, name@), attrs@[i as int].1));
                out.push(leaf);
                assert(out.deep_view() =~= prev.push(leaf@));
            }
        }
        proof {
            assert(out.deep_view() == collect_upto(
                prefix@,
                label_prefix.deep_view(),
                attrs@,
                deps.by_said@,
                deps.by_refn@,
                labels,
                out0,
                fuel as nat,
                i + 1,
            ));
        }
        i = i + 1;
    }
}

/// Flattens a bundle against a table of resolvable dependency bundles into a
/// single data-entry schema.
///
/// Fails with [`EntryError::MissingSaid`] exactly when the root bundle has no
/// canonical identifier; every other anomaly — an unresolved reference, a
/// malformed overlay, a language filter matching nothing — only degrades the
/// output.
pub fn entry_schema_from_bundle_with_deps(
    bundle: &Bundle,
    deps: &DependencyIndex,
    options: &ExtractOptions,
) -> (r: Result<EntrySchema, EntryError>)
    ensures
        match r {
            Ok(schema) => bundle.said is Some && schema@ == extract_spec(
                *bundle,
                deps.by_said@,
                deps.by_refn@,
                options.label_lang.deep_view(),
            ),
            Err(e) => bundle.said is None && e == EntryError::MissingSaid,
        },
{
    let said = match &bundle.said {
        Some(s) => s.clone(),
        None => {
            return Err(EntryError::MissingSaid);
        },
    };

    let lang_ref = match &options.label_lang {
        Some(l) => Some(l),
        None => None,
    };
    let label_map = labels_from_bundle(bundle, lang_ref);

    let n1: u128 = deps.by_said.len() as u128;
    let n2: u128 = deps.by_refn.len() as u128;
    let total: u128 = n1 + n2 + 1;
    let fuel: u64 = if total > u64::MAX as u128 {
        u64::MAX
    } else {
        total as u64
    };
    assert(fuel as nat == extraction_fuel(deps.by_said@, deps.by_refn@));

    let mut attributes: Vec<AttributeSpec> = Vec::new();
    assert(attributes.deep_view() =~= Seq::<AttrSpecView>::empty());
    let empty_prefix = String::new();
    collect_attributes(
        &empty_prefix,
        None,
        &bundle.attributes,
        deps,
        &label_map,
        &mut attributes,
        fuel,
    );

    Ok(EntrySchema { said, attributes })
}

/// Flattens a bundle that references no dependencies: every reference-typed
/// attribute stays a leaf.
pub fn entry_schema_from_bundle(bundle: &Bundle, options: &ExtractOptions) -> (r: Result<
    EntrySchema,
    EntryError,
>)
    ensures
        match r {
            Ok(schema) => bundle.said is Some && schema@ == extract_spec(
                *bundle,
                Seq::empty(),
                Seq::empty(),
                options.label_lang.deep_view(),
            ),
            Err(e) => bundle.said is None && e == EntryError::MissingSaid,
        },
{
    let deps = DependencyIndex::default();
    entry_schema_from_bundle_with_deps(bundle, &deps, options)
}

} // verus!
