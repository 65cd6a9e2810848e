use vstd::prelude::*;
use crate::extract::{collect_upto, compose_label, emit_leaf, expand_target, extract_spec,
    extraction_fuel, full_path, leaf_spec, own_label, resolve_spec, seen_name};
use crate::labels::labels_of;
use crate::model::{Bundle, NestedAttrType, RefValue, fmt_type, ref_text};

verus! {

/// For every combination of a present or absent inherited label prefix and a
/// present or absent own label, the composed label follows the four-case
/// table: prefix and label joined with a dot; prefix and bare name joined
/// with a dot; the label alone; nothing.
pub proof fn lemma_label_composition(p: Seq<char>, l: Seq<char>, name: Seq<char>)
    ensures
        compose_label(Some(p), Some(l), name) == Some(p + "."@ + l),
        compose_label(Some(p), None, name) == Some(p + "."@ + name),
        compose_label(None, Some(l), name) == Some(l),
        compose_label(None, None, name) == None::<Seq<char>>,
{
}

/// Extraction is a function of its inputs: two results of the same bundle,
/// dependency table and language choice are equal, so repeated extraction
/// over identical inputs yields identical output.
pub proof fn lemma_extraction_deterministic(
    b: Bundle,
    by_said: Seq<(String, Bundle)>,
    by_refn: Seq<(String, Bundle)>,
    lang: Option<Seq<char>>,
    r1: crate::model::EntrySchemaView,
    r2: crate::model::EntrySchemaView,
)
    requires
        r1 == extract_spec(b, by_said, by_refn, lang),
        r2 == extract_spec(b, by_said, by_refn, lang),
    ensures
        r1 == r2,
{
}

/// A dotted name already emitted contributes nothing when emitted again:
/// the earlier attribute stays, the later one is dropped.
pub proof fn lemma_duplicate_leaf_contributes_nothing(
    out: Seq<crate::model::AttrSpecView>,
    name: Seq<char>,
    label: Option<Seq<char>>,
    ty: NestedAttrType,
)
    requires
        seen_name(out, name),
    ensures
        emit_leaf(out, name, label, ty) == out,
{
}

/// A reference attribute whose target is absent from the dependency index is
/// recorded as a terminal leaf: nothing is expanded, and the leaf's type is
/// the formatted reference descriptor.
pub proof fn lemma_unresolved_reference_is_leaf(
    prefix: Seq<char>,
    label_prefix: Option<Seq<char>>,
    name: String,
    r: RefValue,
    by_said: Seq<(String, Bundle)>,
    by_refn: Seq<(String, Bundle)>,
    labels: Map<Seq<char>, Seq<char>>,
    out: Seq<crate::model::AttrSpecView>,
    fuel: nat,
)
    requires
        resolve_spec(NestedAttrType::Reference(r), by_said, by_refn) is None,
        !seen_name(out, full_path(prefix, name@)),
    ensures
        collect_upto(
            prefix,
            label_prefix,
            seq![(name, NestedAttrType::Reference(r))],
            by_said,
            by_refn,
            labels,
            out,
            fuel,
            1,
        ) == out.push(leaf_spec(
            full_path(prefix, name@),
            compose_label(label_prefix, own_label(labels, name@), name@),
            NestedAttrType::Reference(r),
        )),
        leaf_spec(
            full_path(prefix, name@),
            compose_label(label_prefix, own_label(labels, name@), name@),
            NestedAttrType::Reference(r),
        ).attr_type == Some("reference("@ + ref_text(r) + ")"@),
{
    let attrs = seq![(name, NestedAttrType::Reference(r))];
    assert(attrs[0] == (name, NestedAttrType::Reference(r)));
    assert(collect_upto(prefix, label_prefix, attrs, by_said, by_refn, labels, out, fuel, 0)
        == out);
}

/// The attribute's declared type neither is a reference nor is an array
/// whose element type is a reference, so it can expand into nothing.
pub open spec fn reference_free_type(t: NestedAttrType) -> bool {
    match t {
        NestedAttrType::Reference(_) => false,
        NestedAttrType::Array(inner) => match *inner {
            NestedAttrType::Reference(_) => false,
            _ => true,
        },
        _ => true,
    }
}

proof fn lemma_collect_flat_aux(
    prefix: Seq<char>,
    label_prefix: Option<Seq<char>>,
    attrs: Seq<(String, NestedAttrType)>,
    by_said: Seq<(String, Bundle)>,
    by_refn: Seq<(String, Bundle)>,
    labels: Map<Seq<char>, Seq<char>>,
    out: Seq<crate::model::AttrSpecView>,
    fuel: nat,
    n: int,
)
    requires
        0 <= n <= attrs.len(),
        forall|i: int| 0 <= i < attrs.len() ==> reference_free_type(#[trigger] attrs[i].1),
        forall|i: int, j: int| 0 <= i < j < attrs.len() ==> full_path(prefix, attrs[i].0@)
            != full_path(prefix, attrs[j].0@),
        forall|i: int| 0 <= i < attrs.len() ==> !seen_name(
            out,
            full_path(prefix, #[trigger] attrs[i].0@),
        ),
    ensures
        ({
            let r = collect_upto(prefix, label_prefix, attrs, by_said, by_refn, labels, out, fuel, n);
            &&& r.len() == out.len() + n
            &&& (forall|j: int| 0 <= j < out.len() ==> r[j] == out[j])
            &&& (forall|k: int| 0 <= k < n ==> r[out.len() + k] == leaf_spec(
                full_path(prefix, #[trigger] attrs[k].0@),
                compose_label(label_prefix, own_label(labels, attrs[k].0@), attrs[k].0@),
                attrs[k].1,
            ))
        }),
    decreases n,
{
    if n > 0 {
        lemma_collect_flat_aux(
            prefix, label_prefix, attrs, by_said, by_refn, labels, out, fuel, n - 1);
        let prev = collect_upto(
            prefix, label_prefix, attrs, by_said, by_refn, labels, out, fuel, n - 1);
        let ty = attrs[n - 1].1;
        let full = full_path(prefix, attrs[n - 1].0@);
        assert(resolve_spec(ty, by_said, by_refn) is None);
        assert(expand_target(ty, by_said, by_refn) is None);
        assert(!seen_name(prev, full)) by {
            if seen_name(prev, full) {
                let i = choose|i: int| 0 <= i < prev.len() && prev[i].name == full;
                if i < out.len() {
                    assert(seen_name(out, full));
                } else {
                    let k = i - out.len();
                    assert(prev[i].name == full_path(prefix, attrs[k].0@));
                }
            }
        }
    }
}

/// For a bundle with no reference-typed attributes and pairwise distinct
/// attribute names, the output attribute list has exactly the bundle's
/// declared order and names, and each attribute's type is the formatted
/// descriptor of the declared type.
pub proof fn lemma_flat_bundle_extraction(
    b: Bundle,
    by_said: Seq<(String, Bundle)>,
    by_refn: Seq<(String, Bundle)>,
    lang: Option<Seq<char>>,
)
    requires
        b.said is Some,
        forall|i: int| 0 <= i < b.attributes@.len() ==> reference_free_type(
            #[trigger] b.attributes@[i].1,
        ),
        forall|i: int, j: int| 0 <= i < j < b.attributes@.len() ==> b.attributes@[i].0@
            != b.attributes@[j].0@,
    ensures
        ({
            let r = extract_spec(b, by_said, by_refn, lang);
            &&& r.attributes.len() == b.attributes@.len()
            &&& (forall|i: int| 0 <= i < b.attributes@.len() ==> r.attributes[i].name
                == #[trigger] b.attributes@[i].0@)
            &&& (forall|i: int| 0 <= i < b.attributes@.len() ==> r.attributes[i].attr_type
                == Some(fmt_type(#[trigger] b.attributes@[i].1)))
        }),
{
    let attrs = b.attributes@;
    let prefix = Seq::<char>::empty();
    assert(forall|i: int| 0 <= i < attrs.len() ==> full_path(prefix, #[trigger] attrs[i].0@)
        == attrs[i].0@);
    lemma_collect_flat_aux(
        prefix,
        None,
        attrs,
        by_said,
        by_refn,
        labels_of(b, lang),
        Seq::empty(),
        extraction_fuel(by_said, by_refn),
        attrs.len() as int,
    );
}

proof fn lemma_collect_distinct_aux(
    prefix: Seq<char>,
    label_prefix: Option<Seq<char>>,
    attrs: Seq<(String, NestedAttrType)>,
    by_said: Seq<(String, Bundle)>,
    by_refn: Seq<(String, Bundle)>,
    labels: Map<Seq<char>, Seq<char>>,
    out: Seq<crate::model::AttrSpecView>,
    fuel: nat,
    n: int,
)
    requires
        0 <= n <= attrs.len(),
        forall|i: int, j: int| 0 <= i < j < out.len() ==> out[i].name != out[j].name,
    ensures
        ({
            let r = collect_upto(prefix, label_prefix, attrs, by_said, by_refn, labels, out, fuel, n);
            &&& out.len() <= r.len()
            &&& (forall|j: int| 0 <= j < out.len() ==> r[j] == out[j])
            &&& (forall|i: int, j: int| 0 <= i < j < r.len() ==> r[i].name != r[j].name)
        }),
    decreases fuel, n,
{
    if n > 0 {
        lemma_collect_distinct_aux(
            prefix, label_prefix, attrs, by_said, by_refn, labels, out, fuel, n - 1);
        let prev = collect_upto(
            prefix, label_prefix, attrs, by_said, by_refn, labels, out, fuel, n - 1);
        let name = attrs[n - 1].0;
        let ty = attrs[n - 1].1;
        let full = full_path(prefix, name@);
        let own = own_label(labels, name@);
        if fuel > 0 && expand_target(ty, by_said, by_refn) is Some {
            let target = match expand_target(ty, by_said, by_refn) {
                Some(t) => t,
                None => arbitrary(),
            };
            lemma_collect_distinct_aux(
                full,
                own,
                target.attributes@,
                by_said,
                by_refn,
                labels_of(target, None),
                prev,
                (fuel - 1) as nat,
                target.attributes@.len() as int,
            );
        } else {
            if !seen_name(prev, full) {
                assert(forall|i: int| 0 <= i < prev.len() ==> prev[i].name != full);
            }
        }
    }
}

/// De-duplication, first wins: the traversal only appends to the already
/// emitted attributes, and no two attributes of the output carry the same
/// dotted name — when two traversal paths produce the same dotted name, only
/// the first-discovered attribute appears and the second contributes
/// nothing.
pub proof fn lemma_extraction_names_distinct(
    b: Bundle,
    by_said: Seq<(String, Bundle)>,
    by_refn: Seq<(String, Bundle)>,
    lang: Option<Seq<char>>,
)
    requires
        b.said is Some,
    ensures
        ({
            let r = extract_spec(b, by_said, by_refn, lang);
            forall|i: int, j: int| 0 <= i < j < r.attributes.len() ==> r.attributes[i].name
                != r.attributes[j].name
        }),
{
    lemma_collect_distinct_aux(
        Seq::empty(),
        None,
        b.attributes@,
        by_said,
        by_refn,
        labels_of(b, lang),
        Seq::empty(),
        extraction_fuel(by_said, by_refn),
        b.attributes@.len() as int,
    );
}

} // verus!
