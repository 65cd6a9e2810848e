use vstd::prelude::*;
use vstd::string::StringExecFns;
use crate::model::{Bundle, Overlay, PropValue};
use crate::strings::{has_substr, str_contains, str_equal};

verus! {

/// Value under `key` in an object's entry list: the first matching entry.
pub open spec fn obj_get(entries: Seq<(String, PropValue)>, key: Seq<char>) -> Option<PropValue>
    decreases entries.len(),
{
    if entries.len() == 0 {
        None
    } else if entries[0].0@ == key {
        Some(entries[0].1)
    } else {
        obj_get(entries.drop_first(), key)
    }
}

/// Field lookup on a structured value: defined only on objects.
pub open spec fn prop_get(v: PropValue, key: Seq<char>) -> Option<PropValue> {
    match v {
        PropValue::Obj(entries) => obj_get(entries@, key),
        _ => None,
    }
}

/// The characters of a structured value when it is a string.
pub open spec fn prop_as_str(v: PropValue) -> Option<Seq<char>> {
    match v {
        PropValue::Str(s) => Some(s@),
        _ => None,
    }
}

impl PropValue {
    /// Looks up a field of an object; `None` on any other shape.
    pub fn get(&self, key: &str) -> (r: Option<&PropValue>)
        ensures
            match r {
                Some(v) => prop_get(*self, key@) == Some(*v),
                None => prop_get(*self, key@) is None,
            },
    {
        match self {
            PropValue::Obj(entries) => {
                assert(prop_get(*self, key@) == obj_get(entries@, key@));
                let mut i: usize = 0;
                assert(entries@.skip(0) =~= entries@);
                while i < entries.len()
                    invariant
                        i <= entries@.len(),
                        prop_get(*self, key@) == obj_get(entries@, key@),
                        obj_get(entries@, key@) == obj_get(entries@.skip(i as int), key@),
                    decreases entries@.len() - i,
                {
                    if str_equal(entries[i].0.as_str(), key) {
                        proof {
                            let rest = entries@.skip(i as int);
                            assert(rest.len() == entries@.len() - i);
                            assert(rest[0] == entries@[i as int]);
                            assert(obj_get(rest, key@) == Some(rest[0].1));
                        }
                        let pair = &entries[i];
                        let val = &pair.1;
                        assert(*val == entries@[i as int].1);
                        return Some(val);
                    }
                    proof {
                        assert(entries@.skip(i as int).drop_first() =~= entries@.skip(i + 1));
                    }
                    i = i + 1;
                }
                assert(entries@.skip(entries@.len() as int) =~= Seq::<(String, PropValue)>::empty());
                None
            },
            _ => None,
        }
    }
}

/// The overlay-granular language filter: with no requested language every
/// overlay passes; with one, the overlay's `language` property must be a
/// string equal to it.
pub open spec fn language_ok(props: PropValue, lang: Option<Seq<char>>) -> bool {
    match lang {
        None => true,
        Some(l) => match prop_get(props, "language"@) {
            Some(v) => prop_as_str(v) == Some(l),
            None => false,
        },
    }
}

/// Checks the language filter against an overlay payload.
pub fn language_matches(props: &PropValue, lang: Option<&String>) -> (r: bool)
    ensures
        r == language_ok(*props, lang.deep_view()),
{
    match lang {
        None => true,
        Some(l) => match props.get("language") {
            Some(v) => match v {
                PropValue::Str(s) => str_equal(s.as_str(), l.as_str()),
                _ => false,
            },
            None => false,
        },
    }
}

/// Label pairs of the first `n` object entries folded into `m`, later entries
/// overwriting earlier ones; entries whose value is not a string contribute
/// nothing.
pub open spec fn insert_labels_upto(
    m: Map<Seq<char>, Seq<char>>,
    entries: Seq<(String, PropValue)>,
    n: int,
) -> Map<Seq<char>, Seq<char>>
    decreases n,
{
    if n <= 0 {
        m
    } else {
        let prev = insert_labels_upto(m, entries, n - 1);
        match entries[n - 1].1 {
            PropValue::Str(s) => prev.insert(entries[n - 1].0@, s@),
            _ => prev,
        }
    }
}

/// What one overlay adds to a label table: nothing unless its kind name
/// contains "label", it has a payload passing the language filter, and the
/// payload's `attribute_labels` field is an object.
pub open spec fn overlay_labels(
    m: Map<Seq<char>, Seq<char>>,
    o: Overlay,
    lang: Option<Seq<char>>,
) -> Map<Seq<char>, Seq<char>> {
    if has_substr(o.name@, "label"@) {
        match o.properties {
            Some(props) => if language_ok(props, lang) {
                match prop_get(props, "attribute_labels"@) {
                    Some(PropValue::Obj(entries)) => insert_labels_upto(
                        m,
                        entries@,
                        entries@.len() as int,
                    ),
                    _ => m,
                }
            } else {
                m
            },
            None => m,
        }
    } else {
        m
    }
}

/// Label table contributed by the first `n` overlays, in declared order,
/// later overlays overwriting earlier ones.
pub open spec fn labels_upto(overlays: Seq<Overlay>, lang: Option<Seq<char>>, n: int) -> Map<
    Seq<char>,
    Seq<char>,
>
    decreases n,
{
    if n <= 0 {
        Map::empty()
    } else {
        overlay_labels(labels_upto(overlays, lang, n - 1), overlays[n - 1], lang)
    }
}

/// The bundle's full label table: bare attribute name to human-readable
/// label, drawn from its label-bearing overlays under the language filter.
pub open spec fn labels_of(b: Bundle, lang: Option<Seq<char>>) -> Map<Seq<char>, Seq<char>> {
    labels_upto(b.overlays@, lang, b.overlays@.len() as int)
}

/// Map denoted by an association list, later entries overwriting earlier.
pub open spec fn map_of(entries: Seq<(String, String)>) -> Map<Seq<char>, Seq<char>>
    decreases entries.len(),
{
    if entries.len() == 0 {
        Map::empty()
    } else {
        map_of(entries.drop_last()).insert(entries.last().0@, entries.last().1@)
    }
}

proof fn lemma_map_of_push(entries: Seq<(String, String)>, p: (String, String))
    ensures
        map_of(entries.push(p)) == map_of(entries).insert(p.0@, p.1@),
{
    assert(entries.push(p).drop_last() =~= entries);
    assert(entries.push(p).last() == p);
}

/// A key matched in no entry at position `i` or later leaves the lookup to
/// the earlier entries.
proof fn lemma_map_of_unmatched_suffix(entries: Seq<(String, String)>, i: int, key: Seq<char>)
    requires
        0 <= i <= entries.len(),
        forall|j: int| i <= j < entries.len() ==> entries[j].0@ != key,
    ensures
        map_of(entries).contains_key(key) == map_of(entries.take(i)).contains_key(key),
        map_of(entries).contains_key(key) ==> map_of(entries)[key] == map_of(entries.take(i))[key],
    decreases entries.len() - i,
{
    if i < entries.len() {
        lemma_map_of_unmatched_suffix(entries.take(entries.len() - 1), i, key);
        assert(entries.take(entries.len() - 1).take(i) =~= entries.take(i));
        assert(entries.take(entries.len() - 1) =~= entries.drop_last());
    } else {
        assert(entries.take(entries.len() as int) =~= entries);
    }
}

/// Looks a bare attribute name up in a label table built by
/// [`labels_from_bundle`]; the latest entry for the name wins.
pub fn table_get(table: &Vec<(String, String)>, name: &String) -> (r: Option<String>)
    ensures
        match r {
            Some(v) => map_of(table@).contains_key(name@) && v@ == map_of(table@)[name@],
            None => !map_of(table@).contains_key(name@),
        },
{
    let mut i: usize = table.len();
    while i > 0
        invariant
            i <= table@.len(),
            forall|j: int| i <= j < table@.len() ==> table@[j].0@ != name@,
        decreases i,
    {
        i = i - 1;
        if str_equal(table[i].0.as_str(), name.as_str()) {
            proof {
                lemma_map_of_unmatched_suffix(table@, i + 1, name@);
                lemma_map_of_push(table@.take(i as int), table@[i as int]);
                assert(table@.take(i as int).push(table@[i as int]) =~= table@.take(i + 1));
            }
            return Some(table[i].1.clone());
        }
    }
    proof {
        lemma_map_of_unmatched_suffix(table@, 0, name@);
        assert(table@.take(0) =~= Seq::<(String, String)>::empty());
    }
    None
}

/// Builds a bundle's label table: walks its overlays in declared order,
/// keeps those whose kind name contains "label" and whose payload passes the
/// language filter, and collects their `attribute_labels` pairs, a later
/// overlay or entry overwriting an earlier one.
pub fn labels_from_bundle(b: &Bundle, lang: Option<&String>) -> (r: Vec<(String, String)>)
    ensures
        map_of(r@) == labels_of(*b, lang.deep_view()),
{
    let mut table: Vec<(String, String)> = Vec::new();
    let mut oi: usize = 0;
    while oi < b.overlays.len()
        invariant
            oi <= b.overlays@.len(),
            map_of(table@) == labels_upto(b.overlays@, lang.deep_view(), oi as int),
        decreases b.overlays@.len() - oi,
    {
        let ghost prev = map_of(table@);
        let overlay = &b.overlays[oi];
        if str_contains(overlay.name.as_str(), "label") {
            if let Some(props) = &overlay.properties {
                if language_matches(props, lang) {
                    if let Some(al) = props.get("attribute_labels") {
                        if let PropValue::Obj(entries) = al {
                            let mut j: usize = 0;
                            while j < entries.len()
                                invariant
                                    j <= entries@.len(),
                                    map_of(table@) == insert_labels_upto(prev, entries@, j as int),
                                decreases entries@.len() - j,
                            {
                                if let PropValue::Str(s) = &entries[j].1 {
                                    let pair = (entries[j].0.clone(), s.clone());
                                    proof {
                                        lemma_map_of_push(table@, pair);
                                    }
                                    table.push(pair);
                                }
                                j = j + 1;
                            }
                        }
                    }
                }
            }
        }
        oi = oi + 1;
    }
    table
}

} // verus!
