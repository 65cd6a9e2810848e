use oca_entry::{entry_schema_from_bundle, entry_schema_from_bundle_with_deps, AttributeSpec,
    Bundle, DependencyIndex, EntryError, EntrySchema, ExtractOptions, NestedAttrType, Overlay,
    PropValue, RefValue};

fn text(t: &str) -> NestedAttrType {
    NestedAttrType::Value(String::from(t))
}

fn obj(pairs: Vec<(&str, PropValue)>) -> PropValue {
    PropValue::Obj(pairs.into_iter().map(|(k, v)| (String::from(k), v)).collect())
}

fn s(v: &str) -> PropValue {
    PropValue::Str(String::from(v))
}

fn label_overlay(lang: Option<&str>, labels: Vec<(&str, &str)>) -> Overlay {
    let mut fields: Vec<(&str, PropValue)> = Vec::new();
    if let Some(l) = lang {
        fields.push(("language", s(l)));
    }
    fields.push((
        "attribute_labels",
        PropValue::Obj(
            labels.into_iter().map(|(k, v)| (String::from(k), s(v))).collect(),
        ),
    ));
    Overlay { name: String::from("spec/overlays/label/1.1"), properties: Some(obj(fields)) }
}

fn bundle(said: Option<&str>, attrs: Vec<(&str, NestedAttrType)>, overlays: Vec<Overlay>)
    -> Bundle {
    Bundle {
        said: said.map(String::from),
        attributes: attrs.into_iter().map(|(k, v)| (String::from(k), v)).collect(),
        overlays,
    }
}

fn no_opts() -> ExtractOptions {
    ExtractOptions { label_lang: None, metadata_lang: None }
}

fn names(schema: &EntrySchema) -> Vec<&str> {
    schema.attributes.iter().map(|a| a.name.as_str()).collect()
}

#[test]
fn missing_said_fails() {
    let b = bundle(
        None,
        vec![("first_name", text("Text"))],
        vec![label_overlay(None, vec![("first_name", "First Name")])],
    );
    let r = entry_schema_from_bundle(&b, &no_opts());
    assert!(matches!(r, Err(EntryError::MissingSaid)));
}

#[test]
fn missing_said_fails_with_deps() {
    let b = bundle(None, vec![], vec![]);
    let deps = DependencyIndex::default();
    let r = entry_schema_from_bundle_with_deps(&b, &deps, &no_opts());
    assert!(matches!(r, Err(EntryError::MissingSaid)));
}

#[test]
fn error_message_text() {
    assert_eq!(EntryError::MissingSaid.message(), "Bundle SAID is missing");
}

#[test]
fn flat_bundle_keeps_order_names_and_types() {
    let b = bundle(
        Some("ESAID_FLAT"),
        vec![
            ("z_last", text("Text")),
            ("a_first", text("Numeric")),
            ("untyped", NestedAttrType::Null),
        ],
        vec![],
    );
    let schema = entry_schema_from_bundle(&b, &no_opts()).unwrap();
    assert_eq!(schema.said, "ESAID_FLAT");
    assert_eq!(names(&schema), vec!["z_last", "a_first", "untyped"]);
    assert_eq!(schema.attributes[0].attr_type.as_deref(), Some("Text"));
    assert_eq!(schema.attributes[1].attr_type.as_deref(), Some("Numeric"));
    assert_eq!(schema.attributes[2].attr_type.as_deref(), Some("null"));
    for a in &schema.attributes {
        assert!(!a.required);
        assert!(a.label.is_none());
        assert!(a.format.is_none());
        assert!(a.unit.is_none());
        assert!(a.cardinality.is_none());
        assert!(a.entry_values.is_none());
    }
}

#[test]
fn nested_reference_with_labels() {
    let root = bundle(
        Some("EXAMPLE_SAID"),
        vec![
            ("first_name", text("Text")),
            ("address", NestedAttrType::Reference(RefValue::Said(String::from("ESAID_ADDR")))),
        ],
        vec![label_overlay(None, vec![
            ("first_name", "First Name"),
            ("address", "Home Address"),
        ])],
    );
    let addr = bundle(
        Some("ESAID_ADDR"),
        vec![("street", text("Text")), ("city", text("Text"))],
        vec![label_overlay(None, vec![("street", "Street Name")])],
    );
    let deps = DependencyIndex {
        by_said: vec![(String::from("ESAID_ADDR"), addr)],
        by_refn: vec![],
    };
    let schema = entry_schema_from_bundle_with_deps(&root, &deps, &no_opts()).unwrap();
    assert_eq!(schema.said, "EXAMPLE_SAID");
    assert_eq!(names(&schema), vec!["first_name", "address.street", "address.city"]);
    assert_eq!(schema.attributes[0].label.as_deref(), Some("First Name"));
    assert_eq!(schema.attributes[1].label.as_deref(), Some("Home Address.Street Name"));
    assert_eq!(schema.attributes[2].label.as_deref(), Some("Home Address.city"));
    assert_eq!(schema.attributes[0].attr_type.as_deref(), Some("Text"));
    assert_eq!(schema.attributes[1].attr_type.as_deref(), Some("Text"));
    assert_eq!(schema.attributes[2].attr_type.as_deref(), Some("Text"));
}

#[test]
fn label_composition_four_cases() {
    // Reference attribute with an own label: the target's labelled attribute
    // gives (prefix, label), its unlabelled one gives (prefix, bare name).
    // Root attributes give (no prefix, label) and (no prefix, no label).
    let root = bundle(
        Some("ESAID_ROOT"),
        vec![
            ("person", NestedAttrType::Reference(RefValue::Name(String::from("person")))),
            ("labelled", text("Text")),
            ("plain", text("Text")),
        ],
        vec![label_overlay(None, vec![
            ("person", "The Person"),
            ("labelled", "A Label"),
        ])],
    );
    let person = bundle(
        Some("ESAID_PERSON"),
        vec![("known", text("Text")), ("unknown", text("Text"))],
        vec![label_overlay(None, vec![("known", "Known Label")])],
    );
    let deps = DependencyIndex {
        by_said: vec![],
        by_refn: vec![(String::from("person"), person)],
    };
    let schema = entry_schema_from_bundle_with_deps(&root, &deps, &no_opts()).unwrap();
    assert_eq!(
        names(&schema),
        vec!["person.known", "person.unknown", "labelled", "plain"],
    );
    assert_eq!(schema.attributes[0].label.as_deref(), Some("The Person.Known Label"));
    assert_eq!(schema.attributes[1].label.as_deref(), Some("The Person.unknown"));
    assert_eq!(schema.attributes[2].label.as_deref(), Some("A Label"));
    assert_eq!(schema.attributes[3].label, None);
}

#[test]
fn unresolved_reference_stays_a_leaf() {
    let b = bundle(
        Some("ESAID_ROOT"),
        vec![
            ("gone", NestedAttrType::Reference(RefValue::Said(String::from("ESAID_GONE")))),
            ("also_gone", NestedAttrType::Reference(RefValue::Name(String::from("nowhere")))),
        ],
        vec![],
    );
    let schema = entry_schema_from_bundle(&b, &no_opts()).unwrap();
    assert_eq!(names(&schema), vec!["gone", "also_gone"]);
    assert_eq!(schema.attributes[0].attr_type.as_deref(), Some("reference(ESAID_GONE)"));
    assert_eq!(schema.attributes[1].attr_type.as_deref(), Some("reference(nowhere)"));
}

#[test]
fn duplicate_dotted_name_first_wins() {
    // The expansion of "a" emits "a.b" first; the root's own literal "a.b"
    // attribute later produces the same dotted name and contributes nothing.
    let root = bundle(
        Some("ESAID_ROOT"),
        vec![
            ("a", NestedAttrType::Reference(RefValue::Name(String::from("inner")))),
            ("a.b", text("Numeric")),
        ],
        vec![],
    );
    let inner = bundle(Some("ESAID_INNER"), vec![("b", text("Text"))], vec![]);
    let deps = DependencyIndex {
        by_said: vec![],
        by_refn: vec![(String::from("inner"), inner)],
    };
    let schema = entry_schema_from_bundle_with_deps(&root, &deps, &no_opts()).unwrap();
    assert_eq!(names(&schema), vec!["a.b"]);
    assert_eq!(schema.attributes[0].attr_type.as_deref(), Some("Text"));
}

#[test]
fn array_of_reference_expands() {
    let root = bundle(
        Some("ESAID_ROOT"),
        vec![(
            "items",
            NestedAttrType::Array(Box::new(NestedAttrType::Reference(RefValue::Said(
                String::from("ESAID_ITEM"),
            )))),
        )],
        vec![],
    );
    let item = bundle(Some("ESAID_ITEM"), vec![("kind", text("Text"))], vec![]);
    let deps = DependencyIndex {
        by_said: vec![(String::from("ESAID_ITEM"), item)],
        by_refn: vec![],
    };
    let schema = entry_schema_from_bundle_with_deps(&root, &deps, &no_opts()).unwrap();
    assert_eq!(names(&schema), vec!["items.kind"]);
}

#[test]
fn doubly_nested_array_reference_is_a_leaf() {
    let root = bundle(
        Some("ESAID_ROOT"),
        vec![(
            "deep",
            NestedAttrType::Array(Box::new(NestedAttrType::Array(Box::new(
                NestedAttrType::Reference(RefValue::Said(String::from("ESAID_ITEM"))),
            )))),
        )],
        vec![],
    );
    let item = bundle(Some("ESAID_ITEM"), vec![("kind", text("Text"))], vec![]);
    let deps = DependencyIndex {
        by_said: vec![(String::from("ESAID_ITEM"), item)],
        by_refn: vec![],
    };
    let schema = entry_schema_from_bundle_with_deps(&root, &deps, &no_opts()).unwrap();
    assert_eq!(names(&schema), vec!["deep"]);
    assert_eq!(
        schema.attributes[0].attr_type.as_deref(),
        Some("array<array<reference(ESAID_ITEM)>>"),
    );
}

#[test]
fn language_filter_is_overlay_granular() {
    let b = bundle(
        Some("ESAID_ROOT"),
        vec![("name", text("Text"))],
        vec![
            label_overlay(Some("en"), vec![("name", "Name")]),
            label_overlay(Some("fr"), vec![("name", "Nom")]),
            label_overlay(None, vec![("name", "Anonymous")]),
        ],
    );
    let fr = ExtractOptions { label_lang: Some(String::from("fr")), metadata_lang: None };
    let schema = entry_schema_from_bundle(&b, &fr).unwrap();
    assert_eq!(schema.attributes[0].label.as_deref(), Some("Nom"));

    let en = ExtractOptions { label_lang: Some(String::from("en")), metadata_lang: None };
    let schema = entry_schema_from_bundle(&b, &en).unwrap();
    assert_eq!(schema.attributes[0].label.as_deref(), Some("Name"));

    // An overlay without a language property matches no requested language.
    let de = ExtractOptions { label_lang: Some(String::from("de")), metadata_lang: None };
    let schema = entry_schema_from_bundle(&b, &de).unwrap();
    assert_eq!(schema.attributes[0].label, None);

    // With no filter every label overlay contributes; the last one wins.
    let schema = entry_schema_from_bundle(&b, &no_opts()).unwrap();
    assert_eq!(schema.attributes[0].label.as_deref(), Some("Anonymous"));
}

#[test]
fn language_filter_does_not_cross_references() {
    let root = bundle(
        Some("ESAID_ROOT"),
        vec![("address", NestedAttrType::Reference(RefValue::Name(String::from("addr"))))],
        vec![label_overlay(Some("fr"), vec![("address", "Adresse")])],
    );
    let addr = bundle(
        Some("ESAID_ADDR"),
        vec![("street", text("Text"))],
        vec![label_overlay(Some("en"), vec![("street", "Street")])],
    );
    let deps = DependencyIndex {
        by_said: vec![],
        by_refn: vec![(String::from("addr"), addr)],
    };
    let fr = ExtractOptions { label_lang: Some(String::from("fr")), metadata_lang: None };
    let schema = entry_schema_from_bundle_with_deps(&root, &deps, &fr).unwrap();
    // The target's labels are taken unfiltered, whatever language they carry.
    assert_eq!(schema.attributes[0].label.as_deref(), Some("Adresse.Street"));
}

#[test]
fn malformed_overlays_contribute_nothing() {
    let b = bundle(
        Some("ESAID_ROOT"),
        vec![("name", text("Text"))],
        vec![
            // Kind name without "label".
            Overlay {
                name: String::from("spec/overlays/format/1.1"),
                properties: Some(obj(vec![(
                    "attribute_labels",
                    PropValue::Obj(vec![(String::from("name"), s("Ignored"))]),
                )])),
            },
            // No payload at all.
            Overlay { name: String::from("spec/overlays/label/1.1"), properties: None },
            // attribute_labels is not an object.
            Overlay {
                name: String::from("spec/overlays/label/1.1"),
                properties: Some(obj(vec![("attribute_labels", s("oops"))])),
            },
            // A label value that is not a string is skipped.
            Overlay {
                name: String::from("spec/overlays/label/1.1"),
                properties: Some(obj(vec![(
                    "attribute_labels",
                    PropValue::Obj(vec![
                        (String::from("name"), PropValue::Bool(true)),
                    ]),
                )])),
            },
        ],
    );
    let schema = entry_schema_from_bundle(&b, &no_opts()).unwrap();
    assert_eq!(schema.attributes[0].label, None);
}

#[test]
fn non_string_language_property_matches_no_filter() {
    let b = bundle(
        Some("ESAID_ROOT"),
        vec![("name", text("Text"))],
        vec![Overlay {
            name: String::from("spec/overlays/label/1.1"),
            properties: Some(obj(vec![
                ("language", PropValue::Num(String::from("1"))),
                (
                    "attribute_labels",
                    PropValue::Obj(vec![(String::from("name"), s("Label"))]),
                ),
            ])),
        }],
    );
    let one = ExtractOptions { label_lang: Some(String::from("1")), metadata_lang: None };
    let schema = entry_schema_from_bundle(&b, &one).unwrap();
    assert_eq!(schema.attributes[0].label, None);
    // Without a filter the overlay still contributes.
    let schema = entry_schema_from_bundle(&b, &no_opts()).unwrap();
    assert_eq!(schema.attributes[0].label.as_deref(), Some("Label"));
}

#[test]
fn later_label_overlay_overwrites_earlier() {
    let b = bundle(
        Some("ESAID_ROOT"),
        vec![("name", text("Text"))],
        vec![
            label_overlay(None, vec![("name", "Old")]),
            label_overlay(None, vec![("name", "New")]),
        ],
    );
    let schema = entry_schema_from_bundle(&b, &no_opts()).unwrap();
    assert_eq!(schema.attributes[0].label.as_deref(), Some("New"));
}

#[test]
fn cyclic_references_terminate() {
    // Two bundles referencing each other: the traversal stops expanding once
    // its budget is spent and leaves the remaining reference as a leaf.
    let a = bundle(
        Some("ESAID_A"),
        vec![
            ("x", text("Text")),
            ("to_b", NestedAttrType::Reference(RefValue::Said(String::from("ESAID_B")))),
        ],
        vec![],
    );
    let b = bundle(
        Some("ESAID_B"),
        vec![
            ("y", text("Text")),
            ("to_a", NestedAttrType::Reference(RefValue::Said(String::from("ESAID_A")))),
        ],
        vec![],
    );
    let root = bundle(
        Some("ESAID_A"),
        vec![
            ("x", text("Text")),
            ("to_b", NestedAttrType::Reference(RefValue::Said(String::from("ESAID_B")))),
        ],
        vec![],
    );
    let deps = DependencyIndex {
        by_said: vec![(String::from("ESAID_A"), a), (String::from("ESAID_B"), b)],
        by_refn: vec![],
    };
    let schema = entry_schema_from_bundle_with_deps(&root, &deps, &no_opts()).unwrap();
    // x, then to_b expands: y, to_a expands: x (duplicate of root's? no -
    // "to_b.to_a.x" is fresh), and so on until the budget runs out.
    assert_eq!(schema.said, "ESAID_A");
    assert!(schema.attributes.len() >= 3);
    assert_eq!(schema.attributes[0].name, "x");
    assert_eq!(schema.attributes[1].name, "to_b.y");
    // The traversal ended: the deepest record is an unexpanded reference.
    let last = schema.attributes.last().unwrap();
    assert!(last.attr_type.as_deref().unwrap().starts_with("reference("));
}

#[test]
fn extraction_is_deterministic() {
    let mk = || {
        let root = bundle(
            Some("EXAMPLE_SAID"),
            vec![
                ("first_name", text("Text")),
                ("address", NestedAttrType::Reference(RefValue::Said(String::from("ESAID_ADDR")))),
            ],
            vec![label_overlay(None, vec![
                ("first_name", "First Name"),
                ("address", "Home Address"),
            ])],
        );
        let addr = bundle(
            Some("ESAID_ADDR"),
            vec![("street", text("Text")), ("city", text("Text"))],
            vec![label_overlay(None, vec![("street", "Street Name")])],
        );
        let deps = DependencyIndex {
            by_said: vec![(String::from("ESAID_ADDR"), addr)],
            by_refn: vec![],
        };
        entry_schema_from_bundle_with_deps(&root, &deps, &no_opts()).unwrap()
    };
    let first = mk();
    let second = mk();
    assert_eq!(first, second);
    let opts = oca_entry::CsvOptions {
        include_metadata_row: true,
        label_lang: None,
        metadata_lang: None,
    };
    assert_eq!(oca_entry::write_csv(&first, &opts), oca_entry::write_csv(&second, &opts));
}

#[test]
fn default_options_and_index_are_empty() {
    let opts = ExtractOptions::default();
    assert!(opts.label_lang.is_none());
    assert!(opts.metadata_lang.is_none());
    let deps = DependencyIndex::default();
    assert!(deps.by_said.is_empty());
    assert!(deps.by_refn.is_empty());
}

#[test]
fn attribute_spec_defaults_in_output() {
    let b = bundle(Some("ESAID"), vec![("n", text("Text"))], vec![]);
    let schema = entry_schema_from_bundle(&b, &no_opts()).unwrap();
    let a: &AttributeSpec = &schema.attributes[0];
    assert_eq!(a.name, "n");
    assert!(!a.required);
    assert!(a.format.is_none() && a.unit.is_none() && a.cardinality.is_none());
    assert!(a.entry_values.is_none());
}
