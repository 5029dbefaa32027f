use displaycfg::decl::{
    Annotation, AnnotationKind, AnnotationValue, DeclKind, Declaration, Field, FieldList,
};
use displaycfg::dispatch::{dispatch_rules, is_bridge_type, DispatchRule};
use displaycfg::errors::GenerationErrorKind;
use displaycfg::extract::extract_docs;
use displaycfg::render::render;
use displaycfg::synth::{synthesize, Step};

fn doc(text: &str) -> Annotation {
    Annotation {
        kind: AnnotationKind::Documentation,
        value: AnnotationValue::Literal(text.to_string()),
    }
}

fn other() -> Annotation {
    Annotation { kind: AnnotationKind::Other, value: AnnotationValue::Structured }
}

fn field(name: &str, ty: &str, annotations: Vec<Annotation>) -> Field {
    Field { name: name.to_string(), declared_type: ty.to_string(), annotations }
}

fn record(name: &str, annotations: Vec<Annotation>, fields: FieldList) -> Declaration {
    Declaration {
        name: name.to_string(),
        generics: Vec::new(),
        kind: DeclKind::ProductRecord,
        annotations,
        fields,
    }
}

#[test]
fn empty_record_renders_header_and_blank_line_only() {
    let decl = record("Empty", Vec::new(), FieldList::Named(Vec::new()));
    let routine = synthesize(&decl).unwrap();
    assert_eq!(render(&routine), "### Empty\n\n");
}

#[test]
fn positional_record_renders_header_and_blank_line_only() {
    let decl = record("Tuple", Vec::new(), FieldList::Positional);
    let routine = synthesize(&decl).unwrap();
    assert_eq!(render(&routine), "### Tuple\n\n");
    let blocks = routine
        .steps
        .iter()
        .filter(|s| matches!(s, Step::FieldDocBlock { .. }))
        .count();
    assert_eq!(blocks, 0);
}

#[test]
fn one_field_block_per_named_field_in_order() {
    let fields = vec![
        field("first", "u8", Vec::new()),
        field("second", "u16", vec![doc("x")]),
        field("third", "bool", Vec::new()),
    ];
    let decl = record("Triple", Vec::new(), FieldList::Named(fields));
    let routine = synthesize(&decl).unwrap();
    let names: Vec<&str> = routine
        .steps
        .iter()
        .filter_map(|s| match s {
            Step::FieldDocBlock { name, .. } => Some(name.as_str()),
            _ => None,
        })
        .collect();
    assert_eq!(names, vec!["first", "second", "third"]);
}

#[test]
fn extract_keeps_doc_lines_verbatim_in_order() {
    let anns = vec![doc("one"), other(), doc("two"), doc("three"), other()];
    let lines = extract_docs(&anns).unwrap();
    assert_eq!(lines, vec!["one", "two", "three"]);
}

#[test]
fn extract_of_no_annotations_is_empty_and_valid() {
    let lines = extract_docs(&Vec::new()).unwrap();
    assert!(lines.is_empty());
}

#[test]
fn synthesis_is_idempotent() {
    let decl = record(
        "Again",
        vec![doc("header doc")],
        FieldList::Named(vec![field("a", "u8", vec![doc("a doc"), doc("more")])]),
    );
    let first = render(&synthesize(&decl).unwrap());
    let second = render(&synthesize(&decl).unwrap());
    assert_eq!(first, second);
}

#[test]
fn non_product_record_fails_with_unsupported_kind() {
    let decl = Declaration {
        name: "Choice".to_string(),
        generics: Vec::new(),
        kind: DeclKind::Other,
        annotations: Vec::new(),
        fields: FieldList::Positional,
    };
    let err = synthesize(&decl).unwrap_err();
    assert_eq!(err.kind, GenerationErrorKind::UnsupportedKind);
    assert_eq!(err.declaration, "Choice");
    assert_eq!(err.kind.message(), "Unions and enums are not supported");
}

#[test]
fn malformed_documentation_annotation_fails_extraction() {
    let bad = Annotation {
        kind: AnnotationKind::Documentation,
        value: AnnotationValue::Structured,
    };
    let anns = vec![doc("fine"), bad, doc("also fine")];
    let err = extract_docs(&anns).unwrap_err();
    assert_eq!(err, GenerationErrorKind::MalformedAnnotation);
}

#[test]
fn malformed_field_annotation_aborts_whole_synthesis() {
    let bad = Annotation {
        kind: AnnotationKind::Documentation,
        value: AnnotationValue::Structured,
    };
    let decl = record(
        "Broken",
        vec![doc("fine")],
        FieldList::Named(vec![
            field("good", "u8", vec![doc("ok")]),
            field("bad", "u8", vec![doc("ok"), bad]),
        ]),
    );
    let err = synthesize(&decl).unwrap_err();
    assert_eq!(err.kind, GenerationErrorKind::MalformedAnnotation);
    assert_eq!(err.declaration, "Broken");
    assert_eq!(
        err.kind.message(),
        "documentation annotation does not carry literal text"
    );
}

#[test]
fn scenario_special_single_documented_field() {
    let decl = record(
        "Special",
        Vec::new(),
        FieldList::Named(vec![field("test", "u8", vec![doc("foobar")])]),
    );
    let routine = synthesize(&decl).unwrap();
    assert_eq!(
        render(&routine),
        "### Special\n\n# name: 'test'\n# type: 'u8'\n# desc:\n# foobar\n\n"
    );
}

#[test]
fn scenario_config_with_declaration_doc_and_two_fields() {
    let decl = record(
        "Config",
        vec![doc("Our configuration")],
        FieldList::Named(vec![
            field("address", "String", vec![doc("foo")]),
            field("number", "u16", vec![doc("bar")]),
        ]),
    );
    let routine = synthesize(&decl).unwrap();
    assert_eq!(
        render(&routine),
        "### Config\n# Our configuration\n\n# name: 'address'\n# type: 'String'\n# desc:\n# foo\n\n# name: 'number'\n# type: 'u16'\n# desc:\n# bar\n\n"
    );
}

#[test]
fn generics_are_propagated_unchanged() {
    let decl = Declaration {
        name: "Wrapped".to_string(),
        generics: vec!["T: Clone".to_string(), "U".to_string()],
        kind: DeclKind::ProductRecord,
        annotations: Vec::new(),
        fields: FieldList::Named(Vec::new()),
    };
    let routine = synthesize(&decl).unwrap();
    assert_eq!(routine.name, "Wrapped");
    assert_eq!(routine.generics, vec!["T: Clone", "U"]);
}

#[test]
fn bridge_allowlist_holds_exactly_the_path_types() {
    assert!(is_bridge_type("std::path::Path"));
    assert!(is_bridge_type("std::path::PathBuf"));
    assert!(!is_bridge_type("String"));
    assert!(!is_bridge_type("std::net::IpAddr"));
}

#[test]
fn dispatch_rules_are_generic_first_then_path_bridges() {
    let rules = dispatch_rules();
    assert_eq!(rules.len(), 3);
    assert!(matches!(rules[0], DispatchRule::Native));
    assert!(matches!(&rules[1], DispatchRule::Bridge(t) if t.as_str() == "std::path::Path"));
    assert!(matches!(&rules[2], DispatchRule::Bridge(t) if t.as_str() == "std::path::PathBuf"));
}

#[test]
fn bridge_typed_field_synthesizes_and_renders_its_type_verbatim() {
    let decl = record(
        "Paths",
        Vec::new(),
        FieldList::Named(vec![field("home", "std::path::PathBuf", vec![doc("where we live")])]),
    );
    let routine = synthesize(&decl).unwrap();
    assert_eq!(
        render(&routine),
        "### Paths\n\n# name: 'home'\n# type: 'std::path::PathBuf'\n# desc:\n# where we live\n\n"
    );
}

#[test]
fn unknown_typed_field_still_synthesizes() {
    let decl = record(
        "Odd",
        Vec::new(),
        FieldList::Named(vec![field("gadget", "NotRenderable", Vec::new())]),
    );
    assert!(synthesize(&decl).is_ok());
}
