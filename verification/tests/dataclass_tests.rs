use std::collections::HashSet;

use dataclass::{
    dataclass, instance_cmp, instance_eq, instance_hash, Annotation, Capability, ConfigError,
    DataclassError, FieldDescriptor, FieldValue, FieldVisibility, Instance, OptValue,
    OptionsConfig, RawEntry, RecordDefinition, ShapeError, TypeShape,
};

fn pair(name: &str, value: bool) -> RawEntry {
    RawEntry::Pair { name: name.to_string(), value: OptValue::BoolLit(value) }
}

fn field(name: &str, ty: &str) -> FieldDescriptor {
    FieldDescriptor { name: name.to_string(), ty: ty.to_string() }
}

fn named_record(name: &str, fields: Vec<FieldDescriptor>) -> RecordDefinition {
    RecordDefinition {
        name: name.to_string(),
        annotations: Vec::new(),
        shape: TypeShape::NamedFields(fields),
    }
}

fn ival(x: i64) -> FieldValue {
    FieldValue::Int(x)
}

fn text(s: &str) -> FieldValue {
    FieldValue::Text(s.as_bytes().to_vec())
}

#[test]
fn test_basic_dataclass() {
    let entries = vec![
        pair("init", true),
        pair("repr", true),
        pair("eq", true),
        pair("order", true),
        pair("unsafe_hash", true),
        pair("frozen", false),
        pair("match_args", true),
        pair("kw_only", false),
        pair("slots", true),
        pair("weakref_slot", false),
    ];
    let person = named_record(
        "Person",
        vec![field("name", "String"), field("age", "i32"), field("email", "Option<String>")],
    );
    let out = dataclass(&entries, person).unwrap();
    assert_eq!(
        out.capabilities,
        vec![
            Capability::Duplicate,
            Capability::Constructor,
            Capability::Representation,
            Capability::Equality,
            Capability::Ordering,
            Capability::Hashing,
        ]
    );
    assert_eq!(out.visibility, FieldVisibility::Public);

    let person1 = Instance::new(vec![text("Alice"), ival(30), text("alice@example.com")]);
    let person2 = Instance::new(vec![text("Alice"), ival(30), text("alice@example.com")]);

    println!("{:?}", person1);

    assert!(instance_eq(&person1, &person2));

    let person3 = Instance::new(vec![text("Bob"), ival(25), text("bob@example.com")]);
    assert!(instance_cmp(&person1, &person3) == std::cmp::Ordering::Less);

    let mut set = HashSet::new();
    set.insert(instance_hash(&person1));
    assert!(set.contains(&instance_hash(&person2)));
}

#[test]
fn test_frozen_dataclass() {
    let entries = vec![pair("frozen", true)];
    let point = named_record("Point", vec![field("x", "i32"), field("y", "i32")]);
    let out = dataclass(&entries, point).unwrap();
    assert_eq!(out.visibility, FieldVisibility::ModuleOnly);
    assert!(out.capabilities.contains(&Capability::Constructor));

    let point = Instance::new(vec![ival(10), ival(20)]);
    assert_eq!(point.values[0], FieldValue::Int(10));
}

#[test]
fn test_no_order_dataclass() {
    let entries = vec![pair("order", false)];
    let config = named_record("Config", vec![field("name", "String"), field("value", "i32")]);
    let out = dataclass(&entries, config).unwrap();
    assert!(!out.capabilities.contains(&Capability::Ordering));

    let config1 = Instance::new(vec![text("test"), ival(42)]);
    let config2 = Instance::new(vec![text("test"), ival(42)]);

    assert!(instance_eq(&config1, &config2));
}

#[test]
fn test_default_options() {
    let entries: Vec<RawEntry> = Vec::new();
    let cfg = OptionsConfig::from_entries(&entries).unwrap();
    assert_eq!(
        cfg,
        OptionsConfig {
            init: true,
            repr: true,
            eq: true,
            order: false,
            unsafe_hash: false,
            frozen: false,
            match_args: true,
            kw_only: false,
            slots: false,
            weakref_slot: false,
        }
    );

    let simple = named_record("Simple", vec![field("value", "i32")]);
    let out = dataclass(&entries, simple).unwrap();
    assert_eq!(
        out.capabilities,
        vec![
            Capability::Duplicate,
            Capability::Constructor,
            Capability::Representation,
            Capability::Equality,
        ]
    );

    let simple = Instance::new(vec![ival(42)]);
    println!("{:?}", simple);
    assert!(instance_eq(&simple, &Instance::new(vec![ival(42)])));
}

#[test]
fn test_unknown_option() {
    let entries = vec![pair("foo", true)];
    match OptionsConfig::from_entries(&entries) {
        Err(ConfigError::UnknownOption(name)) => assert_eq!(name, "foo"),
        other => panic!("expected an unknown-option error, got {:?}", other),
    }
}

#[test]
fn test_non_boolean_value() {
    let entries = vec![RawEntry::Pair { name: "init".to_string(), value: OptValue::OtherVal }];
    match OptionsConfig::from_entries(&entries) {
        Err(ConfigError::InvalidValue(name)) => assert_eq!(name, "init"),
        other => panic!("expected an invalid-value error, got {:?}", other),
    }
}

#[test]
fn test_non_ident_option_name() {
    let entries = vec![RawEntry::NonIdentPair { name: "a::b".to_string() }];
    match OptionsConfig::from_entries(&entries) {
        Err(ConfigError::InvalidValue(name)) => assert_eq!(name, "a::b"),
        other => panic!("expected an invalid-value error, got {:?}", other),
    }
}

#[test]
fn test_unstructured_entry() {
    let entries = vec![RawEntry::Unstructured];
    assert!(matches!(
        OptionsConfig::from_entries(&entries),
        Err(ConfigError::InvalidSyntax)
    ));
}

#[test]
fn test_first_error_wins() {
    let entries = vec![pair("foo", true), RawEntry::Unstructured];
    match OptionsConfig::from_entries(&entries) {
        Err(ConfigError::UnknownOption(name)) => assert_eq!(name, "foo"),
        other => panic!("expected an unknown-option error, got {:?}", other),
    }
}

#[test]
fn test_last_write_wins() {
    let entries = vec![
        pair("init", false),
        pair("init", true),
        pair("order", true),
        pair("order", false),
    ];
    let cfg = OptionsConfig::from_entries(&entries).unwrap();
    assert!(cfg.init);
    assert!(!cfg.order);
}

#[test]
fn test_rejects_tuple_struct() {
    let entries: Vec<RawEntry> = Vec::new();
    let bad = RecordDefinition {
        name: "Pair".to_string(),
        annotations: Vec::new(),
        shape: TypeShape::TupleFields,
    };
    assert!(matches!(
        dataclass(&entries, bad),
        Err(DataclassError::Shape(ShapeError::UnsupportedKind))
    ));
}

#[test]
fn test_rejects_enum() {
    let entries: Vec<RawEntry> = Vec::new();
    let bad = RecordDefinition {
        name: "Choice".to_string(),
        annotations: Vec::new(),
        shape: TypeShape::EnumShape,
    };
    assert!(matches!(
        dataclass(&entries, bad),
        Err(DataclassError::Shape(ShapeError::UnsupportedKind))
    ));
}

#[test]
fn test_serde_marker_added_when_absent() {
    let entries: Vec<RawEntry> = Vec::new();
    let plain = named_record("Plain", vec![field("value", "i32")]);
    let out = dataclass(&entries, plain).unwrap();
    assert!(out.serde_marker);

    let annotated = RecordDefinition {
        name: "Annotated".to_string(),
        annotations: vec![Annotation {
            text: "#[derive(Clone)]".to_string(),
            args: "Clone".to_string(),
        }],
        shape: TypeShape::NamedFields(vec![field("value", "i32")]),
    };
    let out = dataclass(&entries, annotated).unwrap();
    assert!(out.serde_marker);
}

#[test]
fn test_serde_marker_kept_when_present() {
    let entries: Vec<RawEntry> = Vec::new();
    let marked = RecordDefinition {
        name: "Marked".to_string(),
        annotations: vec![Annotation {
            text: "#[something(serde)]".to_string(),
            args: "serde".to_string(),
        }],
        shape: TypeShape::NamedFields(vec![field("value", "i32")]),
    };
    let out = dataclass(&entries, marked).unwrap();
    assert!(!out.serde_marker);
    assert_eq!(out.annotations.len(), 1);
    assert_eq!(out.annotations[0].text, "#[something(serde)]");
}

#[test]
fn test_fields_pass_through_in_order() {
    let entries: Vec<RawEntry> = Vec::new();
    let rec = named_record(
        "Person",
        vec![field("name", "String"), field("age", "i32"), field("email", "Option<String>")],
    );
    let out = dataclass(&entries, rec).unwrap();
    assert_eq!(out.name, "Person");
    let names: Vec<&str> = out.fields.iter().map(|f| f.name.as_str()).collect();
    assert_eq!(names, vec!["name", "age", "email"]);
}

#[test]
fn test_constructor_binds_arguments() {
    let inst = Instance::new(vec![text("Alice"), ival(30)]);
    assert_eq!(inst.values[0], text("Alice"));
    assert_eq!(inst.values[1], FieldValue::Int(30));
}

#[test]
fn test_ordering_tie_break() {
    let alice = Instance::new(vec![text("Alice"), ival(30)]);
    let bob = Instance::new(vec![text("Bob"), ival(25)]);
    assert_eq!(instance_cmp(&alice, &bob), std::cmp::Ordering::Less);

    let older = Instance::new(vec![text("Alice"), ival(30)]);
    let younger = Instance::new(vec![text("Alice"), ival(25)]);
    assert_eq!(instance_cmp(&older, &younger), std::cmp::Ordering::Greater);
    assert_eq!(instance_cmp(&older, &alice), std::cmp::Ordering::Equal);
}

#[test]
fn test_ordering_prefix_comes_first() {
    let short = Instance::new(vec![text("ab")]);
    let long = Instance::new(vec![text("abc")]);
    assert_eq!(instance_cmp(&short, &long), std::cmp::Ordering::Less);
    assert_eq!(instance_cmp(&long, &short), std::cmp::Ordering::Greater);
}

#[test]
fn test_integers_order_before_texts() {
    let number = Instance::new(vec![ival(1)]);
    let word = Instance::new(vec![text("a")]);
    assert_eq!(instance_cmp(&number, &word), std::cmp::Ordering::Less);
}

#[test]
fn test_hash_exact_values() {
    // seed 17, each step h = h * 31 + contribution, wrapping on overflow
    let answer = Instance::new(vec![ival(42)]);
    assert_eq!(instance_hash(&answer), 17 * 31 + 42);

    // a negative integer contributes its two's-complement bits
    let negative = Instance::new(vec![ival(-1)]);
    assert_eq!(instance_hash(&negative), (17u64 * 31).wrapping_add(u64::MAX));

    // the text "A" contributes 31 * 31 + 65
    let letter = Instance::new(vec![text("A")]);
    assert_eq!(instance_hash(&letter), 17 * 31 + (31 * 31 + 65));
}

#[test]
fn test_equal_instances_hash_alike() {
    let one = Instance::new(vec![text("alice@example.com"), ival(30)]);
    let two = Instance::new(vec![text("alice@example.com"), ival(30)]);
    assert!(instance_eq(&one, &two));
    assert_eq!(instance_hash(&one), instance_hash(&two));
}

#[test]
fn test_extract_fields() {
    let shape = TypeShape::NamedFields(vec![field("x", "i32"), field("y", "i32")]);
    let fields = dataclass::extract_fields(&shape).unwrap();
    assert_eq!(fields.len(), 2);
    assert_eq!(fields[0].name, "x");
    assert_eq!(fields[1].name, "y");

    assert!(matches!(
        dataclass::extract_fields(&TypeShape::UnitShape),
        Err(ShapeError::UnsupportedKind)
    ));
}
