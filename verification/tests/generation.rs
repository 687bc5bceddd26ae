use serde_enum::casing::{to_camel_case, to_snake_case};
use serde_enum::decl::{
    Annotation, DeError, FieldsKind, GenError, NamingStyle, TypeData, TypeDecl, Variant,
};
use serde_enum::pairs::{deserialize_variant, serialize_variant};
use serde_enum::style::get_naming_style;
use serde_enum::validate::get_enum_from_input;
use serde_enum::{deserialize_enum, generate_pairs, serialize_enum};

fn ann(key: &str, value: &str) -> Annotation {
    Annotation { key: key.to_string(), value: value.to_string() }
}

fn unit_variant(name: &str, attrs: Vec<Annotation>) -> Variant {
    Variant { name: name.to_string(), attrs, fields: FieldsKind::Unit }
}

fn enum_decl(name: &str, attrs: Vec<Annotation>, variants: Vec<Variant>) -> TypeDecl {
    TypeDecl { name: name.to_string(), generics: 0, attrs, data: TypeData::Enum(variants) }
}

fn two_variant_decl(style_value: Option<&str>) -> TypeDecl {
    let attrs = match style_value {
        Some(v) => vec![ann("rename_all", v)],
        None => vec![],
    };
    enum_decl(
        "Something",
        attrs,
        vec![unit_variant("SomeVariant", vec![]), unit_variant("OtherVariant", vec![])],
    )
}

#[test]
fn snake_case_concrete() {
    assert_eq!(to_snake_case("SomeVariant"), "some_variant");
    assert_eq!(to_snake_case("OtherVariant"), "other_variant");
}

#[test]
fn camel_case_concrete() {
    assert_eq!(to_camel_case("SomeVariant"), "someVariant");
    assert_eq!(to_camel_case("OtherVariant"), "otherVariant");
}

#[test]
fn snake_case_edges() {
    assert_eq!(to_snake_case(""), "");
    assert_eq!(to_snake_case("A"), "a");
    assert_eq!(to_snake_case("ABC"), "a_b_c");
    assert_eq!(to_snake_case("already_snake"), "already_snake");
    assert_eq!(to_snake_case("Foo_bar"), "foo_bar");
}

#[test]
fn camel_case_edges() {
    assert_eq!(to_camel_case(""), "");
    assert_eq!(to_camel_case("X"), "x");
    assert_eq!(to_camel_case("already"), "already");
}

#[test]
fn style_snake_canonicals() {
    let pairs = generate_pairs(&two_variant_decl(Some("snake_case"))).unwrap();
    assert_eq!(pairs.len(), 2);
    assert_eq!(pairs[0].variant, "SomeVariant");
    assert_eq!(pairs[0].canonical, "some_variant");
    assert_eq!(pairs[1].variant, "OtherVariant");
    assert_eq!(pairs[1].canonical, "other_variant");
}

#[test]
fn style_camel_canonicals() {
    let pairs = generate_pairs(&two_variant_decl(Some("camelCase"))).unwrap();
    assert_eq!(pairs[0].canonical, "someVariant");
    assert_eq!(pairs[1].canonical, "otherVariant");
}

#[test]
fn default_identity() {
    let pairs = generate_pairs(&two_variant_decl(None)).unwrap();
    assert_eq!(serialize_variant(&pairs, 0), "SomeVariant");
    assert_eq!(serialize_variant(&pairs, 1), "OtherVariant");
}

#[test]
fn round_trip_every_variant() {
    for style in [None, Some("snake_case"), Some("camelCase")] {
        let pairs = generate_pairs(&two_variant_decl(style)).unwrap();
        for i in 0..pairs.len() {
            let canonical = serialize_variant(&pairs, i);
            assert_eq!(deserialize_variant(&pairs, canonical.as_str()).unwrap(), i);
        }
    }
}

#[test]
fn distinct_canonicals() {
    for style in [None, Some("snake_case"), Some("camelCase")] {
        let pairs = generate_pairs(&two_variant_decl(style)).unwrap();
        for i in 0..pairs.len() {
            for j in 0..pairs.len() {
                if i != j {
                    assert_ne!(pairs[i].canonical, pairs[j].canonical);
                }
            }
        }
    }
}

#[test]
fn variant_override_wins() {
    let decl = enum_decl(
        "Mixed",
        vec![ann("rename_all", "camelCase")],
        vec![
            unit_variant("SomeVariant", vec![]),
            unit_variant("SomeOtherVariant", vec![ann("rename", "snake_case")]),
        ],
    );
    let pairs = generate_pairs(&decl).unwrap();
    assert_eq!(pairs[0].canonical, "someVariant");
    assert_eq!(pairs[1].canonical, "some_other_variant");
}

#[test]
fn unrecognized_input_is_reported() {
    let pairs = generate_pairs(&two_variant_decl(Some("snake_case"))).unwrap();
    match deserialize_variant(&pairs, "not_a_real_value") {
        Err(DeError::Unrecognized(v)) => assert_eq!(v, "not_a_real_value"),
        Ok(_) => panic!("unknown input must not deserialize"),
    }
}

#[test]
fn reject_struct() {
    let decl = TypeDecl {
        name: "NotAnEnum".to_string(),
        generics: 0,
        attrs: vec![],
        data: TypeData::Struct,
    };
    assert!(matches!(get_enum_from_input(&decl), Err(GenError::NotAnEnum)));
    assert!(matches!(serialize_enum(&decl), Err(GenError::NotAnEnum)));
}

#[test]
fn reject_generics() {
    let mut decl = two_variant_decl(Some("snake_case"));
    decl.generics = 1;
    assert!(matches!(get_enum_from_input(&decl), Err(GenError::HasGenerics)));
    assert!(matches!(deserialize_enum(&decl), Err(GenError::HasGenerics)));
}

#[test]
fn reject_non_unit_variant() {
    let decl = enum_decl(
        "Holder",
        vec![],
        vec![
            unit_variant("Empty", vec![]),
            Variant { name: "Full".to_string(), attrs: vec![], fields: FieldsKind::Named },
        ],
    );
    assert!(matches!(get_enum_from_input(&decl), Err(GenError::NonUnitVariant)));
    let decl2 = enum_decl(
        "Holder2",
        vec![],
        vec![Variant { name: "Pair".to_string(), attrs: vec![], fields: FieldsKind::Unnamed }],
    );
    assert!(matches!(serialize_enum(&decl2), Err(GenError::NonUnitVariant)));
}

#[test]
fn reject_unsupported_style() {
    let decl = two_variant_decl(Some("SCREAMING_SNAKE_CASE"));
    match serialize_enum(&decl) {
        Err(GenError::UnsupportedStyle(v)) => {
            assert_eq!(v, "SCREAMING_SNAKE_CASE");
            let msg = GenError::UnsupportedStyle(v).message();
            assert!(msg.contains("SCREAMING_SNAKE_CASE"));
            assert!(msg.contains("`snake_case`"));
            assert!(msg.contains("`camelCase`"));
        },
        _ => panic!("unsupported style must abort generation"),
    }
}

#[test]
fn unsupported_style_on_variant() {
    let decl = enum_decl(
        "Odd",
        vec![],
        vec![unit_variant("First", vec![ann("rename", "kebab-case")])],
    );
    match generate_pairs(&decl) {
        Err(GenError::UnsupportedStyle(v)) => assert_eq!(v, "kebab-case"),
        _ => panic!("unsupported variant style must abort generation"),
    }
}

#[test]
fn reject_duplicate_canonical_names() {
    let decl = enum_decl(
        "Clash",
        vec![ann("rename_all", "snake_case")],
        vec![unit_variant("FooBar", vec![]), unit_variant("Foo_bar", vec![])],
    );
    match generate_pairs(&decl) {
        Err(GenError::DuplicateName(v)) => {
            assert_eq!(v, "foo_bar");
            let msg = GenError::DuplicateName(v).message();
            assert_eq!(msg, "duplicate canonical name `foo_bar`");
        },
        _ => panic!("colliding canonical names must abort generation"),
    }
}

#[test]
fn first_style_annotation_wins() {
    let attrs = vec![
        ann("default", "ignored"),
        ann("rename_all", "snake_case"),
        ann("rename", "camelCase"),
    ];
    assert_eq!(get_naming_style(&attrs).unwrap(), NamingStyle::SnakeCase);
    let none: Vec<Annotation> = vec![];
    assert_eq!(get_naming_style(&none).unwrap(), NamingStyle::Unchanged);
}

#[test]
fn serialize_impl_text_exact() {
    let text = serialize_enum(&two_variant_decl(Some("snake_case"))).unwrap();
    let expected = "impl serde::Serialize for Something {\n    fn serialize<S>(&self, serializer: S) -> Result<S::Ok, S::Error>\n    where\n        S: serde::Serializer,\n    {\n        match self {\n            Self::SomeVariant => { serializer.serialize_str(\"some_variant\") },\n            Self::OtherVariant => { serializer.serialize_str(\"other_variant\") }\n        }\n    }\n}\n";
    assert_eq!(text, expected);
}

#[test]
fn deserialize_impl_text_exact() {
    let text = deserialize_enum(&two_variant_decl(Some("snake_case"))).unwrap();
    let expected = "impl<'de> serde::Deserialize<'de> for Something {\n    fn deserialize<D>(deserializer: D) -> Result<Self, D::Error>\n    where\n        D: serde::Deserializer<'de>,\n    {\n        match <&str>::deserialize(deserializer)? {\n            \"some_variant\" => Ok(Self::SomeVariant),\n            \"other_variant\" => Ok(Self::OtherVariant),\n            value => Err(serde::de::Error::unknown_variant(value, &[]))\n        }\n    }\n}\n";
    assert_eq!(text, expected);
}

#[test]
fn validated_variants_are_returned_in_order() {
    let decl = two_variant_decl(Some("camelCase"));
    let variants = get_enum_from_input(&decl).unwrap();
    assert_eq!(variants.len(), 2);
    assert_eq!(variants[0].name, "SomeVariant");
    assert_eq!(variants[1].name, "OtherVariant");
}
