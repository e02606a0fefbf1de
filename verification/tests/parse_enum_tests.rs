//! Compiling declared sum types: attributes and variant shapes.

use proto_mapper::attributes::{EnumAttrs, OneOf};
use proto_mapper::input::{PathExpr, TypeExpr, VariantDecl, VariantFields};
use proto_mapper::proto_enum::EnumVariant;

fn path(segs: &[&str]) -> PathExpr {
    PathExpr { segments: segs.iter().map(|s| s.to_string()).collect(), args: vec![] }
}

#[test]
fn parse_enum_one_of_attributes_test() {
    let attrs = EnumAttrs {
        source: path(&["proto", "HierarchyEntity"]),
        one_of: Some(OneOf { field: "data".to_string() }),
        enumeration: None,
        rename_variants: Some("snake_case".to_string()),
    };
    let attrs = attrs.validate().unwrap();
    assert_eq!(attrs.source.segments, vec!["proto".to_string(), "HierarchyEntity".to_string()]);
    assert!(!attrs.is_enumeration());
    if let Some(one_of) = attrs.one_of {
        assert_eq!(one_of.field, "data".to_string());
    } else {
        panic!("Missing one of attribute");
    }
    assert_eq!(attrs.rename_variants, Some("snake_case".to_string()));
}

#[test]
fn parse_enumeration_attributes_test() {
    let attrs = EnumAttrs {
        source: path(&["proto", "Entity"]),
        one_of: None,
        enumeration: Some(true),
        rename_variants: Some("STREAMING_SNAKE_CASE".to_string()),
    };
    let attrs = attrs.validate().unwrap();
    assert_eq!(attrs.source.segments, vec!["proto".to_string(), "Entity".to_string()]);
    assert!(attrs.is_enumeration());
    assert_eq!(attrs.one_of, None);
    assert_eq!(attrs.rename_variants, Some("STREAMING_SNAKE_CASE".to_string()));
}

#[test]
fn parse_enumeration_one_of_attributes_mutual_exclusive_test() {
    let attrs = EnumAttrs {
        source: path(&["proto", "Entity"]),
        one_of: Some(OneOf { field: "foo".to_string() }),
        enumeration: Some(true),
        rename_variants: None,
    };
    if attrs.validate().is_ok() {
        panic!("Expected mutual exclusion error on `enumeration` and `one_of` attributes");
    }
}

#[test]
fn parse_unnamed_variant_success_test() {
    let variant = VariantDecl {
        name: "FirstEntity".to_string(),
        fields: VariantFields::Unnamed(vec![TypeExpr::Path(path(&["Entity"]))]),
    };
    let variant = EnumVariant::try_from_unnamed_variant(&variant).unwrap();
    assert_eq!(variant.name, "FirstEntity".to_string());
    assert_eq!(variant.field_name, Some(path(&["Entity"])));
}

#[test]
fn parse_enumeration_variant_success_test() {
    let variant = VariantDecl { name: "Bar".to_string(), fields: VariantFields::Unit };
    let variant = EnumVariant::try_from_enumeration_variant(&variant).unwrap();
    assert_eq!(variant.name, "Bar".to_string());
    assert_eq!(variant.field_name, None);
}

#[test]
fn parse_u_variant_error_test() {
    let variant = VariantDecl {
        name: "First".to_string(),
        fields: VariantFields::Unnamed(vec![TypeExpr::Path(path(&["Inner"]))]),
    };
    if EnumVariant::try_from_enumeration_variant(&variant).is_ok() {
        panic!("Expected unnamed variant error");
    }
}

#[test]
fn enumeration_rejects_named_payload_variants() {
    let with_payload = VariantDecl { name: "Bar".to_string(), fields: VariantFields::Named(2) };
    if EnumVariant::try_from_enumeration_variant(&with_payload).is_ok() {
        panic!("Expected a shape error on a named-payload variant");
    }

    let empty = VariantDecl { name: "Baz".to_string(), fields: VariantFields::Named(0) };
    let variant = EnumVariant::try_from_enumeration_variant(&empty).unwrap();
    assert_eq!(variant.name, "Baz".to_string());
    assert_eq!(variant.field_name, None);
}

#[test]
fn parse_unnamed_variant_errors_test() {
    let bare = VariantDecl { name: "Bar".to_string(), fields: VariantFields::Unit };
    if EnumVariant::try_from_unnamed_variant(&bare).is_ok() {
        panic!("Expected unnamed variant no inner error");
    }

    let two = VariantDecl {
        name: "Invalid".to_string(),
        fields: VariantFields::Unnamed(vec![
            TypeExpr::Path(path(&["Inner1"])),
            TypeExpr::Path(path(&["Inner2"])),
        ]),
    };
    if EnumVariant::try_from_unnamed_variant(&two).is_ok() {
        panic!("Expected unnamed variant more that one inner error");
    }
}
