//! The shape of the synthesized conversion pairs, under both conventions.

use proto_mapper::attributes::{EnumAttrs, FieldAttrs, OneOf, StructAttrs};
use proto_mapper::code::{
    Backend, ConvMethod, EnumerationArm, EnumerationImpl, HasValueCheck, MemberShape, OneOfArm,
    OneOfImpl, ProtoMapImpl, ReadStmt, StructImpl, WriteStmt,
};
use proto_mapper::input::{FieldDecl, PathExpr, TypeExpr, VariantDecl, VariantFields};
use proto_mapper::proto_enum::Enum;
use proto_mapper::proto_struct::Struct;

fn path(segs: &[&str]) -> PathExpr {
    PathExpr { segments: segs.iter().map(|s| s.to_string()).collect(), args: vec![] }
}

fn ty(name: &str) -> TypeExpr {
    TypeExpr::Path(path(&[name]))
}

fn ty_opt(name: &str) -> TypeExpr {
    TypeExpr::Path(PathExpr { segments: vec!["Option".to_string()], args: vec![path(&[name])] })
}

fn field(name: &str, t: TypeExpr) -> FieldDecl {
    FieldDecl { name: Some(name.to_string()), ty: t, attrs: None }
}

fn unit_variant(name: &str) -> VariantDecl {
    VariantDecl { name: name.to_string(), fields: VariantFields::Unit }
}

fn payload_variant(name: &str, payload: &str) -> VariantDecl {
    VariantDecl { name: name.to_string(), fields: VariantFields::Unnamed(vec![ty(payload)]) }
}

#[test]
fn implement_enum_prost_tests_implement_enumeration_test() {
    let e = Enum::try_from_data(
        "EntityStatus",
        &vec![unit_variant("StatusA"), unit_variant("StatusB"), unit_variant("StatusC")],
        Some(EnumAttrs {
            source: path(&["proto", "prost", "EntityStatus"]),
            one_of: None,
            enumeration: Some(true),
            rename_variants: None,
        }),
    )
    .unwrap();

    let expected = ProtoMapImpl::Enumeration(EnumerationImpl {
        name: "EntityStatus".to_string(),
        source: path(&["proto", "prost", "EntityStatus"]),
        arms: vec![
            EnumerationArm { variant: "StatusA".to_string(), proto_variant: "StatusA".to_string() },
            EnumerationArm { variant: "StatusB".to_string(), proto_variant: "StatusB".to_string() },
            EnumerationArm { variant: "StatusC".to_string(), proto_variant: "StatusC".to_string() },
        ],
    });

    let actual = e.implement_proto_map();
    assert_eq!(expected, actual);
}

fn hierarchy_enum(source: &[&str]) -> Enum {
    Enum::try_from_data(
        "HierarchyEntity",
        &vec![payload_variant("FirstEntity", "Entity"), payload_variant("SecondEntity", "NestedEntity")],
        Some(EnumAttrs {
            source: path(source),
            one_of: Some(OneOf { field: "data".to_string() }),
            enumeration: None,
            rename_variants: Some("snake_case".to_string()),
        }),
    )
    .unwrap()
}

fn expected_hierarchy_impl(source: &[&str]) -> ProtoMapImpl {
    ProtoMapImpl::OneOf(OneOfImpl {
        name: "HierarchyEntity".to_string(),
        source: path(source),
        one_of_field: "data".to_string(),
        one_of_module: "hierarchy_entity".to_string(),
        one_of_enum_variant: "Data".to_string(),
        arms: vec![
            OneOfArm {
                variant: "FirstEntity".to_string(),
                proto_variant: "first_entity".to_string(),
                payload: path(&["Entity"]),
            },
            OneOfArm {
                variant: "SecondEntity".to_string(),
                proto_variant: "second_entity".to_string(),
                payload: path(&["NestedEntity"]),
            },
        ],
    })
}

#[test]
fn implement_enum_prost_tests_implement_non_enumeration_test() {
    let e = hierarchy_enum(&["proto", "HierarchyEntity"]);
    let actual = e.implement_proto_map();
    assert_eq!(expected_hierarchy_impl(&["proto", "HierarchyEntity"]), actual);
}

#[test]
fn implement_enum_protobuf_tests_implement_enumeration_test() {
    let e = Enum::try_from_data(
        "EntityStatus",
        &vec![unit_variant("StatusA"), unit_variant("StatusB"), unit_variant("StatusC")],
        Some(EnumAttrs {
            source: path(&["proto", "EntityStatus"]),
            one_of: None,
            enumeration: Some(true),
            rename_variants: Some("STREAMING_SNAKE_CASE".to_string()),
        }),
    )
    .unwrap();

    let expected = ProtoMapImpl::Enumeration(EnumerationImpl {
        name: "EntityStatus".to_string(),
        source: path(&["proto", "EntityStatus"]),
        arms: vec![
            EnumerationArm {
                variant: "StatusA".to_string(),
                proto_variant: "STATUS_A".to_string(),
            },
            EnumerationArm {
                variant: "StatusB".to_string(),
                proto_variant: "STATUS_B".to_string(),
            },
            EnumerationArm {
                variant: "StatusC".to_string(),
                proto_variant: "STATUS_C".to_string(),
            },
        ],
    });

    let actual = e.implement_proto_map();
    assert_eq!(expected, actual);
}

#[test]
fn implement_enum_protobuf_tests_implement_non_enumeration_test() {
    let e = hierarchy_enum(&["proto", "HierarchyEntity"]);
    let actual = e.implement_proto_map();
    assert_eq!(expected_hierarchy_impl(&["proto", "HierarchyEntity"]), actual);
}

#[test]
fn implement_struct_protobuf_tests_implement_struct_scalar_types_test() {
    let s = Struct::try_from_data(
        "Test",
        &vec![field("id", ty("u32")), field("valid", ty("bool")), field("opt_name", ty_opt("String"))],
        Some(StructAttrs { source: path(&["proto", "Test"]), rename_all: None }),
    )
    .unwrap();

    let expected = StructImpl {
        name: "Test".to_string(),
        source: path(&["proto", "Test"]),
        getters: vec![
            WriteStmt::CallSetter {
                field: "id".to_string(),
                setter: "id".to_string(),
                method: ConvMethod::BuiltinScalar,
                guarded: false,
            },
            WriteStmt::CallSetter {
                field: "valid".to_string(),
                setter: "valid".to_string(),
                method: ConvMethod::BuiltinScalar,
                guarded: false,
            },
            WriteStmt::CallSetter {
                field: "opt_name".to_string(),
                setter: "opt_name".to_string(),
                method: ConvMethod::BuiltinScalar,
                guarded: true,
            },
        ],
        setters: vec![
            ReadStmt::Convert {
                field: "id".to_string(),
                getter: "id".to_string(),
                method: ConvMethod::BuiltinScalar,
                check: None,
            },
            ReadStmt::Convert {
                field: "valid".to_string(),
                getter: "valid".to_string(),
                method: ConvMethod::BuiltinScalar,
                check: None,
            },
            ReadStmt::Convert {
                field: "opt_name".to_string(),
                getter: "opt_name".to_string(),
                method: ConvMethod::BuiltinScalar,
                check: Some(HasValueCheck::ScalarHasValue),
            },
        ],
    };

    let actual = s.implement_proto_map(Backend::Protobuf);
    assert_eq!(expected, actual);
}

#[test]
fn implement_struct_protobuf_tests_implement_struct_non_scalar_types_test() {
    let s = Struct::try_from_data(
        "Test",
        &vec![field("entity", ty("Entity")), field("opt_entity", ty_opt("Entity"))],
        Some(StructAttrs { source: path(&["proto", "Test"]), rename_all: None }),
    )
    .unwrap();

    let expected = StructImpl {
        name: "Test".to_string(),
        source: path(&["proto", "Test"]),
        getters: vec![
            WriteStmt::CallSetter {
                field: "entity".to_string(),
                setter: "entity".to_string(),
                method: ConvMethod::BuiltinProto,
                guarded: false,
            },
            WriteStmt::CallSetter {
                field: "opt_entity".to_string(),
                setter: "opt_entity".to_string(),
                method: ConvMethod::BuiltinProto,
                guarded: true,
            },
        ],
        setters: vec![
            ReadStmt::Convert {
                field: "entity".to_string(),
                getter: "entity".to_string(),
                method: ConvMethod::BuiltinProto,
                check: None,
            },
            ReadStmt::Convert {
                field: "opt_entity".to_string(),
                getter: "opt_entity".to_string(),
                method: ConvMethod::BuiltinProto,
                check: Some(HasValueCheck::HasField("opt_entity".to_string())),
            },
        ],
    };

    let actual = s.implement_proto_map(Backend::Protobuf);
    assert_eq!(expected, actual);
}

#[test]
fn implement_struct_rename_attributes_test() {
    let s = Struct::try_from_data(
        "Test",
        &vec![
            FieldDecl {
                name: Some("kind".to_string()),
                ty: ty("Entity"),
                attrs: Some(FieldAttrs {
                    rename: Some("type_".to_string()),
                    ..FieldAttrs::default()
                }),
            },
            FieldDecl {
                name: Some("opt_entity".to_string()),
                ty: ty_opt("Entity"),
                attrs: Some(FieldAttrs {
                    rename: Some("other_name".to_string()),
                    ..FieldAttrs::default()
                }),
            },
        ],
        Some(StructAttrs { source: path(&["proto", "Test"]), rename_all: None }),
    )
    .unwrap();

    let actual = s.implement_proto_map(Backend::Protobuf);

    let expected = StructImpl {
        name: "Test".to_string(),
        source: path(&["proto", "Test"]),
        getters: vec![
            // the setter name loses the rename's trailing underscore
            WriteStmt::CallSetter {
                field: "kind".to_string(),
                setter: "type".to_string(),
                method: ConvMethod::BuiltinProto,
                guarded: false,
            },
            WriteStmt::CallSetter {
                field: "opt_entity".to_string(),
                setter: "other_name".to_string(),
                method: ConvMethod::BuiltinProto,
                guarded: true,
            },
        ],
        setters: vec![
            // the getter keeps the rename as it is
            ReadStmt::Convert {
                field: "kind".to_string(),
                getter: "type_".to_string(),
                method: ConvMethod::BuiltinProto,
                check: None,
            },
            ReadStmt::Convert {
                field: "opt_entity".to_string(),
                getter: "other_name".to_string(),
                method: ConvMethod::BuiltinProto,
                check: Some(HasValueCheck::HasField("other_name".to_string())),
            },
        ],
    };
    assert_eq!(expected, actual);
}

#[test]
fn implement_struct_scalars_with_attribute_overrides_test() {
    let scalar_with = |module: &str| FieldAttrs {
        scalar: true,
        with: Some(module.to_string()),
        ..FieldAttrs::default()
    };
    let s = Struct::try_from_data(
        "Test",
        &vec![
            FieldDecl {
                name: Some("field_1".to_string()),
                ty: ty("Uuid"),
                attrs: Some(scalar_with("uuid_as_string")),
            },
            FieldDecl {
                name: Some("field_2".to_string()),
                ty: ty_opt("Uuid"),
                attrs: Some(scalar_with("uuid_as_bytes")),
            },
            FieldDecl {
                name: Some("field_3".to_string()),
                ty: ty("u32"),
                attrs: Some(FieldAttrs { scalar: true, ..FieldAttrs::default() }),
            },
            FieldDecl {
                name: Some("field_4".to_string()),
                ty: ty_opt("u32"),
                attrs: Some(FieldAttrs { scalar: true, ..FieldAttrs::default() }),
            },
        ],
        Some(StructAttrs { source: path(&["proto", "Test"]), rename_all: None }),
    )
    .unwrap();

    let actual = s.implement_proto_map(Backend::Protobuf);

    let expected = StructImpl {
        name: "Test".to_string(),
        source: path(&["proto", "Test"]),
        getters: vec![
            WriteStmt::CallSetter {
                field: "field_1".to_string(),
                setter: "field_1".to_string(),
                method: ConvMethod::WithScalar("uuid_as_string".to_string()),
                guarded: false,
            },
            WriteStmt::CallSetter {
                field: "field_2".to_string(),
                setter: "field_2".to_string(),
                method: ConvMethod::WithScalar("uuid_as_bytes".to_string()),
                guarded: true,
            },
            WriteStmt::CallSetter {
                field: "field_3".to_string(),
                setter: "field_3".to_string(),
                method: ConvMethod::BuiltinScalar,
                guarded: false,
            },
            WriteStmt::CallSetter {
                field: "field_4".to_string(),
                setter: "field_4".to_string(),
                method: ConvMethod::BuiltinScalar,
                guarded: true,
            },
        ],
        setters: vec![
            ReadStmt::Convert {
                field: "field_1".to_string(),
                getter: "field_1".to_string(),
                method: ConvMethod::WithScalar("uuid_as_string".to_string()),
                check: None,
            },
            ReadStmt::Convert {
                field: "field_2".to_string(),
                getter: "field_2".to_string(),
                method: ConvMethod::WithScalar("uuid_as_bytes".to_string()),
                check: Some(HasValueCheck::ScalarHasValue),
            },
            ReadStmt::Convert {
                field: "field_3".to_string(),
                getter: "field_3".to_string(),
                method: ConvMethod::BuiltinScalar,
                check: None,
            },
            ReadStmt::Convert {
                field: "field_4".to_string(),
                getter: "field_4".to_string(),
                method: ConvMethod::BuiltinScalar,
                check: Some(HasValueCheck::ScalarHasValue),
            },
        ],
    };
    assert_eq!(expected, actual);
}

#[test]
fn implement_struct_enumerations_with_attribute_overrides_test() {
    let enum_attr = || FieldAttrs { enumeration: true, ..FieldAttrs::default() };
    let s = Struct::try_from_data(
        "Test",
        &vec![
            FieldDecl {
                name: Some("enum_1".to_string()),
                ty: ty("Enumeration"),
                attrs: Some(enum_attr()),
            },
            FieldDecl {
                name: Some("enum_2".to_string()),
                ty: ty_opt("Enumeration"),
                attrs: Some(enum_attr()),
            },
        ],
        Some(StructAttrs { source: path(&["proto", "Test"]), rename_all: None }),
    )
    .unwrap();

    let actual = s.implement_proto_map(Backend::Protobuf);

    // Under the accessor convention an enumeration field converts
    // composite-style; like a composite, its presence check is the wire
    // accessor.
    let expected = StructImpl {
        name: "Test".to_string(),
        source: path(&["proto", "Test"]),
        getters: vec![
            WriteStmt::CallSetter {
                field: "enum_1".to_string(),
                setter: "enum_1".to_string(),
                method: ConvMethod::BuiltinProto,
                guarded: false,
            },
            WriteStmt::CallSetter {
                field: "enum_2".to_string(),
                setter: "enum_2".to_string(),
                method: ConvMethod::BuiltinProto,
                guarded: true,
            },
        ],
        setters: vec![
            ReadStmt::Convert {
                field: "enum_1".to_string(),
                getter: "enum_1".to_string(),
                method: ConvMethod::BuiltinProto,
                check: None,
            },
            ReadStmt::Convert {
                field: "enum_2".to_string(),
                getter: "enum_2".to_string(),
                method: ConvMethod::BuiltinProto,
                check: Some(HasValueCheck::HasField("enum_2".to_string())),
            },
        ],
    };
    assert_eq!(expected, actual);
}

#[test]
fn implement_struct_with_attribute_overrides_test() {}

#[test]
fn implement_struct_prost_tests_implement_struct_scalar_types_test() {
    let bytes = || TypeExpr::Path(PathExpr {
        segments: vec!["Vec".to_string()],
        args: vec![path(&["u8"])],
    });
    let opt_bytes = TypeExpr::Path(PathExpr {
        segments: vec!["Option".to_string()],
        args: vec![PathExpr { segments: vec!["Vec".to_string()], args: vec![path(&["u8"])] }],
    });
    let s = Struct::try_from_data(
        "Test",
        &vec![
            field("id", ty("u32")),
            field("valid", ty("bool")),
            field("bytes", bytes()),
            field("opt_name", ty_opt("String")),
            field("opt_bytes", opt_bytes),
        ],
        Some(StructAttrs { source: path(&["proto", "Test"]), rename_all: None }),
    )
    .unwrap();

    let actual = s.implement_proto_map(Backend::Prost);

    let expected = StructImpl {
        name: "Test".to_string(),
        source: path(&["proto", "Test"]),
        getters: vec![
            WriteStmt::Assign {
                field: "id".to_string(),
                target: "id".to_string(),
                method: ConvMethod::BuiltinScalar,
                wrap_some: false,
                guarded: false,
            },
            WriteStmt::Assign {
                field: "valid".to_string(),
                target: "valid".to_string(),
                method: ConvMethod::BuiltinScalar,
                wrap_some: false,
                guarded: false,
            },
            WriteStmt::Assign {
                field: "bytes".to_string(),
                target: "bytes".to_string(),
                method: ConvMethod::BuiltinScalar,
                wrap_some: false,
                guarded: false,
            },
            WriteStmt::Assign {
                field: "opt_name".to_string(),
                target: "opt_name".to_string(),
                method: ConvMethod::BuiltinScalar,
                wrap_some: false,
                guarded: true,
            },
            WriteStmt::Assign {
                field: "opt_bytes".to_string(),
                target: "opt_bytes".to_string(),
                method: ConvMethod::BuiltinScalar,
                wrap_some: false,
                guarded: true,
            },
        ],
        setters: vec![
            ReadStmt::FromMember {
                field: "id".to_string(),
                getter: "id".to_string(),
                method: ConvMethod::BuiltinScalar,
                shape: MemberShape::ScalarRequired,
            },
            ReadStmt::FromMember {
                field: "valid".to_string(),
                getter: "valid".to_string(),
                method: ConvMethod::BuiltinScalar,
                shape: MemberShape::ScalarRequired,
            },
            ReadStmt::FromMember {
                field: "bytes".to_string(),
                getter: "bytes".to_string(),
                method: ConvMethod::BuiltinScalar,
                shape: MemberShape::ScalarRequired,
            },
            ReadStmt::FromMember {
                field: "opt_name".to_string(),
                getter: "opt_name".to_string(),
                method: ConvMethod::BuiltinScalar,
                shape: MemberShape::ScalarOptional,
            },
            ReadStmt::FromMember {
                field: "opt_bytes".to_string(),
                getter: "opt_bytes".to_string(),
                method: ConvMethod::BuiltinScalar,
                shape: MemberShape::ScalarOptional,
            },
        ],
    };
    assert_eq!(expected, actual);
}

#[test]
fn implement_struct_prost_tests_implement_struct_non_scalar_types_test() {
    let s = Struct::try_from_data(
        "Test",
        &vec![field("first", ty("Entity")), field("second", ty_opt("Entity"))],
        Some(StructAttrs { source: path(&["proto", "Test"]), rename_all: None }),
    )
    .unwrap();

    let actual = s.implement_proto_map(Backend::Prost);

    let expected = StructImpl {
        name: "Test".to_string(),
        source: path(&["proto", "Test"]),
        getters: vec![
            WriteStmt::Assign {
                field: "first".to_string(),
                target: "first".to_string(),
                method: ConvMethod::BuiltinProto,
                wrap_some: true,
                guarded: false,
            },
            WriteStmt::Assign {
                field: "second".to_string(),
                target: "second".to_string(),
                method: ConvMethod::BuiltinProto,
                wrap_some: true,
                guarded: true,
            },
        ],
        setters: vec![
            ReadStmt::FromMember {
                field: "first".to_string(),
                getter: "first".to_string(),
                method: ConvMethod::BuiltinProto,
                shape: MemberShape::MessageRequired,
            },
            ReadStmt::FromMember {
                field: "second".to_string(),
                getter: "second".to_string(),
                method: ConvMethod::BuiltinProto,
                shape: MemberShape::MessageOptional,
            },
        ],
    };
    assert_eq!(expected, actual);
}
