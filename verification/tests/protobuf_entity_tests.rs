//! Round trips of modeled entities under the accessor convention.

use proto_mapper::attributes::{EnumAttrs, FieldAttrs, StructAttrs};
use proto_mapper::code::Backend;
use proto_mapper::decode::from_wire;
use proto_mapper::encode::to_wire;
use proto_mapper::input::{FieldDecl, ItemDecl, PathExpr, TypeExpr, VariantDecl, VariantFields};
use proto_mapper::proto_map::ProtoMap;
use proto_mapper::value::{
    EntityData, EntityNode, ScalarValue, Value, WireEnum, WireField, WireMessage, WireSlot,
    WireValue,
};

fn path(segs: &[&str]) -> PathExpr {
    PathExpr { segments: segs.iter().map(|s| s.to_string()).collect(), args: vec![] }
}

fn ty(name: &str) -> TypeExpr {
    TypeExpr::Path(path(&[name]))
}

fn ty_opt(name: &str) -> TypeExpr {
    TypeExpr::Path(PathExpr { segments: vec!["Option".to_string()], args: vec![path(&[name])] })
}

fn ty_bytes() -> TypeExpr {
    TypeExpr::Path(PathExpr {
        segments: vec!["Vec".to_string()],
        args: vec![path(&["u8"])],
    })
}

fn ty_opt_bytes() -> TypeExpr {
    TypeExpr::Path(PathExpr {
        segments: vec!["Option".to_string()],
        args: vec![PathExpr { segments: vec!["Vec".to_string()], args: vec![path(&["u8"])] }],
    })
}

fn field(name: &str, t: TypeExpr) -> FieldDecl {
    FieldDecl { name: Some(name.to_string()), ty: t, attrs: None }
}

fn field_attr(name: &str, t: TypeExpr, attrs: FieldAttrs) -> FieldDecl {
    FieldDecl { name: Some(name.to_string()), ty: t, attrs: Some(attrs) }
}

fn enum_attr() -> FieldAttrs {
    FieldAttrs { enumeration: true, ..FieldAttrs::default() }
}

fn unit_variant(name: &str) -> VariantDecl {
    VariantDecl { name: name.to_string(), fields: VariantFields::Unit }
}

fn payload_variant(name: &str, payload: &str) -> VariantDecl {
    VariantDecl {
        name: name.to_string(),
        fields: VariantFields::Unnamed(vec![ty(payload)]),
    }
}

fn entity_status() -> ProtoMap {
    ProtoMap::from_derive_input(&ItemDecl::Enum {
        name: "EntityStatus".to_string(),
        attrs: Some(EnumAttrs {
            source: path(&["proto", "protobuf", "EntityStatus"]),
            one_of: None,
            enumeration: Some(true),
            rename_variants: Some("STREAMING_SNAKE_CASE".to_string()),
        }),
        variants: vec![unit_variant("StatusA"), unit_variant("StatusB"), unit_variant("StatusC")],
    })
    .unwrap()
}

fn scalar_entity() -> ProtoMap {
    ProtoMap::from_derive_input(&ItemDecl::Struct {
        name: "ScalarEntity".to_string(),
        attrs: Some(StructAttrs {
            source: path(&["proto", "protobuf", "ScalarEntity"]),
            rename_all: None,
        }),
        fields: vec![
            field("uint32_f", ty("u32")),
            field("int32_f", ty("i32")),
            field("bool_f", ty("bool")),
            field("string_f", ty("String")),
            field("bytes_f", ty_bytes()),
            field("status", ty("EntityStatus")),
        ],
    })
    .unwrap()
}

fn status_value(i: usize) -> Value {
    Value::Entity(EntityNode { entity: "EntityStatus".to_string(), data: EntityData::Choice(i) })
}

fn scalar_entity_value() -> EntityNode {
    EntityNode {
        entity: "ScalarEntity".to_string(),
        data: EntityData::Record(vec![
            Value::Scalar(ScalarValue::U32(1)),
            Value::Scalar(ScalarValue::I32(-10)),
            Value::Scalar(ScalarValue::Bool(true)),
            Value::Scalar(ScalarValue::Text("Foo".to_string())),
            Value::Scalar(ScalarValue::Bytes("Foo".as_bytes().to_vec())),
            status_value(2),
        ]),
    }
}

#[test]
fn enumeration_round_trips() {
    let reg = vec![entity_status()];
    let original = EntityNode { entity: "EntityStatus".to_string(), data: EntityData::Choice(0) };

    let p = to_wire(&reg, &original, Backend::Protobuf);
    let tested = from_wire(&reg, "EntityStatus", &p, Backend::Protobuf).unwrap();
    assert_eq!(tested, original);
}

#[test]
fn entity_round_trip() {
    let reg = vec![entity_status(), scalar_entity()];
    let original = scalar_entity_value();

    let p = to_wire(&reg, &original, Backend::Protobuf);
    let tested = from_wire(&reg, "ScalarEntity", &p, Backend::Protobuf).unwrap();

    assert_eq!(tested, original);
}

#[test]
fn proto_entity_round_trip() {
    let reg = vec![entity_status(), scalar_entity()];
    let original = WireValue::Message(WireMessage {
        fields: vec![
            WireField { name: "uint32_f".to_string(), slot: WireSlot::Scalar(ScalarValue::U32(1)) },
            WireField { name: "int32_f".to_string(), slot: WireSlot::Scalar(ScalarValue::I32(-10)) },
            WireField { name: "bool_f".to_string(), slot: WireSlot::Scalar(ScalarValue::Bool(true)) },
            WireField {
                name: "string_f".to_string(),
                slot: WireSlot::Scalar(ScalarValue::Text("Foo".to_string())),
            },
            WireField {
                name: "bytes_f".to_string(),
                slot: WireSlot::Scalar(ScalarValue::Bytes("Foo".as_bytes().to_vec())),
            },
            WireField {
                name: "status".to_string(),
                slot: WireSlot::Enum(Some(WireEnum { name: "STATUS_C".to_string(), code: 2 })),
            },
        ],
    });

    let e = from_wire(&reg, "ScalarEntity", &original, Backend::Protobuf).unwrap();
    let tested = to_wire(&reg, &e, Backend::Protobuf);

    assert_eq!(tested, original);
}

fn nested_entity_four_fields() -> Vec<ProtoMap> {
    let scalar4 = ProtoMap::from_derive_input(&ItemDecl::Struct {
        name: "ScalarEntity".to_string(),
        attrs: Some(StructAttrs {
            source: path(&["proto", "protobuf", "ScalarEntity"]),
            rename_all: None,
        }),
        fields: vec![
            field("uint32_f", ty("u32")),
            field("int32_f", ty("i32")),
            field("bool_f", ty("bool")),
            field("string_f", ty("String")),
        ],
    })
    .unwrap();
    let nested = ProtoMap::from_derive_input(&ItemDecl::Struct {
        name: "NestedEntity".to_string(),
        attrs: Some(StructAttrs {
            source: path(&["proto", "protobuf", "NestedEntity"]),
            rename_all: None,
        }),
        fields: vec![field("first", ty("ScalarEntity")), field("second", ty("ScalarEntity"))],
    })
    .unwrap();
    vec![scalar4, nested]
}

fn scalar4_value(n: u32) -> EntityNode {
    EntityNode {
        entity: "ScalarEntity".to_string(),
        data: EntityData::Record(vec![
            Value::Scalar(ScalarValue::U32(n)),
            Value::Scalar(ScalarValue::I32(10)),
            Value::Scalar(ScalarValue::Bool(true)),
            Value::Scalar(ScalarValue::Text("Foo".to_string())),
        ]),
    }
}

#[test]
fn nested_entity_round_trip() {
    let reg = nested_entity_four_fields();
    let entity = scalar4_value(1);
    let original = EntityNode {
        entity: "NestedEntity".to_string(),
        data: EntityData::Record(vec![
            Value::Entity(scalar4_value(1)),
            Value::Entity(entity),
        ]),
    };

    let p = to_wire(&reg, &original, Backend::Protobuf);
    let tested = from_wire(&reg, "NestedEntity", &p, Backend::Protobuf).unwrap();

    assert_eq!(tested, original);
}

fn hierarchy_registry() -> Vec<ProtoMap> {
    let nested = ProtoMap::from_derive_input(&ItemDecl::Struct {
        name: "NestedEntity".to_string(),
        attrs: Some(StructAttrs {
            source: path(&["proto", "protobuf", "NestedEntity"]),
            rename_all: None,
        }),
        fields: vec![field("first", ty("ScalarEntity")), field("second", ty("ScalarEntity"))],
    })
    .unwrap();
    let hierarchy = ProtoMap::from_derive_input(&ItemDecl::Enum {
        name: "HierarchyEntity".to_string(),
        attrs: Some(EnumAttrs {
            source: path(&["proto", "protobuf", "HierarchyEntity"]),
            one_of: Some(proto_mapper::attributes::OneOf { field: "data".to_string() }),
            enumeration: None,
            rename_variants: Some("snake_case".to_string()),
        }),
        variants: vec![
            payload_variant("FirstEntity", "ScalarEntity"),
            payload_variant("SecondEntity", "NestedEntity"),
        ],
    })
    .unwrap();
    vec![entity_status(), scalar_entity(), nested, hierarchy]
}

fn scalar6_value(u: u32, i: i32, b: bool, s: &str, status: usize) -> EntityNode {
    EntityNode {
        entity: "ScalarEntity".to_string(),
        data: EntityData::Record(vec![
            Value::Scalar(ScalarValue::U32(u)),
            Value::Scalar(ScalarValue::I32(i)),
            Value::Scalar(ScalarValue::Bool(b)),
            Value::Scalar(ScalarValue::Text(s.to_string())),
            Value::Scalar(ScalarValue::Bytes(s.as_bytes().to_vec())),
            status_value(status),
        ]),
    }
}

#[test]
fn hierarchy_entity_round_trips() {
    let reg = hierarchy_registry();

    let entity = scalar6_value(1, 10, true, "Foo", 2);
    let original = EntityNode {
        entity: "HierarchyEntity".to_string(),
        data: EntityData::Tag(0, Box::new(entity)),
    };

    let p = to_wire(&reg, &original, Backend::Protobuf);
    let tested = from_wire(&reg, "HierarchyEntity", &p, Backend::Protobuf).unwrap();
    assert_eq!(tested, original);

    let first = scalar6_value(1, -10, true, "Foo1", 2);
    let second = scalar6_value(2, -20, false, "Foo2", 0);
    let nested = EntityNode {
        entity: "NestedEntity".to_string(),
        data: EntityData::Record(vec![Value::Entity(first), Value::Entity(second)]),
    };
    let original = EntityNode {
        entity: "HierarchyEntity".to_string(),
        data: EntityData::Tag(1, Box::new(nested)),
    };

    let p = to_wire(&reg, &original, Backend::Protobuf);
    let tested = from_wire(&reg, "HierarchyEntity", &p, Backend::Protobuf).unwrap();
    assert_eq!(tested, original);
}

fn option_entity() -> ProtoMap {
    ProtoMap::from_derive_input(&ItemDecl::Struct {
        name: "Entity".to_string(),
        attrs: Some(StructAttrs {
            source: path(&["proto", "protobuf", "Entity"]),
            rename_all: None,
        }),
        fields: vec![
            field("id", ty_opt("u32")),
            field("nonce", ty_opt("i32")),
            field("valid", ty_opt("bool")),
            field("name", ty_opt("String")),
        ],
    })
    .unwrap()
}

fn default_option_entity_value() -> EntityNode {
    EntityNode {
        entity: "Entity".to_string(),
        data: EntityData::Record(vec![
            Value::OptScalar(None),
            Value::OptScalar(None),
            Value::OptScalar(None),
            Value::OptScalar(None),
        ]),
    }
}

#[test]
fn default_entity_round_trip() {
    let reg = vec![option_entity()];
    let original = default_option_entity_value();

    let p = to_wire(&reg, &original, Backend::Protobuf);
    let tested = from_wire(&reg, "Entity", &p, Backend::Protobuf).unwrap();

    assert_eq!(tested, original);
}

fn default_option_wire() -> WireValue {
    WireValue::Message(WireMessage {
        fields: vec![
            WireField { name: "id".to_string(), slot: WireSlot::Scalar(ScalarValue::U32(0)) },
            WireField { name: "nonce".to_string(), slot: WireSlot::Scalar(ScalarValue::I32(0)) },
            WireField {
                name: "valid".to_string(),
                slot: WireSlot::Scalar(ScalarValue::Bool(false)),
            },
            WireField {
                name: "name".to_string(),
                slot: WireSlot::Scalar(ScalarValue::Text(String::new())),
            },
        ],
    })
}

#[test]
fn default_proto_entity_round_trip() {
    let reg = vec![option_entity()];
    let original = default_option_wire();

    let e = from_wire(&reg, "Entity", &original, Backend::Protobuf).unwrap();
    let tested = to_wire(&reg, &e, Backend::Protobuf);

    assert_eq!(tested, original);
}

#[test]
fn filled_entity_round_trip() {
    // LIMITATION: false, empty strings, zeros and in general default values
    // decode back to None; to discriminate absence from the default, an
    // optional field is the wrong choice.
    let reg = vec![option_entity()];
    let original = EntityNode {
        entity: "Entity".to_string(),
        data: EntityData::Record(vec![
            Value::OptScalar(Some(ScalarValue::U32(100))),
            Value::OptScalar(Some(ScalarValue::I32(1000))),
            Value::OptScalar(Some(ScalarValue::Bool(true))),
            Value::OptScalar(Some(ScalarValue::Text("Foo".to_string()))),
        ]),
    };

    let p = to_wire(&reg, &original, Backend::Protobuf);
    let tested = from_wire(&reg, "Entity", &p, Backend::Protobuf).unwrap();

    assert_eq!(tested, original);
}

#[test]
fn option_fields_tests_filled_proto_entity_round_trip() {
    let reg = vec![option_entity()];
    let original = WireValue::Message(WireMessage {
        fields: vec![
            WireField { name: "id".to_string(), slot: WireSlot::Scalar(ScalarValue::U32(100)) },
            WireField { name: "nonce".to_string(), slot: WireSlot::Scalar(ScalarValue::I32(100)) },
            WireField {
                name: "valid".to_string(),
                slot: WireSlot::Scalar(ScalarValue::Bool(true)),
            },
            WireField {
                name: "name".to_string(),
                slot: WireSlot::Scalar(ScalarValue::Text("BAR".to_string())),
            },
        ],
    });

    let e = from_wire(&reg, "Entity", &original, Backend::Protobuf).unwrap();
    let tested = to_wire(&reg, &e, Backend::Protobuf);

    assert_eq!(tested, original);
}

fn optional_scalar_entity() -> Vec<ProtoMap> {
    let options = ProtoMap::from_derive_input(&ItemDecl::Struct {
        name: "ScalarEntityOptions".to_string(),
        attrs: Some(StructAttrs {
            source: path(&["proto", "protobuf", "ScalarEntity"]),
            rename_all: None,
        }),
        fields: vec![
            field("uint32_f", ty_opt("u32")),
            field("int32_f", ty_opt("i32")),
            field("bool_f", ty_opt("bool")),
            field("string_f", ty_opt("String")),
            field("bytes_f", ty_opt_bytes()),
            field_attr("status", ty_opt("EntityStatus"), enum_attr()),
        ],
    })
    .unwrap();
    vec![entity_status(), options]
}

fn default_options_value() -> EntityNode {
    EntityNode {
        entity: "ScalarEntityOptions".to_string(),
        data: EntityData::Record(vec![
            Value::OptScalar(None),
            Value::OptScalar(None),
            Value::OptScalar(None),
            Value::OptScalar(None),
            Value::OptScalar(None),
            Value::OptEntity(None),
        ]),
    }
}

#[test]
fn struct_entity_optional_tests_default_entity_round_trip() {
    let reg = optional_scalar_entity();
    let original = default_options_value();

    let p = to_wire(&reg, &original, Backend::Protobuf);
    let tested = from_wire(&reg, "ScalarEntityOptions", &p, Backend::Protobuf).unwrap();

    assert_eq!(tested, original);
}

fn default_options_wire() -> WireValue {
    WireValue::Message(WireMessage {
        fields: vec![
            WireField { name: "uint32_f".to_string(), slot: WireSlot::Scalar(ScalarValue::U32(0)) },
            WireField { name: "int32_f".to_string(), slot: WireSlot::Scalar(ScalarValue::I32(0)) },
            WireField {
                name: "bool_f".to_string(),
                slot: WireSlot::Scalar(ScalarValue::Bool(false)),
            },
            WireField {
                name: "string_f".to_string(),
                slot: WireSlot::Scalar(ScalarValue::Text(String::new())),
            },
            WireField {
                name: "bytes_f".to_string(),
                slot: WireSlot::Scalar(ScalarValue::Bytes(Vec::new())),
            },
            WireField {
                name: "status".to_string(),
                // the optional enumeration member is unset
                slot: WireSlot::Enum(None),
            },
        ],
    })
}

#[test]
fn struct_entity_optional_tests_default_proto_entity_round_trip() {
    let reg = optional_scalar_entity();
    let original = default_options_wire();

    let e = from_wire(&reg, "ScalarEntityOptions", &original, Backend::Protobuf).unwrap();
    let tested = to_wire(&reg, &e, Backend::Protobuf);

    assert_eq!(tested, original);
}

#[test]
fn struct_entity_optional_tests_filled_entity_round_trip() {
    let reg = optional_scalar_entity();
    let original = EntityNode {
        entity: "ScalarEntityOptions".to_string(),
        data: EntityData::Record(vec![
            Value::OptScalar(Some(ScalarValue::U32(100))),
            Value::OptScalar(Some(ScalarValue::I32(-1000))),
            Value::OptScalar(Some(ScalarValue::Bool(true))),
            Value::OptScalar(Some(ScalarValue::Text("Foo".to_string()))),
            Value::OptScalar(Some(ScalarValue::Bytes("Foo".as_bytes().to_vec()))),
            Value::OptEntity(Some(Box::new(EntityNode {
                entity: "EntityStatus".to_string(),
                data: EntityData::Choice(1),
            }))),
        ]),
    };

    let p = to_wire(&reg, &original, Backend::Protobuf);
    let tested = from_wire(&reg, "ScalarEntityOptions", &p, Backend::Protobuf).unwrap();

    assert_eq!(tested, original);
}

#[test]
fn filled_proto_entity_round_trip() {
    // LIMITATION: default-valued members decode to None, so only the
    // non-default members survive the round trip; this wire value holds
    // defaults exactly where decoding yields None.
    let reg = optional_scalar_entity();
    let original = WireValue::Message(WireMessage {
        fields: vec![
            WireField { name: "uint32_f".to_string(), slot: WireSlot::Scalar(ScalarValue::U32(0)) },
            WireField { name: "int32_f".to_string(), slot: WireSlot::Scalar(ScalarValue::I32(0)) },
            WireField {
                name: "bool_f".to_string(),
                slot: WireSlot::Scalar(ScalarValue::Bool(false)),
            },
            WireField {
                name: "string_f".to_string(),
                slot: WireSlot::Scalar(ScalarValue::Text("Foo".to_string())),
            },
            WireField {
                name: "bytes_f".to_string(),
                slot: WireSlot::Scalar(ScalarValue::Bytes("Bytes".as_bytes().to_vec())),
            },
            WireField {
                name: "status".to_string(),
                slot: WireSlot::Enum(Some(WireEnum { name: "STATUS_B".to_string(), code: 1 })),
            },
        ],
    });

    let e = from_wire(&reg, "ScalarEntityOptions", &original, Backend::Protobuf).unwrap();
    let tested = to_wire(&reg, &e, Backend::Protobuf);

    assert_eq!(tested, original);
}
