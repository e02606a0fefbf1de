//! Round trips of entities carrying rename and skip attributes, under the
//! accessor convention.

use proto_mapper::attributes::{EnumAttrs, FieldAttrs, StructAttrs};
use proto_mapper::code::Backend;
use proto_mapper::decode::from_wire;
use proto_mapper::encode::to_wire;
use proto_mapper::input::{FieldDecl, ItemDecl, PathExpr, TypeExpr, VariantDecl, VariantFields};
use proto_mapper::proto_map::ProtoMap;
use proto_mapper::value::{
    EntityData, EntityNode, ScalarValue, Value, WireEnum, WireField, WireMessage, WireSlot,
    WireValue,
};

fn path(segs: &[&str]) -> PathExpr {
    PathExpr { segments: segs.iter().map(|s| s.to_string()).collect(), args: vec![] }
}

fn ty(name: &str) -> TypeExpr {
    TypeExpr::Path(path(&[name]))
}

fn unit_variant(name: &str) -> VariantDecl {
    VariantDecl { name: name.to_string(), fields: VariantFields::Unit }
}

fn enumeration_entity(name: &str, source_last: &str, variants: &[&str]) -> ProtoMap {
    ProtoMap::from_derive_input(&ItemDecl::Enum {
        name: name.to_string(),
        attrs: Some(EnumAttrs {
            source: path(&["proto", "protobuf", source_last]),
            one_of: None,
            enumeration: Some(true),
            rename_variants: Some("STREAMING_SNAKE_CASE".to_string()),
        }),
        variants: variants.iter().map(|v| unit_variant(v)).collect(),
    })
    .unwrap()
}

fn attributed_registry() -> Vec<ProtoMap> {
    let status = enumeration_entity("EntityStatus", "EntityStatus", &[
        "StatusA", "StatusB", "StatusC",
    ]);
    let kind = enumeration_entity("EntityType", "EntityType", &["TypeA", "TypeB", "TypeC"]);
    let entity = ProtoMap::from_derive_input(&ItemDecl::Struct {
        name: "ScalarEntity".to_string(),
        attrs: Some(StructAttrs {
            source: path(&["proto", "protobuf", "ScalarEntity"]),
            rename_all: None,
        }),
        fields: vec![
            FieldDecl { name: Some("uint32_f".to_string()), ty: ty("u32"), attrs: None },
            FieldDecl { name: Some("int32_f".to_string()), ty: ty("i32"), attrs: None },
            FieldDecl {
                name: Some("boolean_f".to_string()),
                ty: ty("bool"),
                attrs: Some(FieldAttrs {
                    rename: Some("bool_f".to_string()),
                    ..FieldAttrs::default()
                }),
            },
            FieldDecl {
                name: Some("string_f".to_string()),
                ty: ty("String"),
                attrs: Some(FieldAttrs { skip: true, ..FieldAttrs::default() }),
            },
            FieldDecl { name: Some("status".to_string()), ty: ty("EntityStatus"), attrs: None },
            FieldDecl {
                name: Some("kind".to_string()),
                ty: ty("EntityType"),
                attrs: Some(FieldAttrs {
                    rename: Some("type_".to_string()),
                    ..FieldAttrs::default()
                }),
            },
        ],
    })
    .unwrap();
    vec![status, kind, entity]
}

fn status(i: usize) -> Value {
    Value::Entity(EntityNode { entity: "EntityStatus".to_string(), data: EntityData::Choice(i) })
}

fn kind(i: usize) -> Value {
    Value::Entity(EntityNode { entity: "EntityType".to_string(), data: EntityData::Choice(i) })
}

#[test]
fn struct_entity_attribute_tests_entity_round_trip() {
    let reg = attributed_registry();
    let mut original = EntityNode {
        entity: "ScalarEntity".to_string(),
        data: EntityData::Record(vec![
            Value::Scalar(ScalarValue::U32(10)),
            Value::Scalar(ScalarValue::I32(-10)),
            Value::Scalar(ScalarValue::Bool(true)),
            Value::Scalar(ScalarValue::Text("Bar".to_string())),
            status(0),
            kind(2),
        ]),
    };

    let p = to_wire(&reg, &original, Backend::Protobuf);
    let tested = from_wire(&reg, "ScalarEntity", &p, Backend::Protobuf).unwrap();

    // The skipped field reads back as its default.
    if let EntityData::Record(fields) = &mut original.data {
        fields[3] = Value::Scalar(ScalarValue::Text(String::new()));
    }
    assert_eq!(tested, original);
}

#[test]
fn struct_entity_attribute_tests_proto_entity_round_trip() {
    let reg = attributed_registry();
    let mut original = WireValue::Message(WireMessage {
        fields: vec![
            WireField { name: "uint32_f".to_string(), slot: WireSlot::Scalar(ScalarValue::U32(10)) },
            WireField { name: "int32_f".to_string(), slot: WireSlot::Scalar(ScalarValue::I32(-10)) },
            WireField { name: "bool_f".to_string(), slot: WireSlot::Scalar(ScalarValue::Bool(true)) },
            WireField {
                name: "string_f".to_string(),
                slot: WireSlot::Scalar(ScalarValue::Text("dropped".to_string())),
            },
            WireField {
                name: "status".to_string(),
                slot: WireSlot::Enum(Some(WireEnum { name: "STATUS_A".to_string(), code: 0 })),
            },
            WireField {
                name: "type_".to_string(),
                slot: WireSlot::Enum(Some(WireEnum { name: "TYPE_A".to_string(), code: 0 })),
            },
        ],
    });

    let e = from_wire(&reg, "ScalarEntity", &original, Backend::Protobuf).unwrap();
    let tested = to_wire(&reg, &e, Backend::Protobuf);

    // The skipped wire member is never written, so it comes back default.
    if let WireValue::Message(m) = &mut original {
        m.fields[3].slot = WireSlot::Scalar(ScalarValue::Text(String::new()));
    }
    assert_eq!(tested, original);
}
