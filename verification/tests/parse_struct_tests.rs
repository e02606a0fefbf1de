//! Compiling declared record fields: classification and attributes.

use proto_mapper::attributes::{FieldAttrs, StructAttrs};
use proto_mapper::input::{FieldDecl, PathExpr, TypeExpr};
use proto_mapper::proto_struct::StructField;
use proto_mapper::ty::{ScalarType, Ty};
use proto_mapper::type_scanner::scan;

fn path(segs: &[&str]) -> PathExpr {
    PathExpr { segments: segs.iter().map(|s| s.to_string()).collect(), args: vec![] }
}

fn ty(name: &str) -> TypeExpr {
    TypeExpr::Path(path(&[name]))
}

fn field(name: &str, t: TypeExpr) -> FieldDecl {
    FieldDecl { name: Some(name.to_string()), ty: t, attrs: None }
}

#[test]
fn parse_struct_attributes_test() {
    let attrs = StructAttrs {
        source: path(&["proto", "Entity"]),
        rename_all: Some("snake_case".to_string()),
    };
    assert_eq!(attrs.source.segments, vec!["proto".to_string(), "Entity".to_string()]);
    assert_eq!(attrs.rename_all, Some("snake_case".into()));
}

#[test]
fn parse_struct_primitive_fields_test() {
    let decls = vec![
        field("a", ty("u32")),
        field("b", ty("i32")),
        field("c", ty("bool")),
        field("d", ty("f32")),
        field("e", ty("f64")),
        field("f", ty("u64")),
        field("g", ty("i64")),
        field("h", ty("String")),
    ];
    let expected = [
        ("a", ScalarType::U32),
        ("b", ScalarType::I32),
        ("c", ScalarType::Bool),
        ("d", ScalarType::F32),
        ("e", ScalarType::F64),
        ("f", ScalarType::U64),
        ("g", ScalarType::I64),
        ("h", ScalarType::String),
    ];
    for (decl, (name, kind)) in decls.iter().zip(expected.iter()) {
        let compiled = StructField::try_from_field(decl).unwrap();
        assert_eq!(compiled.name, name.to_string());
        assert_eq!(compiled.ty, Ty::scalar(*kind, false));
        assert!(!compiled.is_optional());
        assert!(compiled.attrs.is_none());
    }
}

#[test]
fn parse_nested_types_test() {
    let opt_id = FieldDecl {
        name: Some("opt_id".to_string()),
        ty: TypeExpr::Path(PathExpr {
            segments: vec!["std".to_string(), "option".to_string(), "Option".to_string()],
            args: vec![path(&["u32"])],
        }),
        attrs: None,
    };
    let compiled = StructField::try_from_field(&opt_id).unwrap();
    assert_eq!(compiled.name, "opt_id".to_string());
    assert_eq!(compiled.ty, Ty::scalar(ScalarType::U32, true));
    assert!(compiled.attrs.is_none());

    let whatever = field("whatever", ty("Whatever"));
    let compiled = StructField::try_from_field(&whatever).unwrap();
    assert_eq!(compiled.name, "whatever".to_string());
    assert!(matches!(compiled.ty, Ty::Other { optional: false }));
    assert!(compiled.attrs.is_none());

    let opt_whatever = FieldDecl {
        name: Some("opt_whatever".to_string()),
        ty: TypeExpr::Path(PathExpr {
            segments: vec!["Option".to_string()],
            args: vec![path(&["Whatever"])],
        }),
        attrs: None,
    };
    let compiled = StructField::try_from_field(&opt_whatever).unwrap();
    assert_eq!(compiled.name, "opt_whatever".to_string());
    assert!(matches!(compiled.ty, Ty::Other { optional: true }));
    assert!(compiled.attrs.is_none());

    let hash_map = FieldDecl {
        name: Some("hash_map".to_string()),
        ty: TypeExpr::Path(PathExpr {
            segments: vec!["HashMap".to_string()],
            args: vec![path(&["u32"]), path(&["String"])],
        }),
        attrs: None,
    };
    let compiled = StructField::try_from_field(&hash_map).unwrap();
    assert_eq!(compiled.name, "hash_map".to_string());
    assert!(matches!(compiled.ty, Ty::Other { optional: false }));
    assert!(compiled.attrs.is_none());
}

#[test]
fn unsupported_tuple_primitive_field_test() {
    let decl = FieldDecl { name: Some("field".to_string()), ty: TypeExpr::Tuple, attrs: None };
    let res = StructField::try_from_field(&decl);
    assert!(res.is_err());
}

#[test]
fn parse_struct_field_attributes_test() {
    let a = field("a", ty("u32"));
    let compiled = StructField::try_from_field(&a).unwrap();
    assert!(compiled.attrs.is_none());

    let b = FieldDecl {
        name: Some("b".to_string()),
        ty: ty("i32"),
        attrs: Some(FieldAttrs { rename: Some("awesome_b".to_string()), ..FieldAttrs::default() }),
    };
    let compiled = StructField::try_from_field(&b).unwrap();
    assert_eq!(compiled.name, "b".to_string());
    assert!(compiled.attrs.is_some());
    let attrs = compiled.attrs.unwrap();
    assert_eq!(attrs.rename, Some("awesome_b".to_string()));

    let c = FieldDecl {
        name: Some("c".to_string()),
        ty: ty("bool"),
        attrs: Some(FieldAttrs { skip: true, ..FieldAttrs::default() }),
    };
    let compiled = StructField::try_from_field(&c).unwrap();
    assert_eq!(compiled.name, "c".to_string());
    assert!(compiled.attrs.is_some());
    let attrs = compiled.attrs.unwrap();
    assert!(attrs.skip);

    let d = FieldDecl {
        name: Some("d".to_string()),
        ty: TypeExpr::Path(PathExpr {
            segments: vec!["Option".to_string()],
            args: vec![path(&["Whatever"])],
        }),
        attrs: Some(FieldAttrs { enumeration: true, ..FieldAttrs::default() }),
    };
    let compiled = StructField::try_from_field(&d).unwrap();
    assert_eq!(compiled.name, "d".to_string());
    assert!(compiled.attrs.is_some());
    let attrs = compiled.attrs.unwrap();
    assert!(attrs.enumeration);
}

#[test]
fn test_fold_type() {
    let fragment = PathExpr {
        segments: vec!["HashMap".to_string()],
        args: vec![path(&["u8"]), path(&["u8"])],
    };
    assert_eq!(scan(&fragment).to_string(), "HashMap<u8,u8>".to_string());

    let fragment = PathExpr {
        segments: vec!["std".to_string(), "string".to_string(), "Option".to_string()],
        args: vec![path(&["u8"])],
    };
    assert_eq!(scan(&fragment).to_string(), "Option<u8>".to_string());

    let vec_u8 = PathExpr { segments: vec!["Vec".to_string()], args: vec![path(&["u8"])] };
    let fragment = PathExpr {
        segments: vec!["std".to_string(), "string".to_string(), "Option".to_string()],
        args: vec![PathExpr { segments: vec!["Vec".to_string()], args: vec![path(&["u8"])] }],
    };
    assert_eq!(scan(&fragment).to_string(), "Option<Vec<u8>>".to_string());

    let fragment = PathExpr {
        segments: vec!["std".to_string(), "collections".to_string(), "HashMap".to_string()],
        args: vec![path(&["u8"]), vec_u8],
    };
    assert_eq!(scan(&fragment).to_string(), "HashMap<u8,Vec<u8>>".to_string());

    let fragment = PathExpr {
        segments: vec!["Triple".to_string()],
        args: vec![
            path(&["u8"]),
            path(&["u8"]),
            PathExpr {
                segments: vec!["Option".to_string()],
                args: vec![PathExpr {
                    segments: vec!["Vec".to_string()],
                    args: vec![path(&["u8"])],
                }],
            },
        ],
    };
    assert_eq!(scan(&fragment).to_string(), "Triple<u8,u8,Option<Vec<u8>>>".to_string());
}
