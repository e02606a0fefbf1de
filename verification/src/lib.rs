//! A schema-directed mapping compiler: given a declaratively annotated domain
//! item (a record or a closed sum type), it derives a pair of conversion
//! functions between the domain type and a wire-format type, for two wire
//! conventions (an accessor convention and a plain-field convention).
//!
//! The crate models the annotated input (type expressions, attribute sets,
//! field and variant declarations), resolves a conversion strategy per field,
//! and synthesizes the shape of the two conversion functions. An evaluator
//! gives that shape executable semantics over modeled values, which is where
//! the round-trip laws are stated and proved.

pub mod attributes;
pub mod code;
pub mod decode;
pub mod encode;
pub mod errors;
pub mod input;
pub mod laws;
pub mod nested_type;
pub mod proto_enum;
pub mod proto_map;
pub mod proto_mapper;
pub mod proto_struct;
pub mod rename;
pub mod strategy;
pub mod ty;
pub mod type_scanner;
pub mod value;
