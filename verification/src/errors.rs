use vstd::prelude::*;

verus! {

use vstd::string::*;

/// A fatal error raised while compiling one annotated item. Each variant
/// carries the rule that the declaration violates; none are recoverable.
#[derive(Debug, Clone, PartialEq, Eq)]
pub enum CompileError {
    /// The annotated item is neither a record nor a sum type.
    UnsupportedItemShape,
    /// A record field without a name (tuple structs are not supported).
    UnnamedStructField,
    /// A field whose declared type is not a path type.
    NonPathFieldType,
    /// The required item-level mapping attribute is missing.
    MissingProtoMapAttribute,
    /// The field markers `scalar` and `enumeration` were both given.
    FieldAttrsMutuallyExclusive,
    /// The item markers `enumeration` and `one_of` were both given.
    EnumAttrsMutuallyExclusive,
    /// A variant of an enumeration-shaped sum type carries a payload.
    EnumerationVariantWithPayload,
    /// A variant of a oneof-shaped sum type has no payload, more than one,
    /// or a payload that is not a path type.
    OneOfVariantShape,
    /// A case-convention value outside the recognized set.
    UnknownRenameCase { value: String },
}

impl CompileError {
    pub open spec fn message_spec(&self) -> Seq<char> {
        match self {
            CompileError::UnsupportedItemShape => "Macro supports only `struct` and `enum` items"@,
            CompileError::UnnamedStructField => "Macro supports only structs with named fields"@,
            CompileError::NonPathFieldType => "Macro supports only path types"@,
            CompileError::MissingProtoMapAttribute => "Missing required proto attribute `proto_map`"@,
            CompileError::FieldAttrsMutuallyExclusive => "Struct attributes `enumeration` and `scalar` are mutually excluded (use only one of them)"@,
            CompileError::EnumAttrsMutuallyExclusive => "Enum attributes `enumeration` and `one_of` are mutually excluded (use only one of them)"@,
            CompileError::EnumerationVariantWithPayload => "Only unnamed variants with no inner field e.g. `Foo, Bar` are supported for `enumeration` attributed enums."@,
            CompileError::OneOfVariantShape => "Only unnamed variants with only one inner field e.g. `Foo(Bar)` are supported for `one_of` attributed enums."@,
            CompileError::UnknownRenameCase { value } => "Unknown rename case attribute = `"@ + value@ + "` "@,
        }
    }

    /// The human-readable message naming the construct and rule violated.
    pub fn message(&self) -> (r: String)
        ensures
            r@ == self.message_spec(),
    {
        match self {
            CompileError::UnsupportedItemShape => "Macro supports only `struct` and `enum` items".to_owned(),
            CompileError::UnnamedStructField => "Macro supports only structs with named fields".to_owned(),
            CompileError::NonPathFieldType => "Macro supports only path types".to_owned(),
            CompileError::MissingProtoMapAttribute => "Missing required proto attribute `proto_map`".to_owned(),
            CompileError::FieldAttrsMutuallyExclusive => "Struct attributes `enumeration` and `scalar` are mutually excluded (use only one of them)".to_owned(),
            CompileError::EnumAttrsMutuallyExclusive => "Enum attributes `enumeration` and `one_of` are mutually excluded (use only one of them)".to_owned(),
            CompileError::EnumerationVariantWithPayload => "Only unnamed variants with no inner field e.g. `Foo, Bar` are supported for `enumeration` attributed enums.".to_owned(),
            CompileError::OneOfVariantShape => "Only unnamed variants with only one inner field e.g. `Foo(Bar)` are supported for `one_of` attributed enums.".to_owned(),
            CompileError::UnknownRenameCase { value } => {
                let head: String = "Unknown rename case attribute = `".to_owned();
                head.concat(value.as_str()).concat("` ")
            },
        }
    }
}

/// A recoverable error returned by the decoding direction of a generated
/// conversion. Nested failures propagate unchanged.
#[derive(Debug, Clone, PartialEq, Eq)]
pub enum MapError {
    /// A wire enumeration value outside the variant table.
    UnknownEnumValue { entity: String },
    /// A oneof wire value with no tag set, or a tag no arm recognizes.
    NoOneOfValue { entity: String },
    /// A wire value whose shape does not fit the entity it is decoded as.
    WireShapeMismatch { entity: String },
    /// A composite field names an entity the registry does not hold.
    MissingEntity { entity: String },
    /// Constructing a default entity recursed deeper than the registry could
    /// justify (a cycle of required composite fields).
    DepthLimit { entity: String },
}

/// The mathematical shape of a `MapError`.
pub enum MapErrorView {
    UnknownEnumValue { entity: Seq<char> },
    NoOneOfValue { entity: Seq<char> },
    WireShapeMismatch { entity: Seq<char> },
    MissingEntity { entity: Seq<char> },
    DepthLimit { entity: Seq<char> },
}

impl View for MapError {
    type V = MapErrorView;

    open spec fn view(&self) -> MapErrorView {
        match self {
            MapError::UnknownEnumValue { entity } => MapErrorView::UnknownEnumValue {
                entity: entity@,
            },
            MapError::NoOneOfValue { entity } => MapErrorView::NoOneOfValue { entity: entity@ },
            MapError::WireShapeMismatch { entity } => MapErrorView::WireShapeMismatch {
                entity: entity@,
            },
            MapError::MissingEntity { entity } => MapErrorView::MissingEntity { entity: entity@ },
            MapError::DepthLimit { entity } => MapErrorView::DepthLimit { entity: entity@ },
        }
    }
}

impl MapError {
    pub open spec fn message_spec(&self) -> Seq<char> {
        match self {
            MapError::UnknownEnumValue { entity } => "Failed to match enum value to proto entity "@ + entity@,
            MapError::NoOneOfValue { entity } => "Failed to decode enum "@ + entity@ + " from proto entity"@,
            MapError::WireShapeMismatch { entity } => "Wire value does not match entity "@ + entity@,
            MapError::MissingEntity { entity } => "No entity named "@ + entity@ + " is registered"@,
            MapError::DepthLimit { entity } => "Default value of entity "@ + entity@ + " recurses"@,
        }
    }

    /// The human-readable message carried by the failure.
    pub fn message(&self) -> (r: String)
        ensures
            r@ == self.message_spec(),
    {
        match self {
            MapError::UnknownEnumValue { entity } => {
                let head: String = "Failed to match enum value to proto entity ".to_owned();
                head.concat(entity.as_str())
            },
            MapError::NoOneOfValue { entity } => {
                let head: String = "Failed to decode enum ".to_owned();
                head.concat(entity.as_str()).concat(" from proto entity")
            },
            MapError::WireShapeMismatch { entity } => {
                let head: String = "Wire value does not match entity ".to_owned();
                head.concat(entity.as_str())
            },
            MapError::MissingEntity { entity } => {
                let head: String = "No entity named ".to_owned();
                head.concat(entity.as_str()).concat(" is registered")
            },
            MapError::DepthLimit { entity } => {
                let head: String = "Default value of entity ".to_owned();
                head.concat(entity.as_str()).concat(" recurses")
            },
        }
    }
}

} // verus!
