use vstd::prelude::*;

verus! {

use crate::input::{PathExpr, PathExprView};

/// The two wire-format conventions the compiler can emit for.
#[derive(Debug, Clone, Copy, PartialEq, Eq, Structural)]
pub enum Backend {
    /// The accessor convention: the wire type exposes `set_x(value)`, `x()`
    /// and `has_x()`, and enumeration fields carry a distinct wire enum type.
    Protobuf,
    /// The field convention: wire fields are plain members, a composite
    /// field's optionality is a nullable wrapper, and enumeration fields are
    /// carried as a plain numeric code.
    Prost,
}

/// The conversion invocation emitted for one field, same in both directions:
/// the built-in scalar codec, the recursive entity conversion, or an override
/// module's scalar- or composite-shaped pair.
#[derive(Debug, PartialEq, Eq)]
pub enum ConvMethod {
    BuiltinScalar,
    BuiltinProto,
    WithScalar(String),
    WithProto(String),
}

/// The mathematical shape of a `ConvMethod`.
pub enum ConvMethodView {
    BuiltinScalar,
    BuiltinProto,
    WithScalar(Seq<char>),
    WithProto(Seq<char>),
}

impl View for ConvMethod {
    type V = ConvMethodView;

    open spec fn view(&self) -> ConvMethodView {
        match self {
            ConvMethod::BuiltinScalar => ConvMethodView::BuiltinScalar,
            ConvMethod::BuiltinProto => ConvMethodView::BuiltinProto,
            ConvMethod::WithScalar(m) => ConvMethodView::WithScalar(m@),
            ConvMethod::WithProto(m) => ConvMethodView::WithProto(m@),
        }
    }
}

/// The presence predicate emitted for one optional field under the accessor
/// convention: the scalar has-value check on the read value for scalars, or
/// the wire accessor `has_x()` for composites and enumerations.
#[derive(Debug, PartialEq, Eq)]
pub enum HasValueCheck {
    ScalarHasValue,
    HasField(String),
}

/// The mathematical shape of a `HasValueCheck`.
pub enum HasValueCheckView {
    ScalarHasValue,
    HasField(Seq<char>),
}

impl View for HasValueCheck {
    type V = HasValueCheckView;

    open spec fn view(&self) -> HasValueCheckView {
        match self {
            HasValueCheck::ScalarHasValue => HasValueCheckView::ScalarHasValue,
            HasValueCheck::HasField(f) => HasValueCheckView::HasField(f@),
        }
    }
}

/// The statement synthesized for one field of the writing direction.
#[derive(Debug, PartialEq, Eq)]
pub enum WriteStmt {
    /// A skipped field: nothing is written.
    Empty,
    /// Accessor convention: `set_<setter>(<method>(&self.<field>))`;
    /// `guarded` wraps the call in a presence test of the domain value.
    CallSetter { field: String, setter: String, method: ConvMethod, guarded: bool },
    /// Field convention: `<target> = <method>(&self.<field>)`, the result
    /// wrapped in the nullable wrapper when `wrap_some`; `guarded` assigns
    /// only when the domain value is present.
    Assign { field: String, target: String, method: ConvMethod, wrap_some: bool, guarded: bool },
}

/// The mathematical shape of a `WriteStmt`.
pub enum WriteStmtView {
    Empty,
    CallSetter { field: Seq<char>, setter: Seq<char>, method: ConvMethodView, guarded: bool },
    Assign {
        field: Seq<char>,
        target: Seq<char>,
        method: ConvMethodView,
        wrap_some: bool,
        guarded: bool,
    },
}

impl View for WriteStmt {
    type V = WriteStmtView;

    open spec fn view(&self) -> WriteStmtView {
        match self {
            WriteStmt::Empty => WriteStmtView::Empty,
            WriteStmt::CallSetter { field, setter, method, guarded } => WriteStmtView::CallSetter {
                field: field@,
                setter: setter@,
                method: method@,
                guarded: *guarded,
            },
            WriteStmt::Assign { field, target, method, wrap_some, guarded } => WriteStmtView::Assign {
                field: field@,
                target: target@,
                method: method@,
                wrap_some: *wrap_some,
                guarded: *guarded,
            },
        }
    }
}

/// The wire-member shape driving the reading direction of one field under
/// the field convention.
#[derive(Debug, Clone, Copy, PartialEq, Eq, Structural)]
pub enum MemberShape {
    /// A plain scalar member, converted directly.
    ScalarRequired,
    /// A plain scalar member read into an optional domain field: the scalar
    /// has-value predicate decides presence (a default value reads as absent).
    ScalarOptional,
    /// A nullable composite member read into a required domain field: absent
    /// falls back to the domain type's default.
    MessageRequired,
    /// A nullable composite member read into an optional domain field.
    MessageOptional,
}

/// The statement synthesized for one field of the reading direction.
#[derive(Debug, PartialEq, Eq)]
pub enum ReadStmt {
    /// A skipped field: the domain field takes its default value.
    DefaultValue { field: String },
    /// Accessor convention: `<field>: <method>(proto.<getter>())`; an
    /// optional field first evaluates the presence check on the read value.
    Convert { field: String, getter: String, method: ConvMethod, check: Option<HasValueCheck> },
    /// Field convention: `<field>` read from the plain member `<getter>`,
    /// with the convention's four-way shape.
    FromMember { field: String, getter: String, method: ConvMethod, shape: MemberShape },
}

/// The mathematical shape of a `ReadStmt`.
pub enum ReadStmtView {
    DefaultValue { field: Seq<char> },
    Convert {
        field: Seq<char>,
        getter: Seq<char>,
        method: ConvMethodView,
        check: Option<HasValueCheckView>,
    },
    FromMember { field: Seq<char>, getter: Seq<char>, method: ConvMethodView, shape: MemberShape },
}

impl View for ReadStmt {
    type V = ReadStmtView;

    open spec fn view(&self) -> ReadStmtView {
        match self {
            ReadStmt::DefaultValue { field } => ReadStmtView::DefaultValue { field: field@ },
            ReadStmt::Convert { field, getter, method, check } => ReadStmtView::Convert {
                field: field@,
                getter: getter@,
                method: method@,
                check: match check {
                    Some(c) => Some(c@),
                    None => None,
                },
            },
            ReadStmt::FromMember { field, getter, method, shape } => ReadStmtView::FromMember {
                field: field@,
                getter: getter@,
                method: method@,
                shape: *shape,
            },
        }
    }
}

/// The conversion pair synthesized for one record entity: one write and one
/// read statement per declared field, in declaration order.
#[derive(Debug, PartialEq, Eq)]
pub struct StructImpl {
    pub name: String,
    pub source: PathExpr,
    pub getters: Vec<WriteStmt>,
    pub setters: Vec<ReadStmt>,
}

/// The mathematical shape of a `StructImpl`.
pub struct StructImplView {
    pub name: Seq<char>,
    pub source: PathExprView,
    pub getters: Seq<WriteStmtView>,
    pub setters: Seq<ReadStmtView>,
}

impl View for StructImpl {
    type V = StructImplView;

    open spec fn view(&self) -> StructImplView {
        StructImplView {
            name: self.name@,
            source: self.source@,
            getters: Seq::new(self.getters@.len(), |i: int| self.getters@[i]@),
            setters: Seq::new(self.setters@.len(), |i: int| self.setters@[i]@),
        }
    }
}

/// One row of an enumeration entity's two-way match table: the domain variant
/// and the wire-side variant name it maps to.
#[derive(Debug, PartialEq, Eq)]
pub struct EnumerationArm {
    pub variant: String,
    pub proto_variant: String,
}

/// The mathematical shape of an `EnumerationArm`.
pub struct EnumerationArmView {
    pub variant: Seq<char>,
    pub proto_variant: Seq<char>,
}

impl View for EnumerationArm {
    type V = EnumerationArmView;

    open spec fn view(&self) -> EnumerationArmView {
        EnumerationArmView { variant: self.variant@, proto_variant: self.proto_variant@ }
    }
}

/// The conversion pair synthesized for an enumeration-shaped sum type: an
/// exhaustive match table, domain variant against wire variant, read in both
/// directions. A wire value outside the table decodes to a conversion
/// failure.
#[derive(Debug, PartialEq, Eq)]
pub struct EnumerationImpl {
    pub name: String,
    pub source: PathExpr,
    pub arms: Vec<EnumerationArm>,
}

/// The mathematical shape of an `EnumerationImpl`.
pub struct EnumerationImplView {
    pub name: Seq<char>,
    pub source: PathExprView,
    pub arms: Seq<EnumerationArmView>,
}

impl View for EnumerationImpl {
    type V = EnumerationImplView;

    open spec fn view(&self) -> EnumerationImplView {
        EnumerationImplView {
            name: self.name@,
            source: self.source@,
            arms: Seq::new(self.arms@.len(), |i: int| self.arms@[i]@),
        }
    }
}

/// One arm of a oneof-shaped sum type's match pair: the domain variant, the
/// renamed wire-side name its setter carries, and its payload type.
#[derive(Debug, PartialEq, Eq)]
pub struct OneOfArm {
    pub variant: String,
    pub proto_variant: String,
    pub payload: PathExpr,
}

/// The mathematical shape of a `OneOfArm`.
pub struct OneOfArmView {
    pub variant: Seq<char>,
    pub proto_variant: Seq<char>,
    pub payload: PathExprView,
}

impl View for OneOfArm {
    type V = OneOfArmView;

    open spec fn view(&self) -> OneOfArmView {
        OneOfArmView {
            variant: self.variant@,
            proto_variant: self.proto_variant@,
            payload: self.payload@,
        }
    }
}

/// The conversion pair synthesized for a oneof-shaped sum type: the writer
/// stores each variant's converted payload through the tag field, and the
/// reader matches the wire tag, mapping an unset tag to a decode failure.
/// The tag's wire enumeration lives in a module named after the wire type
/// (`one_of_module`), under a type named after the tag field
/// (`one_of_enum_variant`).
#[derive(Debug, PartialEq, Eq)]
pub struct OneOfImpl {
    pub name: String,
    pub source: PathExpr,
    pub one_of_field: String,
    pub one_of_module: String,
    pub one_of_enum_variant: String,
    pub arms: Vec<OneOfArm>,
}

/// The mathematical shape of a `OneOfImpl`.
pub struct OneOfImplView {
    pub name: Seq<char>,
    pub source: PathExprView,
    pub one_of_field: Seq<char>,
    pub one_of_module: Seq<char>,
    pub one_of_enum_variant: Seq<char>,
    pub arms: Seq<OneOfArmView>,
}

impl View for OneOfImpl {
    type V = OneOfImplView;

    open spec fn view(&self) -> OneOfImplView {
        OneOfImplView {
            name: self.name@,
            source: self.source@,
            one_of_field: self.one_of_field@,
            one_of_module: self.one_of_module@,
            one_of_enum_variant: self.one_of_enum_variant@,
            arms: Seq::new(self.arms@.len(), |i: int| self.arms@[i]@),
        }
    }
}

/// The whole conversion implementation synthesized for one entity.
#[derive(Debug, PartialEq, Eq)]
pub enum ProtoMapImpl {
    Struct(StructImpl),
    Enumeration(EnumerationImpl),
    OneOf(OneOfImpl),
}

/// The mathematical shape of a `ProtoMapImpl`.
pub enum ProtoMapImplView {
    Struct(StructImplView),
    Enumeration(EnumerationImplView),
    OneOf(OneOfImplView),
}

impl View for ProtoMapImpl {
    type V = ProtoMapImplView;

    open spec fn view(&self) -> ProtoMapImplView {
        match self {
            ProtoMapImpl::Struct(s) => ProtoMapImplView::Struct(s@),
            ProtoMapImpl::Enumeration(e) => ProtoMapImplView::Enumeration(e@),
            ProtoMapImpl::OneOf(o) => ProtoMapImplView::OneOf(o@),
        }
    }
}

} // verus!
