use vstd::prelude::*;

verus! {

use crate::attributes::{attrs_view, FieldAttrs, FieldAttrsView, StructAttrs, StructAttrsView};
use crate::code::{
    Backend, ConvMethod, HasValueCheck, HasValueCheckView, MemberShape, ReadStmt, ReadStmtView,
    StructImpl, StructImplView, WriteStmt, WriteStmtView,
};
use crate::errors::CompileError;
use crate::input::{FieldDecl, TypeExpr};
use crate::nested_type::canon;
use crate::rename::{get_proto_field_name, proto_field_name_spec};
use crate::strategy::{method_spec, resolve, Strategy};
use crate::ty::{ty_of, Ty};
use crate::type_scanner::{scan, scan_spec};

/// One compiled field of a record entity: its domain name, its type
/// descriptor, the canonical spelling of its conversion target (the declared
/// type with the optional wrapper stripped), and its already-validated
/// mapping attributes.
#[derive(Debug)]
pub struct StructField {
    pub name: String,
    pub ty: Ty,
    pub type_spelling: String,
    pub attrs: Option<FieldAttrs>,
}

/// The mathematical shape of a `StructField`.
pub struct StructFieldView {
    pub name: Seq<char>,
    pub ty: Ty,
    pub type_spelling: Seq<char>,
    pub attrs: Option<FieldAttrsView>,
}

impl View for StructField {
    type V = StructFieldView;

    open spec fn view(&self) -> StructFieldView {
        StructFieldView {
            name: self.name@,
            ty: self.ty,
            type_spelling: self.type_spelling@,
            attrs: attrs_view(self.attrs),
        }
    }
}

impl StructFieldView {
    /// Whether the field is skipped.
    pub open spec fn skipped(self) -> bool {
        self.attrs matches Some(a) && a.skip
    }

    /// The wire-side name of the field: its rename where one is given, its
    /// own name otherwise.
    pub open spec fn wire_name(self) -> Seq<char> {
        match self.attrs {
            Some(FieldAttrsView { rename: Some(r), .. }) => r,
            _ => self.name,
        }
    }

    /// The name the writing accessor or member is built from: a rename loses
    /// a trailing underscore; an unrenamed field keeps its own name.
    pub open spec fn setter_base(self) -> Seq<char> {
        match self.attrs {
            Some(FieldAttrsView { rename: Some(r), .. }) => proto_field_name_spec(r, Some('_')),
            _ => self.name,
        }
    }

    /// Whether the field maps scalar-shaped once attribute overrides are
    /// taken into account (under the field convention an enumeration field is
    /// carried as a plain numeric code, hence scalar-shaped).
    pub open spec fn scalar_like(self) -> bool {
        self.ty.is_scalar_spec() || (self.attrs matches Some(a) && (a.scalar || a.enumeration))
    }
}

/// The presence predicate chosen for one optional field under the accessor
/// convention: the scalar marker and scalar descriptors test the read value
/// itself; enumeration-marked fields and composite fields ask the wire
/// accessor.
pub open spec fn has_check_spec(f: StructFieldView, proto_field: Seq<char>) -> HasValueCheckView {
    match f.attrs {
        Some(a) => if a.scalar {
            HasValueCheckView::ScalarHasValue
        } else if a.enumeration {
            HasValueCheckView::HasField(proto_field)
        } else if f.ty.is_scalar_spec() {
            HasValueCheckView::ScalarHasValue
        } else {
            HasValueCheckView::HasField(proto_field)
        },
        None => if f.ty.is_scalar_spec() {
            HasValueCheckView::ScalarHasValue
        } else {
            HasValueCheckView::HasField(proto_field)
        },
    }
}

/// The writing statement synthesized for one field: nothing for a skipped
/// field; under the accessor convention a setter call, guarded on the domain
/// value when the field is optional; under the field convention a plain
/// assignment, wrapped in the nullable wrapper for composite-shaped fields
/// and guarded when optional.
pub open spec fn getter_stmt_spec(f: StructFieldView, b: Backend) -> WriteStmtView {
    if f.skipped() {
        WriteStmtView::Empty
    } else {
        match b {
            Backend::Protobuf => WriteStmtView::CallSetter {
                field: f.name,
                setter: f.setter_base(),
                method: method_spec(f.ty, f.attrs, b),
                guarded: f.ty.is_optional_spec(),
            },
            Backend::Prost => WriteStmtView::Assign {
                field: f.name,
                target: f.setter_base(),
                method: method_spec(f.ty, f.attrs, b),
                wrap_some: !f.scalar_like(),
                guarded: f.ty.is_optional_spec(),
            },
        }
    }
}

/// The reading statement synthesized for one field: the domain default for a
/// skipped field; under the accessor convention a conversion of the read
/// value, behind the presence predicate when the field is optional (the wire
/// accessor for composites and enumerations, the has-value check for
/// scalars); under the field convention the four-way member shape.
pub open spec fn setter_stmt_spec(f: StructFieldView, b: Backend) -> ReadStmtView {
    if f.skipped() {
        ReadStmtView::DefaultValue { field: f.name }
    } else {
        match b {
            Backend::Protobuf => ReadStmtView::Convert {
                field: f.name,
                getter: f.wire_name(),
                method: method_spec(f.ty, f.attrs, b),
                check: if f.ty.is_optional_spec() {
                    Some(has_check_spec(f, f.wire_name()))
                } else {
                    None
                },
            },
            Backend::Prost => ReadStmtView::FromMember {
                field: f.name,
                getter: f.wire_name(),
                method: method_spec(f.ty, f.attrs, b),
                shape: if f.scalar_like() {
                    if f.ty.is_optional_spec() {
                        MemberShape::ScalarOptional
                    } else {
                        MemberShape::ScalarRequired
                    }
                } else {
                    if f.ty.is_optional_spec() {
                        MemberShape::MessageOptional
                    } else {
                        MemberShape::MessageRequired
                    }
                },
            },
        }
    }
}

/// The canonical spelling of a field's conversion target: the declared type
/// with the single-level optional wrapper stripped, since the conversion
/// applies to the wrapped value.
pub open spec fn target_spelling(nested: crate::nested_type::NestedTypeView) -> Seq<char> {
    match nested {
        crate::nested_type::NestedTypeView::Named { name, args } => if name == "Option"@
            && args.len() == 1 {
            canon(args[0])
        } else {
            canon(nested)
        },
        _ => canon(nested),
    }
}

/// What compiling one declared field yields: the shape errors for a missing
/// name, a non-path type and the mutually exclusive markers, in that order,
/// or the compiled field.
pub open spec fn struct_field_spec(field: FieldDecl) -> Result<StructFieldView, CompileError> {
    if field.name is None {
        Err(CompileError::UnnamedStructField)
    } else {
        match field.ty@ {
            crate::input::TypeExprView::Path(p) => {
                let nested = scan_spec(p);
                match attrs_view(field.attrs) {
                    Some(a) => if a.scalar && a.enumeration {
                        Err(CompileError::FieldAttrsMutuallyExclusive)
                    } else {
                        Ok(
                            StructFieldView {
                                name: field.name->0@,
                                ty: ty_of(nested),
                                type_spelling: target_spelling(nested),
                                attrs: Some(a),
                            },
                        )
                    },
                    None => Ok(
                        StructFieldView {
                            name: field.name->0@,
                            ty: ty_of(nested),
                            type_spelling: target_spelling(nested),
                            attrs: None,
                        },
                    ),
                }
            },
            _ => Err(CompileError::NonPathFieldType),
        }
    }
}

impl StructField {
    /// Compiles one declared field: the field must be named and of a path
    /// type, and its attribute markers must not be mutually exclusive.
    pub fn try_from_field(field: &FieldDecl) -> (r: Result<StructField, CompileError>)
        ensures
            (match r {
                Ok(f) => struct_field_spec(*field) == Ok::<StructFieldView, CompileError>(f@),
                Err(e) => struct_field_spec(*field) == Err::<StructFieldView, CompileError>(e),
            }),
    {
        let name = match &field.name {
            Some(n) => n.clone(),
            None => {
                return Err(CompileError::UnnamedStructField);
            },
        };
        let nested = match &field.ty {
            TypeExpr::Path(p) => scan(p),
            _ => {
                return Err(CompileError::NonPathFieldType);
            },
        };
        let ty = Ty::from_nested(&nested);
        let type_spelling = {
            proof {
                crate::nested_type::lemma_nested_views(
                    match &nested {
                        crate::nested_type::NestedType::Named { args, .. } => args@,
                        crate::nested_type::NestedType::Unnamed { args } => args@,
                    },
                );
            }
            let inner: Option<&crate::nested_type::NestedType> = match &nested {
                crate::nested_type::NestedType::Named { name: n, args } => {
                    if crate::input::str_eq(n.as_str(), "Option") && args.len() == 1 {
                        Some(&args[0])
                    } else {
                        None
                    }
                },
                _ => None,
            };
            match inner {
                Some(t) => t.to_string(),
                None => nested.to_string(),
            }
        };
        let attrs = match &field.attrs {
            Some(a) => match a.duplicate().validate() {
                Ok(v) => Some(v),
                Err(e) => {
                    return Err(e);
                },
            },
            None => None,
        };
        Ok(StructField { name, ty, type_spelling, attrs })
    }

    /// Whether the field's descriptor is single-level optional.
    pub fn is_optional(&self) -> (r: bool)
        ensures
            r == self@.ty.is_optional_spec(),
    {
        self.ty.is_optional()
    }

    /// Whether the field maps scalar-shaped, attribute overrides taken into
    /// account: under the field convention an enumeration-marked field is
    /// carried as a plain numeric code, so it counts as scalar here, unlike
    /// a bare check of the descriptor.
    pub fn is_scalar_like(&self) -> (r: bool)
        ensures
            r == self@.scalar_like(),
    {
        if self.ty.is_scalar() {
            return true;
        }
        match &self.attrs {
            Some(a) => a.scalar || a.enumeration,
            None => false,
        }
    }

    /// Selects the writing conversion for this field: attribute overrides
    /// first, the defaults by descriptor otherwise.
    pub fn determine_to_proto_method(&self, backend: Backend) -> (r: ConvMethod)
        ensures
            r@ == method_spec(self@.ty, self@.attrs, backend),
    {
        // The selection never consults the skip marker: a skipped field emits
        // no conversion at all, and the override and marker rows below apply
        // regardless of it.
        let cleared: Option<FieldAttrs> = match &self.attrs {
            Some(a) => {
                let mut d = a.duplicate();
                d.skip = false;
                Some(d)
            },
            None => None,
        };
        match resolve(&self.ty, &cleared) {
            Strategy::Skip => {
                proof {
                    assert(false);
                }
                ConvMethod::BuiltinScalar
            },
            Strategy::BuiltinScalar => ConvMethod::BuiltinScalar,
            Strategy::BuiltinComposite => ConvMethod::BuiltinProto,
            Strategy::Enumeration => match backend {
                Backend::Prost => ConvMethod::BuiltinScalar,
                Backend::Protobuf => ConvMethod::BuiltinProto,
            },
            Strategy::OverrideScalar(m) => ConvMethod::WithScalar(m),
            Strategy::OverrideComposite(m) => ConvMethod::WithProto(m),
        }
    }

    /// Selects the reading conversion for this field; the selection is the
    /// same table as the writing direction's.
    pub fn determine_from_proto_method(&self, backend: Backend) -> (r: ConvMethod)
        ensures
            r@ == method_spec(self@.ty, self@.attrs, backend),
    {
        self.determine_to_proto_method(backend)
    }

    /// Selects the presence predicate for this optional field under the
    /// accessor convention.
    pub fn determine_has_value_method(&self, proto_field: &str) -> (r: HasValueCheck)
        ensures
            r@ == has_check_spec(self@, proto_field@),
    {
        if let Some(a) = &self.attrs {
            if a.scalar {
                return HasValueCheck::ScalarHasValue;
            }
            if a.enumeration {
                return HasValueCheck::HasField(proto_field.to_owned());
            }
        }
        if self.ty.is_scalar() {
            HasValueCheck::ScalarHasValue
        } else {
            HasValueCheck::HasField(proto_field.to_owned())
        }
    }

    /// The name the writing accessor or member is built from.
    fn setter_base(&self) -> (r: String)
        ensures
            r@ == self@.setter_base(),
    {
        match &self.attrs {
            Some(FieldAttrs { rename: Some(new_name), .. }) => get_proto_field_name(
                new_name.as_str(),
                Some('_'),
            ),
            _ => self.name.clone(),
        }
    }

    /// The wire-side name the reading direction reads from.
    pub(crate) fn getter_name(&self) -> (r: String)
        ensures
            r@ == self@.wire_name(),
    {
        match &self.attrs {
            Some(FieldAttrs { rename: Some(new_name), .. }) => get_proto_field_name(
                new_name.as_str(),
                None,
            ),
            _ => self.name.clone(),
        }
    }

    /// Synthesizes the writing statement for this field.
    pub fn implement_getter(&self, _struct_attrs: &StructAttrs, backend: Backend) -> (r: WriteStmt)
        ensures
            r@ == getter_stmt_spec(self@, backend),
    {
        if let Some(FieldAttrs { skip: true, .. }) = &self.attrs {
            return WriteStmt::Empty;
        }
        let setter = self.setter_base();
        let method = self.determine_to_proto_method(backend);
        let guarded = self.ty.is_optional();
        match backend {
            Backend::Protobuf => WriteStmt::CallSetter {
                field: self.name.clone(),
                setter,
                method,
                guarded,
            },
            Backend::Prost => WriteStmt::Assign {
                field: self.name.clone(),
                target: setter,
                method,
                wrap_some: !self.is_scalar_like(),
                guarded,
            },
        }
    }

    /// Synthesizes the reading statement for this field.
    pub fn implement_setter(&self, _struct_attrs: &StructAttrs, backend: Backend) -> (r: ReadStmt)
        ensures
            r@ == setter_stmt_spec(self@, backend),
    {
        if let Some(FieldAttrs { skip: true, .. }) = &self.attrs {
            return ReadStmt::DefaultValue { field: self.name.clone() };
        }
        let proto_field = self.getter_name();
        let method = self.determine_from_proto_method(backend);
        match backend {
            Backend::Protobuf => {
                let check = if self.ty.is_optional() {
                    Some(self.determine_has_value_method(proto_field.as_str()))
                } else {
                    None
                };
                ReadStmt::Convert { field: self.name.clone(), getter: proto_field, method, check }
            },
            Backend::Prost => {
                let shape = if self.is_scalar_like() {
                    if self.ty.is_optional() {
                        MemberShape::ScalarOptional
                    } else {
                        MemberShape::ScalarRequired
                    }
                } else {
                    if self.ty.is_optional() {
                        MemberShape::MessageOptional
                    } else {
                        MemberShape::MessageRequired
                    }
                };
                ReadStmt::FromMember { field: self.name.clone(), getter: proto_field, method, shape }
            },
        }
    }
}

/// One compiled record entity.
#[derive(Debug)]
pub struct Struct {
    pub name: String,
    pub attrs: StructAttrs,
    pub fields: Vec<StructField>,
}

/// The mathematical shape of a `Struct`.
pub struct StructView {
    pub name: Seq<char>,
    pub attrs: StructAttrsView,
    pub fields: Seq<StructFieldView>,
}

impl View for Struct {
    type V = StructView;

    open spec fn view(&self) -> StructView {
        StructView {
            name: self.name@,
            attrs: self.attrs@,
            fields: Seq::new(self.fields@.len(), |i: int| self.fields@[i]@),
        }
    }
}

/// What compiling a sequence of declared fields yields: the compiled fields
/// in order, or the first field's error.
pub open spec fn fields_spec(fields: Seq<FieldDecl>) -> Result<
    Seq<StructFieldView>,
    CompileError,
>
    decreases fields,
{
    if fields.len() == 0 {
        Ok(Seq::empty())
    } else {
        match fields_spec(fields.drop_last()) {
            Ok(s) => match struct_field_spec(fields.last()) {
                Ok(f) => Ok(s.push(f)),
                Err(e) => Err(e),
            },
            Err(e) => Err(e),
        }
    }
}

proof fn lemma_fields_spec_err(fields: Seq<FieldDecl>, k: int)
    requires
        0 <= k <= fields.len(),
        fields_spec(fields.take(k)) is Err,
    ensures
        fields_spec(fields) == fields_spec(fields.take(k)),
    decreases fields.len(),
{
    if fields.len() > k {
        assert(fields.drop_last().take(k) =~= fields.take(k));
        lemma_fields_spec_err(fields.drop_last(), k);
    } else {
        assert(fields.take(k) =~= fields);
    }
}

/// What compiling a record item yields: the missing-attribute error, the
/// first offending field's error, or the compiled entity.
pub open spec fn struct_spec(
    name: Seq<char>,
    fields: Seq<FieldDecl>,
    attrs: Option<StructAttrsView>,
) -> Result<StructView, CompileError> {
    match attrs {
        None => Err(CompileError::MissingProtoMapAttribute),
        Some(a) => match fields_spec(fields) {
            Ok(fs) => Ok(StructView { name, attrs: a, fields: fs }),
            Err(e) => Err(e),
        },
    }
}

/// The conversion pair synthesized for a record entity: one writing and one
/// reading statement per field, in declaration order.
pub open spec fn struct_impl_spec(s: StructView, b: Backend) -> StructImplView {
    StructImplView {
        name: s.name,
        source: s.attrs.source,
        getters: Seq::new(s.fields.len(), |i: int| getter_stmt_spec(s.fields[i], b)),
        setters: Seq::new(s.fields.len(), |i: int| setter_stmt_spec(s.fields[i], b)),
    }
}

impl Struct {
    /// Compiles a record item: the item-level mapping attribute is required,
    /// and every field must compile.
    pub fn try_from_data(
        name: &str,
        fields: &Vec<FieldDecl>,
        attrs: Option<StructAttrs>,
    ) -> (r: Result<Struct, CompileError>)
        ensures
            (match r {
                Ok(s) => struct_spec(name@, fields@, crate::proto_struct::opt_attrs_view(attrs))
                    == Ok::<StructView, CompileError>(s@),
                Err(e) => struct_spec(name@, fields@, crate::proto_struct::opt_attrs_view(attrs))
                    == Err::<StructView, CompileError>(e),
            }),
    {
        let item_attrs = match attrs {
            Some(a) => a,
            None => {
                return Err(CompileError::MissingProtoMapAttribute);
            },
        };
        let mut compiled: Vec<StructField> = Vec::new();
        let mut i: usize = 0;
        while i < fields.len()
            invariant
                i <= fields@.len(),
                compiled@.len() == i,
                opt_attrs_view(attrs) == Some(item_attrs@),
                fields_spec(fields@.take(i as int)) matches Ok(s) && s =~= Seq::new(
                    compiled@.len(),
                    |j: int| compiled@[j]@,
                ),
            decreases fields@.len() - i,
        {
            proof {
                assert(fields@.take(i as int + 1).drop_last() =~= fields@.take(i as int));
                assert(fields@.take(i as int + 1).last() == fields@[i as int]);
            }
            match StructField::try_from_field(&fields[i]) {
                Ok(f) => {
                    compiled.push(f);
                },
                Err(e) => {
                    proof {
                        assert(fields_spec(fields@.take(i as int + 1)) == Err::<
                            Seq<StructFieldView>,
                            CompileError,
                        >(e));
                        lemma_fields_spec_err(fields@, i as int + 1);
                    }
                    return Err(e);
                },
            }
            proof {
                let s0 = fields_spec(fields@.take(i as int + 1));
                assert(s0 matches Ok(s) && s =~= Seq::new(
                    compiled@.len(),
                    |j: int| compiled@[j]@,
                ));
            }
            i += 1;
        }
        proof {
            assert(fields@.take(fields@.len() as int) =~= fields@);
        }
        let s = Struct { name: name.to_owned(), attrs: item_attrs, fields: compiled };
        proof {
            assert(s@.fields =~= Seq::new(compiled@.len(), |j: int| compiled@[j]@));
        }
        Ok(s)
    }

    /// Synthesizes the conversion pair for this record entity under the given
    /// backend convention.
    pub fn implement_proto_map(&self, backend: Backend) -> (r: StructImpl)
        ensures
            r@ == struct_impl_spec(self@, backend),
    {
        let mut getters: Vec<WriteStmt> = Vec::new();
        let mut setters: Vec<ReadStmt> = Vec::new();
        let mut i: usize = 0;
        while i < self.fields.len()
            invariant
                i <= self.fields@.len(),
                getters@.len() == i,
                setters@.len() == i,
                forall|j: int| 0 <= j < i ==> getters@[j]@ == getter_stmt_spec(
                    self@.fields[j],
                    backend,
                ),
                forall|j: int| 0 <= j < i ==> setters@[j]@ == setter_stmt_spec(
                    self@.fields[j],
                    backend,
                ),
            decreases self.fields@.len() - i,
        {
            let g = self.fields[i].implement_getter(&self.attrs, backend);
            let s = self.fields[i].implement_setter(&self.attrs, backend);
            getters.push(g);
            setters.push(s);
            i += 1;
        }
        let r = StructImpl {
            name: self.name.clone(),
            source: self.attrs.source.duplicate(),
            getters,
            setters,
        };
        proof {
            assert(r@.getters =~= struct_impl_spec(self@, backend).getters);
            assert(r@.setters =~= struct_impl_spec(self@, backend).setters);
        }
        r
    }
}

/// The mathematical shape of an optional record attribute set.
pub open spec fn opt_attrs_view(a: Option<StructAttrs>) -> Option<StructAttrsView> {
    match a {
        Some(a) => Some(a@),
        None => None,
    }
}

} // verus!
