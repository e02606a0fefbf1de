use vstd::prelude::*;

verus! {

use vstd::string::*;
use crate::code::{Backend, ProtoMapImpl, ProtoMapImplView};
use crate::errors::CompileError;
use crate::input::ItemDecl;
use crate::proto_enum::{enum_spec, opt_enum_attrs_view, Enum, EnumView};
use crate::proto_struct::{opt_attrs_view, struct_impl_spec, struct_spec, Struct, StructView};
use crate::rename::{snake_case_of, to_snake_case};

/// One compiled entity: a record or a sum type.
#[derive(Debug)]
pub enum ProtoMap {
    Struct(Struct),
    Enum(Enum),
}

/// The mathematical shape of a `ProtoMap`.
pub enum ProtoMapView {
    Struct(StructView),
    Enum(EnumView),
}

impl View for ProtoMap {
    type V = ProtoMapView;

    open spec fn view(&self) -> ProtoMapView {
        match self {
            ProtoMap::Struct(s) => ProtoMapView::Struct(s@),
            ProtoMap::Enum(e) => ProtoMapView::Enum(e@),
        }
    }
}

impl ProtoMapView {
    /// The compiled entity's domain name.
    pub open spec fn name(self) -> Seq<char> {
        match self {
            ProtoMapView::Struct(s) => s.name,
            ProtoMapView::Enum(e) => e.name,
        }
    }

    /// What synthesizing the entity's conversion pair relies on: a sum type's
    /// renaming convention is recognized, and a oneof-shaped sum type has its
    /// tag field, its wire type reference and every variant's payload.
    pub open spec fn impl_ready(self) -> bool {
        match self {
            ProtoMapView::Struct(_) => true,
            ProtoMapView::Enum(e) => e.rename_ok() && (!e.attrs.is_enumeration()
                ==> e.one_of_ready()),
        }
    }
}

/// What compiling an annotated item yields: the compiled record or sum type,
/// or the shape error for any other item.
pub open spec fn from_derive_input_spec(input: ItemDecl) -> Result<ProtoMapView, CompileError> {
    match input {
        ItemDecl::Struct { name, attrs, fields } => match struct_spec(
            name@,
            fields@,
            opt_attrs_view(attrs),
        ) {
            Ok(s) => Ok(ProtoMapView::Struct(s)),
            Err(e) => Err(e),
        },
        ItemDecl::Enum { name, attrs, variants } => match enum_spec(
            name@,
            variants@,
            opt_enum_attrs_view(attrs),
        ) {
            Ok(v) => Ok(ProtoMapView::Enum(v)),
            Err(e) => Err(e),
        },
        ItemDecl::Other => Err(CompileError::UnsupportedItemShape),
    }
}

impl ProtoMap {
    /// The compiled entity's domain name.
    pub fn name(&self) -> (r: &String)
        ensures
            r@ == self@.name(),
    {
        match self {
            ProtoMap::Struct(inner) => &inner.name,
            ProtoMap::Enum(inner) => &inner.name,
        }
    }

    /// Compiles an annotated item: records and sum types are supported, any
    /// other shape is rejected.
    pub fn from_derive_input(input: &ItemDecl) -> (r: Result<ProtoMap, CompileError>)
        ensures
            (match r {
                Ok(m) => from_derive_input_spec(*input) == Ok::<ProtoMapView, CompileError>(m@),
                Err(e) => from_derive_input_spec(*input) == Err::<ProtoMapView, CompileError>(e),
            }),
    {
        match input {
            ItemDecl::Struct { name, attrs, fields } => {
                let attrs = match attrs {
                    Some(a) => Some(a.duplicate()),
                    None => None,
                };
                match Struct::try_from_data(name.as_str(), fields, attrs) {
                    Ok(s) => Ok(ProtoMap::Struct(s)),
                    Err(e) => Err(e),
                }
            },
            ItemDecl::Enum { name, attrs, variants } => {
                let attrs = match attrs {
                    Some(a) => Some(a.duplicate()),
                    None => None,
                };
                match Enum::try_from_data(name.as_str(), variants, attrs) {
                    Ok(v) => Ok(ProtoMap::Enum(v)),
                    Err(e) => Err(e),
                }
            },
            ItemDecl::Other => Err(CompileError::UnsupportedItemShape),
        }
    }

    /// Synthesizes the entity's conversion pair under the given backend
    /// convention.
    pub fn implement_proto_map(&self, backend: Backend) -> (r: ProtoMapImpl)
        requires
            self@.impl_ready(),
        ensures
            (match self@ {
                ProtoMapView::Struct(s) => r@ == ProtoMapImplView::Struct(
                    struct_impl_spec(s, backend),
                ),
                ProtoMapView::Enum(e) => if e.attrs.is_enumeration() {
                    r@ == ProtoMapImplView::Enumeration(
                        crate::proto_enum::enumeration_impl_spec(e),
                    )
                } else {
                    r@ == ProtoMapImplView::OneOf(crate::proto_enum::one_of_impl_spec(e))
                },
            }),
    {
        match self {
            ProtoMap::Struct(data) => ProtoMapImpl::Struct(data.implement_proto_map(backend)),
            ProtoMap::Enum(data) => data.implement_proto_map(),
        }
    }

    /// The name of the module the synthesized implementation is wrapped in:
    /// the entity's name in snake case behind a fixed prefix.
    pub fn module_name(&self) -> (r: String)
        ensures
            r@ == "proto_map_impl_"@ + snake_case_of(self@.name()),
    {
        let snake = to_snake_case(self.name().as_str());
        let prefix: String = "proto_map_impl_".to_owned();
        prefix.concat(snake.as_str())
    }
}

} // verus!
