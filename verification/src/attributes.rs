use vstd::prelude::*;

verus! {

use crate::errors::CompileError;
use crate::input::{clone_opt_string, opt_view, path_view, PathExpr, PathExprView};

/// Item-level attributes of a record entity: the wire type it maps to, and an
/// optional renaming policy for its fields.
#[derive(Debug)]
pub struct StructAttrs {
    pub source: PathExpr,
    /// Optional renaming of the record fields before mapping to the wire entity.
    pub rename_all: Option<String>,
}

/// The mathematical shape of a `StructAttrs`.
pub struct StructAttrsView {
    pub source: PathExprView,
    pub rename_all: Option<Seq<char>>,
}

impl View for StructAttrs {
    type V = StructAttrsView;

    open spec fn view(&self) -> StructAttrsView {
        StructAttrsView { source: path_view(self.source), rename_all: opt_view(self.rename_all) }
    }
}

/// Field-level attributes of a record entity.
#[derive(Debug, PartialEq, Eq)]
pub struct FieldAttrs {
    /// Leave the field out of the wire mapping.
    pub skip: bool,
    /// Treat the field as a scalar mapping.
    pub scalar: bool,
    /// Treat the field as an enumeration mapping (it decides the presence
    /// check of optional fields, and the conversion path per backend).
    pub enumeration: bool,
    /// A module supplying an override conversion pair (scalar-shaped or
    /// composite-shaped, depending on the other markers and the field type).
    pub with: Option<String>,
    /// Renaming of this one field before mapping to the wire entity.
    pub rename: Option<String>,
}

impl StructAttrs {
    /// Copies the attribute set; the copy holds the same values.
    pub fn duplicate(&self) -> (r: StructAttrs)
        ensures
            r@ == self@,
    {
        StructAttrs {
            source: self.source.duplicate(),
            rename_all: clone_opt_string(&self.rename_all),
        }
    }
}

/// The mathematical shape of a `FieldAttrs`.
pub struct FieldAttrsView {
    pub skip: bool,
    pub scalar: bool,
    pub enumeration: bool,
    pub with: Option<Seq<char>>,
    pub rename: Option<Seq<char>>,
}

impl View for FieldAttrs {
    type V = FieldAttrsView;

    open spec fn view(&self) -> FieldAttrsView {
        FieldAttrsView {
            skip: self.skip,
            scalar: self.scalar,
            enumeration: self.enumeration,
            with: opt_view(self.with),
            rename: opt_view(self.rename),
        }
    }
}

impl Default for FieldAttrs {
    /// All markers off: the field maps by its declared type alone.
    fn default() -> (r: FieldAttrs)
        ensures
            r == (FieldAttrs {
                skip: false,
                scalar: false,
                enumeration: false,
                with: None::<String>,
                rename: None::<String>,
            }),
    {
        FieldAttrs { skip: false, scalar: false, enumeration: false, with: None, rename: None }
    }
}

impl FieldAttrs {
    /// Copies the attribute set; the copy holds the same values.
    pub fn duplicate(&self) -> (r: FieldAttrs)
        ensures
            r == *self,
    {
        FieldAttrs {
            skip: self.skip,
            scalar: self.scalar,
            enumeration: self.enumeration,
            with: clone_opt_string(&self.with),
            rename: clone_opt_string(&self.rename),
        }
    }

    /// Rejects the attribute set when the mutually exclusive markers `scalar`
    /// and `enumeration` are both given; otherwise hands it back unchanged.
    pub fn validate(self) -> (r: Result<FieldAttrs, CompileError>)
        ensures
            !(self.scalar && self.enumeration) <==> r is Ok,
            r matches Ok(a) ==> a == self,
            r matches Err(e) ==> e == CompileError::FieldAttrsMutuallyExclusive,
    {
        if self.enumeration && self.scalar {
            return Err(CompileError::FieldAttrsMutuallyExclusive);
        }
        Ok(self)
    }
}

/// The mathematical shape of an optional field attribute set.
pub open spec fn attrs_view(a: Option<FieldAttrs>) -> Option<FieldAttrsView> {
    match a {
        Some(a) => Some(a@),
        None => None,
    }
}

/// The tag-field reference of a oneof-shaped sum type: which wire member is
/// the tagged-union accessor.
#[derive(Debug, PartialEq, Eq)]
pub struct OneOf {
    pub field: String,
}

/// Item-level attributes of a sum-type entity.
#[derive(Debug)]
pub struct EnumAttrs {
    /// The wire entity the sum type maps to.
    pub source: PathExpr,
    /// The sum type maps to a wire entity with a oneof structure. Mutually
    /// exclusive with `enumeration`.
    pub one_of: Option<OneOf>,
    /// The sum type is a plain closed enumeration. Mutually exclusive with
    /// `one_of`.
    pub enumeration: Option<bool>,
    /// Optional renaming of the variants before mapping to the wire entity.
    pub rename_variants: Option<String>,
}

/// The mathematical shape of an `EnumAttrs`.
pub struct EnumAttrsView {
    pub source: PathExprView,
    pub one_of: Option<Seq<char>>,
    pub enumeration: Option<bool>,
    pub rename_variants: Option<Seq<char>>,
}

impl View for EnumAttrs {
    type V = EnumAttrsView;

    open spec fn view(&self) -> EnumAttrsView {
        EnumAttrsView {
            source: path_view(self.source),
            one_of: match self.one_of {
                Some(OneOf { field }) => Some(field@),
                None => None,
            },
            enumeration: self.enumeration,
            rename_variants: opt_view(self.rename_variants),
        }
    }
}

impl EnumAttrs {
    /// Copies the attribute set; the copy holds the same values.
    pub fn duplicate(&self) -> (r: EnumAttrs)
        ensures
            r@ == self@,
    {
        EnumAttrs {
            source: self.source.duplicate(),
            one_of: match &self.one_of {
                Some(OneOf { field }) => Some(OneOf { field: field.clone() }),
                None => None,
            },
            enumeration: self.enumeration,
            rename_variants: clone_opt_string(&self.rename_variants),
        }
    }
}

impl EnumAttrsView {
    pub open spec fn is_enumeration(&self) -> bool {
        self.enumeration matches Some(true)
    }
}

impl EnumAttrs {
    pub open spec fn is_enumeration_spec(&self) -> bool {
        self.enumeration matches Some(true)
    }

    /// Whether the sum type is marked as a plain enumeration.
    pub fn is_enumeration(&self) -> (r: bool)
        ensures
            r == self.is_enumeration_spec(),
    {
        match self.enumeration {
            Some(e) => e,
            None => false,
        }
    }

    /// Rejects the attribute set when the mutually exclusive markers
    /// `enumeration` and `one_of` are both given; otherwise hands it back
    /// unchanged.
    pub fn validate(self) -> (r: Result<EnumAttrs, CompileError>)
        ensures
            !(self.is_enumeration_spec() && self.one_of is Some) <==> r is Ok,
            r matches Ok(a) ==> a == self,
            r matches Err(e) ==> e == CompileError::EnumAttrsMutuallyExclusive,
    {
        if self.is_enumeration() && self.one_of.is_some() {
            return Err(CompileError::EnumAttrsMutuallyExclusive);
        }
        Ok(self)
    }
}

} // verus!
