use vstd::prelude::*;

verus! {

use vstd::string::*;
use crate::errors::CompileError;
use crate::input::{FieldDecl, TypeExpr};
use crate::nested_type::{NestedType, NestedTypeView};
use crate::type_scanner::{scan, scan_spec};
use crate::input::str_eq;

broadcast use vstd::string::group_string_axioms;

/// The closed set of scalar kinds with a built-in wire codec.
#[derive(Debug, Clone, Copy, PartialEq, Eq, Structural)]
pub enum ScalarType {
    F32,
    F64,
    U32,
    I32,
    U64,
    I64,
    Bool,
    String,
    VecBytes,
}

/// A field's type descriptor: a scalar of a known kind, or any other
/// (composite) type; either at most one level optional.
#[derive(Debug, Clone, Copy, PartialEq, Eq, Structural)]
pub enum Ty {
    Scalar { ty: ScalarType, optional: bool },
    Other { optional: bool },
}

/// The fixed table of known scalar spellings: the node that spells a scalar
/// kind, matched on the canonical tree.
pub open spec fn scalar_kind_of(t: NestedTypeView) -> Option<ScalarType> {
    match t {
        NestedTypeView::Named { name, args } => {
            if args.len() == 0 {
                if name == "bool"@ {
                    Some(ScalarType::Bool)
                } else if name == "String"@ {
                    Some(ScalarType::String)
                } else if name == "u32"@ {
                    Some(ScalarType::U32)
                } else if name == "i32"@ {
                    Some(ScalarType::I32)
                } else if name == "f32"@ {
                    Some(ScalarType::F32)
                } else if name == "f64"@ {
                    Some(ScalarType::F64)
                } else if name == "u64"@ {
                    Some(ScalarType::U64)
                } else if name == "i64"@ {
                    Some(ScalarType::I64)
                } else {
                    None
                }
            } else if name == "Vec"@ && args.len() == 1 && args[0] == (NestedTypeView::Named {
                name: "u8"@,
                args: Seq::<NestedTypeView>::empty(),
            }) {
                Some(ScalarType::VecBytes)
            } else {
                None
            }
        },
        NestedTypeView::Unnamed { .. } => None,
    }
}

/// The descriptor of a nested type tree: a known scalar spelling, its
/// single-level optional form, an optional composite (any other argument of
/// the single-level optional wrapper), or a plain composite.
pub open spec fn ty_of(t: NestedTypeView) -> Ty {
    match scalar_kind_of(t) {
        Some(k) => Ty::Scalar { ty: k, optional: false },
        None => match t {
            NestedTypeView::Named { name, args } => {
                if name == "Option"@ && args.len() == 1 {
                    match scalar_kind_of(args[0]) {
                        Some(k) => Ty::Scalar { ty: k, optional: true },
                        None => Ty::Other { optional: true },
                    }
                } else if name == "Option"@ && args.len() > 1 {
                    Ty::Other { optional: true }
                } else {
                    Ty::Other { optional: false }
                }
            },
            NestedTypeView::Unnamed { .. } => Ty::Other { optional: false },
        },
    }
}

/// Matches one node against the scalar table.
fn scalar_kind_exec(t: &NestedType) -> (r: Option<ScalarType>)
    ensures
        r == scalar_kind_of(t@),
{
    broadcast use crate::nested_type::lemma_nested_views;

    match t {
        NestedType::Named { name, args } => {
            proof {
                crate::nested_type::lemma_nested_views(args@);
            }
            if args.len() == 0 {
                assert(t@->Named_args =~= Seq::<NestedTypeView>::empty());
                if str_eq(name.as_str(), "bool") {
                    Some(ScalarType::Bool)
                } else if str_eq(name.as_str(), "String") {
                    Some(ScalarType::String)
                } else if str_eq(name.as_str(), "u32") {
                    Some(ScalarType::U32)
                } else if str_eq(name.as_str(), "i32") {
                    Some(ScalarType::I32)
                } else if str_eq(name.as_str(), "f32") {
                    Some(ScalarType::F32)
                } else if str_eq(name.as_str(), "f64") {
                    Some(ScalarType::F64)
                } else if str_eq(name.as_str(), "u64") {
                    Some(ScalarType::U64)
                } else if str_eq(name.as_str(), "i64") {
                    Some(ScalarType::I64)
                } else {
                    None
                }
            } else if str_eq(name.as_str(), "Vec") && args.len() == 1 {
                let inner_is_u8 = match &args[0] {
                    NestedType::Named { name: n2, args: a2 } => {
                        proof {
                            crate::nested_type::lemma_nested_views(a2@);
                        }
                        str_eq(n2.as_str(), "u8") && a2.len() == 0
                    },
                    NestedType::Unnamed { .. } => false,
                };
                let ghost iv = crate::nested_type::nested_view(args@[0]);
                let ghost u8v = (NestedTypeView::Named {
                    name: "u8"@,
                    args: Seq::<NestedTypeView>::empty(),
                });
                if inner_is_u8 {
                    proof {
                        assert(iv matches NestedTypeView::Named { name, args } && name == "u8"@
                            && args =~= Seq::<NestedTypeView>::empty());
                    }
                    Some(ScalarType::VecBytes)
                } else {
                    proof {
                        assert(iv != u8v);
                    }
                    None
                }
            } else {
                None
            }
        },
        NestedType::Unnamed { .. } => None,
    }
}

impl Ty {
    /// The scalar descriptor with the given kind and optionality.
    pub fn scalar(ty: ScalarType, optional: bool) -> (r: Self)
        ensures
            r == (Ty::Scalar { ty, optional }),
    {
        Self::Scalar { ty, optional }
    }

    /// The composite descriptor with the given optionality.
    pub fn other(optional: bool) -> (r: Self)
        ensures
            r == (Ty::Other { optional }),
    {
        Self::Other { optional }
    }

    pub open spec fn is_optional_spec(&self) -> bool {
        match self {
            Ty::Scalar { optional, .. } => *optional,
            Ty::Other { optional } => *optional,
        }
    }

    /// Whether the descriptor is single-level optional.
    pub fn is_optional(&self) -> (r: bool)
        ensures
            r == self.is_optional_spec(),
    {
        match self {
            Ty::Scalar { optional, .. } => *optional,
            Ty::Other { optional } => *optional,
        }
    }

    pub open spec fn is_scalar_spec(&self) -> bool {
        self matches Ty::Scalar { .. }
    }

    /// Whether the descriptor is a known scalar kind.
    pub fn is_scalar(&self) -> (r: bool)
        ensures
            r == self.is_scalar_spec(),
    {
        match self {
            Ty::Scalar { .. } => true,
            Ty::Other { .. } => false,
        }
    }

    /// Classifies one node of a nested type tree against the scalar table.
    pub fn from_nested(value: &NestedType) -> (r: Self)
        ensures
            r == ty_of(value@),
    {
        broadcast use crate::nested_type::lemma_nested_views;

        match scalar_kind_exec(value) {
            Some(k) => Ty::Scalar { ty: k, optional: false },
            None => match value {
                NestedType::Named { name, args } => {
                    proof {
                        crate::nested_type::lemma_nested_views(args@);
                    }
                    if str_eq(name.as_str(), "Option") && args.len() == 1 {
                        match scalar_kind_exec(&args[0]) {
                            Some(k) => Ty::Scalar { ty: k, optional: true },
                            None => Ty::Other { optional: true },
                        }
                    } else if str_eq(name.as_str(), "Option") && args.len() > 1 {
                        Ty::Other { optional: true }
                    } else {
                        Ty::Other { optional: false }
                    }
                },
                NestedType::Unnamed { .. } => Ty::Other { optional: false },
            },
        }
    }

    /// What classifying a declared field type yields: the descriptor of the
    /// scanned path type, or the shape error for a non-path type.
    pub open spec fn try_from_field_spec(field: FieldDecl) -> Result<Ty, CompileError> {
        match field.ty@ {
            crate::input::TypeExprView::Path(p) => Ok(ty_of(scan_spec(p))),
            _ => Err(CompileError::NonPathFieldType),
        }
    }

    /// Scans a declared field type and classifies it; only path types are
    /// supported.
    pub fn try_from_field(field: &FieldDecl) -> (r: Result<Self, CompileError>)
        ensures
            r == Self::try_from_field_spec(*field),
    {
        match &field.ty {
            TypeExpr::Path(path) => {
                let nested_type = scan(path);
                Ok(Ty::from_nested(&nested_type))
            },
            _ => Err(CompileError::NonPathFieldType),
        }
    }
}

} // verus!
