use vstd::prelude::*;

verus! {

use crate::attributes::{attrs_view, FieldAttrs, FieldAttrsView};
use crate::ty::Ty;

/// The conversion path resolved for one field, by the fixed precedence order
/// over its attribute overrides and its type descriptor.
#[derive(Debug, PartialEq, Eq)]
pub enum Strategy {
    /// The field is left out of the mapping.
    Skip,
    /// The built-in scalar codec.
    BuiltinScalar,
    /// The recursive composite conversion of the field's own entity type.
    BuiltinComposite,
    /// The enumeration conversion; the two backends carry it differently.
    Enumeration,
    /// A scalar-shaped override pair supplied by the named module.
    OverrideScalar(String),
    /// A composite-shaped override pair supplied by the named module.
    OverrideComposite(String),
}

/// The mathematical shape of a `Strategy`.
pub enum StrategyView {
    Skip,
    BuiltinScalar,
    BuiltinComposite,
    Enumeration,
    OverrideScalar(Seq<char>),
    OverrideComposite(Seq<char>),
}

impl View for Strategy {
    type V = StrategyView;

    open spec fn view(&self) -> StrategyView {
        match self {
            Strategy::Skip => StrategyView::Skip,
            Strategy::BuiltinScalar => StrategyView::BuiltinScalar,
            Strategy::BuiltinComposite => StrategyView::BuiltinComposite,
            Strategy::Enumeration => StrategyView::Enumeration,
            Strategy::OverrideScalar(m) => StrategyView::OverrideScalar(m@),
            Strategy::OverrideComposite(m) => StrategyView::OverrideComposite(m@),
        }
    }
}

/// The decision table shared by both backends, evaluated top to bottom, first
/// match wins: skip; the scalar and enumeration markers without an override;
/// a scalar-shaped override (a marker is set, or the descriptor is scalar); a
/// composite-shaped override; the defaults by descriptor alone.
pub open spec fn resolve_spec(ty: Ty, attrs: Option<FieldAttrsView>) -> StrategyView {
    match attrs {
        Some(a) => if a.skip {
            StrategyView::Skip
        } else {
            match a.with {
                None => if a.scalar {
                    StrategyView::BuiltinScalar
                } else if a.enumeration {
                    StrategyView::Enumeration
                } else if ty.is_scalar_spec() {
                    StrategyView::BuiltinScalar
                } else {
                    StrategyView::BuiltinComposite
                },
                Some(m) => if a.scalar || a.enumeration || ty.is_scalar_spec() {
                    StrategyView::OverrideScalar(m)
                } else {
                    StrategyView::OverrideComposite(m)
                },
            }
        },
        None => if ty.is_scalar_spec() {
            StrategyView::BuiltinScalar
        } else {
            StrategyView::BuiltinComposite
        },
    }
}

/// The attribute set with the skip marker cleared: what the conversion-path
/// selection consults (the skip marker is handled before it).
pub open spec fn clear_skip(attrs: Option<FieldAttrsView>) -> Option<FieldAttrsView> {
    match attrs {
        Some(a) => Some(
            FieldAttrsView {
                skip: false,
                scalar: a.scalar,
                enumeration: a.enumeration,
                with: a.with,
                rename: a.rename,
            },
        ),
        None => None,
    }
}

/// The conversion invocation that carries a resolved strategy, per backend:
/// the enumeration strategy is scalar-shaped under the field convention (the
/// wire carries a plain numeric code) and composite-shaped under the accessor
/// convention (the wire enumeration is a distinct type with its own
/// conversion); a skipped field emits no conversion at all, so its
/// invocation is never consulted.
pub open spec fn strategy_method(s: StrategyView, b: crate::code::Backend) -> crate::code::ConvMethodView {
    match s {
        StrategyView::Skip => crate::code::ConvMethodView::BuiltinScalar,
        StrategyView::BuiltinScalar => crate::code::ConvMethodView::BuiltinScalar,
        StrategyView::BuiltinComposite => crate::code::ConvMethodView::BuiltinProto,
        StrategyView::Enumeration => match b {
            crate::code::Backend::Prost => crate::code::ConvMethodView::BuiltinScalar,
            crate::code::Backend::Protobuf => crate::code::ConvMethodView::BuiltinProto,
        },
        StrategyView::OverrideScalar(m) => crate::code::ConvMethodView::WithScalar(m),
        StrategyView::OverrideComposite(m) => crate::code::ConvMethodView::WithProto(m),
    }
}

/// The conversion invocation selected for a field: the decision table with
/// the skip marker set aside (both directions of the conversion share it).
pub open spec fn method_spec(ty: Ty, attrs: Option<FieldAttrsView>, b: crate::code::Backend) -> crate::code::ConvMethodView {
    strategy_method(resolve_spec(ty, clear_skip(attrs)), b)
}

/// Resolves one field's conversion strategy from its descriptor and its
/// attribute overrides.
pub fn resolve(ty: &Ty, attrs: &Option<FieldAttrs>) -> (r: Strategy)
    ensures
        r@ == resolve_spec(*ty, attrs_view(*attrs)),
{
    match attrs {
        Some(a) => {
            if a.skip {
                Strategy::Skip
            } else {
                match &a.with {
                    None => if a.scalar {
                        Strategy::BuiltinScalar
                    } else if a.enumeration {
                        Strategy::Enumeration
                    } else if ty.is_scalar() {
                        Strategy::BuiltinScalar
                    } else {
                        Strategy::BuiltinComposite
                    },
                    Some(m) => if a.scalar || a.enumeration || ty.is_scalar() {
                        Strategy::OverrideScalar(m.clone())
                    } else {
                        Strategy::OverrideComposite(m.clone())
                    },
                }
            }
        },
        None => if ty.is_scalar() {
            Strategy::BuiltinScalar
        } else {
            Strategy::BuiltinComposite
        },
    }
}

} // verus!
