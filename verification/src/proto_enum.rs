use vstd::prelude::*;

verus! {

use crate::attributes::{EnumAttrs, EnumAttrsView};
use crate::code::{
    EnumerationArm, EnumerationArmView, EnumerationImpl, EnumerationImplView, OneOfArm,
    OneOfArmView, OneOfImpl, OneOfImplView, ProtoMapImpl,
};
use crate::errors::CompileError;
use crate::input::{path_view, PathExpr, PathExprView, TypeExpr, VariantDecl, VariantFields};
use crate::rename::{
    rename_case_valid, rename_item, shouty_snake_case_of, snake_case_of, snake_case_value,
    to_snake_case, to_upper_camel_case, upper_camel_case_of,
};

/// One compiled variant of a sum-type entity: its name, and its single
/// payload type for oneof-shaped entities (`None` for plain enumerations).
#[derive(Debug)]
pub struct EnumVariant {
    pub name: String,
    pub field_name: Option<PathExpr>,
}

/// The mathematical shape of an `EnumVariant`.
pub struct EnumVariantView {
    pub name: Seq<char>,
    pub field_name: Option<PathExprView>,
}

impl View for EnumVariant {
    type V = EnumVariantView;

    open spec fn view(&self) -> EnumVariantView {
        EnumVariantView {
            name: self.name@,
            field_name: match self.field_name {
                Some(p) => Some(path_view(p)),
                None => None,
            },
        }
    }
}

/// What compiling a variant of an enumeration-shaped entity yields: the
/// variant must carry no payload fields, unnamed or named.
pub open spec fn enumeration_variant_spec(v: VariantDecl) -> Result<EnumVariantView, CompileError> {
    match v.fields {
        VariantFields::Unnamed(tys) => if tys@.len() > 0 {
            Err(CompileError::EnumerationVariantWithPayload)
        } else {
            Ok(EnumVariantView { name: v.name@, field_name: None })
        },
        VariantFields::Named(n) => if n > 0 {
            Err(CompileError::EnumerationVariantWithPayload)
        } else {
            Ok(EnumVariantView { name: v.name@, field_name: None })
        },
        VariantFields::Unit => Ok(EnumVariantView { name: v.name@, field_name: None }),
    }
}

/// What compiling a variant of a oneof-shaped entity yields: the variant must
/// carry exactly one unnamed payload of a path type.
pub open spec fn unnamed_variant_spec(v: VariantDecl) -> Result<EnumVariantView, CompileError> {
    match v.fields {
        VariantFields::Unnamed(tys) => if tys@.len() != 1 {
            Err(CompileError::OneOfVariantShape)
        } else {
            match tys@[0]@ {
                crate::input::TypeExprView::Path(p) => Ok(
                    EnumVariantView { name: v.name@, field_name: Some(p) },
                ),
                _ => Err(CompileError::OneOfVariantShape),
            }
        },
        _ => Err(CompileError::OneOfVariantShape),
    }
}

impl EnumVariant {
    /// Compiles a variant of an enumeration-shaped entity; a variant with
    /// payload fields, unnamed or named, is rejected.
    pub fn try_from_enumeration_variant(variant: &VariantDecl) -> (r: Result<
        EnumVariant,
        CompileError,
    >)
        ensures
            (match r {
                Ok(v) => enumeration_variant_spec(*variant) == Ok::<EnumVariantView, CompileError>(
                    v@,
                ),
                Err(e) => enumeration_variant_spec(*variant) == Err::<
                    EnumVariantView,
                    CompileError,
                >(e),
            }),
    {
        match &variant.fields {
            VariantFields::Unnamed(tys) => {
                if tys.len() > 0 {
                    return Err(CompileError::EnumerationVariantWithPayload);
                }
            },
            VariantFields::Named(n) => {
                if *n > 0 {
                    return Err(CompileError::EnumerationVariantWithPayload);
                }
            },
            VariantFields::Unit => {},
        }
        Ok(EnumVariant { name: variant.name.clone(), field_name: None })
    }

    /// Compiles a variant of a oneof-shaped entity; the variant must carry
    /// exactly one unnamed payload of a path type.
    pub fn try_from_unnamed_variant(variant: &VariantDecl) -> (r: Result<EnumVariant, CompileError>)
        ensures
            (match r {
                Ok(v) => unnamed_variant_spec(*variant) == Ok::<EnumVariantView, CompileError>(v@),
                Err(e) => unnamed_variant_spec(*variant) == Err::<EnumVariantView, CompileError>(e),
            }),
    {
        if let VariantFields::Unnamed(tys) = &variant.fields {
            if tys.len() != 1 {
                return Err(CompileError::OneOfVariantShape);
            }
            match &tys[0] {
                TypeExpr::Path(p) => Ok(
                    EnumVariant { name: variant.name.clone(), field_name: Some(p.duplicate()) },
                ),
                _ => Err(CompileError::OneOfVariantShape),
            }
        } else {
            Err(CompileError::OneOfVariantShape)
        }
    }
}

/// One compiled sum-type entity.
#[derive(Debug)]
pub struct Enum {
    pub name: String,
    pub attrs: EnumAttrs,
    pub variants: Vec<EnumVariant>,
}

/// The mathematical shape of an `Enum`.
pub struct EnumView {
    pub name: Seq<char>,
    pub attrs: EnumAttrsView,
    pub variants: Seq<EnumVariantView>,
}

impl View for Enum {
    type V = EnumView;

    open spec fn view(&self) -> EnumView {
        EnumView {
            name: self.name@,
            attrs: self.attrs@,
            variants: Seq::new(self.variants@.len(), |i: int| self.variants@[i]@),
        }
    }
}

impl EnumView {
    /// Whether the variant renaming convention, if any, is a recognized one.
    pub open spec fn rename_ok(self) -> bool {
        match self.attrs.rename_variants {
            None => true,
            Some(c) => rename_case_valid(c),
        }
    }

    /// What a oneof-shaped entity's synthesis relies on: the tag field is
    /// declared, the wire type reference has at least one segment, and every
    /// variant carries its payload type.
    pub open spec fn one_of_ready(self) -> bool {
        &&& self.attrs.one_of is Some
        &&& self.attrs.source.segments.len() > 0
        &&& forall|i: int| 0 <= i < self.variants.len() ==> self.variants[i].field_name is Some
    }
}

/// The wire-side name of a variant: the variant's own name rewritten under
/// the entity's renaming convention, or kept as it is.
pub open spec fn proto_variant_name_spec(attrs: EnumAttrsView, name: Seq<char>) -> Seq<char> {
    match attrs.rename_variants {
        None => name,
        Some(c) => if c == snake_case_value() {
            snake_case_of(name)
        } else {
            shouty_snake_case_of(name)
        },
    }
}

/// What compiling a sequence of declared variants yields: the compiled
/// variants in order, or the first variant's error. Enumeration-shaped and
/// oneof-shaped entities validate their variants differently.
pub open spec fn variants_spec(variants: Seq<VariantDecl>, enumeration: bool) -> Result<
    Seq<EnumVariantView>,
    CompileError,
>
    decreases variants,
{
    if variants.len() == 0 {
        Ok(Seq::empty())
    } else {
        match variants_spec(variants.drop_last(), enumeration) {
            Ok(s) => {
                let last = if enumeration {
                    enumeration_variant_spec(variants.last())
                } else {
                    unnamed_variant_spec(variants.last())
                };
                match last {
                    Ok(v) => Ok(s.push(v)),
                    Err(e) => Err(e),
                }
            },
            Err(e) => Err(e),
        }
    }
}

proof fn lemma_variants_spec_err(variants: Seq<VariantDecl>, enumeration: bool, k: int)
    requires
        0 <= k <= variants.len(),
        variants_spec(variants.take(k), enumeration) is Err,
    ensures
        variants_spec(variants, enumeration) == variants_spec(variants.take(k), enumeration),
    decreases variants.len(),
{
    if variants.len() > k {
        assert(variants.drop_last().take(k) =~= variants.take(k));
        lemma_variants_spec_err(variants.drop_last(), enumeration, k);
    } else {
        assert(variants.take(k) =~= variants);
    }
}

/// The mathematical shape of an optional sum-type attribute set.
pub open spec fn opt_enum_attrs_view(a: Option<EnumAttrs>) -> Option<EnumAttrsView> {
    match a {
        Some(a) => Some(a@),
        None => None,
    }
}

/// What compiling a sum-type item yields: the missing-attribute error, the
/// mutual-exclusion error, the first offending variant's error, or the
/// compiled entity.
pub open spec fn enum_spec(
    name: Seq<char>,
    variants: Seq<VariantDecl>,
    attrs: Option<EnumAttrsView>,
) -> Result<EnumView, CompileError> {
    match attrs {
        None => Err(CompileError::MissingProtoMapAttribute),
        Some(a) => if a.is_enumeration() && a.one_of is Some {
            Err(CompileError::EnumAttrsMutuallyExclusive)
        } else {
            match variants_spec(variants, a.is_enumeration()) {
                Ok(vs) => Ok(EnumView { name, attrs: a, variants: vs }),
                Err(e) => Err(e),
            }
        },
    }
}

/// The two-way match table synthesized for an enumeration-shaped entity.
pub open spec fn enumeration_impl_spec(v: EnumView) -> EnumerationImplView {
    EnumerationImplView {
        name: v.name,
        source: v.attrs.source,
        arms: Seq::new(
            v.variants.len(),
            |i: int|
                EnumerationArmView {
                    variant: v.variants[i].name,
                    proto_variant: proto_variant_name_spec(v.attrs, v.variants[i].name),
                },
        ),
    }
}

/// The tagged-union match pair synthesized for a oneof-shaped entity: the tag
/// field's wire enumeration lives in a module named by the wire type's last
/// segment in snake case, under a type named by the tag field in upper camel
/// case.
pub open spec fn one_of_impl_spec(v: EnumView) -> OneOfImplView {
    OneOfImplView {
        name: v.name,
        source: v.attrs.source,
        one_of_field: v.attrs.one_of->0,
        one_of_module: snake_case_of(v.attrs.source.segments.last()),
        one_of_enum_variant: upper_camel_case_of(v.attrs.one_of->0),
        arms: Seq::new(
            v.variants.len(),
            |i: int|
                OneOfArmView {
                    variant: v.variants[i].name,
                    proto_variant: proto_variant_name_spec(v.attrs, v.variants[i].name),
                    payload: v.variants[i].field_name->0,
                },
        ),
    }
}

impl Enum {
    /// Compiles a sum-type item: the item-level mapping attribute is
    /// required and must be consistent, and every variant must fit the
    /// entity's shape.
    pub fn try_from_data(
        name: &str,
        variants: &Vec<VariantDecl>,
        attrs: Option<EnumAttrs>,
    ) -> (r: Result<Enum, CompileError>)
        ensures
            (match r {
                Ok(v) => enum_spec(name@, variants@, opt_enum_attrs_view(attrs)) == Ok::<
                    EnumView,
                    CompileError,
                >(v@),
                Err(e) => enum_spec(name@, variants@, opt_enum_attrs_view(attrs)) == Err::<
                    EnumView,
                    CompileError,
                >(e),
            }),
    {
        let item_attrs = match attrs {
            Some(a) => a,
            None => {
                return Err(CompileError::MissingProtoMapAttribute);
            },
        };
        let item_attrs = match item_attrs.validate() {
            Ok(a) => a,
            Err(e) => {
                return Err(e);
            },
        };
        let enumeration = item_attrs.is_enumeration();
        let mut compiled: Vec<EnumVariant> = Vec::new();
        let mut i: usize = 0;
        while i < variants.len()
            invariant
                i <= variants@.len(),
                compiled@.len() == i,
                opt_enum_attrs_view(attrs) == Some(item_attrs@),
                enumeration == item_attrs@.is_enumeration(),
                !(item_attrs@.is_enumeration() && item_attrs@.one_of is Some),
                variants_spec(variants@.take(i as int), enumeration) matches Ok(s) && s
                    =~= Seq::new(compiled@.len(), |j: int| compiled@[j]@),
            decreases variants@.len() - i,
        {
            proof {
                assert(variants@.take(i as int + 1).drop_last() =~= variants@.take(i as int));
                assert(variants@.take(i as int + 1).last() == variants@[i as int]);
            }
            let compiled_variant = if enumeration {
                EnumVariant::try_from_enumeration_variant(&variants[i])
            } else {
                EnumVariant::try_from_unnamed_variant(&variants[i])
            };
            match compiled_variant {
                Ok(v) => {
                    compiled.push(v);
                },
                Err(e) => {
                    proof {
                        assert(variants_spec(variants@.take(i as int + 1), enumeration) == Err::<
                            Seq<EnumVariantView>,
                            CompileError,
                        >(e));
                        lemma_variants_spec_err(variants@, enumeration, i as int + 1);
                    }
                    return Err(e);
                },
            }
            proof {
                let s0 = variants_spec(variants@.take(i as int + 1), enumeration);
                assert(s0 matches Ok(s) && s =~= Seq::new(compiled@.len(), |j: int| compiled@[j]@));
            }
            i += 1;
        }
        proof {
            assert(variants@.take(variants@.len() as int) =~= variants@);
        }
        let v = Enum { name: name.to_owned(), attrs: item_attrs, variants: compiled };
        proof {
            assert(v@.variants =~= Seq::new(compiled@.len(), |j: int| compiled@[j]@));
        }
        Ok(v)
    }

    /// Whether this entity's variant renaming convention, if any, is one of
    /// the recognized spellings.
    pub fn rename_valid(&self) -> (r: bool)
        ensures
            r == self@.rename_ok(),
    {
        match &self.attrs.rename_variants {
            None => true,
            Some(c) => crate::input::str_eq(c.as_str(), "snake_case") || crate::input::str_eq(
                c.as_str(),
                "STREAMING_SNAKE_CASE",
            ),
        }
    }

    /// The wire-side name of one variant under this entity's renaming
    /// convention.
    pub fn get_proto_variant_name(&self, variant: &EnumVariant) -> (r: String)
        requires
            self@.rename_ok(),
        ensures
            r@ == proto_variant_name_spec(self@.attrs, variant@.name),
    {
        if let Some(rename_variants) = &self.attrs.rename_variants {
            match rename_item(variant.name.as_str(), rename_variants.as_str()) {
                Ok(renamed) => renamed,
                Err(_) => {
                    proof {
                        assert(false);
                    }
                    String::new()
                },
            }
        } else {
            variant.name.clone()
        }
    }

    /// Synthesizes the two-way match table of an enumeration-shaped entity:
    /// one arm per variant, in declaration order, carrying the renamed
    /// wire-side name.
    pub fn implement_enumeration(&self) -> (r: EnumerationImpl)
        requires
            self@.rename_ok(),
        ensures
            r@ == enumeration_impl_spec(self@),
    {
        let mut arms: Vec<EnumerationArm> = Vec::new();
        let mut i: usize = 0;
        while i < self.variants.len()
            invariant
                i <= self.variants@.len(),
                arms@.len() == i,
                self@.rename_ok(),
                forall|j: int| 0 <= j < i ==> arms@[j]@ == (EnumerationArmView {
                    variant: self@.variants[j].name,
                    proto_variant: proto_variant_name_spec(self@.attrs, self@.variants[j].name),
                }),
            decreases self.variants@.len() - i,
        {
            let proto_variant = self.get_proto_variant_name(&self.variants[i]);
            arms.push(EnumerationArm { variant: self.variants[i].name.clone(), proto_variant });
            i += 1;
        }
        let r = EnumerationImpl {
            name: self.name.clone(),
            source: self.attrs.source.duplicate(),
            arms,
        };
        proof {
            assert(r@.arms =~= enumeration_impl_spec(self@).arms);
        }
        r
    }

    /// Synthesizes the tagged-union match pair of a oneof-shaped entity: the
    /// writer stores each variant's converted payload through the tag field's
    /// variant-specific accessor, the reader matches the wire tag's current
    /// variant.
    pub fn implement_one_of(&self) -> (r: OneOfImpl)
        requires
            self@.rename_ok(),
            self@.one_of_ready(),
        ensures
            r@ == one_of_impl_spec(self@),
    {
        let one_of_field = match &self.attrs.one_of {
            Some(o) => o.field.clone(),
            None => {
                proof {
                    assert(false);
                }
                String::new()
            },
        };
        let last_segment = &self.attrs.source.segments[self.attrs.source.segments.len() - 1];
        let one_of_module = to_snake_case(last_segment.as_str());
        let one_of_enum_variant = to_upper_camel_case(one_of_field.as_str());
        let mut arms: Vec<OneOfArm> = Vec::new();
        let mut i: usize = 0;
        while i < self.variants.len()
            invariant
                i <= self.variants@.len(),
                arms@.len() == i,
                self@.rename_ok(),
                self@.one_of_ready(),
                forall|j: int| 0 <= j < i ==> arms@[j]@ == (OneOfArmView {
                    variant: self@.variants[j].name,
                    proto_variant: proto_variant_name_spec(self@.attrs, self@.variants[j].name),
                    payload: self@.variants[j].field_name->0,
                }),
            decreases self.variants@.len() - i,
        {
            proof {
                assert(self.variants@[i as int]@ == self@.variants[i as int]);
                assert(self@.variants[i as int].field_name is Some);
            }
            let proto_variant = self.get_proto_variant_name(&self.variants[i]);
            let payload = match &self.variants[i].field_name {
                Some(p) => p.duplicate(),
                None => {
                    proof {
                        assert(false);
                    }
                    PathExpr { segments: Vec::new(), args: Vec::new() }
                },
            };
            arms.push(
                OneOfArm { variant: self.variants[i].name.clone(), proto_variant, payload },
            );
            i += 1;
        }
        let r = OneOfImpl {
            name: self.name.clone(),
            source: self.attrs.source.duplicate(),
            one_of_field,
            one_of_module,
            one_of_enum_variant,
            arms,
        };
        proof {
            assert(r@.arms =~= one_of_impl_spec(self@).arms);
        }
        r
    }

    /// Synthesizes the conversion pair of a sum-type entity: the match table
    /// of a plain enumeration, or the tagged-union pair of a oneof.
    pub fn implement_proto_map(&self) -> (r: ProtoMapImpl)
        requires
            self@.rename_ok(),
            !self@.attrs.is_enumeration() ==> self@.one_of_ready(),
        ensures
            self@.attrs.is_enumeration() ==> r@ == crate::code::ProtoMapImplView::Enumeration(
                enumeration_impl_spec(self@),
            ),
            !self@.attrs.is_enumeration() ==> r@ == crate::code::ProtoMapImplView::OneOf(
                one_of_impl_spec(self@),
            ),
    {
        if self.attrs.is_enumeration() {
            ProtoMapImpl::Enumeration(self.implement_enumeration())
        } else {
            ProtoMapImpl::OneOf(self.implement_one_of())
        }
    }
}

} // verus!
