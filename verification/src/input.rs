use vstd::prelude::*;

verus! {

use crate::attributes::{EnumAttrs, FieldAttrs, StructAttrs};

/// The characters of an optional owned string.
pub open spec fn opt_view(o: Option<String>) -> Option<Seq<char>> {
    match o {
        Some(s) => Some(s@),
        None => None,
    }
}

/// Whether two borrowed strings hold the same characters.
pub fn str_eq(a: &str, b: &str) -> (r: bool)
    ensures
        r == (a@ == b@),
{
    let ao: String = a.to_owned();
    let bo: String = b.to_owned();
    ao == bo
}

/// Copies an optional owned string; the copy holds the same characters.
pub fn clone_opt_string(o: &Option<String>) -> (r: Option<String>)
    ensures
        r == *o,
{
    match o {
        Some(s) => Some(s.clone()),
        None => None,
    }
}

/// Copies a vector of owned strings; the copy holds the same values.
pub fn clone_string_vec(v: &Vec<String>) -> (r: Vec<String>)
    ensures
        r@ == v@,
{
    let mut out: Vec<String> = Vec::new();
    let mut i: usize = 0;
    while i < v.len()
        invariant
            i <= v@.len(),
            out@.len() == i,
            forall|j: int| 0 <= j < i ==> out@[j] == v@[j],
        decreases v@.len() - i,
    {
        out.push(v[i].clone());
        i += 1;
    }
    proof {
        assert(out@ =~= v@);
    }
    out
}

/// A path type expression as declared on a field or a variant: its segments,
/// and the generic arguments of its last segment, themselves path types.
#[derive(Debug, PartialEq, Eq)]
pub struct PathExpr {
    pub segments: Vec<String>,
    pub args: Vec<PathExpr>,
}

/// The mathematical shape of a `PathExpr`.
pub struct PathExprView {
    pub segments: Seq<Seq<char>>,
    pub args: Seq<PathExprView>,
}

pub open spec fn path_view(p: PathExpr) -> PathExprView
    decreases p,
{
    PathExprView {
        segments: Seq::new(p.segments@.len(), |i: int| p.segments@[i]@),
        args: path_views(p.args@),
    }
}

pub open spec fn path_views(s: Seq<PathExpr>) -> Seq<PathExprView>
    decreases s,
{
    if s.len() == 0 {
        Seq::empty()
    } else {
        path_views(s.drop_last()).push(path_view(s.last()))
    }
}

pub broadcast proof fn lemma_path_views(s: Seq<PathExpr>)
    ensures
        (#[trigger] path_views(s)).len() == s.len(),
        forall|i: int| 0 <= i < s.len() ==> path_views(s)[i] == path_view(s[i]),
    decreases s,
{
    if s.len() > 0 {
        lemma_path_views(s.drop_last());
    }
}

impl View for PathExpr {
    type V = PathExprView;

    open spec fn view(&self) -> PathExprView {
        path_view(*self)
    }
}

/// The height of a path expression, for termination measures.
pub open spec fn pe_height(p: PathExprView) -> nat
    decreases p,
{
    1 + pes_height(p.args)
}

pub open spec fn pes_height(s: Seq<PathExprView>) -> nat
    decreases s,
{
    if s.len() == 0 {
        0
    } else if pes_height(s.drop_last()) > pe_height(s.last()) {
        pes_height(s.drop_last())
    } else {
        pe_height(s.last())
    }
}

pub proof fn lemma_pes_height(s: Seq<PathExprView>, i: int)
    requires
        0 <= i < s.len(),
    ensures
        pe_height(s[i]) <= pes_height(s),
    decreases s,
{
    if i < s.len() - 1 {
        assert(s.drop_last()[i] == s[i]);
        lemma_pes_height(s.drop_last(), i);
    }
}

impl PathExpr {
    /// Copies the path expression; the copy has the same shape.
    pub fn duplicate(&self) -> (r: PathExpr)
        ensures
            r@ == self@,
        decreases pe_height(self@),
    {
        proof {
            assert(pe_height(self@) == 1 + pes_height(path_views(self.args@)));
            lemma_path_views(self.args@);
        }
        let ghost arg_views: Seq<PathExprView> = path_views(self.args@);
        let segments = clone_string_vec(&self.segments);
        let mut args: Vec<PathExpr> = Vec::new();
        let mut i: usize = 0;
        while i < self.args.len()
            invariant
                i <= self.args@.len(),
                arg_views == path_views(self.args@),
                arg_views.len() == self.args@.len(),
                forall|j: int| 0 <= j < self.args@.len() ==> arg_views[j] == path_view(
                    self.args@[j],
                ),
                pe_height(self@) == 1 + pes_height(arg_views),
                args@.len() == i,
                forall|j: int| 0 <= j < i ==> args@[j]@ == arg_views[j],
            decreases self.args@.len() - i,
        {
            proof {
                lemma_pes_height(arg_views, i as int);
            }
            let child = self.args[i].duplicate();
            args.push(child);
            i += 1;
        }
        let r = PathExpr { segments, args };
        proof {
            lemma_path_views(args@);
            assert(path_views(args@) =~= path_views(self.args@));
            assert(r@.segments =~= self@.segments);
        }
        r
    }
}

/// A field's or payload's declared type expression. Only path types are
/// supported by the mapping; tuple and reference types are rejected with a
/// shape error where they are consulted.
#[derive(Debug, PartialEq, Eq)]
pub enum TypeExpr {
    Path(PathExpr),
    Tuple,
    Reference,
}

pub enum TypeExprView {
    Path(PathExprView),
    Tuple,
    Reference,
}

impl View for TypeExpr {
    type V = TypeExprView;

    open spec fn view(&self) -> TypeExprView {
        match self {
            TypeExpr::Path(p) => TypeExprView::Path(path_view(*p)),
            TypeExpr::Tuple => TypeExprView::Tuple,
            TypeExpr::Reference => TypeExprView::Reference,
        }
    }
}

/// One declared field of a record entity, with its already-parsed mapping
/// attributes (`None` when the field carries no mapping attribute).
#[derive(Debug)]
pub struct FieldDecl {
    pub name: Option<String>,
    pub ty: TypeExpr,
    pub attrs: Option<FieldAttrs>,
}

/// The payload shape of one declared variant of a sum-type entity: no
/// payload, unnamed payload types, or named payload fields (of which only the
/// count matters here — every shape check on them is by arity).
#[derive(Debug)]
pub enum VariantFields {
    Unit,
    Unnamed(Vec<TypeExpr>),
    Named(usize),
}

/// One declared variant of a sum-type entity.
#[derive(Debug)]
pub struct VariantDecl {
    pub name: String,
    pub fields: VariantFields,
}

/// The annotated item handed to the compiler: a record, a sum type, or some
/// other shape (rejected). The item-level attribute set is `None` when the
/// mapping attribute is missing.
#[derive(Debug)]
pub enum ItemDecl {
    Struct { name: String, attrs: Option<StructAttrs>, fields: Vec<FieldDecl> },
    Enum { name: String, attrs: Option<EnumAttrs>, variants: Vec<VariantDecl> },
    Other,
}

} // verus!
