use vstd::prelude::*;

verus! {

use vstd::string::*;

broadcast use vstd::string::group_string_axioms;

/// One node of the transient tree a field's declared type is flattened into:
/// a bare type name with its generic arguments, or an unnamed (tuple-like)
/// node. Module-path qualification is already stripped when a node is built.
#[derive(Debug, PartialEq, Eq)]
pub enum NestedType {
    Named { name: String, args: Vec<NestedType> },
    Unnamed { args: Vec<NestedType> },
}

/// The mathematical shape of a `NestedType`.
pub enum NestedTypeView {
    Named { name: Seq<char>, args: Seq<NestedTypeView> },
    Unnamed { args: Seq<NestedTypeView> },
}

pub open spec fn nested_view(t: NestedType) -> NestedTypeView
    decreases t,
{
    match t {
        NestedType::Named { name, args } => NestedTypeView::Named {
            name: name@,
            args: nested_views(args@),
        },
        NestedType::Unnamed { args } => NestedTypeView::Unnamed { args: nested_views(args@) },
    }
}

pub open spec fn nested_views(s: Seq<NestedType>) -> Seq<NestedTypeView>
    decreases s,
{
    if s.len() == 0 {
        Seq::empty()
    } else {
        nested_views(s.drop_last()).push(nested_view(s.last()))
    }
}

pub broadcast proof fn lemma_nested_views(s: Seq<NestedType>)
    ensures
        (#[trigger] nested_views(s)).len() == s.len(),
        forall|i: int| 0 <= i < s.len() ==> nested_views(s)[i] == nested_view(s[i]),
    decreases s,
{
    if s.len() > 0 {
        lemma_nested_views(s.drop_last());
    }
}

impl View for NestedType {
    type V = NestedTypeView;

    open spec fn view(&self) -> NestedTypeView {
        nested_view(*self)
    }
}

impl NestedTypeView {
    pub open spec fn args(self) -> Seq<NestedTypeView> {
        match self {
            NestedTypeView::Named { args, .. } => args,
            NestedTypeView::Unnamed { args } => args,
        }
    }

    pub open spec fn name(self) -> Option<Seq<char>> {
        match self {
            NestedTypeView::Named { name, .. } => Some(name),
            NestedTypeView::Unnamed { .. } => None,
        }
    }
}

/// The height of a node, for termination measures of functions that walk the
/// tree.
pub open spec fn nt_height(t: NestedTypeView) -> nat
    decreases t,
{
    1 + nts_height(t.args())
}

pub open spec fn nts_height(s: Seq<NestedTypeView>) -> nat
    decreases s,
{
    if s.len() == 0 {
        0
    } else if nts_height(s.drop_last()) > nt_height(s.last()) {
        nts_height(s.drop_last())
    } else {
        nt_height(s.last())
    }
}

pub proof fn lemma_nts_height(s: Seq<NestedTypeView>, i: int)
    requires
        0 <= i < s.len(),
    ensures
        nt_height(s[i]) <= nts_height(s),
    decreases s,
{
    if i < s.len() - 1 {
        assert(s.drop_last()[i] == s[i]);
        lemma_nts_height(s.drop_last(), i);
    }
}

/// The canonical rendering of a node: the bare name, and the rendered
/// arguments between angle brackets (named node) or parentheses (unnamed
/// node), separated by commas.
pub open spec fn canon(t: NestedTypeView) -> Seq<char>
    decreases t,
{
    match t {
        NestedTypeView::Named { name, args } => if args.len() == 0 {
            name
        } else {
            name + seq!['<'] + canon_args(args) + seq!['>']
        },
        NestedTypeView::Unnamed { args } => if args.len() == 0 {
            Seq::empty()
        } else {
            seq!['('] + canon_args(args) + seq![')']
        },
    }
}

pub open spec fn canon_args(args: Seq<NestedTypeView>) -> Seq<char>
    decreases args,
{
    if args.len() == 0 {
        Seq::empty()
    } else if args.len() == 1 {
        canon(args[0])
    } else {
        canon_args(args.drop_last()) + seq![','] + canon(args.last())
    }
}

proof fn lemma_canon_args_step(s: Seq<NestedTypeView>, i: int)
    requires
        0 <= i < s.len(),
    ensures
        i == 0 ==> canon_args(s.take(i + 1)) == canon(s[i]),
        i > 0 ==> canon_args(s.take(i + 1)) == canon_args(s.take(i)) + seq![','] + canon(s[i]),
{
    assert(s.take(i + 1).drop_last() =~= s.take(i));
    assert(s.take(i + 1).last() == s[i]);
    if i == 0 {
        assert(s.take(1)[0] == s[0]);
    }
}

impl NestedType {
    /// A fresh node for the given identifier, with no arguments yet: a named
    /// node for `Some`, an unnamed one for `None`.
    pub fn new(ident: Option<&str>) -> (r: NestedType)
        ensures
            ident matches Some(n) ==> r@ == (NestedTypeView::Named {
                name: n@,
                args: Seq::<NestedTypeView>::empty(),
            }),
            ident is None ==> r@ == (NestedTypeView::Unnamed {
                args: Seq::<NestedTypeView>::empty(),
            }),
    {
        if let Some(ident) = ident {
            NestedType::Named { name: ident.to_owned(), args: Vec::new() }
        } else {
            NestedType::Unnamed { args: Vec::new() }
        }
    }

    /// The node's bare type name, or `None` for an unnamed node.
    pub fn name(&self) -> (r: Option<String>)
        ensures
            r matches Some(n) ==> self@.name() == Some(n@),
            r is None ==> self@.name() is None,
    {
        match self {
            NestedType::Named { name, .. } => Some(name.clone()),
            NestedType::Unnamed { .. } => None,
        }
    }

    /// The node's argument list.
    pub fn args(&self) -> (r: &Vec<NestedType>)
        ensures
            nested_views(r@) == self@.args(),
    {
        match self {
            NestedType::Named { args, .. } => args,
            NestedType::Unnamed { args } => args,
        }
    }

    /// Attaches a completed child node to this node's argument list.
    pub fn nest(&mut self, other: NestedType)
        ensures
            final(self)@.args() == old(self)@.args().push(other@),
            final(self)@.name() == old(self)@.name(),
    {
        match self {
            NestedType::Named { args, .. } => {
                args.push(other);
                proof {
                    assert(args@.drop_last() =~= old(self)->Named_args@);
                    assert(args@.last() == args@[args@.len() - 1]);
                }
            },
            NestedType::Unnamed { args } => {
                args.push(other);
                proof {
                    assert(args@.drop_last() =~= old(self)->Unnamed_args@);
                    assert(args@.last() == args@[args@.len() - 1]);
                }
            },
        }
    }

    /// Renders the node canonically: bare names, `<`/`>` around a named
    /// node's arguments, `(`/`)` around an unnamed node's, commas between.
    pub fn to_string(&self) -> (r: String)
        ensures
            r@ == canon(self@),
        decreases nt_height(self@),
    {
        proof {
            reveal_strlit("<");
            reveal_strlit(">");
            reveal_strlit("(");
            reveal_strlit(")");
            reveal_strlit(",");
            assert("<"@ =~= seq!['<']);
            assert(">"@ =~= seq!['>']);
            assert("("@ =~= seq!['(']);
            assert(")"@ =~= seq![')']);
            assert(","@ =~= seq![',']);
        }
        let mut res = String::new();
        let (has_name, args): (bool, &Vec<NestedType>) = match self {
            NestedType::Named { name, args } => {
                res.append(name.as_str());
                proof {
                    assert(nt_height(self@) == 1 + nts_height(nested_views(args@)));
                }
                (true, args)
            },
            NestedType::Unnamed { args } => {
                proof {
                    assert(nt_height(self@) == 1 + nts_height(nested_views(args@)));
                }
                (false, args)
            },
        };
        let ghost name_part: Seq<char> = res@;
        let ghost views: Seq<NestedTypeView> = nested_views(args@);
        proof {
            lemma_nested_views(args@);
        }
        if args.len() == 0 {
            assert(views =~= Seq::<NestedTypeView>::empty());
            return res;
        }
        if has_name {
            res.append("<");
        } else {
            res.append("(");
        }
        let ghost opened: Seq<char> = res@;
        let mut i: usize = 0;
        while i < args.len()
            invariant
                i <= args@.len(),
                args@.len() == views.len(),
                forall|j: int| 0 <= j < args@.len() ==> views[j] == nested_view(args@[j]),
                nt_height(self@) == 1 + nts_height(views),
                res@ == opened + canon_args(views.take(i as int)),
            decreases args@.len() - i,
        {
            proof {
                reveal_strlit(",");
                assert(","@ =~= seq![',']);
            }
            if i > 0 {
                res.append(",");
            }
            proof {
                lemma_nts_height(views, i as int);
                lemma_canon_args_step(views, i as int);
            }
            let part = args[i].to_string();
            res.append(part.as_str());
            proof {
                assert(res@ =~= opened + canon_args(views.take(i as int + 1)));
            }
            i += 1;
        }
        assert(views.take(args@.len() as int) =~= views);
        if has_name {
            res.append(">");
        } else {
            res.append(")");
        }
        res
    }
}

} // verus!
