use vstd::prelude::*;

verus! {

use crate::input::{lemma_path_views, lemma_pes_height, path_view, path_views, pe_height, PathExpr, PathExprView};
use crate::nested_type::{lemma_nested_views, nested_views, NestedType, NestedTypeView};

broadcast use lemma_nested_views, lemma_path_views;

/// What `scan` reduces a path type expression to: a node named by the path's
/// last segment (module qualification stripped), whose arguments are the
/// scanned generic arguments; a path without segments scans to an unnamed
/// node.
pub open spec fn scan_spec(p: PathExprView) -> NestedTypeView
    decreases p,
{
    if p.segments.len() == 0 {
        NestedTypeView::Unnamed { args: scan_specs(p.args) }
    } else {
        NestedTypeView::Named { name: p.segments.last(), args: scan_specs(p.args) }
    }
}

pub open spec fn scan_specs(s: Seq<PathExprView>) -> Seq<NestedTypeView>
    decreases s,
{
    if s.len() == 0 {
        Seq::empty()
    } else {
        scan_specs(s.drop_last()).push(scan_spec(s.last()))
    }
}

pub broadcast proof fn lemma_scan_specs(s: Seq<PathExprView>)
    ensures
        (#[trigger] scan_specs(s)).len() == s.len(),
        forall|i: int| 0 <= i < s.len() ==> scan_specs(s)[i] == scan_spec(s[i]),
    decreases s,
{
    if s.len() > 0 {
        lemma_scan_specs(s.drop_last());
    }
}

/// Flattens a possibly deeply generic path type expression into its nested
/// type tree, keeping only bare type names.
pub fn scan(p: &PathExpr) -> (r: NestedType)
    ensures
        r@ == scan_spec(p@),
    decreases pe_height(p@),
{
    proof {
        assert(pe_height(p@) == 1 + crate::input::pes_height(path_views(p.args@)));
    }
    let ghost arg_views: Seq<PathExprView> = path_views(p.args@);
    let mut scanned: Vec<NestedType> = Vec::new();
    let mut i: usize = 0;
    while i < p.args.len()
        invariant
            i <= p.args@.len(),
            arg_views == path_views(p.args@),
            arg_views.len() == p.args@.len(),
            forall|j: int| 0 <= j < p.args@.len() ==> arg_views[j] == path_view(p.args@[j]),
            pe_height(p@) == 1 + crate::input::pes_height(arg_views),
            scanned@.len() == i,
            forall|j: int| 0 <= j < i ==> scanned@[j]@ == scan_spec(arg_views[j]),
        decreases p.args@.len() - i,
    {
        proof {
            lemma_pes_height(arg_views, i as int);
        }
        let child = scan(&p.args[i]);
        scanned.push(child);
        i += 1;
    }
    proof {
        lemma_scan_specs(arg_views);
        assert(nested_views(scanned@) =~= scan_specs(arg_views)) by {
            lemma_nested_views(scanned@);
            lemma_scan_specs(arg_views);
        }
    }
    if p.segments.len() == 0 {
        NestedType::Unnamed { args: scanned }
    } else {
        let name = p.segments[p.segments.len() - 1].clone();
        NestedType::Named { name, args: scanned }
    }
}

} // verus!
