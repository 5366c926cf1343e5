//! The condition tree: a filter wraps a boolean expression fragment, and
//! combinators join filters without renaming or re-creating any binding —
//! child bindings are merged in traversal order.

use vstd::prelude::*;

use crate::binding::{bindings_model, BindingModel, BindingsList, Parametric};
use crate::field::Conditional;
use crate::fragment::{
    render_segs, renumber_binds, shift_segs, wf_frag, FragModel, QueryFragment, SegModel,
};
use crate::sql::Buildable;

verus! {

/// A boolean condition tree over fields and bound literals.
#[derive(Debug)]
pub struct Filter {
    frag: QueryFragment,
}

impl Filter {
    #[verifier::type_invariant]
    closed spec fn type_inv(self) -> bool {
        wf_frag(self.frag@)
    }

    /// Wraps a condition.
    pub fn new(condition: impl Conditional) -> (r: Filter)
        ensures
            r@ == condition.cond_model(),
            wf_frag(r@),
    {
        Filter { frag: condition.to_fragment() }
    }

    /// `self AND other`: both conditions, joined in order; the bindings are
    /// the concatenation of the children's bindings.
    pub fn and(self, other: impl Conditional) -> (r: Filter)
        ensures
            r@.segs == self@.segs.push(SegModel::Lit(" AND "@)) + shift_segs(
                other.cond_model().segs,
                self@.binds.len(),
            ),
            r@.binds == self@.binds + renumber_binds(
                other.cond_model().binds,
                self@.binds.len(),
            ),
            wf_frag(r@),
    {
        self.join(" AND ", other)
    }

    /// `self OR other`: either condition, joined in order; the bindings are
    /// the concatenation of the children's bindings.
    pub fn or(self, other: impl Conditional) -> (r: Filter)
        ensures
            r@.segs == self@.segs.push(SegModel::Lit(" OR "@)) + shift_segs(
                other.cond_model().segs,
                self@.binds.len(),
            ),
            r@.binds == self@.binds + renumber_binds(
                other.cond_model().binds,
                self@.binds.len(),
            ),
            wf_frag(r@),
    {
        self.join(" OR ", other)
    }

    fn join(self, op: &str, other: impl Conditional) -> (r: Filter)
        ensures
            r@.segs == self@.segs.push(SegModel::Lit(op@)) + shift_segs(
                other.cond_model().segs,
                self@.binds.len(),
            ),
            r@.binds == self@.binds + renumber_binds(
                other.cond_model().binds,
                self@.binds.len(),
            ),
            wf_frag(r@),
    {
        proof {
            use_type_invariant(&self);
        }
        let Filter { mut frag } = self;
        frag.push_lit(op);
        frag.append(other.to_fragment());
        Filter { frag }
    }
}

impl View for Filter {
    type V = FragModel;

    closed spec fn view(&self) -> FragModel {
        self.frag@
    }
}

impl Conditional for Filter {
    open spec fn cond_model(&self) -> FragModel {
        self@
    }

    fn to_fragment(self) -> (r: QueryFragment)
        ensures
            r@ == self.cond_model(),
            wf_frag(r@),
    {
        proof {
            use_type_invariant(&self);
        }
        let Filter { frag } = self;
        frag
    }
}

impl Buildable for Filter {
    open spec fn build_spec(&self) -> Seq<char> {
        render_segs(self@.segs)
    }

    fn build(&self) -> (r: String)
        ensures
            r@ == self.build_spec(),
    {
        self.frag.build_text()
    }
}

impl Parametric for Filter {
    open spec fn bindings_spec(&self) -> Seq<BindingModel> {
        self@.binds
    }

    fn get_bindings(&self) -> (r: BindingsList)
        ensures
            bindings_model(r@) == self.bindings_spec(),
    {
        self.frag.bindings_list()
    }
}

/// Copying a filter keeps its model.
impl Clone for Filter {
    fn clone(&self) -> (r: Self)
        ensures
            r@ == self@,
    {
        proof {
            use_type_invariant(self);
        }
        Filter { frag: self.frag.duplicate() }
    }
}

} // verus!
