//! The remaining statement builders: small typestate machines for SELECT,
//! UPDATE and CREATE whose terminal values are renderable, carry their
//! bindings, and can enter a transaction.

use vstd::prelude::*;

use crate::binding::{bindings_model, BindingModel, BindingsList, Parametric};
use crate::field::{Conditional, Operation};
use crate::fragment::{
    lemma_renumber_binds_zero, lemma_shift_segs_zero, render_segs, wf_frag, FragModel,
    QueryFragment, SegModel,
};
use crate::sql::Buildable;
use crate::transaction::Queryable;

verus! {

/// The all-fields selection marker.
pub struct All;

/// The initial state of the SELECT builder: the projection is fixed, a
/// source is still required.
pub struct SelectStart {
    projection: String,
}

impl View for SelectStart {
    type V = Seq<char>;

    closed spec fn view(&self) -> Seq<char> {
        self.projection@
    }
}

/// Starts a SELECT statement over all fields.
pub fn select(_projection: All) -> (r: SelectStart)
    ensures
        r@ == "*"@,
{
    proof {
        reveal_strlit("*");
    }
    SelectStart { projection: String::from_str("*") }
}

impl SelectStart {
    /// Attaches the required source, yielding the terminal statement.
    pub fn from(self, target: &str) -> (r: SelectStatement)
        ensures
            r@.segs == seq![
                SegModel::Lit("SELECT "@ + self@ + " FROM "@ + target@),
            ],
            r@.binds == Seq::<BindingModel>::empty(),
            wf_frag(r@),
    {
        proof {
            reveal_strlit("SELECT ");
            reveal_strlit(" FROM ");
        }
        let mut text = String::from_str("SELECT ");
        text.append(self.projection.as_str());
        text.append(" FROM ");
        text.append(target);
        let frag = QueryFragment::lit(text.as_str());
        proof {
            assert(text@ =~= "SELECT "@ + self@ + " FROM "@ + target@);
        }
        SelectStatement { frag }
    }
}

/// A terminal SELECT statement.
#[derive(Debug)]
pub struct SelectStatement {
    frag: QueryFragment,
}

impl SelectStatement {
    #[verifier::type_invariant]
    closed spec fn type_inv(self) -> bool {
        wf_frag(self.frag@)
    }
}

impl View for SelectStatement {
    type V = FragModel;

    closed spec fn view(&self) -> FragModel {
        self.frag@
    }
}

/// Builds the statement that reads every user record: the worked example of
/// a plain selection.
pub fn select_user() -> (r: SelectStatement)
    ensures
        r@.segs == seq![SegModel::Lit("SELECT * FROM user"@)],
        r@.binds == Seq::<BindingModel>::empty(),
{
    proof {
        reveal_strlit("user");
        reveal_strlit("*");
        reveal_strlit("SELECT ");
        reveal_strlit(" FROM ");
        reveal_strlit("SELECT * FROM user");
    }
    let r = select(All).from("user");
    proof {
        assert("SELECT "@ + "*"@ + " FROM "@ + "user"@ =~= "SELECT * FROM user"@);
    }
    r
}

/// The initial state of the UPDATE builder: the target record is fixed, a
/// setter is still required.
pub struct UpdateStart {
    target: String,
}

impl View for UpdateStart {
    type V = Seq<char>;

    closed spec fn view(&self) -> Seq<char> {
        self.target@
    }
}

/// Starts an UPDATE statement for one target record.
pub fn update(target: &str) -> (r: UpdateStart)
    ensures
        r@ == target@,
{
    UpdateStart { target: target.to_owned() }
}

impl UpdateStart {
    /// Attaches the required setter, yielding the terminal statement; the
    /// setter's bindings become the statement's bindings.
    pub fn set(self, setter: Operation) -> (r: UpdateStatement)
        ensures
            r@.segs == seq![SegModel::Lit("UPDATE "@ + self@ + " SET "@)]
                + setter.cond_model().segs,
            r@.binds == setter.cond_model().binds,
            wf_frag(r@),
    {
        proof {
            reveal_strlit("UPDATE ");
            reveal_strlit(" SET ");
        }
        let mut text = String::from_str("UPDATE ");
        text.append(self.target.as_str());
        text.append(" SET ");
        let mut frag = QueryFragment::empty();
        frag.push_lit(text.as_str());
        let ghost sm = setter.cond_model();
        let setter_frag = setter.to_fragment();
        proof {
            assert(frag@.segs =~= seq![SegModel::Lit("UPDATE "@ + self@ + " SET "@)]);
        }
        frag.append(setter_frag);
        proof {
            lemma_shift_segs_zero(sm.segs);
            lemma_renumber_binds_zero(sm.binds);
            assert(frag@.segs =~= seq![SegModel::Lit("UPDATE "@ + self@ + " SET "@)] + sm.segs);
        }
        UpdateStatement { frag }
    }
}

/// A terminal UPDATE statement.
#[derive(Debug)]
pub struct UpdateStatement {
    frag: QueryFragment,
}

impl UpdateStatement {
    #[verifier::type_invariant]
    closed spec fn type_inv(self) -> bool {
        wf_frag(self.frag@)
    }
}

impl View for UpdateStatement {
    type V = FragModel;

    closed spec fn view(&self) -> FragModel {
        self.frag@
    }
}

/// The initial state of the CREATE builder: the target is fixed, the field
/// assignments are still required.
pub struct CreateStart {
    target: String,
}

impl View for CreateStart {
    type V = Seq<char>;

    closed spec fn view(&self) -> Seq<char> {
        self.target@
    }
}

/// Starts a CREATE statement for one record or table.
pub fn create(target: &str) -> (r: CreateStart)
    ensures
        r@ == target@,
{
    CreateStart { target: target.to_owned() }
}

impl CreateStart {
    /// Attaches the required field assignment, yielding the terminal
    /// statement; the assignment's bindings become the statement's bindings.
    pub fn set(self, setter: Operation) -> (r: CreateStatement)
        ensures
            r@.segs == seq![SegModel::Lit("CREATE "@ + self@ + " SET "@)]
                + setter.cond_model().segs,
            r@.binds == setter.cond_model().binds,
            wf_frag(r@),
    {
        proof {
            reveal_strlit("CREATE ");
            reveal_strlit(" SET ");
        }
        let mut text = String::from_str("CREATE ");
        text.append(self.target.as_str());
        text.append(" SET ");
        let mut frag = QueryFragment::empty();
        frag.push_lit(text.as_str());
        let ghost sm = setter.cond_model();
        let setter_frag = setter.to_fragment();
        proof {
            assert(frag@.segs =~= seq![SegModel::Lit("CREATE "@ + self@ + " SET "@)]);
        }
        frag.append(setter_frag);
        proof {
            lemma_shift_segs_zero(sm.segs);
            lemma_renumber_binds_zero(sm.binds);
            assert(frag@.segs =~= seq![SegModel::Lit("CREATE "@ + self@ + " SET "@)] + sm.segs);
        }
        CreateStatement { frag }
    }
}

/// A terminal CREATE statement.
#[derive(Debug)]
pub struct CreateStatement {
    frag: QueryFragment,
}

impl CreateStatement {
    #[verifier::type_invariant]
    closed spec fn type_inv(self) -> bool {
        wf_frag(self.frag@)
    }
}

impl View for CreateStatement {
    type V = FragModel;

    closed spec fn view(&self) -> FragModel {
        self.frag@
    }
}


impl Buildable for SelectStatement {
    open spec fn build_spec(&self) -> Seq<char> {
        render_segs(self@.segs)
    }

    fn build(&self) -> (r: String)
        ensures
            r@ == self.build_spec(),
    {
        self.frag.build_text()
    }
}

impl Parametric for SelectStatement {
    open spec fn bindings_spec(&self) -> Seq<BindingModel> {
        self@.binds
    }

    fn get_bindings(&self) -> (r: BindingsList)
        ensures
            bindings_model(r@) == self.bindings_spec(),
    {
        self.frag.bindings_list()
    }
}

impl Queryable for SelectStatement {
    open spec fn query_model(&self) -> FragModel {
        self@
    }

    fn to_query_fragment(self) -> (r: QueryFragment)
        ensures
            r@ == self.query_model(),
            wf_frag(r@),
    {
        proof {
            use_type_invariant(&self);
        }
        let SelectStatement { frag } = self;
        frag
    }
}

impl Buildable for UpdateStatement {
    open spec fn build_spec(&self) -> Seq<char> {
        render_segs(self@.segs)
    }

    fn build(&self) -> (r: String)
        ensures
            r@ == self.build_spec(),
    {
        self.frag.build_text()
    }
}

impl Parametric for UpdateStatement {
    open spec fn bindings_spec(&self) -> Seq<BindingModel> {
        self@.binds
    }

    fn get_bindings(&self) -> (r: BindingsList)
        ensures
            bindings_model(r@) == self.bindings_spec(),
    {
        self.frag.bindings_list()
    }
}

impl Queryable for UpdateStatement {
    open spec fn query_model(&self) -> FragModel {
        self@
    }

    fn to_query_fragment(self) -> (r: QueryFragment)
        ensures
            r@ == self.query_model(),
            wf_frag(r@),
    {
        proof {
            use_type_invariant(&self);
        }
        let UpdateStatement { frag } = self;
        frag
    }
}

impl Buildable for CreateStatement {
    open spec fn build_spec(&self) -> Seq<char> {
        render_segs(self@.segs)
    }

    fn build(&self) -> (r: String)
        ensures
            r@ == self.build_spec(),
    {
        self.frag.build_text()
    }
}

impl Parametric for CreateStatement {
    open spec fn bindings_spec(&self) -> Seq<BindingModel> {
        self@.binds
    }

    fn get_bindings(&self) -> (r: BindingsList)
        ensures
            bindings_model(r@) == self.bindings_spec(),
    {
        self.frag.bindings_list()
    }
}

impl Queryable for CreateStatement {
    open spec fn query_model(&self) -> FragModel {
        self@
    }

    fn to_query_fragment(self) -> (r: QueryFragment)
        ensures
            r@ == self.query_model(),
            wf_frag(r@),
    {
        proof {
            use_type_invariant(&self);
        }
        let CreateStatement { frag } = self;
        frag
    }
}

} // verus!
