//! The transaction composer: sequences whole statements under a single
//! commit-or-cancel directive, merging their bindings in append order and
//! wrapping their texts with the transaction delimiters.

use vstd::prelude::*;

use crate::binding::{bindings_model, BindingModel, BindingsList, Parametric};
use crate::fragment::{
    render_segs, renumber_binds, shift_segs, wf_frag, FragModel, QueryFragment, SegModel,
};
use crate::sql::Buildable;
use crate::value::ValueModel;

verus! {

/// The opening delimiter of a serialized transaction.
pub open spec fn begin_text() -> Seq<char> {
    "BEGIN TRANSACTION;"@
}

/// The closing delimiter of a committed transaction.
pub open spec fn commit_text() -> Seq<char> {
    "\n\nCOMMIT TRANSACTION;"@
}

/// The closing delimiter of a cancelled transaction.
pub open spec fn cancel_text() -> Seq<char> {
    "\n\nCANCEL TRANSACTION;"@
}

/// The capability of a terminal statement to enter a transaction: it can
/// hand over its well-formed fragment.
pub trait Queryable: Sized {
    /// The model of this statement's fragment.
    spec fn query_model(&self) -> FragModel;

    /// Yields the statement's fragment.
    fn to_query_fragment(self) -> (r: QueryFragment)
        ensures
            r@ == self.query_model(),
            wf_frag(r@),
    ;
}

/// The assembled fragment of the statements queued so far: the opening
/// delimiter, then each statement's text, blank-line separated and
/// semicolon-terminated, bindings merged in statement order.
pub open spec fn trans_core(stmts: Seq<FragModel>) -> FragModel
    decreases stmts,
{
    if stmts.len() == 0 {
        FragModel { segs: seq![SegModel::Lit(begin_text())], binds: Seq::empty() }
    } else {
        let prev = trans_core(stmts.drop_last());
        let st = stmts.last();
        FragModel {
            segs: (prev.segs.push(SegModel::Lit("\n\n"@)) + shift_segs(
                st.segs,
                prev.binds.len(),
            )).push(SegModel::Lit(";"@)),
            binds: prev.binds + renumber_binds(st.binds, prev.binds.len()),
        }
    }
}

/// The assembled fragment of a finalized transaction.
pub open spec fn trans_model(stmts: Seq<FragModel>, ending: Seq<char>) -> FragModel {
    FragModel {
        segs: trans_core(stmts).segs.push(SegModel::Lit(ending)),
        binds: trans_core(stmts).binds,
    }
}

/// A transaction under construction: an ordered sequence of statements.
pub struct TransactionBuilder {
    statements: Vec<QueryFragment>,
}

impl TransactionBuilder {
    #[verifier::type_invariant]
    closed spec fn type_inv(self) -> bool {
        forall|i: int| 0 <= i < self.statements@.len() ==> wf_frag(self.statements@[i]@)
    }
}

impl View for TransactionBuilder {
    type V = Seq<FragModel>;

    closed spec fn view(&self) -> Seq<FragModel> {
        Seq::new(self.statements@.len(), |i: int| self.statements@[i]@)
    }
}

/// Opens a transaction with no statements queued.
pub fn begin_transaction() -> (r: TransactionBuilder)
    ensures
        r@ == Seq::<FragModel>::empty(),
{
    let r = TransactionBuilder { statements: Vec::new() };
    proof {
        assert(r@ =~= Seq::<FragModel>::empty());
    }
    r
}

impl TransactionBuilder {
    /// Appends one statement, of any kind, in call order.
    pub fn query(self, statement: impl Queryable) -> (r: TransactionBuilder)
        ensures
            r@ == self@.push(statement.query_model()),
    {
        proof {
            use_type_invariant(&self);
        }
        let TransactionBuilder { mut statements } = self;
        statements.push(statement.to_query_fragment());
        let r = TransactionBuilder { statements };
        proof {
            assert(r@ =~= self@.push(statement.query_model()));
        }
        r
    }

    /// Finalizes the transaction for commit: on execution, every statement's
    /// effects persist.
    pub fn commit_transaction(self) -> (r: Transaction)
        ensures
            r@ == trans_model(self@, commit_text()),
            wf_frag(r@),
    {
        self.finalize(true)
    }

    /// Finalizes the transaction for cancellation: on execution, no
    /// statement's effects persist.
    pub fn cancel_transaction(self) -> (r: Transaction)
        ensures
            r@ == trans_model(self@, cancel_text()),
            wf_frag(r@),
    {
        self.finalize(false)
    }

    fn finalize(self, commit: bool) -> (r: Transaction)
        ensures
            commit ==> r@ == trans_model(self@, commit_text()),
            !commit ==> r@ == trans_model(self@, cancel_text()),
            wf_frag(r@),
    {
        proof {
            use_type_invariant(&self);
            reveal_strlit("BEGIN TRANSACTION;");
            reveal_strlit("\n\n");
            reveal_strlit(";");
            reveal_strlit("\n\nCOMMIT TRANSACTION;");
            reveal_strlit("\n\nCANCEL TRANSACTION;");
        }
        let ghost stmts = self@;
        let TransactionBuilder { statements } = self;
        let mut frag = QueryFragment::lit("BEGIN TRANSACTION;");
        proof {
            assert(frag@.segs =~= trans_core(stmts.subrange(0, 0)).segs);
            assert(frag@.binds =~= trans_core(stmts.subrange(0, 0)).binds);
        }
        let n = statements.len();
        let mut i: usize = 0;
        while i < n
            invariant
                n == statements@.len(),
                i <= n,
                stmts == Seq::new(statements@.len(), |q: int| statements@[q]@),
                forall|q: int| 0 <= q < n ==> wf_frag(#[trigger] statements@[q]@),
                frag@ == trans_core(stmts.subrange(0, i as int)),
                frag.wf(),
            decreases n - i,
        {
            frag.push_lit("\n\n");
            let st = statements[i].duplicate();
            frag.append(st);
            frag.push_lit(";");
            proof {
                let prev = stmts.subrange(0, i as int);
                let cur = stmts.subrange(0, i as int + 1);
                assert(cur.drop_last() =~= prev);
                assert(cur.last() == stmts[i as int]);
                assert(frag@.segs =~= trans_core(cur).segs);
                assert(frag@.binds =~= trans_core(cur).binds);
            }
            i = i + 1;
        }
        proof {
            assert(stmts.subrange(0, stmts.len() as int) =~= stmts);
        }
        if commit {
            frag.push_lit("\n\nCOMMIT TRANSACTION;");
            proof {
                assert(frag@.segs =~= trans_model(stmts, commit_text()).segs);
            }
            Transaction { frag }
        } else {
            frag.push_lit("\n\nCANCEL TRANSACTION;");
            proof {
                assert(frag@.segs =~= trans_model(stmts, cancel_text()).segs);
            }
            Transaction { frag }
        }
    }
}

/// A finalized transaction: immutable, renderable, its bindings merged from
/// its statements in append order. Whether its effects persist is decided by
/// its closing directive; the execution collaborator enforces that, the
/// composer only serializes.
pub struct Transaction {
    frag: QueryFragment,
}

impl Transaction {
    #[verifier::type_invariant]
    closed spec fn type_inv(self) -> bool {
        wf_frag(self.frag@)
    }
}

impl View for Transaction {
    type V = FragModel;

    closed spec fn view(&self) -> FragModel {
        self.frag@
    }
}

impl Buildable for Transaction {
    open spec fn build_spec(&self) -> Seq<char> {
        render_segs(self@.segs)
    }

    fn build(&self) -> (r: String)
        ensures
            r@ == self.build_spec(),
    {
        self.frag.build_text()
    }
}

impl Parametric for Transaction {
    open spec fn bindings_spec(&self) -> Seq<BindingModel> {
        self@.binds
    }

    fn get_bindings(&self) -> (r: BindingsList)
        ensures
            bindings_model(r@) == self.bindings_spec(),
    {
        self.frag.bindings_list()
    }
}

impl Queryable for crate::sql::RawStatement {
    open spec fn query_model(&self) -> FragModel {
        FragModel { segs: seq![SegModel::Lit(self@)], binds: Seq::empty() }
    }

    fn to_query_fragment(self) -> (r: QueryFragment)
        ensures
            r@ == self.query_model(),
            wf_frag(r@),
    {
        let r = QueryFragment::lit(self.as_text().as_str());
        proof {
            assert(r@.segs =~= self.query_model().segs);
        }
        r
    }
}

/// The values carried by a list of bindings, in order.
pub open spec fn binding_values(binds: Seq<BindingModel>) -> Seq<ValueModel> {
    Seq::new(binds.len(), |i: int| binds[i].value)
}

/// The values of all statements' bindings, concatenated in statement order.
pub open spec fn flat_statement_values(stmts: Seq<FragModel>) -> Seq<ValueModel>
    decreases stmts,
{
    if stmts.len() == 0 {
        Seq::empty()
    } else {
        flat_statement_values(stmts.drop_last()) + binding_values(stmts.last().binds)
    }
}

/// Order preservation across a transaction: the merged binding list carries
/// exactly the statements' bound values, concatenated in statement append
/// order — merging re-derives names but neither reorders, drops nor
/// re-creates a binding.
pub proof fn lemma_transaction_binding_order(stmts: Seq<FragModel>, ending: Seq<char>)
    ensures
        binding_values(trans_model(stmts, ending).binds) == flat_statement_values(stmts),
    decreases stmts,
{
    if stmts.len() == 0 {
        assert(binding_values(trans_core(stmts).binds) =~= flat_statement_values(stmts));
    } else {
        lemma_transaction_binding_order(stmts.drop_last(), ending);
        let prev = trans_core(stmts.drop_last());
        let st = stmts.last();
        assert(binding_values(prev.binds + renumber_binds(st.binds, prev.binds.len()))
            =~= binding_values(prev.binds) + binding_values(st.binds));
    }
}

/// A cancelled transaction's text ends with the cancel directive; a
/// committed one with the commit directive.
pub proof fn lemma_transaction_ending(stmts: Seq<FragModel>, ending: Seq<char>)
    ensures
        render_segs(trans_model(stmts, ending).segs) == render_segs(trans_core(stmts).segs)
            + ending,
{
    let m = trans_model(stmts, ending);
    assert(m.segs.drop_last() =~= trans_core(stmts).segs);
    assert(m.segs.last() == SegModel::Lit(ending));
}

} // verus!
