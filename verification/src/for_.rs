//! The FOR clause: a typestate builder that fixes the crud-type list first
//! and becomes a terminal, renderable statement only once a condition has
//! been attached.

use vstd::prelude::*;

use crate::binding::{bindings_model, BindingModel, BindingsList, Parametric};
use crate::field::Conditional;
use crate::filter::Filter;
use crate::fragment::{
    lemma_renumber_binds_zero, lemma_shift_segs_zero, render_segs, wf_frag, FragModel,
    QueryFragment, SegModel,
};
use crate::sql::{render_raw_segs, Buildable, RawStatement, ToRawStatement};

verus! {

/// One kind of access that a FOR clause can govern.
#[derive(Clone, Copy, Debug, PartialEq, Eq, Structural)]
pub enum ForCrudType {
    Create,
    Select,
    Update,
    Delete,
}

/// The lower-case query-language keyword of a crud type.
pub open spec fn crud_keyword(c: ForCrudType) -> Seq<char> {
    match c {
        ForCrudType::Create => "create"@,
        ForCrudType::Select => "select"@,
        ForCrudType::Update => "update"@,
        ForCrudType::Delete => "delete"@,
    }
}

impl ForCrudType {
    /// The lower-case keyword for this crud type.
    pub fn as_keyword(&self) -> (r: &'static str)
        ensures
            r@ == crud_keyword(*self),
    {
        proof {
            reveal_strlit("create");
            reveal_strlit("select");
            reveal_strlit("update");
            reveal_strlit("delete");
        }
        match self {
            ForCrudType::Create => "create",
            ForCrudType::Select => "select",
            ForCrudType::Update => "update",
            ForCrudType::Delete => "delete",
        }
    }
}

/// The crud-type keywords joined with `", "`, in input order.
pub open spec fn crud_list_text(s: Seq<ForCrudType>) -> Seq<char>
    decreases s,
{
    if s.len() == 0 {
        Seq::empty()
    } else if s.len() == 1 {
        crud_keyword(s.last())
    } else {
        crud_list_text(s.drop_last()) + seq![',', ' '] + crud_keyword(s.last())
    }
}

/// The literal prefix of a FOR clause's text: `FOR`, the space-joined crud
/// list when one is given, then the tab-indented WHERE introducer.
pub open spec fn for_prefix_text(cruds: Seq<ForCrudType>) -> Seq<char> {
    "FOR"@ + (if cruds.len() > 0 {
        seq![' '] + crud_list_text(cruds)
    } else {
        Seq::<char>::empty()
    }) + "\n\tWHERE "@
}

/// The crud types a FOR clause is built from: one, or a list.
#[derive(Clone, Debug)]
pub enum ForArgs {
    ForOption(ForCrudType),
    ForOptions(Vec<ForCrudType>),
}

/// The crud-type list an argument denotes, in input order.
pub open spec fn crud_types_of(args: ForArgs) -> Seq<ForCrudType> {
    match args {
        ForArgs::ForOption(c) => seq![c],
        ForArgs::ForOptions(v) => v@,
    }
}

impl From<ForCrudType> for ForArgs {
    fn from(value: ForCrudType) -> (r: Self)
        ensures
            r == ForArgs::ForOption(value),
    {
        ForArgs::ForOption(value)
    }
}

impl vstd::std_specs::convert::FromSpecImpl<ForCrudType> for ForArgs {
    open spec fn obeys_from_spec() -> bool {
        true
    }

    open spec fn from_spec(v: ForCrudType) -> Self {
        ForArgs::ForOption(v)
    }
}

impl From<Vec<ForCrudType>> for ForArgs {
    fn from(value: Vec<ForCrudType>) -> (r: Self)
        ensures
            r == ForArgs::ForOptions(value),
    {
        ForArgs::ForOptions(value)
    }
}

impl vstd::std_specs::convert::FromSpecImpl<Vec<ForCrudType>> for ForArgs {
    open spec fn obeys_from_spec() -> bool {
        true
    }

    open spec fn from_spec(v: Vec<ForCrudType>) -> Self {
        ForArgs::ForOptions(v)
    }
}

/// The initial state of the FOR builder: the crud-type list is fixed, no
/// condition is attached yet, and attaching one is the only legal operation.
pub struct ForStart {
    crud_types: Vec<ForCrudType>,
}

impl View for ForStart {
    type V = Seq<ForCrudType>;

    closed spec fn view(&self) -> Seq<ForCrudType> {
        self.crud_types@
    }
}

/// Starts a FOR clause for the given crud types.
pub fn for_<T>(for_crud_types: T) -> (r: ForStart) where ForArgs: From<T>
    ensures
        <ForArgs as vstd::std_specs::convert::FromSpec<T>>::obeys_from_spec() ==> r@
            == crud_types_of(<ForArgs as vstd::std_specs::convert::FromSpec<T>>::from_spec(
            for_crud_types,
        )),
{
    let args = ForArgs::from(for_crud_types);
    let crud_types = match args {
        ForArgs::ForOption(one) => {
            let mut v: Vec<ForCrudType> = Vec::new();
            v.push(one);
            proof {
                assert(v@ =~= seq![one]);
            }
            v
        },
        ForArgs::ForOptions(many) => many,
    };
    ForStart { crud_types }
}

impl ForStart {
    /// Attaches the required condition, yielding the terminal FOR clause;
    /// the condition's bindings become the clause's bindings, in order.
    pub fn where_(self, condition: impl Conditional) -> (r: For)
        ensures
            r@.segs == seq![SegModel::Lit(for_prefix_text(self@))]
                + condition.cond_model().segs,
            r@.binds == condition.cond_model().binds,
            wf_frag(r@),
    {
        let condition = Filter::new(condition);
        let ghost cm = condition@;
        let mut frag = QueryFragment::empty();
        let prefix = self.render_prefix();
        frag.push_lit(prefix.as_str());
        let cond_frag = condition.to_fragment();
        proof {
            assert(frag@.segs =~= seq![SegModel::Lit(for_prefix_text(self@))]);
        }
        frag.append(cond_frag);
        proof {
            lemma_shift_segs_zero(cm.segs);
            lemma_renumber_binds_zero(cm.binds);
            assert(frag@.segs =~= seq![SegModel::Lit(for_prefix_text(self@))] + cm.segs);
        }
        For { frag }
    }

    /// Renders the literal prefix of the clause.
    fn render_prefix(&self) -> (r: String)
        ensures
            r@ == for_prefix_text(self@),
    {
        proof {
            reveal_strlit("FOR");
            reveal_strlit(" ");
            reveal_strlit(", ");
            reveal_strlit("\n\tWHERE ");
        }
        let mut r = String::from_str("FOR");
        if self.crud_types.len() > 0 {
            r.append(" ");
            let n = self.crud_types.len();
            let mut i: usize = 0;
            while i < n
                invariant
                    n == self.crud_types@.len(),
                    0 < n,
                    i <= n,
                    r@ == "FOR"@ + seq![' '] + crud_list_text(
                        self.crud_types@.subrange(0, i as int),
                    ),
                    ", "@ == seq![',', ' '],
                decreases n - i,
            {
                if i > 0 {
                    r.append(", ");
                }
                r.append(self.crud_types[i].as_keyword());
                proof {
                    let all = self.crud_types@;
                    let prev = all.subrange(0, i as int);
                    let cur = all.subrange(0, i as int + 1);
                    assert(cur.drop_last() =~= prev);
                    assert(cur.last() == all[i as int]);
                    assert(r@ =~= "FOR"@ + seq![' '] + crud_list_text(cur));
                }
                i = i + 1;
            }
            proof {
                assert(self.crud_types@.subrange(0, self.crud_types@.len() as int)
                    =~= self.crud_types@);
            }
        }
        r.append("\n\tWHERE ");
        proof {
            assert(r@ =~= for_prefix_text(self@));
        }
        r
    }
}

/// A terminal FOR clause: immutable, renderable, and carrying its bindings.
#[derive(Debug)]
pub struct For {
    frag: QueryFragment,
}

impl For {
    #[verifier::type_invariant]
    closed spec fn type_inv(self) -> bool {
        wf_frag(self.frag@)
    }
}

impl View for For {
    type V = FragModel;

    closed spec fn view(&self) -> FragModel {
        self.frag@
    }
}

impl Clone for For {
    /// A structural copy with the same model.
    fn clone(&self) -> (r: Self)
        ensures
            r@ == self@,
    {
        proof {
            use_type_invariant(self);
        }
        For { frag: self.frag.duplicate() }
    }
}

impl Buildable for For {
    open spec fn build_spec(&self) -> Seq<char> {
        render_segs(self@.segs)
    }

    fn build(&self) -> (r: String)
        ensures
            r@ == self.build_spec(),
    {
        self.frag.build_text()
    }
}

impl Parametric for For {
    open spec fn bindings_spec(&self) -> Seq<BindingModel> {
        self@.binds
    }

    fn get_bindings(&self) -> (r: BindingsList)
        ensures
            bindings_model(r@) == self.bindings_spec(),
    {
        self.frag.bindings_list()
    }
}

impl ToRawStatement for For {
    open spec fn to_raw_spec(&self) -> Seq<char> {
        render_raw_segs(self@.segs, self@.binds)
    }

    fn to_raw(self) -> (r: RawStatement)
        ensures
            r@ == self.to_raw_spec(),
    {
        proof {
            use_type_invariant(&self);
        }
        let text = self.frag.build_raw();
        RawStatement::new(text)
    }
}

/// The argument marker for an absent value.
#[allow(non_camel_case_types)]
pub struct NONE;

/// Anything that can stand where table permissions are expected: one FOR
/// clause, several, a raw statement, or several raw statements.
pub enum PermissionForables {
    For(For),
    Fors(Vec<For>),
    RawStatement(RawStatement),
    RawStatementList(Vec<RawStatement>),
}

/// The raw texts of several FOR clauses, joined with `", "`.
pub open spec fn fors_raw_text(s: Seq<For>) -> Seq<char>
    decreases s,
{
    if s.len() == 0 {
        Seq::empty()
    } else if s.len() == 1 {
        render_raw_segs(s.last()@.segs, s.last()@.binds)
    } else {
        fors_raw_text(s.drop_last()) + seq![',', ' '] + render_raw_segs(
            s.last()@.segs,
            s.last()@.binds,
        )
    }
}

/// The texts of several raw statements, joined with `", "`.
pub open spec fn raws_text(s: Seq<RawStatement>) -> Seq<char>
    decreases s,
{
    if s.len() == 0 {
        Seq::empty()
    } else if s.len() == 1 {
        s.last()@
    } else {
        raws_text(s.drop_last()) + seq![',', ' '] + s.last()@
    }
}

impl ToRawStatement for PermissionForables {
    open spec fn to_raw_spec(&self) -> Seq<char> {
        match self {
            PermissionForables::For(f) => render_raw_segs(f@.segs, f@.binds),
            PermissionForables::Fors(v) => fors_raw_text(v@),
            PermissionForables::RawStatement(r) => r@,
            PermissionForables::RawStatementList(v) => raws_text(v@),
        }
    }

    fn to_raw(self) -> (r: RawStatement)
        ensures
            r@ == self.to_raw_spec(),
    {
        match self {
            PermissionForables::For(f) => f.to_raw(),
            PermissionForables::Fors(v) => {
                proof {
                    reveal_strlit(", ");
                }
                let mut text = String::new();
                let n = v.len();
                let mut i: usize = 0;
                while i < n
                    invariant
                        n == v@.len(),
                        i <= n,
                        text@ == fors_raw_text(v@.subrange(0, i as int)),
                        ", "@ == seq![',', ' '],
                    decreases n - i,
                {
                    if i > 0 {
                        text.append(", ");
                    }
                    let piece = v[i].clone().to_raw();
                    text.append(piece.as_text().as_str());
                    proof {
                        let prev = v@.subrange(0, i as int);
                        let cur = v@.subrange(0, i as int + 1);
                        assert(cur.drop_last() =~= prev);
                        assert(cur.last() == v@[i as int]);
                        assert(text@ =~= fors_raw_text(cur));
                    }
                    i = i + 1;
                }
                proof {
                    assert(v@.subrange(0, v@.len() as int) =~= v@);
                }
                RawStatement::new(text)
            },
            PermissionForables::RawStatement(r) => r,
            PermissionForables::RawStatementList(v) => {
                proof {
                    reveal_strlit(", ");
                }
                let mut text = String::new();
                let n = v.len();
                let mut i: usize = 0;
                while i < n
                    invariant
                        n == v@.len(),
                        i <= n,
                        text@ == raws_text(v@.subrange(0, i as int)),
                        ", "@ == seq![',', ' '],
                    decreases n - i,
                {
                    if i > 0 {
                        text.append(", ");
                    }
                    text.append(v[i].as_text().as_str());
                    proof {
                        let prev = v@.subrange(0, i as int);
                        let cur = v@.subrange(0, i as int + 1);
                        assert(cur.drop_last() =~= prev);
                        assert(cur.last() == v@[i as int]);
                        assert(text@ =~= raws_text(cur));
                    }
                    i = i + 1;
                }
                proof {
                    assert(v@.subrange(0, v@.len() as int) =~= v@);
                }
                RawStatement::new(text)
            },
        }
    }
}

impl From<For> for PermissionForables {
    fn from(value: For) -> (r: Self)
        ensures
            r == PermissionForables::For(value),
    {
        PermissionForables::For(value)
    }
}

impl vstd::std_specs::convert::FromSpecImpl<For> for PermissionForables {
    open spec fn obeys_from_spec() -> bool {
        true
    }

    open spec fn from_spec(v: For) -> Self {
        PermissionForables::For(v)
    }
}

impl From<Vec<For>> for PermissionForables {
    fn from(value: Vec<For>) -> (r: Self)
        ensures
            r == PermissionForables::Fors(value),
    {
        PermissionForables::Fors(value)
    }
}

impl vstd::std_specs::convert::FromSpecImpl<Vec<For>> for PermissionForables {
    open spec fn obeys_from_spec() -> bool {
        true
    }

    open spec fn from_spec(v: Vec<For>) -> Self {
        PermissionForables::Fors(v)
    }
}

impl From<RawStatement> for PermissionForables {
    fn from(value: RawStatement) -> (r: Self)
        ensures
            r == PermissionForables::RawStatement(value),
    {
        PermissionForables::RawStatement(value)
    }
}

impl vstd::std_specs::convert::FromSpecImpl<RawStatement> for PermissionForables {
    open spec fn obeys_from_spec() -> bool {
        true
    }

    open spec fn from_spec(v: RawStatement) -> Self {
        PermissionForables::RawStatement(v)
    }
}

impl From<Vec<RawStatement>> for PermissionForables {
    fn from(value: Vec<RawStatement>) -> (r: Self)
        ensures
            r == PermissionForables::RawStatementList(value),
    {
        PermissionForables::RawStatementList(value)
    }
}

impl vstd::std_specs::convert::FromSpecImpl<Vec<RawStatement>> for PermissionForables {
    open spec fn obeys_from_spec() -> bool {
        true
    }

    open spec fn from_spec(v: Vec<RawStatement>) -> Self {
        PermissionForables::RawStatementList(v)
    }
}

} // verus!
