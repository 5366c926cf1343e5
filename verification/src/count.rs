//! The count function argument: a tagged union over the argument shapes the
//! count function accepts, each delegating to its own rendering and bindings.

use vstd::prelude::*;

use crate::binding::{bindings_model, BindingModel, BindingsList, Parametric};
use crate::field::{operand_binding, Conditional, Field};
use crate::filter::Filter;
use crate::fragment::{render_segs, wf_frag, FragModel, QueryFragment, SegModel};
use crate::sql::{Buildable, Empty};
use crate::value::{item_models, Value, ValueModel};

verus! {

/// An array argument: the whole array is lowered as one bound value.
#[derive(Debug)]
pub struct ArrayCustom {
    frag: QueryFragment,
}

impl ArrayCustom {
    #[verifier::type_invariant]
    closed spec fn type_inv(self) -> bool {
        wf_frag(self.frag@)
    }

    /// Lowers an array of values into a single placeholder and binding.
    pub fn new(items: Vec<Value>) -> (r: ArrayCustom)
        ensures
            r@.segs == seq![SegModel::Param(0)],
            r@.binds == seq![operand_binding(ValueModel::Array(item_models(items@)))],
            wf_frag(r@),
    {
        let ghost m = item_models(items@);
        let mut frag = QueryFragment::empty();
        frag.push_value(Value::Array(items));
        proof {
            assert(frag@.segs =~= seq![SegModel::Param(0)]);
            assert(frag@.binds =~= seq![operand_binding(ValueModel::Array(m))]);
        }
        ArrayCustom { frag }
    }

    /// Yields the array's fragment.
    pub fn to_fragment(self) -> (r: QueryFragment)
        ensures
            r@ == self@,
            wf_frag(r@),
    {
        proof {
            use_type_invariant(&self);
        }
        let ArrayCustom { frag } = self;
        frag
    }
}

impl View for ArrayCustom {
    type V = FragModel;

    closed spec fn view(&self) -> FragModel {
        self.frag@
    }
}

/// The argument of the count function: empty, a field, a condition, or an
/// array.
pub enum CountArg {
    Empty,
    Field(Field),
    Filter(Filter),
    Array(ArrayCustom),
}

/// The fragment a count argument contributes: the empty variant contributes
/// no text and no bindings, the others their own fragment.
pub open spec fn count_arg_model(c: CountArg) -> FragModel {
    match c {
        CountArg::Empty => FragModel { segs: Seq::empty(), binds: Seq::empty() },
        CountArg::Field(f) => FragModel { segs: seq![SegModel::Lit(f@)], binds: Seq::empty() },
        CountArg::Filter(f) => f@,
        CountArg::Array(a) => a@,
    }
}

impl From<Empty> for CountArg {
    fn from(value: Empty) -> (r: Self)
        ensures
            r == CountArg::Empty,
    {
        CountArg::Empty
    }
}

impl vstd::std_specs::convert::FromSpecImpl<Empty> for CountArg {
    open spec fn obeys_from_spec() -> bool {
        true
    }

    open spec fn from_spec(v: Empty) -> Self {
        CountArg::Empty
    }
}

impl From<Filter> for CountArg {
    fn from(value: Filter) -> (r: Self)
        ensures
            r == CountArg::Filter(value),
    {
        CountArg::Filter(value)
    }
}

impl vstd::std_specs::convert::FromSpecImpl<Filter> for CountArg {
    open spec fn obeys_from_spec() -> bool {
        true
    }

    open spec fn from_spec(v: Filter) -> Self {
        CountArg::Filter(v)
    }
}

impl From<ArrayCustom> for CountArg {
    fn from(value: ArrayCustom) -> (r: Self)
        ensures
            r == CountArg::Array(value),
    {
        CountArg::Array(value)
    }
}

impl vstd::std_specs::convert::FromSpecImpl<ArrayCustom> for CountArg {
    open spec fn obeys_from_spec() -> bool {
        true
    }

    open spec fn from_spec(v: ArrayCustom) -> Self {
        CountArg::Array(v)
    }
}

impl CountArg {
    /// Yields the argument's fragment.
    fn to_fragment(self) -> (r: QueryFragment)
        ensures
            r@ == count_arg_model(self),
            wf_frag(r@),
    {
        match self {
            CountArg::Empty => QueryFragment::empty(),
            CountArg::Field(f) => {
                let r = QueryFragment::lit(f.name().as_str());
                proof {
                    assert(r@.segs =~= count_arg_model(CountArg::Field(f)).segs);
                }
                r
            },
            CountArg::Filter(f) => f.to_fragment(),
            CountArg::Array(a) => a.to_fragment(),
        }
    }
}

impl Buildable for CountArg {
    open spec fn build_spec(&self) -> Seq<char> {
        render_segs(count_arg_model(*self).segs)
    }

    fn build(&self) -> (r: String)
        ensures
            r@ == self.build_spec(),
    {
        match self {
            CountArg::Empty => String::new(),
            CountArg::Field(f) => {
                let r = f.build();
                proof {
                    let s = seq![SegModel::Lit(f@)];
                    assert(s.drop_last() =~= Seq::<SegModel>::empty());
                    assert(s.last() == SegModel::Lit(f@));
                    assert(render_segs(s) == render_segs(Seq::<SegModel>::empty()) + f@);
                    assert(render_segs(s) =~= f@);
                }
                r
            },
            CountArg::Filter(f) => f.build(),
            CountArg::Array(a) => {
                proof {
                    use_type_invariant(a);
                }
                a.frag.build_text()
            },
        }
    }
}

impl Parametric for CountArg {
    open spec fn bindings_spec(&self) -> Seq<BindingModel> {
        count_arg_model(*self).binds
    }

    fn get_bindings(&self) -> (r: BindingsList)
        ensures
            bindings_model(r@) == self.bindings_spec(),
    {
        match self {
            CountArg::Empty => {
                let r: BindingsList = Vec::new();
                proof {
                    assert(bindings_model(r@) =~= Seq::<BindingModel>::empty());
                }
                r
            },
            CountArg::Field(f) => f.get_bindings(),
            CountArg::Filter(f) => f.get_bindings(),
            CountArg::Array(a) => {
                proof {
                    use_type_invariant(a);
                }
                a.frag.bindings_list()
            },
        }
    }
}

/// A function-call value: the assembled query text and the bindings it
/// references.
#[derive(Debug)]
pub struct Function {
    frag: QueryFragment,
}

impl Function {
    #[verifier::type_invariant]
    closed spec fn type_inv(self) -> bool {
        wf_frag(self.frag@)
    }
}

impl View for Function {
    type V = FragModel;

    closed spec fn view(&self) -> FragModel {
        self.frag@
    }
}

impl Buildable for Function {
    open spec fn build_spec(&self) -> Seq<char> {
        render_segs(self@.segs)
    }

    fn build(&self) -> (r: String)
        ensures
            r@ == self.build_spec(),
    {
        self.frag.build_text()
    }
}

impl Parametric for Function {
    open spec fn bindings_spec(&self) -> Seq<BindingModel> {
        self@.binds
    }

    fn get_bindings(&self) -> (r: BindingsList)
        ensures
            bindings_model(r@) == self.bindings_spec(),
    {
        self.frag.bindings_list()
    }
}

/// Builds the count function value for any accepted argument shape: its text
/// and bindings are the argument's own.
pub fn count<T>(countable: T) -> (r: Function) where CountArg: From<T>
    ensures
        <CountArg as vstd::std_specs::convert::FromSpec<T>>::obeys_from_spec() ==> r@
            == count_arg_model(<CountArg as vstd::std_specs::convert::FromSpec<T>>::from_spec(
            countable,
        )),
        wf_frag(r@),
{
    let countable = CountArg::from(countable);
    let frag = countable.to_fragment();
    Function { frag }
}

} // verus!
