//! Schema-aware field accessors and the comparison builders that lower a
//! field and one literal operand into a condition fragment with exactly one
//! new binding.

use vstd::prelude::*;

use crate::binding::{bindings_model, param_name, BindingModel, BindingsList, Parametric};
use crate::fragment::{render_segs, wf_frag, FragModel, QueryFragment, SegModel};
use crate::sql::Buildable;
use crate::value::{raw_model, Value, ValueModel};

verus! {

/// A reference to a named field of a table.
#[derive(Debug)]
pub struct Field {
    name: String,
}

impl View for Field {
    type V = Seq<char>;

    closed spec fn view(&self) -> Seq<char> {
        self.name@
    }
}

impl Clone for Field {
    /// A structural copy with the same name.
    fn clone(&self) -> (r: Self)
        ensures
            r@ == self@,
    {
        Field { name: self.name.clone() }
    }
}

/// The binding created for the one literal operand of a comparison.
pub open spec fn operand_binding(v: ValueModel) -> BindingModel {
    BindingModel {
        param: param_name(0),
        value: v,
        name: param_name(0),
        raw: raw_model(v),
        description: None,
    }
}

/// The fragment a comparison lowers to: the field name and operator as
/// literal text, then one placeholder for the operand.
pub open spec fn cmp_model(field: Seq<char>, op: Seq<char>, v: ValueModel) -> FragModel {
    FragModel {
        segs: seq![SegModel::Lit(field + op), SegModel::Param(0)],
        binds: seq![operand_binding(v)],
    }
}

/// The fragment of a comparison whose right-hand side is another field:
/// literal text only, no binding is created.
pub open spec fn cmp_field_model(field: Seq<char>, op: Seq<char>, other: Seq<char>) -> FragModel {
    FragModel { segs: seq![SegModel::Lit(field + op + other)], binds: Seq::empty() }
}

/// An expression node produced by a comparison or assignment builder.
#[derive(Debug)]
pub struct Operation {
    frag: QueryFragment,
}

impl Operation {
    #[verifier::type_invariant]
    closed spec fn type_inv(self) -> bool {
        wf_frag(self.frag@)
    }
}

impl View for Operation {
    type V = FragModel;

    closed spec fn view(&self) -> FragModel {
        self.frag@
    }
}

/// The capability of a value to serve as a condition: it can hand over its
/// well-formed fragment.
pub trait Conditional: Sized {
    /// The model of this condition's fragment.
    spec fn cond_model(&self) -> FragModel;

    /// Yields the condition's fragment.
    fn to_fragment(self) -> (r: QueryFragment)
        ensures
            r@ == self.cond_model(),
            wf_frag(r@),
    ;
}

impl Conditional for Operation {
    open spec fn cond_model(&self) -> FragModel {
        self@
    }

    fn to_fragment(self) -> (r: QueryFragment)
        ensures
            r@ == self.cond_model(),
            wf_frag(r@),
    {
        proof {
            use_type_invariant(&self);
        }
        let Operation { frag } = self;
        frag
    }
}

impl Buildable for Operation {
    open spec fn build_spec(&self) -> Seq<char> {
        render_segs(self@.segs)
    }

    fn build(&self) -> (r: String)
        ensures
            r@ == self.build_spec(),
    {
        self.frag.build_text()
    }
}

impl Parametric for Operation {
    open spec fn bindings_spec(&self) -> Seq<BindingModel> {
        self@.binds
    }

    fn get_bindings(&self) -> (r: BindingsList)
        ensures
            bindings_model(r@) == self.bindings_spec(),
    {
        self.frag.bindings_list()
    }
}

impl Field {
    /// A field with the given name.
    pub fn new(name: &str) -> (r: Field)
        ensures
            r@ == name@,
    {
        Field { name: name.to_owned() }
    }

    /// The field's name.
    pub fn name(&self) -> (r: &String)
        ensures
            r@ == self@,
    {
        &self.name
    }

    fn compare(&self, op: &str, value: Value) -> (r: Operation)
        ensures
            r@ == cmp_model(self@, op@, value@),
            wf_frag(r@),
    {
        let mut text = self.name.clone();
        text.append(op);
        let mut frag = QueryFragment::empty();
        frag.push_lit(text.as_str());
        let ghost v = value@;
        frag.push_value(value);
        proof {
            assert(frag@.segs =~= cmp_model(self@, op@, v).segs);
            assert(frag@.binds =~= cmp_model(self@, op@, v).binds);
        }
        Operation { frag }
    }

    /// `field ~ $operand`: fuzzy pattern match against one bound literal.
    pub fn like(&self, pattern: &str) -> (r: Operation)
        ensures
            r@ == cmp_model(self@, " ~ "@, ValueModel::Strand(pattern@)),
            wf_frag(r@),
    {
        self.compare(" ~ ", Value::Strand(pattern.to_owned()))
    }

    /// `field IS $operand`: equality against one bound literal string.
    pub fn is(&self, value: &str) -> (r: Operation)
        ensures
            r@ == cmp_model(self@, " IS "@, ValueModel::Strand(value@)),
            wf_frag(r@),
    {
        self.compare(" IS ", Value::Strand(value.to_owned()))
    }

    /// `field = $operand`: assignment of or comparison with one bound value.
    pub fn equal_to(&self, value: Value) -> (r: Operation)
        ensures
            r@ == cmp_model(self@, " = "@, value@),
            wf_frag(r@),
    {
        self.compare(" = ", value)
    }

    /// `field = other`: comparison with another field; no binding is created,
    /// the other field contributes its own text.
    pub fn equal_to_field(&self, other: &Field) -> (r: Operation)
        ensures
            r@ == cmp_field_model(self@, " = "@, other@),
            wf_frag(r@),
    {
        self.join_field(" = ", other)
    }

    /// `field += $operand`: increment by one bound value.
    pub fn increment_by(&self, value: Value) -> (r: Operation)
        ensures
            r@ == cmp_model(self@, " += "@, value@),
            wf_frag(r@),
    {
        self.compare(" += ", value)
    }

    /// `field -= $operand`: decrement by one bound value.
    pub fn decrement_by(&self, value: Value) -> (r: Operation)
        ensures
            r@ == cmp_model(self@, " -= "@, value@),
            wf_frag(r@),
    {
        self.compare(" -= ", value)
    }

    fn join_field(&self, op: &str, other: &Field) -> (r: Operation)
        ensures
            r@ == cmp_field_model(self@, op@, other@),
            wf_frag(r@),
    {
        let mut text = self.name.clone();
        text.append(op);
        text.append(other.name.as_str());
        let frag = QueryFragment::lit(text.as_str());
        proof {
            assert(text@ =~= self@ + op@ + other@);
            assert(frag@.segs =~= cmp_field_model(self@, op@, other@).segs);
            assert(frag@.binds =~= cmp_field_model(self@, op@, other@).binds);
        }
        Operation { frag }
    }
}

impl Buildable for Field {
    open spec fn build_spec(&self) -> Seq<char> {
        self@
    }

    fn build(&self) -> (r: String)
        ensures
            r@ == self.build_spec(),
    {
        self.name.clone()
    }
}

impl Parametric for Field {
    open spec fn bindings_spec(&self) -> Seq<BindingModel> {
        Seq::empty()
    }

    fn get_bindings(&self) -> (r: BindingsList)
        ensures
            bindings_model(r@) == self.bindings_spec(),
    {
        let r: BindingsList = Vec::new();
        proof {
            assert(bindings_model(r@) =~= Seq::<BindingModel>::empty());
        }
        r
    }
}

} // verus!
