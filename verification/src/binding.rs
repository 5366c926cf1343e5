//! Parameter bindings: one named, substitutable value per literal lowered
//! into a query tree, and the naming scheme that keeps names unique and
//! deterministic within a statement.

use vstd::prelude::*;

use crate::value::{
    dec_digits, dec_value, lemma_dec_digits_round_trip, lemma_dec_value_leading_zeros, raw_model,
    u64_to_dec, zero_chars, Value, ValueModel,
};

verus! {

/// The fixed prefix of every generated parameter name.
pub open spec fn param_prefix() -> Seq<char> {
    "_param_"@
}

/// The position suffix of a parameter name: the decimal index, left-padded
/// with zeros to eight digits.
pub open spec fn padded_index(n: nat) -> Seq<char> {
    if dec_digits(n).len() >= 8 {
        dec_digits(n)
    } else {
        zero_chars((8 - dec_digits(n).len()) as nat) + dec_digits(n)
    }
}

/// The generated parameter name for the binding at position `n` of a
/// statement: a short fixed prefix and a bounded, position-derived suffix.
pub open spec fn param_name(n: nat) -> Seq<char> {
    param_prefix() + padded_index(n)
}

/// The padded suffix still denotes the index it was made from.
pub proof fn lemma_padded_index_value(n: nat)
    ensures
        dec_value(padded_index(n)) == n,
{
    lemma_dec_digits_round_trip(n);
    if dec_digits(n).len() < 8 {
        lemma_dec_value_leading_zeros((8 - dec_digits(n).len()) as nat, dec_digits(n));
    }
}

/// Distinct positions get distinct parameter names.
pub proof fn lemma_param_name_injective(a: nat, b: nat)
    requires
        param_name(a) == param_name(b),
    ensures
        a == b,
{
    let pl = param_prefix().len();
    assert(param_name(a).subrange(pl as int, param_name(a).len() as int) =~= padded_index(a));
    assert(param_name(b).subrange(pl as int, param_name(b).len() as int) =~= padded_index(b));
    assert(padded_index(a) == padded_index(b));
    lemma_padded_index_value(a);
    lemma_padded_index_value(b);
}

/// Renders the parameter name for position `idx`.
pub fn make_param_name(idx: usize) -> (r: String)
    ensures
        r@ == param_name(idx as nat),
{
    proof {
        reveal_strlit("_param_");
        reveal_strlit("0");
    }
    let mut r = String::from_str("_param_");
    let digits = u64_to_dec(idx as u64);
    let dlen = digits.as_str().unicode_len();
    let mut pad: usize = 0;
    let needed: usize = if dlen >= 8 {
        0
    } else {
        8 - dlen
    };
    while pad < needed
        invariant
            r@ == param_prefix() + zero_chars(pad as nat),
            pad <= needed,
            "0"@ == seq!['0'],
        decreases needed - pad,
    {
        r.append("0");
        proof {
            assert(r@ =~= param_prefix() + zero_chars((pad + 1) as nat));
        }
        pad = pad + 1;
    }
    r.append(digits.as_str());
    proof {
        assert(r@ =~= param_name(idx as nat));
    }
    r
}

/// One substitutable value in a query: a generated parameter name, the value
/// itself, a display name for diagnostics, the value's raw text, and an
/// optional description.
#[derive(Debug)]
pub struct Binding {
    param: String,
    value: Value,
    original_inline_name: String,
    raw_string: String,
    description: Option<String>,
}

/// The mathematical model of a `Binding`.
pub struct BindingModel {
    pub param: Seq<char>,
    pub value: ValueModel,
    pub name: Seq<char>,
    pub raw: Seq<char>,
    pub description: Option<Seq<char>>,
}

impl View for Binding {
    type V = BindingModel;

    closed spec fn view(&self) -> BindingModel {
        BindingModel {
            param: self.param@,
            value: self.value@,
            name: self.original_inline_name@,
            raw: self.raw_string@,
            description: match self.description {
                Some(ref d) => Some(d@),
                None => None,
            },
        }
    }
}

/// An ordered list of bindings; insertion order is first-use order in the
/// query text that references them.
pub type BindingsList = Vec<Binding>;

/// The models of a list of bindings, in order.
pub open spec fn bindings_model(s: Seq<Binding>) -> Seq<BindingModel> {
    Seq::new(s.len(), |i: int| s[i]@)
}

impl Binding {
    /// Creates a binding for `value` at a given position of its statement;
    /// the parameter name is derived from the position.
    pub(crate) fn new_at_index(value: Value, idx: usize) -> (r: Binding)
        ensures
            r@.param == param_name(idx as nat),
            r@.name == param_name(idx as nat),
            r@.value == value@,
            r@.raw == raw_model(value@),
            r@.description is None,
    {
        let param_string = make_param_name(idx);
        let raw_string = value.to_raw_string();
        let original = param_string.clone();
        Binding { param: param_string, value, original_inline_name: original, raw_string, description: None }
    }

    /// Creates a freshly named binding for `value`. Name generation never
    /// fails; the name of a standalone binding starts at the first position
    /// and is re-derived when the binding is embedded into a larger statement.
    pub fn new(value: Value) -> (r: Binding)
        ensures
            r@.param == param_name(0),
            r@.name == param_name(0),
            r@.value == value@,
            r@.raw == raw_model(value@),
            r@.description is None,
    {
        Binding::new_at_index(value, 0)
    }

    /// Re-derives the parameter name for a new position; everything else is
    /// kept.
    pub(crate) fn renumbered(self, idx: usize) -> (r: Binding)
        ensures
            r@ == (BindingModel { param: param_name(idx as nat), ..self@ }),
    {
        Binding { param: make_param_name(idx), ..self }
    }

    /// Replaces the raw text of the value.
    pub fn with_raw(self, raw_string: String) -> (r: Binding)
        ensures
            r@ == (BindingModel { raw: raw_string@, ..self@ }),
    {
        Binding { raw_string, ..self }
    }

    /// Replaces the display name used for diagnostics.
    pub fn with_name(self, original_name: String) -> (r: Binding)
        ensures
            r@ == (BindingModel { name: original_name@, ..self@ }),
    {
        Binding { original_inline_name: original_name, ..self }
    }

    /// Attaches a human-readable description.
    pub fn with_description(self, description: String) -> (r: Binding)
        ensures
            r@ == (BindingModel { description: Some(description@), ..self@ }),
    {
        Binding { description: Some(description), ..self }
    }

    /// The raw text of the bound value.
    pub fn get_raw(&self) -> (r: &String)
        ensures
            r@ == self@.raw,
    {
        &self.raw_string
    }

    /// The display name used for diagnostics.
    pub fn get_original_name(&self) -> (r: &String)
        ensures
            r@ == self@.name,
    {
        &self.original_inline_name
    }

    /// The generated parameter name.
    pub fn get_param(&self) -> (r: &String)
        ensures
            r@ == self@.param,
    {
        &self.param
    }

    /// The parameter name as it appears in query text: `$` and the name.
    pub fn get_param_dollarised(&self) -> (r: String)
        ensures
            r@ == seq!['$'] + self@.param,
    {
        proof {
            reveal_strlit("$");
        }
        let mut r = String::from_str("$");
        r.append(self.param.as_str());
        proof {
            assert(r@ =~= seq!['$'] + self@.param);
        }
        r
    }

    /// The description, or the empty string where none was attached.
    pub fn get_description(&self) -> (r: String)
        ensures
            self@.description matches Some(d) ==> r@ == d,
            self@.description is None ==> r@ == Seq::<char>::empty(),
    {
        match &self.description {
            Some(d) => d.clone(),
            None => String::new(),
        }
    }

    /// The bound value.
    pub fn get_value(&self) -> (r: &Value)
        ensures
            r@ == self@.value,
    {
        &self.value
    }
}

impl Clone for Binding {
    /// A structural copy: the copy has the same model as the original.
    fn clone(&self) -> (r: Self)
        ensures
            r@ == self@,
    {
        Binding {
            param: self.param.clone(),
            value: self.value.clone(),
            original_inline_name: self.original_inline_name.clone(),
            raw_string: self.raw_string.clone(),
            description: match &self.description {
                Some(d) => Some(d.clone()),
                None => None,
            },
        }
    }
}

/// Copies a list of bindings; the copy has the same models in the same order.
pub fn clone_bindings(v: &Vec<Binding>) -> (r: Vec<Binding>)
    ensures
        r@.len() == v@.len(),
        bindings_model(r@) == bindings_model(v@),
{
    let mut r: Vec<Binding> = Vec::new();
    let n = v.len();
    let mut idx: usize = 0;
    while idx < n
        invariant
            n == v@.len(),
            idx <= n,
            r@.len() == idx,
            forall|i: int| 0 <= i < idx ==> r@[i]@ == v@[i]@,
        decreases n - idx,
    {
        r.push(v[idx].clone());
        idx = idx + 1;
    }
    proof {
        assert(bindings_model(r@) =~= bindings_model(v@));
    }
    r
}

/// The capability to expose the bindings that a query fragment references.
pub trait Parametric {
    /// The model of the bindings this value owns, in left-to-right,
    /// depth-first construction order.
    spec fn bindings_spec(&self) -> Seq<BindingModel>;

    /// Returns this value's bindings. Two calls on the same value return
    /// lists with identical models in identical order.
    fn get_bindings(&self) -> (r: BindingsList)
        ensures
            bindings_model(r@) == self.bindings_spec(),
    ;
}

} // verus!
