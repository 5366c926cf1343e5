//! The closed, tagged value type that a query parameter can carry, together
//! with its deterministic raw-text rendering.

use vstd::prelude::*;

verus! {

/// A value that can be bound into a query as a parameter: scalars, record
/// pointers, arrays and nested documents.
#[derive(Debug, PartialEq, Eq)]
pub enum Value {
    /// The absent value.
    Null,
    Bool(bool),
    Int(i64),
    /// A string value.
    Strand(String),
    /// A record pointer: table name and record key, rendered `table:key`.
    Thing(String, String),
    Array(Vec<Value>),
    /// A document: ordered fields, each a name and a value.
    Object(Vec<(String, Value)>),
}

/// The mathematical model of a `Value`: the same tree over sequences.
pub enum ValueModel {
    Null,
    Bool(bool),
    Int(int),
    Strand(Seq<char>),
    Thing(Seq<char>, Seq<char>),
    Array(Seq<ValueModel>),
    Object(Seq<(Seq<char>, ValueModel)>),
}

pub open spec fn value_model(v: Value) -> ValueModel
    decreases v,
{
    match v {
        Value::Null => ValueModel::Null,
        Value::Bool(b) => ValueModel::Bool(b),
        Value::Int(i) => ValueModel::Int(i as int),
        Value::Strand(s) => ValueModel::Strand(s@),
        Value::Thing(t, k) => ValueModel::Thing(t@, k@),
        Value::Array(items) => ValueModel::Array(item_models(items@)),
        Value::Object(fields) => ValueModel::Object(field_models(fields@)),
    }
}

pub open spec fn item_models(s: Seq<Value>) -> Seq<ValueModel>
    decreases s,
{
    if s.len() == 0 {
        Seq::empty()
    } else {
        item_models(s.drop_last()).push(value_model(s.last()))
    }
}

pub open spec fn field_models(s: Seq<(String, Value)>) -> Seq<(Seq<char>, ValueModel)>
    decreases s,
{
    if s.len() == 0 {
        Seq::empty()
    } else {
        field_models(s.drop_last()).push((s.last().0@, value_model(s.last().1)))
    }
}

impl View for Value {
    type V = ValueModel;

    open spec fn view(&self) -> ValueModel {
        value_model(*self)
    }
}

/// The character for one decimal digit.
pub open spec fn digit_char(d: nat) -> char {
    if d == 0 {
        '0'
    } else if d == 1 {
        '1'
    } else if d == 2 {
        '2'
    } else if d == 3 {
        '3'
    } else if d == 4 {
        '4'
    } else if d == 5 {
        '5'
    } else if d == 6 {
        '6'
    } else if d == 7 {
        '7'
    } else if d == 8 {
        '8'
    } else {
        '9'
    }
}

/// The decimal rendering of a natural number, most significant digit first,
/// with no leading zeros (except for zero itself).
pub open spec fn dec_digits(n: nat) -> Seq<char>
    decreases n,
{
    if n < 10 {
        seq![digit_char(n)]
    } else {
        dec_digits(n / 10).push(digit_char(n % 10))
    }
}

fn digit_str(d: u64) -> (r: &'static str)
    requires
        d < 10,
    ensures
        r@ == seq![digit_char(d as nat)],
        r@.len() == 1,
{
    proof {
        reveal_strlit("0");
        reveal_strlit("1");
        reveal_strlit("2");
        reveal_strlit("3");
        reveal_strlit("4");
        reveal_strlit("5");
        reveal_strlit("6");
        reveal_strlit("7");
        reveal_strlit("8");
        reveal_strlit("9");
    }
    let r = if d == 0 {
        "0"
    } else if d == 1 {
        "1"
    } else if d == 2 {
        "2"
    } else if d == 3 {
        "3"
    } else if d == 4 {
        "4"
    } else if d == 5 {
        "5"
    } else if d == 6 {
        "6"
    } else if d == 7 {
        "7"
    } else if d == 8 {
        "8"
    } else {
        "9"
    };
    proof {
        assert(r@ =~= seq![digit_char(d as nat)]);
    }
    r
}

/// Renders a natural number in decimal.
pub fn u64_to_dec(n: u64) -> (r: String)
    ensures
        r@ == dec_digits(n as nat),
    decreases n,
{
    if n < 10 {
        let r = digit_str(n).to_owned();
        r
    } else {
        let mut s = u64_to_dec(n / 10);
        s.append(digit_str(n % 10));
        proof {
            assert(s@ =~= dec_digits(n as nat));
        }
        s
    }
}

/// The numeric value of one decimal digit character; inverse of `digit_char`.
pub open spec fn char_digit(c: char) -> nat {
    if c == '0' {
        0
    } else if c == '1' {
        1
    } else if c == '2' {
        2
    } else if c == '3' {
        3
    } else if c == '4' {
        4
    } else if c == '5' {
        5
    } else if c == '6' {
        6
    } else if c == '7' {
        7
    } else if c == '8' {
        8
    } else {
        9
    }
}

/// The natural number that a digit string denotes, leading zeros ignored.
pub open spec fn dec_value(s: Seq<char>) -> nat
    decreases s,
{
    if s.len() == 0 {
        0
    } else {
        dec_value(s.drop_last()) * 10 + char_digit(s.last())
    }
}

/// Reading back the decimal rendering of a number gives the number again.
pub proof fn lemma_dec_digits_round_trip(n: nat)
    ensures
        dec_value(dec_digits(n)) == n,
    decreases n,
{
    if n < 10 {
        let s = dec_digits(n);
        assert(s =~= seq![digit_char(n)]);
        assert(s.drop_last() =~= Seq::<char>::empty());
        assert(dec_value(s) == dec_value(s.drop_last()) * 10 + char_digit(s.last()));
        assert(char_digit(digit_char(n)) == n);
    } else {
        lemma_dec_digits_round_trip(n / 10);
        let s = dec_digits(n);
        assert(s == dec_digits(n / 10).push(digit_char(n % 10)));
        assert(s.drop_last() =~= dec_digits(n / 10));
        assert(s.last() == digit_char(n % 10));
        assert(dec_value(s) == dec_value(s.drop_last()) * 10 + char_digit(s.last()));
        assert(char_digit(digit_char(n % 10)) == n % 10);
        assert(dec_value(s) == (n / 10) * 10 + n % 10);
    }
}

/// A run of `k` zero characters.
pub open spec fn zero_chars(k: nat) -> Seq<char>
    decreases k,
{
    if k == 0 {
        Seq::empty()
    } else {
        zero_chars((k - 1) as nat).push('0')
    }
}

/// Leading zeros do not change the number a digit string denotes.
pub proof fn lemma_dec_value_leading_zeros(k: nat, s: Seq<char>)
    ensures
        dec_value(zero_chars(k) + s) == dec_value(s),
    decreases s,
{
    if s.len() == 0 {
        assert(zero_chars(k) + s =~= zero_chars(k));
        lemma_dec_value_zeros(k);
    } else {
        lemma_dec_value_leading_zeros(k, s.drop_last());
        assert((zero_chars(k) + s).drop_last() =~= zero_chars(k) + s.drop_last());
        assert((zero_chars(k) + s).last() == s.last());
    }
}

proof fn lemma_dec_value_zeros(k: nat)
    ensures
        dec_value(zero_chars(k)) == 0,
    decreases k,
{
    if k > 0 {
        lemma_dec_value_zeros((k - 1) as nat);
        assert(zero_chars(k).drop_last() =~= zero_chars((k - 1) as nat));
    }
}

/// The decimal rendering of an integer: a minus sign for negative values.
pub open spec fn int_text(i: int) -> Seq<char> {
    if i < 0 {
        seq!['-'] + dec_digits((-i) as nat)
    } else {
        dec_digits(i as nat)
    }
}

/// Renders a signed integer in decimal.
pub fn i64_to_dec(i: i64) -> (r: String)
    ensures
        r@ == int_text(i as int),
{
    if i >= 0 {
        u64_to_dec(i as u64)
    } else {
        let wide: i128 = i as i128;
        let mag: u64 = (-wide) as u64;
        proof {
            reveal_strlit("-");
        }
        let mut s = String::from_str("-");
        s.append(u64_to_dec(mag).as_str());
        proof {
            assert(s@ =~= int_text(i as int));
        }
        s
    }
}

/// The raw diagnostic text of a value: a deterministic rendering used for the
/// `Binding` raw string, never interpolated into query text.
pub open spec fn raw_model(m: ValueModel) -> Seq<char>
    decreases m,
{
    match m {
        ValueModel::Null => "NULL"@,
        ValueModel::Bool(b) => if b {
            "true"@
        } else {
            "false"@
        },
        ValueModel::Int(i) => int_text(i),
        ValueModel::Strand(s) => seq!['\''] + s + seq!['\''],
        ValueModel::Thing(t, k) => t + seq![':'] + k,
        ValueModel::Array(items) => seq!['['] + raw_list(items) + seq![']'],
        ValueModel::Object(fields) => seq!['{', ' '] + raw_fields(fields) + seq![' ', '}'],
    }
}

/// The raw texts of a sequence of values, joined with `", "`.
pub open spec fn raw_list(s: Seq<ValueModel>) -> Seq<char>
    decreases s,
{
    if s.len() == 0 {
        Seq::empty()
    } else if s.len() == 1 {
        raw_model(s.last())
    } else {
        raw_list(s.drop_last()) + seq![',', ' '] + raw_model(s.last())
    }
}

/// The raw texts of a sequence of document fields, joined with `", "`.
pub open spec fn raw_fields(s: Seq<(Seq<char>, ValueModel)>) -> Seq<char>
    decreases s,
{
    if s.len() == 0 {
        Seq::empty()
    } else if s.len() == 1 {
        s.last().0 + seq![':', ' '] + raw_model(s.last().1)
    } else {
        raw_fields(s.drop_last()) + seq![',', ' '] + s.last().0 + seq![':', ' '] + raw_model(
            s.last().1,
        )
    }
}

impl Value {
    /// Renders this value as its raw diagnostic text.
    pub fn to_raw_string(&self) -> (r: String)
        ensures
            r@ == raw_model(self@),
        decreases *self,
    {
        match self {
            Value::Null => {
                proof {
                    reveal_strlit("NULL");
                }
                String::from_str("NULL")
            },
            Value::Bool(b) => {
                proof {
                    reveal_strlit("true");
                    reveal_strlit("false");
                }
                if *b {
                    String::from_str("true")
                } else {
                    String::from_str("false")
                }
            },
            Value::Int(i) => i64_to_dec(*i),
            Value::Strand(s) => {
                proof {
                    reveal_strlit("'");
                }
                let mut r = String::from_str("'");
                r.append(s.as_str());
                r.append("'");
                proof {
                    assert(r@ =~= raw_model(self@));
                }
                r
            },
            Value::Thing(t, k) => {
                proof {
                    reveal_strlit(":");
                }
                let mut r = t.clone();
                r.append(":");
                r.append(k.as_str());
                proof {
                    assert(r@ =~= raw_model(self@));
                }
                r
            },
            Value::Array(items) => {
                proof {
                    reveal_strlit("[");
                    reveal_strlit("]");
                }
                let mut r = String::from_str("[");
                let body = render_items(items);
                r.append(body.as_str());
                r.append("]");
                proof {
                    assert(r@ =~= raw_model(self@));
                }
                r
            },
            Value::Object(fields) => {
                proof {
                    reveal_strlit("{ ");
                    reveal_strlit(" }");
                }
                let mut r = String::from_str("{ ");
                let body = render_fields(fields);
                r.append(body.as_str());
                r.append(" }");
                proof {
                    assert(r@ =~= raw_model(self@));
                }
                r
            },
        }
    }
}

fn render_items(items: &Vec<Value>) -> (r: String)
    ensures
        r@ == raw_list(item_models(items@)),
    decreases *items,
{
    proof {
        reveal_strlit(", ");
    }
    let mut r = String::new();
    let n = items.len();
    let mut idx: usize = 0;
    while idx < n
        invariant
            n == items@.len(),
            idx <= n,
            r@ == raw_list(item_models(items@.subrange(0, idx as int))),
            ", "@ == seq![',', ' '],
        decreases n - idx,
    {
        if idx > 0 {
            r.append(", ");
        }
        proof {
            lemma_item_models_len(items@.subrange(0, idx as int));
            assert(decreases_to!(items@ => items@[idx as int]));
            assert(decreases_to!(*items => items@[idx as int]));
        }
        let piece = items[idx].to_raw_string();
        r.append(piece.as_str());
        proof {
            let prev = items@.subrange(0, idx as int);
            let cur = items@.subrange(0, idx as int + 1);
            assert(cur.drop_last() =~= prev);
            assert(cur.last() == items@[idx as int]);
            lemma_item_models_len(cur);
            assert(item_models(cur).drop_last() =~= item_models(prev));
            assert(r@ =~= raw_list(item_models(cur)));
        }
        idx = idx + 1;
    }
    proof {
        assert(items@.subrange(0, items@.len() as int) =~= items@);
    }
    r
}

fn render_fields(fields: &Vec<(String, Value)>) -> (r: String)
    ensures
        r@ == raw_fields(field_models(fields@)),
    decreases *fields,
{
    proof {
        reveal_strlit(", ");
        reveal_strlit(": ");
    }
    let mut r = String::new();
    let n = fields.len();
    let mut idx: usize = 0;
    while idx < n
        invariant
            n == fields@.len(),
            idx <= n,
            r@ == raw_fields(field_models(fields@.subrange(0, idx as int))),
            ", "@ == seq![',', ' '],
            ": "@ == seq![':', ' '],
        decreases n - idx,
    {
        if idx > 0 {
            r.append(", ");
        }
        r.append(fields[idx].0.as_str());
        r.append(": ");
        proof {
            lemma_field_models_len(fields@.subrange(0, idx as int));
            assert(decreases_to!(fields@ => fields@[idx as int]));
            assert(decreases_to!(fields@[idx as int] => fields@[idx as int].1));
            assert(decreases_to!(*fields => fields@[idx as int].1));
        }
        let piece = (&fields[idx].1).to_raw_string();
        r.append(piece.as_str());
        proof {
            let prev = fields@.subrange(0, idx as int);
            let cur = fields@.subrange(0, idx as int + 1);
            assert(cur.drop_last() =~= prev);
            assert(cur.last() == fields@[idx as int]);
            lemma_field_models_len(cur);
            assert(field_models(cur).drop_last() =~= field_models(prev));
            assert(r@ =~= raw_fields(field_models(cur)));
        }
        idx = idx + 1;
    }
    proof {
        assert(fields@.subrange(0, fields@.len() as int) =~= fields@);
    }
    r
}

impl Clone for Value {
    /// A structural copy: the copy has the same model as the original.
    fn clone(&self) -> (r: Self)
        ensures
            r@ == self@,
        decreases *self,
    {
        match self {
            Value::Null => Value::Null,
            Value::Bool(b) => Value::Bool(*b),
            Value::Int(i) => Value::Int(*i),
            Value::Strand(s) => Value::Strand(s.clone()),
            Value::Thing(t, k) => Value::Thing(t.clone(), k.clone()),
            Value::Array(items) => Value::Array(clone_items(items)),
            Value::Object(fields) => Value::Object(clone_fields(fields)),
        }
    }
}

fn clone_items(items: &Vec<Value>) -> (r: Vec<Value>)
    ensures
        item_models(r@) == item_models(items@),
        r@.len() == items@.len(),
    decreases *items,
{
    let mut r: Vec<Value> = Vec::new();
    let n = items.len();
    let mut idx: usize = 0;
    while idx < n
        invariant
            n == items@.len(),
            idx <= n,
            r@.len() == idx,
            item_models(r@) == item_models(items@.subrange(0, idx as int)),
        decreases n - idx,
    {
        proof {
            assert(decreases_to!(items@ => items@[idx as int]));
            assert(decreases_to!(*items => items@[idx as int]));
        }
        let ghost prev_r = r@;
        r.push(items[idx].clone());
        proof {
            let prev = items@.subrange(0, idx as int);
            let cur = items@.subrange(0, idx as int + 1);
            assert(cur.drop_last() =~= prev);
            assert(cur.last() == items@[idx as int]);
            assert(r@.drop_last() =~= prev_r);
            assert(item_models(r@) == item_models(cur));
        }
        idx = idx + 1;
    }
    proof {
        assert(items@.subrange(0, items@.len() as int) =~= items@);
    }
    r
}

fn clone_fields(fields: &Vec<(String, Value)>) -> (r: Vec<(String, Value)>)
    ensures
        field_models(r@) == field_models(fields@),
        r@.len() == fields@.len(),
    decreases *fields,
{
    let mut r: Vec<(String, Value)> = Vec::new();
    let n = fields.len();
    let mut idx: usize = 0;
    while idx < n
        invariant
            n == fields@.len(),
            idx <= n,
            r@.len() == idx,
            field_models(r@) == field_models(fields@.subrange(0, idx as int)),
        decreases n - idx,
    {
        proof {
            assert(decreases_to!(fields@ => fields@[idx as int]));
            assert(decreases_to!(fields@[idx as int] => fields@[idx as int].1));
            assert(decreases_to!(*fields => fields@[idx as int].1));
        }
        let ghost prev_r = r@;
        let name = fields[idx].0.clone();
        let val = (&fields[idx].1).clone();
        r.push((name, val));
        proof {
            let prev = fields@.subrange(0, idx as int);
            let cur = fields@.subrange(0, idx as int + 1);
            assert(cur.drop_last() =~= prev);
            assert(cur.last() == fields@[idx as int]);
            assert(r@.drop_last() =~= prev_r);
            assert(field_models(r@) == field_models(cur));
        }
        idx = idx + 1;
    }
    proof {
        assert(fields@.subrange(0, fields@.len() as int) =~= fields@);
    }
    r
}

proof fn lemma_item_models_len(s: Seq<Value>)
    ensures
        item_models(s).len() == s.len(),
    decreases s,
{
    if s.len() > 0 {
        lemma_item_models_len(s.drop_last());
    }
}

proof fn lemma_field_models_len(s: Seq<(String, Value)>)
    ensures
        field_models(s).len() == s.len(),
    decreases s,
{
    if s.len() > 0 {
        lemma_field_models_len(s.drop_last());
    }
}

} // verus!


verus! {

impl From<i64> for Value {
    fn from(value: i64) -> (r: Self)
        ensures
            r == Value::Int(value),
    {
        Value::Int(value)
    }
}

impl vstd::std_specs::convert::FromSpecImpl<i64> for Value {
    open spec fn obeys_from_spec() -> bool {
        true
    }

    open spec fn from_spec(v: i64) -> Self {
        Value::Int(v)
    }
}

impl From<bool> for Value {
    fn from(value: bool) -> (r: Self)
        ensures
            r == Value::Bool(value),
    {
        Value::Bool(value)
    }
}

impl vstd::std_specs::convert::FromSpecImpl<bool> for Value {
    open spec fn obeys_from_spec() -> bool {
        true
    }

    open spec fn from_spec(v: bool) -> Self {
        Value::Bool(v)
    }
}

impl From<String> for Value {
    fn from(value: String) -> (r: Self)
        ensures
            r == Value::Strand(value),
    {
        Value::Strand(value)
    }
}

impl vstd::std_specs::convert::FromSpecImpl<String> for Value {
    open spec fn obeys_from_spec() -> bool {
        true
    }

    open spec fn from_spec(v: String) -> Self {
        Value::Strand(v)
    }
}

impl From<Vec<Value>> for Value {
    fn from(value: Vec<Value>) -> (r: Self)
        ensures
            r == Value::Array(value),
    {
        Value::Array(value)
    }
}

impl vstd::std_specs::convert::FromSpecImpl<Vec<Value>> for Value {
    open spec fn obeys_from_spec() -> bool {
        true
    }

    open spec fn from_spec(v: Vec<Value>) -> Self {
        Value::Array(v)
    }
}

} // verus!
