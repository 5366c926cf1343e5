//! The query language's field-type grammar: the closed set of type tokens a
//! field declaration can carry, with a verified parser that accepts exactly
//! the grammar and renders back to the text it was parsed from.

use vstd::prelude::*;

verus! {

/// A declared field type of the query language.
#[derive(Debug, PartialEq, Eq)]
pub enum FieldType {
    Any,
    Array,
    Bool,
    Datetime,
    Decimal,
    Duration,
    Float,
    Int,
    Number,
    Object,
    Strand,
    /// A record pointer type: `record(<table>)`.
    Record(String),
    /// A geometry type: `geometry(<kind>)`.
    Geometry(String),
}

/// The canonical text of a field type; parsing accepts exactly these forms.
pub open spec fn field_type_text(ft: FieldType) -> Seq<char> {
    match ft {
        FieldType::Any => "any"@,
        FieldType::Array => "array"@,
        FieldType::Bool => "bool"@,
        FieldType::Datetime => "datetime"@,
        FieldType::Decimal => "decimal"@,
        FieldType::Duration => "duration"@,
        FieldType::Float => "float"@,
        FieldType::Int => "int"@,
        FieldType::Number => "number"@,
        FieldType::Object => "object"@,
        FieldType::Strand => "string"@,
        FieldType::Record(t) => "record("@ + t@ + seq![')'],
        FieldType::Geometry(k) => "geometry("@ + k@ + seq![')'],
    }
}

/// Whether a text is a record form: `record(` ... `)`.
pub open spec fn is_record_text(s: Seq<char>) -> bool {
    s.len() >= 8 && s.subrange(0, 7) == "record("@ && s.last() == ')'
}

/// Whether a text is a geometry form: `geometry(` ... `)`.
pub open spec fn is_geometry_text(s: Seq<char>) -> bool {
    s.len() >= 10 && s.subrange(0, 9) == "geometry("@ && s.last() == ')'
}

/// Whether a text belongs to the field-type grammar.
pub open spec fn is_field_type_text(s: Seq<char>) -> bool {
    ||| s == "any"@
    ||| s == "array"@
    ||| s == "bool"@
    ||| s == "datetime"@
    ||| s == "decimal"@
    ||| s == "duration"@
    ||| s == "float"@
    ||| s == "int"@
    ||| s == "number"@
    ||| s == "object"@
    ||| s == "string"@
    ||| is_record_text(s)
    ||| is_geometry_text(s)
}

impl FieldType {
    /// Renders the type's canonical text.
    pub fn render(&self) -> (r: String)
        ensures
            r@ == field_type_text(*self),
    {
        proof {
            reveal_strlit("any");
            reveal_strlit("array");
            reveal_strlit("bool");
            reveal_strlit("datetime");
            reveal_strlit("decimal");
            reveal_strlit("duration");
            reveal_strlit("float");
            reveal_strlit("int");
            reveal_strlit("number");
            reveal_strlit("object");
            reveal_strlit("string");
            reveal_strlit("record(");
            reveal_strlit("geometry(");
            reveal_strlit(")");
        }
        match self {
            FieldType::Any => String::from_str("any"),
            FieldType::Array => String::from_str("array"),
            FieldType::Bool => String::from_str("bool"),
            FieldType::Datetime => String::from_str("datetime"),
            FieldType::Decimal => String::from_str("decimal"),
            FieldType::Duration => String::from_str("duration"),
            FieldType::Float => String::from_str("float"),
            FieldType::Int => String::from_str("int"),
            FieldType::Number => String::from_str("number"),
            FieldType::Object => String::from_str("object"),
            FieldType::Strand => String::from_str("string"),
            FieldType::Record(t) => {
                let mut r = String::from_str("record(");
                r.append(t.as_str());
                r.append(")");
                proof {
                    assert(r@ =~= field_type_text(*self));
                }
                r
            },
            FieldType::Geometry(k) => {
                let mut r = String::from_str("geometry(");
                r.append(k.as_str());
                r.append(")");
                proof {
                    assert(r@ =~= field_type_text(*self));
                }
                r
            },
        }
    }

    /// Parses a field-type text: succeeds exactly on the grammar's forms,
    /// and what it accepts renders back to the input.
    pub fn parse(s: &str) -> (r: Option<FieldType>)
        ensures
            r is Some <==> is_field_type_text(s@),
            r matches Some(ft) ==> field_type_text(ft) == s@,
    {
        proof {
            reveal_strlit("any");
            reveal_strlit("array");
            reveal_strlit("bool");
            reveal_strlit("datetime");
            reveal_strlit("decimal");
            reveal_strlit("duration");
            reveal_strlit("float");
            reveal_strlit("int");
            reveal_strlit("number");
            reveal_strlit("object");
            reveal_strlit("string");
            reveal_strlit("record(");
            reveal_strlit("geometry(");
            reveal_strlit(")");
        }
        let text = s.to_owned();
        if text == String::from_str("any") {
            Some(FieldType::Any)
        } else if text == String::from_str("array") {
            Some(FieldType::Array)
        } else if text == String::from_str("bool") {
            Some(FieldType::Bool)
        } else if text == String::from_str("datetime") {
            Some(FieldType::Datetime)
        } else if text == String::from_str("decimal") {
            Some(FieldType::Decimal)
        } else if text == String::from_str("duration") {
            Some(FieldType::Duration)
        } else if text == String::from_str("float") {
            Some(FieldType::Float)
        } else if text == String::from_str("int") {
            Some(FieldType::Int)
        } else if text == String::from_str("number") {
            Some(FieldType::Number)
        } else if text == String::from_str("object") {
            Some(FieldType::Object)
        } else if text == String::from_str("string") {
            Some(FieldType::Strand)
        } else {
            let n = s.unicode_len();
            if n >= 8 && s.substring_char(0, 7).to_owned() == String::from_str("record(") && s.get_char(n - 1) == ')' {
                let name = s.substring_char(7, n - 1);
                let r = FieldType::Record(name.to_owned());
                proof {
                    assert(is_record_text(s@));
                    assert(field_type_text(r) =~= s@);
                }
                Some(r)
            } else if n >= 10 && s.substring_char(0, 9).to_owned() == String::from_str("geometry(")
                && s.get_char(n - 1) == ')' {
                let kind = s.substring_char(9, n - 1);
                let r = FieldType::Geometry(kind.to_owned());
                proof {
                    assert(is_geometry_text(s@));
                    assert(field_type_text(r) =~= s@);
                }
                Some(r)
            } else {
                proof {
                    assert(!is_field_type_text(s@));
                }
                None
            }
        }
    }
}

impl Clone for FieldType {
    /// A structural copy with the same canonical text.
    fn clone(&self) -> (r: Self)
        ensures
            field_type_text(r) == field_type_text(*self),
    {
        match self {
            FieldType::Any => FieldType::Any,
            FieldType::Array => FieldType::Array,
            FieldType::Bool => FieldType::Bool,
            FieldType::Datetime => FieldType::Datetime,
            FieldType::Decimal => FieldType::Decimal,
            FieldType::Duration => FieldType::Duration,
            FieldType::Float => FieldType::Float,
            FieldType::Int => FieldType::Int,
            FieldType::Number => FieldType::Number,
            FieldType::Object => FieldType::Object,
            FieldType::Strand => FieldType::Strand,
            FieldType::Record(t) => FieldType::Record(t.clone()),
            FieldType::Geometry(k) => FieldType::Geometry(k.clone()),
        }
    }
}

} // verus!
