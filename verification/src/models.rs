//! Small record types whose generated accessors are written out by hand:
//! attribute-derived constants and serialized key names.

use vstd::prelude::*;

verus! {

/// A record whose serialized field names differ from the declared ones.
#[derive(Debug)]
pub struct ConsumingType {
    pub name_of_me: String,
    pub age: u8,
}

/// The serialized key names of `ConsumingType`, one field per key.
#[derive(Debug)]
pub struct ConsumingTypeKeyNames {
    pub lowo_cool: String,
    pub lmsar: String,
}

impl ConsumingType {
    /// The serialized key names: the declared renames win over the
    /// struct-level casing.
    pub fn get_field_names() -> (r: ConsumingTypeKeyNames)
        ensures
            r.lowo_cool@ == "lowo_cool"@,
            r.lmsar@ == "lmsar"@,
    {
        proof {
            reveal_strlit("lowo_cool");
            reveal_strlit("lmsar");
        }
        ConsumingTypeKeyNames {
            lowo_cool: String::from_str("lowo_cool"),
            lmsar: String::from_str("lmsar"),
        }
    }
}

/// A record with an attribute-derived answer and level.
#[derive(Debug)]
pub struct Foo {
    pub group: String,
}

impl Foo {
    /// The declared answer.
    pub fn answer() -> (r: u64)
        ensures
            r == 50,
    {
        50
    }

    /// The declared level, capitalized.
    pub fn level() -> (r: String)
        ensures
            r@ == "High"@,
    {
        proof {
            reveal_strlit("High");
        }
        String::from_str("High")
    }
}

/// A second record with an attribute-derived answer and level.
#[derive(Debug)]
pub struct Bar {
    pub name: String,
    pub age: u8,
}

impl Bar {
    /// The declared answer.
    pub fn answer() -> (r: u64)
        ensures
            r == 20,
    {
        20
    }

    /// The declared level, capitalized.
    pub fn level() -> (r: String)
        ensures
            r@ == "Low"@,
    {
        proof {
            reveal_strlit("Low");
        }
        String::from_str("Low")
    }
}

} // verus!
