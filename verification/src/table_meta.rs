//! The table-level attribute model of the newer derive: the struct
//! identifier and its derived helper identifiers, the declared table name
//! with its validation, and the table-definition builder.

use vstd::prelude::*;

use crate::attributes::{
    call_piece, flag_piece, permissions_piece, ConfigError, Permissions, Rename,
};
use crate::casing::{snake_text, to_snake_case};
use crate::type_rewrite::{segment_models, TypeExpr};

verus! {

/// The identifier of a struct under derivation.
#[derive(Debug, PartialEq, Eq)]
pub struct StructIdent(pub String);

/// The identifier of the struct's generated partial type.
#[derive(Debug, PartialEq, Eq)]
pub struct StructPartialIdent(pub String);

/// The identifier of the partial type's generated builder.
#[derive(Debug, PartialEq, Eq)]
pub struct StructPartialBuilderIdent(pub String);

impl StructIdent {
    /// The partial type's identifier: the struct's name with `Partial`.
    pub fn partial_ident(&self) -> (r: StructPartialIdent)
        ensures
            r.0@ == self.0@ + "Partial"@,
    {
        proof {
            reveal_strlit("Partial");
        }
        let mut t = self.0.clone();
        t.append("Partial");
        StructPartialIdent(t)
    }

    /// The partial builder's identifier: the partial name with `Builder`.
    pub fn partial_builder_ident(&self) -> (r: StructPartialBuilderIdent)
        ensures
            r.0@ == self.0@ + "Partial"@ + "Builder"@,
    {
        proof {
            reveal_strlit("Builder");
        }
        let partial = self.partial_ident();
        let StructPartialIdent(mut t) = partial;
        t.append("Builder");
        proof {
            assert(t@ =~= self.0@ + "Partial"@ + "Builder"@);
        }
        StructPartialBuilderIdent(t)
    }

    /// Whether a type's name is this struct's name: compares against the
    /// last segment of a path type; any other type shape has no name.
    pub fn is_same_name(&self, other: &TypeExpr) -> (r: Result<bool, ConfigError>)
        ensures
            (match other {
                TypeExpr::Path(p) => if p.segments@.len() > 0 {
                    r matches Ok(b) && b == (segment_models(p.segments@).last().ident
                        == self.0@)
                } else {
                    r is Err
                },
                _ => r is Err,
            }),
    {
        proof {
            reveal_strlit("a type with no name");
        }
        match other {
            TypeExpr::Path(p) => {
                if p.segments.len() > 0 {
                    let last = &p.segments[p.segments.len() - 1];
                    proof {
                        let segs = p.segments@;
                        assert(segment_models(segs).last() == crate::type_rewrite::segment_model(
                            segs.last(),
                        ));
                    }
                    Ok(last.ident == self.0)
                } else {
                    Err(ConfigError::UnexpectedValue(String::from_str("a type with no name")))
                }
            },
            _ => Err(ConfigError::UnexpectedValue(String::from_str("a type with no name"))),
        }
    }
}

impl Clone for StructIdent {
    /// A structural copy with the same name.
    fn clone(&self) -> (r: Self)
        ensures
            r.0@ == self.0@,
    {
        StructIdent(self.0.clone())
    }
}

/// The table-level attribute model of the newer derive: the struct's
/// identifier and generics, the declared table name, flags, and the
/// definition override.
#[derive(Debug)]
pub struct TableDeriveAttributes {
    pub ident: String,
    pub generics: Vec<crate::type_rewrite::GenericArgument>,
    pub table: String,
    pub rename_all: Option<Rename>,
    pub relax_table: Option<bool>,
    pub schemafull: Option<bool>,
    pub drop: Option<bool>,
    pub flexible: Option<bool>,
    pub as_: Option<String>,
    pub permissions: Option<Permissions>,
    pub define: Option<String>,
}

/// The mutually exclusive combinations of the newer table configuration: a
/// definition override beside any piecewise table attribute.
pub open spec fn table_derive_conflict(t: TableDeriveAttributes) -> bool {
    t.define is Some && (t.drop is Some || t.as_ is Some || t.schemafull is Some
        || t.flexible is Some || t.permissions is Some)
}

/// The generated table-definition text of the newer derive: the override
/// lowered to raw, or the define-table builder chain lowered to raw.
pub open spec fn table_derive_definition_text(t: TableDeriveAttributes) -> Seq<char> {
    match t.define {
        Some(d) => d@ + ".to_raw()"@,
        None => "define_table(Self::table())"@ + flag_piece(t.drop, ".drop()"@) + flag_piece(
            t.flexible,
            ".flexible()"@,
        ) + call_piece(".as_("@, t.as_, seq![')']) + flag_piece(t.schemafull, ".schemafull()"@)
            + permissions_piece(t.permissions) + ".to_raw()"@,
    }
}

impl TableDeriveAttributes {
    /// The struct's identifier.
    pub fn ident(&self) -> (r: StructIdent)
        ensures
            r.0@ == self.ident@,
    {
        StructIdent(self.ident.clone())
    }

    /// The struct's generic arguments.
    pub fn generics(&self) -> (r: &Vec<crate::type_rewrite::GenericArgument>)
        ensures
            r == &self.generics,
    {
        &self.generics
    }

    /// The declared table name, validated: unless relaxed, it must be the
    /// snake-case form of the struct identifier.
    pub fn table(&self) -> (r: Result<&String, ConfigError>)
        ensures
            (self.table@ == snake_text(self.ident@) || self.relax_table == Some(true)) ==> (r
                matches Ok(t) && t@ == self.table@),
            !(self.table@ == snake_text(self.ident@) || self.relax_table == Some(true)) ==> r
                is Err,
    {
        let expected = to_snake_case(self.ident.as_str());
        let relaxed = match self.relax_table {
            Some(b) => b,
            None => false,
        };
        if self.table == expected || relaxed {
            Ok(&self.table)
        } else {
            Err(ConfigError::UnexpectedValue(self.table.clone()))
        }
    }

    /// Generates the table definition. A definition override beside any
    /// piecewise table attribute is a configuration error.
    #[verifier::rlimit(80)]
    #[verifier::spinoff_prover]
    pub fn get_table_definition_token(&self) -> (res: Result<String, ConfigError>)
        ensures
            res is Err <==> table_derive_conflict(*self),
            res matches Ok(t) ==> t@ == table_derive_definition_text(*self),
    {
        proof {
            reveal_strlit("define");
            reveal_strlit("drop, flexible, as, schemafull or permissions attributes");
            reveal_strlit(".to_raw()");
            reveal_strlit("define_table(Self::table())");
            reveal_strlit(".drop()");
            reveal_strlit(".flexible()");
            reveal_strlit(".as_(");
            reveal_strlit(")");
            reveal_strlit(".schemafull()");
        }
        let has_extras = self.drop.is_some() || self.as_.is_some() || self.schemafull.is_some()
            || self.flexible.is_some() || self.permissions.is_some();
        if self.define.is_some() && has_extras {
            return Err(
                ConfigError::MutuallyExclusive(
                    String::from_str("define"),
                    String::from_str(
                        "drop, flexible, as, schemafull or permissions attributes",
                    ),
                ),
            );
        }
        match &self.define {
            Some(d) => {
                let mut t = d.clone();
                t.append(".to_raw()");
                Ok(t)
            },
            None => {
                let mut t = String::from_str("define_table(Self::table())");
                let drop_text = match &self.drop {
                    Some(_) => String::from_str(".drop()"),
                    None => String::new(),
                };
                t.append(drop_text.as_str());
                let flexible_text = match &self.flexible {
                    Some(_) => String::from_str(".flexible()"),
                    None => String::new(),
                };
                t.append(flexible_text.as_str());
                let as_text = crate::attributes::render_call_piece(".as_(", &self.as_, ")");
                t.append(as_text.as_str());
                let schemafull_text = match &self.schemafull {
                    Some(_) => String::from_str(".schemafull()"),
                    None => String::new(),
                };
                t.append(schemafull_text.as_str());
                let perm_text = match &self.permissions {
                    Some(p) => p.get_token_stream(),
                    None => String::new(),
                };
                t.append(perm_text.as_str());
                t.append(".to_raw()");
                proof {
                    assert(t@ =~= table_derive_definition_text(*self));
                }
                Ok(t)
            },
        }
    }
}

} // verus!
