//! A compile-time query builder and binding engine for a graph-relational
//! database: expression composers and statement builders that assemble
//! parameterized query text together with an ordered, collision-free list of
//! named parameter bindings.

use vstd::prelude::*;

pub mod attributes;
pub mod binding;
pub mod casing;
pub mod configs;
pub mod count;
pub mod define;
pub mod field;
pub mod field_type;
pub mod filter;
pub mod for_;
pub mod fragment;
pub mod maybe;
pub mod models;
pub mod oauth_model;
pub mod sql;
pub mod statements;
pub mod table_meta;
pub mod transaction;
pub mod type_rewrite;
pub mod value;

pub use attributes::{ConfigError, FieldTypeWrapper, FieldsGetterOpts, MyFieldReceiver, NormalisedField, Permissions, PermissionsFn, ReferencedNodeMeta, Relate, Rename};
pub use binding::{Binding, BindingsList, Parametric};
pub use casing::{apply_casing, to_camel_case, to_snake_case, CaseString};
pub use configs::{OauthConfigs, OauthGithubConfigs, OauthGoogleConfigs};
pub use count::{count, ArrayCustom, CountArg, Function};
pub use define::{define_field, define_table, DefineFieldStart, DefineFieldStatement, DefineTableStatement};
pub use field::{Conditional, Field, Operation};
pub use field_type::FieldType;
pub use filter::Filter;
pub use for_::{for_, For, ForArgs, ForCrudType, ForStart, PermissionForables, NONE};
pub use fragment::QueryFragment;
pub use maybe::Maybe;
pub use models::{Bar, ConsumingType, ConsumingTypeKeyNames, Foo};
pub use oauth_model::{pick_primary_email, token_expires_at, GithubConfig, OauthConfig, OauthEmail, OauthProvider};
pub use sql::{Buildable, Empty, RawStatement, ToRawStatement};
pub use statements::{create, select, select_user, update, All, CreateStart, CreateStatement, SelectStart, SelectStatement, UpdateStart, UpdateStatement};
pub use table_meta::{StructIdent, StructPartialBuilderIdent, StructPartialIdent, TableDeriveAttributes};
pub use transaction::{begin_transaction, Queryable, Transaction, TransactionBuilder};
pub use type_rewrite::{GenericArgument, PathSegment, ReplaceSelfVisitor, TypeExpr, TypePath};
pub use value::Value;

verus! {

/// An edge record type: the connection between an incoming and an outgoing
/// node, with a checker type for the relation.
pub trait Edge {
    type EdgeChecker;

    type InNode;

    type OutNode;
}

/// A model record type: it exposes its generated schema and its key.
pub trait SurrealdbModel {
    type Schema;

    /// The generated schema accessors.
    fn get_schema() -> Self::Schema;

    /// The record's key, where one has been assigned.
    fn get_key(&self) -> Option<String>;
}

/// A record key.
#[derive(Debug)]
pub struct Key(pub String);

/// Opens a free-form query under construction: an empty, well-formed
/// fragment to compose onto.
pub fn query() -> (r: QueryFragment)
    ensures
        r@.segs == Seq::<fragment::SegModel>::empty(),
        r@.binds == Seq::<binding::BindingModel>::empty(),
        r.wf(),
{
    QueryFragment::empty()
}

} // verus!
