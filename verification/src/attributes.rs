//! The validated attribute model that the schema-generation front end hands
//! over, and the definition builders that lower it to generated code text.
//! Mutually exclusive attribute pairs are rejected here, at generation time.

use vstd::prelude::*;

use crate::casing::{cased_text, lower_text, to_ascii_lowercase, CaseString};
use crate::field_type::{is_field_type_text, FieldType};
use crate::value::Value;

verus! {

/// A configuration error: raised immediately at construction or generation
/// time, never deferred to execution.
#[derive(Debug, PartialEq, Eq)]
pub enum ConfigError {
    /// Two attributes that may not be combined were both supplied; the
    /// fields name the attribute and what it conflicts with.
    MutuallyExclusive(String, String),
    /// A value of an unexpected kind was supplied for an attribute.
    UnexpectedValue(String),
    /// A declared field-type literal that does not parse against the query
    /// language's type grammar.
    InvalidFieldType(String),
}

impl ConfigError {
    /// A human-readable description of the error.
    pub fn message(&self) -> (r: String)
        ensures
            (match self {
                ConfigError::MutuallyExclusive(a, b) => r@ == a@
                    + " cannot be combined with "@ + b@,
                ConfigError::UnexpectedValue(w) => r@ == "unexpected value: "@ + w@,
                ConfigError::InvalidFieldType(t) => r@ == "invalid field type: "@ + t@,
            }),
    {
        proof {
            reveal_strlit(" cannot be combined with ");
            reveal_strlit("unexpected value: ");
            reveal_strlit("invalid field type: ");
        }
        match self {
            ConfigError::MutuallyExclusive(a, b) => {
                let mut r = a.clone();
                r.append(" cannot be combined with ");
                r.append(b.as_str());
                r
            },
            ConfigError::UnexpectedValue(w) => {
                let mut r = String::from_str("unexpected value: ");
                r.append(w.as_str());
                r
            },
            ConfigError::InvalidFieldType(t) => {
                let mut r = String::from_str("invalid field type: ");
                r.append(t.as_str());
                r
            },
        }
    }
}

/// A serde-style rename: only the serialized name matters here.
#[derive(Debug, PartialEq, Eq)]
pub struct Rename {
    pub serialize: String,
}

impl Rename {
    /// A rename given as a bare string.
    pub fn from_string(value: &str) -> (r: Rename)
        ensures
            r.serialize@ == value@,
    {
        Rename { serialize: value.to_owned() }
    }
}

impl Clone for Rename {
    /// A structural copy with the same serialized name.
    fn clone(&self) -> (r: Self)
        ensures
            r.serialize@ == self.serialize@,
    {
        Rename { serialize: self.serialize.clone() }
    }
}

/// A relation attribute: the connection (e.g. an edge arrow expression) and,
/// where given, the edge model's type name.
#[derive(Debug, PartialEq, Eq)]
pub struct Relate {
    pub connection_model: String,
    pub model: Option<String>,
}

impl Relate {
    /// A relation given as a bare connection string.
    pub fn from_string(value: &str) -> (r: Relate)
        ensures
            r.connection_model@ == value@,
            r.model is None,
    {
        Relate { connection_model: value.to_owned(), model: None }
    }

    /// A relation given with both a connection and a model name.
    pub fn from_parts(connection: &str, model: &str) -> (r: Relate)
        ensures
            r.connection_model@ == connection@,
            r.model matches Some(m) && m@ == model@,
    {
        Relate { connection_model: connection.to_owned(), model: Some(model.to_owned()) }
    }
}

/// A literal permissions attribute: full access, no access, or the name of
/// an expression to interpolate.
#[derive(Debug, PartialEq, Eq)]
pub enum Permissions {
    Full,
    NoAccess,
    FnName(String),
}

/// The generated builder-call text of a literal permissions attribute.
pub open spec fn permissions_token_text(p: Permissions) -> Seq<char> {
    match p {
        Permissions::Full => ".permissions_full()"@,
        Permissions::NoAccess => ".permissions_none()"@,
        Permissions::FnName(name) => ".permissions_for("@ + name@ + seq![')'],
    }
}

impl Permissions {
    /// Lowers the attribute to the builder call it generates.
    pub fn get_token_stream(&self) -> (r: String)
        ensures
            r@ == permissions_token_text(*self),
    {
        proof {
            reveal_strlit(".permissions_full()");
            reveal_strlit(".permissions_none()");
            reveal_strlit(".permissions_for(");
            reveal_strlit(")");
        }
        match self {
            Permissions::Full => String::from_str(".permissions_full()"),
            Permissions::NoAccess => String::from_str(".permissions_none()"),
            Permissions::FnName(name) => {
                let mut r = String::from_str(".permissions_for(");
                r.append(name.as_str());
                r.append(")");
                proof {
                    assert(r@ =~= permissions_token_text(*self));
                }
                r
            },
        }
    }

    /// Reads the attribute from a literal value: a string reading `none` or
    /// `full` in any ASCII case picks the closed forms, any other string is
    /// an expression name; a non-string literal is rejected.
    pub fn from_value(value: &Value) -> (r: Result<Permissions, ConfigError>)
        ensures
            (match value {
                Value::Strand(s) => r matches Ok(p) && (if lower_text(s@) == "none"@ {
                    p == Permissions::NoAccess
                } else if lower_text(s@) == "full"@ {
                    p == Permissions::Full
                } else {
                    p matches Permissions::FnName(n) && n@ == s@
                }),
                _ => r is Err,
            }),
    {
        proof {
            reveal_strlit("none");
            reveal_strlit("full");
            reveal_strlit("permissions literal");
        }
        match value {
            Value::Strand(s) => {
                let low = to_ascii_lowercase(s.as_str());
                if low == String::from_str("none") {
                    Ok(Permissions::NoAccess)
                } else if low == String::from_str("full") {
                    Ok(Permissions::Full)
                } else {
                    Ok(Permissions::FnName(s.clone()))
                }
            },
            _ => Err(ConfigError::UnexpectedValue(String::from_str("permissions literal"))),
        }
    }
}

impl Clone for Permissions {
    /// A structural copy with the same generated text.
    fn clone(&self) -> (r: Self)
        ensures
            permissions_token_text(r) == permissions_token_text(*self),
    {
        match self {
            Permissions::Full => Permissions::Full,
            Permissions::NoAccess => Permissions::NoAccess,
            Permissions::FnName(name) => Permissions::FnName(name.clone()),
        }
    }
}

/// A function-based permissions attribute: full access, no access, or the
/// path of a function whose call supplies the permissions.
#[derive(Debug, PartialEq, Eq)]
pub enum PermissionsFn {
    Full,
    NoAccess,
    FnPath(String),
}

/// The generated builder-call text of a function-based permissions
/// attribute.
pub open spec fn permissions_fn_token_text(p: PermissionsFn) -> Seq<char> {
    match p {
        PermissionsFn::Full => ".permissions_full()"@,
        PermissionsFn::NoAccess => ".permissions_none()"@,
        PermissionsFn::FnPath(path) => ".permissions_for("@ + path@ + "())"@,
    }
}

impl PermissionsFn {
    /// Lowers the attribute to the builder call it generates.
    pub fn get_token_stream(&self) -> (r: String)
        ensures
            r@ == permissions_fn_token_text(*self),
    {
        proof {
            reveal_strlit(".permissions_full()");
            reveal_strlit(".permissions_none()");
            reveal_strlit(".permissions_for(");
            reveal_strlit("())");
        }
        match self {
            PermissionsFn::Full => String::from_str(".permissions_full()"),
            PermissionsFn::NoAccess => String::from_str(".permissions_none()"),
            PermissionsFn::FnPath(path) => {
                let mut r = String::from_str(".permissions_for(");
                r.append(path.as_str());
                r.append("())");
                proof {
                    assert(r@ =~= permissions_fn_token_text(*self));
                }
                r
            },
        }
    }

    /// Reads the closed forms from a bare string: `none` or `full` in any
    /// ASCII case; anything else is rejected.
    pub fn from_string(value: &str) -> (r: Result<PermissionsFn, ConfigError>)
        ensures
            lower_text(value@) == "none"@ ==> r == Result::<PermissionsFn, ConfigError>::Ok(
                PermissionsFn::NoAccess,
            ),
            lower_text(value@) == "full"@ ==> r == Result::<PermissionsFn, ConfigError>::Ok(
                PermissionsFn::Full,
            ),
            lower_text(value@) != "none"@ && lower_text(value@) != "full"@ ==> r is Err,
    {
        proof {
            reveal_strlit("none");
            reveal_strlit("full");
            assert("none"@[0] == 'n' && "full"@[0] == 'f');
            assert("none"@ != "full"@);
        }
        let low = to_ascii_lowercase(value);
        if low == String::from_str("none") {
            Ok(PermissionsFn::NoAccess)
        } else if low == String::from_str("full") {
            Ok(PermissionsFn::Full)
        } else {
            Err(ConfigError::UnexpectedValue(value.to_owned()))
        }
    }

    /// Reads a function path from a literal value: any string is taken as a
    /// path, a non-string literal is rejected.
    pub fn from_value(value: &Value) -> (r: Result<PermissionsFn, ConfigError>)
        ensures
            (match value {
                Value::Strand(s) => r matches Ok(p) && p matches PermissionsFn::FnPath(q) && q@
                    == s@,
                _ => r is Err,
            }),
    {
        proof {
            reveal_strlit("permissions function literal");
        }
        match value {
            Value::Strand(s) => Ok(PermissionsFn::FnPath(s.clone())),
            _ => Err(
                ConfigError::UnexpectedValue(String::from_str("permissions function literal")),
            ),
        }
    }
}

impl Clone for PermissionsFn {
    /// A structural copy with the same generated text.
    fn clone(&self) -> (r: Self)
        ensures
            permissions_fn_token_text(r) == permissions_fn_token_text(*self),
    {
        match self {
            PermissionsFn::Full => PermissionsFn::Full,
            PermissionsFn::NoAccess => PermissionsFn::NoAccess,
            PermissionsFn::FnPath(path) => PermissionsFn::FnPath(path.clone()),
        }
    }
}

/// A declared field-type literal, kept as text once it has been checked
/// against the type grammar.
#[derive(Debug, PartialEq, Eq)]
pub struct FieldTypeWrapper(pub String);

impl FieldTypeWrapper {
    /// Accepts a field-type literal exactly when it parses against the
    /// query language's type grammar; the offending literal is reported
    /// otherwise.
    pub fn from_string(value: &str) -> (r: Result<FieldTypeWrapper, ConfigError>)
        ensures
            r is Ok <==> is_field_type_text(value@),
            r matches Ok(w) ==> w.0@ == value@,
            r matches Err(e) ==> (e matches ConfigError::InvalidFieldType(t) && t@ == value@),
    {
        match FieldType::parse(value) {
            Some(_) => Ok(FieldTypeWrapper(value.to_owned())),
            None => Err(ConfigError::InvalidFieldType(value.to_owned())),
        }
    }
}

impl Clone for FieldTypeWrapper {
    /// A structural copy with the same text.
    fn clone(&self) -> (r: Self)
        ensures
            r.0@ == self.0@,
    {
        FieldTypeWrapper(self.0.clone())
    }
}

} // verus!

verus! {

/// The per-field attribute model, as the front end hands it over: the
/// field's declared identifier, serde-style renaming, link kinds, and the
/// literal-or-function choices for type, assertion, value, definition and
/// permissions.
#[derive(Debug)]
pub struct MyFieldReceiver {
    pub ident: Option<String>,
    pub rename: Option<Rename>,
    pub relate: Option<Relate>,
    pub link_one: Option<String>,
    pub link_self: Option<String>,
    pub link_many: Option<String>,
    pub skip_serializing: bool,
    pub type_: Option<FieldTypeWrapper>,
    pub assertion: Option<String>,
    pub assertion_fn: Option<String>,
    pub define: Option<String>,
    pub define_fn: Option<String>,
    pub value: Option<String>,
    pub value_fn: Option<String>,
    pub permissions: Option<Permissions>,
    pub permissions_fn: Option<PermissionsFn>,
}

/// Whether a whole-definition override was supplied for a field.
pub open spec fn has_field_define(r: MyFieldReceiver) -> bool {
    r.define is Some || r.define_fn is Some
}

/// Whether any piecewise field attribute was supplied beside a definition
/// override.
pub open spec fn has_field_extras(r: MyFieldReceiver) -> bool {
    ||| r.type_ is Some
    ||| r.assertion is Some
    ||| r.assertion_fn is Some
    ||| r.value is Some
    ||| r.value_fn is Some
    ||| r.permissions is Some
    ||| r.permissions_fn is Some
}

/// The mutually exclusive combinations a field configuration can break: a
/// definition override beside piecewise attributes, or both the literal and
/// the function form of the same concept.
pub open spec fn field_def_conflict(r: MyFieldReceiver) -> bool {
    ||| (has_field_define(r) && has_field_extras(r))
    ||| (r.define is Some && r.define_fn is Some)
    ||| (r.value is Some && r.value_fn is Some)
    ||| (r.assertion is Some && r.assertion_fn is Some)
    ||| (r.permissions is Some && r.permissions_fn is Some)
}

/// The generated field-definition text for a valid configuration: the
/// override verbatim where one was given, otherwise the define-field builder
/// chain with one call per supplied attribute.
pub open spec fn call_piece(prefix: Seq<char>, o: Option<String>, close: Seq<char>) -> Seq<char> {
    match o {
        Some(s) => prefix + s@ + close,
        None => Seq::<char>::empty(),
    }
}

pub open spec fn type_piece(o: Option<FieldTypeWrapper>) -> Seq<char> {
    match o {
        Some(t) => ".type_("@ + t.0@ + seq![')'],
        None => Seq::<char>::empty(),
    }
}

pub open spec fn permissions_piece(o: Option<Permissions>) -> Seq<char> {
    match o {
        Some(p) => permissions_token_text(p),
        None => Seq::<char>::empty(),
    }
}

pub open spec fn permissions_fn_piece(o: Option<PermissionsFn>) -> Seq<char> {
    match o {
        Some(p) => permissions_fn_token_text(p),
        None => Seq::<char>::empty(),
    }
}

pub open spec fn field_definition_text(
    r: MyFieldReceiver,
    table: Seq<char>,
    field: Seq<char>,
) -> Seq<char> {
    match r.define {
        Some(d) => d@,
        None => match r.define_fn {
            Some(f) => f@ + "()"@,
            None => "define_field("@ + field + ").on_table("@ + table + seq![')']
                + type_piece(r.type_) + call_piece(".value("@, r.value, seq![')'])
                + call_piece(".value("@, r.value_fn, "())"@)
                + call_piece(".assert("@, r.assertion, seq![')'])
                + call_piece(".assert("@, r.assertion_fn, "())"@)
                + permissions_piece(r.permissions)
                + permissions_fn_piece(r.permissions_fn),
        },
    }
}

/// Renders one optional builder call: the prefix, the attribute text and the
/// closing tokens, or nothing where the attribute is absent.
pub(crate) fn render_call_piece(prefix: &str, o: &Option<String>, close: &str) -> (r: String)
    ensures
        r@ == call_piece(prefix@, *o, close@),
{
    match o {
        Some(s) => {
            let mut r = prefix.to_owned();
            r.append(s.as_str());
            r.append(close);
            proof {
                assert(r@ =~= call_piece(prefix@, *o, close@));
            }
            r
        },
        None => String::new(),
    }
}

/// What the code generator knows about one referenced node: the generated
/// import, validator, alias method and field definition, as code text.
#[derive(Debug)]
pub struct ReferencedNodeMeta {
    pub foreign_node_type: String,
    pub foreign_node_schema_import: String,
    pub record_link_default_alias_as_method: String,
    pub foreign_node_type_validator: String,
    pub field_definition: String,
}

impl Default for ReferencedNodeMeta {
    /// Empty code text throughout.
    fn default() -> (r: Self)
        ensures
            r.foreign_node_type@ == Seq::<char>::empty(),
            r.foreign_node_schema_import@ == Seq::<char>::empty(),
            r.record_link_default_alias_as_method@ == Seq::<char>::empty(),
            r.foreign_node_type_validator@ == Seq::<char>::empty(),
            r.field_definition@ == Seq::<char>::empty(),
    {
        ReferencedNodeMeta {
            foreign_node_type: String::new(),
            foreign_node_schema_import: String::new(),
            record_link_default_alias_as_method: String::new(),
            foreign_node_type_validator: String::new(),
            field_definition: String::new(),
        }
    }
}

impl ReferencedNodeMeta {
    /// Attaches the field definition that a field's attributes generate.
    /// Supplying a definition override beside piecewise attributes, or both
    /// the literal and the function form of the same concept, is a
    /// configuration error; nothing is silently resolved by precedence.
    #[verifier::rlimit(80)]
    pub fn with_field_definition(
        self,
        field_receiver: &MyFieldReceiver,
        struct_name_ident_str: &String,
        field_name_normalized: &String,
    ) -> (res: Result<ReferencedNodeMeta, ConfigError>)
        ensures
            res is Err <==> field_def_conflict(*field_receiver),
            res matches Ok(m) ==> {
                &&& m.field_definition@ == field_definition_text(
                    *field_receiver,
                    struct_name_ident_str@,
                    field_name_normalized@,
                )
                &&& m.foreign_node_type@ == self.foreign_node_type@
                &&& m.foreign_node_schema_import@ == self.foreign_node_schema_import@
                &&& m.record_link_default_alias_as_method@
                    == self.record_link_default_alias_as_method@
                &&& m.foreign_node_type_validator@ == self.foreign_node_type_validator@
            },
    {
        proof {
            reveal_strlit("define");
            reveal_strlit("define_fn");
            reveal_strlit("type, assert, value or permissions attributes");
            reveal_strlit("value");
            reveal_strlit("value_fn");
            reveal_strlit("assert");
            reveal_strlit("assert_fn");
            reveal_strlit("permissions");
            reveal_strlit("permissions_fn");
            reveal_strlit("()");
            reveal_strlit("())");
            reveal_strlit("define_field(");
            reveal_strlit(").on_table(");
            reveal_strlit(")");
            reveal_strlit(".type_(");
            reveal_strlit(".value(");
            reveal_strlit(".assert(");
        }
        let has_define = field_receiver.define.is_some() || field_receiver.define_fn.is_some();
        let has_extras = field_receiver.type_.is_some() || field_receiver.assertion.is_some()
            || field_receiver.assertion_fn.is_some() || field_receiver.value.is_some()
            || field_receiver.value_fn.is_some() || field_receiver.permissions.is_some()
            || field_receiver.permissions_fn.is_some();
        if has_define && has_extras {
            return Err(
                ConfigError::MutuallyExclusive(
                    String::from_str("define"),
                    String::from_str("type, assert, value or permissions attributes"),
                ),
            );
        }
        if field_receiver.define.is_some() && field_receiver.define_fn.is_some() {
            return Err(
                ConfigError::MutuallyExclusive(
                    String::from_str("define"),
                    String::from_str("define_fn"),
                ),
            );
        }
        if field_receiver.value.is_some() && field_receiver.value_fn.is_some() {
            return Err(
                ConfigError::MutuallyExclusive(
                    String::from_str("value"),
                    String::from_str("value_fn"),
                ),
            );
        }
        if field_receiver.assertion.is_some() && field_receiver.assertion_fn.is_some() {
            return Err(
                ConfigError::MutuallyExclusive(
                    String::from_str("assert"),
                    String::from_str("assert_fn"),
                ),
            );
        }
        if field_receiver.permissions.is_some() && field_receiver.permissions_fn.is_some() {
            return Err(
                ConfigError::MutuallyExclusive(
                    String::from_str("permissions"),
                    String::from_str("permissions_fn"),
                ),
            );
        }
        let definition: String = match &field_receiver.define {
            Some(d) => d.clone(),
            None => match &field_receiver.define_fn {
                Some(f) => {
                    let mut t = f.clone();
                    t.append("()");
                    t
                },
                None => {
                    let mut t = String::from_str("define_field(");
                    t.append(field_name_normalized.as_str());
                    t.append(").on_table(");
                    t.append(struct_name_ident_str.as_str());
                    t.append(")");
                    let type_text = match &field_receiver.type_ {
                        Some(w) => {
                            let mut p = String::from_str(".type_(");
                            p.append(w.0.as_str());
                            p.append(")");
                            proof {
                                assert(p@ =~= type_piece(field_receiver.type_));
                            }
                            p
                        },
                        None => String::new(),
                    };
                    t.append(type_text.as_str());
                    let value_text = render_call_piece(".value(", &field_receiver.value, ")");
                    t.append(value_text.as_str());
                    let value_fn_text = render_call_piece(
                        ".value(",
                        &field_receiver.value_fn,
                        "())",
                    );
                    t.append(value_fn_text.as_str());
                    let assert_text = render_call_piece(
                        ".assert(",
                        &field_receiver.assertion,
                        ")",
                    );
                    t.append(assert_text.as_str());
                    let assert_fn_text = render_call_piece(
                        ".assert(",
                        &field_receiver.assertion_fn,
                        "())",
                    );
                    t.append(assert_fn_text.as_str());
                    let perm_text = match &field_receiver.permissions {
                        Some(p) => p.get_token_stream(),
                        None => String::new(),
                    };
                    t.append(perm_text.as_str());
                    let perm_fn_text = match &field_receiver.permissions_fn {
                        Some(p) => p.get_token_stream(),
                        None => String::new(),
                    };
                    t.append(perm_fn_text.as_str());
                    proof {
                        assert(t@ =~= field_definition_text(
                            *field_receiver,
                            struct_name_ident_str@,
                            field_name_normalized@,
                        ));
                    }
                    t
                },
            },
        };
        Ok(ReferencedNodeMeta { field_definition: definition, ..self })
    }
}

} // verus!

verus! {

/// The table-level attribute model for the older field-getter derive: the
/// struct identifier, naming flags, and the literal-or-function choices for
/// the table definition.
#[derive(Debug)]
pub struct FieldsGetterOpts {
    pub ident: String,
    pub rename_all: Option<Rename>,
    pub table_name: Option<String>,
    pub relax_table_name: Option<bool>,
    pub schemafull: Option<bool>,
    pub drop: Option<bool>,
    pub as_: Option<String>,
    pub as_fn: Option<String>,
    pub permissions: Option<Permissions>,
    pub permissions_fn: Option<PermissionsFn>,
    pub define: Option<String>,
    pub define_fn: Option<String>,
}

/// The table name a configuration resolves to: the explicit name, or the
/// snake-case form of the struct identifier.
pub open spec fn table_name_text(o: FieldsGetterOpts) -> Seq<char> {
    match o.table_name {
        Some(t) => t@,
        None => crate::casing::snake_text(o.ident@),
    }
}

/// The mutually exclusive combinations a table configuration can break.
pub open spec fn table_def_conflict(o: FieldsGetterOpts) -> bool {
    ||| ((o.define is Some || o.define_fn is Some) && (o.drop is Some || o.as_ is Some
        || o.as_fn is Some || o.schemafull is Some || o.permissions is Some
        || o.permissions_fn is Some))
    ||| (o.define is Some && o.define_fn is Some)
    ||| (o.as_ is Some && o.as_fn is Some)
    ||| (o.permissions is Some && o.permissions_fn is Some)
}

/// One optional flag piece: the builder call where the flag was supplied.
pub open spec fn flag_piece(o: Option<bool>, call: Seq<char>) -> Seq<char> {
    match o {
        Some(_) => call,
        None => Seq::<char>::empty(),
    }
}

/// One optional function-call piece: the path followed by `()`.
pub open spec fn fn_call_piece(o: Option<String>) -> Seq<char> {
    match o {
        Some(f) => f@ + "()"@,
        None => Seq::<char>::empty(),
    }
}

/// The generated table-definition text for a valid configuration.
pub open spec fn table_definition_text(o: FieldsGetterOpts) -> Seq<char> {
    match o.define {
        Some(d) => d@,
        None => match o.define_fn {
            Some(f) => f@ + "()"@,
            None => "define_table("@ + table_name_text(o) + seq![')'] + flag_piece(
                o.drop,
                ".drop()"@,
            ) + call_piece(".as_("@, o.as_, seq![')']) + fn_call_piece(o.as_fn) + flag_piece(
                o.schemafull,
                ".schemafull()"@,
            ) + permissions_piece(o.permissions) + permissions_fn_piece(o.permissions_fn),
        },
    }
}

impl FieldsGetterOpts {
    /// Generates the table definition. Supplying a definition override
    /// beside the piecewise table attributes, or both the literal and the
    /// function form of the same concept, is a configuration error.
    #[verifier::rlimit(80)]
    #[verifier::spinoff_prover]
    pub fn get_table_definition_token(&self) -> (res: Result<String, ConfigError>)
        ensures
            res is Err <==> table_def_conflict(*self),
            res matches Ok(t) ==> t@ == table_definition_text(*self),
    {
        proof {
            reveal_strlit("define");
            reveal_strlit("define_fn");
            reveal_strlit("drop, as, as_fn, schemafull or permissions attributes");
            reveal_strlit("as");
            reveal_strlit("as_fn");
            reveal_strlit("permissions");
            reveal_strlit("permissions_fn");
            reveal_strlit("()");
            reveal_strlit("define_table(");
            reveal_strlit(")");
            reveal_strlit(".drop()");
            reveal_strlit(".as_(");
            reveal_strlit(".schemafull()");
        }
        let has_define = self.define.is_some() || self.define_fn.is_some();
        let has_extras = self.drop.is_some() || self.as_.is_some() || self.as_fn.is_some()
            || self.schemafull.is_some() || self.permissions.is_some()
            || self.permissions_fn.is_some();
        if has_define && has_extras {
            return Err(
                ConfigError::MutuallyExclusive(
                    String::from_str("define"),
                    String::from_str("drop, as, as_fn, schemafull or permissions attributes"),
                ),
            );
        }
        if self.define.is_some() && self.define_fn.is_some() {
            return Err(
                ConfigError::MutuallyExclusive(
                    String::from_str("define"),
                    String::from_str("define_fn"),
                ),
            );
        }
        if self.as_.is_some() && self.as_fn.is_some() {
            return Err(
                ConfigError::MutuallyExclusive(
                    String::from_str("as"),
                    String::from_str("as_fn"),
                ),
            );
        }
        if self.permissions.is_some() && self.permissions_fn.is_some() {
            return Err(
                ConfigError::MutuallyExclusive(
                    String::from_str("permissions"),
                    String::from_str("permissions_fn"),
                ),
            );
        }
        match &self.define {
            Some(d) => Ok(d.clone()),
            None => match &self.define_fn {
                Some(f) => {
                    let mut t = f.clone();
                    t.append("()");
                    Ok(t)
                },
                None => {
                    let mut t = String::from_str("define_table(");
                    let name = match &self.table_name {
                        Some(n) => n.clone(),
                        None => crate::casing::to_snake_case(self.ident.as_str()),
                    };
                    t.append(name.as_str());
                    t.append(")");
                    let drop_text = match &self.drop {
                        Some(_) => String::from_str(".drop()"),
                        None => String::new(),
                    };
                    t.append(drop_text.as_str());
                    let as_text = render_call_piece(".as_(", &self.as_, ")");
                    t.append(as_text.as_str());
                    let as_fn_text = match &self.as_fn {
                        Some(f) => {
                            let mut p = f.clone();
                            p.append("()");
                            p
                        },
                        None => String::new(),
                    };
                    t.append(as_fn_text.as_str());
                    let schemafull_text = match &self.schemafull {
                        Some(_) => String::from_str(".schemafull()"),
                        None => String::new(),
                    };
                    t.append(schemafull_text.as_str());
                    let perm_text = match &self.permissions {
                        Some(p) => p.get_token_stream(),
                        None => String::new(),
                    };
                    t.append(perm_text.as_str());
                    let perm_fn_text = match &self.permissions_fn {
                        Some(p) => p.get_token_stream(),
                        None => String::new(),
                    };
                    t.append(perm_fn_text.as_str());
                    proof {
                        assert(t@ =~= table_definition_text(*self));
                    }
                    Ok(t)
                },
            },
        }
    }
}

/// A field name in its normalised, serialized form: the identifier to use in
/// generated code, and its string form.
#[derive(Debug)]
pub struct NormalisedField {
    pub field_ident_normalised: String,
    pub field_ident_normalised_as_str: String,
}

/// The serialized name a field resolves to: an explicit rename takes
/// precedence over the struct-level casing of the declared identifier.
pub open spec fn normalised_name_text(
    r: MyFieldReceiver,
    casing: Option<CaseString>,
) -> Seq<char> {
    match r.rename {
        Some(rn) => rn.serialize@,
        None => cased_text(r.ident->0@, casing),
    }
}

impl NormalisedField {
    /// Normalises a field's name under the struct-level casing. The reserved
    /// name `in` becomes the identifier `in_` while its string form stays
    /// `in`.
    pub fn from_receiever(
        field_receiver: &MyFieldReceiver,
        struct_level_casing: Option<CaseString>,
    ) -> (r: NormalisedField)
        requires
            field_receiver.ident is Some,
        ensures
            normalised_name_text(*field_receiver, struct_level_casing) == "in"@ ==> {
                &&& r.field_ident_normalised@ == "in_"@
                &&& r.field_ident_normalised_as_str@ == "in"@
            },
            normalised_name_text(*field_receiver, struct_level_casing) != "in"@ ==> {
                &&& r.field_ident_normalised@ == normalised_name_text(
                    *field_receiver,
                    struct_level_casing,
                )
                &&& r.field_ident_normalised_as_str@ == normalised_name_text(
                    *field_receiver,
                    struct_level_casing,
                )
            },
    {
        proof {
            reveal_strlit("in");
            reveal_strlit("in_");
        }
        let normalised = match &field_receiver.rename {
            Some(rn) => rn.serialize.clone(),
            None => match &field_receiver.ident {
                Some(id) => crate::casing::apply_casing(id.as_str(), struct_level_casing),
                None => String::new(),
            },
        };
        if normalised == String::from_str("in") {
            NormalisedField {
                field_ident_normalised: String::from_str("in_"),
                field_ident_normalised_as_str: String::from_str("in"),
            }
        } else {
            let as_str = normalised.clone();
            NormalisedField {
                field_ident_normalised: normalised,
                field_ident_normalised_as_str: as_str,
            }
        }
    }
}

/// The generated schema import for a referenced node type: nothing for the
/// type under definition, an aliased associated-schema import otherwise.
pub open spec fn schema_import_text(node_type: Seq<char>, struct_name: Seq<char>) -> Seq<char> {
    if node_type == struct_name {
        Seq::<char>::empty()
    } else {
        "type "@ + node_type + " = <super::"@ + node_type + " as SurrealdbNode>::Schema;"@
    }
}

/// The generated impl-check for a referenced node type.
pub open spec fn type_validator_text(node_type: Seq<char>) -> Seq<char> {
    "::static_assertions::assert_impl_one!("@ + node_type + ": SurrealdbNode);"@
}

/// The generated default alias method for a record link.
pub open spec fn alias_method_text(node_type: Seq<char>, field: Seq<char>) -> Seq<char> {
    "pub fn "@ + field + "(&self, clause: impl Into<Clause>) -> "@ + node_type + " { "@
        + node_type
        + "::connect_to_graph_traversal(self.get_connection(), clause, self.get_bindings(), self.get_errors()) }"@
}

impl ReferencedNodeMeta {
    /// Derives the generated code for one record link: the schema import,
    /// the node-type validator and the default alias method; the field
    /// definition starts empty.
    pub fn from_record_link(
        node_type_name: &str,
        normalized_field_name: &str,
        struct_name_ident: &str,
    ) -> (r: ReferencedNodeMeta)
        ensures
            r.foreign_node_type@ == node_type_name@,
            r.foreign_node_schema_import@ == schema_import_text(
                node_type_name@,
                struct_name_ident@,
            ),
            r.foreign_node_type_validator@ == type_validator_text(node_type_name@),
            r.record_link_default_alias_as_method@ == alias_method_text(
                node_type_name@,
                normalized_field_name@,
            ),
            r.field_definition@ == Seq::<char>::empty(),
    {
        proof {
            reveal_strlit("type ");
            reveal_strlit(" = <super::");
            reveal_strlit(" as SurrealdbNode>::Schema;");
            reveal_strlit("::static_assertions::assert_impl_one!(");
            reveal_strlit(": SurrealdbNode);");
            reveal_strlit("pub fn ");
            reveal_strlit("(&self, clause: impl Into<Clause>) -> ");
            reveal_strlit(" { ");
            reveal_strlit(
                "::connect_to_graph_traversal(self.get_connection(), clause, self.get_bindings(), self.get_errors()) }",
            );
        }
        let import = if node_type_name.to_owned() == struct_name_ident.to_owned() {
            String::new()
        } else {
            let mut t = String::from_str("type ");
            t.append(node_type_name);
            t.append(" = <super::");
            t.append(node_type_name);
            t.append(" as SurrealdbNode>::Schema;");
            proof {
                assert(t@ =~= schema_import_text(node_type_name@, struct_name_ident@));
            }
            t
        };
        let mut validator = String::from_str("::static_assertions::assert_impl_one!(");
        validator.append(node_type_name);
        validator.append(": SurrealdbNode);");
        let mut alias = String::from_str("pub fn ");
        alias.append(normalized_field_name);
        alias.append("(&self, clause: impl Into<Clause>) -> ");
        alias.append(node_type_name);
        alias.append(" { ");
        alias.append(node_type_name);
        alias.append(
            "::connect_to_graph_traversal(self.get_connection(), clause, self.get_bindings(), self.get_errors()) }",
        );
        proof {
            assert(validator@ =~= type_validator_text(node_type_name@));
            assert(alias@ =~= alias_method_text(node_type_name@, normalized_field_name@));
        }
        ReferencedNodeMeta {
            foreign_node_type: node_type_name.to_owned(),
            foreign_node_schema_import: import,
            foreign_node_type_validator: validator,
            record_link_default_alias_as_method: alias,
            field_definition: String::new(),
        }
    }
}

} // verus!
