//! The DEFINE statements of the query-language surface: table and field
//! definitions as typestate builders whose terminal values render the
//! statement text.

use vstd::prelude::*;

use crate::binding::{bindings_model, BindingModel, BindingsList, Parametric};
use crate::field_type::{field_type_text, FieldType};
use crate::fragment::{render_segs, wf_frag, FragModel, QueryFragment, SegModel};
use crate::sql::Buildable;
use crate::transaction::Queryable;

verus! {

/// The text of a table definition: the name, then each supplied flag, then
/// the closing semicolon.
pub open spec fn define_table_text(
    name: Seq<char>,
    dropped: bool,
    schemafull: bool,
    permissions: Option<Seq<char>>,
) -> Seq<char> {
    "DEFINE TABLE "@ + name + (if dropped {
        " DROP"@
    } else {
        Seq::<char>::empty()
    }) + (if schemafull {
        " SCHEMAFULL"@
    } else {
        Seq::<char>::empty()
    }) + (match permissions {
        Some(p) => " PERMISSIONS "@ + p,
        None => Seq::<char>::empty(),
    }) + seq![';']
}

/// A table definition under construction; every clause is optional, so the
/// builder is renderable from the start.
pub struct DefineTableStatement {
    name: String,
    dropped: bool,
    schemafull: bool,
    permissions: Option<String>,
}

impl View for DefineTableStatement {
    type V = Seq<char>;

    closed spec fn view(&self) -> Seq<char> {
        define_table_text(
            self.name@,
            self.dropped,
            self.schemafull,
            match self.permissions {
                Some(ref p) => Some(p@),
                None => None,
            },
        )
    }
}

/// Starts a table definition.
pub fn define_table(name: &str) -> (r: DefineTableStatement)
    ensures
        r@ == define_table_text(name@, false, false, None),
{
    DefineTableStatement {
        name: name.to_owned(),
        dropped: false,
        schemafull: false,
        permissions: None,
    }
}

impl DefineTableStatement {
    /// Marks the table as dropped.
    pub fn drop(self) -> (r: DefineTableStatement)
        ensures
            r@ == define_table_text(
                self.name_spec(),
                true,
                self.schemafull_spec(),
                self.permissions_spec(),
            ),
    {
        DefineTableStatement { dropped: true, ..self }
    }

    /// Marks the table as schemafull.
    pub fn schemafull(self) -> (r: DefineTableStatement)
        ensures
            r@ == define_table_text(
                self.name_spec(),
                self.dropped_spec(),
                true,
                self.permissions_spec(),
            ),
    {
        DefineTableStatement { schemafull: true, ..self }
    }

    /// Attaches a raw permissions clause.
    pub fn permissions(self, permissions: crate::sql::RawStatement) -> (r: DefineTableStatement)
        ensures
            r@ == define_table_text(
                self.name_spec(),
                self.dropped_spec(),
                self.schemafull_spec(),
                Some(permissions@),
            ),
    {
        let text = permissions.as_text().clone();
        DefineTableStatement { permissions: Some(text), ..self }
    }

    /// The declared table name.
    pub closed spec fn name_spec(&self) -> Seq<char> {
        self.name@
    }

    /// Whether the drop flag was supplied.
    pub closed spec fn dropped_spec(&self) -> bool {
        self.dropped
    }

    /// Whether the schemafull flag was supplied.
    pub closed spec fn schemafull_spec(&self) -> bool {
        self.schemafull
    }

    /// The permissions clause, where one was attached.
    pub closed spec fn permissions_spec(&self) -> Option<Seq<char>> {
        match self.permissions {
            Some(ref p) => Some(p@),
            None => None,
        }
    }
}

impl Buildable for DefineTableStatement {
    open spec fn build_spec(&self) -> Seq<char> {
        self@
    }

    fn build(&self) -> (r: String)
        ensures
            r@ == self.build_spec(),
    {
        proof {
            reveal_strlit("DEFINE TABLE ");
            reveal_strlit(" DROP");
            reveal_strlit(" SCHEMAFULL");
            reveal_strlit(" PERMISSIONS ");
            reveal_strlit(";");
        }
        let mut r = String::from_str("DEFINE TABLE ");
        r.append(self.name.as_str());
        if self.dropped {
            r.append(" DROP");
        }
        if self.schemafull {
            r.append(" SCHEMAFULL");
        }
        match &self.permissions {
            Some(p) => {
                r.append(" PERMISSIONS ");
                r.append(p.as_str());
            },
            None => {},
        }
        r.append(";");
        proof {
            assert(r@ =~= self@);
        }
        r
    }
}

impl Parametric for DefineTableStatement {
    open spec fn bindings_spec(&self) -> Seq<BindingModel> {
        Seq::empty()
    }

    fn get_bindings(&self) -> (r: BindingsList)
        ensures
            bindings_model(r@) == self.bindings_spec(),
    {
        let r: BindingsList = Vec::new();
        proof {
            assert(bindings_model(r@) =~= Seq::<BindingModel>::empty());
        }
        r
    }
}

impl Queryable for DefineTableStatement {
    open spec fn query_model(&self) -> FragModel {
        FragModel { segs: seq![SegModel::Lit(self@)], binds: Seq::empty() }
    }

    fn to_query_fragment(self) -> (r: QueryFragment)
        ensures
            r@ == self.query_model(),
            wf_frag(r@),
    {
        let text = self.build();
        let r = QueryFragment::lit(text.as_str());
        proof {
            assert(r@.segs =~= self.query_model().segs);
        }
        r
    }
}

/// The text of a field definition: the field, its table, and the type where
/// one was supplied, then the closing semicolon.
pub open spec fn define_field_text(
    field: Seq<char>,
    table: Seq<char>,
    type_: Option<FieldType>,
) -> Seq<char> {
    "DEFINE FIELD "@ + field + " ON TABLE "@ + table + (match type_ {
        Some(ft) => " TYPE "@ + field_type_text(ft),
        None => Seq::<char>::empty(),
    }) + seq![';']
}

/// The initial state of a field definition: the field is fixed, the table is
/// still required.
pub struct DefineFieldStart {
    field: String,
}

impl View for DefineFieldStart {
    type V = Seq<char>;

    closed spec fn view(&self) -> Seq<char> {
        self.field@
    }
}

/// Starts a field definition.
pub fn define_field(field: &str) -> (r: DefineFieldStart)
    ensures
        r@ == field@,
{
    DefineFieldStart { field: field.to_owned() }
}

impl DefineFieldStart {
    /// Attaches the required table, yielding the renderable definition.
    pub fn on_table(self, table: &str) -> (r: DefineFieldStatement)
        ensures
            r@ == define_field_text(self@, table@, None),
    {
        DefineFieldStatement { field: self.field, table: table.to_owned(), type_: None }
    }
}

/// A field definition with its table attached; the declared type is
/// optional.
pub struct DefineFieldStatement {
    field: String,
    table: String,
    type_: Option<FieldType>,
}

impl View for DefineFieldStatement {
    type V = Seq<char>;

    closed spec fn view(&self) -> Seq<char> {
        define_field_text(self.field@, self.table@, self.type_)
    }
}

impl DefineFieldStatement {
    /// Declares the field's type.
    pub fn type_(self, field_type: FieldType) -> (r: DefineFieldStatement)
        ensures
            r@ == define_field_text(self.field_spec(), self.table_spec(), Some(field_type)),
    {
        DefineFieldStatement { type_: Some(field_type), ..self }
    }

    /// The declared field name.
    pub closed spec fn field_spec(&self) -> Seq<char> {
        self.field@
    }

    /// The declared table name.
    pub closed spec fn table_spec(&self) -> Seq<char> {
        self.table@
    }
}

impl Buildable for DefineFieldStatement {
    open spec fn build_spec(&self) -> Seq<char> {
        self@
    }

    fn build(&self) -> (r: String)
        ensures
            r@ == self.build_spec(),
    {
        proof {
            reveal_strlit("DEFINE FIELD ");
            reveal_strlit(" ON TABLE ");
            reveal_strlit(" TYPE ");
            reveal_strlit(";");
        }
        let mut r = String::from_str("DEFINE FIELD ");
        r.append(self.field.as_str());
        r.append(" ON TABLE ");
        r.append(self.table.as_str());
        match &self.type_ {
            Some(ft) => {
                r.append(" TYPE ");
                let t = ft.render();
                r.append(t.as_str());
            },
            None => {},
        }
        r.append(";");
        proof {
            assert(r@ =~= self@);
        }
        r
    }
}

impl Parametric for DefineFieldStatement {
    open spec fn bindings_spec(&self) -> Seq<BindingModel> {
        Seq::empty()
    }

    fn get_bindings(&self) -> (r: BindingsList)
        ensures
            bindings_model(r@) == self.bindings_spec(),
    {
        let r: BindingsList = Vec::new();
        proof {
            assert(bindings_model(r@) =~= Seq::<BindingModel>::empty());
        }
        r
    }
}

impl Queryable for DefineFieldStatement {
    open spec fn query_model(&self) -> FragModel {
        FragModel { segs: seq![SegModel::Lit(self@)], binds: Seq::empty() }
    }

    fn to_query_fragment(self) -> (r: QueryFragment)
        ensures
            r@ == self.query_model(),
            wf_frag(r@),
    {
        let text = self.build();
        let r = QueryFragment::lit(text.as_str());
        proof {
            assert(r@.segs =~= self.query_model().segs);
        }
        r
    }
}

} // verus!
