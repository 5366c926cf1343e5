use surreal_query_builder::{for_, Buildable, Field, ForCrudType, Parametric, PermissionForables, RawStatement, ToRawStatement};

#[test]
fn test_define_for_statement_state_machine() {
    let name = Field::new("name");

    let for_res = for_(ForCrudType::Create).where_(name.like("Oyelowo"));
    assert_eq!(
        for_res.build(),
        "FOR create\n\tWHERE name ~ $_param_00000000".to_string()
    );
    let bindings = for_res.get_bindings();
    assert_eq!(bindings.len(), 1);
    assert_eq!(bindings[0].get_param(), "_param_00000000");
    assert_eq!(bindings[0].get_raw(), "'Oyelowo'");
}

#[test]
fn test_define_for_statement_state_machine_multiple() {
    let name = Field::new("name");

    let for_res = for_(vec![
        ForCrudType::Create,
        ForCrudType::Delete,
        ForCrudType::Select,
        ForCrudType::Update,
    ])
    .where_(name.is("Oyedayo"));
    assert_eq!(
        for_res.build(),
        "FOR create, delete, select, update\n\tWHERE name IS $_param_00000000".to_string()
    );
    let bindings = for_res.get_bindings();
    assert_eq!(bindings.len(), 1);
    assert_eq!(bindings[0].get_raw(), "'Oyedayo'");
}

#[test]
fn for_clause_lowers_to_raw_with_inlined_values() {
    let name = Field::new("name");
    let for_res = for_(ForCrudType::Create).where_(name.like("Oyelowo"));
    let raw = for_res.to_raw();
    assert_eq!(raw.as_text(), "FOR create\n\tWHERE name ~ 'Oyelowo'");
}

#[test]
fn permission_forables_join_with_commas() {
    let a = Field::new("age");
    let first = for_(ForCrudType::Select).where_(a.is("1"));
    let b = Field::new("age");
    let second = for_(ForCrudType::Delete).where_(b.is("2"));
    let joined = PermissionForables::Fors(vec![first, second]).to_raw();
    assert_eq!(
        joined.as_text(),
        "FOR select\n\tWHERE age IS '1', FOR delete\n\tWHERE age IS '2'"
    );

    let raws = PermissionForables::RawStatementList(vec![
        RawStatement::new("FULL".to_string()),
        RawStatement::new("NONE".to_string()),
    ]);
    assert_eq!(raws.to_raw().as_text(), "FULL, NONE");
}

#[test]
fn empty_crud_list_renders_bare_for() {
    let age = Field::new("age");
    let for_res = for_(Vec::<ForCrudType>::new()).where_(age.is("34"));
    assert_eq!(for_res.build(), "FOR\n\tWHERE age IS $_param_00000000");
}
