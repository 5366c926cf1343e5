use surreal_query_builder::{
    to_camel_case, to_snake_case, CaseString, ConfigError, FieldTypeWrapper, FieldsGetterOpts,
    MyFieldReceiver, NormalisedField, Permissions, PermissionsFn, ReferencedNodeMeta, Value,
};

fn empty_receiver() -> MyFieldReceiver {
    MyFieldReceiver {
        ident: Some("age".to_string()),
        rename: None,
        relate: None,
        link_one: None,
        link_self: None,
        link_many: None,
        skip_serializing: false,
        type_: None,
        assertion: None,
        assertion_fn: None,
        define: None,
        define_fn: None,
        value: None,
        value_fn: None,
        permissions: None,
        permissions_fn: None,
    }
}

fn empty_table_opts() -> FieldsGetterOpts {
    FieldsGetterOpts {
        ident: "AlienWithExplicitAttributes".to_string(),
        rename_all: None,
        table_name: None,
        relax_table_name: None,
        schemafull: None,
        drop: None,
        as_: None,
        as_fn: None,
        permissions: None,
        permissions_fn: None,
        define: None,
        define_fn: None,
    }
}

#[test]
fn field_definition_renders_builder_chain() {
    let mut receiver = empty_receiver();
    receiver.type_ = Some(FieldTypeWrapper("int".to_string()));
    receiver.assertion = Some("value > 0".to_string());
    let meta = ReferencedNodeMeta::default()
        .with_field_definition(&receiver, &"alien".to_string(), &"age".to_string())
        .unwrap();
    assert_eq!(
        meta.field_definition,
        "define_field(age).on_table(alien).type_(int).assert(value > 0)"
    );
}

#[test]
fn field_definition_override_is_taken_verbatim() {
    let mut receiver = empty_receiver();
    receiver.define = Some("DEFINE FIELD age ON TABLE alien TYPE int;".to_string());
    let meta = ReferencedNodeMeta::default()
        .with_field_definition(&receiver, &"alien".to_string(), &"age".to_string())
        .unwrap();
    assert_eq!(meta.field_definition, "DEFINE FIELD age ON TABLE alien TYPE int;");
}

#[test]
fn define_beside_other_field_attributes_is_rejected() {
    let mut receiver = empty_receiver();
    receiver.define = Some("DEFINE FIELD age ON TABLE alien;".to_string());
    receiver.type_ = Some(FieldTypeWrapper("int".to_string()));
    let res = ReferencedNodeMeta::default().with_field_definition(
        &receiver,
        &"alien".to_string(),
        &"age".to_string(),
    );
    assert!(res.is_err());
}

#[test]
fn literal_and_function_forms_of_one_concept_are_rejected() {
    for which in 0..4 {
        let mut receiver = empty_receiver();
        match which {
            0 => {
                receiver.define = Some("x".to_string());
                receiver.define_fn = Some("def_fn".to_string());
            }
            1 => {
                receiver.value = Some("1".to_string());
                receiver.value_fn = Some("value_fn".to_string());
            }
            2 => {
                receiver.assertion = Some("value > 0".to_string());
                receiver.assertion_fn = Some("assert_fn".to_string());
            }
            _ => {
                receiver.permissions = Some(Permissions::Full);
                receiver.permissions_fn = Some(PermissionsFn::Full);
            }
        }
        let res = ReferencedNodeMeta::default().with_field_definition(
            &receiver,
            &"alien".to_string(),
            &"age".to_string(),
        );
        assert!(res.is_err(), "combination {} should be rejected", which);
    }
}

#[test]
fn table_definition_uses_snake_case_of_struct_name() {
    let opts = empty_table_opts();
    let text = opts.get_table_definition_token().unwrap();
    assert_eq!(text, "define_table(alien_with_explicit_attributes)");
}

#[test]
fn table_definition_appends_flags_in_order() {
    let mut opts = empty_table_opts();
    opts.table_name = Some("alien".to_string());
    opts.drop = Some(true);
    opts.schemafull = Some(true);
    opts.permissions = Some(Permissions::NoAccess);
    let text = opts.get_table_definition_token().unwrap();
    assert_eq!(
        text,
        "define_table(alien).drop().schemafull().permissions_none()"
    );
}

#[test]
fn table_define_beside_other_attributes_is_rejected() {
    let mut opts = empty_table_opts();
    opts.define = Some("DEFINE TABLE alien;".to_string());
    opts.schemafull = Some(true);
    assert!(opts.get_table_definition_token().is_err());

    let mut opts = empty_table_opts();
    opts.as_ = Some("SELECT * FROM alien".to_string());
    opts.as_fn = Some("as_select".to_string());
    assert!(opts.get_table_definition_token().is_err());
}

#[test]
fn permissions_lower_to_their_builder_calls() {
    assert_eq!(Permissions::Full.get_token_stream(), ".permissions_full()");
    assert_eq!(Permissions::NoAccess.get_token_stream(), ".permissions_none()");
    assert_eq!(
        Permissions::FnName("perms".to_string()).get_token_stream(),
        ".permissions_for(perms)"
    );
    assert_eq!(
        PermissionsFn::FnPath("perms".to_string()).get_token_stream(),
        ".permissions_for(perms())"
    );
}

#[test]
fn permissions_parse_case_insensitively() {
    let none = Permissions::from_value(&Value::Strand("NONE".to_string())).unwrap();
    assert_eq!(none, Permissions::NoAccess);
    let full = Permissions::from_value(&Value::Strand("Full".to_string())).unwrap();
    assert_eq!(full, Permissions::Full);
    let named = Permissions::from_value(&Value::Strand("my_perms".to_string())).unwrap();
    assert_eq!(named, Permissions::FnName("my_perms".to_string()));
    assert!(Permissions::from_value(&Value::Int(1)).is_err());

    assert_eq!(PermissionsFn::from_string("full").unwrap(), PermissionsFn::Full);
    assert!(PermissionsFn::from_string("partial").is_err());
}

#[test]
fn field_type_literals_are_validated_against_the_grammar() {
    assert_eq!(
        FieldTypeWrapper::from_string("record(space_ship)").unwrap().0,
        "record(space_ship)"
    );
    assert!(FieldTypeWrapper::from_string("datetime").is_ok());
    assert!(FieldTypeWrapper::from_string("geometry(feature)").is_ok());
    let bad = FieldTypeWrapper::from_string("recordspace_ship");
    match bad {
        Err(ConfigError::InvalidFieldType(t)) => assert_eq!(t, "recordspace_ship"),
        _ => panic!("an invalid type literal must be rejected"),
    }
}

#[test]
fn casing_conversions() {
    assert_eq!(to_snake_case("nameOfMe"), "name_of_me");
    assert_eq!(to_snake_case("ageCount"), "age_count");
    assert_eq!(to_camel_case("name_of_me"), "nameOfMe");
    assert_eq!(to_camel_case("age"), "age");
}

#[test]
fn field_names_normalise_with_rename_precedence() {
    let mut receiver = empty_receiver();
    receiver.ident = Some("name_of_me".to_string());
    let normalised = NormalisedField::from_receiever(&receiver, Some(CaseString::Camel));
    assert_eq!(normalised.field_ident_normalised, "nameOfMe");
    assert_eq!(normalised.field_ident_normalised_as_str, "nameOfMe");

    receiver.rename = Some(surreal_query_builder::Rename {
        serialize: "lowo_cool".to_string(),
    });
    let renamed = NormalisedField::from_receiever(&receiver, Some(CaseString::Camel));
    assert_eq!(renamed.field_ident_normalised, "lowo_cool");
}

#[test]
fn reserved_field_name_in_gets_an_escaped_identifier() {
    let mut receiver = empty_receiver();
    receiver.ident = Some("in".to_string());
    let normalised = NormalisedField::from_receiever(&receiver, None);
    assert_eq!(normalised.field_ident_normalised, "in_");
    assert_eq!(normalised.field_ident_normalised_as_str, "in");
}

#[test]
fn record_link_generates_import_validator_and_alias() {
    let meta = ReferencedNodeMeta::from_record_link("Book", "book", "Student");
    assert_eq!(
        meta.foreign_node_schema_import,
        "type Book = <super::Book as SurrealdbNode>::Schema;"
    );
    assert_eq!(
        meta.foreign_node_type_validator,
        "::static_assertions::assert_impl_one!(Book: SurrealdbNode);"
    );
    assert!(meta.record_link_default_alias_as_method.starts_with("pub fn book(&self"));
    assert_eq!(meta.field_definition, "");

    // No import is generated for the type under definition itself.
    let own = ReferencedNodeMeta::from_record_link("Student", "friend", "Student");
    assert_eq!(own.foreign_node_schema_import, "");
}

#[test]
fn configuration_errors_describe_themselves() {
    let mut receiver = empty_receiver();
    receiver.value = Some("1".to_string());
    receiver.value_fn = Some("value_fn".to_string());
    let err = ReferencedNodeMeta::default()
        .with_field_definition(&receiver, &"alien".to_string(), &"age".to_string())
        .unwrap_err();
    assert_eq!(err.message(), "value cannot be combined with value_fn");

    let err = surreal_query_builder::FieldTypeWrapper::from_string("floaty").unwrap_err();
    assert_eq!(err.message(), "invalid field type: floaty");

    let err = Permissions::from_value(&Value::Int(1)).unwrap_err();
    assert_eq!(err.message(), "unexpected value: permissions literal");
}
