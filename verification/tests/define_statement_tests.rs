use surreal_query_builder::{
    define_field, define_table, Buildable, FieldType, Parametric, RawStatement,
};

#[test]
fn table_definition_statement_text() {
    assert_eq!(define_table("alien").build(), "DEFINE TABLE alien;");
    assert_eq!(
        define_table("alien_with_explicit_attributes").build(),
        "DEFINE TABLE alien_with_explicit_attributes;"
    );
    assert_eq!(
        define_table("alien").drop().schemafull().build(),
        "DEFINE TABLE alien DROP SCHEMAFULL;"
    );
    assert_eq!(
        define_table("alien")
            .permissions(RawStatement::new("FULL".to_string()))
            .build(),
        "DEFINE TABLE alien PERMISSIONS FULL;"
    );
    assert_eq!(define_table("alien").get_bindings().len(), 0);
}

#[test]
fn field_definition_statement_text() {
    assert_eq!(
        define_field("id").on_table("alien").build(),
        "DEFINE FIELD id ON TABLE alien;"
    );
    assert_eq!(
        define_field("spaceShips")
            .on_table("alien")
            .type_(FieldType::Record("space_ship".to_string()))
            .build(),
        "DEFINE FIELD spaceShips ON TABLE alien TYPE record(space_ship);"
    );
    assert_eq!(
        define_field("age").on_table("alien").type_(FieldType::Int).build(),
        "DEFINE FIELD age ON TABLE alien TYPE int;"
    );
}
