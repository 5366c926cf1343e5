use surreal_query_builder::{
    count, select, select_user, update, ArrayCustom, Buildable, CountArg, Empty, Field, Filter,
    Parametric, Value,
};

#[test]
fn field_comparisons_bind_exactly_one_literal() {
    let name = Field::new("name");
    let op = name.like("Oyelowo");
    assert_eq!(op.build(), "name ~ $_param_00000000");
    assert_eq!(op.get_bindings().len(), 1);

    let age = Field::new("age");
    let op = age.equal_to(Value::Int(34));
    assert_eq!(op.build(), "age = $_param_00000000");
    assert_eq!(op.get_bindings()[0].get_raw(), "34");
}

#[test]
fn field_to_field_comparison_creates_no_binding() {
    let age = Field::new("age");
    let other = Field::new("age");
    let op = age.equal_to_field(&other);
    assert_eq!(op.build(), "age = age");
    assert_eq!(op.get_bindings().len(), 0);
}

#[test]
fn filters_combine_and_renumber_in_order() {
    let name = Field::new("name");
    let age = Field::new("age");
    let filter = Filter::new(name.like("Oyelowo")).and(age.is("34"));
    assert_eq!(
        filter.build(),
        "name ~ $_param_00000000 AND age IS $_param_00000001"
    );
    let bindings = filter.get_bindings();
    assert_eq!(bindings.len(), 2);
    assert_eq!(bindings[0].get_raw(), "'Oyelowo'");
    assert_eq!(bindings[1].get_raw(), "'34'");

    let city = Field::new("city");
    let wider = filter.or(city.is("Ibadan"));
    assert_eq!(
        wider.build(),
        "name ~ $_param_00000000 AND age IS $_param_00000001 OR city IS $_param_00000002"
    );
    assert_eq!(wider.get_bindings().len(), 3);
}

#[test]
fn count_dispatches_per_argument_shape() {
    let empty = count(Empty);
    assert_eq!(empty.build(), "");
    assert_eq!(empty.get_bindings().len(), 0);

    let age = Field::new("age");
    let filtered = count(Filter::new(age.is("34")));
    assert_eq!(filtered.build(), "age IS $_param_00000000");
    assert_eq!(filtered.get_bindings().len(), 1);

    let array = count(ArrayCustom::new(vec![Value::Int(1), Value::Int(2)]));
    assert_eq!(array.build(), "$_param_00000000");
    assert_eq!(array.get_bindings()[0].get_raw(), "[1, 2]");
}

#[test]
fn count_arg_variants_build_their_own_text() {
    let field_arg = CountArg::Field(Field::new("tags"));
    assert_eq!(field_arg.build(), "tags");
    assert_eq!(field_arg.get_bindings().len(), 0);

    let empty_arg = CountArg::Empty;
    assert_eq!(empty_arg.build(), "");
}

#[test]
fn select_and_update_statements_render() {
    let stmt = select(surreal_query_builder::All).from("person");
    assert_eq!(stmt.build(), "SELECT * FROM person");
    assert_eq!(stmt.get_bindings().len(), 0);

    assert_eq!(select_user().build(), "SELECT * FROM user");

    let balance = Field::new("balance");
    let upd = update("account:one").set(balance.increment_by(Value::Int(300)));
    assert_eq!(upd.build(), "UPDATE account:one SET balance += $_param_00000000");
    assert_eq!(upd.get_bindings()[0].get_raw(), "300");
}
