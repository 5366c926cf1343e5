use surreal_query_builder::{
    begin_transaction, create, update, Buildable, Field, Parametric, Value,
};

fn transfer_transaction() -> surreal_query_builder::TransactionBuilder {
    let balance = Field::new("balance");
    begin_transaction()
        .query(create("account:one").set(balance.equal_to(Value::Int(135605))))
        .query(create("account:two").set(balance.equal_to(Value::Int(91031))))
        .query(update("account:one").set(balance.increment_by(Value::Int(300))))
        .query(update("account:two").set(balance.decrement_by(Value::Int(300))))
}

#[test]
fn committed_transaction_serializes_statements_in_order() {
    let committed = transfer_transaction().commit_transaction();
    assert_eq!(
        committed.build(),
        "BEGIN TRANSACTION;\n\n\
         CREATE account:one SET balance = $_param_00000000;\n\n\
         CREATE account:two SET balance = $_param_00000001;\n\n\
         UPDATE account:one SET balance += $_param_00000002;\n\n\
         UPDATE account:two SET balance -= $_param_00000003;\n\n\
         COMMIT TRANSACTION;"
    );
}

#[test]
fn cancelled_transaction_ends_with_cancel_directive() {
    let cancelled = transfer_transaction().cancel_transaction();
    let text = cancelled.build();
    assert!(text.ends_with("CANCEL TRANSACTION;"));
    assert!(text.starts_with("BEGIN TRANSACTION;"));
}

#[test]
fn transaction_bindings_follow_statement_append_order() {
    let committed = transfer_transaction().commit_transaction();
    let bindings = committed.get_bindings();
    assert_eq!(bindings.len(), 4);
    let raws: Vec<&str> = bindings.iter().map(|b| b.get_raw().as_str()).collect();
    assert_eq!(raws, vec!["135605", "91031", "300", "300"]);
    let params: Vec<&str> = bindings.iter().map(|b| b.get_param().as_str()).collect();
    assert_eq!(
        params,
        vec![
            "_param_00000000",
            "_param_00000001",
            "_param_00000002",
            "_param_00000003"
        ]
    );
}

#[test]
fn placeholders_match_bindings_exactly_once() {
    let committed = transfer_transaction().commit_transaction();
    let text = committed.build();
    let bindings = committed.get_bindings();
    for b in &bindings {
        let placeholder = b.get_param_dollarised();
        assert_eq!(text.matches(placeholder.as_str()).count(), 1);
    }
    assert_eq!(text.matches("$_param_").count(), bindings.len());
    // No two bindings share a generated name.
    for i in 0..bindings.len() {
        for j in 0..bindings.len() {
            if i != j {
                assert_ne!(bindings[i].get_param(), bindings[j].get_param());
            }
        }
    }
}

#[test]
fn build_and_bindings_are_idempotent() {
    let committed = transfer_transaction().commit_transaction();
    assert_eq!(committed.build(), committed.build());
    let once = committed.get_bindings();
    let twice = committed.get_bindings();
    assert_eq!(once.len(), twice.len());
    for (a, b) in once.iter().zip(twice.iter()) {
        assert_eq!(a.get_param(), b.get_param());
        assert_eq!(a.get_raw(), b.get_raw());
        assert_eq!(a.get_original_name(), b.get_original_name());
    }
}

#[test]
fn empty_transaction_holds_only_the_delimiters() {
    let committed = begin_transaction().commit_transaction();
    assert_eq!(committed.build(), "BEGIN TRANSACTION;\n\nCOMMIT TRANSACTION;");
    assert_eq!(committed.get_bindings().len(), 0);
}
