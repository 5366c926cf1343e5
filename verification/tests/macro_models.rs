use surreal_query_builder::{Bar, ConsumingType, Foo};

#[test]
fn default() {
    assert_eq!(Foo::answer(), 50);
    assert!(Foo::level().contains("High"));
    assert!(!Foo::level().contains("Low"));
}

#[test]
fn getter() {
    assert_eq!(Bar::answer(), 20);
    assert!(Bar::level().contains("Low"));
}

#[test]
fn serialized_key_names() {
    let names = ConsumingType::get_field_names();
    assert_eq!(names.lowo_cool, "lowo_cool");
    assert_eq!(names.lmsar, "lmsar");
}
