use surreal_query_builder::{
    GenericArgument, PathSegment, ReplaceSelfVisitor, TypeExpr, TypePath,
};

fn bare_path(ident: &str) -> TypeExpr {
    TypeExpr::Path(TypePath {
        segments: vec![PathSegment {
            ident: ident.to_string(),
            arguments: vec![],
        }],
    })
}

fn user_visitor() -> ReplaceSelfVisitor {
    ReplaceSelfVisitor {
        struct_ident: "User".to_string(),
        generics: vec![
            GenericArgument::Lifetime("'a".to_string()),
            GenericArgument::Lifetime("'b".to_string()),
            GenericArgument::Type(bare_path("U")),
            GenericArgument::Type(bare_path("T")),
        ],
    }
}

#[test]
fn replace_self() {
    let replacer = user_visitor();
    let ty_to_replace = bare_path("Self");
    let replaced = replacer.replace_self(&ty_to_replace);
    assert_eq!(replaced.render(), "User<'a, 'b, U, T>".to_string());
}

#[test]
fn replace_self_inside_nested_generics() {
    let replacer = user_visitor();
    let vec_of_self = TypeExpr::Path(TypePath {
        segments: vec![PathSegment {
            ident: "Vec".to_string(),
            arguments: vec![GenericArgument::Type(bare_path("Self"))],
        }],
    });
    let replaced = replacer.replace_self(&vec_of_self);
    assert_eq!(replaced.render(), "Vec<User<'a, 'b, U, T>>".to_string());
}

#[test]
fn replace_self_inside_reference_tuple_slice_array() {
    let replacer = user_visitor();

    let reference = TypeExpr::Reference(None, false, Box::new(bare_path("Self")));
    assert_eq!(
        replacer.replace_self(&reference).render(),
        "&User<'a, 'b, U, T>".to_string()
    );

    let tuple = TypeExpr::Tuple(vec![bare_path("Self"), bare_path("Self")]);
    assert_eq!(
        replacer.replace_self(&tuple).render(),
        "(User<'a, 'b, U, T>, User<'a, 'b, U, T>)".to_string()
    );

    let slice = TypeExpr::Slice(Box::new(bare_path("Self")));
    assert_eq!(
        replacer.replace_self(&slice).render(),
        "[User<'a, 'b, U, T>]".to_string()
    );

    let array = TypeExpr::Array(Box::new(bare_path("Self")), 5);
    assert_eq!(
        replacer.replace_self(&array).render(),
        "[User<'a, 'b, U, T>; 5]".to_string()
    );
}

#[test]
fn replace_self_inside_trait_object_and_fn_pointer() {
    let replacer = user_visitor();

    let boxed_dyn = TypeExpr::Path(TypePath {
        segments: vec![PathSegment {
            ident: "Box".to_string(),
            arguments: vec![GenericArgument::Type(TypeExpr::TraitObject(vec![TypePath {
                segments: vec![PathSegment {
                    ident: "Trait".to_string(),
                    arguments: vec![GenericArgument::Type(bare_path("Self"))],
                }],
            }]))],
        }],
    });
    assert_eq!(
        replacer.replace_self(&boxed_dyn).render(),
        "Box<dyn Trait<User<'a, 'b, U, T>>>".to_string()
    );

    let fn_pointer = TypeExpr::BareFn(
        vec![bare_path("Self")],
        Some(Box::new(bare_path("Self"))),
    );
    assert_eq!(
        replacer.replace_self(&fn_pointer).render(),
        "fn(User<'a, 'b, U, T>) -> User<'a, 'b, U, T>".to_string()
    );
}

#[test]
fn replace_self_keeps_other_segments_and_empty_generics() {
    let no_generics = ReplaceSelfVisitor {
        struct_ident: "User".to_string(),
        generics: vec![],
    };
    let existing_args = TypeExpr::Path(TypePath {
        segments: vec![PathSegment {
            ident: "Self".to_string(),
            arguments: vec![GenericArgument::Type(bare_path("Inner"))],
        }],
    });
    assert_eq!(
        no_generics.replace_self(&existing_args).render(),
        "User<Inner>".to_string()
    );

    let replacer = user_visitor();
    let unrelated = bare_path("Account");
    assert_eq!(replacer.replace_self(&unrelated).render(), "Account".to_string());
}
