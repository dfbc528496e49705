use pgx_utils::error::ErrorKind;
use pgx_utils::name_macro::NameMacro;
use pgx_utils::returning::{make_row_handle, Returning};
use pgx_utils::type_expr::{
    path_to_tokens, type_to_tokens, GenericArgument, PathArguments, PathSegment, ReturnType, TypeExpr,
    TypeParamBound, TypePath,
};

fn segment(ident: &str) -> PathSegment {
    PathSegment { ident: ident.to_string(), arguments: PathArguments::Empty }
}

fn generic(ident: &str, args: Vec<GenericArgument>) -> PathSegment {
    PathSegment { ident: ident.to_string(), arguments: PathArguments::AngleBracketed { args } }
}

fn path(segments: Vec<PathSegment>) -> TypePath {
    TypePath { leading_colon: false, segments }
}

fn plain(ident: &str) -> TypeExpr {
    TypeExpr::Path(path(vec![segment(ident)]))
}

fn mac(name: &str, tokens: &str) -> TypeExpr {
    TypeExpr::Macro { path: vec![name.to_string()], tokens: tokens.to_string() }
}

fn iterator_of(item: TypeExpr) -> Vec<TypeParamBound> {
    vec![TypeParamBound::Trait(path(vec![generic(
        "Iterator",
        vec![GenericArgument::Binding { ident: "Item".to_string(), ty: item }],
    )]))]
}

fn declared(ty: TypeExpr) -> ReturnType {
    ReturnType::Type(ty)
}

#[test]
fn no_return_type_is_void() {
    assert!(matches!(Returning::try_from(&ReturnType::Default), Ok(Returning::Void)));
}

#[test]
fn plain_path_is_a_single_value() {
    match Returning::try_from(&declared(plain("i32"))).unwrap() {
        Returning::Type { ty, sql } => {
            assert_eq!(type_to_tokens(&ty), "i32");
            assert_eq!(sql, None);
        }
        other => panic!("{:?}", other),
    }
}

#[test]
fn option_of_plain_path_is_a_single_value() {
    let ty = TypeExpr::Path(path(vec![generic("Option", vec![GenericArgument::Type(plain("i32"))])]));
    match Returning::try_from(&declared(ty)).unwrap() {
        Returning::Type { ty, sql } => {
            assert_eq!(type_to_tokens(&ty), "Option < i32 >");
            assert_eq!(sql, None);
        }
        other => panic!("{:?}", other),
    }
}

#[test]
fn lifetimes_of_a_path_become_static_and_anonymous() {
    let inner = TypeExpr::Reference {
        lifetime: Some("a".to_string()),
        mutable: false,
        elem: Box::new(plain("str")),
    };
    let ty = TypeExpr::Path(path(vec![generic(
        "Cow",
        vec![GenericArgument::Lifetime("a".to_string()), GenericArgument::Type(inner)],
    )]));
    match Returning::try_from(&declared(ty)).unwrap() {
        Returning::Type { ty, .. } => assert_eq!(type_to_tokens(&ty), "Cow < 'static , & '_ str >"),
        other => panic!("{:?}", other),
    }
}

#[test]
fn reference_gets_a_static_lifetime() {
    let ty = TypeExpr::Reference { lifetime: Some("a".to_string()), mutable: false, elem: Box::new(plain("str")) };
    match Returning::try_from(&declared(ty)).unwrap() {
        Returning::Type { ty, .. } => assert_eq!(type_to_tokens(&ty), "& 'static str"),
        other => panic!("{:?}", other),
    }
}

#[test]
fn empty_tuple_is_a_single_value() {
    match Returning::try_from(&declared(TypeExpr::Tuple { elems: vec![] })).unwrap() {
        Returning::Type { ty, .. } => assert!(matches!(ty, TypeExpr::Tuple { elems } if elems.is_empty())),
        other => panic!("{:?}", other),
    }
}

#[test]
fn datum_is_a_trigger() {
    assert!(matches!(Returning::try_from(&declared(plain("Datum"))), Ok(Returning::Trigger)));
    let qualified = TypeExpr::Path(path(vec![segment("pg_sys"), segment("Datum")]));
    assert!(matches!(Returning::try_from(&declared(qualified)), Ok(Returning::Trigger)));
    let elsewhere = TypeExpr::Path(path(vec![segment("other"), segment("Datum")]));
    assert!(matches!(Returning::try_from(&declared(elsewhere)), Ok(Returning::Type { .. })));
}

#[test]
fn wrapped_datum_is_a_trigger() {
    let datum = TypeExpr::Path(path(vec![segment("pg_sys"), segment("Datum")]));
    let ty = TypeExpr::Path(path(vec![generic("Option", vec![GenericArgument::Type(datum)])]));
    assert!(matches!(Returning::try_from(&declared(ty)), Ok(Returning::Trigger)));
    let ty = TypeExpr::Path(path(vec![generic("Box", vec![GenericArgument::Type(plain("Datum"))])]));
    assert!(matches!(Returning::try_from(&declared(ty)), Ok(Returning::Trigger)));
    let ty = TypeExpr::Path(path(vec![generic("Vec", vec![GenericArgument::Type(plain("Datum"))])]));
    assert!(matches!(Returning::try_from(&declared(ty)), Ok(Returning::Type { .. })));
}

#[test]
fn iterator_over_a_path_is_a_set() {
    let ty = TypeExpr::ImplTrait { bounds: iterator_of(plain("i64")) };
    match Returning::try_from(&declared(ty)).unwrap() {
        Returning::SetOf { ty, sql } => {
            assert_eq!(path_to_tokens(&ty), "i64");
            assert_eq!(sql, None);
        }
        other => panic!("{:?}", other),
    }
    let ty = TypeExpr::TraitObject { bounds: iterator_of(plain("i64")) };
    assert!(matches!(Returning::try_from(&declared(ty)), Ok(Returning::SetOf { .. })));
}

#[test]
fn boxed_iterator_is_unwrapped() {
    let inner = TypeExpr::TraitObject { bounds: iterator_of(plain("i64")) };
    let ty = TypeExpr::Path(path(vec![generic("Box", vec![GenericArgument::Type(inner)])]));
    assert!(matches!(Returning::try_from(&declared(ty)), Ok(Returning::SetOf { .. })));
    let inner = TypeExpr::ImplTrait { bounds: iterator_of(TypeExpr::Tuple { elems: vec![plain("i64")] }) };
    let ty = TypeExpr::Path(path(vec![generic("Option", vec![GenericArgument::Type(inner)])]));
    assert!(matches!(Returning::try_from(&declared(ty)), Ok(Returning::Iterated(_))));
}

#[test]
fn other_traits_are_refused() {
    let display = vec![TypeParamBound::Trait(path(vec![segment("Display")]))];
    let ty = TypeExpr::ImplTrait { bounds: display };
    assert_eq!(Returning::try_from(&declared(ty)).unwrap_err(), ErrorKind::UnknownReturnShape);
    let lifetime = vec![TypeParamBound::Lifetime("a".to_string())];
    let ty = TypeExpr::ImplTrait { bounds: lifetime };
    assert_eq!(Returning::try_from(&declared(ty)).unwrap_err(), ErrorKind::UnknownReturnShape);
    let ty = TypeExpr::ImplTrait { bounds: vec![] };
    assert_eq!(Returning::try_from(&declared(ty)).unwrap_err(), ErrorKind::UnknownReturnShape);
    let display = vec![TypeParamBound::Trait(path(vec![segment("Display")]))];
    let inner = TypeExpr::ImplTrait { bounds: display };
    let ty = TypeExpr::Path(path(vec![generic("Option", vec![GenericArgument::Type(inner)])]));
    assert_eq!(Returning::try_from(&declared(ty)).unwrap_err(), ErrorKind::UnknownReturnShape);
}

#[test]
fn unknown_types_are_refused() {
    let ty = TypeExpr::Verbatim { tokens: "[u8 ; 4]".to_string() };
    assert_eq!(Returning::try_from(&declared(ty)).unwrap_err(), ErrorKind::UnknownReturnShape);
    assert_eq!(Returning::try_from(&declared(mac("vec", "1"))).unwrap_err(), ErrorKind::UnknownReturnShape);
}

#[test]
fn composite_type_is_a_single_row() {
    match Returning::try_from(&declared(mac("composite_type", "\"Dog\""))).unwrap() {
        Returning::Type { ty, sql } => {
            assert_eq!(
                type_to_tokens(&ty),
                ":: pgx :: PgHeapTuple < '_ , impl WhoAllocated < :: pgx :: pg_sys :: HeapTupleData > >"
            );
            assert_eq!(sql, Some("\"Dog\"".to_string()));
        }
        other => panic!("{:?}", other),
    }
    assert_eq!(
        Returning::try_from(&declared(mac("composite_type", "fn"))).unwrap_err(),
        ErrorKind::UnknownReturnShape
    );
}

#[test]
fn composite_type_in_an_iterator_is_a_set_of_rows() {
    let ty = TypeExpr::ImplTrait { bounds: iterator_of(mac("composite_type", "DOG")) };
    match Returning::try_from(&declared(ty)).unwrap() {
        Returning::SetOf { ty, sql } => {
            assert_eq!(path_to_tokens(&ty), path_to_tokens(&make_row_handle()));
            assert_eq!(sql, Some("DOG".to_string()));
        }
        other => panic!("{:?}", other),
    }
}

#[test]
fn calculate_human_years_is_a_table_of_four_columns() {
    let tuple = TypeExpr::Tuple {
        elems: vec![
            mac("name", "dog_name , Result < Option < String > , pgx :: spi :: Error >"),
            mac("name", "dog_age , i32"),
            mac("name", "dog_breed , Result < Option < String > , pgx :: spi :: Error >"),
            mac("name", "human_age , i32"),
        ],
    };
    let ty = TypeExpr::ImplTrait { bounds: iterator_of(tuple) };
    match Returning::try_from(&declared(ty)).unwrap() {
        Returning::Iterated(items) => {
            let names: Vec<Option<String>> = items.iter().map(|item| item.name.clone()).collect();
            assert_eq!(
                names,
                vec![
                    Some("dog_name".to_string()),
                    Some("dog_age".to_string()),
                    Some("dog_breed".to_string()),
                    Some("human_age".to_string()),
                ]
            );
            assert_eq!(
                type_to_tokens(&items[0].ty),
                "Result < Option < String > , pgx :: spi :: Error >"
            );
            assert_eq!(type_to_tokens(&items[1].ty), "i32");
            assert!(items.iter().all(|item| item.sql.is_none()));
        }
        other => panic!("{:?}", other),
    }
}

#[test]
fn columns_keep_the_order_and_the_names_of_the_tuple() {
    let tuple = TypeExpr::Tuple {
        elems: vec![plain("i32"), mac("name", "b, String"), mac("composite_type", "\"Dog\""), plain("bool")],
    };
    match Returning::try_from(&declared(tuple)).unwrap() {
        Returning::Iterated(items) => {
            assert_eq!(items.len(), 4);
            assert_eq!(items[0].name, None);
            assert_eq!(type_to_tokens(&items[0].ty), "i32");
            assert_eq!(items[1].name, Some("b".to_string()));
            assert_eq!(items[2].name, None);
            assert_eq!(items[2].sql, Some("\"Dog\"".to_string()));
            assert_eq!(items[3].name, None);
            assert_eq!(type_to_tokens(&items[3].ty), "bool");
        }
        other => panic!("{:?}", other),
    }
}

#[test]
fn a_bad_column_fails_the_table() {
    let tuple = TypeExpr::Tuple { elems: vec![plain("i32"), mac("name", "b String")] };
    assert_eq!(Returning::try_from(&declared(tuple)).unwrap_err(), ErrorKind::UnknownReturnShape);
    let tuple = TypeExpr::Tuple { elems: vec![mac("other", "b, String")] };
    assert_eq!(Returning::try_from(&declared(tuple)).unwrap_err(), ErrorKind::UnknownReturnShape);
}

#[test]
fn name_macro_reads_identifier_and_type() {
    let named = NameMacro::parse("dog_name, Option<String>").unwrap();
    assert_eq!(named.ident, "dog_name");
    assert_eq!(type_to_tokens(&named.ty), "Option < String >");
    assert_eq!(named.sql, None);
}

#[test]
fn name_macro_accepts_some_keywords() {
    for keyword in ["type", "mod", "extern", "async", "crate", "use"] {
        let named = NameMacro::parse(&format!("{}, i32", keyword)).unwrap();
        assert_eq!(named.ident, keyword);
    }
    assert_eq!(NameMacro::parse(" type , i32").unwrap().ident, "type");
    assert_eq!(NameMacro::parse(" r#type , i32").unwrap().ident, "r#type");
    for keyword in ["fn", "struct", "self", "match", "_"] {
        assert_eq!(
            NameMacro::parse(&format!("{}, i32", keyword)).unwrap_err(),
            ErrorKind::UnknownReturnShape
        );
    }
}

#[test]
fn name_macro_refuses_what_is_not_a_name_and_a_type() {
    for body in ["", "a", "a b, i32", "1, i32", "a, ", "a, i32 i32", "a, 1", "\"a,b\", i32", "a; i32"] {
        assert_eq!(NameMacro::parse(body).unwrap_err(), ErrorKind::UnknownReturnShape, "{}", body);
    }
}

#[test]
fn name_macro_with_a_composite_type() {
    let named = NameMacro::parse("dog, composite_type!(\"Dog\")").unwrap();
    assert_eq!(named.ident, "dog");
    assert_eq!(named.sql, Some("\"Dog\"".to_string()));
    assert!(matches!(named.ty, TypeExpr::Macro { .. }));
    assert_eq!(type_to_tokens(&named.ty), "composite_type ! ( \"Dog\" )");
    let named = NameMacro::parse("dog, pgx::composite_type!(names::DOG)").unwrap();
    assert_eq!(named.sql, Some("names :: DOG".to_string()));
    assert_eq!(type_to_tokens(&named.ty), "pgx :: composite_type ! ( names :: DOG )");
    assert_eq!(NameMacro::parse("dog, vec!(1)").unwrap_err(), ErrorKind::UnknownReturnShape);
    assert_eq!(NameMacro::parse("dog, composite_type!(fn)").unwrap_err(), ErrorKind::UnknownReturnShape);
}

#[test]
fn name_macro_pieces() {
    assert_eq!(NameMacro::name_from(Some("a".to_string()), Some("a".to_string())), Some("a".to_string()));
    assert_eq!(NameMacro::name_from(None, Some("type".to_string())), Some("type".to_string()));
    assert_eq!(NameMacro::name_from(None, Some("fn".to_string())), None);
    assert_eq!(NameMacro::name_from(None, None), None);
    assert!(NameMacro::type_from(None, None, None).is_err());
    assert!(NameMacro::type_from(Some("i32".to_string()), None, None).is_ok());
    let found = Some((vec!["pgx".to_string(), "composite_type".to_string()], "\"Dog\"".to_string()));
    let (ty, sql) = NameMacro::type_from(Some("x".to_string()), found, Some("\"Dog\"".to_string())).unwrap();
    assert_eq!(type_to_tokens(&ty), "pgx :: composite_type ! ( \"Dog\" )");
    assert_eq!(sql, Some("\"Dog\"".to_string()));
    let found = Some((vec!["composite_type".to_string()], "fn".to_string()));
    assert!(NameMacro::type_from(Some("x".to_string()), found, None).is_err());
    let found = Some((vec!["vec".to_string()], "1".to_string()));
    assert!(NameMacro::type_from(Some("x".to_string()), found, Some("1".to_string())).is_err());
}

#[test]
fn copies_are_equal_to_what_was_copied() {
    let tuple = TypeExpr::Tuple {
        elems: vec![
            mac("name", "a, &'a str"),
            TypeExpr::Reference { lifetime: Some("a".to_string()), mutable: true, elem: Box::new(plain("T")) },
            TypeExpr::TraitObject { bounds: iterator_of(plain("i64")) },
        ],
    };
    let ty = TypeExpr::Path(path(vec![
        segment("std"),
        generic(
            "Box",
            vec![
                GenericArgument::Lifetime("a".to_string()),
                GenericArgument::Type(tuple),
                GenericArgument::Verbatim("3".to_string()),
            ],
        ),
    ]));
    let copy = ty.clone();
    assert_eq!(type_to_tokens(&copy), type_to_tokens(&ty));
    assert_eq!(
        type_to_tokens(&copy),
        "std :: Box < 'a , ( name ! ( a, &'a str ) , & 'a mut T , dyn Iterator < Item = i64 > , ) , 3 >"
    );
    let shape = Returning::try_from(&declared(ty)).unwrap();
    assert_eq!(format!("{:?}", shape.clone()), format!("{:?}", shape));
    let named = NameMacro::parse("a, i32").unwrap();
    assert_eq!(format!("{:?}", named.clone()), format!("{:?}", named));
    assert_eq!(format!("{:?}", declared(plain("u8")).clone()), format!("{:?}", declared(plain("u8"))));
}
