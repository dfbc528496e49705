use pgx_utils::returning::{Returning, ReturningIteratedItem};
use pgx_utils::returning_tokens::{escape, write_type_entity};
use pgx_utils::text::strip_spaces;
use pgx_utils::type_expr::{PathArguments, PathSegment, TypeExpr, TypePath};

fn plain(ident: &str) -> TypeExpr {
    TypeExpr::Path(TypePath {
        leading_colon: false,
        segments: vec![PathSegment { ident: ident.to_string(), arguments: PathArguments::Empty }],
    })
}

#[test]
fn void_and_trigger_records() {
    assert_eq!(Returning::Void.to_tokens(), "::pgx::utils::sql_entity_graph::PgExternReturnEntity::None");
    assert_eq!(Returning::Trigger.to_tokens(), "::pgx::utils::sql_entity_graph::PgExternReturnEntity::Trigger");
}

#[test]
fn record_of_a_single_value() {
    let ty = TypeExpr::Reference { lifetime: Some("static".to_string()), mutable: false, elem: Box::new(plain("str")) };
    let text = Returning::Type { ty, sql: None }.to_tokens();
    assert_eq!(
        text,
        "::pgx::utils::sql_entity_graph::PgExternReturnEntity::Type { ty: ::pgx::utils::sql_entity_graph::TypeEntity::Type { ty_id: TypeId::of::< & 'static str >(), ty_source: \"&'staticstr\", full_path: core::any::type_name::< & 'static str >(), module_path: { let type_name = core::any::type_name::< & 'static str >(); let mut path_items: Vec<_> = type_name.split(\"::\").collect(); let _ = path_items.pop(); path_items.join(\"::\") }, } }"
    );
    assert!(syn::parse_str::<syn::Expr>(&text).is_ok());
}

#[test]
fn record_of_a_composite_value() {
    let text = Returning::Type { ty: plain("ignored"), sql: Some("\"Dog\"".to_string()) }.to_tokens();
    assert_eq!(
        text,
        "::pgx::utils::sql_entity_graph::PgExternReturnEntity::Type { ty: ::pgx::utils::sql_entity_graph::TypeEntity::CompositeType { sql: \"Dog\", } }"
    );
    assert!(syn::parse_str::<syn::Expr>(&text).is_ok());
}

#[test]
fn record_of_a_table() {
    let items = vec![
        ReturningIteratedItem { ty: plain("i32"), name: Some("dog_age".to_string()), sql: None },
        ReturningIteratedItem { ty: plain("bool"), name: None, sql: None },
    ];
    let text = Returning::Iterated(items).to_tokens();
    assert!(text.starts_with("::pgx::utils::sql_entity_graph::PgExternReturnEntity::Iterated(vec![("));
    assert!(text.contains("ty_source: \"i32\""));
    assert!(text.contains(", None.unwrap_or(Some(stringify!(\"dog_age\")))), ("));
    assert!(text.ends_with(", None)])"));
    assert!(syn::parse_str::<syn::Expr>(&text).is_ok());
    assert_eq!(
        Returning::Iterated(vec![]).to_tokens(),
        "::pgx::utils::sql_entity_graph::PgExternReturnEntity::Iterated(vec![])"
    );
}

#[test]
fn record_of_a_set() {
    let ty = TypePath {
        leading_colon: true,
        segments: vec![
            PathSegment { ident: "a".to_string(), arguments: PathArguments::Empty },
            PathSegment { ident: "B".to_string(), arguments: PathArguments::Empty },
        ],
    };
    let text = Returning::SetOf { ty, sql: None }.to_tokens();
    assert!(text.starts_with("::pgx::utils::sql_entity_graph::PgExternReturnEntity::SetOf { ty: "));
    assert!(text.contains("TypeId::of::< :: a :: B >()"));
    assert!(text.contains("ty_source: \"::a::B\""));
    assert!(syn::parse_str::<syn::Expr>(&text).is_ok());
}

#[test]
fn escaping_and_stripping() {
    assert_eq!(escape("a\"b\\c"), "a\\\"b\\\\c");
    assert_eq!(escape(""), "");
    assert_eq!(strip_spaces(" a  b c "), "abc");
    assert_eq!(strip_spaces("ä ö"), "äö");
    assert!(write_type_entity("composite_type ! ( \"my dog\" )").contains("ty_source: \"composite_type!(\\\"mydog\\\")\""));
}
