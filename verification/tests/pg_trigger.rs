use pgx_utils::pg_trigger::{PgTrigger, PgTriggerAttribute, ToSqlConfig, TriggerErrorKind, TriggerFn};
use pgx_utils::text::replace_all;

fn func(ident: &str) -> TriggerFn {
    TriggerFn {
        ident: ident.to_string(),
        tokens: format!(
            "fn {}(trigger: &pgx::PgTrigger) -> Result<PgHeapTuple<'_, impl WhoAllocated<pgx::pg_sys::HeapTupleData>>, PgHeapTupleError> {{ todo!() }}",
            ident
        ),
    }
}

fn sql(content: &str) -> PgTriggerAttribute {
    PgTriggerAttribute::Sql(ToSqlConfig { enabled: true, callback: None, content: Some(content.to_string()) })
}

#[test]
fn trigger_without_attributes_has_the_default_configuration() {
    let trigger = PgTrigger::new(func("audit"), vec![]).unwrap();
    assert!(trigger.to_sql_config.enabled);
    assert_eq!(trigger.to_sql_config.callback, None);
    assert_eq!(trigger.to_sql_config.content, None);
    assert!(!trigger.to_sql_config.overrides_default());
    assert_eq!(trigger.func.ident, "audit");
}

#[test]
fn placeholder_becomes_the_name_of_the_wrapper() {
    let given = "CREATE FUNCTION a() RETURNS trigger AS 'x', '@FUNCTION_NAME@'; -- @FUNCTION_NAME@@FUNCTION_NAME";
    let trigger = PgTrigger::new(func("audit"), vec![sql(given)]).unwrap();
    assert_eq!(
        trigger.to_sql_config.content,
        Some(
            "CREATE FUNCTION a() RETURNS trigger AS 'x', 'audit_wrapper'; -- audit_wrapper@FUNCTION_NAME\n"
                .to_string()
        )
    );
    assert!(trigger.to_sql_config.overrides_default());
}

#[test]
fn replace_all_takes_occurrences_from_the_left() {
    assert_eq!(replace_all("aaaa", "aa", "b"), "bb");
    assert_eq!(replace_all("aaa", "aa", "b"), "ba");
    assert_eq!(replace_all("abc", "", "x"), "abc");
    assert_eq!(replace_all("", "a", "x"), "");
    assert_eq!(replace_all("héllo wörld", "ö", "oe"), "héllo woerld");
    assert_eq!(replace_all("abcabc", "bc", ""), "aa");
}

#[test]
fn two_sql_arguments_are_refused() {
    let err = PgTrigger::new(func("audit"), vec![sql("a"), sql("b")]).unwrap_err();
    assert_eq!(err.kind, TriggerErrorKind::MultipleSqlArguments);
    assert_eq!(err.message, "Multiple `sql` arguments found, it must be unique");
}

#[test]
fn long_names_are_refused_unless_the_sql_is_given() {
    let long = "a".repeat(64);
    let err = PgTrigger::new(func(&long), vec![]).unwrap_err();
    assert_eq!(err.kind, TriggerErrorKind::IdentifierTooLong);
    assert!(PgTrigger::new(func(&"a".repeat(63)), vec![]).is_ok());
    assert!(PgTrigger::new(func(&long), vec![sql("x")]).is_ok());
    let disabled = PgTriggerAttribute::Sql(ToSqlConfig { enabled: false, callback: None, content: None });
    assert!(PgTrigger::new(func(&long), vec![disabled]).is_ok());
    let enabled = PgTriggerAttribute::Sql(ToSqlConfig { enabled: true, callback: None, content: None });
    assert!(PgTrigger::new(func(&long), vec![enabled]).is_err());
    let umlauts = "ä".repeat(32);
    assert_eq!(PgTrigger::new(func(&umlauts), vec![]).unwrap_err().kind, TriggerErrorKind::IdentifierTooLong);
}

#[test]
fn generated_functions_parse_and_have_their_names() {
    let trigger = PgTrigger::new(func("audit"), vec![sql("SELECT \"@FUNCTION_NAME@\";")]).unwrap();
    let entity = trigger.entity_tokens().unwrap();
    assert_eq!(entity.sig.ident.to_string(), "__pgx_internals_trigger_audit");
    assert!(entity.sig.abi.is_some());
    let wrapper = trigger.wrapper_tokens().unwrap();
    assert_eq!(wrapper.sig.ident.to_string(), "audit_wrapper");
    assert_eq!(wrapper.sig.inputs.len(), 1);
    assert_eq!(wrapper.attrs.len(), 2);
    let finfo = trigger.finfo_tokens().unwrap();
    assert_eq!(finfo.sig.ident.to_string(), "pg_finfo_audit_wrapper");
    let all = trigger.to_tokens().unwrap();
    let file = syn::parse_str::<syn::File>(&all).unwrap();
    assert_eq!(file.items.len(), 4);
    assert!(all.starts_with("fn audit("));
    assert!(trigger.entity_source().contains("content: Some(\"SELECT \\\"audit_wrapper\\\";\\n\")"));
    assert!(trigger.entity_source().contains("function_name: \"audit\","));
}

#[test]
fn a_name_that_is_no_identifier_gives_no_function() {
    let trigger = PgTrigger::new(func("not an ident"), vec![]).unwrap();
    assert_eq!(trigger.wrapper_tokens().unwrap_err().kind, TriggerErrorKind::InvalidItem);
    assert!(!trigger.wrapper_tokens().unwrap_err().message.is_empty());
    assert!(!trigger.wrapper_tokens().unwrap_err().message.contains("extern \"C\" fn"));
    assert_eq!(trigger.entity_tokens().unwrap_err().kind, TriggerErrorKind::InvalidItem);
    assert_eq!(trigger.finfo_tokens().unwrap_err().kind, TriggerErrorKind::InvalidItem);
    assert_eq!(trigger.to_tokens().unwrap_err().kind, TriggerErrorKind::InvalidItem);
}

#[test]
fn configuration_is_written_as_an_expression() {
    let config = ToSqlConfig { enabled: false, callback: Some("my::callback".to_string()), content: None };
    assert_eq!(
        config.to_tokens(),
        "::pgx::utils::sql_entity_graph::ToSqlConfigEntity { enabled: false, callback: Some(my::callback), content: None }"
    );
    assert!(syn::parse_str::<syn::Expr>(&config.to_tokens()).is_ok());
    assert_eq!(
        ToSqlConfig::new().to_tokens(),
        "::pgx::utils::sql_entity_graph::ToSqlConfigEntity { enabled: true, callback: None, content: None }"
    );
}

#[test]
fn record_of_a_trigger() {
    let trigger = PgTrigger::new(func("audit"), vec![]).unwrap();
    let entity = trigger.entity("src/lib.rs".to_string(), 12, "my_ext::triggers".to_string());
    assert_eq!(entity.function_name, "audit");
    assert_eq!(entity.full_path, "my_ext::triggers::audit");
    assert_eq!(entity.module, "my_ext::triggers");
    assert_eq!(entity.file, "src/lib.rs");
    assert_eq!(entity.line, 12);
}
