use pgx_utils::entity::{
    FunctionMetadataEntity, PgExternArgumentEntity, PgExternEntity, PgExternReturnEntity,
    PgExternReturnEntityIteratedItem, PostgresEnumEntity, PostgresTypeEntity, ReturnVariant,
    SqlGraphEntity, SqlVariant, TypeEntity,
};
use pgx_utils::error::ErrorKind;
use pgx_utils::pgx_sql::{same_signature, schema_prefix_of, NodeKind, PgxSql};
use pgx_utils::spi_srf::{checked_human_age, human_age};
use pgx_utils::text::{compare_strs, compare_u64s, decimal_string, join_strings, str_is};
use std::cmp::Ordering;

fn argument(pattern: &str, id: u64, full_path: &str, sql: &str) -> PgExternArgumentEntity {
    PgExternArgumentEntity {
        pattern: pattern.to_string(),
        type_id: id,
        full_path: full_path.to_string(),
        argument_sql: SqlVariant::Mapped(sql.to_string()),
        optional: false,
        variadic: false,
        default: None,
        composite_type: None,
    }
}

fn type_entity(id: u64, full_path: &str) -> TypeEntity {
    TypeEntity {
        ty_source: full_path.to_string(),
        ty_id: id,
        full_path: full_path.to_string(),
        module: String::new(),
        composite_type: None,
        optional: false,
    }
}

fn function(path: &str, args: Vec<PgExternArgumentEntity>) -> PgExternEntity {
    PgExternEntity {
        name: path.rsplit("::").next().unwrap().to_string(),
        unaliased_name: path.rsplit("::").next().unwrap().to_string(),
        module: "ext".to_string(),
        full_path: path.to_string(),
        metadata: FunctionMetadataEntity { path: path.to_string(), retval: None },
        fn_args: args,
        fn_return: PgExternReturnEntity::Void,
        schema: None,
        file: "src/lib.rs".to_string(),
        line: 7,
        extern_attrs: vec![],
        search_path: None,
        operator: None,
    }
}

fn dog_type() -> SqlGraphEntity {
    SqlGraphEntity::Type(PostgresTypeEntity {
        name: "Dog".to_string(),
        full_path: "ext::Dog".to_string(),
        schema: Some("kennel".to_string()),
        mappings: vec![10, 11],
    })
}

fn breed_enum() -> SqlGraphEntity {
    SqlGraphEntity::Enum(PostgresEnumEntity {
        name: "Breed".to_string(),
        full_path: "ext::Breed".to_string(),
        schema: None,
        mappings: vec![20, 10],
        variants: vec!["Poodle".to_string()],
    })
}

fn builtin(name: &str) -> SqlGraphEntity {
    SqlGraphEntity::BuiltinType(name.to_string())
}

fn build(entities: Vec<SqlGraphEntity>) -> Result<PgxSql, pgx_utils::error::SqlError> {
    PgxSql::build(entities, "public".to_string(), "MODULE_PATHNAME".to_string(), 99)
}

#[test]
fn build_joins_a_function_to_what_it_refers_to() {
    let mut f = function("ext::walk", vec![argument("dog", 11, "ext::Dog", "Dog"), argument("n", 1, "i32", "int")]);
    f.fn_return = PgExternReturnEntity::SetOf { ty: type_entity(20, "ext::Breed") };
    f.metadata.retval = Some(ReturnVariant::SetOf(SqlVariant::Mapped("Breed".to_string())));
    let graph = build(vec![builtin("i32"), f.clone().into(), dog_type(), breed_enum()]).unwrap();
    assert_eq!(graph.edges, vec![(1, 2), (1, 0), (1, 3)]);
    assert_eq!(graph.nodes.len(), 4);
    assert_eq!(graph.default_schema, "public");
    assert_eq!(graph.internal_type, 99);
    assert_eq!(graph.index_of(&f), Some(1));
    assert_eq!(graph.neighbors_undirected(1), vec![2, 0, 3]);
    assert_eq!(graph.neighbors_undirected(0), vec![1]);
    assert_eq!(graph.neighbors_of_entity(&f), vec![2, 0, 3]);
    assert_eq!(
        f.to_sql(&graph).unwrap(),
        "\n-- src/lib.rs:7\n-- ext::walk\nCREATE FUNCTION \"walk\"(\n\t\"dog\" kennel.Dog, /* ext::Dog */\n\t\"n\" int /* i32 */\n) RETURNS SETOF Breed\nSTRICT\nLANGUAGE c /* Rust */\nAS 'MODULE_PATHNAME', 'walk_wrapper';"
    );
}

#[test]
fn build_joins_a_function_to_the_types_of_its_columns() {
    let mut f = function("ext::table", vec![]);
    f.fn_return = PgExternReturnEntity::Iterated(vec![
        PgExternReturnEntityIteratedItem { ty: type_entity(1, "i32"), name: Some("a".to_string()) },
        PgExternReturnEntityIteratedItem { ty: type_entity(10, "ext::Dog"), name: None },
    ]);
    let graph = build(vec![f.into(), builtin("i32"), dog_type()]).unwrap();
    assert_eq!(graph.edges, vec![(0, 1), (0, 2)]);
}

#[test]
fn build_fails_on_a_reference_that_resolves_to_nothing() {
    let f = function("ext::walk", vec![argument("n", 1, "i32", "int")]);
    let g = function("ext::run", vec![argument("dog", 12, "ext::Cat", "Cat")]);
    let err = build(vec![builtin("i32"), f.into(), g.into(), dog_type()]).unwrap_err();
    assert_eq!(err.kind, ErrorKind::UnresolvedTypeReference);
    assert_eq!(err.identifier, "ext::run");
    assert_eq!(err.file, "src/lib.rs");
    assert_eq!(err.line, 7);
}

#[test]
fn types_are_found_before_enums_and_enums_before_built_in_types() {
    let graph = build(vec![builtin("ext::Dog"), breed_enum(), dog_type()]).unwrap();
    let name = "ext::Dog".to_string();
    let all = vec![0, 1, 2];
    assert_eq!(graph.resolve(&all, 10, &name), Ok(2));
    assert_eq!(graph.resolve(&all, 20, &name), Ok(1));
    assert_eq!(graph.resolve(&all, 30, &name), Ok(0));
    assert_eq!(graph.resolve(&all, 30, &"ext::Cat".to_string()), Err(ErrorKind::UnresolvedTypeReference));
    assert_eq!(graph.resolve(&vec![0, 1], 10, &name), Ok(1));
    assert_eq!(graph.resolve(&vec![7, 0], 10, &name), Ok(0));
    assert_eq!(graph.resolve(&vec![], 10, &name), Err(ErrorKind::UnresolvedTypeReference));
    assert_eq!(graph.find_first(&all, NodeKind::BuiltinType, 10, &name), Some(0));
    assert!(graph.matches_at(2, NodeKind::Type, 11, &name));
    assert!(!graph.matches_at(2, NodeKind::Enum, 11, &name));
    assert!(!graph.matches_at(9, NodeKind::Type, 11, &name));
}

#[test]
fn schema_prefix_is_empty_in_the_default_namespace() {
    let default_schema = "public".to_string();
    assert_eq!(schema_prefix_of(&None, &default_schema), "");
    assert_eq!(schema_prefix_of(&Some("public".to_string()), &default_schema), "");
    assert_eq!(schema_prefix_of(&Some("kennel".to_string()), &default_schema), "kennel.");
    let mut f = function("ext::walk", vec![]);
    f.schema = Some("walks".to_string());
    let graph = build(vec![dog_type(), breed_enum(), builtin("i32"), f.into()]).unwrap();
    assert_eq!(graph.schema_prefix_for(0), "kennel.");
    assert_eq!(graph.schema_prefix_for(1), "");
    assert_eq!(graph.schema_prefix_for(2), "");
    assert_eq!(graph.schema_prefix_for(3), "walks.");
    assert_eq!(graph.schema_prefix_for(4), "");
    assert_eq!(graph.get_module_pathname(), "MODULE_PATHNAME");
}

#[test]
fn functions_are_the_same_by_path_and_argument_types() {
    let f = function("ext::walk", vec![argument("dog", 11, "ext::Dog", "Dog")]);
    let mut g = function("ext::walk", vec![argument("other", 11, "x", "y")]);
    g.line = 100;
    g.name = "renamed".to_string();
    assert!(same_signature(&f, &g));
    assert!(f == g);
    assert_eq!(f.cmp(&g), Ordering::Equal);
    let h = function("ext::walk", vec![argument("dog", 12, "ext::Dog", "Dog")]);
    assert!(f != h);
    assert!(f < h);
    assert_eq!(h.partial_cmp(&f), Some(Ordering::Greater));
    let short = function("ext::walk", vec![]);
    assert!(short < f);
    let earlier = function("ext::run", vec![argument("dog", 99, "ext::Dog", "Dog")]);
    assert!(earlier < short);
    assert_eq!(function("ext::walks", vec![]).cmp(&short), Ordering::Greater);
    let mut sorted = vec![h.clone(), f.clone(), short.clone(), earlier.clone()];
    sorted.sort_by(|a, b| a.cmp(b));
    let paths: Vec<(String, usize)> = sorted.iter().map(|e| (e.rust_identifier(), e.fn_args.len())).collect();
    assert_eq!(
        paths,
        vec![
            ("ext::run".to_string(), 1),
            ("ext::walk".to_string(), 0),
            ("ext::walk".to_string(), 1),
            ("ext::walk".to_string(), 1)
        ]
    );
    assert_eq!(sorted[2].fn_args[0].type_id, 11);
}

#[test]
fn identifiers_of_a_function() {
    let f = function("ext::walk", vec![]);
    assert_eq!(f.dot_identifier(), "fn walk");
    assert_eq!(f.rust_identifier(), "ext::walk");
    assert_eq!(f.file(), Some("src/lib.rs".to_string()));
    assert_eq!(f.line(), Some(7));
    assert!(matches!(SqlGraphEntity::from(f), SqlGraphEntity::Function(_)));
}

#[test]
fn text_helpers() {
    assert_eq!(decimal_string(0), "0");
    assert_eq!(decimal_string(7), "7");
    assert_eq!(decimal_string(10), "10");
    assert_eq!(decimal_string(4294967295), "4294967295");
    assert_eq!(decimal_string(1000), "1000");
    assert_eq!(join_strings(&vec![], ", "), "");
    assert_eq!(join_strings(&vec!["a".to_string()], ", "), "a");
    assert_eq!(join_strings(&vec!["a".to_string(), "".to_string(), "c".to_string()], ", "), "a, , c");
    assert!(str_is(&"Datum".to_string(), "Datum"));
    assert!(!str_is(&"Datum".to_string(), "datum"));
    assert_eq!(compare_strs("abc", "abd"), -1);
    assert_eq!(compare_strs("abc", "ab"), 1);
    assert_eq!(compare_strs("", ""), 0);
    assert_eq!(compare_strs("é", "z"), 1);
    assert_eq!(compare_u64s(&vec![1, 2], &vec![1, 2]), 0);
    assert_eq!(compare_u64s(&vec![1], &vec![1, 0]), -1);
    assert_eq!(compare_u64s(&vec![2], &vec![1, 9]), 1);
}

#[test]
fn human_years_of_the_dogs_of_the_daycare() {
    let ages = [3, 5, 7, 9, 11, 13, 15];
    let expected = [21, 35, 49, 63, 77, 91, 105];
    for (age, years) in ages.iter().zip(expected.iter()) {
        assert_eq!(human_age(*age), *years);
        assert_eq!(checked_human_age(*age), Some(*years));
    }
    assert_eq!(checked_human_age(306783378), Some(2147483646));
    assert_eq!(checked_human_age(306783379), None);
    assert_eq!(checked_human_age(-306783378), Some(-2147483646));
    assert_eq!(checked_human_age(-306783379), None);
    assert_eq!(checked_human_age(i32::MIN), None);
}
