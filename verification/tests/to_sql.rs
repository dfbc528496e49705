use pgx_utils::entity::{
    ExternArgs, FunctionMetadataEntity, PgExternArgumentEntity, PgExternEntity,
    PgExternReturnEntity, PgExternReturnEntityIteratedItem, PgOperatorEntity, PostgresTypeEntity,
    ReturnVariant, SqlGraphEntity, SqlVariant, TypeEntity,
};
use pgx_utils::error::ErrorKind;
use pgx_utils::pgx_sql::PgxSql;

const TEXT_ID: u64 = 1;
const INT_ID: u64 = 2;
const INTERNAL_ID: u64 = 99;

fn ty(source: &str, id: u64, full_path: &str) -> TypeEntity {
    TypeEntity {
        ty_source: source.to_string(),
        ty_id: id,
        full_path: full_path.to_string(),
        module: String::new(),
        composite_type: None,
        optional: false,
    }
}

fn column(name: &str, source: &str, id: u64, full_path: &str) -> PgExternReturnEntityIteratedItem {
    PgExternReturnEntityIteratedItem { ty: ty(source, id, full_path), name: Some(name.to_string()) }
}

fn arg(pattern: &str, id: u64, full_path: &str, sql: &str) -> PgExternArgumentEntity {
    PgExternArgumentEntity {
        pattern: pattern.to_string(),
        type_id: id,
        full_path: full_path.to_string(),
        argument_sql: SqlVariant::Mapped(sql.to_string()),
        optional: false,
        variadic: false,
        default: None,
        composite_type: None,
    }
}

fn function(name: &str, args: Vec<PgExternArgumentEntity>) -> PgExternEntity {
    PgExternEntity {
        name: name.to_string(),
        unaliased_name: name.to_string(),
        module: "spi_srf".to_string(),
        full_path: format!("spi_srf::{}", name),
        metadata: FunctionMetadataEntity { path: format!("spi_srf::{}", name), retval: None },
        fn_args: args,
        fn_return: PgExternReturnEntity::Void,
        schema: None,
        file: "src/lib.rs".to_string(),
        line: 37,
        extern_attrs: vec![],
        search_path: None,
        operator: None,
    }
}

fn graph_for(f: &PgExternEntity) -> PgxSql {
    PgxSql {
        default_schema: "public".to_string(),
        module_pathname: "MODULE_PATHNAME".to_string(),
        internal_type: INTERNAL_ID,
        nodes: vec![
            SqlGraphEntity::Function(f.clone()),
            SqlGraphEntity::BuiltinType("alloc::string::String".to_string()),
            SqlGraphEntity::BuiltinType("i32".to_string()),
            SqlGraphEntity::Type(PostgresTypeEntity {
                name: "Dog".to_string(),
                full_path: "kennel::Dog".to_string(),
                schema: Some("kennel".to_string()),
                mappings: vec![7, 8],
            }),
        ],
        edges: vec![(0, 1), (0, 2), (3, 0)],
    }
}

#[test]
fn calculate_human_years_renders_a_table() {
    let mut f = function("calculate_human_years", vec![]);
    f.fn_return = PgExternReturnEntity::Iterated(vec![
        column("dog_name", "String", TEXT_ID, "alloc::string::String"),
        column("dog_age", "i32", INT_ID, "i32"),
        column("dog_breed", "String", TEXT_ID, "alloc::string::String"),
        column("human_age", "i32", INT_ID, "i32"),
    ]);
    f.metadata.retval = Some(ReturnVariant::Table(vec![
        SqlVariant::Mapped("text".to_string()),
        SqlVariant::Mapped("int".to_string()),
        SqlVariant::Mapped("text".to_string()),
        SqlVariant::Mapped("int".to_string()),
    ]));
    let sql = f.to_sql(&graph_for(&f)).unwrap();
    assert_eq!(
        sql,
        "\n-- src/lib.rs:37\n-- spi_srf::calculate_human_years\nCREATE FUNCTION \"calculate_human_years\"() RETURNS TABLE(\"dog_name\" text, \"dog_age\" int, \"dog_breed\" text, \"human_age\" int)\nSTRICT\nLANGUAGE c /* Rust */\nAS 'MODULE_PATHNAME', 'calculate_human_years_wrapper';"
    );
}

#[test]
fn operator_with_commutator_only() {
    let mut f = function(
        "dog_eq",
        vec![arg("left", 7, "kennel::Dog", "Dog"), arg("right", 8, "kennel::Dog", "Dog")],
    );
    f.fn_return = PgExternReturnEntity::Type { ty: ty("bool", 3, "bool") };
    f.metadata.retval = Some(ReturnVariant::Plain(SqlVariant::Mapped("bool".to_string())));
    f.extern_attrs = vec![ExternArgs::Immutable];
    f.operator = Some(PgOperatorEntity {
        opname: "=".to_string(),
        commutator: Some("=".to_string()),
        negator: None,
        restrict: None,
        join: None,
        hashes: false,
        merges: false,
    });
    let mut graph = graph_for(&f);
    graph.nodes.push(SqlGraphEntity::BuiltinType("bool".to_string()));
    graph.edges.push((0, 4));
    let sql = f.to_sql(&graph).unwrap();
    assert_eq!(
        sql,
        "\n-- src/lib.rs:37\n-- spi_srf::dog_eq\nCREATE FUNCTION \"dog_eq\"(\n\t\"left\" kennel.Dog, /* kennel::Dog */\n\t\"right\" kennel.Dog /* kennel::Dog */\n) RETURNS bool\nIMMUTABLE STRICT\nLANGUAGE c /* Rust */\nAS 'MODULE_PATHNAME', 'dog_eq_wrapper';\n\n-- src/lib.rs:37\n-- spi_srf::dog_eq\nCREATE OPERATOR = (\n\tPROCEDURE=\"dog_eq\",\n\tLEFTARG=kennel.Dog, /* kennel::Dog */\n\tRIGHTARG=kennel.Dog, /* kennel::Dog */\n\tCOMMUTATOR = =\n);"
    );
    assert_eq!(sql.matches("COMMUTATOR = =").count(), 1);
    assert!(!sql.contains("NEGATOR"));
}

#[test]
fn optional_argument_is_not_made_strict() {
    let mut a = arg("breed", TEXT_ID, "alloc::string::String", "text");
    a.optional = true;
    let f = function("filter_by_breed", vec![a]);
    let sql = f.to_sql(&graph_for(&f)).unwrap();
    assert_eq!(
        sql,
        "\n-- src/lib.rs:37\n-- spi_srf::filter_by_breed\nCREATE FUNCTION \"filter_by_breed\"(\n\t\"breed\" text /* alloc::string::String */\n) RETURNS void\nLANGUAGE c /* Rust */\nAS 'MODULE_PATHNAME', 'filter_by_breed_wrapper';"
    );
    assert!(!sql.contains("STRICT"));
}

#[test]
fn set_of_realized_for_a_declared_plain_type_is_a_mismatch() {
    let mut f = function("dogs", vec![]);
    f.fn_return = PgExternReturnEntity::Type { ty: ty("i32", INT_ID, "i32") };
    f.metadata.retval = Some(ReturnVariant::SetOf(SqlVariant::Mapped("int".to_string())));
    let err = f.to_sql(&graph_for(&f)).unwrap_err();
    assert_eq!(err.kind, ErrorKind::ReturnShapeMismatch);
    assert_eq!(err.identifier, "spi_srf::dogs");
    assert_eq!(err.file, "src/lib.rs");
    assert_eq!(err.line, 37);
}

#[test]
fn strict_is_added_once_and_never_twice() {
    let f = function("f", vec![arg("a", TEXT_ID, "alloc::string::String", "text")]);
    let sql = f.to_sql(&graph_for(&f)).unwrap();
    assert_eq!(sql.matches("STRICT").count(), 1);
    assert!(sql.contains(") RETURNS void\nSTRICT\nLANGUAGE c"));
    let mut g = function("g", vec![arg("a", TEXT_ID, "alloc::string::String", "text")]);
    g.extern_attrs = vec![ExternArgs::Strict, ExternArgs::Immutable];
    let sql = g.to_sql(&graph_for(&g)).unwrap();
    assert_eq!(sql.matches("STRICT").count(), 1);
    assert!(sql.contains(") RETURNS void\nSTRICT IMMUTABLE\nLANGUAGE c"));
}

#[test]
fn internal_argument_is_not_made_strict() {
    let f = function("f", vec![arg("state", INTERNAL_ID, "alloc::string::String", "internal")]);
    let sql = f.to_sql(&graph_for(&f)).unwrap();
    assert!(!sql.contains("STRICT"));
}

#[test]
fn attributes_that_sql_does_not_see_leave_an_empty_word() {
    let mut f = function("f", vec![]);
    f.extern_attrs = vec![
        ExternArgs::CreateOrReplace,
        ExternArgs::Raw,
        ExternArgs::ParallelSafe,
        ExternArgs::Requires(vec!["other_fn".to_string(), "\"quoted\"".to_string()]),
        ExternArgs::Error("x".to_string()),
        ExternArgs::Requires(vec!["third".to_string()]),
    ];
    f.search_path = Some(vec!["pg_catalog".to_string(), "public".to_string()]);
    let sql = f.to_sql(&graph_for(&f)).unwrap();
    assert_eq!(
        sql,
        "\n-- src/lib.rs:37\n-- spi_srf::f\n-- requires:\n--   other_fn\n--   \"quoted\"\n--   third\nCREATE FUNCTION \"f\"() RETURNS void\nCREATE OR REPLACE  PARALLEL SAFE    STRICT\nSET search_path TO pg_catalog, public\nLANGUAGE c /* Rust */\nAS 'MODULE_PATHNAME', 'f_wrapper';"
    );
}

#[test]
fn arguments_with_variadic_default_and_composite_types() {
    let mut first = arg("dogs", 7, "kennel::Dog", "unused");
    first.argument_sql = SqlVariant::Composite { requires_array_brackets: true };
    first.composite_type = Some("Dog".to_string());
    first.variadic = true;
    let mut second = arg("n", INT_ID, "i32", "int");
    second.default = Some("5".to_string());
    let mut skipped = arg("fcinfo", TEXT_ID, "alloc::string::String", "unused");
    skipped.argument_sql = SqlVariant::Skip;
    let mut f = function("f", vec![first, second, skipped]);
    f.schema = Some("custom".to_string());
    let sql = f.to_sql(&graph_for(&f)).unwrap();
    assert_eq!(
        sql,
        "\n-- src/lib.rs:37\n-- spi_srf::f\nCREATE FUNCTION custom.\"f\"(\n\t\"dogs\" VARIADIC kennel.Dog[], /* kennel::Dog */\n\t\"n\" int DEFAULT 5 /* i32 */\n) RETURNS void\nSTRICT\nLANGUAGE c /* Rust */\nAS 'MODULE_PATHNAME', 'f_wrapper';"
    );
}

#[test]
fn composite_argument_without_a_name_is_refused() {
    let mut a = arg("dog", 7, "kennel::Dog", "unused");
    a.argument_sql = SqlVariant::Composite { requires_array_brackets: false };
    let f = function("f", vec![a]);
    assert_eq!(f.to_sql(&graph_for(&f)).unwrap_err().kind, ErrorKind::MissingCompositeName);
}

#[test]
fn skipped_return_type_is_refused() {
    let mut f = function("f", vec![]);
    f.fn_return = PgExternReturnEntity::Type { ty: ty("i32", INT_ID, "i32") };
    f.metadata.retval = Some(ReturnVariant::Plain(SqlVariant::Skip));
    assert_eq!(f.to_sql(&graph_for(&f)).unwrap_err().kind, ErrorKind::MissingCompositeName);
    f.fn_return = PgExternReturnEntity::SetOf { ty: ty("i32", INT_ID, "i32") };
    f.metadata.retval = Some(ReturnVariant::SetOf(SqlVariant::Skip));
    assert_eq!(f.to_sql(&graph_for(&f)).unwrap_err().kind, ErrorKind::MissingCompositeName);
}

#[test]
fn unknown_types_are_not_resolved() {
    let f = function("f", vec![arg("cat", 1000, "kennel::Cat", "Cat")]);
    assert_eq!(f.to_sql(&graph_for(&f)).unwrap_err().kind, ErrorKind::UnresolvedTypeReference);
    let mut g = function("g", vec![]);
    g.fn_return = PgExternReturnEntity::Type { ty: ty("Cat", 1000, "kennel::Cat") };
    g.metadata.retval = Some(ReturnVariant::Plain(SqlVariant::Mapped("Cat".to_string())));
    assert_eq!(g.to_sql(&graph_for(&g)).unwrap_err().kind, ErrorKind::UnresolvedTypeReference);
    let h = function("h", vec![arg("a", TEXT_ID, "alloc::string::String", "text")]);
    let other = function("other", vec![]);
    assert_eq!(h.to_sql(&graph_for(&other)).unwrap_err().kind, ErrorKind::UnresolvedTypeReference);
}

#[test]
fn shapes_that_disagree_are_a_mismatch() {
    let plain = Some(ReturnVariant::Plain(SqlVariant::Mapped("int".to_string())));
    let set = Some(ReturnVariant::SetOf(SqlVariant::Mapped("int".to_string())));
    let table = Some(ReturnVariant::Table(vec![SqlVariant::Mapped("int".to_string())]));
    let declared = [
        PgExternReturnEntity::Void,
        PgExternReturnEntity::Type { ty: ty("i32", INT_ID, "i32") },
        PgExternReturnEntity::SetOf { ty: ty("i32", INT_ID, "i32") },
        PgExternReturnEntity::Iterated(vec![column("a", "i32", INT_ID, "i32")]),
        PgExternReturnEntity::Iterated(vec![column("a", "i32", INT_ID, "i32"), column("b", "i32", INT_ID, "i32")]),
    ];
    let realized = [None, plain, set, table];
    let agree = [(0, 0), (1, 1), (2, 2), (3, 3)];
    for (i, shape) in declared.iter().enumerate() {
        for (j, variant) in realized.iter().enumerate() {
            let mut f = function("f", vec![arg("cat", 1000, "kennel::Cat", "Cat")]);
            f.fn_return = shape.clone();
            f.metadata.retval = variant.clone();
            let err = f.to_sql(&graph_for(&f)).unwrap_err();
            if agree.contains(&(i, j)) {
                assert_eq!(err.kind, ErrorKind::UnresolvedTypeReference);
            } else {
                assert_eq!(err.kind, ErrorKind::ReturnShapeMismatch);
            }
        }
    }
}

#[test]
fn trigger_and_set_returns() {
    let mut f = function("f", vec![]);
    f.fn_return = PgExternReturnEntity::Trigger;
    assert!(f.to_sql(&graph_for(&f)).unwrap().contains("\"f\"() RETURNS trigger\nSTRICT\n"));
    let mut dog = ty("Dog", 8, "kennel::Dog");
    dog.composite_type = Some("Dog".to_string());
    f.fn_return = PgExternReturnEntity::SetOf { ty: dog };
    f.metadata.retval = Some(ReturnVariant::SetOf(SqlVariant::Composite { requires_array_brackets: false }));
    assert!(f.to_sql(&graph_for(&f)).unwrap().contains("\"f\"() RETURNS SETOF kennel.Dog\nSTRICT\n"));
}

#[test]
fn nullability_does_not_change_the_returned_type() {
    let mut f = function("f", vec![]);
    f.fn_return = PgExternReturnEntity::Type { ty: ty("i32", INT_ID, "i32") };
    f.metadata.retval = Some(ReturnVariant::Plain(SqlVariant::Mapped("int".to_string())));
    let plain = f.to_sql(&graph_for(&f)).unwrap();
    assert!(plain.contains("\"f\"() RETURNS int\n"));
    let mut optional = ty("Option<i32>", INT_ID, "i32");
    optional.optional = true;
    f.fn_return = PgExternReturnEntity::Type { ty: optional };
    assert_eq!(f.to_sql(&graph_for(&f)).unwrap(), plain);
}

#[test]
fn table_columns_without_a_name_are_written_without_one() {
    let mut f = function("f", vec![]);
    let mut unnamed = column("x", "i32", INT_ID, "i32");
    unnamed.name = None;
    f.fn_return = PgExternReturnEntity::Iterated(vec![
        column("a", "String", TEXT_ID, "alloc::string::String"),
        unnamed,
        column("dog", "Dog", 7, "kennel::Dog"),
    ]);
    f.metadata.retval = Some(ReturnVariant::Table(vec![
        SqlVariant::Mapped("text".to_string()),
        SqlVariant::Mapped("int".to_string()),
        SqlVariant::Mapped("Dog".to_string()),
    ]));
    let sql = f.to_sql(&graph_for(&f)).unwrap();
    assert!(sql.contains("RETURNS TABLE(\"a\" text, int, \"dog\" kennel.Dog)\n"));
    f.fn_return = PgExternReturnEntity::Iterated(vec![]);
    f.metadata.retval = Some(ReturnVariant::Table(vec![]));
    assert!(f.to_sql(&graph_for(&f)).unwrap().contains("RETURNS TABLE()\n"));
}

#[test]
fn operator_needs_two_arguments() {
    let operator = PgOperatorEntity {
        opname: "<->".to_string(),
        commutator: None,
        negator: Some("<!>".to_string()),
        restrict: Some("eqsel".to_string()),
        join: Some("eqjoinsel".to_string()),
        hashes: true,
        merges: true,
    };
    for count in [0usize, 1, 3] {
        let args = (0..count).map(|_| arg("a", INT_ID, "i32", "int")).collect();
        let mut f = function("f", args);
        f.operator = Some(operator.clone());
        assert_eq!(f.to_sql(&graph_for(&f)).unwrap_err().kind, ErrorKind::InvalidOperatorArity);
    }
    let mut f = function("f", vec![arg("a", INT_ID, "i32", "int"), arg("b", TEXT_ID, "alloc::string::String", "text")]);
    f.operator = Some(operator.clone());
    let sql = f.to_sql(&graph_for(&f)).unwrap();
    assert!(sql.ends_with(
        "\n\n-- src/lib.rs:37\n-- spi_srf::f\nCREATE OPERATOR <-> (\n\tPROCEDURE=\"f\",\n\tLEFTARG=int, /* i32 */\n\tRIGHTARG=text, /* alloc::string::String */\n\tNEGATOR = <!>,\n\tRESTRICT = eqsel,\n\tJOIN = eqjoinsel,\n\tHASHES,\n\tMERGES\n);"
    ));
    let mut bare = operator.clone();
    bare.negator = None;
    bare.restrict = None;
    bare.join = None;
    bare.hashes = false;
    bare.merges = false;
    f.operator = Some(bare);
    let sql = f.to_sql(&graph_for(&f)).unwrap();
    assert!(sql.ends_with("\tRIGHTARG=text /* alloc::string::String */\n);"));
    let mut skipped = arg("b", TEXT_ID, "alloc::string::String", "text");
    skipped.argument_sql = SqlVariant::Skip;
    let mut g = function("g", vec![arg("a", INT_ID, "i32", "int"), skipped]);
    g.operator = f.operator.clone();
    assert_eq!(g.to_sql(&graph_for(&g)).unwrap_err().kind, ErrorKind::MissingCompositeName);
}

#[test]
fn error_kinds_have_messages() {
    assert_eq!(ErrorKind::UnknownReturnShape.message(), "the return type has no known shape");
    assert_eq!(ErrorKind::InvalidOperatorArity.message(), "an operator takes exactly two arguments");
}
