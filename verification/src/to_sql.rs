//! Rendering a declared function as SQL.
//!
//! Each piece of the statement is stated as a `Seq<char>` by a spec function
//! and built by an executable function that is proved to produce that text.

use vstd::prelude::*;
use vstd::string::*;
use crate::entity::{
    ExternArgs, PgExternArgumentEntity, PgExternEntity, PgExternReturnEntity,
    PgExternReturnEntityIteratedItem, PgOperatorEntity, ReturnVariant, SqlVariant, TypeEntity,
};
use crate::error::{ErrorKind, SqlError};
use crate::pgx_sql::{resolve_among, schema_prefix, schema_prefix_of, PgxSql};
use crate::text::{
    collect, decimal, join, join_strings, lemma_collect_all, lemma_collect_fails, opt_view, push_decimal,
    views,
};

verus! {

/// How a type is written in SQL, `None` where it is not written at all. A
/// composite type is written by the name given where it is used, with `[]`
/// behind it for an array of rows.
pub open spec fn sql_name(sql: SqlVariant, composite: Option<String>) -> Result<Option<Seq<char>>, ErrorKind> {
    match sql {
        SqlVariant::Mapped(name) => Ok(Some(name@)),
        SqlVariant::Composite { requires_array_brackets } => match composite {
            Some(name) => Ok(Some(if requires_array_brackets {
                name@ + "[]"@
            } else {
                name@
            })),
            None => Err(ErrorKind::MissingCompositeName),
        },
        SqlVariant::Skip => Ok(None),
    }
}

/// How a type is written where one has to be written.
pub open spec fn required_sql_name(sql: SqlVariant, composite: Option<String>) -> Result<Seq<char>, ErrorKind> {
    match sql_name(sql, composite) {
        Ok(Some(name)) => Ok(name),
        Ok(None) => Err(ErrorKind::MissingCompositeName),
        Err(e) => Err(e),
    }
}

/// Whether one of `attrs` asks for strict null handling.
pub open spec fn has_strict(attrs: Seq<ExternArgs>) -> bool {
    exists|i: int| 0 <= i < attrs.len() && attrs[i] is Strict
}

/// Whether an argument rules out strict null handling: it may be null
/// itself, or it is of the database's untyped internal type.
pub open spec fn forbids_strict(arg: PgExternArgumentEntity, internal_type: u64) -> bool {
    arg.optional || arg.type_id == internal_type
}

/// Whether `STRICT` is added to the attributes: it is not there yet and no
/// argument rules it out.
pub open spec fn strict_upgrade(
    attrs: Seq<ExternArgs>,
    args: Seq<PgExternArgumentEntity>,
    internal_type: u64,
) -> bool {
    !has_strict(attrs) && forall|i: int| 0 <= i < args.len() ==> !forbids_strict(#[trigger] args[i], internal_type)
}

/// The attributes that the statement is rendered with.
pub open spec fn effective_attrs(
    attrs: Seq<ExternArgs>,
    args: Seq<PgExternArgumentEntity>,
    internal_type: u64,
) -> Seq<ExternArgs> {
    if strict_upgrade(attrs, args, internal_type) {
        attrs.push(ExternArgs::Strict)
    } else {
        attrs
    }
}

/// How many of `attrs` ask for strict null handling.
pub open spec fn count_strict(attrs: Seq<ExternArgs>) -> nat
    decreases attrs.len(),
{
    if attrs.len() == 0 {
        0
    } else {
        count_strict(attrs.drop_last()) + if attrs.last() is Strict {
            1nat
        } else {
            0nat
        }
    }
}

/// The keywords of `attrs`, one for each.
pub open spec fn attr_keywords(attrs: Seq<ExternArgs>) -> Seq<Seq<char>> {
    Seq::new(attrs.len(), |i: int| attrs[i].spec_keyword())
}

/// The line of attributes: the keywords with a space between them.
pub open spec fn attrs_line(attrs: Seq<ExternArgs>) -> Seq<char> {
    if attrs.len() == 0 {
        Seq::empty()
    } else {
        join(attr_keywords(attrs), " "@) + "\n"@
    }
}

/// What the `Requires` attributes among `attrs` name, in order.
pub open spec fn requirements(attrs: Seq<ExternArgs>) -> Seq<Seq<char>>
    decreases attrs.len(),
{
    if attrs.len() == 0 {
        Seq::empty()
    } else {
        requirements(attrs.drop_last()) + match attrs.last() {
            ExternArgs::Requires(items) => views(items@),
            _ => Seq::empty(),
        }
    }
}

/// One comment line for each requirement.
pub open spec fn requirement_lines(items: Seq<Seq<char>>) -> Seq<Seq<char>> {
    Seq::new(items.len(), |i: int| "--   "@ + items[i])
}

/// The comment block that lists what the function requires.
pub open spec fn requires_block(attrs: Seq<ExternArgs>) -> Seq<char> {
    let items = requirements(attrs);
    if items.len() == 0 {
        Seq::empty()
    } else {
        "-- requires:\n"@ + join(requirement_lines(items), "\n"@) + "\n"@
    }
}

/// The clause that sets the search path.
pub open spec fn search_path_line(search_path: Option<Vec<String>>) -> Seq<char> {
    match search_path {
        Some(names) => "SET search_path TO "@ + join(views(names@), ", "@) + "\n"@,
        None => Seq::empty(),
    }
}

/// The two comment lines that say where the function was declared.
pub open spec fn header(f: PgExternEntity) -> Seq<char> {
    "\n-- "@ + f.file@ + ":"@ + decimal(f.line as nat) + "\n-- "@ + f.module@ + "::"@ + f.name@ + "\n"@
}

/// What is written for one argument before the comma: its name, `VARIADIC`
/// where it takes the rest of the arguments, its type and its default.
pub open spec fn argument_head(arg: PgExternArgumentEntity, prefix: Seq<char>, sql: Seq<char>) -> Seq<char> {
    "\t\""@ + arg.pattern@ + "\" "@ + (if arg.variadic {
        "VARIADIC "@
    } else {
        Seq::empty()
    }) + prefix + sql + (match arg.default {
        Some(d) => " DEFAULT "@ + d@,
        None => Seq::empty(),
    })
}

/// What one argument contributes: what is written for it and the Rust type
/// named in the comment behind it; nothing for a type that SQL does not see.
pub open spec fn argument_piece(ctx: PgxSql, among: Seq<usize>, arg: PgExternArgumentEntity) -> Result<
    Option<(Seq<char>, Seq<char>)>,
    ErrorKind,
> {
    match resolve_among(ctx.nodes@, among, arg.type_id, arg.full_path@) {
        None => Err(ErrorKind::UnresolvedTypeReference),
        Some(n) => match sql_name(arg.argument_sql, arg.composite_type) {
            Err(e) => Err(e),
            Ok(None) => Ok(None),
            Ok(Some(sql)) => Ok(Some((argument_head(arg, ctx.spec_schema_prefix_for(n), sql), arg.full_path@))),
        },
    }
}

/// What the arguments contribute, in order, or the failure of the first that fails.
pub open spec fn argument_pieces(ctx: PgxSql, among: Seq<usize>, args: Seq<PgExternArgumentEntity>) -> Result<
    Seq<(Seq<char>, Seq<char>)>,
    ErrorKind,
> {
    collect(Seq::new(args.len(), |i: int| argument_piece(ctx, among, args[i])))
}

/// The line of one argument; a comma follows all but the last.
pub open spec fn argument_line(piece: (Seq<char>, Seq<char>), last: bool) -> Seq<char> {
    piece.0 + (if last {
        " "@
    } else {
        ", "@
    }) + "/* "@ + piece.1 + " */"@
}

/// The lines of the arguments.
pub open spec fn argument_lines(pieces: Seq<(Seq<char>, Seq<char>)>) -> Seq<Seq<char>> {
    Seq::new(pieces.len(), |i: int| argument_line(pieces[i], i + 1 == pieces.len()))
}

/// What stands between the brackets of `CREATE FUNCTION`.
pub open spec fn arguments_text(ctx: PgxSql, among: Seq<usize>, args: Seq<PgExternArgumentEntity>) -> Result<
    Seq<char>,
    ErrorKind,
> {
    match argument_pieces(ctx, among, args) {
        Err(e) => Err(e),
        Ok(pieces) => Ok(
            if args.len() == 0 {
                Seq::empty()
            } else {
                "\n"@ + join(argument_lines(pieces), "\n"@) + "\n"@
            },
        ),
    }
}

/// The texts of a sequence of pairs of strings.
pub open spec fn pair_views(pairs: Seq<(String, String)>) -> Seq<(Seq<char>, Seq<char>)> {
    Seq::new(pairs.len(), |i: int| (pairs[i].0@, pairs[i].1@))
}

/// Whether the return variant that was realized is of the declared shape.
pub open spec fn shapes_agree(declared: PgExternReturnEntity, realized: Option<ReturnVariant>) -> bool {
    match declared {
        PgExternReturnEntity::Void => realized is None,
        PgExternReturnEntity::Type { .. } => realized matches Some(ReturnVariant::Plain(_)),
        PgExternReturnEntity::SetOf { .. } => realized matches Some(ReturnVariant::SetOf(_)),
        PgExternReturnEntity::Iterated(items) => realized matches Some(ReturnVariant::Table(sqls))
            && sqls.len() == items.len(),
        PgExternReturnEntity::Trigger => true,
    }
}

/// How a returned type is written: its qualification and its SQL name.
pub open spec fn returned_type(ctx: PgxSql, among: Seq<usize>, ty: TypeEntity, sql: SqlVariant) -> Result<
    Seq<char>,
    ErrorKind,
> {
    match resolve_among(ctx.nodes@, among, ty.ty_id, ty.full_path@) {
        None => Err(ErrorKind::UnresolvedTypeReference),
        Some(n) => match required_sql_name(sql, ty.composite_type) {
            Err(e) => Err(e),
            Ok(name) => Ok(ctx.spec_schema_prefix_for(n) + name),
        },
    }
}

/// One column of `RETURNS TABLE`: the quoted name, where the column has one, and the type.
pub open spec fn table_column(
    ctx: PgxSql,
    among: Seq<usize>,
    item: PgExternReturnEntityIteratedItem,
    sql: SqlVariant,
) -> Result<Option<Seq<char>>, ErrorKind> {
    match returned_type(ctx, among, item.ty, sql) {
        Err(e) => Err(e),
        Ok(ty) => Ok(
            Some(
                match item.name {
                    Some(name) => "\""@ + name@ + "\" "@ + ty,
                    None => ty,
                },
            ),
        ),
    }
}

/// The columns of `RETURNS TABLE`, one for each declared column and in their
/// order, or the failure of the first that fails.
pub open spec fn table_columns(
    ctx: PgxSql,
    among: Seq<usize>,
    items: Seq<PgExternReturnEntityIteratedItem>,
    sqls: Seq<SqlVariant>,
) -> Result<Seq<Seq<char>>, ErrorKind> {
    collect(Seq::new(items.len(), |i: int| table_column(ctx, among, items[i], sqls[i])))
}

/// The `RETURNS` clause.
pub open spec fn returns_clause(
    ctx: PgxSql,
    among: Seq<usize>,
    declared: PgExternReturnEntity,
    realized: Option<ReturnVariant>,
) -> Result<Seq<char>, ErrorKind> {
    match declared {
        PgExternReturnEntity::Void => match realized {
            None => Ok("RETURNS void"@),
            _ => Err(ErrorKind::ReturnShapeMismatch),
        },
        PgExternReturnEntity::Type { ty } => match realized {
            Some(ReturnVariant::Plain(sql)) => match returned_type(ctx, among, ty, sql) {
                Ok(text) => Ok("RETURNS "@ + text),
                Err(e) => Err(e),
            },
            _ => Err(ErrorKind::ReturnShapeMismatch),
        },
        PgExternReturnEntity::SetOf { ty } => match realized {
            Some(ReturnVariant::SetOf(sql)) => match returned_type(ctx, among, ty, sql) {
                Ok(text) => Ok("RETURNS SETOF "@ + text),
                Err(e) => Err(e),
            },
            _ => Err(ErrorKind::ReturnShapeMismatch),
        },
        PgExternReturnEntity::Iterated(items) => match realized {
            Some(ReturnVariant::Table(sqls)) => if sqls.len() != items.len() {
                Err(ErrorKind::ReturnShapeMismatch)
            } else {
                match table_columns(ctx, among, items@, sqls@) {
                    Ok(columns) => Ok("RETURNS TABLE("@ + join(columns, ", "@) + ")"@),
                    Err(e) => Err(e),
                }
            },
            _ => Err(ErrorKind::ReturnShapeMismatch),
        },
        PgExternReturnEntity::Trigger => Ok("RETURNS trigger"@),
    }
}

/// The `CREATE FUNCTION` statement.
pub open spec fn function_sql(f: PgExternEntity, ctx: PgxSql, among: Seq<usize>) -> Result<Seq<char>, ErrorKind> {
    match arguments_text(ctx, among, f.fn_args@) {
        Err(e) => Err(e),
        Ok(arguments) => match returns_clause(ctx, among, f.fn_return, f.metadata.retval) {
            Err(e) => Err(e),
            Ok(clause) => Ok(
                "CREATE FUNCTION "@ + schema_prefix(opt_view(f.schema), ctx.default_schema@) + "\""@ + f.name@
                    + "\"("@ + arguments + ") "@ + clause + "\n"@ + attrs_line(
                    effective_attrs(f.extern_attrs@, f.fn_args@, ctx.internal_type),
                ) + search_path_line(f.search_path) + "LANGUAGE c /* Rust */\nAS '"@ + ctx.module_pathname@
                    + "', '"@ + f.name@ + "_wrapper';"@,
            ),
        },
    }
}

/// The optional clauses of `CREATE OPERATOR`, in their fixed order.
pub open spec fn operator_options(op: PgOperatorEntity) -> Seq<Seq<char>> {
    (match op.commutator {
        Some(name) => seq!["\tCOMMUTATOR = "@ + name@],
        None => Seq::empty(),
    }) + (match op.negator {
        Some(name) => seq!["\tNEGATOR = "@ + name@],
        None => Seq::empty(),
    }) + (match op.restrict {
        Some(name) => seq!["\tRESTRICT = "@ + name@],
        None => Seq::empty(),
    }) + (match op.join {
        Some(name) => seq!["\tJOIN = "@ + name@],
        None => Seq::empty(),
    }) + (if op.hashes {
        seq!["\tHASHES"@]
    } else {
        Seq::empty()
    }) + (if op.merges {
        seq!["\tMERGES"@]
    } else {
        Seq::empty()
    })
}

/// How the type of an operand is written.
pub open spec fn operand_type(ctx: PgxSql, among: Seq<usize>, arg: PgExternArgumentEntity) -> Result<
    Seq<char>,
    ErrorKind,
> {
    match resolve_among(ctx.nodes@, among, arg.type_id, arg.full_path@) {
        None => Err(ErrorKind::UnresolvedTypeReference),
        Some(n) => match required_sql_name(arg.argument_sql, arg.composite_type) {
            Err(e) => Err(e),
            Ok(name) => Ok(ctx.spec_schema_prefix_for(n) + name),
        },
    }
}

/// The `CREATE OPERATOR` statement of a function that is the procedure of `op`.
pub open spec fn operator_sql(f: PgExternEntity, op: PgOperatorEntity, ctx: PgxSql, among: Seq<usize>) -> Result<
    Seq<char>,
    ErrorKind,
> {
    if f.fn_args.len() != 2 {
        Err(ErrorKind::InvalidOperatorArity)
    } else {
        match operand_type(ctx, among, f.fn_args[0]) {
            Err(e) => Err(e),
            Ok(left) => match operand_type(ctx, among, f.fn_args[1]) {
                Err(e) => Err(e),
                Ok(right) => {
                    let options = operator_options(op);
                    Ok(
                        "\n"@ + header(f) + "CREATE OPERATOR "@ + op.opname@ + " (\n\tPROCEDURE=\""@ + f.name@
                            + "\",\n\tLEFTARG="@ + left + ", /* "@ + f.fn_args[0].full_path@
                            + " */\n\tRIGHTARG="@ + right + (if options.len() >= 1 {
                            ","@
                        } else {
                            Seq::empty()
                        }) + " /* "@ + f.fn_args[1].full_path@ + " */\n"@ + (if options.len() >= 1 {
                            join(options, ",\n"@) + "\n"@
                        } else {
                            Seq::empty()
                        }) + ");"@,
                    )
                },
            },
        }
    }
}

/// What `f` is rendered as with the graph `ctx`: the statement that creates
/// the function, below the comments that say where it was declared and what
/// it requires, and, for an operator, the statement that creates the operator.
///
/// A return variant that is not of the declared shape fails before anything
/// else is looked at, then an operator that does not take two arguments;
/// after that the first piece that cannot be written decides.
pub open spec fn spec_to_sql(f: PgExternEntity, ctx: PgxSql) -> Result<Seq<char>, ErrorKind> {
    let among = ctx.spec_neighbors_of(f);
    if !shapes_agree(f.fn_return, f.metadata.retval) {
        Err(ErrorKind::ReturnShapeMismatch)
    } else if f.operator is Some && f.fn_args.len() != 2 {
        Err(ErrorKind::InvalidOperatorArity)
    } else {
        match function_sql(f, ctx, among) {
            Err(e) => Err(e),
            Ok(statement) => {
                let sql = header(f) + requires_block(f.extern_attrs@) + statement;
                match f.operator {
                    None => Ok(sql),
                    Some(op) => match operator_sql(f, op, ctx, among) {
                        Err(e) => Err(e),
                        Ok(operator) => Ok(sql + operator),
                    },
                }
            },
        }
    }
}

/// Writes the SQL name of a type.
pub fn write_sql_name(sql: &SqlVariant, composite: &Option<String>) -> (r: Result<Option<String>, ErrorKind>)
    ensures
        match sql_name(*sql, *composite) {
            Ok(Some(name)) => r matches Ok(Some(s)) && s@ == name,
            Ok(None) => r matches Ok(None),
            Err(e) => r matches Err(k) && k == e,
        },
{
    match sql {
        SqlVariant::Mapped(name) => Ok(Some(name.clone())),
        SqlVariant::Composite { requires_array_brackets } => match composite {
            Some(name) => {
                let mut out = name.clone();
                if *requires_array_brackets {
                    out.append("[]");
                }
                Ok(Some(out))
            },
            None => Err(ErrorKind::MissingCompositeName),
        },
        SqlVariant::Skip => Ok(None),
    }
}

/// Writes the SQL name of a type that has to be written.
pub fn write_required_sql_name(sql: &SqlVariant, composite: &Option<String>) -> (r: Result<String, ErrorKind>)
    ensures
        match required_sql_name(*sql, *composite) {
            Ok(name) => r matches Ok(s) && s@ == name,
            Err(e) => r matches Err(k) && k == e,
        },
{
    match write_sql_name(sql, composite) {
        Ok(Some(name)) => Ok(name),
        Ok(None) => Err(ErrorKind::MissingCompositeName),
        Err(e) => Err(e),
    }
}

/// Whether one of `attrs` asks for strict null handling.
pub fn contains_strict(attrs: &Vec<ExternArgs>) -> (b: bool)
    ensures
        b == has_strict(attrs@),
{
    let mut i: usize = 0;
    while i < attrs.len()
        invariant
            i <= attrs.len(),
            forall|k: int| 0 <= k < i ==> !(attrs[k] is Strict),
        decreases attrs.len() - i,
    {
        if attrs[i].is_strict() {
            return true;
        }
        i = i + 1;
    }
    false
}

/// Whether `STRICT` is to be added to `attrs` for a function that takes `args`.
pub fn needs_strict(attrs: &Vec<ExternArgs>, args: &Vec<PgExternArgumentEntity>, internal_type: u64) -> (b: bool)
    ensures
        b == strict_upgrade(attrs@, args@, internal_type),
{
    if contains_strict(attrs) {
        return false;
    }
    let mut i: usize = 0;
    while i < args.len()
        invariant
            i <= args.len(),
            forall|k: int| 0 <= k < i ==> !forbids_strict(#[trigger] args[k], internal_type),
        decreases args.len() - i,
    {
        if args[i].optional || args[i].type_id == internal_type {
            assert(forbids_strict(args[i as int], internal_type));
            return false;
        }
        i = i + 1;
    }
    true
}

/// Writes the line of attributes for `attrs`, with `STRICT` added where
/// `upgrade` says so.
pub fn write_attrs_line(attrs: &Vec<ExternArgs>, upgrade: bool) -> (out: String)
    ensures
        out@ == attrs_line(if upgrade {
            attrs@.push(ExternArgs::Strict)
        } else {
            attrs@
        }),
{
    let ghost all = if upgrade {
        attrs@.push(ExternArgs::Strict)
    } else {
        attrs@
    };
    let mut words: Vec<String> = Vec::new();
    let mut i: usize = 0;
    while i < attrs.len()
        invariant
            i <= attrs.len(),
            words.len() == i,
            forall|k: int| 0 <= k < i ==> words[k]@ == attrs[k].spec_keyword(),
        decreases attrs.len() - i,
    {
        words.push(String::from_str(attrs[i].keyword()));
        i = i + 1;
    }
    if upgrade {
        words.push(String::from_str("STRICT"));
    }
    assert(views(words@) =~= attr_keywords(all));
    if words.len() == 0 {
        String::new()
    } else {
        let mut out = join_strings(&words, " ");
        out.append("\n");
        out
    }
}

/// Writes the comment block that lists what the function requires.
pub fn write_requires_block(attrs: &Vec<ExternArgs>) -> (out: String)
    ensures
        out@ == requires_block(attrs@),
{
    let mut lines: Vec<String> = Vec::new();
    let mut i: usize = 0;
    while i < attrs.len()
        invariant
            i <= attrs.len(),
            views(lines@) == requirement_lines(requirements(attrs@.take(i as int))),
        decreases attrs.len() - i,
    {
        proof {
            assert(attrs@.take(i + 1).drop_last() == attrs@.take(i as int));
        }
        match &attrs[i] {
            ExternArgs::Requires(items) => {
                let ghost before = requirements(attrs@.take(i as int));
                let mut j: usize = 0;
                while j < items.len()
                    invariant
                        j <= items.len(),
                        views(lines@) == requirement_lines(before + views(items@).take(j as int)),
                    decreases items.len() - j,
                {
                    let mut line = String::from_str("--   ");
                    line.append(items[j].as_str());
                    let ghost old_lines = lines@;
                    lines.push(line);
                    proof {
                        let old_items = before + views(items@).take(j as int);
                        let new_items = before + views(items@).take(j + 1);
                        assert(new_items =~= old_items.push(items[j as int]@));
                        assert(views(old_lines).len() == old_items.len());
                        assert forall|k: int| 0 <= k < new_items.len() implies views(lines@)[k]
                            == requirement_lines(new_items)[k] by {
                            if k < old_items.len() {
                                assert(views(old_lines)[k] == requirement_lines(old_items)[k]);
                            }
                        }
                        assert(views(lines@) =~= requirement_lines(new_items));
                    }
                    j = j + 1;
                }
                proof {
                    assert(views(items@).take(items.len() as int) == views(items@));
                }
            },
            _ => {
                proof {
                    let before = requirements(attrs@.take(i as int));
                    assert(before + Seq::<Seq<char>>::empty() =~= before);
                }
            },
        }
        i = i + 1;
    }
    proof {
        assert(attrs@.take(attrs.len() as int) == attrs@);
    }
    if lines.len() == 0 {
        String::new()
    } else {
        let mut out = String::from_str("-- requires:\n");
        let body = join_strings(&lines, "\n");
        out.append(body.as_str());
        out.append("\n");
        out
    }
}

/// Writes the clause that sets the search path.
pub fn write_search_path(search_path: &Option<Vec<String>>) -> (out: String)
    ensures
        out@ == search_path_line(*search_path),
{
    match search_path {
        Some(names) => {
            let mut out = String::from_str("SET search_path TO ");
            let list = join_strings(names, ", ");
            out.append(list.as_str());
            out.append("\n");
            out
        },
        None => String::new(),
    }
}

/// Writes the two comment lines that say where `f` was declared.
pub fn write_header(f: &PgExternEntity) -> (out: String)
    ensures
        out@ == header(*f),
{
    let mut out = String::from_str("\n-- ");
    out.append(f.file.as_str());
    out.append(":");
    push_decimal(&mut out, f.line);
    out.append("\n-- ");
    out.append(f.module.as_str());
    out.append("::");
    out.append(f.name.as_str());
    out.append("\n");
    out
}

/// Writes what one argument contributes.
pub fn write_argument(ctx: &PgxSql, among: &Vec<usize>, arg: &PgExternArgumentEntity) -> (r: Result<
    Option<(String, String)>,
    ErrorKind,
>)
    ensures
        match argument_piece(*ctx, among@, *arg) {
            Ok(Some(piece)) => r matches Ok(Some(p)) && p.0@ == piece.0 && p.1@ == piece.1,
            Ok(None) => r matches Ok(None),
            Err(e) => r matches Err(k) && k == e,
        },
{
    let node = match ctx.resolve(among, arg.type_id, &arg.full_path) {
        Ok(n) => n,
        Err(e) => {
            return Err(e);
        },
    };
    let sql = match write_sql_name(&arg.argument_sql, &arg.composite_type) {
        Ok(Some(sql)) => sql,
        Ok(None) => {
            return Ok(None);
        },
        Err(e) => {
            return Err(e);
        },
    };
    let prefix = ctx.schema_prefix_for(node);
    let mut out = String::from_str("\t\"");
    out.append(arg.pattern.as_str());
    out.append("\" ");
    if arg.variadic {
        out.append("VARIADIC ");
    }
    out.append(prefix.as_str());
    out.append(sql.as_str());
    match &arg.default {
        Some(d) => {
            let mut clause = String::from_str(" DEFAULT ");
            clause.append(d.as_str());
            out.append(clause.as_str());
        },
        None => {},
    }
    assert(out@ =~= argument_head(*arg, prefix@, sql@));
    Ok(Some((out, arg.full_path.clone())))
}

/// Writes what stands between the brackets of `CREATE FUNCTION`.
pub fn write_arguments(ctx: &PgxSql, among: &Vec<usize>, args: &Vec<PgExternArgumentEntity>) -> (r: Result<
    String,
    ErrorKind,
>)
    ensures
        match arguments_text(*ctx, among@, args@) {
            Ok(text) => r matches Ok(s) && s@ == text,
            Err(e) => r matches Err(k) && k == e,
        },
{
    let ghost attempts = Seq::new(args@.len(), |i: int| argument_piece(*ctx, among@, args@[i]));
    let mut pieces: Vec<(String, String)> = Vec::new();
    let mut i: usize = 0;
    while i < args.len()
        invariant
            i <= args.len(),
            attempts == Seq::new(args@.len(), |i: int| argument_piece(*ctx, among@, args@[i])),
            collect(attempts.take(i as int)) matches Ok(ps) && ps == pair_views(pieces@),
        decreases args.len() - i,
    {
        proof {
            assert(attempts.take(i + 1).drop_last() == attempts.take(i as int));
            assert(attempts.take(i + 1).last() == argument_piece(*ctx, among@, args@[i as int]));
        }
        let ghost old_pieces = pieces@;
        match write_argument(ctx, among, &args[i]) {
            Ok(Some(piece)) => {
                pieces.push(piece);
                proof {
                    assert(pair_views(pieces@) =~= pair_views(old_pieces).push(
                        argument_piece(*ctx, among@, args@[i as int])->Ok_0->Some_0,
                    ));
                }
            },
            Ok(None) => {},
            Err(e) => {
                proof {
                    lemma_collect_fails(attempts, i + 1);
                }
                return Err(e);
            },
        }
        i = i + 1;
    }
    proof {
        assert(attempts.take(args.len() as int) == attempts);
    }
    if args.len() == 0 {
        return Ok(String::new());
    }
    let ghost ps = pair_views(pieces@);
    let mut lines: Vec<String> = Vec::new();
    let mut j: usize = 0;
    while j < pieces.len()
        invariant
            j <= pieces.len(),
            ps == pair_views(pieces@),
            lines.len() == j,
            forall|k: int| 0 <= k < j ==> lines[k]@ == argument_line(ps[k], k + 1 == ps.len()),
        decreases pieces.len() - j,
    {
        let mut line = pieces[j].0.clone();
        if j + 1 == pieces.len() {
            line.append(" ");
        } else {
            line.append(", ");
        }
        line.append("/* ");
        line.append(pieces[j].1.as_str());
        line.append(" */");
        assert(line@ == argument_line(ps[j as int], j + 1 == ps.len()));
        lines.push(line);
        j = j + 1;
    }
    assert(views(lines@) =~= argument_lines(ps));
    let mut out = String::from_str("\n");
    let body = join_strings(&lines, "\n");
    out.append(body.as_str());
    out.append("\n");
    Ok(out)
}

/// Whether the realized return variant is of the declared shape.
pub fn check_shapes(declared: &PgExternReturnEntity, realized: &Option<ReturnVariant>) -> (b: bool)
    ensures
        b == shapes_agree(*declared, *realized),
{
    match declared {
        PgExternReturnEntity::Void => match realized {
            None => true,
            _ => false,
        },
        PgExternReturnEntity::Type { .. } => match realized {
            Some(ReturnVariant::Plain(_)) => true,
            _ => false,
        },
        PgExternReturnEntity::SetOf { .. } => match realized {
            Some(ReturnVariant::SetOf(_)) => true,
            _ => false,
        },
        PgExternReturnEntity::Iterated(items) => match realized {
            Some(ReturnVariant::Table(sqls)) => sqls.len() == items.len(),
            _ => false,
        },
        PgExternReturnEntity::Trigger => true,
    }
}

/// Writes a returned type.
pub fn write_returned_type(ctx: &PgxSql, among: &Vec<usize>, ty: &TypeEntity, sql: &SqlVariant) -> (r: Result<
    String,
    ErrorKind,
>)
    ensures
        match returned_type(*ctx, among@, *ty, *sql) {
            Ok(text) => r matches Ok(s) && s@ == text,
            Err(e) => r matches Err(k) && k == e,
        },
{
    let node = match ctx.resolve(among, ty.ty_id, &ty.full_path) {
        Ok(n) => n,
        Err(e) => {
            return Err(e);
        },
    };
    let name = match write_required_sql_name(sql, &ty.composite_type) {
        Ok(name) => name,
        Err(e) => {
            return Err(e);
        },
    };
    let mut out = ctx.schema_prefix_for(node);
    out.append(name.as_str());
    Ok(out)
}

/// Writes one column of `RETURNS TABLE`.
pub fn write_table_column(
    ctx: &PgxSql,
    among: &Vec<usize>,
    item: &PgExternReturnEntityIteratedItem,
    sql: &SqlVariant,
) -> (r: Result<String, ErrorKind>)
    ensures
        match table_column(*ctx, among@, *item, *sql) {
            Ok(Some(text)) => r matches Ok(s) && s@ == text,
            Ok(None) => false,
            Err(e) => r matches Err(k) && k == e,
        },
{
    let ty = match write_returned_type(ctx, among, &item.ty, sql) {
        Ok(ty) => ty,
        Err(e) => {
            return Err(e);
        },
    };
    match &item.name {
        Some(name) => {
            let mut out = String::from_str("\"");
            out.append(name.as_str());
            out.append("\" ");
            out.append(ty.as_str());
            Ok(out)
        },
        None => Ok(ty),
    }
}

/// Writes the columns of `RETURNS TABLE`.
fn write_table_columns(
    ctx: &PgxSql,
    among: &Vec<usize>,
    items: &Vec<PgExternReturnEntityIteratedItem>,
    sqls: &Vec<SqlVariant>,
) -> (r: Result<Vec<String>, ErrorKind>)
    requires
        sqls.len() == items.len(),
    ensures
        match table_columns(*ctx, among@, items@, sqls@) {
            Ok(columns) => r matches Ok(v) && views(v@) == columns,
            Err(e) => r matches Err(k) && k == e,
        },
{
    let ghost attempts = Seq::new(items@.len(), |i: int| table_column(*ctx, among@, items@[i], sqls@[i]));
    let mut columns: Vec<String> = Vec::new();
    let mut i: usize = 0;
    while i < items.len()
        invariant
            i <= items.len(),
            sqls.len() == items.len(),
            attempts == Seq::new(items@.len(), |i: int| table_column(*ctx, among@, items@[i], sqls@[i])),
            collect(attempts.take(i as int)) matches Ok(cs) && cs == views(columns@),
        decreases items.len() - i,
    {
        proof {
            assert(attempts.take(i + 1).drop_last() == attempts.take(i as int));
            assert(attempts.take(i + 1).last() == table_column(*ctx, among@, items@[i as int], sqls@[i as int]));
        }
        let ghost old_columns = columns@;
        match write_table_column(ctx, among, &items[i], &sqls[i]) {
            Ok(column) => {
                columns.push(column);
                proof {
                    assert(views(columns@) =~= views(old_columns).push(column@));
                }
            },
            Err(e) => {
                proof {
                    lemma_collect_fails(attempts, i + 1);
                }
                return Err(e);
            },
        }
        i = i + 1;
    }
    proof {
        assert(attempts.take(items.len() as int) == attempts);
    }
    Ok(columns)
}

/// Writes the `RETURNS` clause.
pub fn write_returns(
    ctx: &PgxSql,
    among: &Vec<usize>,
    declared: &PgExternReturnEntity,
    realized: &Option<ReturnVariant>,
) -> (r: Result<String, ErrorKind>)
    ensures
        match returns_clause(*ctx, among@, *declared, *realized) {
            Ok(text) => r matches Ok(s) && s@ == text,
            Err(e) => r matches Err(k) && k == e,
        },
{
    match declared {
        PgExternReturnEntity::Void => match realized {
            None => Ok(String::from_str("RETURNS void")),
            _ => Err(ErrorKind::ReturnShapeMismatch),
        },
        PgExternReturnEntity::Type { ty } => match realized {
            Some(ReturnVariant::Plain(sql)) => match write_returned_type(ctx, among, ty, sql) {
                Ok(text) => {
                    let mut out = String::from_str("RETURNS ");
                    out.append(text.as_str());
                    Ok(out)
                },
                Err(e) => Err(e),
            },
            _ => Err(ErrorKind::ReturnShapeMismatch),
        },
        PgExternReturnEntity::SetOf { ty } => match realized {
            Some(ReturnVariant::SetOf(sql)) => match write_returned_type(ctx, among, ty, sql) {
                Ok(text) => {
                    let mut out = String::from_str("RETURNS SETOF ");
                    out.append(text.as_str());
                    Ok(out)
                },
                Err(e) => Err(e),
            },
            _ => Err(ErrorKind::ReturnShapeMismatch),
        },
        PgExternReturnEntity::Iterated(items) => match realized {
            Some(ReturnVariant::Table(sqls)) => {
                if sqls.len() != items.len() {
                    return Err(ErrorKind::ReturnShapeMismatch);
                }
                let columns = match write_table_columns(ctx, among, items, sqls) {
                    Ok(columns) => columns,
                    Err(e) => {
                        return Err(e);
                    },
                };
                let mut out = String::from_str("RETURNS TABLE(");
                let body = join_strings(&columns, ", ");
                out.append(body.as_str());
                out.append(")");
                Ok(out)
            },
            _ => Err(ErrorKind::ReturnShapeMismatch),
        },
        PgExternReturnEntity::Trigger => Ok(String::from_str("RETURNS trigger")),
    }
}

/// Writes the `CREATE FUNCTION` statement of `f`, whose neighbours in the graph are `among`.
pub fn write_function(f: &PgExternEntity, ctx: &PgxSql, among: &Vec<usize>) -> (r: Result<String, ErrorKind>)
    ensures
        match function_sql(*f, *ctx, among@) {
            Ok(text) => r matches Ok(s) && s@ == text,
            Err(e) => r matches Err(k) && k == e,
        },
{
    let arguments = match write_arguments(ctx, among, &f.fn_args) {
        Ok(text) => text,
        Err(e) => {
            return Err(e);
        },
    };
    let clause = match write_returns(ctx, among, &f.fn_return, &f.metadata.retval) {
        Ok(text) => text,
        Err(e) => {
            return Err(e);
        },
    };
    let upgrade = needs_strict(&f.extern_attrs, &f.fn_args, ctx.internal_type);
    let attrs = write_attrs_line(&f.extern_attrs, upgrade);
    let search_path = write_search_path(&f.search_path);
    let prefix = schema_prefix_of(&f.schema, &ctx.default_schema);
    let module_pathname = ctx.get_module_pathname();
    let mut out = String::from_str("CREATE FUNCTION ");
    out.append(prefix.as_str());
    out.append("\"");
    out.append(f.name.as_str());
    out.append("\"(");
    out.append(arguments.as_str());
    out.append(") ");
    out.append(clause.as_str());
    out.append("\n");
    out.append(attrs.as_str());
    out.append(search_path.as_str());
    out.append("LANGUAGE c /* Rust */\nAS '");
    out.append(module_pathname.as_str());
    out.append("', '");
    out.append(f.name.as_str());
    out.append("_wrapper';");
    Ok(out)
}

/// Writes the optional clauses of `CREATE OPERATOR`.
pub fn write_operator_options(op: &PgOperatorEntity) -> (out: Vec<String>)
    ensures
        views(out@) == operator_options(*op),
{
    let mut out: Vec<String> = Vec::new();
    match &op.commutator {
        Some(name) => {
            let mut clause = String::from_str("\tCOMMUTATOR = ");
            clause.append(name.as_str());
            out.push(clause);
        },
        None => {},
    }
    match &op.negator {
        Some(name) => {
            let mut clause = String::from_str("\tNEGATOR = ");
            clause.append(name.as_str());
            out.push(clause);
        },
        None => {},
    }
    match &op.restrict {
        Some(name) => {
            let mut clause = String::from_str("\tRESTRICT = ");
            clause.append(name.as_str());
            out.push(clause);
        },
        None => {},
    }
    match &op.join {
        Some(name) => {
            let mut clause = String::from_str("\tJOIN = ");
            clause.append(name.as_str());
            out.push(clause);
        },
        None => {},
    }
    if op.hashes {
        out.push(String::from_str("\tHASHES"));
    }
    if op.merges {
        out.push(String::from_str("\tMERGES"));
    }
    assert(views(out@) =~= operator_options(*op));
    out
}

/// Writes the type of an operand.
pub fn write_operand(ctx: &PgxSql, among: &Vec<usize>, arg: &PgExternArgumentEntity) -> (r: Result<
    String,
    ErrorKind,
>)
    ensures
        match operand_type(*ctx, among@, *arg) {
            Ok(text) => r matches Ok(s) && s@ == text,
            Err(e) => r matches Err(k) && k == e,
        },
{
    let node = match ctx.resolve(among, arg.type_id, &arg.full_path) {
        Ok(n) => n,
        Err(e) => {
            return Err(e);
        },
    };
    let name = match write_required_sql_name(&arg.argument_sql, &arg.composite_type) {
        Ok(name) => name,
        Err(e) => {
            return Err(e);
        },
    };
    let mut out = ctx.schema_prefix_for(node);
    out.append(name.as_str());
    Ok(out)
}

/// Writes the `CREATE OPERATOR` statement of `f` as the procedure of `op`.
pub fn write_operator(f: &PgExternEntity, op: &PgOperatorEntity, ctx: &PgxSql, among: &Vec<usize>) -> (r: Result<
    String,
    ErrorKind,
>)
    ensures
        match operator_sql(*f, *op, *ctx, among@) {
            Ok(text) => r matches Ok(s) && s@ == text,
            Err(e) => r matches Err(k) && k == e,
        },
{
    if f.fn_args.len() != 2 {
        return Err(ErrorKind::InvalidOperatorArity);
    }
    let left = match write_operand(ctx, among, &f.fn_args[0]) {
        Ok(text) => text,
        Err(e) => {
            return Err(e);
        },
    };
    let right = match write_operand(ctx, among, &f.fn_args[1]) {
        Ok(text) => text,
        Err(e) => {
            return Err(e);
        },
    };
    let options = write_operator_options(op);
    let head = write_header(f);
    let mut out = String::from_str("\n");
    out.append(head.as_str());
    out.append("CREATE OPERATOR ");
    out.append(op.opname.as_str());
    out.append(" (\n\tPROCEDURE=\"");
    out.append(f.name.as_str());
    out.append("\",\n\tLEFTARG=");
    out.append(left.as_str());
    out.append(", /* ");
    out.append(f.fn_args[0].full_path.as_str());
    out.append(" */\n\tRIGHTARG=");
    out.append(right.as_str());
    if options.len() >= 1 {
        out.append(",");
    }
    out.append(" /* ");
    out.append(f.fn_args[1].full_path.as_str());
    out.append(" */\n");
    if options.len() >= 1 {
        let mut list = join_strings(&options, ",\n");
        list.append("\n");
        out.append(list.as_str());
    }
    out.append(");");
    Ok(out)
}

impl PgExternEntity {
    /// The failure `kind` of rendering this entity.
    pub fn error(&self, kind: ErrorKind) -> (e: SqlError)
        ensures
            e.kind == kind,
            e.identifier@ == self.full_path@,
            e.file@ == self.file@,
            e.line == self.line,
    {
        SqlError { kind, identifier: self.full_path.clone(), file: self.file.clone(), line: self.line }
    }

    /// Renders the entity as SQL with the graph `context`.
    ///
    /// The result is the text that `spec_to_sql` states, or its failure, with
    /// the entity's path and place of declaration.
    pub fn to_sql(&self, context: &PgxSql) -> (r: Result<String, SqlError>)
        ensures
            match spec_to_sql(*self, *context) {
                Ok(text) => r matches Ok(s) && s@ == text,
                Err(kind) => r matches Err(e) && e.kind == kind && e.identifier@ == self.full_path@ && e.file@
                    == self.file@ && e.line == self.line,
            },
    {
        if !check_shapes(&self.fn_return, &self.metadata.retval) {
            return Err(self.error(ErrorKind::ReturnShapeMismatch));
        }
        if self.operator.is_some() && self.fn_args.len() != 2 {
            return Err(self.error(ErrorKind::InvalidOperatorArity));
        }
        let among = context.neighbors_of_entity(self);
        let statement = match write_function(self, context, &among) {
            Ok(text) => text,
            Err(kind) => {
                return Err(self.error(kind));
            },
        };
        let mut out = write_header(self);
        let block = write_requires_block(&self.extern_attrs);
        out.append(block.as_str());
        out.append(statement.as_str());
        match &self.operator {
            None => Ok(out),
            Some(op) => match write_operator(self, op, context, &among) {
                Ok(operator) => {
                    out.append(operator.as_str());
                    Ok(out)
                },
                Err(kind) => Err(self.error(kind)),
            },
        }
    }
}

/// Some attribute asks for strict null handling exactly if at least one is counted.
pub proof fn lemma_count_strict(attrs: Seq<ExternArgs>)
    ensures
        has_strict(attrs) <==> count_strict(attrs) > 0,
    decreases attrs.len(),
{
    if attrs.len() > 0 {
        lemma_count_strict(attrs.drop_last());
        if attrs.last() is Strict {
            assert(attrs[attrs.len() - 1] is Strict);
        } else if has_strict(attrs) {
            let i = choose|i: int| 0 <= i < attrs.len() && attrs[i] is Strict;
            assert(attrs.drop_last()[i] is Strict);
        } else if has_strict(attrs.drop_last()) {
            let i = choose|i: int| 0 <= i < attrs.drop_last().len() && attrs.drop_last()[i] is Strict;
            assert(attrs[i] is Strict);
        }
    }
}

/// A function none of whose arguments may be null or is of the internal
/// type, and whose attributes do not ask for strict null handling, is
/// rendered with `STRICT` added behind its attributes, once.
pub proof fn lemma_strict_is_added_once(
    attrs: Seq<ExternArgs>,
    args: Seq<PgExternArgumentEntity>,
    internal_type: u64,
)
    requires
        !has_strict(attrs),
        forall|i: int| 0 <= i < args.len() ==> !(#[trigger] args[i]).optional && args[i].type_id != internal_type,
    ensures
        effective_attrs(attrs, args, internal_type) == attrs.push(ExternArgs::Strict),
        count_strict(effective_attrs(attrs, args, internal_type)) == 1,
{
    lemma_count_strict(attrs);
    assert(attrs.push(ExternArgs::Strict).drop_last() == attrs);
}

/// Adding `STRICT` is idempotent, and never takes an attribute away: the
/// attributes that a function is rendered with are not added to when the
/// function is rendered with them; where the declared attributes ask for
/// strict null handling they are left as they are.
pub proof fn lemma_strict_is_idempotent(
    attrs: Seq<ExternArgs>,
    args: Seq<PgExternArgumentEntity>,
    internal_type: u64,
)
    ensures
        effective_attrs(effective_attrs(attrs, args, internal_type), args, internal_type) == effective_attrs(
            attrs,
            args,
            internal_type,
        ),
        has_strict(attrs) ==> effective_attrs(attrs, args, internal_type) == attrs,
        attrs.is_prefix_of(effective_attrs(attrs, args, internal_type)),
        count_strict(effective_attrs(attrs, args, internal_type)) == if strict_upgrade(
            attrs,
            args,
            internal_type,
        ) {
            1
        } else {
            count_strict(attrs)
        },
{
    lemma_count_strict(attrs);
    if strict_upgrade(attrs, args, internal_type) {
        let added = attrs.push(ExternArgs::Strict);
        assert(added[attrs.len() as int] is Strict);
        assert(added.drop_last() == attrs);
    }
}

/// A function with an argument that may be null, and without `STRICT` among
/// its declared attributes, is rendered with its declared attributes only.
pub proof fn lemma_optional_argument_is_not_strict(
    attrs: Seq<ExternArgs>,
    args: Seq<PgExternArgumentEntity>,
    internal_type: u64,
    i: int,
)
    requires
        0 <= i < args.len(),
        args[i].optional,
    ensures
        effective_attrs(attrs, args, internal_type) == attrs,
{
    assert(forbids_strict(args[i], internal_type));
}

/// A realized return variant that is not of the declared shape fails the
/// render with `ReturnShapeMismatch`, whatever else holds of the entity; so
/// for a set realized where a single value was declared, and the other way round.
pub proof fn lemma_shape_mismatch_fails(f: PgExternEntity, ctx: PgxSql)
    requires
        !shapes_agree(f.fn_return, f.metadata.retval),
    ensures
        spec_to_sql(f, ctx) == Err::<Seq<char>, ErrorKind>(ErrorKind::ReturnShapeMismatch),
{
}

/// A declared single value agrees with a plain realized value only, and a
/// declared set with a realized set only.
pub proof fn lemma_type_and_set_of_disagree(declared: PgExternReturnEntity, realized: Option<ReturnVariant>)
    ensures
        (declared is Type && realized matches Some(ReturnVariant::SetOf(_))) ==> !shapes_agree(declared, realized),
        (declared is SetOf && realized matches Some(ReturnVariant::Plain(_))) ==> !shapes_agree(declared, realized),
        (declared is Type && shapes_agree(declared, realized)) ==> (realized matches Some(ReturnVariant::Plain(_))),
        (declared is SetOf && shapes_agree(declared, realized)) ==> (realized matches Some(ReturnVariant::SetOf(_))),
{
}

/// An operator that does not take exactly two arguments fails the render
/// with `InvalidOperatorArity`, where the return shapes agree.
pub proof fn lemma_operator_arity(f: PgExternEntity, ctx: PgxSql)
    requires
        shapes_agree(f.fn_return, f.metadata.retval),
        f.operator is Some,
        f.fn_args.len() != 2,
    ensures
        spec_to_sql(f, ctx) == Err::<Seq<char>, ErrorKind>(ErrorKind::InvalidOperatorArity),
{
}

/// Whether a returned value may be null does not change how its type is written.
pub proof fn lemma_nullability_keeps_return_type(
    ctx: PgxSql,
    among: Seq<usize>,
    ty: TypeEntity,
    optional: bool,
    realized: Option<ReturnVariant>,
)
    ensures
        returns_clause(ctx, among, PgExternReturnEntity::Type { ty: TypeEntity { optional, ..ty } }, realized)
            == returns_clause(ctx, among, PgExternReturnEntity::Type { ty }, realized),
        returns_clause(ctx, among, PgExternReturnEntity::SetOf { ty: TypeEntity { optional, ..ty } }, realized)
            == returns_clause(ctx, among, PgExternReturnEntity::SetOf { ty }, realized),
{
}

/// A single returned value whose type has the fixed SQL name `name` and
/// resolves to a built-in type is written as `RETURNS` and that name.
pub proof fn lemma_mapped_builtin_return(ctx: PgxSql, among: Seq<usize>, ty: TypeEntity, name: String)
    requires
        resolve_among(ctx.nodes@, among, ty.ty_id, ty.full_path@) matches Some(n) && n < ctx.nodes.len()
            && ctx.nodes[n as int] is BuiltinType,
    ensures
        returns_clause(
            ctx,
            among,
            PgExternReturnEntity::Type { ty },
            Some(ReturnVariant::Plain(SqlVariant::Mapped(name))),
        ) == Ok::<Seq<char>, ErrorKind>("RETURNS "@ + name@),
{
    let n = resolve_among(ctx.nodes@, among, ty.ty_id, ty.full_path@)->Some_0;
    assert(ctx.spec_schema_prefix_for(n) + name@ =~= name@);
}

/// `RETURNS TABLE` has one column for each declared column, in their order,
/// each written as `table_column` states: a column with a name as the quoted
/// name and the type, one without as the type alone.
pub proof fn lemma_table_columns_follow_declaration(
    ctx: PgxSql,
    among: Seq<usize>,
    items: Seq<PgExternReturnEntityIteratedItem>,
    sqls: Seq<SqlVariant>,
)
    requires
        sqls.len() == items.len(),
        table_columns(ctx, among, items, sqls) is Ok,
    ensures
        table_columns(ctx, among, items, sqls)->Ok_0.len() == items.len(),
        forall|i: int|
            0 <= i < items.len() ==> table_column(ctx, among, items[i], sqls[i]) == Ok::<
                Option<Seq<char>>,
                ErrorKind,
            >(Some(#[trigger] table_columns(ctx, among, items, sqls)->Ok_0[i])),
{
    let attempts = Seq::new(items.len(), |i: int| table_column(ctx, among, items[i], sqls[i]));
    if exists|i: int| 0 <= i < attempts.len() && !(#[trigger] attempts[i] matches Ok(Some(_))) {
        let i = choose|i: int| 0 <= i < attempts.len() && !(#[trigger] attempts[i] matches Ok(Some(_)));
        assert(attempts[i] == table_column(ctx, among, items[i], sqls[i]));
        assert(attempts[i] is Err);
        assert(attempts.take(i + 1).drop_last() == attempts.take(i));
        assert(attempts.take(i + 1).last() == attempts[i]);
        assert(collect(attempts.take(i + 1)) is Err);
        lemma_collect_fails(attempts, i + 1);
    } else {
        lemma_collect_all(attempts);
        assert forall|i: int| 0 <= i < items.len() implies table_column(ctx, among, items[i], sqls[i]) == Ok::<
            Option<Seq<char>>,
            ErrorKind,
        >(Some(#[trigger] table_columns(ctx, among, items, sqls)->Ok_0[i])) by {
            assert(attempts[i] == table_column(ctx, among, items[i], sqls[i]));
        }
    }
}

} // verus!
