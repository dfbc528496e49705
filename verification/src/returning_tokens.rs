//! The Rust source that builds, when the extension runs, the record of what
//! a function returns.
//!
//! The identity and the full name of a type are known to the compiler
//! only, so the record is written as an expression that asks it for
//! them. The text is what a procedural macro puts in the place of the
//! declaration, once it has turned it into tokens.

use vstd::prelude::*;
use vstd::string::*;
use crate::returning::{Returning, ReturningIteratedItem, ReturningIteratedItemView, ReturningView};
use crate::text::{join, join_strings, opt_view, strip_spaces, views, without_spaces};
use crate::type_expr::{path_to_tokens, path_tokens, type_to_tokens, type_tokens};

verus! {

/// `s` as it stands inside a string literal: a backslash before each quote
/// and backslash, and `\n`, `\r` and `\t` for a line feed, a carriage return and a tab.
pub open spec fn escaped(s: Seq<char>) -> Seq<char>
    decreases s.len(),
{
    if s.len() == 0 {
        Seq::empty()
    } else if s.last() == '"' {
        escaped(s.drop_last()) + "\\\""@
    } else if s.last() == '\\' {
        escaped(s.drop_last()) + "\\\\"@
    } else if s.last() == '\n' {
        escaped(s.drop_last()) + "\\n"@
    } else if s.last() == '\r' {
        escaped(s.drop_last()) + "\\r"@
    } else if s.last() == '\t' {
        escaped(s.drop_last()) + "\\t"@
    } else {
        escaped(s.drop_last()).push(s.last())
    }
}

/// The string literal that holds `s`.
pub open spec fn string_literal(s: Seq<char>) -> Seq<char> {
    "\""@ + escaped(s) + "\""@
}

/// The expression that builds the record of the type with these tokens.
pub open spec fn type_entity(tokens: Seq<char>) -> Seq<char> {
    "::pgx::utils::sql_entity_graph::TypeEntity::Type { ty_id: TypeId::of::< "@ + tokens + " >(), ty_source: "@
        + string_literal(without_spaces(tokens)) + ", full_path: core::any::type_name::< "@ + tokens
        + " >(), module_path: { let type_name = core::any::type_name::< "@ + tokens
        + " >(); let mut path_items: Vec<_> = type_name.split(\"::\").collect(); let _ = path_items.pop(); path_items.join(\"::\") }, }"@
}

/// The expression that builds the record of a composite type whose SQL
/// name the expression `sql` gives.
pub open spec fn composite_entity(sql: Seq<char>) -> Seq<char> {
    "::pgx::utils::sql_entity_graph::TypeEntity::CompositeType { sql: "@ + sql + ", }"@
}

/// The record of a type, or of a composite type where there is an expression for its name.
pub open spec fn entity_of(tokens: Seq<char>, sql: Option<Seq<char>>) -> Seq<char> {
    match sql {
        Some(sql) => composite_entity(sql),
        None => type_entity(tokens),
    }
}

/// The pair that stands for one column: the record of its type and its name.
pub open spec fn column_entity(item: ReturningIteratedItemView) -> Seq<char> {
    "("@ + type_entity(type_tokens(item.ty)) + ", None"@ + (match item.name {
        Some(name) => ".unwrap_or(Some(stringify!("@ + string_literal(name) + ")))"@,
        None => Seq::empty(),
    }) + ")"@
}

/// The expression that builds the record of a return shape.
pub open spec fn returning_tokens(r: ReturningView) -> Seq<char> {
    match r {
        ReturningView::Void => "::pgx::utils::sql_entity_graph::PgExternReturnEntity::None"@,
        ReturningView::Type { ty, sql } => "::pgx::utils::sql_entity_graph::PgExternReturnEntity::Type { ty: "@
            + entity_of(type_tokens(ty), sql) + " }"@,
        ReturningView::SetOf { ty, sql } => "::pgx::utils::sql_entity_graph::PgExternReturnEntity::SetOf { ty: "@
            + entity_of(path_tokens(ty), sql) + " }"@,
        ReturningView::Iterated(items) => "::pgx::utils::sql_entity_graph::PgExternReturnEntity::Iterated(vec!["@
            + join(Seq::new(items.len(), |i: int| column_entity(items[i])), ", "@) + "])"@,
        ReturningView::Trigger => "::pgx::utils::sql_entity_graph::PgExternReturnEntity::Trigger"@,
    }
}

/// Escapes `s` for a string literal.
pub fn escape(s: &str) -> (out: String)
    ensures
        out@ == escaped(s@),
{
    let n = s.unicode_len();
    let mut out = String::new();
    let mut i: usize = 0;
    while i < n
        invariant
            i <= n,
            n == s@.len(),
            out@ == escaped(s@.take(i as int)),
        decreases n - i,
    {
        proof {
            assert(s@.take(i + 1).drop_last() == s@.take(i as int));
            assert(s@.take(i + 1).last() == s@[i as int]);
        }
        let c = s.get_char(i);
        if c == '"' {
            out.append("\\\"");
        } else if c == '\\' {
            out.append("\\\\");
        } else if c == '\n' {
            out.append("\\n");
        } else if c == '\r' {
            out.append("\\r");
        } else if c == '\t' {
            out.append("\\t");
        } else {
            let piece = s.substring_char(i, i + 1);
            proof {
                assert(piece@ =~= seq![s@[i as int]]);
                assert(out@ + piece@ =~= out@.push(s@[i as int]));
            }
            out.append(piece);
        }
        i = i + 1;
    }
    proof {
        assert(s@.take(n as int) == s@);
    }
    out
}

/// Writes the string literal that holds `s`.
pub fn write_string_literal(s: &str) -> (out: String)
    ensures
        out@ == string_literal(s@),
{
    let mut out = String::from_str("\"");
    let inner = escape(s);
    out.append(inner.as_str());
    out.append("\"");
    out
}

/// Writes the expression that builds the record of the type with these tokens.
pub fn write_type_entity(tokens: &str) -> (out: String)
    ensures
        out@ == type_entity(tokens@),
{
    let source = strip_spaces(tokens);
    let literal = write_string_literal(source.as_str());
    let mut out = String::from_str(
        "::pgx::utils::sql_entity_graph::TypeEntity::Type { ty_id: TypeId::of::< ",
    );
    out.append(tokens);
    out.append(" >(), ty_source: ");
    out.append(literal.as_str());
    out.append(", full_path: core::any::type_name::< ");
    out.append(tokens);
    out.append(" >(), module_path: { let type_name = core::any::type_name::< ");
    out.append(tokens);
    out.append(
        " >(); let mut path_items: Vec<_> = type_name.split(\"::\").collect(); let _ = path_items.pop(); path_items.join(\"::\") }, }",
    );
    out
}

/// Writes the record of a type, or of a composite type.
pub fn write_entity(tokens: &str, sql: &Option<String>) -> (out: String)
    ensures
        out@ == entity_of(tokens@, opt_view(*sql)),
{
    match sql {
        Some(sql) => {
            let mut out = String::from_str("::pgx::utils::sql_entity_graph::TypeEntity::CompositeType { sql: ");
            out.append(sql.as_str());
            out.append(", }");
            out
        },
        None => write_type_entity(tokens),
    }
}

/// Writes the pair that stands for one column.
pub fn write_column_entity(item: &ReturningIteratedItem) -> (out: String)
    ensures
        out@ == column_entity(item@),
{
    let tokens = type_to_tokens(&item.ty);
    let entity = write_type_entity(tokens.as_str());
    let mut out = String::from_str("(");
    out.append(entity.as_str());
    out.append(", None");
    match &item.name {
        Some(name) => {
            let mut call = String::from_str(".unwrap_or(Some(stringify!(");
            let literal = write_string_literal(name.as_str());
            call.append(literal.as_str());
            call.append(")))");
            out.append(call.as_str());
        },
        None => {},
    }
    out.append(")");
    assert(out@ =~= column_entity(item@));
    out
}

impl Returning {
    /// Writes the expression that builds the record of this shape.
    pub fn to_tokens(&self) -> (out: String)
        ensures
            out@ == returning_tokens(self@),
    {
        match self {
            Returning::Void => String::from_str("::pgx::utils::sql_entity_graph::PgExternReturnEntity::None"),
            Returning::Type { ty, sql } => {
                let tokens = type_to_tokens(ty);
                let entity = write_entity(tokens.as_str(), sql);
                let mut out = String::from_str(
                    "::pgx::utils::sql_entity_graph::PgExternReturnEntity::Type { ty: ",
                );
                out.append(entity.as_str());
                out.append(" }");
                out
            },
            Returning::SetOf { ty, sql } => {
                let tokens = path_to_tokens(ty);
                let entity = write_entity(tokens.as_str(), sql);
                let mut out = String::from_str(
                    "::pgx::utils::sql_entity_graph::PgExternReturnEntity::SetOf { ty: ",
                );
                out.append(entity.as_str());
                out.append(" }");
                out
            },
            Returning::Iterated(items) => {
                let mut columns: Vec<String> = Vec::new();
                let mut i: usize = 0;
                while i < items.len()
                    invariant
                        i <= items.len(),
                        columns.len() == i,
                        forall|k: int| 0 <= k < i ==> (#[trigger] columns[k])@ == column_entity(items[k]@),
                    decreases items.len() - i,
                {
                    columns.push(write_column_entity(&items[i]));
                    i = i + 1;
                }
                assert(views(columns@) =~= Seq::new(
                    self@->Iterated_0.len(),
                    |i: int| column_entity(self@->Iterated_0[i]),
                ));
                let mut out = String::from_str(
                    "::pgx::utils::sql_entity_graph::PgExternReturnEntity::Iterated(vec![",
                );
                let list = join_strings(&columns, ", ");
                out.append(list.as_str());
                out.append("])");
                out
            },
            Returning::Trigger => String::from_str(
                "::pgx::utils::sql_entity_graph::PgExternReturnEntity::Trigger",
            ),
        }
    }
}

} // verus!
