//! The body of `name!(column, Type)`, which names a column of a returned table.
//!
//! The body is an identifier, a comma and a type. A few keywords are
//! accepted in the place of the identifier, so that a column can be called
//! `type` or `use`. A type that is itself `composite_type!(..)` carries the
//! expression for the SQL name of a row type.

use vstd::prelude::*;
use vstd::string::*;
use crate::error::ErrorKind;
use crate::syntax::{
    any_ident_of, expr_tokens_of, ident_of, macro_type_of, parse_any_ident, parse_expr, parse_ident,
    parse_macro_type, parse_type, type_tokens_of,
};
use crate::text::{opt_view, str_is, views};
use crate::type_expr::{copy_option, copy_type, TypeExpr, TypeExprView};

verus! {

/// A named column: its name, its type and, for a composite type, the
/// expression that gives the SQL name of the row type.
#[derive(Debug)]
pub struct NameMacro {
    pub ident: String,
    pub ty: TypeExpr,
    pub sql: Option<String>,
}

pub struct NameMacroView {
    pub ident: Seq<char>,
    pub ty: TypeExprView,
    pub sql: Option<Seq<char>>,
}

impl View for NameMacro {
    type V = NameMacroView;

    open spec fn view(&self) -> NameMacroView {
        NameMacroView { ident: self.ident@, ty: self.ty@, sql: opt_view(self.sql) }
    }
}

impl Clone for NameMacro {
    fn clone(&self) -> (r: Self)
        ensures
            r@ == self@,
    {
        NameMacro { ident: self.ident.clone(), ty: copy_type(&self.ty), sql: copy_option(&self.sql) }
    }
}

/// The place of the first comma of `s` at or after `from`.
pub open spec fn first_comma(s: Seq<char>, from: int) -> Option<int>
    decreases s.len() - from,
{
    if from < 0 || from >= s.len() {
        None
    } else if s[from] == ',' {
        Some(from)
    } else {
        first_comma(s, from + 1)
    }
}

/// Whether a keyword can name a column.
pub open spec fn is_column_keyword(word: Seq<char>) -> bool {
    word == "type"@ || word == "mod"@ || word == "extern"@ || word == "async"@ || word == "crate"@ || word
        == "use"@
}

/// The last of the segments of a path.
pub open spec fn last_segment(path: Seq<Seq<char>>) -> Option<Seq<char>> {
    if path.len() == 0 {
        None
    } else {
        Some(path.last())
    }
}

/// The name of a column, from what the text before the comma is as an
/// identifier and as an identifier or keyword: the identifier, or one of
/// the keywords that can name a column.
pub open spec fn column_name(ident: Option<Seq<char>>, any_ident: Option<Seq<char>>) -> Option<Seq<char>> {
    match ident {
        Some(name) => Some(name),
        None => match any_ident {
            Some(word) => if is_column_keyword(word) {
                Some(word)
            } else {
                None
            },
            None => None,
        },
    }
}

/// The type of a column and the expression for its SQL name, from what the
/// text behind the comma is as a type, what it is as a macro invocation
/// and what the tokens of that macro are as an expression. A macro other
/// than `composite_type!` with an expression in it is refused.
pub open spec fn column_type(
    tokens: Option<Seq<char>>,
    macro_type: Option<(Seq<Seq<char>>, Seq<char>)>,
    expr: Option<Seq<char>>,
) -> Result<(TypeExprView, Option<Seq<char>>), ErrorKind> {
    match tokens {
        None => Err(ErrorKind::UnknownReturnShape),
        Some(tokens) => match macro_type {
            None => Ok((TypeExprView::Verbatim { tokens }, None)),
            Some((path, body)) => if last_segment(path) == Some("composite_type"@) && expr is Some {
                Ok((TypeExprView::Macro { path, tokens: body }, expr))
            } else {
                Err(ErrorKind::UnknownReturnShape)
            },
        },
    }
}

/// The tokens of the macro that a type is, or no tokens.
pub open spec fn macro_body(macro_type: Option<(Seq<Seq<char>>, Seq<char>)>) -> Seq<char> {
    match macro_type {
        Some((_, body)) => body,
        None => Seq::empty(),
    }
}

/// What the body of `name!(..)` declares: the text is split at its first
/// comma, what stands before it is the name and what stands behind it the type.
pub open spec fn named_column(body: Seq<char>) -> Result<NameMacroView, ErrorKind> {
    match first_comma(body, 0) {
        None => Err(ErrorKind::UnknownReturnShape),
        Some(at) => {
            let head = body.subrange(0, at);
            let tail = body.subrange(at + 1, body.len() as int);
            match column_name(ident_of(head), any_ident_of(head)) {
                None => Err(ErrorKind::UnknownReturnShape),
                Some(ident) => match column_type(
                    type_tokens_of(tail),
                    macro_type_of(tail),
                    expr_tokens_of(macro_body(macro_type_of(tail))),
                ) {
                    Err(e) => Err(e),
                    Ok((ty, sql)) => Ok(NameMacroView { ident, ty, sql }),
                },
            }
        },
    }
}

/// The place of the first comma of `s`.
pub fn find_comma(s: &str) -> (r: Option<usize>)
    ensures
        match first_comma(s@, 0) {
            Some(at) => r == Some(at as usize) && 0 <= at < s@.len(),
            None => r is None,
        },
{
    let n = s.unicode_len();
    let mut i: usize = 0;
    while i < n
        invariant
            i <= n,
            n == s@.len(),
            first_comma(s@, 0) == first_comma(s@, i as int),
        decreases n - i,
    {
        if s.get_char(i) == ',' {
            return Some(i);
        }
        i = i + 1;
    }
    None
}

/// Whether a keyword can name a column.
pub fn column_keyword(word: &String) -> (b: bool)
    ensures
        b == is_column_keyword(word@),
{
    str_is(word, "type") || str_is(word, "mod") || str_is(word, "extern") || str_is(word, "async") || str_is(
        word,
        "crate",
    ) || str_is(word, "use")
}

/// Whether the last segment of `path` is `name`.
pub fn last_segment_is(path: &Vec<String>, name: &str) -> (b: bool)
    ensures
        b == (last_segment(views(path@)) == Some(name@)),
{
    if path.len() == 0 {
        false
    } else {
        str_is(&path[path.len() - 1], name)
    }
}

impl NameMacro {
    /// Picks the name of a column from what the parser made of the text
    /// before the comma.
    pub fn name_from(ident: Option<String>, any_ident: Option<String>) -> (r: Option<String>)
        ensures
            opt_view(r) == column_name(opt_view(ident), opt_view(any_ident)),
    {
        match ident {
            Some(name) => Some(name),
            None => match any_ident {
                Some(word) => if column_keyword(&word) {
                    Some(word)
                } else {
                    None
                },
                None => None,
            },
        }
    }

    /// Builds the type of a column from what the parser made of the text
    /// behind the comma.
    pub fn type_from(tokens: Option<String>, macro_type: Option<(Vec<String>, String)>, expr: Option<String>) -> (r:
        Result<(TypeExpr, Option<String>), ErrorKind>)
        ensures
            match column_type(
                opt_view(tokens),
                match macro_type {
                    Some(found) => Some((views(found.0@), found.1@)),
                    None => None,
                },
                opt_view(expr),
            ) {
                Ok(found) => r matches Ok(got) && got.0@ == found.0 && opt_view(got.1) == found.1,
                Err(e) => r matches Err(k) && k == e,
            },
    {
        match tokens {
            None => Err(ErrorKind::UnknownReturnShape),
            Some(tokens) => match macro_type {
                None => Ok((TypeExpr::Verbatim { tokens }, None)),
                Some(found) => {
                    if last_segment_is(&found.0, "composite_type") && expr.is_some() {
                        Ok((TypeExpr::Macro { path: found.0, tokens: found.1 }, expr))
                    } else {
                        Err(ErrorKind::UnknownReturnShape)
                    }
                },
            },
        }
    }

    /// Reads the body of `name!(..)`.
    pub fn parse(input: &str) -> (r: Result<NameMacro, ErrorKind>)
        ensures
            match named_column(input@) {
                Ok(found) => r matches Ok(got) && got@ == found,
                Err(e) => r matches Err(k) && k == e,
            },
    {
        let at = match find_comma(input) {
            Some(at) => at,
            None => {
                return Err(ErrorKind::UnknownReturnShape);
            },
        };
        let n = input.unicode_len();
        let head = input.substring_char(0, at);
        let tail = input.substring_char(at + 1, n);
        let ident = match NameMacro::name_from(parse_ident(head), parse_any_ident(head)) {
            Some(ident) => ident,
            None => {
                return Err(ErrorKind::UnknownReturnShape);
            },
        };
        let macro_type = parse_macro_type(tail);
        let expr = match &macro_type {
            Some(found) => parse_expr(found.1.as_str()),
            None => None,
        };
        match NameMacro::type_from(parse_type(tail), macro_type, expr) {
            Ok(found) => Ok(NameMacro { ident, ty: found.0, sql: found.1 }),
            Err(e) => Err(e),
        }
    }
}

} // verus!
