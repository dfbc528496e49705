//! What the parser of Rust syntax says of a piece of source text.
//!
//! The functions of this module are not verified: each hands a text to
//! `syn` and brings back what it found, as text. The spec functions without
//! a body beside them name those answers, so that the contracts of the
//! callers can say which answer led to which result.

use vstd::prelude::*;
use crate::text::{opt_view, views};

verus! {

/// The identifier that `text` is, if it is one identifier that is not a keyword.
pub uninterp spec fn ident_of(text: Seq<char>) -> Option<Seq<char>>;

/// The identifier or keyword that `text` is, if it is one such token.
pub uninterp spec fn any_ident_of(text: Seq<char>) -> Option<Seq<char>>;

/// The tokens of the type that `text` is, if it is one type.
pub uninterp spec fn type_tokens_of(text: Seq<char>) -> Option<Seq<char>>;

/// The path of the macro and the tokens between its brackets, if `text` is
/// one type that is a macro invocation.
pub uninterp spec fn macro_type_of(text: Seq<char>) -> Option<(Seq<Seq<char>>, Seq<char>)>;

/// The tokens of the expression that `text` is, if it is one expression.
pub uninterp spec fn expr_tokens_of(text: Seq<char>) -> Option<Seq<char>>;

/// Whether `text` is one free-standing function.
pub uninterp spec fn is_item_fn(text: Seq<char>) -> bool;

#[verifier::external_type_specification]
#[verifier::external_body]
pub struct ExItemFn(syn::ItemFn);

#[verifier::external_type_specification]
#[verifier::external_body]
pub struct ExSynError(syn::Error);

/// Calls `syn::parse_str::<syn::Ident>`, which accepts a text that holds one
/// identifier and nothing else, and refuses keywords. The result is the
/// identifier as `Ident::to_string` gives it; the contract only names it.
#[verifier::external_body]
pub(crate) fn parse_ident(text: &str) -> (r: Option<String>)
    ensures
        opt_view(r) == ident_of(text@),
{
    syn::parse_str::<syn::Ident>(text).ok().map(|ident| ident.to_string())
}

/// Calls `syn::ext::IdentExt::parse_any` through `syn::parse::Parser::parse_str`,
/// which accepts a text that holds one identifier or keyword and nothing
/// else. The contract only names the result.
#[verifier::external_body]
pub(crate) fn parse_any_ident(text: &str) -> (r: Option<String>)
    ensures
        opt_view(r) == any_ident_of(text@),
{
    let parsed = syn::parse::Parser::parse_str(<syn::Ident as syn::ext::IdentExt>::parse_any, text);
    parsed.ok().map(|ident| ident.to_string())
}

/// Calls `syn::parse_str::<syn::Type>`, which accepts a text that holds one
/// type and nothing else. The result is the type's tokens as
/// `TokenStream::to_string` writes them; the contract only names it.
#[verifier::external_body]
pub(crate) fn parse_type(text: &str) -> (r: Option<String>)
    ensures
        opt_view(r) == type_tokens_of(text@),
{
    let parsed = syn::parse_str::<syn::Type>(text);
    parsed.ok().map(|ty| quote::ToTokens::to_token_stream(&ty).to_string())
}

/// Calls `syn::parse_str::<syn::Type>` and, where the type is
/// `syn::Type::Macro`, hands back the identifiers of the macro's path and
/// the macro's tokens as text. The contract only names the result.
#[verifier::external_body]
pub(crate) fn parse_macro_type(text: &str) -> (r: Option<(Vec<String>, String)>)
    ensures
        match r {
            Some(found) => macro_type_of(text@) == Some((views(found.0@), found.1@)),
            None => macro_type_of(text@) is None,
        },
{
    match syn::parse_str::<syn::Type>(text) {
        Ok(syn::Type::Macro(m)) => Some(
            (m.mac.path.segments.iter().map(|s| s.ident.to_string()).collect(), m.mac.tokens.to_string()),
        ),
        _ => None,
    }
}

/// Calls `syn::parse_str::<syn::Expr>`, which accepts a text that holds one
/// expression and nothing else. The result is the expression's tokens as
/// `TokenStream::to_string` writes them; the contract only names it.
#[verifier::external_body]
pub(crate) fn parse_expr(text: &str) -> (r: Option<String>)
    ensures
        opt_view(r) == expr_tokens_of(text@),
{
    let parsed = syn::parse_str::<syn::Expr>(text);
    parsed.ok().map(|expr| quote::ToTokens::to_token_stream(&expr).to_string())
}

/// Calls `syn::parse_str::<syn::ItemFn>`, which accepts a text that holds
/// one free-standing function and nothing else. The contract only names
/// whether it did.
#[verifier::external_body]
pub(crate) fn parse_item_fn(text: &str) -> (r: Result<syn::ItemFn, syn::Error>)
    ensures
        r is Ok == is_item_fn(text@),
{
    syn::parse_str::<syn::ItemFn>(text)
}

/// Calls `to_string` on a `syn::Error`, which gives its first message.
/// Nothing is claimed of the text.
#[verifier::external_body]
pub(crate) fn error_message(error: &syn::Error) -> String {
    error.to_string()
}

} // verus!
