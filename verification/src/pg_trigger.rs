//! The functions that stand around a declared trigger.
//!
//! A trigger is called by the database through a wrapper with the C
//! calling convention, is announced by a record that a second function
//! hands out, and needs a third function that tells the database which
//! calling convention the wrapper has. This module writes their source.

use vstd::prelude::*;
use vstd::string::*;
use crate::entity::PgTriggerEntity;
use crate::returning_tokens::{string_literal, write_string_literal};
use crate::syntax::{error_message, is_item_fn, parse_item_fn};
use crate::text::{opt_view, replace_all, replaced};

verus! {

/// The text that stands for the name of the wrapper in custom SQL.
pub open spec fn function_name_placeholder() -> Seq<char> {
    "@FUNCTION_NAME@"@
}

/// The longest name in bytes that the database keeps whole is one less than this.
pub const POSTGRES_IDENTIFIER_MAX_LEN: usize = 64;

/// How the SQL of an entity is made: by the generator, by a callback, or
/// given as text.
#[derive(Clone, Debug)]
pub struct ToSqlConfig {
    pub enabled: bool,
    pub callback: Option<String>,
    pub content: Option<String>,
}

/// An argument of the attribute that declares a trigger.
#[derive(Clone, Debug)]
pub enum PgTriggerAttribute {
    Sql(ToSqlConfig),
}

/// A function as it was declared: its name and the tokens of the whole item.
#[derive(Clone, Debug)]
pub struct TriggerFn {
    pub ident: String,
    pub tokens: String,
}

/// A declared trigger.
#[derive(Clone, Debug)]
pub struct PgTrigger {
    pub func: TriggerFn,
    pub to_sql_config: ToSqlConfig,
}

/// Why a trigger was refused.
#[derive(Clone, Copy, Debug, PartialEq, Eq, Structural)]
pub enum TriggerErrorKind {
    /// More than one `sql` argument.
    MultipleSqlArguments,
    /// The name of the function is too long for the database.
    IdentifierTooLong,
    /// The source that was written for the trigger is no function.
    InvalidItem,
}

#[derive(Clone, Debug)]
pub struct TriggerError {
    pub kind: TriggerErrorKind,
    pub message: String,
}

pub struct ToSqlConfigView {
    pub enabled: bool,
    pub callback: Option<Seq<char>>,
    pub content: Option<Seq<char>>,
}

impl View for ToSqlConfig {
    type V = ToSqlConfigView;

    open spec fn view(&self) -> ToSqlConfigView {
        ToSqlConfigView { enabled: self.enabled, callback: opt_view(self.callback), content: opt_view(self.content) }
    }
}

/// The configuration of an entity that says nothing of its SQL.
pub open spec fn default_config() -> ToSqlConfigView {
    ToSqlConfigView { enabled: true, callback: None, content: None }
}

/// Whether a configuration says anything of the SQL.
pub open spec fn overrides(config: ToSqlConfigView) -> bool {
    !config.enabled || config.callback is Some || config.content is Some
}

/// The length of `s` in bytes, as the length of a string is measured.
pub open spec fn byte_len(s: Seq<char>) -> usize {
    vstd::utf8::encode_utf8(s).len() as usize
}

/// The name of the wrapper of the function `ident`.
pub open spec fn wrapper_name(ident: Seq<char>) -> Seq<char> {
    ident + "_wrapper"@
}

/// A given configuration as the trigger keeps it: in the text of its SQL
/// the placeholder is the name of the wrapper, and the text ends with a
/// line break.
pub open spec fn adapted_config(config: ToSqlConfigView, ident: Seq<char>) -> ToSqlConfigView {
    ToSqlConfigView {
        enabled: config.enabled,
        callback: config.callback,
        content: match config.content {
            Some(text) => Some(replaced(text, function_name_placeholder(), wrapper_name(ident)) + "\n"@),
            None => None,
        },
    }
}

/// The configuration that a trigger with these attributes keeps.
pub open spec fn trigger_config(attributes: Seq<PgTriggerAttribute>, ident: Seq<char>) -> ToSqlConfigView {
    if attributes.len() == 0 {
        default_config()
    } else {
        match attributes[0] {
            PgTriggerAttribute::Sql(config) => adapted_config(config@, ident),
        }
    }
}

/// What declaring a trigger gives: more than one `sql` argument is
/// refused, and so is a name of 64 bytes or more unless the SQL is not
/// left to the generator.
pub open spec fn new_trigger(func: TriggerFn, attributes: Seq<PgTriggerAttribute>) -> Result<
    ToSqlConfigView,
    TriggerErrorKind,
> {
    if attributes.len() > 1 {
        Err(TriggerErrorKind::MultipleSqlArguments)
    } else {
        let config = trigger_config(attributes, func.ident@);
        if !overrides(config) && byte_len(func.ident@) >= POSTGRES_IDENTIFIER_MAX_LEN {
            Err(TriggerErrorKind::IdentifierTooLong)
        } else {
            Ok(config)
        }
    }
}

/// The expression that builds the configuration when the extension runs.
pub open spec fn config_tokens(config: ToSqlConfigView) -> Seq<char> {
    "::pgx::utils::sql_entity_graph::ToSqlConfigEntity { enabled: "@ + (if config.enabled {
        "true"@
    } else {
        "false"@
    }) + ", callback: "@ + (match config.callback {
        Some(path) => "Some("@ + path + ")"@,
        None => "None"@,
    }) + ", content: "@ + (match config.content {
        Some(text) => if config.callback is Some {
            "None"@
        } else {
            "Some("@ + string_literal(text) + ")"@
        },
        None => "None"@,
    }) + " }"@
}

/// The source of the function that hands out the record of the trigger.
pub open spec fn entity_source(ident: Seq<char>, config: ToSqlConfigView) -> Seq<char> {
    "#[no_mangle]\n#[doc(hidden)]\npub extern \"C\" fn __pgx_internals_trigger_"@ + ident
        + "() -> ::pgx::utils::sql_entity_graph::SqlGraphEntity {\n    use core::any::TypeId;\n    extern crate alloc;\n    use alloc::vec::Vec;\n    use alloc::vec;\n    let submission = ::pgx::utils::sql_entity_graph::PgTriggerEntity {\n        function_name: "@
        + string_literal(ident)
        + ",\n        file: file!(),\n        line: line!(),\n        full_path: concat!(module_path!(), \"::\", stringify!("@
        + ident + ")),\n        module_path: module_path!(),\n        to_sql_config: "@ + config_tokens(config)
        + ",\n    };\n    ::pgx::utils::sql_entity_graph::SqlGraphEntity::Trigger(submission)\n}\n"@
}

/// The source of the wrapper that the database calls. It takes the
/// database's call record, calls the trigger with what the record holds and
/// turns the row that comes back into a datum; each step that fails
/// ends the call with a panic.
pub open spec fn wrapper_source(ident: Seq<char>) -> Seq<char> {
    "#[no_mangle]\n#[pgx::pg_guard]\nextern \"C\" fn "@ + wrapper_name(ident)
        + "(fcinfo: ::pgx::pg_sys::FunctionCallInfo) -> ::pgx::pg_sys::Datum {\n    let maybe_pg_trigger = unsafe { ::pgx::trigger_support::PgTrigger::from_fcinfo(fcinfo) };\n    let pg_trigger = maybe_pg_trigger.expect(\"PgTrigger::from_fcinfo failed\");\n    let trigger_fn_result: Result<::pgx::PgHeapTuple<'_, _>, _> = "@
        + ident
        + "(&pg_trigger);\n    let trigger_retval = trigger_fn_result.expect(\"Trigger function panic\");\n    let retval_datum = trigger_retval.into_datum();\n    retval_datum.expect(\"Failed to turn trigger function return value into Datum\")\n}\n"@
}

/// The source of the function that tells the database the calling
/// convention of the wrapper.
pub open spec fn finfo_source(ident: Seq<char>) -> Seq<char> {
    "#[no_mangle]\n#[doc(hidden)]\npub extern \"C\" fn pg_finfo_"@ + wrapper_name(ident)
        + "() -> &'static ::pgx::pg_sys::Pg_finfo_record {\n    const V1_API: ::pgx::pg_sys::Pg_finfo_record = ::pgx::pg_sys::Pg_finfo_record { api_version: 1 };\n    &V1_API\n}\n"@
}

/// Everything that stands in the place of the declared trigger: the
/// function itself, its wrapper, the function for the calling convention
/// and the function that hands out the record.
pub open spec fn trigger_source(func: TriggerFn, config: ToSqlConfigView) -> Seq<char> {
    func.tokens@ + "\n"@ + wrapper_source(func.ident@) + finfo_source(func.ident@) + entity_source(
        func.ident@,
        config,
    )
}

impl ToSqlConfig {
    /// The configuration of an entity that says nothing of its SQL.
    pub fn new() -> (r: ToSqlConfig)
        ensures
            r@ == default_config(),
    {
        ToSqlConfig { enabled: true, callback: None, content: None }
    }

    /// Whether the configuration says anything of the SQL.
    pub fn overrides_default(&self) -> (b: bool)
        ensures
            b == overrides(self@),
    {
        !self.enabled || self.callback.is_some() || self.content.is_some()
    }

    /// The configuration as a trigger called `ident` keeps it.
    pub fn adapted(&self, ident: &String) -> (r: ToSqlConfig)
        ensures
            r@ == adapted_config(self@, ident@),
    {
        let content = match &self.content {
            Some(text) => {
                let mut name = ident.clone();
                name.append("_wrapper");
                let mut updated = replace_all(text.as_str(), "@FUNCTION_NAME@", name.as_str());
                updated.append("\n");
                Some(updated)
            },
            None => None,
        };
        let callback = match &self.callback {
            Some(path) => Some(path.clone()),
            None => None,
        };
        ToSqlConfig { enabled: self.enabled, callback, content }
    }

    /// Writes the expression that builds the configuration.
    pub fn to_tokens(&self) -> (out: String)
        ensures
            out@ == config_tokens(self@),
    {
        let mut out = String::from_str("::pgx::utils::sql_entity_graph::ToSqlConfigEntity { enabled: ");
        if self.enabled {
            out.append("true");
        } else {
            out.append("false");
        }
        out.append(", callback: ");
        match &self.callback {
            Some(path) => {
                let mut call = String::from_str("Some(");
                call.append(path.as_str());
                call.append(")");
                out.append(call.as_str());
            },
            None => {
                out.append("None");
            },
        }
        out.append(", content: ");
        match &self.content {
            Some(text) => {
                if self.callback.is_some() {
                    out.append("None");
                } else {
                    let mut call = String::from_str("Some(");
                    let literal = write_string_literal(text.as_str());
                    call.append(literal.as_str());
                    call.append(")");
                    out.append(call.as_str());
                }
            },
            None => {
                out.append("None");
            },
        }
        out.append(" }");
        out
    }
}

/// What the user is told of a failure that the library finds itself.
pub open spec fn error_text(kind: TriggerErrorKind) -> Seq<char> {
    match kind {
        TriggerErrorKind::MultipleSqlArguments => "Multiple `sql` arguments found, it must be unique"@,
        TriggerErrorKind::IdentifierTooLong => "Identifier is too long, PostgreSQL will truncate identifiers of 64 bytes or more"@,
        TriggerErrorKind::InvalidItem => "The generated item is not a function"@,
    }
}

/// The failure `kind`, with its message for the user.
pub fn trigger_error(kind: TriggerErrorKind) -> (e: TriggerError)
    ensures
        e.kind == kind,
        e.message@ == error_text(kind),
{
    let message = match kind {
        TriggerErrorKind::MultipleSqlArguments => String::from_str(
            "Multiple `sql` arguments found, it must be unique",
        ),
        TriggerErrorKind::IdentifierTooLong => String::from_str(
            "Identifier is too long, PostgreSQL will truncate identifiers of 64 bytes or more",
        ),
        TriggerErrorKind::InvalidItem => String::from_str("The generated item is not a function"),
    };
    TriggerError { kind, message }
}

impl PgTrigger {
    /// Declares a trigger.
    pub fn new(func: TriggerFn, attributes: Vec<PgTriggerAttribute>) -> (r: Result<PgTrigger, TriggerError>)
        ensures
            match new_trigger(func, attributes@) {
                Ok(config) => r matches Ok(t) && t.func == func && t.to_sql_config@ == config,
                Err(kind) => r matches Err(e) && e.kind == kind && e.message@ == error_text(kind),
            },
    {
        if attributes.len() > 1 {
            return Err(trigger_error(TriggerErrorKind::MultipleSqlArguments));
        }
        let config = if attributes.len() == 0 {
            ToSqlConfig::new()
        } else {
            match &attributes[0] {
                PgTriggerAttribute::Sql(found) => found.adapted(&func.ident),
            }
        };
        if !config.overrides_default() && func.ident.as_str().len() >= POSTGRES_IDENTIFIER_MAX_LEN {
            return Err(trigger_error(TriggerErrorKind::IdentifierTooLong));
        }
        Ok(PgTrigger { func, to_sql_config: config })
    }

    /// The record of the trigger, for a function declared at this place.
    pub fn entity(&self, file: String, line: u32, module: String) -> (r: PgTriggerEntity)
        ensures
            r.function_name@ == self.func.ident@,
            r.file@ == file@,
            r.line == line,
            r.module@ == module@,
            r.full_path@ == module@ + "::"@ + self.func.ident@,
    {
        let mut full_path = module.clone();
        full_path.append("::");
        full_path.append(self.func.ident.as_str());
        PgTriggerEntity { function_name: self.func.ident.clone(), file, line, full_path, module }
    }

    /// Writes the source of the function that hands out the record.
    pub fn entity_source(&self) -> (out: String)
        ensures
            out@ == entity_source(self.func.ident@, self.to_sql_config@),
    {
        let name = write_string_literal(self.func.ident.as_str());
        let config = self.to_sql_config.to_tokens();
        let mut out = String::from_str(
            "#[no_mangle]\n#[doc(hidden)]\npub extern \"C\" fn __pgx_internals_trigger_",
        );
        out.append(self.func.ident.as_str());
        out.append(
            "() -> ::pgx::utils::sql_entity_graph::SqlGraphEntity {\n    use core::any::TypeId;\n    extern crate alloc;\n    use alloc::vec::Vec;\n    use alloc::vec;\n    let submission = ::pgx::utils::sql_entity_graph::PgTriggerEntity {\n        function_name: ",
        );
        out.append(name.as_str());
        out.append(
            ",\n        file: file!(),\n        line: line!(),\n        full_path: concat!(module_path!(), \"::\", stringify!(",
        );
        out.append(self.func.ident.as_str());
        out.append(")),\n        module_path: module_path!(),\n        to_sql_config: ");
        out.append(config.as_str());
        out.append(
            ",\n    };\n    ::pgx::utils::sql_entity_graph::SqlGraphEntity::Trigger(submission)\n}\n",
        );
        out
    }

    /// Writes the source of the wrapper that the database calls.
    pub fn wrapper_source(&self) -> (out: String)
        ensures
            out@ == wrapper_source(self.func.ident@),
    {
        let mut name = self.func.ident.clone();
        name.append("_wrapper");
        let mut out = String::from_str("#[no_mangle]\n#[pgx::pg_guard]\nextern \"C\" fn ");
        out.append(name.as_str());
        out.append(
            "(fcinfo: ::pgx::pg_sys::FunctionCallInfo) -> ::pgx::pg_sys::Datum {\n    let maybe_pg_trigger = unsafe { ::pgx::trigger_support::PgTrigger::from_fcinfo(fcinfo) };\n    let pg_trigger = maybe_pg_trigger.expect(\"PgTrigger::from_fcinfo failed\");\n    let trigger_fn_result: Result<::pgx::PgHeapTuple<'_, _>, _> = ",
        );
        out.append(self.func.ident.as_str());
        out.append(
            "(&pg_trigger);\n    let trigger_retval = trigger_fn_result.expect(\"Trigger function panic\");\n    let retval_datum = trigger_retval.into_datum();\n    retval_datum.expect(\"Failed to turn trigger function return value into Datum\")\n}\n",
        );
        out
    }

    /// Writes the source of the function for the calling convention.
    pub fn finfo_source(&self) -> (out: String)
        ensures
            out@ == finfo_source(self.func.ident@),
    {
        let mut name = self.func.ident.clone();
        name.append("_wrapper");
        let mut out = String::from_str("#[no_mangle]\n#[doc(hidden)]\npub extern \"C\" fn pg_finfo_");
        out.append(name.as_str());
        out.append(
            "() -> &'static ::pgx::pg_sys::Pg_finfo_record {\n    const V1_API: ::pgx::pg_sys::Pg_finfo_record = ::pgx::pg_sys::Pg_finfo_record { api_version: 1 };\n    &V1_API\n}\n",
        );
        out
    }

    /// The function that hands out the record, as a parsed item. It fails
    /// exactly if its source is not one function.
    pub fn entity_tokens(&self) -> (r: Result<syn::ItemFn, TriggerError>)
        ensures
            r is Ok == is_item_fn(entity_source(self.func.ident@, self.to_sql_config@)),
            r matches Err(e) ==> e.kind == TriggerErrorKind::InvalidItem,
    {
        let source = self.entity_source();
        item_from(parse_item_fn(source.as_str()))
    }

    /// The wrapper, as a parsed item. It fails exactly if its source is not one function.
    pub fn wrapper_tokens(&self) -> (r: Result<syn::ItemFn, TriggerError>)
        ensures
            r is Ok == is_item_fn(wrapper_source(self.func.ident@)),
            r matches Err(e) ==> e.kind == TriggerErrorKind::InvalidItem,
    {
        let source = self.wrapper_source();
        item_from(parse_item_fn(source.as_str()))
    }

    /// The function for the calling convention, as a parsed item. It fails
    /// exactly if its source is not one function.
    pub fn finfo_tokens(&self) -> (r: Result<syn::ItemFn, TriggerError>)
        ensures
            r is Ok == is_item_fn(finfo_source(self.func.ident@)),
            r matches Err(e) ==> e.kind == TriggerErrorKind::InvalidItem,
    {
        let source = self.finfo_source();
        item_from(parse_item_fn(source.as_str()))
    }

    /// Writes everything that stands in the place of the declared trigger,
    /// once each of the three functions is known to parse.
    pub fn to_tokens(&self) -> (r: Result<String, TriggerError>)
        ensures
            match r {
                Ok(out) => out@ == trigger_source(self.func, self.to_sql_config@) && is_item_fn(
                    entity_source(self.func.ident@, self.to_sql_config@),
                ) && is_item_fn(wrapper_source(self.func.ident@)) && is_item_fn(finfo_source(self.func.ident@)),
                Err(e) => e.kind == TriggerErrorKind::InvalidItem && !(is_item_fn(
                    entity_source(self.func.ident@, self.to_sql_config@),
                ) && is_item_fn(wrapper_source(self.func.ident@)) && is_item_fn(finfo_source(self.func.ident@))),
            },
    {
        match self.entity_tokens() {
            Ok(_) => {},
            Err(e) => {
                return Err(e);
            },
        }
        match self.wrapper_tokens() {
            Ok(_) => {},
            Err(e) => {
                return Err(e);
            },
        }
        match self.finfo_tokens() {
            Ok(_) => {},
            Err(e) => {
                return Err(e);
            },
        }
        let mut out = self.func.tokens.clone();
        out.append("\n");
        out.append(self.wrapper_source().as_str());
        out.append(self.finfo_source().as_str());
        out.append(self.entity_source().as_str());
        Ok(out)
    }
}

/// Turns what the parser made of a source into an item or a failure with the parser's message.
pub fn item_from(parsed: Result<syn::ItemFn, syn::Error>) -> (r: Result<syn::ItemFn, TriggerError>)
    ensures
        r is Ok == parsed is Ok,
        r matches Err(e) ==> e.kind == TriggerErrorKind::InvalidItem,
        r matches Ok(item) ==> parsed == Ok::<syn::ItemFn, syn::Error>(item),
{
    match parsed {
        Ok(item) => Ok(item),
        Err(error) => Err(TriggerError { kind: TriggerErrorKind::InvalidItem, message: error_message(&error) }),
    }
}

} // verus!
