//! A schema compiler for PostgreSQL extensions written in Rust.
//!
//! Declared callables (functions, operators, triggers) and the types they
//! refer to are turned into the SQL that registers them with the database.
//! The crate classifies a declared return type into a canonical shape, keeps
//! the entities in a graph that resolves every type reference, and renders
//! the `CREATE FUNCTION` / `CREATE OPERATOR` statements from it.
//!
//! Every function that writes text states the text as a sequence of
//! characters, and every function that can fail states when it does.

pub mod entity;
pub mod error;
pub mod name_macro;
pub mod pg_trigger;
pub mod pgx_sql;
pub mod returning;
pub mod returning_tokens;
pub mod signature;
pub mod spi_srf;
pub mod syntax;
pub mod text;
pub mod to_sql;
pub mod type_expr;
