//! The records that describe a declared callable, and what they refer to.

use vstd::prelude::*;
use vstd::string::*;

verus! {

/// How a Rust type is written in SQL.
#[derive(Clone, Debug)]
pub enum SqlVariant {
    /// The type has a fixed SQL name.
    Mapped(String),
    /// The type is a row type whose name is given where it is used.
    Composite { requires_array_brackets: bool },
    /// The type does not appear in SQL.
    Skip,
}

/// How the value that a callable produced is returned to SQL.
#[derive(Clone, Debug)]
pub enum ReturnVariant {
    Plain(SqlVariant),
    SetOf(SqlVariant),
    Table(Vec<SqlVariant>),
}

/// What running the callable's signature through the type mapping gave.
#[derive(Clone, Debug)]
pub struct FunctionMetadataEntity {
    /// The path of the callable; with the argument types it identifies the entity.
    pub path: String,
    /// The realized return variant, `None` for a callable that returns nothing.
    pub retval: Option<ReturnVariant>,
}

/// One declared argument.
#[derive(Clone, Debug)]
pub struct PgExternArgumentEntity {
    pub pattern: String,
    /// The identity of the argument's type.
    pub type_id: u64,
    /// The full name of the argument's type, by which built-in types are found.
    pub full_path: String,
    pub argument_sql: SqlVariant,
    pub optional: bool,
    pub variadic: bool,
    pub default: Option<String>,
    /// The SQL name of the row type, where the type is a composite one.
    pub composite_type: Option<String>,
}

/// A type as a return shape refers to it.
#[derive(Clone, Debug)]
pub struct TypeEntity {
    pub ty_source: String,
    pub ty_id: u64,
    pub full_path: String,
    pub module: String,
    pub composite_type: Option<String>,
    pub optional: bool,
}

/// One column of a multi-column return.
#[derive(Clone, Debug)]
pub struct PgExternReturnEntityIteratedItem {
    pub ty: TypeEntity,
    pub name: Option<String>,
}

/// The declared return shape of a callable.
#[derive(Clone, Debug)]
pub enum PgExternReturnEntity {
    Void,
    Type { ty: TypeEntity },
    SetOf { ty: TypeEntity },
    Iterated(Vec<PgExternReturnEntityIteratedItem>),
    Trigger,
}

/// An attribute of a declared callable.
#[derive(Clone, Debug)]
pub enum ExternArgs {
    CreateOrReplace,
    Immutable,
    Strict,
    Stable,
    Volatile,
    Raw,
    NoGuard,
    ParallelSafe,
    ParallelUnsafe,
    ParallelRestricted,
    Error(String),
    Schema(String),
    Name(String),
    Requires(Vec<String>),
}

/// What makes a callable an operator.
#[derive(Clone, Debug)]
pub struct PgOperatorEntity {
    pub opname: String,
    pub commutator: Option<String>,
    pub negator: Option<String>,
    pub restrict: Option<String>,
    pub join: Option<String>,
    pub hashes: bool,
    pub merges: bool,
}

/// A declared function, as the SQL generation sees it.
#[derive(Clone, Debug)]
pub struct PgExternEntity {
    pub name: String,
    pub unaliased_name: String,
    pub module: String,
    pub full_path: String,
    pub metadata: FunctionMetadataEntity,
    pub fn_args: Vec<PgExternArgumentEntity>,
    pub fn_return: PgExternReturnEntity,
    pub schema: Option<String>,
    pub file: String,
    pub line: u32,
    pub extern_attrs: Vec<ExternArgs>,
    pub search_path: Option<Vec<String>>,
    pub operator: Option<PgOperatorEntity>,
}

/// A declared SQL type.
#[derive(Clone, Debug)]
pub struct PostgresTypeEntity {
    pub name: String,
    pub full_path: String,
    pub schema: Option<String>,
    /// The identities of the Rust types that are written as this SQL type.
    pub mappings: Vec<u64>,
}

/// A declared SQL enum.
#[derive(Clone, Debug)]
pub struct PostgresEnumEntity {
    pub name: String,
    pub full_path: String,
    pub schema: Option<String>,
    pub mappings: Vec<u64>,
    pub variants: Vec<String>,
}

/// A declared trigger function.
#[derive(Clone, Debug)]
pub struct PgTriggerEntity {
    pub function_name: String,
    pub file: String,
    pub line: u32,
    pub full_path: String,
    pub module: String,
}

/// A node of the entity graph.
#[derive(Clone, Debug)]
pub enum SqlGraphEntity {
    Function(PgExternEntity),
    Type(PostgresTypeEntity),
    Enum(PostgresEnumEntity),
    BuiltinType(String),
    Trigger(PgTriggerEntity),
}

impl ExternArgs {
    /// The words by which the attribute appears in `CREATE FUNCTION`; empty
    /// for an attribute that SQL does not see.
    pub open spec fn spec_keyword(self) -> Seq<char> {
        match self {
            ExternArgs::CreateOrReplace => "CREATE OR REPLACE"@,
            ExternArgs::Immutable => "IMMUTABLE"@,
            ExternArgs::Strict => "STRICT"@,
            ExternArgs::Stable => "STABLE"@,
            ExternArgs::Volatile => "VOLATILE"@,
            ExternArgs::ParallelSafe => "PARALLEL SAFE"@,
            ExternArgs::ParallelUnsafe => "PARALLEL UNSAFE"@,
            ExternArgs::ParallelRestricted => "PARALLEL RESTRICTED"@,
            _ => ""@,
        }
    }

    pub fn keyword(&self) -> (s: &'static str)
        ensures
            s@ == self.spec_keyword(),
    {
        match self {
            ExternArgs::CreateOrReplace => "CREATE OR REPLACE",
            ExternArgs::Immutable => "IMMUTABLE",
            ExternArgs::Strict => "STRICT",
            ExternArgs::Stable => "STABLE",
            ExternArgs::Volatile => "VOLATILE",
            ExternArgs::ParallelSafe => "PARALLEL SAFE",
            ExternArgs::ParallelUnsafe => "PARALLEL UNSAFE",
            ExternArgs::ParallelRestricted => "PARALLEL RESTRICTED",
            _ => "",
        }
    }

    /// Whether the attribute asks for strict null handling.
    pub fn is_strict(&self) -> (b: bool)
        ensures
            b == (*self is Strict),
    {
        match self {
            ExternArgs::Strict => true,
            _ => false,
        }
    }
}

impl PostgresTypeEntity {
    pub open spec fn spec_id_matches(self, candidate: u64) -> bool {
        self.mappings@.contains(candidate)
    }

    /// Whether `candidate` is the identity of a Rust type written as this SQL type.
    pub fn id_matches(&self, candidate: u64) -> (b: bool)
        ensures
            b == self.spec_id_matches(candidate),
    {
        ids_contain(&self.mappings, candidate)
    }
}

impl PostgresEnumEntity {
    pub open spec fn spec_id_matches(self, candidate: u64) -> bool {
        self.mappings@.contains(candidate)
    }

    /// Whether `candidate` is the identity of a Rust type written as this SQL enum.
    pub fn id_matches(&self, candidate: u64) -> (b: bool)
        ensures
            b == self.spec_id_matches(candidate),
    {
        ids_contain(&self.mappings, candidate)
    }
}

fn ids_contain(ids: &Vec<u64>, candidate: u64) -> (b: bool)
    ensures
        b == ids@.contains(candidate),
{
    let mut i: usize = 0;
    while i < ids.len()
        invariant
            i <= ids.len(),
            forall|k: int| 0 <= k < i ==> ids[k] != candidate,
        decreases ids.len() - i,
    {
        if ids[i] == candidate {
            return true;
        }
        i = i + 1;
    }
    false
}

} // verus!
