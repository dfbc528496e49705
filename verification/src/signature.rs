//! The identity of a declared function.
//!
//! Two functions are the same entity if they have the same path and take
//! arguments of the same types; whatever else is recorded of them does not
//! count. Functions are ordered by path and then by the identities of
//! their argument types, so that a set of them can be written out in a fixed
//! order.

use std::cmp::Ordering;
use vstd::prelude::*;
use vstd::string::*;
use vstd::std_specs::cmp::{PartialEqSpecImpl, PartialOrdSpecImpl};
use vstd::std_specs::convert::FromSpecImpl;
use crate::entity::{PgExternEntity, SqlGraphEntity};
use crate::pgx_sql::{same_signature, signature_key};
use crate::text::{
    char_codes, compare, compare_strs, compare_u64s, lemma_char_codes_equal, lemma_compare_equal, numbers,
};

verus! {

/// The identities of the argument types of `f`, as numbers.
pub open spec fn argument_ids(f: PgExternEntity) -> Seq<int> {
    Seq::new(f.fn_args@.len(), |i: int| f.fn_args@[i].type_id + 0)
}

/// The order of two functions: negative where `a` comes first, zero where
/// they are the same entity, positive where `b` comes first.
pub open spec fn compare_signatures(a: PgExternEntity, b: PgExternEntity) -> int {
    if compare(char_codes(a.metadata.path@), char_codes(b.metadata.path@)) != 0 {
        compare(char_codes(a.metadata.path@), char_codes(b.metadata.path@))
    } else {
        compare(argument_ids(a), argument_ids(b))
    }
}

/// The order that a comparison by sign stands for.
pub open spec fn ordering_of(c: int) -> Ordering {
    if c < 0 {
        Ordering::Less
    } else if c == 0 {
        Ordering::Equal
    } else {
        Ordering::Greater
    }
}

/// Two functions compare as equal exactly if they are the same entity.
pub proof fn lemma_order_agrees_with_identity(a: PgExternEntity, b: PgExternEntity)
    ensures
        compare_signatures(a, b) == 0 <==> signature_key(a) == signature_key(b),
        -1 <= compare_signatures(a, b) <= 1,
{
    lemma_compare_equal(char_codes(a.metadata.path@), char_codes(b.metadata.path@));
    lemma_char_codes_equal(a.metadata.path@, b.metadata.path@);
    lemma_compare_equal(argument_ids(a), argument_ids(b));
    if argument_ids(a) == argument_ids(b) {
        assert(signature_key(a).1.len() == argument_ids(a).len());
        assert(signature_key(b).1.len() == argument_ids(b).len());
        assert forall|i: int| 0 <= i < signature_key(a).1.len() implies signature_key(a).1[i] == signature_key(
            b,
        ).1[i] by {
            assert(argument_ids(a)[i] == argument_ids(b)[i]);
        }
        assert(signature_key(a).1 =~= signature_key(b).1);
    }
    if signature_key(a).1 == signature_key(b).1 {
        assert(argument_ids(a) =~= argument_ids(b)) by {
            assert(argument_ids(a).len() == signature_key(a).1.len());
            assert(argument_ids(b).len() == signature_key(b).1.len());
            assert forall|i: int| 0 <= i < argument_ids(a).len() implies argument_ids(a)[i] == argument_ids(b)[i] by {
                assert(signature_key(a).1[i] == signature_key(b).1[i]);
            }
        }
    }
}

/// Compares two functions by path and then by the identities of their argument types.
pub fn compare_entities(a: &PgExternEntity, b: &PgExternEntity) -> (r: i8)
    ensures
        r == compare_signatures(*a, *b),
{
    let by_path = compare_strs(a.metadata.path.as_str(), b.metadata.path.as_str());
    if by_path != 0 {
        return by_path;
    }
    let mut left: Vec<u64> = Vec::new();
    let mut i: usize = 0;
    while i < a.fn_args.len()
        invariant
            i <= a.fn_args.len(),
            left.len() == i,
            forall|k: int| 0 <= k < i ==> left[k] == a.fn_args[k].type_id,
        decreases a.fn_args.len() - i,
    {
        left.push(a.fn_args[i].type_id);
        i = i + 1;
    }
    let mut right: Vec<u64> = Vec::new();
    let mut j: usize = 0;
    while j < b.fn_args.len()
        invariant
            j <= b.fn_args.len(),
            right.len() == j,
            forall|k: int| 0 <= k < j ==> right[k] == b.fn_args[k].type_id,
        decreases b.fn_args.len() - j,
    {
        right.push(b.fn_args[j].type_id);
        j = j + 1;
    }
    proof {
        assert(numbers(left@) =~= argument_ids(*a));
        assert(numbers(right@) =~= argument_ids(*b));
    }
    compare_u64s(&left, &right)
}

impl PartialEq for PgExternEntity {
    fn eq(&self, other: &Self) -> (r: bool) {
        same_signature(self, other)
    }
}

impl PartialEqSpecImpl for PgExternEntity {
    open spec fn obeys_eq_spec() -> bool {
        true
    }

    open spec fn eq_spec(&self, other: &Self) -> bool {
        signature_key(*self) == signature_key(*other)
    }
}

impl PartialOrd for PgExternEntity {
    fn partial_cmp(&self, other: &Self) -> (r: Option<Ordering>) {
        Some(self.cmp(other))
    }
}

impl PartialOrdSpecImpl for PgExternEntity {
    open spec fn obeys_partial_cmp_spec() -> bool {
        true
    }

    open spec fn partial_cmp_spec(&self, other: &Self) -> Option<Ordering> {
        Some(ordering_of(compare_signatures(*self, *other)))
    }
}

impl From<PgExternEntity> for SqlGraphEntity {
    fn from(f: PgExternEntity) -> (r: SqlGraphEntity) {
        SqlGraphEntity::Function(f)
    }
}

impl FromSpecImpl<PgExternEntity> for SqlGraphEntity {
    open spec fn obeys_from_spec() -> bool {
        true
    }

    open spec fn from_spec(f: PgExternEntity) -> SqlGraphEntity {
        SqlGraphEntity::Function(f)
    }
}

impl PgExternEntity {
    /// The path of the function in the Rust source.
    pub fn rust_identifier(&self) -> (out: String)
        ensures
            out@ == self.metadata.path@,
    {
        self.metadata.path.clone()
    }

    /// The file in which the function was declared.
    pub fn file(&self) -> (r: Option<String>)
        ensures
            r matches Some(file) && file@ == self.file@,
    {
        Some(self.file.clone())
    }

    /// The line at which the function was declared.
    pub fn line(&self) -> (r: Option<u32>)
        ensures
            r == Some(self.line),
    {
        Some(self.line)
    }

    /// The order of this function and `other`.
    pub fn cmp(&self, other: &Self) -> (r: Ordering)
        ensures
            r == ordering_of(compare_signatures(*self, *other)),
    {
        let c = compare_entities(self, other);
        if c < 0 {
            Ordering::Less
        } else if c == 0 {
            Ordering::Equal
        } else {
            Ordering::Greater
        }
    }

    /// The name of the function in a drawing of the graph.
    pub fn dot_identifier(&self) -> (out: String)
        ensures
            out@ == "fn "@ + self.name@,
    {
        let mut out = String::from_str("fn ");
        out.append(self.name.as_str());
        out
    }
}

} // verus!
