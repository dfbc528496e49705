//! The canonical shape of what a declared function returns.
//!
//! A declared return type is classified as nothing, a single value, a set
//! of values, a table with columns, or the row that a trigger hands back.
//! A type that is none of these is refused, never guessed.

use vstd::prelude::*;
use vstd::string::*;
use crate::error::ErrorKind;
use crate::name_macro::{last_segment, last_segment_is, named_column, NameMacro};
use crate::syntax::{expr_tokens_of, parse_expr};
use crate::text::{collect, lemma_collect_all, lemma_collect_fails, opt_view, str_is};
use crate::type_expr::{
    anonymize, anonymized, anonymized_path, copy_option, copy_path, copy_type, lemma_anonymized_path,
    rewrite_path, static_path,
    GenericArgument, GenericArgumentView, PathArguments, PathArgumentsView, PathSegment, PathSegmentView,
    ReturnType, ReturnTypeView, TypeExpr, TypeExprView, TypeParamBound, TypeParamBoundView, TypePath,
    TypePathView,
};

verus! {

/// One column of a returned table.
#[derive(Debug)]
pub struct ReturningIteratedItem {
    pub ty: TypeExpr,
    pub name: Option<String>,
    /// The expression for the SQL name of the row type, for a composite column.
    pub sql: Option<String>,
}

/// The shape of what a function returns.
#[derive(Debug)]
pub enum Returning {
    /// Nothing.
    Void,
    /// A single value.
    Type { ty: TypeExpr, sql: Option<String> },
    /// A set of values of one type.
    SetOf { ty: TypePath, sql: Option<String> },
    /// A table with these columns.
    Iterated(Vec<ReturningIteratedItem>),
    /// The row that a trigger hands back.
    Trigger,
}

pub struct ReturningIteratedItemView {
    pub ty: TypeExprView,
    pub name: Option<Seq<char>>,
    pub sql: Option<Seq<char>>,
}

pub enum ReturningView {
    Void,
    Type { ty: TypeExprView, sql: Option<Seq<char>> },
    SetOf { ty: TypePathView, sql: Option<Seq<char>> },
    Iterated(Seq<ReturningIteratedItemView>),
    Trigger,
}

impl View for ReturningIteratedItem {
    type V = ReturningIteratedItemView;

    open spec fn view(&self) -> ReturningIteratedItemView {
        ReturningIteratedItemView { ty: self.ty@, name: opt_view(self.name), sql: opt_view(self.sql) }
    }
}

impl View for Returning {
    type V = ReturningView;

    open spec fn view(&self) -> ReturningView {
        match *self {
            Returning::Void => ReturningView::Void,
            Returning::Type { ty, sql } => ReturningView::Type { ty: ty@, sql: opt_view(sql) },
            Returning::SetOf { ty, sql } => ReturningView::SetOf { ty: ty@, sql: opt_view(sql) },
            Returning::Iterated(items) => ReturningView::Iterated(Seq::new(items@.len(), |i: int| items@[i]@)),
            Returning::Trigger => ReturningView::Trigger,
        }
    }
}

impl Clone for ReturningIteratedItem {
    fn clone(&self) -> (r: Self)
        ensures
            r@ == self@,
    {
        ReturningIteratedItem { ty: copy_type(&self.ty), name: copy_option(&self.name), sql: copy_option(&self.sql) }
    }
}

impl Clone for Returning {
    fn clone(&self) -> (r: Self)
        ensures
            r@ == self@,
    {
        match self {
            Returning::Void => Returning::Void,
            Returning::Type { ty, sql } => Returning::Type { ty: copy_type(ty), sql: copy_option(sql) },
            Returning::SetOf { ty, sql } => Returning::SetOf { ty: copy_path(ty), sql: copy_option(sql) },
            Returning::Iterated(items) => {
                let mut out: Vec<ReturningIteratedItem> = Vec::new();
                let mut i: usize = 0;
                while i < items.len()
                    invariant
                        i <= items.len(),
                        out.len() == i,
                        forall|k: int| 0 <= k < i ==> (#[trigger] out[k])@ == items[k]@,
                    decreases items.len() - i,
                {
                    out.push(items[i].clone());
                    i = i + 1;
                }
                let r = Returning::Iterated(out);
                assert(r@->Iterated_0 =~= self@->Iterated_0);
                r
            },
            Returning::Trigger => Returning::Trigger,
        }
    }
}

/// The view of an optional shape.
pub open spec fn opt_returning_view(r: Option<Returning>) -> Option<ReturningView> {
    match r {
        Some(r) => Some(r@),
        None => None,
    }
}

/// A segment without arguments.
pub open spec fn plain_segment(ident: Seq<char>) -> PathSegmentView {
    PathSegmentView { ident, arguments: PathArgumentsView::Empty }
}

/// The type that stands for a row of a composite type:
/// `::pgx::PgHeapTuple<'_, impl WhoAllocated<::pgx::pg_sys::HeapTupleData>>`.
pub open spec fn row_handle() -> TypePathView {
    TypePathView {
        leading_colon: true,
        segments: seq![
            plain_segment("pgx"@),
            PathSegmentView {
                ident: "PgHeapTuple"@,
                arguments: PathArgumentsView::AngleBracketed {
                    args: seq![
                        GenericArgumentView::Lifetime("_"@),
                        GenericArgumentView::Type(
                            TypeExprView::ImplTrait {
                                bounds: seq![
                                    TypeParamBoundView::Trait(
                                        TypePathView {
                                            leading_colon: false,
                                            segments: seq![
                                                PathSegmentView {
                                                    ident: "WhoAllocated"@,
                                                    arguments: PathArgumentsView::AngleBracketed {
                                                        args: seq![
                                                            GenericArgumentView::Type(
                                                                TypeExprView::Path(heap_tuple_data()),
                                                            ),
                                                        ],
                                                    },
                                                },
                                            ],
                                        },
                                    ),
                                ],
                            },
                        ),
                    ],
                },
            },
        ],
    }
}

/// `::pgx::pg_sys::HeapTupleData`.
pub open spec fn heap_tuple_data() -> TypePathView {
    TypePathView {
        leading_colon: true,
        segments: seq![plain_segment("pgx"@), plain_segment("pg_sys"@), plain_segment("HeapTupleData"@)],
    }
}

/// A single value of a composite type, from what the tokens of
/// `composite_type!(..)` are as an expression.
pub open spec fn composite_shape(expr: Option<Seq<char>>) -> Result<ReturningView, ErrorKind> {
    match expr {
        Some(sql) => Ok(ReturningView::Type { ty: TypeExprView::Path(row_handle()), sql: Some(sql) }),
        None => Err(ErrorKind::UnknownReturnShape),
    }
}

/// A set of values of a composite type.
pub open spec fn composite_set(expr: Option<Seq<char>>) -> Result<ReturningView, ErrorKind> {
    match expr {
        Some(sql) => Ok(ReturningView::SetOf { ty: row_handle(), sql: Some(sql) }),
        None => Err(ErrorKind::UnknownReturnShape),
    }
}

/// A column of a composite type.
pub open spec fn composite_column(expr: Option<Seq<char>>) -> Result<ReturningIteratedItemView, ErrorKind> {
    match expr {
        Some(sql) => Ok(
            ReturningIteratedItemView { ty: TypeExprView::Path(row_handle()), name: None, sql: Some(sql) },
        ),
        None => Err(ErrorKind::UnknownReturnShape),
    }
}

/// The column that an element of a tuple declares. `name!(..)` gives a
/// named column, `composite_type!(..)` a column of a row type, any other
/// macro is refused; any other type is a column without a name.
pub open spec fn classify_element(elem: TypeExprView) -> Result<ReturningIteratedItemView, ErrorKind> {
    match elem {
        TypeExprView::Macro { path, tokens } => if last_segment(path) == Some("name"@) {
            match named_column(tokens) {
                Ok(named) => Ok(
                    ReturningIteratedItemView { ty: named.ty, name: Some(named.ident), sql: named.sql },
                ),
                Err(e) => Err(e),
            }
        } else if last_segment(path) == Some("composite_type"@) {
            composite_column(expr_tokens_of(tokens))
        } else {
            Err(ErrorKind::UnknownReturnShape)
        },
        other => Ok(ReturningIteratedItemView { ty: anonymized(other), name: None, sql: None }),
    }
}

/// The column that an element declares, as an attempt that produces one column.
pub open spec fn element_attempt(elem: TypeExprView) -> Result<Option<ReturningIteratedItemView>, ErrorKind> {
    match classify_element(elem) {
        Ok(item) => Ok(Some(item)),
        Err(e) => Err(e),
    }
}

/// The columns that the elements of a tuple declare, or the failure of the
/// first element that fails.
pub open spec fn classify_elements(elems: Seq<TypeExprView>) -> Result<Seq<ReturningIteratedItemView>, ErrorKind> {
    collect(Seq::new(elems.len(), |i: int| element_attempt(elems[i])))
}

/// The table that a tuple declares.
pub open spec fn classify_tuple(elems: Seq<TypeExprView>) -> Result<ReturningView, ErrorKind> {
    match classify_elements(elems) {
        Ok(items) => Ok(ReturningView::Iterated(items)),
        Err(e) => Err(e),
    }
}

/// The shape that the item type of an iterator gives: a tuple is a table, a
/// path or a reference to a path a set of it, `composite_type!(..)` a set
/// of rows.
pub open spec fn classify_item(ty: TypeExprView) -> Result<ReturningView, ErrorKind> {
    match ty {
        TypeExprView::Tuple { elems } => classify_tuple(elems),
        TypeExprView::Path(p) => Ok(ReturningView::SetOf { ty: anonymized_path(p), sql: None }),
        TypeExprView::Reference { lifetime, mutable, elem } => match *elem {
            TypeExprView::Path(p) => Ok(ReturningView::SetOf { ty: anonymized_path(p), sql: None }),
            _ => Err(ErrorKind::UnknownReturnShape),
        },
        TypeExprView::Macro { path, tokens } => if last_segment(path) == Some("composite_type"@) {
            composite_set(expr_tokens_of(tokens))
        } else {
            Err(ErrorKind::UnknownReturnShape)
        },
        _ => Err(ErrorKind::UnknownReturnShape),
    }
}

/// The item type that a list of bounds names: the first bound is a trait
/// whose last segment is `Iterator` with a binding as its first argument.
pub open spec fn iterator_item(bounds: Seq<TypeParamBoundView>) -> Option<TypeExprView> {
    if bounds.len() == 0 {
        None
    } else {
        match bounds[0] {
            TypeParamBoundView::Trait(p) => if p.segments.len() == 0 {
                None
            } else if p.segments.last().ident != "Iterator"@ {
                None
            } else {
                match p.segments.last().arguments {
                    PathArgumentsView::AngleBracketed { args } => if args.len() == 0 {
                        None
                    } else {
                        match args[0] {
                            GenericArgumentView::Binding { ident, ty } => Some(ty),
                            _ => None,
                        }
                    },
                    _ => None,
                }
            },
            TypeParamBoundView::Lifetime(_) => None,
        }
    }
}

/// The shape that `impl Bounds` or `dyn Bounds` declares.
pub open spec fn classify_bounds(bounds: Seq<TypeParamBoundView>) -> Result<ReturningView, ErrorKind> {
    match iterator_item(bounds) {
        Some(ty) => classify_item(ty),
        None => Err(ErrorKind::UnknownReturnShape),
    }
}

/// Whether a segment of `p` is called `name`.
pub open spec fn has_ident(p: TypePathView, name: Seq<char>) -> bool {
    exists|i: int| 0 <= i < p.segments.len() && p.segments[i].ident == name
}

/// Whether `p` names the row that a trigger hands back: `Datum` alone, or
/// `Datum` in a path that goes through `pg_sys`.
pub open spec fn is_row_handle(p: TypePathView) -> bool {
    has_ident(p, "Datum"@) && (has_ident(p, "pg_sys"@) || p.segments.len() == 1)
}

/// Whether a segment of this name wraps what it is given.
pub open spec fn is_wrapper(ident: Seq<char>) -> bool {
    ident == "Option"@ || ident == "Box"@
}

/// Whether one of the first `n` segments of `p` is a wrapper.
pub open spec fn wrapper_seen(p: TypePathView, n: int) -> bool {
    exists|i: int| 0 <= i < n && i < p.segments.len() && is_wrapper(p.segments[i].ident)
}

/// The type that is the first argument of a segment.
pub open spec fn first_type_argument(s: PathSegmentView) -> Option<TypeExprView> {
    match s.arguments {
        PathArgumentsView::AngleBracketed { args } => if args.len() > 0 {
            match args[0] {
                GenericArgumentView::Type(t) => Some(t),
                _ => None,
            }
        } else {
            None
        },
        _ => None,
    }
}

/// The shape that is wrapped in the first `n` segments of `p`: that of the
/// last `impl` or `dyn` type that is the first argument of a wrapper or of a
/// segment behind one. A wrapped `impl` or `dyn` type without a shape is a
/// failure.
pub open spec fn wrapped_shape(p: TypePathView, n: nat) -> Result<Option<ReturningView>, ErrorKind>
    decreases n,
{
    if n == 0 || n > p.segments.len() {
        Ok(None)
    } else {
        match wrapped_shape(p, (n - 1) as nat) {
            Err(e) => Err(e),
            Ok(before) => if wrapper_seen(p, n as int) {
                match first_type_argument(p.segments[n - 1]) {
                    Some(TypeExprView::ImplTrait { bounds }) => match classify_bounds(bounds) {
                        Ok(r) => Ok(Some(r)),
                        Err(e) => Err(e),
                    },
                    Some(TypeExprView::TraitObject { bounds }) => match classify_bounds(bounds) {
                        Ok(r) => Ok(Some(r)),
                        Err(e) => Err(e),
                    },
                    _ => Ok(before),
                }
            } else {
                Ok(before)
            },
        }
    }
}

/// Whether one of the first `n` segments of `p` wraps the row that a trigger hands back.
pub open spec fn wraps_row_handle(p: TypePathView, n: nat) -> bool
    decreases n,
{
    if n == 0 || n > p.segments.len() {
        false
    } else {
        wraps_row_handle(p, (n - 1) as nat) || (wrapper_seen(p, n as int) && (first_type_argument(
            p.segments[n - 1],
        ) matches Some(TypeExprView::Path(q)) && is_row_handle(q)))
    }
}

/// The shape that a path declares.
pub open spec fn classify_path(p: TypePathView) -> Result<ReturningView, ErrorKind> {
    match wrapped_shape(p, p.segments.len()) {
        Err(e) => Err(e),
        Ok(inner) => if is_row_handle(p) || wraps_row_handle(p, p.segments.len()) {
            Ok(ReturningView::Trigger)
        } else {
            match inner {
                Some(r) => Ok(r),
                None => Ok(ReturningView::Type { ty: TypeExprView::Path(static_path(p)), sql: None }),
            }
        },
    }
}

/// The shape that a declared return type has.
///
/// No return type is nothing. The row of a trigger, alone or in `Option`
/// or `Box`, is `Trigger`. `impl Iterator<Item = T>` and `dyn Iterator<Item
/// = T>`, alone or in `Option` or `Box`, are a table where `T` is a tuple
/// and a set where it is a path. `composite_type!(..)` is a single row. A
/// tuple with elements is a table. Any other path, a reference and the
/// empty tuple are a single value, with the lifetimes at their top made
/// `'static` and those below anonymous. Everything else is refused.
pub open spec fn classify(value: ReturnTypeView) -> Result<ReturningView, ErrorKind> {
    match value {
        ReturnTypeView::Default => Ok(ReturningView::Void),
        ReturnTypeView::Type(ty) => match ty {
            TypeExprView::ImplTrait { bounds } => classify_bounds(bounds),
            TypeExprView::TraitObject { bounds } => classify_bounds(bounds),
            TypeExprView::Path(p) => classify_path(p),
            TypeExprView::Reference { lifetime, mutable, elem } => Ok(
                ReturningView::Type {
                    ty: TypeExprView::Reference {
                        lifetime: match lifetime {
                            Some(_) => Some("static"@),
                            None => None,
                        },
                        mutable,
                        elem: Box::new(anonymized(*elem)),
                    },
                    sql: None,
                },
            ),
            TypeExprView::Tuple { elems } => if elems.len() == 0 {
                Ok(ReturningView::Type { ty: TypeExprView::Tuple { elems: Seq::empty() }, sql: None })
            } else {
                classify_tuple(elems)
            },
            TypeExprView::Macro { path, tokens } => if last_segment(path) == Some("composite_type"@) {
                composite_shape(expr_tokens_of(tokens))
            } else {
                Err(ErrorKind::UnknownReturnShape)
            },
            TypeExprView::Verbatim { tokens } => Err(ErrorKind::UnknownReturnShape),
        },
    }
}

/// A segment without arguments.
pub fn make_segment(ident: &str) -> (r: PathSegment)
    ensures
        r@ == plain_segment(ident@),
{
    PathSegment { ident: String::from_str(ident), arguments: PathArguments::Empty }
}

/// Builds the type that stands for a row of a composite type.
pub fn make_row_handle() -> (r: TypePath)
    ensures
        r@ == row_handle(),
{
    let mut data_segments: Vec<PathSegment> = Vec::new();
    data_segments.push(make_segment("pgx"));
    data_segments.push(make_segment("pg_sys"));
    data_segments.push(make_segment("HeapTupleData"));
    let data = TypePath { leading_colon: true, segments: data_segments };
    assert(data@.segments =~= heap_tuple_data().segments);

    let data_type = TypeExpr::Path(data);
    assert(data_type@ == TypeExprView::Path(heap_tuple_data()));
    let data_arg = GenericArgument::Type(data_type);
    assert(data_arg@ == GenericArgumentView::Type(TypeExprView::Path(heap_tuple_data())));
    let mut allocated_args: Vec<GenericArgument> = Vec::new();
    allocated_args.push(data_arg);
    let allocated = PathSegment {
        ident: String::from_str("WhoAllocated"),
        arguments: PathArguments::AngleBracketed { args: allocated_args },
    };
    assert(allocated@.arguments->AngleBracketed_args =~= seq![
        GenericArgumentView::Type(TypeExprView::Path(heap_tuple_data())),
    ]);

    let mut bound_segments: Vec<PathSegment> = Vec::new();
    bound_segments.push(allocated);
    let bound = TypePath { leading_colon: false, segments: bound_segments };
    assert(bound@.segments =~= seq![allocated@]);

    let ghost bound_view = bound@;
    let who_bound = TypeParamBound::Trait(bound);
    assert(who_bound@ == TypeParamBoundView::Trait(bound_view));
    let mut bounds: Vec<TypeParamBound> = Vec::new();
    bounds.push(who_bound);
    let who = TypeExpr::ImplTrait { bounds };
    assert(who@->ImplTrait_bounds =~= seq![TypeParamBoundView::Trait(bound_view)]);
    let ghost who_view = who@;

    let lifetime_arg = GenericArgument::Lifetime(String::from_str("_"));
    assert(lifetime_arg@ == GenericArgumentView::Lifetime("_"@));
    let who_arg = GenericArgument::Type(who);
    assert(who_arg@ == GenericArgumentView::Type(who_view));
    let mut tuple_args: Vec<GenericArgument> = Vec::new();
    tuple_args.push(lifetime_arg);
    tuple_args.push(who_arg);
    let tuple = PathSegment {
        ident: String::from_str("PgHeapTuple"),
        arguments: PathArguments::AngleBracketed { args: tuple_args },
    };
    assert(tuple@.arguments->AngleBracketed_args =~= seq![
        GenericArgumentView::Lifetime("_"@),
        GenericArgumentView::Type(who_view),
    ]);

    let mut segments: Vec<PathSegment> = Vec::new();
    segments.push(make_segment("pgx"));
    segments.push(tuple);
    let r = TypePath { leading_colon: true, segments };
    assert(r@.segments =~= row_handle().segments);
    r
}

impl Returning {
    /// A single value of a composite type, from what the parser made of the
    /// tokens of `composite_type!(..)`.
    pub fn composite(expr: Option<String>) -> (r: Result<Returning, ErrorKind>)
        ensures
            match composite_shape(opt_view(expr)) {
                Ok(shape) => r matches Ok(got) && got@ == shape,
                Err(e) => r matches Err(k) && k == e,
            },
    {
        match expr {
            Some(sql) => Ok(Returning::Type { ty: TypeExpr::Path(make_row_handle()), sql: Some(sql) }),
            None => Err(ErrorKind::UnknownReturnShape),
        }
    }

    /// A set of values of a composite type.
    pub fn composite_set_of(expr: Option<String>) -> (r: Result<Returning, ErrorKind>)
        ensures
            match composite_set(opt_view(expr)) {
                Ok(shape) => r matches Ok(got) && got@ == shape,
                Err(e) => r matches Err(k) && k == e,
            },
    {
        match expr {
            Some(sql) => Ok(Returning::SetOf { ty: make_row_handle(), sql: Some(sql) }),
            None => Err(ErrorKind::UnknownReturnShape),
        }
    }

    /// A column of a composite type.
    pub fn composite_item(expr: Option<String>) -> (r: Result<ReturningIteratedItem, ErrorKind>)
        ensures
            match composite_column(opt_view(expr)) {
                Ok(item) => r matches Ok(got) && got@ == item,
                Err(e) => r matches Err(k) && k == e,
            },
    {
        match expr {
            Some(sql) => Ok(
                ReturningIteratedItem { ty: TypeExpr::Path(make_row_handle()), name: None, sql: Some(sql) },
            ),
            None => Err(ErrorKind::UnknownReturnShape),
        }
    }

    /// The column that an element of a tuple declares.
    pub fn parse_element(elem: &TypeExpr) -> (r: Result<ReturningIteratedItem, ErrorKind>)
        ensures
            match classify_element(elem@) {
                Ok(item) => r matches Ok(got) && got@ == item,
                Err(e) => r matches Err(k) && k == e,
            },
    {
        match elem {
            TypeExpr::Macro { path, tokens } => {
                if last_segment_is(path, "name") {
                    match NameMacro::parse(tokens.as_str()) {
                        Ok(named) => Ok(
                            ReturningIteratedItem { ty: named.ty, name: Some(named.ident), sql: named.sql },
                        ),
                        Err(e) => Err(e),
                    }
                } else if last_segment_is(path, "composite_type") {
                    Returning::composite_item(parse_expr(tokens.as_str()))
                } else {
                    Err(ErrorKind::UnknownReturnShape)
                }
            },
            other => Ok(ReturningIteratedItem { ty: anonymize(other), name: None, sql: None }),
        }
    }

    /// The table that a tuple declares.
    pub fn parse_type_tuple(elems: &Vec<TypeExpr>) -> (r: Result<Returning, ErrorKind>)
        ensures
            match classify_tuple(Seq::new(elems@.len(), |i: int| elems@[i]@)) {
                Ok(shape) => r matches Ok(got) && got@ == shape,
                Err(e) => r matches Err(k) && k == e,
            },
    {
        let ghost views = Seq::new(elems@.len(), |i: int| elems@[i]@);
        let ghost attempts = Seq::new(views.len(), |i: int| element_attempt(views[i]));
        let mut items: Vec<ReturningIteratedItem> = Vec::new();
        let mut i: usize = 0;
        while i < elems.len()
            invariant
                i <= elems.len(),
                views == Seq::new(elems@.len(), |i: int| elems@[i]@),
                attempts == Seq::new(views.len(), |i: int| element_attempt(views[i])),
                collect(attempts.take(i as int)) matches Ok(found) && found == Seq::new(
                    items@.len(),
                    |k: int| items@[k]@,
                ),
            decreases elems.len() - i,
        {
            proof {
                assert(attempts.take(i + 1).drop_last() == attempts.take(i as int));
                assert(attempts.take(i + 1).last() == element_attempt(elems@[i as int]@));
            }
            let ghost old_items = items@;
            match Returning::parse_element(&elems[i]) {
                Ok(item) => {
                    items.push(item);
                    proof {
                        assert(Seq::new(items@.len(), |k: int| items@[k]@) =~= Seq::new(
                            old_items.len(),
                            |k: int| old_items[k]@,
                        ).push(item@));
                    }
                },
                Err(e) => {
                    proof {
                        lemma_collect_fails(attempts, i + 1);
                    }
                    return Err(e);
                },
            }
            i = i + 1;
        }
        proof {
            assert(attempts.take(elems.len() as int) == attempts);
        }
        Ok(Returning::Iterated(items))
    }

    /// The shape that the item type of an iterator gives.
    pub fn parse_item(ty: &TypeExpr) -> (r: Result<Returning, ErrorKind>)
        ensures
            match classify_item(ty@) {
                Ok(shape) => r matches Ok(got) && got@ == shape,
                Err(e) => r matches Err(k) && k == e,
            },
    {
        match ty {
            TypeExpr::Tuple { elems } => {
                proof {
                    assert(ty@->Tuple_elems =~= Seq::new(elems@.len(), |i: int| elems@[i]@));
                }
                Returning::parse_type_tuple(elems)
            },
            TypeExpr::Path(p) => {
                proof {
                    lemma_anonymized_path(p@);
                }
                Ok(Returning::SetOf { ty: rewrite_path(p, "_"), sql: None })
            },
            TypeExpr::Reference { lifetime, mutable, elem } => match &**elem {
                TypeExpr::Path(p) => {
                    proof {
                        lemma_anonymized_path(p@);
                        assert((**elem)@ == TypeExprView::Path(p@));
                    }
                    Ok(Returning::SetOf { ty: rewrite_path(p, "_"), sql: None })
                },
                other => {
                    assert(!(other@ is Path));
                    Err(ErrorKind::UnknownReturnShape)
                },
            },
            TypeExpr::Macro { path, tokens } => {
                if last_segment_is(path, "composite_type") {
                    Returning::composite_set_of(parse_expr(tokens.as_str()))
                } else {
                    Err(ErrorKind::UnknownReturnShape)
                }
            },
            _ => Err(ErrorKind::UnknownReturnShape),
        }
    }

    /// The shape that a list of bounds declares, as `impl` and `dyn` types hold one.
    pub fn parse_trait_bound(bounds: &Vec<TypeParamBound>) -> (r: Result<Returning, ErrorKind>)
        ensures
            match classify_bounds(Seq::new(bounds@.len(), |i: int| bounds@[i]@)) {
                Ok(shape) => r matches Ok(got) && got@ == shape,
                Err(e) => r matches Err(k) && k == e,
            },
    {
        if bounds.len() == 0 {
            return Err(ErrorKind::UnknownReturnShape);
        }
        match &bounds[0] {
            TypeParamBound::Trait(p) => {
                if p.segments.len() == 0 {
                    return Err(ErrorKind::UnknownReturnShape);
                }
                let last = &p.segments[p.segments.len() - 1];
                assert(bounds@[0]@ == TypeParamBoundView::Trait(p@));
                assert(p@.segments.last() == last@);
                if !str_is(&last.ident, "Iterator") {
                    return Err(ErrorKind::UnknownReturnShape);
                }
                match &last.arguments {
                    PathArguments::AngleBracketed { args } => {
                        if args.len() == 0 {
                            return Err(ErrorKind::UnknownReturnShape);
                        }
                        assert(last@.arguments->AngleBracketed_args[0] == args[0]@);
                        match &args[0] {
                            GenericArgument::Binding { ident, ty } => {
                                assert(args[0]@ == GenericArgumentView::Binding { ident: ident@, ty: ty@ });
                                Returning::parse_item(ty)
                            },
                            other => {
                                assert(!(other@ is Binding));
                                Err(ErrorKind::UnknownReturnShape)
                            },
                        }
                    },
                    _ => Err(ErrorKind::UnknownReturnShape),
                }
            },
            TypeParamBound::Lifetime(_) => {
                assert(bounds@[0]@ is Lifetime);
                Err(ErrorKind::UnknownReturnShape)
            },
        }
    }

    /// The shape that `impl Bounds` declares.
    pub fn parse_impl_trait(bounds: &Vec<TypeParamBound>) -> (r: Result<Returning, ErrorKind>)
        ensures
            match classify_bounds(Seq::new(bounds@.len(), |i: int| bounds@[i]@)) {
                Ok(shape) => r matches Ok(got) && got@ == shape,
                Err(e) => r matches Err(k) && k == e,
            },
    {
        Returning::parse_trait_bound(bounds)
    }

    /// The shape that `dyn Bounds` declares.
    pub fn parse_dyn_trait(bounds: &Vec<TypeParamBound>) -> (r: Result<Returning, ErrorKind>)
        ensures
            match classify_bounds(Seq::new(bounds@.len(), |i: int| bounds@[i]@)) {
                Ok(shape) => r matches Ok(got) && got@ == shape,
                Err(e) => r matches Err(k) && k == e,
            },
    {
        Returning::parse_trait_bound(bounds)
    }

    /// The shape that a macro in the place of the return type declares.
    pub fn parse_type_macro(path: &Vec<String>, tokens: &String) -> (r: Result<Returning, ErrorKind>)
        ensures
            match (if last_segment(crate::text::views(path@)) == Some("composite_type"@) {
                composite_shape(expr_tokens_of(tokens@))
            } else {
                Err(ErrorKind::UnknownReturnShape)
            }) {
                Ok(shape) => r matches Ok(got) && got@ == shape,
                Err(e) => r matches Err(k) && k == e,
            },
    {
        if last_segment_is(path, "composite_type") {
            Returning::composite(parse_expr(tokens.as_str()))
        } else {
            Err(ErrorKind::UnknownReturnShape)
        }
    }
}

/// A failure in the first `n` segments is the failure of every longer run of segments.
pub proof fn lemma_wrapped_fails(p: TypePathView, n: nat, m: nat)
    requires
        n <= m <= p.segments.len(),
        wrapped_shape(p, n) is Err,
    ensures
        wrapped_shape(p, m) == wrapped_shape(p, n),
    decreases m - n,
{
    if n < m {
        lemma_wrapped_fails(p, n, (m - 1) as nat);
    }
}

/// Whether a segment of `p` is called `name`.
pub fn path_has_ident(p: &TypePath, name: &str) -> (b: bool)
    ensures
        b == has_ident(p@, name@),
{
    let mut i: usize = 0;
    while i < p.segments.len()
        invariant
            i <= p.segments.len(),
            forall|k: int| 0 <= k < i ==> p@.segments[k].ident != name@,
        decreases p.segments.len() - i,
    {
        assert(p@.segments[i as int] == p.segments[i as int]@);
        if str_is(&p.segments[i].ident, name) {
            return true;
        }
        i = i + 1;
    }
    false
}

/// Whether `p` names the row that a trigger hands back.
pub fn path_is_row_handle(p: &TypePath) -> (b: bool)
    ensures
        b == is_row_handle(p@),
{
    path_has_ident(p, "Datum") && (path_has_ident(p, "pg_sys") || p.segments.len() == 1)
}

impl Returning {
    /// The shape that a path declares.
    pub fn parse_path(p: &TypePath) -> (r: Result<Returning, ErrorKind>)
        ensures
            match classify_path(p@) {
                Ok(shape) => r matches Ok(got) && got@ == shape,
                Err(e) => r matches Err(k) && k == e,
            },
    {
        let mut saw_wrapper = false;
        let mut wraps = false;
        let mut inner: Option<Returning> = None;
        let mut i: usize = 0;
        while i < p.segments.len()
            invariant
                i <= p.segments.len(),
                saw_wrapper == wrapper_seen(p@, i as int),
                wraps == wraps_row_handle(p@, i as nat),
                wrapped_shape(p@, i as nat) matches Ok(shape) && shape == opt_returning_view(inner),
            decreases p.segments.len() - i,
        {
            let segment = &p.segments[i];
            assert(p@.segments[i as int] == segment@);
            if str_is(&segment.ident, "Option") || str_is(&segment.ident, "Box") {
                saw_wrapper = true;
            }
            proof {
                if wrapper_seen(p@, i + 1) {
                    let k = choose|k: int|
                        0 <= k < i + 1 && k < p@.segments.len() && is_wrapper(p@.segments[k].ident);
                    if k < i {
                        assert(wrapper_seen(p@, i as int));
                    }
                }
                if wrapper_seen(p@, i as int) {
                    let k = choose|k: int| 0 <= k < i && k < p@.segments.len() && is_wrapper(p@.segments[k].ident);
                    assert(0 <= k < i + 1 && is_wrapper(p@.segments[k].ident));
                }
                if is_wrapper(segment@.ident) {
                    assert(0 <= i < i + 1 && is_wrapper(p@.segments[i as int].ident));
                }
                assert(saw_wrapper == wrapper_seen(p@, i + 1));
            }
            if saw_wrapper {
                match &segment.arguments {
                    PathArguments::AngleBracketed { args } => {
                        if args.len() > 0 {
                            assert(segment@.arguments->AngleBracketed_args[0] == args[0]@);
                            match &args[0] {
                                GenericArgument::Type(TypeExpr::ImplTrait { bounds }) => {
                                    proof {
                                        let t = args[0]->Type_0;
                                        assert(args[0]@ == GenericArgumentView::Type(t@));
                                        assert(t@->ImplTrait_bounds =~= Seq::new(
                                            bounds@.len(),
                                            |k: int| bounds@[k]@,
                                        ));
                                    }
                                    match Returning::parse_impl_trait(bounds) {
                                        Ok(shape) => {
                                            inner = Some(shape);
                                        },
                                        Err(e) => {
                                            proof {
                                                lemma_wrapped_fails(p@, (i + 1) as nat, p@.segments.len());
                                            }
                                            return Err(e);
                                        },
                                    }
                                },
                                GenericArgument::Type(TypeExpr::TraitObject { bounds }) => {
                                    proof {
                                        let t = args[0]->Type_0;
                                        assert(args[0]@ == GenericArgumentView::Type(t@));
                                        assert(t@->TraitObject_bounds =~= Seq::new(
                                            bounds@.len(),
                                            |k: int| bounds@[k]@,
                                        ));
                                    }
                                    match Returning::parse_dyn_trait(bounds) {
                                        Ok(shape) => {
                                            inner = Some(shape);
                                        },
                                        Err(e) => {
                                            proof {
                                                lemma_wrapped_fails(p@, (i + 1) as nat, p@.segments.len());
                                            }
                                            return Err(e);
                                        },
                                    }
                                },
                                GenericArgument::Type(TypeExpr::Path(q)) => {
                                    proof {
                                        let t = args[0]->Type_0;
                                        assert(args[0]@ == GenericArgumentView::Type(t@));
                                        assert(t@ == TypeExprView::Path(q@));
                                    }
                                    if path_is_row_handle(q) {
                                        wraps = true;
                                    }
                                },
                                GenericArgument::Type(other) => {
                                    proof {
                                        assert(args[0]@ == GenericArgumentView::Type(other@));
                                        assert(!(other@ is Path) && !(other@ is ImplTrait) && !(other@ is TraitObject));
                                    }
                                },
                                other => {
                                    proof {
                                        assert(!(other@ is Type));
                                    }
                                },
                            }
                        }
                    },
                    _ => {},
                }
            }
            i = i + 1;
        }
        if path_is_row_handle(p) || wraps {
            Ok(Returning::Trigger)
        } else {
            match inner {
                Some(shape) => Ok(shape),
                None => Ok(Returning::Type { ty: TypeExpr::Path(rewrite_path(p, "static")), sql: None }),
            }
        }
    }

    /// Classifies a declared return type.
    pub fn try_from(value: &ReturnType) -> (r: Result<Returning, ErrorKind>)
        ensures
            match classify(value@) {
                Ok(shape) => r matches Ok(got) && got@ == shape,
                Err(e) => r matches Err(k) && k == e,
            },
    {
        match value {
            ReturnType::Default => Ok(Returning::Void),
            ReturnType::Type(ty) => match ty {
                TypeExpr::ImplTrait { bounds } => {
                    proof {
                        assert(ty@->ImplTrait_bounds =~= Seq::new(bounds@.len(), |k: int| bounds@[k]@));
                    }
                    Returning::parse_impl_trait(bounds)
                },
                TypeExpr::TraitObject { bounds } => {
                    proof {
                        assert(ty@->TraitObject_bounds =~= Seq::new(bounds@.len(), |k: int| bounds@[k]@));
                    }
                    Returning::parse_dyn_trait(bounds)
                },
                TypeExpr::Path(p) => Returning::parse_path(p),
                TypeExpr::Reference { lifetime, mutable, elem } => {
                    let l = match lifetime {
                        Some(_) => Some(String::from_str("static")),
                        None => None,
                    };
                    Ok(
                        Returning::Type {
                            ty: TypeExpr::Reference { lifetime: l, mutable: *mutable, elem: Box::new(anonymize(elem)) },
                            sql: None,
                        },
                    )
                },
                TypeExpr::Tuple { elems } => {
                    if elems.len() == 0 {
                        let unit = TypeExpr::Tuple { elems: Vec::new() };
                        assert(unit@->Tuple_elems =~= Seq::<TypeExprView>::empty());
                        Ok(Returning::Type { ty: unit, sql: None })
                    } else {
                        proof {
                            assert(ty@->Tuple_elems =~= Seq::new(elems@.len(), |k: int| elems@[k]@));
                        }
                        Returning::parse_type_tuple(elems)
                    }
                },
                TypeExpr::Macro { path, tokens } => Returning::parse_type_macro(path, tokens),
                TypeExpr::Verbatim { tokens } => Err(ErrorKind::UnknownReturnShape),
            },
        }
    }
}

/// A table has one column for each element of the tuple, in their order,
/// each as `classify_element` states: an element that is no macro is a
/// column without a name, and `name!(..)` a column with the declared name.
pub proof fn lemma_columns_follow_tuple(elems: Seq<TypeExprView>)
    requires
        classify_elements(elems) is Ok,
    ensures
        classify_elements(elems)->Ok_0.len() == elems.len(),
        forall|i: int|
            0 <= i < elems.len() ==> classify_element(elems[i]) == Ok::<ReturningIteratedItemView, ErrorKind>(
                #[trigger] classify_elements(elems)->Ok_0[i],
            ),
        forall|i: int|
            0 <= i < elems.len() && !(elems[i] is Macro) ==> (#[trigger] classify_elements(
                elems,
            )->Ok_0[i]).name is None,
        forall|i: int|
            0 <= i < elems.len() && elems[i] is Macro && last_segment(elems[i]->Macro_path) == Some(
                "name"@,
            ) ==> named_column(elems[i]->Macro_tokens) is Ok && (#[trigger] classify_elements(
                elems,
            )->Ok_0[i]).name == Some(named_column(elems[i]->Macro_tokens)->Ok_0.ident),
{
    let attempts = Seq::new(elems.len(), |i: int| element_attempt(elems[i]));
    if exists|i: int| 0 <= i < attempts.len() && !(#[trigger] attempts[i] matches Ok(Some(_))) {
        let i = choose|i: int| 0 <= i < attempts.len() && !(#[trigger] attempts[i] matches Ok(Some(_)));
        assert(attempts[i] == element_attempt(elems[i]));
        assert(attempts[i] is Err);
        assert(attempts.take(i + 1).drop_last() == attempts.take(i));
        assert(attempts.take(i + 1).last() == attempts[i]);
        assert(collect(attempts.take(i + 1)) is Err);
        lemma_collect_fails(attempts, i + 1);
    } else {
        lemma_collect_all(attempts);
        let items = classify_elements(elems)->Ok_0;
        assert forall|i: int| 0 <= i < elems.len() implies classify_element(elems[i]) == Ok::<
            ReturningIteratedItemView,
            ErrorKind,
        >(#[trigger] items[i]) by {
            assert(attempts[i] == element_attempt(elems[i]));
        }
    }
}

/// The shape of a tuple is a table exactly if each of its elements declares
/// a column, and then the table has the columns of `lemma_columns_follow_tuple`.
pub proof fn lemma_tuple_is_a_table(elems: Seq<TypeExprView>)
    ensures
        classify_tuple(elems) is Ok ==> classify_tuple(elems)->Ok_0 == ReturningView::Iterated(
            classify_elements(elems)->Ok_0,
        ),
        classify_tuple(elems) is Ok <==> classify_elements(elems) is Ok,
{
}

/// No run of segments of a path without a wrapper wraps anything.
pub proof fn lemma_nothing_wrapped(p: TypePathView, n: nat)
    requires
        n <= p.segments.len(),
        !wrapper_seen(p, p.segments.len() as int),
    ensures
        wrapped_shape(p, n) == Ok::<Option<ReturningView>, ErrorKind>(None),
        !wraps_row_handle(p, n),
    decreases n,
{
    if n > 0 {
        lemma_nothing_wrapped(p, (n - 1) as nat);
        if wrapper_seen(p, n as int) {
            let k = choose|k: int| 0 <= k < n && k < p.segments.len() && is_wrapper(p.segments[k].ident);
            assert(0 <= k < p.segments.len() && is_wrapper(p.segments[k].ident));
        }
    }
}

/// A path that names neither the row of a trigger nor a wrapper is a
/// single value of that path, with the lifetimes at its top made `'static`.
pub proof fn lemma_plain_path_is_a_single_value(p: TypePathView)
    requires
        !has_ident(p, "Datum"@),
        !wrapper_seen(p, p.segments.len() as int),
    ensures
        classify(ReturnTypeView::Type(TypeExprView::Path(p))) == Ok::<ReturningView, ErrorKind>(
            ReturningView::Type { ty: TypeExprView::Path(static_path(p)), sql: None },
        ),
{
    lemma_nothing_wrapped(p, p.segments.len());
}

/// `Option<T>`, where `T` is a path that does not name the row of a
/// trigger, is a single value as `T` is: whether the value may be absent
/// does not change the shape.
pub proof fn lemma_option_is_a_single_value(q: TypePathView)
    requires
        !has_ident(q, "Datum"@),
    ensures
        ({
            let p = TypePathView {
                leading_colon: false,
                segments: seq![
                    PathSegmentView {
                        ident: "Option"@,
                        arguments: PathArgumentsView::AngleBracketed {
                            args: seq![GenericArgumentView::Type(TypeExprView::Path(q))],
                        },
                    },
                ],
            };
            classify(ReturnTypeView::Type(TypeExprView::Path(p))) == Ok::<ReturningView, ErrorKind>(
                ReturningView::Type { ty: TypeExprView::Path(static_path(p)), sql: None },
            )
        }),
{
    let p = TypePathView {
        leading_colon: false,
        segments: seq![
            PathSegmentView {
                ident: "Option"@,
                arguments: PathArgumentsView::AngleBracketed {
                    args: seq![GenericArgumentView::Type(TypeExprView::Path(q))],
                },
            },
        ],
    };
    reveal_strlit("Option");
    reveal_strlit("Datum");
    assert("Option"@.len() != "Datum"@.len());
    assert(!has_ident(p, "Datum"@));
    assert(wrapped_shape(p, 0) == Ok::<Option<ReturningView>, ErrorKind>(None));
    assert(first_type_argument(p.segments[0]) == Some(TypeExprView::Path(q)));
    assert(wrapped_shape(p, 1) == Ok::<Option<ReturningView>, ErrorKind>(None));
    assert(!wraps_row_handle(p, 0));
    assert(!wraps_row_handle(p, 1));
}

} // verus!
