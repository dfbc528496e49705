//! A Rust type as a declaration writes it.
//!
//! The tree holds what classification reads of a type: paths with their
//! segments and generic arguments, trait bounds, tuples, references and macro
//! invocations. Everything else is carried as the text of its tokens.
//!
//! Contracts speak of the view of a tree, in which strings are sequences of
//! characters and vectors are sequences.

use vstd::prelude::*;
use vstd::string::*;
use crate::text::{join, join_strings, opt_view, views};

verus! {

/// A type.
#[derive(Debug)]
pub enum TypeExpr {
    /// A path, such as `std::option::Option<T>`.
    Path(TypePath),
    /// `impl Bound + Bound`.
    ImplTrait { bounds: Vec<TypeParamBound> },
    /// `dyn Bound + Bound`.
    TraitObject { bounds: Vec<TypeParamBound> },
    /// `(A, B)`.
    Tuple { elems: Vec<TypeExpr> },
    /// `&'a mut T`; the lifetime is held without its apostrophe.
    Reference { lifetime: Option<String>, mutable: bool, elem: Box<TypeExpr> },
    /// A macro in the place of a type: the segments of its path and the tokens between its brackets.
    Macro { path: Vec<String>, tokens: String },
    /// Any other type, as the text of its tokens.
    Verbatim { tokens: String },
}

/// A path with the generic arguments of its segments.
#[derive(Debug)]
pub struct TypePath {
    pub leading_colon: bool,
    pub segments: Vec<PathSegment>,
}

#[derive(Debug)]
pub struct PathSegment {
    pub ident: String,
    pub arguments: PathArguments,
}

#[derive(Debug)]
pub enum PathArguments {
    /// No arguments.
    Empty,
    /// `<'a, T, Item = U>`.
    AngleBracketed { args: Vec<GenericArgument> },
    /// `(A, B) -> C`, as the text of its tokens.
    Parenthesized { tokens: String },
}

#[derive(Debug)]
pub enum GenericArgument {
    /// A lifetime, without its apostrophe.
    Lifetime(String),
    Type(TypeExpr),
    /// `Item = T`.
    Binding { ident: String, ty: TypeExpr },
    /// A constraint or a constant, as the text of its tokens.
    Verbatim(String),
}

#[derive(Debug)]
pub enum TypeParamBound {
    Trait(TypePath),
    /// A lifetime, without its apostrophe.
    Lifetime(String),
}

/// The declared return type of a function.
#[derive(Debug)]
pub enum ReturnType {
    /// No return type is written.
    Default,
    /// `-> T`.
    Type(TypeExpr),
}

pub enum TypeExprView {
    Path(TypePathView),
    ImplTrait { bounds: Seq<TypeParamBoundView> },
    TraitObject { bounds: Seq<TypeParamBoundView> },
    Tuple { elems: Seq<TypeExprView> },
    Reference { lifetime: Option<Seq<char>>, mutable: bool, elem: Box<TypeExprView> },
    Macro { path: Seq<Seq<char>>, tokens: Seq<char> },
    Verbatim { tokens: Seq<char> },
}

pub struct TypePathView {
    pub leading_colon: bool,
    pub segments: Seq<PathSegmentView>,
}

pub struct PathSegmentView {
    pub ident: Seq<char>,
    pub arguments: PathArgumentsView,
}

pub enum PathArgumentsView {
    Empty,
    AngleBracketed { args: Seq<GenericArgumentView> },
    Parenthesized { tokens: Seq<char> },
}

pub enum GenericArgumentView {
    Lifetime(Seq<char>),
    Type(TypeExprView),
    Binding { ident: Seq<char>, ty: TypeExprView },
    Verbatim(Seq<char>),
}

pub enum TypeParamBoundView {
    Trait(TypePathView),
    Lifetime(Seq<char>),
}

pub enum ReturnTypeView {
    Default,
    Type(TypeExprView),
}

pub open spec fn type_view(t: TypeExpr) -> TypeExprView
    decreases t,
{
    match t {
        TypeExpr::Path(p) => TypeExprView::Path(path_view(p)),
        TypeExpr::ImplTrait { bounds } => TypeExprView::ImplTrait {
            bounds: Seq::new(
                bounds@.len(),
                |i: int|
                    if 0 <= i < bounds@.len() {
                        bound_view(bounds@[i])
                    } else {
                        arbitrary()
                    },
            ),
        },
        TypeExpr::TraitObject { bounds } => TypeExprView::TraitObject {
            bounds: Seq::new(
                bounds@.len(),
                |i: int|
                    if 0 <= i < bounds@.len() {
                        bound_view(bounds@[i])
                    } else {
                        arbitrary()
                    },
            ),
        },
        TypeExpr::Tuple { elems } => TypeExprView::Tuple {
            elems: Seq::new(
                elems@.len(),
                |i: int|
                    if 0 <= i < elems@.len() {
                        type_view(elems@[i])
                    } else {
                        arbitrary()
                    },
            ),
        },
        TypeExpr::Reference { lifetime, mutable, elem } => TypeExprView::Reference {
            lifetime: opt_view(lifetime),
            mutable,
            elem: Box::new(type_view(*elem)),
        },
        TypeExpr::Macro { path, tokens } => TypeExprView::Macro { path: views(path@), tokens: tokens@ },
        TypeExpr::Verbatim { tokens } => TypeExprView::Verbatim { tokens: tokens@ },
    }
}

pub open spec fn path_view(p: TypePath) -> TypePathView
    decreases p,
{
    TypePathView {
        leading_colon: p.leading_colon,
        segments: Seq::new(
            p.segments@.len(),
            |i: int|
                if 0 <= i < p.segments@.len() {
                    segment_view(p.segments@[i])
                } else {
                    arbitrary()
                },
        ),
    }
}

pub open spec fn segment_view(s: PathSegment) -> PathSegmentView
    decreases s,
{
    PathSegmentView {
        ident: s.ident@,
        arguments: match s.arguments {
            PathArguments::Empty => PathArgumentsView::Empty,
            PathArguments::AngleBracketed { args } => PathArgumentsView::AngleBracketed {
                args: Seq::new(
                    args@.len(),
                    |i: int|
                        if 0 <= i < args@.len() {
                            argument_view(args@[i])
                        } else {
                            arbitrary()
                        },
                ),
            },
            PathArguments::Parenthesized { tokens } => PathArgumentsView::Parenthesized { tokens: tokens@ },
        },
    }
}

pub open spec fn argument_view(a: GenericArgument) -> GenericArgumentView
    decreases a,
{
    match a {
        GenericArgument::Lifetime(l) => GenericArgumentView::Lifetime(l@),
        GenericArgument::Type(t) => GenericArgumentView::Type(type_view(t)),
        GenericArgument::Binding { ident, ty } => GenericArgumentView::Binding { ident: ident@, ty: type_view(ty) },
        GenericArgument::Verbatim(tokens) => GenericArgumentView::Verbatim(tokens@),
    }
}

pub open spec fn bound_view(b: TypeParamBound) -> TypeParamBoundView
    decreases b,
{
    match b {
        TypeParamBound::Trait(p) => TypeParamBoundView::Trait(path_view(p)),
        TypeParamBound::Lifetime(l) => TypeParamBoundView::Lifetime(l@),
    }
}

impl View for TypeExpr {
    type V = TypeExprView;

    open spec fn view(&self) -> TypeExprView {
        type_view(*self)
    }
}

impl View for TypePath {
    type V = TypePathView;

    open spec fn view(&self) -> TypePathView {
        path_view(*self)
    }
}

impl View for PathSegment {
    type V = PathSegmentView;

    open spec fn view(&self) -> PathSegmentView {
        segment_view(*self)
    }
}

impl View for GenericArgument {
    type V = GenericArgumentView;

    open spec fn view(&self) -> GenericArgumentView {
        argument_view(*self)
    }
}

impl View for TypeParamBound {
    type V = TypeParamBoundView;

    open spec fn view(&self) -> TypeParamBoundView {
        bound_view(*self)
    }
}

impl View for ReturnType {
    type V = ReturnTypeView;

    open spec fn view(&self) -> ReturnTypeView {
        match *self {
            ReturnType::Default => ReturnTypeView::Default,
            ReturnType::Type(t) => ReturnTypeView::Type(type_view(t)),
        }
    }
}

/// The tokens of a type, with one space between each two.
pub open spec fn type_tokens(t: TypeExprView) -> Seq<char>
    decreases t,
{
    match t {
        TypeExprView::Path(p) => path_tokens(p),
        TypeExprView::ImplTrait { bounds } => "impl "@ + join(bounds_tokens(bounds), " + "@),
        TypeExprView::TraitObject { bounds } => "dyn "@ + join(bounds_tokens(bounds), " + "@),
        TypeExprView::Tuple { elems } => "( "@ + join(elems_tokens(elems), " "@) + " )"@,
        TypeExprView::Reference { lifetime, mutable, elem } => "& "@ + (match lifetime {
            Some(l) => "'"@ + l + " "@,
            None => Seq::empty(),
        }) + (if mutable {
            "mut "@
        } else {
            Seq::empty()
        }) + type_tokens(*elem),
        TypeExprView::Macro { path, tokens } => join(path, " :: "@) + " ! ( "@ + tokens + " )"@,
        TypeExprView::Verbatim { tokens } => tokens,
    }
}

/// The tokens of a path.
pub open spec fn path_tokens(p: TypePathView) -> Seq<char>
    decreases p,
{
    (if p.leading_colon {
        ":: "@
    } else {
        Seq::empty()
    }) + join(segments_tokens(p.segments), " :: "@)
}

/// The tokens of each of `bounds`.
pub open spec fn bounds_tokens(bounds: Seq<TypeParamBoundView>) -> Seq<Seq<char>>
    decreases bounds,
{
    Seq::new(
        bounds.len(),
        |i: int|
            if 0 <= i < bounds.len() {
                bound_tokens(bounds[i])
            } else {
                arbitrary()
            },
    )
}

/// The tokens of each of the elements of a tuple, with the comma behind it.
pub open spec fn elems_tokens(elems: Seq<TypeExprView>) -> Seq<Seq<char>>
    decreases elems,
{
    Seq::new(
        elems.len(),
        |i: int|
            if 0 <= i < elems.len() {
                type_tokens(elems[i]) + " ,"@
            } else {
                arbitrary()
            },
    )
}

/// The tokens of each of `segments`.
pub open spec fn segments_tokens(segments: Seq<PathSegmentView>) -> Seq<Seq<char>>
    decreases segments,
{
    Seq::new(
        segments.len(),
        |i: int|
            if 0 <= i < segments.len() {
                segment_tokens(segments[i])
            } else {
                arbitrary()
            },
    )
}

/// The tokens of each of `args`.
pub open spec fn arguments_tokens(args: Seq<GenericArgumentView>) -> Seq<Seq<char>>
    decreases args,
{
    Seq::new(
        args.len(),
        |i: int|
            if 0 <= i < args.len() {
                argument_tokens(args[i])
            } else {
                arbitrary()
            },
    )
}

/// The tokens of a segment of a path.
pub open spec fn segment_tokens(s: PathSegmentView) -> Seq<char>
    decreases s,
{
    s.ident + match s.arguments {
        PathArgumentsView::Empty => Seq::empty(),
        PathArgumentsView::AngleBracketed { args } => " < "@ + join(arguments_tokens(args), " , "@) + " >"@,
        PathArgumentsView::Parenthesized { tokens } => " "@ + tokens,
    }
}

/// The tokens of a generic argument.
pub open spec fn argument_tokens(a: GenericArgumentView) -> Seq<char>
    decreases a,
{
    match a {
        GenericArgumentView::Lifetime(l) => "'"@ + l,
        GenericArgumentView::Type(t) => type_tokens(t),
        GenericArgumentView::Binding { ident, ty } => ident + " = "@ + type_tokens(ty),
        GenericArgumentView::Verbatim(tokens) => tokens,
    }
}

/// The tokens of a bound.
pub open spec fn bound_tokens(b: TypeParamBoundView) -> Seq<char>
    decreases b,
{
    match b {
        TypeParamBoundView::Trait(p) => path_tokens(p),
        TypeParamBoundView::Lifetime(l) => "'"@ + l,
    }
}

/// `t` with every lifetime in it made anonymous. Tokens that are carried as
/// text are left as they are.
pub open spec fn anonymized(t: TypeExprView) -> TypeExprView
    decreases t,
{
    match t {
        TypeExprView::Path(p) => TypeExprView::Path(anonymized_path(p)),
        TypeExprView::ImplTrait { bounds } => TypeExprView::ImplTrait {
            bounds: Seq::new(
                bounds.len(),
                |i: int|
                    if 0 <= i < bounds.len() {
                        anonymized_bound(bounds[i])
                    } else {
                        arbitrary()
                    },
            ),
        },
        TypeExprView::TraitObject { bounds } => TypeExprView::TraitObject {
            bounds: Seq::new(
                bounds.len(),
                |i: int|
                    if 0 <= i < bounds.len() {
                        anonymized_bound(bounds[i])
                    } else {
                        arbitrary()
                    },
            ),
        },
        TypeExprView::Tuple { elems } => TypeExprView::Tuple {
            elems: Seq::new(
                elems.len(),
                |i: int|
                    if 0 <= i < elems.len() {
                        anonymized(elems[i])
                    } else {
                        arbitrary()
                    },
            ),
        },
        TypeExprView::Reference { lifetime, mutable, elem } => TypeExprView::Reference {
            lifetime: match lifetime {
                Some(_) => Some("_"@),
                None => None,
            },
            mutable,
            elem: Box::new(anonymized(*elem)),
        },
        TypeExprView::Macro { path, tokens } => t,
        TypeExprView::Verbatim { tokens } => t,
    }
}

/// `p` with every lifetime in it made anonymous.
pub open spec fn anonymized_path(p: TypePathView) -> TypePathView
    decreases p,
{
    TypePathView {
        leading_colon: p.leading_colon,
        segments: Seq::new(
            p.segments.len(),
            |i: int|
                if 0 <= i < p.segments.len() {
                    anonymized_segment(p.segments[i], "_"@)
                } else {
                    arbitrary()
                },
        ),
    }
}

/// `s` with the lifetimes among its arguments named `top`, and every
/// lifetime below them made anonymous.
pub open spec fn anonymized_segment(s: PathSegmentView, top: Seq<char>) -> PathSegmentView
    decreases s,
{
    PathSegmentView {
        ident: s.ident,
        arguments: match s.arguments {
            PathArgumentsView::AngleBracketed { args } => PathArgumentsView::AngleBracketed {
                args: Seq::new(
                    args.len(),
                    |i: int|
                        if 0 <= i < args.len() {
                            anonymized_argument(args[i], top)
                        } else {
                            arbitrary()
                        },
                ),
            },
            other => other,
        },
    }
}

/// `a` with every lifetime in it made anonymous, but `top` where `a` is a lifetime itself.
pub open spec fn anonymized_argument(a: GenericArgumentView, top: Seq<char>) -> GenericArgumentView
    decreases a,
{
    match a {
        GenericArgumentView::Lifetime(_) => GenericArgumentView::Lifetime(top),
        GenericArgumentView::Type(t) => GenericArgumentView::Type(anonymized(t)),
        GenericArgumentView::Binding { ident, ty } => GenericArgumentView::Binding { ident, ty: anonymized(ty) },
        GenericArgumentView::Verbatim(tokens) => a,
    }
}

/// `b` with every lifetime in it made anonymous.
pub open spec fn anonymized_bound(b: TypeParamBoundView) -> TypeParamBoundView
    decreases b,
{
    match b {
        TypeParamBoundView::Trait(p) => TypeParamBoundView::Trait(anonymized_path(p)),
        TypeParamBoundView::Lifetime(_) => TypeParamBoundView::Lifetime("_"@),
    }
}

/// `p` with the lifetimes among the arguments of its segments named `top`,
/// and every lifetime below them made anonymous.
pub open spec fn path_with_lifetimes(p: TypePathView, top: Seq<char>) -> TypePathView {
    TypePathView {
        leading_colon: p.leading_colon,
        segments: Seq::new(p.segments.len(), |i: int| anonymized_segment(p.segments[i], top)),
    }
}

/// `p` as a returned type keeps it: the lifetimes among the arguments of its
/// segments are `'static`, every lifetime below them is anonymous.
pub open spec fn static_path(p: TypePathView) -> TypePathView {
    path_with_lifetimes(p, "static"@)
}

/// Making the lifetimes of a path anonymous is naming those at the top `_`.
pub proof fn lemma_anonymized_path(p: TypePathView)
    ensures
        anonymized_path(p) == path_with_lifetimes(p, "_"@),
{
    assert(anonymized_path(p).segments =~= path_with_lifetimes(p, "_"@).segments);
}

/// Copies `t`, making every lifetime in it anonymous.
#[verifier::loop_isolation(false)]
pub fn anonymize(t: &TypeExpr) -> (r: TypeExpr)
    ensures
        r@ == anonymized(t@),
    decreases t,
{
    match t {
        TypeExpr::Path(p) => {
            let q = rewrite_path(p, "_");
            proof {
                lemma_anonymized_path(p@);
            }
            TypeExpr::Path(q)
        },
        TypeExpr::ImplTrait { bounds } => {
            let out = anonymize_bounds(bounds);
            let r = TypeExpr::ImplTrait { bounds: out };
            assert(r@->ImplTrait_bounds =~= anonymized(t@)->ImplTrait_bounds);
            r
        },
        TypeExpr::TraitObject { bounds } => {
            let out = anonymize_bounds(bounds);
            let r = TypeExpr::TraitObject { bounds: out };
            assert(r@->TraitObject_bounds =~= anonymized(t@)->TraitObject_bounds);
            r
        },
        TypeExpr::Tuple { elems } => {
            let out = anonymize_all(elems);
            let r = TypeExpr::Tuple { elems: out };
            assert(r@->Tuple_elems =~= anonymized(t@)->Tuple_elems);
            r
        },
        TypeExpr::Reference { lifetime, mutable, elem } => {
            let l = match lifetime {
                Some(_) => Some(String::from_str("_")),
                None => None,
            };
            TypeExpr::Reference { lifetime: l, mutable: *mutable, elem: Box::new(anonymize(elem)) }
        },
        TypeExpr::Macro { path, tokens } => {
            let copy = copy_strings(path);
            TypeExpr::Macro { path: copy, tokens: tokens.clone() }
        },
        TypeExpr::Verbatim { tokens } => TypeExpr::Verbatim { tokens: tokens.clone() },
    }
}

/// Copies a list of strings.
pub fn copy_strings(items: &Vec<String>) -> (out: Vec<String>)
    ensures
        views(out@) == views(items@),
{
    let mut out: Vec<String> = Vec::new();
    let mut i: usize = 0;
    while i < items.len()
        invariant
            i <= items.len(),
            out.len() == i,
            forall|k: int| 0 <= k < i ==> out[k]@ == items[k]@,
        decreases items.len() - i,
    {
        out.push(items[i].clone());
        i = i + 1;
    }
    assert(views(out@) =~= views(items@));
    out
}

/// Copies `elems`, making every lifetime in them anonymous.
#[verifier::loop_isolation(false)]
pub fn anonymize_all(elems: &Vec<TypeExpr>) -> (out: Vec<TypeExpr>)
    ensures
        out.len() == elems.len(),
        forall|k: int| 0 <= k < elems.len() ==> (#[trigger] out[k])@ == anonymized(elems[k]@),
    decreases elems,
{
    let mut out: Vec<TypeExpr> = Vec::new();
    let mut i: usize = 0;
    while i < elems.len()
        invariant
            i <= elems.len(),
            out.len() == i,
            forall|k: int| 0 <= k < i ==> (#[trigger] out[k])@ == anonymized(elems[k]@),
        decreases elems.len() - i,
    {
        proof {
            vstd::std_specs::vec::axiom_vec_index_decreases(*elems, i as int);
        }
        out.push(anonymize(&elems[i]));
        i = i + 1;
    }
    out
}

/// Copies `bounds`, making every lifetime in them anonymous.
#[verifier::loop_isolation(false)]
pub fn anonymize_bounds(bounds: &Vec<TypeParamBound>) -> (out: Vec<TypeParamBound>)
    ensures
        out.len() == bounds.len(),
        forall|k: int| 0 <= k < bounds.len() ==> (#[trigger] out[k])@ == anonymized_bound(bounds[k]@),
    decreases bounds,
{
    let mut out: Vec<TypeParamBound> = Vec::new();
    let mut i: usize = 0;
    while i < bounds.len()
        invariant
            i <= bounds.len(),
            out.len() == i,
            forall|k: int| 0 <= k < i ==> (#[trigger] out[k])@ == anonymized_bound(bounds[k]@),
        decreases bounds.len() - i,
    {
        proof {
            vstd::std_specs::vec::axiom_vec_index_decreases(*bounds, i as int);
        }
        let b = match &bounds[i] {
            TypeParamBound::Trait(p) => {
                let q = rewrite_path(p, "_");
                proof {
                    lemma_anonymized_path(p@);
                }
                TypeParamBound::Trait(q)
            },
            TypeParamBound::Lifetime(_) => TypeParamBound::Lifetime(String::from_str("_")),
        };
        out.push(b);
        i = i + 1;
    }
    out
}

/// Copies `p`, naming the lifetimes among the arguments of its segments
/// `top` and making every lifetime below them anonymous.
#[verifier::loop_isolation(false)]
pub fn rewrite_path(p: &TypePath, top: &str) -> (r: TypePath)
    ensures
        r@ == path_with_lifetimes(p@, top@),
    decreases p,
{
    let mut out: Vec<PathSegment> = Vec::new();
    let mut i: usize = 0;
    while i < p.segments.len()
        invariant
            i <= p.segments.len(),
            out.len() == i,
            forall|k: int| 0 <= k < i ==> (#[trigger] out[k])@ == anonymized_segment(p.segments[k]@, top@),
        decreases p.segments.len() - i,
    {
        proof {
            vstd::std_specs::vec::axiom_vec_index_decreases(p.segments, i as int);
        }
        out.push(rewrite_segment(&p.segments[i], top));
        i = i + 1;
    }
    let r = TypePath { leading_colon: p.leading_colon, segments: out };
    assert(r@.segments =~= path_with_lifetimes(p@, top@).segments);
    r
}

/// Copies `s`, naming the lifetimes among its arguments `top` and making
/// every lifetime below them anonymous.
#[verifier::loop_isolation(false)]
pub fn rewrite_segment(s: &PathSegment, top: &str) -> (r: PathSegment)
    ensures
        r@ == anonymized_segment(s@, top@),
    decreases s,
{
    let arguments = match &s.arguments {
        PathArguments::Empty => PathArguments::Empty,
        PathArguments::AngleBracketed { args } => {
            let mut out: Vec<GenericArgument> = Vec::new();
            let mut i: usize = 0;
            while i < args.len()
                invariant
                    i <= args.len(),
                    out.len() == i,
                    forall|k: int| 0 <= k < i ==> (#[trigger] out[k])@ == anonymized_argument(args[k]@, top@),
                decreases args.len() - i,
            {
                proof {
                    vstd::std_specs::vec::axiom_vec_index_decreases(*args, i as int);
                }
                let a = match &args[i] {
                    GenericArgument::Lifetime(_) => GenericArgument::Lifetime(String::from_str(top)),
                    GenericArgument::Type(t) => GenericArgument::Type(anonymize(t)),
                    GenericArgument::Binding { ident, ty } => GenericArgument::Binding {
                        ident: ident.clone(),
                        ty: anonymize(ty),
                    },
                    GenericArgument::Verbatim(tokens) => GenericArgument::Verbatim(tokens.clone()),
                };
                out.push(a);
                i = i + 1;
            }
            let r = PathArguments::AngleBracketed { args: out };
            assert(segment_view(PathSegment { ident: s.ident, arguments: r }).arguments->AngleBracketed_args
                =~= anonymized_segment(s@, top@).arguments->AngleBracketed_args);
            r
        },
        PathArguments::Parenthesized { tokens } => PathArguments::Parenthesized { tokens: tokens.clone() },
    };
    PathSegment { ident: s.ident.clone(), arguments }
}

/// Copies `t`.
#[verifier::loop_isolation(false)]
pub fn copy_type(t: &TypeExpr) -> (r: TypeExpr)
    ensures
        r@ == t@,
    decreases t,
{
    match t {
        TypeExpr::Path(p) => TypeExpr::Path(copy_path(p)),
        TypeExpr::ImplTrait { bounds } => {
            let out = copy_bounds(bounds);
            let r = TypeExpr::ImplTrait { bounds: out };
            assert(r@->ImplTrait_bounds =~= t@->ImplTrait_bounds);
            r
        },
        TypeExpr::TraitObject { bounds } => {
            let out = copy_bounds(bounds);
            let r = TypeExpr::TraitObject { bounds: out };
            assert(r@->TraitObject_bounds =~= t@->TraitObject_bounds);
            r
        },
        TypeExpr::Tuple { elems } => {
            let mut out: Vec<TypeExpr> = Vec::new();
            let mut i: usize = 0;
            while i < elems.len()
                invariant
                    i <= elems.len(),
                    out.len() == i,
                    forall|k: int| 0 <= k < i ==> (#[trigger] out[k])@ == elems[k]@,
                decreases elems.len() - i,
            {
                proof {
                    vstd::std_specs::vec::axiom_vec_index_decreases(*elems, i as int);
                }
                out.push(copy_type(&elems[i]));
                i = i + 1;
            }
            let r = TypeExpr::Tuple { elems: out };
            assert(r@->Tuple_elems =~= t@->Tuple_elems);
            r
        },
        TypeExpr::Reference { lifetime, mutable, elem } => TypeExpr::Reference {
            lifetime: copy_option(lifetime),
            mutable: *mutable,
            elem: Box::new(copy_type(elem)),
        },
        TypeExpr::Macro { path, tokens } => TypeExpr::Macro { path: copy_strings(path), tokens: tokens.clone() },
        TypeExpr::Verbatim { tokens } => TypeExpr::Verbatim { tokens: tokens.clone() },
    }
}

/// Copies an optional string.
pub fn copy_option(s: &Option<String>) -> (r: Option<String>)
    ensures
        opt_view(r) == opt_view(*s),
{
    match s {
        Some(s) => Some(s.clone()),
        None => None,
    }
}

/// Copies `bounds`.
#[verifier::loop_isolation(false)]
pub fn copy_bounds(bounds: &Vec<TypeParamBound>) -> (out: Vec<TypeParamBound>)
    ensures
        out.len() == bounds.len(),
        forall|k: int| 0 <= k < bounds.len() ==> (#[trigger] out[k])@ == bounds[k]@,
    decreases bounds,
{
    let mut out: Vec<TypeParamBound> = Vec::new();
    let mut i: usize = 0;
    while i < bounds.len()
        invariant
            i <= bounds.len(),
            out.len() == i,
            forall|k: int| 0 <= k < i ==> (#[trigger] out[k])@ == bounds[k]@,
        decreases bounds.len() - i,
    {
        proof {
            vstd::std_specs::vec::axiom_vec_index_decreases(*bounds, i as int);
        }
        let b = match &bounds[i] {
            TypeParamBound::Trait(p) => TypeParamBound::Trait(copy_path(p)),
            TypeParamBound::Lifetime(l) => TypeParamBound::Lifetime(l.clone()),
        };
        out.push(b);
        i = i + 1;
    }
    out
}

/// Copies `p`.
#[verifier::loop_isolation(false)]
pub fn copy_path(p: &TypePath) -> (r: TypePath)
    ensures
        r@ == p@,
    decreases p,
{
    let mut out: Vec<PathSegment> = Vec::new();
    let mut i: usize = 0;
    while i < p.segments.len()
        invariant
            i <= p.segments.len(),
            out.len() == i,
            forall|k: int| 0 <= k < i ==> (#[trigger] out[k])@ == p.segments[k]@,
        decreases p.segments.len() - i,
    {
        proof {
            vstd::std_specs::vec::axiom_vec_index_decreases(p.segments, i as int);
        }
        out.push(copy_segment(&p.segments[i]));
        i = i + 1;
    }
    let r = TypePath { leading_colon: p.leading_colon, segments: out };
    assert(r@.segments =~= p@.segments);
    r
}

/// Copies `s`.
#[verifier::loop_isolation(false)]
pub fn copy_segment(s: &PathSegment) -> (r: PathSegment)
    ensures
        r@ == s@,
    decreases s,
{
    let arguments = match &s.arguments {
        PathArguments::Empty => PathArguments::Empty,
        PathArguments::AngleBracketed { args } => {
            let mut out: Vec<GenericArgument> = Vec::new();
            let mut i: usize = 0;
            while i < args.len()
                invariant
                    i <= args.len(),
                    out.len() == i,
                    forall|k: int| 0 <= k < i ==> (#[trigger] out[k])@ == args[k]@,
                decreases args.len() - i,
            {
                proof {
                    vstd::std_specs::vec::axiom_vec_index_decreases(*args, i as int);
                }
                let a = match &args[i] {
                    GenericArgument::Lifetime(l) => GenericArgument::Lifetime(l.clone()),
                    GenericArgument::Type(t) => GenericArgument::Type(copy_type(t)),
                    GenericArgument::Binding { ident, ty } => GenericArgument::Binding {
                        ident: ident.clone(),
                        ty: copy_type(ty),
                    },
                    GenericArgument::Verbatim(tokens) => GenericArgument::Verbatim(tokens.clone()),
                };
                out.push(a);
                i = i + 1;
            }
            let r = PathArguments::AngleBracketed { args: out };
            assert(segment_view(PathSegment { ident: s.ident, arguments: r }).arguments->AngleBracketed_args
                =~= s@.arguments->AngleBracketed_args);
            r
        },
        PathArguments::Parenthesized { tokens } => PathArguments::Parenthesized { tokens: tokens.clone() },
    };
    PathSegment { ident: s.ident.clone(), arguments }
}

impl Clone for TypeExpr {
    fn clone(&self) -> (r: Self)
        ensures
            r@ == self@,
    {
        copy_type(self)
    }
}

impl Clone for TypePath {
    fn clone(&self) -> (r: Self)
        ensures
            r@ == self@,
    {
        copy_path(self)
    }
}

impl Clone for PathSegment {
    fn clone(&self) -> (r: Self)
        ensures
            r@ == self@,
    {
        copy_segment(self)
    }
}

impl Clone for ReturnType {
    fn clone(&self) -> (r: Self)
        ensures
            r@ == self@,
    {
        match self {
            ReturnType::Default => ReturnType::Default,
            ReturnType::Type(t) => ReturnType::Type(copy_type(t)),
        }
    }
}

/// Writes the tokens of `t`.
#[verifier::loop_isolation(false)]
pub fn type_to_tokens(t: &TypeExpr) -> (out: String)
    ensures
        out@ == type_tokens(t@),
    decreases t,
{
    match t {
        TypeExpr::Path(p) => path_to_tokens(p),
        TypeExpr::ImplTrait { bounds } => {
            let parts = bounds_to_tokens(bounds);
            assert(views(parts@) =~= bounds_tokens(t@->ImplTrait_bounds));
            let mut out = String::from_str("impl ");
            let list = join_strings(&parts, " + ");
            out.append(list.as_str());
            out
        },
        TypeExpr::TraitObject { bounds } => {
            let parts = bounds_to_tokens(bounds);
            assert(views(parts@) =~= bounds_tokens(t@->TraitObject_bounds));
            let mut out = String::from_str("dyn ");
            let list = join_strings(&parts, " + ");
            out.append(list.as_str());
            out
        },
        TypeExpr::Tuple { elems } => {
            let mut parts: Vec<String> = Vec::new();
            let mut i: usize = 0;
            while i < elems.len()
                invariant
                    i <= elems.len(),
                    parts.len() == i,
                    forall|k: int| 0 <= k < i ==> (#[trigger] parts[k])@ == type_tokens(elems[k]@) + " ,"@,
                decreases elems.len() - i,
            {
                proof {
                    vstd::std_specs::vec::axiom_vec_index_decreases(*elems, i as int);
                }
                let mut part = type_to_tokens(&elems[i]);
                part.append(" ,");
                parts.push(part);
                i = i + 1;
            }
            assert(views(parts@) =~= elems_tokens(t@->Tuple_elems));
            let mut out = String::from_str("( ");
            let list = join_strings(&parts, " ");
            out.append(list.as_str());
            out.append(" )");
            out
        },
        TypeExpr::Reference { lifetime, mutable, elem } => {
            let mut out = String::from_str("& ");
            match lifetime {
                Some(l) => {
                    let mut name = String::from_str("'");
                    name.append(l.as_str());
                    name.append(" ");
                    out.append(name.as_str());
                },
                None => {},
            }
            if *mutable {
                out.append("mut ");
            }
            let inner = type_to_tokens(elem);
            out.append(inner.as_str());
            assert(out@ =~= type_tokens(t@));
            out
        },
        TypeExpr::Macro { path, tokens } => {
            let mut out = join_strings(path, " :: ");
            out.append(" ! ( ");
            out.append(tokens.as_str());
            out.append(" )");
            out
        },
        TypeExpr::Verbatim { tokens } => tokens.clone(),
    }
}

/// Writes the tokens of each of `bounds`.
#[verifier::loop_isolation(false)]
pub fn bounds_to_tokens(bounds: &Vec<TypeParamBound>) -> (parts: Vec<String>)
    ensures
        parts.len() == bounds.len(),
        forall|k: int| 0 <= k < bounds.len() ==> (#[trigger] parts[k])@ == bound_tokens(bounds[k]@),
    decreases bounds,
{
    let mut parts: Vec<String> = Vec::new();
    let mut i: usize = 0;
    while i < bounds.len()
        invariant
            i <= bounds.len(),
            parts.len() == i,
            forall|k: int| 0 <= k < i ==> (#[trigger] parts[k])@ == bound_tokens(bounds[k]@),
        decreases bounds.len() - i,
    {
        proof {
            vstd::std_specs::vec::axiom_vec_index_decreases(*bounds, i as int);
        }
        let part = match &bounds[i] {
            TypeParamBound::Trait(p) => path_to_tokens(p),
            TypeParamBound::Lifetime(l) => {
                let mut name = String::from_str("'");
                name.append(l.as_str());
                name
            },
        };
        parts.push(part);
        i = i + 1;
    }
    parts
}

/// Writes the tokens of `p`.
#[verifier::loop_isolation(false)]
pub fn path_to_tokens(p: &TypePath) -> (out: String)
    ensures
        out@ == path_tokens(p@),
    decreases p,
{
    let mut parts: Vec<String> = Vec::new();
    let mut i: usize = 0;
    while i < p.segments.len()
        invariant
            i <= p.segments.len(),
            parts.len() == i,
            forall|k: int| 0 <= k < i ==> (#[trigger] parts[k])@ == segment_tokens(p.segments[k]@),
        decreases p.segments.len() - i,
    {
        proof {
            vstd::std_specs::vec::axiom_vec_index_decreases(p.segments, i as int);
        }
        parts.push(segment_to_tokens(&p.segments[i]));
        i = i + 1;
    }
    assert(views(parts@) =~= segments_tokens(p@.segments));
    let list = join_strings(&parts, " :: ");
    if p.leading_colon {
        let mut out = String::from_str(":: ");
        out.append(list.as_str());
        out
    } else {
        assert(Seq::<char>::empty() + list@ =~= list@);
        list
    }
}

/// Writes the tokens of `s`.
#[verifier::loop_isolation(false)]
pub fn segment_to_tokens(s: &PathSegment) -> (out: String)
    ensures
        out@ == segment_tokens(s@),
    decreases s,
{
    let mut out = s.ident.clone();
    match &s.arguments {
        PathArguments::Empty => {
            assert(out@ =~= segment_tokens(s@));
        },
        PathArguments::AngleBracketed { args } => {
            let mut parts: Vec<String> = Vec::new();
            let mut i: usize = 0;
            while i < args.len()
                invariant
                    i <= args.len(),
                    parts.len() == i,
                    forall|k: int| 0 <= k < i ==> (#[trigger] parts[k])@ == argument_tokens(args[k]@),
                decreases args.len() - i,
            {
                proof {
                    vstd::std_specs::vec::axiom_vec_index_decreases(*args, i as int);
                }
                let part = match &args[i] {
                    GenericArgument::Lifetime(l) => {
                        let mut name = String::from_str("'");
                        name.append(l.as_str());
                        name
                    },
                    GenericArgument::Type(t) => type_to_tokens(t),
                    GenericArgument::Binding { ident, ty } => {
                        let mut binding = ident.clone();
                        binding.append(" = ");
                        let inner = type_to_tokens(ty);
                        binding.append(inner.as_str());
                        binding
                    },
                    GenericArgument::Verbatim(tokens) => tokens.clone(),
                };
                parts.push(part);
                i = i + 1;
            }
            assert(views(parts@) =~= arguments_tokens(s@.arguments->AngleBracketed_args));
            let mut list = String::from_str(" < ");
            let inner = join_strings(&parts, " , ");
            list.append(inner.as_str());
            list.append(" >");
            out.append(list.as_str());
        },
        PathArguments::Parenthesized { tokens } => {
            let mut list = String::from_str(" ");
            list.append(tokens.as_str());
            out.append(list.as_str());
        },
    }
    out
}

} // verus!
