//! Type annotations for `yield` and `return`.
//!
//! The closure that a body is wrapped in declares neither what it yields nor
//! what it returns.  The annotations are statements that never run, placed
//! before the body, from which the type checker infers both.  For a future
//! the first `return` names `Result<_, _>`, so that a body that returns
//! something else is reported as "expected `Result`", and the second names
//! the declared type:
//!
//! ```text
//! #[allow(unreachable_code)]
//! {
//!     if false {
//!         yield;
//!         return { let _v: Result<_, _> = abort(); _v };
//!         return { let _v: Declared = abort(); _v };
//!     }
//! }
//! ```
use crate::async_macro::{ExpandError, Future, ModeKind, Stream};
use crate::expr::{
    exprs_model, stmts_model, AttrArgs, Attribute, Expr, SpecAttrArgs, SpecAttribute, SpecBlock,
    SpecExpr, SpecExprKind, SpecLocal, SpecStmt, Stmt,
};
use crate::make::{
    binding, binding_model, block, block_expr, block_expr_model, bool_lit, bounds1, boxed_opt,
    call, exprs1, generic_args1, generic_args2, if_expr, opt_model, opt_type_model, path_args,
    path_args_model, path_expr, plain_expr, projection_type, return_expr, stmts1, stmts2, ty,
    typed_let_stmt, yield_expr,
};
use crate::paths::{
    result_path, result_path_model, result_variant, result_variant_model, rt_path, rt_path_model,
};
use crate::span::Span;
use crate::ty::{
    bounds_model, GenericArgument, Ident, SpecGenericArgument, SpecIdent, SpecTraitBound, SpecType,
    SpecTypeKind, SpecTypeParamBound, TraitBound, Type, TypeKind, TypeParamBound,
};
use crate::util::{quoter, quoter_from_tokens, Quoter};
use vstd::prelude::*;

verus! {

/// An expression of type `ty` that never produces a value:
///
/// ```text
/// {
///     let _v: ty = futures_await::__rt::abort();
///     _v
/// }
/// ```
///
/// Its tokens stand at the position of `ty`.
pub open spec fn expr_with_type_model(ty: SpecType) -> SpecExpr {
    let q = Quoter { span: ty.span, pin_crates: true };
    block_expr_model(
        SpecBlock {
            span: q.span,
            stmts: seq![
                SpecStmt::Local(
                    SpecLocal {
                        pat: binding_model(false, q.stamp("_v"@)),
                        ty: Some(ty),
                        init: Some(
                            plain_expr(
                                q.span,
                                SpecExprKind::Call {
                                    func: Box::new(
                                        plain_expr(
                                            q.span,
                                            SpecExprKind::Path(rt_path_model(q, "abort"@)),
                                        ),
                                    ),
                                    args: Seq::empty(),
                                },
                            ),
                        ),
                    },
                ),
                SpecStmt::Expr(
                    plain_expr(q.span, SpecExprKind::Path(q.root_model(false, "_v"@))),
                ),
            ],
        },
    )
}

/// `yield` or `yield value`, at the site of the invocation.
pub open spec fn yield_model(value: Option<SpecExpr>) -> SpecExpr {
    plain_expr(Span::CallSite, SpecExprKind::Yield(boxed_opt(value)))
}

/// `return` or `return value`, at the site of the invocation.
pub open spec fn return_model(value: Option<SpecExpr>) -> SpecExpr {
    plain_expr(Span::CallSite, SpecExprKind::Return(boxed_opt(value)))
}

/// `futures_await::__rt::std::result::Result<_, _>`
pub open spec fn result_type_model(q: Quoter) -> SpecType {
    let infer = SpecGenericArgument::Type(SpecType { span: q.span, kind: SpecTypeKind::Infer });
    SpecType {
        span: q.span,
        kind: SpecTypeKind::Path(path_args_model(result_path_model(q), seq![infer, infer])),
    }
}

/// The annotations of a future: that it yields `()`, that it returns some
/// `Result`, and, where a return type is declared, that it returns that.
pub open spec fn future_annotations_model(
    brace_token: Span,
    return_type: Option<SpecType>,
) -> Seq<SpecExpr> {
    let span = match return_type {
        Some(t) => t.span,
        None => brace_token,
    };
    let q = Quoter { span, pin_crates: false };
    let common = seq![
        yield_model(None),
        return_model(Some(expr_with_type_model(result_type_model(q)))),
    ];
    match return_type {
        Some(t) => common.push(return_model(Some(expr_with_type_model(t)))),
        None => common,
    }
}

/// The first trait among `bounds`, if there is one.
pub open spec fn first_trait_bound(bounds: Seq<SpecTypeParamBound>) -> Option<SpecTraitBound>
    decreases bounds.len(),
{
    if bounds.len() == 0 {
        None
    } else {
        match bounds[0] {
            SpecTypeParamBound::Trait(t) => Some(t),
            SpecTypeParamBound::Lifetime(_) => first_trait_bound(bounds.subrange(1, bounds.len() as int)),
        }
    }
}

/// Whether the trait is `Stream`: its path ends in a segment of that name,
/// whatever module it is reached through.
pub open spec fn is_stream_trait(t: SpecTraitBound) -> bool {
    t.path.segments.len() > 0 && t.path.segments.last().ident.name == "Stream"@
}

/// The trait of a declared stream type: the first trait of `impl A + B`,
/// which must be `Stream`.  Any other type is refused, at its position: a
/// type that is no `impl` type, one that names no trait, and one whose first
/// trait is another than `Stream`.
pub open spec fn stream_trait_model(return_type: SpecType) -> Result<SpecTraitBound, ExpandError> {
    match return_type.kind {
        SpecTypeKind::ImplTrait(bounds) => match first_trait_bound(bounds) {
            Some(t) => if is_stream_trait(t) {
                Ok(t)
            } else {
                Err(ExpandError::NotAStream(return_type.span))
            },
            None => Err(ExpandError::NotAStream(return_type.span)),
        },
        _ => Err(ExpandError::NotAStream(return_type.span)),
    }
}

/// `<poly as futures_await::stream::Stream>::name`
pub open spec fn stream_assoc_model(q: Quoter, poly: SpecTraitBound, name: Seq<char>) -> SpecType {
    SpecType {
        span: q.span,
        kind: SpecTypeKind::Projection {
            base: Box::new(
                SpecType {
                    span: poly.span,
                    kind: SpecTypeKind::Bounds(seq![SpecTypeParamBound::Trait(poly)]),
                },
            ),
            trait_path: q.join_model(
                q.join_model(q.root_model(false, "futures_await"@), "stream"@),
                "Stream"@,
            ),
            name: q.stamp(name),
        },
    }
}

/// `futures_await::__rt::StreamError<<poly as futures_await::stream::Stream>::Error>`
pub open spec fn stream_error_type_model(q: Quoter, poly: SpecTraitBound) -> SpecType {
    SpecType {
        span: q.span,
        kind: SpecTypeKind::Path(
            path_args_model(
                rt_path_model(q, "StreamError"@),
                seq![SpecGenericArgument::Type(stream_assoc_model(q, poly, "Error"@))],
            ),
        ),
    }
}

/// `yield futures_await::__rt::std::result::Result::variant(value)`
pub open spec fn yield_result_model(q: Quoter, variant: Seq<char>, value: SpecExpr) -> SpecExpr {
    plain_expr(
        q.span,
        SpecExprKind::Yield(
            Some(
                Box::new(
                    plain_expr(
                        q.span,
                        SpecExprKind::Call {
                            func: Box::new(
                                plain_expr(
                                    q.span,
                                    SpecExprKind::Path(result_variant_model(q, variant)),
                                ),
                            ),
                            args: seq![value],
                        },
                    ),
                ),
            ),
        ),
    )
}

/// The annotations of a stream: that it yields some `Result`; where a return
/// type is declared, that it yields `Ok` of the declared item type and `Err`
/// of the stream error that wraps the declared error type; and that it
/// returns `()`.
pub open spec fn stream_annotations_model(
    brace_token: Span,
    return_type: Option<SpecType>,
) -> Result<Seq<SpecExpr>, ExpandError> {
    match return_type {
        None => Ok(
            seq![
                yield_model(
                    Some(
                        expr_with_type_model(
                            result_type_model(Quoter { span: brace_token, pin_crates: true }),
                        ),
                    ),
                ),
                return_model(None),
            ],
        ),
        Some(t) => match stream_trait_model(t) {
            Err(e) => Err(e),
            Ok(poly) => {
                let from_type = Quoter { span: t.span, pin_crates: true };
                let from_trait = Quoter { span: poly.span, pin_crates: true };
                Ok(
                    seq![
                        yield_model(Some(expr_with_type_model(result_type_model(from_type)))),
                        yield_result_model(
                            from_trait,
                            "Ok"@,
                            expr_with_type_model(stream_assoc_model(from_trait, poly, "Item"@)),
                        ),
                        yield_result_model(
                            from_trait,
                            "Err"@,
                            expr_with_type_model(stream_error_type_model(from_type, poly)),
                        ),
                        return_model(None),
                    ],
                )
            },
        },
    }
}

/// The annotations of the mode `kind`.
pub open spec fn type_annotations_model(
    kind: ModeKind,
    brace_token: Span,
    return_type: Option<SpecType>,
) -> Result<Seq<SpecExpr>, ExpandError> {
    match kind {
        ModeKind::Future => Ok(future_annotations_model(brace_token, return_type)),
        ModeKind::Stream => stream_annotations_model(brace_token, return_type),
    }
}

/// `#[allow(unreachable_code)]`
pub open spec fn allow_unreachable_model() -> SpecAttribute {
    SpecAttribute {
        head: SpecIdent { name: "allow"@, span: Span::CallSite },
        args: SpecAttrArgs::Word(SpecIdent { name: "unreachable_code"@, span: Span::CallSite }),
    }
}

/// `stmts` where they are type-checked and never run:
///
/// ```text
/// #[allow(unreachable_code)]
/// {
///     if false {
///         stmts
///     }
/// }
/// ```
pub open spec fn unreachable_block_model(stmts: Seq<SpecStmt>) -> SpecStmt {
    let guarded = plain_expr(
        Span::CallSite,
        SpecExprKind::If {
            cond: Box::new(plain_expr(Span::CallSite, SpecExprKind::Bool(false))),
            then_branch: SpecBlock { span: Span::CallSite, stmts },
            else_branch: None,
        },
    );
    SpecStmt::Expr(
        SpecExpr {
            attrs: seq![allow_unreachable_model()],
            span: Span::CallSite,
            kind: SpecExprKind::Block(
                SpecBlock { span: Span::CallSite, stmts: seq![SpecStmt::Expr(guarded)] },
            ),
        },
    )
}

/// Each expression as a statement with a semicolon.
pub open spec fn semis_model(exprs: Seq<SpecExpr>) -> Seq<SpecStmt> {
    Seq::new(exprs.len(), |i: int| SpecStmt::Semi(exprs[i]))
}

/// The statement that holds the annotations of the mode `kind`.
pub open spec fn make_type_annotations_model(
    kind: ModeKind,
    brace_token: Span,
    output: Option<SpecType>,
) -> Result<SpecStmt, ExpandError> {
    match type_annotations_model(kind, brace_token, output) {
        Ok(exprs) => Ok(unreachable_block_model(semis_model(exprs))),
        Err(e) => Err(e),
    }
}

/// The annotations of one mode.
pub trait TypeAnn: Sized {
    /// Which of the two modes this is.
    spec fn kind(self) -> ModeKind;

    /// The expressions that pin down what the generator yields and returns.
    /// `brace_token` is the position of the body's braces; `return_type` is
    /// the declared return type, which a block has none of.
    fn mk_type_annotations(self, brace_token: Span, return_type: Option<Type>) -> (r: Result<
        Vec<Expr>,
        ExpandError,
    >)
        ensures
            match r {
                Ok(v) => type_annotations_model(
                    self.kind(),
                    brace_token,
                    opt_type_model(return_type),
                ) == Ok::<Seq<SpecExpr>, ExpandError>(exprs_model(v)),
                Err(e) => type_annotations_model(
                    self.kind(),
                    brace_token,
                    opt_type_model(return_type),
                ) == Err::<Seq<SpecExpr>, ExpandError>(e),
            },
    ;
}

/// `futures_await::__rt::std::result::Result<_, _>`
fn result_type(q: &Quoter) -> (r: Type)
    ensures
        r@ == result_type_model(*q),
{
    let a = GenericArgument::Type(ty(q.span, TypeKind::Infer));
    let b = GenericArgument::Type(ty(q.span, TypeKind::Infer));
    ty(q.span, TypeKind::Path(path_args(result_path(q), generic_args2(a, b))))
}

impl TypeAnn for Future {
    open spec fn kind(self) -> ModeKind {
        ModeKind::Future
    }

    fn mk_type_annotations(self, brace_token: Span, return_type: Option<Type>) -> (r: Result<
        Vec<Expr>,
        ExpandError,
    >) {
        let span = match &return_type {
            Some(t) => t.span,
            None => brace_token,
        };
        let q = Quoter::new(span);
        let mut out: Vec<Expr> = Vec::new();
        out.push(make_yield_expr(None));
        out.push(make_return_expr(Some(make_expr_with_type(result_type(&q)))));
        match return_type {
            Some(t) => {
                out.push(make_return_expr(Some(make_expr_with_type(t))));
            },
            None => {},
        }
        assert(exprs_model(out) =~= future_annotations_model(
            brace_token,
            opt_type_model(return_type),
        ));
        Ok(out)
    }
}

/// The first trait among `bounds`, if there is one.
fn find_trait_bound(bounds: &Vec<TypeParamBound>) -> (r: Option<TraitBound>)
    ensures
        match r {
            Some(t) => first_trait_bound(bounds_model(*bounds)) == Some(t@),
            None => first_trait_bound(bounds_model(*bounds)) == None::<SpecTraitBound>,
        },
{
    let ghost all = bounds_model(*bounds);
    let mut i: usize = 0;
    assert(all.subrange(0, all.len() as int) =~= all);
    while i < bounds.len()
        invariant
            i <= bounds@.len(),
            all == bounds_model(*bounds),
            first_trait_bound(all) == first_trait_bound(all.subrange(i as int, all.len() as int)),
        decreases bounds@.len() - i,
    {
        let ghost rest = all.subrange(i as int, all.len() as int);
        assert(rest[0] == all[i as int]);
        assert(rest.subrange(1, rest.len() as int) =~= all.subrange(i + 1, all.len() as int));
        match &bounds[i] {
            TypeParamBound::Trait(t) => {
                return Some(t.clone());
            },
            TypeParamBound::Lifetime(_) => {},
        }
        i += 1;
    }
    assert(all.subrange(0, all.len() as int) =~= all);
    None
}

/// Whether the trait is `Stream`.
fn names_stream(t: &TraitBound) -> (b: bool)
    ensures
        b == is_stream_trait(t@),
{
    let n = t.path.segments.len();
    n > 0 && t.path.segments[n - 1].ident.is("Stream")
}

/// The trait of a declared stream type.
pub(crate) fn stream_trait(return_type: &Type) -> (r: Result<TraitBound, ExpandError>)
    ensures
        match r {
            Ok(t) => stream_trait_model(return_type@) == Ok::<SpecTraitBound, ExpandError>(t@),
            Err(e) => stream_trait_model(return_type@) == Err::<SpecTraitBound, ExpandError>(e),
        },
{
    match &return_type.kind {
        TypeKind::ImplTrait(bounds) => match find_trait_bound(bounds) {
            Some(t) => if names_stream(&t) {
                Ok(t)
            } else {
                Err(ExpandError::NotAStream(return_type.span))
            },
            None => Err(ExpandError::NotAStream(return_type.span)),
        },
        _ => Err(ExpandError::NotAStream(return_type.span)),
    }
}

/// `<poly as futures_await::stream::Stream>::name`
fn stream_assoc(q: &Quoter, poly: TraitBound, name: &str) -> (r: Type)
    ensures
        r@ == stream_assoc_model(*q, poly@, name@),
{
    let base = ty(poly.span, TypeKind::Bounds(bounds1(TypeParamBound::Trait(poly))));
    let trait_path = q.join(q.join(q.root(false, "futures_await"), "stream"), "Stream");
    projection_type(q.span, base, trait_path, q.ident(name))
}

/// `futures_await::__rt::StreamError<<poly as futures_await::stream::Stream>::Error>`
fn stream_error_type(q: &Quoter, poly: TraitBound) -> (r: Type)
    ensures
        r@ == stream_error_type_model(*q, poly@),
{
    let arg = GenericArgument::Type(stream_assoc(q, poly, "Error"));
    ty(q.span, TypeKind::Path(path_args(rt_path(q, "StreamError"), generic_args1(arg))))
}

/// `yield futures_await::__rt::std::result::Result::variant(value)`
pub(crate) fn yield_result(q: &Quoter, variant: &str, value: Expr) -> (r: Expr)
    ensures
        r@ == yield_result_model(*q, variant@, value@),
{
    let func = path_expr(q.span, result_variant(q, variant));
    yield_expr(q.span, Some(call(q.span, func, exprs1(value))))
}

impl TypeAnn for Stream {
    open spec fn kind(self) -> ModeKind {
        ModeKind::Stream
    }

    fn mk_type_annotations(self, brace_token: Span, return_type: Option<Type>) -> (r: Result<
        Vec<Expr>,
        ExpandError,
    >) {
        let mut out: Vec<Expr> = Vec::new();
        match return_type {
            None => {
                let q = quoter(brace_token);
                out.push(make_yield_expr(Some(make_expr_with_type(result_type(&q)))));
                out.push(make_return_expr(None));
                assert(exprs_model(out) =~= stream_annotations_model(
                    brace_token,
                    None,
                )->Ok_0);
                Ok(out)
            },
            Some(t) => {
                let poly = match stream_trait(&t) {
                    Ok(poly) => poly,
                    Err(e) => {
                        return Err(e);
                    },
                };
                let from_type = quoter_from_tokens(&t);
                let from_trait = quoter_from_tokens(&poly);
                out.push(make_yield_expr(Some(make_expr_with_type(result_type(&from_type)))));
                out.push(
                    yield_result(
                        &from_trait,
                        "Ok",
                        make_expr_with_type(stream_assoc(&from_trait, poly.clone(), "Item")),
                    ),
                );
                out.push(
                    yield_result(
                        &from_trait,
                        "Err",
                        make_expr_with_type(stream_error_type(&from_type, poly)),
                    ),
                );
                out.push(make_return_expr(None));
                assert(exprs_model(out) =~= stream_annotations_model(
                    brace_token,
                    Some(t@),
                )->Ok_0);
                Ok(out)
            },
        }
    }
}

/// The statement that holds the annotations of `mode`, guarded so that it
/// is type-checked and never run.
pub fn make_type_annotations<M: TypeAnn>(mode: M, brace_token: Span, output: Option<Type>) -> (r:
    Result<Stmt, ExpandError>)
    ensures
        match r {
            Ok(s) => make_type_annotations_model(mode.kind(), brace_token, opt_type_model(output))
                == Ok::<SpecStmt, ExpandError>(s@),
            Err(e) => make_type_annotations_model(mode.kind(), brace_token, opt_type_model(output))
                == Err::<SpecStmt, ExpandError>(e),
        },
{
    let exprs = match mode.mk_type_annotations(brace_token, output) {
        Ok(exprs) => exprs,
        Err(e) => {
            return Err(e);
        },
    };
    let ghost all = exprs_model(exprs);
    let ghost orig = exprs@;
    let mut stmts: Vec<Stmt> = Vec::new();
    for e in it: exprs
        invariant
            it.seq() == orig,
            all.len() == orig.len(),
            forall|j: int| 0 <= j < orig.len() ==> all[j] == (#[trigger] orig[j])@,
            stmts@.len() == it.index(),
            forall|j: int| 0 <= j < stmts@.len() ==> (#[trigger] stmts@[j])@ == SpecStmt::Semi(all[j]),
    {
        stmts.push(Stmt::Semi(e));
    }
    assert(stmts_model(stmts) =~= semis_model(all));
    Ok(wrap_in_unreacable_block(stmts))
}

/// An expression of type `ty` that never produces a value; see
/// [`expr_with_type_model`].
pub fn make_expr_with_type(ty: Type) -> (r: Expr)
    ensures
        r@ == expr_with_type_model(ty@),
{
    let q = quoter_from_tokens(&ty);
    let no_args: Vec<Expr> = Vec::new();
    assert(exprs_model(no_args) =~= Seq::empty());
    let init = call(q.span, path_expr(q.span, rt_path(&q, "abort")), no_args);
    block_expr(
        block(
            q.span,
            stmts2(
                typed_let_stmt(binding(false, q.ident("_v")), ty, init),
                Stmt::Expr(path_expr(q.span, q.root(false, "_v"))),
            ),
        ),
    )
}

/// `yield` or `yield expr`, at the site of the invocation.
pub fn make_yield_expr(expr: Option<Expr>) -> (r: Expr)
    ensures
        r@ == yield_model(opt_model(expr)),
{
    yield_expr(Span::CallSite, expr)
}

/// `return` or `return expr`, at the site of the invocation.
pub fn make_return_expr(expr: Option<Expr>) -> (r: Expr)
    ensures
        r@ == return_model(opt_model(expr)),
{
    return_expr(Span::CallSite, expr)
}

/// Puts `stmts` where they are type-checked and never run; see
/// [`unreachable_block_model`].
pub fn wrap_in_unreacable_block(stmts: Vec<Stmt>) -> (r: Stmt)
    ensures
        r@ == unreachable_block_model(stmts_model(stmts)),
{
    let guarded = if_expr(
        Span::CallSite,
        bool_lit(Span::CallSite, false),
        block(Span::CallSite, stmts),
    );
    let mut attrs: Vec<Attribute> = Vec::new();
    attrs.push(
        Attribute {
            head: Ident::new("allow", Span::CallSite),
            args: AttrArgs::Word(Ident::new("unreachable_code", Span::CallSite)),
        },
    );
    let inner = block(Span::CallSite, stmts1(Stmt::Expr(guarded)));
    let e = Expr { attrs, span: Span::CallSite, kind: crate::expr::ExprKind::Block(inner) };
    assert(e@.attrs =~= seq![allow_unreachable_model()]);
    Stmt::Expr(e)
}

} // verus!
