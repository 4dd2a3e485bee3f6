//! Constructors for synthesized syntax.
//!
//! Each executable constructor has a model of the same shape, so that a
//! fragment assembled from constructors has the model assembled from theirs.
use crate::expr::{
    arms_model, exprs_model, stmts_model, Arm, Block, Expr, ExprKind, Local, Pat, SpecArm,
    SpecBlock, SpecExpr, SpecExprKind, SpecLocal, SpecPat, SpecStmt, Stmt,
};
use crate::span::Span;
use crate::ty::{
    bounds_model, GenericArgument, Ident, Lifetime, Path, PathArguments, PathSegment,
    SpecGenericArgument, SpecIdent, SpecPath, SpecPathArguments, SpecPathSegment, SpecType,
    SpecTypeKind, Type, TypeKind, TypeParamBound,
};
use vstd::prelude::*;

verus! {

/// Model of an optional lifetime.
pub open spec fn opt_lifetime_model(l: Option<Lifetime>) -> Option<SpecIdent> {
    match l {
        Some(l) => Some(l@),
        None => None,
    }
}

/// Model of an optional type.
pub open spec fn opt_type_model(t: Option<Type>) -> Option<SpecType> {
    match t {
        Some(t) => Some(t@),
        None => None,
    }
}

/// Model of an optional expression.
pub open spec fn opt_model(e: Option<Expr>) -> Option<SpecExpr> {
    match e {
        Some(e) => Some(e@),
        None => None,
    }
}

/// An optional expression, boxed.
pub open spec fn boxed_opt(e: Option<SpecExpr>) -> Option<Box<SpecExpr>> {
    match e {
        Some(e) => Some(Box::new(e)),
        None => None,
    }
}

/// The path of the single segment `ident`, without arguments.
pub open spec fn path_root_model(leading_colon: bool, ident: SpecIdent) -> SpecPath {
    SpecPath {
        leading_colon,
        segments: seq![SpecPathSegment { ident, arguments: SpecPathArguments::Empty }],
    }
}

/// `path::ident`
pub open spec fn path_join_model(path: SpecPath, ident: SpecIdent) -> SpecPath {
    SpecPath {
        leading_colon: path.leading_colon,
        segments: path.segments.push(
            SpecPathSegment { ident, arguments: SpecPathArguments::Empty },
        ),
    }
}

/// `path<args>`: the arguments of the last segment replaced by `args`.
pub open spec fn path_args_model(path: SpecPath, args: Seq<SpecGenericArgument>) -> SpecPath
    recommends
        path.segments.len() > 0,
{
    SpecPath {
        leading_colon: path.leading_colon,
        segments: path.segments.update(
            path.segments.len() - 1,
            SpecPathSegment {
                ident: path.segments.last().ident,
                arguments: SpecPathArguments::AngleBracketed(args),
            },
        ),
    }
}

/// An expression without attributes.
pub open spec fn plain_expr(span: Span, kind: SpecExprKind) -> SpecExpr {
    SpecExpr { attrs: Seq::empty(), span, kind }
}

/// A block as an expression, at the position of the block's braces.
pub open spec fn block_expr_model(block: SpecBlock) -> SpecExpr {
    plain_expr(block.span, SpecExprKind::Block(block))
}

/// `let pat = init;`
pub open spec fn let_model(pat: SpecPat, init: SpecExpr) -> SpecStmt {
    SpecStmt::Local(SpecLocal { pat, ty: None, init: Some(init) })
}

/// The pattern of a plain binding, `ident` or `mut ident`.
pub open spec fn binding_model(mutable: bool, ident: SpecIdent) -> SpecPat {
    SpecPat::Ident { by_ref: false, mutable, ident, subpat: None }
}

/// A match arm without a guard.
pub open spec fn arm_model(pat: SpecPat, body: SpecExpr) -> SpecArm {
    SpecArm { pat, guard: None, body }
}

/// The path of the single segment `ident`.
pub(crate) fn path_root(leading_colon: bool, ident: Ident) -> (r: Path)
    ensures
        r@ == path_root_model(leading_colon, ident@),
{
    let mut segments: Vec<PathSegment> = Vec::new();
    segments.push(PathSegment { ident, arguments: PathArguments::Empty });
    let r = Path { leading_colon, segments };
    assert(r@.segments =~= path_root_model(leading_colon, ident@).segments);
    r
}

/// `path::ident`
pub(crate) fn path_join(path: Path, ident: Ident) -> (r: Path)
    ensures
        r@ == path_join_model(path@, ident@),
{
    let mut path = path;
    let ghost before = path@;
    path.segments.push(PathSegment { ident, arguments: PathArguments::Empty });
    assert(path@.segments =~= path_join_model(before, ident@).segments);
    path
}

/// Model of a list of generic arguments.
pub open spec fn generic_args_model(args: Seq<GenericArgument>) -> Seq<SpecGenericArgument> {
    Seq::new(args.len(), |i: int| args[i]@)
}

/// `path<args>`: gives the last segment of `path` the arguments `args`.
pub(crate) fn path_args(path: Path, args: Vec<GenericArgument>) -> (r: Path)
    requires
        path@.segments.len() > 0,
    ensures
        r@ == path_args_model(path@, generic_args_model(args@)),
{
    let mut path = path;
    let ghost before = path@;
    let last = path.segments.pop().unwrap();
    path.segments.push(
        PathSegment { ident: last.ident, arguments: PathArguments::AngleBracketed(args) },
    );
    assert(path@.segments =~= path_args_model(before, generic_args_model(args@)).segments) by {
        assert(path.segments@.last()@.arguments->AngleBracketed_0 =~= generic_args_model(
            args@,
        ));
    }
    path
}

/// A list of one generic argument.
pub(crate) fn generic_args1(a: GenericArgument) -> (v: Vec<GenericArgument>)
    ensures
        generic_args_model(v@) == seq![a@],
{
    let mut v: Vec<GenericArgument> = Vec::new();
    v.push(a);
    assert(generic_args_model(v@) =~= seq![a@]);
    v
}

/// A list of two generic arguments.
pub(crate) fn generic_args2(a: GenericArgument, b: GenericArgument) -> (v: Vec<GenericArgument>)
    ensures
        generic_args_model(v@) == seq![a@, b@],
{
    let mut v: Vec<GenericArgument> = Vec::new();
    v.push(a);
    v.push(b);
    assert(generic_args_model(v@) =~= seq![a@, b@]);
    v
}

/// A list of one bound.
pub(crate) fn bounds1(a: TypeParamBound) -> (v: Vec<TypeParamBound>)
    ensures
        bounds_model(v) == seq![a@],
{
    let mut v: Vec<TypeParamBound> = Vec::new();
    v.push(a);
    assert(bounds_model(v) =~= seq![a@]);
    v
}

/// A copy of an optional type.
pub(crate) fn clone_opt_type(t: &Option<Type>) -> (r: Option<Type>)
    ensures
        opt_type_model(r) == opt_type_model(*t),
{
    match t {
        Some(t) => Some(t.clone()),
        None => None,
    }
}

/// The type `kind` at `span`.
pub(crate) fn ty(span: Span, kind: TypeKind) -> (r: Type)
    ensures
        r@ == (SpecType { span, kind: kind@ }),
{
    Type { span, kind }
}

/// `<base as trait_path>::name` at `span`.
pub(crate) fn projection_type(span: Span, base: Type, trait_path: Path, name: Ident) -> (r: Type)
    ensures
        r@ == (SpecType {
            span,
            kind: SpecTypeKind::Projection {
                base: Box::new(base@),
                trait_path: trait_path@,
                name: name@,
            },
        }),
{
    Type { span, kind: TypeKind::Projection { base: Box::new(base), trait_path, name } }
}

/// An expression without attributes.
pub(crate) fn expr(span: Span, kind: ExprKind) -> (r: Expr)
    ensures
        r@ == plain_expr(span, kind@),
{
    let r = Expr { attrs: Vec::new(), span, kind };
    assert(r@.attrs =~= Seq::empty());
    r
}

/// The path `path` as an expression.
pub(crate) fn path_expr(span: Span, path: Path) -> (r: Expr)
    ensures
        r@ == plain_expr(span, SpecExprKind::Path(path@)),
{
    expr(span, ExprKind::Path(path))
}

/// `func(args)`
pub(crate) fn call(span: Span, func: Expr, args: Vec<Expr>) -> (r: Expr)
    ensures
        r@ == plain_expr(
            span,
            SpecExprKind::Call { func: Box::new(func@), args: exprs_model(args) },
        ),
{
    expr(span, ExprKind::Call { func: Box::new(func), args })
}

/// `&mut inner`
pub(crate) fn reference_mut(span: Span, inner: Expr) -> (r: Expr)
    ensures
        r@ == plain_expr(
            span,
            SpecExprKind::Reference { mutable: true, expr: Box::new(inner@) },
        ),
{
    expr(span, ExprKind::Reference { mutable: true, expr: Box::new(inner) })
}

/// The block `block` as an expression.
pub(crate) fn block_expr(block: Block) -> (r: Expr)
    ensures
        r@ == block_expr_model(block@),
{
    let span = block.span;
    expr(span, ExprKind::Block(block))
}

/// `match scrutinee { arms }`
pub(crate) fn match_expr(span: Span, scrutinee: Expr, arms: Vec<Arm>) -> (r: Expr)
    ensures
        r@ == plain_expr(
            span,
            SpecExprKind::Match { expr: Box::new(scrutinee@), arms: arms_model(arms) },
        ),
{
    expr(span, ExprKind::Match { expr: Box::new(scrutinee), arms })
}

/// `'label: loop body`
pub(crate) fn loop_expr(span: Span, label: Option<Lifetime>, body: Block) -> (r: Expr)
    ensures
        r@ == plain_expr(
            span,
            SpecExprKind::Loop { label: opt_lifetime_model(label), body: body@ },
        ),
{
    expr(span, ExprKind::Loop { label, body })
}

/// `if cond then_branch`, without `else`.
pub(crate) fn if_expr(span: Span, cond: Expr, then_branch: Block) -> (r: Expr)
    ensures
        r@ == plain_expr(
            span,
            SpecExprKind::If {
                cond: Box::new(cond@),
                then_branch: then_branch@,
                else_branch: None,
            },
        ),
{
    expr(span, ExprKind::If { cond: Box::new(cond), then_branch, else_branch: None })
}

/// `move || body`
pub(crate) fn move_closure(span: Span, body: Expr) -> (r: Expr)
    ensures
        r@ == plain_expr(
            span,
            SpecExprKind::Closure { by_move: true, body: Box::new(body@) },
        ),
{
    expr(span, ExprKind::Closure { by_move: true, body: Box::new(body) })
}

/// `break` or `break value`
pub(crate) fn break_expr(span: Span, value: Option<Expr>) -> (r: Expr)
    ensures
        r@ == plain_expr(span, SpecExprKind::Break { expr: boxed_opt(opt_model(value)) }),
{
    let value = match value {
        Some(e) => Some(Box::new(e)),
        None => None,
    };
    expr(span, ExprKind::Break { expr: value })
}

/// `continue`
pub(crate) fn continue_expr(span: Span) -> (r: Expr)
    ensures
        r@ == plain_expr(span, SpecExprKind::Continue),
{
    expr(span, ExprKind::Continue)
}

/// `yield` or `yield value`
pub(crate) fn yield_expr(span: Span, value: Option<Expr>) -> (r: Expr)
    ensures
        r@ == plain_expr(span, SpecExprKind::Yield(boxed_opt(opt_model(value)))),
{
    let value = match value {
        Some(e) => Some(Box::new(e)),
        None => None,
    };
    expr(span, ExprKind::Yield(value))
}

/// `return` or `return value`
pub(crate) fn return_expr(span: Span, value: Option<Expr>) -> (r: Expr)
    ensures
        r@ == plain_expr(span, SpecExprKind::Return(boxed_opt(opt_model(value)))),
{
    let value = match value {
        Some(e) => Some(Box::new(e)),
        None => None,
    };
    expr(span, ExprKind::Return(value))
}

/// `true` or `false`
pub(crate) fn bool_lit(span: Span, value: bool) -> (r: Expr)
    ensures
        r@ == plain_expr(span, SpecExprKind::Bool(value)),
{
    expr(span, ExprKind::Bool(value))
}

/// An empty list of statements.
pub(crate) fn no_stmts() -> (v: Vec<Stmt>)
    ensures
        stmts_model(v) == Seq::<SpecStmt>::empty(),
{
    let v: Vec<Stmt> = Vec::new();
    assert(stmts_model(v) =~= Seq::<SpecStmt>::empty());
    v
}

/// `expr?`
pub(crate) fn try_expr(span: Span, inner: Expr) -> (r: Expr)
    ensures
        r@ == plain_expr(span, SpecExprKind::Try(Box::new(inner@))),
{
    expr(span, ExprKind::Try(Box::new(inner)))
}

/// The block of `stmts` with braces at `span`.
pub(crate) fn block(span: Span, stmts: Vec<Stmt>) -> (r: Block)
    ensures
        r@ == (SpecBlock { span, stmts: stmts_model(stmts) }),
{
    Block { span, stmts }
}

/// `let pat = init;`
pub(crate) fn let_stmt(pat: Pat, init: Expr) -> (r: Stmt)
    ensures
        r@ == let_model(pat@, init@),
{
    Stmt::Local(Local { pat, ty: None, init: Some(init) })
}

/// `let pat: ty = init;`
pub(crate) fn typed_let_stmt(pat: Pat, ty: Type, init: Expr) -> (r: Stmt)
    ensures
        r@ == SpecStmt::Local(SpecLocal { pat: pat@, ty: Some(ty@), init: Some(init@) }),
{
    Stmt::Local(Local { pat, ty: Some(ty), init: Some(init) })
}

/// The pattern `ident` or `mut ident`.
pub(crate) fn binding(mutable: bool, ident: Ident) -> (r: Pat)
    ensures
        r@ == binding_model(mutable, ident@),
{
    Pat::Ident { by_ref: false, mutable, ident, subpat: None }
}

/// The pattern `path(inner)`.
pub(crate) fn tuple_struct1(path: Path, inner: Pat) -> (r: Pat)
    ensures
        r@ == (SpecPat::TupleStruct { path: path@, elems: seq![inner@] }),
{
    let mut elems: Vec<Pat> = Vec::new();
    elems.push(inner);
    let r = Pat::TupleStruct { path, elems };
    assert(r@->TupleStruct_elems =~= seq![inner@]);
    r
}

/// A match arm without a guard.
pub(crate) fn arm(pat: Pat, body: Expr) -> (r: Arm)
    ensures
        r@ == arm_model(pat@, body@),
{
    Arm { pat, guard: None, body }
}

/// A list of one expression.
pub(crate) fn exprs1(a: Expr) -> (v: Vec<Expr>)
    ensures
        exprs_model(v) == seq![a@],
{
    let mut v: Vec<Expr> = Vec::new();
    v.push(a);
    assert(exprs_model(v) =~= seq![a@]);
    v
}

/// A list of two match arms.
pub(crate) fn arms2(a: Arm, b: Arm) -> (v: Vec<Arm>)
    ensures
        arms_model(v) == seq![a@, b@],
{
    let mut v: Vec<Arm> = Vec::new();
    v.push(a);
    v.push(b);
    assert(arms_model(v) =~= seq![a@, b@]);
    v
}

/// A list of three match arms.
pub(crate) fn arms3(a: Arm, b: Arm, c: Arm) -> (v: Vec<Arm>)
    ensures
        arms_model(v) == seq![a@, b@, c@],
{
    let mut v: Vec<Arm> = Vec::new();
    v.push(a);
    v.push(b);
    v.push(c);
    assert(arms_model(v) =~= seq![a@, b@, c@]);
    v
}

/// A list of one statement.
pub(crate) fn stmts1(a: Stmt) -> (v: Vec<Stmt>)
    ensures
        stmts_model(v) == seq![a@],
{
    let mut v: Vec<Stmt> = Vec::new();
    v.push(a);
    assert(stmts_model(v) =~= seq![a@]);
    v
}

/// A list of two statements.
pub(crate) fn stmts2(a: Stmt, b: Stmt) -> (v: Vec<Stmt>)
    ensures
        stmts_model(v) == seq![a@, b@],
{
    let mut v: Vec<Stmt> = Vec::new();
    v.push(a);
    v.push(b);
    assert(stmts_model(v) =~= seq![a@, b@]);
    v
}

/// A list of three statements.
pub(crate) fn stmts3(a: Stmt, b: Stmt, c: Stmt) -> (v: Vec<Stmt>)
    ensures
        stmts_model(v) == seq![a@, b@, c@],
{
    let mut v: Vec<Stmt> = Vec::new();
    v.push(a);
    v.push(b);
    v.push(c);
    assert(stmts_model(v) =~= seq![a@, b@, c@]);
    v
}

} // verus!
