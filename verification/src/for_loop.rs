//! Expansion of `#[async] for` loops over streams into poll loops.
//!
//! The walk visits every expression of a body, innermost first, and replaces
//! each `for` loop that carries the marker.  It enters the initializer of a
//! `let`, but no item: a nested function is expanded on its own.
use crate::expr::{
    arms_model, attrs_model, exprs_model, opt_expr_model, Arm, Attribute, Block, Expr, ExprKind,
    Item, Local, Pat, SpecArm, SpecAttribute, SpecBlock, SpecExpr, SpecExprKind, SpecItem,
    SpecLocal, SpecPat, SpecStmt, Stmt,
};
use crate::make::{
    arm, arm_model, arms2, binding, binding_model, block, block_expr, block_expr_model, break_expr,
    call, continue_expr, exprs1, let_model, let_stmt, loop_expr, match_expr, opt_lifetime_model,
    path_expr, plain_expr, reference_mut, stmts2, stmts3, try_expr, tuple_struct1, yield_expr,
};
use crate::paths::{
    async_variant, async_variant_model, not_ready, not_ready_model, poll_path, poll_path_model,
    rt_path, rt_path_model,
};
use crate::span::Span;
use crate::ty::{Lifetime, SpecIdent};
use crate::util::Quoter;
use vstd::prelude::*;

verus! {

/// Whether `attrs` is the marker of an asynchronous loop: one attribute whose
/// path starts with `async`.
pub open spec fn is_async_marker(attrs: Seq<SpecAttribute>) -> bool {
    attrs.len() == 1 && attrs[0].head.name == "async"@
}

/// Whether `e` is a `for` loop that carries the marker.
pub open spec fn is_async_for(e: SpecExpr) -> bool {
    e.kind is ForLoop && is_async_marker(e.attrs)
}

/// The block that takes the next item from `__stream`:
///
/// ```text
/// {
///     extern crate futures_await;
///     let r = futures_await::Stream::poll(&mut __stream)?;
///     match r {
///         futures_await::Async::Ready(e) => match e {
///             futures_await::__rt::Some(e) => e,
///             futures_await::__rt::None => break,
///         },
///         futures_await::Async::NotReady => {
///             yield futures_await::__rt::YieldType::not_ready();
///             continue;
///         }
///     }
/// }
/// ```
pub open spec fn next_item_model(q: Quoter) -> SpecBlock {
    SpecBlock {
        span: q.span,
        stmts: seq![
            SpecStmt::Item(SpecItem::ExternCrate(q.stamp("futures_await"@))),
            let_model(binding_model(false, q.stamp("r"@)), poll_stream_model(q)),
            SpecStmt::Expr(
                plain_expr(
                    q.span,
                    SpecExprKind::Match {
                        expr: Box::new(var_model(q, "r"@)),
                        arms: seq![
                            arm_model(
                                SpecPat::TupleStruct {
                                    path: async_variant_model(q, "Ready"@),
                                    elems: seq![binding_model(false, q.stamp("e"@))],
                                },
                                ready_item_model(q),
                            ),
                            arm_model(
                                SpecPat::Path(async_variant_model(q, "NotReady"@)),
                                pending_model(q),
                            ),
                        ],
                    },
                ),
            ),
        ],
    }
}

/// The variable `name`.
pub open spec fn var_model(q: Quoter, name: Seq<char>) -> SpecExpr {
    plain_expr(q.span, SpecExprKind::Path(q.root_model(false, name)))
}

/// `futures_await::Stream::poll(&mut __stream)?`
pub open spec fn poll_stream_model(q: Quoter) -> SpecExpr {
    plain_expr(
        q.span,
        SpecExprKind::Try(
            Box::new(
                plain_expr(
                    q.span,
                    SpecExprKind::Call {
                        func: Box::new(
                            plain_expr(q.span, SpecExprKind::Path(poll_path_model(q, "Stream"@))),
                        ),
                        args: seq![
                            plain_expr(
                                q.span,
                                SpecExprKind::Reference {
                                    mutable: true,
                                    expr: Box::new(var_model(q, "__stream"@)),
                                },
                            ),
                        ],
                    },
                ),
            ),
        ),
    )
}

/// What the loop does with a ready answer `e`: it takes the item, or leaves
/// the loop where the stream has ended.
pub open spec fn ready_item_model(q: Quoter) -> SpecExpr {
    plain_expr(
        q.span,
        SpecExprKind::Match {
            expr: Box::new(var_model(q, "e"@)),
            arms: seq![
                arm_model(
                    SpecPat::TupleStruct {
                        path: rt_path_model(q, "Some"@),
                        elems: seq![binding_model(false, q.stamp("e"@))],
                    },
                    var_model(q, "e"@),
                ),
                arm_model(
                    SpecPat::Path(rt_path_model(q, "None"@)),
                    plain_expr(q.span, SpecExprKind::Break { expr: None }),
                ),
            ],
        },
    )
}

/// What the loop does while no item is ready: it yields and goes round.
pub open spec fn pending_model(q: Quoter) -> SpecExpr {
    block_expr_model(
        SpecBlock {
            span: q.span,
            stmts: seq![
                SpecStmt::Semi(
                    plain_expr(q.span, SpecExprKind::Yield(Some(Box::new(not_ready_model(q))))),
                ),
                SpecStmt::Semi(plain_expr(q.span, SpecExprKind::Continue)),
            ],
        },
    )
}

/// The poll loop that `'label: for pat in stream body` with the marker
/// stands for, every synthesized token at the site of the invocation:
///
/// ```text
/// {
///     let mut __stream = stream;
///     'label: loop {
///         let pat = { … the next item, see `next_item_model` … };
///         body
///     }
/// }
/// ```
///
/// When the stream ends the loop is left by `break`; while no item is ready
/// the generator yields and the loop goes round; an error of the stream
/// leaves the enclosing function through `?`.
pub open spec fn async_for_model(
    label: Option<SpecIdent>,
    pat: SpecPat,
    stream: SpecExpr,
    body: SpecBlock,
) -> SpecExpr {
    let q = Quoter { span: Span::CallSite, pin_crates: false };
    let loop_body = SpecBlock {
        span: q.span,
        stmts: seq![
            let_model(pat, block_expr_model(next_item_model(q))),
            SpecStmt::Expr(block_expr_model(body)),
        ],
    };
    block_expr_model(
        SpecBlock {
            span: q.span,
            stmts: seq![
                let_model(binding_model(true, q.stamp("__stream"@)), stream),
                SpecStmt::Expr(
                    plain_expr(q.span, SpecExprKind::Loop { label, body: loop_body }),
                ),
            ],
        },
    )
}

/// `e` with every marked loop in it expanded.
pub open spec fn fold_expr_model(e: SpecExpr) -> SpecExpr
    decreases e,
{
    let kind = fold_kind_model(e.kind);
    if is_async_marker(e.attrs) {
        match kind {
            SpecExprKind::ForLoop { label, pat, expr, body } => async_for_model(
                label,
                pat,
                *expr,
                body,
            ),
            _ => SpecExpr { attrs: e.attrs, span: e.span, kind },
        }
    } else {
        SpecExpr { attrs: e.attrs, span: e.span, kind }
    }
}

/// Each member of `exprs` expanded.
pub open spec fn fold_exprs_model(exprs: Seq<SpecExpr>) -> Seq<SpecExpr>
    decreases exprs,
{
    Seq::new(
        exprs.len(),
        |i: int|
            if 0 <= i < exprs.len() {
                fold_expr_model(exprs[i])
            } else {
                arbitrary()
            },
    )
}

/// An optional expression expanded.
pub open spec fn fold_opt_model(e: Option<Box<SpecExpr>>) -> Option<Box<SpecExpr>>
    decreases e,
{
    match e {
        Some(b) => Some(Box::new(fold_expr_model(*b))),
        None => None,
    }
}

/// The guard and the body of an arm expanded.
pub open spec fn fold_arm_model(arm: SpecArm) -> SpecArm
    decreases arm,
{
    SpecArm {
        pat: arm.pat,
        guard: match arm.guard {
            Some(g) => Some(fold_expr_model(g)),
            None => None,
        },
        body: fold_expr_model(arm.body),
    }
}

/// Each arm of `arms` expanded.
pub open spec fn fold_arms_model(arms: Seq<SpecArm>) -> Seq<SpecArm>
    decreases arms,
{
    Seq::new(
        arms.len(),
        |i: int|
            if 0 <= i < arms.len() {
                fold_arm_model(arms[i])
            } else {
                arbitrary()
            },
    )
}

/// A statement expanded: the initializer of a `let` and the expression of
/// an expression statement are entered, an item is not.
pub open spec fn fold_stmt_model(stmt: SpecStmt) -> SpecStmt
    decreases stmt,
{
    match stmt {
        SpecStmt::Local(l) => SpecStmt::Local(
            SpecLocal {
                pat: l.pat,
                ty: l.ty,
                init: match l.init {
                    Some(e) => Some(fold_expr_model(e)),
                    None => None,
                },
            },
        ),
        SpecStmt::Item(i) => SpecStmt::Item(i),
        SpecStmt::Expr(e) => SpecStmt::Expr(fold_expr_model(e)),
        SpecStmt::Semi(e) => SpecStmt::Semi(fold_expr_model(e)),
    }
}

/// Each statement of `b` expanded.
pub open spec fn fold_block_model(b: SpecBlock) -> SpecBlock
    decreases b,
{
    SpecBlock {
        span: b.span,
        stmts: Seq::new(
            b.stmts.len(),
            |i: int|
                if 0 <= i < b.stmts.len() {
                    fold_stmt_model(b.stmts[i])
                } else {
                    arbitrary()
                },
        ),
    }
}

/// The expressions inside an expression of kind `kind` expanded.
pub open spec fn fold_kind_model(kind: SpecExprKind) -> SpecExprKind
    decreases kind,
{
    match kind {
        SpecExprKind::Other { handle, children } => SpecExprKind::Other {
            handle,
            children: fold_exprs_model(children),
        },
        SpecExprKind::Path(p) => SpecExprKind::Path(p),
        SpecExprKind::Bool(b) => SpecExprKind::Bool(b),
        SpecExprKind::Call { func, args } => SpecExprKind::Call {
            func: Box::new(fold_expr_model(*func)),
            args: fold_exprs_model(args),
        },
        SpecExprKind::Reference { mutable, expr } => SpecExprKind::Reference {
            mutable,
            expr: Box::new(fold_expr_model(*expr)),
        },
        SpecExprKind::Block(b) => SpecExprKind::Block(fold_block_model(b)),
        SpecExprKind::Group(e) => SpecExprKind::Group(Box::new(fold_expr_model(*e))),
        SpecExprKind::Paren(e) => SpecExprKind::Paren(Box::new(fold_expr_model(*e))),
        SpecExprKind::If { cond, then_branch, else_branch } => SpecExprKind::If {
            cond: Box::new(fold_expr_model(*cond)),
            then_branch: fold_block_model(then_branch),
            else_branch: fold_opt_model(else_branch),
        },
        SpecExprKind::IfLet { pat, expr, then_branch, else_branch } => SpecExprKind::IfLet {
            pat,
            expr: Box::new(fold_expr_model(*expr)),
            then_branch: fold_block_model(then_branch),
            else_branch: fold_opt_model(else_branch),
        },
        SpecExprKind::Match { expr, arms } => SpecExprKind::Match {
            expr: Box::new(fold_expr_model(*expr)),
            arms: fold_arms_model(arms),
        },
        SpecExprKind::Loop { label, body } => SpecExprKind::Loop {
            label,
            body: fold_block_model(body),
        },
        SpecExprKind::ForLoop { label, pat, expr, body } => SpecExprKind::ForLoop {
            label,
            pat,
            expr: Box::new(fold_expr_model(*expr)),
            body: fold_block_model(body),
        },
        SpecExprKind::Closure { by_move, body } => SpecExprKind::Closure {
            by_move,
            body: Box::new(fold_expr_model(*body)),
        },
        SpecExprKind::Break { expr } => SpecExprKind::Break { expr: fold_opt_model(expr) },
        SpecExprKind::Continue => SpecExprKind::Continue,
        SpecExprKind::Return(e) => SpecExprKind::Return(fold_opt_model(e)),
        SpecExprKind::Yield(e) => SpecExprKind::Yield(fold_opt_model(e)),
        SpecExprKind::Try(e) => SpecExprKind::Try(Box::new(fold_expr_model(*e))),
    }
}

/// The poll loop keeps what the marked loop was written with: it evaluates
/// the stream expression once, before the loop; the loop carries the label;
/// each round binds the pattern to the next item and then runs the body,
/// which stands in the loop itself, so that `break` and `continue` in it
/// mean the poll loop.
pub proof fn lemma_poll_loop_keeps_label_pattern_and_body(
    label: Option<SpecIdent>,
    pat: SpecPat,
    stream: SpecExpr,
    body: SpecBlock,
)
    ensures
        ({
            let outer = async_for_model(label, pat, stream, body).kind->Block_0;
            let inner = outer.stmts[1]->Expr_0.kind;
            &&& async_for_model(label, pat, stream, body).attrs.len() == 0
            &&& outer.stmts.len() == 2
            &&& outer.stmts[0] matches SpecStmt::Local(first)
            &&& first.init == Some(stream)
            &&& inner matches SpecExprKind::Loop { label: kept, body: round }
            &&& kept == label
            &&& round.stmts.len() == 2
            &&& round.stmts[0] matches SpecStmt::Local(bound)
            &&& bound.pat == pat
            &&& round.stmts[1] == SpecStmt::Expr(block_expr_model(body))
        }),
{
}

/// The block that takes the next item from `__stream`.
fn next_item(q: &Quoter) -> (r: Block)
    ensures
        r@ == next_item_model(*q),
{
    let poll = try_expr(
        q.span,
        call(
            q.span,
            path_expr(q.span, poll_path(q, "Stream")),
            exprs1(reference_mut(q.span, path_expr(q.span, q.root(false, "__stream")))),
        ),
    );
    let item = match_expr(
        q.span,
        path_expr(q.span, q.root(false, "e")),
        arms2(
            arm(
                tuple_struct1(rt_path(q, "Some"), binding(false, q.ident("e"))),
                path_expr(q.span, q.root(false, "e")),
            ),
            arm(Pat::Path(rt_path(q, "None")), break_expr(q.span, None)),
        ),
    );
    let pending = block_expr(
        block(
            q.span,
            stmts2(
                Stmt::Semi(yield_expr(q.span, Some(not_ready(q)))),
                Stmt::Semi(continue_expr(q.span)),
            ),
        ),
    );
    let outcome = match_expr(
        q.span,
        path_expr(q.span, q.root(false, "r")),
        arms2(
            arm(tuple_struct1(async_variant(q, "Ready"), binding(false, q.ident("e"))), item),
            arm(Pat::Path(async_variant(q, "NotReady")), pending),
        ),
    );
    block(
        q.span,
        stmts3(
            Stmt::Item(Item::ExternCrate(q.ident("futures_await"))),
            let_stmt(binding(false, q.ident("r")), poll),
            Stmt::Expr(outcome),
        ),
    )
}

/// The poll loop for `'label: for pat in stream body`.
fn async_for(label: Option<Lifetime>, pat: Pat, stream: Expr, body: Block) -> (r: Expr)
    ensures
        r@ == async_for_model(opt_lifetime_model(label), pat@, stream@, body@),
{
    let q = Quoter::new_call_site();
    let loop_body = block(
        q.span,
        stmts2(let_stmt(pat, block_expr(next_item(&q))), Stmt::Expr(block_expr(body))),
    );
    block_expr(
        block(
            q.span,
            stmts2(
                let_stmt(binding(true, q.ident("__stream")), stream),
                Stmt::Expr(loop_expr(q.span, label, loop_body)),
            ),
        ),
    )
}

/// Whether `attrs` is the marker of an asynchronous loop.
fn has_async_marker(attrs: &Vec<Attribute>) -> (b: bool)
    ensures
        b == is_async_marker(attrs_model(attrs@)),
{
    attrs.len() == 1 && attrs[0].head.is("async")
}

/// The expander of `#[async] for` loops.
#[derive(Clone, Copy, Debug, PartialEq, Eq)]
pub struct ExpandAsyncFor;

impl ExpandAsyncFor {
    /// Expands every marked loop in `expr`, innermost first.
    pub fn fold_expr(&mut self, expr: Expr) -> (r: Expr)
        ensures
            r@ == fold_expr_model(expr@),
        decreases expr,
    {
        let Expr { attrs, span, kind } = expr;
        let kind = self.fold_kind(kind);
        if has_async_marker(&attrs) {
            match kind {
                ExprKind::ForLoop { label, pat, expr, body } => async_for(label, pat, *expr, body),
                other => Expr { attrs, span, kind: other },
            }
        } else {
            Expr { attrs, span, kind }
        }
    }

    /// An item is never entered: a function declared in a body is expanded
    /// on its own.
    pub fn fold_item(&mut self, item: Item) -> (r: Item)
        ensures
            r == item,
    {
        item
    }

    /// Expands every marked loop in the statements of `block`.
    pub fn fold_block(&mut self, block: Block) -> (r: Block)
        ensures
            r@ == fold_block_model(block@),
        decreases block,
    {
        let ghost before = block@;
        let Block { span, stmts } = block;
        let ghost orig = stmts@;
        let mut out: Vec<Stmt> = Vec::new();
        for s in it: stmts
            invariant
                it.seq() == orig,
                out@.len() == it.index(),
                forall|j: int| 0 <= j < out@.len() ==> (#[trigger] out@[j])@ == fold_stmt_model(orig[j]@),
                forall|j: int| 0 <= j < orig.len() ==> decreases_to!(block => #[trigger] orig[j]),
        {
            let s = self.fold_stmt(s);
            out.push(s);
        }
        let r = Block { span, stmts: out };
        assert(r@.stmts =~= fold_block_model(before).stmts);
        r
    }

    /// Expands the marked loops in one statement.
    pub fn fold_stmt(&mut self, stmt: Stmt) -> (r: Stmt)
        ensures
            r@ == fold_stmt_model(stmt@),
        decreases stmt,
    {
        match stmt {
            Stmt::Local(l) => {
                let Local { pat, ty, init } = l;
                let init = match init {
                    Some(e) => Some(self.fold_expr(e)),
                    None => None,
                };
                Stmt::Local(Local { pat, ty, init })
            },
            Stmt::Item(i) => Stmt::Item(self.fold_item(i)),
            Stmt::Expr(e) => Stmt::Expr(self.fold_expr(e)),
            Stmt::Semi(e) => Stmt::Semi(self.fold_expr(e)),
        }
    }

    fn fold_exprs(&mut self, exprs: Vec<Expr>) -> (r: Vec<Expr>)
        ensures
            exprs_model(r) == fold_exprs_model(exprs_model(exprs)),
        decreases exprs,
    {
        let ghost orig = exprs@;
        let mut out: Vec<Expr> = Vec::new();
        for e in it: exprs
            invariant
                it.seq() == orig,
                out@.len() == it.index(),
                forall|j: int| 0 <= j < out@.len() ==> (#[trigger] out@[j])@ == fold_expr_model(orig[j]@),
                forall|j: int| 0 <= j < orig.len() ==> decreases_to!(exprs => #[trigger] orig[j]),
        {
            let e = self.fold_expr(e);
            out.push(e);
        }
        assert(exprs_model(out) =~= fold_exprs_model(exprs_model(exprs)));
        out
    }

    fn fold_opt(&mut self, e: Option<Box<Expr>>) -> (r: Option<Box<Expr>>)
        ensures
            opt_expr_model(r) == fold_opt_model(opt_expr_model(e)),
        decreases e,
    {
        match e {
            Some(b) => Some(Box::new(self.fold_expr(*b))),
            None => None,
        }
    }

    fn fold_arms(&mut self, arms: Vec<Arm>) -> (r: Vec<Arm>)
        ensures
            arms_model(r) == fold_arms_model(arms_model(arms)),
        decreases arms,
    {
        let ghost orig = arms@;
        let mut out: Vec<Arm> = Vec::new();
        for a in it: arms
            invariant
                it.seq() == orig,
                out@.len() == it.index(),
                forall|j: int| 0 <= j < out@.len() ==> (#[trigger] out@[j])@ == fold_arm_model(orig[j]@),
                forall|j: int| 0 <= j < orig.len() ==> decreases_to!(arms => #[trigger] orig[j]),
        {
            let Arm { pat, guard, body } = a;
            let guard = match guard {
                Some(g) => Some(self.fold_expr(g)),
                None => None,
            };
            let body = self.fold_expr(body);
            out.push(Arm { pat, guard, body });
        }
        assert(arms_model(out) =~= fold_arms_model(arms_model(arms)));
        out
    }

    fn fold_kind(&mut self, kind: ExprKind) -> (r: ExprKind)
        ensures
            r@ == fold_kind_model(kind@),
        decreases kind,
    {
        match kind {
            ExprKind::Other { handle, children } => ExprKind::Other {
                handle,
                children: self.fold_exprs(children),
            },
            ExprKind::Path(p) => ExprKind::Path(p),
            ExprKind::Bool(b) => ExprKind::Bool(b),
            ExprKind::Call { func, args } => {
                let func = self.fold_expr(*func);
                let args = self.fold_exprs(args);
                ExprKind::Call { func: Box::new(func), args }
            },
            ExprKind::Reference { mutable, expr } => ExprKind::Reference {
                mutable,
                expr: Box::new(self.fold_expr(*expr)),
            },
            ExprKind::Block(b) => ExprKind::Block(self.fold_block(b)),
            ExprKind::Group(e) => ExprKind::Group(Box::new(self.fold_expr(*e))),
            ExprKind::Paren(e) => ExprKind::Paren(Box::new(self.fold_expr(*e))),
            ExprKind::If { cond, then_branch, else_branch } => {
                let cond = self.fold_expr(*cond);
                let then_branch = self.fold_block(then_branch);
                let else_branch = self.fold_opt(else_branch);
                ExprKind::If { cond: Box::new(cond), then_branch, else_branch }
            },
            ExprKind::IfLet { pat, expr, then_branch, else_branch } => {
                let expr = self.fold_expr(*expr);
                let then_branch = self.fold_block(then_branch);
                let else_branch = self.fold_opt(else_branch);
                ExprKind::IfLet { pat, expr: Box::new(expr), then_branch, else_branch }
            },
            ExprKind::Match { expr, arms } => {
                let expr = self.fold_expr(*expr);
                let arms = self.fold_arms(arms);
                ExprKind::Match { expr: Box::new(expr), arms }
            },
            ExprKind::Loop { label, body } => ExprKind::Loop { label, body: self.fold_block(body) },
            ExprKind::ForLoop { label, pat, expr, body } => {
                let expr = self.fold_expr(*expr);
                let body = self.fold_block(body);
                ExprKind::ForLoop { label, pat, expr: Box::new(expr), body }
            },
            ExprKind::Closure { by_move, body } => ExprKind::Closure {
                by_move,
                body: Box::new(self.fold_expr(*body)),
            },
            ExprKind::Break { expr } => ExprKind::Break { expr: self.fold_opt(expr) },
            ExprKind::Continue => ExprKind::Continue,
            ExprKind::Return(e) => ExprKind::Return(self.fold_opt(e)),
            ExprKind::Yield(e) => ExprKind::Yield(self.fold_opt(e)),
            ExprKind::Try(e) => ExprKind::Try(Box::new(self.fold_expr(*e))),
        }
    }
}

} // verus!
