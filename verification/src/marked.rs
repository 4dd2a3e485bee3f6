//! Where marked loops stand in a body, and what the expansion of
//! `#[async] for` guarantees about them: it leaves none behind, and it
//! changes nothing where there is none.  A marked loop is therefore expanded
//! exactly once, however often the walk runs.
use crate::expr::{SpecArm, SpecBlock, SpecExpr, SpecExprKind, SpecPat, SpecStmt};
use crate::for_loop::{
    async_for_model, fold_arm_model, fold_arms_model, fold_block_model, fold_expr_model,
    fold_exprs_model, fold_kind_model, fold_opt_model, fold_stmt_model, is_async_for,
    is_async_marker, next_item_model, pending_model, poll_stream_model, ready_item_model,
    var_model,
};
use crate::make::{arm_model, binding_model, block_expr_model, let_model, plain_expr};
use crate::paths::{async_variant_model, not_ready_model, poll_path_model, rt_path_model};
use crate::span::Span;
use crate::ty::SpecIdent;
use crate::util::Quoter;
use vstd::prelude::*;

verus! {

/// Whether a marked loop stands in `e`, outside of items.
pub open spec fn has_marked_loop(e: SpecExpr) -> bool
    decreases e,
{
    is_async_for(e) || kind_has_marked_loop(e.kind)
}

/// Whether a marked loop stands in one of `exprs`.
pub open spec fn exprs_have_marked_loop(exprs: Seq<SpecExpr>) -> bool
    decreases exprs,
{
    exists|i: int| 0 <= i < exprs.len() && has_marked_loop(#[trigger] exprs[i])
}

/// Whether a marked loop stands in the expression, if there is one.
pub open spec fn opt_has_marked_loop(e: Option<Box<SpecExpr>>) -> bool
    decreases e,
{
    match e {
        Some(b) => has_marked_loop(*b),
        None => false,
    }
}

/// Whether a marked loop stands in the guard or the body of `arm`.
pub open spec fn arm_has_marked_loop(arm: SpecArm) -> bool
    decreases arm,
{
    has_marked_loop(arm.body) || match arm.guard {
        Some(g) => has_marked_loop(g),
        None => false,
    }
}

/// Whether a marked loop stands in one of `arms`.
pub open spec fn arms_have_marked_loop(arms: Seq<SpecArm>) -> bool
    decreases arms,
{
    exists|i: int| 0 <= i < arms.len() && arm_has_marked_loop(#[trigger] arms[i])
}

/// Whether a marked loop stands in `stmt`; an item is not looked into.
pub open spec fn stmt_has_marked_loop(stmt: SpecStmt) -> bool
    decreases stmt,
{
    match stmt {
        SpecStmt::Local(l) => match l.init {
            Some(e) => has_marked_loop(e),
            None => false,
        },
        SpecStmt::Item(_) => false,
        SpecStmt::Expr(e) => has_marked_loop(e),
        SpecStmt::Semi(e) => has_marked_loop(e),
    }
}

/// Whether a marked loop stands in a statement of `b`.
pub open spec fn block_has_marked_loop(b: SpecBlock) -> bool
    decreases b,
{
    exists|i: int| 0 <= i < b.stmts.len() && stmt_has_marked_loop(#[trigger] b.stmts[i])
}

/// Whether a marked loop stands in an expression inside one of kind `kind`.
pub open spec fn kind_has_marked_loop(kind: SpecExprKind) -> bool
    decreases kind,
{
    match kind {
        SpecExprKind::Other { handle, children } => exprs_have_marked_loop(children),
        SpecExprKind::Path(_) => false,
        SpecExprKind::Bool(_) => false,
        SpecExprKind::Call { func, args } => has_marked_loop(*func) || exprs_have_marked_loop(
            args,
        ),
        SpecExprKind::Reference { mutable, expr } => has_marked_loop(*expr),
        SpecExprKind::Block(b) => block_has_marked_loop(b),
        SpecExprKind::Group(e) => has_marked_loop(*e),
        SpecExprKind::Paren(e) => has_marked_loop(*e),
        SpecExprKind::If { cond, then_branch, else_branch } => has_marked_loop(*cond)
            || block_has_marked_loop(then_branch) || opt_has_marked_loop(else_branch),
        SpecExprKind::IfLet { pat, expr, then_branch, else_branch } => has_marked_loop(*expr)
            || block_has_marked_loop(then_branch) || opt_has_marked_loop(else_branch),
        SpecExprKind::Match { expr, arms } => has_marked_loop(*expr) || arms_have_marked_loop(
            arms,
        ),
        SpecExprKind::Loop { label, body } => block_has_marked_loop(body),
        SpecExprKind::ForLoop { label, pat, expr, body } => has_marked_loop(*expr)
            || block_has_marked_loop(body),
        SpecExprKind::Closure { by_move, body } => has_marked_loop(*body),
        SpecExprKind::Break { expr } => opt_has_marked_loop(expr),
        SpecExprKind::Continue => false,
        SpecExprKind::Return(e) => opt_has_marked_loop(e),
        SpecExprKind::Yield(e) => opt_has_marked_loop(e),
        SpecExprKind::Try(e) => has_marked_loop(*e),
    }
}

/// An expression without a marked loop is left as it is.
pub proof fn lemma_unmarked_expr_is_kept(e: SpecExpr)
    requires
        !has_marked_loop(e),
    ensures
        fold_expr_model(e) == e,
    decreases e,
{
    lemma_unmarked_kind_is_kept(e.kind);
}

proof fn lemma_unmarked_exprs_are_kept(exprs: Seq<SpecExpr>)
    requires
        !exprs_have_marked_loop(exprs),
    ensures
        fold_exprs_model(exprs) == exprs,
    decreases exprs,
{
    assert forall|i: int| 0 <= i < exprs.len() implies fold_expr_model(exprs[i]) == exprs[i] by {
        assert(!has_marked_loop(exprs[i]));
        lemma_unmarked_expr_is_kept(exprs[i]);
    }
    assert(fold_exprs_model(exprs) =~= exprs);
}

proof fn lemma_unmarked_opt_is_kept(e: Option<Box<SpecExpr>>)
    requires
        !opt_has_marked_loop(e),
    ensures
        fold_opt_model(e) == e,
    decreases e,
{
    match e {
        Some(b) => {
            lemma_unmarked_expr_is_kept(*b);
        },
        None => {},
    }
}

proof fn lemma_unmarked_arms_are_kept(arms: Seq<SpecArm>)
    requires
        !arms_have_marked_loop(arms),
    ensures
        fold_arms_model(arms) == arms,
    decreases arms,
{
    assert forall|i: int| 0 <= i < arms.len() implies fold_arm_model(arms[i]) == arms[i] by {
        assert(!arm_has_marked_loop(arms[i]));
        lemma_unmarked_expr_is_kept(arms[i].body);
        match arms[i].guard {
            Some(g) => {
                lemma_unmarked_expr_is_kept(g);
            },
            None => {},
        }
    }
    assert(fold_arms_model(arms) =~= arms);
}

/// A block without a marked loop is left as it is.
pub proof fn lemma_unmarked_block_is_kept(b: SpecBlock)
    requires
        !block_has_marked_loop(b),
    ensures
        fold_block_model(b) == b,
    decreases b,
{
    assert forall|i: int| 0 <= i < b.stmts.len() implies fold_stmt_model(b.stmts[i])
        == b.stmts[i] by {
        assert(!stmt_has_marked_loop(b.stmts[i]));
        match b.stmts[i] {
            SpecStmt::Local(l) => match l.init {
                Some(e) => {
                    lemma_unmarked_expr_is_kept(e);
                },
                None => {},
            },
            SpecStmt::Item(_) => {},
            SpecStmt::Expr(e) => {
                lemma_unmarked_expr_is_kept(e);
            },
            SpecStmt::Semi(e) => {
                lemma_unmarked_expr_is_kept(e);
            },
        }
    }
    assert(fold_block_model(b).stmts =~= b.stmts);
}

proof fn lemma_unmarked_kind_is_kept(kind: SpecExprKind)
    requires
        !kind_has_marked_loop(kind),
    ensures
        fold_kind_model(kind) == kind,
    decreases kind,
{
    match kind {
        SpecExprKind::Other { handle, children } => {
            lemma_unmarked_exprs_are_kept(children);
        },
        SpecExprKind::Path(_) => {},
        SpecExprKind::Bool(_) => {},
        SpecExprKind::Call { func, args } => {
            lemma_unmarked_expr_is_kept(*func);
            lemma_unmarked_exprs_are_kept(args);
        },
        SpecExprKind::Reference { mutable, expr } => {
            lemma_unmarked_expr_is_kept(*expr);
        },
        SpecExprKind::Block(b) => {
            lemma_unmarked_block_is_kept(b);
        },
        SpecExprKind::Group(e) => {
            lemma_unmarked_expr_is_kept(*e);
        },
        SpecExprKind::Paren(e) => {
            lemma_unmarked_expr_is_kept(*e);
        },
        SpecExprKind::If { cond, then_branch, else_branch } => {
            lemma_unmarked_expr_is_kept(*cond);
            lemma_unmarked_block_is_kept(then_branch);
            lemma_unmarked_opt_is_kept(else_branch);
        },
        SpecExprKind::IfLet { pat, expr, then_branch, else_branch } => {
            lemma_unmarked_expr_is_kept(*expr);
            lemma_unmarked_block_is_kept(then_branch);
            lemma_unmarked_opt_is_kept(else_branch);
        },
        SpecExprKind::Match { expr, arms } => {
            lemma_unmarked_expr_is_kept(*expr);
            lemma_unmarked_arms_are_kept(arms);
        },
        SpecExprKind::Loop { label, body } => {
            lemma_unmarked_block_is_kept(body);
        },
        SpecExprKind::ForLoop { label, pat, expr, body } => {
            lemma_unmarked_expr_is_kept(*expr);
            lemma_unmarked_block_is_kept(body);
        },
        SpecExprKind::Closure { by_move, body } => {
            lemma_unmarked_expr_is_kept(*body);
        },
        SpecExprKind::Break { expr } => {
            lemma_unmarked_opt_is_kept(expr);
        },
        SpecExprKind::Continue => {},
        SpecExprKind::Return(e) => {
            lemma_unmarked_opt_is_kept(e);
        },
        SpecExprKind::Yield(e) => {
            lemma_unmarked_opt_is_kept(e);
        },
        SpecExprKind::Try(e) => {
            lemma_unmarked_expr_is_kept(*e);
        },
    }
}

/// The block that takes the next item holds no marked loop.
proof fn lemma_next_item_is_unmarked(q: Quoter)
    ensures
        !block_has_marked_loop(next_item_model(q)),
{
    // the poll
    let stream = var_model(q, "__stream"@);
    assert(!has_marked_loop(stream));
    let borrowed = plain_expr(
        q.span,
        SpecExprKind::Reference { mutable: true, expr: Box::new(stream) },
    );
    assert(!has_marked_loop(borrowed));
    let func = plain_expr(q.span, SpecExprKind::Path(poll_path_model(q, "Stream"@)));
    assert(!has_marked_loop(func));
    let args = seq![borrowed];
    assert(!exprs_have_marked_loop(args));
    let called = plain_expr(q.span, SpecExprKind::Call { func: Box::new(func), args });
    assert(!has_marked_loop(called));
    assert(!has_marked_loop(poll_stream_model(q)));
    // a ready answer
    let e = var_model(q, "e"@);
    assert(!has_marked_loop(e));
    let leave = plain_expr(q.span, SpecExprKind::Break { expr: None });
    assert(!opt_has_marked_loop(None));
    assert(!kind_has_marked_loop(leave.kind));
    assert(!has_marked_loop(leave));
    let some = arm_model(
        SpecPat::TupleStruct {
            path: rt_path_model(q, "Some"@),
            elems: seq![binding_model(false, q.stamp("e"@))],
        },
        e,
    );
    let none = arm_model(SpecPat::Path(rt_path_model(q, "None"@)), leave);
    assert(!arm_has_marked_loop(some));
    assert(!arm_has_marked_loop(none));
    assert(!arms_have_marked_loop(seq![some, none]));
    assert(!has_marked_loop(ready_item_model(q)));
    // no answer yet
    let sentinel = not_ready_model(q);
    assert(!has_marked_loop(sentinel)) by {
        let path = plain_expr(
            q.span,
            SpecExprKind::Path(q.join_model(rt_path_model(q, "YieldType"@), "not_ready"@)),
        );
        assert(!has_marked_loop(path));
        assert(!exprs_have_marked_loop(Seq::<SpecExpr>::empty()));
    }
    let yielded = plain_expr(q.span, SpecExprKind::Yield(Some(Box::new(sentinel))));
    assert(!opt_has_marked_loop(Some(Box::new(sentinel))));
    assert(!kind_has_marked_loop(yielded.kind));
    assert(!has_marked_loop(yielded));
    let round = plain_expr(q.span, SpecExprKind::Continue);
    assert(!has_marked_loop(round));
    let waiting = SpecBlock {
        span: q.span,
        stmts: seq![SpecStmt::Semi(yielded), SpecStmt::Semi(round)],
    };
    assert(!stmt_has_marked_loop(waiting.stmts[0]));
    assert(!stmt_has_marked_loop(waiting.stmts[1]));
    assert(!block_has_marked_loop(waiting));
    assert(!has_marked_loop(pending_model(q)));
    // the whole
    let ready = arm_model(
        SpecPat::TupleStruct {
            path: async_variant_model(q, "Ready"@),
            elems: seq![binding_model(false, q.stamp("e"@))],
        },
        ready_item_model(q),
    );
    let pending = arm_model(SpecPat::Path(async_variant_model(q, "NotReady"@)), pending_model(q));
    assert(!arm_has_marked_loop(ready));
    assert(!arm_has_marked_loop(pending));
    assert(!arms_have_marked_loop(seq![ready, pending]));
    let r = var_model(q, "r"@);
    assert(!has_marked_loop(r));
    let outcome = plain_expr(
        q.span,
        SpecExprKind::Match { expr: Box::new(r), arms: seq![ready, pending] },
    );
    assert(!has_marked_loop(outcome));
    let b = next_item_model(q);
    assert(!stmt_has_marked_loop(b.stmts[0]));
    assert(!stmt_has_marked_loop(b.stmts[1]));
    assert(b.stmts[2] == SpecStmt::Expr(outcome));
    assert(!stmt_has_marked_loop(b.stmts[2]));
}

/// The poll loop of a marked loop holds no marked loop, where the stream and
/// the body hold none.
proof fn lemma_poll_loop_is_unmarked(
    label: Option<SpecIdent>,
    pat: SpecPat,
    stream: SpecExpr,
    body: SpecBlock,
)
    requires
        !has_marked_loop(stream),
        !block_has_marked_loop(body),
    ensures
        !has_marked_loop(async_for_model(label, pat, stream, body)),
{
    let q = Quoter { span: Span::CallSite, pin_crates: false };
    lemma_next_item_is_unmarked(q);
    let next = block_expr_model(next_item_model(q));
    assert(!has_marked_loop(next));
    let written = block_expr_model(body);
    assert(!has_marked_loop(written));
    let loop_body = SpecBlock {
        span: q.span,
        stmts: seq![let_model(pat, next), SpecStmt::Expr(written)],
    };
    assert(!stmt_has_marked_loop(loop_body.stmts[0]));
    assert(!stmt_has_marked_loop(loop_body.stmts[1]));
    assert(!block_has_marked_loop(loop_body));
    let poll_loop = plain_expr(q.span, SpecExprKind::Loop { label, body: loop_body });
    assert(!has_marked_loop(poll_loop));
    let outer = SpecBlock {
        span: q.span,
        stmts: seq![
            let_model(binding_model(true, q.stamp("__stream"@)), stream),
            SpecStmt::Expr(poll_loop),
        ],
    };
    assert(!stmt_has_marked_loop(outer.stmts[0]));
    assert(!stmt_has_marked_loop(outer.stmts[1]));
    assert(!block_has_marked_loop(outer));
    assert(async_for_model(label, pat, stream, body) == block_expr_model(outer));
}

/// After the expansion no marked loop is left in an expression.
pub proof fn lemma_expansion_leaves_no_marked_loop(e: SpecExpr)
    ensures
        !has_marked_loop(fold_expr_model(e)),
    decreases e,
{
    lemma_kind_expansion_leaves_no_marked_loop(e.kind);
    let kind = fold_kind_model(e.kind);
    if is_async_marker(e.attrs) {
        match kind {
            SpecExprKind::ForLoop { label, pat, expr, body } => {
                lemma_poll_loop_is_unmarked(label, pat, *expr, body);
            },
            _ => {},
        }
    }
}

proof fn lemma_exprs_expansion_leaves_no_marked_loop(exprs: Seq<SpecExpr>)
    ensures
        !exprs_have_marked_loop(fold_exprs_model(exprs)),
    decreases exprs,
{
    let folded = fold_exprs_model(exprs);
    assert forall|i: int| 0 <= i < folded.len() implies !has_marked_loop(folded[i]) by {
        lemma_expansion_leaves_no_marked_loop(exprs[i]);
    }
}

proof fn lemma_opt_expansion_leaves_no_marked_loop(e: Option<Box<SpecExpr>>)
    ensures
        !opt_has_marked_loop(fold_opt_model(e)),
    decreases e,
{
    match e {
        Some(b) => {
            lemma_expansion_leaves_no_marked_loop(*b);
        },
        None => {},
    }
}

proof fn lemma_arms_expansion_leaves_no_marked_loop(arms: Seq<SpecArm>)
    ensures
        !arms_have_marked_loop(fold_arms_model(arms)),
    decreases arms,
{
    let folded = fold_arms_model(arms);
    assert forall|i: int| 0 <= i < folded.len() implies !arm_has_marked_loop(folded[i]) by {
        lemma_expansion_leaves_no_marked_loop(arms[i].body);
        match arms[i].guard {
            Some(g) => {
                lemma_expansion_leaves_no_marked_loop(g);
            },
            None => {},
        }
    }
}

/// After the expansion no marked loop is left in a block.
pub proof fn lemma_block_expansion_leaves_no_marked_loop(b: SpecBlock)
    ensures
        !block_has_marked_loop(fold_block_model(b)),
    decreases b,
{
    let folded = fold_block_model(b);
    assert forall|i: int| 0 <= i < folded.stmts.len() implies !stmt_has_marked_loop(
        folded.stmts[i],
    ) by {
        match b.stmts[i] {
            SpecStmt::Local(l) => match l.init {
                Some(e) => {
                    lemma_expansion_leaves_no_marked_loop(e);
                },
                None => {},
            },
            SpecStmt::Item(_) => {},
            SpecStmt::Expr(e) => {
                lemma_expansion_leaves_no_marked_loop(e);
            },
            SpecStmt::Semi(e) => {
                lemma_expansion_leaves_no_marked_loop(e);
            },
        }
    }
}

proof fn lemma_kind_expansion_leaves_no_marked_loop(kind: SpecExprKind)
    ensures
        !kind_has_marked_loop(fold_kind_model(kind)),
    decreases kind,
{
    match kind {
        SpecExprKind::Other { handle, children } => {
            lemma_exprs_expansion_leaves_no_marked_loop(children);
        },
        SpecExprKind::Path(_) => {},
        SpecExprKind::Bool(_) => {},
        SpecExprKind::Call { func, args } => {
            lemma_expansion_leaves_no_marked_loop(*func);
            lemma_exprs_expansion_leaves_no_marked_loop(args);
        },
        SpecExprKind::Reference { mutable, expr } => {
            lemma_expansion_leaves_no_marked_loop(*expr);
        },
        SpecExprKind::Block(b) => {
            lemma_block_expansion_leaves_no_marked_loop(b);
        },
        SpecExprKind::Group(e) => {
            lemma_expansion_leaves_no_marked_loop(*e);
        },
        SpecExprKind::Paren(e) => {
            lemma_expansion_leaves_no_marked_loop(*e);
        },
        SpecExprKind::If { cond, then_branch, else_branch } => {
            lemma_expansion_leaves_no_marked_loop(*cond);
            lemma_block_expansion_leaves_no_marked_loop(then_branch);
            lemma_opt_expansion_leaves_no_marked_loop(else_branch);
        },
        SpecExprKind::IfLet { pat, expr, then_branch, else_branch } => {
            lemma_expansion_leaves_no_marked_loop(*expr);
            lemma_block_expansion_leaves_no_marked_loop(then_branch);
            lemma_opt_expansion_leaves_no_marked_loop(else_branch);
        },
        SpecExprKind::Match { expr, arms } => {
            lemma_expansion_leaves_no_marked_loop(*expr);
            lemma_arms_expansion_leaves_no_marked_loop(arms);
        },
        SpecExprKind::Loop { label, body } => {
            lemma_block_expansion_leaves_no_marked_loop(body);
        },
        SpecExprKind::ForLoop { label, pat, expr, body } => {
            lemma_expansion_leaves_no_marked_loop(*expr);
            lemma_block_expansion_leaves_no_marked_loop(body);
        },
        SpecExprKind::Closure { by_move, body } => {
            lemma_expansion_leaves_no_marked_loop(*body);
        },
        SpecExprKind::Break { expr } => {
            lemma_opt_expansion_leaves_no_marked_loop(expr);
        },
        SpecExprKind::Continue => {},
        SpecExprKind::Return(e) => {
            lemma_opt_expansion_leaves_no_marked_loop(e);
        },
        SpecExprKind::Yield(e) => {
            lemma_opt_expansion_leaves_no_marked_loop(e);
        },
        SpecExprKind::Try(e) => {
            lemma_expansion_leaves_no_marked_loop(*e);
        },
    }
}

/// Expanding twice gives what expanding once gives: no loop is expanded a
/// second time.
pub proof fn lemma_expansion_is_idempotent(e: SpecExpr)
    ensures
        fold_expr_model(fold_expr_model(e)) == fold_expr_model(e),
{
    lemma_expansion_leaves_no_marked_loop(e);
    lemma_unmarked_expr_is_kept(fold_expr_model(e));
}

} // verus!
