//! Expansion of `await!(expr)` into a loop that polls and yields.
//!
//! The branches of one `await!` may hold futures of different types: the
//! expansion descends through grouping, parentheses, blocks, `if`, `if let`
//! and `match` to the expressions in tail position and wraps each of them in
//! a poll loop of its own.
//!
//! The tail position rule: of a block, only the last statement counts, and
//! only where it is an expression without a semicolon.  A block that is
//! empty, or that ends in a `let`, an item or an expression with a
//! semicolon, has no value that could be awaited; the expansion fails and
//! names what it found.  Conditions, scrutinees, guards, `let` initializers
//! and items are never entered.
use crate::expr::{
    arms_model, Arm, Block, Expr, ExprKind, Item, Local, Pat, SpecArm, SpecBlock, SpecExpr,
    SpecExprKind, SpecItem, SpecPat, SpecStmt, Stmt,
};
use crate::make::{
    arm, arm_model, arms3, binding, binding_model, block, block_expr, block_expr_model, break_expr,
    call, exprs1, let_model, let_stmt, loop_expr, match_expr, no_stmts, path_expr, plain_expr,
    reference_mut, stmts1, stmts2, stmts3, tuple_struct1, yield_expr,
};
use crate::paths::{
    async_variant, async_variant_model, not_ready, not_ready_model, poll_path, poll_path_model,
    result_variant, result_variant_model,
};
use crate::span::Span;
use crate::util::Quoter;
use vstd::prelude::*;

verus! {

/// Why an `await!` cannot be expanded: what stands where the awaited value
/// should.  Each error holds the position of the braces of the block that
/// has no value.
#[derive(Clone, Copy, Debug, PartialEq, Eq, Structural)]
pub enum AwaitError {
    /// A block in tail position has no statement.
    EmptyBlock(Span),
    /// A block in tail position ends in a `let`.
    TailIsLocal(Span),
    /// A block in tail position ends in an item.
    TailIsItem(Span),
    /// A block in tail position ends in an expression with a semicolon.
    TailIsSemi(Span),
}

/// `break futures_await::__rt::std::result::Result::variant(name)`
pub open spec fn break_with_model(q: Quoter, variant: Seq<char>, name: Seq<char>) -> SpecExpr {
    plain_expr(
        q.span,
        SpecExprKind::Break {
            expr: Some(
                Box::new(
                    plain_expr(
                        q.span,
                        SpecExprKind::Call {
                            func: Box::new(
                                plain_expr(
                                    q.span,
                                    SpecExprKind::Path(result_variant_model(q, variant)),
                                ),
                            ),
                            args: seq![
                                plain_expr(
                                    q.span,
                                    SpecExprKind::Path(q.root_model(false, name)),
                                ),
                            ],
                        },
                    ),
                ),
            ),
        },
    )
}

/// The three arms that tell the outcomes of one poll apart.
pub open spec fn await_arms_model(q: Quoter) -> Seq<SpecArm> {
    seq![
        arm_model(
            SpecPat::TupleStruct {
                path: result_variant_model(q, "Ok"@),
                elems: seq![
                    SpecPat::TupleStruct {
                        path: async_variant_model(q, "Ready"@),
                        elems: seq![binding_model(false, q.stamp("await_ok"@))],
                    },
                ],
            },
            block_expr_model(
                SpecBlock {
                    span: q.span,
                    stmts: seq![SpecStmt::Semi(break_with_model(q, "Ok"@, "await_ok"@))],
                },
            ),
        ),
        arm_model(
            SpecPat::TupleStruct {
                path: result_variant_model(q, "Ok"@),
                elems: seq![SpecPat::Path(async_variant_model(q, "NotReady"@))],
            },
            block_expr_model(SpecBlock { span: q.span, stmts: Seq::empty() }),
        ),
        arm_model(
            SpecPat::TupleStruct {
                path: result_variant_model(q, "Err"@),
                elems: seq![binding_model(false, q.stamp("await_err"@))],
            },
            block_expr_model(
                SpecBlock {
                    span: q.span,
                    stmts: seq![SpecStmt::Semi(break_with_model(q, "Err"@, "await_err"@))],
                },
            ),
        ),
    ]
}

/// The poll loop that `await!(fut)` stands for, every token of it at the
/// position of `fut`:
///
/// ```text
/// {
///     let mut future_in_await = fut;
///     loop {
///         extern crate futures_await;
///         match futures_await::Future::poll(&mut future_in_await) {
///             futures_await::__rt::std::result::Result::Ok(
///                 futures_await::Async::Ready(await_ok),
///             ) => {
///                 break futures_await::__rt::std::result::Result::Ok(await_ok);
///             }
///             futures_await::__rt::std::result::Result::Ok(
///                 futures_await::Async::NotReady,
///             ) => {}
///             futures_await::__rt::std::result::Result::Err(await_err) => {
///                 break futures_await::__rt::std::result::Result::Err(await_err);
///             }
///         }
///         yield futures_await::__rt::YieldType::not_ready();
///     }
/// }
/// ```
pub open spec fn await_block_model(fut: SpecExpr) -> SpecBlock {
    let q = Quoter { span: fut.span, pin_crates: false };
    let poll = plain_expr(
        q.span,
        SpecExprKind::Call {
            func: Box::new(plain_expr(q.span, SpecExprKind::Path(poll_path_model(q, "Future"@)))),
            args: seq![
                plain_expr(
                    q.span,
                    SpecExprKind::Reference {
                        mutable: true,
                        expr: Box::new(
                            plain_expr(
                                q.span,
                                SpecExprKind::Path(q.root_model(false, "future_in_await"@)),
                            ),
                        ),
                    },
                ),
            ],
        },
    );
    let body = SpecBlock {
        span: q.span,
        stmts: seq![
            SpecStmt::Item(SpecItem::ExternCrate(q.stamp("futures_await"@))),
            SpecStmt::Expr(
                plain_expr(
                    q.span,
                    SpecExprKind::Match { expr: Box::new(poll), arms: await_arms_model(q) },
                ),
            ),
            SpecStmt::Semi(
                plain_expr(q.span, SpecExprKind::Yield(Some(Box::new(not_ready_model(q))))),
            ),
        ],
    };
    SpecBlock {
        span: q.span,
        stmts: seq![
            let_model(binding_model(true, q.stamp("future_in_await"@)), fut),
            SpecStmt::Expr(plain_expr(q.span, SpecExprKind::Loop { label: None, body })),
        ],
    }
}

/// `e` with a poll loop around each expression in tail position, or the
/// error of the first block, in source order, that has no tail expression.
pub open spec fn fold_expr_model(e: SpecExpr) -> Result<SpecExpr, AwaitError>
    decreases e,
{
    match e.kind {
        SpecExprKind::Group(inner) => match fold_expr_model(*inner) {
            Ok(inner) => Ok(
                SpecExpr {
                    attrs: e.attrs,
                    span: e.span,
                    kind: SpecExprKind::Group(Box::new(inner)),
                },
            ),
            Err(x) => Err(x),
        },
        SpecExprKind::Paren(inner) => match fold_expr_model(*inner) {
            Ok(inner) => Ok(
                SpecExpr {
                    attrs: e.attrs,
                    span: e.span,
                    kind: SpecExprKind::Paren(Box::new(inner)),
                },
            ),
            Err(x) => Err(x),
        },
        SpecExprKind::Block(b) => match fold_block_model(b) {
            Ok(b) => Ok(SpecExpr { attrs: e.attrs, span: e.span, kind: SpecExprKind::Block(b) }),
            Err(x) => Err(x),
        },
        SpecExprKind::If { cond, then_branch, else_branch } => match fold_block_model(
            then_branch,
        ) {
            Ok(then_branch) => match fold_else_model(else_branch) {
                Ok(else_branch) => Ok(
                    SpecExpr {
                        attrs: e.attrs,
                        span: e.span,
                        kind: SpecExprKind::If { cond, then_branch, else_branch },
                    },
                ),
                Err(x) => Err(x),
            },
            Err(x) => Err(x),
        },
        SpecExprKind::IfLet { pat, expr, then_branch, else_branch } => match fold_block_model(
            then_branch,
        ) {
            Ok(then_branch) => match fold_else_model(else_branch) {
                Ok(else_branch) => Ok(
                    SpecExpr {
                        attrs: e.attrs,
                        span: e.span,
                        kind: SpecExprKind::IfLet { pat, expr, then_branch, else_branch },
                    },
                ),
                Err(x) => Err(x),
            },
            Err(x) => Err(x),
        },
        SpecExprKind::Match { expr, arms } => match fold_arms_model(arms) {
            Ok(arms) => Ok(
                SpecExpr { attrs: e.attrs, span: e.span, kind: SpecExprKind::Match { expr, arms } },
            ),
            Err(x) => Err(x),
        },
        _ => Ok(block_expr_model(await_block_model(e))),
    }
}

/// The `else` branch of a conditional, expanded where there is one.
pub open spec fn fold_else_model(e: Option<Box<SpecExpr>>) -> Result<
    Option<Box<SpecExpr>>,
    AwaitError,
>
    decreases e,
{
    match e {
        Some(b) => match fold_expr_model(*b) {
            Ok(r) => Ok(Some(Box::new(r))),
            Err(x) => Err(x),
        },
        None => Ok(None),
    }
}

/// `arms` with the body of each arm expanded, or the error of the first arm
/// whose body cannot be.
pub open spec fn fold_arms_model(arms: Seq<SpecArm>) -> Result<Seq<SpecArm>, AwaitError>
    decreases arms, arms.len(),
{
    if arms.len() == 0 {
        Ok(Seq::empty())
    } else {
        match fold_arms_model(arms.drop_last()) {
            Ok(init) => match fold_expr_model(arms.last().body) {
                Ok(body) => Ok(
                    init.push(SpecArm { pat: arms.last().pat, guard: arms.last().guard, body }),
                ),
                Err(x) => Err(x),
            },
            Err(x) => Err(x),
        }
    }
}

/// `b` with its tail expression expanded, or the reason why it has none.
pub open spec fn fold_block_model(b: SpecBlock) -> Result<SpecBlock, AwaitError>
    decreases b,
{
    if b.stmts.len() == 0 {
        Err(AwaitError::EmptyBlock(b.span))
    } else {
        match b.stmts.last() {
            SpecStmt::Local(_) => Err(AwaitError::TailIsLocal(b.span)),
            SpecStmt::Item(_) => Err(AwaitError::TailIsItem(b.span)),
            SpecStmt::Semi(_) => Err(AwaitError::TailIsSemi(b.span)),
            SpecStmt::Expr(e) => match fold_expr_model(e) {
                Ok(e) => Ok(
                    SpecBlock { span: b.span, stmts: b.stmts.drop_last().push(SpecStmt::Expr(e)) },
                ),
                Err(x) => Err(x),
            },
        }
    }
}

/// The emitted loop awaits the expression that it was made for: the first
/// statement binds it, as written, to the variable that the loop polls.
pub proof fn lemma_await_block_holds_the_future(fut: SpecExpr)
    ensures
        await_block_model(fut).stmts.len() == 2,
        await_block_model(fut).stmts[0] == SpecStmt::Local(
            crate::expr::SpecLocal {
                pat: SpecPat::Ident {
                    by_ref: false,
                    mutable: true,
                    ident: crate::ty::SpecIdent { name: "future_in_await"@, span: fut.span },
                    subpat: None,
                },
                ty: None,
                init: Some(fut),
            },
        ),
        await_block_model(fut).stmts[1] matches SpecStmt::Expr(e) && e.kind is Loop,
{
}

/// Where a block is expanded, only its tail changes: the statements before
/// it stay as they are, and the tail stays an expression.
pub proof fn lemma_await_keeps_what_precedes_the_tail(b: SpecBlock)
    requires
        fold_block_model(b) is Ok,
    ensures
        ({
            let r = fold_block_model(b)->Ok_0;
            &&& r.span == b.span
            &&& r.stmts.len() == b.stmts.len()
            &&& b.stmts.len() > 0
            &&& forall|i: int| 0 <= i < b.stmts.len() - 1 ==> r.stmts[i] == b.stmts[i]
            &&& b.stmts.last() matches SpecStmt::Expr(tail)
            &&& fold_expr_model(tail) matches Ok(expanded)
            &&& r.stmts.last() == SpecStmt::Expr(expanded)
        }),
{
}

/// An expression that is none of the constructs that the expansion descends
/// through is awaited as it is: it becomes the block that holds its poll
/// loop.
pub proof fn lemma_leaf_is_awaited(e: SpecExpr)
    requires
        !(e.kind is Group),
        !(e.kind is Paren),
        !(e.kind is Block),
        !(e.kind is If),
        !(e.kind is IfLet),
        !(e.kind is Match),
    ensures
        fold_expr_model(e) == Ok::<SpecExpr, AwaitError>(block_expr_model(await_block_model(e))),
{
}

/// `break futures_await::__rt::std::result::Result::variant(name)`
fn break_with(q: &Quoter, variant: &str, name: &str) -> (r: Expr)
    ensures
        r@ == break_with_model(*q, variant@, name@),
{
    let func = path_expr(q.span, result_variant(q, variant));
    let arg = path_expr(q.span, q.root(false, name));
    let value = call(q.span, func, exprs1(arg));
    break_expr(q.span, Some(value))
}

/// The three arms that tell the outcomes of one poll apart.
fn await_arms(q: &Quoter) -> (r: Vec<Arm>)
    ensures
        arms_model(r) == await_arms_model(*q),
{
    let ready = arm(
        tuple_struct1(
            result_variant(q, "Ok"),
            tuple_struct1(async_variant(q, "Ready"), binding(false, q.ident("await_ok"))),
        ),
        block_expr(block(q.span, stmts1(Stmt::Semi(break_with(q, "Ok", "await_ok"))))),
    );
    let pending = arm(
        tuple_struct1(result_variant(q, "Ok"), Pat::Path(async_variant(q, "NotReady"))),
        block_expr(block(q.span, no_stmts())),
    );
    let failed = arm(
        tuple_struct1(result_variant(q, "Err"), binding(false, q.ident("await_err"))),
        block_expr(block(q.span, stmts1(Stmt::Semi(break_with(q, "Err", "await_err"))))),
    );
    arms3(ready, pending, failed)
}

/// Wraps `expr`, a future, in the loop that polls it until it is ready and
/// yields in between.  The loop breaks with the future's result.
pub fn expand_await_block(expr: Expr) -> (r: Block)
    ensures
        r@ == await_block_model(expr@),
{
    let q = Quoter::new(expr.span);
    let poll = call(
        q.span,
        path_expr(q.span, poll_path(&q, "Future")),
        exprs1(reference_mut(q.span, path_expr(q.span, q.root(false, "future_in_await")))),
    );
    let body = block(
        q.span,
        stmts3(
            Stmt::Item(Item::ExternCrate(q.ident("futures_await"))),
            Stmt::Expr(match_expr(q.span, poll, await_arms(&q))),
            Stmt::Semi(yield_expr(q.span, Some(not_ready(&q)))),
        ),
    );
    block(
        q.span,
        stmts2(
            let_stmt(binding(true, q.ident("future_in_await")), expr),
            Stmt::Expr(loop_expr(q.span, None, body)),
        ),
    )
}

/// The block `block` as an expression.
pub fn block_to_expr(block: Block) -> (r: Expr)
    ensures
        r@ == block_expr_model(block@),
{
    block_expr(block)
}

/// An error persists when the list of arms grows.
proof fn lemma_fold_arms_prefix_error(arms: Seq<SpecArm>, n: int)
    requires
        0 <= n <= arms.len(),
        fold_arms_model(arms.subrange(0, n)) is Err,
    ensures
        fold_arms_model(arms) == fold_arms_model(arms.subrange(0, n)),
    decreases arms.len() - n,
{
    if n < arms.len() {
        assert(arms.subrange(0, n + 1).drop_last() =~= arms.subrange(0, n));
        lemma_fold_arms_prefix_error(arms, n + 1);
    } else {
        assert(arms.subrange(0, n) =~= arms);
    }
}

/// The expander of `await!`.
#[derive(Clone, Copy, Debug, PartialEq, Eq)]
pub struct ExpandAwait;

impl ExpandAwait {
    /// Expands the tail expression of `block`.
    pub fn fold_block(&mut self, block: Block) -> (r: Result<Block, AwaitError>)
        ensures
            match r {
                Ok(b) => fold_block_model(block@) == Ok::<SpecBlock, AwaitError>(b@),
                Err(x) => fold_block_model(block@) == Err::<SpecBlock, AwaitError>(x),
            },
        decreases block,
    {
        let ghost before = block@;
        let Block { span, stmts } = block;
        let mut stmts = stmts;
        if stmts.len() == 0 {
            return Err(AwaitError::EmptyBlock(span));
        }
        let ghost all = stmts;
        let last = stmts.pop().unwrap();
        assert(last == all@[all@.len() - 1]);
        assert(before.stmts.last() == last@);
        match last {
            Stmt::Expr(e) => match self.fold_expr(e) {
                Ok(e) => {
                    stmts.push(Stmt::Expr(e));
                    let r = Block { span, stmts };
                    assert(r@.stmts =~= before.stmts.drop_last().push(SpecStmt::Expr(e@)));
                    Ok(r)
                },
                Err(x) => Err(x),
            },
            Stmt::Local(_) => Err(AwaitError::TailIsLocal(span)),
            Stmt::Item(_) => Err(AwaitError::TailIsItem(span)),
            Stmt::Semi(_) => Err(AwaitError::TailIsSemi(span)),
        }
    }

    /// Expands the `else` branch of a conditional, where there is one.
    fn fold_else(&mut self, e: Option<Box<Expr>>) -> (r: Result<Option<Box<Expr>>, AwaitError>)
        ensures
            match r {
                Ok(b) => fold_else_model(crate::expr::opt_expr_model(e)) == Ok::<
                    Option<Box<SpecExpr>>,
                    AwaitError,
                >(crate::expr::opt_expr_model(b)),
                Err(x) => fold_else_model(crate::expr::opt_expr_model(e)) == Err::<
                    Option<Box<SpecExpr>>,
                    AwaitError,
                >(x),
            },
        decreases e,
    {
        match e {
            Some(b) => match self.fold_expr(*b) {
                Ok(r) => Ok(Some(Box::new(r))),
                Err(x) => Err(x),
            },
            None => Ok(None),
        }
    }

    /// Expands the body of each arm of a `match`.
    fn fold_arms(&mut self, arms: Vec<Arm>) -> (r: Result<Vec<Arm>, AwaitError>)
        ensures
            match r {
                Ok(a) => fold_arms_model(arms_model(arms)) == Ok::<Seq<SpecArm>, AwaitError>(
                    arms_model(a),
                ),
                Err(x) => fold_arms_model(arms_model(arms)) == Err::<Seq<SpecArm>, AwaitError>(x),
            },
        decreases arms,
    {
        let ghost all = arms_model(arms);
        let ghost orig = arms@;
        let mut out: Vec<Arm> = Vec::new();
        assert(all.subrange(0, 0) =~= Seq::empty());
        assert(arms_model(out) =~= Seq::empty());
        for a in it: arms
            invariant
                it.seq() == orig,
                all == arms_model(arms),
                all.len() == orig.len(),
                forall|j: int| 0 <= j < orig.len() ==> all[j] == (#[trigger] orig[j])@,
                out@.len() == it.index(),
                fold_arms_model(all.subrange(0, it.index() as int)) == Ok::<
                    Seq<SpecArm>,
                    AwaitError,
                >(arms_model(out)),
                forall|j: int| 0 <= j < orig.len() ==> decreases_to!(arms => #[trigger] orig[j]),
        {
            let ghost i = out@.len() as int;
            let ghost prev = arms_model(out);
            let Arm { pat, guard, body } = a;
            proof {
                assert(all.subrange(0, i + 1).drop_last() =~= all.subrange(0, i));
                assert(all.subrange(0, i + 1).last() == all[i]);
            }
            match self.fold_expr(body) {
                Ok(body) => {
                    out.push(Arm { pat, guard, body });
                    assert(arms_model(out) =~= prev.push(out@[i]@));
                },
                Err(x) => {
                    proof {
                        assert(all[i].body == body@);
                        assert(fold_arms_model(all.subrange(0, i + 1)) == Err::<
                            Seq<SpecArm>,
                            AwaitError,
                        >(x));
                        lemma_fold_arms_prefix_error(all, i + 1);
                    }
                    return Err(x);
                },
            }
        }
        assert(all.subrange(0, all.len() as int) =~= all);
        Ok(out)
    }

    /// Expands `await!(expr)`: puts a poll loop around each expression in
    /// tail position of `expr`.
    pub fn fold_expr(&mut self, expr: Expr) -> (r: Result<Expr, AwaitError>)
        ensures
            match r {
                Ok(e) => fold_expr_model(expr@) == Ok::<SpecExpr, AwaitError>(e@),
                Err(x) => fold_expr_model(expr@) == Err::<SpecExpr, AwaitError>(x),
            },
        decreases expr,
    {
        let Expr { attrs, span, kind } = expr;
        match kind {
            ExprKind::Group(inner) => match self.fold_expr(*inner) {
                Ok(inner) => Ok(Expr { attrs, span, kind: ExprKind::Group(Box::new(inner)) }),
                Err(x) => Err(x),
            },
            ExprKind::Paren(inner) => match self.fold_expr(*inner) {
                Ok(inner) => Ok(Expr { attrs, span, kind: ExprKind::Paren(Box::new(inner)) }),
                Err(x) => Err(x),
            },
            ExprKind::Block(b) => match self.fold_block(b) {
                Ok(b) => Ok(Expr { attrs, span, kind: ExprKind::Block(b) }),
                Err(x) => Err(x),
            },
            ExprKind::If { cond, then_branch, else_branch } => match self.fold_block(
                then_branch,
            ) {
                Ok(then_branch) => match self.fold_else(else_branch) {
                    Ok(else_branch) => Ok(
                        Expr { attrs, span, kind: ExprKind::If { cond, then_branch, else_branch } },
                    ),
                    Err(x) => Err(x),
                },
                Err(x) => Err(x),
            },
            ExprKind::IfLet { pat, expr, then_branch, else_branch } => match self.fold_block(
                then_branch,
            ) {
                Ok(then_branch) => match self.fold_else(else_branch) {
                    Ok(else_branch) => Ok(
                        Expr {
                            attrs,
                            span,
                            kind: ExprKind::IfLet { pat, expr, then_branch, else_branch },
                        },
                    ),
                    Err(x) => Err(x),
                },
                Err(x) => Err(x),
            },
            ExprKind::Match { expr, arms } => match self.fold_arms(arms) {
                Ok(arms) => Ok(Expr { attrs, span, kind: ExprKind::Match { expr, arms } }),
                Err(x) => Err(x),
            },
            other => Ok(block_to_expr(expand_await_block(Expr { attrs, span, kind: other }))),
        }
    }

    /// A `let` is never entered: its value cannot be the value of an
    /// `await!`.
    pub fn fold_local(&mut self, local: Local) -> (r: Local)
        ensures
            r == local,
    {
        local
    }

    /// An item is never entered.
    pub fn fold_item(&mut self, item: Item) -> (r: Item)
        ensures
            r == item,
    {
        item
    }
}

} // verus!
