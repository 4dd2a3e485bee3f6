//! What the emitted poll code does: a small semantics for the syntax that
//! the expansions of `await!` and of `#[async] for` synthesize, and the
//! proof that under it the emitted code decides exactly as
//! [`crate::poll_loop::await_step`] and [`crate::poll_loop::for_step`] do.
//!
//! The semantics covers what the two poll loops are made of: variables,
//! constructors applied to at most one argument, `?`, `match` without guards
//! on patterns with at most one field, blocks, `let`, `break`, `continue`
//! and `yield`.  The call of the poll primitive answers with a value that is
//! given from outside; everything else is evaluated.  Any other syntax is
//! stuck.
use crate::await_macro::{await_arms_model, await_block_model, break_with_model};
use crate::expr::{SpecArm, SpecExpr, SpecExprKind, SpecPat, SpecStmt};
use crate::for_loop::{
    next_item_model, pending_model, poll_stream_model, ready_item_model, var_model,
};
use crate::make::{block_expr_model, plain_expr};
use crate::paths::{
    async_variant_model, not_ready_model, poll_path_model, result_variant_model, rt_path_model,
};
use crate::poll_loop::{await_step_model, for_step_model, AwaitStep, ForStep};
use crate::rt::Async;
use crate::ty::SpecPath;
use crate::util::Quoter;
use vstd::prelude::*;

verus! {

/// A value at run time: the unit, some data that the code does not look
/// into, or a constructor applied to fields.
pub enum Val {
    Unit,
    Data(int),
    Variant(Seq<char>, Seq<Val>),
}

/// How the evaluation of a piece of code ends.
pub enum End {
    /// It has a value, and what follows it runs next.
    Value(Val),
    /// It leaves the enclosing loop, with a value where `break` has one.
    Break(Option<Val>),
    /// It starts the next round of the enclosing loop.
    Continue,
    /// `?` leaves the enclosing function with this error.
    Propagate(Val),
    /// The code is outside of what the semantics covers.
    Stuck,
}

/// What a piece of code yields while it runs, and how it ends.
pub struct Outcome {
    pub yields: Seq<Val>,
    pub end: End,
}

/// The variables in scope.
pub type Env = Map<Seq<char>, Val>;

/// An outcome without a yield.
pub open spec fn ends(end: End) -> Outcome {
    Outcome { yields: Seq::empty(), end }
}

/// `first`, followed by `rest` where `first` ended with a value.
pub open spec fn then(first: Outcome, rest: Outcome) -> Outcome {
    match first.end {
        End::Value(_) => Outcome { yields: first.yields + rest.yields, end: rest.end },
        _ => first,
    }
}

/// The last name of a path: the constructor or the function that it names.
pub open spec fn last_name(p: SpecPath) -> Seq<char> {
    p.segments.last().ident.name
}

/// The variables that `pat` binds when it matches `v`, added to `env`; or
/// nothing where it does not match.
pub open spec fn bind(pat: SpecPat, v: Val, env: Env) -> Option<Env>
    decreases pat,
{
    match pat {
        SpecPat::Ident { by_ref, mutable, ident, subpat } => if subpat is None {
            Some(env.insert(ident.name, v))
        } else {
            None
        },
        SpecPat::Path(p) => match v {
            Val::Variant(name, fields) => if name == last_name(p) && fields.len() == 0 {
                Some(env)
            } else {
                None
            },
            _ => None,
        },
        SpecPat::TupleStruct { path, elems } => match v {
            Val::Variant(name, fields) => if name == last_name(path) && fields.len() == 1
                && elems.len() == 1 {
                bind(elems[0], fields[0], env)
            } else {
                None
            },
            _ => None,
        },
        SpecPat::Other(_) => None,
    }
}

/// The outcome of `e` in `env`, where the poll primitive answers `polled`.
pub open spec fn eval_expr(e: SpecExpr, env: Env, polled: Val) -> Outcome
    decreases e,
{
    match e.kind {
        SpecExprKind::Path(p) => if p.segments.len() == 1 {
            if env.contains_key(last_name(p)) {
                ends(End::Value(env[last_name(p)]))
            } else {
                ends(End::Stuck)
            }
        } else {
            ends(End::Value(Val::Variant(last_name(p), Seq::empty())))
        },
        SpecExprKind::Call { func, args } => match func.kind {
            SpecExprKind::Path(p) => if last_name(p) == "poll"@ {
                ends(End::Value(polled))
            } else if args.len() == 0 {
                ends(End::Value(Val::Variant(last_name(p), Seq::empty())))
            } else if args.len() == 1 {
                let arg = eval_expr(args[0], env, polled);
                match arg.end {
                    End::Value(v) => Outcome {
                        yields: arg.yields,
                        end: End::Value(Val::Variant(last_name(p), seq![v])),
                    },
                    _ => arg,
                }
            } else {
                ends(End::Stuck)
            },
            _ => ends(End::Stuck),
        },
        SpecExprKind::Try(inner) => {
            let r = eval_expr(*inner, env, polled);
            match r.end {
                End::Value(Val::Variant(name, fields)) => if fields.len() == 1 && name == "Ok"@ {
                    Outcome { yields: r.yields, end: End::Value(fields[0]) }
                } else if fields.len() == 1 && name == "Err"@ {
                    Outcome { yields: r.yields, end: End::Propagate(fields[0]) }
                } else {
                    Outcome { yields: r.yields, end: End::Stuck }
                },
                End::Value(_) => Outcome { yields: r.yields, end: End::Stuck },
                _ => r,
            }
        },
        SpecExprKind::Match { expr, arms } => {
            let scrutinee = eval_expr(*expr, env, polled);
            match scrutinee.end {
                End::Value(v) => then(scrutinee, eval_arms(arms, v, env, polled)),
                _ => scrutinee,
            }
        },
        SpecExprKind::Block(b) => eval_stmts(b.stmts, env, polled),
        SpecExprKind::Break { expr } => match expr {
            None => ends(End::Break(None)),
            Some(value) => {
                let r = eval_expr(*value, env, polled);
                match r.end {
                    End::Value(v) => Outcome { yields: r.yields, end: End::Break(Some(v)) },
                    _ => r,
                }
            },
        },
        SpecExprKind::Continue => ends(End::Continue),
        SpecExprKind::Yield(value) => match value {
            None => Outcome { yields: seq![Val::Unit], end: End::Value(Val::Unit) },
            Some(value) => {
                let r = eval_expr(*value, env, polled);
                match r.end {
                    End::Value(v) => Outcome {
                        yields: r.yields.push(v),
                        end: End::Value(Val::Unit),
                    },
                    _ => r,
                }
            },
        },
        _ => ends(End::Stuck),
    }
}

/// The outcome of the first arm among `arms` whose pattern matches `v`.
pub open spec fn eval_arms(arms: Seq<SpecArm>, v: Val, env: Env, polled: Val) -> Outcome
    decreases arms, arms.len(),
{
    if arms.len() == 0 {
        ends(End::Stuck)
    } else if arms[0].guard is Some {
        ends(End::Stuck)
    } else {
        match bind(arms[0].pat, v, env) {
            Some(bound) => eval_expr(arms[0].body, bound, polled),
            None => eval_arms(arms.subrange(1, arms.len() as int), v, env, polled),
        }
    }
}

/// The outcome of the statements `stmts`, run in order.  The value of the
/// last statement, where that is an expression without a semicolon, is the
/// value of the whole.
pub open spec fn eval_stmts(stmts: Seq<SpecStmt>, env: Env, polled: Val) -> Outcome
    decreases stmts, stmts.len(),
{
    if stmts.len() == 0 {
        ends(End::Value(Val::Unit))
    } else {
        let rest = stmts.subrange(1, stmts.len() as int);
        match stmts[0] {
            SpecStmt::Item(_) => eval_stmts(rest, env, polled),
            SpecStmt::Local(l) => match l.init {
                Some(init) => {
                    let r = eval_expr(init, env, polled);
                    match r.end {
                        End::Value(v) => match bind(l.pat, v, env) {
                            Some(bound) => then(r, eval_stmts(rest, bound, polled)),
                            None => Outcome { yields: r.yields, end: End::Stuck },
                        },
                        _ => r,
                    }
                },
                None => ends(End::Stuck),
            },
            SpecStmt::Semi(e) => {
                let r = eval_expr(e, env, polled);
                then(
                    Outcome {
                        yields: r.yields,
                        end: match r.end {
                            End::Value(_) => End::Value(Val::Unit),
                            other => other,
                        },
                    },
                    eval_stmts(rest, env, polled),
                )
            },
            SpecStmt::Expr(e) => if stmts.len() == 1 {
                eval_expr(e, env, polled)
            } else {
                then(eval_expr(e, env, polled), eval_stmts(rest, env, polled))
            },
        }
    }
}

/// `Ok(v)` or `Err(e)` as a run-time value.
pub open spec fn result_val(r: Result<Val, Val>) -> Val {
    match r {
        Ok(v) => Val::Variant("Ok"@, seq![v]),
        Err(e) => Val::Variant("Err"@, seq![e]),
    }
}

/// The answer of a future's poll as a run-time value.
pub open spec fn future_answer(polled: Result<Async<Val>, Val>) -> Val {
    match polled {
        Ok(Async::Ready(v)) => Val::Variant("Ok"@, seq![Val::Variant("Ready"@, seq![v])]),
        Ok(Async::NotReady) => Val::Variant(
            "Ok"@,
            seq![Val::Variant("NotReady"@, Seq::empty())],
        ),
        Err(e) => Val::Variant("Err"@, seq![e]),
    }
}

/// The answer of a stream's poll as a run-time value.
pub open spec fn stream_answer(polled: Result<Async<Option<Val>>, Val>) -> Val {
    match polled {
        Ok(Async::Ready(Some(v))) => Val::Variant(
            "Ok"@,
            seq![Val::Variant("Ready"@, seq![Val::Variant("Some"@, seq![v])])],
        ),
        Ok(Async::Ready(None)) => Val::Variant(
            "Ok"@,
            seq![Val::Variant("Ready"@, seq![Val::Variant("None"@, Seq::empty())])],
        ),
        Ok(Async::NotReady) => Val::Variant(
            "Ok"@,
            seq![Val::Variant("NotReady"@, Seq::empty())],
        ),
        Err(e) => Val::Variant("Err"@, seq![e]),
    }
}

/// The value that the emitted code yields to say "not ready".
pub open spec fn not_ready_val() -> Val {
    Val::Variant("not_ready"@, Seq::empty())
}

/// What one round of the loop of `await!` does, as an outcome: it breaks
/// with the result, or it yields "not ready" and goes on to the next round.
pub open spec fn await_outcome(step: AwaitStep<Val, Val>) -> Outcome {
    match step {
        AwaitStep::Break(r) => ends(End::Break(Some(result_val(r)))),
        AwaitStep::Suspend => Outcome { yields: seq![not_ready_val()], end: End::Value(Val::Unit) },
    }
}

/// What the block that takes the next item does, as an outcome: it has the
/// item as its value, it breaks, it yields "not ready" and continues, or it
/// leaves the function with the error.
pub open spec fn for_outcome(step: ForStep<Val, Val>) -> Outcome {
    match step {
        ForStep::Bind(item) => ends(End::Value(item)),
        ForStep::Break => ends(End::Break(None)),
        ForStep::Suspend => Outcome { yields: seq![not_ready_val()], end: End::Continue },
        ForStep::Propagate(e) => ends(End::Propagate(e)),
    }
}

/// The names that the emitted code tells apart are different names.
proof fn lemma_names_differ()
    ensures
        "Ok"@ != "Err"@,
        "Ok"@ != "poll"@,
        "Err"@ != "poll"@,
        "Ready"@ != "NotReady"@,
        "Some"@ != "None"@,
        "not_ready"@ != "poll"@,
        "Some"@ != "poll"@,
        "None"@ != "poll"@,
{
    reveal_strlit("Ok");
    reveal_strlit("Err");
    reveal_strlit("poll");
    reveal_strlit("Ready");
    reveal_strlit("NotReady");
    reveal_strlit("Some");
    reveal_strlit("None");
    reveal_strlit("not_ready");
    assert("Ok"@.len() == 2 && "Err"@.len() == 3 && "poll"@.len() == 4);
    assert("Ready"@.len() == 5 && "NotReady"@.len() == 8 && "not_ready"@.len() == 9);
    assert("Some"@[0] == 'S' && "None"@[0] == 'N' && "poll"@[0] == 'p');
}

/// The statements of the loop that `await!` emits, inside `loop { … }`.
pub open spec fn await_loop_body(fut: SpecExpr) -> Seq<SpecStmt>
    recommends
        await_block_model(fut).stmts.len() == 2,
{
    await_block_model(fut).stmts[1]->Expr_0.kind->Loop_body.stmts
}

/// One round of the emitted loop of `await!` does what
/// [`crate::poll_loop::await_step`] decides: whatever the future answers to
/// the poll, the round breaks with `Ok` of the value where the future is
/// ready, breaks with `Err` of the error where it failed, and otherwise
/// yields "not ready" once and falls through to the next round.
pub proof fn lemma_emitted_await_round(fut: SpecExpr, env: Env, polled: Result<Async<Val>, Val>)
    ensures
        eval_stmts(await_loop_body(fut), env, future_answer(polled)) == await_outcome(
            await_step_model(polled),
        ),
{
    lemma_names_differ();
    reveal_with_fuel(bind, 3);
    let q = Quoter { span: fut.span, pin_crates: false };
    let answer = future_answer(polled);
    let stmts = await_loop_body(fut);
    let arms = await_arms_model(q);
    assert(stmts.len() == 3);
    // the poll
    let poll = stmts[1]->Expr_0.kind->Match_expr;
    assert(last_name(poll_path_model(q, "Future"@)) == "poll"@);
    assert(eval_expr(*poll, env, answer) == ends(End::Value(answer)));
    // the yield
    lemma_yield_not_ready(q, env, answer);
    let rest2 = stmts.subrange(2, 3);
    assert(rest2 =~= seq![stmts[2]]);
    assert(rest2.subrange(1, 1) =~= Seq::<SpecStmt>::empty());
    assert(eval_stmts(rest2.subrange(1, 1), env, answer) == ends(End::Value(Val::Unit)));
    assert(eval_stmts(rest2, env, answer) == (Outcome {
        yields: seq![not_ready_val()],
        end: End::Value(Val::Unit),
    })) by {
        assert(seq![not_ready_val()] + Seq::<Val>::empty() =~= seq![not_ready_val()]);
    }
    // the arms
    let arms1 = arms.subrange(1, 3);
    let arms2 = arms1.subrange(1, 2);
    assert(arms1[0] == arms[1]);
    assert(arms2[0] == arms[2]);
    assert(last_name(result_variant_model(q, "Ok"@)) == "Ok"@);
    assert(last_name(result_variant_model(q, "Err"@)) == "Err"@);
    assert(last_name(async_variant_model(q, "Ready"@)) == "Ready"@);
    assert(last_name(async_variant_model(q, "NotReady"@)) == "NotReady"@);
    let matched = eval_arms(arms, answer, env, answer);
    match polled {
        Ok(Async::Ready(v)) => {
            let bound = env.insert("await_ok"@, v);
            assert(bind(arms[0].pat, answer, env) == Some(bound));
            lemma_break_with(q, "Ok"@, "await_ok"@, bound, answer);
            let body = arms[0].body.kind->Block_0.stmts;
            assert(body.subrange(1, 1) =~= Seq::<SpecStmt>::empty());
            assert(eval_stmts(body, bound, answer) == ends(
                End::Break(Some(Val::Variant("Ok"@, seq![v]))),
            ));
            assert(eval_expr(arms[0].body, bound, answer) == eval_stmts(body, bound, answer));
            assert(matched == ends(End::Break(Some(Val::Variant("Ok"@, seq![v])))));
        },
        Ok(Async::NotReady) => {
            assert(bind(arms[0].pat, answer, env) is None);
            assert(bind(arms1[0].pat, answer, env) == Some(env));
            assert(eval_stmts(Seq::<SpecStmt>::empty(), env, answer) == ends(
                End::Value(Val::Unit),
            ));
            assert(eval_expr(arms1[0].body, env, answer) == ends(End::Value(Val::Unit)));
            assert(eval_arms(arms1, answer, env, answer) == ends(End::Value(Val::Unit)));
            assert(matched == ends(End::Value(Val::Unit)));
        },
        Err(e) => {
            let bound = env.insert("await_err"@, e);
            assert(bind(arms[0].pat, answer, env) is None);
            assert(bind(arms1[0].pat, answer, env) is None);
            assert(bind(arms2[0].pat, answer, env) == Some(bound));
            lemma_break_with(q, "Err"@, "await_err"@, bound, answer);
            let body = arms[2].body.kind->Block_0.stmts;
            assert(body.subrange(1, 1) =~= Seq::<SpecStmt>::empty());
            assert(eval_stmts(body, bound, answer) == ends(
                End::Break(Some(Val::Variant("Err"@, seq![e]))),
            ));
            assert(eval_expr(arms2[0].body, bound, answer) == eval_stmts(body, bound, answer));
            assert(eval_arms(arms2, answer, env, answer) == ends(
                End::Break(Some(Val::Variant("Err"@, seq![e]))),
            ));
            assert(eval_arms(arms1, answer, env, answer) == ends(
                End::Break(Some(Val::Variant("Err"@, seq![e]))),
            ));
            assert(matched == ends(End::Break(Some(Val::Variant("Err"@, seq![e])))));
        },
    }
    let whole = eval_expr(stmts[1]->Expr_0, env, answer);
    assert(whole == then(ends(End::Value(answer)), matched));
    assert(Seq::<Val>::empty() + matched.yields =~= matched.yields);
    assert(whole == matched);
    let rest1 = stmts.subrange(1, 3);
    assert(rest1[0] == stmts[1]);
    assert(rest1.subrange(1, 2) =~= rest2);
    assert(eval_stmts(rest1, env, answer) == then(matched, eval_stmts(rest2, env, answer)));
    assert(stmts.subrange(1, 3) =~= rest1);
    assert(eval_stmts(stmts, env, answer) == eval_stmts(rest1, env, answer));
    assert(Seq::<Val>::empty() + seq![not_ready_val()] =~= seq![not_ready_val()]);
}

/// `break Result::variant(name)` breaks with the constructor applied to what
/// `name` is bound to.
proof fn lemma_break_with(q: Quoter, variant: Seq<char>, name: Seq<char>, env: Env, polled: Val)
    requires
        env.contains_key(name),
        variant != "poll"@,
    ensures
        eval_expr(break_with_model(q, variant, name), env, polled) == ends(
            End::Break(Some(Val::Variant(variant, seq![env[name]]))),
        ),
{
    let value = *break_with_model(q, variant, name).kind->Break_expr->Some_0;
    let arg = value.kind->Call_args[0];
    assert(last_name(q.root_model(false, name)) == name);
    assert(eval_expr(arg, env, polled) == ends(End::Value(env[name])));
    assert(last_name(result_variant_model(q, variant)) == variant);
    assert(eval_expr(value, env, polled) == ends(
        End::Value(Val::Variant(variant, seq![env[name]])),
    ));
}

/// The emitted yield of "not ready" yields that value once and goes on.
proof fn lemma_yield_not_ready(q: Quoter, env: Env, polled: Val)
    ensures
        eval_expr(
            plain_expr(q.span, SpecExprKind::Yield(Some(Box::new(not_ready_model(q))))),
            env,
            polled,
        ) == (Outcome { yields: seq![not_ready_val()], end: End::Value(Val::Unit) }),
{
    lemma_names_differ();
    assert(last_name(q.join_model(rt_path_model(q, "YieldType"@), "not_ready"@)) == "not_ready"@);
    assert(eval_expr(not_ready_model(q), env, polled) == ends(End::Value(not_ready_val())));
    assert(Seq::<Val>::empty().push(not_ready_val()) =~= seq![not_ready_val()]);
}

/// While no item is ready, the emitted code yields "not ready" and
/// continues.
proof fn lemma_pending(q: Quoter, env: Env, polled: Val)
    ensures
        eval_expr(pending_model(q), env, polled) == (Outcome {
            yields: seq![not_ready_val()],
            end: End::Continue,
        }),
{
    lemma_yield_not_ready(q, env, polled);
    let stmts = pending_model(q).kind->Block_0.stmts;
    let rest = stmts.subrange(1, 2);
    assert(rest[0] == stmts[1]);
    assert(rest.subrange(1, 1) =~= Seq::<SpecStmt>::empty());
    assert(eval_expr(stmts[1]->Semi_0, env, polled) == ends(End::Continue));
    assert(eval_stmts(rest, env, polled) == ends(End::Continue));
    assert(seq![not_ready_val()] + Seq::<Val>::empty() =~= seq![not_ready_val()]);
    assert(eval_stmts(stmts, env, polled) == (Outcome {
        yields: seq![not_ready_val()],
        end: End::Continue,
    }));
}

/// A ready answer gives its item, or leaves the loop where it says that the
/// stream has ended.
proof fn lemma_ready_item(q: Quoter, env: Env, payload: Option<Val>, polled: Val)
    requires
        env.contains_key("e"@),
        env["e"@] == match payload {
            Some(item) => Val::Variant("Some"@, seq![item]),
            None => Val::Variant("None"@, Seq::empty()),
        },
    ensures
        eval_expr(ready_item_model(q), env, polled) == match payload {
            Some(item) => ends(End::Value(item)),
            None => ends(End::Break(None)),
        },
{
    lemma_names_differ();
    reveal_with_fuel(bind, 2);
    let arms = ready_item_model(q).kind->Match_arms;
    let rest = arms.subrange(1, 2);
    assert(rest[0] == arms[1]);
    assert(last_name(q.root_model(false, "e"@)) == "e"@);
    assert(eval_expr(var_model(q, "e"@), env, polled) == ends(End::Value(env["e"@])));
    assert(last_name(rt_path_model(q, "Some"@)) == "Some"@);
    assert(last_name(rt_path_model(q, "None"@)) == "None"@);
    let matched = eval_arms(arms, env["e"@], env, polled);
    match payload {
        Some(item) => {
            let bound = env.insert("e"@, item);
            assert(bind(arms[0].pat, env["e"@], env) == Some(bound));
            assert(eval_expr(arms[0].body, bound, polled) == ends(End::Value(item)));
            assert(matched == ends(End::Value(item)));
        },
        None => {
            assert(bind(arms[0].pat, env["e"@], env) is None);
            assert(bind(rest[0].pat, env["e"@], env) == Some(env));
            assert(eval_expr(rest[0].body, env, polled) == ends(End::Break(None)));
            assert(eval_arms(rest, env["e"@], env, polled) == ends(End::Break(None)));
            assert(matched == ends(End::Break(None)));
        },
    }
    assert(Seq::<Val>::empty() + matched.yields =~= matched.yields);
}

/// The emitted block that takes the next item does what
/// [`crate::poll_loop::for_step`] decides: whatever the stream answers to
/// the poll, the block has the item as its value where one is ready, breaks
/// where the stream has ended, yields "not ready" once and continues where
/// none is ready yet, and leaves the function with the error where the
/// stream failed.
pub proof fn lemma_emitted_for_round(q: Quoter, env: Env, polled: Result<Async<Option<Val>>, Val>)
    ensures
        eval_expr(block_expr_model(next_item_model(q)), env, stream_answer(polled))
            == for_outcome(for_step_model(polled)),
{
    lemma_names_differ();
    reveal_with_fuel(bind, 2);
    let answer = stream_answer(polled);
    let stmts = next_item_model(q).stmts;
    let rest1 = stmts.subrange(1, 3);
    let rest2 = rest1.subrange(1, 2);
    assert(rest1[0] == stmts[1]);
    assert(rest2[0] == stmts[2]);
    assert(rest2.len() == 1);
    // the poll
    let called = *poll_stream_model(q).kind->Try_0;
    assert(last_name(poll_path_model(q, "Stream"@)) == "poll"@);
    assert(eval_expr(called, env, answer) == ends(End::Value(answer)));
    let polled_end = eval_expr(poll_stream_model(q), env, answer);
    let goal = for_outcome(for_step_model(polled));
    match polled {
        Err(e) => {
            assert(polled_end == ends(End::Propagate(e)));
            assert(eval_stmts(rest1, env, answer) == ends(End::Propagate(e)));
        },
        Ok(ready) => {
            let x = match ready {
                Async::Ready(Some(item)) => Val::Variant(
                    "Ready"@,
                    seq![Val::Variant("Some"@, seq![item])],
                ),
                Async::Ready(None) => Val::Variant(
                    "Ready"@,
                    seq![Val::Variant("None"@, Seq::empty())],
                ),
                Async::NotReady => Val::Variant("NotReady"@, Seq::empty()),
            };
            assert(polled_end == ends(End::Value(x)));
            let env1 = env.insert("r"@, x);
            assert(bind(stmts[1]->Local_0.pat, x, env) == Some(env1));
            // the match on the answer
            let outcome = stmts[2]->Expr_0;
            let arms = outcome.kind->Match_arms;
            let arms1 = arms.subrange(1, 2);
            assert(arms1[0] == arms[1]);
            assert(last_name(q.root_model(false, "r"@)) == "r"@);
            assert(eval_expr(var_model(q, "r"@), env1, answer) == ends(End::Value(x)));
            assert(last_name(async_variant_model(q, "Ready"@)) == "Ready"@);
            assert(last_name(async_variant_model(q, "NotReady"@)) == "NotReady"@);
            let matched = eval_arms(arms, x, env1, answer);
            match ready {
                Async::Ready(payload) => {
                    let inner = match payload {
                        Some(item) => Val::Variant("Some"@, seq![item]),
                        None => Val::Variant("None"@, Seq::empty()),
                    };
                    let env2 = env1.insert("e"@, inner);
                    assert(bind(arms[0].pat, x, env1) == Some(env2));
                    lemma_ready_item(q, env2, payload, answer);
                    assert(matched == goal);
                },
                Async::NotReady => {
                    assert(bind(arms[0].pat, x, env1) is None);
                    assert(bind(arms1[0].pat, x, env1) == Some(env1));
                    lemma_pending(q, env1, answer);
                    assert(eval_arms(arms1, x, env1, answer) == goal);
                    assert(matched == goal);
                },
            }
            assert(Seq::<Val>::empty() + matched.yields =~= matched.yields);
            assert(eval_expr(outcome, env1, answer) == matched);
            assert(eval_stmts(rest2, env1, answer) == matched);
            assert(eval_stmts(rest1, env, answer) == then(polled_end, matched));
            assert(eval_stmts(rest1, env, answer) == matched);
        },
    }
    assert(eval_stmts(stmts, env, answer) == eval_stmts(rest1, env, answer));
}

/// How a loop was left.
pub enum Exit {
    /// By `break`, with a value where it has one.
    Left(Option<Val>),
    /// By `?`, with this error.
    Failed(Val),
    /// Not yet: the answers ran out while the loop was going round.
    Waiting,
    /// The code is outside of what the semantics covers.
    Stuck,
}

/// How a poll loop ran.
pub struct Run {
    /// The values that the rounds ended with, in order.
    pub values: Seq<Val>,
    /// What the loop yielded, in order.
    pub yields: Seq<Val>,
    /// How many polls it made.
    pub polls: nat,
    /// How it was left.
    pub exit: Exit,
}

/// A loop of which each round polls once and then does `round` with the
/// answer, driven with `answers`: the loop goes round while its rounds end
/// with a value or with `continue`, and is left by the first round that ends
/// otherwise.
pub open spec fn run_loop(round: spec_fn(Val) -> Outcome, answers: Seq<Val>) -> Run
    decreases answers.len(),
{
    if answers.len() == 0 {
        Run { values: Seq::empty(), yields: Seq::empty(), polls: 0, exit: Exit::Waiting }
    } else {
        let first = round(answers[0]);
        let rest = run_loop(round, answers.skip(1));
        match first.end {
            End::Value(v) => Run {
                values: seq![v] + rest.values,
                yields: first.yields + rest.yields,
                polls: rest.polls + 1,
                exit: rest.exit,
            },
            End::Continue => Run {
                values: rest.values,
                yields: first.yields + rest.yields,
                polls: rest.polls + 1,
                exit: rest.exit,
            },
            End::Break(b) => Run {
                values: Seq::empty(),
                yields: first.yields,
                polls: 1,
                exit: Exit::Left(b),
            },
            End::Propagate(e) => Run {
                values: Seq::empty(),
                yields: first.yields,
                polls: 1,
                exit: Exit::Failed(e),
            },
            End::Stuck => Run {
                values: Seq::empty(),
                yields: first.yields,
                polls: 1,
                exit: Exit::Stuck,
            },
        }
    }
}

/// One round of the loop that `await!(fut)` emits.
pub open spec fn await_round(fut: SpecExpr, env: Env) -> spec_fn(Val) -> Outcome {
    |answer: Val| eval_stmts(await_loop_body(fut), env, answer)
}

/// The taking of the next item in the loop that `#[async] for` emits.
pub open spec fn for_round(q: Quoter, env: Env) -> spec_fn(Val) -> Outcome {
    |answer: Val| eval_expr(block_expr_model(next_item_model(q)), env, answer)
}

/// The emitted loop of `await!`, driven with the answers of a future, runs
/// as [`crate::poll_loop::run_await`] does: it yields "not ready", and
/// nothing else, once for each such answer before the first other one, and
/// it breaks with `Ok` of the value or `Err` of the error that the first
/// other answer holds.  Where all the answers say "not ready" it is still
/// going round.
pub proof fn lemma_emitted_await_loop(
    fut: SpecExpr,
    env: Env,
    answers: Seq<Result<Async<Val>, Val>>,
)
    ensures
        ({
            let run = run_loop(
                await_round(fut, env),
                answers.map_values(|a: Result<Async<Val>, Val>| future_answer(a)),
            );
            let expected = crate::poll_loop::await_run_model(answers);
            &&& run.yields.len() == expected.1
            &&& forall|i: int| 0 <= i < run.yields.len() ==> run.yields[i] == not_ready_val()
            &&& run.exit == match expected.0 {
                Some(r) => Exit::Left(Some(result_val(r))),
                None => Exit::Waiting,
            }
        }),
    decreases answers.len(),
{
    let encoded = answers.map_values(|a: Result<Async<Val>, Val>| future_answer(a));
    if answers.len() > 0 {
        lemma_emitted_await_round(fut, env, answers[0]);
        lemma_emitted_await_loop(fut, env, answers.skip(1));
        assert(encoded.skip(1) =~= answers.skip(1).map_values(
            |a: Result<Async<Val>, Val>| future_answer(a),
        ));
        assert(encoded[0] == future_answer(answers[0]));
    }
}

/// A future that is ready at the first poll: the emitted loop breaks in its
/// first round with exactly the value that the future is ready with, and it
/// yields nothing.
pub proof fn lemma_emitted_await_of_ready_future(
    fut: SpecExpr,
    env: Env,
    answers: Seq<Result<Async<Val>, Val>>,
    v: Val,
)
    requires
        answers.len() > 0,
        answers[0] == Ok::<Async<Val>, Val>(Async::Ready(v)),
    ensures
        ({
            let run = run_loop(
                await_round(fut, env),
                answers.map_values(|a: Result<Async<Val>, Val>| future_answer(a)),
            );
            &&& run.exit == Exit::Left(Some(result_val(Ok(v))))
            &&& run.yields.len() == 0
            &&& run.polls == 1
        }),
{
    lemma_emitted_await_round(fut, env, answers[0]);
}

/// How the loop of `#[async] for` is left, as an exit of the emitted loop.
pub open spec fn for_exit(exit: crate::poll_loop::ForExit<Val>) -> Exit {
    match exit {
        crate::poll_loop::ForExit::Ended => Exit::Left(None),
        crate::poll_loop::ForExit::Failed(e) => Exit::Failed(e),
        crate::poll_loop::ForExit::Waiting => Exit::Waiting,
    }
}

/// The emitted loop of `#[async] for`, driven with the answers of a stream,
/// runs as [`crate::poll_loop::run_async_for`] does: the values that its
/// pattern is bound to are the items of the stream, in order; it yields
/// "not ready", and nothing else, once for each such answer; and it is left
/// by the first answer that says that the stream has ended or failed, after
/// which it polls no more.
pub proof fn lemma_emitted_for_loop(
    q: Quoter,
    env: Env,
    answers: Seq<Result<Async<Option<Val>>, Val>>,
)
    ensures
        ({
            let run = run_loop(
                for_round(q, env),
                answers.map_values(|a: Result<Async<Option<Val>>, Val>| stream_answer(a)),
            );
            let expected = crate::poll_loop::for_run_model(answers);
            &&& run.values == expected.items
            &&& run.yields.len() == expected.yields
            &&& forall|i: int| 0 <= i < run.yields.len() ==> run.yields[i] == not_ready_val()
            &&& run.polls == expected.polls
            &&& run.exit == for_exit(expected.exit)
        }),
    decreases answers.len(),
{
    let encoded = answers.map_values(|a: Result<Async<Option<Val>>, Val>| stream_answer(a));
    if answers.len() > 0 {
        lemma_emitted_for_round(q, env, answers[0]);
        lemma_emitted_for_loop(q, env, answers.skip(1));
        assert(encoded.skip(1) =~= answers.skip(1).map_values(
            |a: Result<Async<Option<Val>>, Val>| stream_answer(a),
        ));
        assert(encoded[0] == stream_answer(answers[0]));
    }
}

/// Over a stream of N items the emitted loop binds its pattern to exactly
/// those N items, in order, and is left by `break` at the one answer that
/// says that the stream has ended, which is its last poll; it yields once
/// for each answer that says "not ready".  This holds for every N, zero
/// included.
pub proof fn lemma_emitted_for_over_finite_stream(
    q: Quoter,
    env: Env,
    answers: Seq<Result<Async<Option<Val>>, Val>>,
    items: Seq<Val>,
)
    requires
        crate::poll_loop::answers_of_finite_stream(answers, items),
    ensures
        ({
            let run = run_loop(
                for_round(q, env),
                answers.map_values(|a: Result<Async<Option<Val>>, Val>| stream_answer(a)),
            );
            &&& run.values == items
            &&& run.exit == Exit::Left(None)
            &&& run.polls == answers.len()
            &&& run.yields.len() + items.len() + 1 == answers.len()
        }),
{
    lemma_emitted_for_loop(q, env, answers);
    crate::poll_loop::lemma_async_for_consumes_finite_stream(answers, items);
}

/// `stream_yield!(item)` yields `Ok` of the value of `item`, which a stream
/// answers with as its next item, and goes on.
pub proof fn lemma_stream_yield_hands_out_the_item(
    q: Quoter,
    item: SpecExpr,
    env: Env,
    polled: Val,
    v: Val,
)
    requires
        eval_expr(item, env, polled) == ends(End::Value(v)),
    ensures
        eval_expr(crate::type_ann::yield_result_model(q, "Ok"@, item), env, polled) == (Outcome {
            yields: seq![result_val(Ok(v))],
            end: End::Value(Val::Unit),
        }),
        crate::rt::stream_poll_model::<Val, Val>(crate::rt::GeneratorState::Yielded(Ok(v)))
            == Ok::<Async<Option<Val>>, Val>(Async::Ready(Some(v))),
{
    lemma_names_differ();
    let yielded = *crate::type_ann::yield_result_model(q, "Ok"@, item).kind->Yield_0->Some_0;
    assert(last_name(result_variant_model(q, "Ok"@)) == "Ok"@);
    assert(eval_expr(yielded, env, polled) == ends(End::Value(result_val(Ok(v)))));
    assert(Seq::<Val>::empty().push(result_val(Ok(v))) =~= seq![result_val(Ok(v))]);
}

} // verus!
