//! The paths into the runtime crate that emitted code names.
use crate::expr::{exprs_model, Expr, SpecExpr, SpecExprKind};
use crate::make::{call, path_expr, plain_expr};
use crate::ty::{Path, SpecPath};
use crate::util::Quoter;
use vstd::prelude::*;

verus! {

/// `futures_await::__rt::name`
pub open spec fn rt_path_model(q: Quoter, name: Seq<char>) -> SpecPath {
    q.join_model(q.join_model(q.root_model(false, "futures_await"@), "__rt"@), name)
}

/// `futures_await::__rt::std::result::Result`
pub open spec fn result_path_model(q: Quoter) -> SpecPath {
    q.join_model(q.join_model(rt_path_model(q, "std"@), "result"@), "Result"@)
}

/// `futures_await::__rt::std::result::Result::name`
pub open spec fn result_variant_model(q: Quoter, name: Seq<char>) -> SpecPath {
    q.join_model(result_path_model(q), name)
}

/// `futures_await::Async::name`
pub open spec fn async_variant_model(q: Quoter, name: Seq<char>) -> SpecPath {
    q.join_model(q.join_model(q.root_model(false, "futures_await"@), "Async"@), name)
}

/// `futures_await::trait_name::poll`
pub open spec fn poll_path_model(q: Quoter, trait_name: Seq<char>) -> SpecPath {
    q.join_model(q.join_model(q.root_model(false, "futures_await"@), trait_name), "poll"@)
}

/// `futures_await::__rt::YieldType::not_ready()`: the value that a generator
/// yields to say that it is not ready.
pub open spec fn not_ready_model(q: Quoter) -> SpecExpr {
    plain_expr(
        q.span,
        SpecExprKind::Call {
            func: Box::new(
                plain_expr(
                    q.span,
                    SpecExprKind::Path(
                        q.join_model(rt_path_model(q, "YieldType"@), "not_ready"@),
                    ),
                ),
            ),
            args: Seq::empty(),
        },
    )
}

/// `futures_await::__rt::name`
pub(crate) fn rt_path(q: &Quoter, name: &str) -> (r: Path)
    ensures
        r@ == rt_path_model(*q, name@),
{
    q.join(q.join(q.root(false, "futures_await"), "__rt"), name)
}

/// `futures_await::__rt::std::result::Result`
pub(crate) fn result_path(q: &Quoter) -> (r: Path)
    ensures
        r@ == result_path_model(*q),
{
    q.join(q.join(rt_path(q, "std"), "result"), "Result")
}

/// `futures_await::__rt::std::result::Result::name`
pub(crate) fn result_variant(q: &Quoter, name: &str) -> (r: Path)
    ensures
        r@ == result_variant_model(*q, name@),
{
    q.join(result_path(q), name)
}

/// `futures_await::Async::name`
pub(crate) fn async_variant(q: &Quoter, name: &str) -> (r: Path)
    ensures
        r@ == async_variant_model(*q, name@),
{
    q.join(q.join(q.root(false, "futures_await"), "Async"), name)
}

/// `futures_await::trait_name::poll`
pub(crate) fn poll_path(q: &Quoter, trait_name: &str) -> (r: Path)
    ensures
        r@ == poll_path_model(*q, trait_name@),
{
    q.join(q.join(q.root(false, "futures_await"), trait_name), "poll")
}

/// `futures_await::__rt::YieldType::not_ready()`
pub(crate) fn not_ready(q: &Quoter) -> (r: Expr)
    ensures
        r@ == not_ready_model(*q),
{
    let func = path_expr(q.span, q.join(rt_path(q, "YieldType"), "not_ready"));
    let args: Vec<Expr> = Vec::new();
    assert(exprs_model(args) =~= Seq::empty());
    call(q.span, func, args)
}

} // verus!
