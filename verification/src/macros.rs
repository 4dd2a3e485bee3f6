//! The macros, as functions from parsed input to the syntax that replaces
//! it.
//!
//! `#[async]` and `#[async_stream]` rewrite a function; `async_block!` and
//! `async_stream_block!` wrap a bare body; `await!` and `stream_yield!`
//! expand one expression.
//! The front end parses the tokens, calls one of these and prints what comes
//! back, or reports the error at the position that it holds.
use crate::async_macro::{
    attr_args_model, expand_async_block, expand_async_block_model, expand_async_fn,
    expand_async_fn_model, parsed_item_model, AttrArg, ExpandError, Future, ModeKind, ParsedItem,
    Stream,
};
use crate::await_macro::{AwaitError, ExpandAwait};
use crate::expr::{Block, Expr, SpecBlock, SpecExpr};
use crate::sig::{ItemFn, SpecItemFn};
use crate::span::Span;
use crate::type_ann::{yield_result, yield_result_model};
use crate::util::{
    prepend_extern_crate_rt, prepend_extern_crate_rt_model, quoter_from_tokens, Quoter,
};
use vstd::prelude::*;

verus! {

/// The body of a bare block made asynchronous, with the runtime crate
/// imported first.
pub open spec fn block_macro_model(kind: ModeKind, block: SpecBlock) -> Result<
    SpecBlock,
    ExpandError,
> {
    match expand_async_block_model(kind, block, None) {
        Ok(b) => Ok(prepend_extern_crate_rt_model(b)),
        Err(e) => Err(e),
    }
}

/// `#[async]` on `item`: the function that returns its result as a future.
/// `args` are the arguments of the attribute, `boxed` or `boxed_send`; the
/// attribute stands at `attr_span`.
pub fn async_fn(args: Vec<AttrArg>, attr_span: Span, item: ParsedItem) -> (r: Result<
    ItemFn,
    ExpandError,
>)
    ensures
        match r {
            Ok(g) => expand_async_fn_model(
                ModeKind::Future,
                attr_args_model(args@),
                attr_span,
                parsed_item_model(item),
            ) == Ok::<SpecItemFn, ExpandError>(g@),
            Err(e) => expand_async_fn_model(
                ModeKind::Future,
                attr_args_model(args@),
                attr_span,
                parsed_item_model(item),
            ) == Err::<SpecItemFn, ExpandError>(e),
        },
{
    expand_async_fn(Future, args, attr_span, item)
}

/// `#[async_stream]` on `item`: the function that returns its items as a
/// stream.  `args` are the arguments of the attribute: `boxed`,
/// `boxed_send` and `item = Type`, which names the item type for a function
/// that does not declare `impl Stream<…>`.
pub fn async_stream(args: Vec<AttrArg>, attr_span: Span, item: ParsedItem) -> (r: Result<
    ItemFn,
    ExpandError,
>)
    ensures
        match r {
            Ok(g) => expand_async_fn_model(
                ModeKind::Stream,
                attr_args_model(args@),
                attr_span,
                parsed_item_model(item),
            ) == Ok::<SpecItemFn, ExpandError>(g@),
            Err(e) => expand_async_fn_model(
                ModeKind::Stream,
                attr_args_model(args@),
                attr_span,
                parsed_item_model(item),
            ) == Err::<SpecItemFn, ExpandError>(e),
        },
{
    expand_async_fn(Stream, args, attr_span, item)
}

/// `async_block! { … }`: the future that the block computes.  A block
/// declares no type, so this cannot fail.
pub fn async_block(block: Block) -> (r: Block)
    ensures
        block_macro_model(ModeKind::Future, block@) == Ok::<SpecBlock, ExpandError>(r@),
{
    prepend_extern_crate_rt(expand_async_block(Future, block, None).unwrap())
}

/// `async_stream_block! { … }`: the stream that the block computes.
pub fn async_stream_block(block: Block) -> (r: Block)
    ensures
        block_macro_model(ModeKind::Stream, block@) == Ok::<SpecBlock, ExpandError>(r@),
{
    prepend_extern_crate_rt(expand_async_block(Stream, block, None).unwrap())
}

/// `stream_yield!(item)`: the generator of a stream yields `Ok(item)`, which
/// the stream hands out as its next item.  The tokens stand at the position
/// of `item`.
pub fn stream_yield(item: Expr) -> (r: Expr)
    ensures
        r@ == yield_result_model(Quoter { span: item@.span, pin_crates: true }, "Ok"@, item@),
{
    let q = quoter_from_tokens(&item);
    yield_result(&q, "Ok", item)
}

/// `await!(expr)`: `expr` with a poll loop around each expression in tail
/// position, or the error of the first block that has no value.
pub fn await_expr(expr: Expr) -> (r: Result<Expr, AwaitError>)
    ensures
        match r {
            Ok(e) => crate::await_macro::fold_expr_model(expr@) == Ok::<SpecExpr, AwaitError>(e@),
            Err(x) => crate::await_macro::fold_expr_model(expr@) == Err::<SpecExpr, AwaitError>(
                x,
            ),
        },
{
    let mut expander = ExpandAwait;
    expander.fold_expr(expr)
}

} // verus!
