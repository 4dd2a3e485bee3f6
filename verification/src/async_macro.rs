//! The rewriter of `#[async]` functions and blocks.
//!
//! A function
//!
//! ```text
//! #[async]
//! fn f(args) -> Result<T, E> { body }
//! ```
//!
//! becomes a function that returns a future at once.  Its body is a call of
//! a runtime function on a generator, the closure that holds the re-bound
//! arguments, the type annotations and the body as written, with its
//! `#[async] for` loops expanded:
//!
//! ```text
//! fn f<'__returned_future>(args) -> impl MyFuture<Result<T, E>> + '__returned_future {
//!     extern crate futures_await;
//!     futures_await::__rt::async_future(move || {
//!         … annotations …
//!         { body }
//!     })
//! }
//! ```
//!
//! A stream is made of a function that declares `impl Stream<Item = T,
//! Error = E>`, or of one whose attribute names the item type:
//! `#[async_stream(item = T)] fn f(args) -> Result<(), E>` returns
//! `impl ::futures::Stream<Item = T, Error = <Result<(), E> as IsResult>::Err>`.
//! The attribute takes its arguments as the front end parsed them: the
//! words `boxed` and `boxed_send`, and for a stream the key `item`.
use crate::capture::{
    capture_inputs, capture_inputs_model, plan_of, rebindings, rebindings_model, SpecCapture,
};
use crate::expr::{stmts_model, Block, Expr, SpecBlock, SpecExprKind, SpecStmt, Stmt};
use crate::for_loop::ExpandAsyncFor;
use crate::make::{
    block, block_expr, block_expr_model, bounds1, call, clone_opt_type, exprs1, generic_args1,
    generic_args2,
    move_closure, opt_type_model, path_args, path_args_model, path_expr, path_root,
    path_root_model, plain_expr, projection_type, stmts1, ty,
};
use crate::paths::{rt_path, rt_path_model};
use crate::sig::{ItemFn, ReturnType, SpecItemFn, SpecReturnType};
use crate::span::Span;
use crate::ty::{
    GenericArgument, Ident, Path, SpecGenericArgument, SpecIdent, SpecPath, SpecTraitBound,
    SpecType, SpecTypeKind, SpecTypeParamBound, TraitBound, Type, TypeKind, TypeParamBound,
};
use crate::type_ann::{
    make_type_annotations, make_type_annotations_model, stream_trait, stream_trait_model, TypeAnn,
};
use crate::util::{
    prepend_extern_crate_rt, prepend_extern_crate_rt_model, quoter, quoter_from_tokens,
    quoter_from_tokens_or, Quoter,
};
use vstd::prelude::*;

verus! {

/// Why a function cannot be made asynchronous.  Each error holds the
/// position that the diagnostic points to.
#[derive(Clone, Copy, Debug, PartialEq, Eq, Structural)]
pub enum ExpandError {
    /// The macro was applied to an item that is no function; at the
    /// attribute.
    NotAFunction(Span),
    /// An argument of the attribute is none of those it takes: a word other
    /// than `boxed` and `boxed_send`, a key other than `item`, or `item` on
    /// a future; at the name of the argument.
    UnknownArgument(Span),
    /// `boxed` (as either word) or `item` is given a second time; at the
    /// name of the second.
    DuplicateArgument(Span),
    /// The function is variadic; at its name.
    Variadic(Span),
    /// The function declares no return type; at the braces of its body,
    /// before which the type is missing.
    NoReturnType(Span),
    /// The declared return type of a future is not a named type, so it
    /// cannot be a `Result` or an alias of one; at the type.
    NotAResult(Span),
    /// The declared return type of a stream is not `impl Stream<…>`: it is
    /// no `impl` type, or the first trait that it names is not `Stream`; at
    /// the type.
    NotAStream(Span),
}

/// What an expansion produces: a future, which completes once, or a stream,
/// which yields items until it ends.
#[derive(Clone, Copy, Debug, PartialEq, Eq, Structural)]
pub enum ModeKind {
    Future,
    Stream,
}

/// The name of the lifetime of the returned value, which the rewriter adds
/// where the declared return type names none.
pub open spec fn default_lifetime_model(kind: ModeKind) -> Seq<char> {
    match kind {
        ModeKind::Future => "__returned_future"@,
        ModeKind::Stream => "__returned_stream"@,
    }
}

/// The name of the runtime function that turns the generator into the
/// returned value.
pub open spec fn rt_gen_fn_name_model(kind: ModeKind) -> Seq<char> {
    match kind {
        ModeKind::Future => "async_future"@,
        ModeKind::Stream => "async_stream"@,
    }
}

/// `::futures`, at the site of the invocation.
pub open spec fn futures_glob_model() -> SpecPath {
    path_root_model(true, SpecIdent { name: "futures"@, span: Span::CallSite })
}

/// `<ret_ty as ::futures::__rt::IsResult>::name`
pub open spec fn is_result_assoc_model(ret_ty: SpecType, name: Seq<char>) -> SpecType {
    let q = Quoter { span: ret_ty.span, pin_crates: true };
    let p = Quoter { span: ret_ty.span, pin_crates: false };
    SpecType {
        span: ret_ty.span,
        kind: SpecTypeKind::Projection {
            base: Box::new(ret_ty),
            trait_path: q.join_model(q.join_model(futures_glob_model(), "__rt"@), "IsResult"@),
            name: p.stamp(name),
        },
    }
}

/// The trait that stands for a future of `ret_ty`.
///
/// Where the value is boxed it is spelled out:
/// `::futures::Future<Item = <ret_ty as ::futures::__rt::IsResult>::Ok, Error = <ret_ty as ::futures::__rt::IsResult>::Err>`.
/// Otherwise it is `::futures::__rt::MyFuture<ret_ty>`, which holds of the
/// same futures and lets the compiler say "must return a `Result`" where
/// `ret_ty` is none.
pub open spec fn future_bound_model(for_boxed: bool, ret_ty: SpecType) -> SpecTraitBound {
    let q = Quoter { span: ret_ty.span, pin_crates: true };
    let p = Quoter { span: ret_ty.span, pin_crates: false };
    if for_boxed {
        SpecTraitBound {
            span: ret_ty.span,
            prefix: None,
            path: path_args_model(
                p.join_model(p.root_model(true, "futures"@), "Future"@),
                seq![
                    SpecGenericArgument::Binding(
                        p.stamp("Item"@),
                        is_result_assoc_model(ret_ty, "Ok"@),
                    ),
                    SpecGenericArgument::Binding(
                        p.stamp("Error"@),
                        is_result_assoc_model(ret_ty, "Err"@),
                    ),
                ],
            ),
        }
    } else {
        SpecTraitBound {
            span: ret_ty.span,
            prefix: None,
            path: path_args_model(
                q.join_model(q.join_model(futures_glob_model(), "__rt"@), "MyFuture"@),
                seq![SpecGenericArgument::Type(ret_ty)],
            ),
        }
    }
}

/// The trait of a stream whose item type the attribute names:
/// `::futures::Stream<Item = item, Error = <ret_ty as ::futures::__rt::IsResult>::Err>`.
/// The stream hands out `item`s, and fails with the error of the `Result`
/// that the function is declared to return.  The tokens stand at the
/// position of the declared type.
pub open spec fn stream_bound_model(item: SpecType, ret_ty: SpecType) -> SpecTraitBound {
    let p = Quoter { span: ret_ty.span, pin_crates: false };
    SpecTraitBound {
        span: ret_ty.span,
        prefix: None,
        path: path_args_model(
            p.join_model(p.root_model(true, "futures"@), "Stream"@),
            seq![
                SpecGenericArgument::Binding(p.stamp("Item"@), item),
                SpecGenericArgument::Binding(
                    p.stamp("Error"@),
                    is_result_assoc_model(ret_ty, "Err"@),
                ),
            ],
        ),
    }
}

/// The opaque type that an expansion of mode `kind` returns in place of the
/// declared `ret_ty`.  `item` is the item type that the attribute names, if
/// it names one.
///
/// A future must declare a named type, which the type checker later holds
/// to be a `Result`; the opaque type is `impl` of [`future_bound_model`],
/// with `impl` at the position of the body's braces.
///
/// A stream that declares `impl Stream<…>` keeps that type as it is, with
/// or without `item`.  Any other declared type, an `impl` of another trait
/// too (see [`stream_trait_model`]), has no item type of its own: with
/// `item` the opaque type is `impl` of [`stream_bound_model`], and without
/// it the type is refused, since nothing says what the stream hands out.
pub open spec fn trait_to_return_model(
    kind: ModeKind,
    for_boxed: bool,
    brace_token: Span,
    ret_ty: SpecType,
    item: Option<SpecType>,
) -> Result<SpecType, ExpandError> {
    match kind {
        ModeKind::Future => match ret_ty.kind {
            SpecTypeKind::Path(_) => Ok(
                SpecType {
                    span: brace_token,
                    kind: SpecTypeKind::ImplTrait(
                        seq![SpecTypeParamBound::Trait(future_bound_model(for_boxed, ret_ty))],
                    ),
                },
            ),
            _ => Err(ExpandError::NotAResult(ret_ty.span)),
        },
        ModeKind::Stream => match stream_trait_model(ret_ty) {
            Ok(_) => Ok(ret_ty),
            Err(e) => match item {
                Some(t) => Ok(
                    SpecType {
                        span: brace_token,
                        kind: SpecTypeKind::ImplTrait(
                            seq![SpecTypeParamBound::Trait(stream_bound_model(t, ret_ty))],
                        ),
                    },
                ),
                None => Err(e),
            },
        },
    }
}

/// The type that the annotations of the generator are made for: what a
/// future is declared to return, and the opaque type of a stream, which
/// names the item and the error that the generator yields.
pub open spec fn annotated_type_model(
    kind: ModeKind,
    for_boxed: bool,
    brace_token: Span,
    ret_ty: SpecType,
    item: Option<SpecType>,
) -> SpecType {
    match kind {
        ModeKind::Future => ret_ty,
        ModeKind::Stream => match trait_to_return_model(kind, for_boxed, brace_token, ret_ty, item) {
            Ok(t) => t,
            Err(_) => ret_ty,
        },
    }
}

/// One of the two modes of expansion.
pub trait Mode: TypeAnn + Copy {
    /// The name of the lifetime of the returned value, without the quote.
    fn default_lifetime(self) -> (name: &'static str)
        ensures
            name@ == default_lifetime_model(self.kind()),
    ;

    /// The name of the runtime function that takes the generator.
    fn rt_gen_fn_name(self) -> (name: &'static str)
        ensures
            name@ == rt_gen_fn_name_model(self.kind()),
    ;

    /// Which of the two modes this is.
    fn mode_kind(self) -> (k: ModeKind)
        ensures
            k == self.kind(),
    ;

    /// The opaque type to return in place of the declared `ret_ty`; `item`
    /// is the item type that the attribute names.
    fn mk_trait_to_return(
        self,
        for_boxed: bool,
        brace_token: Span,
        ret_ty: Type,
        item: Option<Type>,
    ) -> (r: Result<Type, ExpandError>)
        ensures
            match r {
                Ok(t) => trait_to_return_model(
                    self.kind(),
                    for_boxed,
                    brace_token,
                    ret_ty@,
                    opt_type_model(item),
                ) == Ok::<SpecType, ExpandError>(t@),
                Err(e) => trait_to_return_model(
                    self.kind(),
                    for_boxed,
                    brace_token,
                    ret_ty@,
                    opt_type_model(item),
                ) == Err::<SpecType, ExpandError>(e),
            },
    ;
}

/// The mode of `#[async]`.
#[derive(Clone, Copy, Debug, PartialEq, Eq)]
pub struct Future;

/// The mode of `#[async_stream]`.
#[derive(Clone, Copy, Debug, PartialEq, Eq)]
pub struct Stream;

/// `::futures`, at the site of the invocation.
fn futures_glob() -> (r: Path)
    ensures
        r@ == futures_glob_model(),
{
    path_root(true, Ident::new("futures", Span::CallSite))
}

/// `<ret_ty as ::futures::__rt::IsResult>::name`
fn is_result_assoc(ret_ty: Type, name: &str) -> (r: Type)
    ensures
        r@ == is_result_assoc_model(ret_ty@, name@),
{
    let q = quoter_from_tokens(&ret_ty);
    let p = Quoter::new(ret_ty.span);
    let span = ret_ty.span;
    let trait_path = q.join(q.join(futures_glob(), "__rt"), "IsResult");
    projection_type(span, ret_ty, trait_path, p.ident(name))
}

/// The trait that stands for a future of `ret_ty`.
fn future_bound(for_boxed: bool, ret_ty: Type) -> (r: TraitBound)
    ensures
        r@ == future_bound_model(for_boxed, ret_ty@),
{
    let q = quoter_from_tokens(&ret_ty);
    let p = Quoter::new(ret_ty.span);
    let span = ret_ty.span;
    if for_boxed {
        let item = GenericArgument::Binding(p.ident("Item"), is_result_assoc(ret_ty.clone(), "Ok"));
        let error = GenericArgument::Binding(p.ident("Error"), is_result_assoc(ret_ty, "Err"));
        let path = path_args(p.join(p.root(true, "futures"), "Future"), generic_args2(item, error));
        TraitBound { span, prefix: None, path }
    } else {
        let path = path_args(
            q.join(q.join(futures_glob(), "__rt"), "MyFuture"),
            generic_args1(GenericArgument::Type(ret_ty)),
        );
        TraitBound { span, prefix: None, path }
    }
}

/// The trait of a stream whose item type the attribute names.
fn stream_bound(item: Type, ret_ty: Type) -> (r: TraitBound)
    ensures
        r@ == stream_bound_model(item@, ret_ty@),
{
    let p = Quoter::new(ret_ty.span);
    let span = ret_ty.span;
    let item = GenericArgument::Binding(p.ident("Item"), item);
    let error = GenericArgument::Binding(p.ident("Error"), is_result_assoc(ret_ty, "Err"));
    let path = path_args(p.join(p.root(true, "futures"), "Stream"), generic_args2(item, error));
    TraitBound { span, prefix: None, path }
}

impl Mode for Future {
    fn default_lifetime(self) -> (name: &'static str) {
        "__returned_future"
    }

    fn rt_gen_fn_name(self) -> (name: &'static str) {
        "async_future"
    }

    fn mode_kind(self) -> (k: ModeKind) {
        ModeKind::Future
    }

    fn mk_trait_to_return(
        self,
        for_boxed: bool,
        brace_token: Span,
        ret_ty: Type,
        item: Option<Type>,
    ) -> (r: Result<Type, ExpandError>) {
        let is_path = match &ret_ty.kind {
            TypeKind::Path(_) => true,
            _ => false,
        };
        if is_path {
            let bound = TypeParamBound::Trait(future_bound(for_boxed, ret_ty));
            Ok(ty(brace_token, TypeKind::ImplTrait(bounds1(bound))))
        } else {
            Err(ExpandError::NotAResult(ret_ty.span))
        }
    }
}

impl Mode for Stream {
    fn default_lifetime(self) -> (name: &'static str) {
        "__returned_stream"
    }

    fn rt_gen_fn_name(self) -> (name: &'static str) {
        "async_stream"
    }

    fn mode_kind(self) -> (k: ModeKind) {
        ModeKind::Stream
    }

    fn mk_trait_to_return(
        self,
        for_boxed: bool,
        brace_token: Span,
        ret_ty: Type,
        item: Option<Type>,
    ) -> (r: Result<Type, ExpandError>) {
        match stream_trait(&ret_ty) {
            Ok(_) => Ok(ret_ty),
            Err(e) => match item {
                Some(t) => {
                    let bound = TypeParamBound::Trait(stream_bound(t, ret_ty));
                    Ok(ty(brace_token, TypeKind::ImplTrait(bounds1(bound))))
                },
                None => Err(e),
            },
        }
    }
}

/// The body of an asynchronous function or block: one call that hands the
/// generator to the runtime.
///
/// ```text
/// {
///     futures_await::__rt::gen_function(move || {
///         bindings
///         annotations
///         body
///     })
/// }
/// ```
///
/// The generator first binds the patterns of the capture plan, so that the
/// closure captures every argument by value; then come the annotations and
/// the body.  The path of the runtime function stands at the position of
/// the declared type, or of the braces where none is declared; the braces,
/// the closure and the call stand at the position of the body's braces.
pub open spec fn call_rt_gen_model(
    kind: ModeKind,
    bindings: Seq<SpecStmt>,
    body: SpecBlock,
    return_type: Option<SpecType>,
) -> Result<SpecBlock, ExpandError> {
    let brace = body.span;
    let q = Quoter {
        span: match return_type {
            Some(t) => t.span,
            None => brace,
        },
        pin_crates: true,
    };
    match make_type_annotations_model(kind, brace, return_type) {
        Err(e) => Err(e),
        Ok(annotations) => {
            let closure = plain_expr(
                brace,
                SpecExprKind::Closure {
                    by_move: true,
                    body: Box::new(
                        block_expr_model(
                            SpecBlock {
                                span: brace,
                                stmts: bindings + seq![
                                    annotations,
                                    SpecStmt::Expr(block_expr_model(body)),
                                ],
                            },
                        ),
                    ),
                },
            );
            Ok(
                SpecBlock {
                    span: brace,
                    stmts: seq![
                        SpecStmt::Expr(
                            plain_expr(
                                brace,
                                SpecExprKind::Call {
                                    func: Box::new(
                                        plain_expr(
                                            q.span,
                                            SpecExprKind::Path(
                                                rt_path_model(q, rt_gen_fn_name_model(kind)),
                                            ),
                                        ),
                                    ),
                                    args: seq![closure],
                                },
                            ),
                        ),
                    ],
                },
            )
        },
    }
}

/// The body `block` made asynchronous: its `#[async] for` loops expanded,
/// and the whole wrapped as [`call_rt_gen_model`] says.
pub open spec fn expand_async_block_model(
    kind: ModeKind,
    block: SpecBlock,
    output_ty: Option<SpecType>,
) -> Result<SpecBlock, ExpandError> {
    call_rt_gen_model(kind, Seq::empty(), crate::for_loop::fold_block_model(block), output_ty)
}

/// The body of a function made asynchronous: as that of a block, with the
/// patterns of `plan` bound first inside the generator.
pub open spec fn expand_fn_body_model(
    kind: ModeKind,
    plan: Seq<SpecCapture>,
    block: SpecBlock,
    ret_ty: SpecType,
) -> Result<SpecBlock, ExpandError> {
    call_rt_gen_model(
        kind,
        rebindings_model(plan),
        crate::for_loop::fold_block_model(block),
        Some(ret_ty),
    )
}

/// Wraps `bindings` and `body` in a closure and hands it to the runtime
/// function of `mode`.
fn call_rt_gen<M: Mode>(
    mode: M,
    bindings: Vec<Stmt>,
    body: Block,
    return_type: Option<Type>,
) -> (r: Result<Block, ExpandError>)
    ensures
        match r {
            Ok(b) => call_rt_gen_model(
                mode.kind(),
                stmts_model(bindings),
                body@,
                opt_type_model(return_type),
            ) == Ok::<SpecBlock, ExpandError>(b@),
            Err(e) => call_rt_gen_model(
                mode.kind(),
                stmts_model(bindings),
                body@,
                opt_type_model(return_type),
            ) == Err::<SpecBlock, ExpandError>(e),
        },
{
    let brace = body.span;
    let q = quoter_from_tokens_or(&return_type, brace);
    let gen_function = rt_path(&q, mode.rt_gen_fn_name());
    let annotations = match make_type_annotations(mode, brace, return_type) {
        Ok(a) => a,
        Err(e) => {
            return Err(e);
        },
    };
    let ghost first = stmts_model(bindings);
    let ghost rest = seq![annotations@, SpecStmt::Expr(block_expr_model(body@))];
    let mut stmts = bindings;
    stmts.push(annotations);
    stmts.push(Stmt::Expr(block_expr(body)));
    assert(stmts_model(stmts) =~= first + rest);
    let closure = move_closure(brace, block_expr(block(brace, stmts)));
    Ok(
        block(
            brace,
            stmts1(Stmt::Expr(call(brace, path_expr(q.span, gen_function), exprs1(closure)))),
        ),
    )
}

/// Makes the body `block` asynchronous.  `output_ty` is the declared return
/// type of the function that the body belongs to; a bare block has none.
pub fn expand_async_block<M: Mode>(mode: M, block: Block, output_ty: Option<Type>) -> (r: Result<
    Block,
    ExpandError,
>)
    ensures
        match r {
            Ok(b) => expand_async_block_model(mode.kind(), block@, opt_type_model(output_ty))
                == Ok::<SpecBlock, ExpandError>(b@),
            Err(e) => expand_async_block_model(mode.kind(), block@, opt_type_model(output_ty))
                == Err::<SpecBlock, ExpandError>(e),
        },
{
    let mut for_loops = ExpandAsyncFor;
    let block = for_loops.fold_block(block);
    let bindings: Vec<Stmt> = Vec::new();
    assert(stmts_model(bindings) =~= Seq::empty());
    call_rt_gen(mode, bindings, block, output_ty)
}

/// `futures_await::__rt::std::boxed::Box::new`
pub open spec fn box_new_model(q: Quoter) -> SpecPath {
    q.join_model(q.join_model(q.join_model(rt_path_model(q, "std"@), "boxed"@), "Box"@), "new"@)
}

/// The body with its value boxed, where `boxed` holds the position of the
/// flag; the body as it is, where the flag is not set.
pub open spec fn handle_boxed_body_model(boxed: Option<Span>, block: SpecBlock) -> SpecBlock {
    match boxed {
        None => block,
        Some(span) => {
            let q = Quoter { span, pin_crates: true };
            SpecBlock {
                span: block.span,
                stmts: seq![
                    SpecStmt::Expr(
                        plain_expr(
                            span,
                            SpecExprKind::Call {
                                func: Box::new(
                                    plain_expr(span, SpecExprKind::Path(box_new_model(q))),
                                ),
                                args: seq![block_expr_model(block)],
                            },
                        ),
                    ),
                ],
            }
        },
    }
}

/// The whole rewrite of a function: the model of [`Expander::expand`].
/// `boxed` is the position of the flag, where it was given; `item` is the
/// item type that the attribute names, if it names one.
pub open spec fn expand_model(
    kind: ModeKind,
    boxed: Option<Span>,
    send: bool,
    item: Option<SpecType>,
    f: SpecItemFn,
) -> Result<SpecItemFn, ExpandError> {
    if f.decl.variadic {
        Err(ExpandError::Variadic(f.ident.span))
    } else {
        let captured = capture_inputs_model(f);
        match captured.decl.output {
            SpecReturnType::Omitted => Err(ExpandError::NoReturnType(f.block.span)),
            SpecReturnType::Type(ret_ty) => match crate::ret_ty::handle_ret_ty_model(
                kind,
                boxed,
                send,
                item,
                captured,
            ) {
                Err(e) => Err(e),
                Ok(typed) => match expand_fn_body_model(
                    kind,
                    plan_of(f),
                    typed.block,
                    annotated_type_model(kind, boxed is Some, f.block.span, ret_ty, item),
                ) {
                    Err(e) => Err(e),
                    Ok(body) => Ok(
                        SpecItemFn {
                            qualifiers: typed.qualifiers,
                            ident: typed.ident,
                            decl: typed.decl,
                            block: prepend_extern_crate_rt_model(
                                handle_boxed_body_model(boxed, body),
                            ),
                        },
                    ),
                },
            },
        }
    }
}

/// Whether the declared type is a box: a path of three segments that ends
/// in `Box` with one argument.
pub open spec fn type_is_boxed(ty: SpecReturnType) -> bool {
    &&& ty matches SpecReturnType::Type(t)
    &&& t.kind matches SpecTypeKind::Path(p)
    &&& p.segments.len() == 3
    &&& p.segments[2].ident.name == "Box"@
    &&& p.segments[2].arguments matches crate::ty::SpecPathArguments::AngleBracketed(args)
    &&& args.len() == 1
}

/// Whether the value of the rewritten body is boxed: after the import of
/// the runtime, the body is one call, of a path of six segments that ends
/// in `Box::new`, on one argument.
pub open spec fn value_is_boxed(body: SpecBlock) -> bool {
    &&& body.stmts.len() == 2
    &&& body.stmts[1] matches SpecStmt::Expr(e)
    &&& e.kind matches SpecExprKind::Call { func, args }
    &&& func.kind matches SpecExprKind::Path(p)
    &&& p.segments.len() == 6
    &&& p.segments[4].ident.name == "Box"@
    &&& p.segments[5].ident.name == "new"@
    &&& args.len() == 1
}

/// With `boxed`, the declared return type is a box and the returned value
/// is boxed; without it, neither is.
pub proof fn lemma_boxed_in_type_and_value(
    kind: ModeKind,
    boxed: Option<Span>,
    send: bool,
    item: Option<SpecType>,
    f: SpecItemFn,
)
    requires
        expand_model(kind, boxed, send, item, f) is Ok,
    ensures
        type_is_boxed(expand_model(kind, boxed, send, item, f)->Ok_0.decl.output) <==> boxed is Some,
        value_is_boxed(expand_model(kind, boxed, send, item, f)->Ok_0.block) <==> boxed is Some,
{
    let g = expand_model(kind, boxed, send, item, f)->Ok_0;
    let captured = capture_inputs_model(f);
    let ret_ty = captured.decl.output->Type_0;
    let typed = crate::ret_ty::handle_ret_ty_model(kind, boxed, send, item, captured)->Ok_0;
    let annotated = annotated_type_model(kind, boxed is Some, f.block.span, ret_ty, item);
    let body = expand_fn_body_model(kind, plan_of(f), typed.block, annotated)->Ok_0;
    let opaque = crate::ret_ty::ret_ty_to_impl_trait_model(
        kind,
        boxed is Some,
        captured.decl.output,
        captured.block.span,
        item,
    )->Ok_0;
    assert(crate::ret_ty::is_impl_trait(opaque));
    let bounded = crate::ret_ty::add_ret_lt_bounds_model(
        kind,
        crate::sig::SpecFnDecl {
            generics: captured.decl.generics,
            inputs: captured.decl.inputs,
            output: opaque,
            variadic: captured.decl.variadic,
        },
    );
    assert(crate::ret_ty::is_impl_trait(bounded.output));
    assert(g.block == prepend_extern_crate_rt_model(handle_boxed_body_model(boxed, body)));
    assert(body.stmts.len() == 1);
    match boxed {
        Some(span) => {
            let q = Quoter { span, pin_crates: true };
            assert(box_new_model(q).segments.len() == 6);
            assert(box_new_model(q).segments[4].ident.name == "Box"@);
            assert(box_new_model(q).segments[5].ident.name == "new"@);
            assert(g.block.stmts[1] == handle_boxed_body_model(boxed, body).stmts[0]);
        },
        None => {
            assert(g.block.stmts[1] == body.stmts[0]);
            let e = body.stmts[0]->Expr_0;
            let p = e.kind->Call_func.kind->Path_0;
            assert(p.segments.len() == 3);
        },
    }
}

/// The block of the generator closure in a rewritten body.
pub open spec fn generator_block(boxed: bool, body: SpecBlock) -> SpecBlock
    recommends
        body.stmts.len() == 2,
{
    let outer = body.stmts[1]->Expr_0;
    let call = if boxed {
        outer.kind->Call_args[0].kind->Block_0.stmts[0]->Expr_0
    } else {
        outer
    };
    call.kind->Call_args[0].kind->Closure_body.kind->Block_0
}

/// The generator of a rewritten function first re-binds the patterns of the
/// capture plan from their placeholders, in the order of the parameters;
/// then come the type annotations, made for what a future is declared to
/// return or for the opaque type of a stream, and then the body as written,
/// with its marked loops expanded.  It holds nothing else.
pub proof fn lemma_generator_rebinds_then_annotates_then_runs(
    kind: ModeKind,
    boxed: Option<Span>,
    send: bool,
    item: Option<SpecType>,
    f: SpecItemFn,
)
    requires
        expand_model(kind, boxed, send, item, f) is Ok,
    ensures
        ({
            let g = expand_model(kind, boxed, send, item, f)->Ok_0;
            let generator = generator_block(boxed is Some, g.block);
            let plan = plan_of(f);
            &&& g.block.stmts.len() == 2
            &&& g.block.stmts[0] == crate::util::extern_crate_rt_model()
            &&& generator.stmts.len() == plan.len() + 2
            &&& forall|k: int|
                0 <= k < plan.len() ==> #[trigger] generator.stmts[k]
                    == crate::capture::rebinding_model(plan[k])
            &&& make_type_annotations_model(
                kind,
                f.block.span,
                Some(
                    annotated_type_model(
                        kind,
                        boxed is Some,
                        f.block.span,
                        f.decl.output->Type_0,
                        item,
                    ),
                ),
            ) == Ok::<SpecStmt, ExpandError>(generator.stmts[plan.len() as int])
            &&& generator.stmts[plan.len() as int + 1] == SpecStmt::Expr(
                block_expr_model(crate::for_loop::fold_block_model(f.block)),
            )
        }),
{
    let g = expand_model(kind, boxed, send, item, f)->Ok_0;
    let captured = capture_inputs_model(f);
    let ret_ty = captured.decl.output->Type_0;
    let typed = crate::ret_ty::handle_ret_ty_model(kind, boxed, send, item, captured)->Ok_0;
    let annotated = annotated_type_model(kind, boxed is Some, f.block.span, ret_ty, item);
    let body = expand_fn_body_model(kind, plan_of(f), typed.block, annotated)->Ok_0;
    assert(typed.block == f.block);
    assert(g.block == prepend_extern_crate_rt_model(handle_boxed_body_model(boxed, body)));
    assert(body.stmts.len() == 1);
    let boxed_body = handle_boxed_body_model(boxed, body);
    assert(boxed_body.stmts.len() == 1);
    assert(g.block.stmts[1] == boxed_body.stmts[0]);
    assert(crate::for_loop::fold_block_model(f.block).span == f.block.span);
}

/// The bounds of the declared return type of a rewritten function: those of
/// the `impl` type, or those in the box.
pub open spec fn returned_bounds(boxed: bool, output: SpecReturnType) -> Seq<SpecTypeParamBound> {
    let declared = output->Type_0;
    if boxed {
        declared.kind->Path_0.segments[2].arguments->AngleBracketed_0[0]->Type_0.kind->Bounds_0
    } else {
        declared.kind->ImplTrait_0
    }
}

/// A function made a future returns an opaque type whose first bound is the
/// trait of futures of the declared type: the future completes with the `Ok`
/// and the `Err` of what the function was declared to return.  What follows
/// the trait among the bounds are lifetimes and, where asked for, `Send`.
pub proof fn lemma_future_is_of_the_declared_result(
    boxed: Option<Span>,
    send: bool,
    item: Option<SpecType>,
    f: SpecItemFn,
)
    requires
        expand_model(ModeKind::Future, boxed, send, item, f) is Ok,
    ensures
        ({
            let g = expand_model(ModeKind::Future, boxed, send, item, f)->Ok_0;
            let bounds = returned_bounds(boxed is Some, g.decl.output);
            &&& f.decl.output matches SpecReturnType::Type(declared)
            &&& bounds.len() >= 2
            &&& bounds[0] == SpecTypeParamBound::Trait(future_bound_model(boxed is Some, declared))
            &&& bounds[1] == SpecTypeParamBound::Lifetime(
                crate::ret_ty::ret_lifetime_model(ModeKind::Future),
            )
        }),
{
    let kind = ModeKind::Future;
    let captured = capture_inputs_model(f);
    let declared = f.decl.output->Type_0;
    let opaque = crate::ret_ty::ret_ty_to_impl_trait_model(
        kind,
        boxed is Some,
        captured.decl.output,
        captured.block.span,
        item,
    )->Ok_0;
    let first = seq![SpecTypeParamBound::Trait(future_bound_model(boxed is Some, declared))];
    assert(crate::ret_ty::impl_bounds(opaque) == first);
    assert(!crate::ret_ty::has_lifetime_bound(first));
    let bounded = crate::ret_ty::add_ret_lt_bounds_model(
        kind,
        crate::sig::SpecFnDecl {
            generics: captured.decl.generics,
            inputs: captured.decl.inputs,
            output: opaque,
            variadic: captured.decl.variadic,
        },
    );
    assert(crate::ret_ty::impl_bounds(bounded.output) == first.push(
        SpecTypeParamBound::Lifetime(crate::ret_ty::ret_lifetime_model(kind)),
    ));
}

/// Whether the declared type is `impl Stream<…>`: an `impl` type whose first
/// trait is named `Stream`.
pub open spec fn declares_stream(ret_ty: SpecType) -> bool {
    ret_ty.kind matches SpecTypeKind::ImplTrait(bounds) && crate::type_ann::first_trait_bound(
        bounds,
    ) matches Some(t) && crate::type_ann::is_stream_trait(t)
}

/// What a stream is made of.  A declared `impl Stream<…>` is kept as
/// declared, whether or not the attribute names an item type.  Any other
/// declared type becomes the stream of the item type that the attribute
/// names and of the error of the declared type.  Where the declared type is
/// no `impl Stream<…>` and the attribute names no item type, nothing says
/// what the stream hands out, and the type is refused at its position.
pub proof fn lemma_stream_needs_item_or_stream(
    for_boxed: bool,
    brace_token: Span,
    ret_ty: SpecType,
    item: Option<SpecType>,
)
    ensures
        trait_to_return_model(ModeKind::Stream, for_boxed, brace_token, ret_ty, item) is Ok <==> (
            declares_stream(ret_ty) || item is Some
        ),
        declares_stream(ret_ty) ==> trait_to_return_model(
            ModeKind::Stream,
            for_boxed,
            brace_token,
            ret_ty,
            item,
        ) == Ok::<SpecType, ExpandError>(ret_ty),
        !declares_stream(ret_ty) && item is Some ==> trait_to_return_model(
            ModeKind::Stream,
            for_boxed,
            brace_token,
            ret_ty,
            item,
        ) == Ok::<SpecType, ExpandError>(
            SpecType {
                span: brace_token,
                kind: SpecTypeKind::ImplTrait(
                    seq![SpecTypeParamBound::Trait(stream_bound_model(item->Some_0, ret_ty))],
                ),
            },
        ),
        !declares_stream(ret_ty) && item is None ==> trait_to_return_model(
            ModeKind::Stream,
            for_boxed,
            brace_token,
            ret_ty,
            item,
        ) == Err::<SpecType, ExpandError>(ExpandError::NotAStream(ret_ty.span)),
{
}

/// The opaque type of a stream always declares `Stream`, so the annotations
/// of its generator can be made: a stream function is refused for its
/// signature alone, never for its annotations.
pub proof fn lemma_opaque_stream_declares_stream(
    for_boxed: bool,
    brace_token: Span,
    ret_ty: SpecType,
    item: Option<SpecType>,
)
    requires
        trait_to_return_model(ModeKind::Stream, for_boxed, brace_token, ret_ty, item) is Ok,
    ensures
        declares_stream(
            trait_to_return_model(ModeKind::Stream, for_boxed, brace_token, ret_ty, item)->Ok_0,
        ),
{
    if !declares_stream(ret_ty) {
        let p = Quoter { span: ret_ty.span, pin_crates: false };
        let bound = stream_bound_model(item->Some_0, ret_ty);
        let bounds = seq![SpecTypeParamBound::Trait(bound)];
        assert(crate::type_ann::first_trait_bound(bounds) == Some(bound));
        assert(bound.path.segments.len() == 2);
        assert(bound.path.segments.last().ident.name == "Stream"@);
    }
}

/// When a function is made a stream: exactly when it is not variadic,
/// declares a return type, and either that type is `impl Stream<…>` or the
/// attribute names the item type.
pub proof fn lemma_stream_expands_exactly_when(
    boxed: Option<Span>,
    send: bool,
    item: Option<SpecType>,
    f: SpecItemFn,
)
    ensures
        expand_model(ModeKind::Stream, boxed, send, item, f) is Ok <==> (!f.decl.variadic
            && f.decl.output is Type && (declares_stream(f.decl.output->Type_0) || item is Some)),
{
    if !f.decl.variadic && f.decl.output is Type {
        let declared = f.decl.output->Type_0;
        let brace = f.block.span;
        lemma_stream_needs_item_or_stream(boxed is Some, brace, declared, item);
        if declares_stream(declared) || item is Some {
            lemma_opaque_stream_declares_stream(boxed is Some, brace, declared, item);
        }
    }
}

/// What the attribute was applied to.
#[derive(Debug, PartialEq, Eq)]
pub enum ParsedItem {
    /// A function.
    Fn(ItemFn),
    /// Any other item, kept by the front end under a handle.
    Other(u64),
}

/// Model of [`AttrArg`].
pub enum SpecAttrArg {
    Word(SpecIdent),
    Keyed(SpecIdent, SpecType),
}

/// One argument of the attribute, as the front end parsed it: a word, such
/// as `boxed`, or a name with a type, such as `item = u64`.
#[derive(Debug, PartialEq, Eq)]
pub enum AttrArg {
    Word(Ident),
    Keyed(Ident, Type),
}

impl View for AttrArg {
    type V = SpecAttrArg;

    open spec fn view(&self) -> SpecAttrArg {
        match self {
            AttrArg::Word(name) => SpecAttrArg::Word(name@),
            AttrArg::Keyed(name, ty) => SpecAttrArg::Keyed(name@, ty@),
        }
    }
}

/// Model of a list of arguments.
pub open spec fn attr_args_model(args: Seq<AttrArg>) -> Seq<SpecAttrArg> {
    Seq::new(args.len(), |i: int| args[i]@)
}

/// Model of [`AttrConfig`].
pub struct SpecAttrConfig {
    pub boxed: Option<Span>,
    pub send: bool,
    pub item: Option<SpecType>,
}

/// What the arguments of the attribute ask for.
#[derive(Debug, PartialEq, Eq)]
pub struct AttrConfig {
    /// The position of `boxed` or `boxed_send`, where the returned value is
    /// to be boxed.
    pub boxed: Option<Span>,
    /// Whether the box is to be `Send`.
    pub send: bool,
    /// The item type of a stream, where the attribute names it.
    pub item: Option<Type>,
}

impl View for AttrConfig {
    type V = SpecAttrConfig;

    open spec fn view(&self) -> SpecAttrConfig {
        SpecAttrConfig { boxed: self.boxed, send: self.send, item: opt_type_model(self.item) }
    }
}

/// What an attribute without arguments asks for.
pub open spec fn no_config() -> SpecAttrConfig {
    SpecAttrConfig { boxed: None, send: false, item: None }
}

/// The configuration `c` with one more argument taken in.
///
/// The words are `boxed` and `boxed_send`; both ask for a box, so a second
/// one of either is a duplicate.  The one key is `item`, which only a stream
/// takes, once.  Any other word or key is unknown.  Each error stands at the
/// name of the argument.
pub open spec fn attr_step(kind: ModeKind, c: SpecAttrConfig, arg: SpecAttrArg) -> Result<
    SpecAttrConfig,
    ExpandError,
> {
    match arg {
        SpecAttrArg::Word(name) => if name.name == "boxed"@ || name.name == "boxed_send"@ {
            if c.boxed is Some {
                Err(ExpandError::DuplicateArgument(name.span))
            } else {
                Ok(
                    SpecAttrConfig {
                        boxed: Some(name.span),
                        send: name.name == "boxed_send"@,
                        item: c.item,
                    },
                )
            }
        } else {
            Err(ExpandError::UnknownArgument(name.span))
        },
        SpecAttrArg::Keyed(name, ty) => if name.name == "item"@ && kind == ModeKind::Stream {
            if c.item is Some {
                Err(ExpandError::DuplicateArgument(name.span))
            } else {
                Ok(SpecAttrConfig { boxed: c.boxed, send: c.send, item: Some(ty) })
            }
        } else {
            Err(ExpandError::UnknownArgument(name.span))
        },
    }
}

/// What the first `n` arguments ask for, taken in from left to right; the
/// first argument that cannot be taken in gives the error.
pub open spec fn attr_config_prefix(kind: ModeKind, args: Seq<SpecAttrArg>, n: nat) -> Result<
    SpecAttrConfig,
    ExpandError,
>
    recommends
        n <= args.len(),
    decreases n,
{
    if n == 0 {
        Ok(no_config())
    } else {
        match attr_config_prefix(kind, args, (n - 1) as nat) {
            Ok(c) => attr_step(kind, c, args[n - 1]),
            Err(e) => Err(e),
        }
    }
}

/// What the arguments of the attribute ask for, or why they cannot be
/// taken: an unknown word or key, `item` on a future, or `boxed` or `item`
/// given twice.
pub open spec fn attr_config_model(kind: ModeKind, args: Seq<SpecAttrArg>) -> Result<
    SpecAttrConfig,
    ExpandError,
> {
    attr_config_prefix(kind, args, args.len())
}

/// An error among the first arguments is the error of the whole list.
pub proof fn lemma_attr_error_persists(kind: ModeKind, args: Seq<SpecAttrArg>, m: nat, n: nat)
    requires
        m <= n,
        attr_config_prefix(kind, args, m) is Err,
    ensures
        attr_config_prefix(kind, args, n) == attr_config_prefix(kind, args, m),
    decreases n,
{
    if m < n {
        lemma_attr_error_persists(kind, args, m, (n - 1) as nat);
    }
}

/// Whether the argument is the word `boxed` or `boxed_send`.
pub open spec fn is_box_word(arg: SpecAttrArg) -> bool {
    arg matches SpecAttrArg::Word(name) && (name.name == "boxed"@ || name.name == "boxed_send"@)
}

/// Whether one of the first `n` arguments is the word `boxed` or
/// `boxed_send`.
pub open spec fn asks_for_box(args: Seq<SpecAttrArg>, n: int) -> bool {
    exists|i: int| 0 <= i < n && is_box_word(#[trigger] args[i])
}

/// Whether one of the first `n` arguments is keyed.
pub open spec fn names_item(args: Seq<SpecAttrArg>, n: int) -> bool {
    exists|i: int| 0 <= i < n && (#[trigger] args[i]) is Keyed
}

/// Arguments that are taken: the value is boxed exactly where one of them
/// asks for a box, and an item type is named exactly where one of them is
/// keyed.
pub proof fn lemma_attr_config_says_what_was_asked(kind: ModeKind, args: Seq<SpecAttrArg>, n: nat)
    requires
        n <= args.len(),
        attr_config_prefix(kind, args, n) is Ok,
    ensures
        attr_config_prefix(kind, args, n)->Ok_0.boxed is Some <==> asks_for_box(args, n as int),
        attr_config_prefix(kind, args, n)->Ok_0.item is Some <==> names_item(args, n as int),
        kind == ModeKind::Future ==> attr_config_prefix(kind, args, n)->Ok_0.item is None,
    decreases n,
{
    if n > 0 {
        lemma_attr_config_says_what_was_asked(kind, args, (n - 1) as nat);
        let before = attr_config_prefix(kind, args, (n - 1) as nat)->Ok_0;
        let last = args[n - 1];
        if asks_for_box(args, n as int) && !asks_for_box(args, n - 1) {
            let i = choose|i: int| 0 <= i < n && is_box_word(#[trigger] args[i]);
            assert(i == n - 1);
        }
        if names_item(args, n as int) && !names_item(args, n - 1) {
            let i = choose|i: int| 0 <= i < n && (#[trigger] args[i]) is Keyed;
            assert(i == n - 1);
        }
        match last {
            SpecAttrArg::Word(name) => {
                assert(args[n - 1] is Word);
            },
            SpecAttrArg::Keyed(name, ty) => {
                assert(args[n - 1] is Keyed);
            },
        }
    }
}

/// The rewrite of an attributed item: the model of [`expand_async_fn`].
/// The arguments are read first; then the item must be a function, which
/// is refused at the attribute if it is none.
pub open spec fn expand_async_fn_model(
    kind: ModeKind,
    args: Seq<SpecAttrArg>,
    attr_span: Span,
    item: Result<SpecItemFn, u64>,
) -> Result<SpecItemFn, ExpandError> {
    match attr_config_model(kind, args) {
        Err(e) => Err(e),
        Ok(c) => match item {
            Err(_) => Err(ExpandError::NotAFunction(attr_span)),
            Ok(f) => expand_model(kind, c.boxed, c.send, c.item, f),
        },
    }
}

/// The item as a function, or the handle of what else it is.
pub open spec fn parsed_item_model(item: ParsedItem) -> Result<SpecItemFn, u64> {
    match item {
        ParsedItem::Fn(f) => Ok(f@),
        ParsedItem::Other(h) => Err(h),
    }
}

/// Takes one more argument into the configuration.
fn take_attr_arg(kind: ModeKind, c: AttrConfig, arg: AttrArg) -> (r: Result<
    AttrConfig,
    ExpandError,
>)
    ensures
        match r {
            Ok(d) => attr_step(kind, c@, arg@) == Ok::<SpecAttrConfig, ExpandError>(d@),
            Err(e) => attr_step(kind, c@, arg@) == Err::<SpecAttrConfig, ExpandError>(e),
        },
{
    let AttrConfig { boxed, send, item } = c;
    match arg {
        AttrArg::Word(name) => {
            let with_send = name.is("boxed_send");
            if name.is("boxed") || with_send {
                if boxed.is_some() {
                    Err(ExpandError::DuplicateArgument(name.span))
                } else {
                    Ok(AttrConfig { boxed: Some(name.span), send: with_send, item })
                }
            } else {
                Err(ExpandError::UnknownArgument(name.span))
            }
        },
        AttrArg::Keyed(name, ty) => {
            let for_stream = match kind {
                ModeKind::Stream => true,
                ModeKind::Future => false,
            };
            if name.is("item") && for_stream {
                if item.is_some() {
                    Err(ExpandError::DuplicateArgument(name.span))
                } else {
                    Ok(AttrConfig { boxed, send, item: Some(ty) })
                }
            } else {
                Err(ExpandError::UnknownArgument(name.span))
            }
        },
    }
}

/// Reads the arguments of the attribute of mode `kind`: `boxed`,
/// `boxed_send` and, for a stream, `item = Type`, each at most once and in
/// any order.
pub fn attr_config(kind: ModeKind, args: Vec<AttrArg>) -> (r: Result<AttrConfig, ExpandError>)
    ensures
        match r {
            Ok(c) => attr_config_model(kind, attr_args_model(args@)) == Ok::<
                SpecAttrConfig,
                ExpandError,
            >(c@),
            Err(e) => attr_config_model(kind, attr_args_model(args@)) == Err::<
                SpecAttrConfig,
                ExpandError,
            >(e),
        },
{
    let ghost orig = args@;
    let ghost all = attr_args_model(orig);
    let n = args.len();
    let mut config = AttrConfig { boxed: None, send: false, item: None };
    let mut taken: usize = 0;
    for arg in it: args
        invariant
            it.seq() == orig,
            orig.len() == n,
            all == attr_args_model(orig),
            taken == it.index(),
            attr_config_prefix(kind, all, taken as nat) == Ok::<SpecAttrConfig, ExpandError>(
                config@,
            ),
    {
        assert(all[taken as int] == arg@);
        match take_attr_arg(kind, config, arg) {
            Ok(next) => {
                config = next;
            },
            Err(e) => {
                proof {
                    assert(attr_config_prefix(kind, all, (taken + 1) as nat) == Err::<
                        SpecAttrConfig,
                        ExpandError,
                    >(e));
                    lemma_attr_error_persists(kind, all, (taken + 1) as nat, all.len());
                }
                return Err(e);
            },
        }
        taken += 1;
    }
    Ok(config)
}

/// Expands `#[async]` or `#[async_stream]`, as `mode` says, on `item`.
/// `args` are the arguments of the attribute, which stands at `attr_span`.
pub fn expand_async_fn<M: Mode>(
    mode: M,
    args: Vec<AttrArg>,
    attr_span: Span,
    item: ParsedItem,
) -> (r: Result<ItemFn, ExpandError>)
    ensures
        match r {
            Ok(g) => expand_async_fn_model(
                mode.kind(),
                attr_args_model(args@),
                attr_span,
                parsed_item_model(item),
            ) == Ok::<SpecItemFn, ExpandError>(g@),
            Err(e) => expand_async_fn_model(
                mode.kind(),
                attr_args_model(args@),
                attr_span,
                parsed_item_model(item),
            ) == Err::<SpecItemFn, ExpandError>(e),
        },
{
    let config = match attr_config(mode.mode_kind(), args) {
        Ok(c) => c,
        Err(e) => {
            return Err(e);
        },
    };
    let f = match item {
        ParsedItem::Fn(f) => f,
        ParsedItem::Other(_) => {
            return Err(ExpandError::NotAFunction(attr_span));
        },
    };
    let AttrConfig { boxed, send, item } = config;
    let expander = Expander { boxed, send, item, mode };
    expander.expand(f)
}

/// The rewriter of one function.
#[derive(Debug)]
pub struct Expander<M: Mode> {
    /// The position of `boxed` in `#[async(boxed)]`, where it was given.
    pub boxed: Option<Span>,
    /// Whether the boxed value is to be `Send`.
    pub send: bool,
    /// The item type of `#[async_stream(item = Type)]`, where it was given.
    pub item: Option<Type>,
    pub mode: M,
}

impl<M: Mode> Expander<M> {
    /// Rewrites `function` into a function that returns the future or the
    /// stream at once.
    pub fn expand(&self, function: ItemFn) -> (r: Result<ItemFn, ExpandError>)
        ensures
            match r {
                Ok(g) => expand_model(
                    self.mode.kind(),
                    self.boxed,
                    self.send,
                    opt_type_model(self.item),
                    function@,
                ) == Ok::<SpecItemFn, ExpandError>(g@),
                Err(e) => expand_model(
                    self.mode.kind(),
                    self.boxed,
                    self.send,
                    opt_type_model(self.item),
                    function@,
                ) == Err::<SpecItemFn, ExpandError>(e),
            },
    {
        let (function, plan) = match capture_inputs(function) {
            Ok(captured) => captured,
            Err(e) => {
                return Err(e);
            },
        };
        let ret_ty = match &function.decl.output {
            ReturnType::Omitted => {
                return Err(ExpandError::NoReturnType(function.block.span));
            },
            ReturnType::Type(ty) => ty.clone(),
        };
        let annotated = match self.mode.mode_kind() {
            ModeKind::Future => ret_ty,
            ModeKind::Stream => {
                let declared = ret_ty.clone();
                match self.mode.mk_trait_to_return(
                    self.boxed.is_some(),
                    function.block.span,
                    ret_ty,
                    clone_opt_type(&self.item),
                ) {
                    Ok(opaque) => opaque,
                    Err(_) => declared,
                }
            },
        };
        let function = match self.handle_ret_ty(function) {
            Ok(f) => f,
            Err(e) => {
                return Err(e);
            },
        };
        let ItemFn { qualifiers, ident, decl, block } = function;
        let mut for_loops = ExpandAsyncFor;
        let block = for_loops.fold_block(block);
        let block = match call_rt_gen(self.mode, rebindings(plan), block, Some(annotated)) {
            Ok(b) => b,
            Err(e) => {
                return Err(e);
            },
        };
        let block = self.handle_boxed_body(block);
        let block = prepend_extern_crate_rt(block);
        Ok(ItemFn { qualifiers, ident, decl, block })
    }

    /// Boxes the value of the body where `boxed` was given.
    pub fn handle_boxed_body(&self, block: Block) -> (r: Block)
        ensures
            r@ == handle_boxed_body_model(self.boxed, block@),
    {
        let boxed = match self.boxed {
            Some(boxed) => boxed,
            None => {
                return block;
            },
        };
        let brace = block.span;
        let q = quoter(boxed);
        let box_fn_path = q.join(q.join(q.join(rt_path(&q, "std"), "boxed"), "Box"), "new");
        let box_stmt = Stmt::Expr(
            call(boxed, path_expr(boxed, box_fn_path), exprs1(block_expr(block))),
        );
        crate::make::block(brace, stmts1(box_stmt))
    }
}

} // verus!
