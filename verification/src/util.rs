//! Stamping of synthesized syntax with source positions, and small helpers
//! shared by the transforms.
use crate::expr::{Block, Expr, Item, SpecBlock, SpecItem, SpecStmt, Stmt};
use crate::make::{path_join, path_join_model, path_root, path_root_model};
use crate::span::{call_site, Span};
use crate::ty::{Ident, Path, SpecIdent, SpecPath, TraitBound, Type};
use vstd::prelude::*;

verus! {

/// The name of the crate that emitted code takes its runtime support from.
pub open spec fn runtime_crate() -> Seq<char> {
    "futures_await"@
}

/// The name of the crate that emitted types name their traits from.
pub open spec fn futures_crate() -> Seq<char> {
    "futures"@
}

/// Whether `name` is one of the two crate names that emitted paths start with.
pub open spec fn is_crate_name(name: Seq<char>) -> bool {
    name == runtime_crate() || name == futures_crate()
}

/// Syntax that has a position of its own.
pub trait Spanned {
    /// The position that a fragment derived from this syntax is stamped with.
    spec fn span_model(&self) -> Span;

    fn span(&self) -> (s: Span)
        ensures
            s == self.span_model(),
    ;
}

impl Spanned for Type {
    open spec fn span_model(&self) -> Span {
        self@.span
    }

    fn span(&self) -> (s: Span) {
        self.span
    }
}

impl Spanned for Expr {
    open spec fn span_model(&self) -> Span {
        self@.span
    }

    fn span(&self) -> (s: Span) {
        self.span
    }
}

impl Spanned for Block {
    open spec fn span_model(&self) -> Span {
        self@.span
    }

    fn span(&self) -> (s: Span) {
        self.span
    }
}

impl Spanned for TraitBound {
    open spec fn span_model(&self) -> Span {
        self@.span
    }

    fn span(&self) -> (s: Span) {
        self.span
    }
}

/// A stamp for the tokens of a synthesized fragment.
///
/// Every token of the fragment gets the position `span`.  Where `pin_crates`
/// is set, the crate names `futures_await` and `futures` get the position of
/// the macro invocation instead, so that the compiler resolves them there and
/// prints `std::result::Result` for what is reached through them.
#[derive(Clone, Copy, Debug, PartialEq, Eq)]
pub struct Quoter {
    pub span: Span,
    pub pin_crates: bool,
}

impl Quoter {
    /// The position that the identifier `name` gets.
    pub open spec fn span_for(self, name: Seq<char>) -> Span {
        if self.pin_crates && is_crate_name(name) {
            Span::CallSite
        } else {
            self.span
        }
    }

    /// The identifier `name`, stamped.
    pub open spec fn stamp(self, name: Seq<char>) -> SpecIdent {
        SpecIdent { name, span: self.span_for(name) }
    }

    /// The path of one segment `name`, stamped.
    pub open spec fn root_model(self, leading_colon: bool, name: Seq<char>) -> SpecPath {
        path_root_model(leading_colon, self.stamp(name))
    }

    /// `path::name`, with `name` stamped.
    pub open spec fn join_model(self, path: SpecPath, name: Seq<char>) -> SpecPath {
        path_join_model(path, self.stamp(name))
    }

    /// A stamp that gives every token the position `span`.
    pub fn new(span: Span) -> (q: Quoter)
        ensures
            q == (Quoter { span, pin_crates: false }),
    {
        Quoter { span, pin_crates: false }
    }

    /// A stamp that gives every token the position of the macro invocation.
    pub fn new_call_site() -> (q: Quoter)
        ensures
            q == (Quoter { span: Span::CallSite, pin_crates: false }),
    {
        Quoter { span: call_site(), pin_crates: false }
    }

    /// The identifier `name`, stamped.
    pub fn ident(&self, name: &str) -> (r: Ident)
        ensures
            r@ == self.stamp(name@),
    {
        let r = Ident::new(name, self.span);
        if self.pin_crates && (r.is("futures_await") || r.is("futures")) {
            Ident { name: r.name, span: Span::CallSite }
        } else {
            r
        }
    }

    /// The path of one segment `name`, stamped.
    pub fn root(&self, leading_colon: bool, name: &str) -> (r: Path)
        ensures
            r@ == self.root_model(leading_colon, name@),
    {
        path_root(leading_colon, self.ident(name))
    }

    /// `path::name`, with `name` stamped.
    pub fn join(&self, path: Path, name: &str) -> (r: Path)
        ensures
            r@ == self.join_model(path@, name@),
    {
        path_join(path, self.ident(name))
    }
}

/// The stamp for fragments that stand for the syntax at `span`; it keeps the
/// two crate names at the site of the invocation.
pub fn quoter(span: Span) -> (q: Quoter)
    ensures
        q == (Quoter { span, pin_crates: true }),
{
    Quoter { span, pin_crates: true }
}

/// The stamp for fragments derived from `t`.
pub fn quoter_from_tokens<T: Spanned>(t: &T) -> (q: Quoter)
    ensures
        q == (Quoter { span: t.span_model(), pin_crates: true }),
{
    quoter(t.span())
}

/// The position of `t`, or `span` where there is no `t`.
pub open spec fn span_model_or<T: Spanned>(t: Option<T>, span: Span) -> Span {
    match t {
        Some(t) => t.span_model(),
        None => span,
    }
}

/// The stamp for fragments derived from `t`, or from `span` where there is
/// no `t`.
pub fn quoter_from_tokens_or<T: Spanned>(t: &Option<T>, span: Span) -> (q: Quoter)
    ensures
        q == (Quoter { span: span_model_or(*t, span), pin_crates: true }),
{
    match t {
        Some(tokens) => quoter(tokens.span()),
        None => quoter(span),
    }
}

/// `extern crate futures_await;` at the site of the invocation.
pub open spec fn extern_crate_rt_model() -> SpecStmt {
    SpecStmt::Item(
        SpecItem::ExternCrate(SpecIdent { name: runtime_crate(), span: Span::CallSite }),
    )
}

/// `extern crate futures_await;` at the site of the invocation.
pub fn extern_crate_rt() -> (r: Stmt)
    ensures
        r@ == extern_crate_rt_model(),
{
    Stmt::Item(Item::ExternCrate(Ident::new("futures_await", Span::CallSite)))
}

/// `block` with `extern crate futures_await;` before its first statement.
pub open spec fn prepend_extern_crate_rt_model(block: SpecBlock) -> SpecBlock {
    SpecBlock { span: block.span, stmts: seq![extern_crate_rt_model()] + block.stmts }
}

/// Puts `extern crate futures_await;` before the statements of `block`, so
/// that the emitted code finds its runtime whatever the caller imported.
pub fn prepend_extern_crate_rt(block: Block) -> (r: Block)
    ensures
        r@ == prepend_extern_crate_rt_model(block@),
{
    let mut block = block;
    let ghost before = block@;
    block.stmts.insert(0, extern_crate_rt());
    assert(block@.stmts =~= prepend_extern_crate_rt_model(before).stmts);
    block
}

/// A member of a punctuated list: an item followed by its delimiter, or the
/// last item, which has none.
#[derive(Debug, PartialEq, Eq)]
pub enum Element<T, D> {
    Delimited(T, D),
    End(T),
}

impl<T, D> Element<T, D> {
    /// The item of this member.
    pub open spec fn item(self) -> T {
        match self {
            Element::Delimited(t, _) => t,
            Element::End(t) => t,
        }
    }
}

/// Mapping over the item of a list member.
pub trait ElementExt<T, D>: Sized {
    /// The item that `map_item` hands to the function.
    spec fn item_model(self) -> T;

    /// Whether `r` is `self` with its item replaced by `t`.
    spec fn replaced(self, t: T, r: Self) -> bool;

    /// Applies `map` to the item and keeps the delimiter.
    fn map_item<F>(self, map: F) -> (r: Self) where F: FnOnce(T) -> T
        requires
            map.requires((self.item_model(),)),
        ensures
            map.ensures((self.item_model(),), r.item_model()),
            self.replaced(r.item_model(), r),
    ;
}

impl<T, D> ElementExt<T, D> for Element<T, D> {
    open spec fn item_model(self) -> T {
        self.item()
    }

    open spec fn replaced(self, t: T, r: Self) -> bool {
        match self {
            Element::Delimited(_, d) => r == Element::<T, D>::Delimited(t, d),
            Element::End(_) => r == Element::<T, D>::End(t),
        }
    }

    fn map_item<F>(self, map: F) -> (r: Self) where F: FnOnce(T) -> T {
        match self {
            Element::Delimited(t, d) => Element::Delimited(map(t), d),
            Element::End(t) => Element::End(map(t)),
        }
    }
}

} // verus!
