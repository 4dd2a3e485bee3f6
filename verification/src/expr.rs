//! Patterns, expressions, statements and blocks: the part of the syntax model
//! that a function body is made of.
//!
//! Only the forms that a transform inspects or emits have a variant of their
//! own.  Any other expression is an [`ExprKind::Other`]: a handle under which
//! the front end keeps the expression, and the expressions directly inside
//! it, so that a walk can still reach every nested expression.
use crate::span::Span;
use crate::ty::{Ident, Lifetime, Path, SpecIdent, SpecPath, SpecType, Type};
use vstd::prelude::*;

verus! {

/// Model of [`Pat`].
pub enum SpecPat {
    Ident { by_ref: bool, mutable: bool, ident: SpecIdent, subpat: Option<u64> },
    Path(SpecPath),
    TupleStruct { path: SpecPath, elems: Seq<SpecPat> },
    Other(u64),
}

/// A pattern.
#[derive(Debug, PartialEq, Eq)]
pub enum Pat {
    /// `ref mut ident @ subpat`; the sub-pattern is kept by the front end.
    Ident { by_ref: bool, mutable: bool, ident: Ident, subpat: Option<u64> },
    /// A path used as a pattern, such as `Async::NotReady`.
    Path(Path),
    /// `path(elems)`
    TupleStruct { path: Path, elems: Vec<Pat> },
    /// A pattern of another form, kept by the front end under a handle.
    Other(u64),
}

impl Pat {
    pub open spec fn model(self) -> SpecPat
        decreases self,
    {
        match self {
            Pat::Ident { by_ref, mutable, ident, subpat } => SpecPat::Ident {
                by_ref,
                mutable,
                ident: ident@,
                subpat,
            },
            Pat::Path(p) => SpecPat::Path(p@),
            Pat::TupleStruct { path, elems } => SpecPat::TupleStruct {
                path: path@,
                elems: Seq::new(
                    elems@.len(),
                    |i: int|
                        if 0 <= i < elems@.len() {
                            elems@[i].model()
                        } else {
                            arbitrary()
                        },
                ),
            },
            Pat::Other(h) => SpecPat::Other(h),
        }
    }
}

impl View for Pat {
    type V = SpecPat;

    open spec fn view(&self) -> SpecPat {
        self.model()
    }
}

/// Model of [`AttrArgs`].
pub enum SpecAttrArgs {
    Source(u64),
    Word(SpecIdent),
}

/// Model of [`Attribute`].
pub struct SpecAttribute {
    pub head: SpecIdent,
    pub args: SpecAttrArgs,
}

/// What follows the first name of an attribute.
#[derive(Debug, PartialEq, Eq)]
pub enum AttrArgs {
    /// The rest of an attribute of the source, kept by the front end.
    Source(u64),
    /// One word in parentheses, as in `allow(unreachable_code)`.
    Word(Ident),
}

/// An attribute; `head` is the first segment of its path.
#[derive(Debug, PartialEq, Eq)]
pub struct Attribute {
    pub head: Ident,
    pub args: AttrArgs,
}

impl View for AttrArgs {
    type V = SpecAttrArgs;

    open spec fn view(&self) -> SpecAttrArgs {
        match self {
            AttrArgs::Source(h) => SpecAttrArgs::Source(*h),
            AttrArgs::Word(w) => SpecAttrArgs::Word(w@),
        }
    }
}

impl View for Attribute {
    type V = SpecAttribute;

    open spec fn view(&self) -> SpecAttribute {
        SpecAttribute { head: self.head@, args: self.args@ }
    }
}

/// Model of a list of attributes.
pub open spec fn attrs_model(attrs: Seq<Attribute>) -> Seq<SpecAttribute> {
    Seq::new(attrs.len(), |i: int| attrs[i]@)
}

/// Model of [`Item`].
pub enum SpecItem {
    ExternCrate(SpecIdent),
    Other(u64),
}

/// An item declared inside a block.  No transform looks into one.
#[derive(Debug, PartialEq, Eq)]
pub enum Item {
    /// `extern crate name;`
    ExternCrate(Ident),
    /// Any other item, kept by the front end under a handle.
    Other(u64),
}

impl View for Item {
    type V = SpecItem;

    open spec fn view(&self) -> SpecItem {
        match self {
            Item::ExternCrate(n) => SpecItem::ExternCrate(n@),
            Item::Other(h) => SpecItem::Other(*h),
        }
    }
}

/// Model of [`Expr`].
pub struct SpecExpr {
    pub attrs: Seq<SpecAttribute>,
    pub span: Span,
    pub kind: SpecExprKind,
}

/// Model of [`ExprKind`].
#[allow(inconsistent_fields)]
pub enum SpecExprKind {
    Other { handle: u64, children: Seq<SpecExpr> },
    Path(SpecPath),
    Bool(bool),
    Call { func: Box<SpecExpr>, args: Seq<SpecExpr> },
    Reference { mutable: bool, expr: Box<SpecExpr> },
    Block(SpecBlock),
    Group(Box<SpecExpr>),
    Paren(Box<SpecExpr>),
    If { cond: Box<SpecExpr>, then_branch: SpecBlock, else_branch: Option<Box<SpecExpr>> },
    IfLet {
        pat: SpecPat,
        expr: Box<SpecExpr>,
        then_branch: SpecBlock,
        else_branch: Option<Box<SpecExpr>>,
    },
    Match { expr: Box<SpecExpr>, arms: Seq<SpecArm> },
    Loop { label: Option<SpecIdent>, body: SpecBlock },
    ForLoop { label: Option<SpecIdent>, pat: SpecPat, expr: Box<SpecExpr>, body: SpecBlock },
    Closure { by_move: bool, body: Box<SpecExpr> },
    Break { expr: Option<Box<SpecExpr>> },
    Continue,
    Return(Option<Box<SpecExpr>>),
    Yield(Option<Box<SpecExpr>>),
    Try(Box<SpecExpr>),
}

/// Model of [`Arm`].
pub struct SpecArm {
    pub pat: SpecPat,
    pub guard: Option<SpecExpr>,
    pub body: SpecExpr,
}

/// Model of [`Block`].
pub struct SpecBlock {
    pub span: Span,
    pub stmts: Seq<SpecStmt>,
}

/// Model of [`Stmt`].
pub enum SpecStmt {
    Local(SpecLocal),
    Item(SpecItem),
    Expr(SpecExpr),
    Semi(SpecExpr),
}

/// Model of [`Local`].
pub struct SpecLocal {
    pub pat: SpecPat,
    pub ty: Option<SpecType>,
    pub init: Option<SpecExpr>,
}

/// An expression with its attributes and the position of its own tokens.
#[derive(Debug, PartialEq, Eq)]
pub struct Expr {
    pub attrs: Vec<Attribute>,
    pub span: Span,
    pub kind: ExprKind,
}

/// The forms of expression.
#[allow(inconsistent_fields)]
#[derive(Debug, PartialEq, Eq)]
pub enum ExprKind {
    /// Any expression that has no variant of its own, with the expressions
    /// directly inside it, in source order.
    Other { handle: u64, children: Vec<Expr> },
    /// A path, such as a variable or a function name.
    Path(Path),
    /// `true` or `false`
    Bool(bool),
    /// `func(args)`
    Call { func: Box<Expr>, args: Vec<Expr> },
    /// `&expr` or `&mut expr`
    Reference { mutable: bool, expr: Box<Expr> },
    /// `{ … }`
    Block(Block),
    /// An expression inside invisible delimiters.
    Group(Box<Expr>),
    /// `(expr)`
    Paren(Box<Expr>),
    /// `if cond { … } else …`
    If { cond: Box<Expr>, then_branch: Block, else_branch: Option<Box<Expr>> },
    /// `if let pat = expr { … } else …`
    IfLet { pat: Pat, expr: Box<Expr>, then_branch: Block, else_branch: Option<Box<Expr>> },
    /// `match expr { arms }`
    Match { expr: Box<Expr>, arms: Vec<Arm> },
    /// `'label: loop { … }`
    Loop { label: Option<Lifetime>, body: Block },
    /// `'label: for pat in expr { … }`
    ForLoop { label: Option<Lifetime>, pat: Pat, expr: Box<Expr>, body: Block },
    /// `|| body` or `move || body`
    Closure { by_move: bool, body: Box<Expr> },
    /// `break` or `break expr`
    Break { expr: Option<Box<Expr>> },
    /// `continue`
    Continue,
    /// `return` or `return expr`
    Return(Option<Box<Expr>>),
    /// `yield` or `yield expr`
    Yield(Option<Box<Expr>>),
    /// `expr?`
    Try(Box<Expr>),
}

/// One arm of a `match`.
#[derive(Debug, PartialEq, Eq)]
pub struct Arm {
    pub pat: Pat,
    pub guard: Option<Expr>,
    pub body: Expr,
}

/// A block; `span` is the position of its braces.
#[derive(Debug, PartialEq, Eq)]
pub struct Block {
    pub span: Span,
    pub stmts: Vec<Stmt>,
}

/// A statement.
#[derive(Debug, PartialEq, Eq)]
pub enum Stmt {
    /// `let pat: ty = init;`
    Local(Local),
    /// An item declaration.
    Item(Item),
    /// An expression without a trailing semicolon.
    Expr(Expr),
    /// An expression with a trailing semicolon.
    Semi(Expr),
}

/// A `let` binding.
#[derive(Debug, PartialEq, Eq)]
pub struct Local {
    pub pat: Pat,
    pub ty: Option<Type>,
    pub init: Option<Expr>,
}

/// Model of an optional boxed expression.
pub open spec fn opt_expr_model(e: Option<Box<Expr>>) -> Option<Box<SpecExpr>>
    decreases e,
{
    match e {
        Some(b) => Some(Box::new((*b).model())),
        None => None,
    }
}

/// Model of a list of expressions: the models of its members, in order.
pub open spec fn exprs_model(exprs: Vec<Expr>) -> Seq<SpecExpr>
    decreases exprs,
{
    Seq::new(
        exprs@.len(),
        |i: int|
            if 0 <= i < exprs@.len() {
                exprs@[i].model()
            } else {
                arbitrary()
            },
    )
}

/// Model of a list of arms.
pub open spec fn arms_model(arms: Vec<Arm>) -> Seq<SpecArm>
    decreases arms,
{
    Seq::new(
        arms@.len(),
        |i: int|
            if 0 <= i < arms@.len() {
                arms@[i].model()
            } else {
                arbitrary()
            },
    )
}

/// Model of a list of statements.
pub open spec fn stmts_model(stmts: Vec<Stmt>) -> Seq<SpecStmt>
    decreases stmts,
{
    Seq::new(
        stmts@.len(),
        |i: int|
            if 0 <= i < stmts@.len() {
                stmts@[i].model()
            } else {
                arbitrary()
            },
    )
}

impl Expr {
    pub open spec fn model(self) -> SpecExpr
        decreases self,
    {
        SpecExpr { attrs: attrs_model(self.attrs@), span: self.span, kind: self.kind.model() }
    }
}

impl ExprKind {
    pub open spec fn model(self) -> SpecExprKind
        decreases self,
    {
        match self {
            ExprKind::Other { handle, children } => SpecExprKind::Other {
                handle,
                children: exprs_model(children),
            },
            ExprKind::Path(p) => SpecExprKind::Path(p@),
            ExprKind::Bool(b) => SpecExprKind::Bool(b),
            ExprKind::Call { func, args } => SpecExprKind::Call {
                func: Box::new((*func).model()),
                args: exprs_model(args),
            },
            ExprKind::Reference { mutable, expr } => SpecExprKind::Reference {
                mutable,
                expr: Box::new((*expr).model()),
            },
            ExprKind::Block(b) => SpecExprKind::Block(b.model()),
            ExprKind::Group(e) => SpecExprKind::Group(Box::new((*e).model())),
            ExprKind::Paren(e) => SpecExprKind::Paren(Box::new((*e).model())),
            ExprKind::If { cond, then_branch, else_branch } => SpecExprKind::If {
                cond: Box::new((*cond).model()),
                then_branch: then_branch.model(),
                else_branch: opt_expr_model(else_branch),
            },
            ExprKind::IfLet { pat, expr, then_branch, else_branch } => SpecExprKind::IfLet {
                pat: pat@,
                expr: Box::new((*expr).model()),
                then_branch: then_branch.model(),
                else_branch: opt_expr_model(else_branch),
            },
            ExprKind::Match { expr, arms } => SpecExprKind::Match {
                expr: Box::new((*expr).model()),
                arms: arms_model(arms),
            },
            ExprKind::Loop { label, body } => SpecExprKind::Loop {
                label: match label {
                    Some(l) => Some(l@),
                    None => None,
                },
                body: body.model(),
            },
            ExprKind::ForLoop { label, pat, expr, body } => SpecExprKind::ForLoop {
                label: match label {
                    Some(l) => Some(l@),
                    None => None,
                },
                pat: pat@,
                expr: Box::new((*expr).model()),
                body: body.model(),
            },
            ExprKind::Closure { by_move, body } => SpecExprKind::Closure {
                by_move,
                body: Box::new((*body).model()),
            },
            ExprKind::Break { expr } => SpecExprKind::Break { expr: opt_expr_model(expr) },
            ExprKind::Continue => SpecExprKind::Continue,
            ExprKind::Return(e) => SpecExprKind::Return(opt_expr_model(e)),
            ExprKind::Yield(e) => SpecExprKind::Yield(opt_expr_model(e)),
            ExprKind::Try(e) => SpecExprKind::Try(Box::new((*e).model())),
        }
    }
}

impl Arm {
    pub open spec fn model(self) -> SpecArm
        decreases self,
    {
        SpecArm {
            pat: self.pat@,
            guard: match self.guard {
                Some(g) => Some(g.model()),
                None => None,
            },
            body: self.body.model(),
        }
    }
}

impl Block {
    pub open spec fn model(self) -> SpecBlock
        decreases self,
    {
        SpecBlock { span: self.span, stmts: stmts_model(self.stmts) }
    }
}

impl Stmt {
    pub open spec fn model(self) -> SpecStmt
        decreases self,
    {
        match self {
            Stmt::Local(l) => SpecStmt::Local(l.model()),
            Stmt::Item(i) => SpecStmt::Item(i@),
            Stmt::Expr(e) => SpecStmt::Expr(e.model()),
            Stmt::Semi(e) => SpecStmt::Semi(e.model()),
        }
    }
}

impl Local {
    pub open spec fn model(self) -> SpecLocal
        decreases self,
    {
        SpecLocal {
            pat: self.pat@,
            ty: match self.ty {
                Some(t) => Some(t@),
                None => None,
            },
            init: match self.init {
                Some(e) => Some(e.model()),
                None => None,
            },
        }
    }
}

impl View for Expr {
    type V = SpecExpr;

    open spec fn view(&self) -> SpecExpr {
        self.model()
    }
}

impl View for ExprKind {
    type V = SpecExprKind;

    open spec fn view(&self) -> SpecExprKind {
        self.model()
    }
}

impl View for Arm {
    type V = SpecArm;

    open spec fn view(&self) -> SpecArm {
        self.model()
    }
}

impl View for Block {
    type V = SpecBlock;

    open spec fn view(&self) -> SpecBlock {
        self.model()
    }
}

impl View for Stmt {
    type V = SpecStmt;

    open spec fn view(&self) -> SpecStmt {
        self.model()
    }
}

impl View for Local {
    type V = SpecLocal;

    open spec fn view(&self) -> SpecLocal {
        self.model()
    }
}

} // verus!
