//! Signatures of expanded functions, and the helpers that stamp what is
//! synthesized.

use futures_async_macro::async_macro::{Expander, Future, Stream};
use futures_async_macro::expr::{
    Arm, AttrArgs, Block, Expr, ExprKind, Item, Local, Pat, Stmt,
};
use futures_async_macro::sig::{
    FnArg, FnDecl, GenericParam, Generics, ItemFn, LifetimeDef, ReturnType, TypeParam,
};
use futures_async_macro::span::{call_site, Span};
use futures_async_macro::ty::{
    GenericArgument, Ident, Lifetime, Path, PathArguments, PathSegment, TraitBound, Type,
    TypeKind, TypeParamBound,
};
use futures_async_macro::util::{
    extern_crate_rt, prepend_extern_crate_rt, quoter, quoter_from_tokens, quoter_from_tokens_or,
    Element, ElementExt, Quoter, Spanned,
};

// ---- printing ----

fn p_path(p: &Path) -> String {
    let mut s = String::new();
    if p.leading_colon {
        s.push_str("::");
    }
    let segs: Vec<String> = p
        .segments
        .iter()
        .map(|seg| {
            let args = match &seg.arguments {
                PathArguments::Empty => String::new(),
                PathArguments::AngleBracketed(args) => {
                    let inner: Vec<String> = args.iter().map(p_generic_arg).collect();
                    format!("<{}>", inner.join(", "))
                }
                PathArguments::Other(h) => format!("#generic{}", h),
            };
            format!("{}{}", seg.ident.name, args)
        })
        .collect();
    s.push_str(&segs.join("::"));
    s
}

fn p_generic_arg(a: &GenericArgument) -> String {
    match a {
        GenericArgument::Lifetime(l) => format!("'{}", l.name),
        GenericArgument::Type(t) => p_type(t),
        GenericArgument::Binding(n, t) => format!("{} = {}", n.name, p_type(t)),
        GenericArgument::Other(h) => format!("#generic{}", h),
    }
}

fn p_bounds(bounds: &[TypeParamBound]) -> String {
    let parts: Vec<String> = bounds
        .iter()
        .map(|b| match b {
            TypeParamBound::Lifetime(l) => format!("'{}", l.name),
            TypeParamBound::Trait(t) => match t.prefix {
                Some(h) => format!("#prefix{} {}", h, p_path(&t.path)),
                None => p_path(&t.path),
            },
        })
        .collect();
    parts.join(" + ")
}

fn p_type(t: &Type) -> String {
    match &t.kind {
        TypeKind::Path(p) => p_path(p),
        TypeKind::Projection { base, trait_path, name } => {
            format!("<{} as {}>::{}", p_type(base), p_path(trait_path), name.name)
        }
        TypeKind::Reference { lifetime, mutable, elem } => {
            let lt = match lifetime {
                Some(l) => format!("'{} ", l.name),
                None => String::new(),
            };
            format!("&{}{}{}", lt, if *mutable { "mut " } else { "" }, p_type(elem))
        }
        TypeKind::ImplTrait(b) => format!("impl {}", p_bounds(b)),
        TypeKind::Bounds(b) => p_bounds(b),
        TypeKind::Infer => "_".to_string(),
        TypeKind::Other(h) => format!("#ty{}", h),
    }
}

fn p_pat(p: &Pat) -> String {
    match p {
        Pat::Ident { by_ref, mutable, ident, subpat } => format!(
            "{}{}{}{}",
            if *by_ref { "ref " } else { "" },
            if *mutable { "mut " } else { "" },
            ident.name,
            match subpat {
                Some(h) => format!(" @ #pat{}", h),
                None => String::new(),
            }
        ),
        Pat::Path(path) => p_path(path),
        Pat::TupleStruct { path, elems } => {
            let inner: Vec<String> = elems.iter().map(p_pat).collect();
            format!("{}({})", p_path(path), inner.join(", "))
        }
        Pat::Other(h) => format!("#pat{}", h),
    }
}

fn p_block(b: &Block) -> String {
    if b.stmts.is_empty() {
        return "{ }".to_string();
    }
    let inner: Vec<String> = b.stmts.iter().map(p_stmt).collect();
    format!("{{ {} }}", inner.join(" "))
}

fn p_stmt(s: &Stmt) -> String {
    match s {
        Stmt::Local(Local { pat, ty, init }) => format!(
            "let {}{}{};",
            p_pat(pat),
            match ty {
                Some(t) => format!(": {}", p_type(t)),
                None => String::new(),
            },
            match init {
                Some(e) => format!(" = {}", p_expr(e)),
                None => String::new(),
            }
        ),
        Stmt::Item(Item::ExternCrate(n)) => format!("extern crate {};", n.name),
        Stmt::Item(Item::Other(h)) => format!("#item{}", h),
        Stmt::Expr(e) => p_expr(e),
        Stmt::Semi(e) => format!("{};", p_expr(e)),
    }
}

fn p_opt(prefix: &str, e: &Option<Box<Expr>>) -> String {
    match e {
        Some(e) => format!("{} {}", prefix, p_expr(e)),
        None => prefix.to_string(),
    }
}

fn p_label(l: &Option<Lifetime>) -> String {
    match l {
        Some(l) => format!("'{}: ", l.name),
        None => String::new(),
    }
}

fn p_else(e: &Option<Box<Expr>>) -> String {
    match e {
        Some(e) => format!(" else {}", p_expr(e)),
        None => String::new(),
    }
}

fn p_expr(e: &Expr) -> String {
    let mut s = String::new();
    for a in &e.attrs {
        match &a.args {
            AttrArgs::Source(h) => s.push_str(&format!("#[{} #attr{}] ", a.head.name, h)),
            AttrArgs::Word(w) => s.push_str(&format!("#[{}({})] ", a.head.name, w.name)),
        }
    }
    let body = match &e.kind {
        ExprKind::Other { handle, children } => {
            let inner: Vec<String> = children.iter().map(p_expr).collect();
            format!("#{}({})", handle, inner.join(", "))
        }
        ExprKind::Path(p) => p_path(p),
        ExprKind::Bool(b) => format!("{}", b),
        ExprKind::Call { func, args } => {
            let inner: Vec<String> = args.iter().map(p_expr).collect();
            format!("{}({})", p_expr(func), inner.join(", "))
        }
        ExprKind::Reference { mutable, expr } => {
            format!("&{}{}", if *mutable { "mut " } else { "" }, p_expr(expr))
        }
        ExprKind::Block(b) => p_block(b),
        ExprKind::Group(e) => format!("<<{}>>", p_expr(e)),
        ExprKind::Paren(e) => format!("({})", p_expr(e)),
        ExprKind::If { cond, then_branch, else_branch } => {
            format!("if {} {}{}", p_expr(cond), p_block(then_branch), p_else(else_branch))
        }
        ExprKind::IfLet { pat, expr, then_branch, else_branch } => format!(
            "if let {} = {} {}{}",
            p_pat(pat),
            p_expr(expr),
            p_block(then_branch),
            p_else(else_branch)
        ),
        ExprKind::Match { expr, arms } => {
            let inner: Vec<String> = arms
                .iter()
                .map(|Arm { pat, guard, body }| {
                    let g = match guard {
                        Some(g) => format!(" if {}", p_expr(g)),
                        None => String::new(),
                    };
                    format!("{}{} => {},", p_pat(pat), g, p_expr(body))
                })
                .collect();
            format!("match {} {{ {} }}", p_expr(expr), inner.join(" "))
        }
        ExprKind::Loop { label, body } => format!("{}loop {}", p_label(label), p_block(body)),
        ExprKind::ForLoop { label, pat, expr, body } => {
            format!("{}for {} in {} {}", p_label(label), p_pat(pat), p_expr(expr), p_block(body))
        }
        ExprKind::Closure { by_move, body } => {
            format!("{}|| {}", if *by_move { "move " } else { "" }, p_expr(body))
        }
        ExprKind::Break { expr } => p_opt("break", expr),
        ExprKind::Continue => "continue".to_string(),
        ExprKind::Return(e) => p_opt("return", e),
        ExprKind::Yield(e) => p_opt("yield", e),
        ExprKind::Try(e) => format!("{}?", p_expr(e)),
    };
    s.push_str(&body);
    s
}

fn p_fn(f: &ItemFn) -> String {
    let generics = if f.decl.generics.params.is_empty() {
        String::new()
    } else {
        let inner: Vec<String> = f
            .decl
            .generics
            .params
            .iter()
            .map(|p| match p {
                GenericParam::Lifetime(d) => {
                    if d.bounds.is_empty() {
                        format!("'{}", d.lifetime.name)
                    } else {
                        let b: Vec<String> =
                            d.bounds.iter().map(|l| format!("'{}", l.name)).collect();
                        format!("'{}: {}", d.lifetime.name, b.join(" + "))
                    }
                }
                GenericParam::Type(t) => {
                    if t.bounds.is_empty() {
                        t.ident.name.clone()
                    } else {
                        format!("{}: {}", t.ident.name, p_bounds(&t.bounds))
                    }
                }
                GenericParam::Const(h) => format!("#const{}", h),
            })
            .collect();
        format!("<{}>", inner.join(", "))
    };
    let args: Vec<String> = f
        .decl
        .inputs
        .iter()
        .map(|a| match a {
            FnArg::Receiver(h) => format!("#self{}", h),
            FnArg::Captured { pat, ty } => format!("{}: {}", p_pat(pat), p_type(ty)),
            FnArg::Other(h) => format!("#arg{}", h),
        })
        .collect();
    let ret = match &f.decl.output {
        ReturnType::Omitted => String::new(),
        ReturnType::Type(t) => format!(" -> {}", p_type(t)),
    };
    format!("fn {}{}({}){} {}", f.ident.name, generics, args.join(", "), ret, p_block(&f.block))
}

// ---- building source ----

const RET: Span = Span::Source(1);
const BRACE: Span = Span::Source(2);
const USER: Span = Span::Source(3);
const FLAG: Span = Span::Source(9);

fn id(name: &str) -> Ident {
    Ident { name: name.to_string(), span: USER }
}

fn lt(name: &str) -> Lifetime {
    Lifetime { name: name.to_string(), span: USER }
}

fn path_of(name: &str, args: Vec<GenericArgument>) -> Path {
    let arguments =
        if args.is_empty() { PathArguments::Empty } else { PathArguments::AngleBracketed(args) };
    Path { leading_colon: false, segments: vec![PathSegment { ident: id(name), arguments }] }
}

fn named(name: &str) -> Type {
    Type { span: USER, kind: TypeKind::Path(path_of(name, vec![])) }
}

fn reference(lifetime: Option<Lifetime>, elem: Type) -> Type {
    Type { span: USER, kind: TypeKind::Reference { lifetime, mutable: false, elem: Box::new(elem) } }
}

fn result_of(ok: Type, err: Type) -> Type {
    Type {
        span: RET,
        kind: TypeKind::Path(path_of(
            "Result",
            vec![GenericArgument::Type(ok), GenericArgument::Type(err)],
        )),
    }
}

fn var(name: &str) -> Expr {
    Expr { attrs: vec![], span: USER, kind: ExprKind::Path(path_of(name, vec![])) }
}

fn arg(name: &str, ty: Type) -> FnArg {
    FnArg::Captured {
        pat: Pat::Ident { by_ref: false, mutable: false, ident: id(name), subpat: None },
        ty,
    }
}

fn function(name: &str, params: Vec<GenericParam>, inputs: Vec<FnArg>, output: Type, stmts: Vec<Stmt>) -> ItemFn {
    ItemFn {
        qualifiers: 0,
        ident: id(name),
        decl: FnDecl {
            generics: Generics { params, where_clause: None },
            inputs,
            output: ReturnType::Type(output),
            variadic: false,
        },
        block: Block { span: BRACE, stmts },
    }
}

fn signature(f: &ItemFn) -> String {
    let printed = p_fn(f);
    printed[..printed.find(" { extern crate").unwrap()].to_string()
}

fn expand(f: ItemFn) -> ItemFn {
    Expander { boxed: None, send: false, item: None, mode: Future }.expand(f).unwrap()
}

const FUTURE: &str = "impl ::futures::__rt::MyFuture";

// ---- signatures ----

#[test]
fn elisions_main() {
    // fn references(x: &i32) -> Result<i32, i32>
    let f = function(
        "references",
        vec![],
        vec![arg("x", reference(None, named("i32")))],
        result_of(named("i32"), named("i32")),
        vec![Stmt::Expr(var("x"))],
    );
    assert_eq!(
        signature(&expand(f)),
        format!(
            "fn references<'__returned_future>(x: &'__returned_future i32) \
-> {}<Result<i32, i32>> + '__returned_future",
            FUTURE
        )
    );
    // fn new_types(x: Ref<'_, i32>) -> Result<i32, i32>: only references are bound.
    let new_type = Type {
        span: USER,
        kind: TypeKind::Path(path_of(
            "Ref",
            vec![GenericArgument::Lifetime(lt("_")), GenericArgument::Type(named("i32"))],
        )),
    };
    let f = function(
        "new_types",
        vec![],
        vec![arg("x", new_type)],
        result_of(named("i32"), named("i32")),
        vec![],
    );
    assert_eq!(
        signature(&expand(f)),
        format!(
            "fn new_types<'__returned_future>(x: Ref<'_, i32>) \
-> {}<Result<i32, i32>> + '__returned_future",
            FUTURE
        )
    );
    // fn foo(&self) -> Result<&i32, i32>: the receiver is left alone.
    let f = function(
        "foo",
        vec![],
        vec![FnArg::Receiver(4)],
        result_of(reference(None, named("i32")), named("i32")),
        vec![],
    );
    assert_eq!(
        signature(&expand(f)),
        format!("fn foo<'__returned_future>(#self4) -> {}<Result<&i32, i32>> + '__returned_future", FUTURE)
    );
    // fn check_for_name_colision<'_async0, T>(_x: &T, _y: &'_async0 i32) -> Result<(), ()>
    let f = function(
        "check_for_name_colision",
        vec![
            GenericParam::Lifetime(LifetimeDef { lifetime: lt("_async0"), bounds: vec![], attrs: None }),
            GenericParam::Type(TypeParam { ident: id("T"), bounds: vec![], rest: None }),
        ],
        vec![
            arg("_x", reference(None, named("T"))),
            arg("_y", reference(Some(lt("_async0")), named("i32"))),
        ],
        result_of(Type { span: USER, kind: TypeKind::Other(1) }, Type { span: USER, kind: TypeKind::Other(2) }),
        vec![],
    );
    assert_eq!(
        signature(&expand(f)),
        format!(
            "fn check_for_name_colision<'__returned_future, '_async0: '__returned_future, T: '__returned_future>\
(_x: &'__returned_future T, _y: &'_async0 i32) -> {}<Result<#ty1, #ty2>> + '__returned_future",
            FUTURE
        )
    );
}

/// `fn name<T: AsRef>(s: input) -> Result<u64, ParseIntError> { #1(s) }`
fn parse_int(name: &str, params: Vec<GenericParam>, input: Type) -> ItemFn {
    function(
        name,
        params,
        vec![arg("s", input)],
        result_of(named("u64"), named("ParseIntError")),
        vec![Stmt::Expr(Expr {
            attrs: vec![],
            span: USER,
            kind: ExprKind::Other { handle: 1, children: vec![var("s")] },
        })],
    )
}

#[test]
fn boxed() {
    // #[async(boxed)] fn boxed_parse_int(s: &str) -> Result<u64, ParseIntError>
    let f = parse_int("boxed_parse_int", vec![], reference(None, named("str")));
    let g = Expander { boxed: Some(FLAG), send: false, item: None, mode: Future }.expand(f).unwrap();
    assert_eq!(
        signature(&g),
        "fn boxed_parse_int<'__returned_future>(s: &'__returned_future str) -> \
::futures::__rt::Box<::futures::Future<\
Item = <Result<u64, ParseIntError> as ::futures::__rt::IsResult>::Ok, \
Error = <Result<u64, ParseIntError> as ::futures::__rt::IsResult>::Err> + '__returned_future>"
    );
    assert!(p_fn(&g).contains("futures_await::__rt::std::boxed::Box::new({ futures_await::__rt::async_future("));
}

#[test]
fn generic() {
    // fn generic_parse_int<T: AsRef<str>>(t: T) -> Result<u64, ParseIntError>
    let as_ref = TypeParamBound::Trait(TraitBound {
        span: USER,
        prefix: None,
        path: path_of("AsRef", vec![GenericArgument::Type(named("str"))]),
    });
    let f = parse_int(
        "generic_parse_int",
        vec![GenericParam::Type(TypeParam { ident: id("T"), bounds: vec![as_ref], rest: None })],
        named("T"),
    );
    assert_eq!(
        signature(&expand(f)),
        format!(
            "fn generic_parse_int<'__returned_future, T: AsRef<str> + '__returned_future>(s: T) \
-> {}<Result<u64, ParseIntError>> + '__returned_future",
            FUTURE
        )
    );
}

#[test]
fn type_parameter_with_a_lifetime_keeps_its_bounds() {
    // fn _foo5<T: Clone + 'static>(t: T) -> Result<T, i32>
    let bounds = vec![
        TypeParamBound::Trait(TraitBound { span: USER, prefix: None, path: path_of("Clone", vec![]) }),
        TypeParamBound::Lifetime(lt("static")),
    ];
    let f = function(
        "_foo5",
        vec![GenericParam::Type(TypeParam { ident: id("T"), bounds, rest: Some(3) })],
        vec![arg("t", named("T"))],
        result_of(named("T"), named("i32")),
        vec![],
    );
    let g = expand(f);
    assert_eq!(
        signature(&g),
        format!(
            "fn _foo5<'__returned_future, T: Clone + 'static>(t: T) -> {}<Result<T, i32>> + '__returned_future",
            FUTURE
        )
    );
    match &g.decl.generics.params[1] {
        GenericParam::Type(p) => assert_eq!(p.rest, Some(3)),
        other => panic!("expected a type parameter, found {:?}", other),
    }
}

#[test]
fn _nested_test_attr() {
    // A function declared in the body is an item: it is handed on as it is,
    // to be expanded when its own attribute is.
    let f = function(
        "outer",
        vec![],
        vec![],
        result_of(named("i32"), named("i32")),
        vec![Stmt::Item(Item::Other(11)), Stmt::Item(Item::Other(12)), Stmt::Expr(var("x"))],
    );
    let g = expand(f);
    assert!(p_fn(&g).ends_with("{ #item11 #item12 x } }) }"));
    let g = Expander { boxed: Some(FLAG), send: false, item: None, mode: Future }
        .expand(function(
            "outer",
            vec![],
            vec![],
            result_of(named("i32"), named("i32")),
            vec![Stmt::Item(Item::Other(11))],
        ))
        .unwrap();
    assert!(p_fn(&g).ends_with("{ #item11 } }) }) }"));
}

#[test]
fn qualifiers_name_and_where_clause_pass_through() {
    let mut f = function("f", vec![], vec![], result_of(named("A"), named("B")), vec![]);
    f.qualifiers = 77;
    f.decl.generics.where_clause = Some(5);
    let g = expand(f);
    assert_eq!(g.qualifiers, 77);
    assert_eq!(g.ident, id("f"));
    assert_eq!(g.decl.generics.where_clause, Some(5));
    assert!(!g.decl.variadic);
    let stream_ty = Type {
        span: RET,
        kind: TypeKind::ImplTrait(vec![TypeParamBound::Trait(TraitBound {
            span: USER,
            prefix: Some(8),
            path: path_of("Stream", vec![]),
        })]),
    };
    let g = Expander { boxed: Some(FLAG), send: false, item: None, mode: Stream }
        .expand(function("s", vec![], vec![], stream_ty, vec![]))
        .unwrap();
    assert_eq!(
        signature(&g),
        "fn s<'__returned_stream>() -> ::futures::__rt::Box<#prefix8 Stream + '__returned_stream>"
    );
}

// ---- stamps ----

#[test]
fn quoter_keeps_crate_names_at_the_call_site() {
    let q = quoter(USER);
    assert_eq!(q, Quoter { span: USER, pin_crates: true });
    assert_eq!(q.ident("futures_await").span, Span::CallSite);
    assert_eq!(q.ident("futures").span, Span::CallSite);
    assert_eq!(q.ident("futures_awaits").span, USER);
    assert_eq!(q.ident("__rt").span, USER);
    assert_eq!(q.ident("Future").span, USER);
    assert_eq!(q.ident("futures_await").name, "futures_await");
    // A plain stamp gives every token its position.
    let p = Quoter::new(USER);
    assert_eq!(p, Quoter { span: USER, pin_crates: false });
    assert_eq!(p.ident("futures_await").span, USER);
    assert_eq!(p.ident("futures").span, USER);
    assert_eq!(Quoter::new_call_site(), Quoter { span: Span::CallSite, pin_crates: false });
    assert_eq!(call_site(), Span::CallSite);
}

#[test]
fn quoter_builds_paths_segment_by_segment() {
    let q = quoter(USER);
    let path = q.join(q.join(q.root(false, "futures_await"), "__rt"), "abort");
    assert_eq!(p_path(&path), "futures_await::__rt::abort");
    let spans: Vec<Span> = path.segments.iter().map(|s| s.ident.span).collect();
    assert_eq!(spans, vec![Span::CallSite, USER, USER]);
    assert_eq!(p_path(&q.root(true, "futures")), "::futures");
}

#[test]
fn quoter_takes_the_position_of_its_source() {
    let ty = Type { span: RET, kind: TypeKind::Infer };
    assert_eq!(ty.span(), RET);
    assert_eq!(quoter_from_tokens(&ty), Quoter { span: RET, pin_crates: true });
    assert_eq!(quoter_from_tokens(&var("x")), Quoter { span: USER, pin_crates: true });
    assert_eq!(
        quoter_from_tokens(&Block { span: BRACE, stmts: vec![] }),
        Quoter { span: BRACE, pin_crates: true }
    );
    let bound = TraitBound { span: FLAG, prefix: None, path: path_of("Stream", vec![]) };
    assert_eq!(quoter_from_tokens(&bound), Quoter { span: FLAG, pin_crates: true });
    assert_eq!(quoter_from_tokens_or(&Some(ty), BRACE), Quoter { span: RET, pin_crates: true });
    assert_eq!(
        quoter_from_tokens_or(&None::<Type>, BRACE),
        Quoter { span: BRACE, pin_crates: true }
    );
}

#[test]
fn runtime_crate_is_imported_first() {
    let b = Block { span: BRACE, stmts: vec![Stmt::Semi(var("a")), Stmt::Expr(var("b"))] };
    let b = prepend_extern_crate_rt(b);
    assert_eq!(p_block(&b), "{ extern crate futures_await; a; b }");
    assert_eq!(b.span, BRACE);
    assert_eq!(
        extern_crate_rt(),
        Stmt::Item(Item::ExternCrate(Ident {
            name: "futures_await".to_string(),
            span: Span::CallSite
        }))
    );
    let empty = prepend_extern_crate_rt(Block { span: BRACE, stmts: vec![] });
    assert_eq!(p_block(&empty), "{ extern crate futures_await; }");
}

#[test]
fn map_item_keeps_the_delimiter() {
    let e: Element<u32, char> = Element::Delimited(3, ',');
    assert_eq!(e.map_item(|x| x + 1), Element::Delimited(4, ','));
    let e: Element<u32, char> = Element::End(3);
    assert_eq!(e.map_item(|x| x * 2), Element::End(6));
}

#[test]
fn identifiers_compare_by_text() {
    assert!(id("self").is("self"));
    assert!(!id("selfish").is("self"));
    assert!(!id("").is("self"));
    assert_eq!(Ident::new("a", USER), id("a"));
    assert_eq!(Lifetime::new("a", USER), lt("a"));
}

#[test]
fn copies_of_types_are_equal() {
    let ty = result_of(
        reference(Some(lt("a")), named("T")),
        Type {
            span: USER,
            kind: TypeKind::ImplTrait(vec![
                TypeParamBound::Lifetime(lt("b")),
                TypeParamBound::Trait(TraitBound {
                    span: USER,
                    prefix: Some(1),
                    path: path_of(
                        "Tr",
                        vec![
                            GenericArgument::Binding(id("X"), named("Y")),
                            GenericArgument::Other(4),
                            GenericArgument::Lifetime(lt("c")),
                        ],
                    ),
                }),
            ]),
        },
    );
    assert_eq!(ty.clone(), ty);
    let projection = Type {
        span: USER,
        kind: TypeKind::Projection {
            base: Box::new(ty.clone()),
            trait_path: path_of("Tr", vec![]),
            name: id("Out"),
        },
    };
    assert_eq!(projection.clone(), projection);
}

#[test]
fn run_boxed_future_in_cpu_pool() {
    // #[async(boxed_send)] fn _foo9() -> Result<(), ()>: what a pool takes is
    // a box that is `Send`.
    let unit = || Type { span: USER, kind: TypeKind::Other(1) };
    let f = function("_foo9", vec![], vec![], result_of(unit(), unit()), vec![]);
    let g = Expander { boxed: Some(FLAG), send: true, item: None, mode: Future }.expand(f).unwrap();
    assert_eq!(
        signature(&g),
        "fn _foo9<'__returned_future>() -> ::futures::__rt::Box<::futures::Future<\
Item = <Result<#ty1, #ty1> as ::futures::__rt::IsResult>::Ok, \
Error = <Result<#ty1, #ty1> as ::futures::__rt::IsResult>::Err> + '__returned_future + Send>"
    );
    match &g.decl.output {
        ReturnType::Type(Type { kind: TypeKind::Path(p), .. }) => match &p.segments[2].arguments {
            PathArguments::AngleBracketed(args) => match &args[0] {
                GenericArgument::Type(Type { kind: TypeKind::Bounds(b), .. }) => match &b[2] {
                    TypeParamBound::Trait(send) => {
                        assert_eq!(send.span, FLAG);
                        assert_eq!(send.path.segments[0].ident.span, FLAG);
                    }
                    other => panic!("expected a trait, found {:?}", other),
                },
                other => panic!("expected bounds, found {:?}", other),
            },
            other => panic!("expected arguments, found {:?}", other),
        },
        other => panic!("expected a path, found {:?}", other),
    }
}
