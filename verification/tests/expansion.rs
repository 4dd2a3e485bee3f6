//! Expansions of whole functions, printed and compared with the source that
//! they stand for.

use futures_async_macro::async_macro::{
    attr_config, expand_async_block, expand_async_fn, AttrArg, AttrConfig, ExpandError, Expander,
    Future, Mode, ModeKind, ParsedItem, Stream,
};
use futures_async_macro::capture::{capture_inputs, placeholder, rebindings, Capture};
use futures_async_macro::expr::{
    Arm, AttrArgs, Attribute, Block, Expr, ExprKind, Item, Local, Pat, Stmt,
};
use futures_async_macro::sig::{
    FnArg, FnDecl, GenericParam, Generics, ItemFn, LifetimeDef, ReturnType, TypeParam,
};
use futures_async_macro::span::Span;
use futures_async_macro::ty::{
    GenericArgument, Ident, Lifetime, Path, PathArguments, PathSegment, TraitBound, Type,
    TypeKind, TypeParamBound,
};
use futures_async_macro::type_ann::{
    make_expr_with_type, make_return_expr, make_type_annotations, make_yield_expr,
    wrap_in_unreacable_block, TypeAnn,
};

// ---- printing ----

fn p_path(p: &Path) -> String {
    let mut s = String::new();
    if p.leading_colon {
        s.push_str("::");
    }
    let segs: Vec<String> = p
        .segments
        .iter()
        .map(|seg| {
            let args = match &seg.arguments {
                PathArguments::Empty => String::new(),
                PathArguments::AngleBracketed(args) => {
                    let inner: Vec<String> = args.iter().map(p_generic_arg).collect();
                    format!("<{}>", inner.join(", "))
                }
                PathArguments::Other(h) => format!("#generic{}", h),
            };
            format!("{}{}", seg.ident.name, args)
        })
        .collect();
    s.push_str(&segs.join("::"));
    s
}

fn p_generic_arg(a: &GenericArgument) -> String {
    match a {
        GenericArgument::Lifetime(l) => format!("'{}", l.name),
        GenericArgument::Type(t) => p_type(t),
        GenericArgument::Binding(n, t) => format!("{} = {}", n.name, p_type(t)),
        GenericArgument::Other(h) => format!("#generic{}", h),
    }
}

fn p_bounds(bounds: &[TypeParamBound]) -> String {
    let parts: Vec<String> = bounds
        .iter()
        .map(|b| match b {
            TypeParamBound::Lifetime(l) => format!("'{}", l.name),
            TypeParamBound::Trait(t) => match t.prefix {
                Some(h) => format!("#prefix{} {}", h, p_path(&t.path)),
                None => p_path(&t.path),
            },
        })
        .collect();
    parts.join(" + ")
}

fn p_type(t: &Type) -> String {
    match &t.kind {
        TypeKind::Path(p) => p_path(p),
        TypeKind::Projection { base, trait_path, name } => {
            format!("<{} as {}>::{}", p_type(base), p_path(trait_path), name.name)
        }
        TypeKind::Reference { lifetime, mutable, elem } => {
            let lt = match lifetime {
                Some(l) => format!("'{} ", l.name),
                None => String::new(),
            };
            format!("&{}{}{}", lt, if *mutable { "mut " } else { "" }, p_type(elem))
        }
        TypeKind::ImplTrait(b) => format!("impl {}", p_bounds(b)),
        TypeKind::Bounds(b) => p_bounds(b),
        TypeKind::Infer => "_".to_string(),
        TypeKind::Other(h) => format!("#ty{}", h),
    }
}

fn p_pat(p: &Pat) -> String {
    match p {
        Pat::Ident { by_ref, mutable, ident, subpat } => format!(
            "{}{}{}{}",
            if *by_ref { "ref " } else { "" },
            if *mutable { "mut " } else { "" },
            ident.name,
            match subpat {
                Some(h) => format!(" @ #pat{}", h),
                None => String::new(),
            }
        ),
        Pat::Path(path) => p_path(path),
        Pat::TupleStruct { path, elems } => {
            let inner: Vec<String> = elems.iter().map(p_pat).collect();
            format!("{}({})", p_path(path), inner.join(", "))
        }
        Pat::Other(h) => format!("#pat{}", h),
    }
}

fn p_block(b: &Block) -> String {
    if b.stmts.is_empty() {
        return "{ }".to_string();
    }
    let inner: Vec<String> = b.stmts.iter().map(p_stmt).collect();
    format!("{{ {} }}", inner.join(" "))
}

fn p_stmt(s: &Stmt) -> String {
    match s {
        Stmt::Local(Local { pat, ty, init }) => format!(
            "let {}{}{};",
            p_pat(pat),
            match ty {
                Some(t) => format!(": {}", p_type(t)),
                None => String::new(),
            },
            match init {
                Some(e) => format!(" = {}", p_expr(e)),
                None => String::new(),
            }
        ),
        Stmt::Item(Item::ExternCrate(n)) => format!("extern crate {};", n.name),
        Stmt::Item(Item::Other(h)) => format!("#item{}", h),
        Stmt::Expr(e) => p_expr(e),
        Stmt::Semi(e) => format!("{};", p_expr(e)),
    }
}

fn p_opt(prefix: &str, e: &Option<Box<Expr>>) -> String {
    match e {
        Some(e) => format!("{} {}", prefix, p_expr(e)),
        None => prefix.to_string(),
    }
}

fn p_label(l: &Option<Lifetime>) -> String {
    match l {
        Some(l) => format!("'{}: ", l.name),
        None => String::new(),
    }
}

fn p_else(e: &Option<Box<Expr>>) -> String {
    match e {
        Some(e) => format!(" else {}", p_expr(e)),
        None => String::new(),
    }
}

fn p_expr(e: &Expr) -> String {
    let mut s = String::new();
    for a in &e.attrs {
        match &a.args {
            AttrArgs::Source(h) => s.push_str(&format!("#[{} #attr{}] ", a.head.name, h)),
            AttrArgs::Word(w) => s.push_str(&format!("#[{}({})] ", a.head.name, w.name)),
        }
    }
    let body = match &e.kind {
        ExprKind::Other { handle, children } => {
            let inner: Vec<String> = children.iter().map(p_expr).collect();
            format!("#{}({})", handle, inner.join(", "))
        }
        ExprKind::Path(p) => p_path(p),
        ExprKind::Bool(b) => format!("{}", b),
        ExprKind::Call { func, args } => {
            let inner: Vec<String> = args.iter().map(p_expr).collect();
            format!("{}({})", p_expr(func), inner.join(", "))
        }
        ExprKind::Reference { mutable, expr } => {
            format!("&{}{}", if *mutable { "mut " } else { "" }, p_expr(expr))
        }
        ExprKind::Block(b) => p_block(b),
        ExprKind::Group(e) => format!("<<{}>>", p_expr(e)),
        ExprKind::Paren(e) => format!("({})", p_expr(e)),
        ExprKind::If { cond, then_branch, else_branch } => {
            format!("if {} {}{}", p_expr(cond), p_block(then_branch), p_else(else_branch))
        }
        ExprKind::IfLet { pat, expr, then_branch, else_branch } => format!(
            "if let {} = {} {}{}",
            p_pat(pat),
            p_expr(expr),
            p_block(then_branch),
            p_else(else_branch)
        ),
        ExprKind::Match { expr, arms } => {
            let inner: Vec<String> = arms
                .iter()
                .map(|Arm { pat, guard, body }| {
                    let g = match guard {
                        Some(g) => format!(" if {}", p_expr(g)),
                        None => String::new(),
                    };
                    format!("{}{} => {},", p_pat(pat), g, p_expr(body))
                })
                .collect();
            format!("match {} {{ {} }}", p_expr(expr), inner.join(" "))
        }
        ExprKind::Loop { label, body } => format!("{}loop {}", p_label(label), p_block(body)),
        ExprKind::ForLoop { label, pat, expr, body } => {
            format!("{}for {} in {} {}", p_label(label), p_pat(pat), p_expr(expr), p_block(body))
        }
        ExprKind::Closure { by_move, body } => {
            format!("{}|| {}", if *by_move { "move " } else { "" }, p_expr(body))
        }
        ExprKind::Break { expr } => p_opt("break", expr),
        ExprKind::Continue => "continue".to_string(),
        ExprKind::Return(e) => p_opt("return", e),
        ExprKind::Yield(e) => p_opt("yield", e),
        ExprKind::Try(e) => format!("{}?", p_expr(e)),
    };
    s.push_str(&body);
    s
}

fn p_fn(f: &ItemFn) -> String {
    let generics = if f.decl.generics.params.is_empty() {
        String::new()
    } else {
        let inner: Vec<String> = f
            .decl
            .generics
            .params
            .iter()
            .map(|p| match p {
                GenericParam::Lifetime(d) => {
                    if d.bounds.is_empty() {
                        format!("'{}", d.lifetime.name)
                    } else {
                        let b: Vec<String> =
                            d.bounds.iter().map(|l| format!("'{}", l.name)).collect();
                        format!("'{}: {}", d.lifetime.name, b.join(" + "))
                    }
                }
                GenericParam::Type(t) => {
                    if t.bounds.is_empty() {
                        t.ident.name.clone()
                    } else {
                        format!("{}: {}", t.ident.name, p_bounds(&t.bounds))
                    }
                }
                GenericParam::Const(h) => format!("#const{}", h),
            })
            .collect();
        format!("<{}>", inner.join(", "))
    };
    let args: Vec<String> = f
        .decl
        .inputs
        .iter()
        .map(|a| match a {
            FnArg::Receiver(h) => format!("#self{}", h),
            FnArg::Captured { pat, ty } => format!("{}: {}", p_pat(pat), p_type(ty)),
            FnArg::Other(h) => format!("#arg{}", h),
        })
        .collect();
    let ret = match &f.decl.output {
        ReturnType::Omitted => String::new(),
        ReturnType::Type(t) => format!(" -> {}", p_type(t)),
    };
    format!("fn {}{}({}){} {}", f.ident.name, generics, args.join(", "), ret, p_block(&f.block))
}

// ---- building source ----

const RET: Span = Span::Source(1);
const BRACE: Span = Span::Source(2);
const USER: Span = Span::Source(3);
const FLAG: Span = Span::Source(9);

fn id(name: &str) -> Ident {
    Ident { name: name.to_string(), span: USER }
}

fn simple_path(name: &str) -> Path {
    Path {
        leading_colon: false,
        segments: vec![PathSegment { ident: id(name), arguments: PathArguments::Empty }],
    }
}

fn named(name: &str) -> Type {
    Type { span: USER, kind: TypeKind::Path(simple_path(name)) }
}

/// `Result<ok, err>`, at the position `RET`.
fn result_of(ok: &str, err: &str) -> Type {
    Type {
        span: RET,
        kind: TypeKind::Path(Path {
            leading_colon: false,
            segments: vec![PathSegment {
                ident: id("Result"),
                arguments: PathArguments::AngleBracketed(vec![
                    GenericArgument::Type(named(ok)),
                    GenericArgument::Type(named(err)),
                ]),
            }],
        }),
    }
}

/// `impl Stream<Item = item, Error = err>`, at the position `RET`.
fn stream_of(item: &str, err: &str) -> Type {
    Type {
        span: RET,
        kind: TypeKind::ImplTrait(vec![TypeParamBound::Trait(TraitBound {
            span: Span::Source(4),
            prefix: None,
            path: Path {
                leading_colon: false,
                segments: vec![PathSegment {
                    ident: id("Stream"),
                    arguments: PathArguments::AngleBracketed(vec![
                        GenericArgument::Binding(id("Item"), named(item)),
                        GenericArgument::Binding(id("Error"), named(err)),
                    ]),
                }],
            },
        })]),
    }
}

fn var(name: &str) -> Expr {
    Expr { attrs: vec![], span: USER, kind: ExprKind::Path(simple_path(name)) }
}

fn call1(func: &str, arg: Expr) -> Expr {
    Expr {
        attrs: vec![],
        span: USER,
        kind: ExprKind::Call { func: Box::new(var(func)), args: vec![arg] },
    }
}

fn body(stmts: Vec<Stmt>) -> Block {
    Block { span: BRACE, stmts }
}

fn by_value(name: &str, ty: Type) -> FnArg {
    FnArg::Captured {
        pat: Pat::Ident { by_ref: false, mutable: false, ident: id(name), subpat: None },
        ty,
    }
}

fn function(name: &str, inputs: Vec<FnArg>, output: ReturnType, block: Block) -> ItemFn {
    ItemFn {
        qualifiers: 0,
        ident: id(name),
        decl: FnDecl {
            generics: Generics { params: vec![], where_clause: None },
            inputs,
            output,
            variadic: false,
        },
        block,
    }
}

/// `fn foo() -> Result<i32, i32> { Ok(1) }`
fn minimal() -> ItemFn {
    function(
        "foo",
        vec![],
        ReturnType::Type(result_of("i32", "i32")),
        body(vec![Stmt::Expr(call1("Ok", var("1")))]),
    )
}

fn future(boxed: Option<Span>) -> Expander<Future> {
    Expander { boxed, send: false, item: None, mode: Future }
}

fn stream(boxed: Option<Span>) -> Expander<Stream> {
    Expander { boxed, send: false, item: None, mode: Stream }
}

const FUTURE_ANNOTATIONS: &str = "#[allow(unreachable_code)] { if false { \
yield; \
return { let _v: futures_await::__rt::std::result::Result<_, _> = futures_await::__rt::abort(); _v }; \
return { let _v: Result<i32, i32> = futures_await::__rt::abort(); _v }; \
} }";

// ---- the rewrite of a function ----

#[test]
fn minimal_function_becomes_generator_call() {
    let g = future(None).expand(minimal()).unwrap();
    let expected = format!(
        "fn foo<'__returned_future>() -> impl ::futures::__rt::MyFuture<Result<i32, i32>> + '__returned_future \
{{ extern crate futures_await; \
futures_await::__rt::async_future(move || {{ {} {{ Ok(1) }} }}) }}",
        FUTURE_ANNOTATIONS
    );
    assert_eq!(p_fn(&g), expected);
}

#[test]
fn minimal_function_closure_holds_annotations_then_body() {
    let g = future(None).expand(minimal()).unwrap();
    // extern crate; call
    assert_eq!(g.block.stmts.len(), 2);
    let call = match &g.block.stmts[1] {
        Stmt::Expr(e) => e,
        other => panic!("expected an expression, found {:?}", other),
    };
    let closure = match &call.kind {
        ExprKind::Call { args, .. } => &args[0],
        other => panic!("expected a call, found {:?}", other),
    };
    let inner = match &closure.kind {
        ExprKind::Closure { by_move: true, body } => match &body.kind {
            ExprKind::Block(b) => b,
            other => panic!("expected a block, found {:?}", other),
        },
        other => panic!("expected a move closure, found {:?}", other),
    };
    assert_eq!(inner.stmts.len(), 2);
    assert_eq!(p_stmt(&inner.stmts[0]), FUTURE_ANNOTATIONS);
    assert_eq!(p_stmt(&inner.stmts[1]), "{ Ok(1) }");
}

#[test]
fn synthesized_tokens_carry_the_positions_of_their_sources() {
    let g = future(None).expand(minimal()).unwrap();
    // `impl` stands at the braces of the body, the trait at the declared type.
    let ty = match &g.decl.output {
        ReturnType::Type(t) => t,
        other => panic!("expected a type, found {:?}", other),
    };
    assert_eq!(ty.span, BRACE);
    let bounds = match &ty.kind {
        TypeKind::ImplTrait(b) => b,
        other => panic!("expected impl, found {:?}", other),
    };
    match &bounds[0] {
        TypeParamBound::Trait(t) => {
            assert_eq!(t.span, RET);
            // `::futures` is resolved at the site of the invocation.
            assert_eq!(t.path.segments[0].ident.span, Span::CallSite);
            assert_eq!(t.path.segments[1].ident.span, RET);
            assert_eq!(t.path.segments[2].ident.span, RET);
        }
        other => panic!("expected a trait, found {:?}", other),
    }
    match &bounds[1] {
        TypeParamBound::Lifetime(l) => assert_eq!(l.span, Span::CallSite),
        other => panic!("expected a lifetime, found {:?}", other),
    }
    // The call of the runtime function stands at the braces, its path at
    // the declared type, the crate name at the site of the invocation.
    let call = match &g.block.stmts[1] {
        Stmt::Expr(e) => e,
        other => panic!("expected an expression, found {:?}", other),
    };
    assert_eq!(call.span, BRACE);
    match &call.kind {
        ExprKind::Call { func, args } => {
            assert_eq!(args[0].span, BRACE);
            match &func.kind {
                ExprKind::Path(p) => {
                    assert_eq!(p.segments[0].ident.span, Span::CallSite);
                    assert_eq!(p.segments[1].ident.span, RET);
                    assert_eq!(p.segments[2].ident.span, RET);
                }
                other => panic!("expected a path, found {:?}", other),
            }
        }
        other => panic!("expected a call, found {:?}", other),
    }
}

#[test]
fn boxed_wraps_type_and_value() {
    let g = future(Some(FLAG)).expand(minimal()).unwrap();
    let expected = format!(
        "fn foo<'__returned_future>() -> ::futures::__rt::Box<::futures::Future<\
Item = <Result<i32, i32> as ::futures::__rt::IsResult>::Ok, \
Error = <Result<i32, i32> as ::futures::__rt::IsResult>::Err> + '__returned_future> \
{{ extern crate futures_await; \
futures_await::__rt::std::boxed::Box::new({{ \
futures_await::__rt::async_future(move || {{ {} {{ Ok(1) }} }}) }}) }}",
        FUTURE_ANNOTATIONS
    );
    assert_eq!(p_fn(&g), expected);
    // Type and call stand at the position of the flag.
    match &g.decl.output {
        ReturnType::Type(t) => assert_eq!(t.span, FLAG),
        other => panic!("expected a type, found {:?}", other),
    }
    match &g.block.stmts[1] {
        Stmt::Expr(e) => assert_eq!(e.span, FLAG),
        other => panic!("expected an expression, found {:?}", other),
    }
}

#[test]
fn without_boxed_neither_type_nor_value_is_wrapped() {
    let g = future(None).expand(minimal()).unwrap();
    let printed = p_fn(&g);
    assert!(!printed.contains("Box"));
    assert!(printed.contains("-> impl "));
}

#[test]
fn boxed_send_adds_send_to_the_bounds() {
    let g = Expander { boxed: Some(FLAG), send: true, item: None, mode: Future }.expand(minimal()).unwrap();
    let ty = match &g.decl.output {
        ReturnType::Type(t) => p_type(t),
        other => panic!("expected a type, found {:?}", other),
    };
    assert!(ty.starts_with("::futures::__rt::Box<::futures::Future<"));
    assert!(ty.ends_with("+ '__returned_future + Send>"));
}

#[test]
fn irregular_parameter_is_rebound_inside_the_generator() {
    // fn _foo6(ref a: i32) -> Result<i32, i32> { Err(*a) }
    let f = function(
        "_foo6",
        vec![FnArg::Captured {
            pat: Pat::Ident { by_ref: true, mutable: false, ident: id("a"), subpat: None },
            ty: named("i32"),
        }],
        ReturnType::Type(result_of("i32", "i32")),
        body(vec![Stmt::Expr(call1("Err", var("a")))]),
    );
    let g = future(None).expand(f).unwrap();
    let printed = p_fn(&g);
    assert!(printed.starts_with("fn _foo6<'__returned_future>(__arg_0: i32) -> impl "));
    // The re-binding is the first statement of the generator.
    assert!(printed.contains(
        "futures_await::__rt::async_future(move || { let ref a = __arg_0; #[allow(unreachable_code)] { if false { "
    ));
    assert!(printed.ends_with("{ Err(a) } }) }"));
}

#[test]
fn capture_keeps_plain_parameters_and_numbers_placeholders_by_position() {
    // fn f(a: A, (b, c): B, self: S, ref mut d: D, mut e: E, #arg7)
    let f = function(
        "f",
        vec![
            by_value("a", named("A")),
            FnArg::Captured { pat: Pat::Other(5), ty: named("B") },
            FnArg::Captured {
                pat: Pat::Ident { by_ref: true, mutable: false, ident: id("self"), subpat: None },
                ty: named("S"),
            },
            FnArg::Captured {
                pat: Pat::Ident { by_ref: true, mutable: true, ident: id("d"), subpat: None },
                ty: named("D"),
            },
            FnArg::Captured {
                pat: Pat::Ident { by_ref: false, mutable: true, ident: id("e"), subpat: Some(6) },
                ty: named("E"),
            },
            FnArg::Other(7),
            FnArg::Receiver(8),
        ],
        ReturnType::Type(result_of("i32", "i32")),
        body(vec![Stmt::Semi(var("x"))]),
    );
    let (g, plan) = capture_inputs(f).unwrap();
    assert_eq!(
        p_fn(&g),
        "fn f(a: A, __arg_1: B, ref self: S, __arg_3: D, mut e @ #pat6: E, #arg7, #self8) \
-> Result<i32, i32> { x; }"
    );
    assert_eq!(
        plan,
        vec![
            Capture { pat: Pat::Other(5), placeholder: placeholder(1), ty: named("B") },
            Capture {
                pat: Pat::Ident { by_ref: true, mutable: true, ident: id("d"), subpat: None },
                placeholder: placeholder(3),
                ty: named("D"),
            },
        ]
    );
    let lets: Vec<String> = rebindings(plan).iter().map(p_stmt).collect();
    assert_eq!(lets, vec!["let #pat5 = __arg_1;", "let ref mut d = __arg_3;"]);
    // The placeholder is a plain by-value binding at the site of the invocation.
    match &g.decl.inputs[1] {
        FnArg::Captured { pat, .. } => assert_eq!(
            *pat,
            Pat::Ident {
                by_ref: false,
                mutable: false,
                ident: Ident { name: "__arg_1".to_string(), span: Span::CallSite },
                subpat: None
            }
        ),
        other => panic!("expected a captured argument, found {:?}", other),
    }
}

#[test]
fn placeholder_names_are_decimal() {
    assert_eq!(placeholder(0).name, "__arg_0");
    assert_eq!(placeholder(7).name, "__arg_7");
    assert_eq!(placeholder(10).name, "__arg_10");
    assert_eq!(placeholder(12).name, "__arg_12");
    assert_eq!(placeholder(4096).name, "__arg_4096");
    assert_eq!(placeholder(12).span, Span::CallSite);
    assert_ne!(placeholder(1).name, placeholder(10).name);
}

#[test]
fn variadic_function_is_refused() {
    let mut f = minimal();
    f.decl.variadic = true;
    assert_eq!(capture_inputs(f), Err(ExpandError::Variadic(USER)));
    let mut f = minimal();
    f.decl.variadic = true;
    assert_eq!(future(None).expand(f), Err(ExpandError::Variadic(USER)));
}

#[test]
fn function_without_return_type_is_refused() {
    let f = function("f", vec![], ReturnType::Omitted, body(vec![]));
    assert_eq!(future(None).expand(f), Err(ExpandError::NoReturnType(BRACE)));
    let f = function("f", vec![], ReturnType::Omitted, body(vec![]));
    assert_eq!(stream(None).expand(f), Err(ExpandError::NoReturnType(BRACE)));
}

#[test]
fn future_must_declare_a_named_type() {
    let reference = Type {
        span: RET,
        kind: TypeKind::Reference { lifetime: None, mutable: false, elem: Box::new(named("T")) },
    };
    let f = function("f", vec![], ReturnType::Type(reference), body(vec![]));
    assert_eq!(future(None).expand(f), Err(ExpandError::NotAResult(RET)));
    let f = function("f", vec![], ReturnType::Type(stream_of("u32", "i32")), body(vec![]));
    assert_eq!(future(None).expand(f), Err(ExpandError::NotAResult(RET)));
    let opaque = Type { span: RET, kind: TypeKind::Other(4) };
    assert_eq!(Future.mk_trait_to_return(false, BRACE, opaque, None), Err(ExpandError::NotAResult(RET)));
}

#[test]
fn stream_must_declare_impl_stream() {
    let f = function("f", vec![], ReturnType::Type(result_of("i32", "i32")), body(vec![]));
    assert_eq!(stream(None).expand(f), Err(ExpandError::NotAStream(RET)));
    // `impl 'a`, without a trait, gives nothing to take the item type from.
    let only_lifetime = Type {
        span: RET,
        kind: TypeKind::ImplTrait(vec![TypeParamBound::Lifetime(Lifetime {
            name: "a".to_string(),
            span: USER,
        })]),
    };
    let f = function("f", vec![], ReturnType::Type(only_lifetime), body(vec![]));
    assert_eq!(stream(None).expand(f), Err(ExpandError::NotAStream(RET)));
}

fn word(name: &str) -> AttrArg {
    AttrArg::Word(Ident { name: name.to_string(), span: FLAG })
}

fn word_at(name: &str, span: Span) -> AttrArg {
    AttrArg::Word(Ident { name: name.to_string(), span })
}

fn keyed(name: &str, ty: Type) -> AttrArg {
    AttrArg::Keyed(Ident { name: name.to_string(), span: Span::Source(12) }, ty)
}

fn config(boxed: Option<Span>, send: bool, item: Option<Type>) -> AttrConfig {
    AttrConfig { boxed, send, item }
}

#[test]
fn attribute_takes_boxed_boxed_send_or_nothing() {
    for kind in [ModeKind::Future, ModeKind::Stream] {
        assert_eq!(attr_config(kind, vec![]), Ok(config(None, false, None)));
        assert_eq!(attr_config(kind, vec![word("boxed")]), Ok(config(Some(FLAG), false, None)));
        assert_eq!(
            attr_config(kind, vec![word("boxed_send")]),
            Ok(config(Some(FLAG), true, None))
        );
        for unknown in ["box", "Boxed", "send", "item", "pinned", ""] {
            assert_eq!(
                attr_config(kind, vec![word_at(unknown, Span::Source(20))]),
                Err(ExpandError::UnknownArgument(Span::Source(20)))
            );
        }
    }
}

#[test]
fn stream_attribute_takes_an_item_type() {
    assert_eq!(
        attr_config(ModeKind::Stream, vec![keyed("item", named("u64"))]),
        Ok(config(None, false, Some(named("u64"))))
    );
    // In either order with `boxed`.
    assert_eq!(
        attr_config(ModeKind::Stream, vec![word("boxed"), keyed("item", named("u64"))]),
        Ok(config(Some(FLAG), false, Some(named("u64"))))
    );
    assert_eq!(
        attr_config(ModeKind::Stream, vec![keyed("item", named("T")), word("boxed_send")]),
        Ok(config(Some(FLAG), true, Some(named("T"))))
    );
    // Only `item` is a key.
    assert_eq!(
        attr_config(ModeKind::Stream, vec![keyed("Item", named("u64"))]),
        Err(ExpandError::UnknownArgument(Span::Source(12)))
    );
    assert_eq!(
        attr_config(ModeKind::Stream, vec![keyed("boxed", named("u64"))]),
        Err(ExpandError::UnknownArgument(Span::Source(12)))
    );
    // A future has no items.
    assert_eq!(
        attr_config(ModeKind::Future, vec![keyed("item", named("u64"))]),
        Err(ExpandError::UnknownArgument(Span::Source(12)))
    );
}

#[test]
fn attribute_arguments_are_given_once() {
    let second = Span::Source(21);
    assert_eq!(
        attr_config(ModeKind::Future, vec![word("boxed"), word_at("boxed", second)]),
        Err(ExpandError::DuplicateArgument(second))
    );
    // Both words ask for a box.
    assert_eq!(
        attr_config(ModeKind::Future, vec![word("boxed_send"), word_at("boxed", second)]),
        Err(ExpandError::DuplicateArgument(second))
    );
    assert_eq!(
        attr_config(ModeKind::Stream, vec![word("boxed"), word_at("boxed_send", second)]),
        Err(ExpandError::DuplicateArgument(second))
    );
    assert_eq!(
        attr_config(
            ModeKind::Stream,
            vec![keyed("item", named("u64")), word("boxed"), keyed("item", named("u32"))]
        ),
        Err(ExpandError::DuplicateArgument(Span::Source(12)))
    );
    // The first argument that cannot be taken decides.
    assert_eq!(
        attr_config(
            ModeKind::Stream,
            vec![word("boxed"), word_at("lazy", second), word_at("boxed", Span::Source(22))]
        ),
        Err(ExpandError::UnknownArgument(second))
    );
    assert_eq!(
        attr_config(
            ModeKind::Stream,
            vec![word("boxed"), word_at("boxed", second), word_at("lazy", Span::Source(22))]
        ),
        Err(ExpandError::DuplicateArgument(second))
    );
}

#[test]
fn attribute_on_function_expands_it() {
    let direct = future(Some(FLAG)).expand(minimal()).unwrap();
    let through =
        expand_async_fn(Future, vec![word("boxed")], Span::Source(30), ParsedItem::Fn(minimal()))
            .unwrap();
    assert_eq!(through, direct);
    let plain = expand_async_fn(Future, vec![], FLAG, ParsedItem::Fn(minimal())).unwrap();
    assert_eq!(plain, future(None).expand(minimal()).unwrap());
}

#[test]
fn attribute_on_other_item_is_refused() {
    assert_eq!(
        expand_async_fn(Future, vec![], FLAG, ParsedItem::Other(3)),
        Err(ExpandError::NotAFunction(FLAG))
    );
    // The arguments are read first.
    assert_eq!(
        expand_async_fn(Future, vec![word("nonsense")], Span::Source(30), ParsedItem::Other(3)),
        Err(ExpandError::UnknownArgument(FLAG))
    );
    assert_eq!(
        expand_async_fn(Stream, vec![word("nonsense")], FLAG, ParsedItem::Fn(minimal())),
        Err(ExpandError::UnknownArgument(FLAG))
    );
}

// ---- streams that name their item type in the attribute ----

/// `fn name() -> Result<(), i32> { x }`
fn item_stream(name: &str) -> ItemFn {
    function(
        name,
        vec![],
        ReturnType::Type(result_of("Unit", "i32")),
        body(vec![Stmt::Expr(var("x"))]),
    )
}

const ITEM_STREAM: &str = "::futures::Stream<Item = u64, \
Error = <Result<Unit, i32> as ::futures::__rt::IsResult>::Err>";

#[test]
fn stream_with_item_type_is_made_of_item_and_declared_error() {
    // #[async_stream(item = u64)] fn _stream1() -> Result<(), i32>
    let g = expand_async_fn(
        Stream,
        vec![keyed("item", named("u64"))],
        FLAG,
        ParsedItem::Fn(item_stream("_stream1")),
    )
    .unwrap();
    let printed = p_fn(&g);
    assert!(printed.starts_with(&format!(
        "fn _stream1<'__returned_stream>() -> impl {} + '__returned_stream \
{{ extern crate futures_await; futures_await::__rt::async_stream(move || {{ ",
        ITEM_STREAM
    )));
    assert!(printed.ends_with("return; } } { x } }) }"));
    // The annotations name the item and the error through the opaque type.
    assert!(printed.contains(&format!(
        "yield futures_await::__rt::std::result::Result::Ok({{ let _v: <{} as futures_await::stream::Stream>::Item = futures_await::__rt::abort(); _v }});",
        ITEM_STREAM
    )));
    assert!(printed.contains(&format!(
        "yield futures_await::__rt::std::result::Result::Err({{ let _v: futures_await::__rt::StreamError<<{} as futures_await::stream::Stream>::Error> = futures_await::__rt::abort(); _v }});",
        ITEM_STREAM
    )));
    // `impl` stands at the braces, the trait at the declared type.
    match &g.decl.output {
        ReturnType::Type(t) => {
            assert_eq!(t.span, BRACE);
            match &t.kind {
                TypeKind::ImplTrait(b) => match &b[0] {
                    TypeParamBound::Trait(t) => {
                        assert_eq!(t.span, RET);
                        assert!(t.path.leading_colon);
                        assert!(t.path.segments.iter().all(|s| s.ident.span == RET));
                    }
                    other => panic!("expected a trait, found {:?}", other),
                },
                other => panic!("expected impl, found {:?}", other),
            }
        }
        other => panic!("expected a type, found {:?}", other),
    }
}

#[test]
fn stream_with_item_type_can_be_boxed() {
    // #[async_stream(boxed, item = u64)] fn _stream4() -> Result<(), i32>
    let g = expand_async_fn(
        Stream,
        vec![word("boxed"), keyed("item", named("u64"))],
        Span::Source(30),
        ParsedItem::Fn(item_stream("_stream4")),
    )
    .unwrap();
    let printed = p_fn(&g);
    assert!(printed.starts_with(&format!(
        "fn _stream4<'__returned_stream>() -> ::futures::__rt::Box<{} + '__returned_stream> \
{{ extern crate futures_await; futures_await::__rt::std::boxed::Box::new({{ futures_await::__rt::async_stream(move || {{ ",
        ITEM_STREAM
    )));
    let same = Expander { boxed: Some(FLAG), send: false, item: Some(named("u64")), mode: Stream }
        .expand(item_stream("_stream4"))
        .unwrap();
    assert_eq!(g, same);
}

#[test]
fn declared_stream_is_kept_with_or_without_item() {
    let declared = || {
        function("s", vec![], ReturnType::Type(stream_of("u32", "i32")), body(vec![]))
    };
    let without = stream(None).expand(declared()).unwrap();
    let with = Expander { boxed: None, send: false, item: Some(named("u32")), mode: Stream }
        .expand(declared())
        .unwrap();
    assert_eq!(with, without);
    assert_eq!(
        Stream.mk_trait_to_return(false, BRACE, stream_of("u32", "i32"), Some(named("u8"))),
        Ok(stream_of("u32", "i32"))
    );
}

#[test]
fn stream_without_item_type_and_without_stream_is_refused() {
    assert_eq!(
        expand_async_fn(Stream, vec![], FLAG, ParsedItem::Fn(item_stream("s"))),
        Err(ExpandError::NotAStream(RET))
    );
    assert_eq!(
        expand_async_fn(Stream, vec![word("boxed")], FLAG, ParsedItem::Fn(item_stream("s"))),
        Err(ExpandError::NotAStream(RET))
    );
    // With the item type, any declared type gives its error to the stream.
    let g = Stream
        .mk_trait_to_return(false, BRACE, Type { span: RET, kind: TypeKind::Other(4) }, Some(named("T")))
        .unwrap();
    assert_eq!(
        p_type(&g),
        "impl ::futures::Stream<Item = T, Error = <#ty4 as ::futures::__rt::IsResult>::Err>"
    );
    // The other checks on the function stay.
    let mut variadic = item_stream("s");
    variadic.decl.variadic = true;
    assert_eq!(
        expand_async_fn(Stream, vec![keyed("item", named("u64"))], FLAG, ParsedItem::Fn(variadic)),
        Err(ExpandError::Variadic(USER))
    );
    let untyped = function("s", vec![], ReturnType::Omitted, body(vec![]));
    assert_eq!(
        expand_async_fn(Stream, vec![keyed("item", named("u64"))], FLAG, ParsedItem::Fn(untyped)),
        Err(ExpandError::NoReturnType(BRACE))
    );
    // A future takes no item type, whatever it declares.
    assert_eq!(
        Future.mk_trait_to_return(false, BRACE, stream_of("u32", "i32"), Some(named("u32"))),
        Err(ExpandError::NotAResult(RET))
    );
}

// ---- lifetimes ----

fn lifetime_fn(output: Type) -> ItemFn {
    // fn f<'a, T, U: 'a + Clone, #const1>(s: &str, t: &'a T, m: &mut U, v: Vec) -> output
    let clone = TypeParamBound::Trait(TraitBound {
        span: USER,
        prefix: None,
        path: simple_path("Clone"),
    });
    let a = || Lifetime { name: "a".to_string(), span: USER };
    let reference = |lifetime: Option<Lifetime>, mutable: bool, elem: &str| Type {
        span: USER,
        kind: TypeKind::Reference { lifetime, mutable, elem: Box::new(named(elem)) },
    };
    ItemFn {
        qualifiers: 0,
        ident: id("f"),
        decl: FnDecl {
            generics: Generics {
                params: vec![
                    GenericParam::Lifetime(LifetimeDef {
                        lifetime: a(),
                        bounds: vec![],
                        attrs: None,
                    }),
                    GenericParam::Type(TypeParam { ident: id("T"), bounds: vec![], rest: None }),
                    GenericParam::Type(TypeParam {
                        ident: id("U"),
                        bounds: vec![TypeParamBound::Lifetime(a()), clone],
                        rest: None,
                    }),
                    GenericParam::Const(1),
                ],
                where_clause: Some(2),
            },
            inputs: vec![
                by_value("s", reference(None, false, "str")),
                by_value("t", reference(Some(a()), false, "T")),
                by_value("m", reference(None, true, "U")),
                by_value("v", named("Vec")),
            ],
            output: ReturnType::Type(output),
            variadic: false,
        },
        block: body(vec![]),
    }
}

fn signature(f: &ItemFn) -> String {
    let printed = p_fn(f);
    printed[..printed.rfind(" { }").unwrap()].to_string()
}

#[test]
fn synthesized_lifetime_binds_borrows_and_parameters() {
    let e = stream(None);
    let f = lifetime_fn(stream_of("char", "()"));
    let opaque = e.ret_ty_to_impl_trait(f.decl.output, BRACE).unwrap();
    let decl = e.add_ret_lt_bounds(FnDecl { output: opaque, ..f.decl });
    let g = ItemFn { decl, ..lifetime_fn(stream_of("char", "()")) };
    assert_eq!(
        signature(&g),
        "fn f<'__returned_stream, 'a: '__returned_stream, T: '__returned_stream, U: 'a + Clone, #const1>\
(s: &'__returned_stream str, t: &'a T, m: &'__returned_stream mut U, v: Vec) \
-> impl Stream<Item = char, Error = ()> + '__returned_stream"
    );
    assert_eq!(g.decl.generics.where_clause, Some(2));
}

#[test]
fn explicit_lifetime_on_return_type_is_respected() {
    let with_lifetime = || {
        let mut t = stream_of("char", "()");
        if let TypeKind::ImplTrait(b) = &mut t.kind {
            b.push(TypeParamBound::Lifetime(Lifetime { name: "a".to_string(), span: USER }));
        }
        t
    };
    let e = stream(None);
    let f = lifetime_fn(with_lifetime());
    let decl = e.add_ret_lt_bounds(f.decl);
    assert_eq!(decl, lifetime_fn(with_lifetime()).decl);
}

#[test]
fn lifetime_is_not_added_twice() {
    let e = future(None);
    let f = lifetime_fn(result_of("u64", "E"));
    let opaque = e.ret_ty_to_impl_trait(f.decl.output, BRACE).unwrap();
    let once = e.add_ret_lt_bounds(FnDecl { output: opaque, ..f.decl });
    let params = once.generics.params.len();
    assert_eq!(params, 5);
    let printed_once = format!("{:?}", once);
    let twice = e.add_ret_lt_bounds(once);
    assert_eq!(twice.generics.params.len(), params);
    assert_eq!(format!("{:?}", twice), printed_once);
}

// ---- type annotations ----

#[test]
fn expr_with_type_never_produces_a_value() {
    let e = make_expr_with_type(named("u32"));
    assert_eq!(p_expr(&e), "{ let _v: u32 = futures_await::__rt::abort(); _v }");
    // At the position of the type; the crate name at the site of the invocation.
    assert_eq!(e.span, USER);
    match &e.kind {
        ExprKind::Block(b) => match &b.stmts[0] {
            Stmt::Local(Local { init: Some(init), .. }) => match &init.kind {
                ExprKind::Call { func, .. } => match &func.kind {
                    ExprKind::Path(p) => {
                        assert_eq!(p.segments[0].ident.span, Span::CallSite);
                        assert_eq!(p.segments[2].ident.span, USER);
                    }
                    other => panic!("expected a path, found {:?}", other),
                },
                other => panic!("expected a call, found {:?}", other),
            },
            other => panic!("expected a let, found {:?}", other),
        },
        other => panic!("expected a block, found {:?}", other),
    }
}

#[test]
fn yield_and_return_stand_at_the_call_site() {
    assert_eq!(p_expr(&make_yield_expr(None)), "yield");
    assert_eq!(p_expr(&make_yield_expr(Some(var("x")))), "yield x");
    assert_eq!(p_expr(&make_return_expr(None)), "return");
    assert_eq!(p_expr(&make_return_expr(Some(var("x")))), "return x");
    assert_eq!(make_yield_expr(None).span, Span::CallSite);
    assert_eq!(make_return_expr(Some(var("x"))).span, Span::CallSite);
}

#[test]
fn future_annotations_name_result_then_declared_type() {
    let with = Future.mk_type_annotations(BRACE, Some(result_of("i32", "i32"))).unwrap();
    let printed: Vec<String> = with.iter().map(p_expr).collect();
    assert_eq!(
        printed,
        vec![
            "yield",
            "return { let _v: futures_await::__rt::std::result::Result<_, _> = futures_await::__rt::abort(); _v }",
            "return { let _v: Result<i32, i32> = futures_await::__rt::abort(); _v }",
        ]
    );
    // A block declares no type: only the first two are made, at the braces.
    let without = Future.mk_type_annotations(BRACE, None).unwrap();
    assert_eq!(without.len(), 2);
    match &without[1].kind {
        ExprKind::Return(Some(e)) => assert_eq!(e.span, BRACE),
        other => panic!("expected a return, found {:?}", other),
    }
}

#[test]
fn stream_annotations_name_item_and_error() {
    let anns = Stream.mk_type_annotations(BRACE, Some(stream_of("u32", "i32"))).unwrap();
    let printed: Vec<String> = anns.iter().map(p_expr).collect();
    let poly = "Stream<Item = u32, Error = i32>";
    assert_eq!(
        printed,
        vec![
            "yield { let _v: futures_await::__rt::std::result::Result<_, _> = futures_await::__rt::abort(); _v }".to_string(),
            format!(
                "yield futures_await::__rt::std::result::Result::Ok({{ let _v: <{} as futures_await::stream::Stream>::Item = futures_await::__rt::abort(); _v }})",
                poly
            ),
            format!(
                "yield futures_await::__rt::std::result::Result::Err({{ let _v: futures_await::__rt::StreamError<<{} as futures_await::stream::Stream>::Error> = futures_await::__rt::abort(); _v }})",
                poly
            ),
            "return".to_string(),
        ]
    );
    let bare = Stream.mk_type_annotations(BRACE, None).unwrap();
    let printed: Vec<String> = bare.iter().map(p_expr).collect();
    assert_eq!(
        printed,
        vec![
            "yield { let _v: futures_await::__rt::std::result::Result<_, _> = futures_await::__rt::abort(); _v }",
            "return",
        ]
    );
}

#[test]
fn stream_annotations_refuse_other_types() {
    assert_eq!(
        Stream.mk_type_annotations(BRACE, Some(result_of("i32", "i32"))),
        Err(ExpandError::NotAStream(RET))
    );
    assert_eq!(
        make_type_annotations(Stream, BRACE, Some(named("u32"))),
        Err(ExpandError::NotAStream(USER))
    );
}

#[test]
fn annotations_are_guarded_by_a_false_condition() {
    let stmt = make_type_annotations(Future, BRACE, Some(result_of("i32", "i32"))).unwrap();
    assert_eq!(p_stmt(&stmt), FUTURE_ANNOTATIONS);
    match &stmt {
        Stmt::Expr(e) => {
            assert_eq!(
                e.attrs,
                vec![Attribute {
                    head: Ident { name: "allow".to_string(), span: Span::CallSite },
                    args: AttrArgs::Word(Ident {
                        name: "unreachable_code".to_string(),
                        span: Span::CallSite
                    }),
                }]
            );
            match &e.kind {
                ExprKind::Block(b) => match &b.stmts[0] {
                    Stmt::Expr(guard) => match &guard.kind {
                        ExprKind::If { cond, else_branch: None, .. } => {
                            assert_eq!(cond.kind, ExprKind::Bool(false))
                        }
                        other => panic!("expected an if, found {:?}", other),
                    },
                    other => panic!("expected an expression, found {:?}", other),
                },
                other => panic!("expected a block, found {:?}", other),
            }
        }
        other => panic!("expected an expression, found {:?}", other),
    }
}

// ---- streams and blocks ----

#[test]
fn stream_function_keeps_its_declared_type() {
    // fn chars(src: &str) -> impl Stream<Item = char, Error = ()> { #5(src) }
    let src_ty = Type {
        span: USER,
        kind: TypeKind::Reference { lifetime: None, mutable: false, elem: Box::new(named("str")) },
    };
    let f = function(
        "chars",
        vec![by_value("src", src_ty)],
        ReturnType::Type(stream_of("char", "()")),
        body(vec![Stmt::Expr(Expr {
            attrs: vec![],
            span: USER,
            kind: ExprKind::Other { handle: 5, children: vec![var("src")] },
        })]),
    );
    let g = stream(None).expand(f).unwrap();
    let printed = p_fn(&g);
    assert!(printed.starts_with(
        "fn chars<'__returned_stream>(src: &'__returned_stream str) \
-> impl Stream<Item = char, Error = ()> + '__returned_stream \
{ extern crate futures_await; futures_await::__rt::async_stream(move || { #[allow(unreachable_code)] { if false { "
    ));
    assert!(printed.ends_with("return; } } { #5(src) } }) }"));
}

#[test]
fn block_is_wrapped_without_a_declared_type() {
    let b = expand_async_block(Future, body(vec![Stmt::Expr(var("x"))]), None).unwrap();
    assert_eq!(
        p_block(&b),
        "{ futures_await::__rt::async_future(move || { \
#[allow(unreachable_code)] { if false { yield; \
return { let _v: futures_await::__rt::std::result::Result<_, _> = futures_await::__rt::abort(); _v }; } } \
{ x } }) }"
    );
    let b = expand_async_block(Stream, body(vec![Stmt::Expr(var("x"))]), None).unwrap();
    assert!(p_block(&b).starts_with("{ futures_await::__rt::async_stream(move || { "));
    // Without a declared type the path of the runtime function stands at the braces.
    match &b.stmts[0] {
        Stmt::Expr(e) => match &e.kind {
            ExprKind::Call { func, .. } => {
                assert_eq!(func.span, BRACE);
            }
            other => panic!("expected a call, found {:?}", other),
        },
        other => panic!("expected an expression, found {:?}", other),
    }
}

#[test]
fn body_is_boxed_only_with_the_flag() {
    let plain = future(None).handle_boxed_body(body(vec![Stmt::Expr(var("x"))]));
    assert_eq!(plain, body(vec![Stmt::Expr(var("x"))]));
    let boxed = future(Some(FLAG)).handle_boxed_body(body(vec![Stmt::Expr(var("x"))]));
    assert_eq!(p_block(&boxed), "{ futures_await::__rt::std::boxed::Box::new({ x }) }");
    assert_eq!(boxed.span, BRACE);
}

#[test]
fn async_for_in_a_function_body_is_expanded() {
    // fn f() -> Result<i32, i32> { #[async] for x in s { x; } Ok(cnt) }
    let marked = Expr {
        attrs: vec![Attribute { head: id("async"), args: AttrArgs::Source(1) }],
        span: USER,
        kind: ExprKind::ForLoop {
            label: None,
            pat: Pat::Ident { by_ref: false, mutable: false, ident: id("x"), subpat: None },
            expr: Box::new(var("s")),
            body: body(vec![Stmt::Semi(var("x"))]),
        },
    };
    let f = function(
        "f",
        vec![],
        ReturnType::Type(result_of("i32", "i32")),
        body(vec![Stmt::Expr(marked), Stmt::Expr(call1("Ok", var("cnt")))]),
    );
    let g = future(None).expand(f).unwrap();
    let printed = p_fn(&g);
    assert!(printed.contains("{ let mut __stream = s; loop { let x = { extern crate futures_await; "));
    assert!(!printed.contains("for x in"));
    assert!(printed.ends_with("Ok(cnt) } }) }"));
}

// ---- the steps on the return type ----

#[test]
fn return_type_is_rewritten_in_three_steps() {
    let f = function(
        "f",
        vec![by_value("s", Type {
            span: USER,
            kind: TypeKind::Reference { lifetime: None, mutable: false, elem: Box::new(named("str")) },
        })],
        ReturnType::Type(result_of("u64", "E")),
        body(vec![Stmt::Expr(var("x"))]),
    );
    let g = future(Some(FLAG)).handle_ret_ty(f).unwrap();
    // The body is not touched by this step.
    assert_eq!(
        p_fn(&g),
        "fn f<'__returned_future>(s: &'__returned_future str) -> ::futures::__rt::Box<::futures::Future<\
Item = <Result<u64, E> as ::futures::__rt::IsResult>::Ok, \
Error = <Result<u64, E> as ::futures::__rt::IsResult>::Err> + '__returned_future> { x }"
    );
    let f = function("f", vec![], ReturnType::Omitted, body(vec![]));
    assert_eq!(future(None).handle_ret_ty(f), Err(ExpandError::NoReturnType(BRACE)));
    assert_eq!(
        stream(None).ret_ty_to_impl_trait(ReturnType::Omitted, FLAG),
        Err(ExpandError::NoReturnType(FLAG))
    );
}

#[test]
fn opaque_type_is_boxed_only_with_the_flag() {
    let opaque = || ReturnType::Type(stream_of("u32", "i32"));
    assert_eq!(stream(None).sanitize_returned_trait(opaque()), opaque());
    let boxed = stream(Some(FLAG)).sanitize_returned_trait(opaque());
    match &boxed {
        ReturnType::Type(t) => {
            assert_eq!(p_type(t), "::futures::__rt::Box<Stream<Item = u32, Error = i32>>");
            assert_eq!(t.span, FLAG);
            match &t.kind {
                TypeKind::Path(p) => {
                    // Every token of the box stands at the flag, the crate name too.
                    assert!(p.segments.iter().all(|s| s.ident.span == FLAG));
                    match &p.segments[2].arguments {
                        PathArguments::AngleBracketed(args) => match &args[0] {
                            // The bounds keep the position of `impl`.
                            GenericArgument::Type(inner) => assert_eq!(inner.span, RET),
                            other => panic!("expected a type, found {:?}", other),
                        },
                        other => panic!("expected arguments, found {:?}", other),
                    }
                }
                other => panic!("expected a path, found {:?}", other),
            }
        }
        other => panic!("expected a type, found {:?}", other),
    }
    let sent = Expander { boxed: Some(FLAG), send: true, item: None, mode: Stream }
        .sanitize_returned_trait(opaque());
    match &sent {
        ReturnType::Type(t) => {
            assert_eq!(p_type(t), "::futures::__rt::Box<Stream<Item = u32, Error = i32> + Send>")
        }
        other => panic!("expected a type, found {:?}", other),
    }
    // Without the box there is nothing to make `Send`.
    let plain = Expander { boxed: None, send: true, item: None, mode: Stream }.sanitize_returned_trait(opaque());
    assert_eq!(plain, opaque());
}

#[test]
fn statements_are_wrapped_where_they_never_run() {
    let stmt = wrap_in_unreacable_block(vec![Stmt::Semi(var("a")), Stmt::Semi(var("b"))]);
    assert_eq!(p_stmt(&stmt), "#[allow(unreachable_code)] { if false { a; b; } }");
    let empty = wrap_in_unreacable_block(vec![]);
    assert_eq!(p_stmt(&empty), "#[allow(unreachable_code)] { if false { } }");
}

// ---- the trait of a stream ----

/// `impl path<Item = u8>`, at the position `RET`.
fn impl_of(path: Vec<&str>) -> Type {
    let last = path.len().saturating_sub(1);
    let segments = path
        .iter()
        .enumerate()
        .map(|(i, name)| PathSegment {
            ident: id(name),
            arguments: if i == last {
                PathArguments::AngleBracketed(vec![GenericArgument::Binding(
                    id("Item"),
                    named("u8"),
                )])
            } else {
                PathArguments::Empty
            },
        })
        .collect();
    Type {
        span: RET,
        kind: TypeKind::ImplTrait(vec![
            TypeParamBound::Lifetime(Lifetime { name: "a".to_string(), span: USER }),
            TypeParamBound::Trait(TraitBound {
                span: USER,
                prefix: None,
                path: Path { leading_colon: false, segments },
            }),
        ]),
    }
}

#[test]
fn stream_of_another_trait_is_refused() {
    // fn s() -> impl Iterator<Item = u8> {}
    let f = function("s", vec![], ReturnType::Type(impl_of(vec!["Iterator"])), body(vec![]));
    assert_eq!(stream(None).expand(f), Err(ExpandError::NotAStream(RET)));
    let f = function("s", vec![], ReturnType::Type(impl_of(vec!["Iterator"])), body(vec![]));
    assert_eq!(
        expand_async_fn(Stream, vec![], FLAG, ParsedItem::Fn(f)),
        Err(ExpandError::NotAStream(RET))
    );
    let f = function("s", vec![], ReturnType::Type(impl_of(vec!["Iterator"])), body(vec![]));
    assert_eq!(stream(Some(FLAG)).expand(f), Err(ExpandError::NotAStream(RET)));
    assert_eq!(
        Stream.mk_trait_to_return(false, BRACE, impl_of(vec!["Iterator"]), None),
        Err(ExpandError::NotAStream(RET))
    );
    assert_eq!(
        Stream.mk_trait_to_return(true, BRACE, impl_of(vec!["Iterator"]), None),
        Err(ExpandError::NotAStream(RET))
    );
    assert_eq!(
        Stream.mk_type_annotations(BRACE, Some(impl_of(vec!["Iterator"]))),
        Err(ExpandError::NotAStream(RET))
    );
    assert_eq!(
        make_type_annotations(Stream, BRACE, Some(impl_of(vec!["Iterator"]))),
        Err(ExpandError::NotAStream(RET))
    );
    // The name decides, not a part of it, and not the module.
    for other in ["Streams", "stream", "MyStream", "Future", "Sink", ""] {
        assert_eq!(
            Stream.mk_trait_to_return(false, BRACE, impl_of(vec![other]), None),
            Err(ExpandError::NotAStream(RET))
        );
    }
    assert_eq!(
        Stream.mk_trait_to_return(false, BRACE, impl_of(vec!["Stream", "Iterator"]), None),
        Err(ExpandError::NotAStream(RET))
    );
    // A trait without a path names nothing.
    assert_eq!(
        Stream.mk_trait_to_return(false, BRACE, impl_of(vec![]), None),
        Err(ExpandError::NotAStream(RET))
    );
    // `Stream` after another trait does not make the type a stream.
    let mut second = impl_of(vec!["Clone"]);
    if let TypeKind::ImplTrait(b) = &mut second.kind {
        b.push(TypeParamBound::Trait(TraitBound {
            span: USER,
            prefix: None,
            path: Path {
                leading_colon: false,
                segments: vec![PathSegment { ident: id("Stream"), arguments: PathArguments::Empty }],
            },
        }));
    }
    assert_eq!(
        Stream.mk_trait_to_return(false, BRACE, second, None),
        Err(ExpandError::NotAStream(RET))
    );
}

#[test]
fn stream_is_kept_as_declared() {
    // The trait may stand after a lifetime and be reached through a module.
    for path in [vec!["Stream"], vec!["futures", "Stream"], vec!["futures", "stream", "Stream"]] {
        assert_eq!(
            Stream.mk_trait_to_return(false, BRACE, impl_of(path.clone()), None),
            Ok(impl_of(path.clone()))
        );
        assert_eq!(
            Stream.mk_trait_to_return(true, FLAG, impl_of(path.clone()), None),
            Ok(impl_of(path.clone()))
        );
        let anns = Stream.mk_type_annotations(BRACE, Some(impl_of(path.clone()))).unwrap();
        assert_eq!(anns.len(), 4);
        let f = function("s", vec![], ReturnType::Type(impl_of(path)), body(vec![]));
        assert!(stream(None).expand(f).is_ok());
    }
}
