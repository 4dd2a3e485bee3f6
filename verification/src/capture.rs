//! Re-binding of parameters, so that every argument moves into the
//! generator.
//!
//! A function such as
//!
//! ```text
//! fn foo(ref a: u32) -> Result<u32, u32> { … }
//! ```
//!
//! becomes
//!
//! ```text
//! fn foo(__arg_0: u32) -> impl Future<…> {
//!     gen(move || {
//!         let ref a = __arg_0;
//!         …
//!     })
//! }
//! ```
//!
//! so that the closure captures the argument by value and the pattern is
//! bound inside it.  `self` and plain by-value identifiers are captured as
//! they are.  The capture plan records what was replaced.
use crate::async_macro::ExpandError;
use crate::expr::{stmts_model, Pat, SpecExprKind, SpecPat, SpecStmt, Stmt};
use crate::make::{
    binding, binding_model, let_model, let_stmt, path_expr, path_root, path_root_model,
    plain_expr,
};
use crate::sig::{inputs_model, FnArg, FnDecl, ItemFn, SpecFnArg, SpecFnDecl, SpecItemFn};
use crate::span::Span;
use crate::ty::{Ident, SpecIdent, SpecType, Type};
use vstd::prelude::*;

verus! {

/// Model of [`Capture`].
pub struct SpecCapture {
    pub pat: SpecPat,
    pub placeholder: SpecIdent,
    pub ty: SpecType,
}

/// One entry of the capture plan: the pattern that a parameter was written
/// with, the placeholder that stands for it in the signature, and the
/// declared type of the parameter.
#[derive(Debug, PartialEq, Eq)]
pub struct Capture {
    pub pat: Pat,
    pub placeholder: Ident,
    pub ty: Type,
}

impl View for Capture {
    type V = SpecCapture;

    open spec fn view(&self) -> SpecCapture {
        SpecCapture { pat: self.pat@, placeholder: self.placeholder@, ty: self.ty@ }
    }
}

/// Model of a capture plan: the models of its entries, in order.
pub open spec fn plan_model(plan: Seq<Capture>) -> Seq<SpecCapture> {
    Seq::new(plan.len(), |i: int| plan[i]@)
}

/// The character of the decimal digit `d`.
pub open spec fn digit_char(d: nat) -> char {
    if d == 0 {
        '0'
    } else if d == 1 {
        '1'
    } else if d == 2 {
        '2'
    } else if d == 3 {
        '3'
    } else if d == 4 {
        '4'
    } else if d == 5 {
        '5'
    } else if d == 6 {
        '6'
    } else if d == 7 {
        '7'
    } else if d == 8 {
        '8'
    } else {
        '9'
    }
}

/// `n` written in decimal, without leading zeros.
pub open spec fn decimal(n: nat) -> Seq<char>
    decreases n,
{
    if n < 10 {
        seq![digit_char(n)]
    } else {
        decimal(n / 10).push(digit_char(n % 10))
    }
}

/// The name of the placeholder for the parameter at `index`: `__arg_`
/// followed by the index in decimal.
pub open spec fn placeholder_name(index: nat) -> Seq<char> {
    "__arg_"@ + decimal(index)
}

/// The placeholder identifier for the parameter at `index`.
pub open spec fn placeholder_model(index: nat) -> SpecIdent {
    SpecIdent { name: placeholder_name(index), span: Span::CallSite }
}

/// Whether the parameter must be re-bound: it binds a pattern that is
/// neither `self` nor a by-value identifier.
pub open spec fn needs_placeholder(arg: SpecFnArg) -> bool {
    match arg {
        SpecFnArg::Captured { pat, ty } => match pat {
            SpecPat::Ident { by_ref, mutable, ident, subpat } => ident.name != "self"@ && by_ref,
            _ => true,
        },
        _ => false,
    }
}

/// The parameter that stands at `index` of the rewritten signature.
pub open spec fn captured_arg_model(arg: SpecFnArg, index: nat) -> SpecFnArg {
    if needs_placeholder(arg) {
        SpecFnArg::Captured {
            pat: binding_model(false, placeholder_model(index)),
            ty: arg->Captured_ty,
        }
    } else {
        arg
    }
}

/// The rewritten parameters.
pub open spec fn captured_inputs_model(inputs: Seq<SpecFnArg>) -> Seq<SpecFnArg> {
    Seq::new(inputs.len(), |i: int| captured_arg_model(inputs[i], i as nat))
}

/// The entry of the plan for the irregular parameter `arg` at `index`.
pub open spec fn capture_model(arg: SpecFnArg, index: nat) -> SpecCapture
    recommends
        arg is Captured,
{
    SpecCapture {
        pat: arg->Captured_pat,
        placeholder: placeholder_model(index),
        ty: arg->Captured_ty,
    }
}

/// The plan for the first `n` parameters: one entry for each irregular
/// parameter, in the order of the parameters.
pub open spec fn capture_plan_model(inputs: Seq<SpecFnArg>, n: nat) -> Seq<SpecCapture>
    recommends
        n <= inputs.len(),
    decreases n,
{
    if n == 0 {
        Seq::empty()
    } else {
        let before = capture_plan_model(inputs, (n - 1) as nat);
        if needs_placeholder(inputs[n - 1]) {
            before.push(capture_model(inputs[n - 1], (n - 1) as nat))
        } else {
            before
        }
    }
}

/// `let pat = placeholder;`, the statement that carries out one entry.
pub open spec fn rebinding_model(capture: SpecCapture) -> SpecStmt {
    let_model(
        capture.pat,
        plain_expr(
            Span::CallSite,
            SpecExprKind::Path(path_root_model(false, capture.placeholder)),
        ),
    )
}

/// The statements that carry out a plan, in its order.
pub open spec fn rebindings_model(plan: Seq<SpecCapture>) -> Seq<SpecStmt> {
    Seq::new(plan.len(), |i: int| rebinding_model(plan[i]))
}

/// The function with its irregular parameters replaced by placeholders.
/// Nothing else of it changes.
pub open spec fn capture_inputs_model(f: SpecItemFn) -> SpecItemFn {
    SpecItemFn {
        qualifiers: f.qualifiers,
        ident: f.ident,
        decl: SpecFnDecl {
            generics: f.decl.generics,
            inputs: captured_inputs_model(f.decl.inputs),
            output: f.decl.output,
            variadic: f.decl.variadic,
        },
        block: f.block,
    }
}

/// The plan of a whole signature.
pub open spec fn plan_of(f: SpecItemFn) -> Seq<SpecCapture> {
    capture_plan_model(f.decl.inputs, f.decl.inputs.len())
}

/// The plan for the first `m` parameters is the start of the plan for the
/// first `n`, for `m <= n`.
pub proof fn lemma_plan_grows(inputs: Seq<SpecFnArg>, m: nat, n: nat)
    requires
        m <= n,
    ensures
        capture_plan_model(inputs, m).len() <= capture_plan_model(inputs, n).len(),
        capture_plan_model(inputs, n).subrange(0, capture_plan_model(inputs, m).len() as int)
            == capture_plan_model(inputs, m),
    decreases n,
{
    if m < n {
        lemma_plan_grows(inputs, m, (n - 1) as nat);
    }
    assert(capture_plan_model(inputs, n).subrange(
        0,
        capture_plan_model(inputs, m).len() as int,
    ) =~= capture_plan_model(inputs, m));
}

/// A parameter bound with an irregular pattern appears in the rewritten
/// signature as a plain by-value placeholder of the same type, and the plan
/// holds its pattern as written, that placeholder and that type.  Its entry
/// stands in the plan after those of the parameters before it, so the
/// re-bindings run in the order of the parameters.
pub proof fn lemma_irregular_parameter_is_rebound(f: SpecItemFn, i: int)
    requires
        0 <= i < f.decl.inputs.len(),
        needs_placeholder(f.decl.inputs[i]),
    ensures
        capture_inputs_model(f).decl.inputs[i] == (SpecFnArg::Captured {
            pat: SpecPat::Ident {
                by_ref: false,
                mutable: false,
                ident: placeholder_model(i as nat),
                subpat: None,
            },
            ty: f.decl.inputs[i]->Captured_ty,
        }),
        capture_plan_model(f.decl.inputs, i as nat).len() < plan_of(f).len(),
        plan_of(f)[capture_plan_model(f.decl.inputs, i as nat).len() as int] == (SpecCapture {
            pat: f.decl.inputs[i]->Captured_pat,
            placeholder: placeholder_model(i as nat),
            ty: f.decl.inputs[i]->Captured_ty,
        }),
        rebindings_model(plan_of(f))[capture_plan_model(f.decl.inputs, i as nat).len() as int]
            == let_model(
            f.decl.inputs[i]->Captured_pat,
            plain_expr(
                Span::CallSite,
                SpecExprKind::Path(path_root_model(false, placeholder_model(i as nat))),
            ),
        ),
{
    let inputs = f.decl.inputs;
    let k = capture_plan_model(inputs, i as nat).len() as int;
    lemma_plan_grows(inputs, (i + 1) as nat, inputs.len());
    assert(capture_plan_model(inputs, (i + 1) as nat) == capture_plan_model(
        inputs,
        i as nat,
    ).push(capture_model(inputs[i], i as nat)));
    let all = plan_of(f);
    assert(all.subrange(0, k + 1)[k] == all[k]);
}

/// Every other parameter stands in the rewritten signature as it was, and
/// the rest of the function is untouched.
pub proof fn lemma_capture_keeps_the_rest(f: SpecItemFn)
    ensures
        capture_inputs_model(f).decl.inputs.len() == f.decl.inputs.len(),
        forall|i: int|
            0 <= i < f.decl.inputs.len() && !needs_placeholder(f.decl.inputs[i])
                ==> #[trigger] capture_inputs_model(f).decl.inputs[i] == f.decl.inputs[i],
        capture_inputs_model(f).block == f.block,
        capture_inputs_model(f).decl.output == f.decl.output,
        capture_inputs_model(f).decl.generics == f.decl.generics,
{
}

/// The decimal text of a number has at least one digit, and more than one
/// from ten on.
proof fn lemma_decimal_len(n: nat)
    ensures
        decimal(n).len() >= 1,
        n >= 10 ==> decimal(n).len() >= 2,
    decreases n,
{
    if n >= 10 {
        lemma_decimal_len(n / 10);
    }
}

/// Different digits have different characters.
proof fn lemma_digit_injective(a: nat, b: nat)
    requires
        a < 10,
        b < 10,
        digit_char(a) == digit_char(b),
    ensures
        a == b,
{
}

/// Different numbers have different decimal texts.
proof fn lemma_decimal_injective(a: nat, b: nat)
    requires
        decimal(a) == decimal(b),
    ensures
        a == b,
    decreases a,
{
    lemma_decimal_len(a);
    lemma_decimal_len(b);
    if a < 10 {
        assert(b < 10);
        assert(decimal(a)[0] == digit_char(a));
        assert(decimal(b)[0] == digit_char(b));
        lemma_digit_injective(a, b);
    } else {
        assert(b >= 10);
        let x = decimal(a / 10);
        let y = decimal(b / 10);
        assert(x =~= decimal(a).drop_last());
        assert(y =~= decimal(b).drop_last());
        assert(decimal(a).last() == digit_char(a % 10));
        assert(decimal(b).last() == digit_char(b % 10));
        lemma_decimal_injective(a / 10, b / 10);
        lemma_digit_injective(a % 10, b % 10);
    }
}

/// The placeholders of different parameters have different names, so no
/// placeholder shadows another.
pub proof fn lemma_placeholders_are_distinct(i: nat, j: nat)
    requires
        i != j,
    ensures
        placeholder_name(i) != placeholder_name(j),
{
    if placeholder_name(i) == placeholder_name(j) {
        let prefix = "__arg_"@;
        assert(placeholder_name(i).subrange(
            prefix.len() as int,
            placeholder_name(i).len() as int,
        ) =~= decimal(i));
        assert(placeholder_name(j).subrange(
            prefix.len() as int,
            placeholder_name(j).len() as int,
        ) =~= decimal(j));
        lemma_decimal_injective(i, j);
    }
}

/// The text of the decimal digit `d`.
fn digit_str(d: usize) -> (s: &'static str)
    requires
        d < 10,
    ensures
        s@ == seq![digit_char(d as nat)],
{
    proof {
        reveal_strlit("0");
        reveal_strlit("1");
        reveal_strlit("2");
        reveal_strlit("3");
        reveal_strlit("4");
        reveal_strlit("5");
        reveal_strlit("6");
        reveal_strlit("7");
        reveal_strlit("8");
        reveal_strlit("9");
    }
    let s = if d == 0 {
        "0"
    } else if d == 1 {
        "1"
    } else if d == 2 {
        "2"
    } else if d == 3 {
        "3"
    } else if d == 4 {
        "4"
    } else if d == 5 {
        "5"
    } else if d == 6 {
        "6"
    } else if d == 7 {
        "7"
    } else if d == 8 {
        "8"
    } else {
        "9"
    };
    assert(s@ =~= seq![digit_char(d as nat)]);
    s
}

/// `n` written in decimal.
fn decimal_string(n: usize) -> (s: String)
    ensures
        s@ == decimal(n as nat),
    decreases n,
{
    if n < 10 {
        String::from_str(digit_str(n))
    } else {
        let mut s = decimal_string(n / 10);
        s.append(digit_str(n % 10));
        assert(s@ =~= decimal(n as nat));
        s
    }
}

/// The placeholder identifier for the parameter at `index`.
pub fn placeholder(index: usize) -> (r: Ident)
    ensures
        r@ == placeholder_model(index as nat),
{
    let mut name = String::from_str("__arg_");
    let digits = decimal_string(index);
    name.append(digits.as_str());
    Ident { name, span: Span::CallSite }
}

/// Whether the parameter must be re-bound.
fn is_irregular(arg: &FnArg) -> (b: bool)
    ensures
        b == needs_placeholder(arg@),
{
    match arg {
        FnArg::Captured { pat, ty } => match pat {
            Pat::Ident { by_ref, mutable, ident, subpat } => !ident.is("self") && *by_ref,
            _ => true,
        },
        _ => false,
    }
}

/// Replaces each parameter whose pattern is not a plain by-value identifier
/// by a placeholder `__arg_N`, `N` being the parameter's index, and records
/// the replacement in the capture plan.  A variadic function is refused.
pub fn capture_inputs(f: ItemFn) -> (r: Result<(ItemFn, Vec<Capture>), ExpandError>)
    ensures
        match r {
            Ok((g, plan)) => !f@.decl.variadic && g@ == capture_inputs_model(f@) && plan_model(
                plan@,
            ) == plan_of(f@),
            Err(e) => f@.decl.variadic && e == ExpandError::Variadic(f@.ident.span),
        },
{
    let ghost before = f@;
    let ItemFn { qualifiers, ident, decl, block } = f;
    let FnDecl { generics, inputs, output, variadic } = decl;
    if variadic {
        return Err(ExpandError::Variadic(ident.span));
    }
    let ghost orig = inputs@;
    let ghost args = inputs_model(orig);
    let mut inputs_no_patterns: Vec<FnArg> = Vec::new();
    let mut plan: Vec<Capture> = Vec::new();
    let mut i: usize = 0;
    let n = inputs.len();
    assert(plan_model(plan@) =~= capture_plan_model(args, 0));
    for input in it: inputs
        invariant
            it.seq() == orig,
            orig.len() == n,
            args == inputs_model(orig),
            i == it.index(),
            inputs_no_patterns@.len() == i,
            forall|j: int|
                0 <= j < i ==> (#[trigger] inputs_no_patterns@[j])@ == captured_arg_model(
                    args[j],
                    j as nat,
                ),
            plan_model(plan@) == capture_plan_model(args, i as nat),
    {
        assert(input@ == args[i as int]);
        let ghost prev = plan_model(plan@);
        if is_irregular(&input) {
            match input {
                FnArg::Captured { pat, ty } => {
                    plan.push(Capture { pat, placeholder: placeholder(i), ty: ty.clone() });
                    inputs_no_patterns.push(
                        FnArg::Captured { pat: binding(false, placeholder(i)), ty },
                    );
                },
                other => {
                    inputs_no_patterns.push(other);
                },
            }
        } else {
            inputs_no_patterns.push(input);
        }
        proof {
            assert(plan_model(plan@) =~= capture_plan_model(args, (i + 1) as nat)) by {
                if needs_placeholder(args[i as int]) {
                    assert(plan_model(plan@) =~= prev.push(plan@.last()@));
                }
            }
        }
        i += 1;
    }
    let r = ItemFn {
        qualifiers,
        ident,
        decl: FnDecl { generics, inputs: inputs_no_patterns, output, variadic },
        block,
    };
    proof {
        assert(r@.decl.inputs =~= captured_inputs_model(before.decl.inputs));
        assert(before.decl.inputs == args);
    }
    Ok((r, plan))
}

/// The statements that carry out `plan`: `let pat = placeholder;` for each
/// entry, in order.
pub fn rebindings(plan: Vec<Capture>) -> (r: Vec<Stmt>)
    ensures
        stmts_model(r) == rebindings_model(plan_model(plan@)),
{
    let ghost orig = plan@;
    let mut out: Vec<Stmt> = Vec::new();
    for capture in it: plan
        invariant
            it.seq() == orig,
            out@.len() == it.index(),
            forall|j: int|
                0 <= j < out@.len() ==> (#[trigger] out@[j])@ == rebinding_model(orig[j]@),
    {
        let Capture { pat, placeholder, ty } = capture;
        out.push(let_stmt(pat, path_expr(Span::CallSite, path_root(false, placeholder))));
    }
    assert(stmts_model(out) =~= rebindings_model(plan_model(orig)));
    out
}

} // verus!
