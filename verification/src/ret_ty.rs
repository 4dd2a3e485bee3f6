//! Rewriting of the declared return type into the opaque type that the
//! rewritten function returns.
//!
//! The steps: the declared type becomes `impl Trait`; a lifetime that stands
//! for the returned value is added and every borrowed argument and every
//! generic parameter is made to outlive it; and where `boxed` was given the
//! opaque type becomes a box of the same bounds.
use crate::async_macro::{
    default_lifetime_model, trait_to_return_model, ExpandError, Expander, Mode, ModeKind,
};
use crate::make::{clone_opt_type, generic_args1, opt_type_model, path_args, path_args_model, ty};
use crate::sig::{
    FnArg, FnDecl, GenericParam, Generics, ItemFn, LifetimeDef, ReturnType, SpecFnArg, SpecFnDecl,
    SpecGenericParam, SpecGenerics, SpecItemFn, SpecLifetimeDef, SpecReturnType, SpecTypeParam,
    TypeParam,
};
use crate::span::Span;
use crate::ty::{
    bounds_model, GenericArgument, Lifetime, SpecGenericArgument, SpecIdent, SpecTraitBound,
    SpecType, SpecTypeKind, SpecTypeParamBound, TraitBound, Type, TypeKind, TypeParamBound,
};
use crate::util::Quoter;
use vstd::prelude::*;

verus! {

/// The declared return type as an opaque type, or the reason why there is
/// none: the function declares no return type, or one of the wrong shape.
pub open spec fn ret_ty_to_impl_trait_model(
    kind: ModeKind,
    for_boxed: bool,
    ty: SpecReturnType,
    brace_token: Span,
    item: Option<SpecType>,
) -> Result<SpecReturnType, ExpandError> {
    match ty {
        SpecReturnType::Omitted => Err(ExpandError::NoReturnType(brace_token)),
        SpecReturnType::Type(t) => match trait_to_return_model(
            kind,
            for_boxed,
            brace_token,
            t,
            item,
        ) {
            Ok(t) => Ok(SpecReturnType::Type(t)),
            Err(e) => Err(e),
        },
    }
}

/// Whether a lifetime is among `bounds`.
pub open spec fn has_lifetime_bound(bounds: Seq<SpecTypeParamBound>) -> bool {
    exists|i: int| 0 <= i < bounds.len() && #[trigger] bounds[i] is Lifetime
}

/// Whether `ty` is `-> impl …`.
pub open spec fn is_impl_trait(ty: SpecReturnType) -> bool {
    ty matches SpecReturnType::Type(t) && t.kind is ImplTrait
}

/// The bounds of `-> impl bounds`.
pub open spec fn impl_bounds(ty: SpecReturnType) -> Seq<SpecTypeParamBound>
    recommends
        is_impl_trait(ty),
{
    ty->Type_0.kind->ImplTrait_0
}

/// The lifetime of the returned value, at the site of the invocation.
pub open spec fn ret_lifetime_model(kind: ModeKind) -> SpecIdent {
    SpecIdent { name: default_lifetime_model(kind), span: Span::CallSite }
}

/// The parameter with the lifetime `lt` on its type, where that is a
/// reference without a lifetime: `&str` becomes `&'lt str`.
pub open spec fn bind_reference_model(arg: SpecFnArg, lt: SpecIdent) -> SpecFnArg {
    match arg {
        SpecFnArg::Captured { pat, ty } => match ty.kind {
            SpecTypeKind::Reference { lifetime, mutable, elem } => if lifetime is None {
                SpecFnArg::Captured {
                    pat,
                    ty: SpecType {
                        span: ty.span,
                        kind: SpecTypeKind::Reference { lifetime: Some(lt), mutable, elem },
                    },
                }
            } else {
                arg
            },
            _ => arg,
        },
        _ => arg,
    }
}

/// The generic parameter made to outlive `lt`: a lifetime gets the bound
/// `lt`, and so does a type parameter that has no lifetime bound yet; a const
/// parameter is left alone.
pub open spec fn outlive_model(param: SpecGenericParam, lt: SpecIdent) -> SpecGenericParam {
    match param {
        SpecGenericParam::Lifetime(def) => SpecGenericParam::Lifetime(
            SpecLifetimeDef { lifetime: def.lifetime, bounds: def.bounds.push(lt), attrs: def.attrs },
        ),
        SpecGenericParam::Type(p) => if has_lifetime_bound(p.bounds) {
            param
        } else {
            SpecGenericParam::Type(
                SpecTypeParam {
                    ident: p.ident,
                    bounds: p.bounds.push(SpecTypeParamBound::Lifetime(lt)),
                    rest: p.rest,
                },
            )
        },
        SpecGenericParam::Const(h) => param,
    }
}

/// The declaration of the lifetime `lt`, without bounds.
pub open spec fn lifetime_param_model(lt: SpecIdent) -> SpecGenericParam {
    SpecGenericParam::Lifetime(SpecLifetimeDef { lifetime: lt, bounds: Seq::empty(), attrs: None })
}

/// The signature with the lifetime of the returned value added.
///
/// Where the opaque return type already names a lifetime, the user has said
/// how long the value lives, and the signature is left as it is.  Otherwise
/// the lifetime of the mode is declared first among the generic parameters,
/// each borrowed argument without a lifetime borrows for it, each other
/// parameter outlives it, and it is added to the bounds of the return type.
/// The name of that lifetime is fixed and is not looked for among the
/// parameters: a function that declares a lifetime of the same name itself
/// gets a second declaration of it, which the compiler reports.
pub open spec fn add_ret_lt_bounds_model(kind: ModeKind, decl: SpecFnDecl) -> SpecFnDecl
    recommends
        is_impl_trait(decl.output),
{
    let bounds = impl_bounds(decl.output);
    if has_lifetime_bound(bounds) {
        decl
    } else {
        let lt = ret_lifetime_model(kind);
        SpecFnDecl {
            generics: SpecGenerics {
                params: seq![lifetime_param_model(lt)] + Seq::new(
                    decl.generics.params.len(),
                    |i: int| outlive_model(decl.generics.params[i], lt),
                ),
                where_clause: decl.generics.where_clause,
            },
            inputs: Seq::new(
                decl.inputs.len(),
                |i: int| bind_reference_model(decl.inputs[i], lt),
            ),
            output: SpecReturnType::Type(
                SpecType {
                    span: decl.output->Type_0.span,
                    kind: SpecTypeKind::ImplTrait(bounds.push(SpecTypeParamBound::Lifetime(lt))),
                },
            ),
            variadic: decl.variadic,
        }
    }
}

/// `Send`, at `span`.
pub open spec fn send_bound_model(span: Span) -> SpecTypeParamBound {
    let p = Quoter { span, pin_crates: false };
    SpecTypeParamBound::Trait(
        SpecTraitBound { span, prefix: None, path: p.root_model(false, "Send"@) },
    )
}

/// The opaque return type as it is finally declared.
///
/// Without `boxed` it is the `impl` type itself.  With `boxed`, given as the
/// position of the flag, it is `::futures::__rt::Box<bounds>`, every token of
/// it at that position, and `Send` is added to the bounds where `send` is
/// set.
pub open spec fn sanitize_returned_trait_model(
    boxed: Option<Span>,
    send: bool,
    ty: SpecReturnType,
) -> SpecReturnType
    recommends
        is_impl_trait(ty),
{
    match boxed {
        None => ty,
        Some(span) => {
            let p = Quoter { span, pin_crates: false };
            let bounds = if send {
                impl_bounds(ty).push(send_bound_model(span))
            } else {
                impl_bounds(ty)
            };
            SpecReturnType::Type(
                SpecType {
                    span,
                    kind: SpecTypeKind::Path(
                        path_args_model(
                            p.join_model(
                                p.join_model(p.root_model(true, "futures"@), "__rt"@),
                                "Box"@,
                            ),
                            seq![
                                SpecGenericArgument::Type(
                                    SpecType {
                                        span: ty->Type_0.span,
                                        kind: SpecTypeKind::Bounds(bounds),
                                    },
                                ),
                            ],
                        ),
                    ),
                },
            )
        },
    }
}

/// The function with its return type rewritten: the three steps in turn.
pub open spec fn handle_ret_ty_model(
    kind: ModeKind,
    boxed: Option<Span>,
    send: bool,
    item: Option<SpecType>,
    f: SpecItemFn,
) -> Result<SpecItemFn, ExpandError> {
    match ret_ty_to_impl_trait_model(kind, boxed is Some, f.decl.output, f.block.span, item) {
        Err(e) => Err(e),
        Ok(output) => {
            let bounded = add_ret_lt_bounds_model(
                kind,
                SpecFnDecl {
                    generics: f.decl.generics,
                    inputs: f.decl.inputs,
                    output,
                    variadic: f.decl.variadic,
                },
            );
            Ok(
                SpecItemFn {
                    qualifiers: f.qualifiers,
                    ident: f.ident,
                    decl: SpecFnDecl {
                        generics: bounded.generics,
                        inputs: bounded.inputs,
                        output: sanitize_returned_trait_model(boxed, send, bounded.output),
                        variadic: bounded.variadic,
                    },
                    block: f.block,
                },
            )
        },
    }
}

/// A return type on which the user has named a lifetime keeps the signature
/// as it is: no lifetime is synthesized.
pub proof fn lemma_explicit_lifetime_is_kept(kind: ModeKind, decl: SpecFnDecl)
    requires
        is_impl_trait(decl.output),
        has_lifetime_bound(impl_bounds(decl.output)),
    ensures
        add_ret_lt_bounds_model(kind, decl) == decl,
{
}

/// The lifetime of the returned value is added at most once: after the
/// step the return type names a lifetime, and the step applied again
/// changes nothing.
pub proof fn lemma_lifetime_is_added_once(kind: ModeKind, decl: SpecFnDecl)
    requires
        is_impl_trait(decl.output),
    ensures
        is_impl_trait(add_ret_lt_bounds_model(kind, decl).output),
        has_lifetime_bound(impl_bounds(add_ret_lt_bounds_model(kind, decl).output)),
        add_ret_lt_bounds_model(kind, add_ret_lt_bounds_model(kind, decl))
            == add_ret_lt_bounds_model(kind, decl),
{
    let bounds = impl_bounds(decl.output);
    if !has_lifetime_bound(bounds) {
        let added = bounds.push(SpecTypeParamBound::Lifetime(ret_lifetime_model(kind)));
        assert(added[bounds.len() as int] is Lifetime);
        assert(impl_bounds(add_ret_lt_bounds_model(kind, decl).output) == added);
    }
}

/// Where the signature had no lifetime on its return type, the step declares
/// exactly one more generic parameter, the lifetime of the mode, in front of
/// the others.
pub proof fn lemma_one_lifetime_parameter_is_added(kind: ModeKind, decl: SpecFnDecl)
    requires
        is_impl_trait(decl.output),
        !has_lifetime_bound(impl_bounds(decl.output)),
    ensures
        add_ret_lt_bounds_model(kind, decl).generics.params.len() == decl.generics.params.len()
            + 1,
        add_ret_lt_bounds_model(kind, decl).generics.params[0] == lifetime_param_model(
            ret_lifetime_model(kind),
        ),
{
}

/// The position of `impl` and the bounds of `-> impl bounds`.
fn impl_trait_parts(ty: ReturnType) -> (r: (Span, Vec<TypeParamBound>))
    requires
        is_impl_trait(ty@),
    ensures
        ty@ == SpecReturnType::Type(
            SpecType { span: r.0, kind: SpecTypeKind::ImplTrait(bounds_model(r.1)) },
        ),
{
    match ty {
        ReturnType::Type(t) => {
            let Type { span, kind } = t;
            match kind {
                TypeKind::ImplTrait(bounds) => (span, bounds),
                _ => unreached(),
            }
        },
        ReturnType::Omitted => unreached(),
    }
}

/// Whether a lifetime is among `bounds`.
fn any_lifetime_bound(bounds: &Vec<TypeParamBound>) -> (b: bool)
    ensures
        b == has_lifetime_bound(bounds_model(*bounds)),
{
    let ghost all = bounds_model(*bounds);
    let mut i: usize = 0;
    while i < bounds.len()
        invariant
            i <= bounds@.len(),
            all == bounds_model(*bounds),
            forall|j: int| 0 <= j < i ==> !(#[trigger] all[j] is Lifetime),
        decreases bounds@.len() - i,
    {
        match &bounds[i] {
            TypeParamBound::Lifetime(_) => {
                assert(all[i as int] is Lifetime);
                return true;
            },
            TypeParamBound::Trait(_) => {},
        }
        i += 1;
    }
    false
}

/// The parameter with `lt` on its type, where that is a reference without
/// a lifetime.
fn bind_reference(arg: FnArg, lt: &Lifetime) -> (r: FnArg)
    ensures
        r@ == bind_reference_model(arg@, lt@),
{
    match arg {
        FnArg::Captured { pat, ty } => {
            let Type { span, kind } = ty;
            match kind {
                TypeKind::Reference { lifetime, mutable, elem } => match lifetime {
                    None => FnArg::Captured {
                        pat,
                        ty: Type {
                            span,
                            kind: TypeKind::Reference { lifetime: Some(lt.clone()), mutable, elem },
                        },
                    },
                    Some(l) => FnArg::Captured {
                        pat,
                        ty: Type {
                            span,
                            kind: TypeKind::Reference { lifetime: Some(l), mutable, elem },
                        },
                    },
                },
                other => FnArg::Captured { pat, ty: Type { span, kind: other } },
            }
        },
        other => other,
    }
}

/// The generic parameter made to outlive `lt`.
fn outlive(param: GenericParam, lt: &Lifetime) -> (r: GenericParam)
    ensures
        r@ == outlive_model(param@, lt@),
{
    match param {
        GenericParam::Lifetime(def) => {
            let LifetimeDef { lifetime, bounds, attrs } = def;
            let mut bounds = bounds;
            let ghost before = Seq::new(bounds@.len(), |i: int| bounds@[i]@);
            bounds.push(lt.clone());
            let r = GenericParam::Lifetime(LifetimeDef { lifetime, bounds, attrs });
            assert(r@->Lifetime_0.bounds =~= before.push(lt@));
            r
        },
        GenericParam::Type(p) => {
            if any_lifetime_bound(&p.bounds) {
                GenericParam::Type(p)
            } else {
                let TypeParam { ident, bounds, rest } = p;
                let mut bounds = bounds;
                let ghost before = bounds_model(bounds);
                bounds.push(TypeParamBound::Lifetime(lt.clone()));
                assert(bounds_model(bounds) =~= before.push(SpecTypeParamBound::Lifetime(lt@)));
                GenericParam::Type(TypeParam { ident, bounds, rest })
            }
        },
        GenericParam::Const(h) => GenericParam::Const(h),
    }
}

impl<M: Mode> Expander<M> {
    /// Rewrites the return type of `f`.
    pub fn handle_ret_ty(&self, f: ItemFn) -> (r: Result<ItemFn, ExpandError>)
        ensures
            match r {
                Ok(g) => handle_ret_ty_model(
                    self.mode.kind(),
                    self.boxed,
                    self.send,
                    opt_type_model(self.item),
                    f@,
                ) == Ok::<SpecItemFn, ExpandError>(g@),
                Err(e) => handle_ret_ty_model(
                    self.mode.kind(),
                    self.boxed,
                    self.send,
                    opt_type_model(self.item),
                    f@,
                ) == Err::<SpecItemFn, ExpandError>(e),
            },
    {
        let ItemFn { qualifiers, ident, decl, block } = f;
        let brace_token = block.span;
        let FnDecl { generics, inputs, output, variadic } = decl;
        let output = match self.ret_ty_to_impl_trait(output, brace_token) {
            Ok(o) => o,
            Err(e) => {
                return Err(e);
            },
        };
        let decl = self.add_ret_lt_bounds(FnDecl { generics, inputs, output, variadic });
        let FnDecl { generics, inputs, output, variadic } = decl;
        let output = self.sanitize_returned_trait(output);
        Ok(ItemFn { qualifiers, ident, decl: FnDecl { generics, inputs, output, variadic }, block })
    }

    /// Step 1: the declared type becomes `impl Trait`.
    pub fn ret_ty_to_impl_trait(&self, ty: ReturnType, brace_token: Span) -> (r: Result<
        ReturnType,
        ExpandError,
    >)
        ensures
            match r {
                Ok(t) => ret_ty_to_impl_trait_model(
                    self.mode.kind(),
                    self.boxed is Some,
                    ty@,
                    brace_token,
                    opt_type_model(self.item),
                ) == Ok::<SpecReturnType, ExpandError>(t@) && is_impl_trait(t@),
                Err(e) => ret_ty_to_impl_trait_model(
                    self.mode.kind(),
                    self.boxed is Some,
                    ty@,
                    brace_token,
                    opt_type_model(self.item),
                ) == Err::<SpecReturnType, ExpandError>(e),
            },
    {
        match ty {
            ReturnType::Omitted => Err(ExpandError::NoReturnType(brace_token)),
            ReturnType::Type(t) => match self.mode.mk_trait_to_return(
                self.boxed.is_some(),
                brace_token,
                t,
                clone_opt_type(&self.item),
            ) {
                Ok(t) => Ok(ReturnType::Type(t)),
                Err(e) => Err(e),
            },
        }
    }

    /// Steps 2 and 3: adds the lifetime of the returned value and makes
    /// what the function borrows outlive it.
    pub fn add_ret_lt_bounds(&self, decl: FnDecl) -> (r: FnDecl)
        requires
            is_impl_trait(decl@.output),
        ensures
            r@ == add_ret_lt_bounds_model(self.mode.kind(), decl@),
            is_impl_trait(r@.output),
    {
        let ghost before = decl@;
        let FnDecl { generics, inputs, output, variadic } = decl;
        let (span, bounds) = impl_trait_parts(output);
        if any_lifetime_bound(&bounds) {
            return FnDecl {
                generics,
                inputs,
                output: ReturnType::Type(Type { span, kind: TypeKind::ImplTrait(bounds) }),
                variadic,
            };
        }
        let ret_lt = Lifetime::new(self.mode.default_lifetime(), Span::CallSite);
        let ghost lt = ret_lt@;

        let ghost orig_inputs = inputs@;
        let mut new_inputs: Vec<FnArg> = Vec::new();
        for arg in it: inputs
            invariant
                it.seq() == orig_inputs,
                lt == ret_lt@,
                new_inputs@.len() == it.index(),
                forall|j: int|
                    0 <= j < new_inputs@.len() ==> (#[trigger] new_inputs@[j])@
                        == bind_reference_model(orig_inputs[j]@, lt),
        {
            new_inputs.push(bind_reference(arg, &ret_lt));
        }

        let Generics { params, where_clause } = generics;
        let ghost orig_params = params@;
        let mut new_params: Vec<GenericParam> = Vec::new();
        new_params.push(
            GenericParam::Lifetime(
                LifetimeDef { lifetime: ret_lt.clone(), bounds: Vec::new(), attrs: None },
            ),
        );
        assert(new_params@[0]@ == lifetime_param_model(lt)) by {
            assert(new_params@[0]@->Lifetime_0.bounds =~= Seq::empty());
        }
        for p in it: params
            invariant
                it.seq() == orig_params,
                lt == ret_lt@,
                new_params@.len() == it.index() + 1,
                new_params@[0]@ == lifetime_param_model(lt),
                forall|k: int|
                    1 <= k < new_params@.len() ==> (#[trigger] new_params@[k])@ == outlive_model(
                        orig_params[k - 1]@,
                        lt,
                    ),
        {
            new_params.push(outlive(p, &ret_lt));
        }

        let mut bounds = bounds;
        let ghost old_bounds = bounds_model(bounds);
        bounds.push(TypeParamBound::Lifetime(ret_lt));
        assert(bounds_model(bounds) =~= old_bounds.push(SpecTypeParamBound::Lifetime(lt)));

        let r = FnDecl {
            generics: Generics { params: new_params, where_clause },
            inputs: new_inputs,
            output: ReturnType::Type(Type { span, kind: TypeKind::ImplTrait(bounds) }),
            variadic,
        };
        proof {
            let m = add_ret_lt_bounds_model(self.mode.kind(), before);
            assert(r@.inputs =~= m.inputs);
            assert(r@.generics.params =~= m.generics.params);
        }
        r
    }

    /// Step 4: boxes the opaque type where `boxed` was given.
    pub fn sanitize_returned_trait(&self, ty: ReturnType) -> (r: ReturnType)
        requires
            is_impl_trait(ty@),
        ensures
            r@ == sanitize_returned_trait_model(self.boxed, self.send, ty@),
    {
        let boxed = match self.boxed {
            Some(boxed) => boxed,
            None => {
                return ty;
            },
        };
        let (span, bounds) = impl_trait_parts(ty);
        let p = Quoter::new(boxed);
        let mut bounds = bounds;
        if self.send {
            let ghost before = bounds_model(bounds);
            bounds.push(
                TypeParamBound::Trait(
                    TraitBound { span: boxed, prefix: None, path: p.root(false, "Send") },
                ),
            );
            assert(bounds_model(bounds) =~= before.push(send_bound_model(boxed)));
        }
        let arg = GenericArgument::Type(crate::make::ty(span, TypeKind::Bounds(bounds)));
        let path = path_args(
            p.join(p.join(p.root(true, "futures"), "__rt"), "Box"),
            generic_args1(arg),
        );
        ReturnType::Type(crate::make::ty(boxed, TypeKind::Path(path)))
    }
}

} // verus!
