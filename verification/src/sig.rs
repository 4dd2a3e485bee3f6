//! Function descriptors: what the rewriter reads of a function and writes
//! back.
use crate::expr::{Block, Pat, SpecBlock, SpecPat};
use crate::ty::{
    bounds_model, Ident, Lifetime, SpecIdent, SpecType, SpecTypeParamBound, Type, TypeParamBound,
};
use vstd::prelude::*;

verus! {

/// Model of [`FnArg`].
pub enum SpecFnArg {
    Receiver(u64),
    Captured { pat: SpecPat, ty: SpecType },
    Other(u64),
}

/// A parameter of a function.
#[derive(Debug, PartialEq, Eq)]
pub enum FnArg {
    /// `self`, `&self` or `&mut self`, kept by the front end under a handle.
    Receiver(u64),
    /// `pat: ty`
    Captured { pat: Pat, ty: Type },
    /// A parameter of another form, kept by the front end under a handle.
    Other(u64),
}

impl View for FnArg {
    type V = SpecFnArg;

    open spec fn view(&self) -> SpecFnArg {
        match self {
            FnArg::Receiver(h) => SpecFnArg::Receiver(*h),
            FnArg::Captured { pat, ty } => SpecFnArg::Captured { pat: pat@, ty: ty@ },
            FnArg::Other(h) => SpecFnArg::Other(*h),
        }
    }
}

/// Model of [`LifetimeDef`].
pub struct SpecLifetimeDef {
    pub lifetime: SpecIdent,
    pub bounds: Seq<SpecIdent>,
    pub attrs: Option<u64>,
}

/// The declaration of a lifetime parameter, `'a: 'b + 'c`.
#[derive(Debug, PartialEq, Eq)]
pub struct LifetimeDef {
    pub lifetime: Lifetime,
    pub bounds: Vec<Lifetime>,
    /// The attributes of the parameter, kept by the front end.
    pub attrs: Option<u64>,
}

impl View for LifetimeDef {
    type V = SpecLifetimeDef;

    open spec fn view(&self) -> SpecLifetimeDef {
        SpecLifetimeDef {
            lifetime: self.lifetime@,
            bounds: Seq::new(self.bounds@.len(), |i: int| self.bounds@[i]@),
            attrs: self.attrs,
        }
    }
}

/// Model of [`TypeParam`].
pub struct SpecTypeParam {
    pub ident: SpecIdent,
    pub bounds: Seq<SpecTypeParamBound>,
    pub rest: Option<u64>,
}

/// The declaration of a type parameter, `T: A + 'b`.
#[derive(Debug, PartialEq, Eq)]
pub struct TypeParam {
    pub ident: Ident,
    pub bounds: Vec<TypeParamBound>,
    /// The attributes and the default of the parameter, kept by the front
    /// end.
    pub rest: Option<u64>,
}

impl View for TypeParam {
    type V = SpecTypeParam;

    open spec fn view(&self) -> SpecTypeParam {
        SpecTypeParam { ident: self.ident@, bounds: bounds_model(self.bounds), rest: self.rest }
    }
}

/// Model of [`GenericParam`].
pub enum SpecGenericParam {
    Lifetime(SpecLifetimeDef),
    Type(SpecTypeParam),
    Const(u64),
}

/// A generic parameter.
#[derive(Debug, PartialEq, Eq)]
pub enum GenericParam {
    Lifetime(LifetimeDef),
    Type(TypeParam),
    /// A const parameter, kept by the front end under a handle.
    Const(u64),
}

impl View for GenericParam {
    type V = SpecGenericParam;

    open spec fn view(&self) -> SpecGenericParam {
        match self {
            GenericParam::Lifetime(l) => SpecGenericParam::Lifetime(l@),
            GenericParam::Type(t) => SpecGenericParam::Type(t@),
            GenericParam::Const(h) => SpecGenericParam::Const(*h),
        }
    }
}

/// Model of [`Generics`].
pub struct SpecGenerics {
    pub params: Seq<SpecGenericParam>,
    pub where_clause: Option<u64>,
}

/// The generic parameters of a function; the `where` clause is kept by the
/// front end.
#[derive(Debug, PartialEq, Eq)]
pub struct Generics {
    pub params: Vec<GenericParam>,
    pub where_clause: Option<u64>,
}

impl View for Generics {
    type V = SpecGenerics;

    open spec fn view(&self) -> SpecGenerics {
        SpecGenerics {
            params: Seq::new(self.params@.len(), |i: int| self.params@[i]@),
            where_clause: self.where_clause,
        }
    }
}

/// Model of [`ReturnType`].
pub enum SpecReturnType {
    Omitted,
    Type(SpecType),
}

/// The declared return type of a function.
#[derive(Debug, PartialEq, Eq)]
pub enum ReturnType {
    /// No `-> …` was written.
    Omitted,
    /// `-> ty`
    Type(Type),
}

impl View for ReturnType {
    type V = SpecReturnType;

    open spec fn view(&self) -> SpecReturnType {
        match self {
            ReturnType::Omitted => SpecReturnType::Omitted,
            ReturnType::Type(t) => SpecReturnType::Type(t@),
        }
    }
}

/// Model of [`FnDecl`].
pub struct SpecFnDecl {
    pub generics: SpecGenerics,
    pub inputs: Seq<SpecFnArg>,
    pub output: SpecReturnType,
    pub variadic: bool,
}

/// The signature of a function.
#[derive(Debug, PartialEq, Eq)]
pub struct FnDecl {
    pub generics: Generics,
    pub inputs: Vec<FnArg>,
    pub output: ReturnType,
    pub variadic: bool,
}

/// Model of a list of parameters.
pub open spec fn inputs_model(inputs: Seq<FnArg>) -> Seq<SpecFnArg> {
    Seq::new(inputs.len(), |i: int| inputs[i]@)
}

impl View for FnDecl {
    type V = SpecFnDecl;

    open spec fn view(&self) -> SpecFnDecl {
        SpecFnDecl {
            generics: self.generics@,
            inputs: inputs_model(self.inputs@),
            output: self.output@,
            variadic: self.variadic,
        }
    }
}

/// Model of [`ItemFn`].
pub struct SpecItemFn {
    pub qualifiers: u64,
    pub ident: SpecIdent,
    pub decl: SpecFnDecl,
    pub block: SpecBlock,
}

/// A function.  Its attributes, visibility, constness, safety and ABI are
/// kept by the front end under the handle `qualifiers`.
#[derive(Debug, PartialEq, Eq)]
pub struct ItemFn {
    pub qualifiers: u64,
    pub ident: Ident,
    pub decl: FnDecl,
    pub block: Block,
}

impl View for ItemFn {
    type V = SpecItemFn;

    open spec fn view(&self) -> SpecItemFn {
        SpecItemFn {
            qualifiers: self.qualifiers,
            ident: self.ident@,
            decl: self.decl@,
            block: self.block@,
        }
    }
}

} // verus!
