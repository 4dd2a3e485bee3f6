//! Names, paths, types and bounds: the part of the syntax model that a
//! signature is made of.
//!
//! Every executable type has a mathematical model, a `Spec…` type that holds
//! sequences where the executable type holds vectors and strings.  The view
//! (`@`) of a value is its model, and contracts are stated over models.
use crate::span::Span;
use vstd::prelude::*;

verus! {

/// Model of an identifier or of a lifetime: its text and its position.  The
/// text of a lifetime is written without the leading quote.
pub struct SpecIdent {
    pub name: Seq<char>,
    pub span: Span,
}

/// An identifier.
#[derive(Debug, PartialEq, Eq)]
pub struct Ident {
    pub name: String,
    pub span: Span,
}

impl Ident {
    pub open spec fn model(self) -> SpecIdent {
        SpecIdent { name: self.name@, span: self.span }
    }

    /// The identifier `name` at `span`.
    pub fn new(name: &str, span: Span) -> (r: Ident)
        ensures
            r@ == (SpecIdent { name: name@, span }),
    {
        Ident { name: String::from_str(name), span }
    }

    /// Whether the identifier reads `name`, wherever it stands.
    pub fn is(&self, name: &str) -> (b: bool)
        ensures
            b == (self@.name == name@),
    {
        let other = String::from_str(name);
        self.name == other
    }
}

impl View for Ident {
    type V = SpecIdent;

    open spec fn view(&self) -> SpecIdent {
        self.model()
    }
}

impl Clone for Ident {
    fn clone(&self) -> (r: Ident)
        ensures
            r@ == self@,
    {
        Ident { name: self.name.clone(), span: self.span }
    }
}

/// A lifetime, such as `'a`; `name` holds `a`.
#[derive(Debug, PartialEq, Eq)]
pub struct Lifetime {
    pub name: String,
    pub span: Span,
}

impl Lifetime {
    pub open spec fn model(self) -> SpecIdent {
        SpecIdent { name: self.name@, span: self.span }
    }

    /// The lifetime `'name` at `span`.
    pub fn new(name: &str, span: Span) -> (r: Lifetime)
        ensures
            r@ == (SpecIdent { name: name@, span }),
    {
        Lifetime { name: String::from_str(name), span }
    }
}

impl View for Lifetime {
    type V = SpecIdent;

    open spec fn view(&self) -> SpecIdent {
        self.model()
    }
}

impl Clone for Lifetime {
    fn clone(&self) -> (r: Lifetime)
        ensures
            r@ == self@,
    {
        Lifetime { name: self.name.clone(), span: self.span }
    }
}

/// Model of [`Path`].
pub struct SpecPath {
    pub leading_colon: bool,
    pub segments: Seq<SpecPathSegment>,
}

/// Model of [`PathSegment`].
pub struct SpecPathSegment {
    pub ident: SpecIdent,
    pub arguments: SpecPathArguments,
}

/// Model of [`PathArguments`].
pub enum SpecPathArguments {
    Empty,
    AngleBracketed(Seq<SpecGenericArgument>),
    Other(u64),
}

/// Model of [`GenericArgument`].
pub enum SpecGenericArgument {
    Lifetime(SpecIdent),
    Type(SpecType),
    Binding(SpecIdent, SpecType),
    Other(u64),
}

/// Model of [`Type`].
pub struct SpecType {
    pub span: Span,
    pub kind: SpecTypeKind,
}

/// Model of [`TypeKind`].
pub enum SpecTypeKind {
    Path(SpecPath),
    Projection { base: Box<SpecType>, trait_path: SpecPath, name: SpecIdent },
    Reference { lifetime: Option<SpecIdent>, mutable: bool, elem: Box<SpecType> },
    ImplTrait(Seq<SpecTypeParamBound>),
    Bounds(Seq<SpecTypeParamBound>),
    Infer,
    Other(u64),
}

/// Model of [`TypeParamBound`].
pub enum SpecTypeParamBound {
    Lifetime(SpecIdent),
    Trait(SpecTraitBound),
}

/// Model of [`TraitBound`].
pub struct SpecTraitBound {
    pub span: Span,
    pub prefix: Option<u64>,
    pub path: SpecPath,
}

/// A path such as `::futures::__rt::Box<T>`.
#[derive(Debug, PartialEq, Eq)]
pub struct Path {
    pub leading_colon: bool,
    pub segments: Vec<PathSegment>,
}

/// One segment of a path, with its generic arguments.
#[derive(Debug, PartialEq, Eq)]
pub struct PathSegment {
    pub ident: Ident,
    pub arguments: PathArguments,
}

/// The generic arguments of a path segment.
#[derive(Debug, PartialEq, Eq)]
pub enum PathArguments {
    /// No arguments.
    Empty,
    /// `<A, B = C, 'd>`
    AngleBracketed(Vec<GenericArgument>),
    /// Arguments of another form, kept by the front end under a handle.
    Other(u64),
}

/// One generic argument.
#[derive(Debug, PartialEq, Eq)]
pub enum GenericArgument {
    Lifetime(Lifetime),
    Type(Type),
    /// `Name = Type`
    Binding(Ident, Type),
    /// An argument of another form, kept by the front end under a handle.
    Other(u64),
}

/// A type with the position that diagnostics about it point to.
#[derive(Debug, PartialEq, Eq)]
pub struct Type {
    pub span: Span,
    pub kind: TypeKind,
}

/// The forms of type that the transforms tell apart.
#[derive(Debug, PartialEq, Eq)]
pub enum TypeKind {
    /// A named type.
    Path(Path),
    /// `<base as trait_path>::name`
    Projection { base: Box<Type>, trait_path: Path, name: Ident },
    /// `&'lifetime mut elem`
    Reference { lifetime: Option<Lifetime>, mutable: bool, elem: Box<Type> },
    /// `impl A + B`
    ImplTrait(Vec<TypeParamBound>),
    /// `A + B` in type position, without `impl`.
    Bounds(Vec<TypeParamBound>),
    /// `_`
    Infer,
    /// A type of another form, kept by the front end under a handle.
    Other(u64),
}

/// A bound on a type parameter or in an `impl Trait` type.
#[derive(Debug, PartialEq, Eq)]
pub enum TypeParamBound {
    Lifetime(Lifetime),
    Trait(TraitBound),
}

/// A trait used as a bound.  What stands before the path (`?`, `for<'a>`) is
/// kept by the front end under the handle `prefix`.
#[derive(Debug, PartialEq, Eq)]
pub struct TraitBound {
    pub span: Span,
    pub prefix: Option<u64>,
    pub path: Path,
}

impl Path {
    pub open spec fn model(self) -> SpecPath
        decreases self,
    {
        SpecPath {
            leading_colon: self.leading_colon,
            segments: Seq::new(
                self.segments@.len(),
                |i: int|
                    if 0 <= i < self.segments@.len() {
                        self.segments@[i].model()
                    } else {
                        arbitrary()
                    },
            ),
        }
    }
}

impl PathSegment {
    pub open spec fn model(self) -> SpecPathSegment
        decreases self,
    {
        SpecPathSegment { ident: self.ident@, arguments: self.arguments.model() }
    }
}

impl PathArguments {
    pub open spec fn model(self) -> SpecPathArguments
        decreases self,
    {
        match self {
            PathArguments::Empty => SpecPathArguments::Empty,
            PathArguments::AngleBracketed(args) => SpecPathArguments::AngleBracketed(
                Seq::new(
                    args@.len(),
                    |i: int|
                        if 0 <= i < args@.len() {
                            args@[i].model()
                        } else {
                            arbitrary()
                        },
                ),
            ),
            PathArguments::Other(h) => SpecPathArguments::Other(h),
        }
    }
}

impl GenericArgument {
    pub open spec fn model(self) -> SpecGenericArgument
        decreases self,
    {
        match self {
            GenericArgument::Lifetime(l) => SpecGenericArgument::Lifetime(l@),
            GenericArgument::Type(t) => SpecGenericArgument::Type(t.model()),
            GenericArgument::Binding(n, t) => SpecGenericArgument::Binding(n@, t.model()),
            GenericArgument::Other(h) => SpecGenericArgument::Other(h),
        }
    }
}

impl Type {
    pub open spec fn model(self) -> SpecType
        decreases self,
    {
        SpecType { span: self.span, kind: self.kind.model() }
    }
}

impl TypeKind {
    pub open spec fn model(self) -> SpecTypeKind
        decreases self,
    {
        match self {
            TypeKind::Path(p) => SpecTypeKind::Path(p.model()),
            TypeKind::Projection { base, trait_path, name } => SpecTypeKind::Projection {
                base: Box::new((*base).model()),
                trait_path: trait_path.model(),
                name: name@,
            },
            TypeKind::Reference { lifetime, mutable, elem } => SpecTypeKind::Reference {
                lifetime: match lifetime {
                    Some(l) => Some(l@),
                    None => None,
                },
                mutable,
                elem: Box::new((*elem).model()),
            },
            TypeKind::ImplTrait(bounds) => SpecTypeKind::ImplTrait(bounds_model(bounds)),
            TypeKind::Bounds(bounds) => SpecTypeKind::Bounds(bounds_model(bounds)),
            TypeKind::Infer => SpecTypeKind::Infer,
            TypeKind::Other(h) => SpecTypeKind::Other(h),
        }
    }
}

/// Model of a list of bounds: the models of its members, in order.
pub open spec fn bounds_model(bounds: Vec<TypeParamBound>) -> Seq<SpecTypeParamBound>
    decreases bounds,
{
    Seq::new(
        bounds@.len(),
        |i: int|
            if 0 <= i < bounds@.len() {
                bounds@[i].model()
            } else {
                arbitrary()
            },
    )
}

impl TypeParamBound {
    pub open spec fn model(self) -> SpecTypeParamBound
        decreases self,
    {
        match self {
            TypeParamBound::Lifetime(l) => SpecTypeParamBound::Lifetime(l@),
            TypeParamBound::Trait(t) => SpecTypeParamBound::Trait(t.model()),
        }
    }
}

impl TraitBound {
    pub open spec fn model(self) -> SpecTraitBound
        decreases self,
    {
        SpecTraitBound { span: self.span, prefix: self.prefix, path: self.path.model() }
    }
}

impl View for Path {
    type V = SpecPath;

    open spec fn view(&self) -> SpecPath {
        self.model()
    }
}

impl View for PathSegment {
    type V = SpecPathSegment;

    open spec fn view(&self) -> SpecPathSegment {
        self.model()
    }
}

impl View for PathArguments {
    type V = SpecPathArguments;

    open spec fn view(&self) -> SpecPathArguments {
        self.model()
    }
}

impl View for GenericArgument {
    type V = SpecGenericArgument;

    open spec fn view(&self) -> SpecGenericArgument {
        self.model()
    }
}

impl View for Type {
    type V = SpecType;

    open spec fn view(&self) -> SpecType {
        self.model()
    }
}

impl View for TypeKind {
    type V = SpecTypeKind;

    open spec fn view(&self) -> SpecTypeKind {
        self.model()
    }
}

impl View for TypeParamBound {
    type V = SpecTypeParamBound;

    open spec fn view(&self) -> SpecTypeParamBound {
        self.model()
    }
}

impl View for TraitBound {
    type V = SpecTraitBound;

    open spec fn view(&self) -> SpecTraitBound {
        self.model()
    }
}

impl Clone for Path {
    fn clone(&self) -> (r: Path)
        ensures
            r@ == self@,
        decreases self,
    {
        let mut segments: Vec<PathSegment> = Vec::new();
        let mut i: usize = 0;
        while i < self.segments.len()
            invariant
                i <= self.segments@.len(),
                segments@.len() == i,
                forall|j: int| 0 <= j < i ==> (#[trigger] segments@[j])@ == self.segments@[j]@,
            decreases self.segments@.len() - i,
        {
            segments.push(self.segments[i].clone());
            i += 1;
        }
        let r = Path { leading_colon: self.leading_colon, segments };
        assert(r@.segments =~= self@.segments);
        r
    }
}

impl Clone for PathSegment {
    fn clone(&self) -> (r: PathSegment)
        ensures
            r@ == self@,
        decreases self,
    {
        PathSegment { ident: self.ident.clone(), arguments: self.arguments.clone() }
    }
}

impl Clone for PathArguments {
    fn clone(&self) -> (r: PathArguments)
        ensures
            r@ == self@,
        decreases self,
    {
        match self {
            PathArguments::Empty => PathArguments::Empty,
            PathArguments::AngleBracketed(args) => {
                let mut out: Vec<GenericArgument> = Vec::new();
                let mut i: usize = 0;
                while i < args.len()
                    invariant
                        i <= args@.len(),
                        out@.len() == i,
                        forall|j: int| 0 <= j < i ==> (#[trigger] out@[j])@ == args@[j]@,
                        forall|j: int|
                            0 <= j < args@.len() ==> decreases_to!(self => #[trigger] args@[j]),
                    decreases args@.len() - i,
                {
                    out.push(args[i].clone());
                    i += 1;
                }
                let r = PathArguments::AngleBracketed(out);
                assert(r@->AngleBracketed_0 =~= self@->AngleBracketed_0);
                r
            },
            PathArguments::Other(h) => PathArguments::Other(*h),
        }
    }
}

impl Clone for GenericArgument {
    fn clone(&self) -> (r: GenericArgument)
        ensures
            r@ == self@,
        decreases self,
    {
        match self {
            GenericArgument::Lifetime(l) => GenericArgument::Lifetime(l.clone()),
            GenericArgument::Type(t) => GenericArgument::Type(t.clone()),
            GenericArgument::Binding(n, t) => GenericArgument::Binding(n.clone(), t.clone()),
            GenericArgument::Other(h) => GenericArgument::Other(*h),
        }
    }
}

impl Clone for Type {
    fn clone(&self) -> (r: Type)
        ensures
            r@ == self@,
        decreases self,
    {
        Type { span: self.span, kind: self.kind.clone() }
    }
}

/// A copy of a list of bounds.
pub(crate) fn clone_bounds(bounds: &Vec<TypeParamBound>) -> (r: Vec<TypeParamBound>)
    ensures
        bounds_model(r) == bounds_model(*bounds),
    decreases bounds,
{
    let mut out: Vec<TypeParamBound> = Vec::new();
    let mut i: usize = 0;
    while i < bounds.len()
        invariant
            i <= bounds@.len(),
            out@.len() == i,
            forall|j: int| 0 <= j < i ==> (#[trigger] out@[j])@ == bounds@[j]@,
        decreases bounds@.len() - i,
    {
        out.push(bounds[i].clone());
        i += 1;
    }
    assert(bounds_model(out) =~= bounds_model(*bounds));
    out
}

impl Clone for TypeKind {
    fn clone(&self) -> (r: TypeKind)
        ensures
            r@ == self@,
        decreases self,
    {
        match self {
            TypeKind::Path(p) => TypeKind::Path(p.clone()),
            TypeKind::Projection { base, trait_path, name } => TypeKind::Projection {
                base: Box::new((&**base).clone()),
                trait_path: trait_path.clone(),
                name: name.clone(),
            },
            TypeKind::Reference { lifetime, mutable, elem } => TypeKind::Reference {
                lifetime: match lifetime {
                    Some(l) => Some(l.clone()),
                    None => None,
                },
                mutable: *mutable,
                elem: Box::new((&**elem).clone()),
            },
            TypeKind::ImplTrait(bounds) => TypeKind::ImplTrait(clone_bounds(bounds)),
            TypeKind::Bounds(bounds) => TypeKind::Bounds(clone_bounds(bounds)),
            TypeKind::Infer => TypeKind::Infer,
            TypeKind::Other(h) => TypeKind::Other(*h),
        }
    }
}

impl Clone for TypeParamBound {
    fn clone(&self) -> (r: TypeParamBound)
        ensures
            r@ == self@,
        decreases self,
    {
        match self {
            TypeParamBound::Lifetime(l) => TypeParamBound::Lifetime(l.clone()),
            TypeParamBound::Trait(t) => TypeParamBound::Trait(t.clone()),
        }
    }
}

impl Clone for TraitBound {
    fn clone(&self) -> (r: TraitBound)
        ensures
            r@ == self@,
        decreases self,
    {
        TraitBound { span: self.span, prefix: self.prefix, path: self.path.clone() }
    }
}

} // verus!
