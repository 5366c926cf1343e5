//! The self-type rewriter: a recursive substitution visitor over a syntactic
//! type-expression grammar. Every occurrence of the self-placeholder
//! identifier, at any nesting depth, is replaced by the concrete target name
//! and, where generic arguments were supplied, receives them.

use vstd::prelude::*;

verus! {

/// A syntactic type expression: one case per grammar production the
/// rewriter traverses.
#[derive(Debug, PartialEq, Eq)]
pub enum TypeExpr {
    /// A path type such as `a::b::C<T>`.
    Path(TypePath),
    /// A reference `&T` or `&'a mut T`: lifetime, mutability, referent.
    Reference(Option<String>, bool, Box<TypeExpr>),
    /// A tuple `(A, B, C)`.
    Tuple(Vec<TypeExpr>),
    /// A slice `[T]`.
    Slice(Box<TypeExpr>),
    /// An array `[T; n]`.
    Array(Box<TypeExpr>, u64),
    /// A raw pointer `*const T` or `*mut T`: mutability, pointee.
    Ptr(bool, Box<TypeExpr>),
    /// A parenthesized group around another type.
    Group(Box<TypeExpr>),
    /// The never type `!`.
    Never,
    /// A trait object `dyn A + B`: one path per bound.
    TraitObject(Vec<TypePath>),
    /// An opaque type `impl A + B`: one path per bound.
    ImplTrait(Vec<TypePath>),
    /// A function pointer `fn(A, B) -> C`: parameters and optional return.
    BareFn(Vec<TypeExpr>, Option<Box<TypeExpr>>),
}

/// A path: its segments, in order.
#[derive(Debug, PartialEq, Eq)]
pub struct TypePath {
    pub segments: Vec<PathSegment>,
}

/// One path segment: an identifier and its generic arguments.
#[derive(Debug, PartialEq, Eq)]
pub struct PathSegment {
    pub ident: String,
    pub arguments: Vec<GenericArgument>,
}

/// One generic argument: a lifetime token or a type.
#[derive(Debug, PartialEq, Eq)]
pub enum GenericArgument {
    Lifetime(String),
    Type(TypeExpr),
}

/// The mathematical model of a type expression.
pub enum TypeModel {
    Path(Seq<SegmentModel>),
    Reference(Option<Seq<char>>, bool, Box<TypeModel>),
    Tuple(Seq<TypeModel>),
    Slice(Box<TypeModel>),
    Array(Box<TypeModel>, nat),
    Ptr(bool, Box<TypeModel>),
    Group(Box<TypeModel>),
    Never,
    TraitObject(Seq<Seq<SegmentModel>>),
    ImplTrait(Seq<Seq<SegmentModel>>),
    BareFn(Seq<TypeModel>, Option<Box<TypeModel>>),
}

/// The mathematical model of a path segment.
pub struct SegmentModel {
    pub ident: Seq<char>,
    pub args: Seq<ArgModel>,
}

/// The mathematical model of a generic argument.
pub enum ArgModel {
    Lifetime(Seq<char>),
    Type(TypeModel),
}

pub open spec fn type_model(t: TypeExpr) -> TypeModel
    decreases t,
{
    match t {
        TypeExpr::Path(p) => TypeModel::Path(segment_models(p.segments@)),
        TypeExpr::Reference(lt, m, inner) => TypeModel::Reference(
            match lt {
                Some(l) => Some(l@),
                None => None,
            },
            m,
            Box::new(type_model(*inner)),
        ),
        TypeExpr::Tuple(items) => TypeModel::Tuple(type_models(items@)),
        TypeExpr::Slice(inner) => TypeModel::Slice(Box::new(type_model(*inner))),
        TypeExpr::Array(inner, n) => TypeModel::Array(Box::new(type_model(*inner)), n as nat),
        TypeExpr::Ptr(m, inner) => TypeModel::Ptr(m, Box::new(type_model(*inner))),
        TypeExpr::Group(inner) => TypeModel::Group(Box::new(type_model(*inner))),
        TypeExpr::Never => TypeModel::Never,
        TypeExpr::TraitObject(bounds) => TypeModel::TraitObject(path_models(bounds@)),
        TypeExpr::ImplTrait(bounds) => TypeModel::ImplTrait(path_models(bounds@)),
        TypeExpr::BareFn(params, ret) => TypeModel::BareFn(
            type_models(params@),
            match ret {
                Some(r) => Some(Box::new(type_model(*r))),
                None => None,
            },
        ),
    }
}

pub open spec fn type_models(s: Seq<TypeExpr>) -> Seq<TypeModel>
    decreases s,
{
    if s.len() == 0 {
        Seq::empty()
    } else {
        type_models(s.drop_last()).push(type_model(s.last()))
    }
}

pub open spec fn path_models(s: Seq<TypePath>) -> Seq<Seq<SegmentModel>>
    decreases s,
{
    if s.len() == 0 {
        Seq::empty()
    } else {
        path_models(s.drop_last()).push(segment_models(s.last().segments@))
    }
}

pub open spec fn segment_models(s: Seq<PathSegment>) -> Seq<SegmentModel>
    decreases s,
{
    if s.len() == 0 {
        Seq::empty()
    } else {
        segment_models(s.drop_last()).push(segment_model(s.last()))
    }
}

pub open spec fn segment_model(s: PathSegment) -> SegmentModel
    decreases s,
{
    SegmentModel { ident: s.ident@, args: arg_models(s.arguments@) }
}

pub open spec fn arg_models(s: Seq<GenericArgument>) -> Seq<ArgModel>
    decreases s,
{
    if s.len() == 0 {
        Seq::empty()
    } else {
        arg_models(s.drop_last()).push(
            match s.last() {
                GenericArgument::Lifetime(l) => ArgModel::Lifetime(l@),
                GenericArgument::Type(t) => ArgModel::Type(type_model(t)),
            },
        )
    }
}

impl View for TypeExpr {
    type V = TypeModel;

    open spec fn view(&self) -> TypeModel {
        type_model(*self)
    }
}

impl Clone for TypeExpr {
    /// A structural copy with the same model.
    fn clone(&self) -> (r: Self)
        ensures
            r@ == self@,
        decreases *self,
    {
        match self {
            TypeExpr::Path(p) => TypeExpr::Path(p.clone()),
            TypeExpr::Reference(lt, m, inner) => TypeExpr::Reference(
                match lt {
                    Some(l) => Some(l.clone()),
                    None => None,
                },
                *m,
                Box::new((&**inner).clone()),
            ),
            TypeExpr::Tuple(items) => TypeExpr::Tuple(clone_types(items)),
            TypeExpr::Slice(inner) => TypeExpr::Slice(Box::new((&**inner).clone())),
            TypeExpr::Array(inner, n) => TypeExpr::Array(Box::new((&**inner).clone()), *n),
            TypeExpr::Ptr(m, inner) => TypeExpr::Ptr(*m, Box::new((&**inner).clone())),
            TypeExpr::Group(inner) => TypeExpr::Group(Box::new((&**inner).clone())),
            TypeExpr::Never => TypeExpr::Never,
            TypeExpr::TraitObject(bounds) => TypeExpr::TraitObject(clone_paths(bounds)),
            TypeExpr::ImplTrait(bounds) => TypeExpr::ImplTrait(clone_paths(bounds)),
            TypeExpr::BareFn(params, ret) => TypeExpr::BareFn(
                clone_types(params),
                match ret {
                    Some(r) => Some(Box::new((&**r).clone())),
                    None => None,
                },
            ),
        }
    }
}

fn clone_types(s: &Vec<TypeExpr>) -> (r: Vec<TypeExpr>)
    ensures
        type_models(r@) == type_models(s@),
        r@.len() == s@.len(),
    decreases *s,
{
    let mut r: Vec<TypeExpr> = Vec::new();
    let n = s.len();
    let mut i: usize = 0;
    while i < n
        invariant
            n == s@.len(),
            i <= n,
            r@.len() == i,
            type_models(r@) == type_models(s@.subrange(0, i as int)),
        decreases n - i,
    {
        proof {
            assert(decreases_to!(s@ => s@[i as int]));
            assert(decreases_to!(*s => s@[i as int]));
        }
        let ghost prev_r = r@;
        r.push(s[i].clone());
        proof {
            let prev = s@.subrange(0, i as int);
            let cur = s@.subrange(0, i as int + 1);
            assert(cur.drop_last() =~= prev);
            assert(cur.last() == s@[i as int]);
            assert(r@.drop_last() =~= prev_r);
            assert(type_models(r@) == type_models(cur));
        }
        i = i + 1;
    }
    proof {
        assert(s@.subrange(0, s@.len() as int) =~= s@);
    }
    r
}

fn clone_paths(s: &Vec<TypePath>) -> (r: Vec<TypePath>)
    ensures
        path_models(r@) == path_models(s@),
        r@.len() == s@.len(),
    decreases *s,
{
    let mut r: Vec<TypePath> = Vec::new();
    let n = s.len();
    let mut i: usize = 0;
    while i < n
        invariant
            n == s@.len(),
            i <= n,
            r@.len() == i,
            path_models(r@) == path_models(s@.subrange(0, i as int)),
        decreases n - i,
    {
        proof {
            assert(decreases_to!(s@ => s@[i as int]));
            assert(decreases_to!(*s => s@[i as int]));
        }
        let ghost prev_r = r@;
        r.push(s[i].clone());
        proof {
            let prev = s@.subrange(0, i as int);
            let cur = s@.subrange(0, i as int + 1);
            assert(cur.drop_last() =~= prev);
            assert(cur.last() == s@[i as int]);
            assert(r@.drop_last() =~= prev_r);
            assert(path_models(r@) == path_models(cur));
        }
        i = i + 1;
    }
    proof {
        assert(s@.subrange(0, s@.len() as int) =~= s@);
    }
    r
}

impl Clone for TypePath {
    /// A structural copy with the same model.
    fn clone(&self) -> (r: Self)
        ensures
            segment_models(r.segments@) == segment_models(self.segments@),
        decreases *self,
    {
        TypePath { segments: clone_segments(&self.segments) }
    }
}

fn clone_segments(s: &Vec<PathSegment>) -> (r: Vec<PathSegment>)
    ensures
        segment_models(r@) == segment_models(s@),
        r@.len() == s@.len(),
    decreases *s,
{
    let mut r: Vec<PathSegment> = Vec::new();
    let n = s.len();
    let mut i: usize = 0;
    while i < n
        invariant
            n == s@.len(),
            i <= n,
            r@.len() == i,
            segment_models(r@) == segment_models(s@.subrange(0, i as int)),
        decreases n - i,
    {
        proof {
            assert(decreases_to!(s@ => s@[i as int]));
            assert(decreases_to!(*s => s@[i as int]));
        }
        let ghost prev_r = r@;
        r.push(s[i].clone());
        proof {
            let prev = s@.subrange(0, i as int);
            let cur = s@.subrange(0, i as int + 1);
            assert(cur.drop_last() =~= prev);
            assert(cur.last() == s@[i as int]);
            assert(r@.drop_last() =~= prev_r);
            assert(segment_models(r@) == segment_models(cur));
        }
        i = i + 1;
    }
    proof {
        assert(s@.subrange(0, s@.len() as int) =~= s@);
    }
    r
}

impl Clone for PathSegment {
    /// A structural copy with the same model.
    fn clone(&self) -> (r: Self)
        ensures
            segment_model(r) == segment_model(*self),
        decreases *self,
    {
        PathSegment { ident: self.ident.clone(), arguments: clone_args(&self.arguments) }
    }
}

fn clone_args(s: &Vec<GenericArgument>) -> (r: Vec<GenericArgument>)
    ensures
        arg_models(r@) == arg_models(s@),
        r@.len() == s@.len(),
    decreases *s,
{
    let mut r: Vec<GenericArgument> = Vec::new();
    let n = s.len();
    let mut i: usize = 0;
    while i < n
        invariant
            n == s@.len(),
            i <= n,
            r@.len() == i,
            arg_models(r@) == arg_models(s@.subrange(0, i as int)),
        decreases n - i,
    {
        proof {
            assert(decreases_to!(s@ => s@[i as int]));
            assert(decreases_to!(*s => s@[i as int]));
        }
        let ghost prev_r = r@;
        r.push(s[i].clone());
        proof {
            let prev = s@.subrange(0, i as int);
            let cur = s@.subrange(0, i as int + 1);
            assert(cur.drop_last() =~= prev);
            assert(cur.last() == s@[i as int]);
            assert(r@.drop_last() =~= prev_r);
            assert(arg_models(r@) == arg_models(cur));
        }
        i = i + 1;
    }
    proof {
        assert(s@.subrange(0, s@.len() as int) =~= s@);
    }
    r
}

impl Clone for GenericArgument {
    /// A structural copy with the same model.
    fn clone(&self) -> (r: Self)
        ensures
            (match (self, r) {
                (GenericArgument::Lifetime(a), GenericArgument::Lifetime(b)) => a@ == b@,
                (GenericArgument::Type(a), GenericArgument::Type(b)) => type_model(*a)
                    == type_model(b),
                _ => false,
            }),
        decreases *self,
    {
        match self {
            GenericArgument::Lifetime(l) => GenericArgument::Lifetime(l.clone()),
            GenericArgument::Type(t) => GenericArgument::Type(t.clone()),
        }
    }
}

/// The self-placeholder identifier.
pub open spec fn self_token() -> Seq<char> {
    "Self"@
}

/// The replacement of the self-placeholder throughout a type: every segment
/// named `Self`, at any depth, gets the target identifier, and — where a
/// generic-argument list was supplied — that list in place of its own.
pub open spec fn replace_model(m: TypeModel, target: Seq<char>, gens: Seq<ArgModel>) -> TypeModel
    decreases m,
{
    match m {
        TypeModel::Path(segs) => TypeModel::Path(replace_segments_model(segs, target, gens)),
        TypeModel::Reference(lt, mu, inner) => TypeModel::Reference(
            lt,
            mu,
            Box::new(replace_model(*inner, target, gens)),
        ),
        TypeModel::Tuple(items) => TypeModel::Tuple(replace_types_model(items, target, gens)),
        TypeModel::Slice(inner) => TypeModel::Slice(
            Box::new(replace_model(*inner, target, gens)),
        ),
        TypeModel::Array(inner, n) => TypeModel::Array(
            Box::new(replace_model(*inner, target, gens)),
            n,
        ),
        TypeModel::Ptr(mu, inner) => TypeModel::Ptr(
            mu,
            Box::new(replace_model(*inner, target, gens)),
        ),
        TypeModel::Group(inner) => TypeModel::Group(
            Box::new(replace_model(*inner, target, gens)),
        ),
        TypeModel::Never => TypeModel::Never,
        TypeModel::TraitObject(bounds) => TypeModel::TraitObject(
            replace_paths_model(bounds, target, gens),
        ),
        TypeModel::ImplTrait(bounds) => TypeModel::ImplTrait(
            replace_paths_model(bounds, target, gens),
        ),
        TypeModel::BareFn(params, ret) => TypeModel::BareFn(
            replace_types_model(params, target, gens),
            match ret {
                Some(r) => Some(Box::new(replace_model(*r, target, gens))),
                None => None,
            },
        ),
    }
}

pub open spec fn replace_types_model(
    s: Seq<TypeModel>,
    target: Seq<char>,
    gens: Seq<ArgModel>,
) -> Seq<TypeModel>
    decreases s,
{
    if s.len() == 0 {
        Seq::empty()
    } else {
        replace_types_model(s.drop_last(), target, gens).push(
            replace_model(s.last(), target, gens),
        )
    }
}

pub open spec fn replace_paths_model(
    s: Seq<Seq<SegmentModel>>,
    target: Seq<char>,
    gens: Seq<ArgModel>,
) -> Seq<Seq<SegmentModel>>
    decreases s,
{
    if s.len() == 0 {
        Seq::empty()
    } else {
        replace_paths_model(s.drop_last(), target, gens).push(
            replace_segments_model(s.last(), target, gens),
        )
    }
}

pub open spec fn replace_segments_model(
    s: Seq<SegmentModel>,
    target: Seq<char>,
    gens: Seq<ArgModel>,
) -> Seq<SegmentModel>
    decreases s,
{
    if s.len() == 0 {
        Seq::empty()
    } else {
        replace_segments_model(s.drop_last(), target, gens).push(
            replace_segment_model(s.last(), target, gens),
        )
    }
}

/// One segment: a placeholder gets the target name, and the supplied
/// arguments where there are any; every other segment keeps its identifier
/// and has its own arguments rewritten recursively.
pub open spec fn replace_segment_model(
    s: SegmentModel,
    target: Seq<char>,
    gens: Seq<ArgModel>,
) -> SegmentModel
    decreases s,
{
    if s.ident == self_token() && gens.len() > 0 {
        SegmentModel { ident: target, args: gens }
    } else if s.ident == self_token() {
        SegmentModel { ident: target, args: replace_args_model(s.args, target, gens) }
    } else {
        SegmentModel { ident: s.ident, args: replace_args_model(s.args, target, gens) }
    }
}

pub open spec fn replace_args_model(
    s: Seq<ArgModel>,
    target: Seq<char>,
    gens: Seq<ArgModel>,
) -> Seq<ArgModel>
    decreases s,
{
    if s.len() == 0 {
        Seq::empty()
    } else {
        replace_args_model(s.drop_last(), target, gens).push(
            match s.last() {
                ArgModel::Lifetime(l) => ArgModel::Lifetime(l),
                ArgModel::Type(t) => ArgModel::Type(replace_model(t, target, gens)),
            },
        )
    }
}

/// Whether a type mentions the self-placeholder anywhere.
pub open spec fn contains_self(m: TypeModel) -> bool
    decreases m,
{
    match m {
        TypeModel::Path(segs) => segments_contain_self(segs),
        TypeModel::Reference(_, _, inner) => contains_self(*inner),
        TypeModel::Tuple(items) => types_contain_self(items),
        TypeModel::Slice(inner) => contains_self(*inner),
        TypeModel::Array(inner, _) => contains_self(*inner),
        TypeModel::Ptr(_, inner) => contains_self(*inner),
        TypeModel::Group(inner) => contains_self(*inner),
        TypeModel::Never => false,
        TypeModel::TraitObject(bounds) => paths_contain_self(bounds),
        TypeModel::ImplTrait(bounds) => paths_contain_self(bounds),
        TypeModel::BareFn(params, ret) => types_contain_self(params) || (match ret {
            Some(r) => contains_self(*r),
            None => false,
        }),
    }
}

pub open spec fn types_contain_self(s: Seq<TypeModel>) -> bool
    decreases s,
{
    if s.len() == 0 {
        false
    } else {
        types_contain_self(s.drop_last()) || contains_self(s.last())
    }
}

pub open spec fn paths_contain_self(s: Seq<Seq<SegmentModel>>) -> bool
    decreases s,
{
    if s.len() == 0 {
        false
    } else {
        paths_contain_self(s.drop_last()) || segments_contain_self(s.last())
    }
}

pub open spec fn segments_contain_self(s: Seq<SegmentModel>) -> bool
    decreases s,
{
    if s.len() == 0 {
        false
    } else {
        segments_contain_self(s.drop_last()) || s.last().ident == self_token()
            || args_contain_self(s.last().args)
    }
}

pub open spec fn args_contain_self(s: Seq<ArgModel>) -> bool
    decreases s,
{
    if s.len() == 0 {
        false
    } else {
        args_contain_self(s.drop_last()) || (match s.last() {
            ArgModel::Lifetime(_) => false,
            ArgModel::Type(t) => contains_self(t),
        })
    }
}

/// Exhaustiveness of the rewrite: when the target name is not itself the
/// placeholder and the supplied arguments are free of it, no occurrence of
/// the placeholder survives the rewrite, at any nesting depth.
pub proof fn lemma_replace_self_exhaustive(m: TypeModel, target: Seq<char>, gens: Seq<ArgModel>)
    requires
        target != self_token(),
        !args_contain_self(gens),
    ensures
        !contains_self(replace_model(m, target, gens)),
    decreases m,
{
    match m {
        TypeModel::Path(segs) => {
            lemma_replace_segments_exhaustive(segs, target, gens);
        },
        TypeModel::Reference(_, _, inner) => {
            lemma_replace_self_exhaustive(*inner, target, gens);
        },
        TypeModel::Tuple(items) => {
            lemma_replace_types_exhaustive(items, target, gens);
        },
        TypeModel::Slice(inner) => {
            lemma_replace_self_exhaustive(*inner, target, gens);
        },
        TypeModel::Array(inner, _) => {
            lemma_replace_self_exhaustive(*inner, target, gens);
        },
        TypeModel::Ptr(_, inner) => {
            lemma_replace_self_exhaustive(*inner, target, gens);
        },
        TypeModel::Group(inner) => {
            lemma_replace_self_exhaustive(*inner, target, gens);
        },
        TypeModel::Never => {},
        TypeModel::TraitObject(bounds) => {
            lemma_replace_paths_exhaustive(bounds, target, gens);
        },
        TypeModel::ImplTrait(bounds) => {
            lemma_replace_paths_exhaustive(bounds, target, gens);
        },
        TypeModel::BareFn(params, ret) => {
            lemma_replace_types_exhaustive(params, target, gens);
            match ret {
                Some(r) => {
                    lemma_replace_self_exhaustive(*r, target, gens);
                },
                None => {},
            }
        },
    }
}

proof fn lemma_replace_types_exhaustive(s: Seq<TypeModel>, target: Seq<char>, gens: Seq<ArgModel>)
    requires
        target != self_token(),
        !args_contain_self(gens),
    ensures
        !types_contain_self(replace_types_model(s, target, gens)),
    decreases s,
{
    if s.len() > 0 {
        lemma_replace_types_exhaustive(s.drop_last(), target, gens);
        lemma_replace_self_exhaustive(s.last(), target, gens);
        let r = replace_types_model(s, target, gens);
        assert(r.drop_last() =~= replace_types_model(s.drop_last(), target, gens));
    }
}

proof fn lemma_replace_paths_exhaustive(
    s: Seq<Seq<SegmentModel>>,
    target: Seq<char>,
    gens: Seq<ArgModel>,
)
    requires
        target != self_token(),
        !args_contain_self(gens),
    ensures
        !paths_contain_self(replace_paths_model(s, target, gens)),
    decreases s,
{
    if s.len() > 0 {
        lemma_replace_paths_exhaustive(s.drop_last(), target, gens);
        lemma_replace_segments_exhaustive(s.last(), target, gens);
        let r = replace_paths_model(s, target, gens);
        assert(r.drop_last() =~= replace_paths_model(s.drop_last(), target, gens));
    }
}

proof fn lemma_replace_segments_exhaustive(
    s: Seq<SegmentModel>,
    target: Seq<char>,
    gens: Seq<ArgModel>,
)
    requires
        target != self_token(),
        !args_contain_self(gens),
    ensures
        !segments_contain_self(replace_segments_model(s, target, gens)),
    decreases s,
{
    if s.len() > 0 {
        lemma_replace_segments_exhaustive(s.drop_last(), target, gens);
        lemma_replace_args_exhaustive(s.last().args, target, gens);
        let r = replace_segments_model(s, target, gens);
        assert(r.drop_last() =~= replace_segments_model(s.drop_last(), target, gens));
        let last = replace_segment_model(s.last(), target, gens);
        assert(r.last() == last);
        assert(last.ident != self_token());
        assert(!args_contain_self(last.args));
    }
}

proof fn lemma_replace_args_exhaustive(s: Seq<ArgModel>, target: Seq<char>, gens: Seq<ArgModel>)
    requires
        target != self_token(),
        !args_contain_self(gens),
    ensures
        !args_contain_self(replace_args_model(s, target, gens)),
    decreases s,
{
    if s.len() > 0 {
        lemma_replace_args_exhaustive(s.drop_last(), target, gens);
        match s.last() {
            ArgModel::Lifetime(_) => {},
            ArgModel::Type(t) => {
                lemma_replace_self_exhaustive(t, target, gens);
            },
        }
        let r = replace_args_model(s, target, gens);
        assert(r.drop_last() =~= replace_args_model(s.drop_last(), target, gens));
    }
}

} // verus!

verus! {

/// The rewrite context: the concrete target type name and the
/// generic-argument list it should receive.
pub struct ReplaceSelfVisitor {
    pub struct_ident: String,
    pub generics: Vec<GenericArgument>,
}

impl ReplaceSelfVisitor {
    /// The target identifier's model.
    pub open spec fn target_spec(&self) -> Seq<char> {
        self.struct_ident@
    }

    /// The supplied generic arguments' models.
    pub open spec fn gens_spec(&self) -> Seq<ArgModel> {
        arg_models(self.generics@)
    }

    /// Rewrites a type: every self-placeholder occurrence, at any nesting
    /// depth within the grammar, is substituted.
    pub fn replace_self(&self, ty: &TypeExpr) -> (r: TypeExpr)
        ensures
            r@ == replace_model(ty@, self.target_spec(), self.gens_spec()),
    {
        self.visit_type(ty)
    }

    fn visit_type(&self, t: &TypeExpr) -> (r: TypeExpr)
        ensures
            type_model(r) == replace_model(type_model(*t), self.target_spec(), self.gens_spec()),
        decreases *t,
    {
        match t {
            TypeExpr::Path(p) => TypeExpr::Path(TypePath { segments: self.visit_segments(&p.segments) }),
            TypeExpr::Reference(lt, m, inner) => TypeExpr::Reference(
                match lt {
                    Some(l) => Some(l.clone()),
                    None => None,
                },
                *m,
                Box::new(self.visit_type(inner)),
            ),
            TypeExpr::Tuple(items) => TypeExpr::Tuple(self.visit_types(items)),
            TypeExpr::Slice(inner) => TypeExpr::Slice(Box::new(self.visit_type(inner))),
            TypeExpr::Array(inner, n) => TypeExpr::Array(Box::new(self.visit_type(inner)), *n),
            TypeExpr::Ptr(m, inner) => TypeExpr::Ptr(*m, Box::new(self.visit_type(inner))),
            TypeExpr::Group(inner) => TypeExpr::Group(Box::new(self.visit_type(inner))),
            TypeExpr::Never => TypeExpr::Never,
            TypeExpr::TraitObject(bounds) => TypeExpr::TraitObject(self.visit_paths(bounds)),
            TypeExpr::ImplTrait(bounds) => TypeExpr::ImplTrait(self.visit_paths(bounds)),
            TypeExpr::BareFn(params, ret) => TypeExpr::BareFn(
                self.visit_types(params),
                match ret {
                    Some(r) => Some(Box::new(self.visit_type(r))),
                    None => None,
                },
            ),
        }
    }

    fn visit_types(&self, s: &Vec<TypeExpr>) -> (r: Vec<TypeExpr>)
        ensures
            type_models(r@) == replace_types_model(
                type_models(s@),
                self.target_spec(),
                self.gens_spec(),
            ),
        decreases *s,
    {
        let mut r: Vec<TypeExpr> = Vec::new();
        let n = s.len();
        let mut i: usize = 0;
        proof {
            assert(type_models(s@.subrange(0, 0)) =~= Seq::<TypeModel>::empty());
        }
        while i < n
            invariant
                n == s@.len(),
                i <= n,
                r@.len() == i,
                type_models(r@) == replace_types_model(
                    type_models(s@.subrange(0, i as int)),
                    self.target_spec(),
                    self.gens_spec(),
                ),
            decreases n - i,
        {
            proof {
                assert(decreases_to!(s@ => s@[i as int]));
                assert(decreases_to!(*s => s@[i as int]));
            }
            let ghost prev_r = r@;
            r.push(self.visit_type(&s[i]));
            proof {
                let prev = s@.subrange(0, i as int);
                let cur = s@.subrange(0, i as int + 1);
                assert(cur.drop_last() =~= prev);
                assert(cur.last() == s@[i as int]);
                assert(type_models(cur).drop_last() =~= type_models(prev));
                assert(r@.drop_last() =~= prev_r);
                assert(type_models(r@) == replace_types_model(
                    type_models(cur),
                    self.target_spec(),
                    self.gens_spec(),
                ));
            }
            i = i + 1;
        }
        proof {
            assert(s@.subrange(0, s@.len() as int) =~= s@);
        }
        r
    }

    fn visit_paths(&self, s: &Vec<TypePath>) -> (r: Vec<TypePath>)
        ensures
            path_models(r@) == replace_paths_model(
                path_models(s@),
                self.target_spec(),
                self.gens_spec(),
            ),
        decreases *s,
    {
        let mut r: Vec<TypePath> = Vec::new();
        let n = s.len();
        let mut i: usize = 0;
        proof {
            assert(path_models(s@.subrange(0, 0)) =~= Seq::<Seq<SegmentModel>>::empty());
        }
        while i < n
            invariant
                n == s@.len(),
                i <= n,
                r@.len() == i,
                path_models(r@) == replace_paths_model(
                    path_models(s@.subrange(0, i as int)),
                    self.target_spec(),
                    self.gens_spec(),
                ),
            decreases n - i,
        {
            proof {
                assert(decreases_to!(s@ => s@[i as int]));
                assert(decreases_to!(*s => s@[i as int]));
            }
            let ghost prev_r = r@;
            let segs = self.visit_segments(&s[i].segments);
            r.push(TypePath { segments: segs });
            proof {
                let prev = s@.subrange(0, i as int);
                let cur = s@.subrange(0, i as int + 1);
                assert(cur.drop_last() =~= prev);
                assert(cur.last() == s@[i as int]);
                assert(path_models(cur).drop_last() =~= path_models(prev));
                assert(r@.drop_last() =~= prev_r);
                assert(path_models(r@) == replace_paths_model(
                    path_models(cur),
                    self.target_spec(),
                    self.gens_spec(),
                ));
            }
            i = i + 1;
        }
        proof {
            assert(s@.subrange(0, s@.len() as int) =~= s@);
        }
        r
    }

    fn visit_segments(&self, s: &Vec<PathSegment>) -> (r: Vec<PathSegment>)
        ensures
            segment_models(r@) == replace_segments_model(
                segment_models(s@),
                self.target_spec(),
                self.gens_spec(),
            ),
        decreases *s,
    {
        let mut r: Vec<PathSegment> = Vec::new();
        let n = s.len();
        let mut i: usize = 0;
        proof {
            assert(segment_models(s@.subrange(0, 0)) =~= Seq::<SegmentModel>::empty());
        }
        while i < n
            invariant
                n == s@.len(),
                i <= n,
                r@.len() == i,
                segment_models(r@) == replace_segments_model(
                    segment_models(s@.subrange(0, i as int)),
                    self.target_spec(),
                    self.gens_spec(),
                ),
            decreases n - i,
        {
            proof {
                assert(decreases_to!(s@ => s@[i as int]));
                assert(decreases_to!(*s => s@[i as int]));
            }
            let ghost prev_r = r@;
            r.push(self.visit_segment(&s[i]));
            proof {
                let prev = s@.subrange(0, i as int);
                let cur = s@.subrange(0, i as int + 1);
                assert(cur.drop_last() =~= prev);
                assert(cur.last() == s@[i as int]);
                assert(segment_models(cur).drop_last() =~= segment_models(prev));
                assert(r@.drop_last() =~= prev_r);
                assert(segment_models(r@) == replace_segments_model(
                    segment_models(cur),
                    self.target_spec(),
                    self.gens_spec(),
                ));
            }
            i = i + 1;
        }
        proof {
            assert(s@.subrange(0, s@.len() as int) =~= s@);
        }
        r
    }

    fn visit_segment(&self, s: &PathSegment) -> (r: PathSegment)
        ensures
            segment_model(r) == replace_segment_model(
                segment_model(*s),
                self.target_spec(),
                self.gens_spec(),
            ),
        decreases *s,
    {
        proof {
            reveal_strlit("Self");
        }
        let placeholder = String::from_str("Self");
        if s.ident == placeholder {
            if self.generics.len() > 0 {
                PathSegment { ident: self.struct_ident.clone(), arguments: clone_args(&self.generics) }
            } else {
                proof {
                    assert(decreases_to!(*s => s.arguments));
                }
                PathSegment { ident: self.struct_ident.clone(), arguments: self.visit_args(&s.arguments) }
            }
        } else {
            proof {
                assert(decreases_to!(*s => s.arguments));
            }
            PathSegment { ident: s.ident.clone(), arguments: self.visit_args(&s.arguments) }
        }
    }

    fn visit_args(&self, s: &Vec<GenericArgument>) -> (r: Vec<GenericArgument>)
        ensures
            arg_models(r@) == replace_args_model(
                arg_models(s@),
                self.target_spec(),
                self.gens_spec(),
            ),
        decreases *s,
    {
        let mut r: Vec<GenericArgument> = Vec::new();
        let n = s.len();
        let mut i: usize = 0;
        proof {
            assert(arg_models(s@.subrange(0, 0)) =~= Seq::<ArgModel>::empty());
        }
        while i < n
            invariant
                n == s@.len(),
                i <= n,
                r@.len() == i,
                arg_models(r@) == replace_args_model(
                    arg_models(s@.subrange(0, i as int)),
                    self.target_spec(),
                    self.gens_spec(),
                ),
            decreases n - i,
        {
            proof {
                assert(decreases_to!(s@ => s@[i as int]));
                assert(decreases_to!(*s => s@[i as int]));
            }
            let ghost prev_r = r@;
            let next = match &s[i] {
                GenericArgument::Lifetime(l) => GenericArgument::Lifetime(l.clone()),
                GenericArgument::Type(t) => GenericArgument::Type(self.visit_type(t)),
            };
            r.push(next);
            proof {
                let prev = s@.subrange(0, i as int);
                let cur = s@.subrange(0, i as int + 1);
                assert(cur.drop_last() =~= prev);
                assert(cur.last() == s@[i as int]);
                assert(arg_models(cur).drop_last() =~= arg_models(prev));
                assert(r@.drop_last() =~= prev_r);
                assert(arg_models(r@) == replace_args_model(
                    arg_models(cur),
                    self.target_spec(),
                    self.gens_spec(),
                ));
            }
            i = i + 1;
        }
        proof {
            assert(s@.subrange(0, s@.len() as int) =~= s@);
        }
        r
    }
}

} // verus!

verus! {

/// The textual rendering of a type expression.
pub open spec fn render_type(m: TypeModel) -> Seq<char>
    decreases m,
{
    match m {
        TypeModel::Path(segs) => render_segments_text(segs),
        TypeModel::Reference(lt, mu, inner) => "&"@ + (match lt {
            Some(l) => l + seq![' '],
            None => Seq::<char>::empty(),
        }) + (if mu {
            "mut "@
        } else {
            Seq::<char>::empty()
        }) + render_type(*inner),
        TypeModel::Tuple(items) => seq!['('] + render_type_list(items) + seq![')'],
        TypeModel::Slice(inner) => seq!['['] + render_type(*inner) + seq![']'],
        TypeModel::Array(inner, n) => seq!['['] + render_type(*inner) + "; "@
            + crate::value::dec_digits(n) + seq![']'],
        TypeModel::Ptr(mu, inner) => (if mu {
            "*mut "@
        } else {
            "*const "@
        }) + render_type(*inner),
        TypeModel::Group(inner) => render_type(*inner),
        TypeModel::Never => seq!['!'],
        TypeModel::TraitObject(bounds) => "dyn "@ + render_bound_list(bounds),
        TypeModel::ImplTrait(bounds) => "impl "@ + render_bound_list(bounds),
        TypeModel::BareFn(params, ret) => "fn("@ + render_type_list(params) + seq![')'] + (
        match ret {
            Some(r) => " -> "@ + render_type(*r),
            None => Seq::<char>::empty(),
        }),
    }
}

/// Types joined with `", "`.
pub open spec fn render_type_list(s: Seq<TypeModel>) -> Seq<char>
    decreases s,
{
    if s.len() == 0 {
        Seq::empty()
    } else if s.len() == 1 {
        render_type(s.last())
    } else {
        render_type_list(s.drop_last()) + seq![',', ' '] + render_type(s.last())
    }
}

/// Trait bounds joined with `" + "`.
pub open spec fn render_bound_list(s: Seq<Seq<SegmentModel>>) -> Seq<char>
    decreases s,
{
    if s.len() == 0 {
        Seq::empty()
    } else if s.len() == 1 {
        render_segments_text(s.last())
    } else {
        render_bound_list(s.drop_last()) + " + "@ + render_segments_text(s.last())
    }
}

/// Path segments joined with `"::"`.
pub open spec fn render_segments_text(s: Seq<SegmentModel>) -> Seq<char>
    decreases s,
{
    if s.len() == 0 {
        Seq::empty()
    } else if s.len() == 1 {
        render_segment_text(s.last())
    } else {
        render_segments_text(s.drop_last()) + "::"@ + render_segment_text(s.last())
    }
}

/// One segment: its identifier and, where it has arguments, the
/// angle-bracketed argument list.
pub open spec fn render_segment_text(s: SegmentModel) -> Seq<char>
    decreases s,
{
    s.ident + (if s.args.len() > 0 {
        seq!['<'] + render_arg_list(s.args) + seq!['>']
    } else {
        Seq::<char>::empty()
    })
}

/// Generic arguments joined with `", "`.
pub open spec fn render_arg_list(s: Seq<ArgModel>) -> Seq<char>
    decreases s,
{
    if s.len() == 0 {
        Seq::empty()
    } else if s.len() == 1 {
        render_arg(s.last())
    } else {
        render_arg_list(s.drop_last()) + seq![',', ' '] + render_arg(s.last())
    }
}

/// One generic argument: the lifetime token itself, or the type's text.
pub open spec fn render_arg(a: ArgModel) -> Seq<char>
    decreases a,
{
    match a {
        ArgModel::Lifetime(l) => l,
        ArgModel::Type(t) => render_type(t),
    }
}

impl TypeExpr {
    /// Renders this type expression as text.
    pub fn render(&self) -> (r: String)
        ensures
            r@ == render_type(self@),
        decreases *self,
    {
        proof {
            reveal_strlit("&");
            reveal_strlit(" ");
            reveal_strlit("mut ");
            reveal_strlit("(");
            reveal_strlit(")");
            reveal_strlit("[");
            reveal_strlit("]");
            reveal_strlit("; ");
            reveal_strlit("*mut ");
            reveal_strlit("*const ");
            reveal_strlit("!");
            reveal_strlit("dyn ");
            reveal_strlit("impl ");
            reveal_strlit("fn(");
            reveal_strlit(" -> ");
        }
        match self {
            TypeExpr::Path(p) => render_segments(&p.segments),
            TypeExpr::Reference(lt, m, inner) => {
                let mut r = String::from_str("&");
                match lt {
                    Some(l) => {
                        r.append(l.as_str());
                        r.append(" ");
                    },
                    None => {},
                }
                if *m {
                    r.append("mut ");
                }
                let body = (&**inner).render();
                r.append(body.as_str());
                proof {
                    assert(r@ =~= render_type(self@));
                }
                r
            },
            TypeExpr::Tuple(items) => {
                let mut r = String::from_str("(");
                let body = render_types(items);
                r.append(body.as_str());
                r.append(")");
                proof {
                    assert(r@ =~= render_type(self@));
                }
                r
            },
            TypeExpr::Slice(inner) => {
                let mut r = String::from_str("[");
                let body = (&**inner).render();
                r.append(body.as_str());
                r.append("]");
                proof {
                    assert(r@ =~= render_type(self@));
                }
                r
            },
            TypeExpr::Array(inner, n) => {
                let mut r = String::from_str("[");
                let body = (&**inner).render();
                r.append(body.as_str());
                r.append("; ");
                let num = crate::value::u64_to_dec(*n);
                r.append(num.as_str());
                r.append("]");
                proof {
                    assert(r@ =~= render_type(self@));
                }
                r
            },
            TypeExpr::Ptr(m, inner) => {
                let mut r = if *m {
                    String::from_str("*mut ")
                } else {
                    String::from_str("*const ")
                };
                let body = (&**inner).render();
                r.append(body.as_str());
                proof {
                    assert(r@ =~= render_type(self@));
                }
                r
            },
            TypeExpr::Group(inner) => (&**inner).render(),
            TypeExpr::Never => String::from_str("!"),
            TypeExpr::TraitObject(bounds) => {
                let mut r = String::from_str("dyn ");
                let body = render_paths(bounds);
                r.append(body.as_str());
                proof {
                    assert(r@ =~= render_type(self@));
                }
                r
            },
            TypeExpr::ImplTrait(bounds) => {
                let mut r = String::from_str("impl ");
                let body = render_paths(bounds);
                r.append(body.as_str());
                proof {
                    assert(r@ =~= render_type(self@));
                }
                r
            },
            TypeExpr::BareFn(params, ret) => {
                let mut r = String::from_str("fn(");
                let body = render_types(params);
                r.append(body.as_str());
                r.append(")");
                match ret {
                    Some(out) => {
                        r.append(" -> ");
                        let tail = (&**out).render();
                        r.append(tail.as_str());
                    },
                    None => {},
                }
                proof {
                    assert(r@ =~= render_type(self@));
                }
                r
            },
        }
    }
}

fn render_types(s: &Vec<TypeExpr>) -> (r: String)
    ensures
        r@ == render_type_list(type_models(s@)),
    decreases *s,
{
    proof {
        reveal_strlit(", ");
    }
    let mut r = String::new();
    let n = s.len();
    let mut i: usize = 0;
    while i < n
        invariant
            n == s@.len(),
            i <= n,
            r@ == render_type_list(type_models(s@.subrange(0, i as int))),
            ", "@ == seq![',', ' '],
        decreases n - i,
    {
        if i > 0 {
            r.append(", ");
        }
        proof {
            assert(decreases_to!(s@ => s@[i as int]));
            assert(decreases_to!(*s => s@[i as int]));
        }
        let piece = s[i].render();
        r.append(piece.as_str());
        proof {
            let prev = s@.subrange(0, i as int);
            let cur = s@.subrange(0, i as int + 1);
            assert(cur.drop_last() =~= prev);
            assert(cur.last() == s@[i as int]);
            assert(type_models(cur).drop_last() =~= type_models(prev));
            assert(r@ =~= render_type_list(type_models(cur)));
        }
        i = i + 1;
    }
    proof {
        assert(s@.subrange(0, s@.len() as int) =~= s@);
    }
    r
}

fn render_paths(s: &Vec<TypePath>) -> (r: String)
    ensures
        r@ == render_bound_list(path_models(s@)),
    decreases *s,
{
    proof {
        reveal_strlit(" + ");
    }
    let mut r = String::new();
    let n = s.len();
    let mut i: usize = 0;
    while i < n
        invariant
            n == s@.len(),
            i <= n,
            r@ == render_bound_list(path_models(s@.subrange(0, i as int))),
        decreases n - i,
    {
        if i > 0 {
            r.append(" + ");
        }
        proof {
            assert(decreases_to!(s@ => s@[i as int]));
            assert(decreases_to!(s@[i as int] => s@[i as int].segments));
            assert(decreases_to!(*s => s@[i as int].segments));
        }
        let piece = render_segments(&s[i].segments);
        r.append(piece.as_str());
        proof {
            let prev = s@.subrange(0, i as int);
            let cur = s@.subrange(0, i as int + 1);
            assert(cur.drop_last() =~= prev);
            assert(cur.last() == s@[i as int]);
            assert(path_models(cur).drop_last() =~= path_models(prev));
            assert(r@ =~= render_bound_list(path_models(cur)));
        }
        i = i + 1;
    }
    proof {
        assert(s@.subrange(0, s@.len() as int) =~= s@);
    }
    r
}

fn render_segments(s: &Vec<PathSegment>) -> (r: String)
    ensures
        r@ == render_segments_text(segment_models(s@)),
    decreases *s,
{
    proof {
        reveal_strlit("::");
    }
    let mut r = String::new();
    let n = s.len();
    let mut i: usize = 0;
    while i < n
        invariant
            n == s@.len(),
            i <= n,
            r@ == render_segments_text(segment_models(s@.subrange(0, i as int))),
        decreases n - i,
    {
        if i > 0 {
            r.append("::");
        }
        proof {
            assert(decreases_to!(s@ => s@[i as int]));
            assert(decreases_to!(*s => s@[i as int]));
        }
        let piece = render_one_segment(&s[i]);
        r.append(piece.as_str());
        proof {
            let prev = s@.subrange(0, i as int);
            let cur = s@.subrange(0, i as int + 1);
            assert(cur.drop_last() =~= prev);
            assert(cur.last() == s@[i as int]);
            assert(segment_models(cur).drop_last() =~= segment_models(prev));
            assert(r@ =~= render_segments_text(segment_models(cur)));
        }
        i = i + 1;
    }
    proof {
        assert(s@.subrange(0, s@.len() as int) =~= s@);
    }
    r
}

fn render_one_segment(s: &PathSegment) -> (r: String)
    ensures
        r@ == render_segment_text(segment_model(*s)),
    decreases *s,
{
    proof {
        reveal_strlit("<");
        reveal_strlit(">");
        reveal_strlit(", ");
    }
    let mut r = s.ident.clone();
    if s.arguments.len() > 0 {
        r.append("<");
        let args = &s.arguments;
        let n = args.len();
        let mut i: usize = 0;
        while i < n
            invariant
                n == args@.len(),
                0 < n,
                i <= n,
                args@ == s.arguments@,
                r@ == s.ident@ + seq!['<'] + render_arg_list(
                    arg_models(args@.subrange(0, i as int)),
                ),
                ", "@ == seq![',', ' '],
            decreases n - i,
        {
            if i > 0 {
                r.append(", ");
            }
            let piece = match &args[i] {
                GenericArgument::Lifetime(l) => l.clone(),
                GenericArgument::Type(t) => {
                    proof {
                        assert(decreases_to!(args@ => args@[i as int]));
                        assert(decreases_to!(*s => s.arguments));
                        assert(decreases_to!(s.arguments => args@[i as int]));
                    }
                    t.render()
                },
            };
            r.append(piece.as_str());
            proof {
                let prev = args@.subrange(0, i as int);
                let cur = args@.subrange(0, i as int + 1);
                assert(cur.drop_last() =~= prev);
                assert(cur.last() == args@[i as int]);
                let pm = arg_models(cur);
                assert(pm.drop_last() =~= arg_models(prev));
                assert(pm.last() == (match cur.last() {
                    GenericArgument::Lifetime(l) => ArgModel::Lifetime(l@),
                    GenericArgument::Type(t) => ArgModel::Type(type_model(t)),
                }));
                assert(piece@ == render_arg(pm.last()));
                assert(r@ =~= s.ident@ + seq!['<'] + render_arg_list(pm));
            }
            i = i + 1;
        }
        proof {
            assert(args@.subrange(0, args@.len() as int) =~= args@);
        }
        r.append(">");
        proof {
            assert(r@ =~= render_segment_text(segment_model(*s)));
        }
        r
    } else {
        proof {
            assert(r@ =~= render_segment_text(segment_model(*s)));
        }
        r
    }
}

} // verus!
