//! The syntax model the generator works on.
//!
//! An interface declaration is represented as a tree of plain values:
//! attributes, parameters, signatures, methods and the interface itself.
//! Constructs the generator never inspects (bodies of non-method items,
//! unrecognized attributes, arbitrary return types) are carried through as
//! opaque text. Every node that a diagnostic may point at carries a span,
//! an opaque location token assigned by the caller.
//!
//! Each executable type has a mathematical view (the `V` suffix) over
//! `Seq`, and a `Clone` implementation proved to preserve that view.

use vstd::prelude::*;

use crate::endpoint::HttpMethod;

verus! {

/// The view of a sequence of viewable values, element by element.
pub open spec fn view_seq<T: View>(s: Seq<T>) -> Seq<T::V> {
    s.map_values(|x: T| x@)
}

/// The argument of an endpoint attribute.
#[derive(Debug, PartialEq, Eq)]
pub enum AttrArg {
    /// A single string literal: the URI template.
    Str(String),
    /// Anything else; holds the message of the failed literal parse.
    Other(String),
}

/// The mathematical value of an [`AttrArg`].
pub enum AttrArgV {
    Str(Seq<char>),
    Other(Seq<char>),
}

impl View for AttrArg {
    type V = AttrArgV;

    open spec fn view(&self) -> AttrArgV {
        match self {
            AttrArg::Str(s) => AttrArgV::Str(s@),
            AttrArg::Other(m) => AttrArgV::Other(m@),
        }
    }
}

impl Clone for AttrArg {
    fn clone(&self) -> (res: Self)
        ensures
            res@ == self@,
    {
        match self {
            AttrArg::Str(s) => AttrArg::Str(s.clone()),
            AttrArg::Other(m) => AttrArg::Other(m.clone()),
        }
    }
}

/// What an attribute on a method is to the generator.
#[derive(Debug, PartialEq, Eq)]
pub enum MethodAttrKind {
    /// One of the six recognized endpoint attributes, with its argument.
    Endpoint(HttpMethod, AttrArg),
    /// Any other attribute, carried through as text.
    Other(String),
}

/// The mathematical value of a [`MethodAttrKind`].
pub enum MethodAttrKindV {
    Endpoint(HttpMethod, AttrArgV),
    Other(Seq<char>),
}

impl View for MethodAttrKind {
    type V = MethodAttrKindV;

    open spec fn view(&self) -> MethodAttrKindV {
        match self {
            MethodAttrKind::Endpoint(v, a) => MethodAttrKindV::Endpoint(*v, a@),
            MethodAttrKind::Other(s) => MethodAttrKindV::Other(s@),
        }
    }
}

impl Clone for MethodAttrKind {
    fn clone(&self) -> (res: Self)
        ensures
            res@ == self@,
    {
        match self {
            MethodAttrKind::Endpoint(v, a) => MethodAttrKind::Endpoint(*v, a.clone()),
            MethodAttrKind::Other(s) => MethodAttrKind::Other(s.clone()),
        }
    }
}

/// An attribute on a method.
#[derive(Debug, PartialEq, Eq)]
pub struct MethodAttr {
    pub kind: MethodAttrKind,
    pub span: u64,
}

/// The mathematical value of a [`MethodAttr`].
pub struct MethodAttrV {
    pub kind: MethodAttrKindV,
    pub span: u64,
}

impl View for MethodAttr {
    type V = MethodAttrV;

    open spec fn view(&self) -> MethodAttrV {
        MethodAttrV { kind: self.kind@, span: self.span }
    }
}

impl Clone for MethodAttr {
    fn clone(&self) -> (res: Self)
        ensures
            res@ == self@,
    {
        MethodAttr { kind: self.kind.clone(), span: self.span }
    }
}

/// How a parameter feeds into the outgoing request.
#[derive(Debug, Clone, Copy, PartialEq, Eq)]
pub enum ParamBinding {
    Body,
    PathParam,
    QueryParam,
    Header,
    Cookie,
}

/// What an attribute on a typed parameter is to the generator.
#[derive(Debug, PartialEq, Eq)]
pub enum ParamAttrKind {
    /// One of the five recognized parameter-binding attributes.
    Binding(ParamBinding),
    /// Any other attribute, carried through as text.
    Other(String),
}

/// The mathematical value of a [`ParamAttrKind`].
pub enum ParamAttrKindV {
    Binding(ParamBinding),
    Other(Seq<char>),
}

impl View for ParamAttrKind {
    type V = ParamAttrKindV;

    open spec fn view(&self) -> ParamAttrKindV {
        match self {
            ParamAttrKind::Binding(b) => ParamAttrKindV::Binding(*b),
            ParamAttrKind::Other(s) => ParamAttrKindV::Other(s@),
        }
    }
}

impl Clone for ParamAttrKind {
    fn clone(&self) -> (res: Self)
        ensures
            res@ == self@,
    {
        match self {
            ParamAttrKind::Binding(b) => ParamAttrKind::Binding(*b),
            ParamAttrKind::Other(s) => ParamAttrKind::Other(s.clone()),
        }
    }
}

/// An attribute on a typed parameter.
#[derive(Debug, PartialEq, Eq)]
pub struct ParamAttr {
    pub kind: ParamAttrKind,
    pub span: u64,
}

/// The mathematical value of a [`ParamAttr`].
pub struct ParamAttrV {
    pub kind: ParamAttrKindV,
    pub span: u64,
}

impl View for ParamAttr {
    type V = ParamAttrV;

    open spec fn view(&self) -> ParamAttrV {
        ParamAttrV { kind: self.kind@, span: self.span }
    }
}

impl Clone for ParamAttr {
    fn clone(&self) -> (res: Self)
        ensures
            res@ == self@,
    {
        ParamAttr { kind: self.kind.clone(), span: self.span }
    }
}

/// A path type, kept as its segments; `std::future::Future` has the
/// segments `std`, `future`, `Future`.
#[derive(Debug, PartialEq, Eq)]
pub struct TypePath {
    pub segments: Vec<String>,
}

/// The mathematical value of a [`TypePath`].
pub struct TypePathV {
    pub segments: Seq<Seq<char>>,
}

impl View for TypePath {
    type V = TypePathV;

    open spec fn view(&self) -> TypePathV {
        TypePathV { segments: self.segments@.map_values(|s: String| s@) }
    }
}

impl Clone for TypePath {
    fn clone(&self) -> (res: Self)
        ensures
            res@ == self@,
    {
        let res = TypePath { segments: self.segments.clone() };
        proof {
            assert(res@.segments =~= self@.segments);
        }
        res
    }
}

/// The declared return type of a method.
#[derive(Debug, PartialEq, Eq)]
pub enum ReturnType {
    /// No declared return type.
    Default,
    /// An opaque `impl`-style type, as its list of required capabilities.
    ImplTrait(Vec<TypePath>),
    /// Any other type, carried through as text.
    Other(String),
}

/// The mathematical value of a [`ReturnType`].
pub enum ReturnTypeV {
    Default,
    ImplTrait(Seq<TypePathV>),
    Other(Seq<char>),
}

impl View for ReturnType {
    type V = ReturnTypeV;

    open spec fn view(&self) -> ReturnTypeV {
        match self {
            ReturnType::Default => ReturnTypeV::Default,
            ReturnType::ImplTrait(bounds) => ReturnTypeV::ImplTrait(view_seq(bounds@)),
            ReturnType::Other(s) => ReturnTypeV::Other(s@),
        }
    }
}

impl Clone for ReturnType {
    fn clone(&self) -> (res: Self)
        ensures
            res@ == self@,
    {
        match self {
            ReturnType::Default => ReturnType::Default,
            ReturnType::ImplTrait(bounds) => {
                let res = ReturnType::ImplTrait(bounds.clone());
                proof {
                    assert(res@->ImplTrait_0 =~= self@->ImplTrait_0);
                }
                res
            },
            ReturnType::Other(s) => ReturnType::Other(s.clone()),
        }
    }
}

/// A typed parameter of a method, with its attributes.
#[derive(Debug, PartialEq, Eq)]
pub struct Param {
    pub attrs: Vec<ParamAttr>,
    pub name: String,
    /// The parameter's type, carried through as text.
    pub ty: String,
}

/// The mathematical value of a [`Param`].
pub struct ParamV {
    pub attrs: Seq<ParamAttrV>,
    pub name: Seq<char>,
    pub ty: Seq<char>,
}

impl View for Param {
    type V = ParamV;

    open spec fn view(&self) -> ParamV {
        ParamV { attrs: view_seq(self.attrs@), name: self.name@, ty: self.ty@ }
    }
}

impl Clone for Param {
    fn clone(&self) -> (res: Self)
        ensures
            res@ == self@,
    {
        let res = Param { attrs: self.attrs.clone(), name: self.name.clone(), ty: self.ty.clone() };
        proof {
            assert(res@.attrs =~= self@.attrs);
        }
        res
    }
}

/// A declared method signature.
#[derive(Debug, PartialEq, Eq)]
pub struct Signature {
    pub name: String,
    /// Whether the method carries the explicit asynchronous qualifier.
    pub asyncness: bool,
    pub params: Vec<Param>,
    pub output: ReturnType,
}

/// The mathematical value of a [`Signature`].
pub struct SignatureV {
    pub name: Seq<char>,
    pub asyncness: bool,
    pub params: Seq<ParamV>,
    pub output: ReturnTypeV,
}

impl View for Signature {
    type V = SignatureV;

    open spec fn view(&self) -> SignatureV {
        SignatureV {
            name: self.name@,
            asyncness: self.asyncness,
            params: view_seq(self.params@),
            output: self.output@,
        }
    }
}

impl Clone for Signature {
    fn clone(&self) -> (res: Self)
        ensures
            res@ == self@,
    {
        let res = Signature {
            name: self.name.clone(),
            asyncness: self.asyncness,
            params: self.params.clone(),
            output: self.output.clone(),
        };
        proof {
            assert(res@.params =~= self@.params);
        }
        res
    }
}

/// A method of the interface: its attributes and signature.
#[derive(Debug, PartialEq, Eq)]
pub struct TraitMethod {
    pub attrs: Vec<MethodAttr>,
    pub sig: Signature,
    pub span: u64,
}

/// The mathematical value of a [`TraitMethod`].
pub struct TraitMethodV {
    pub attrs: Seq<MethodAttrV>,
    pub sig: SignatureV,
    pub span: u64,
}

impl View for TraitMethod {
    type V = TraitMethodV;

    open spec fn view(&self) -> TraitMethodV {
        TraitMethodV { attrs: view_seq(self.attrs@), sig: self.sig@, span: self.span }
    }
}

impl Clone for TraitMethod {
    fn clone(&self) -> (res: Self)
        ensures
            res@ == self@,
    {
        let res = TraitMethod { attrs: self.attrs.clone(), sig: self.sig.clone(), span: self.span };
        proof {
            assert(res@.attrs =~= self@.attrs);
        }
        res
    }
}

/// An item of the interface body.
#[derive(Debug, PartialEq, Eq)]
pub enum TraitItem {
    /// A declared method.
    Method(TraitMethod),
    /// Any other item; not validated, carried through as text.
    Other(String),
}

/// The mathematical value of a [`TraitItem`].
pub enum TraitItemV {
    Method(TraitMethodV),
    Other(Seq<char>),
}

impl View for TraitItem {
    type V = TraitItemV;

    open spec fn view(&self) -> TraitItemV {
        match self {
            TraitItem::Method(m) => TraitItemV::Method(m@),
            TraitItem::Other(s) => TraitItemV::Other(s@),
        }
    }
}

impl Clone for TraitItem {
    fn clone(&self) -> (res: Self)
        ensures
            res@ == self@,
    {
        match self {
            TraitItem::Method(m) => TraitItem::Method(m.clone()),
            TraitItem::Other(s) => TraitItem::Other(s.clone()),
        }
    }
}

/// How many of the items are methods.
pub open spec fn method_count(items: Seq<TraitItemV>) -> nat
    decreases items.len(),
{
    if items.len() == 0 {
        0
    } else {
        (if items.first() is Method {
            1nat
        } else {
            0nat
        }) + method_count(items.drop_first())
    }
}

/// Two item lists of the same shape — methods in the same positions —
/// hold the same number of methods.
pub proof fn lemma_method_count_same_shape(a: Seq<TraitItemV>, b: Seq<TraitItemV>)
    requires
        a.len() == b.len(),
        forall|i: int| 0 <= i < a.len() ==> ((#[trigger] a[i]) is Method <==> (#[trigger] b[i]) is Method),
    ensures
        method_count(a) == method_count(b),
    decreases a.len(),
{
    if a.len() > 0 {
        assert(forall|i: int| 0 <= i < a.drop_first().len() ==> a.drop_first()[i] == a[i + 1]);
        assert(forall|i: int| 0 <= i < b.drop_first().len() ==> b.drop_first()[i] == b[i + 1]);
        lemma_method_count_same_shape(a.drop_first(), b.drop_first());
        assert(a[0] == a.first());
        assert(b[0] == b.first());
    }
}

/// The full interface declaration: its name and its items.
#[derive(Debug, PartialEq, Eq)]
pub struct Interface {
    pub name: String,
    pub items: Vec<TraitItem>,
}

/// The mathematical value of an [`Interface`].
pub struct InterfaceV {
    pub name: Seq<char>,
    pub items: Seq<TraitItemV>,
}

impl View for Interface {
    type V = InterfaceV;

    open spec fn view(&self) -> InterfaceV {
        InterfaceV { name: self.name@, items: view_seq(self.items@) }
    }
}

impl Clone for Interface {
    fn clone(&self) -> (res: Self)
        ensures
            res@ == self@,
    {
        let res = Interface { name: self.name.clone(), items: self.items.clone() };
        proof {
            assert(res@.items =~= self@.items);
        }
        res
    }
}

} // verus!
