//! The annotation stripper: removes every generation-only attribute —
//! the six endpoint ones from methods, the five parameter-binding ones
//! from typed parameters — while leaving all other structure untouched.
//! Stripping rebuilds the construct rather than mutating it in place,
//! and is idempotent: stripping an already-stripped fragment returns an
//! identical fragment.

use vstd::prelude::*;

use crate::ast::{
    view_seq, Interface, InterfaceV, MethodAttr, MethodAttrV, Param, ParamAttr, ParamAttrV, ParamV,
    Signature, SignatureV, TraitItem, TraitItemV, TraitMethod, TraitMethodV,
};
use crate::endpoint::is_endpoint_attr;

verus! {

/// Whether an attribute on a typed parameter is one of the five
/// recognized parameter-binding attributes.
pub open spec fn is_binding_attr(a: ParamAttrV) -> bool {
    a.kind is Binding
}

/// Whether a method attribute survives stripping.
pub open spec fn keep_method_attr(a: MethodAttrV) -> bool {
    !is_endpoint_attr(a)
}

/// Whether a parameter attribute survives stripping.
pub open spec fn keep_param_attr(a: ParamAttrV) -> bool {
    !is_binding_attr(a)
}

/// A method attribute list with the endpoint attributes removed.
pub open spec fn strip_method_attrs(attrs: Seq<MethodAttrV>) -> Seq<MethodAttrV> {
    attrs.filter(|a: MethodAttrV| keep_method_attr(a))
}

/// A parameter attribute list with the binding attributes removed.
pub open spec fn strip_param_attrs(attrs: Seq<ParamAttrV>) -> Seq<ParamAttrV> {
    attrs.filter(|a: ParamAttrV| keep_param_attr(a))
}

/// A parameter with its binding attributes removed.
pub open spec fn strip_param(p: ParamV) -> ParamV {
    ParamV { attrs: strip_param_attrs(p.attrs), name: p.name, ty: p.ty }
}

/// A signature with every parameter's binding attributes removed.
pub open spec fn strip_signature(s: SignatureV) -> SignatureV {
    SignatureV {
        name: s.name,
        asyncness: s.asyncness,
        params: s.params.map_values(|p: ParamV| strip_param(p)),
        output: s.output,
    }
}

/// A method with its endpoint attributes and its parameters' binding
/// attributes removed.
pub open spec fn strip_method(m: TraitMethodV) -> TraitMethodV {
    TraitMethodV { attrs: strip_method_attrs(m.attrs), sig: strip_signature(m.sig), span: m.span }
}

/// An interface item with every generation-only attribute removed;
/// non-method items are left untouched.
pub open spec fn strip_item(it: TraitItemV) -> TraitItemV {
    match it {
        TraitItemV::Method(m) => TraitItemV::Method(strip_method(m)),
        TraitItemV::Other(s) => TraitItemV::Other(s),
    }
}

/// An interface with every generation-only attribute removed from every
/// method and parameter.
pub open spec fn strip_interface(iv: InterfaceV) -> InterfaceV {
    InterfaceV { name: iv.name, items: iv.items.map_values(|it: TraitItemV| strip_item(it)) }
}

/// No endpoint attribute survives in the list.
pub open spec fn method_attrs_clean(attrs: Seq<MethodAttrV>) -> bool {
    forall|i: int| 0 <= i < attrs.len() ==> keep_method_attr(#[trigger] attrs[i])
}

/// No binding attribute survives on the parameter.
pub open spec fn param_clean(p: ParamV) -> bool {
    forall|i: int| 0 <= i < p.attrs.len() ==> keep_param_attr(#[trigger] p.attrs[i])
}

/// No binding attribute survives on any parameter of the signature.
pub open spec fn signature_clean(s: SignatureV) -> bool {
    forall|i: int| 0 <= i < s.params.len() ==> param_clean(#[trigger] s.params[i])
}

/// No generation-only attribute survives on the method.
pub open spec fn method_clean(m: TraitMethodV) -> bool {
    method_attrs_clean(m.attrs) && signature_clean(m.sig)
}

/// No generation-only attribute survives anywhere in the interface.
pub open spec fn interface_clean(iv: InterfaceV) -> bool {
    forall|i: int|
        0 <= i < iv.items.len() ==> (#[trigger] iv.items[i] matches TraitItemV::Method(m)
            ==> method_clean(m))
}

/// Extending the stripped prefix of a method attribute list by one
/// attribute keeps it exactly when it is not an endpoint attribute.
proof fn lemma_strip_method_attrs_step(s: Seq<MethodAttrV>, i: int)
    requires
        0 <= i < s.len(),
    ensures
        strip_method_attrs(s.subrange(0, i + 1)) == if keep_method_attr(s[i]) {
            strip_method_attrs(s.subrange(0, i)).push(s[i])
        } else {
            strip_method_attrs(s.subrange(0, i))
        },
{
    reveal(Seq::filter);
    assert(s.subrange(0, i + 1).drop_last() =~= s.subrange(0, i));
    assert(s.subrange(0, i + 1).last() == s[i]);
}

/// The parameter-attribute analogue of the step lemma above.
proof fn lemma_strip_param_attrs_step(s: Seq<ParamAttrV>, i: int)
    requires
        0 <= i < s.len(),
    ensures
        strip_param_attrs(s.subrange(0, i + 1)) == if keep_param_attr(s[i]) {
            strip_param_attrs(s.subrange(0, i)).push(s[i])
        } else {
            strip_param_attrs(s.subrange(0, i))
        },
{
    reveal(Seq::filter);
    assert(s.subrange(0, i + 1).drop_last() =~= s.subrange(0, i));
    assert(s.subrange(0, i + 1).last() == s[i]);
}

/// A list every attribute of which survives stripping is left unchanged.
proof fn lemma_strip_method_attrs_all_kept(s: Seq<MethodAttrV>)
    requires
        method_attrs_clean(s),
    ensures
        strip_method_attrs(s) == s,
    decreases s.len(),
{
    reveal(Seq::filter);
    if s.len() > 0 {
        assert(forall|i: int|
            0 <= i < s.drop_last().len() ==> keep_method_attr(#[trigger] s.drop_last()[i]));
        lemma_strip_method_attrs_all_kept(s.drop_last());
        assert(s.drop_last().push(s.last()) =~= s);
    }
}

/// The parameter-attribute analogue of the lemma above.
proof fn lemma_strip_param_attrs_all_kept(s: Seq<ParamAttrV>)
    requires
        forall|i: int| 0 <= i < s.len() ==> keep_param_attr(#[trigger] s[i]),
    ensures
        strip_param_attrs(s) == s,
    decreases s.len(),
{
    reveal(Seq::filter);
    if s.len() > 0 {
        assert(forall|i: int|
            0 <= i < s.drop_last().len() ==> keep_param_attr(#[trigger] s.drop_last()[i]));
        lemma_strip_param_attrs_all_kept(s.drop_last());
        assert(s.drop_last().push(s.last()) =~= s);
    }
}

/// Stripping a method attribute list leaves no endpoint attribute.
pub proof fn lemma_strip_method_attrs_clean(s: Seq<MethodAttrV>)
    ensures
        method_attrs_clean(strip_method_attrs(s)),
{
    broadcast use vstd::seq_lib::group_filter_ensures;

}

/// Stripping a parameter leaves no binding attribute.
pub proof fn lemma_strip_param_clean(p: ParamV)
    ensures
        param_clean(strip_param(p)),
{
    broadcast use vstd::seq_lib::group_filter_ensures;

}

/// Stripping a method leaves no generation-only attribute on it.
pub proof fn lemma_strip_method_clean(m: TraitMethodV)
    ensures
        method_clean(strip_method(m)),
{
    broadcast use vstd::seq_lib::group_filter_ensures;

    assert forall|i: int| 0 <= i < strip_method(m).sig.params.len() implies param_clean(
        #[trigger] strip_method(m).sig.params[i],
    ) by {
        lemma_strip_param_clean(m.sig.params[i]);
    }
}

/// Stripping an interface leaves no generation-only attribute anywhere
/// in it.
pub proof fn lemma_strip_interface_clean(iv: InterfaceV)
    ensures
        interface_clean(strip_interface(iv)),
{
    assert forall|i: int|
        0 <= i < strip_interface(iv).items.len() implies (#[trigger] strip_interface(
        iv,
    ).items[i] matches TraitItemV::Method(m) ==> method_clean(m)) by {
        if iv.items[i] is Method {
            lemma_strip_method_clean(iv.items[i]->Method_0);
        }
    }
}

/// Stripping an interface keeps every method a method and every other
/// item untouched, so the number of methods is preserved.
pub proof fn lemma_strip_interface_method_count(iv: InterfaceV)
    ensures
        crate::ast::method_count(strip_interface(iv).items) == crate::ast::method_count(iv.items),
{
    let stripped = strip_interface(iv).items;
    assert(forall|i: int|
        0 <= i < iv.items.len() ==> ((#[trigger] iv.items[i]) is Method <==> (#[trigger] stripped[i]) is Method));
    crate::ast::lemma_method_count_same_shape(iv.items, stripped);
}

/// Stripping an already-stripped parameter returns it unchanged.
pub proof fn lemma_strip_param_idempotent(p: ParamV)
    ensures
        strip_param(strip_param(p)) == strip_param(p),
{
    broadcast use vstd::seq_lib::group_filter_ensures;

    lemma_strip_param_attrs_all_kept(strip_param_attrs(p.attrs));
}

/// Stripping an already-stripped signature returns it unchanged.
pub proof fn lemma_strip_signature_idempotent(s: SignatureV)
    ensures
        strip_signature(strip_signature(s)) == strip_signature(s),
{
    let once = strip_signature(s);
    assert forall|i: int| 0 <= i < once.params.len() implies strip_param(#[trigger] once.params[i])
        == once.params[i] by {
        lemma_strip_param_idempotent(s.params[i]);
    }
    assert(strip_signature(once).params =~= once.params);
}

/// Stripping an already-stripped method returns it unchanged: the
/// annotation stripper is idempotent on methods.
pub proof fn lemma_strip_method_idempotent(m: TraitMethodV)
    ensures
        strip_method(strip_method(m)) == strip_method(m),
{
    broadcast use vstd::seq_lib::group_filter_ensures;

    lemma_strip_method_attrs_all_kept(strip_method_attrs(m.attrs));
    lemma_strip_signature_idempotent(m.sig);
}

/// Stripping an already-stripped interface returns an identical
/// interface: the annotation stripper is idempotent.
pub proof fn lemma_strip_interface_idempotent(iv: InterfaceV)
    ensures
        strip_interface(strip_interface(iv)) == strip_interface(iv),
{
    let once = strip_interface(iv);
    assert forall|i: int| 0 <= i < once.items.len() implies strip_item(#[trigger] once.items[i])
        == once.items[i] by {
        if iv.items[i] is Method {
            lemma_strip_method_idempotent(iv.items[i]->Method_0);
        }
    }
    assert(strip_interface(once).items =~= once.items);
}

/// Removes the six endpoint attributes from a method attribute list,
/// keeping everything else in order.
pub fn remove_endpoint_attrs(attrs: &Vec<MethodAttr>) -> (r: Vec<MethodAttr>)
    ensures
        view_seq(r@) == strip_method_attrs(view_seq(attrs@)),
{
    let ghost av = view_seq(attrs@);
    let mut out: Vec<MethodAttr> = Vec::new();
    let n = attrs.len();
    let mut i: usize = 0;
    proof {
        reveal(Seq::filter);
        assert(av.subrange(0, 0) =~= Seq::<MethodAttrV>::empty());
        assert(view_seq(out@) =~= strip_method_attrs(av.subrange(0, 0)));
    }
    while i < n
        invariant
            i <= n,
            n == attrs@.len(),
            av == view_seq(attrs@),
            av.len() == n,
            view_seq(out@) == strip_method_attrs(av.subrange(0, i as int)),
        decreases n - i,
    {
        proof {
            lemma_strip_method_attrs_step(av, i as int);
        }
        let a = &attrs[i];
        let ghost before = view_seq(out@);
        match &a.kind {
            crate::ast::MethodAttrKind::Endpoint(_, _) => {},
            crate::ast::MethodAttrKind::Other(_) => {
                out.push(a.clone());
                proof {
                    assert(view_seq(out@) =~= before.push(av[i as int]));
                }
            },
        }
        i += 1;
    }
    proof {
        assert(av.subrange(0, n as int) =~= av);
    }
    out
}

/// Removes the five parameter-binding attributes from a parameter
/// attribute list, keeping everything else in order.
pub fn remove_param_attrs(attrs: &Vec<ParamAttr>) -> (r: Vec<ParamAttr>)
    ensures
        view_seq(r@) == strip_param_attrs(view_seq(attrs@)),
{
    let ghost av = view_seq(attrs@);
    let mut out: Vec<ParamAttr> = Vec::new();
    let n = attrs.len();
    let mut i: usize = 0;
    proof {
        reveal(Seq::filter);
        assert(av.subrange(0, 0) =~= Seq::<ParamAttrV>::empty());
        assert(view_seq(out@) =~= strip_param_attrs(av.subrange(0, 0)));
    }
    while i < n
        invariant
            i <= n,
            n == attrs@.len(),
            av == view_seq(attrs@),
            av.len() == n,
            view_seq(out@) == strip_param_attrs(av.subrange(0, i as int)),
        decreases n - i,
    {
        proof {
            lemma_strip_param_attrs_step(av, i as int);
        }
        let a = &attrs[i];
        let ghost before = view_seq(out@);
        match &a.kind {
            crate::ast::ParamAttrKind::Binding(_) => {},
            crate::ast::ParamAttrKind::Other(_) => {
                out.push(a.clone());
                proof {
                    assert(view_seq(out@) =~= before.push(av[i as int]));
                }
            },
        }
        i += 1;
    }
    proof {
        assert(av.subrange(0, n as int) =~= av);
    }
    out
}

/// Rebuilds a parameter without its binding attributes.
pub fn remove_attrs_from_param(p: &Param) -> (r: Param)
    ensures
        r@ == strip_param(p@),
{
    Param { attrs: remove_param_attrs(&p.attrs), name: p.name.clone(), ty: p.ty.clone() }
}

/// Rebuilds a signature without its parameters' binding attributes.
pub fn remove_attrs_from_signature(s: &Signature) -> (r: Signature)
    ensures
        r@ == strip_signature(s@),
{
    let mut params: Vec<Param> = Vec::new();
    let n = s.params.len();
    let mut i: usize = 0;
    while i < n
        invariant
            i <= n,
            n == s.params@.len(),
            view_seq(params@) =~= s@.params.map_values(|p: ParamV| strip_param(p)).subrange(
                0,
                i as int,
            ),
        decreases n - i,
    {
        let ghost before = view_seq(params@);
        params.push(remove_attrs_from_param(&s.params[i]));
        proof {
            assert(view_seq(params@) =~= before.push(strip_param(s@.params[i as int])));
            assert(view_seq(params@) =~= s@.params.map_values(|p: ParamV| strip_param(p)).subrange(
                0,
                i as int + 1,
            ));
        }
        i += 1;
    }
    let r = Signature {
        name: s.name.clone(),
        asyncness: s.asyncness,
        params,
        output: s.output.clone(),
    };
    proof {
        assert(r@.params =~= strip_signature(s@).params);
    }
    r
}

/// Rebuilds a method without any generation-only attribute, on the
/// method itself or on its parameters.
pub fn remove_attrs_from_method(m: &TraitMethod) -> (r: TraitMethod)
    ensures
        r@ == strip_method(m@),
{
    TraitMethod {
        attrs: remove_endpoint_attrs(&m.attrs),
        sig: remove_attrs_from_signature(&m.sig),
        span: m.span,
    }
}

/// Rebuilds an interface item without any generation-only attribute;
/// non-method items are carried through untouched.
pub fn remove_attrs_from_item(it: &TraitItem) -> (r: TraitItem)
    ensures
        r@ == strip_item(it@),
{
    match it {
        TraitItem::Method(m) => TraitItem::Method(remove_attrs_from_method(m)),
        TraitItem::Other(s) => TraitItem::Other(s.clone()),
    }
}

/// Rebuilds the interface without any generation-only attribute
/// anywhere in it.
pub fn remove_attrs_from_interface(item_trait: &Interface) -> (r: Interface)
    ensures
        r@ == strip_interface(item_trait@),
{
    let mut items: Vec<TraitItem> = Vec::new();
    let n = item_trait.items.len();
    let mut i: usize = 0;
    while i < n
        invariant
            i <= n,
            n == item_trait.items@.len(),
            view_seq(items@) =~= item_trait@.items.map_values(|it: TraitItemV| strip_item(it))
                .subrange(0, i as int),
        decreases n - i,
    {
        let ghost before = view_seq(items@);
        items.push(remove_attrs_from_item(&item_trait.items[i]));
        proof {
            assert(view_seq(items@) =~= before.push(strip_item(item_trait@.items[i as int])));
            assert(view_seq(items@) =~= item_trait@.items.map_values(
                |it: TraitItemV| strip_item(it),
            ).subrange(0, i as int + 1));
        }
        i += 1;
    }
    let r = Interface { name: item_trait.name.clone(), items };
    proof {
        assert(r@.items =~= strip_interface(item_trait@).items);
    }
    r
}

} // verus!
