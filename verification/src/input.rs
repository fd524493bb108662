//! Validation of the raw interface declaration.
//!
//! The validator walks the interface's items in declaration order and,
//! for each method, resolves its endpoint annotation and checks that it
//! is asynchronous. It stops at the first violation (fail-fast, no
//! aggregation). Non-method items are ignored: they are neither
//! validated nor rejected, and pass through to the emitted interface.

use vstd::prelude::*;

use crate::ast::{Interface, TraitItemV, TraitMethod, TraitMethodV};
use crate::asyncness::{is_async, signature_is_async};
use crate::diag::{ApiError, ApiErrorV};
use crate::endpoint::{
    endpoint_of_attrs, is_endpoint_attr, lemma_find_verb_arg_at, lemma_find_verb_arg_none_for,
    scan_endpoint, EndpointAttr, EndpointAttrV,
};
use crate::ast::{AttrArgV, view_seq};
use crate::endpoint::HttpMethod;

verus! {

/// The validated input of a generation run: the interface's name and its
/// methods, each paired with its resolved endpoint annotation.
pub struct ApiMacroInput {
    pub api_trait_name: String,
    pub methods: Vec<(TraitMethod, EndpointAttr)>,
}

/// The mathematical value of a validated method list.
pub open spec fn methods_view(ms: Seq<(TraitMethod, EndpointAttr)>) -> Seq<
    (TraitMethodV, EndpointAttrV),
> {
    ms.map_values(|p: (TraitMethod, EndpointAttr)| (p.0@, p.1@))
}

/// The mathematical value of an [`ApiMacroInput`].
pub struct ApiMacroInputV {
    pub api_trait_name: Seq<char>,
    pub methods: Seq<(TraitMethodV, EndpointAttrV)>,
}

impl View for ApiMacroInput {
    type V = ApiMacroInputV;

    open spec fn view(&self) -> ApiMacroInputV {
        ApiMacroInputV {
            api_trait_name: self.api_trait_name@,
            methods: methods_view(self.methods@),
        }
    }
}

/// What validating a single method yields: its endpoint annotation, or
/// the first of — a missing-annotation diagnostic at the method's span,
/// a malformed-argument diagnostic at the attribute's span, a
/// not-asynchronous diagnostic at the method's span.
pub open spec fn check_method(m: TraitMethodV) -> Result<EndpointAttrV, ApiErrorV> {
    match endpoint_of_attrs(m.attrs) {
        None => Err(ApiErrorV::MissingEndpointAnnotation { span: m.span }),
        Some(Err(e)) => Err(e),
        Some(Ok(ep)) => if signature_is_async(m.sig) {
            Ok(ep)
        } else {
            Err(ApiErrorV::NotAsynchronous { span: m.span })
        },
    }
}

/// What validating the interface body yields: the methods in declaration
/// order, each with its endpoint annotation, or the first failure
/// encountered. Non-method items are skipped.
pub open spec fn validate_items(items: Seq<TraitItemV>) -> Result<
    Seq<(TraitMethodV, EndpointAttrV)>,
    ApiErrorV,
>
    decreases items.len(),
{
    if items.len() == 0 {
        Ok(Seq::empty())
    } else {
        match items.first() {
            TraitItemV::Other(_) => validate_items(items.drop_first()),
            TraitItemV::Method(m) => match check_method(m) {
                Err(e) => Err(e),
                Ok(ep) => match validate_items(items.drop_first()) {
                    Err(e) => Err(e),
                    Ok(rest) => Ok(seq![(m, ep)] + rest),
                },
            },
        }
    }
}

/// For a method carrying none of the six recognized endpoint attributes,
/// validation yields a missing-endpoint-annotation diagnostic at the
/// method's span.
pub proof fn lemma_missing_endpoint_annotation(m: TraitMethodV)
    requires
        forall|i: int| 0 <= i < m.attrs.len() ==> !is_endpoint_attr(#[trigger] m.attrs[i]),
    ensures
        check_method(m) == Err::<EndpointAttrV, ApiErrorV>(
            ApiErrorV::MissingEndpointAnnotation { span: m.span },
        ),
{
    lemma_find_verb_arg_none_for(m.attrs, HttpMethod::Get);
    lemma_find_verb_arg_none_for(m.attrs, HttpMethod::Post);
    lemma_find_verb_arg_none_for(m.attrs, HttpMethod::Put);
    lemma_find_verb_arg_none_for(m.attrs, HttpMethod::Patch);
    lemma_find_verb_arg_none_for(m.attrs, HttpMethod::Delete);
    lemma_find_verb_arg_none_for(m.attrs, HttpMethod::Head);
}

/// For a method whose selected endpoint attribute — the first match in
/// verb-scan order — carries an argument that is not a single string
/// literal, validation yields a malformed-endpoint-argument diagnostic
/// at that attribute's span, with the literal parser's message passed
/// through.
pub proof fn lemma_malformed_endpoint_argument(
    m: TraitMethodV,
    v: HttpMethod,
    msg: Seq<char>,
    span: u64,
)
    requires
        scan_endpoint(m.attrs) == Some((v, AttrArgV::Other(msg), span)),
    ensures
        check_method(m) == Err::<EndpointAttrV, ApiErrorV>(
            ApiErrorV::MalformedEndpointArgument { span, message: msg },
        ),
{
}

/// For a method whose sole endpoint attribute carries an argument that
/// is not a single string literal — as in `get(123)` — validation
/// yields a malformed-endpoint-argument diagnostic at that attribute's
/// span.
pub proof fn lemma_sole_malformed_endpoint_argument(
    m: TraitMethodV,
    i: int,
    v: HttpMethod,
    msg: Seq<char>,
)
    requires
        0 <= i < m.attrs.len(),
        m.attrs[i].kind == crate::ast::MethodAttrKindV::Endpoint(v, AttrArgV::Other(msg)),
        forall|k: int|
            0 <= k < m.attrs.len() && k != i ==> !is_endpoint_attr(#[trigger] m.attrs[k]),
    ensures
        check_method(m) == Err::<EndpointAttrV, ApiErrorV>(
            ApiErrorV::MalformedEndpointArgument { span: m.attrs[i].span, message: msg },
        ),
{
    if v != HttpMethod::Get {
        lemma_find_verb_arg_none_for(m.attrs, HttpMethod::Get);
    }
    if v != HttpMethod::Post {
        lemma_find_verb_arg_none_for(m.attrs, HttpMethod::Post);
    }
    if v != HttpMethod::Put {
        lemma_find_verb_arg_none_for(m.attrs, HttpMethod::Put);
    }
    if v != HttpMethod::Patch {
        lemma_find_verb_arg_none_for(m.attrs, HttpMethod::Patch);
    }
    if v != HttpMethod::Delete {
        lemma_find_verb_arg_none_for(m.attrs, HttpMethod::Delete);
    }
    if v != HttpMethod::Head {
        lemma_find_verb_arg_none_for(m.attrs, HttpMethod::Head);
    }
    lemma_find_verb_arg_at(m.attrs, v, i);
}

/// For an interface body every method of which passes the per-method
/// check, validation succeeds and yields one entry per method.
pub proof fn lemma_validate_items_all_ok(items: Seq<TraitItemV>)
    requires
        forall|i: int|
            0 <= i < items.len() ==> (#[trigger] items[i] matches TraitItemV::Method(m)
                ==> check_method(m) is Ok),
    ensures
        validate_items(items) is Ok,
        validate_items(items)->Ok_0.len() == crate::ast::method_count(items),
    decreases items.len(),
{
    if items.len() > 0 {
        assert(forall|i: int|
            0 <= i < items.drop_first().len() ==> items.drop_first()[i] == items[i + 1]);
        lemma_validate_items_all_ok(items.drop_first());
        assert(items[0] == items.first());
    }
}

/// Validates the interface declaration, producing its validated method
/// list or the first failure, scanning methods in declaration order.
pub fn parse_api_macro_input(item_trait: &Interface) -> (r: Result<ApiMacroInput, ApiError>)
    ensures
        (r matches Ok(inp) ==> validate_items(item_trait@.items) == Ok::<
            Seq<(TraitMethodV, EndpointAttrV)>,
            ApiErrorV,
        >(inp@.methods) && inp@.api_trait_name == item_trait@.name),
        (r matches Err(e) ==> validate_items(item_trait@.items) == Err::<
            Seq<(TraitMethodV, EndpointAttrV)>,
            ApiErrorV,
        >(e@)),
{
    let ghost itemsv = item_trait@.items;
    let mut methods: Vec<(TraitMethod, EndpointAttr)> = Vec::new();
    let n = item_trait.items.len();
    let mut i: usize = 0;
    proof {
        assert(itemsv.skip(0) =~= itemsv);
    }
    while i < n
        invariant
            i <= n,
            n == item_trait.items@.len(),
            itemsv == item_trait@.items,
            itemsv.len() == n,
            validate_items(itemsv) == (match validate_items(itemsv.skip(i as int)) {
                Ok(rest) => Ok::<Seq<(TraitMethodV, EndpointAttrV)>, ApiErrorV>(
                    methods_view(methods@) + rest,
                ),
                Err(e) => Err::<Seq<(TraitMethodV, EndpointAttrV)>, ApiErrorV>(e),
            }),
        decreases n - i,
    {
        proof {
            assert(itemsv.skip(i as int).first() == itemsv[i as int]);
            assert(itemsv.skip(i as int).drop_first() =~= itemsv.skip(i as int + 1));
            assert(itemsv[i as int] == item_trait.items@[i as int]@);
        }
        match &item_trait.items[i] {
            crate::ast::TraitItem::Other(_) => {},
            crate::ast::TraitItem::Method(method) => {
                let ghost mv = itemsv[i as int]->Method_0;
                proof {
                    assert(mv == method@);
                    assert(mv.attrs == view_seq(method.attrs@));
                }
                match EndpointAttr::from_attrs(&method.attrs) {
                    None => {
                        proof {
                            assert(check_method(mv) == Err::<EndpointAttrV, ApiErrorV>(
                                ApiErrorV::MissingEndpointAnnotation { span: mv.span },
                            ));
                        }
                        return Err(ApiError::MissingEndpointAnnotation { span: method.span });
                    },
                    Some(Err(e)) => {
                        return Err(e);
                    },
                    Some(Ok(endpoint_attr)) => {
                        if !is_async(&method.sig) {
                            return Err(ApiError::NotAsynchronous { span: method.span });
                        }
                        let ghost epv = endpoint_attr@;
                        let ghost before = methods_view(methods@);
                        methods.push((method.clone(), endpoint_attr));
                        proof {
                            assert(check_method(mv) == Ok::<EndpointAttrV, ApiErrorV>(epv));
                            assert(methods_view(methods@) =~= before + seq![(mv, epv)]);
                            let tail = validate_items(itemsv.skip(i as int + 1));
                            if tail is Ok {
                                let rest = tail->Ok_0;
                                assert((before + (seq![(mv, epv)] + rest)) =~= (methods_view(
                                    methods@,
                                ) + rest));
                            }
                        }
                    },
                }
            },
        }
        i += 1;
    }
    proof {
        assert(itemsv.skip(n as int) =~= Seq::<TraitItemV>::empty());
        assert(methods_view(methods@) + Seq::<(TraitMethodV, EndpointAttrV)>::empty() =~= methods_view(
            methods@,
        ));
    }
    Ok(ApiMacroInput { api_trait_name: item_trait.name.clone(), methods })
}

} // verus!
