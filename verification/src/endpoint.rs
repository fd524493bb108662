//! The endpoint attribute: an HTTP verb paired with a URI template, and
//! the parser that extracts it from a method's attribute list.

use vstd::prelude::*;

use crate::ast::{view_seq, AttrArg, AttrArgV, MethodAttr, MethodAttrKindV, MethodAttrV};
use crate::diag::{ApiError, ApiErrorV};

verus! {

/// One of the six recognized HTTP verbs an endpoint attribute may carry.
#[derive(Debug, Clone, Copy, PartialEq, Eq, Structural)]
pub enum HttpMethod {
    Get,
    Post,
    Put,
    Patch,
    Delete,
    Head,
}

impl HttpMethod {
    /// The verb's name in snake case, as it appears in source attributes
    /// and as the transport handle's request method is selected.
    pub open spec fn spec_name(self) -> Seq<char> {
        match self {
            HttpMethod::Get => "get"@,
            HttpMethod::Post => "post"@,
            HttpMethod::Put => "put"@,
            HttpMethod::Patch => "patch"@,
            HttpMethod::Delete => "delete"@,
            HttpMethod::Head => "head"@,
        }
    }

    /// Returns the verb's name in snake case.
    pub fn name(&self) -> (r: &'static str)
        ensures
            r@ == self.spec_name(),
    {
        match self {
            HttpMethod::Get => "get",
            HttpMethod::Post => "post",
            HttpMethod::Put => "put",
            HttpMethod::Patch => "patch",
            HttpMethod::Delete => "delete",
            HttpMethod::Head => "head",
        }
    }
}

/// A method's resolved endpoint annotation: its verb and URI template.
#[derive(Debug, PartialEq, Eq)]
pub struct EndpointAttr {
    pub method: HttpMethod,
    pub uri: String,
}

/// The mathematical value of an [`EndpointAttr`].
pub struct EndpointAttrV {
    pub method: HttpMethod,
    pub uri: Seq<char>,
}

impl View for EndpointAttr {
    type V = EndpointAttrV;

    open spec fn view(&self) -> EndpointAttrV {
        EndpointAttrV { method: self.method, uri: self.uri@ }
    }
}

/// Whether an attribute is one of the six recognized endpoint
/// attributes.
pub open spec fn is_endpoint_attr(a: MethodAttrV) -> bool {
    a.kind is Endpoint
}

/// Whether an attribute is an endpoint attribute carrying the verb `v`.
pub open spec fn is_verb_attr(a: MethodAttrV, v: HttpMethod) -> bool {
    a.kind matches MethodAttrKindV::Endpoint(w, _) && w == v
}

/// An attribute list in which no attribute carries the verb `v` yields
/// no match for `v`.
pub proof fn lemma_find_verb_arg_none_for(attrs: Seq<MethodAttrV>, v: HttpMethod)
    requires
        forall|i: int| 0 <= i < attrs.len() ==> !is_verb_attr(#[trigger] attrs[i], v),
    ensures
        find_verb_arg(attrs, v) is None,
    decreases attrs.len(),
{
    if attrs.len() > 0 {
        assert(forall|i: int|
            0 <= i < attrs.drop_first().len() ==> attrs.drop_first()[i] == attrs[i + 1]);
        lemma_find_verb_arg_none_for(attrs.drop_first(), v);
    }
}

/// The first attribute carrying the verb `v` is the one the search for
/// `v` returns.
pub proof fn lemma_find_verb_arg_at(attrs: Seq<MethodAttrV>, v: HttpMethod, i: int)
    requires
        0 <= i < attrs.len(),
        is_verb_attr(attrs[i], v),
        forall|k: int| 0 <= k < i ==> !is_verb_attr(#[trigger] attrs[k], v),
    ensures
        find_verb_arg(attrs, v) == Some((attrs[i].kind->Endpoint_1, attrs[i].span)),
    decreases i,
{
    if i > 0 {
        assert(forall|k: int|
            0 <= k < attrs.drop_first().len() ==> attrs.drop_first()[k] == attrs[k + 1]);
        lemma_find_verb_arg_at(attrs.drop_first(), v, i - 1);
        assert(attrs[0] == attrs.first());
    }
}

/// The first attribute in list order that carries the given verb, as its
/// argument and span.
pub open spec fn find_verb_arg(attrs: Seq<MethodAttrV>, v: HttpMethod) -> Option<(AttrArgV, u64)>
    decreases attrs.len(),
{
    if attrs.len() == 0 {
        None
    } else {
        let a = attrs.first();
        match a.kind {
            MethodAttrKindV::Endpoint(w, arg) => if w == v {
                Some((arg, a.span))
            } else {
                find_verb_arg(attrs.drop_first(), v)
            },
            MethodAttrKindV::Other(_) => find_verb_arg(attrs.drop_first(), v),
        }
    }
}

/// Pairs a found argument with the verb it was found under.
pub open spec fn with_verb(v: HttpMethod, found: Option<(AttrArgV, u64)>) -> Option<
    (HttpMethod, AttrArgV, u64),
> {
    match found {
        Some(p) => Some((v, p.0, p.1)),
        None => None,
    }
}

/// The endpoint annotation selected for a method: the verbs are consulted
/// in their fixed declaration order — get, post, put, patch, delete,
/// head — and the first verb any attribute carries wins, whatever the
/// attributes' source order. When several endpoint attributes are
/// present, only that first match is consulted; this asymmetry is a
/// deliberate simplification, not a validated invariant.
pub open spec fn scan_endpoint(attrs: Seq<MethodAttrV>) -> Option<(HttpMethod, AttrArgV, u64)> {
    if find_verb_arg(attrs, HttpMethod::Get) is Some {
        with_verb(HttpMethod::Get, find_verb_arg(attrs, HttpMethod::Get))
    } else if find_verb_arg(attrs, HttpMethod::Post) is Some {
        with_verb(HttpMethod::Post, find_verb_arg(attrs, HttpMethod::Post))
    } else if find_verb_arg(attrs, HttpMethod::Put) is Some {
        with_verb(HttpMethod::Put, find_verb_arg(attrs, HttpMethod::Put))
    } else if find_verb_arg(attrs, HttpMethod::Patch) is Some {
        with_verb(HttpMethod::Patch, find_verb_arg(attrs, HttpMethod::Patch))
    } else if find_verb_arg(attrs, HttpMethod::Delete) is Some {
        with_verb(HttpMethod::Delete, find_verb_arg(attrs, HttpMethod::Delete))
    } else if find_verb_arg(attrs, HttpMethod::Head) is Some {
        with_verb(HttpMethod::Head, find_verb_arg(attrs, HttpMethod::Head))
    } else {
        None
    }
}

/// What extracting the endpoint annotation from an attribute list yields:
/// nothing when no recognized verb is present; the annotation when the
/// selected attribute's argument is a string literal; and a malformed-
/// argument diagnostic at the attribute's span otherwise.
pub open spec fn endpoint_of_attrs(attrs: Seq<MethodAttrV>) -> Option<
    Result<EndpointAttrV, ApiErrorV>,
> {
    match scan_endpoint(attrs) {
        None => None,
        Some((v, arg, span)) => match arg {
            AttrArgV::Str(u) => Some(Ok(EndpointAttrV { method: v, uri: u })),
            AttrArgV::Other(msg) => Some(
                Err(ApiErrorV::MalformedEndpointArgument { span, message: msg }),
            ),
        },
    }
}

/// Returns the argument and span of the first attribute in list order
/// that carries the verb `v`.
fn find_verb_attr(attrs: &Vec<MethodAttr>, v: HttpMethod) -> (r: Option<(AttrArg, u64)>)
    ensures
        (match r {
            Some(p) => find_verb_arg(view_seq(attrs@), v) == Some((p.0@, p.1)),
            None => find_verb_arg(view_seq(attrs@), v) is None,
        }),
{
    let ghost av = view_seq(attrs@);
    proof {
        assert(av.skip(0) =~= av);
    }
    let n = attrs.len();
    let mut i: usize = 0;
    while i < n
        invariant
            i <= n,
            n == attrs@.len(),
            av == view_seq(attrs@),
            av.len() == n,
            find_verb_arg(av, v) == find_verb_arg(av.skip(i as int), v),
        decreases n - i,
    {
        proof {
            assert(av.skip(i as int).first() == av[i as int]);
            assert(av.skip(i as int).drop_first() =~= av.skip(i as int + 1));
        }
        let a = &attrs[i];
        match &a.kind {
            crate::ast::MethodAttrKind::Endpoint(w, arg) => {
                if *w == v {
                    return Some((arg.clone(), a.span));
                }
            },
            crate::ast::MethodAttrKind::Other(_) => {},
        }
        i += 1;
    }
    proof {
        assert(av.skip(n as int) =~= Seq::<MethodAttrV>::empty());
    }
    None
}

impl EndpointAttr {
    /// Extracts the endpoint annotation from a method's attribute list,
    /// scanning the recognized verbs in their fixed declaration order.
    pub fn from_attrs(attrs: &Vec<MethodAttr>) -> (r: Option<Result<EndpointAttr, ApiError>>)
        ensures
            (match r {
                None => endpoint_of_attrs(view_seq(attrs@)) is None,
                Some(Ok(ep)) => endpoint_of_attrs(view_seq(attrs@)) == Some(
                    Ok::<EndpointAttrV, ApiErrorV>(ep@),
                ),
                Some(Err(e)) => endpoint_of_attrs(view_seq(attrs@)) == Some(
                    Err::<EndpointAttrV, ApiErrorV>(e@),
                ),
            }),
    {
        match Self::scan_attrs(attrs) {
            None => None,
            Some((v, arg, span)) => match arg {
                AttrArg::Str(u) => Some(Ok(EndpointAttr { method: v, uri: u })),
                AttrArg::Other(msg) => Some(
                    Err(ApiError::MalformedEndpointArgument { span, message: msg }),
                ),
            },
        }
    }

    /// The selected endpoint attribute, as its verb, argument and span.
    fn scan_attrs(attrs: &Vec<MethodAttr>) -> (r: Option<(HttpMethod, AttrArg, u64)>)
        ensures
            (match r {
                Some(t) => scan_endpoint(view_seq(attrs@)) == Some((t.0, t.1@, t.2)),
                None => scan_endpoint(view_seq(attrs@)) is None,
            }),
    {
        if let Some(p) = find_verb_attr(attrs, HttpMethod::Get) {
            return Some((HttpMethod::Get, p.0, p.1));
        }
        if let Some(p) = find_verb_attr(attrs, HttpMethod::Post) {
            return Some((HttpMethod::Post, p.0, p.1));
        }
        if let Some(p) = find_verb_attr(attrs, HttpMethod::Put) {
            return Some((HttpMethod::Put, p.0, p.1));
        }
        if let Some(p) = find_verb_attr(attrs, HttpMethod::Patch) {
            return Some((HttpMethod::Patch, p.0, p.1));
        }
        if let Some(p) = find_verb_attr(attrs, HttpMethod::Delete) {
            return Some((HttpMethod::Delete, p.0, p.1));
        }
        if let Some(p) = find_verb_attr(attrs, HttpMethod::Head) {
            return Some((HttpMethod::Head, p.0, p.1));
        }
        None
    }

    /// The URI template the annotation carries.
    pub fn uri(&self) -> (r: &String)
        ensures
            r@ == self@.uri,
    {
        &self.uri
    }

    /// The verb the annotation carries.
    pub fn method(&self) -> (r: HttpMethod)
        ensures
            r == self@.method,
    {
        self.method
    }
}

} // verus!
