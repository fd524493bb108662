//! The code synthesizer: for a validated interface it describes the
//! fragment to emit — the stripped interface, the concrete client type,
//! and the implementation of the interface for that type, one request
//! method per interface method.
//!
//! Synthesis cannot fail once validation has passed: anything malformed
//! must have been caught earlier.

use vstd::prelude::*;

use crate::ast::{
    method_count, view_seq, Interface, InterfaceV, Signature, SignatureV, TraitItemV, TraitMethod,
    TraitMethodV,
};
use crate::endpoint::{EndpointAttr, EndpointAttrV, HttpMethod};
use crate::input::{check_method, validate_items, methods_view};
use crate::remove_attrs::{
    interface_clean, lemma_strip_interface_clean, lemma_strip_interface_method_count,
    remove_attrs_from_interface, remove_attrs_from_signature, strip_interface, strip_signature,
};
use vstd::string::StringExecFns;

verus! {

/// The synthesized client type definition. Its shape is fixed — a
/// transport handle, a base-URL string, and a default-header collection,
/// with the construction and configuration operations of
/// [`crate::client::ApiClient`] — only its name is chosen per
/// generation.
#[derive(Debug, PartialEq, Eq)]
pub struct ClientDef {
    pub name: String,
}

/// The mathematical value of a [`ClientDef`].
pub struct ClientDefV {
    pub name: Seq<char>,
}

impl View for ClientDef {
    type V = ClientDefV;

    open spec fn view(&self) -> ClientDefV {
        ClientDefV { name: self.name@ }
    }
}

/// One synthesized method of the interface implementation. Its body is
/// the fixed request template: build the destination from the base URL
/// and the URI template, attach a clone of the client's current default
/// headers, dispatch through the transport handle with the verb, await
/// and return the response. The declared signature is the interface
/// method's own, with binding attributes stripped.
#[derive(Debug, PartialEq, Eq)]
pub struct MethodImpl {
    pub sig: Signature,
    pub verb: HttpMethod,
    pub uri: String,
}

/// The mathematical value of a [`MethodImpl`].
pub struct MethodImplV {
    pub sig: SignatureV,
    pub verb: HttpMethod,
    pub uri: Seq<char>,
}

impl View for MethodImpl {
    type V = MethodImplV;

    open spec fn view(&self) -> MethodImplV {
        MethodImplV { sig: self.sig@, verb: self.verb, uri: self.uri@ }
    }
}

impl MethodImpl {
    /// The destination the synthesized body requests: the base URL
    /// followed by the method's URI template.
    pub fn request_url(&self, base_url: &str) -> (r: String)
        ensures
            r@ == base_url@ + self@.uri,
    {
        let mut url: String = base_url.to_owned();
        url.append(self.uri.as_str());
        url
    }
}

/// The synthesized implementation of the interface for the client type.
#[derive(Debug, PartialEq, Eq)]
pub struct TraitImpl {
    pub trait_name: String,
    pub client_name: String,
    pub methods: Vec<MethodImpl>,
}

/// The mathematical value of a [`TraitImpl`].
pub struct TraitImplV {
    pub trait_name: Seq<char>,
    pub client_name: Seq<char>,
    pub methods: Seq<MethodImplV>,
}

impl View for TraitImpl {
    type V = TraitImplV;

    open spec fn view(&self) -> TraitImplV {
        TraitImplV {
            trait_name: self.trait_name@,
            client_name: self.client_name@,
            methods: view_seq(self.methods@),
        }
    }
}

/// The full generated fragment: the interface with generation-only
/// attributes stripped, the client type definition, and the interface
/// implementation.
#[derive(Debug, PartialEq, Eq)]
pub struct Generated {
    pub interface: Interface,
    pub client: ClientDef,
    pub trait_impl: TraitImpl,
}

/// The mathematical value of a [`Generated`].
pub struct GeneratedV {
    pub interface: InterfaceV,
    pub client: ClientDefV,
    pub trait_impl: TraitImplV,
}

impl View for Generated {
    type V = GeneratedV;

    open spec fn view(&self) -> GeneratedV {
        GeneratedV { interface: self.interface@, client: self.client@, trait_impl: self.trait_impl@ }
    }
}

/// The synthesized method for one interface method and its endpoint
/// annotation: the stripped signature, the annotation's verb, and the
/// annotation's URI template.
pub open spec fn method_impl_of(m: TraitMethodV, e: EndpointAttrV) -> MethodImplV {
    MethodImplV { sig: strip_signature(m.sig), verb: e.method, uri: e.uri }
}

/// The synthesized interface implementation: one method per validated
/// interface method, in declaration order.
pub open spec fn trait_impl_of(
    client_name: Seq<char>,
    trait_name: Seq<char>,
    methods: Seq<(TraitMethodV, EndpointAttrV)>,
) -> TraitImplV {
    TraitImplV {
        trait_name,
        client_name,
        methods: methods.map_values(|p: (TraitMethodV, EndpointAttrV)| method_impl_of(p.0, p.1)),
    }
}

/// The full fragment synthesized for a validated interface.
pub open spec fn expand_spec(
    client_name: Seq<char>,
    trait_name: Seq<char>,
    methods: Seq<(TraitMethodV, EndpointAttrV)>,
    iv: InterfaceV,
) -> GeneratedV {
    GeneratedV {
        interface: strip_interface(iv),
        client: ClientDefV { name: client_name },
        trait_impl: trait_impl_of(client_name, trait_name, methods),
    }
}

/// Synthesizes the implementation of one interface method: the request
/// template under the method's own signature, binding attributes
/// stripped.
pub fn generate_api_client_method_impl(method: &TraitMethod, endpoint_attr: &EndpointAttr) -> (r:
    MethodImpl)
    ensures
        r@ == method_impl_of(method@, endpoint_attr@),
{
    MethodImpl {
        sig: remove_attrs_from_signature(&method.sig),
        verb: endpoint_attr.method,
        uri: endpoint_attr.uri.clone(),
    }
}

/// Synthesizes the implementation of the interface for the client type,
/// one method per validated interface method.
pub fn generate_api_trait_impl(
    api_client_struct_name: &String,
    api_trait_name: &String,
    methods: &Vec<(TraitMethod, EndpointAttr)>,
) -> (r: TraitImpl)
    ensures
        r@ == trait_impl_of(api_client_struct_name@, api_trait_name@, methods_view(methods@)),
{
    let ghost target = trait_impl_of(
        api_client_struct_name@,
        api_trait_name@,
        methods_view(methods@),
    );
    let mut api_client_methods: Vec<MethodImpl> = Vec::new();
    let n = methods.len();
    let mut i: usize = 0;
    while i < n
        invariant
            i <= n,
            n == methods@.len(),
            target == trait_impl_of(
                api_client_struct_name@,
                api_trait_name@,
                methods_view(methods@),
            ),
            target.methods.len() == n,
            view_seq(api_client_methods@) =~= target.methods.subrange(0, i as int),
        decreases n - i,
    {
        let ghost before = view_seq(api_client_methods@);
        let pair = &methods[i];
        api_client_methods.push(generate_api_client_method_impl(&pair.0, &pair.1));
        proof {
            assert(target.methods[i as int] == method_impl_of(
                methods@[i as int].0@,
                methods@[i as int].1@,
            ));
            assert(view_seq(api_client_methods@) =~= before.push(target.methods[i as int]));
        }
        i += 1;
    }
    let r = TraitImpl {
        trait_name: api_trait_name.clone(),
        client_name: api_client_struct_name.clone(),
        methods: api_client_methods,
    };
    proof {
        assert(r@.methods =~= target.methods);
    }
    r
}

/// Synthesizes the client type definition for the given name.
pub fn generate_api_client_struct(api_client_struct_name: &String) -> (r: ClientDef)
    ensures
        r@ == (ClientDefV { name: api_client_struct_name@ }),
{
    ClientDef { name: api_client_struct_name.clone() }
}

/// Synthesizes the full fragment for a validated interface: the
/// stripped interface declaration, the client type definition, and the
/// interface implementation.
pub fn expand_api_macro(
    api_client_struct_name: &String,
    api_trait_name: &String,
    methods: &Vec<(TraitMethod, EndpointAttr)>,
    item_trait: &Interface,
) -> (g: Generated)
    ensures
        g@ == expand_spec(
            api_client_struct_name@,
            api_trait_name@,
            methods_view(methods@),
            item_trait@,
        ),
{
    Generated {
        interface: remove_attrs_from_interface(item_trait),
        client: generate_api_client_struct(api_client_struct_name),
        trait_impl: generate_api_trait_impl(api_client_struct_name, api_trait_name, methods),
    }
}

/// Round trip: for an interface every method of which carries a valid
/// endpoint annotation and is asynchronous, validation succeeds with
/// one entry per method, and the synthesized fragment's interface
/// section holds the same number of methods as the input, none of which
/// retains a verb or parameter-binding attribute; the interface
/// implementation holds one method per validated method.
pub proof fn lemma_generation_round_trip(client_name: Seq<char>, iv: InterfaceV)
    requires
        forall|i: int|
            0 <= i < iv.items.len() ==> (#[trigger] iv.items[i] matches TraitItemV::Method(m)
                ==> check_method(m) is Ok),
    ensures
        validate_items(iv.items) is Ok,
        validate_items(iv.items)->Ok_0.len() == method_count(iv.items),
        interface_clean(
            expand_spec(client_name, iv.name, validate_items(iv.items)->Ok_0, iv).interface,
        ),
        method_count(
            expand_spec(client_name, iv.name, validate_items(iv.items)->Ok_0, iv).interface.items,
        ) == method_count(iv.items),
        expand_spec(
            client_name,
            iv.name,
            validate_items(iv.items)->Ok_0,
            iv,
        ).trait_impl.methods.len() == method_count(iv.items),
{
    crate::input::lemma_validate_items_all_ok(iv.items);
    lemma_strip_interface_clean(iv);
    lemma_strip_interface_method_count(iv);
}

} // verus!
