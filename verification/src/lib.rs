//! Generation logic for HTTP API client code.
//!
//! Given an interface declaration — a trait whose methods carry endpoint
//! attributes such as `get("/tasks")` — this library validates the
//! declaration and produces a description of the code to emit: the
//! interface with all generation-only attributes stripped, a concrete
//! client type, and an implementation of the interface for that type.

use vstd::prelude::*;

pub mod ast;
pub mod asyncness;
pub mod client;
pub mod diag;
pub mod endpoint;
pub mod expand;
pub mod input;
pub mod remove_attrs;

use crate::ast::{Interface, TraitMethodV};
use crate::diag::{ApiError, ApiErrorV};
use crate::endpoint::EndpointAttrV;
use crate::expand::{expand_spec, Generated};
use crate::input::{parse_api_macro_input, validate_items};

verus! {

/// The generation entry point: validates the interface declaration
/// and, on success, synthesizes the fragment to emit for the given
/// client type name; on the first validation failure it returns that
/// diagnostic instead, with no partial output.
pub fn api(api_client_struct_name: String, item_trait: Interface) -> (r: Result<
    Generated,
    ApiError,
>)
    ensures
        (r matches Ok(g) ==> validate_items(item_trait@.items) matches Ok(ms) && g@
            == expand_spec(api_client_struct_name@, item_trait@.name, ms, item_trait@)),
        (r matches Err(e) ==> validate_items(item_trait@.items) == Err::<
            Seq<(TraitMethodV, EndpointAttrV)>,
            ApiErrorV,
        >(e@)),
{
    match parse_api_macro_input(&item_trait) {
        Err(err) => Err(err),
        Ok(input) => Ok(
            expand::expand_api_macro(
                &api_client_struct_name,
                &input.api_trait_name,
                &input.methods,
                &item_trait,
            ),
        ),
    }
}

} // verus!
