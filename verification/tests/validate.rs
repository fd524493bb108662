use api_codegen::api;
use api_codegen::ast::{
    AttrArg, Interface, MethodAttr, MethodAttrKind, ReturnType, Signature, TraitItem, TraitMethod,
};
use api_codegen::diag::ApiError;
use api_codegen::endpoint::HttpMethod;

fn async_sig(name: &str) -> Signature {
    Signature {
        name: name.to_string(),
        asyncness: true,
        params: vec![],
        output: ReturnType::Other("Result<(), Error>".to_string()),
    }
}

fn get_attr(uri: &str, span: u64) -> MethodAttr {
    MethodAttr {
        kind: MethodAttrKind::Endpoint(HttpMethod::Get, AttrArg::Str(uri.to_string())),
        span,
    }
}

#[test]
fn missing_annotation_is_reported() {
    let item_trait = Interface {
        name: "TaskApi".to_string(),
        items: vec![TraitItem::Method(TraitMethod {
            attrs: vec![MethodAttr {
                kind: MethodAttrKind::Other("doc".to_string()),
                span: 11,
            }],
            sig: async_sig("get_tasks"),
            span: 10,
        })],
    };
    let r = api("TaskApiClient".to_string(), item_trait);
    assert_eq!(r.unwrap_err(), ApiError::MissingEndpointAnnotation { span: 10 });
}

#[test]
fn malformed_argument_is_reported() {
    // get(123): the attribute's argument is not a string literal
    let item_trait = Interface {
        name: "TaskApi".to_string(),
        items: vec![TraitItem::Method(TraitMethod {
            attrs: vec![MethodAttr {
                kind: MethodAttrKind::Endpoint(
                    HttpMethod::Get,
                    AttrArg::Other("expected string literal".to_string()),
                ),
                span: 21,
            }],
            sig: async_sig("get_tasks"),
            span: 20,
        })],
    };
    let r = api("TaskApiClient".to_string(), item_trait);
    assert_eq!(
        r.unwrap_err(),
        ApiError::MalformedEndpointArgument {
            span: 21,
            message: "expected string literal".to_string(),
        }
    );
}

#[test]
fn not_async_is_reported() {
    let item_trait = Interface {
        name: "TaskApi".to_string(),
        items: vec![TraitItem::Method(TraitMethod {
            attrs: vec![get_attr("/tasks", 31)],
            sig: Signature {
                name: "get_tasks".to_string(),
                asyncness: false,
                params: vec![],
                output: ReturnType::Other("i32".to_string()),
            },
            span: 30,
        })],
    };
    let r = api("TaskApiClient".to_string(), item_trait);
    assert_eq!(r.unwrap_err(), ApiError::NotAsynchronous { span: 30 });
}

#[test]
fn validation_is_fail_fast() {
    // two offending methods: only the first is reported
    let item_trait = Interface {
        name: "TaskApi".to_string(),
        items: vec![
            TraitItem::Method(TraitMethod {
                attrs: vec![],
                sig: async_sig("first"),
                span: 40,
            }),
            TraitItem::Method(TraitMethod {
                attrs: vec![],
                sig: async_sig("second"),
                span: 41,
            }),
        ],
    };
    let r = api("TaskApiClient".to_string(), item_trait);
    assert_eq!(r.unwrap_err(), ApiError::MissingEndpointAnnotation { span: 40 });
}

#[test]
fn non_method_items_pass_through() {
    let item_trait = Interface {
        name: "TaskApi".to_string(),
        items: vec![
            TraitItem::Other("type Error;".to_string()),
            TraitItem::Method(TraitMethod {
                attrs: vec![get_attr("/tasks", 51)],
                sig: async_sig("get_tasks"),
                span: 50,
            }),
        ],
    };
    let generated = api("TaskApiClient".to_string(), item_trait).unwrap();
    // the non-method item is neither validated nor touched
    assert_eq!(
        generated.interface.items[0],
        TraitItem::Other("type Error;".to_string())
    );
    // one implementation method was synthesized for the one method
    assert_eq!(generated.trait_impl.methods.len(), 1);
}

#[test]
fn error_span_accessor() {
    let e = ApiError::NotAsynchronous { span: 7 };
    assert_eq!(e.span(), 7);
}
