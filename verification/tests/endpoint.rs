use api_codegen::ast::{AttrArg, MethodAttr, MethodAttrKind};
use api_codegen::endpoint::{EndpointAttr, HttpMethod};

fn verb_attr(v: HttpMethod, uri: &str, span: u64) -> MethodAttr {
    MethodAttr {
        kind: MethodAttrKind::Endpoint(v, AttrArg::Str(uri.to_string())),
        span,
    }
}

#[test]
fn each_verb_is_recognized() {
    let verbs = [
        (HttpMethod::Get, "get"),
        (HttpMethod::Post, "post"),
        (HttpMethod::Put, "put"),
        (HttpMethod::Patch, "patch"),
        (HttpMethod::Delete, "delete"),
        (HttpMethod::Head, "head"),
    ];
    for (verb, name) in verbs {
        assert_eq!(verb.name(), name);
        let attrs = vec![verb_attr(verb, "/x", 1)];
        let ep = EndpointAttr::from_attrs(&attrs).unwrap().unwrap();
        assert_eq!(ep.method(), verb);
        assert_eq!(ep.uri(), "/x");
    }
}

#[test]
fn no_verb_yields_none() {
    let attrs = vec![MethodAttr {
        kind: MethodAttrKind::Other("doc".to_string()),
        span: 1,
    }];
    assert!(EndpointAttr::from_attrs(&attrs).is_none());
    assert!(EndpointAttr::from_attrs(&vec![]).is_none());
}

#[test]
fn both_get_and_post_honors_get() {
    // a method with both get("/a") and post("/b"): only the first in
    // verb-scan order (get) is honored, and no error is raised
    let attrs = vec![
        verb_attr(HttpMethod::Get, "/a", 1),
        verb_attr(HttpMethod::Post, "/b", 2),
    ];
    let ep = EndpointAttr::from_attrs(&attrs).unwrap().unwrap();
    assert_eq!(ep.method(), HttpMethod::Get);
    assert_eq!(ep.uri(), "/a");
}

#[test]
fn verb_scan_order_beats_source_order() {
    // even with post("/b") first in the attribute list, get wins
    let attrs = vec![
        verb_attr(HttpMethod::Post, "/b", 2),
        verb_attr(HttpMethod::Get, "/a", 1),
    ];
    let ep = EndpointAttr::from_attrs(&attrs).unwrap().unwrap();
    assert_eq!(ep.method(), HttpMethod::Get);
    assert_eq!(ep.uri(), "/a");
}

#[test]
fn malformed_argument_carries_attr_span_and_message() {
    let attrs = vec![MethodAttr {
        kind: MethodAttrKind::Endpoint(HttpMethod::Put, AttrArg::Other("bad arg".to_string())),
        span: 9,
    }];
    let err = EndpointAttr::from_attrs(&attrs).unwrap().unwrap_err();
    assert_eq!(
        err,
        api_codegen::diag::ApiError::MalformedEndpointArgument {
            span: 9,
            message: "bad arg".to_string(),
        }
    );
}
