use api_codegen::api;
use api_codegen::ast::{
    AttrArg, Interface, MethodAttr, MethodAttrKind, Param, ParamAttr, ParamAttrKind, ParamBinding,
    ReturnType, Signature, TraitItem, TraitMethod,
};
use api_codegen::endpoint::HttpMethod;
use api_codegen::remove_attrs::remove_attrs_from_interface;

fn endpoint(v: HttpMethod, uri: &str, span: u64) -> MethodAttr {
    MethodAttr {
        kind: MethodAttrKind::Endpoint(v, AttrArg::Str(uri.to_string())),
        span,
    }
}

fn method(name: &str, attrs: Vec<MethodAttr>, params: Vec<Param>, span: u64) -> TraitMethod {
    TraitMethod {
        attrs,
        sig: Signature {
            name: name.to_string(),
            asyncness: true,
            params,
            output: ReturnType::Other("Result<(), Error>".to_string()),
        },
        span,
    }
}

#[test]
fn get_all_tasks_scenario() {
    // one method get_all_tasks annotated get("/tasks"), async, no
    // parameters, returning a result type
    let item_trait = Interface {
        name: "TaskApi".to_string(),
        items: vec![TraitItem::Method(method(
            "get_all_tasks",
            vec![endpoint(HttpMethod::Get, "/tasks", 2)],
            vec![],
            1,
        ))],
    };
    let generated = api("TaskApiClient".to_string(), item_trait).unwrap();
    assert_eq!(generated.client.name, "TaskApiClient");
    assert_eq!(generated.trait_impl.trait_name, "TaskApi");
    assert_eq!(generated.trait_impl.client_name, "TaskApiClient");
    assert_eq!(generated.trait_impl.methods.len(), 1);
    let m = &generated.trait_impl.methods[0];
    // the synthesized body issues a GET to {base_url}/tasks with the
    // client's default headers attached
    assert_eq!(m.verb, HttpMethod::Get);
    assert_eq!(m.uri, "/tasks");
    assert_eq!(m.sig.name, "get_all_tasks");
    assert_eq!(m.request_url("http://example.com"), "http://example.com/tasks");
}

#[test]
fn create_task_scenario() {
    // one method create_task annotated post("/tasks"), async, one
    // body-annotated parameter; generation succeeds. Binding the
    // parameter into the request beyond verb and URI template is a
    // known limitation: the synthesized body does not consume it.
    let task_param = Param {
        attrs: vec![ParamAttr {
            kind: ParamAttrKind::Binding(ParamBinding::Body),
            span: 3,
        }],
        name: "task".to_string(),
        ty: "Task".to_string(),
    };
    let item_trait = Interface {
        name: "TaskApi".to_string(),
        items: vec![TraitItem::Method(method(
            "create_task",
            vec![endpoint(HttpMethod::Post, "/tasks", 2)],
            vec![task_param],
            1,
        ))],
    };
    let generated = api("TaskApiClient".to_string(), item_trait).unwrap();
    let m = &generated.trait_impl.methods[0];
    assert_eq!(m.verb, HttpMethod::Post);
    assert_eq!(m.uri, "/tasks");
    // the parameter survives in the signature, its binding attribute
    // stripped
    assert_eq!(m.sig.params.len(), 1);
    assert_eq!(m.sig.params[0].name, "task");
    assert!(m.sig.params[0].attrs.is_empty());
}

#[test]
fn round_trip_strips_every_annotation() {
    // three methods, each with exactly one verb annotation, all async:
    // generation succeeds and the emitted interface section holds the
    // same three methods with zero verb or binding attributes left
    let p = |span: u64| Param {
        attrs: vec![ParamAttr {
            kind: ParamAttrKind::Binding(ParamBinding::QueryParam),
            span,
        }],
        name: "page".to_string(),
        ty: "i32".to_string(),
    };
    let item_trait = Interface {
        name: "TaskApi".to_string(),
        items: vec![
            TraitItem::Method(method(
                "list",
                vec![endpoint(HttpMethod::Get, "/tasks", 2)],
                vec![p(3)],
                1,
            )),
            TraitItem::Method(method(
                "create",
                vec![endpoint(HttpMethod::Post, "/tasks", 5)],
                vec![],
                4,
            )),
            TraitItem::Method(method(
                "purge",
                vec![endpoint(HttpMethod::Delete, "/tasks", 7)],
                vec![],
                6,
            )),
        ],
    };
    let generated = api("TaskApiClient".to_string(), item_trait).unwrap();
    assert_eq!(generated.interface.items.len(), 3);
    let mut methods_seen = 0;
    for item in &generated.interface.items {
        match item {
            TraitItem::Method(m) => {
                methods_seen += 1;
                for a in &m.attrs {
                    assert!(matches!(a.kind, MethodAttrKind::Other(_)));
                }
                for param in &m.sig.params {
                    for a in &param.attrs {
                        assert!(matches!(a.kind, ParamAttrKind::Other(_)));
                    }
                }
            }
            TraitItem::Other(_) => {}
        }
    }
    assert_eq!(methods_seen, 3);
    assert_eq!(generated.trait_impl.methods.len(), 3);
}

#[test]
fn stripping_twice_equals_stripping_once() {
    // the annotation stripper is idempotent
    let item_trait = Interface {
        name: "TaskApi".to_string(),
        items: vec![
            TraitItem::Other("type Error;".to_string()),
            TraitItem::Method(TraitMethod {
                attrs: vec![
                    endpoint(HttpMethod::Put, "/tasks/{}", 2),
                    MethodAttr {
                        kind: MethodAttrKind::Other("doc".to_string()),
                        span: 3,
                    },
                ],
                sig: Signature {
                    name: "update".to_string(),
                    asyncness: true,
                    params: vec![Param {
                        attrs: vec![
                            ParamAttr {
                                kind: ParamAttrKind::Binding(ParamBinding::PathParam),
                                span: 4,
                            },
                            ParamAttr {
                                kind: ParamAttrKind::Other("cfg".to_string()),
                                span: 5,
                            },
                        ],
                        name: "task_id".to_string(),
                        ty: "i32".to_string(),
                    }],
                    output: ReturnType::Default,
                },
                span: 1,
            }),
        ],
    };
    let once = remove_attrs_from_interface(&item_trait);
    let twice = remove_attrs_from_interface(&once);
    assert_eq!(once, twice);
    // the kept attributes survive in order
    match &once.items[1] {
        TraitItem::Method(m) => {
            assert_eq!(m.attrs.len(), 1);
            assert!(matches!(m.attrs[0].kind, MethodAttrKind::Other(_)));
            assert_eq!(m.sig.params[0].attrs.len(), 1);
        }
        TraitItem::Other(_) => panic!("expected a method"),
    }
}

#[test]
fn empty_interface_generates_empty_impl() {
    let item_trait = Interface {
        name: "EmptyApi".to_string(),
        items: vec![],
    };
    let generated = api("EmptyClient".to_string(), item_trait).unwrap();
    assert!(generated.interface.items.is_empty());
    assert!(generated.trait_impl.methods.is_empty());
    assert_eq!(generated.client.name, "EmptyClient");
}
