use api_codegen::ast::{ReturnType, Signature, TypePath};
use api_codegen::asyncness::is_async;

#[test]
fn with_async_keyword() {
    // async fn foo() {}
    let method_sig = Signature {
        name: "foo".to_string(),
        asyncness: true,
        params: vec![],
        output: ReturnType::Default,
    };
    assert!(is_async(&method_sig));
}

#[test]
fn returns_future() {
    // fn foo() -> impl Future<Output = ()> {}
    let method_sig = Signature {
        name: "foo".to_string(),
        asyncness: false,
        params: vec![],
        output: ReturnType::ImplTrait(vec![TypePath { segments: vec!["Future".to_string()] }]),
    };
    assert!(is_async(&method_sig));
}

#[test]
fn returns_future2() {
    // fn foo() -> impl std::future::Future<Output = ()> {}
    let method_sig = Signature {
        name: "foo".to_string(),
        asyncness: false,
        params: vec![],
        output: ReturnType::ImplTrait(vec![TypePath {
            segments: vec!["std".to_string(), "future".to_string(), "Future".to_string()],
        }]),
    };
    assert!(is_async(&method_sig));
}

#[test]
fn does_not_return_future() {
    // fn foo() -> i32 {}
    let method_sig = Signature {
        name: "foo".to_string(),
        asyncness: false,
        params: vec![],
        output: ReturnType::Other("i32".to_string()),
    };
    assert!(!is_async(&method_sig));
}

#[test]
fn unrelated_capability_is_not_async() {
    // fn foo() -> impl Clone {}
    let method_sig = Signature {
        name: "foo".to_string(),
        asyncness: false,
        params: vec![],
        output: ReturnType::ImplTrait(vec![TypePath { segments: vec!["Clone".to_string()] }]),
    };
    assert!(!is_async(&method_sig));
}
