use quickcheck_async::ast::{FnArg, FnItem, Param};
use quickcheck_async::{async_std, tokio};

fn typed(pat: &str, ty: &str) -> FnArg {
    FnArg::Typed(Param { pat: pat.to_string(), ty: ty.to_string() })
}

fn item(attrs: &[&str], is_async: bool, name: &str, inputs: Vec<FnArg>, output: &str, tokens: &str) -> FnItem {
    FnItem {
        attrs: attrs.iter().map(|a| a.to_string()).collect(),
        is_async,
        name: name.to_string(),
        inputs,
        output: output.to_string(),
        tokens: tokens.to_string(),
    }
}

fn bool_test_item() -> FnItem {
    item(
        &[],
        true,
        "bool_test",
        vec![],
        "-> bool",
        "async fn bool_test() -> bool { true }",
    )
}

#[test]
fn tokio_zero_param_bool_wrapper() {
    let out = tokio(&vec![], &bool_test_item()).unwrap();
    assert_eq!(
        out,
        "#[::tokio::test()]\n\
         async fn bool_test() {\n\
         \x20   async fn bool_test() -> bool { true }\n\
         \x20   let test_fn: fn() -> bool = || { ::futures::executor::block_on(bool_test()) };\n\
         \x20   ::tokio::task::spawn_blocking(move || { ::quickcheck::quickcheck(test_fn) }).await.unwrap()\n\
         }\n"
    );
}

#[test]
fn async_std_zero_param_bool_wrapper() {
    let out = async_std(&vec![], &bool_test_item()).unwrap();
    assert_eq!(
        out,
        "#[::async_std::test()]\n\
         async fn bool_test() {\n\
         \x20   async fn bool_test() -> bool { true }\n\
         \x20   let test_fn: fn() -> bool = || { ::futures::executor::block_on(bool_test()) };\n\
         \x20   ::quickcheck::quickcheck(test_fn);\n\
         }\n"
    );
}

#[test]
fn bridge_matches_params_in_order() {
    let it = item(
        &[],
        true,
        "props",
        vec![typed("x", "u8"), typed("s", "String")],
        "-> bool",
        "async fn props(x: u8, s: String) -> bool { s.len() as u8 != x }",
    );
    let out = tokio(&vec![], &it).unwrap();
    assert!(out.contains(
        "let test_fn: fn(u8, String) -> bool = |x, s| { ::futures::executor::block_on(props(x, s)) };"
    ));
}

#[test]
fn bridge_follows_swapped_param_names() {
    let it = item(
        &[],
        true,
        "props",
        vec![typed("s", "u8"), typed("x", "String")],
        "-> bool",
        "async fn props(s: u8, x: String) -> bool { x.len() as u8 != s }",
    );
    let out = tokio(&vec![], &it).unwrap();
    assert!(out.contains(
        "let test_fn: fn(u8, String) -> bool = |s, x| { ::futures::executor::block_on(props(s, x)) };"
    ));
}

#[test]
fn empty_config_list_same_as_no_config() {
    let none: Vec<String> = Vec::new();
    let empty: Vec<String> = vec![];
    let with_none = tokio(&none, &bool_test_item()).unwrap();
    let with_empty = tokio(&empty, &bool_test_item()).unwrap();
    assert_eq!(with_none, with_empty);
    assert!(with_none.starts_with("#[::tokio::test()]\n"));
}

#[test]
fn config_list_passed_through_verbatim() {
    let config = vec![
        "flavor = \"multi_thread\"".to_string(),
        "worker_threads = 2".to_string(),
    ];
    let it = item(&[], true, "no_ret", vec![], "", "async fn no_ret() {}");
    let out = tokio(&config, &it).unwrap();
    assert_eq!(
        out,
        "#[::tokio::test(flavor = \"multi_thread\", worker_threads = 2)]\n\
         async fn no_ret() {\n\
         \x20   async fn no_ret() {}\n\
         \x20   let test_fn: fn()  = || { ::futures::executor::block_on(no_ret()) };\n\
         \x20   ::tokio::task::spawn_blocking(move || { ::quickcheck::quickcheck(test_fn) }).await.unwrap()\n\
         }\n"
    );
}

#[test]
fn config_list_passed_through_async_std() {
    let config = vec!["a = 1".to_string(), "b = 2".to_string()];
    let out = async_std(&config, &bool_test_item()).unwrap();
    assert!(out.starts_with("#[::async_std::test(a = 1, b = 2)]\n"));
}

#[test]
fn receiver_parameter_fails_synthesis() {
    let it = item(
        &[],
        true,
        "method_like",
        vec![FnArg::Receiver, typed("x", "u8")],
        "-> bool",
        "async fn method_like(&self, x: u8) -> bool { true }",
    );
    let d = tokio(&vec![], &it).unwrap_err();
    assert_eq!(d.message, "test fn cannot take a receiver");
    let d = async_std(&vec![], &it).unwrap_err();
    assert_eq!(d.message, "test fn cannot take a receiver");
}

#[test]
fn existing_test_marker_fails_synthesis() {
    let it = item(
        &["cfg", "test"],
        true,
        "bool_test",
        vec![],
        "-> bool",
        "#[cfg(unix)] #[test] async fn bool_test() -> bool { true }",
    );
    let d = tokio(&vec![], &it).unwrap_err();
    assert_eq!(d.message, "multiple #[test] attributes were supplied");
    let d = async_std(&vec![], &it).unwrap_err();
    assert_eq!(d.message, "multiple #[test] attributes were supplied");
}

#[test]
fn non_async_function_fails_synthesis() {
    let it = item(
        &[],
        false,
        "bool_test",
        vec![],
        "-> bool",
        "fn bool_test() -> bool { true }",
    );
    let d = tokio(&vec![], &it).unwrap_err();
    assert_eq!(d.message, "test fn must be async");
    let d = async_std(&vec![], &it).unwrap_err();
    assert_eq!(d.message, "test fn must be async");
}

#[test]
fn first_failing_guard_is_reported() {
    let it = item(
        &["test"],
        false,
        "bool_test",
        vec![FnArg::Receiver],
        "-> bool",
        "#[test] fn bool_test(&self) -> bool { true }",
    );
    let d = tokio(&vec![], &it).unwrap_err();
    assert_eq!(d.message, "multiple #[test] attributes were supplied");

    let it = item(
        &[],
        false,
        "bool_test",
        vec![FnArg::Receiver],
        "-> bool",
        "fn bool_test(&self) -> bool { true }",
    );
    let d = tokio(&vec![], &it).unwrap_err();
    assert_eq!(d.message, "test fn must be async");
}
