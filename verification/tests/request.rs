use compile_outcome::{CompilationRequest, Configuration, Language};

fn pair(path: &str, text: &str) -> (String, String) {
    (path.to_string(), text.to_string())
}

#[test]
fn a_single_unit_has_every_toggle_unset() {
    let request = CompilationRequest::single(
        Language::Solidity,
        "Test.sol".to_string(),
        "contract A {}".to_string(),
    );
    assert_eq!(request.language, Language::Solidity);
    assert_eq!(request.sources, vec![pair("Test.sol", "contract A {}")]);
    assert_eq!(request.configuration, Configuration::unset());
    assert_eq!(
        request.configuration,
        Configuration { evm_version: None, via_ir: None, stop_after: None }
    );
}

#[test]
fn source_text_is_not_inspected() {
    let request =
        CompilationRequest::single(Language::Yul, String::new(), "\u{0}not a program".to_string());
    assert_eq!(request.language, Language::Yul);
    assert_eq!(request.sources, vec![pair("", "\u{0}not a program")]);
}

#[test]
fn a_new_path_is_added_after_the_others() {
    let request = CompilationRequest::single(Language::Solidity, "A.sol".to_string(), "a".to_string())
        .with_source("B.sol".to_string(), "b".to_string())
        .with_source("C.sol".to_string(), "c".to_string());
    assert_eq!(
        request.sources,
        vec![pair("A.sol", "a"), pair("B.sol", "b"), pair("C.sol", "c")]
    );
}

#[test]
fn a_known_path_has_its_text_replaced_in_place() {
    let request = CompilationRequest::single(Language::Solidity, "A.sol".to_string(), "a".to_string())
        .with_source("B.sol".to_string(), "b".to_string())
        .with_source("A.sol".to_string(), "again".to_string());
    assert_eq!(request.sources, vec![pair("A.sol", "again"), pair("B.sol", "b")]);
    assert_eq!(request.language, Language::Solidity);
    assert_eq!(request.configuration, Configuration::unset());
}

#[test]
fn overridden_toggles_leave_the_rest_alone() {
    let configuration = Configuration {
        evm_version: Some("paris".to_string()),
        via_ir: Some(true),
        stop_after: None,
    };
    let request = CompilationRequest::single(Language::Solidity, "A.sol".to_string(), "a".to_string())
        .with_configuration(configuration.clone());
    assert_eq!(request.configuration, configuration);
    assert_eq!(request.sources, vec![pair("A.sol", "a")]);
    assert_eq!(request.language, Language::Solidity);
}
