use jdtls_bootstrap::launch::{compose_launch, document_rule, DocumentRule};

#[test]
fn document_rule_is_fixed() {
    assert_eq!(
        document_rule(),
        DocumentRule { language: "java".to_string(), pattern: "**/*.java".to_string() }
    );
}

#[test]
fn launch_holds_what_it_was_given() {
    let uri = url::Url::parse("urn:/opt/server").unwrap();
    let options: serde_json::Value =
        serde_json::from_str(r#"{"volt": {"serverPath": "/opt/server"}, "x": [1, "2", null]}"#)
            .unwrap();
    let args = vec!["--b".to_string(), "--a".to_string(), "--b".to_string()];
    let launch = compose_launch(uri.clone(), args.clone(), Some(options.clone()));
    assert_eq!(launch.uri, uri);
    assert_eq!(launch.args, args);
    assert_eq!(launch.options, Some(options));
    assert_eq!(launch.selector, document_rule());
}

#[test]
fn launch_without_options_has_none() {
    let launch = compose_launch(url::Url::parse("urn:server").unwrap(), vec![], None);
    assert_eq!(launch.options, None);
    assert!(launch.args.is_empty());
}
