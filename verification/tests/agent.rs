use jdtls_bootstrap::agent::{agent_argument, agent_argument_for, append_agent, ends_with};
use jdtls_bootstrap::error::BootstrapError;

fn strings(items: &[&str]) -> Vec<String> {
    items.iter().map(|item| item.to_string()).collect()
}

#[test]
fn agent_argument_names_the_jar_beside_the_working_directory() {
    let base = url::Url::parse("file:///home/user/plugins/java/").unwrap();
    assert_eq!(
        agent_argument(&base).unwrap(),
        "--jvm-arg=-javaagent:/home/user/plugins/java/lombok.jar"
    );
}

#[test]
fn agent_argument_replaces_the_last_segment_of_the_base() {
    let base = url::Url::parse("file:///plugins/java/volt.toml").unwrap();
    assert_eq!(agent_argument(&base).unwrap(), "--jvm-arg=-javaagent:/plugins/java/lombok.jar");
}

#[test]
fn agent_argument_decodes_the_path() {
    let base = url::Url::parse("file:///my%20plugins/java/").unwrap();
    assert_eq!(agent_argument(&base).unwrap(), "--jvm-arg=-javaagent:/my plugins/java/lombok.jar");
}

#[test]
fn base_with_a_host_has_no_file_path() {
    let base = url::Url::parse("https://example.net/plugins/java/").unwrap();
    assert_eq!(agent_argument(&base), Err(BootstrapError::AgentPathError));
}

#[test]
fn base_that_cannot_be_joined_has_no_file_path() {
    let base = url::Url::parse("urn:plugins:java").unwrap();
    assert_eq!(agent_argument(&base), Err(BootstrapError::AgentPathError));
}

#[test]
fn argument_is_prefix_and_path() {
    assert_eq!(
        agent_argument_for(Some("/p/lombok.jar".to_string())).unwrap(),
        "--jvm-arg=-javaagent:/p/lombok.jar"
    );
    assert_eq!(
        agent_argument_for(Some("lombok.jar".to_string())).unwrap(),
        "--jvm-arg=-javaagent:lombok.jar"
    );
}

#[test]
fn path_that_does_not_name_the_jar_is_refused() {
    for path in ["", "/p/", "/p/lombok.jar/", "/p/lombok.ja", "/p/other.jar", "lombok.jar.bak"] {
        assert_eq!(
            agent_argument_for(Some(path.to_string())),
            Err(BootstrapError::AgentPathError)
        );
    }
}

#[test]
fn missing_path_is_refused() {
    assert_eq!(agent_argument_for(None), Err(BootstrapError::AgentPathError));
}

#[test]
fn agent_comes_after_the_configured_arguments() {
    assert_eq!(
        append_agent(strings(&["--a", "--b"]), Some("--agent".to_string())),
        strings(&["--a", "--b", "--agent"])
    );
    assert_eq!(append_agent(vec![], Some("--agent".to_string())), strings(&["--agent"]));
}

#[test]
fn without_agent_the_arguments_stay() {
    assert_eq!(append_agent(strings(&["--a", "--b"]), None), strings(&["--a", "--b"]));
    assert_eq!(append_agent(vec![], None), Vec::<String>::new());
}

#[test]
fn ends_with_compares_the_tail() {
    assert!(ends_with("lombok.jar", "lombok.jar"));
    assert!(ends_with("/a/lombok.jar", "lombok.jar"));
    assert!(ends_with("anything", ""));
    assert!(ends_with("", ""));
    assert!(!ends_with("", "x"));
    assert!(!ends_with("jar", "lombok.jar"));
    assert!(!ends_with("lombok.jar ", "lombok.jar"));
    assert!(!ends_with("lombok.jaR", "lombok.jar"));
}

#[test]
fn ends_with_counts_characters_not_bytes() {
    assert!(ends_with("pfad/zur/bücherei/lombok.jar", "lombok.jar"));
    assert!(ends_with("übergrößenträger", "träger"));
    assert!(!ends_with("übergrößenträger", "trager"));
}
