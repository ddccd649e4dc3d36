use workflow_registry::bridge::{check_ai_bridge_connection, BridgeConfig};
use workflow_registry::commands::execute_ai_command;
use workflow_registry::system::get_system_info;

#[test]
fn execute_ai_command_answers_with_placeholder_success() {
    let parameters = vec![(
        "prompt".to_owned(),
        serde_json::Value::String("hello".to_owned()),
    )];
    let (cmd, resp) = execute_ai_command("generate".to_owned(), parameters, 1_234);
    assert_eq!(cmd.command, "generate");
    assert_eq!(cmd.timestamp, 1_234);
    assert_eq!(cmd.parameters.len(), 1);
    assert_eq!(cmd.parameters[0].0, "prompt");
    assert_eq!(cmd.parameters[0].1, serde_json::Value::String("hello".to_owned()));
    assert_eq!(cmd.id.len(), 36);
    assert_eq!(resp.id, cmd.id);
    assert!(resp.success);
    assert!(resp.error.is_none());
    assert_eq!(resp.timestamp, 1_234);
    let result = resp.result.expect("placeholder result");
    let object = result.as_object().expect("a JSON object");
    assert_eq!(
        object.get("message").and_then(|v| v.as_str()),
        Some("Command executed successfully")
    );
}

#[test]
fn execute_ai_command_draws_fresh_ids() {
    let (cmd1, _) = execute_ai_command("a".to_owned(), Vec::new(), 1);
    let (cmd2, _) = execute_ai_command("a".to_owned(), Vec::new(), 1);
    assert_ne!(cmd1.id, cmd2.id);
}

#[test]
fn bridge_check_is_idempotent() {
    let config = BridgeConfig::default_local();
    assert_eq!(config.url, "http://localhost:8000");
    let first = check_ai_bridge_connection(&config);
    let second = check_ai_bridge_connection(&config);
    assert!(first);
    assert_eq!(first, second);
}

#[test]
fn system_info_is_idempotent_and_versioned() {
    let a = get_system_info("linux".to_owned(), "x86_64".to_owned());
    let b = get_system_info("linux".to_owned(), "x86_64".to_owned());
    assert_eq!(a.platform, b.platform);
    assert_eq!(a.arch, b.arch);
    assert_eq!(a.version, b.version);
    assert_eq!(a.platform, "linux");
    assert_eq!(a.arch, "x86_64");
    assert_eq!(a.version, "0.1.0-alpha");
}

#[test]
fn system_info_pairs_carry_all_fields() {
    let info = get_system_info("linux".to_owned(), "aarch64".to_owned());
    let pairs = info.pairs();
    assert_eq!(pairs.len(), 3);
    assert_eq!(pairs[0], ("platform".to_owned(), "linux".to_owned()));
    assert_eq!(pairs[1], ("arch".to_owned(), "aarch64".to_owned()));
    assert_eq!(pairs[2], ("version".to_owned(), "0.1.0-alpha".to_owned()));
}
