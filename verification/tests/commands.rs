use ledger_gateway::config::{resolve_or_default, Configuration};
use ledger_gateway::errors::CommandError;
use ledger_gateway::manifest::{find_first, governance_ids, AuthEntry};
use ledger_gateway::state::AppState;

fn entry(governance_id: &str, witnesses: &[&str]) -> AuthEntry {
    AuthEntry {
        governance_id: governance_id.to_string(),
        witness: witnesses.iter().map(|w| w.to_string()).collect(),
    }
}

#[test]
fn connection_slot_fills_exactly_once() {
    let mut state: AppState<u64> = AppState::new();
    assert!(state.install_connection(1).is_ok());
    assert!(matches!(
        state.install_connection(2),
        Err(CommandError::AlreadyInitialized)
    ));
    assert!(matches!(
        state.install_connection(3),
        Err(CommandError::AlreadyInitialized)
    ));
    // The slot still holds the winner's value.
    assert_eq!(state.connection_ref().ok(), Some(&1));
}

#[test]
fn commands_fail_before_any_init() {
    let mut state: AppState<u64> = AppState::new();
    assert!(matches!(
        state.connection_ref(),
        Err(CommandError::NotInitialized)
    ));
    assert!(matches!(
        state.get_config_governance_ids(),
        Err(CommandError::NotInitialized)
    ));
    assert!(matches!(
        state.put_auth_grant(&"G1".to_string()),
        Err(CommandError::NotInitialized)
    ));
    assert!(matches!(
        state.request_stop(),
        Err(CommandError::NotInitialized)
    ));
}

#[test]
fn stop_is_idempotent_after_init() {
    let mut state: AppState<u64> = AppState::new();
    assert!(state.install_connection(7).is_ok());
    for _ in 0..3 {
        assert!(state.request_stop().is_ok());
        // The connection slot stays filled after a stop request.
        assert_eq!(state.connection_ref().ok(), Some(&7));
    }
    assert_eq!(
        AppState::<u64>::stop_message(),
        "Bridge stopped successfully"
    );
}

#[test]
fn stop_needs_a_connection_even_with_a_manifest() {
    let mut state: AppState<u64> = AppState::new();
    assert!(state
        .finish_init(Ok(vec![entry("G1", &["w1"])]))
        .is_ok());
    assert!(matches!(
        state.request_stop(),
        Err(CommandError::NotInitialized)
    ));
}

#[test]
fn config_governance_ids_keep_file_order_and_duplicates() {
    let mut state: AppState<u64> = AppState::new();
    assert!(state.install_connection(1).is_ok());
    let loaded = vec![entry("G1", &["w1"]), entry("G1", &["w2"])];
    assert!(state.finish_init(Ok(loaded)).is_ok());
    assert_eq!(
        state.get_config_governance_ids().unwrap(),
        vec!["G1".to_string(), "G1".to_string()]
    );
}

#[test]
fn config_governance_ids_of_empty_manifest() {
    let mut state: AppState<u64> = AppState::new();
    assert!(state.finish_init(Ok(Vec::new())).is_ok());
    assert_eq!(state.get_config_governance_ids().unwrap(), Vec::<String>::new());
}

#[test]
fn put_auth_rejects_unknown_governance() {
    let mut state: AppState<u64> = AppState::new();
    assert!(state.install_connection(1).is_ok());
    assert!(state
        .finish_init(Ok(vec![entry("G1", &["w1", "w2"])]))
        .is_ok());
    assert!(matches!(
        state.put_auth_grant(&"G2".to_string()),
        Err(CommandError::GovernanceNotFound)
    ));
}

#[test]
fn put_auth_grants_the_manifest_witnesses_in_order() {
    let mut state: AppState<u64> = AppState::new();
    assert!(state.install_connection(1).is_ok());
    assert!(state
        .finish_init(Ok(vec![entry("G1", &["w1", "w2"])]))
        .is_ok());
    let grant = state.put_auth_grant(&"G1".to_string()).unwrap();
    assert_eq!(grant.governance_id, "G1".to_string());
    assert_eq!(grant.witness, vec!["w1".to_string(), "w2".to_string()]);
}

#[test]
fn put_auth_takes_the_first_matching_entry() {
    let mut state: AppState<u64> = AppState::new();
    assert!(state.install_connection(1).is_ok());
    let loaded = vec![entry("G1", &["first"]), entry("G1", &["second"])];
    assert!(state.finish_init(Ok(loaded)).is_ok());
    let grant = state.put_auth_grant(&"G1".to_string()).unwrap();
    assert_eq!(grant.witness, vec!["first".to_string()]);
}

#[test]
fn put_auth_needs_the_manifest_too() {
    let mut state: AppState<u64> = AppState::new();
    assert!(state.install_connection(1).is_ok());
    assert!(matches!(
        state.put_auth_grant(&"G1".to_string()),
        Err(CommandError::NotInitialized)
    ));
}

#[test]
fn manifest_failure_leaves_connection_usable() {
    let mut state: AppState<u64> = AppState::new();
    assert!(state.install_connection(9).is_ok());
    let outcome = state.finish_init(Err(CommandError::ManifestParse(
        "expected an array".to_string(),
    )));
    assert!(matches!(outcome, Err(CommandError::ManifestParse(_))));
    // The connection was filled before the manifest failed: identity reads work.
    assert_eq!(state.connection_ref().ok(), Some(&9));
    // The manifest slot stayed empty.
    assert!(matches!(
        state.get_config_governance_ids(),
        Err(CommandError::NotInitialized)
    ));
    // A second initialization cannot repair it: it loses the connection race.
    assert!(matches!(
        state.install_connection(10),
        Err(CommandError::AlreadyInitialized)
    ));
}

#[test]
fn manifest_slot_fills_exactly_once() {
    let mut state: AppState<u64> = AppState::new();
    let first = state.finish_init(Ok(vec![entry("G1", &["w1"])]));
    assert_eq!(first.unwrap(), "Bridge initialized successfully".to_string());
    assert!(matches!(
        state.finish_init(Ok(vec![entry("G2", &["w2"])])),
        Err(CommandError::AlreadyInitialized)
    ));
    // The slot still holds the first manifest.
    assert_eq!(
        state.get_config_governance_ids().unwrap(),
        vec!["G1".to_string()]
    );
}

#[test]
fn closing_notification_signals_only_a_live_connection() {
    let mut state: AppState<u64> = AppState::new();
    assert!(!state.notice_closing());
    assert!(state.install_connection(4).is_ok());
    assert!(state.notice_closing());
    assert!(state.notice_closing());
}

#[test]
fn find_first_takes_the_earliest_match() {
    let entries = vec![entry("G1", &["w1"]), entry("G2", &["w2"]), entry("G1", &["w3"])];
    assert_eq!(find_first(&entries, &"G1".to_string()), Some(0));
    assert_eq!(find_first(&entries, &"G2".to_string()), Some(1));
    assert_eq!(find_first(&entries, &"G3".to_string()), None);
}

#[test]
fn governance_ids_map_every_entry() {
    let entries = vec![entry("A", &[]), entry("B", &["w"]), entry("A", &[])];
    assert_eq!(
        governance_ids(&entries),
        vec!["A".to_string(), "B".to_string(), "A".to_string()]
    );
}

#[test]
fn empty_inputs_fall_back_to_defaults() {
    assert_eq!(
        resolve_or_default("".to_string(), "/default".to_string()),
        "/default".to_string()
    );
    assert_eq!(
        resolve_or_default("/given".to_string(), "/default".to_string()),
        "/given".to_string()
    );
}

#[test]
fn secure_path_is_folded_into_the_configuration() {
    let config = Configuration {
        keys_path: "keys".to_string(),
        trusted_paths: vec!["/base".to_string()],
    };
    let merged = config.apply_secure_path(&"/sec".to_string());
    assert_eq!(merged.keys_path, "/sec/keys".to_string());
    assert_eq!(
        merged.trusted_paths,
        vec!["/base".to_string(), "/sec".to_string()]
    );
}

#[test]
fn empty_secure_path_yields_the_documented_malformed_keys_path() {
    let config = Configuration {
        keys_path: "keys".to_string(),
        trusted_paths: Vec::new(),
    };
    let merged = config.apply_secure_path(&"".to_string());
    assert_eq!(merged.keys_path, "/keys".to_string());
    assert_eq!(merged.trusted_paths, vec!["".to_string()]);
}

#[test]
fn error_messages_describe_each_failure() {
    assert_eq!(
        CommandError::ConfigBuild("bad file".to_string()).message(),
        "Error building config: bad file".to_string()
    );
    assert_eq!(
        CommandError::ConnectionBuild("no network".to_string()).message(),
        "Error building Bridge: no network".to_string()
    );
    assert_eq!(
        CommandError::AlreadyInitialized.message(),
        "Bridge already initialized".to_string()
    );
    assert_eq!(
        CommandError::NotInitialized.message(),
        "Not initialized".to_string()
    );
    assert_eq!(
        CommandError::ManifestIo("missing".to_string()).message(),
        "Error reading manifest: missing".to_string()
    );
    assert_eq!(
        CommandError::ManifestParse("not an array".to_string()).message(),
        "Error parsing manifest: not an array".to_string()
    );
    assert_eq!(
        CommandError::GovernanceNotFound.message(),
        "Governance not found".to_string()
    );
    assert_eq!(
        CommandError::LiveOperation("timed out".to_string()).message(),
        "timed out".to_string()
    );
}
