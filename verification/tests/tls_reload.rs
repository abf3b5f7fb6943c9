use policy_server::tls_reload::{
    after_rebuild, watch_plan, ReloadAction, ReloadState, SwapDecision, TlsConfig, TlsConfigError,
    Watch, WatchEvent, WatchSetupStep, WatchedFile, Watches,
};

fn watches() -> Watches {
    Watches { cert: 1, key: 2, client_ca: Some(3) }
}

fn clean() -> ReloadState {
    ReloadState { cert_changed: false, key_changed: false, client_ca_changed: false }
}

#[test]
fn certificate_then_key_completes_a_rotation() {
    let mut state = ReloadState::new();
    assert_eq!(state, clean());
    assert_eq!(state.on_event(&watches(), WatchEvent::Modified(1)), ReloadAction::Wait);
    assert_eq!(
        state,
        ReloadState { cert_changed: true, key_changed: false, client_ca_changed: false }
    );
    assert_eq!(state.on_event(&watches(), WatchEvent::Modified(2)), ReloadAction::Rebuild);
    assert_eq!(state, clean());
}

#[test]
fn key_then_certificate_completes_a_rotation() {
    let mut state = ReloadState::new();
    assert_eq!(state.on_event(&watches(), WatchEvent::Modified(2)), ReloadAction::Wait);
    assert_eq!(state.on_event(&watches(), WatchEvent::Modified(1)), ReloadAction::Rebuild);
    assert_eq!(state, clean());
}

#[test]
fn certificate_written_many_times_changes_nothing() {
    let mut state = ReloadState::new();
    for _ in 0..5 {
        assert_eq!(state.on_event(&watches(), WatchEvent::Modified(1)), ReloadAction::Wait);
    }
    assert!(state.cert_changed);
    assert!(!state.key_changed);
}

#[test]
fn client_ca_alone_rebuilds_when_server_material_is_clean() {
    let mut state = ReloadState::new();
    assert_eq!(state.on_event(&watches(), WatchEvent::Modified(3)), ReloadAction::Rebuild);
    assert_eq!(state, clean());
}

#[test]
fn client_ca_waits_while_server_material_is_half_replaced() {
    let mut state = ReloadState::new();
    assert_eq!(state.on_event(&watches(), WatchEvent::Modified(1)), ReloadAction::Wait);
    assert_eq!(state.on_event(&watches(), WatchEvent::Modified(3)), ReloadAction::Wait);
    assert_eq!(
        state,
        ReloadState { cert_changed: true, key_changed: false, client_ca_changed: true }
    );
    assert_eq!(state.on_event(&watches(), WatchEvent::Modified(2)), ReloadAction::Rebuild);
    assert_eq!(state, clean());
}

#[test]
fn unreadable_event_and_unknown_descriptor_change_nothing() {
    let mut state = ReloadState { cert_changed: true, key_changed: false, client_ca_changed: false };
    assert_eq!(state.on_event(&watches(), WatchEvent::Unreadable), ReloadAction::Wait);
    assert_eq!(state.on_event(&watches(), WatchEvent::Modified(9)), ReloadAction::Wait);
    assert_eq!(
        state,
        ReloadState { cert_changed: true, key_changed: false, client_ca_changed: false }
    );
}

#[test]
fn certificate_and_key_in_one_file_rotate_with_one_write() {
    let shared = Watches { cert: 4, key: 4, client_ca: None };
    let mut state = ReloadState::new();
    assert_eq!(state.on_event(&shared, WatchEvent::Modified(4)), ReloadAction::Rebuild);
    assert_eq!(state, clean());
}

#[test]
fn without_client_ca_its_descriptor_means_nothing() {
    let plain = Watches { cert: 1, key: 2, client_ca: None };
    let mut state = ReloadState::new();
    assert_eq!(state.on_event(&plain, WatchEvent::Modified(3)), ReloadAction::Wait);
    assert_eq!(state, clean());
}

#[test]
fn failed_rebuild_keeps_the_previous_context() {
    assert_eq!(after_rebuild(true), SwapDecision::Swap);
    assert_eq!(after_rebuild(false), SwapDecision::KeepPrevious);
}

#[test]
fn watcher_registers_certificate_key_and_client_ca() {
    let config = TlsConfig {
        cert_file: "policy-server.pem".to_string(),
        key_file: "policy-server-key.pem".to_string(),
        client_ca_file: Some("client_cert.pem".to_string()),
    };
    assert_eq!(
        watch_plan(&config),
        vec![
            Watch { file: WatchedFile::Certificate, path: "policy-server.pem".to_string() },
            Watch { file: WatchedFile::Key, path: "policy-server-key.pem".to_string() },
            Watch { file: WatchedFile::ClientCa, path: "client_cert.pem".to_string() },
        ]
    );
    let plain = TlsConfig { client_ca_file: None, ..config };
    assert_eq!(watch_plan(&plain).len(), 2);
}

#[test]
fn watcher_setup_failures_say_what_failed() {
    assert_eq!(
        WatchSetupStep::Initialize.failure_message("no"),
        "Cannot initialize inotify: no"
    );
    assert_eq!(
        WatchSetupStep::WatchCertificate.failure_message("no"),
        "Cannot watch certificate file: no"
    );
    assert_eq!(WatchSetupStep::WatchKey.failure_message("no"), "Cannot watch key file: no");
    assert_eq!(
        WatchSetupStep::WatchClientCa.failure_message("no"),
        "Cannot watch client certificate file: no"
    );
    assert_eq!(
        WatchSetupStep::EventStream.failure_message("no"),
        "Cannot create inotify event stream: no"
    );
}

#[test]
fn tls_settings_come_together_or_not_at_all() {
    let file = |name: &str| Some(name.to_string());
    assert_eq!(TlsConfig::from_settings(None, None, None), Ok(None));
    assert_eq!(
        TlsConfig::from_settings(file("cert"), file("key"), None),
        Ok(Some(TlsConfig {
            cert_file: "cert".to_string(),
            key_file: "key".to_string(),
            client_ca_file: None,
        }))
    );
    assert_eq!(
        TlsConfig::from_settings(file("cert"), file("key"), file("ca")),
        Ok(Some(TlsConfig {
            cert_file: "cert".to_string(),
            key_file: "key".to_string(),
            client_ca_file: file("ca"),
        }))
    );
    assert_eq!(
        TlsConfig::from_settings(file("cert"), None, None),
        Err(TlsConfigError::IncompleteServerMaterial)
    );
    assert_eq!(
        TlsConfig::from_settings(None, file("key"), file("ca")),
        Err(TlsConfigError::IncompleteServerMaterial)
    );
    assert_eq!(
        TlsConfig::from_settings(None, None, file("ca")),
        Err(TlsConfigError::ClientCaWithoutServerMaterial)
    );
    assert_eq!(
        TlsConfigError::IncompleteServerMaterial.message(),
        "either both or neither of the certificate file and the key file must be provided"
    );
    assert_eq!(
        TlsConfigError::ClientCaWithoutServerMaterial.message(),
        "a client CA bundle cannot be used without a server certificate and key"
    );
}
