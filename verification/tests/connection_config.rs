use secrecy::{ExposeSecret, SecretString};
use unifi_core::config::{AuthCredentials, ControllerConfig};
use unifi_core::controller::{AuthKind, TlsVerification};

#[test]
fn default_config_values() {
    let c = ControllerConfig::default_with(String::new());
    assert_eq!(c.url, "https://192.168.1.1:8443/");
    match &c.auth {
        AuthCredentials::Credentials { username, password } => {
            assert_eq!(username, "admin");
            assert_eq!(password, "");
        }
        other => panic!("unexpected credentials {other:?}"),
    }
    assert_eq!(c.site, "default");
    assert!(c.tls == TlsVerification::DangerAcceptInvalid);
    assert_eq!(c.timeout_secs, 30);
    assert_eq!(c.refresh_interval_secs, 300);
    assert!(c.websocket_enabled);
    assert_eq!(c.polling_interval_secs, 10);
}

#[test]
fn oneshot_config_turns_off_stream_and_refresh() {
    let mut c = ControllerConfig::default_with(SecretString::from("pw".to_string()));
    c.site = "lab".to_string();
    c.polling_interval_secs = 7;
    let o = c.for_oneshot();
    assert!(!o.websocket_enabled);
    assert_eq!(o.refresh_interval_secs, 0);
    assert_eq!(o.site, "lab");
    assert_eq!(o.polling_interval_secs, 7);
    assert_eq!(o.timeout_secs, 30);
    match &o.auth {
        AuthCredentials::Credentials { password, .. } => assert_eq!(password.expose_secret(), "pw"),
        other => panic!("unexpected credentials {other:?}"),
    }
}

#[test]
fn credential_kinds() {
    let key = || "k".to_string();
    assert_eq!(AuthCredentials::ApiKey(key()).kind(), AuthKind::ApiKey);
    assert_eq!(
        AuthCredentials::Credentials { username: "u".into(), password: key() }.kind(),
        AuthKind::Credentials
    );
    assert_eq!(
        AuthCredentials::Hybrid { api_key: key(), username: "u".into(), password: key() }.kind(),
        AuthKind::Hybrid
    );
    assert_eq!(AuthCredentials::Cloud { api_key: key(), host_id: "h".into() }.kind(), AuthKind::Cloud);
}
