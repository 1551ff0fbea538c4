use unifi_core::api::{
    envelope_outcome, integration_base_path, integration_error, legacy_api_url, legacy_site_url,
    legacy_status_error,
    next_page_offset, trim_trailing_slashes, unifi_os_error, ApiError, ErrorBody, Page, PageStep, Pager,
};
use unifi_core::controller::{
    connect_plan, disconnect_logs_out, integration_snapshot, legacy_snapshot, refresh_source,
    require_connected, ConnectionState,
    unwrap_or_empty, ApiFailure,
    AuthKind, ConnectPlan, CoreError, LegacySetup, RefreshSource, websocket_plan, StreamSkip,
};
use unifi_core::platform::ControllerPlatform;
use unifi_core::urls::{normalize_base_url, websocket_url, websocket_url_from};

#[test]
fn legacy_urls_use_the_platform_prefix() {
    assert_eq!(
        legacy_api_url("https://192.168.1.1/", ControllerPlatform::UnifiOs, "self/sites"),
        "https://192.168.1.1/proxy/network/api/self/sites"
    );
    assert_eq!(
        legacy_site_url("https://ctl:8443", ControllerPlatform::ClassicController, "default", "stat/device"),
        "https://ctl:8443/api/s/default/stat/device"
    );
    assert_eq!(trim_trailing_slashes("a///"), "a");
    assert_eq!(trim_trailing_slashes("///"), "");
}

#[test]
fn integration_base_paths() {
    assert_eq!(integration_base_path("/", ControllerPlatform::UnifiOs), "/proxy/network/integration/");
    assert_eq!(integration_base_path("", ControllerPlatform::ClassicController), "/integration/");
    assert_eq!(integration_base_path("/integration//", ControllerPlatform::UnifiOs), "/integration/");
}

#[test]
fn legacy_envelope_and_os_errors() {
    assert!(envelope_outcome("ok", None).is_ok());
    match envelope_outcome("error", Some("api.err.Invalid".into())) {
        Err(ApiError::LegacyApi { message }) => assert_eq!(message, "api.err.Invalid"),
        other => panic!("unexpected {other:?}"),
    }
    match envelope_outcome("error", None) {
        Err(ApiError::LegacyApi { message }) => assert_eq!(message, "rc=error"),
        other => panic!("unexpected {other:?}"),
    }
    match unifi_os_error(403, Some("denied".into())) {
        ApiError::LegacyApi { message } => assert_eq!(message, "UniFi OS error 403: denied"),
        other => panic!("unexpected {other:?}"),
    }
    assert!(matches!(unifi_os_error(401, None), ApiError::Authentication { .. }));
}

#[test]
fn integration_errors() {
    assert!(matches!(
        integration_error(401, "401 Unauthorized".into(), String::new(), None),
        ApiError::InvalidApiKey
    ));
    match integration_error(
        404,
        "404 Not Found".into(),
        "{}".into(),
        Some(ErrorBody { message: None, code: Some("NOT_FOUND".into()) }),
    ) {
        ApiError::Integration { status, message, code } => {
            assert_eq!(status, 404);
            assert_eq!(message, "404 Not Found");
            assert_eq!(code.as_deref(), Some("NOT_FOUND"));
        }
        other => panic!("unexpected {other:?}"),
    }
    match integration_error(500, "500".into(), "boom".into(), None) {
        ApiError::Integration { message, code, .. } => {
            assert_eq!(message, "boom");
            assert!(code.is_none());
        }
        other => panic!("unexpected {other:?}"),
    }
}

#[test]
fn pagination_stops_on_short_or_complete_pages() {
    assert_eq!(next_page_offset(200, 200, 200, 450, 0), Some(200));
    assert_eq!(next_page_offset(200, 50, 450, 450, 400), None);
    assert_eq!(next_page_offset(200, 200, 400, 400, 200), None);
}

#[test]
fn connect_plans() {
    assert_eq!(
        connect_plan(AuthKind::ApiKey).unwrap(),
        ConnectPlan { integration: true, legacy: LegacySetup::BestEffort }
    );
    assert_eq!(
        connect_plan(AuthKind::Credentials).unwrap(),
        ConnectPlan { integration: false, legacy: LegacySetup::LoginRequired }
    );
    match connect_plan(AuthKind::Cloud) {
        Err(CoreError::Unsupported { operation, .. }) => assert_eq!(operation, "cloud authentication"),
        other => panic!("unexpected {other:?}"),
    }
}

#[test]
fn refresh_sources_and_snapshots() {
    assert_eq!(refresh_source(true, Some(5), true).unwrap(), RefreshSource::Integration { site: 5 });
    assert_eq!(refresh_source(true, None, true).unwrap(), RefreshSource::Legacy);
    assert!(matches!(refresh_source(false, None, false), Err(CoreError::ControllerDisconnected)));
    let missing = || ApiFailure { not_found: true, message: "404".into() };
    let snap = integration_snapshot(
        vec![],
        vec![],
        vec![],
        vec![],
        vec![],
        vec![],
        vec![],
        vec![],
        Err(missing()),
        Ok(vec![]),
        Err(missing()),
        None,
    );
    assert!(snap.acls.is_empty() && snap.vouchers.is_empty() && snap.events.is_empty());
    let legacy = legacy_snapshot(vec![], vec![]);
    assert!(legacy.events.is_empty());
    assert!(legacy.networks.is_empty());
    let kept: Vec<u8> = unwrap_or_empty("x", Ok(vec![1, 2]));
    assert_eq!(kept, vec![1, 2]);
    let dropped: Vec<u8> = unwrap_or_empty("x", Err(missing()));
    assert!(dropped.is_empty());
}

#[test]
fn websocket_addresses() {
    assert_eq!(
        websocket_url_from("https", Some("10.0.0.1"), None, ControllerPlatform::UnifiOs, "default")
            .as_deref(),
        Some("wss://10.0.0.1/proxy/network/wss/s/default/events")
    );
    assert_eq!(
        websocket_url_from("http", None, Some(8443), ControllerPlatform::ClassicController, "lab")
            .as_deref(),
        Some("ws://localhost:8443/wss/s/lab/events")
    );
    assert!(websocket_url_from("https", Some("h"), None, ControllerPlatform::Cloud, "x").is_none());
    assert_eq!(
        websocket_url("https://ctl.example:8443/", ControllerPlatform::ClassicController, "default")
            .as_deref(),
        Some("wss://ctl.example:8443/wss/s/default/events")
    );
    assert!(websocket_url("not a url", ControllerPlatform::UnifiOs, "default").is_none());
}

#[test]
fn legacy_reply_status_decides_before_the_body() {
    assert!(legacy_status_error(200, "200 OK", "").is_none());
    match legacy_status_error(401, "401 Unauthorized", "") {
        Some(ApiError::Authentication { message }) => {
            assert_eq!(message, "session expired or invalid credentials")
        }
        other => panic!("unexpected {other:?}"),
    }
    match legacy_status_error(403, "403 Forbidden", "") {
        Some(ApiError::LegacyApi { message }) => assert_eq!(message, "insufficient permissions (HTTP 403)"),
        other => panic!("unexpected {other:?}"),
    }
    match legacy_status_error(502, "502 Bad Gateway", "<html>") {
        Some(ApiError::LegacyApi { message }) => assert_eq!(message, "HTTP 502 Bad Gateway: <html>"),
        other => panic!("unexpected {other:?}"),
    }
}

#[test]
fn only_session_logins_log_out() {
    assert!(disconnect_logs_out(AuthKind::Credentials));
    assert!(disconnect_logs_out(AuthKind::Hybrid));
    assert!(!disconnect_logs_out(AuthKind::ApiKey));
    assert!(!disconnect_logs_out(AuthKind::Cloud));
}

#[test]
fn commands_need_a_connection() {
    assert!(require_connected(ConnectionState::Connected).is_ok());
    assert!(matches!(
        require_connected(ConnectionState::Reconnecting { attempt: 2 }),
        Err(CoreError::ControllerDisconnected)
    ));
    assert!(matches!(require_connected(ConnectionState::Disconnected), Err(CoreError::ControllerDisconnected)));
}

#[test]
fn integration_base_url_gets_the_platform_prefix() {
    assert_eq!(
        normalize_base_url("https://192.168.1.1", ControllerPlatform::UnifiOs).as_deref(),
        Some("https://192.168.1.1/proxy/network/integration/")
    );
    assert_eq!(
        normalize_base_url("https://ctl:8443/", ControllerPlatform::ClassicController).as_deref(),
        Some("https://ctl:8443/integration/")
    );
    assert_eq!(
        normalize_base_url("https://ctl/proxy/network/integration//", ControllerPlatform::UnifiOs).as_deref(),
        Some("https://ctl/proxy/network/integration/")
    );
    assert_eq!(normalize_base_url("not a url", ControllerPlatform::UnifiOs), None);
    assert_eq!(
        normalize_base_url("https://ctl/old/path/?x=1", ControllerPlatform::ClassicController).as_deref(),
        Some("https://ctl/old/path/integration/?x=1")
    );
}

fn page(data: Vec<u32>, total_count: i64) -> Result<Page<u32>, String> {
    Ok(Page { data, total_count })
}

#[test]
fn pager_collects_every_page_in_order() {
    let pager: Pager<u32> = Pager::new(2);
    assert_eq!(pager.request(), (0, 2));
    let pager = match pager.on_fetch(page(vec![1, 2], 5)) {
        PageStep::Fetch(p) => p,
        _ => panic!("expected another page"),
    };
    assert_eq!(pager.request(), (2, 2));
    let pager = match pager.on_fetch(page(vec![3, 4], 5)) {
        PageStep::Fetch(p) => p,
        _ => panic!("expected another page"),
    };
    assert_eq!(pager.request(), (4, 2));
    match pager.on_fetch(page(vec![5], 5)) {
        PageStep::Complete(all) => assert_eq!(all, vec![1, 2, 3, 4, 5]),
        _ => panic!("expected the listing to complete"),
    }
}

#[test]
fn pager_stops_at_the_reported_total() {
    let pager: Pager<u32> = Pager::new(2);
    match pager.on_fetch(page(vec![7, 8], 2)) {
        PageStep::Complete(all) => assert_eq!(all, vec![7, 8]),
        _ => panic!("expected the listing to complete"),
    }
}

#[test]
fn pager_fails_on_the_first_error() {
    let pager: Pager<u32> = Pager::new(2);
    let pager = match pager.on_fetch(page(vec![1, 2], 10)) {
        PageStep::Fetch(p) => p,
        _ => panic!("expected another page"),
    };
    match pager.on_fetch(Err("timeout".to_string())) {
        PageStep::Failed(e) => assert_eq!(e, "timeout"),
        _ => panic!("expected the error"),
    }
}

#[test]
fn event_stream_plan() {
    assert_eq!(
        websocket_plan(true, ControllerPlatform::UnifiOs, "https://10.0.0.1", "default", true).as_deref(),
        Ok("wss://10.0.0.1/proxy/network/wss/s/default/events")
    );
    assert_eq!(
        websocket_plan(false, ControllerPlatform::UnifiOs, "https://10.0.0.1", "default", true),
        Err(StreamSkip::NoLegacyClient)
    );
    assert_eq!(
        websocket_plan(true, ControllerPlatform::Cloud, "https://10.0.0.1", "default", true),
        Err(StreamSkip::Unsupported)
    );
    assert_eq!(
        websocket_plan(true, ControllerPlatform::ClassicController, "no url", "default", true),
        Err(StreamSkip::InvalidUrl)
    );
    assert_eq!(
        websocket_plan(true, ControllerPlatform::ClassicController, "https://ctl:8443", "default", false),
        Err(StreamSkip::NoSession)
    );
}
