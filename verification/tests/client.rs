use daikin_matter::client::{
    configured_local_api_key, connection_order, info_requests, local_api_key_header, multireq_endpoint,
    next_connect_step, parse_local_api_key, status_requests, Cache, ConnectStep, LocalApiKeyError, Scheme, StatusAction,
    CACHE_TTL_MS, OP_READ,
};
use daikin_matter::text::{char_is_whitespace, trim};

#[test]
fn new_https_uses_https_multireq_endpoint() {
    let endpoint = multireq_endpoint(Scheme::Https.as_str(), [192, 168, 1, 152]);
    assert_eq!(endpoint, "https://192.168.1.152/dsiot/multireq");
}

#[test]
fn http_endpoint_spells_every_octet() {
    assert_eq!(multireq_endpoint("http", [0, 9, 10, 255]), "http://0.9.10.255/dsiot/multireq");
    assert_eq!(multireq_endpoint(Scheme::Http.as_str(), [10, 0, 0, 100]), "http://10.0.0.100/dsiot/multireq");
}

#[test]
fn read_local_api_key_trims_file_contents() {
    let key = parse_local_api_key("  secret-value\n").unwrap();
    assert_eq!(key, "secret-value");
}

#[test]
fn read_local_api_key_rejects_empty_file() {
    let error = parse_local_api_key("\n\t ").unwrap_err();
    assert!(error.message().contains("local API key is empty"));
}

#[test]
fn configured_key_is_trimmed_or_dropped() {
    assert_eq!(configured_local_api_key(Some(" k ".to_string())), Some("k".to_string()));
    assert_eq!(configured_local_api_key(Some("   ".to_string())), None);
    assert_eq!(configured_local_api_key(None), None);
}

#[test]
fn trim_strips_unicode_white_space_at_both_ends() {
    assert_eq!(trim("\u{3000} a b \u{a0}"), "a b");
    assert_eq!(trim(""), "");
    assert_eq!(trim(" \t\r\n"), "");
    assert_eq!(trim("x"), "x");
}

#[test]
fn local_api_key_header_is_checked() {
    let header = local_api_key_header("  test-local-key \n").unwrap();
    assert_eq!(header.to_str().unwrap(), "test-local-key");
    assert!(header.is_sensitive());
    assert_eq!(local_api_key_header(" \t ").unwrap_err(), LocalApiKeyError::Empty);
    assert_eq!(local_api_key_header("bad\u{7f}key").unwrap_err(), LocalApiKeyError::InvalidHeaderValue);
    assert_eq!(local_api_key_header("bad\u{1}key").unwrap_err(), LocalApiKeyError::InvalidHeaderValue);
    assert!(local_api_key_header("tab\tinside").is_ok());
    assert_eq!(LocalApiKeyError::InvalidHeaderValue.message(), "failed to parse header value");
}

#[test]
fn https_is_tried_first_when_a_key_is_configured() {
    assert_eq!(connection_order(true), vec![Scheme::Https, Scheme::Http]);
    assert_eq!(connection_order(false), vec![Scheme::Http]);
}

#[test]
fn cache_serves_a_fresh_value_only() {
    let mut cache: Cache<u32> = Cache::new();
    assert_eq!(cache.get_at(0), None);
    assert_eq!(cache.get(), None);
    cache.update(42);
    assert_eq!(cache.get_at(0), Some(42));
    assert_eq!(cache.get_at(CACHE_TTL_MS - 1), Some(42));
    assert_eq!(cache.get_at(CACHE_TTL_MS), None);
    assert_eq!(cache.get(), Some(42));
    cache.update(7);
    assert_eq!(cache.get_at(10), Some(7));
}

#[test]
fn read_requests_name_the_device_resources() {
    let status = status_requests();
    assert_eq!(status.len(), 2);
    assert!(status.iter().all(|r| r.op == OP_READ && r.op == 2));
    assert_eq!(status[0].to, "/dsiot/edge/adr_0100.dgc_status?filter=pv,md");
    assert_eq!(status[1].to, "/dsiot/edge/adr_0200.dgc_status?filter=pv,md");
    let info = info_requests();
    assert_eq!(info.len(), 3);
    assert!(info.iter().all(|r| r.op == 2));
    assert_eq!(info[0].to, "/dsiot/edge.adp_i");
    assert_eq!(info[1].to, "/dsiot/edge.adp_d");
    assert_eq!(info[2].to, "/dsiot/edge.adp_r");
}

#[test]
fn status_reads_serve_the_cache_while_fresh() {
    let mut cache: Cache<u32> = Cache::new();
    assert!(matches!(cache.status_action_at(0), StatusAction::Fetch));
    let now = std::time::Instant::now();
    assert_eq!(cache.finish_fetch_at(Ok::<u32, String>(7), now), Ok(7));
    assert!(matches!(cache.status_action_at(0), StatusAction::Serve(7)));
    assert!(matches!(cache.status_action_at(CACHE_TTL_MS - 1), StatusAction::Serve(7)));
    assert!(matches!(cache.status_action_at(CACHE_TTL_MS), StatusAction::Fetch));
    assert!(matches!(cache.status_action(), StatusAction::Serve(7)));
}

#[test]
fn failed_fetches_leave_the_cache_alone() {
    let mut cache: Cache<u32> = Cache::new();
    let now = std::time::Instant::now();
    assert_eq!(cache.finish_fetch_at(Err::<u32, String>("unreadable answer".to_string()), now), Err("unreadable answer".to_string()));
    assert!(matches!(cache.status_action_at(0), StatusAction::Fetch));
    cache.finish_fetch_at(Ok::<u32, String>(3), now).unwrap();
    assert_eq!(cache.finish_fetch(Err::<u32, String>("timeout".to_string())), Err("timeout".to_string()));
    assert!(matches!(cache.status_action_at(10), StatusAction::Serve(3)));
    assert_eq!(cache.finish_fetch(Ok::<u32, String>(4)), Ok(4));
    assert_eq!(cache.get_at(0), Some(4));
}

#[test]
fn connections_fall_back_from_https_to_http() {
    assert_eq!(next_connect_step(false, None), ConnectStep::Try(Scheme::Http));
    assert_eq!(next_connect_step(false, Some((Scheme::Http, false))), ConnectStep::Done);
    assert_eq!(next_connect_step(true, None), ConnectStep::Try(Scheme::Https));
    assert_eq!(next_connect_step(true, Some((Scheme::Https, true))), ConnectStep::Done);
    assert_eq!(next_connect_step(true, Some((Scheme::Https, false))), ConnectStep::Try(Scheme::Http));
    assert_eq!(next_connect_step(true, Some((Scheme::Http, true))), ConnectStep::Done);
    assert_eq!(next_connect_step(true, Some((Scheme::Http, false))), ConnectStep::Done);
}

#[test]
fn white_space_matches_the_standard_library() {
    for u in 0u32..=0x10FFFF {
        if let Some(c) = char::from_u32(u) {
            assert_eq!(char_is_whitespace(c), c.is_whitespace(), "U+{u:04X}");
        }
    }
}
