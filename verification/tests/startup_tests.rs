use hexforge_companion::api::ApiMode;
use hexforge_companion::startup::{production_mock_warning, startup_banner_lines, state_api_key};

#[test]
fn banner_for_each_mode() {
    let sep = "=".repeat(52);
    let head = vec![
        format!("\n{}", sep),
        "  hexforge-companion v0.6.0".to_string(),
        "  PID: 4242".to_string(),
        "  DB:  /data/HexForge/db/storage.db".to_string(),
        sep.clone(),
    ];
    let tail = vec![format!("{}\n", sep)];
    let banner = |mode: &ApiMode| startup_banner_lines("hexforge-companion", "0.6.0", 4242, "/data/HexForge/db/storage.db", mode);

    let mut mock = head.clone();
    mock.push("  MODE: Mock (offline) — no API calls".into());
    mock.push("  Set RGAPI_KEY in .env for live data".into());
    mock.extend(tail.clone());
    assert_eq!(banner(&ApiMode::Mock), mock);

    let mut direct = head.clone();
    direct.push("  MODE: Direct — live Riot API".into());
    direct.push("     region:   asia".into());
    direct.push("     platform: kr".into());
    direct.extend(tail.clone());
    assert_eq!(
        banner(&ApiMode::Direct { api_key: "k".into(), region: "asia".into(), platform: "kr".into() }),
        direct
    );

    let mut proxy = head.clone();
    proxy.push("  MODE: Proxy — routed through backend".into());
    proxy.push("     proxy: http://localhost:8080".into());
    proxy.extend(tail);
    assert_eq!(banner(&ApiMode::Proxy { proxy_base: "http://localhost:8080".into() }), proxy);
}

#[test]
fn pid_zero_and_max() {
    assert_eq!(startup_banner_lines("n", "v", 0, "d", &ApiMode::Mock)[2], "  PID: 0");
    assert_eq!(startup_banner_lines("n", "v", u32::MAX, "d", &ApiMode::Mock)[2], format!("  PID: {}", u32::MAX));
}

#[test]
fn warning_only_for_release_mock() {
    let expected = "[HexForge] RELEASE BUILD running in MOCK mode — no RGAPI_KEY configured.\n\
         [HexForge]    Create a .env file with RGAPI_KEY=*** for live data, or\n\
         [HexForge]    set USE_MOCK=true in .env to silence this warning.";
    assert_eq!(production_mock_warning(&ApiMode::Mock, false), Some(expected.to_string()));
    assert_eq!(production_mock_warning(&ApiMode::Mock, true), None);
    assert_eq!(production_mock_warning(&ApiMode::Proxy { proxy_base: "p".into() }, false), None);
}

#[test]
fn state_key_per_mode() {
    assert_eq!(state_api_key(&ApiMode::Mock), "MOCK_MODE");
    assert_eq!(state_api_key(&ApiMode::Proxy { proxy_base: "http://h".into() }), "proxy:http://h");
    assert_eq!(
        state_api_key(&ApiMode::Direct { api_key: "RGAPI-1".into(), region: "asia".into(), platform: "kr".into() }),
        "RGAPI-1"
    );
}
