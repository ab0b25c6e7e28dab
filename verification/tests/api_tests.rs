use hexforge_companion::api::{keep_at_most, mock_dir_index, AccountDto, ApiMode, ApiRequest, SummonerDto};

fn s(v: &str) -> Option<String> {
    Some(v.to_string())
}

#[test]
fn test_auto_detect_mock() {
    assert_eq!(ApiMode::from_env(s("true"), None, None, None, None), ApiMode::Mock);
}

#[test]
fn test_auto_detect_direct() {
    if let ApiMode::Direct { api_key, region, platform } =
        ApiMode::from_env(s(""), None, s("RGAPI-test-key-12345"), s("asia"), s("kr"))
    {
        assert_eq!(api_key, "RGAPI-test-key-12345");
        assert_eq!(region, "asia");
        assert_eq!(platform, "kr");
    } else {
        panic!("Expected Direct mode");
    }
}

#[test]
fn mock_flag_wins_over_proxy_and_key() {
    assert_eq!(
        ApiMode::from_env(s("true"), s("http://localhost:8080"), s("RGAPI-x"), None, None),
        ApiMode::Mock
    );
}

#[test]
fn mock_flag_must_be_exactly_true() {
    assert_eq!(
        ApiMode::from_env(s("TRUE"), None, s("RGAPI-x"), None, None),
        ApiMode::Direct { api_key: "RGAPI-x".into(), region: "asia".into(), platform: "kr".into() }
    );
}

#[test]
fn proxy_wins_over_key() {
    assert_eq!(
        ApiMode::from_env(None, s("http://localhost:8080"), s("RGAPI-x"), None, None),
        ApiMode::Proxy { proxy_base: "http://localhost:8080".into() }
    );
}

#[test]
fn empty_proxy_is_ignored() {
    assert_eq!(
        ApiMode::from_env(None, s(""), s("RGAPI-x"), s("europe"), s("euw1")),
        ApiMode::Direct { api_key: "RGAPI-x".into(), region: "europe".into(), platform: "euw1".into() }
    );
}

#[test]
fn direct_defaults_to_asia_kr() {
    assert_eq!(
        ApiMode::from_env(None, None, s("RGAPI-x"), None, None),
        ApiMode::Direct { api_key: "RGAPI-x".into(), region: "asia".into(), platform: "kr".into() }
    );
}

#[test]
fn set_but_empty_region_is_kept() {
    assert_eq!(
        ApiMode::from_env(None, None, s("RGAPI-x"), s(""), s("")),
        ApiMode::Direct { api_key: "RGAPI-x".into(), region: "".into(), platform: "".into() }
    );
}

#[test]
fn placeholder_or_empty_key_falls_back_to_mock() {
    assert_eq!(ApiMode::from_env(None, None, s("your_r...n"), None, None), ApiMode::Mock);
    assert_eq!(ApiMode::from_env(None, None, s(""), None, None), ApiMode::Mock);
    assert_eq!(ApiMode::from_env(None, None, None, s("asia"), s("kr")), ApiMode::Mock);
}

fn direct() -> ApiMode {
    ApiMode::Direct { api_key: "RGAPI-k".into(), region: "asia".into(), platform: "kr".into() }
}

fn proxy() -> ApiMode {
    ApiMode::Proxy { proxy_base: "http://localhost:8080".into() }
}

fn get(r: ApiRequest) -> (String, Option<String>) {
    match r {
        ApiRequest::Get { url, riot_token } => (url, riot_token),
        other => panic!("expected an HTTP request, got {:?}", other),
    }
}

#[test]
fn account_request_per_mode() {
    match ApiMode::Mock.account_request("HexTactician", "KR1") {
        ApiRequest::MockFile(f) => assert_eq!(f, "account.json"),
        other => panic!("unexpected {:?}", other),
    }
    assert_eq!(
        get(direct().account_request("HexTactician", "KR1")),
        (
            "https://asia.api.riotgames.com/riot/account/v1/accounts/by-riot-id/HexTactician/KR1".to_string(),
            Some("RGAPI-k".to_string())
        )
    );
    assert_eq!(
        get(proxy().account_request("HexTactician", "KR1")),
        (
            "http://localhost:8080/api/riot/v1/riot/account/v1/accounts/by-riot-id/HexTactician/KR1".to_string(),
            None
        )
    );
}

#[test]
fn summoner_request_per_mode() {
    match ApiMode::Mock.summoner_request("kr", "P") {
        ApiRequest::MockFile(f) => assert_eq!(f, "summoner.json"),
        other => panic!("unexpected {:?}", other),
    }
    assert_eq!(
        get(direct().summoner_request("na1", "abc-123")),
        (
            "https://na1.api.riotgames.com/tft/summoner/v1/summoners/by-puuid/abc-123".to_string(),
            Some("RGAPI-k".to_string())
        )
    );
    assert_eq!(
        get(proxy().summoner_request("na1", "abc-123")).0,
        "http://localhost:8080/api/riot/v1/tft/summoner/v1/summoners/by-puuid/na1/abc-123"
    );
}

#[test]
fn match_ids_request_per_mode() {
    match ApiMode::Mock.match_ids_request("P", "asia", 20) {
        ApiRequest::MockFile(f) => assert_eq!(f, "match_ids.json"),
        other => panic!("unexpected {:?}", other),
    }
    assert_eq!(
        get(direct().match_ids_request("P", "americas", 20)).0,
        "https://americas.api.riotgames.com/tft/match/v1/matches/by-puuid/P/ids?count=20"
    );
    assert_eq!(
        get(proxy().match_ids_request("P", "americas", -5)),
        ("http://localhost:8080/api/riot/v1/tft/match/v1/matches/by-puuid/P/ids?count=-5".to_string(), None)
    );
    assert_eq!(
        get(direct().match_ids_request("P", "sea", i64::MIN)).0,
        format!("https://sea.api.riotgames.com/tft/match/v1/matches/by-puuid/P/ids?count={}", i64::MIN)
    );
}

#[test]
fn match_detail_request_per_mode() {
    match ApiMode::Mock.match_detail_request("KR_1", "asia") {
        ApiRequest::MockFirstOf(fs) => {
            assert_eq!(fs, vec!["match_detail_1.json".to_string(), "match_detail_2.json".to_string()])
        }
        other => panic!("unexpected {:?}", other),
    }
    assert_eq!(
        get(direct().match_detail_request("KR_7", "europe")),
        ("https://europe.api.riotgames.com/tft/match/v1/matches/KR_7".to_string(), Some("RGAPI-k".to_string()))
    );
    assert_eq!(
        get(proxy().match_detail_request("KR_7", "europe")).0,
        "http://localhost:8080/api/riot/v1/tft/match/v1/matches/KR_7"
    );
}

#[test]
fn proxy_requests_never_carry_the_key() {
    let p = proxy();
    for r in [
        p.account_request("a", "b"),
        p.summoner_request("kr", "p"),
        p.match_ids_request("p", "asia", 3),
        p.match_detail_request("m", "asia"),
    ] {
        let (url, token) = get(r);
        assert!(token.is_none());
        assert!(url.starts_with("http://localhost:8080/api/riot/v1/"));
    }
}

#[test]
fn mock_dir_is_first_existing_or_first() {
    assert_eq!(mock_dir_index(&vec![false, false, true, true]), 2);
    assert_eq!(mock_dir_index(&vec![true, true]), 0);
    assert_eq!(mock_dir_index(&vec![false, false, false, false]), 0);
    assert_eq!(mock_dir_index(&vec![false, true]), 1);
}

#[test]
fn dtos_default_to_empty() {
    let a = AccountDto::default();
    assert_eq!(a.puuid, "");
    assert!(a.game_name.is_none() && a.tag_line.is_none());
    let s = SummonerDto::default();
    assert!(s.id.is_none() && s.summoner_level.is_none() && s.profile_icon_id.is_none());
}

#[test]
fn match_ids_are_cut_to_count() {
    let ids: Vec<String> = (1..=5).map(|i| format!("KR_{}", i)).collect();
    assert_eq!(keep_at_most(ids.clone(), 3), ids[..3].to_vec());
    assert_eq!(keep_at_most(ids.clone(), 5), ids);
    assert_eq!(keep_at_most(ids.clone(), 20), ids);
    assert!(keep_at_most(ids.clone(), 0).is_empty());
    assert!(keep_at_most(ids, -1).is_empty());
}
