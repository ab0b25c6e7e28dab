use hexforge_companion::api::{AccountDto, SummonerDto};
use hexforge_companion::api::{ApiMode, ApiRequest};
use hexforge_companion::commands::{PlayerResolution, ResolveAction, StoreOutcome};
use hexforge_companion::commands::{
    deletion_confirmation, player_info, player_record, resolve_error, resolve_platform, ActivePlayer, ResolveStage,
};

fn account() -> AccountDto {
    AccountDto { puuid: "P-1".into(), game_name: Some("HexTactician".into()), tag_line: Some("KR1".into()) }
}

fn summoner() -> SummonerDto {
    SummonerDto {
        id: Some("S-9".into()),
        account_id: None,
        puuid: Some("P-1".into()),
        summoner_level: Some(312),
        profile_icon_id: Some(29),
    }
}

#[test]
fn platform_from_frontend_or_env_or_kr() {
    assert_eq!(resolve_platform("na1".into(), Some("euw1".into())), "na1");
    assert_eq!(resolve_platform("".into(), Some("euw1".into())), "euw1");
    assert_eq!(resolve_platform("".into(), None), "kr");
}

#[test]
fn record_and_info_from_lookup() {
    let r = player_record(&account(), &summoner());
    assert_eq!(
        (r.puuid.as_str(), r.game_name.as_str(), r.tag_line.as_str(), r.summoner_id.as_str()),
        ("P-1", "HexTactician", "KR1", "S-9")
    );
    assert_eq!((r.summoner_level, r.profile_icon_id), (312, 29));
    let i = player_info(account(), &summoner());
    assert_eq!((i.puuid.as_str(), i.game_name.as_str(), i.tag_line.as_str()), ("P-1", "HexTactician", "KR1"));
    assert_eq!(i.summoner_level, 312);
    assert_eq!(i.summoner_id, "S-9");
}

#[test]
fn missing_fields_become_empty_or_zero() {
    let a = AccountDto { puuid: "P".into(), game_name: None, tag_line: None };
    let s = SummonerDto::default();
    let r = player_record(&a, &s);
    assert_eq!((r.game_name.as_str(), r.tag_line.as_str(), r.summoner_id.as_str()), ("", "", ""));
    assert_eq!((r.summoner_level, r.profile_icon_id), (0, 0));
    let i = player_info(a, &s);
    assert_eq!((i.game_name.as_str(), i.summoner_level, i.summoner_id.as_str()), ("", 0, ""));
}

#[test]
fn lookup_error_messages() {
    assert_eq!(resolve_error(ResolveStage::AccountLookup, "404"), "Riot account lookup failed: 404");
    assert_eq!(resolve_error(ResolveStage::SummonerLookup, "timeout"), "Summoner lookup failed: timeout");
    assert_eq!(resolve_error(ResolveStage::DbInsert, "locked"), "DB insert failed: locked");
}

#[test]
fn nothing_linked_answers_errors() {
    let mut a = ActivePlayer::new();
    assert_eq!(a.history_puuid(), Err("No player linked — search for a player first".to_string()));
    assert_eq!(a.stats_puuid(), Err("No player linked".to_string()));
    assert_eq!(a.take_for_deletion(), Err("No player linked to delete".to_string()));
}

#[test]
fn linked_player_is_read_back_and_deleted_once() {
    let mut a = ActivePlayer::new();
    a.link("P-1".into());
    assert_eq!(a.history_puuid(), Ok("P-1".to_string()));
    assert_eq!(a.stats_puuid(), Ok("P-1".to_string()));
    a.link("P-2".into());
    assert_eq!(a.history_puuid(), Ok("P-2".to_string()));
    assert_eq!(a.take_for_deletion(), Ok("P-2".to_string()));
    assert!(a.history_puuid().is_err());
    assert_eq!(a.take_for_deletion(), Err("No player linked to delete".to_string()));
}

#[test]
fn deletion_confirmation_text() {
    assert_eq!(
        deletion_confirmation(),
        "Account data purged from local storage. Cloud data will be removed within 30 days."
    );
}

fn direct_mode() -> ApiMode {
    ApiMode::Direct { api_key: "RGAPI-k".into(), region: "asia".into(), platform: "kr".into() }
}

fn answer_of(a: ResolveAction) -> Result<String, String> {
    match a {
        ResolveAction::Answer(r) => r.map(|info| info.puuid),
        other => panic!("expected an answer, got {:?}", other),
    }
}

#[test]
fn resolution_runs_account_summoner_store_link_answer() {
    let (lookup, action) = PlayerResolution::start(direct_mode(), "HexTactician", "KR1", "".into(), None);
    assert_eq!(lookup.platform, "kr");
    match &action {
        ResolveAction::FetchAccount(ApiRequest::Get { url, riot_token }) => {
            assert_eq!(url, "https://asia.api.riotgames.com/riot/account/v1/accounts/by-riot-id/HexTactician/KR1");
            assert_eq!(riot_token.as_deref(), Some("RGAPI-k"));
        }
        other => panic!("unexpected {:?}", other),
    }
    let (lookup, action) = lookup.on_account(Ok(account()));
    match &action {
        ResolveAction::FetchSummoner(ApiRequest::Get { url, .. }) => {
            assert_eq!(url, "https://kr.api.riotgames.com/tft/summoner/v1/summoners/by-puuid/P-1")
        }
        other => panic!("unexpected {:?}", other),
    }
    let (lookup, action) = lookup.on_summoner(Ok(summoner()));
    match &action {
        ResolveAction::Store(rec) => {
            assert_eq!((rec.puuid.as_str(), rec.summoner_id.as_str(), rec.profile_icon_id), ("P-1", "S-9", 29))
        }
        other => panic!("unexpected {:?}", other),
    }
    let (lookup, action) = lookup.on_stored(StoreOutcome::Stored);
    match &action {
        ResolveAction::Link(p) => assert_eq!(p, "P-1"),
        other => panic!("unexpected {:?}", other),
    }
    let (_, action) = lookup.on_linked(Ok(()));
    match action {
        ResolveAction::Answer(Ok(info)) => {
            assert_eq!((info.puuid.as_str(), info.game_name.as_str(), info.summoner_id.as_str()), ("P-1", "HexTactician", "S-9"));
            assert_eq!(info.summoner_level, 312);
        }
        other => panic!("unexpected {:?}", other),
    }
}

#[test]
fn resolution_stops_at_first_failure() {
    let (lookup, _) = PlayerResolution::start(ApiMode::Mock, "a", "b", "na1".into(), None);
    assert_eq!(lookup.platform, "na1");
    let (_, action) = lookup.on_account(Err("404".into()));
    assert_eq!(answer_of(action), Err("Riot account lookup failed: 404".to_string()));

    let (lookup, _) = PlayerResolution::start(ApiMode::Mock, "a", "b", "".into(), Some("euw1".into()));
    assert_eq!(lookup.platform, "euw1");
    let (lookup, _) = lookup.on_account(Ok(account()));
    let (_, action) = lookup.on_summoner(Err("timeout".into()));
    assert_eq!(answer_of(action), Err("Summoner lookup failed: timeout".to_string()));

    let stored = |outcome: StoreOutcome| {
        let (lookup, _) = PlayerResolution::start(ApiMode::Mock, "a", "b", "".into(), None);
        let (lookup, _) = lookup.on_account(Ok(account()));
        let (lookup, _) = lookup.on_summoner(Ok(summoner()));
        lookup.on_stored(outcome)
    };
    assert_eq!(answer_of(stored(StoreOutcome::InsertFailed("locked".into())).1), Err("DB insert failed: locked".to_string()));
    assert_eq!(answer_of(stored(StoreOutcome::LockFailed("poisoned".into())).1), Err("poisoned".to_string()));
    let (_, action) = stored(StoreOutcome::Stored).0.on_linked(Err("poisoned".into()));
    assert_eq!(answer_of(action), Err("poisoned".to_string()));
}
