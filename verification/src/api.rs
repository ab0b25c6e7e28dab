use vstd::prelude::*;
use crate::text::{int_decimal, push_i64_decimal};

verus! {

/// Operational mode for the Riot API client.
#[derive(Debug, Clone, PartialEq)]
pub enum ApiMode {
    /// Read mock JSON files from the mock directory — no network calls.
    Mock,
    /// Direct API calls with the `X-Riot-Token` header from env `RGAPI_KEY`.
    Direct { api_key: String, region: String, platform: String },
    /// Route all calls through a proxy backend that holds the Production key.
    Proxy { proxy_base: String },
}

/// An [`ApiMode`] with its strings taken as character sequences.
pub enum ApiModeView {
    Mock,
    Direct { api_key: Seq<char>, region: Seq<char>, platform: Seq<char> },
    Proxy { proxy_base: Seq<char> },
}

impl View for ApiMode {
    type V = ApiModeView;

    open spec fn view(&self) -> ApiModeView {
        match self {
            ApiMode::Mock => ApiModeView::Mock,
            ApiMode::Direct { api_key, region, platform } => ApiModeView::Direct {
                api_key: api_key@,
                region: region@,
                platform: platform@,
            },
            ApiMode::Proxy { proxy_base } => ApiModeView::Proxy { proxy_base: proxy_base@ },
        }
    }
}

/// The placeholder key of the example configuration, which counts as no key.
pub open spec fn placeholder_key() -> Seq<char> {
    "your_r...n"@
}

/// Mode detection from the environment (`None` for an unset variable):
/// 1. `USE_MOCK` is `true` → Mock;
/// 2. `RIOT_PROXY_URL` is set and not empty → Proxy;
/// 3. `RGAPI_KEY` is set, not empty and not the placeholder → Direct, with
///    `RIOT_REGION` (default `asia`) and `RIOT_PLATFORM` (default `kr`);
/// 4. otherwise → Mock.
pub open spec fn spec_from_env(
    use_mock: Option<Seq<char>>,
    proxy_url: Option<Seq<char>>,
    api_key: Option<Seq<char>>,
    region: Option<Seq<char>>,
    platform: Option<Seq<char>>,
) -> ApiModeView {
    if use_mock == Some("true"@) {
        ApiModeView::Mock
    } else if proxy_url is Some && proxy_url->0.len() > 0 {
        ApiModeView::Proxy { proxy_base: proxy_url->0 }
    } else if api_key is Some && api_key->0.len() > 0 && api_key->0 != placeholder_key() {
        ApiModeView::Direct {
            api_key: api_key->0,
            region: match region {
                Some(r) => r,
                None => "asia"@,
            },
            platform: match platform {
                Some(p) => p,
                None => "kr"@,
            },
        }
    } else {
        ApiModeView::Mock
    }
}

fn text_eq(a: &String, literal: &str) -> (r: bool)
    ensures
        r == (a@ == literal@),
{
    let b = String::from_str(literal);
    *a == b
}

impl ApiMode {
    /// Auto-detect the mode from the values of the environment variables
    /// `USE_MOCK`, `RIOT_PROXY_URL`, `RGAPI_KEY`, `RIOT_REGION` and
    /// `RIOT_PLATFORM` (`None` where a variable is unset).
    pub fn from_env(
        use_mock: Option<String>,
        proxy_url: Option<String>,
        api_key: Option<String>,
        region: Option<String>,
        platform: Option<String>,
    ) -> (r: ApiMode)
        ensures
            r@ == spec_from_env(
                use_mock.deep_view(),
                proxy_url.deep_view(),
                api_key.deep_view(),
                region.deep_view(),
                platform.deep_view(),
            ),
    {
        if let Some(flag) = &use_mock {
            if text_eq(flag, "true") {
                return ApiMode::Mock;
            }
        }
        if let Some(proxy) = proxy_url {
            if !proxy.as_str().is_empty() {
                return ApiMode::Proxy { proxy_base: proxy };
            }
        }
        if let Some(key) = api_key {
            if !key.as_str().is_empty() && !text_eq(&key, "your_r...n") {
                let region = match region {
                    Some(r) => r,
                    None => String::from_str("asia"),
                };
                let platform = match platform {
                    Some(p) => p,
                    None => String::from_str("kr"),
                };
                return ApiMode::Direct { api_key: key, region, platform };
            }
        }
        ApiMode::Mock
    }
}


// ── DTOs ──────────────────────────────────────────────────

/// Account of a Riot ID, as the account endpoint answers it.
#[derive(Debug, Default)]
pub struct AccountDto {
    pub puuid: String,
    pub game_name: Option<String>,
    pub tag_line: Option<String>,
}

/// TFT summoner of a PUUID on a platform, as the summoner endpoint answers it.
#[derive(Debug, Default)]
pub struct SummonerDto {
    pub id: Option<String>,
    pub account_id: Option<String>,
    pub puuid: Option<String>,
    pub summoner_level: Option<i64>,
    pub profile_icon_id: Option<i64>,
}

/// Index of the mock directory to use among the candidates, in order: the
/// first candidate that exists, else the first candidate.
pub fn mock_dir_index(exists: &Vec<bool>) -> (r: usize)
    requires
        exists.len() > 0,
    ensures
        r < exists.len(),
        exists@[r as int] || r == 0,
        forall|j: int| 0 <= j < r ==> !exists@[j],
        !exists@[r as int] ==> forall|j: int| 0 <= j < exists.len() ==> !exists@[j],
{
    let mut i: usize = 0;
    while i < exists.len()
        invariant
            i <= exists.len(),
            forall|j: int| 0 <= j < i ==> !exists@[j],
        decreases exists.len() - i,
    {
        if exists[i] {
            return i;
        }
        i = i + 1;
    }
    0
}

/// The match IDs answered for a lookup of at most `count` IDs: the first
/// `count` of those received (none for a count of zero or less).
pub open spec fn spec_keep_at_most(ids: Seq<Seq<char>>, count: int) -> Seq<Seq<char>> {
    if count <= 0 {
        Seq::empty()
    } else if count >= ids.len() {
        ids
    } else {
        ids.take(count)
    }
}

/// Keeps at most `count` of the match IDs received, in order, so that a
/// lookup answers up to `count` IDs whatever its source gave.
pub fn keep_at_most(ids: Vec<String>, count: i64) -> (r: Vec<String>)
    ensures
        r.deep_view() == spec_keep_at_most(ids.deep_view(), count as int),
{
    let ghost original = ids.deep_view();
    let mut ids = ids;
    if count <= 0 {
        ids.truncate(0);
    } else if (count as u64) < (ids.len() as u64) {
        ids.truncate(count as usize);
    }
    assert(ids.deep_view() =~= spec_keep_at_most(original, count as int));
    ids
}

/// How one Riot API call is carried out.
#[derive(Debug)]
pub enum ApiRequest {
    /// Read this JSON file from the mock directory.
    MockFile(String),
    /// Read the first of these JSON files from the mock directory that can be
    /// read and parsed; fail when none can.
    MockFirstOf(Vec<String>),
    /// Send an HTTP GET to `url`, with the `X-Riot-Token` header set to
    /// `riot_token` where there is one.
    Get { url: String, riot_token: Option<String> },
}

/// An [`ApiRequest`] with its strings taken as character sequences.
pub enum RequestView {
    MockFile(Seq<char>),
    MockFirstOf(Seq<Seq<char>>),
    Get { url: Seq<char>, riot_token: Option<Seq<char>> },
}

impl View for ApiRequest {
    type V = RequestView;

    open spec fn view(&self) -> RequestView {
        match self {
            ApiRequest::MockFile(f) => RequestView::MockFile(f@),
            ApiRequest::MockFirstOf(fs) => RequestView::MockFirstOf(fs.deep_view()),
            ApiRequest::Get { url, riot_token } => RequestView::Get {
                url: url@,
                riot_token: riot_token.deep_view(),
            },
        }
    }
}

/// The Riot API calls the client makes, with their arguments.
pub enum Endpoint {
    /// Riot ID → account (PUUID).
    Account { game_name: Seq<char>, tag_line: Seq<char> },
    /// PUUID → TFT summoner on a platform.
    Summoner { platform: Seq<char>, puuid: Seq<char> },
    /// Match IDs of a player on a regional route.
    MatchIds { puuid: Seq<char>, region: Seq<char>, count: int },
    /// One match on a regional route.
    MatchDetail { match_id: Seq<char>, region: Seq<char> },
}

/// The mock files that stand for an endpoint.
pub open spec fn mock_request(e: Endpoint) -> RequestView {
    match e {
        Endpoint::Account { .. } => RequestView::MockFile("account.json"@),
        Endpoint::Summoner { .. } => RequestView::MockFile("summoner.json"@),
        Endpoint::MatchIds { .. } => RequestView::MockFile("match_ids.json"@),
        Endpoint::MatchDetail { .. } => RequestView::MockFirstOf(
            seq!["match_detail_1.json"@, "match_detail_2.json"@],
        ),
    }
}

/// The Riot route host (region or platform) that a direct call goes to;
/// `mode_region` is the region of the Direct mode.
pub open spec fn direct_host(e: Endpoint, mode_region: Seq<char>) -> Seq<char> {
    match e {
        Endpoint::Account { .. } => mode_region,
        Endpoint::Summoner { platform, .. } => platform,
        Endpoint::MatchIds { region, .. } => region,
        Endpoint::MatchDetail { region, .. } => region,
    }
}

/// Path of a direct call on the Riot API host.
pub open spec fn direct_path(e: Endpoint) -> Seq<char> {
    match e {
        Endpoint::Account { game_name, tag_line } => "/riot/account/v1/accounts/by-riot-id/"@
            + game_name + "/"@ + tag_line,
        Endpoint::Summoner { puuid, .. } => "/tft/summoner/v1/summoners/by-puuid/"@ + puuid,
        Endpoint::MatchIds { puuid, count, .. } => "/tft/match/v1/matches/by-puuid/"@ + puuid
            + "/ids?count="@ + int_decimal(count),
        Endpoint::MatchDetail { match_id, .. } => "/tft/match/v1/matches/"@ + match_id,
    }
}

/// Path of a call behind the proxy prefix `/api/riot/v1`; the summoner
/// lookup also names the platform there.
pub open spec fn proxy_path(e: Endpoint) -> Seq<char> {
    match e {
        Endpoint::Summoner { platform, puuid } => "/tft/summoner/v1/summoners/by-puuid/"@ + platform
            + "/"@ + puuid,
        _ => direct_path(e),
    }
}

/// How a mode carries out a call.
pub open spec fn spec_request(mode: ApiModeView, e: Endpoint) -> RequestView {
    match mode {
        ApiModeView::Mock => mock_request(e),
        ApiModeView::Direct { api_key, region, .. } => RequestView::Get {
            url: "https://"@ + direct_host(e, region) + ".api.riotgames.com"@ + direct_path(e),
            riot_token: Some(api_key),
        },
        ApiModeView::Proxy { proxy_base } => RequestView::Get {
            url: proxy_base + "/api/riot/v1"@ + proxy_path(e),
            riot_token: None,
        },
    }
}

fn mock_file(name: &str) -> (r: ApiRequest)
    ensures
        r@ == RequestView::MockFile(name@),
{
    ApiRequest::MockFile(String::from_str(name))
}

/// `"https://" + host + ".api.riotgames.com"`.
fn riot_host(host: &String) -> (r: String)
    ensures
        r@ == "https://"@ + host@ + ".api.riotgames.com"@,
{
    let mut url = String::from_str("https://");
    url.append(host.as_str());
    url.append(".api.riotgames.com");
    url
}

/// `base + "/api/riot/v1"`.
fn proxy_prefix(base: &String) -> (r: String)
    ensures
        r@ == base@ + "/api/riot/v1"@,
{
    let mut url = base.clone();
    url.append("/api/riot/v1");
    url
}

fn get(url: String, riot_token: Option<String>) -> (r: ApiRequest)
    ensures
        r@ == (RequestView::Get { url: url@, riot_token: riot_token.deep_view() }),
{
    ApiRequest::Get { url, riot_token }
}

impl ApiMode {
    /// How step 1 of a player lookup, Riot ID → encrypted PUUID, is carried out.
    pub fn account_request(&self, game_name: &str, tag_line: &str) -> (r: ApiRequest)
        ensures
            r@ == spec_request(self@, Endpoint::Account { game_name: game_name@, tag_line: tag_line@ }),
    {
        let ghost e = Endpoint::Account { game_name: game_name@, tag_line: tag_line@ };
        match self {
            ApiMode::Mock => mock_file("account.json"),
            ApiMode::Direct { api_key, region, .. } => {
                let mut url = riot_host(region);
                url.append("/riot/account/v1/accounts/by-riot-id/");
                url.append(game_name);
                url.append("/");
                url.append(tag_line);
                assert(url@ =~= "https://"@ + region@ + ".api.riotgames.com"@ + direct_path(e));
                get(url, Some(api_key.clone()))
            },
            ApiMode::Proxy { proxy_base } => {
                let mut url = proxy_prefix(proxy_base);
                url.append("/riot/account/v1/accounts/by-riot-id/");
                url.append(game_name);
                url.append("/");
                url.append(tag_line);
                assert(url@ =~= proxy_base@ + "/api/riot/v1"@ + proxy_path(e));
                get(url, None)
            },
        }
    }

    /// How step 2 of a player lookup, PUUID → platform summoner, is carried out.
    pub fn summoner_request(&self, platform: &str, puuid: &str) -> (r: ApiRequest)
        ensures
            r@ == spec_request(self@, Endpoint::Summoner { platform: platform@, puuid: puuid@ }),
    {
        let ghost e = Endpoint::Summoner { platform: platform@, puuid: puuid@ };
        match self {
            ApiMode::Mock => mock_file("summoner.json"),
            ApiMode::Direct { api_key, .. } => {
                let host = String::from_str(platform);
                let mut url = riot_host(&host);
                url.append("/tft/summoner/v1/summoners/by-puuid/");
                url.append(puuid);
                assert(url@ =~= "https://"@ + platform@ + ".api.riotgames.com"@ + direct_path(e));
                get(url, Some(api_key.clone()))
            },
            ApiMode::Proxy { proxy_base } => {
                let mut url = proxy_prefix(proxy_base);
                url.append("/tft/summoner/v1/summoners/by-puuid/");
                url.append(platform);
                url.append("/");
                url.append(puuid);
                assert(url@ =~= proxy_base@ + "/api/riot/v1"@ + proxy_path(e));
                get(url, None)
            },
        }
    }

    /// How the match IDs of a player (up to `count`) are fetched.
    pub fn match_ids_request(&self, puuid: &str, region: &str, count: i64) -> (r: ApiRequest)
        ensures
            r@ == spec_request(
                self@,
                Endpoint::MatchIds { puuid: puuid@, region: region@, count: count as int },
            ),
    {
        let ghost e = Endpoint::MatchIds { puuid: puuid@, region: region@, count: count as int };
        match self {
            ApiMode::Mock => mock_file("match_ids.json"),
            ApiMode::Direct { api_key, .. } => {
                let host = String::from_str(region);
                let mut url = riot_host(&host);
                url.append("/tft/match/v1/matches/by-puuid/");
                url.append(puuid);
                url.append("/ids?count=");
                push_i64_decimal(&mut url, count);
                assert(url@ =~= "https://"@ + region@ + ".api.riotgames.com"@ + direct_path(e));
                get(url, Some(api_key.clone()))
            },
            ApiMode::Proxy { proxy_base } => {
                let mut url = proxy_prefix(proxy_base);
                url.append("/tft/match/v1/matches/by-puuid/");
                url.append(puuid);
                url.append("/ids?count=");
                push_i64_decimal(&mut url, count);
                assert(url@ =~= proxy_base@ + "/api/riot/v1"@ + proxy_path(e));
                get(url, None)
            },
        }
    }

    /// How a single match is fetched by its ID.
    pub fn match_detail_request(&self, match_id: &str, region: &str) -> (r: ApiRequest)
        ensures
            r@ == spec_request(self@, Endpoint::MatchDetail { match_id: match_id@, region: region@ }),
    {
        let ghost e = Endpoint::MatchDetail { match_id: match_id@, region: region@ };
        match self {
            ApiMode::Mock => {
                let mut files: Vec<String> = Vec::new();
                files.push(String::from_str("match_detail_1.json"));
                files.push(String::from_str("match_detail_2.json"));
                assert(files.deep_view() =~= seq!["match_detail_1.json"@, "match_detail_2.json"@]);
                ApiRequest::MockFirstOf(files)
            },
            ApiMode::Direct { api_key, .. } => {
                let host = String::from_str(region);
                let mut url = riot_host(&host);
                url.append("/tft/match/v1/matches/");
                url.append(match_id);
                assert(url@ =~= "https://"@ + region@ + ".api.riotgames.com"@ + direct_path(e));
                get(url, Some(api_key.clone()))
            },
            ApiMode::Proxy { proxy_base } => {
                let mut url = proxy_prefix(proxy_base);
                url.append("/tft/match/v1/matches/");
                url.append(match_id);
                assert(url@ =~= proxy_base@ + "/api/riot/v1"@ + proxy_path(e));
                get(url, None)
            },
        }
    }
}


/// Mock mode makes no network call: every endpoint is served from mock files.
pub proof fn lemma_mock_mode_is_offline(e: Endpoint)
    ensures
        spec_request(ApiModeView::Mock, e) is MockFile || spec_request(ApiModeView::Mock, e) is MockFirstOf,
{
}

/// Direct mode sends every call to a Riot API host over HTTPS, with the
/// configured key in the `X-Riot-Token` header.
pub proof fn lemma_direct_mode_sends_key(api_key: Seq<char>, region: Seq<char>, platform: Seq<char>, e: Endpoint)
    ensures
        spec_request(ApiModeView::Direct { api_key, region, platform }, e) matches RequestView::Get { url, riot_token }
            && riot_token == Some(api_key)
            && "https://"@.is_prefix_of(url),
{
    let url = "https://"@ + direct_host(e, region) + ".api.riotgames.com"@ + direct_path(e);
    assert(url.subrange(0, "https://"@.len() as int) =~= "https://"@);
}

/// Proxy mode routes every call through `{proxy_base}/api/riot/v1/...` and
/// never sends an API key: the key stays on the backend.
pub proof fn lemma_proxy_mode_keeps_key_out(proxy_base: Seq<char>, e: Endpoint)
    ensures
        spec_request(ApiModeView::Proxy { proxy_base }, e) matches RequestView::Get { url, riot_token }
            && riot_token is None
            && (proxy_base + "/api/riot/v1"@).is_prefix_of(url),
{
    let prefix = proxy_base + "/api/riot/v1"@;
    let url = prefix + proxy_path(e);
    assert(url.subrange(0, prefix.len() as int) =~= prefix);
}

/// A detected Direct mode always carries a usable key: never empty and never
/// the placeholder of the example configuration.
pub proof fn lemma_direct_mode_has_real_key(
    use_mock: Option<Seq<char>>,
    proxy_url: Option<Seq<char>>,
    api_key: Option<Seq<char>>,
    region: Option<Seq<char>>,
    platform: Option<Seq<char>>,
)
    ensures
        spec_from_env(use_mock, proxy_url, api_key, region, platform) matches ApiModeView::Direct { api_key: k, .. }
            ==> k.len() > 0 && k != placeholder_key() && api_key == Some(k),
{
}


/// Mode detection, input by input: `USE_MOCK=true` gives Mock whatever else
/// is set; otherwise a non-empty proxy URL gives Proxy with that URL;
/// otherwise a non-empty key other than the placeholder gives Direct with
/// that key, the region `RIOT_REGION` when set (else `asia`) and the
/// platform `RIOT_PLATFORM` when set (else `kr`), each chosen on its own;
/// in every other case Mock.
pub proof fn lemma_from_env_by_case(
    use_mock: Option<Seq<char>>,
    proxy_url: Option<Seq<char>>,
    api_key: Option<Seq<char>>,
    region: Option<Seq<char>>,
    platform: Option<Seq<char>>,
)
    ensures
        ({
            let m = spec_from_env(use_mock, proxy_url, api_key, region, platform);
            let mock_flag = use_mock == Some("true"@);
            let proxied = !mock_flag && proxy_url is Some && proxy_url->0.len() > 0;
            let keyed = !mock_flag && !proxied && api_key is Some && api_key->0.len() > 0
                && api_key->0 != "your_r...n"@;
            &&& mock_flag ==> m == ApiModeView::Mock
            &&& proxied ==> m == (ApiModeView::Proxy { proxy_base: proxy_url->0 })
            &&& keyed ==> (m matches ApiModeView::Direct { api_key: k, region: r, platform: p }
                && k == api_key->0
                && (region is Some ==> r == region->0)
                && (region is None ==> r == "asia"@)
                && (platform is Some ==> p == platform->0)
                && (platform is None ==> p == "kr"@))
            &&& !mock_flag && !proxied && !keyed ==> m == ApiModeView::Mock
        }),
{
}

/// The offline answer of each call in Mock mode: `account.json`,
/// `summoner.json`, `match_ids.json`, and for a match the first readable of
/// `match_detail_1.json` and `match_detail_2.json`.
pub proof fn lemma_mock_files(
    game_name: Seq<char>,
    tag_line: Seq<char>,
    platform: Seq<char>,
    puuid: Seq<char>,
    region: Seq<char>,
    count: int,
    match_id: Seq<char>,
)
    ensures
        spec_request(ApiModeView::Mock, Endpoint::Account { game_name, tag_line }) == RequestView::MockFile(
            "account.json"@,
        ),
        spec_request(ApiModeView::Mock, Endpoint::Summoner { platform, puuid }) == RequestView::MockFile(
            "summoner.json"@,
        ),
        spec_request(ApiModeView::Mock, Endpoint::MatchIds { puuid, region, count }) == RequestView::MockFile(
            "match_ids.json"@,
        ),
        spec_request(ApiModeView::Mock, Endpoint::MatchDetail { match_id, region })
            == RequestView::MockFirstOf(seq!["match_detail_1.json"@, "match_detail_2.json"@]),
{
}

/// The exact URL and key of each call in Direct mode: the account lookup
/// goes to the mode's own region, the summoner lookup to the platform it is
/// given, the match calls to the region they are given; every call carries
/// the mode's key.
pub proof fn lemma_direct_urls(
    api_key: Seq<char>,
    mode_region: Seq<char>,
    mode_platform: Seq<char>,
    game_name: Seq<char>,
    tag_line: Seq<char>,
    platform: Seq<char>,
    puuid: Seq<char>,
    region: Seq<char>,
    count: int,
    match_id: Seq<char>,
)
    ensures
        ({
            let mode = ApiModeView::Direct { api_key, region: mode_region, platform: mode_platform };
            &&& spec_request(mode, Endpoint::Account { game_name, tag_line }) == (RequestView::Get {
                url: "https://"@ + mode_region + ".api.riotgames.com/riot/account/v1/accounts/by-riot-id/"@
                    + game_name + "/"@ + tag_line,
                riot_token: Some(api_key),
            })
            &&& spec_request(mode, Endpoint::Summoner { platform, puuid }) == (RequestView::Get {
                url: "https://"@ + platform + ".api.riotgames.com/tft/summoner/v1/summoners/by-puuid/"@ + puuid,
                riot_token: Some(api_key),
            })
            &&& spec_request(mode, Endpoint::MatchIds { puuid, region, count }) == (RequestView::Get {
                url: "https://"@ + region + ".api.riotgames.com/tft/match/v1/matches/by-puuid/"@ + puuid
                    + "/ids?count="@ + int_decimal(count),
                riot_token: Some(api_key),
            })
            &&& spec_request(mode, Endpoint::MatchDetail { match_id, region }) == (RequestView::Get {
                url: "https://"@ + region + ".api.riotgames.com/tft/match/v1/matches/"@ + match_id,
                riot_token: Some(api_key),
            })
        }),
{
    reveal_strlit(".api.riotgames.com");
    reveal_strlit("/riot/account/v1/accounts/by-riot-id/");
    reveal_strlit(".api.riotgames.com/riot/account/v1/accounts/by-riot-id/");
    reveal_strlit("/tft/summoner/v1/summoners/by-puuid/");
    reveal_strlit(".api.riotgames.com/tft/summoner/v1/summoners/by-puuid/");
    reveal_strlit("/tft/match/v1/matches/by-puuid/");
    reveal_strlit(".api.riotgames.com/tft/match/v1/matches/by-puuid/");
    reveal_strlit("/tft/match/v1/matches/");
    reveal_strlit(".api.riotgames.com/tft/match/v1/matches/");
    let h = ".api.riotgames.com"@;
    assert(h + "/riot/account/v1/accounts/by-riot-id/"@ =~= ".api.riotgames.com/riot/account/v1/accounts/by-riot-id/"@);
    assert(h + "/tft/summoner/v1/summoners/by-puuid/"@ =~= ".api.riotgames.com/tft/summoner/v1/summoners/by-puuid/"@);
    assert(h + "/tft/match/v1/matches/by-puuid/"@ =~= ".api.riotgames.com/tft/match/v1/matches/by-puuid/"@);
    assert(h + "/tft/match/v1/matches/"@ =~= ".api.riotgames.com/tft/match/v1/matches/"@);
    let a = "https://"@ + mode_region;
    assert(a + h + ("/riot/account/v1/accounts/by-riot-id/"@ + game_name + "/"@ + tag_line) =~= a
        + ".api.riotgames.com/riot/account/v1/accounts/by-riot-id/"@ + game_name + "/"@ + tag_line);
    let b = "https://"@ + platform;
    assert(b + h + ("/tft/summoner/v1/summoners/by-puuid/"@ + puuid) =~= b
        + ".api.riotgames.com/tft/summoner/v1/summoners/by-puuid/"@ + puuid);
    let c = "https://"@ + region;
    assert(c + h + ("/tft/match/v1/matches/by-puuid/"@ + puuid + "/ids?count="@ + int_decimal(count)) =~= c
        + ".api.riotgames.com/tft/match/v1/matches/by-puuid/"@ + puuid + "/ids?count="@ + int_decimal(count));
    assert(c + h + ("/tft/match/v1/matches/"@ + match_id) =~= c + ".api.riotgames.com/tft/match/v1/matches/"@
        + match_id);
}

/// The exact URL of each call in Proxy mode, which never carries a key: the
/// proxy base, then `/api/riot/v1` and the Riot path; the summoner lookup also
/// names the platform before the PUUID.
pub proof fn lemma_proxy_urls(
    proxy_base: Seq<char>,
    game_name: Seq<char>,
    tag_line: Seq<char>,
    platform: Seq<char>,
    puuid: Seq<char>,
    region: Seq<char>,
    count: int,
    match_id: Seq<char>,
)
    ensures
        ({
            let mode = ApiModeView::Proxy { proxy_base };
            &&& spec_request(mode, Endpoint::Account { game_name, tag_line }) == (RequestView::Get {
                url: proxy_base + "/api/riot/v1/riot/account/v1/accounts/by-riot-id/"@ + game_name + "/"@ + tag_line,
                riot_token: None,
            })
            &&& spec_request(mode, Endpoint::Summoner { platform, puuid }) == (RequestView::Get {
                url: proxy_base + "/api/riot/v1/tft/summoner/v1/summoners/by-puuid/"@ + platform + "/"@ + puuid,
                riot_token: None,
            })
            &&& spec_request(mode, Endpoint::MatchIds { puuid, region, count }) == (RequestView::Get {
                url: proxy_base + "/api/riot/v1/tft/match/v1/matches/by-puuid/"@ + puuid + "/ids?count="@
                    + int_decimal(count),
                riot_token: None,
            })
            &&& spec_request(mode, Endpoint::MatchDetail { match_id, region }) == (RequestView::Get {
                url: proxy_base + "/api/riot/v1/tft/match/v1/matches/"@ + match_id,
                riot_token: None,
            })
        }),
{
    reveal_strlit("/api/riot/v1");
    reveal_strlit("/riot/account/v1/accounts/by-riot-id/");
    reveal_strlit("/api/riot/v1/riot/account/v1/accounts/by-riot-id/");
    reveal_strlit("/tft/summoner/v1/summoners/by-puuid/");
    reveal_strlit("/api/riot/v1/tft/summoner/v1/summoners/by-puuid/");
    reveal_strlit("/tft/match/v1/matches/by-puuid/");
    reveal_strlit("/api/riot/v1/tft/match/v1/matches/by-puuid/");
    reveal_strlit("/tft/match/v1/matches/");
    reveal_strlit("/api/riot/v1/tft/match/v1/matches/");
    let v = "/api/riot/v1"@;
    assert(v + "/riot/account/v1/accounts/by-riot-id/"@ =~= "/api/riot/v1/riot/account/v1/accounts/by-riot-id/"@);
    assert(v + "/tft/summoner/v1/summoners/by-puuid/"@ =~= "/api/riot/v1/tft/summoner/v1/summoners/by-puuid/"@);
    assert(v + "/tft/match/v1/matches/by-puuid/"@ =~= "/api/riot/v1/tft/match/v1/matches/by-puuid/"@);
    assert(v + "/tft/match/v1/matches/"@ =~= "/api/riot/v1/tft/match/v1/matches/"@);
    assert(proxy_base + v + ("/riot/account/v1/accounts/by-riot-id/"@ + game_name + "/"@ + tag_line) =~= proxy_base
        + "/api/riot/v1/riot/account/v1/accounts/by-riot-id/"@ + game_name + "/"@ + tag_line);
    assert(proxy_base + v + ("/tft/summoner/v1/summoners/by-puuid/"@ + platform + "/"@ + puuid) =~= proxy_base
        + "/api/riot/v1/tft/summoner/v1/summoners/by-puuid/"@ + platform + "/"@ + puuid);
    assert(proxy_base + v + ("/tft/match/v1/matches/by-puuid/"@ + puuid + "/ids?count="@ + int_decimal(count))
        =~= proxy_base + "/api/riot/v1/tft/match/v1/matches/by-puuid/"@ + puuid + "/ids?count="@ + int_decimal(
        count,
    ));
    assert(proxy_base + v + ("/tft/match/v1/matches/"@ + match_id) =~= proxy_base
        + "/api/riot/v1/tft/match/v1/matches/"@ + match_id);
}

/// A lookup of at most `count` IDs keeps the first `min(count, n)` of the
/// `n` received, in order, and none for a count of zero or less.
pub proof fn lemma_keep_at_most(ids: Seq<Seq<char>>, count: int)
    ensures
        spec_keep_at_most(ids, count).len() == (if count <= 0 { 0 } else if count < ids.len() { count } else {
            ids.len() as int
        }),
        forall|i: int| 0 <= i < spec_keep_at_most(ids, count).len() ==> #[trigger] spec_keep_at_most(ids, count)[i]
            == ids[i],
{
}
} // verus!
