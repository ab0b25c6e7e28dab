use vstd::prelude::*;
use crate::api::{AccountDto, ApiMode, ApiRequest, Endpoint, SummonerDto, spec_request};

verus! {

/// Player profile answered to the frontend by a Riot ID lookup.
#[derive(Debug)]
pub struct PlayerInfo {
    pub puuid: String,
    pub game_name: String,
    pub tag_line: String,
    pub summoner_level: i64,
    pub summoner_id: String,
}

/// One row of the match history.
#[derive(Debug)]
pub struct MatchSummary {
    pub match_id: String,
    pub game_datetime: i64,
    pub placement: Option<i64>,
    pub game_version: Option<String>,
}

/// The values written to the `players` table for a resolved player.
#[derive(Debug)]
pub struct PlayerRecord {
    pub puuid: String,
    pub game_name: String,
    pub tag_line: String,
    pub summoner_id: String,
    pub summoner_level: i64,
    pub profile_icon_id: i64,
}

/// The text of an optional string, empty where there is none.
pub open spec fn text_or_empty(o: Option<Seq<char>>) -> Seq<char> {
    match o {
        Some(t) => t,
        None => Seq::empty(),
    }
}

/// An optional number, zero where there is none.
pub open spec fn number_or_zero(o: Option<i64>) -> i64 {
    match o {
        Some(n) => n,
        None => 0,
    }
}

/// The platform a lookup goes to: the one the frontend asked for, or where
/// it sent an empty string, `RIOT_PLATFORM`, or `kr` where that is unset.
pub open spec fn spec_resolve_platform(requested: Seq<char>, env_platform: Option<Seq<char>>) -> Seq<char> {
    if requested.len() == 0 {
        match env_platform {
            Some(p) => p,
            None => "kr"@,
        }
    } else {
        requested
    }
}

fn string_or_empty(o: &Option<String>) -> (r: String)
    ensures
        r@ == text_or_empty(o.deep_view()),
{
    match o {
        Some(t) => t.clone(),
        None => String::new(),
    }
}

fn number_or_default(o: Option<i64>) -> (r: i64)
    ensures
        r == number_or_zero(o),
{
    match o {
        Some(n) => n,
        None => 0,
    }
}

/// The platform a player lookup goes to (`env_platform` is the value of
/// `RIOT_PLATFORM`, `None` where it is unset).
pub fn resolve_platform(requested: String, env_platform: Option<String>) -> (r: String)
    ensures
        r@ == spec_resolve_platform(requested@, env_platform.deep_view()),
{
    if requested.as_str().is_empty() {
        match env_platform {
            Some(p) => p,
            None => String::from_str("kr"),
        }
    } else {
        requested
    }
}

/// `r` is the `players` row for an account and its summoner: missing texts
/// are empty and missing numbers zero.
pub open spec fn is_player_record(r: PlayerRecord, account: AccountDto, summoner: SummonerDto) -> bool {
    &&& r.puuid@ == account.puuid@
    &&& r.game_name@ == text_or_empty(account.game_name.deep_view())
    &&& r.tag_line@ == text_or_empty(account.tag_line.deep_view())
    &&& r.summoner_id@ == text_or_empty(summoner.id.deep_view())
    &&& r.summoner_level == number_or_zero(summoner.summoner_level)
    &&& r.profile_icon_id == number_or_zero(summoner.profile_icon_id)
}

/// `r` is the profile answered for an account and its summoner: missing
/// texts are empty and a missing level zero.
pub open spec fn is_player_info(r: PlayerInfo, account: AccountDto, summoner: SummonerDto) -> bool {
    &&& r.puuid@ == account.puuid@
    &&& r.game_name@ == text_or_empty(account.game_name.deep_view())
    &&& r.tag_line@ == text_or_empty(account.tag_line.deep_view())
    &&& r.summoner_level == number_or_zero(summoner.summoner_level)
    &&& r.summoner_id@ == text_or_empty(summoner.id.deep_view())
}

/// The `players` row stored for a looked-up account and its summoner.
pub fn player_record(account: &AccountDto, summoner: &SummonerDto) -> (r: PlayerRecord)
    ensures
        is_player_record(r, *account, *summoner),
{
    PlayerRecord {
        puuid: account.puuid.clone(),
        game_name: string_or_empty(&account.game_name),
        tag_line: string_or_empty(&account.tag_line),
        summoner_id: string_or_empty(&summoner.id),
        summoner_level: number_or_default(summoner.summoner_level),
        profile_icon_id: number_or_default(summoner.profile_icon_id),
    }
}

/// The profile answered for a looked-up account and its summoner.
pub fn player_info(account: AccountDto, summoner: &SummonerDto) -> (r: PlayerInfo)
    ensures
        is_player_info(r, account, *summoner),
{
    let game_name = string_or_empty(&account.game_name);
    let tag_line = string_or_empty(&account.tag_line);
    PlayerInfo {
        puuid: account.puuid,
        game_name,
        tag_line,
        summoner_level: number_or_default(summoner.summoner_level),
        summoner_id: string_or_empty(&summoner.id),
    }
}

/// The step of a player lookup that failed.
#[derive(Debug, Clone, Copy, PartialEq, Eq, Structural)]
pub enum ResolveStage {
    AccountLookup,
    SummonerLookup,
    DbInsert,
}

/// The words that open the error message of a failed lookup step.
pub open spec fn stage_prefix(stage: ResolveStage) -> Seq<char> {
    match stage {
        ResolveStage::AccountLookup => "Riot account lookup failed: "@,
        ResolveStage::SummonerLookup => "Summoner lookup failed: "@,
        ResolveStage::DbInsert => "DB insert failed: "@,
    }
}

/// The message answered when a lookup step fails with `detail`.
pub fn resolve_error(stage: ResolveStage, detail: &str) -> (r: String)
    ensures
        r@ == stage_prefix(stage) + detail@,
{
    let mut msg = match stage {
        ResolveStage::AccountLookup => String::from_str("Riot account lookup failed: "),
        ResolveStage::SummonerLookup => String::from_str("Summoner lookup failed: "),
        ResolveStage::DbInsert => String::from_str("DB insert failed: "),
    };
    msg.append(detail);
    msg
}

/// Error answered by the match history when no player is linked.
pub open spec fn no_player_for_history() -> Seq<char> {
    "No player linked — search for a player first"@
}

/// Error answered by the stats when no player is linked.
pub open spec fn no_player_for_stats() -> Seq<char> {
    "No player linked"@
}

/// Error answered by an account deletion when no player is linked.
pub open spec fn no_player_to_delete() -> Seq<char> {
    "No player linked to delete"@
}

/// How the write of a resolved player to the database went.
#[derive(Debug)]
pub enum StoreOutcome {
    /// The row was written.
    Stored,
    /// The database could not be locked; the text describes why.
    LockFailed(String),
    /// The insert failed; the text describes why.
    InsertFailed(String),
}

/// The next thing a player lookup asks its caller to do.
#[derive(Debug)]
pub enum ResolveAction {
    /// Carry out this account request and hand its answer to `on_account`.
    FetchAccount(ApiRequest),
    /// Carry out this summoner request and hand its answer to `on_summoner`.
    FetchSummoner(ApiRequest),
    /// Write this row to `players` and hand the outcome to `on_stored`.
    Store(PlayerRecord),
    /// Link the companion to this PUUID and hand the outcome to `on_linked`.
    Link(String),
    /// The lookup is over: answer this to the frontend.
    Answer(Result<PlayerInfo, String>),
}

/// Where a player lookup stands.
pub enum ResolvePhase {
    AwaitAccount,
    AwaitSummoner(AccountDto),
    AwaitStore(AccountDto, SummonerDto),
    AwaitLink(PlayerInfo),
    Finished,
}

/// A player lookup in progress: Riot ID → account → summoner → database row
/// → linked player → profile, stopping at the first step that fails.
pub struct PlayerResolution {
    pub mode: ApiMode,
    pub platform: String,
    pub phase: ResolvePhase,
}

/// `a` ends the lookup with the error `message`.
pub open spec fn answers_error(a: ResolveAction, message: Seq<char>) -> bool {
    a matches ResolveAction::Answer(Err(m)) && m@ == message
}

impl PlayerResolution {
    /// Starts the lookup of a Riot ID on `platform` (empty: `RIOT_PLATFORM`,
    /// given as `env_platform`, or else `kr`): first the account request.
    pub fn start(
        mode: ApiMode,
        game_name: &str,
        tag_line: &str,
        platform: String,
        env_platform: Option<String>,
    ) -> (r: (PlayerResolution, ResolveAction))
        ensures
            r.0.mode == mode,
            r.0.platform@ == spec_resolve_platform(platform@, env_platform.deep_view()),
            r.0.phase is AwaitAccount,
            r.1 matches ResolveAction::FetchAccount(req) && req@ == spec_request(
                mode@,
                Endpoint::Account { game_name: game_name@, tag_line: tag_line@ },
            ),
    {
        let platform = resolve_platform(platform, env_platform);
        let request = mode.account_request(game_name, tag_line);
        (PlayerResolution { mode, platform, phase: ResolvePhase::AwaitAccount }, ResolveAction::FetchAccount(request))
    }

    /// The account lookup answered: on failure the lookup ends with the
    /// account-lookup error; on success the summoner of its PUUID is asked
    /// for on the lookup's platform.
    pub fn on_account(self, answer: Result<AccountDto, String>) -> (r: (PlayerResolution, ResolveAction))
        requires
            self.phase is AwaitAccount,
        ensures
            r.0.mode == self.mode,
            r.0.platform == self.platform,
            match answer {
                Err(e) => r.0.phase is Finished && answers_error(
                    r.1,
                    stage_prefix(ResolveStage::AccountLookup) + e@,
                ),
                Ok(a) => {
                    &&& r.0.phase == ResolvePhase::AwaitSummoner(a)
                    &&& r.1 matches ResolveAction::FetchSummoner(req)
                    &&& req@ == spec_request(self.mode@, Endpoint::Summoner { platform: self.platform@, puuid: a.puuid@ })
                },
            },
    {
        match answer {
            Err(e) => {
                let msg = resolve_error(ResolveStage::AccountLookup, e.as_str());
                (
                    PlayerResolution { mode: self.mode, platform: self.platform, phase: ResolvePhase::Finished },
                    ResolveAction::Answer(Err(msg)),
                )
            },
            Ok(a) => {
                let request = self.mode.summoner_request(self.platform.as_str(), a.puuid.as_str());
                (
                    PlayerResolution { mode: self.mode, platform: self.platform, phase: ResolvePhase::AwaitSummoner(a) },
                    ResolveAction::FetchSummoner(request),
                )
            },
        }
    }

    /// The summoner lookup answered: on failure the lookup ends with the
    /// summoner-lookup error; on success the player's row is to be stored.
    pub fn on_summoner(self, answer: Result<SummonerDto, String>) -> (r: (PlayerResolution, ResolveAction))
        requires
            self.phase is AwaitSummoner,
        ensures
            r.0.mode == self.mode,
            r.0.platform == self.platform,
            match answer {
                Err(e) => r.0.phase is Finished && answers_error(
                    r.1,
                    stage_prefix(ResolveStage::SummonerLookup) + e@,
                ),
                Ok(s) => {
                    &&& r.0.phase == ResolvePhase::AwaitStore(self.phase->AwaitSummoner_0, s)
                    &&& r.1 matches ResolveAction::Store(rec)
                    &&& is_player_record(rec, self.phase->AwaitSummoner_0, s)
                },
            },
    {
        let PlayerResolution { mode, platform, phase } = self;
        match phase {
            ResolvePhase::AwaitSummoner(a) => match answer {
                Err(e) => {
                    let msg = resolve_error(ResolveStage::SummonerLookup, e.as_str());
                    (PlayerResolution { mode, platform, phase: ResolvePhase::Finished }, ResolveAction::Answer(Err(msg)))
                },
                Ok(s) => {
                    let rec = player_record(&a, &s);
                    (PlayerResolution { mode, platform, phase: ResolvePhase::AwaitStore(a, s) }, ResolveAction::Store(rec))
                },
            },
            _ => (PlayerResolution { mode, platform, phase: ResolvePhase::Finished }, ResolveAction::Answer(
                Err(String::new()),
            )),
        }
    }

    /// The database write went as `outcome` says: a lock failure ends the
    /// lookup with its own text, an insert failure with the insert error;
    /// once stored, the companion is to be linked to the account's PUUID.
    pub fn on_stored(self, outcome: StoreOutcome) -> (r: (PlayerResolution, ResolveAction))
        requires
            self.phase is AwaitStore,
        ensures
            r.0.mode == self.mode,
            r.0.platform == self.platform,
            match outcome {
                StoreOutcome::LockFailed(e) => r.0.phase is Finished && answers_error(r.1, e@),
                StoreOutcome::InsertFailed(e) => r.0.phase is Finished && answers_error(
                    r.1,
                    stage_prefix(ResolveStage::DbInsert) + e@,
                ),
                StoreOutcome::Stored => {
                    &&& r.0.phase is AwaitLink
                    &&& is_player_info(r.0.phase->AwaitLink_0, self.phase->AwaitStore_0, self.phase->AwaitStore_1)
                    &&& r.1 matches ResolveAction::Link(p)
                    &&& p@ == self.phase->AwaitStore_0.puuid@
                },
            },
    {
        let PlayerResolution { mode, platform, phase } = self;
        match phase {
            ResolvePhase::AwaitStore(a, s) => match outcome {
                StoreOutcome::LockFailed(e) => (
                    PlayerResolution { mode, platform, phase: ResolvePhase::Finished },
                    ResolveAction::Answer(Err(e)),
                ),
                StoreOutcome::InsertFailed(e) => {
                    let msg = resolve_error(ResolveStage::DbInsert, e.as_str());
                    (PlayerResolution { mode, platform, phase: ResolvePhase::Finished }, ResolveAction::Answer(Err(msg)))
                },
                StoreOutcome::Stored => {
                    let puuid = a.puuid.clone();
                    let info = player_info(a, &s);
                    (PlayerResolution { mode, platform, phase: ResolvePhase::AwaitLink(info) }, ResolveAction::Link(puuid))
                },
            },
            _ => (PlayerResolution { mode, platform, phase: ResolvePhase::Finished }, ResolveAction::Answer(
                Err(String::new()),
            )),
        }
    }

    /// The link went as `result` says: a failure ends the lookup with its
    /// text; otherwise the lookup answers the player's profile.
    pub fn on_linked(self, result: Result<(), String>) -> (r: (PlayerResolution, ResolveAction))
        requires
            self.phase is AwaitLink,
        ensures
            r.0.mode == self.mode,
            r.0.platform == self.platform,
            r.0.phase is Finished,
            match result {
                Err(e) => answers_error(r.1, e@),
                Ok(_) => r.1 == ResolveAction::Answer(Ok(self.phase->AwaitLink_0)),
            },
    {
        let PlayerResolution { mode, platform, phase } = self;
        let done = PlayerResolution { mode, platform, phase: ResolvePhase::Finished };
        match phase {
            ResolvePhase::AwaitLink(info) => match result {
                Err(e) => (done, ResolveAction::Answer(Err(e))),
                Ok(_) => (done, ResolveAction::Answer(Ok(info))),
            },
            _ => (done, ResolveAction::Answer(Err(String::new()))),
        }
    }
}

/// The answer of a successful account deletion.
pub open spec fn deletion_confirmation_text() -> Seq<char> {
    "Account data purged from local storage. Cloud data will be removed within 30 days."@
}

/// The answer of a successful account deletion.
pub fn deletion_confirmation() -> (r: String)
    ensures
        r@ == deletion_confirmation_text(),
{
    String::from_str("Account data purged from local storage. Cloud data will be removed within 30 days.")
}

/// What a lookup of the linked player answers: its PUUID, or `missing`.
pub open spec fn spec_linked(active: Option<Seq<char>>, missing: Seq<char>) -> Result<Seq<char>, Seq<char>> {
    match active {
        Some(p) => Ok(p),
        None => Err(missing),
    }
}

/// A `Result` of strings taken as character sequences.
pub open spec fn result_view(r: Result<String, String>) -> Result<Seq<char>, Seq<char>> {
    match r {
        Ok(v) => Ok(v@),
        Err(e) => Err(e@),
    }
}

/// The player the companion is linked to (the active PUUID), if any.
pub struct ActivePlayer {
    puuid: Option<String>,
}

impl View for ActivePlayer {
    type V = Option<Seq<char>>;

    closed spec fn view(&self) -> Option<Seq<char>> {
        self.puuid.deep_view()
    }
}

impl ActivePlayer {
    /// No player linked.
    pub fn new() -> (r: ActivePlayer)
        ensures
            r@ is None,
    {
        ActivePlayer { puuid: None }
    }

    /// Links the companion to `puuid`, as a successful lookup does.
    pub fn link(&mut self, puuid: String)
        ensures
            final(self)@ == Some(puuid@),
    {
        self.puuid = Some(puuid);
    }

    fn linked_or(&self, missing: &str) -> (r: Result<String, String>)
        ensures
            result_view(r) == spec_linked(self@, missing@),
    {
        match &self.puuid {
            Some(p) => Ok(p.clone()),
            None => Err(String::from_str(missing)),
        }
    }

    /// The linked PUUID for the match history, or the error it answers.
    pub fn history_puuid(&self) -> (r: Result<String, String>)
        ensures
            result_view(r) == spec_linked(self@, no_player_for_history()),
    {
        self.linked_or("No player linked — search for a player first")
    }

    /// The linked PUUID for the stats, or the error they answer.
    pub fn stats_puuid(&self) -> (r: Result<String, String>)
        ensures
            result_view(r) == spec_linked(self@, no_player_for_stats()),
    {
        self.linked_or("No player linked")
    }

    /// Unlinks the player for an account deletion and answers its PUUID, or
    /// the error a deletion answers when none is linked.
    pub fn take_for_deletion(&mut self) -> (r: Result<String, String>)
        ensures
            final(self)@ is None,
            result_view(r) == spec_linked(old(self)@, no_player_to_delete()),
    {
        match self.puuid.take() {
            Some(p) => Ok(p),
            None => Err(String::from_str("No player linked to delete")),
        }
    }
}

/// After an account deletion no player is linked, and a deletion answers the
/// player that was linked: the one the last lookup linked.
pub proof fn lemma_deletion_unlinks(linked: Seq<char>)
    ensures
        spec_linked(Some(linked), no_player_to_delete()) == Ok::<Seq<char>, Seq<char>>(linked),
        spec_linked(None, no_player_for_history()) is Err,
        spec_linked(None, no_player_for_stats()) is Err,
        spec_linked(None, no_player_to_delete()) is Err,
{
}


/// A lookup's row and answer take each text of the account and summoner as
/// it came, or empty where it is missing, and each number as it came, or zero
/// where it is missing; the PUUID is always the account's.
pub proof fn lemma_lookup_fields(
    rec: PlayerRecord,
    info: PlayerInfo,
    account: AccountDto,
    summoner: SummonerDto,
)
    requires
        is_player_record(rec, account, summoner),
        is_player_info(info, account, summoner),
    ensures
        rec.puuid@ == account.puuid@ && info.puuid@ == account.puuid@,
        account.game_name matches Some(g) ==> rec.game_name@ == g@ && info.game_name@ == g@,
        account.game_name is None ==> rec.game_name@.len() == 0 && info.game_name@.len() == 0,
        account.tag_line matches Some(t) ==> rec.tag_line@ == t@ && info.tag_line@ == t@,
        account.tag_line is None ==> rec.tag_line@.len() == 0 && info.tag_line@.len() == 0,
        summoner.id matches Some(id) ==> rec.summoner_id@ == id@ && info.summoner_id@ == id@,
        summoner.id is None ==> rec.summoner_id@.len() == 0 && info.summoner_id@.len() == 0,
        summoner.summoner_level matches Some(l) ==> rec.summoner_level == l && info.summoner_level == l,
        summoner.summoner_level is None ==> rec.summoner_level == 0 && info.summoner_level == 0,
        summoner.profile_icon_id matches Some(p) ==> rec.profile_icon_id == p,
        summoner.profile_icon_id is None ==> rec.profile_icon_id == 0,
{
}

/// A lookup goes to the platform the frontend names; where it names none
/// (empty text), to `RIOT_PLATFORM` where that is set, else to `kr`.
pub proof fn lemma_platform_choice(requested: Seq<char>, env_platform: Option<Seq<char>>)
    ensures
        requested.len() > 0 ==> spec_resolve_platform(requested, env_platform) == requested,
        requested.len() == 0 && env_platform is Some ==> spec_resolve_platform(requested, env_platform)
            == env_platform->0,
        requested.len() == 0 && env_platform is None ==> spec_resolve_platform(requested, env_platform) == "kr"@,
{
}

/// The error texts the commands answer: each failed lookup step names
/// itself before the detail, and each command without a linked player says so.
pub proof fn lemma_error_texts(detail: Seq<char>)
    ensures
        stage_prefix(ResolveStage::AccountLookup) + detail == "Riot account lookup failed: "@ + detail,
        stage_prefix(ResolveStage::SummonerLookup) + detail == "Summoner lookup failed: "@ + detail,
        stage_prefix(ResolveStage::DbInsert) + detail == "DB insert failed: "@ + detail,
        spec_linked(None, no_player_for_history()) == Err::<Seq<char>, Seq<char>>(
            "No player linked — search for a player first"@,
        ),
        spec_linked(None, no_player_for_stats()) == Err::<Seq<char>, Seq<char>>("No player linked"@),
        spec_linked(None, no_player_to_delete()) == Err::<Seq<char>, Seq<char>>("No player linked to delete"@),
        deletion_confirmation_text()
            == "Account data purged from local storage. Cloud data will be removed within 30 days."@,
{
}
} // verus!
