use vstd::prelude::*;
use crate::text::{parse_i32_or, parse_i32_or_spec, parse_i32_spec};

verus! {

/// Whether the TFT game process/window is currently detected.
#[derive(Debug, Clone, Copy, PartialEq, Eq, Structural)]
pub enum TftState {
    Detached,
    Attached { x: i32, y: i32, width: i32, height: i32 },
}

/// Payload of the `tft-attached` and `tft-detached` events.
#[derive(Debug, Clone, Copy)]
pub struct TftStatePayload {
    pub state: TftState,
}

/// Payload of the `clear-puuid` event.
#[derive(Debug, Clone)]
pub struct ClearPuuidPayload {
    pub reason: &'static str,
}

/// Window geometry `(x, y, width, height)` read from the values of `TFT_X`,
/// `TFT_Y`, `TFT_W` and `TFT_H`: where all four are set, each is read as an
/// `i32`, with 0, 0, 1920 and 1080 in place of one that is no number; where
/// any is unset, `(0, 0, 1920, 1080)`.
pub open spec fn spec_env_geometry(
    x: Option<Seq<char>>,
    y: Option<Seq<char>>,
    w: Option<Seq<char>>,
    h: Option<Seq<char>>,
) -> (i32, i32, i32, i32) {
    if x is Some && y is Some && w is Some && h is Some {
        (
            parse_i32_or_spec(x->0, 0),
            parse_i32_or_spec(y->0, 0),
            parse_i32_or_spec(w->0, 1920),
            parse_i32_or_spec(h->0, 1080),
        )
    } else {
        (0, 0, 1920, 1080)
    }
}

/// Window geometry of the game where no window system can be asked: taken
/// from the environment variables `TFT_X`, `TFT_Y`, `TFT_W` and `TFT_H`
/// (`None` where one is unset).
pub fn env_geometry(
    x: Option<String>,
    y: Option<String>,
    w: Option<String>,
    h: Option<String>,
) -> (r: (i32, i32, i32, i32))
    ensures
        r == spec_env_geometry(x.deep_view(), y.deep_view(), w.deep_view(), h.deep_view()),
{
    match (x, y, w, h) {
        (Some(x), Some(y), Some(w), Some(h)) => (
            parse_i32_or(x.as_str(), 0),
            parse_i32_or(y.as_str(), 0),
            parse_i32_or(w.as_str(), 1920),
            parse_i32_or(h.as_str(), 1080),
        ),
        _ => (0, 0, 1920, 1080),
    }
}

/// Geometry `(x, y, width, height)` of a window rectangle given by its
/// left, top, right and bottom edges.
pub open spec fn spec_rect_geometry(left: i32, top: i32, right: i32, bottom: i32) -> (int, int, int, int) {
    (left as int, top as int, right - left, bottom - top)
}

/// Geometry `(x, y, width, height)` of a window rectangle given by its
/// edges; width and height must fit in `i32`.
pub fn rect_geometry(left: i32, top: i32, right: i32, bottom: i32) -> (r: (i32, i32, i32, i32))
    requires
        i32::MIN <= right - left <= i32::MAX,
        i32::MIN <= bottom - top <= i32::MAX,
    ensures
        (r.0 as int, r.1 as int, r.2 as int, r.3 as int) == spec_rect_geometry(left, top, right, bottom),
{
    (left, top, right - left, bottom - top)
}

/// What the window system answered about one candidate game window: whether
/// it is visible, whether it is minimized, and its rectangle `(left, top,
/// right, bottom)` where that could be read.
#[derive(Debug, Clone, Copy)]
pub struct WindowProbe {
    pub visible: bool,
    pub minimized: bool,
    pub rect: Option<(i32, i32, i32, i32)>,
}

/// The window rectangle whose geometry stands for the game: the in-game
/// window where it was found, is visible, not minimized and its rectangle
/// could be read; else the client window where it was found, is visible and
/// its rectangle could be read; else none.
pub open spec fn spec_choose_window_rect(
    game: Option<WindowProbe>,
    client: Option<WindowProbe>,
) -> Option<(i32, i32, i32, i32)> {
    if game is Some && game->0.visible && !game->0.minimized && game->0.rect is Some {
        game->0.rect
    } else if client is Some && client->0.visible && client->0.rect is Some {
        client->0.rect
    } else {
        None
    }
}

/// Chooses the window rectangle that stands for the game, given what was
/// found of the in-game window and of the client (lobby) window.
pub fn choose_window_rect(game: Option<WindowProbe>, client: Option<WindowProbe>) -> (r: Option<(i32, i32, i32, i32)>)
    ensures
        r == spec_choose_window_rect(game, client),
{
    if let Some(g) = game {
        if g.visible && !g.minimized {
            if let Some(rect) = g.rect {
                return Some(rect);
            }
        }
    }
    if let Some(c) = client {
        if c.visible {
            if let Some(rect) = c.rect {
                return Some(rect);
            }
        }
    }
    None
}

/// How long the game must be gone before the linked PUUID is cleared.
pub const CLEAR_PUUID_AFTER_MS: u64 = 30000;

/// What the process watcher remembers between polls.
#[derive(Debug, Clone, Copy)]
pub struct WatcherState {
    /// Whether the game process ran at the last poll (`None` before the first).
    pub last_process_running: Option<bool>,
    /// When the game was last seen to go away, in milliseconds of the
    /// watcher's monotonic clock.
    pub detach_since_ms: Option<u64>,
    /// Whether the `clear-puuid` event was emitted for this absence.
    pub puuid_clear_emitted: bool,
}

/// An event the watcher emits to the frontend.
#[derive(Debug, Clone)]
pub enum WatcherEvent {
    /// `tft-attached`: the game process appeared.
    Attached(TftStatePayload),
    /// `tft-detached`: the game process went away.
    Detached(TftStatePayload),
    /// `clear-puuid`: the game has been gone for long enough.
    ClearPuuid(ClearPuuidPayload),
}

/// A [`WatcherEvent`] with its text taken as a character sequence.
pub enum WatcherEventView {
    Attached(TftState),
    Detached(TftState),
    ClearPuuid(Seq<char>),
}

impl View for WatcherEvent {
    type V = WatcherEventView;

    open spec fn view(&self) -> WatcherEventView {
        match self {
            WatcherEvent::Attached(p) => WatcherEventView::Attached(p.state),
            WatcherEvent::Detached(p) => WatcherEventView::Detached(p.state),
            WatcherEvent::ClearPuuid(p) => WatcherEventView::ClearPuuid(p.reason@),
        }
    }
}

/// The events of a list, as views.
pub open spec fn events_view(events: Seq<WatcherEvent>) -> Seq<WatcherEventView> {
    events.map_values(|e: WatcherEvent| e@)
}

/// The attached state for the geometry found (none where it could not be
/// read): position 0, 0 and size 1920 × 1080 stand in for what is missing.
pub open spec fn attached_state(geometry: Option<(i32, i32, i32, i32)>) -> TftState {
    match geometry {
        Some(g) => TftState::Attached { x: g.0, y: g.1, width: g.2, height: g.3 },
        None => TftState::Attached { x: 0, y: 0, width: 1920, height: 1080 },
    }
}

/// The reason given with `clear-puuid`.
pub open spec fn clear_puuid_reason() -> Seq<char> {
    "TFT closed for 30s"@
}

/// State and events after the process-state part of a poll.
pub open spec fn spec_poll_transition(
    s: WatcherState,
    process_running: bool,
    geometry: Option<(i32, i32, i32, i32)>,
    now_ms: u64,
) -> (WatcherState, Seq<WatcherEventView>) {
    if s.last_process_running != Some(process_running) {
        if process_running {
            (
                WatcherState { last_process_running: Some(true), detach_since_ms: None, puuid_clear_emitted: false },
                seq![WatcherEventView::Attached(attached_state(geometry))],
            )
        } else {
            (
                WatcherState { last_process_running: Some(false), detach_since_ms: Some(now_ms), puuid_clear_emitted: false },
                seq![WatcherEventView::Detached(TftState::Detached)],
            )
        }
    } else {
        (s, Seq::empty())
    }
}

/// One poll of the watcher, given whether the game process runs, the game
/// window's geometry where it was found, and the time: `tft-attached` or
/// `tft-detached` when the process state changed since the last poll (every
/// first poll counts as a change), then `clear-puuid` when the game has been
/// gone for `CLEAR_PUUID_AFTER_MS` and that was not emitted yet.
pub open spec fn spec_poll(
    s: WatcherState,
    process_running: bool,
    geometry: Option<(i32, i32, i32, i32)>,
    now_ms: u64,
) -> (WatcherState, Seq<WatcherEventView>) {
    let (t, events) = spec_poll_transition(s, process_running, geometry, now_ms);
    if t.detach_since_ms is Some && now_ms >= t.detach_since_ms->0
        && now_ms - t.detach_since_ms->0 >= CLEAR_PUUID_AFTER_MS && !t.puuid_clear_emitted {
        (
            WatcherState { puuid_clear_emitted: true, ..t },
            events.push(WatcherEventView::ClearPuuid(clear_puuid_reason())),
        )
    } else {
        (t, events)
    }
}

impl WatcherState {
    /// The watcher before its first poll.
    pub fn new() -> (r: WatcherState)
        ensures
            r.last_process_running is None,
            r.detach_since_ms is None,
            !r.puuid_clear_emitted,
    {
        WatcherState { last_process_running: None, detach_since_ms: None, puuid_clear_emitted: false }
    }

    /// One poll of the watcher (see [`spec_poll`]): updates the state and
    /// answers the events to emit, in order. `geometry` is the game window's
    /// geometry where it was found; `now_ms` is the watcher's monotonic clock.
    pub fn poll(
        &mut self,
        process_running: bool,
        geometry: Option<(i32, i32, i32, i32)>,
        now_ms: u64,
    ) -> (events: Vec<WatcherEvent>)
        ensures
            (*final(self), events_view(events@)) == spec_poll(*old(self), process_running, geometry, now_ms),
    {
        let mut events: Vec<WatcherEvent> = Vec::new();
        if self.last_process_running != Some(process_running) {
            if process_running {
                let state = match geometry {
                    Some(g) => TftState::Attached { x: g.0, y: g.1, width: g.2, height: g.3 },
                    None => TftState::Attached { x: 0, y: 0, width: 1920, height: 1080 },
                };
                events.push(WatcherEvent::Attached(TftStatePayload { state }));
                self.detach_since_ms = None;
                self.puuid_clear_emitted = false;
            } else {
                events.push(WatcherEvent::Detached(TftStatePayload { state: TftState::Detached }));
                self.detach_since_ms = Some(now_ms);
                self.puuid_clear_emitted = false;
            }
            self.last_process_running = Some(process_running);
        }
        let ghost mid = *self;
        let ghost mid_events = events@;
        assert(spec_poll_transition(*old(self), process_running, geometry, now_ms) == (mid, events_view(mid_events))) by {
            assert(events_view(mid_events) =~= spec_poll_transition(*old(self), process_running, geometry, now_ms).1);
        }
        if let Some(since) = self.detach_since_ms {
            if now_ms >= since && now_ms - since >= CLEAR_PUUID_AFTER_MS && !self.puuid_clear_emitted {
                proof { reveal_strlit("TFT closed for 30s"); }
                events.push(WatcherEvent::ClearPuuid(ClearPuuidPayload { reason: "TFT closed for 30s" }));
                self.puuid_clear_emitted = true;
                assert(events_view(events@) =~= events_view(mid_events).push(
                    WatcherEventView::ClearPuuid(clear_puuid_reason()),
                ));
            }
        }
        events
    }
}

/// What holds of every state the watcher reaches from [`WatcherState::new`]:
/// an absence is timed exactly while the game was last seen gone, and the
/// `clear-puuid` mark only stands for a timed absence.
pub open spec fn watcher_inv(s: WatcherState) -> bool {
    &&& (s.detach_since_ms is Some <==> s.last_process_running == Some(false))
    &&& (s.puuid_clear_emitted ==> s.detach_since_ms is Some)
}

/// The state right after the game was seen to go away at `since_ms`.
pub open spec fn detached_at(since_ms: u64) -> WatcherState {
    WatcherState { last_process_running: Some(false), detach_since_ms: Some(since_ms), puuid_clear_emitted: false }
}

/// The watcher starts in a state of [`watcher_inv`], and every poll keeps it.
pub proof fn lemma_watcher_inv_kept(
    s: WatcherState,
    process_running: bool,
    geometry: Option<(i32, i32, i32, i32)>,
    now_ms: u64,
)
    requires
        watcher_inv(s),
    ensures
        watcher_inv(WatcherState { last_process_running: None, detach_since_ms: None, puuid_clear_emitted: false }),
        watcher_inv(spec_poll(s, process_running, geometry, now_ms).0),
{
}

/// From every reachable state, a poll whose process state differs from the
/// last one seen (always so at the first poll) emits first `tft-attached`
/// with the window geometry when the game now runs, or `tft-detached` when it
/// stopped; after that it emits at most the `clear-puuid` event. A poll that
/// sees the same process state emits no attach or detach event. The state
/// then remembers the process state seen.
pub proof fn lemma_poll_emits_on_change(
    s: WatcherState,
    process_running: bool,
    geometry: Option<(i32, i32, i32, i32)>,
    now_ms: u64,
)
    requires
        watcher_inv(s),
    ensures
        ({
            let (t, events) = spec_poll(s, process_running, geometry, now_ms);
            &&& t.last_process_running == Some(process_running)
            &&& s.last_process_running != Some(process_running) && process_running ==> events == seq![
                WatcherEventView::Attached(attached_state(geometry)),
            ]
            &&& s.last_process_running != Some(process_running) && !process_running ==> events == seq![
                WatcherEventView::Detached(TftState::Detached),
            ]
            &&& s.last_process_running == Some(process_running) ==> (events.len() == 0 || events
                == seq![WatcherEventView::ClearPuuid(clear_puuid_reason())])
        }),
{
}

/// When the game goes away at `since_ms`, the watcher emits `tft-detached`
/// and starts timing the absence. While the game stays away, a poll at
/// `now_ms` emits `clear-puuid` with the reason "TFT closed for 30s" once
/// the absence has lasted 30 000 ms, and nothing before that; after that
/// event the polls of the same absence emit nothing more.
pub proof fn lemma_clear_puuid_after_thirty_seconds(
    s: WatcherState,
    geometry: Option<(i32, i32, i32, i32)>,
    since_ms: u64,
    now_ms: u64,
    later_ms: u64,
)
    requires
        watcher_inv(s),
        s.last_process_running != Some(false),
        since_ms <= now_ms,
    ensures
        spec_poll(s, false, geometry, since_ms) == (
            detached_at(since_ms),
            seq![WatcherEventView::Detached(TftState::Detached)],
        ),
        now_ms - since_ms < 30000 ==> spec_poll(detached_at(since_ms), false, geometry, now_ms) == (
            detached_at(since_ms),
            Seq::<WatcherEventView>::empty(),
        ),
        now_ms - since_ms >= 30000 ==> spec_poll(detached_at(since_ms), false, geometry, now_ms) == (
            WatcherState { last_process_running: Some(false), detach_since_ms: Some(since_ms), puuid_clear_emitted: true },
            seq![WatcherEventView::ClearPuuid("TFT closed for 30s"@)],
        ),
        spec_poll(WatcherState { puuid_clear_emitted: true, ..detached_at(since_ms) }, false, geometry, later_ms)
            == (WatcherState { puuid_clear_emitted: true, ..detached_at(since_ms) }, Seq::<WatcherEventView>::empty()),
{
    assert(spec_poll(s, false, geometry, since_ms).1 =~= seq![WatcherEventView::Detached(TftState::Detached)]);
    assert(seq![WatcherEventView::Detached(TftState::Detached)].len() == 1);
}

/// When the game comes back, the pending absence is dropped: no
/// `clear-puuid` follows until the game goes away again.
pub proof fn lemma_attach_cancels_clear(
    s: WatcherState,
    geometry: Option<(i32, i32, i32, i32)>,
    now_ms: u64,
    geometry2: Option<(i32, i32, i32, i32)>,
    later_ms: u64,
)
    requires
        watcher_inv(s),
    ensures
        ({
            let t = spec_poll(s, true, geometry, now_ms).0;
            &&& t.detach_since_ms is None
            &&& spec_poll(t, true, geometry2, later_ms) == (t, Seq::<WatcherEventView>::empty())
        }),
{
}

/// A poll that sees the game start (it was not last seen running) emits
/// `tft-attached` carrying exactly the window geometry found, `x`, `y`,
/// `width` and `height` as they are, or position 0, 0 and size 1920 × 1080
/// where no geometry was found; the absence timer is cleared.
pub proof fn lemma_attach_carries_geometry(
    s: WatcherState,
    x: i32,
    y: i32,
    width: i32,
    height: i32,
    now_ms: u64,
)
    requires
        s.last_process_running != Some(true),
    ensures
        spec_poll(s, true, Some((x, y, width, height)), now_ms) == (
            WatcherState { last_process_running: Some(true), detach_since_ms: None, puuid_clear_emitted: false },
            seq![WatcherEventView::Attached(TftState::Attached { x, y, width, height })],
        ),
        spec_poll(s, true, None, now_ms) == (
            WatcherState { last_process_running: Some(true), detach_since_ms: None, puuid_clear_emitted: false },
            seq![WatcherEventView::Attached(TftState::Attached { x: 0, y: 0, width: 1920, height: 1080 })],
        ),
{
}

/// A poll that sees the game go away (it was not last seen gone) emits
/// `tft-detached` with the detached state and starts timing the absence at
/// the poll's time.
pub proof fn lemma_detach_starts_timer(s: WatcherState, geometry: Option<(i32, i32, i32, i32)>, now_ms: u64)
    requires
        s.last_process_running != Some(false),
    ensures
        spec_poll(s, false, geometry, now_ms) == (
            WatcherState { last_process_running: Some(false), detach_since_ms: Some(now_ms), puuid_clear_emitted: false },
            seq![WatcherEventView::Detached(TftState::Detached)],
        ),
{
    assert(spec_poll(s, false, geometry, now_ms).1 =~= seq![WatcherEventView::Detached(TftState::Detached)]);
}

/// The game window is the in-game window whenever that one was found,
/// visible, not minimized and readable, whatever the client window is; the
/// client window is used only when the in-game window is not usable, and
/// then only when it was found, visible and readable (minimized or not);
/// otherwise there is none.
pub proof fn lemma_choose_window_rect(
    game_found: bool,
    game: WindowProbe,
    client_found: bool,
    client: WindowProbe,
)
    ensures
        ({
            let g = if game_found { Some(game) } else { None };
            let c = if client_found { Some(client) } else { None };
            let game_usable = game_found && game.visible && !game.minimized && game.rect is Some;
            let client_usable = client_found && client.visible && client.rect is Some;
            &&& game_usable ==> spec_choose_window_rect(g, c) == game.rect
            &&& !game_usable && client_usable ==> spec_choose_window_rect(g, c) == client.rect
            &&& !game_usable && !client_usable ==> spec_choose_window_rect(g, c) is None
        }),
{
}

/// A window rectangle's geometry is its left and top edge, and the
/// differences right − left and bottom − top.
pub proof fn lemma_rect_geometry(left: i32, top: i32, right: i32, bottom: i32)
    ensures
        spec_rect_geometry(left, top, right, bottom) == (left as int, top as int, right as int - left as int,
            bottom as int - top as int),
{
}

/// The fallback geometry: with all four variables set it is their values
/// read as numbers (0, 0, 1920 and 1080 for one that is not a number);
/// with any unset it is `(0, 0, 1920, 1080)`.
pub proof fn lemma_env_geometry(
    x: Option<Seq<char>>,
    y: Option<Seq<char>>,
    w: Option<Seq<char>>,
    h: Option<Seq<char>>,
)
    ensures
        !(x is Some && y is Some && w is Some && h is Some) ==> spec_env_geometry(x, y, w, h) == (
            0i32,
            0i32,
            1920i32,
            1080i32,
        ),
        x is Some && y is Some && w is Some && h is Some ==> spec_env_geometry(x, y, w, h) == (
            match parse_i32_spec(x->0) { Some(v) => v, None => 0i32 },
            match parse_i32_spec(y->0) { Some(v) => v, None => 0i32 },
            match parse_i32_spec(w->0) { Some(v) => v, None => 1920i32 },
            match parse_i32_spec(h->0) { Some(v) => v, None => 1080i32 },
        ),
{
}

impl WatcherEvent {
    /// Name under which the event is emitted to the frontend.
    pub fn name(&self) -> (r: &'static str)
        ensures
            r@ == match self@ {
                WatcherEventView::Attached(_) => "tft-attached"@,
                WatcherEventView::Detached(_) => "tft-detached"@,
                WatcherEventView::ClearPuuid(_) => "clear-puuid"@,
            },
    {
        match self {
            WatcherEvent::Attached(_) => "tft-attached",
            WatcherEvent::Detached(_) => "tft-detached",
            WatcherEvent::ClearPuuid(_) => "clear-puuid",
        }
    }
}

} // verus!
