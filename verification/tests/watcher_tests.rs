use hexforge_companion::process_watcher::{choose_window_rect, env_geometry, rect_geometry, WindowProbe, TftState, WatcherEvent, WatcherState};

fn s(v: &str) -> Option<String> {
    Some(v.to_string())
}

#[test]
fn geometry_from_env_values() {
    assert_eq!(env_geometry(s("10"), s("20"), s("800"), s("600")), (10, 20, 800, 600));
    assert_eq!(env_geometry(s("x"), s("-5"), s("wide"), s("")), (0, -5, 1920, 1080));
    assert_eq!(env_geometry(s("10"), None, s("800"), s("600")), (0, 0, 1920, 1080));
    assert_eq!(env_geometry(None, None, None, None), (0, 0, 1920, 1080));
}

#[test]
fn first_poll_reports_detached() {
    let mut w = WatcherState::new();
    let ev = w.poll(false, None, 0);
    assert_eq!(ev.len(), 1);
    assert!(matches!(ev[0], WatcherEvent::Detached(p) if p.state == TftState::Detached));
    assert_eq!(ev[0].name(), "tft-detached");
    assert!(w.poll(false, None, 100).is_empty());
}

#[test]
fn attach_carries_geometry_or_defaults() {
    let mut w = WatcherState::new();
    let ev = w.poll(true, Some((5, 6, 1280, 720)), 0);
    assert_eq!(ev.len(), 1);
    assert_eq!(ev[0].name(), "tft-attached");
    match &ev[0] {
        WatcherEvent::Attached(p) => {
            assert_eq!(p.state, TftState::Attached { x: 5, y: 6, width: 1280, height: 720 })
        }
        other => panic!("unexpected {:?}", other),
    }
    let mut w2 = WatcherState::new();
    match &w2.poll(true, None, 0)[0] {
        WatcherEvent::Attached(p) => {
            assert_eq!(p.state, TftState::Attached { x: 0, y: 0, width: 1920, height: 1080 })
        }
        other => panic!("unexpected {:?}", other),
    }
}

#[test]
fn events_only_on_changes_and_clear_after_thirty_seconds() {
    let mut w = WatcherState::new();
    assert_eq!(w.poll(true, None, 0).len(), 1);
    assert!(w.poll(true, None, 2000).is_empty());
    let ev = w.poll(false, None, 4000);
    assert_eq!(ev.len(), 1);
    assert_eq!(ev[0].name(), "tft-detached");
    assert_eq!(w.detach_since_ms, Some(4000));
    assert!(!w.puuid_clear_emitted);
    assert!(w.poll(false, None, 33_999).is_empty());
    let ev = w.poll(false, None, 34_000);
    assert_eq!(ev.len(), 1);
    assert_eq!(ev[0].name(), "clear-puuid");
    assert!(w.poll(false, None, 100_000).is_empty());
    let ev = w.poll(true, None, 100_002);
    assert_eq!(ev[0].name(), "tft-attached");
    assert_eq!(w.detach_since_ms, None);
    assert!(!w.puuid_clear_emitted);
}

#[test]
fn polls_every_second_clear_at_poll_thirty_one() {
    let mut w = WatcherState::new();
    let mut names: Vec<(u64, &'static str)> = Vec::new();
    for k in 1..=31u64 {
        for e in w.poll(false, None, (k - 1) * 1000) {
            names.push((k, e.name()));
        }
    }
    assert_eq!(names, vec![(1, "tft-detached"), (31, "clear-puuid")]);
}

#[test]
fn attach_before_thirty_seconds_cancels_clear() {
    let mut w = WatcherState::new();
    w.poll(false, None, 0);
    assert_eq!(w.poll(true, None, 10_000)[0].name(), "tft-attached");
    assert!(w.poll(true, None, 60_000).is_empty());
}

#[test]
fn clear_puuid_after_thirty_seconds_when_not_yet_emitted() {
    let mut w = WatcherState { last_process_running: Some(false), detach_since_ms: Some(1000), puuid_clear_emitted: false };
    assert!(w.poll(false, None, 30_999).is_empty());
    let ev = w.poll(false, None, 31_000);
    assert_eq!(ev.len(), 1);
    assert_eq!(ev[0].name(), "clear-puuid");
    assert!(matches!(&ev[0], WatcherEvent::ClearPuuid(p) if p.reason == "TFT closed for 30s"));
    assert!(w.poll(false, None, 90_000).is_empty());
}

#[test]
fn rect_edges_to_geometry() {
    assert_eq!(rect_geometry(100, 50, 1380, 770), (100, 50, 1280, 720));
    assert_eq!(rect_geometry(-10, -20, 0, 0), (-10, -20, 10, 20));
}

#[test]
fn game_window_preferred_then_client() {
    let game = WindowProbe { visible: true, minimized: false, rect: Some((0, 0, 1920, 1080)) };
    let client = WindowProbe { visible: true, minimized: true, rect: Some((10, 10, 1290, 730)) };
    assert_eq!(choose_window_rect(Some(game), Some(client)), Some((0, 0, 1920, 1080)));
    let hidden = WindowProbe { visible: false, ..game };
    let minimized = WindowProbe { minimized: true, ..game };
    let unreadable = WindowProbe { rect: None, ..game };
    for g in [hidden, minimized, unreadable] {
        assert_eq!(choose_window_rect(Some(g), Some(client)), Some((10, 10, 1290, 730)));
    }
    assert_eq!(choose_window_rect(None, Some(client)), Some((10, 10, 1290, 730)));
    assert_eq!(choose_window_rect(None, Some(WindowProbe { visible: false, ..client })), None);
    assert_eq!(choose_window_rect(Some(hidden), None), None);
    assert_eq!(choose_window_rect(None, None), None);
}
