use macaroon::reconciler::{
    handle_message, handle_now_playing, handle_zone_list, may_rebuild, observe_appearance,
    parse_status, record_menu_rebuild, select_zone, Effects, DEFAULT_GRACE_PERIOD_MS,
};
use macaroon::types::{
    AppState, ConnectionStatus, NowPlayingData, PlaybackState, SidecarMessage, Zone, ZoneInfo,
    ZonePreference,
};

fn track(title: &str, state: PlaybackState) -> NowPlayingData {
    NowPlayingData {
        title: title.to_string(),
        artist: "Artist".to_string(),
        album: "Album".to_string(),
        state,
        artwork: None,
    }
}

fn info(id: &str, name: &str, state: PlaybackState) -> ZoneInfo {
    ZoneInfo {
        zone_id: id.to_string(),
        display_name: name.to_string(),
        state,
        now_playing: None,
    }
}

fn now_playing(id: &str, title: &str, state: PlaybackState) -> SidecarMessage {
    SidecarMessage::NowPlaying {
        zone_id: id.to_string(),
        title: title.to_string(),
        artist: "Artist".to_string(),
        album: "Album".to_string(),
        state,
        artwork: None,
    }
}

fn zone_list(zones: Vec<ZoneInfo>) -> SidecarMessage {
    SidecarMessage::ZoneList { zones }
}

/// Applies a zone list and, as the caller of the library does, records the
/// rebuild when one was permitted.
fn deliver(state: &mut AppState, zones: Vec<ZoneInfo>, now: u64) -> Effects {
    let effects = handle_message(state, zone_list(zones), now);
    if effects.rebuild_menu {
        record_menu_rebuild(state, now);
    }
    effects
}

#[test]
fn default_state_is_empty_and_disconnected() {
    let state = AppState::default();
    assert_eq!(state.current_track, None);
    assert_eq!(state.active_zone_id, None);
    assert!(state.all_zones.is_empty());
    assert_eq!(state.zone_preference, ZonePreference::Auto);
    assert_eq!(state.connection_status, ConnectionStatus::Disconnected);
    assert!(!state.is_smart_switched);
    assert_eq!(state.preferred_zone_stopped_at, None);
    assert_eq!(state.last_menu_rebuild, None);
    assert_eq!(state.last_appearance_mode, None);
}

#[test]
fn second_changed_list_within_interval_is_debounced() {
    let mut state = AppState::default();
    let first = deliver(&mut state, vec![info("a", "Living Room", PlaybackState::Playing)], 5000);
    assert!(first.rebuild_menu);
    assert_eq!(state.last_menu_rebuild, Some(5000));

    let second = deliver(&mut state, vec![info("a", "Living Room", PlaybackState::Paused)], 5200);
    assert!(!second.rebuild_menu);
    assert_eq!(state.last_menu_rebuild, Some(5000));
    assert_eq!(state.all_zones[0].state, PlaybackState::Paused);

    let third = deliver(&mut state, vec![info("a", "Living Room", PlaybackState::Stopped)], 6000);
    assert!(third.rebuild_menu);
    assert_eq!(state.last_menu_rebuild, Some(6000));
}

#[test]
fn rebuild_is_refused_one_millisecond_short_of_the_interval() {
    let mut state = AppState::default();
    assert!(deliver(&mut state, vec![info("a", "A", PlaybackState::Playing)], 100).rebuild_menu);
    assert!(!deliver(&mut state, vec![info("a", "B", PlaybackState::Playing)], 1099).rebuild_menu);
    assert!(deliver(&mut state, vec![info("a", "C", PlaybackState::Playing)], 1100).rebuild_menu);
}

#[test]
fn may_rebuild_follows_change_and_elapsed_time() {
    assert!(may_rebuild(true, None, 0));
    assert!(!may_rebuild(false, None, 0));
    assert!(!may_rebuild(false, Some(0), 5000));
    assert!(may_rebuild(true, Some(0), 1000));
    assert!(!may_rebuild(true, Some(0), 999));
    assert!(!may_rebuild(true, Some(10), 9));
    assert!(may_rebuild(true, Some(u64::MAX - 1000), u64::MAX));
    assert!(!may_rebuild(true, Some(u64::MAX), 0));
}

#[test]
fn unrecorded_rebuild_does_not_start_the_interval() {
    let mut state = AppState::default();
    let first = handle_message(
        &mut state,
        zone_list(vec![info("a", "A", PlaybackState::Playing)]),
        100,
    );
    assert!(first.rebuild_menu);
    assert_eq!(state.last_menu_rebuild, None);
    let second = handle_message(
        &mut state,
        zone_list(vec![info("a", "B", PlaybackState::Playing)]),
        150,
    );
    assert!(second.rebuild_menu);
}

#[test]
fn example_scenario_of_three_zone_lists() {
    let mut state = AppState::default();
    let first = deliver(&mut state, vec![info("a", "Living Room", PlaybackState::Playing)], 0);
    assert!(first.rebuild_menu);

    let second = deliver(&mut state, vec![info("a", "Living Room", PlaybackState::Playing)], 200);
    assert!(!second.rebuild_menu);
    assert!(!second.refresh_icon);

    let third = deliver(&mut state, vec![info("a", "Living Room", PlaybackState::Paused)], 1300);
    assert!(third.rebuild_menu);
    assert_eq!(state.last_menu_rebuild, Some(1300));
}

#[test]
fn first_now_playing_sets_active_zone_under_auto() {
    let mut state = AppState::default();
    let first = handle_message(&mut state, now_playing("a", "One", PlaybackState::Playing), 10);
    assert_eq!(first, Effects { refresh_icon: true, rebuild_menu: false });
    assert_eq!(state.active_zone_id, Some("a".to_string()));
    assert_eq!(state.current_track, Some(track("One", PlaybackState::Playing)));

    let second = handle_message(&mut state, now_playing("b", "Two", PlaybackState::Playing), 20);
    assert_eq!(second, Effects { refresh_icon: false, rebuild_menu: false });
    assert_eq!(state.active_zone_id, Some("a".to_string()));
    assert_eq!(state.current_track, Some(track("One", PlaybackState::Playing)));

    let third = handle_message(&mut state, now_playing("a", "Three", PlaybackState::Paused), 30);
    assert!(third.refresh_icon);
    assert_eq!(state.current_track, Some(track("Three", PlaybackState::Paused)));
}

#[test]
fn now_playing_updates_known_zone_and_creates_none() {
    let mut state = AppState::default();
    deliver(
        &mut state,
        vec![info("a", "A", PlaybackState::Playing), info("b", "B", PlaybackState::Stopped)],
        100,
    );
    handle_now_playing(&mut state, "b".to_string(), track("Song", PlaybackState::Playing), 250);
    assert_eq!(state.all_zones.len(), 2);
    assert_eq!(state.all_zones[0].now_playing, None);
    assert_eq!(state.all_zones[0].state_changed_at, 100);
    assert_eq!(state.all_zones[1].now_playing, Some(track("Song", PlaybackState::Playing)));
    assert_eq!(state.all_zones[1].state_changed_at, 250);
    assert_eq!(state.all_zones[1].state, PlaybackState::Stopped);
    assert_eq!(state.all_zones[1].display_name, "B");

    handle_now_playing(&mut state, "ghost".to_string(), track("X", PlaybackState::Playing), 300);
    assert_eq!(state.all_zones.len(), 2);
    assert!(state.all_zones.iter().all(|z| z.zone_id != "ghost"));
}

#[test]
fn now_playing_under_selection_shows_only_the_selected_zone() {
    let mut state = AppState::default();
    select_zone(&mut state, "kitchen".to_string());
    let other = handle_message(&mut state, now_playing("den", "Den", PlaybackState::Playing), 10);
    assert!(!other.refresh_icon);
    assert_eq!(state.current_track, None);
    assert_eq!(state.active_zone_id, Some("kitchen".to_string()));

    let own = handle_message(&mut state, now_playing("kitchen", "K", PlaybackState::Playing), 20);
    assert!(own.refresh_icon);
    assert_eq!(state.current_track, Some(track("K", PlaybackState::Playing)));
    assert_eq!(state.active_zone_id, Some("kitchen".to_string()));
}

#[test]
fn selection_overrides_a_different_active_zone() {
    let mut state = AppState::default();
    handle_message(&mut state, now_playing("a", "One", PlaybackState::Playing), 10);
    select_zone(&mut state, "b".to_string());
    let shown = handle_message(&mut state, now_playing("a", "Again", PlaybackState::Playing), 20);
    assert!(!shown.refresh_icon);
    assert_eq!(state.active_zone_id, Some("b".to_string()));
    assert_eq!(state.current_track, Some(track("One", PlaybackState::Playing)));
}

#[test]
fn selecting_kitchen_clears_fallback_state() {
    for switched in [false, true] {
        for stopped_at in [None, Some(0u64), Some(77u64)] {
            let mut state = AppState::default();
            state.is_smart_switched = switched;
            state.preferred_zone_stopped_at = stopped_at;
            let effects = select_zone(&mut state, "kitchen".to_string());
            assert!(!state.is_smart_switched);
            assert_eq!(state.preferred_zone_stopped_at, None);
            assert_eq!(effects, Effects { refresh_icon: true, rebuild_menu: true });
            assert_eq!(state.active_zone_id, Some("kitchen".to_string()));
            assert_eq!(
                state.zone_preference,
                ZonePreference::Selected {
                    zone_id: "kitchen".to_string(),
                    smart_switching: true,
                    grace_period_ms: 300000,
                }
            );
        }
    }
    assert_eq!(DEFAULT_GRACE_PERIOD_MS, 5 * 60 * 1000);
}

#[test]
fn selection_adopts_the_zones_track_or_keeps_the_displayed_one() {
    let mut state = AppState::default();
    deliver(
        &mut state,
        vec![info("a", "A", PlaybackState::Playing), info("b", "B", PlaybackState::Playing)],
        0,
    );
    handle_message(&mut state, now_playing("a", "Shown", PlaybackState::Playing), 10);
    handle_message(&mut state, now_playing("b", "Hidden", PlaybackState::Playing), 20);
    assert_eq!(state.current_track, Some(track("Shown", PlaybackState::Playing)));

    select_zone(&mut state, "b".to_string());
    assert_eq!(state.current_track, Some(track("Hidden", PlaybackState::Playing)));
    assert_eq!(state.active_zone_id, Some("b".to_string()));

    select_zone(&mut state, "nowhere".to_string());
    assert_eq!(state.current_track, Some(track("Hidden", PlaybackState::Playing)));
    assert_eq!(state.active_zone_id, Some("nowhere".to_string()));
    assert_eq!(state.last_menu_rebuild, Some(0));
}

#[test]
fn selection_does_not_touch_the_rebuild_time() {
    let mut state = AppState::default();
    state.last_menu_rebuild = Some(42);
    select_zone(&mut state, "a".to_string());
    assert_eq!(state.last_menu_rebuild, Some(42));
}

#[test]
fn zone_list_keeps_the_time_of_known_zones() {
    let mut state = AppState::default();
    deliver(&mut state, vec![info("a", "A", PlaybackState::Playing)], 100);
    deliver(
        &mut state,
        vec![info("b", "B", PlaybackState::Playing), info("a", "A2", PlaybackState::Paused)],
        900,
    );
    assert_eq!(state.all_zones.len(), 2);
    assert_eq!(state.all_zones[0].zone_id, "b");
    assert_eq!(state.all_zones[0].state_changed_at, 900);
    assert_eq!(state.all_zones[1].zone_id, "a");
    assert_eq!(state.all_zones[1].display_name, "A2");
    assert_eq!(state.all_zones[1].state_changed_at, 100);
}

#[test]
fn zone_list_supersedes_the_whole_list() {
    let mut state = AppState::default();
    deliver(
        &mut state,
        vec![info("a", "A", PlaybackState::Playing), info("b", "B", PlaybackState::Playing)],
        0,
    );
    let effects = deliver(&mut state, vec![], 5000);
    assert!(effects.rebuild_menu);
    assert!(state.all_zones.is_empty());
}

#[test]
fn zone_list_gives_its_tracks_the_zones_state() {
    let mut state = AppState::default();
    let mut zone = info("a", "A", PlaybackState::Paused);
    zone.now_playing = Some(NowPlayingData {
        title: "T".to_string(),
        artist: "R".to_string(),
        album: "L".to_string(),
        state: PlaybackState::Playing,
        artwork: Some("art".to_string()),
    });
    handle_zone_list(&mut state, vec![zone], 7);
    assert_eq!(
        state.all_zones,
        vec![Zone {
            zone_id: "a".to_string(),
            display_name: "A".to_string(),
            state: PlaybackState::Paused,
            now_playing: Some(NowPlayingData {
                title: "T".to_string(),
                artist: "R".to_string(),
                album: "L".to_string(),
                state: PlaybackState::Paused,
                artwork: Some("art".to_string()),
            }),
            state_changed_at: 7,
        }]
    );
}

#[test]
fn zone_list_refreshes_icon_when_active_zone_changes_state() {
    let mut state = AppState::default();
    deliver(&mut state, vec![info("a", "A", PlaybackState::Playing)], 0);
    handle_message(&mut state, now_playing("a", "One", PlaybackState::Playing), 10);

    let same = deliver(&mut state, vec![info("a", "A", PlaybackState::Playing)], 50);
    assert!(!same.refresh_icon);

    let paused = deliver(&mut state, vec![info("a", "A", PlaybackState::Paused)], 100);
    assert!(paused.refresh_icon);
    assert!(!paused.rebuild_menu);
    assert_eq!(state.current_track, Some(track("One", PlaybackState::Paused)));

    let gone = deliver(&mut state, vec![info("b", "B", PlaybackState::Stopped)], 150);
    assert!(!gone.refresh_icon);
    assert_eq!(state.current_track, Some(track("One", PlaybackState::Paused)));
    assert_eq!(state.active_zone_id, Some("a".to_string()));
}

#[test]
fn zone_list_without_displayed_track_asks_for_no_refresh() {
    let mut state = AppState::default();
    state.active_zone_id = Some("a".to_string());
    let effects = deliver(&mut state, vec![info("a", "A", PlaybackState::Stopped)], 0);
    assert!(!effects.refresh_icon);
    assert_eq!(state.current_track, None);
}

#[test]
fn status_tokens_map_to_the_fixed_vocabulary() {
    assert_eq!(parse_status(&"discovering".to_string()), ConnectionStatus::Discovering);
    assert_eq!(parse_status(&"connected".to_string()), ConnectionStatus::Connected);
    assert_eq!(parse_status(&"disconnected".to_string()), ConnectionStatus::Disconnected);
    assert_eq!(
        parse_status(&"not_authorized".to_string()),
        ConnectionStatus::Error("not authorized; enable the extension".to_string())
    );
    assert_eq!(
        parse_status(&"rebooting".to_string()),
        ConnectionStatus::Error("unknown status: rebooting".to_string())
    );
    assert_eq!(
        parse_status(&"".to_string()),
        ConnectionStatus::Error("unknown status: ".to_string())
    );
    assert_eq!(
        parse_status(&"Connected".to_string()),
        ConnectionStatus::Error("unknown status: Connected".to_string())
    );
}

#[test]
fn status_message_is_stored_unconditionally() {
    let mut state = AppState::default();
    state.connection_status = ConnectionStatus::Error("old".to_string());
    let effects = handle_message(
        &mut state,
        SidecarMessage::Status { state: "connected".to_string(), message: Some("hi".to_string()) },
        0,
    );
    assert_eq!(effects, Effects { refresh_icon: false, rebuild_menu: false });
    assert_eq!(state.connection_status, ConnectionStatus::Connected);
}

#[test]
fn error_message_overrides_any_status() {
    let mut state = AppState::default();
    state.connection_status = ConnectionStatus::Connected;
    let before = state.clone();
    let effects =
        handle_message(&mut state, SidecarMessage::Error { message: "boom".to_string() }, 0);
    assert_eq!(effects, Effects { refresh_icon: false, rebuild_menu: false });
    assert_eq!(state.connection_status, ConnectionStatus::Error("boom".to_string()));
    assert_eq!(state.all_zones, before.all_zones);
    assert_eq!(state.current_track, before.current_track);
}

#[test]
fn appearance_change_asks_for_a_refresh() {
    let mut state = AppState::default();
    assert!(observe_appearance(&mut state, false));
    assert_eq!(state.last_appearance_mode, Some(false));
    assert!(!observe_appearance(&mut state, false));
    assert!(observe_appearance(&mut state, true));
    assert_eq!(state.last_appearance_mode, Some(true));
    assert!(!observe_appearance(&mut state, true));
}
