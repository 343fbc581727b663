use macaroon::compositor::Compositor;
use macaroon::tray::{menu_rows, IconRequest, MenuAction, MenuRow, TrayManager};
use macaroon::types::{AppState, NowPlayingData, PlaybackState, Zone};

fn playing(state: PlaybackState) -> AppState {
    let mut app = AppState::default();
    app.current_track = Some(NowPlayingData {
        title: "Stairway to Heaven".to_string(),
        artist: "Led Zeppelin".to_string(),
        album: "IV".to_string(),
        state,
        artwork: Some("aGk=".to_string()),
    });
    app
}

#[test]
fn icon_stays_while_nothing_is_displayed() {
    assert_eq!(TrayManager::update_icon(&AppState::default()), IconRequest::Keep);
}

#[test]
fn icon_shows_a_playing_or_paused_track() {
    for state in [PlaybackState::Playing, PlaybackState::Paused] {
        assert_eq!(
            TrayManager::update_icon(&playing(state)),
            IconRequest::Track {
                artwork: Some("aGk=".to_string()),
                title: "Stairway to Heaven".to_string(),
                artist: "Led Zeppelin".to_string(),
            }
        );
    }
}

#[test]
fn icon_waits_while_the_track_is_stopped_or_loading() {
    for state in [PlaybackState::Stopped, PlaybackState::Loading] {
        assert_eq!(TrayManager::update_icon(&playing(state)), IconRequest::Idle);
    }
}

#[test]
fn initial_icon_waits_for_music() {
    let manager = TrayManager::new(Compositor::new(vec![7]));
    assert_eq!(manager.compositor.font, vec![7]);
    let plan = manager.create_initial_icon(200);
    assert_eq!(plan.label, Some("Now Playing - Waiting for music...".to_string()));
    assert_eq!(plan.artwork, None);
    assert_eq!(plan.canvas_width, 284);
    assert_eq!(plan.canvas_height, 66);
    assert_eq!(plan.text_room, 200);
}

#[test]
fn menu_entries_quit_or_pick_a_zone() {
    assert_eq!(TrayManager::on_menu_event("quit"), MenuAction::Quit);
    assert_eq!(TrayManager::on_menu_event("kitchen"), MenuAction::SelectZone);
    assert_eq!(TrayManager::on_menu_event("Quit"), MenuAction::SelectZone);
    assert_eq!(TrayManager::on_menu_event(""), MenuAction::SelectZone);
}

#[test]
fn menu_has_a_row_for_each_zone() {
    let mut state = AppState::default();
    assert!(menu_rows(&state).is_empty());
    for (id, name) in [("a", "Living Room"), ("b", "Kitchen")] {
        state.all_zones.push(Zone {
            zone_id: id.to_string(),
            display_name: name.to_string(),
            state: PlaybackState::Playing,
            now_playing: None,
            state_changed_at: 0,
        });
    }
    state.active_zone_id = Some("b".to_string());
    assert_eq!(
        menu_rows(&state),
        vec![
            MenuRow {
                id: "a".to_string(),
                label: "Living Room".to_string(),
                checked: false,
                enabled: true,
            },
            MenuRow {
                id: "b".to_string(),
                label: "Kitchen".to_string(),
                checked: true,
                enabled: true,
            },
        ]
    );
    state.active_zone_id = Some("gone".to_string());
    assert!(menu_rows(&state).iter().all(|row| !row.checked && row.enabled));
}
