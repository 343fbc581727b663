use macaroon::types::{PlaybackState, Zone};
use macaroon::zones::{find_zone, zones_changed};

fn zone(id: &str, name: &str, state: PlaybackState) -> Zone {
    Zone {
        zone_id: id.to_string(),
        display_name: name.to_string(),
        state,
        now_playing: None,
        state_changed_at: 0,
    }
}

#[test]
fn identical_lists_have_not_changed() {
    let old = vec![zone("a", "A", PlaybackState::Playing), zone("b", "B", PlaybackState::Paused)];
    let new = old.clone();
    assert!(!zones_changed(&old, &new));
    assert!(!zones_changed(&[], &[]));
}

#[test]
fn different_lengths_have_changed() {
    let old = vec![zone("a", "A", PlaybackState::Playing)];
    let new = vec![zone("a", "A", PlaybackState::Playing), zone("b", "B", PlaybackState::Paused)];
    assert!(zones_changed(&old, &new));
    assert!(zones_changed(&new, &old));
    assert!(zones_changed(&[], &old));
    assert!(zones_changed(&old, &[]));
}

#[test]
fn a_renamed_zone_has_changed() {
    let old = vec![zone("a", "A", PlaybackState::Playing)];
    let new = vec![zone("a", "Attic", PlaybackState::Playing)];
    assert!(zones_changed(&old, &new));
}

#[test]
fn a_zone_in_another_state_has_changed() {
    let old = vec![zone("a", "A", PlaybackState::Playing)];
    for state in [PlaybackState::Paused, PlaybackState::Stopped, PlaybackState::Loading] {
        assert!(zones_changed(&old, &[zone("a", "A", state)]));
    }
}

#[test]
fn a_replaced_id_has_changed() {
    let old = vec![zone("a", "A", PlaybackState::Playing), zone("b", "B", PlaybackState::Paused)];
    let new = vec![zone("a", "A", PlaybackState::Playing), zone("c", "B", PlaybackState::Paused)];
    assert!(zones_changed(&old, &new));
}

#[test]
fn a_vanished_id_behind_a_duplicate_has_changed() {
    let old = vec![zone("a", "A", PlaybackState::Playing), zone("b", "B", PlaybackState::Paused)];
    let new = vec![zone("a", "A", PlaybackState::Playing), zone("a", "A", PlaybackState::Playing)];
    assert!(zones_changed(&old, &new));
}

#[test]
fn order_and_other_fields_do_not_count() {
    let old = vec![zone("a", "A", PlaybackState::Playing), zone("b", "B", PlaybackState::Paused)];
    let mut new = vec![zone("b", "B", PlaybackState::Paused), zone("a", "A", PlaybackState::Playing)];
    new[0].state_changed_at = 99;
    assert!(!zones_changed(&old, &new));
}

#[test]
fn find_zone_gives_the_first_match() {
    let zones = vec![
        zone("a", "A", PlaybackState::Playing),
        zone("b", "B", PlaybackState::Paused),
        zone("b", "B2", PlaybackState::Paused),
    ];
    assert_eq!(find_zone(&zones, &"a".to_string()), Some(0));
    assert_eq!(find_zone(&zones, &"b".to_string()), Some(1));
    assert_eq!(find_zone(&zones, &"c".to_string()), None);
    assert_eq!(find_zone(&[], &"a".to_string()), None);
}
