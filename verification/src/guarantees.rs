//! What holds of the reconciler over more than one step.
use crate::reconciler::{
    after_now_playing, after_rebuild, after_select, after_zone_list, snapshot, zone_list_effects,
    DEFAULT_GRACE_PERIOD_MS, REBUILD_INTERVAL_MS,
};
use crate::types::{PreferenceModel, StateModel, TrackModel, ZoneInfoModel, ZoneModel};
use crate::zones::{
    first_match, has_zone, ids_unique, lemma_has_first_match, lemma_zones_differ_by_identities,
    same_identities, zones_differ,
};
use vstd::prelude::*;

verus! {

/// A zone list never moves the time of the last rebuild: only a rebuild that
/// succeeded does.
pub proof fn lemma_zone_list_keeps_rebuild_time(
    s: StateModel,
    infos: Seq<ZoneInfoModel>,
    now: u64,
)
    ensures
        after_zone_list(s, infos, now).last_menu_rebuild == s.last_menu_rebuild,
{
}

/// The first zone list that changes the zones causes a rebuild, whenever it
/// arrives.
pub proof fn lemma_first_change_rebuilds(s: StateModel, infos: Seq<ZoneInfoModel>, now: u64)
    requires
        s.last_menu_rebuild is None,
    ensures
        zone_list_effects(s, infos, now).rebuild_menu == zones_differ(
            s.all_zones,
            snapshot(s.all_zones, infos, now),
        ),
{
}

/// Of two zone lists, the second causes no rebuild when it arrives less than a
/// second after the rebuild that the first one caused, whatever it holds.
pub proof fn lemma_rebuild_suppressed_within_interval(
    s: StateModel,
    first: Seq<ZoneInfoModel>,
    first_at: u64,
    rebuilt_at: u64,
    second: Seq<ZoneInfoModel>,
    second_at: u64,
)
    requires
        zone_list_effects(s, first, first_at).rebuild_menu,
        second_at - rebuilt_at < REBUILD_INTERVAL_MS,
    ensures
        !zone_list_effects(
            after_rebuild(after_zone_list(s, first, first_at), rebuilt_at),
            second,
            second_at,
        ).rebuild_menu,
{
}

/// A zone list that changes the zones and arrives a second or more after the
/// last rebuild that succeeded causes another rebuild.
pub proof fn lemma_rebuild_after_interval(
    s: StateModel,
    rebuilt_at: u64,
    infos: Seq<ZoneInfoModel>,
    now: u64,
)
    requires
        s.last_menu_rebuild == Some(rebuilt_at),
        now - rebuilt_at >= REBUILD_INTERVAL_MS,
        zones_differ(s.all_zones, snapshot(s.all_zones, infos, now)),
    ensures
        zone_list_effects(s, infos, now).rebuild_menu,
{
}

/// Under the automatic preference with no active zone, the first track makes
/// its zone the active one.
pub proof fn lemma_first_track_sets_active_zone(
    s: StateModel,
    id: Seq<char>,
    track: TrackModel,
    now: u64,
)
    requires
        s.zone_preference is Auto,
        s.active_zone_id is None,
    ensures
        after_now_playing(s, id, track, now).active_zone_id == Some(id),
        after_now_playing(s, id, track, now).current_track == Some(track),
{
}

/// Under the automatic preference with an active zone, a track of another zone
/// leaves the active zone and the displayed track as they are.
pub proof fn lemma_other_track_keeps_active_zone(
    s: StateModel,
    id: Seq<char>,
    track: TrackModel,
    now: u64,
)
    requires
        s.zone_preference is Auto,
        s.active_zone_id is Some,
        s.active_zone_id != Some(id),
    ensures
        after_now_playing(s, id, track, now).active_zone_id == s.active_zone_id,
        after_now_playing(s, id, track, now).current_track == s.current_track,
{
}

/// Under the automatic preference with no active zone, the first of two tracks
/// of different zones decides the active zone, and the second does not move it.
pub proof fn lemma_first_of_two_tracks_wins(
    s: StateModel,
    first_id: Seq<char>,
    first: TrackModel,
    first_at: u64,
    second_id: Seq<char>,
    second: TrackModel,
    second_at: u64,
)
    requires
        s.zone_preference is Auto,
        s.active_zone_id is None,
        first_id != second_id,
    ensures
        after_now_playing(
            after_now_playing(s, first_id, first, first_at),
            second_id,
            second,
            second_at,
        ).active_zone_id == Some(first_id),
{
    let s1 = after_now_playing(s, first_id, first, first_at);
    lemma_first_track_sets_active_zone(s, first_id, first, first_at);
    lemma_other_track_keeps_active_zone(s1, second_id, second, second_at);
}

/// Selecting a zone forgets every trace of an automatic fallback, whatever the
/// state held, and makes the zone both the selected and the active one.
pub proof fn lemma_selection_clears_fallback(s: StateModel, id: Seq<char>)
    ensures
        !after_select(s, id).is_smart_switched,
        after_select(s, id).preferred_zone_stopped_at is None,
        after_select(s, id).active_zone_id == Some(id),
        after_select(s, id).zone_preference == (PreferenceModel::Selected {
            zone_id: id,
            smart_switching: true,
            grace_period_ms: DEFAULT_GRACE_PERIOD_MS,
        }),
{
}

/// A track never adds or removes a zone, nor changes the id, the name or the
/// playback state of one: so it never makes a later zone list count as a
/// change, nor hides one.
pub proof fn lemma_track_keeps_zone_identities(
    s: StateModel,
    id: Seq<char>,
    track: TrackModel,
    now: u64,
    later: Seq<ZoneModel>,
)
    ensures
        same_identities(s.all_zones, after_now_playing(s, id, track, now).all_zones),
        zones_differ(after_now_playing(s, id, track, now).all_zones, later) == zones_differ(
            s.all_zones,
            later,
        ),
{
    let after = after_now_playing(s, id, track, now).all_zones;
    if has_zone(s.all_zones, id) {
        lemma_has_first_match(s.all_zones, id);
    }
    assert(same_identities(s.all_zones, after));
    lemma_zones_differ_by_identities(s.all_zones, after, later);
}

/// A snapshot whose ids are unique gives a zone list whose ids are unique, in
/// the snapshot's order and of its length.
pub proof fn lemma_snapshot_keeps_ids_unique(
    old_zones: Seq<ZoneModel>,
    infos: Seq<ZoneInfoModel>,
    now: u64,
)
    requires
        forall|i: int, j: int|
            0 <= i < infos.len() && 0 <= j < infos.len() && i != j ==> (#[trigger] infos[i]).zone_id
                != (#[trigger] infos[j]).zone_id,
    ensures
        snapshot(old_zones, infos, now).len() == infos.len(),
        ids_unique(snapshot(old_zones, infos, now)),
{
    let zones = snapshot(old_zones, infos, now);
    assert forall|i: int, j: int|
        0 <= i < zones.len() && 0 <= j < zones.len() && i != j implies (#[trigger] zones[i]).zone_id
        != (#[trigger] zones[j]).zone_id by {
        assert(zones[i].zone_id == infos[i].zone_id);
        assert(zones[j].zone_id == infos[j].zone_id);
    }
}

/// A zone that was known keeps the time of its record through a snapshot; a
/// zone that was not is stamped with the time of the snapshot.
pub proof fn lemma_snapshot_times(
    old_zones: Seq<ZoneModel>,
    infos: Seq<ZoneInfoModel>,
    now: u64,
    i: int,
)
    requires
        0 <= i < infos.len(),
    ensures
        has_zone(old_zones, infos[i].zone_id) ==> snapshot(
            old_zones,
            infos,
            now,
        )[i].state_changed_at == old_zones[first_match(
            old_zones,
            infos[i].zone_id,
        )].state_changed_at,
        !has_zone(old_zones, infos[i].zone_id) ==> snapshot(
            old_zones,
            infos,
            now,
        )[i].state_changed_at == now,
{
}

} // verus!
