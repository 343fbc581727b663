//! Applies each message of the helper process to the application state and
//! decides what the user interface has to redo.
//!
//! Every transition is first written as a function on the model of the state;
//! the executable function is proved to compute exactly that.
use crate::types::{
    copy_text_opt, infos_model, zones_model, AppState, ConnectionStatus, MessageModel,
    NowPlayingData, PlaybackState, PreferenceModel, SidecarMessage, StateModel, StatusModel,
    TrackModel, Zone, ZoneInfo, ZoneInfoModel, ZoneModel, ZonePreference,
};
use crate::zones::{
    find_zone, first_match, has_zone, lemma_first_match, zones_changed, zones_differ,
};
use vstd::prelude::*;
use vstd::string::StringExecFns;

verus! {

/// Least time between two menu rebuilds that zone lists cause, in milliseconds.
pub const REBUILD_INTERVAL_MS: u64 = 1000;

/// Grace period given to a newly selected zone, in milliseconds: five minutes.
pub const DEFAULT_GRACE_PERIOD_MS: u64 = 300000;

/// What the user interface has to redo after a transition.
#[derive(Clone, Copy, Debug, PartialEq, Eq, Structural)]
pub struct Effects {
    /// The status icon shows stale data and is redrawn at once.
    pub refresh_icon: bool,
    /// The menu lists stale zones and is rebuilt.
    pub rebuild_menu: bool,
}

/// Nothing to redo.
pub open spec fn no_effects() -> Effects {
    Effects { refresh_icon: false, rebuild_menu: false }
}

// ---------------------------------------------------------------------------
// Now playing
// ---------------------------------------------------------------------------
/// The zone list after the first zone with this id took the track, stamped
/// with the time. A list without the id stays as it is.
pub open spec fn with_track(
    zones: Seq<ZoneModel>,
    id: Seq<char>,
    track: TrackModel,
    now: u64,
) -> Seq<ZoneModel> {
    if has_zone(zones, id) {
        let i = first_match(zones, id);
        zones.update(
            i,
            ZoneModel { now_playing: Some(track), state_changed_at: now, ..zones[i] },
        )
    } else {
        zones
    }
}

/// Whether a track of this zone is to be displayed: under the automatic
/// preference when the zone is the active one or none is active yet, under a
/// selection when the zone is the selected one.
pub open spec fn eligible(s: StateModel, id: Seq<char>) -> bool {
    match s.zone_preference {
        PreferenceModel::Auto => s.active_zone_id is None || s.active_zone_id == Some(id),
        PreferenceModel::Selected { zone_id, .. } => zone_id == id,
    }
}

/// The state after a now-playing message.
pub open spec fn after_now_playing(
    s: StateModel,
    id: Seq<char>,
    track: TrackModel,
    now: u64,
) -> StateModel {
    let zones = with_track(s.all_zones, id, track, now);
    if eligible(s, id) {
        StateModel {
            all_zones: zones,
            current_track: Some(track),
            active_zone_id: Some(id),
            ..s
        }
    } else {
        StateModel { all_zones: zones, ..s }
    }
}

/// Whether the zone is eligible for display in this state.
pub fn is_eligible(state: &AppState, zone_id: &String) -> (yes: bool)
    ensures
        yes == eligible(state@, zone_id@),
{
    match &state.zone_preference {
        ZonePreference::Auto => match &state.active_zone_id {
            None => true,
            Some(active) => *active == *zone_id,
        },
        ZonePreference::Selected { zone_id: selected, .. } => *selected == *zone_id,
    }
}

/// Records the track on its zone, if the zone is known, and displays it if the
/// zone is eligible. The icon is refreshed exactly when the track is displayed.
pub fn handle_now_playing(
    state: &mut AppState,
    zone_id: String,
    track: NowPlayingData,
    now: u64,
) -> (effects: Effects)
    ensures
        final(state)@ == after_now_playing(old(state)@, zone_id@, track@, now),
        effects == (Effects { refresh_icon: eligible(old(state)@, zone_id@), rebuild_menu: false }),
{
    let ghost before = state@;
    match find_zone(state.all_zones.as_slice(), &zone_id) {
        Some(i) => {
            proof {
                lemma_first_match(before.all_zones, zone_id@, i as int);
            }
            let updated = Zone {
                zone_id: state.all_zones[i].zone_id.clone(),
                display_name: state.all_zones[i].display_name.clone(),
                state: state.all_zones[i].state,
                now_playing: Some(track.duplicate()),
                state_changed_at: now,
            };
            state.all_zones.set(i, updated);
            assert(zones_model(state.all_zones@) =~= with_track(
                before.all_zones,
                zone_id@,
                track@,
                now,
            ));
        },
        None => {},
    }
    let show = is_eligible(state, &zone_id);
    if show {
        state.current_track = Some(track);
        state.active_zone_id = Some(zone_id);
    }
    Effects { refresh_icon: show, rebuild_menu: false }
}

// ---------------------------------------------------------------------------
// Zone list
// ---------------------------------------------------------------------------
/// The track of a snapshot, with the playback state of its zone.
pub open spec fn retimed(track: Option<TrackModel>, state: PlaybackState) -> Option<TrackModel> {
    match track {
        Some(t) => Some(TrackModel { state, ..t }),
        None => None,
    }
}

/// The record made of one snapshot: it keeps the time of the zone's earlier
/// record where the old list has one, and is stamped with the present time
/// otherwise.
pub open spec fn stamped(old_zones: Seq<ZoneModel>, info: ZoneInfoModel, now: u64) -> ZoneModel {
    ZoneModel {
        zone_id: info.zone_id,
        display_name: info.display_name,
        state: info.state,
        now_playing: retimed(info.now_playing, info.state),
        state_changed_at: if has_zone(old_zones, info.zone_id) {
            old_zones[first_match(old_zones, info.zone_id)].state_changed_at
        } else {
            now
        },
    }
}

/// The zone list made of a whole snapshot, in the snapshot's order.
pub open spec fn snapshot(
    old_zones: Seq<ZoneModel>,
    infos: Seq<ZoneInfoModel>,
    now: u64,
) -> Seq<ZoneModel> {
    Seq::new(infos.len(), |i: int| stamped(old_zones, infos[i], now))
}

/// The playback state that the displayed track has to take over from the new
/// list: that of the active zone, where the new list holds it and a track is
/// displayed whose cached state is another.
pub open spec fn active_state_shift(s: StateModel, new_zones: Seq<ZoneModel>) -> Option<
    PlaybackState,
> {
    if s.active_zone_id is Some && s.current_track is Some && has_zone(
        new_zones,
        s.active_zone_id->0,
    ) && new_zones[first_match(new_zones, s.active_zone_id->0)].state != (
    s.current_track->0).state {
        Some(new_zones[first_match(new_zones, s.active_zone_id->0)].state)
    } else {
        None
    }
}

/// A rebuild is permitted when the zones changed and no rebuild was recorded
/// yet, or the last one lies at least a second back.
pub open spec fn rebuild_permitted(changed: bool, last: Option<u64>, now: u64) -> bool {
    changed && (last is None || now - last->0 >= REBUILD_INTERVAL_MS)
}

/// The state after a zone-list message.
pub open spec fn after_zone_list(s: StateModel, infos: Seq<ZoneInfoModel>, now: u64) -> StateModel {
    let new_zones = snapshot(s.all_zones, infos, now);
    StateModel {
        all_zones: new_zones,
        current_track: match active_state_shift(s, new_zones) {
            Some(state) => retimed(s.current_track, state),
            None => s.current_track,
        },
        ..s
    }
}

/// What a zone-list message asks the user interface to redo.
pub open spec fn zone_list_effects(s: StateModel, infos: Seq<ZoneInfoModel>, now: u64) -> Effects {
    let new_zones = snapshot(s.all_zones, infos, now);
    Effects {
        refresh_icon: active_state_shift(s, new_zones) is Some,
        rebuild_menu: rebuild_permitted(
            zones_differ(s.all_zones, new_zones),
            s.last_menu_rebuild,
            now,
        ),
    }
}

/// Decides whether a rebuild is permitted now.
pub fn may_rebuild(changed: bool, last: Option<u64>, now: u64) -> (permitted: bool)
    ensures
        permitted == rebuild_permitted(changed, last, now),
{
    if !changed {
        return false;
    }
    match last {
        None => true,
        Some(at) => now >= at && now - at >= REBUILD_INTERVAL_MS,
    }
}

/// Makes the record of one zone of a snapshot.
pub fn stamp_zone(old_zones: &[Zone], info: &ZoneInfo, now: u64) -> (zone: Zone)
    ensures
        zone@ == stamped(zones_model(old_zones@), info@, now),
{
    let at = match find_zone(old_zones, &info.zone_id) {
        Some(i) => {
            proof {
                lemma_first_match(zones_model(old_zones@), info.zone_id@, i as int);
            }
            old_zones[i].state_changed_at
        },
        None => now,
    };
    let now_playing = match &info.now_playing {
        Some(t) => Some(
            NowPlayingData {
                title: t.title.clone(),
                artist: t.artist.clone(),
                album: t.album.clone(),
                state: info.state,
                artwork: copy_text_opt(&t.artwork),
            },
        ),
        None => None,
    };
    Zone {
        zone_id: info.zone_id.clone(),
        display_name: info.display_name.clone(),
        state: info.state,
        now_playing,
        state_changed_at: at,
    }
}

/// Makes the zone list of a whole snapshot.
pub fn stamp_zones(old_zones: &[Zone], infos: &[ZoneInfo], now: u64) -> (zones: Vec<Zone>)
    ensures
        zones_model(zones@) == snapshot(zones_model(old_zones@), infos_model(infos@), now),
{
    let mut zones: Vec<Zone> = Vec::new();
    let mut i: usize = 0;
    while i < infos.len()
        invariant
            0 <= i <= infos.len(),
            zones@.len() == i,
            forall|k: int|
                0 <= k < i ==> (#[trigger] zones@[k])@ == stamped(
                    zones_model(old_zones@),
                    infos_model(infos@)[k],
                    now,
                ),
        decreases infos.len() - i,
    {
        let zone = stamp_zone(old_zones, &infos[i], now);
        zones.push(zone);
        i += 1;
    }
    assert(zones_model(zones@) =~= snapshot(zones_model(old_zones@), infos_model(infos@), now));
    zones
}

/// Finds the playback state that the displayed track has to take over.
pub fn find_state_shift(state: &AppState, new_zones: &[Zone]) -> (shift: Option<PlaybackState>)
    ensures
        shift == active_state_shift(state@, zones_model(new_zones@)),
{
    match &state.active_zone_id {
        Some(active) => match find_zone(new_zones, active) {
            Some(k) => {
                proof {
                    lemma_first_match(zones_model(new_zones@), active@, k as int);
                }
                match &state.current_track {
                    Some(track) => if track.state != new_zones[k].state {
                        Some(new_zones[k].state)
                    } else {
                        None
                    },
                    None => None,
                }
            },
            None => None,
        },
        None => None,
    }
}

/// Replaces the zone list by the snapshot, keeping the time of each zone that
/// was known; takes the active zone's new playback state over into the
/// displayed track; and permits a menu rebuild when the zones changed and the
/// last recorded rebuild lies at least a second back.
pub fn handle_zone_list(state: &mut AppState, zones: Vec<ZoneInfo>, now: u64) -> (effects: Effects)
    ensures
        final(state)@ == after_zone_list(old(state)@, infos_model(zones@), now),
        effects == zone_list_effects(old(state)@, infos_model(zones@), now),
{
    let new_zones = stamp_zones(state.all_zones.as_slice(), zones.as_slice(), now);
    let changed = zones_changed(state.all_zones.as_slice(), new_zones.as_slice());
    let shift = find_state_shift(state, new_zones.as_slice());
    match shift {
        Some(playback) => {
            let updated = match &state.current_track {
                Some(t) => Some(
                    NowPlayingData {
                        title: t.title.clone(),
                        artist: t.artist.clone(),
                        album: t.album.clone(),
                        state: playback,
                        artwork: copy_text_opt(&t.artwork),
                    },
                ),
                None => None,
            };
            state.current_track = updated;
        },
        None => {},
    }
    state.all_zones = new_zones;
    let rebuild = may_rebuild(changed, state.last_menu_rebuild, now);
    Effects { refresh_icon: shift.is_some(), rebuild_menu: rebuild }
}

/// The state after a menu rebuild that succeeded at this time.
pub open spec fn after_rebuild(s: StateModel, now: u64) -> StateModel {
    StateModel { last_menu_rebuild: Some(now), ..s }
}

/// Records that the menu was rebuilt. To be called once the rebuild has
/// returned successfully, and not otherwise.
pub fn record_menu_rebuild(state: &mut AppState, now: u64)
    ensures
        final(state)@ == after_rebuild(old(state)@, now),
{
    state.last_menu_rebuild = Some(now);
}

// ---------------------------------------------------------------------------
// Status and error
// ---------------------------------------------------------------------------
/// The connection status that a status token stands for.
pub open spec fn status_for(token: Seq<char>) -> StatusModel {
    if token == "discovering"@ {
        StatusModel::Discovering
    } else if token == "connected"@ {
        StatusModel::Connected
    } else if token == "disconnected"@ {
        StatusModel::Disconnected
    } else if token == "not_authorized"@ {
        StatusModel::Error("not authorized; enable the extension"@)
    } else {
        StatusModel::Error("unknown status: "@ + token)
    }
}

/// Maps a status token to the connection status it stands for.
pub fn parse_status(token: &String) -> (status: ConnectionStatus)
    ensures
        status@ == status_for(token@),
{
    if *token == String::from_str("discovering") {
        ConnectionStatus::Discovering
    } else if *token == String::from_str("connected") {
        ConnectionStatus::Connected
    } else if *token == String::from_str("disconnected") {
        ConnectionStatus::Disconnected
    } else if *token == String::from_str("not_authorized") {
        ConnectionStatus::Error(String::from_str("not authorized; enable the extension"))
    } else {
        ConnectionStatus::Error(String::from_str("unknown status: ").concat(token.as_str()))
    }
}

/// The state after a status message.
pub open spec fn after_status(s: StateModel, token: Seq<char>) -> StateModel {
    StateModel { connection_status: status_for(token), ..s }
}

/// The state after an error message.
pub open spec fn after_error(s: StateModel, message: Seq<char>) -> StateModel {
    StateModel { connection_status: StatusModel::Error(message), ..s }
}

/// Stores the status that the token stands for, whatever was stored before.
pub fn handle_status(state: &mut AppState, token: &String)
    ensures
        final(state)@ == after_status(old(state)@, token@),
{
    state.connection_status = parse_status(token);
}

/// Stores the error, whatever was stored before.
pub fn handle_error(state: &mut AppState, message: String)
    ensures
        final(state)@ == after_error(old(state)@, message@),
{
    state.connection_status = ConnectionStatus::Error(message);
}

// ---------------------------------------------------------------------------
// Any message
// ---------------------------------------------------------------------------
/// The state after a message.
pub open spec fn after_message(s: StateModel, m: MessageModel, now: u64) -> StateModel {
    match m {
        MessageModel::NowPlaying { zone_id, track } => after_now_playing(s, zone_id, track, now),
        MessageModel::ZoneList { zones } => after_zone_list(s, zones, now),
        MessageModel::Status { state, .. } => after_status(s, state),
        MessageModel::Error { message } => after_error(s, message),
    }
}

/// What a message asks the user interface to redo.
pub open spec fn message_effects(s: StateModel, m: MessageModel, now: u64) -> Effects {
    match m {
        MessageModel::NowPlaying { zone_id, .. } => Effects {
            refresh_icon: eligible(s, zone_id),
            rebuild_menu: false,
        },
        MessageModel::ZoneList { zones } => zone_list_effects(s, zones, now),
        MessageModel::Status { .. } => no_effects(),
        MessageModel::Error { .. } => no_effects(),
    }
}

/// Applies one message to the state and says what the user interface has to
/// redo. The caller holds the state exclusively for the call, and acts on the
/// result only after it has let go of it.
pub fn handle_message(state: &mut AppState, message: SidecarMessage, now: u64) -> (effects: Effects)
    ensures
        final(state)@ == after_message(old(state)@, message@, now),
        effects == message_effects(old(state)@, message@, now),
{
    match message {
        SidecarMessage::NowPlaying { zone_id, title, artist, album, state: playback, artwork } => {
            let track = NowPlayingData { title, artist, album, state: playback, artwork };
            handle_now_playing(state, zone_id, track, now)
        },
        SidecarMessage::ZoneList { zones } => handle_zone_list(state, zones, now),
        SidecarMessage::Status { state: token, message: _ } => {
            handle_status(state, &token);
            Effects { refresh_icon: false, rebuild_menu: false }
        },
        SidecarMessage::Error { message } => {
            handle_error(state, message);
            Effects { refresh_icon: false, rebuild_menu: false }
        },
    }
}

// ---------------------------------------------------------------------------
// Selection
// ---------------------------------------------------------------------------
/// The state after the user picked a zone.
pub open spec fn after_select(s: StateModel, id: Seq<char>) -> StateModel {
    StateModel {
        zone_preference: PreferenceModel::Selected {
            zone_id: id,
            smart_switching: true,
            grace_period_ms: DEFAULT_GRACE_PERIOD_MS,
        },
        is_smart_switched: false,
        preferred_zone_stopped_at: None,
        active_zone_id: Some(id),
        current_track: if has_zone(s.all_zones, id) && s.all_zones[first_match(
            s.all_zones,
            id,
        )].now_playing is Some {
            s.all_zones[first_match(s.all_zones, id)].now_playing
        } else {
            s.current_track
        },
        ..s
    }
}

/// Makes the zone the selected one. Whatever automatic fallback was under way
/// is forgotten; the zone's track is displayed at once where its record has
/// one, and the displayed track stays until the zone reports one otherwise.
/// Both the menu and the icon are redone at once, whenever the menu was last
/// rebuilt.
pub fn select_zone(state: &mut AppState, zone_id: String) -> (effects: Effects)
    ensures
        final(state)@ == after_select(old(state)@, zone_id@),
        !final(state).is_smart_switched,
        final(state).preferred_zone_stopped_at is None,
        effects == (Effects { refresh_icon: true, rebuild_menu: true }),
{
    match find_zone(state.all_zones.as_slice(), &zone_id) {
        Some(i) => {
            proof {
                lemma_first_match(state@.all_zones, zone_id@, i as int);
            }
            match &state.all_zones[i].now_playing {
                Some(track) => {
                    let adopted = track.duplicate();
                    state.current_track = Some(adopted);
                },
                None => {},
            }
        },
        None => {},
    }
    state.zone_preference = ZonePreference::Selected {
        zone_id: zone_id.clone(),
        smart_switching: true,
        grace_period_ms: DEFAULT_GRACE_PERIOD_MS,
    };
    state.is_smart_switched = false;
    state.preferred_zone_stopped_at = None;
    state.active_zone_id = Some(zone_id);
    Effects { refresh_icon: true, rebuild_menu: true }
}

// ---------------------------------------------------------------------------
// Appearance
// ---------------------------------------------------------------------------
/// The state after the host's appearance was observed.
pub open spec fn after_appearance(s: StateModel, dark: bool) -> StateModel {
    StateModel { last_appearance_mode: Some(dark), ..s }
}

/// Caches the host's appearance and asks for an icon refresh when it is not
/// the one that was cached.
pub fn observe_appearance(state: &mut AppState, dark: bool) -> (refresh: bool)
    ensures
        final(state)@ == after_appearance(old(state)@, dark),
        refresh == (old(state)@.last_appearance_mode != Some(dark)),
{
    let refresh = match state.last_appearance_mode {
        Some(cached) => cached != dark,
        None => true,
    };
    state.last_appearance_mode = Some(dark);
    refresh
}

} // verus!
