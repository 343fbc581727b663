//! The data model and, for each type, the mathematical value it stands for.
//!
//! Text is modelled as `Seq<char>`, lists as `Seq`, and points in time as
//! milliseconds on a monotonic clock.
use vstd::prelude::*;

verus! {

/// What a zone is doing.
#[derive(Clone, Copy, Debug, PartialEq, Eq, Structural)]
pub enum PlaybackState {
    Playing,
    Paused,
    Stopped,
    Loading,
}

/// The track a zone reports.
#[derive(Clone, Debug, PartialEq, Eq)]
pub struct NowPlayingData {
    pub title: String,
    pub artist: String,
    pub album: String,
    pub state: PlaybackState,
    /// Opaque reference to the artwork, such as a base64 data URL.
    pub artwork: Option<String>,
}

/// Model of [`NowPlayingData`].
pub struct TrackModel {
    pub title: Seq<char>,
    pub artist: Seq<char>,
    pub album: Seq<char>,
    pub state: PlaybackState,
    pub artwork: Option<Seq<char>>,
}

/// Model of an optional string.
pub open spec fn text_opt(s: Option<String>) -> Option<Seq<char>> {
    match s {
        Some(t) => Some(t@),
        None => None,
    }
}

/// Model of an optional track.
pub open spec fn track_opt(t: Option<NowPlayingData>) -> Option<TrackModel> {
    match t {
        Some(d) => Some(d@),
        None => None,
    }
}

impl View for NowPlayingData {
    type V = TrackModel;

    open spec fn view(&self) -> TrackModel {
        TrackModel {
            title: self.title@,
            artist: self.artist@,
            album: self.album@,
            state: self.state,
            artwork: text_opt(self.artwork),
        }
    }
}

/// An independently controllable playback endpoint.
#[derive(Clone, Debug, PartialEq, Eq)]
pub struct Zone {
    pub zone_id: String,
    pub display_name: String,
    pub state: PlaybackState,
    pub now_playing: Option<NowPlayingData>,
    /// When the zone's record last changed, in milliseconds.
    pub state_changed_at: u64,
}

/// Model of [`Zone`].
pub struct ZoneModel {
    pub zone_id: Seq<char>,
    pub display_name: Seq<char>,
    pub state: PlaybackState,
    pub now_playing: Option<TrackModel>,
    pub state_changed_at: u64,
}

impl View for Zone {
    type V = ZoneModel;

    open spec fn view(&self) -> ZoneModel {
        ZoneModel {
            zone_id: self.zone_id@,
            display_name: self.display_name@,
            state: self.state,
            now_playing: track_opt(self.now_playing),
            state_changed_at: self.state_changed_at,
        }
    }
}

/// Model of a list of zones.
pub open spec fn zones_model(zones: Seq<Zone>) -> Seq<ZoneModel> {
    zones.map_values(|z: Zone| z@)
}

/// Which zone the user wants shown.
#[derive(Clone, Debug, PartialEq, Eq)]
pub enum ZonePreference {
    /// Follow whichever zone became active first.
    Auto,
    /// Show the zone the user picked.
    Selected { zone_id: String, smart_switching: bool, grace_period_ms: u64 },
}

/// Model of [`ZonePreference`].
pub enum PreferenceModel {
    Auto,
    Selected { zone_id: Seq<char>, smart_switching: bool, grace_period_ms: u64 },
}

impl View for ZonePreference {
    type V = PreferenceModel;

    open spec fn view(&self) -> PreferenceModel {
        match *self {
            ZonePreference::Auto => PreferenceModel::Auto,
            ZonePreference::Selected { zone_id, smart_switching, grace_period_ms } => {
                PreferenceModel::Selected { zone_id: zone_id@, smart_switching, grace_period_ms }
            },
        }
    }
}

/// State of the link to the upstream audio system.
#[derive(Clone, Debug, PartialEq, Eq)]
pub enum ConnectionStatus {
    Disconnected,
    Discovering,
    Connected,
    Error(String),
}

/// Model of [`ConnectionStatus`].
pub enum StatusModel {
    Disconnected,
    Discovering,
    Connected,
    Error(Seq<char>),
}

impl View for ConnectionStatus {
    type V = StatusModel;

    open spec fn view(&self) -> StatusModel {
        match *self {
            ConnectionStatus::Disconnected => StatusModel::Disconnected,
            ConnectionStatus::Discovering => StatusModel::Discovering,
            ConnectionStatus::Connected => StatusModel::Connected,
            ConnectionStatus::Error(m) => StatusModel::Error(m@),
        }
    }
}

/// The single aggregate that every execution context shares.
#[derive(Clone, Debug, PartialEq, Eq)]
pub struct AppState {
    pub current_track: Option<NowPlayingData>,
    pub active_zone_id: Option<String>,
    pub all_zones: Vec<Zone>,
    pub zone_preference: ZonePreference,
    pub connection_status: ConnectionStatus,
    pub is_smart_switched: bool,
    pub preferred_zone_stopped_at: Option<u64>,
    pub last_menu_rebuild: Option<u64>,
    pub last_appearance_mode: Option<bool>,
}

/// Model of [`AppState`].
pub struct StateModel {
    pub current_track: Option<TrackModel>,
    pub active_zone_id: Option<Seq<char>>,
    pub all_zones: Seq<ZoneModel>,
    pub zone_preference: PreferenceModel,
    pub connection_status: StatusModel,
    pub is_smart_switched: bool,
    pub preferred_zone_stopped_at: Option<u64>,
    pub last_menu_rebuild: Option<u64>,
    pub last_appearance_mode: Option<bool>,
}

impl View for AppState {
    type V = StateModel;

    open spec fn view(&self) -> StateModel {
        StateModel {
            current_track: track_opt(self.current_track),
            active_zone_id: text_opt(self.active_zone_id),
            all_zones: zones_model(self.all_zones@),
            zone_preference: self.zone_preference@,
            connection_status: self.connection_status@,
            is_smart_switched: self.is_smart_switched,
            preferred_zone_stopped_at: self.preferred_zone_stopped_at,
            last_menu_rebuild: self.last_menu_rebuild,
            last_appearance_mode: self.last_appearance_mode,
        }
    }
}

/// The state before anything has been heard from the helper process.
pub open spec fn initial_state() -> StateModel {
    StateModel {
        current_track: None,
        active_zone_id: None,
        all_zones: Seq::empty(),
        zone_preference: PreferenceModel::Auto,
        connection_status: StatusModel::Disconnected,
        is_smart_switched: false,
        preferred_zone_stopped_at: None,
        last_menu_rebuild: None,
        last_appearance_mode: None,
    }
}

impl Default for AppState {
    fn default() -> (state: AppState)
        ensures
            state@ == initial_state(),
    {
        let state = AppState {
            current_track: None,
            active_zone_id: None,
            all_zones: Vec::new(),
            zone_preference: ZonePreference::Auto,
            connection_status: ConnectionStatus::Disconnected,
            is_smart_switched: false,
            preferred_zone_stopped_at: None,
            last_menu_rebuild: None,
            last_appearance_mode: None,
        };
        assert(zones_model(state.all_zones@) =~= Seq::empty());
        state
    }
}

/// One zone of a zone-list snapshot, as the helper process reports it.
#[derive(Clone, Debug, PartialEq, Eq)]
pub struct ZoneInfo {
    pub zone_id: String,
    pub display_name: String,
    pub state: PlaybackState,
    pub now_playing: Option<NowPlayingData>,
}

/// Model of [`ZoneInfo`].
pub struct ZoneInfoModel {
    pub zone_id: Seq<char>,
    pub display_name: Seq<char>,
    pub state: PlaybackState,
    pub now_playing: Option<TrackModel>,
}

impl View for ZoneInfo {
    type V = ZoneInfoModel;

    open spec fn view(&self) -> ZoneInfoModel {
        ZoneInfoModel {
            zone_id: self.zone_id@,
            display_name: self.display_name@,
            state: self.state,
            now_playing: track_opt(self.now_playing),
        }
    }
}

/// Model of a list of zone snapshots.
pub open spec fn infos_model(infos: Seq<ZoneInfo>) -> Seq<ZoneInfoModel> {
    infos.map_values(|z: ZoneInfo| z@)
}

/// A message of the helper process, already decoded from its line.
#[allow(inconsistent_fields)]
#[derive(Clone, Debug, PartialEq, Eq)]
pub enum SidecarMessage {
    NowPlaying {
        zone_id: String,
        title: String,
        artist: String,
        album: String,
        state: PlaybackState,
        artwork: Option<String>,
    },
    ZoneList { zones: Vec<ZoneInfo> },
    Status { state: String, message: Option<String> },
    Error { message: String },
}

/// Model of [`SidecarMessage`].
#[allow(inconsistent_fields)]
pub enum MessageModel {
    NowPlaying { zone_id: Seq<char>, track: TrackModel },
    ZoneList { zones: Seq<ZoneInfoModel> },
    Status { state: Seq<char>, message: Option<Seq<char>> },
    Error { message: Seq<char> },
}

impl View for SidecarMessage {
    type V = MessageModel;

    open spec fn view(&self) -> MessageModel {
        match *self {
            SidecarMessage::NowPlaying { zone_id, title, artist, album, state, artwork } => {
                MessageModel::NowPlaying {
                    zone_id: zone_id@,
                    track: TrackModel {
                        title: title@,
                        artist: artist@,
                        album: album@,
                        state,
                        artwork: text_opt(artwork),
                    },
                }
            },
            SidecarMessage::ZoneList { zones } => MessageModel::ZoneList {
                zones: infos_model(zones@),
            },
            SidecarMessage::Status { state, message } => MessageModel::Status {
                state: state@,
                message: text_opt(message),
            },
            SidecarMessage::Error { message } => MessageModel::Error { message: message@ },
        }
    }
}

/// Copies an optional string.
pub fn copy_text_opt(s: &Option<String>) -> (copy: Option<String>)
    ensures
        text_opt(copy) == text_opt(*s),
{
    match s {
        Some(t) => Some(t.clone()),
        None => None,
    }
}

impl NowPlayingData {
    /// A copy that stands for the same track.
    pub fn duplicate(&self) -> (copy: NowPlayingData)
        ensures
            copy@ == self@,
    {
        NowPlayingData {
            title: self.title.clone(),
            artist: self.artist.clone(),
            album: self.album.clone(),
            state: self.state,
            artwork: copy_text_opt(&self.artwork),
        }
    }
}

/// Copies an optional track.
pub fn copy_track_opt(t: &Option<NowPlayingData>) -> (copy: Option<NowPlayingData>)
    ensures
        track_opt(copy) == track_opt(*t),
{
    match t {
        Some(d) => Some(d.duplicate()),
        None => None,
    }
}

} // verus!
