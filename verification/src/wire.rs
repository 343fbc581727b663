//! The wire format: which JSON objects are messages, and which message each is.
//!
//! A message is a JSON object whose member `type` names its kind. The text of
//! a line is taken apart into a [`Json`] tree outside; what the tree means is
//! decided here.
use crate::types::{
    infos_model, text_opt, MessageModel, NowPlayingData, PlaybackState, SidecarMessage,
    TrackModel, ZoneInfo, ZoneInfoModel,
};
use vstd::prelude::*;
use vstd::string::StringExecFns;

verus! {

/// A JSON value. A number is kept as its text, since no message holds one.
#[derive(Debug, PartialEq, Eq)]
pub enum Json {
    Null,
    Bool(bool),
    Number(String),
    Text(String),
    Array(Vec<Json>),
    Object(Vec<Member>),
}

/// A member of a JSON object.
#[derive(Debug, PartialEq, Eq)]
pub struct Member {
    pub key: String,
    pub value: Json,
}

/// Why a JSON value is no message.
#[derive(Clone, Copy, Debug, PartialEq, Eq, Structural)]
pub enum WireError {
    /// The value is not an object.
    NotAnObject,
    /// The object has no member `type` that is a string.
    MissingTag,
    /// The member `type` names no kind of message.
    UnknownTag,
    /// A member that the kind requires is missing or of the wrong type.
    InvalidField,
}

// ---------------------------------------------------------------------------
// Members
// ---------------------------------------------------------------------------
/// Some member of the object has this key.
pub open spec fn has_member(members: Seq<Member>, key: Seq<char>) -> bool {
    exists|i: int| 0 <= i < members.len() && (#[trigger] members[i]).key@ == key
}

/// `i` is the position of the first member with this key.
pub open spec fn is_first_member(members: Seq<Member>, key: Seq<char>, i: int) -> bool {
    &&& 0 <= i < members.len()
    &&& members[i].key@ == key
    &&& forall|k: int| 0 <= k < i ==> (#[trigger] members[k]).key@ != key
}

/// The value of the first member with this key.
pub open spec fn member(members: Seq<Member>, key: Seq<char>) -> Option<Json> {
    if has_member(members, key) {
        Some(members[choose|i: int| is_first_member(members, key, i)].value)
    } else {
        None
    }
}

/// Looks a member up by its key.
pub fn get_member<'a>(members: &'a [Member], key: &str) -> (value: Option<&'a Json>)
    ensures
        match value {
            Some(json) => member(members@, key@) == Some(*json),
            None => member(members@, key@) is None,
        },
{
    let wanted = String::from_str(key);
    let mut i: usize = 0;
    while i < members.len()
        invariant
            0 <= i <= members@.len(),
            wanted@ == key@,
            forall|k: int| 0 <= k < i ==> (#[trigger] members@[k]).key@ != key@,
        decreases members.len() - i,
    {
        if members[i].key == wanted {
            assert(is_first_member(members@, key@, i as int));
            let ghost chosen = choose|c: int| is_first_member(members@, key@, c);
            assert(is_first_member(members@, key@, chosen));
            return Some(&members[i].value);
        }
        i += 1;
    }
    None
}

/// The member with this key, where it is a string.
pub open spec fn text_member(members: Seq<Member>, key: Seq<char>) -> Option<Seq<char>> {
    match member(members, key) {
        Some(Json::Text(text)) => Some(text@),
        _ => None,
    }
}

/// The member with this key, where it is a string, null or absent. The outer
/// option is `None` where it is anything else.
pub open spec fn nullable_text_member(members: Seq<Member>, key: Seq<char>) -> Option<
    Option<Seq<char>>,
> {
    match member(members, key) {
        None => Some(None),
        Some(Json::Null) => Some(None),
        Some(Json::Text(text)) => Some(Some(text@)),
        _ => None,
    }
}

/// Reads a member that has to be a string.
pub fn get_text(members: &[Member], key: &str) -> (text: Option<String>)
    ensures
        text_opt(text) == text_member(members@, key@),
{
    match get_member(members, key) {
        Some(Json::Text(text)) => Some(text.clone()),
        _ => None,
    }
}

/// Reads a member that may be a string, null or absent.
pub fn get_nullable_text(members: &[Member], key: &str) -> (text: Option<Option<String>>)
    ensures
        match text {
            Some(inner) => nullable_text_member(members@, key@) == Some(text_opt(inner)),
            None => nullable_text_member(members@, key@) is None,
        },
{
    match get_member(members, key) {
        None => Some(None),
        Some(Json::Null) => Some(None),
        Some(Json::Text(text)) => Some(Some(text.clone())),
        _ => None,
    }
}

// ---------------------------------------------------------------------------
// Playback state
// ---------------------------------------------------------------------------
/// The playback state that a token names.
pub open spec fn playback_for(token: Seq<char>) -> Option<PlaybackState> {
    if token == "playing"@ {
        Some(PlaybackState::Playing)
    } else if token == "paused"@ {
        Some(PlaybackState::Paused)
    } else if token == "stopped"@ {
        Some(PlaybackState::Stopped)
    } else if token == "loading"@ {
        Some(PlaybackState::Loading)
    } else {
        None
    }
}

/// Reads a playback state from its token.
pub fn parse_playback(token: &String) -> (state: Option<PlaybackState>)
    ensures
        state == playback_for(token@),
{
    if *token == String::from_str("playing") {
        Some(PlaybackState::Playing)
    } else if *token == String::from_str("paused") {
        Some(PlaybackState::Paused)
    } else if *token == String::from_str("stopped") {
        Some(PlaybackState::Stopped)
    } else if *token == String::from_str("loading") {
        Some(PlaybackState::Loading)
    } else {
        None
    }
}

/// The playback state in the member `state`.
pub open spec fn state_member(members: Seq<Member>) -> Option<PlaybackState> {
    match text_member(members, "state"@) {
        Some(token) => playback_for(token),
        None => None,
    }
}

/// Reads the playback state in the member `state`.
pub fn get_state(members: &[Member]) -> (state: Option<PlaybackState>)
    ensures
        state == state_member(members@),
{
    match get_text(members, "state") {
        Some(token) => parse_playback(&token),
        None => None,
    }
}

// ---------------------------------------------------------------------------
// Tracks and zones
// ---------------------------------------------------------------------------
/// The track that the members `title`, `artist`, `album` and `artwork` make,
/// with the given playback state. The first three have to be strings; the
/// artwork may be null or absent.
pub open spec fn track_of(members: Seq<Member>, state: PlaybackState) -> Option<TrackModel> {
    if text_member(members, "title"@) is Some && text_member(members, "artist"@) is Some
        && text_member(members, "album"@) is Some && nullable_text_member(members, "artwork"@)
        is Some {
        Some(
            TrackModel {
                title: text_member(members, "title"@)->0,
                artist: text_member(members, "artist"@)->0,
                album: text_member(members, "album"@)->0,
                state,
                artwork: nullable_text_member(members, "artwork"@)->0,
            },
        )
    } else {
        None
    }
}

/// Reads a track from the members of an object.
pub fn decode_track(members: &[Member], state: PlaybackState) -> (track: Option<NowPlayingData>)
    ensures
        match track {
            Some(data) => track_of(members@, state) == Some(data@),
            None => track_of(members@, state) is None,
        },
{
    let title = match get_text(members, "title") {
        Some(text) => text,
        None => {
            return None;
        },
    };
    let artist = match get_text(members, "artist") {
        Some(text) => text,
        None => {
            return None;
        },
    };
    let album = match get_text(members, "album") {
        Some(text) => text,
        None => {
            return None;
        },
    };
    let artwork = match get_nullable_text(members, "artwork") {
        Some(text) => text,
        None => {
            return None;
        },
    };
    Some(NowPlayingData { title, artist, album, state, artwork })
}

/// The track of a zone: none where the member `now_playing` is null or
/// absent, the track of its members where it is an object. The track takes
/// the playback state of its zone. The outer option is `None` where the
/// member is anything else, or an object that makes no track.
pub open spec fn zone_track_of(members: Seq<Member>, state: PlaybackState) -> Option<
    Option<TrackModel>,
> {
    match member(members, "now_playing"@) {
        None => Some(None),
        Some(Json::Null) => Some(None),
        Some(Json::Object(inner)) => match track_of(inner@, state) {
            Some(track) => Some(Some(track)),
            None => None,
        },
        _ => None,
    }
}

/// The zone that a JSON value describes: an object with the strings `zone_id`
/// and `display_name`, a playback state and an optional track.
pub open spec fn zone_of(json: Json) -> Option<ZoneInfoModel> {
    match json {
        Json::Object(members) => if text_member(members@, "zone_id"@) is Some && text_member(
            members@,
            "display_name"@,
        ) is Some && state_member(members@) is Some && zone_track_of(
            members@,
            state_member(members@)->0,
        ) is Some {
            Some(
                ZoneInfoModel {
                    zone_id: text_member(members@, "zone_id"@)->0,
                    display_name: text_member(members@, "display_name"@)->0,
                    state: state_member(members@)->0,
                    now_playing: zone_track_of(members@, state_member(members@)->0)->0,
                },
            )
        } else {
            None
        },
        _ => None,
    }
}

/// Reads the track of a zone.
pub fn decode_zone_track(members: &[Member], state: PlaybackState) -> (track: Option<
    Option<NowPlayingData>,
>)
    ensures
        match track {
            Some(inner) => zone_track_of(members@, state) == Some(crate::types::track_opt(inner)),
            None => zone_track_of(members@, state) is None,
        },
{
    match get_member(members, "now_playing") {
        None => Some(None),
        Some(Json::Null) => Some(None),
        Some(Json::Object(inner)) => match decode_track(inner.as_slice(), state) {
            Some(track) => Some(Some(track)),
            None => None,
        },
        _ => None,
    }
}

/// Reads a zone from a JSON value.
pub fn decode_zone(json: &Json) -> (zone: Option<ZoneInfo>)
    ensures
        match zone {
            Some(info) => zone_of(*json) == Some(info@),
            None => zone_of(*json) is None,
        },
{
    let members = match json {
        Json::Object(members) => members.as_slice(),
        _ => {
            return None;
        },
    };
    let zone_id = match get_text(members, "zone_id") {
        Some(text) => text,
        None => {
            return None;
        },
    };
    let display_name = match get_text(members, "display_name") {
        Some(text) => text,
        None => {
            return None;
        },
    };
    let state = match get_state(members) {
        Some(state) => state,
        None => {
            return None;
        },
    };
    let now_playing = match decode_zone_track(members, state) {
        Some(track) => track,
        None => {
            return None;
        },
    };
    Some(ZoneInfo { zone_id, display_name, state, now_playing })
}

/// Every item of the list describes a zone.
pub open spec fn all_zones(items: Seq<Json>) -> bool {
    forall|i: int| 0 <= i < items.len() ==> zone_of(#[trigger] items[i]) is Some
}

/// The zones that the items of a list describe, in their order.
pub open spec fn zones_of(items: Seq<Json>) -> Option<Seq<ZoneInfoModel>> {
    if all_zones(items) {
        Some(Seq::new(items.len(), |i: int| zone_of(items[i])->0))
    } else {
        None
    }
}

/// Reads the zones of a list. One item that describes no zone spoils the list.
pub fn decode_zones(items: &[Json]) -> (zones: Option<Vec<ZoneInfo>>)
    ensures
        match zones {
            Some(list) => zones_of(items@) == Some(infos_model(list@)),
            None => zones_of(items@) is None,
        },
{
    let mut list: Vec<ZoneInfo> = Vec::new();
    let mut i: usize = 0;
    while i < items.len()
        invariant
            0 <= i <= items@.len(),
            list@.len() == i,
            forall|k: int| 0 <= k < i ==> zone_of(#[trigger] items@[k]) == Some(list@[k]@),
        decreases items.len() - i,
    {
        match decode_zone(&items[i]) {
            Some(zone) => {
                list.push(zone);
            },
            None => {
                return None;
            },
        }
        i += 1;
    }
    assert(infos_model(list@) =~= Seq::new(items@.len(), |i: int| zone_of(items@[i])->0));
    Some(list)
}

// ---------------------------------------------------------------------------
// Messages
// ---------------------------------------------------------------------------
/// The now-playing message that the members make.
pub open spec fn now_playing_of(members: Seq<Member>) -> Option<MessageModel> {
    if text_member(members, "zone_id"@) is Some && state_member(members) is Some && track_of(
        members,
        state_member(members)->0,
    ) is Some {
        Some(
            MessageModel::NowPlaying {
                zone_id: text_member(members, "zone_id"@)->0,
                track: track_of(members, state_member(members)->0)->0,
            },
        )
    } else {
        None
    }
}

/// The zone-list message that the members make.
pub open spec fn zone_list_of(members: Seq<Member>) -> Option<MessageModel> {
    match member(members, "zones"@) {
        Some(Json::Array(items)) => match zones_of(items@) {
            Some(zones) => Some(MessageModel::ZoneList { zones }),
            None => None,
        },
        _ => None,
    }
}

/// The status message that the members make.
pub open spec fn status_of(members: Seq<Member>) -> Option<MessageModel> {
    if text_member(members, "state"@) is Some && nullable_text_member(members, "message"@)
        is Some {
        Some(
            MessageModel::Status {
                state: text_member(members, "state"@)->0,
                message: nullable_text_member(members, "message"@)->0,
            },
        )
    } else {
        None
    }
}

/// The error message that the members make.
pub open spec fn error_of(members: Seq<Member>) -> Option<MessageModel> {
    match text_member(members, "message"@) {
        Some(message) => Some(MessageModel::Error { message }),
        None => None,
    }
}

/// The message of the kind that the tag names, made of the members. The outer
/// option is `None` where the tag names no kind.
pub open spec fn tagged(tag: Seq<char>, members: Seq<Member>) -> Option<Option<MessageModel>> {
    if tag == "NowPlaying"@ {
        Some(now_playing_of(members))
    } else if tag == "ZoneList"@ {
        Some(zone_list_of(members))
    } else if tag == "Status"@ {
        Some(status_of(members))
    } else if tag == "Error"@ {
        Some(error_of(members))
    } else {
        None
    }
}

/// The message that a JSON value is, or why it is none.
pub open spec fn message_of(json: Json) -> Result<MessageModel, WireError> {
    match json {
        Json::Object(members) => match text_member(members@, "type"@) {
            Some(tag) => match tagged(tag, members@) {
                Some(Some(message)) => Ok(message),
                Some(None) => Err(WireError::InvalidField),
                None => Err(WireError::UnknownTag),
            },
            None => Err(WireError::MissingTag),
        },
        _ => Err(WireError::NotAnObject),
    }
}

/// Reads a now-playing message.
pub fn decode_now_playing(members: &[Member]) -> (message: Option<SidecarMessage>)
    ensures
        match message {
            Some(m) => now_playing_of(members@) == Some(m@),
            None => now_playing_of(members@) is None,
        },
{
    let zone_id = match get_text(members, "zone_id") {
        Some(text) => text,
        None => {
            return None;
        },
    };
    let state = match get_state(members) {
        Some(state) => state,
        None => {
            return None;
        },
    };
    match decode_track(members, state) {
        Some(track) => Some(
            SidecarMessage::NowPlaying {
                zone_id,
                title: track.title,
                artist: track.artist,
                album: track.album,
                state: track.state,
                artwork: track.artwork,
            },
        ),
        None => None,
    }
}

/// Reads a zone-list message.
pub fn decode_zone_list(members: &[Member]) -> (message: Option<SidecarMessage>)
    ensures
        match message {
            Some(m) => zone_list_of(members@) == Some(m@),
            None => zone_list_of(members@) is None,
        },
{
    match get_member(members, "zones") {
        Some(Json::Array(items)) => match decode_zones(items.as_slice()) {
            Some(zones) => Some(SidecarMessage::ZoneList { zones }),
            None => None,
        },
        _ => None,
    }
}

/// Reads a status message.
pub fn decode_status(members: &[Member]) -> (message: Option<SidecarMessage>)
    ensures
        match message {
            Some(m) => status_of(members@) == Some(m@),
            None => status_of(members@) is None,
        },
{
    let state = match get_text(members, "state") {
        Some(text) => text,
        None => {
            return None;
        },
    };
    match get_nullable_text(members, "message") {
        Some(message) => Some(SidecarMessage::Status { state, message }),
        None => None,
    }
}

/// Reads an error message.
pub fn decode_error(members: &[Member]) -> (message: Option<SidecarMessage>)
    ensures
        match message {
            Some(m) => error_of(members@) == Some(m@),
            None => error_of(members@) is None,
        },
{
    match get_text(members, "message") {
        Some(message) => Some(SidecarMessage::Error { message }),
        None => None,
    }
}

/// Reads a message from a JSON value. It succeeds exactly on an object whose
/// member `type` names a kind of message and whose other members are those
/// that the kind requires; members that no kind asks for are passed over.
pub fn decode_message(json: &Json) -> (result: Result<SidecarMessage, WireError>)
    ensures
        match result {
            Ok(message) => message_of(*json) == Ok::<MessageModel, WireError>(message@),
            Err(error) => message_of(*json) == Err::<MessageModel, WireError>(error),
        },
{
    let members = match json {
        Json::Object(members) => members.as_slice(),
        _ => {
            return Err(WireError::NotAnObject);
        },
    };
    let tag = match get_text(members, "type") {
        Some(text) => text,
        None => {
            return Err(WireError::MissingTag);
        },
    };
    let decoded = if tag == String::from_str("NowPlaying") {
        decode_now_playing(members)
    } else if tag == String::from_str("ZoneList") {
        decode_zone_list(members)
    } else if tag == String::from_str("Status") {
        decode_status(members)
    } else if tag == String::from_str("Error") {
        decode_error(members)
    } else {
        return Err(WireError::UnknownTag);
    };
    match decoded {
        Some(message) => Ok(message),
        None => Err(WireError::InvalidField),
    }
}

/// In words, why a value is no message.
pub open spec fn error_text(error: WireError) -> Seq<char> {
    match error {
        WireError::NotAnObject => "message is not a JSON object"@,
        WireError::MissingTag => "message has no type"@,
        WireError::UnknownTag => "message is of an unknown type"@,
        WireError::InvalidField => "message has a missing or invalid field"@,
    }
}

impl WireError {
    /// Says in words why the value is no message.
    pub fn describe(&self) -> (text: String)
        ensures
            text@ == error_text(*self),
    {
        match self {
            WireError::NotAnObject => String::from_str("message is not a JSON object"),
            WireError::MissingTag => String::from_str("message has no type"),
            WireError::UnknownTag => String::from_str("message is of an unknown type"),
            WireError::InvalidField => String::from_str("message has a missing or invalid field"),
        }
    }
}

} // verus!
