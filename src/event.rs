//! Player events and the environment variables that describe them.

use vstd::prelude::*;
use vstd::string::StringExecFns;

use crate::env::{EnvKey, EnvMap};
use crate::text::{decimal_string, decimal_text, track_id_base62, track_id_text};

verus! {

/// A 128-bit track identifier.
#[derive(Clone, Copy, Debug, PartialEq, Eq, Structural)]
pub struct TrackId {
    pub id: u128,
}

/// A cover image of a track, as far as the variables need it.
#[derive(Clone, Debug)]
pub struct CoverImage {
    pub url: String,
    pub width: i32,
}

/// The playable item that a track change announces.
#[derive(Clone, Debug)]
pub struct AudioItem {
    pub track_id: TrackId,
    pub name: String,
    pub duration_ms: u32,
    pub covers: Vec<CoverImage>,
}

/// A moment in the player's life that can trigger the command.
#[derive(Clone, Debug)]
pub enum PlayerEvent {
    PlayRequestIdChanged { play_request_id: u64 },
    Stopped { play_request_id: u64, track_id: TrackId },
    Loading { play_request_id: u64, track_id: TrackId, position_ms: u32 },
    Preloading { track_id: TrackId },
    Playing { play_request_id: u64, track_id: TrackId, position_ms: u32 },
    Paused { play_request_id: u64, track_id: TrackId, position_ms: u32 },
    TimeToPreloadNextTrack { play_request_id: u64, track_id: TrackId },
    EndOfTrack { play_request_id: u64, track_id: TrackId },
    Unavailable { play_request_id: u64, track_id: TrackId },
    VolumeChanged { volume: u16 },
    PositionCorrection { play_request_id: u64, track_id: TrackId, position_ms: u32 },
    Seeked { play_request_id: u64, track_id: TrackId, position_ms: u32 },
    TrackChanged { audio_item: AudioItem },
    SessionConnected { connection_id: String, user_name: String },
    SessionDisconnected { connection_id: String, user_name: String },
    SessionClientChanged { client_id: String, client_name: String, client_brand_name: String, client_model_name: String },
    ShuffleChanged { shuffle: bool },
    RepeatChanged { repeat: bool },
    AutoPlayChanged { auto_play: bool },
    FilterExplicitContentChanged { filter: bool },
}

/// The text of a boolean value.
pub open spec fn bool_text(b: bool) -> Seq<char> {
    if b {
        "true"@
    } else {
        "false"@
    }
}

/// The text of the repeat setting: `all` when on, `none` when off.
pub open spec fn repeat_text(b: bool) -> Seq<char> {
    if b {
        "all"@
    } else {
        "none"@
    }
}

/// The index of the widest cover; among equally wide ones, the first.
pub open spec fn first_widest(c: Seq<CoverImage>) -> int
    decreases c.len(),
{
    if c.len() <= 1 {
        0
    } else {
        let k = first_widest(c.drop_last());
        if c.last().width > c[k].width {
            c.len() - 1
        } else {
            k
        }
    }
}

/// The cover that `first_widest` picks is as wide as any other, and wider
/// than every cover before it.
pub proof fn lemma_first_widest(c: Seq<CoverImage>)
    requires
        c.len() > 0,
    ensures
        0 <= first_widest(c) < c.len(),
        forall|j: int| 0 <= j < c.len() ==> (#[trigger] c[j]).width <= c[first_widest(c)].width,
        forall|j: int| 0 <= j < first_widest(c) ==> (#[trigger] c[j]).width < c[first_widest(c)].width,
    decreases c.len(),
{
    if c.len() > 1 {
        let d = c.drop_last();
        lemma_first_widest(d);
        assert forall|j: int| 0 <= j < d.len() implies #[trigger] c[j] == d[j] by {}
    }
}

/// The variables that describe an audio item.
pub open spec fn item_env(item: AudioItem) -> Map<EnvKey, Seq<char>> {
    let m = map![
        EnvKey::TrackId => track_id_text(item.track_id.id),
        EnvKey::TrackName => item.name@,
        EnvKey::TrackDuration => decimal_text(item.duration_ms as nat)
    ];
    if item.covers@.len() > 0 {
        m.insert(EnvKey::TrackCover, item.covers@[first_widest(item.covers@)].url@)
    } else {
        m
    }
}

/// The variables that describe an event.
pub open spec fn event_env(e: PlayerEvent) -> Map<EnvKey, Seq<char>> {
    match e {
        PlayerEvent::PlayRequestIdChanged { play_request_id } => map![EnvKey::PlayerEvent => "playrequestid_changed"@, EnvKey::PlayRequestId => decimal_text(play_request_id as nat)],
        PlayerEvent::Stopped { play_request_id, track_id } => map![EnvKey::PlayerEvent => "stop"@, EnvKey::TrackId => track_id_text(track_id.id), EnvKey::PlayRequestId => decimal_text(play_request_id as nat)],
        PlayerEvent::Loading { play_request_id, track_id, position_ms } => map![EnvKey::PlayerEvent => "load"@, EnvKey::TrackId => track_id_text(track_id.id), EnvKey::PlayRequestId => decimal_text(play_request_id as nat), EnvKey::PositionMs => decimal_text(position_ms as nat)],
        PlayerEvent::Preloading { track_id } => map![EnvKey::PlayerEvent => "preloading"@, EnvKey::TrackId => track_id_text(track_id.id)],
        PlayerEvent::Playing { play_request_id, track_id, position_ms } => map![EnvKey::PlayerEvent => "start"@, EnvKey::TrackId => track_id_text(track_id.id), EnvKey::PlayRequestId => decimal_text(play_request_id as nat), EnvKey::PositionMs => decimal_text(position_ms as nat)],
        PlayerEvent::Paused { play_request_id, track_id, position_ms } => map![EnvKey::PlayerEvent => "pause"@, EnvKey::TrackId => track_id_text(track_id.id), EnvKey::PlayRequestId => decimal_text(play_request_id as nat), EnvKey::PositionMs => decimal_text(position_ms as nat)],
        PlayerEvent::TimeToPreloadNextTrack { play_request_id, track_id } => map![EnvKey::PlayerEvent => "preload"@, EnvKey::TrackId => track_id_text(track_id.id), EnvKey::PlayRequestId => decimal_text(play_request_id as nat)],
        PlayerEvent::EndOfTrack { play_request_id, track_id } => map![EnvKey::PlayerEvent => "endoftrack"@, EnvKey::TrackId => track_id_text(track_id.id), EnvKey::PlayRequestId => decimal_text(play_request_id as nat)],
        PlayerEvent::Unavailable { play_request_id, track_id } => map![EnvKey::PlayerEvent => "unavailable"@, EnvKey::TrackId => track_id_text(track_id.id), EnvKey::PlayRequestId => decimal_text(play_request_id as nat)],
        PlayerEvent::VolumeChanged { volume } => map![EnvKey::PlayerEvent => "volumeset"@, EnvKey::Volume => decimal_text(volume as nat)],
        PlayerEvent::PositionCorrection { play_request_id, track_id, position_ms } => map![EnvKey::PlayerEvent => "positioncorrection"@, EnvKey::TrackId => track_id_text(track_id.id), EnvKey::PlayRequestId => decimal_text(play_request_id as nat), EnvKey::PositionMs => decimal_text(position_ms as nat)],
        PlayerEvent::Seeked { play_request_id, track_id, position_ms } => map![EnvKey::PlayerEvent => "seeked"@, EnvKey::TrackId => track_id_text(track_id.id), EnvKey::PlayRequestId => decimal_text(play_request_id as nat), EnvKey::PositionMs => decimal_text(position_ms as nat)],
        PlayerEvent::TrackChanged { audio_item } => item_env(audio_item).insert(EnvKey::PlayerEvent, "change"@),
        PlayerEvent::SessionConnected { connection_id, user_name } => map![EnvKey::PlayerEvent => "sessionconnected"@, EnvKey::ConnectionId => connection_id@, EnvKey::Username => user_name@],
        PlayerEvent::SessionDisconnected { connection_id, user_name } => map![EnvKey::PlayerEvent => "sessiondisconnected"@, EnvKey::ConnectionId => connection_id@, EnvKey::Username => user_name@],
        PlayerEvent::SessionClientChanged { client_id, client_name, client_brand_name, client_model_name } => map![EnvKey::PlayerEvent => "clientchanged"@, EnvKey::ClientId => client_id@, EnvKey::ClientName => client_name@, EnvKey::ClientBrand => client_brand_name@, EnvKey::ClientModel => client_model_name@],
        PlayerEvent::ShuffleChanged { shuffle } => map![EnvKey::PlayerEvent => "shuffle_changed"@, EnvKey::Shuffle => bool_text(shuffle)],
        PlayerEvent::RepeatChanged { repeat } => map![EnvKey::PlayerEvent => "repeat_changed"@, EnvKey::Repeat => repeat_text(repeat)],
        PlayerEvent::AutoPlayChanged { auto_play } => map![EnvKey::PlayerEvent => "autoplay_changed"@, EnvKey::Autoplay => bool_text(auto_play)],
        PlayerEvent::FilterExplicitContentChanged { filter } => map![EnvKey::PlayerEvent => "filterexplicit_changed"@, EnvKey::FilterExplicit => bool_text(filter)],
    }
}

/// The token that names the kind of an event.
pub open spec fn event_token(e: PlayerEvent) -> Seq<char> {
    match e {
        PlayerEvent::PlayRequestIdChanged { .. } => "playrequestid_changed"@,
        PlayerEvent::Stopped { .. } => "stop"@,
        PlayerEvent::Loading { .. } => "load"@,
        PlayerEvent::Preloading { .. } => "preloading"@,
        PlayerEvent::Playing { .. } => "start"@,
        PlayerEvent::Paused { .. } => "pause"@,
        PlayerEvent::TimeToPreloadNextTrack { .. } => "preload"@,
        PlayerEvent::EndOfTrack { .. } => "endoftrack"@,
        PlayerEvent::Unavailable { .. } => "unavailable"@,
        PlayerEvent::VolumeChanged { .. } => "volumeset"@,
        PlayerEvent::PositionCorrection { .. } => "positioncorrection"@,
        PlayerEvent::Seeked { .. } => "seeked"@,
        PlayerEvent::TrackChanged { .. } => "change"@,
        PlayerEvent::SessionConnected { .. } => "sessionconnected"@,
        PlayerEvent::SessionDisconnected { .. } => "sessiondisconnected"@,
        PlayerEvent::SessionClientChanged { .. } => "clientchanged"@,
        PlayerEvent::ShuffleChanged { .. } => "shuffle_changed"@,
        PlayerEvent::RepeatChanged { .. } => "repeat_changed"@,
        PlayerEvent::AutoPlayChanged { .. } => "autoplay_changed"@,
        PlayerEvent::FilterExplicitContentChanged { .. } => "filterexplicit_changed"@,
    }
}

/// The variables that an event sets.
pub open spec fn event_keys(e: PlayerEvent) -> Set<EnvKey> {
    match e {
        PlayerEvent::PlayRequestIdChanged { .. } => set![EnvKey::PlayerEvent, EnvKey::PlayRequestId],
        PlayerEvent::Stopped { .. } => set![EnvKey::PlayerEvent, EnvKey::TrackId, EnvKey::PlayRequestId],
        PlayerEvent::Loading { .. } => set![EnvKey::PlayerEvent, EnvKey::TrackId, EnvKey::PlayRequestId, EnvKey::PositionMs],
        PlayerEvent::Preloading { .. } => set![EnvKey::PlayerEvent, EnvKey::TrackId],
        PlayerEvent::Playing { .. } => set![EnvKey::PlayerEvent, EnvKey::TrackId, EnvKey::PlayRequestId, EnvKey::PositionMs],
        PlayerEvent::Paused { .. } => set![EnvKey::PlayerEvent, EnvKey::TrackId, EnvKey::PlayRequestId, EnvKey::PositionMs],
        PlayerEvent::TimeToPreloadNextTrack { .. } => set![EnvKey::PlayerEvent, EnvKey::TrackId, EnvKey::PlayRequestId],
        PlayerEvent::EndOfTrack { .. } => set![EnvKey::PlayerEvent, EnvKey::TrackId, EnvKey::PlayRequestId],
        PlayerEvent::Unavailable { .. } => set![EnvKey::PlayerEvent, EnvKey::TrackId, EnvKey::PlayRequestId],
        PlayerEvent::VolumeChanged { .. } => set![EnvKey::PlayerEvent, EnvKey::Volume],
        PlayerEvent::PositionCorrection { .. } => set![EnvKey::PlayerEvent, EnvKey::TrackId, EnvKey::PlayRequestId, EnvKey::PositionMs],
        PlayerEvent::Seeked { .. } => set![EnvKey::PlayerEvent, EnvKey::TrackId, EnvKey::PlayRequestId, EnvKey::PositionMs],
        PlayerEvent::TrackChanged { audio_item } => {
            let keys = set![EnvKey::PlayerEvent, EnvKey::TrackId, EnvKey::TrackName, EnvKey::TrackDuration];
            if audio_item.covers@.len() > 0 {
                keys.insert(EnvKey::TrackCover)
            } else {
                keys
            }
        },
        PlayerEvent::SessionConnected { .. } => set![EnvKey::PlayerEvent, EnvKey::ConnectionId, EnvKey::Username],
        PlayerEvent::SessionDisconnected { .. } => set![EnvKey::PlayerEvent, EnvKey::ConnectionId, EnvKey::Username],
        PlayerEvent::SessionClientChanged { .. } => set![EnvKey::PlayerEvent, EnvKey::ClientId, EnvKey::ClientName, EnvKey::ClientBrand, EnvKey::ClientModel],
        PlayerEvent::ShuffleChanged { .. } => set![EnvKey::PlayerEvent, EnvKey::Shuffle],
        PlayerEvent::RepeatChanged { .. } => set![EnvKey::PlayerEvent, EnvKey::Repeat],
        PlayerEvent::AutoPlayChanged { .. } => set![EnvKey::PlayerEvent, EnvKey::Autoplay],
        PlayerEvent::FilterExplicitContentChanged { .. } => set![EnvKey::PlayerEvent, EnvKey::FilterExplicit],
    }
}

/// Every event sets `PLAYER_EVENT` to the token of its kind, and sets exactly
/// the variables listed for that kind; a track change sets `TRACK_COVER` only
/// when the item has a cover.
pub proof fn lemma_event_env_shape(e: PlayerEvent)
    ensures
        event_env(e).dom().contains(EnvKey::PlayerEvent),
        event_env(e)[EnvKey::PlayerEvent] == event_token(e),
        event_env(e).dom() == event_keys(e),
{
    assert(event_env(e).dom() =~= event_keys(e));
}

/// A track change whose item has no cover sets no `TRACK_COVER`.
pub proof fn lemma_no_cover_no_variable(item: AudioItem)
    requires
        item.covers@.len() == 0,
    ensures
        !event_env(PlayerEvent::TrackChanged { audio_item: item }).dom().contains(EnvKey::TrackCover),
{
}

/// Encoding the same event twice gives equal variables, name for name and
/// value for value.
pub proof fn lemma_encode_deterministic(e: PlayerEvent, first: EnvMap, second: EnvMap)
    requires
        first@ == event_env(e),
        second@ == event_env(e),
    ensures
        first@ == second@,
        forall|k: EnvKey| #[trigger] first@.dom().contains(k) <==> second@.dom().contains(k),
        forall|k: EnvKey| #[trigger] first@.dom().contains(k) ==> first@[k] == second@[k],
{
}

fn bool_string(b: bool) -> (r: String)
    ensures
        r@ == bool_text(b),
{
    if b {
        String::from_str("true")
    } else {
        String::from_str("false")
    }
}

fn repeat_string(b: bool) -> (r: String)
    ensures
        r@ == repeat_text(b),
{
    if b {
        String::from_str("all")
    } else {
        String::from_str("none")
    }
}

fn insert_track_id(env: &mut EnvMap, track_id: TrackId)
    requires
        old(env).wf(),
    ensures
        final(env).wf(),
        final(env)@ == old(env)@.insert(EnvKey::TrackId, track_id_text(track_id.id)),
{
    match track_id_base62(track_id.id) {
        Some(text) => env.insert(EnvKey::TrackId, text),
        // An identifier without a text leaves the variable unset.
        None => {},
    }
}

/// The index of the widest cover, the first among equally wide ones; `None`
/// when there is no cover.
pub fn widest_cover(covers: &Vec<CoverImage>) -> (r: Option<usize>)
    ensures
        r.is_none() == (covers@.len() == 0),
        r.is_some() ==> r.unwrap() < covers@.len() && r.unwrap() as int == first_widest(covers@),
{
    if covers.len() == 0 {
        return None;
    }
    let mut best: usize = 0;
    let mut i: usize = 1;
    while i < covers.len()
        invariant
            1 <= i <= covers@.len(),
            best < i,
            best as int == first_widest(covers@.subrange(0, i as int)),
        decreases covers@.len() - i,
    {
        proof {
            let s = covers@.subrange(0, i as int + 1);
            assert(s.drop_last() =~= covers@.subrange(0, i as int));
        }
        if covers[i].width > covers[best].width {
            best = i;
        }
        i = i + 1;
    }
    assert(covers@.subrange(0, i as int) =~= covers@);
    Some(best)
}

fn insert_audio_item(env: &mut EnvMap, item: AudioItem)
    requires
        old(env).wf(),
    ensures
        final(env).wf(),
        final(env)@ == old(env)@.union_prefer_right(item_env(item)),
{
    let ghost m0 = env@;
    let ghost it = item;
    insert_track_id(env, item.track_id);
    env.insert(EnvKey::TrackName, item.name);
    env.insert(EnvKey::TrackDuration, decimal_string(item.duration_ms as u64));
    match widest_cover(&item.covers) {
        Some(i) => {
            let mut covers = item.covers;
            let cover = covers.swap_remove(i);
            env.insert(EnvKey::TrackCover, cover.url);
        },
        None => {},
    }
    assert(env@ =~= m0.union_prefer_right(item_env(it)));
}

/// The environment variables that describe `event` to the invoked command.
pub fn encode(event: PlayerEvent) -> (r: EnvMap)
    ensures
        r.wf(),
        r@ == event_env(event),
{
    let ghost e = event;
    let mut env = EnvMap::new();
    match event {
            PlayerEvent::PlayRequestIdChanged { play_request_id } => {
                env.insert(EnvKey::PlayerEvent, String::from_str("playrequestid_changed"));
                env.insert(EnvKey::PlayRequestId, decimal_string(play_request_id as u64));
            },
            PlayerEvent::Stopped { play_request_id, track_id } => {
                env.insert(EnvKey::PlayerEvent, String::from_str("stop"));
                insert_track_id(&mut env, track_id);
                env.insert(EnvKey::PlayRequestId, decimal_string(play_request_id as u64));
            },
            PlayerEvent::Loading { play_request_id, track_id, position_ms } => {
                env.insert(EnvKey::PlayerEvent, String::from_str("load"));
                insert_track_id(&mut env, track_id);
                env.insert(EnvKey::PlayRequestId, decimal_string(play_request_id as u64));
                env.insert(EnvKey::PositionMs, decimal_string(position_ms as u64));
            },
            PlayerEvent::Preloading { track_id } => {
                env.insert(EnvKey::PlayerEvent, String::from_str("preloading"));
                insert_track_id(&mut env, track_id);
            },
            PlayerEvent::Playing { play_request_id, track_id, position_ms } => {
                env.insert(EnvKey::PlayerEvent, String::from_str("start"));
                insert_track_id(&mut env, track_id);
                env.insert(EnvKey::PlayRequestId, decimal_string(play_request_id as u64));
                env.insert(EnvKey::PositionMs, decimal_string(position_ms as u64));
            },
            PlayerEvent::Paused { play_request_id, track_id, position_ms } => {
                env.insert(EnvKey::PlayerEvent, String::from_str("pause"));
                insert_track_id(&mut env, track_id);
                env.insert(EnvKey::PlayRequestId, decimal_string(play_request_id as u64));
                env.insert(EnvKey::PositionMs, decimal_string(position_ms as u64));
            },
            PlayerEvent::TimeToPreloadNextTrack { play_request_id, track_id } => {
                env.insert(EnvKey::PlayerEvent, String::from_str("preload"));
                insert_track_id(&mut env, track_id);
                env.insert(EnvKey::PlayRequestId, decimal_string(play_request_id as u64));
            },
            PlayerEvent::EndOfTrack { play_request_id, track_id } => {
                env.insert(EnvKey::PlayerEvent, String::from_str("endoftrack"));
                insert_track_id(&mut env, track_id);
                env.insert(EnvKey::PlayRequestId, decimal_string(play_request_id as u64));
            },
            PlayerEvent::Unavailable { play_request_id, track_id } => {
                env.insert(EnvKey::PlayerEvent, String::from_str("unavailable"));
                insert_track_id(&mut env, track_id);
                env.insert(EnvKey::PlayRequestId, decimal_string(play_request_id as u64));
            },
            PlayerEvent::VolumeChanged { volume } => {
                env.insert(EnvKey::PlayerEvent, String::from_str("volumeset"));
                env.insert(EnvKey::Volume, decimal_string(volume as u64));
            },
            PlayerEvent::PositionCorrection { play_request_id, track_id, position_ms } => {
                env.insert(EnvKey::PlayerEvent, String::from_str("positioncorrection"));
                insert_track_id(&mut env, track_id);
                env.insert(EnvKey::PlayRequestId, decimal_string(play_request_id as u64));
                env.insert(EnvKey::PositionMs, decimal_string(position_ms as u64));
            },
            PlayerEvent::Seeked { play_request_id, track_id, position_ms } => {
                env.insert(EnvKey::PlayerEvent, String::from_str("seeked"));
                insert_track_id(&mut env, track_id);
                env.insert(EnvKey::PlayRequestId, decimal_string(play_request_id as u64));
                env.insert(EnvKey::PositionMs, decimal_string(position_ms as u64));
            },
            PlayerEvent::TrackChanged { audio_item } => {
                insert_audio_item(&mut env, audio_item);
                env.insert(EnvKey::PlayerEvent, String::from_str("change"));
            },
            PlayerEvent::SessionConnected { connection_id, user_name } => {
                env.insert(EnvKey::PlayerEvent, String::from_str("sessionconnected"));
                env.insert(EnvKey::ConnectionId, connection_id);
                env.insert(EnvKey::Username, user_name);
            },
            PlayerEvent::SessionDisconnected { connection_id, user_name } => {
                env.insert(EnvKey::PlayerEvent, String::from_str("sessiondisconnected"));
                env.insert(EnvKey::ConnectionId, connection_id);
                env.insert(EnvKey::Username, user_name);
            },
            PlayerEvent::SessionClientChanged { client_id, client_name, client_brand_name, client_model_name } => {
                env.insert(EnvKey::PlayerEvent, String::from_str("clientchanged"));
                env.insert(EnvKey::ClientId, client_id);
                env.insert(EnvKey::ClientName, client_name);
                env.insert(EnvKey::ClientBrand, client_brand_name);
                env.insert(EnvKey::ClientModel, client_model_name);
            },
            PlayerEvent::ShuffleChanged { shuffle } => {
                env.insert(EnvKey::PlayerEvent, String::from_str("shuffle_changed"));
                env.insert(EnvKey::Shuffle, bool_string(shuffle));
            },
            PlayerEvent::RepeatChanged { repeat } => {
                env.insert(EnvKey::PlayerEvent, String::from_str("repeat_changed"));
                env.insert(EnvKey::Repeat, repeat_string(repeat));
            },
            PlayerEvent::AutoPlayChanged { auto_play } => {
                env.insert(EnvKey::PlayerEvent, String::from_str("autoplay_changed"));
                env.insert(EnvKey::Autoplay, bool_string(auto_play));
            },
            PlayerEvent::FilterExplicitContentChanged { filter } => {
                env.insert(EnvKey::PlayerEvent, String::from_str("filterexplicit_changed"));
                env.insert(EnvKey::FilterExplicit, bool_string(filter));
            },
    }
    assert(env@ =~= event_env(e));
    env
}

} // verus!
