use spotifyd::env::{EnvKey, EnvMap};
use spotifyd::event::{encode, widest_cover, AudioItem, CoverImage, PlayerEvent, TrackId};

const TRACK: u128 = 238762092608182713602505436543891614649;
const TRACK_TEXT: &str = "5sWHDYs0csV6RS48xBl0tH";

fn track() -> TrackId {
    TrackId { id: TRACK }
}

fn value(env: &EnvMap, key: EnvKey) -> Option<String> {
    env.get(key).cloned()
}

fn names(env: &EnvMap) -> Vec<&'static str> {
    let mut v: Vec<&'static str> = env.entries().iter().map(|(k, _)| k.name()).collect();
    v.sort();
    v
}

fn sorted(mut v: Vec<&'static str>) -> Vec<&'static str> {
    v.sort();
    v
}

fn cover(url: &str, width: i32) -> CoverImage {
    CoverImage { url: url.to_string(), width }
}

fn item(covers: Vec<CoverImage>) -> AudioItem {
    AudioItem { track_id: track(), name: "Song".to_string(), duration_ms: 215000, covers }
}

#[test]
fn play_request_id_changed_sets_token_and_id() {
    let env = encode(PlayerEvent::PlayRequestIdChanged { play_request_id: 12345 });
    assert_eq!(value(&env, EnvKey::PlayerEvent).as_deref(), Some("playrequestid_changed"));
    assert_eq!(value(&env, EnvKey::PlayRequestId).as_deref(), Some("12345"));
    assert_eq!(names(&env), sorted(vec!["PLAYER_EVENT", "PLAY_REQUEST_ID"]));
}

#[test]
fn stopped_sets_track_and_request() {
    let env = encode(PlayerEvent::Stopped { play_request_id: 7, track_id: track() });
    assert_eq!(value(&env, EnvKey::PlayerEvent).as_deref(), Some("stop"));
    assert_eq!(value(&env, EnvKey::TrackId).as_deref(), Some(TRACK_TEXT));
    assert_eq!(value(&env, EnvKey::PlayRequestId).as_deref(), Some("7"));
    assert_eq!(names(&env), sorted(vec!["PLAYER_EVENT", "TRACK_ID", "PLAY_REQUEST_ID"]));
}

#[test]
fn position_events_set_position() {
    let cases: Vec<(PlayerEvent, &str)> = vec![
        (PlayerEvent::Loading { play_request_id: 1, track_id: track(), position_ms: 0 }, "load"),
        (PlayerEvent::Playing { play_request_id: 1, track_id: track(), position_ms: 0 }, "start"),
        (PlayerEvent::Paused { play_request_id: 1, track_id: track(), position_ms: 0 }, "pause"),
        (PlayerEvent::PositionCorrection { play_request_id: 1, track_id: track(), position_ms: 0 }, "positioncorrection"),
        (PlayerEvent::Seeked { play_request_id: 1, track_id: track(), position_ms: 0 }, "seeked"),
    ];
    for (event, token) in cases {
        let env = encode(event);
        assert_eq!(value(&env, EnvKey::PlayerEvent).as_deref(), Some(token));
        assert_eq!(value(&env, EnvKey::PositionMs).as_deref(), Some("0"));
        assert_eq!(value(&env, EnvKey::TrackId).as_deref(), Some(TRACK_TEXT));
        assert_eq!(value(&env, EnvKey::PlayRequestId).as_deref(), Some("1"));
        assert_eq!(names(&env), sorted(vec!["PLAYER_EVENT", "TRACK_ID", "PLAY_REQUEST_ID", "POSITION_MS"]));
    }
}

#[test]
fn large_position_is_decimal() {
    let env = encode(PlayerEvent::Seeked { play_request_id: u64::MAX, track_id: track(), position_ms: u32::MAX });
    assert_eq!(value(&env, EnvKey::PositionMs).as_deref(), Some("4294967295"));
    assert_eq!(value(&env, EnvKey::PlayRequestId).as_deref(), Some("18446744073709551615"));
}

#[test]
fn track_events_without_position() {
    let cases: Vec<(PlayerEvent, &str)> = vec![
        (PlayerEvent::TimeToPreloadNextTrack { play_request_id: 2, track_id: track() }, "preload"),
        (PlayerEvent::EndOfTrack { play_request_id: 2, track_id: track() }, "endoftrack"),
        (PlayerEvent::Unavailable { play_request_id: 2, track_id: track() }, "unavailable"),
    ];
    for (event, token) in cases {
        let env = encode(event);
        assert_eq!(value(&env, EnvKey::PlayerEvent).as_deref(), Some(token));
        assert_eq!(names(&env), sorted(vec!["PLAYER_EVENT", "TRACK_ID", "PLAY_REQUEST_ID"]));
    }
}

#[test]
fn preloading_sets_only_track() {
    let env = encode(PlayerEvent::Preloading { track_id: track() });
    assert_eq!(value(&env, EnvKey::PlayerEvent).as_deref(), Some("preloading"));
    assert_eq!(value(&env, EnvKey::TrackId).as_deref(), Some(TRACK_TEXT));
    assert_eq!(names(&env), sorted(vec!["PLAYER_EVENT", "TRACK_ID"]));
}

#[test]
fn zero_track_id_is_padded() {
    let env = encode(PlayerEvent::Preloading { track_id: TrackId { id: 0 } });
    assert_eq!(value(&env, EnvKey::TrackId).as_deref(), Some("0000000000000000000000"));
}

#[test]
fn volume_changed_sets_volume() {
    let env = encode(PlayerEvent::VolumeChanged { volume: 65535 });
    assert_eq!(value(&env, EnvKey::PlayerEvent).as_deref(), Some("volumeset"));
    assert_eq!(value(&env, EnvKey::Volume).as_deref(), Some("65535"));
    assert_eq!(names(&env), sorted(vec!["PLAYER_EVENT", "VOLUME"]));
}

#[test]
fn track_changed_sets_item_fields() {
    let env = encode(PlayerEvent::TrackChanged { audio_item: item(vec![cover("http://a/1", 64)]) });
    assert_eq!(value(&env, EnvKey::PlayerEvent).as_deref(), Some("change"));
    assert_eq!(value(&env, EnvKey::TrackId).as_deref(), Some(TRACK_TEXT));
    assert_eq!(value(&env, EnvKey::TrackName).as_deref(), Some("Song"));
    assert_eq!(value(&env, EnvKey::TrackDuration).as_deref(), Some("215000"));
    assert_eq!(value(&env, EnvKey::TrackCover).as_deref(), Some("http://a/1"));
    assert_eq!(
        names(&env),
        sorted(vec!["PLAYER_EVENT", "TRACK_ID", "TRACK_NAME", "TRACK_DURATION", "TRACK_COVER"])
    );
}

#[test]
fn track_changed_picks_widest_cover() {
    let covers = vec![cover("http://a/100", 100), cover("http://a/400", 400), cover("http://a/250", 250)];
    let env = encode(PlayerEvent::TrackChanged { audio_item: item(covers) });
    assert_eq!(value(&env, EnvKey::TrackCover).as_deref(), Some("http://a/400"));
}

#[test]
fn track_changed_without_covers_has_no_cover() {
    let env = encode(PlayerEvent::TrackChanged { audio_item: item(vec![]) });
    assert_eq!(value(&env, EnvKey::TrackCover), None);
    assert_eq!(names(&env), sorted(vec!["PLAYER_EVENT", "TRACK_ID", "TRACK_NAME", "TRACK_DURATION"]));
}

#[test]
fn widest_cover_takes_first_of_equals() {
    let covers = vec![cover("a", 300), cover("b", 500), cover("c", 500)];
    assert_eq!(widest_cover(&covers), Some(1));
    assert_eq!(widest_cover(&vec![]), None);
    let env = encode(PlayerEvent::TrackChanged { audio_item: item(covers) });
    assert_eq!(value(&env, EnvKey::TrackCover).as_deref(), Some("b"));
}

#[test]
fn session_events_set_connection_and_user() {
    let env = encode(PlayerEvent::SessionConnected { connection_id: "c1".to_string(), user_name: "alice".to_string() });
    assert_eq!(value(&env, EnvKey::PlayerEvent).as_deref(), Some("sessionconnected"));
    assert_eq!(value(&env, EnvKey::ConnectionId).as_deref(), Some("c1"));
    assert_eq!(value(&env, EnvKey::Username).as_deref(), Some("alice"));
    assert_eq!(names(&env), sorted(vec!["PLAYER_EVENT", "CONNECTION_ID", "USERNAME"]));
    let env = encode(PlayerEvent::SessionDisconnected { connection_id: "c2".to_string(), user_name: "bob".to_string() });
    assert_eq!(value(&env, EnvKey::PlayerEvent).as_deref(), Some("sessiondisconnected"));
    assert_eq!(value(&env, EnvKey::ConnectionId).as_deref(), Some("c2"));
    assert_eq!(value(&env, EnvKey::Username).as_deref(), Some("bob"));
}

#[test]
fn client_changed_sets_client_fields() {
    let env = encode(PlayerEvent::SessionClientChanged {
        client_id: "id".to_string(),
        client_name: "name".to_string(),
        client_brand_name: "brand".to_string(),
        client_model_name: "model".to_string(),
    });
    assert_eq!(value(&env, EnvKey::PlayerEvent).as_deref(), Some("clientchanged"));
    assert_eq!(value(&env, EnvKey::ClientId).as_deref(), Some("id"));
    assert_eq!(value(&env, EnvKey::ClientName).as_deref(), Some("name"));
    assert_eq!(value(&env, EnvKey::ClientBrand).as_deref(), Some("brand"));
    assert_eq!(value(&env, EnvKey::ClientModel).as_deref(), Some("model"));
    assert_eq!(names(&env), sorted(vec!["PLAYER_EVENT", "CLIENT_ID", "CLIENT_NAME", "CLIENT_BRAND", "CLIENT_MODEL"]));
}

#[test]
fn boolean_settings_are_true_or_false() {
    let env = encode(PlayerEvent::ShuffleChanged { shuffle: true });
    assert_eq!(value(&env, EnvKey::PlayerEvent).as_deref(), Some("shuffle_changed"));
    assert_eq!(value(&env, EnvKey::Shuffle).as_deref(), Some("true"));
    assert_eq!(names(&env), sorted(vec!["PLAYER_EVENT", "SHUFFLE"]));
    let env = encode(PlayerEvent::AutoPlayChanged { auto_play: false });
    assert_eq!(value(&env, EnvKey::PlayerEvent).as_deref(), Some("autoplay_changed"));
    assert_eq!(value(&env, EnvKey::Autoplay).as_deref(), Some("false"));
    assert_eq!(names(&env), sorted(vec!["PLAYER_EVENT", "AUTOPLAY"]));
    let env = encode(PlayerEvent::FilterExplicitContentChanged { filter: true });
    assert_eq!(value(&env, EnvKey::PlayerEvent).as_deref(), Some("filterexplicit_changed"));
    assert_eq!(value(&env, EnvKey::FilterExplicit).as_deref(), Some("true"));
    assert_eq!(names(&env), sorted(vec!["PLAYER_EVENT", "FILTEREXPLICIT"]));
}

#[test]
fn repeat_is_all_or_none() {
    let env = encode(PlayerEvent::RepeatChanged { repeat: true });
    assert_eq!(value(&env, EnvKey::PlayerEvent).as_deref(), Some("repeat_changed"));
    assert_eq!(value(&env, EnvKey::Repeat).as_deref(), Some("all"));
    let env = encode(PlayerEvent::RepeatChanged { repeat: false });
    assert_eq!(value(&env, EnvKey::Repeat).as_deref(), Some("none"));
    assert_eq!(names(&env), sorted(vec!["PLAYER_EVENT", "REPEAT"]));
}

#[test]
fn encoding_twice_gives_equal_maps() {
    let event = PlayerEvent::TrackChanged { audio_item: item(vec![cover("x", 10), cover("y", 20)]) };
    let first = encode(event.clone());
    let second = encode(event);
    assert_eq!(first.entries(), second.entries());
}

#[test]
fn insert_replaces_earlier_value() {
    let mut env = EnvMap::new();
    assert!(env.entries().is_empty());
    env.insert(EnvKey::Volume, "1".to_string());
    env.insert(EnvKey::Volume, "2".to_string());
    assert_eq!(env.entries(), vec![(EnvKey::Volume, "2".to_string())]);
}

#[test]
fn key_names_round_trip_through_slots() {
    let k = EnvKey::at(EnvKey::FilterExplicit.index());
    assert_eq!(k, EnvKey::FilterExplicit);
    assert_eq!(k.name(), "FILTEREXPLICIT");
}
