use radio_server::playlist::{Playlist, PlaylistItem};
use radio_server::radio::{CurrentTrackData, WebSocketMessage};
use radio_server::wire::{current_track_to_json, playlist_to_json, to_json};

fn listed(id: i32, title: &str) -> PlaylistItem {
    PlaylistItem {
        id,
        song_id: id * 10,
        owner_id: -id,
        artist: "Artist".to_string(),
        title: title.to_string(),
        duration_sec: 180,
        download_url: format!("https://audio.example/{}", id),
    }
}

#[test]
fn current_track_event() {
    let playing = CurrentTrackData { name: Some("Queen - Bohemian Rhapsody".to_string()) };
    assert_eq!(
        current_track_to_json(&playing),
        r#"{"type":"CurrentTrack","name":"Queen - Bohemian Rhapsody"}"#
    );
    let silent = CurrentTrackData { name: None };
    assert_eq!(current_track_to_json(&silent), r#"{"type":"CurrentTrack","name":null}"#);
    assert_eq!(
        to_json(&WebSocketMessage::CurrentTrack(silent)),
        r#"{"type":"CurrentTrack","name":null}"#
    );
}

#[test]
fn names_are_escaped() {
    let tricky = CurrentTrackData { name: Some("A \"quoted\" \\ name\n\ttab \u{1} é ☃".to_string()) };
    let json = current_track_to_json(&tricky);
    assert_eq!(
        json,
        "{\"type\":\"CurrentTrack\",\"name\":\"A \\\"quoted\\\" \\\\ name\\n\\ttab \\u0001 é ☃\"}"
    );
    let parsed: serde_json::Value = serde_json::from_str(&json).expect("valid JSON");
    assert_eq!(parsed["type"].as_str(), Some("CurrentTrack"));
    assert_eq!(parsed["name"].as_str(), tricky.name.as_deref());
}

#[test]
fn playlist_event() {
    let empty = Playlist { items: vec![] };
    assert_eq!(playlist_to_json(&empty), r#"{"type":"Playlist","items":[]}"#);
    let one = Playlist { items: vec![listed(1, "A")] };
    assert_eq!(
        playlist_to_json(&one),
        r#"{"type":"Playlist","items":[{"id":1,"song_id":10,"owner_id":-1,"artist":"Artist","title":"A","duration_sec":180,"download_url":"https://audio.example/1"}]}"#
    );
    let two = Playlist { items: vec![listed(1, "A"), listed(2, "B \"b\"")] };
    let json = to_json(&WebSocketMessage::Playlist(two));
    assert_eq!(
        json,
        r#"{"type":"Playlist","items":[{"id":1,"song_id":10,"owner_id":-1,"artist":"Artist","title":"A","duration_sec":180,"download_url":"https://audio.example/1"},{"id":2,"song_id":20,"owner_id":-2,"artist":"Artist","title":"B \"b\"","duration_sec":180,"download_url":"https://audio.example/2"}]}"#
    );
    let parsed: serde_json::Value = serde_json::from_str(&json).expect("valid JSON");
    assert_eq!(parsed["items"].as_array().map(|a| a.len()), Some(2));
    assert_eq!(parsed["items"][1]["title"].as_str(), Some("B \"b\""));
    assert_eq!(parsed["items"][1]["owner_id"].as_i64(), Some(-2));
}

#[test]
fn events_can_be_cloned() {
    let event = WebSocketMessage::Playlist(Playlist { items: vec![listed(3, "C")] });
    assert_eq!(event.clone(), event);
    let event = WebSocketMessage::CurrentTrack(CurrentTrackData { name: Some("x".to_string()) });
    assert_eq!(event.clone(), event);
}
