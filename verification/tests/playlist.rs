use radio_server::error::AppError;
use radio_server::models::Track;
use radio_server::playlist::{display_name, Playlist, PlaylistItem, PlaylistService};

fn queued(id: i32, title: &str) -> PlaylistItem {
    PlaylistItem {
        id,
        song_id: id * 10,
        owner_id: -id,
        artist: "Artist".to_string(),
        title: title.to_string(),
        duration_sec: 180,
        download_url: format!("https://audio.example/{}", id),
    }
}

#[test]
fn queue_is_first_in_first_out() {
    let mut queue = Playlist::new();
    assert!(queue.is_empty());
    queue.push(queued(1, "A"));
    queue.push(queued(2, "B"));
    assert_eq!(queue.len(), 2);
    assert_eq!(queue.try_pop(), Some(queued(1, "A")));
    assert_eq!(queue.try_pop(), Some(queued(2, "B")));
    assert_eq!(queue.try_pop(), None);
    assert!(queue.is_empty());
}

#[test]
fn push_does_not_disturb_the_front() {
    let mut queue = Playlist::new();
    queue.push(queued(1, "A"));
    queue.push(queued(2, "B"));
    assert_eq!(queue.try_pop(), Some(queued(1, "A")));
    queue.push(queued(3, "C"));
    assert_eq!(queue.try_pop(), Some(queued(2, "B")));
    assert_eq!(queue.try_pop(), Some(queued(3, "C")));
    assert_eq!(queue.try_pop(), None);
}

#[test]
fn service_adds_to_what_the_store_holds() {
    let service = PlaylistService::new();
    let first = service.add_new_track(None, queued(1, "A"));
    assert_eq!(first.items, vec![queued(1, "A")]);
    let second = service.add_new_track(Some(first), queued(2, "B"));
    assert_eq!(second.items, vec![queued(1, "A"), queued(2, "B")]);
}

#[test]
fn service_pops_the_front_and_returns_the_rest() {
    let service = PlaylistService::new();
    let stored = Playlist { items: vec![queued(1, "A"), queued(2, "B")] };
    let (front, rest) = service.pop_track(Some(stored)).expect("queue is not empty");
    assert_eq!(front, queued(1, "A"));
    assert_eq!(rest.items, vec![queued(2, "B")]);
    let (front, rest) = service.pop_track(Some(rest)).expect("queue is not empty");
    assert_eq!(front, queued(2, "B"));
    assert!(rest.items.is_empty());
}

#[test]
fn service_reports_an_empty_queue_as_not_found() {
    let service = PlaylistService::new();
    let expected = AppError::NotFound("Playlist is empty".to_string(), None);
    assert_eq!(service.pop_track(None), Err(expected));
    let expected = AppError::NotFound("Playlist is empty".to_string(), None);
    assert_eq!(service.pop_track(Some(Playlist::new())), Err(expected));
}

#[test]
fn service_reads_a_missing_queue_as_empty() {
    let service = PlaylistService::new();
    assert!(service.get_playlist(None).items.is_empty());
    let stored = Playlist { items: vec![queued(7, "G")] };
    assert_eq!(service.get_playlist(Some(stored)).items, vec![queued(7, "G")]);
}

#[test]
fn playlist_clone_is_equal() {
    let stored = Playlist { items: vec![queued(1, "A"), queued(2, "B")] };
    assert_eq!(stored.clone(), stored);
    assert_eq!(queued(3, "C").clone(), queued(3, "C"));
}

#[test]
fn display_name_joins_artist_and_title() {
    assert_eq!(display_name("Queen", "Bohemian Rhapsody"), "Queen - Bohemian Rhapsody");
    assert_eq!(display_name("", ""), " - ");
    assert_eq!(queued(1, "Song").display_name(), "Artist - Song");
}

#[test]
fn item_from_catalog_track() {
    let track = Track {
        id: 5,
        song_id: 50,
        owner_id: -7,
        download_url: "https://audio.example/x".to_string(),
        title: "Title".to_string(),
        artist: "Someone".to_string(),
        duration_sec: 200,
        likes_count: 3,
        listens_count: 9,
    };
    assert_eq!(track.clone(), track);
    let expected = PlaylistItem {
        id: 5,
        song_id: 50,
        owner_id: -7,
        artist: "Someone".to_string(),
        title: "Title".to_string(),
        duration_sec: 200,
        download_url: "https://audio.example/x".to_string(),
    };
    assert_eq!(PlaylistItem::from_track(track), expected);
}
