use radio_server::models::Track;
use radio_server::playlist::{Playlist, PlaylistItem};
use radio_server::radio::{
    Action, CurrentTrack, CurrentTrackData, Input, NextTrack, RadioState, Scheduler, Stage,
    StreamPlan, WebSocketMessage,
};

fn playable(id: i32, duration_sec: i32) -> PlaylistItem {
    PlaylistItem {
        id,
        song_id: id * 10,
        owner_id: -id,
        artist: format!("Artist {}", id),
        title: format!("Title {}", id),
        duration_sec,
        download_url: format!("https://audio.example/{}", id),
    }
}

fn track(id: i32, duration_sec: i32) -> Track {
    Track {
        id,
        song_id: id * 10,
        owner_id: -id,
        download_url: format!("https://audio.example/{}", id),
        title: format!("Title {}", id),
        artist: format!("Artist {}", id),
        duration_sec,
        likes_count: 0,
        listens_count: 0,
    }
}

fn streaming_auto(id: i32) -> Scheduler {
    let mut s = Scheduler::new();
    assert_eq!(s.step(Input::Wake), Action::PopQueue);
    assert_eq!(s.step(Input::QueueAnswer(None)), Action::PickRandom);
    assert_eq!(s.step(Input::CatalogAnswer(Some(track(id, 240)))), Action::Fetch { item: playable(id, 240) });
    let plan = StreamPlan { bytes_per_sec: 20_000, chunk_size: 2000, interruptible: true };
    assert_eq!(
        s.step(Input::FetchDone { file_size: Some(4_800_000), now: 77 }),
        Action::Stream { plan }
    );
    s
}

#[test]
fn a_new_scheduler_is_idle_with_nothing_on_air() {
    let s = Scheduler::new();
    assert_eq!(*s.stage(), Stage::Idle);
    assert_eq!(s.state().current_track, None);
    assert_eq!(s.state().current_name(), None);
}

#[test]
fn queued_track_goes_through_all_stages() {
    let mut s = Scheduler::new();
    assert_eq!(s.step(Input::Wake), Action::PopQueue);
    assert_eq!(*s.stage(), Stage::SelectNext { asked_catalog: false });

    assert_eq!(s.step(Input::QueueAnswer(Some(playable(1, 200)))), Action::Fetch { item: playable(1, 200) });
    assert_eq!(*s.stage(), Stage::Fetching(NextTrack::Queued(playable(1, 200))));
    assert_eq!(s.state().current_track, None);

    let plan = StreamPlan { bytes_per_sec: 15_000, chunk_size: 1500, interruptible: false };
    assert_eq!(
        s.step(Input::FetchDone { file_size: Some(3_000_000), now: 1234 }),
        Action::Stream { plan }
    );
    assert_eq!(*s.stage(), Stage::Streaming(NextTrack::Queued(playable(1, 200))));
    assert_eq!(
        s.state().current_track,
        Some(CurrentTrack { item: playable(1, 200), started_at: 1234, file_size: 3_000_000 })
    );
    assert_eq!(s.state().current_name(), Some("Artist 1 - Title 1".to_string()));

    assert_eq!(s.step(Input::StreamDone), Action::Announce);
    assert_eq!(*s.stage(), Stage::Finished);
    assert_eq!(s.state().current_track, None);

    assert_eq!(s.step(Input::Published), Action::PopQueue);
    assert_eq!(*s.stage(), Stage::SelectNext { asked_catalog: false });
}

#[test]
fn catalog_is_asked_only_when_the_queue_is_empty() {
    let s = streaming_auto(3);
    assert_eq!(*s.stage(), Stage::Streaming(NextTrack::Auto(playable(3, 240))));
    assert_eq!(
        s.state().current_track,
        Some(CurrentTrack { item: playable(3, 240), started_at: 77, file_size: 4_800_000 })
    );
}

#[test]
fn nothing_found_means_wait_two_seconds_and_try_again() {
    let mut s = Scheduler::new();
    s.step(Input::Wake);
    s.step(Input::QueueAnswer(None));
    assert_eq!(s.step(Input::CatalogAnswer(None)), Action::Sleep { millis: 2000 });
    assert_eq!(*s.stage(), Stage::Idle);
    assert_eq!(s.step(Input::Wake), Action::PopQueue);
}

#[test]
fn a_failed_fetch_skips_the_track() {
    let mut s = Scheduler::new();
    s.step(Input::Wake);
    s.step(Input::QueueAnswer(Some(playable(1, 200))));
    assert_eq!(s.step(Input::FetchDone { file_size: None, now: 5 }), Action::PopQueue);
    assert_eq!(*s.stage(), Stage::SelectNext { asked_catalog: false });
    assert_eq!(s.state().current_track, None);
}

#[test]
fn unknown_duration_uses_the_fallback_rate() {
    let mut s = Scheduler::new();
    s.step(Input::Wake);
    s.step(Input::QueueAnswer(Some(playable(1, 0))));
    let plan = StreamPlan { bytes_per_sec: 16_000, chunk_size: 1600, interruptible: false };
    assert_eq!(s.step(Input::FetchDone { file_size: Some(1000), now: 0 }), Action::Stream { plan });
}

#[test]
fn small_files_get_the_smallest_chunk() {
    let mut s = Scheduler::new();
    s.step(Input::Wake);
    s.step(Input::QueueAnswer(Some(playable(1, 240))));
    let plan = StreamPlan { bytes_per_sec: 0, chunk_size: 1024, interruptible: false };
    assert_eq!(s.step(Input::FetchDone { file_size: Some(100), now: 0 }), Action::Stream { plan });
}

#[test]
fn queue_change_interrupts_an_auto_track() {
    let mut s = streaming_auto(3);
    assert_eq!(s.step(Input::QueueChanged), Action::Announce);
    assert_eq!(*s.stage(), Stage::Finished);
    assert_eq!(s.state().current_track, None);
    assert_eq!(s.step(Input::Published), Action::PopQueue);
    assert_eq!(s.step(Input::QueueAnswer(Some(playable(9, 100)))), Action::Fetch { item: playable(9, 100) });
    let plan = StreamPlan { bytes_per_sec: 10, chunk_size: 1024, interruptible: false };
    assert_eq!(s.step(Input::FetchDone { file_size: Some(1000), now: 99 }), Action::Stream { plan });
    assert_eq!(*s.stage(), Stage::Streaming(NextTrack::Queued(playable(9, 100))));
    assert_eq!(
        s.state().current_track,
        Some(CurrentTrack { item: playable(9, 100), started_at: 99, file_size: 1000 })
    );
}

#[test]
fn queue_change_does_not_interrupt_a_queued_track() {
    let mut s = Scheduler::new();
    s.step(Input::Wake);
    s.step(Input::QueueAnswer(Some(playable(1, 200))));
    s.step(Input::FetchDone { file_size: Some(3_000_000), now: 1 });
    assert_eq!(s.step(Input::QueueChanged), Action::Wait);
    assert_eq!(*s.stage(), Stage::Streaming(NextTrack::Queued(playable(1, 200))));
    assert_eq!(
        s.state().current_track,
        Some(CurrentTrack { item: playable(1, 200), started_at: 1, file_size: 3_000_000 })
    );
    assert_eq!(s.step(Input::StreamDone), Action::Announce);
}

#[test]
fn reports_that_answer_nothing_are_ignored() {
    let mut s = Scheduler::new();
    assert_eq!(s.step(Input::StreamDone), Action::Wait);
    assert_eq!(s.step(Input::QueueChanged), Action::Wait);
    assert_eq!(s.step(Input::Published), Action::Wait);
    assert_eq!(s.step(Input::QueueAnswer(Some(playable(1, 1)))), Action::Wait);
    assert_eq!(s.step(Input::CatalogAnswer(None)), Action::Wait);
    assert_eq!(s.step(Input::FetchDone { file_size: Some(1), now: 1 }), Action::Wait);
    assert_eq!(*s.stage(), Stage::Idle);

    s.step(Input::Wake);
    assert_eq!(s.step(Input::Wake), Action::Wait);
    assert_eq!(s.step(Input::CatalogAnswer(Some(track(1, 1)))), Action::Wait);
    assert_eq!(*s.stage(), Stage::SelectNext { asked_catalog: false });

    s.step(Input::QueueAnswer(None));
    assert_eq!(s.step(Input::QueueAnswer(Some(playable(1, 1)))), Action::Wait);
    assert_eq!(*s.stage(), Stage::SelectNext { asked_catalog: true });

    s.step(Input::CatalogAnswer(Some(track(2, 10))));
    assert_eq!(s.step(Input::StreamDone), Action::Wait);
    assert_eq!(s.step(Input::QueueChanged), Action::Wait);
    assert_eq!(*s.stage(), Stage::Fetching(NextTrack::Auto(playable(2, 10))));

    s.step(Input::FetchDone { file_size: Some(10), now: 0 });
    s.step(Input::StreamDone);
    assert_eq!(s.step(Input::StreamDone), Action::Wait);
    assert_eq!(s.step(Input::Wake), Action::Wait);
    assert_eq!(*s.stage(), Stage::Finished);
}

#[test]
fn next_track_accessors() {
    let queued = NextTrack::Queued(playable(1, 2));
    let auto = NextTrack::Auto(playable(3, 4));
    assert!(!queued.is_auto());
    assert!(auto.is_auto());
    assert_eq!(*queued.item(), playable(1, 2));
    assert_eq!(*auto.item(), playable(3, 4));
    assert_eq!(queued.clone(), queued);
}

#[test]
fn current_track_messages() {
    let empty = RadioState::new();
    assert_eq!(empty.get_current_track().name, None);
    assert_eq!(empty.get_current_track_ws(), CurrentTrackData { name: None });
    assert_eq!(empty.current_event(), WebSocketMessage::CurrentTrack(CurrentTrackData { name: None }));

    let playing = RadioState {
        current_track: Some(CurrentTrack { item: playable(4, 100), started_at: 0, file_size: 10 }),
    };
    let name = Some("Artist 4 - Title 4".to_string());
    assert_eq!(playing.get_current_track().name, name);
    assert_eq!(playing.get_current_track_ws(), CurrentTrackData { name: name.clone() });
    assert_eq!(
        playing.current_event(),
        WebSocketMessage::CurrentTrack(CurrentTrackData { name })
    );
}

#[test]
fn new_subscribers_are_told_the_current_state_first() {
    let playing = RadioState {
        current_track: Some(CurrentTrack { item: playable(4, 100), started_at: 0, file_size: 10 }),
    };
    let queue = Playlist { items: vec![playable(5, 1), playable(6, 2)] };
    let events = playing.greeting(Some(queue));
    assert_eq!(events.len(), 2);
    assert_eq!(
        events[0],
        WebSocketMessage::CurrentTrack(CurrentTrackData {
            name: Some("Artist 4 - Title 4".to_string())
        })
    );
    assert_eq!(
        events[1],
        WebSocketMessage::Playlist(Playlist { items: vec![playable(5, 1), playable(6, 2)] })
    );
    let events = RadioState::new().greeting(None);
    assert_eq!(events, vec![WebSocketMessage::CurrentTrack(CurrentTrackData { name: None })]);
}
