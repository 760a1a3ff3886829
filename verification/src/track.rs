//! Tracks as the music catalog's search answers them, and the rules by
//! which one of them is admitted to the queue.

use crate::error::{AppError, AppResult, ErrorCode};
use crate::models::NewTrack;
use crate::playlist::{display_name, display_name_of};
use crate::text::{decimal_int, push_decimal_i32};
use vstd::prelude::*;

verus! {

/// The longest track that is admitted, in seconds.
pub const MAX_TRACK_DURATION_SEC: i32 = 600;

/// The version of the search interface that requests name.
pub const MUSIC_API_VERSION: &'static str = "5.131";

/// A track as the search answers it.
#[derive(Debug, PartialEq, Eq)]
pub struct TrackFromApi {
    pub id: i32,
    pub owner_id: i32,
    pub artist: String,
    pub title: String,
    pub duration: i32,
    pub date: i64,
    pub url: String,
}

impl Clone for TrackFromApi {
    fn clone(&self) -> (copy: Self)
        ensures
            copy == *self,
    {
        TrackFromApi {
            id: self.id,
            owner_id: self.owner_id,
            artist: self.artist.clone(),
            title: self.title.clone(),
            duration: self.duration,
            date: self.date,
            url: self.url.clone(),
        }
    }
}

/// A listener's choice of a track.
#[derive(Debug, Clone, Copy, PartialEq, Eq, Structural)]
pub struct UserSelectTrackRequest {
    pub song_id: i32,
    pub owner_id: i32,
}

/// One line of a search result.
#[derive(Debug, PartialEq, Eq)]
pub struct SearchTrackDTO {
    pub name: String,
    pub duration: i32,
    pub song_id: i32,
    pub owner_id: i32,
}

/// A search result.
#[derive(Debug, PartialEq, Eq)]
pub struct SearchTrackResponse {
    pub tracks: Vec<SearchTrackDTO>,
}

/// Whether `line` is the line of a search result that stands for `track`.
pub open spec fn is_line_of(line: SearchTrackDTO, track: TrackFromApi) -> bool {
    &&& line.song_id == track.id
    &&& line.owner_id == track.owner_id
    &&& line.duration == track.duration
    &&& line.name@ == display_name_of(track.artist@, track.title@)
}

/// The catalog row for a track that the search has answered.
pub open spec fn new_track_of(track: TrackFromApi) -> NewTrack {
    NewTrack {
        song_id: track.id,
        owner_id: track.owner_id,
        artist: track.artist,
        title: track.title,
        duration_sec: track.duration,
        download_url: track.url,
        likes_count: None,
        listens_count: None,
    }
}

/// How a track is named to the search and in the local cache: owner and
/// song, joined by an underscore.
pub open spec fn audio_id_of(owner_id: i32, song_id: i32) -> Seq<char> {
    decimal_int(owner_id as int) + "_"@ + decimal_int(song_id as int)
}

/// How a track is named to the search and in the local cache.
pub fn audio_id(owner_id: i32, song_id: i32) -> (id: String)
    ensures
        id@ == audio_id_of(owner_id, song_id),
{
    let mut id = String::new();
    push_decimal_i32(&mut id, owner_id);
    id.append("_");
    push_decimal_i32(&mut id, song_id);
    proof {
        assert(id@ =~= audio_id_of(owner_id, song_id));
    }
    id
}

/// The address of a method of the search interface: the base address, a
/// dot and the method's name.
pub fn method_url(base: &str, method: &str) -> (url: String)
    ensures
        url@ == base@ + "."@ + method@,
{
    let mut url = base.to_owned();
    url.append(".");
    url.append(method);
    url
}

/// The name that a search asks for; a request without one is refused.
pub fn require_track_name(track_name: Option<String>) -> (name: AppResult<String>)
    ensures
        track_name is Some <==> name is Ok,
        name matches Ok(text) ==> track_name == Some(text),
        name matches Err(error) ==> (error matches AppError::BadRequest(message, code)
            && message@ == "Missing track_name parameter"@ && code is None),
{
    match track_name {
        Some(text) => Ok(text),
        None => Err(AppError::BadRequest("Missing track_name parameter".to_owned(), None)),
    }
}

/// The search result shown for what the search has answered: one line for
/// each track, in the same order.
pub fn search_results(found: &Vec<TrackFromApi>) -> (response: SearchTrackResponse)
    ensures
        response.tracks@.len() == found@.len(),
        forall|i: int| 0 <= i < found@.len() ==> is_line_of(#[trigger] response.tracks@[i], found@[i]),
{
    let mut tracks: Vec<SearchTrackDTO> = Vec::new();
    let mut i: usize = 0;
    while i < found.len()
        invariant
            i <= found.len(),
            tracks@.len() == i,
            forall|k: int| 0 <= k < i ==> is_line_of(#[trigger] tracks@[k], found@[k]),
        decreases found.len() - i,
    {
        let item = &found[i];
        tracks.push(
            SearchTrackDTO {
                song_id: item.id,
                owner_id: item.owner_id,
                duration: item.duration,
                name: display_name(item.artist.as_str(), item.title.as_str()),
            },
        );
        i = i + 1;
    }
    SearchTrackResponse { tracks }
}

/// Decides whether a listener's choice goes to the queue, given what the
/// search has answered for it. The first track of the answer is taken. The
/// choice is refused if the answer is empty, and if the track plays longer
/// than [`MAX_TRACK_DURATION_SEC`].
pub fn admit_track(found: &Vec<TrackFromApi>) -> (admitted: AppResult<NewTrack>)
    ensures
        found@.len() > 0 && found@[0].duration <= MAX_TRACK_DURATION_SEC <==> admitted is Ok,
        admitted matches Ok(track) ==> track == new_track_of(found@[0]),
        found@.len() == 0 ==> (admitted matches Err(AppError::BadRequest(message, code))
            && message@ == "Track not found in music API"@ && code is None),
        found@.len() > 0 && found@[0].duration > MAX_TRACK_DURATION_SEC ==> (
        admitted matches Err(AppError::BadRequest(message, code)) && message@
            == "Track duration limit"@ && code == Some(ErrorCode::TrackDurationLimit)),
{
    if found.len() == 0 {
        return Err(AppError::BadRequest("Track not found in music API".to_owned(), None));
    }
    let track = found[0].clone();
    if track.duration > MAX_TRACK_DURATION_SEC {
        return Err(
            AppError::BadRequest(
                "Track duration limit".to_owned(),
                Some(ErrorCode::TrackDurationLimit),
            ),
        );
    }
    Ok(
        NewTrack {
            song_id: track.id,
            owner_id: track.owner_id,
            artist: track.artist,
            title: track.title,
            duration_sec: track.duration,
            download_url: track.url,
            likes_count: None,
            listens_count: None,
        },
    )
}

} // verus!
