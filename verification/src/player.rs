//! Where the audio of a track is kept in the local cache.

use crate::config::AppConfig;
use crate::playlist::PlaylistService;
use crate::track::{audio_id, audio_id_of};
use std::sync::Arc;
use vstd::prelude::*;

verus! {

/// The name of the file that holds a track's audio.
pub open spec fn track_file_name_of(owner_id: i32, song_id: i32) -> Seq<char> {
    audio_id_of(owner_id, song_id) + ".mp3"@
}

/// The path of the file that holds a track's audio, in the directory `dir`.
pub open spec fn track_file_path_of(dir: Seq<char>, owner_id: i32, song_id: i32) -> Seq<char> {
    dir + "/"@ + track_file_name_of(owner_id, song_id)
}

/// The name of the file that holds a track's audio.
pub fn track_file_name(owner_id: i32, song_id: i32) -> (name: String)
    ensures
        name@ == track_file_name_of(owner_id, song_id),
{
    let mut name = audio_id(owner_id, song_id);
    name.append(".mp3");
    name
}

/// The path of the file that holds a track's audio, in the directory `dir`.
pub fn track_file_path(dir: &str, owner_id: i32, song_id: i32) -> (path: String)
    ensures
        path@ == track_file_path_of(dir@, owner_id, song_id),
{
    let mut path = dir.to_owned();
    path.append("/");
    let name = track_file_name(owner_id, song_id);
    path.append(name.as_str());
    proof {
        assert(path@ =~= track_file_path_of(dir@, owner_id, song_id));
    }
    path
}

/// Knows where tracks are kept.
pub struct PlayerService {
    config: Arc<AppConfig>,
    playlist_service: Arc<PlaylistService>,
}

impl PlayerService {
    /// The settings that the service works with.
    pub closed spec fn settings(&self) -> AppConfig {
        *self.config
    }

    pub fn new(config: Arc<AppConfig>, playlist_service: Arc<PlaylistService>) -> (service: Self)
        ensures
            service.settings() == *config,
    {
        PlayerService { config, playlist_service }
    }

    /// The directory that holds the audio files.
    pub fn songs_dir(&self) -> (dir: &str)
        ensures
            dir@ == self.settings().songs_config.songs_dir_path@,
    {
        self.config.songs_config.songs_dir_path.as_str()
    }

    /// The path of the file that holds a track's audio.
    pub fn track_path(&self, song_id: i32, owner_id: i32) -> (path: String)
        ensures
            path@ == track_file_path_of(
                self.settings().songs_config.songs_dir_path@,
                owner_id,
                song_id,
            ),
    {
        track_file_path(self.config.songs_config.songs_dir_path.as_str(), owner_id, song_id)
    }
}

} // verus!
