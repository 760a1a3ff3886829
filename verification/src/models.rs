//! Rows of the database: users and the track catalog.

use vstd::prelude::*;

verus! {

/// What a user may do.
#[allow(non_camel_case_types)]
#[derive(Debug, Clone, Copy, PartialEq, Eq, Structural)]
pub enum UserRole {
    USER,
    ADMIN,
}

/// A user as the database holds it.
#[derive(Debug, PartialEq, Eq)]
pub struct User {
    pub id: i32,
    pub username: String,
    pub password: String,
    pub email: String,
    pub role: UserRole,
}

/// A user that is about to enter the database.
#[derive(Debug, PartialEq, Eq)]
pub struct NewUser {
    pub username: String,
    pub password: String,
    pub email: String,
}

/// The link from a user to a track that is about to enter the database.
#[derive(Debug, Clone, Copy, PartialEq, Eq, Structural)]
pub struct NewUserTrack {
    pub user_id: i32,
    pub track_id: i32,
}

/// A user's liking of a track that is about to enter the database.
#[derive(Debug, Clone, Copy, PartialEq, Eq, Structural)]
pub struct NewUserLike {
    pub user_id: i32,
    pub track_id: i32,
}

/// A track as the catalog holds it.
#[derive(Debug, PartialEq, Eq)]
pub struct Track {
    pub id: i32,
    pub song_id: i32,
    pub owner_id: i32,
    pub download_url: String,
    pub title: String,
    pub artist: String,
    pub duration_sec: i32,
    pub likes_count: i32,
    pub listens_count: i32,
}

/// A track that is about to enter the catalog.
#[derive(Debug, PartialEq, Eq)]
pub struct NewTrack {
    pub song_id: i32,
    pub owner_id: i32,
    pub download_url: String,
    pub title: String,
    pub artist: String,
    pub duration_sec: i32,
    pub likes_count: Option<i32>,
    pub listens_count: Option<i32>,
}

impl Clone for Track {
    fn clone(&self) -> (copy: Self)
        ensures
            copy == *self,
    {
        Track {
            id: self.id,
            song_id: self.song_id,
            owner_id: self.owner_id,
            download_url: self.download_url.clone(),
            title: self.title.clone(),
            artist: self.artist.clone(),
            duration_sec: self.duration_sec,
            likes_count: self.likes_count,
            listens_count: self.listens_count,
        }
    }
}

impl Clone for NewTrack {
    fn clone(&self) -> (copy: Self)
        ensures
            copy == *self,
    {
        NewTrack {
            song_id: self.song_id,
            owner_id: self.owner_id,
            download_url: self.download_url.clone(),
            title: self.title.clone(),
            artist: self.artist.clone(),
            duration_sec: self.duration_sec,
            likes_count: self.likes_count,
            listens_count: self.listens_count,
        }
    }
}

} // verus!
