//! The queue of tracks that listeners have asked for.
//!
//! The queue is first in, first out. It lives in a store outside this
//! library; the functions here take what the store holds and return what it
//! is to hold next.

use crate::error::{AppError, AppResult};
use crate::models::Track;
use vstd::prelude::*;

verus! {

/// A playable track: where it is from, what it is called, how long it
/// plays and where its audio can be fetched.
#[derive(Debug, PartialEq, Eq)]
pub struct PlaylistItem {
    pub id: i32,
    pub song_id: i32,
    pub owner_id: i32,
    pub artist: String,
    pub title: String,
    pub duration_sec: i32,
    pub download_url: String,
}

impl Clone for PlaylistItem {
    fn clone(&self) -> (copy: Self)
        ensures
            copy == *self,
    {
        PlaylistItem {
            id: self.id,
            song_id: self.song_id,
            owner_id: self.owner_id,
            artist: self.artist.clone(),
            title: self.title.clone(),
            duration_sec: self.duration_sec,
            download_url: self.download_url.clone(),
        }
    }
}

/// The name under which a track is shown: artist, a dash, title.
pub open spec fn display_name_of(artist: Seq<char>, title: Seq<char>) -> Seq<char> {
    artist + " - "@ + title
}

/// The name under which a track is shown.
pub fn display_name(artist: &str, title: &str) -> (name: String)
    ensures
        name@ == display_name_of(artist@, title@),
{
    let mut name = artist.to_owned();
    name.append(" - ");
    name.append(title);
    name
}

/// The queue item that stands for a catalog track.
pub open spec fn item_of(track: Track) -> PlaylistItem {
    PlaylistItem {
        id: track.id,
        song_id: track.song_id,
        owner_id: track.owner_id,
        artist: track.artist,
        title: track.title,
        duration_sec: track.duration_sec,
        download_url: track.download_url,
    }
}

impl PlaylistItem {
    /// The queue item that stands for a catalog track.
    pub fn from_track(track: Track) -> (item: PlaylistItem)
        ensures
            item == item_of(track),
    {
        PlaylistItem {
            id: track.id,
            song_id: track.song_id,
            owner_id: track.owner_id,
            artist: track.artist,
            title: track.title,
            duration_sec: track.duration_sec,
            download_url: track.download_url,
        }
    }

    /// The name under which the track is shown.
    pub fn display_name(&self) -> (name: String)
        ensures
            name@ == display_name_of(self.artist@, self.title@),
    {
        display_name(self.artist.as_str(), self.title.as_str())
    }
}

/// The queue, oldest request first.
#[derive(Debug, PartialEq, Eq)]
pub struct Playlist {
    pub items: Vec<PlaylistItem>,
}

impl View for Playlist {
    type V = Seq<PlaylistItem>;

    open spec fn view(&self) -> Seq<PlaylistItem> {
        self.items@
    }
}

impl Clone for Playlist {
    fn clone(&self) -> (copy: Self)
        ensures
            copy@ == self@,
    {
        let mut items: Vec<PlaylistItem> = Vec::new();
        let mut i: usize = 0;
        while i < self.items.len()
            invariant
                i <= self.items.len(),
                items@ == self.items@.take(i as int),
            decreases self.items.len() - i,
        {
            items.push(self.items[i].clone());
            proof {
                assert(self.items@.take(i + 1) =~= self.items@.take(i as int).push(
                    self.items@[i as int],
                ));
            }
            i = i + 1;
        }
        proof {
            assert(self.items@.take(self.items.len() as int) =~= self.items@);
        }
        Playlist { items }
    }
}

/// What the store holds, read as a queue: a store that holds nothing holds
/// the empty queue.
pub open spec fn stored_queue(stored: Option<Playlist>) -> Seq<PlaylistItem> {
    match stored {
        Some(playlist) => playlist@,
        None => Seq::empty(),
    }
}

impl Playlist {
    /// The empty queue.
    pub fn new() -> (playlist: Playlist)
        ensures
            playlist@ == Seq::<PlaylistItem>::empty(),
    {
        Playlist { items: Vec::new() }
    }

    /// Number of waiting tracks.
    pub fn len(&self) -> (n: usize)
        ensures
            n == self@.len(),
    {
        self.items.len()
    }

    /// Whether no track waits.
    pub fn is_empty(&self) -> (empty: bool)
        ensures
            empty == (self@.len() == 0),
    {
        self.items.len() == 0
    }

    /// Puts a track at the end of the queue.
    pub fn push(&mut self, item: PlaylistItem)
        ensures
            final(self)@ == old(self)@.push(item),
    {
        self.items.push(item);
    }

    /// Takes the track at the front of the queue, if there is one.
    pub fn try_pop(&mut self) -> (front: Option<PlaylistItem>)
        ensures
            old(self)@.len() == 0 ==> front is None && final(self)@ == old(self)@,
            old(self)@.len() > 0 ==> front == Some(old(self)@[0]) && final(self)@ == old(
                self,
            )@.drop_first(),
    {
        if self.items.len() == 0 {
            None
        } else {
            let front = self.items.remove(0);
            proof {
                assert(old(self)@.remove(0) =~= old(self)@.drop_first());
            }
            Some(front)
        }
    }
}

/// The rules of the queue over a store that is read before and written
/// after each operation.
pub struct PlaylistService {}

impl PlaylistService {
    pub fn new() -> (service: Self) {
        PlaylistService {  }
    }

    /// The queue to store after `item` was added to what the store holds.
    pub fn add_new_track(&self, stored: Option<Playlist>, item: PlaylistItem) -> (updated: Playlist)
        ensures
            updated@ == stored_queue(stored).push(item),
    {
        let mut playlist = self.get_playlist(stored);
        playlist.push(item);
        playlist
    }

    /// The track at the front of what the store holds, with the queue to
    /// store after it was taken. Fails with `NotFound` on an empty queue.
    pub fn pop_track(&self, stored: Option<Playlist>) -> (popped: AppResult<
        (PlaylistItem, Playlist),
    >)
        ensures
            stored_queue(stored).len() == 0 <==> popped is Err,
            popped matches Err(error) ==> (error matches AppError::NotFound(message, code)
                && message@ == "Playlist is empty"@ && code is None),
            popped matches Ok((item, rest)) ==> item == stored_queue(stored)[0] && rest@
                == stored_queue(stored).drop_first(),
    {
        let mut playlist = self.get_playlist(stored);
        match playlist.try_pop() {
            Some(item) => Ok((item, playlist)),
            None => Err(AppError::NotFound("Playlist is empty".to_owned(), None)),
        }
    }

    /// The queue that the store holds.
    pub fn get_playlist(&self, stored: Option<Playlist>) -> (playlist: Playlist)
        ensures
            playlist@ == stored_queue(stored),
    {
        match stored {
            Some(playlist) => playlist,
            None => Playlist::new(),
        }
    }
}

/// First in, first out: after A and then B were added to an empty queue, the
/// first track taken is A and the second is B, and the queue is empty again.
pub proof fn lemma_fifo(a: PlaylistItem, b: PlaylistItem)
    ensures
        ({
            let queue = Seq::<PlaylistItem>::empty().push(a).push(b);
            &&& queue[0] == a
            &&& queue.drop_first()[0] == b
            &&& queue.drop_first().drop_first() == Seq::<PlaylistItem>::empty()
        }),
{
    let queue = Seq::<PlaylistItem>::empty().push(a).push(b);
    assert(queue.drop_first().drop_first() =~= Seq::<PlaylistItem>::empty());
}

/// Adding at the end does not disturb the front: on a queue that is not
/// empty, taking a track after adding one gives the same track as taking it
/// before, and the same queue.
pub proof fn lemma_push_keeps_front(queue: Seq<PlaylistItem>, item: PlaylistItem)
    requires
        queue.len() > 0,
    ensures
        queue.push(item)[0] == queue[0],
        queue.push(item).drop_first() == queue.drop_first().push(item),
{
    assert(queue.push(item).drop_first() =~= queue.drop_first().push(item));
}

/// Tracks leave in the order in which they came: the `k`-th track taken
/// from a queue is the `k`-th that was added.
pub proof fn lemma_kth_pop(queue: Seq<PlaylistItem>, k: int)
    requires
        0 <= k < queue.len(),
    ensures
        queue.skip(k)[0] == queue[k],
        queue.skip(k).drop_first() == queue.skip(k + 1),
{
    assert(queue.skip(k).drop_first() =~= queue.skip(k + 1));
}

} // verus!
