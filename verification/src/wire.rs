//! Events as subscribers of the event bus receive them: JSON objects with
//! a `type` field that tells the kind of the event.

use crate::playlist::{Playlist, PlaylistItem};
use crate::radio::{text_of, CurrentTrackData, WebSocketMessage};
use crate::text::{decimal_int, push_decimal_i32};
use vstd::prelude::*;

verus! {

/// The JSON string that stands for a text: the text between double quotes,
/// with the characters escaped that JSON asks to escape.
pub uninterp spec fn json_string_of(text: Seq<char>) -> Seq<char>;

/// Calls `to_string` of `serde_json` on a string slice, which cannot fail
/// for one: the JSON string for the text. The result depends on the text
/// alone.
#[verifier::external_body]
fn json_string(text: &str) -> (json: String)
    ensures
        json@ == json_string_of(text@),
{
    serde_json::to_string(text).unwrap_or_default()
}

/// The JSON for a name that may be missing: the string, or `null`.
pub open spec fn name_json(name: Option<Seq<char>>) -> Seq<char> {
    match name {
        Some(text) => json_string_of(text),
        None => "null"@,
    }
}

/// The event that tells what is on air.
pub open spec fn current_track_json(name: Option<Seq<char>>) -> Seq<char> {
    "{\"type\":\"CurrentTrack\",\"name\":"@ + name_json(name) + "}"@
}

/// One track of the queue.
pub open spec fn item_json(item: PlaylistItem) -> Seq<char> {
    "{\"id\":"@ + decimal_int(item.id as int) + ",\"song_id\":"@ + decimal_int(item.song_id as int)
        + ",\"owner_id\":"@ + decimal_int(item.owner_id as int) + ",\"artist\":"@ + json_string_of(
        item.artist@,
    ) + ",\"title\":"@ + json_string_of(item.title@) + ",\"duration_sec\":"@ + decimal_int(
        item.duration_sec as int,
    ) + ",\"download_url\":"@ + json_string_of(item.download_url@) + "}"@
}

/// The tracks of the queue, separated by commas.
pub open spec fn items_json(items: Seq<PlaylistItem>) -> Seq<char>
    decreases items.len(),
{
    if items.len() == 0 {
        Seq::empty()
    } else if items.len() == 1 {
        item_json(items[0])
    } else {
        items_json(items.drop_last()) + ","@ + item_json(items.last())
    }
}

/// The event that tells what the queue holds.
pub open spec fn playlist_json(items: Seq<PlaylistItem>) -> Seq<char> {
    "{\"type\":\"Playlist\",\"items\":["@ + items_json(items) + "]}"@
}

/// An event in its wire form.
pub open spec fn event_json(event: WebSocketMessage) -> Seq<char> {
    match event {
        WebSocketMessage::CurrentTrack(data) => current_track_json(text_of(data.name)),
        WebSocketMessage::Playlist(queue) => playlist_json(queue@),
    }
}

fn push_item(out: &mut String, item: &PlaylistItem)
    ensures
        final(out)@ == old(out)@ + item_json(*item),
{
    out.append("{\"id\":");
    push_decimal_i32(out, item.id);
    out.append(",\"song_id\":");
    push_decimal_i32(out, item.song_id);
    out.append(",\"owner_id\":");
    push_decimal_i32(out, item.owner_id);
    out.append(",\"artist\":");
    out.append(json_string(item.artist.as_str()).as_str());
    out.append(",\"title\":");
    out.append(json_string(item.title.as_str()).as_str());
    out.append(",\"duration_sec\":");
    push_decimal_i32(out, item.duration_sec);
    out.append(",\"download_url\":");
    out.append(json_string(item.download_url.as_str()).as_str());
    out.append("}");
    proof {
        assert(out@ =~= old(out)@ + item_json(*item));
    }
}

/// The wire form of the event that tells what is on air.
pub fn current_track_to_json(data: &CurrentTrackData) -> (json: String)
    ensures
        json@ == current_track_json(text_of(data.name)),
{
    let mut json = "{\"type\":\"CurrentTrack\",\"name\":".to_owned();
    match &data.name {
        Some(name) => {
            json.append(json_string(name.as_str()).as_str());
        },
        None => {
            json.append("null");
        },
    }
    json.append("}");
    json
}

/// The wire form of the event that tells what the queue holds.
pub fn playlist_to_json(queue: &Playlist) -> (json: String)
    ensures
        json@ == playlist_json(queue@),
{
    let mut json = "{\"type\":\"Playlist\",\"items\":[".to_owned();
    let ghost head = json@;
    let mut i: usize = 0;
    proof {
        assert(queue@.take(0) =~= Seq::<PlaylistItem>::empty());
        assert(head + items_json(Seq::<PlaylistItem>::empty()) =~= head);
    }
    while i < queue.items.len()
        invariant
            i <= queue.items.len(),
            head == "{\"type\":\"Playlist\",\"items\":["@,
            json@ == head + items_json(queue@.take(i as int)),
        decreases queue.items.len() - i,
    {
        let ghost before = json@;
        if i > 0 {
            json.append(",");
        }
        push_item(&mut json, &queue.items[i]);
        proof {
            let longer = queue@.take(i + 1);
            assert(longer.drop_last() =~= queue@.take(i as int));
            assert(longer.last() == queue@[i as int]);
            if i == 0 {
                assert(longer[0] == queue@[0]);
                assert(items_json(longer) =~= item_json(queue@[0]));
            }
            assert(json@ =~= head + items_json(longer));
        }
        i = i + 1;
    }
    proof {
        assert(queue@.take(queue.items.len() as int) =~= queue@);
    }
    json.append("]}");
    json
}

/// An event in its wire form.
pub fn to_json(event: &WebSocketMessage) -> (json: String)
    ensures
        json@ == event_json(*event),
{
    match event {
        WebSocketMessage::CurrentTrack(data) => current_track_to_json(data),
        WebSocketMessage::Playlist(queue) => playlist_to_json(queue),
    }
}

} // verus!
