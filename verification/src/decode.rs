//! From JSON to messages: for each type which documents stand for a value of
//! it and for which value, and the function that reads a document so. A
//! record is read from an object by the names of its fields or from an array
//! of its fields in order; a command without payload from its bare name or
//! from an object with `null` under that name.

use crate::json::{
    has_size, json_parse, models, object_get, object_len, object_model, value_as_array,
    value_as_bool, value_as_object, value_as_str, value_as_u64, value_from_text, value_is_null,
    value_model, Json,
};
use crate::model::{
    item_views, viewed, AlbumInfo, AlbumInfoView, Commands, CommandsView, Item, ItemView, Length,
    Reply, ReplyKind, ReplyView, SlibError, SongInfo, SongInfoView, Status, StatusView,
};
use serde_json::Value;
use vstd::prelude::*;

verus! {

/// The member of an object under a key, if it has one.
pub open spec fn member(m: Map<Seq<char>, Json>, key: Seq<char>) -> Option<Json> {
    if m.dom().contains(key) {
        Some(m[key])
    } else {
        None
    }
}

pub open spec fn text_of_json(j: Json) -> Option<Seq<char>> {
    match j {
        Json::Str(s) => Some(s),
        _ => None,
    }
}

pub open spec fn bool_of_json(j: Json) -> Option<bool> {
    match j {
        Json::Bool(b) => Some(b),
        _ => None,
    }
}

pub open spec fn u64_of_json(j: Json) -> Option<u64> {
    match j {
        Json::Uint(n) => Some(n),
        _ => None,
    }
}

/// A byte is a non-negative integer up to 255.
pub open spec fn u8_of_json(j: Json) -> Option<u8> {
    match j {
        Json::Uint(n) => if n <= 255 {
            Some(n as u8)
        } else {
            None
        },
        _ => None,
    }
}

pub open spec fn u32_of_json(j: Json) -> Option<u32> {
    match j {
        Json::Uint(n) => if n <= 0xffff_ffff {
            Some(n as u32)
        } else {
            None
        },
        _ => None,
    }
}

/// The fields of a record with one field: the member of an object under its
/// name, if it has one, or the one element of an array of one.
pub open spec fn fields1(j: Json, k0: Seq<char>) -> Option<Option<Json>> {
    match j {
        Json::Obj(m) => Some(member(m, k0)),
        Json::Arr(a) => if a.len() == 1 {
            Some(Some(a[0]))
        } else {
            None
        },
        _ => None,
    }
}

/// The fields of a record with two fields: the members of an object under
/// their names, as far as it has them, or the elements of an array of two in
/// the order of the fields.
pub open spec fn fields2(j: Json, k0: Seq<char>, k1: Seq<char>) -> Option<
    (Option<Json>, Option<Json>),
> {
    match j {
        Json::Obj(m) => Some((member(m, k0), member(m, k1))),
        Json::Arr(a) => if a.len() == 2 {
            Some((Some(a[0]), Some(a[1])))
        } else {
            None
        },
        _ => None,
    }
}

/// The fields of a record with three fields, as `fields2`.
pub open spec fn fields3(j: Json, k0: Seq<char>, k1: Seq<char>, k2: Seq<char>) -> Option<
    (Option<Json>, Option<Json>, Option<Json>),
> {
    match j {
        Json::Obj(m) => Some((member(m, k0), member(m, k1), member(m, k2))),
        Json::Arr(a) => if a.len() == 3 {
            Some((Some(a[0]), Some(a[1]), Some(a[2])))
        } else {
            None
        },
        _ => None,
    }
}

/// An item is read from an object that has the three strings, other members
/// passed over, or from an array of the three strings: name, identifier and
/// artwork path.
pub open spec fn item_of_json(j: Json) -> Option<ItemView> {
    match fields3(j, "name"@, "id"@, "image_path"@) {
        Some((Some(n), Some(i), Some(p))) => match (
            text_of_json(n),
            text_of_json(i),
            text_of_json(p),
        ) {
            (Some(name), Some(id), Some(image_path)) => Some(ItemView { name, id, image_path }),
            _ => None,
        },
        _ => None,
    }
}

/// A list of items is read from an array of which each element is an item.
pub open spec fn items_of_json(j: Json) -> Option<Seq<ItemView>> {
    match j {
        Json::Arr(a) => if forall|k: int| 0 <= k < a.len() ==> item_of_json(#[trigger] a[k]) is Some {
            Some(Seq::new(a.len(), |k: int| item_of_json(a[k])->Some_0))
        } else {
            None
        },
        _ => None,
    }
}

/// A byte sequence is read from an array of which each element is a byte.
pub open spec fn bytes_of_json(j: Json) -> Option<Seq<u8>> {
    match j {
        Json::Arr(a) => if forall|k: int| 0 <= k < a.len() ==> u8_of_json(#[trigger] a[k]) is Some {
            Some(Seq::new(a.len(), |k: int| u8_of_json(a[k])->Some_0))
        } else {
            None
        },
        _ => None,
    }
}

/// `null` stands for no item.
pub open spec fn optional_item_of_json(j: Json) -> Option<Option<ItemView>> {
    if j == Json::Null {
        Some(None)
    } else {
        match item_of_json(j) {
            Some(i) => Some(Some(i)),
            None => None,
        }
    }
}

/// An item that may be left out: no member stands for none, as `null` does.
pub open spec fn optional_field(field: Option<Json>) -> Option<Option<ItemView>> {
    match field {
        Some(j) => optional_item_of_json(j),
        None => Some(None),
    }
}

/// A playback snapshot is read from a record that says whether it plays,
/// which song plays and what is queued; in an object the song that plays may
/// be left out.
pub open spec fn status_of_json(j: Json) -> Option<StatusView> {
    match fields3(j, "playing"@, "current_song"@, "queue"@) {
        Some((Some(p), c, Some(q))) => match (
            bool_of_json(p),
            optional_field(c),
            items_of_json(q),
        ) {
            (Some(playing), Some(current_song), Some(queue)) => Some(
                StatusView { playing, current_song, queue },
            ),
            _ => None,
        },
        _ => None,
    }
}

pub open spec fn length_of_json(j: Json) -> Option<Length> {
    match fields2(j, "secs"@, "nanos"@) {
        Some((Some(s), Some(n))) => match (u64_of_json(s), u32_of_json(n)) {
            (Some(secs), Some(nanos)) => Some(Length { secs, nanos }),
            _ => None,
        },
        _ => None,
    }
}

pub open spec fn song_info_of_json(j: Json) -> Option<SongInfoView> {
    match fields3(j, "length"@, "album"@, "artist"@) {
        Some((Some(l), Some(a), Some(t))) => match (
            length_of_json(l),
            item_of_json(a),
            text_of_json(t),
        ) {
            (Some(length), Some(album), Some(artist)) => Some(
                SongInfoView { length, album, artist },
            ),
            _ => None,
        },
        _ => None,
    }
}

pub open spec fn album_info_of_json(j: Json) -> Option<AlbumInfoView> {
    match fields2(j, "songs"@, "artist"@) {
        Some((Some(s), Some(t))) => match (items_of_json(s), text_of_json(t)) {
            (Some(songs), Some(artist)) => Some(AlbumInfoView { songs, artist }),
            _ => None,
        },
        _ => None,
    }
}

/// What `QueueAdd` carries: an item and a position.
pub open spec fn queue_add_of_json(j: Json) -> Option<CommandsView> {
    match fields2(j, "id"@, "position"@) {
        Some((Some(i), Some(p))) => match (item_of_json(i), u8_of_json(p)) {
            (Some(id), Some(position)) => Some(CommandsView::QueueAdd { id, position }),
            _ => None,
        },
        _ => None,
    }
}

/// What `PlaylistNew` carries: a name.
pub open spec fn playlist_new_of_json(j: Json) -> Option<CommandsView> {
    match fields1(j, "name"@) {
        Some(Some(n)) => match text_of_json(n) {
            Some(name) => Some(CommandsView::PlaylistNew { name }),
            None => None,
        },
        _ => None,
    }
}

/// What `PlaylistAddTo` and `PlaylistRemoveFrom` carry: a playlist and a
/// song, in that order.
pub open spec fn playlist_entry_of_json(j: Json) -> Option<(ItemView, ItemView)> {
    match fields2(j, "playlist"@, "id"@) {
        Some((Some(p), Some(i))) => match (item_of_json(p), item_of_json(i)) {
            (Some(playlist), Some(id)) => Some((playlist, id)),
            _ => None,
        },
        _ => None,
    }
}

/// The command that a bare name stands for.
pub open spec fn bare_command(tag: Seq<char>) -> Option<CommandsView> {
    if tag == "Verify"@ {
        Some(CommandsView::Verify)
    } else if tag == "Shutdown"@ {
        Some(CommandsView::Shutdown)
    } else if tag == "FetchArtists"@ {
        Some(CommandsView::FetchArtists)
    } else if tag == "FetchAlbums"@ {
        Some(CommandsView::FetchAlbums)
    } else if tag == "FetchPlaylists"@ {
        Some(CommandsView::FetchPlaylists)
    } else if tag == "FetchSongs"@ {
        Some(CommandsView::FetchSongs)
    } else if tag == "Scan"@ {
        Some(CommandsView::Scan)
    } else if tag == "Status"@ {
        Some(CommandsView::Status)
    } else if tag == "Restart"@ {
        Some(CommandsView::Restart)
    } else if tag == "Play"@ {
        Some(CommandsView::Play)
    } else if tag == "Stop"@ {
        Some(CommandsView::Stop)
    } else if tag == "Pause"@ {
        Some(CommandsView::Pause)
    } else if tag == "Skip"@ {
        Some(CommandsView::Skip)
    } else {
        None
    }
}

/// The command that a name and a payload stand for.
pub open spec fn loaded_command(tag: Seq<char>, payload: Json) -> Option<CommandsView> {
    if tag == "QueueAdd"@ {
        queue_add_of_json(payload)
    } else if tag == "QueueRemove"@ {
        match item_of_json(payload) {
            Some(id) => Some(CommandsView::QueueRemove(id)),
            None => None,
        }
    } else if tag == "VolumeAdjust"@ {
        match u8_of_json(payload) {
            Some(amount) => Some(CommandsView::VolumeAdjust(amount)),
            None => None,
        }
    } else if tag == "VolumeSet"@ {
        match u8_of_json(payload) {
            Some(amount) => Some(CommandsView::VolumeSet(amount)),
            None => None,
        }
    } else if tag == "Search"@ {
        match text_of_json(payload) {
            Some(query) => Some(CommandsView::Search(query)),
            None => None,
        }
    } else if tag == "Download"@ {
        match item_of_json(payload) {
            Some(id) => Some(CommandsView::Download(id)),
            None => None,
        }
    } else if tag == "Delete"@ {
        match item_of_json(payload) {
            Some(id) => Some(CommandsView::Delete(id)),
            None => None,
        }
    } else if tag == "Star"@ {
        match item_of_json(payload) {
            Some(id) => Some(CommandsView::Star(id)),
            None => None,
        }
    } else if tag == "PlaylistDownload"@ {
        match item_of_json(payload) {
            Some(id) => Some(CommandsView::PlaylistDownload(id)),
            None => None,
        }
    } else if tag == "PlaylistUpload"@ {
        match item_of_json(payload) {
            Some(id) => Some(CommandsView::PlaylistUpload(id)),
            None => None,
        }
    } else if tag == "PlaylistNew"@ {
        playlist_new_of_json(payload)
    } else if tag == "PlaylistAddTo"@ {
        match playlist_entry_of_json(payload) {
            Some((playlist, id)) => Some(CommandsView::PlaylistAddTo { playlist, id }),
            None => None,
        }
    } else if tag == "PlaylistRemoveFrom"@ {
        match playlist_entry_of_json(payload) {
            Some((playlist, id)) => Some(CommandsView::PlaylistRemoveFrom { playlist, id }),
            None => None,
        }
    } else if tag == "PlaylistDelete"@ {
        match item_of_json(payload) {
            Some(id) => Some(CommandsView::PlaylistDelete(id)),
            None => None,
        }
    } else if tag == "SongInfo"@ {
        match item_of_json(payload) {
            Some(id) => Some(CommandsView::SongInfo(id)),
            None => None,
        }
    } else if tag == "AlbumInfo"@ {
        match item_of_json(payload) {
            Some(id) => Some(CommandsView::AlbumInfo(id)),
            None => None,
        }
    } else {
        None
    }
}

/// The command that the one member of an object stands for: under the name
/// of a command without payload the member is `null`, under any other name
/// it is the payload.
pub open spec fn member_command(tag: Seq<char>, payload: Json) -> Option<CommandsView> {
    if payload == Json::Null {
        bare_command(tag)
    } else {
        loaded_command(tag, payload)
    }
}

/// A command is read from a string that is the name of a command without
/// payload, or from an object of one member: `null` under such a name, or a
/// payload of the right shape under the name of its command.
pub open spec fn command_of_json(j: Json) -> Option<CommandsView> {
    match j {
        Json::Str(tag) => bare_command(tag),
        Json::Obj(m) => if has_size(m, 1) {
            member_command(m.dom().choose(), m[m.dom().choose()])
        } else {
            None
        },
        _ => None,
    }
}

/// The command that a payload text stands for.
pub open spec fn command_of_text(s: Seq<char>) -> Option<CommandsView> {
    match json_parse(s) {
        Some(j) => command_of_json(j),
        None => None,
    }
}

/// The reply of a given kind that a document stands for. Where no song or
/// album is known the document is `null`.
pub open spec fn reply_of_json(kind: ReplyKind, j: Json) -> Option<ReplyView> {
    match kind {
        ReplyKind::Identity => match bytes_of_json(j) {
            Some(bytes) => Some(ReplyView::Identity(bytes)),
            None => None,
        },
        ReplyKind::Done => match bool_of_json(j) {
            Some(done) => Some(ReplyView::Done(done)),
            None => None,
        },
        ReplyKind::Items => match items_of_json(j) {
            Some(items) => Some(ReplyView::Items(items)),
            None => None,
        },
        ReplyKind::Status => match status_of_json(j) {
            Some(status) => Some(ReplyView::Status(status)),
            None => None,
        },
        ReplyKind::SongInfo => if j == Json::Null {
            Some(ReplyView::SongInfo(None))
        } else {
            match song_info_of_json(j) {
                Some(info) => Some(ReplyView::SongInfo(Some(info))),
                None => None,
            }
        },
        ReplyKind::AlbumInfo => if j == Json::Null {
            Some(ReplyView::AlbumInfo(None))
        } else {
            match album_info_of_json(j) {
                Some(info) => Some(ReplyView::AlbumInfo(Some(info))),
                None => None,
            }
        },
    }
}

/// The reply of a given kind that a payload text stands for.
pub open spec fn reply_of_text(kind: ReplyKind, s: Seq<char>) -> Option<ReplyView> {
    match json_parse(s) {
        Some(j) => reply_of_json(kind, j),
        None => None,
    }
}

/// An object of one member has that member under the key it was found at.
proof fn only_member(m: Map<Seq<char>, Json>, key: Seq<char>)
    requires
        has_size(m, 1),
        m.dom().contains(key),
    ensures
        m.dom().choose() == key,
{
    Set::lemma_is_singleton(m.dom());
}

fn same_text(a: &str, b: &str) -> (r: bool)
    ensures
        r == (a@ == b@),
{
    let x = a.to_owned();
    let y = b.to_owned();
    x == y
}

pub fn u8_of_value(v: &Value) -> (r: Option<u8>)
    ensures
        r == u8_of_json(value_model(*v)),
{
    match value_as_u64(v) {
        Some(n) => if n <= 255 {
            Some(n as u8)
        } else {
            None
        },
        None => None,
    }
}

/// The document that a value holds, if there is a value.
pub open spec fn modeled(o: Option<&Value>) -> Option<Json> {
    match o {
        Some(v) => Some(value_model(*v)),
        None => None,
    }
}

fn fields1_of<'a>(v: &'a Value, k0: &str) -> (r: Option<Option<&'a Value>>)
    ensures
        match r {
            Some(f) => fields1(value_model(*v), k0@) == Some(modeled(f)),
            None => fields1(value_model(*v), k0@) is None,
        },
{
    match value_as_object(v) {
        Some(m) => Some(object_get(m, k0)),
        None => match value_as_array(v) {
            Some(a) => if a.len() == 1 {
                Some(Some(&a[0]))
            } else {
                None
            },
            None => None,
        },
    }
}

fn fields2_of<'a>(v: &'a Value, k0: &str, k1: &str) -> (r: Option<
    (Option<&'a Value>, Option<&'a Value>),
>)
    ensures
        match r {
            Some(f) => fields2(value_model(*v), k0@, k1@) == Some((modeled(f.0), modeled(f.1))),
            None => fields2(value_model(*v), k0@, k1@) is None,
        },
{
    match value_as_object(v) {
        Some(m) => Some((object_get(m, k0), object_get(m, k1))),
        None => match value_as_array(v) {
            Some(a) => if a.len() == 2 {
                Some((Some(&a[0]), Some(&a[1])))
            } else {
                None
            },
            None => None,
        },
    }
}

fn fields3_of<'a>(v: &'a Value, k0: &str, k1: &str, k2: &str) -> (r: Option<
    (Option<&'a Value>, Option<&'a Value>, Option<&'a Value>),
>)
    ensures
        match r {
            Some(f) => fields3(value_model(*v), k0@, k1@, k2@) == Some(
                (modeled(f.0), modeled(f.1), modeled(f.2)),
            ),
            None => fields3(value_model(*v), k0@, k1@, k2@) is None,
        },
{
    match value_as_object(v) {
        Some(m) => Some((object_get(m, k0), object_get(m, k1), object_get(m, k2))),
        None => match value_as_array(v) {
            Some(a) => if a.len() == 3 {
                Some((Some(&a[0]), Some(&a[1]), Some(&a[2])))
            } else {
                None
            },
            None => None,
        },
    }
}

/// Reads an item from a document.
pub fn item_of_value(v: &Value) -> (r: Option<Item>)
    ensures
        viewed(r) == item_of_json(value_model(*v)),
{
    match fields3_of(v, "name", "id", "image_path") {
        Some((Some(n), Some(i), Some(p))) => match (
            value_as_str(n),
            value_as_str(i),
            value_as_str(p),
        ) {
            (Some(name), Some(id), Some(image_path)) => Some(
                Item { name: name.to_owned(), id: id.to_owned(), image_path: image_path.to_owned() },
            ),
            _ => None,
        },
        _ => None,
    }
}

/// The views of an optional list of items.
pub open spec fn items_viewed(o: Option<Vec<Item>>) -> Option<Seq<ItemView>> {
    match o {
        Some(items) => Some(item_views(items@)),
        None => None,
    }
}

/// Reads a list of items from a document.
pub fn items_of_value(v: &Value) -> (r: Option<Vec<Item>>)
    ensures
        items_viewed(r) == items_of_json(value_model(*v)),
{
    match value_as_array(v) {
        Some(elements) => {
            let ghost a = models(elements@);
            let mut out: Vec<Item> = Vec::new();
            let mut k: usize = 0;
            while k < elements.len()
                invariant
                    k <= elements.len(),
                    out@.len() == k,
                    a == models(elements@),
                    value_model(*v) == Json::Arr(a),
                    forall|j: int|
                        0 <= j < k ==> item_of_json(#[trigger] a[j]) == Some(out@[j]@),
                decreases elements.len() - k,
            {
                match item_of_value(&elements[k]) {
                    Some(item) => {
                        out.push(item);
                    },
                    None => {
                        proof {
                            assert(item_of_json(a[k as int]) is None);
                        }
                        return None;
                    },
                }
                k += 1;
            }
            proof {
                assert(item_views(out@) =~= Seq::new(
                    a.len(),
                    |k: int| item_of_json(a[k])->Some_0,
                ));
            }
            Some(out)
        },
        None => None,
    }
}

/// The view of an optional byte vector.
pub open spec fn bytes_viewed(o: Option<Vec<u8>>) -> Option<Seq<u8>> {
    match o {
        Some(bytes) => Some(bytes@),
        None => None,
    }
}

/// Reads a byte sequence from a document.
pub fn bytes_of_value(v: &Value) -> (r: Option<Vec<u8>>)
    ensures
        bytes_viewed(r) == bytes_of_json(value_model(*v)),
{
    match value_as_array(v) {
        Some(elements) => {
            let ghost a = models(elements@);
            let mut out: Vec<u8> = Vec::new();
            let mut k: usize = 0;
            while k < elements.len()
                invariant
                    k <= elements.len(),
                    out@.len() == k,
                    a == models(elements@),
                    value_model(*v) == Json::Arr(a),
                    forall|j: int| 0 <= j < k ==> u8_of_json(#[trigger] a[j]) == Some(out@[j]),
                decreases elements.len() - k,
            {
                match u8_of_value(&elements[k]) {
                    Some(byte) => {
                        out.push(byte);
                    },
                    None => {
                        proof {
                            assert(u8_of_json(a[k as int]) is None);
                        }
                        return None;
                    },
                }
                k += 1;
            }
            proof {
                assert(out@ =~= Seq::new(a.len(), |k: int| u8_of_json(a[k])->Some_0));
            }
            Some(out)
        },
        None => None,
    }
}

/// Reads a playback snapshot from a document.
pub fn status_of_value(v: &Value) -> (r: Option<Status>)
    ensures
        viewed(r) == status_of_json(value_model(*v)),
{
    match fields3_of(v, "playing", "current_song", "queue") {
        Some((Some(p), c, Some(q))) => {
            let current: Option<Option<Item>> = match c {
                None => Some(None),
                Some(song) => if value_is_null(song) {
                    Some(None)
                } else {
                    match item_of_value(song) {
                        Some(i) => Some(Some(i)),
                        None => None,
                    }
                },
            };
            match (value_as_bool(p), current, items_of_value(q)) {
                (Some(playing), Some(current_song), Some(queue)) => Some(
                    Status { playing, current_song, queue },
                ),
                _ => None,
            }
        },
        _ => None,
    }
}

pub fn length_of_value(v: &Value) -> (r: Option<Length>)
    ensures
        r == length_of_json(value_model(*v)),
{
    match fields2_of(v, "secs", "nanos") {
        Some((Some(s), Some(n))) => match (value_as_u64(s), value_as_u64(n)) {
            (Some(secs), Some(nanos)) => if nanos <= 0xffff_ffff {
                Some(Length { secs, nanos: nanos as u32 })
            } else {
                None
            },
            _ => None,
        },
        _ => None,
    }
}

/// Reads what is known of a song from a document.
pub fn song_info_of_value(v: &Value) -> (r: Option<SongInfo>)
    ensures
        viewed(r) == song_info_of_json(value_model(*v)),
{
    match fields3_of(v, "length", "album", "artist") {
        Some((Some(l), Some(a), Some(t))) => match (
            length_of_value(l),
            item_of_value(a),
            value_as_str(t),
        ) {
            (Some(length), Some(album), Some(artist)) => Some(
                SongInfo { length, album, artist: artist.to_owned() },
            ),
            _ => None,
        },
        _ => None,
    }
}

/// Reads what is known of an album from a document.
pub fn album_info_of_value(v: &Value) -> (r: Option<AlbumInfo>)
    ensures
        viewed(r) == album_info_of_json(value_model(*v)),
{
    match fields2_of(v, "songs", "artist") {
        Some((Some(s), Some(t))) => match (items_of_value(s), value_as_str(t)) {
            (Some(songs), Some(artist)) => Some(AlbumInfo { songs, artist: artist.to_owned() }),
            _ => None,
        },
        _ => None,
    }
}

fn queue_add_of_value(v: &Value) -> (r: Option<Commands>)
    ensures
        viewed(r) == queue_add_of_json(value_model(*v)),
{
    match fields2_of(v, "id", "position") {
        Some((Some(i), Some(p))) => match (item_of_value(i), u8_of_value(p)) {
            (Some(id), Some(position)) => Some(Commands::QueueAdd { id, position }),
            _ => None,
        },
        _ => None,
    }
}

fn playlist_new_of_value(v: &Value) -> (r: Option<Commands>)
    ensures
        viewed(r) == playlist_new_of_json(value_model(*v)),
{
    match fields1_of(v, "name") {
        Some(Some(n)) => match value_as_str(n) {
            Some(name) => Some(Commands::PlaylistNew { name: name.to_owned() }),
            None => None,
        },
        _ => None,
    }
}

fn playlist_entry_of_value(v: &Value) -> (r: Option<(Item, Item)>)
    ensures
        match r {
            Some(e) => playlist_entry_of_json(value_model(*v)) == Some((e.0@, e.1@)),
            None => playlist_entry_of_json(value_model(*v)) is None,
        },
{
    match fields2_of(v, "playlist", "id") {
        Some((Some(p), Some(i))) => match (item_of_value(p), item_of_value(i)) {
            (Some(playlist), Some(id)) => Some((playlist, id)),
            _ => None,
        },
        _ => None,
    }
}

fn bare_command_of(tag: &str) -> (r: Option<Commands>)
    ensures
        viewed(r) == bare_command(tag@),
{
    if same_text(tag, "Verify") {
        Some(Commands::Verify)
    } else if same_text(tag, "Shutdown") {
        Some(Commands::Shutdown)
    } else if same_text(tag, "FetchArtists") {
        Some(Commands::FetchArtists)
    } else if same_text(tag, "FetchAlbums") {
        Some(Commands::FetchAlbums)
    } else if same_text(tag, "FetchPlaylists") {
        Some(Commands::FetchPlaylists)
    } else if same_text(tag, "FetchSongs") {
        Some(Commands::FetchSongs)
    } else if same_text(tag, "Scan") {
        Some(Commands::Scan)
    } else if same_text(tag, "Status") {
        Some(Commands::Status)
    } else if same_text(tag, "Restart") {
        Some(Commands::Restart)
    } else if same_text(tag, "Play") {
        Some(Commands::Play)
    } else if same_text(tag, "Stop") {
        Some(Commands::Stop)
    } else if same_text(tag, "Pause") {
        Some(Commands::Pause)
    } else if same_text(tag, "Skip") {
        Some(Commands::Skip)
    } else {
        None
    }
}

/// The lengths and letters by which the names of the commands differ.
pub(crate) proof fn command_names()
    ensures
        "Verify"@.len() == 6,
        "Shutdown"@.len() == 8,
        "FetchArtists"@.len() == 12,
        "FetchAlbums"@.len() == 11,
        "FetchPlaylists"@.len() == 14,
        "FetchSongs"@.len() == 10,
        "Scan"@.len() == 4,
        "Status"@.len() == 6,
        "Restart"@.len() == 7,
        "Play"@.len() == 4,
        "Stop"@.len() == 4,
        "Pause"@.len() == 5,
        "Skip"@.len() == 4,
        "QueueAdd"@.len() == 8,
        "QueueRemove"@.len() == 11,
        "VolumeAdjust"@.len() == 12,
        "VolumeSet"@.len() == 9,
        "Search"@.len() == 6,
        "Download"@.len() == 8,
        "Delete"@.len() == 6,
        "Star"@.len() == 4,
        "PlaylistDownload"@.len() == 16,
        "PlaylistUpload"@.len() == 14,
        "PlaylistNew"@.len() == 11,
        "PlaylistAddTo"@.len() == 13,
        "PlaylistRemoveFrom"@.len() == 18,
        "PlaylistDelete"@.len() == 14,
        "SongInfo"@.len() == 8,
        "AlbumInfo"@.len() == 9,
        "Verify"@[3] == 'i',
        "Status"@[3] == 't',
        "Search"@[3] == 'r',
        "Delete"@[3] == 'e',
        "Shutdown"@[2] == 'u',
        "QueueAdd"@[2] == 'e',
        "Download"@[2] == 'w',
        "SongInfo"@[2] == 'n',
        "FetchArtists"@[0] == 'F',
        "VolumeAdjust"@[0] == 'V',
        "FetchAlbums"@[0] == 'F',
        "QueueRemove"@[0] == 'Q',
        "PlaylistNew"@[0] == 'P',
        "FetchPlaylists"@[8] == 'y',
        "PlaylistUpload"@[8] == 'U',
        "PlaylistDelete"@[8] == 'D',
        "Scan"@[1] == 'c',
        "Scan"@[2] == 'a',
        "Play"@[1] == 'l',
        "Play"@[2] == 'a',
        "Stop"@[1] == 't',
        "Stop"@[2] == 'o',
        "Skip"@[1] == 'k',
        "Skip"@[2] == 'i',
        "Star"@[1] == 't',
        "Star"@[2] == 'a',
        "VolumeSet"@[0] == 'V',
        "AlbumInfo"@[0] == 'A',
{
    reveal_strlit("Verify");
    reveal_strlit("Shutdown");
    reveal_strlit("FetchArtists");
    reveal_strlit("FetchAlbums");
    reveal_strlit("FetchPlaylists");
    reveal_strlit("FetchSongs");
    reveal_strlit("Scan");
    reveal_strlit("Status");
    reveal_strlit("Restart");
    reveal_strlit("Play");
    reveal_strlit("Stop");
    reveal_strlit("Pause");
    reveal_strlit("Skip");
    reveal_strlit("QueueAdd");
    reveal_strlit("QueueRemove");
    reveal_strlit("VolumeAdjust");
    reveal_strlit("VolumeSet");
    reveal_strlit("Search");
    reveal_strlit("Download");
    reveal_strlit("Delete");
    reveal_strlit("Star");
    reveal_strlit("PlaylistDownload");
    reveal_strlit("PlaylistUpload");
    reveal_strlit("PlaylistNew");
    reveal_strlit("PlaylistAddTo");
    reveal_strlit("PlaylistRemoveFrom");
    reveal_strlit("PlaylistDelete");
    reveal_strlit("SongInfo");
    reveal_strlit("AlbumInfo");
}

/// Reads a command from an object of one member.
fn member_command_of(m: &serde_json::Map<String, Value>) -> (r: Option<Commands>)
    requires
        has_size(object_model(*m), 1),
    ensures
        viewed(r) == member_command(
            object_model(*m).dom().choose(),
            object_model(*m)[object_model(*m).dom().choose()],
        ),
{
    let ghost members = object_model(*m);
    proof {
        Set::lemma_is_singleton(members.dom());
        assert(members.dom().contains(members.dom().choose()));
        command_names();
    }
    match object_get(m, "QueueAdd") {
        Some(payload) => {
            proof {
                only_member(members, "QueueAdd"@);
            }
            return if value_is_null(payload) {
                None
            } else {
                queue_add_of_value(payload)
            };
        },
        None => {},
    }
    match object_get(m, "QueueRemove") {
        Some(payload) => {
            proof {
                only_member(members, "QueueRemove"@);
            }
            return if value_is_null(payload) {
                None
            } else {
                match item_of_value(payload) {
                    Some(id) => Some(Commands::QueueRemove(id)),
                    None => None,
                }
            };
        },
        None => {},
    }
    match object_get(m, "VolumeAdjust") {
        Some(payload) => {
            proof {
                only_member(members, "VolumeAdjust"@);
            }
            return if value_is_null(payload) {
                None
            } else {
                match u8_of_value(payload) {
                    Some(amount) => Some(Commands::VolumeAdjust(amount)),
                    None => None,
                }
            };
        },
        None => {},
    }
    match object_get(m, "VolumeSet") {
        Some(payload) => {
            proof {
                only_member(members, "VolumeSet"@);
            }
            return if value_is_null(payload) {
                None
            } else {
                match u8_of_value(payload) {
                    Some(amount) => Some(Commands::VolumeSet(amount)),
                    None => None,
                }
            };
        },
        None => {},
    }
    match object_get(m, "Search") {
        Some(payload) => {
            proof {
                only_member(members, "Search"@);
            }
            return if value_is_null(payload) {
                None
            } else {
                match value_as_str(payload) {
                    Some(query) => Some(Commands::Search(query.to_owned())),
                    None => None,
                }
            };
        },
        None => {},
    }
    match object_get(m, "Download") {
        Some(payload) => {
            proof {
                only_member(members, "Download"@);
            }
            return if value_is_null(payload) {
                None
            } else {
                match item_of_value(payload) {
                    Some(id) => Some(Commands::Download(id)),
                    None => None,
                }
            };
        },
        None => {},
    }
    match object_get(m, "Delete") {
        Some(payload) => {
            proof {
                only_member(members, "Delete"@);
            }
            return if value_is_null(payload) {
                None
            } else {
                match item_of_value(payload) {
                    Some(id) => Some(Commands::Delete(id)),
                    None => None,
                }
            };
        },
        None => {},
    }
    match object_get(m, "Star") {
        Some(payload) => {
            proof {
                only_member(members, "Star"@);
            }
            return if value_is_null(payload) {
                None
            } else {
                match item_of_value(payload) {
                    Some(id) => Some(Commands::Star(id)),
                    None => None,
                }
            };
        },
        None => {},
    }
    match object_get(m, "PlaylistDownload") {
        Some(payload) => {
            proof {
                only_member(members, "PlaylistDownload"@);
            }
            return if value_is_null(payload) {
                None
            } else {
                match item_of_value(payload) {
                    Some(id) => Some(Commands::PlaylistDownload(id)),
                    None => None,
                }
            };
        },
        None => {},
    }
    match object_get(m, "PlaylistUpload") {
        Some(payload) => {
            proof {
                only_member(members, "PlaylistUpload"@);
            }
            return if value_is_null(payload) {
                None
            } else {
                match item_of_value(payload) {
                    Some(id) => Some(Commands::PlaylistUpload(id)),
                    None => None,
                }
            };
        },
        None => {},
    }
    match object_get(m, "PlaylistNew") {
        Some(payload) => {
            proof {
                only_member(members, "PlaylistNew"@);
            }
            return if value_is_null(payload) {
                None
            } else {
                playlist_new_of_value(payload)
            };
        },
        None => {},
    }
    match object_get(m, "PlaylistAddTo") {
        Some(payload) => {
            proof {
                only_member(members, "PlaylistAddTo"@);
            }
            return if value_is_null(payload) {
                None
            } else {
                match playlist_entry_of_value(payload) {
                    Some((playlist, id)) => Some(Commands::PlaylistAddTo { playlist, id }),
                    None => None,
                }
            };
        },
        None => {},
    }
    match object_get(m, "PlaylistRemoveFrom") {
        Some(payload) => {
            proof {
                only_member(members, "PlaylistRemoveFrom"@);
            }
            return if value_is_null(payload) {
                None
            } else {
                match playlist_entry_of_value(payload) {
                    Some((playlist, id)) => Some(Commands::PlaylistRemoveFrom { playlist, id }),
                    None => None,
                }
            };
        },
        None => {},
    }
    match object_get(m, "PlaylistDelete") {
        Some(payload) => {
            proof {
                only_member(members, "PlaylistDelete"@);
            }
            return if value_is_null(payload) {
                None
            } else {
                match item_of_value(payload) {
                    Some(id) => Some(Commands::PlaylistDelete(id)),
                    None => None,
                }
            };
        },
        None => {},
    }
    match object_get(m, "SongInfo") {
        Some(payload) => {
            proof {
                only_member(members, "SongInfo"@);
            }
            return if value_is_null(payload) {
                None
            } else {
                match item_of_value(payload) {
                    Some(id) => Some(Commands::SongInfo(id)),
                    None => None,
                }
            };
        },
        None => {},
    }
    match object_get(m, "AlbumInfo") {
        Some(payload) => {
            proof {
                only_member(members, "AlbumInfo"@);
            }
            return if value_is_null(payload) {
                None
            } else {
                match item_of_value(payload) {
                    Some(id) => Some(Commands::AlbumInfo(id)),
                    None => None,
                }
            };
        },
        None => {},
    }
    match object_get(m, "Verify") {
        Some(payload) => {
            proof {
                only_member(members, "Verify"@);
            }
            return if value_is_null(payload) {
                Some(Commands::Verify)
            } else {
                None
            };
        },
        None => {},
    }
    match object_get(m, "Shutdown") {
        Some(payload) => {
            proof {
                only_member(members, "Shutdown"@);
            }
            return if value_is_null(payload) {
                Some(Commands::Shutdown)
            } else {
                None
            };
        },
        None => {},
    }
    match object_get(m, "FetchArtists") {
        Some(payload) => {
            proof {
                only_member(members, "FetchArtists"@);
            }
            return if value_is_null(payload) {
                Some(Commands::FetchArtists)
            } else {
                None
            };
        },
        None => {},
    }
    match object_get(m, "FetchAlbums") {
        Some(payload) => {
            proof {
                only_member(members, "FetchAlbums"@);
            }
            return if value_is_null(payload) {
                Some(Commands::FetchAlbums)
            } else {
                None
            };
        },
        None => {},
    }
    match object_get(m, "FetchPlaylists") {
        Some(payload) => {
            proof {
                only_member(members, "FetchPlaylists"@);
            }
            return if value_is_null(payload) {
                Some(Commands::FetchPlaylists)
            } else {
                None
            };
        },
        None => {},
    }
    match object_get(m, "FetchSongs") {
        Some(payload) => {
            proof {
                only_member(members, "FetchSongs"@);
            }
            return if value_is_null(payload) {
                Some(Commands::FetchSongs)
            } else {
                None
            };
        },
        None => {},
    }
    match object_get(m, "Scan") {
        Some(payload) => {
            proof {
                only_member(members, "Scan"@);
            }
            return if value_is_null(payload) {
                Some(Commands::Scan)
            } else {
                None
            };
        },
        None => {},
    }
    match object_get(m, "Status") {
        Some(payload) => {
            proof {
                only_member(members, "Status"@);
            }
            return if value_is_null(payload) {
                Some(Commands::Status)
            } else {
                None
            };
        },
        None => {},
    }
    match object_get(m, "Restart") {
        Some(payload) => {
            proof {
                only_member(members, "Restart"@);
            }
            return if value_is_null(payload) {
                Some(Commands::Restart)
            } else {
                None
            };
        },
        None => {},
    }
    match object_get(m, "Play") {
        Some(payload) => {
            proof {
                only_member(members, "Play"@);
            }
            return if value_is_null(payload) {
                Some(Commands::Play)
            } else {
                None
            };
        },
        None => {},
    }
    match object_get(m, "Stop") {
        Some(payload) => {
            proof {
                only_member(members, "Stop"@);
            }
            return if value_is_null(payload) {
                Some(Commands::Stop)
            } else {
                None
            };
        },
        None => {},
    }
    match object_get(m, "Pause") {
        Some(payload) => {
            proof {
                only_member(members, "Pause"@);
            }
            return if value_is_null(payload) {
                Some(Commands::Pause)
            } else {
                None
            };
        },
        None => {},
    }
    match object_get(m, "Skip") {
        Some(payload) => {
            proof {
                only_member(members, "Skip"@);
            }
            return if value_is_null(payload) {
                Some(Commands::Skip)
            } else {
                None
            };
        },
        None => {},
    }
    None
}

/// Reads a command from a document.
pub fn command_of_value(v: &Value) -> (r: Option<Commands>)
    ensures
        viewed(r) == command_of_json(value_model(*v)),
{
    match value_as_str(v) {
        Some(tag) => bare_command_of(tag),
        None => match value_as_object(v) {
            Some(m) => if object_len(m) == 1 {
                member_command_of(m)
            } else {
                None
            },
            None => None,
        },
    }
}

/// Reads a reply of the given kind from a document.
pub fn reply_of_value(kind: ReplyKind, v: &Value) -> (r: Option<Reply>)
    ensures
        viewed(r) == reply_of_json(kind, value_model(*v)),
{
    match kind {
        ReplyKind::Identity => match bytes_of_value(v) {
            Some(bytes) => Some(Reply::Identity(bytes)),
            None => None,
        },
        ReplyKind::Done => match value_as_bool(v) {
            Some(done) => Some(Reply::Done(done)),
            None => None,
        },
        ReplyKind::Items => match items_of_value(v) {
            Some(items) => Some(Reply::Items(items)),
            None => None,
        },
        ReplyKind::Status => match status_of_value(v) {
            Some(status) => Some(Reply::Status(status)),
            None => None,
        },
        ReplyKind::SongInfo => if value_is_null(v) {
            Some(Reply::SongInfo(None))
        } else {
            match song_info_of_value(v) {
                Some(info) => Some(Reply::SongInfo(Some(info))),
                None => None,
            }
        },
        ReplyKind::AlbumInfo => if value_is_null(v) {
            Some(Reply::AlbumInfo(None))
        } else {
            match album_info_of_value(v) {
                Some(info) => Some(Reply::AlbumInfo(Some(info))),
                None => None,
            }
        },
    }
}

/// Decodes the payload of a record as a reply of the given kind: the reply
/// where the text is a JSON document that stands for one of that kind, and
/// an invalid record for any other text.
pub fn decode_reply(kind: ReplyKind, payload: &str) -> (r: Result<Reply, SlibError>)
    ensures
        match reply_of_text(kind, payload@) {
            Some(reply) => r is Ok && r->Ok_0@ == reply,
            None => r == Err::<Reply, SlibError>(SlibError::InvalidRecord),
        },
{
    match value_from_text(payload) {
        Ok(v) => match reply_of_value(kind, &v) {
            Some(reply) => Ok(reply),
            None => Err(SlibError::InvalidRecord),
        },
        Err(_) => Err(SlibError::InvalidRecord),
    }
}

/// Decodes the payload of a record as a command: the command where the text
/// is a JSON document that stands for one, and an invalid record for any
/// other text.
pub fn decode_command(payload: &str) -> (r: Result<Commands, SlibError>)
    ensures
        match command_of_text(payload@) {
            Some(c) => r is Ok && r->Ok_0@ == c,
            None => r == Err::<Commands, SlibError>(SlibError::InvalidRecord),
        },
{
    match value_from_text(payload) {
        Ok(v) => match command_of_value(&v) {
            Some(c) => Ok(c),
            None => Err(SlibError::InvalidRecord),
        },
        Err(_) => Err(SlibError::InvalidRecord),
    }
}

} // verus!
