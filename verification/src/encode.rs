//! From messages to JSON: for each type the document that stands for a value
//! of it, and the function that builds that document and prints it.

use crate::json::{
    json_text, models, no_members, object_insert, object_new, value_array, value_bool,
    value_model, value_null, value_object, value_str, value_to_text, value_u64, Json,
};
use crate::model::{
    item_views, AlbumInfo, AlbumInfoView, Commands, CommandsView, Item, ItemView, Length, Reply,
    ReplyView, SongInfo, SongInfoView, Status, StatusView,
};
use serde_json::Value;
use vstd::prelude::*;

verus! {

/// An item is an object of three strings.
pub open spec fn item_json(i: ItemView) -> Json {
    Json::Obj(
        no_members().insert("name"@, Json::Str(i.name)).insert("id"@, Json::Str(i.id)).insert(
            "image_path"@,
            Json::Str(i.image_path),
        ),
    )
}

/// A list of items is the array of their objects, in order.
pub open spec fn items_json(items: Seq<ItemView>) -> Json {
    Json::Arr(Seq::new(items.len(), |k: int| item_json(items[k])))
}

/// A byte sequence is the array of its bytes as numbers, in order.
pub open spec fn bytes_json(bytes: Seq<u8>) -> Json {
    Json::Arr(Seq::new(bytes.len(), |k: int| Json::Uint(bytes[k] as u64)))
}

/// An absent item is `null`.
pub open spec fn optional_item_json(item: Option<ItemView>) -> Json {
    match item {
        Some(i) => item_json(i),
        None => Json::Null,
    }
}

pub open spec fn status_json(s: StatusView) -> Json {
    Json::Obj(
        no_members().insert("playing"@, Json::Bool(s.playing)).insert(
            "current_song"@,
            optional_item_json(s.current_song),
        ).insert("queue"@, items_json(s.queue)),
    )
}

pub open spec fn length_json(l: Length) -> Json {
    Json::Obj(
        no_members().insert("secs"@, Json::Uint(l.secs)).insert("nanos"@, Json::Uint(l.nanos as u64)),
    )
}

pub open spec fn song_info_json(s: SongInfoView) -> Json {
    Json::Obj(
        no_members().insert("length"@, length_json(s.length)).insert(
            "album"@,
            item_json(s.album),
        ).insert("artist"@, Json::Str(s.artist)),
    )
}

pub open spec fn album_info_json(a: AlbumInfoView) -> Json {
    Json::Obj(
        no_members().insert("songs"@, items_json(a.songs)).insert("artist"@, Json::Str(a.artist)),
    )
}

/// The document that stands for a reply.
pub open spec fn reply_json(r: ReplyView) -> Json {
    match r {
        ReplyView::Identity(bytes) => bytes_json(bytes),
        ReplyView::Done(done) => Json::Bool(done),
        ReplyView::Items(items) => items_json(items),
        ReplyView::Status(status) => status_json(status),
        ReplyView::SongInfo(Some(info)) => song_info_json(info),
        ReplyView::SongInfo(None) => Json::Null,
        ReplyView::AlbumInfo(Some(info)) => album_info_json(info),
        ReplyView::AlbumInfo(None) => Json::Null,
    }
}

/// The name under which a command travels.
pub open spec fn command_tag(c: CommandsView) -> Seq<char> {
    match c {
        CommandsView::Verify => "Verify"@,
        CommandsView::Shutdown => "Shutdown"@,
        CommandsView::FetchArtists => "FetchArtists"@,
        CommandsView::FetchAlbums => "FetchAlbums"@,
        CommandsView::FetchPlaylists => "FetchPlaylists"@,
        CommandsView::FetchSongs => "FetchSongs"@,
        CommandsView::Scan => "Scan"@,
        CommandsView::Status => "Status"@,
        CommandsView::Restart => "Restart"@,
        CommandsView::Play => "Play"@,
        CommandsView::Stop => "Stop"@,
        CommandsView::Pause => "Pause"@,
        CommandsView::Skip => "Skip"@,
        CommandsView::QueueAdd { .. } => "QueueAdd"@,
        CommandsView::QueueRemove(_) => "QueueRemove"@,
        CommandsView::VolumeAdjust(_) => "VolumeAdjust"@,
        CommandsView::VolumeSet(_) => "VolumeSet"@,
        CommandsView::Search(_) => "Search"@,
        CommandsView::Download(_) => "Download"@,
        CommandsView::Delete(_) => "Delete"@,
        CommandsView::Star(_) => "Star"@,
        CommandsView::PlaylistDownload(_) => "PlaylistDownload"@,
        CommandsView::PlaylistUpload(_) => "PlaylistUpload"@,
        CommandsView::PlaylistNew { .. } => "PlaylistNew"@,
        CommandsView::PlaylistAddTo { .. } => "PlaylistAddTo"@,
        CommandsView::PlaylistRemoveFrom { .. } => "PlaylistRemoveFrom"@,
        CommandsView::PlaylistDelete(_) => "PlaylistDelete"@,
        CommandsView::SongInfo(_) => "SongInfo"@,
        CommandsView::AlbumInfo(_) => "AlbumInfo"@,
    }
}

/// The object of a playlist and a song, as two commands carry it.
pub open spec fn playlist_entry_json(playlist: ItemView, id: ItemView) -> Json {
    Json::Obj(no_members().insert("playlist"@, item_json(playlist)).insert("id"@, item_json(id)))
}

/// What a command carries besides its name, if anything.
pub open spec fn command_payload(c: CommandsView) -> Option<Json> {
    match c {
        CommandsView::QueueAdd { id, position } => Some(
            Json::Obj(
                no_members().insert("id"@, item_json(id)).insert(
                    "position"@,
                    Json::Uint(position as u64),
                ),
            ),
        ),
        CommandsView::QueueRemove(id) => Some(item_json(id)),
        CommandsView::VolumeAdjust(amount) => Some(Json::Uint(amount as u64)),
        CommandsView::VolumeSet(amount) => Some(Json::Uint(amount as u64)),
        CommandsView::Search(query) => Some(Json::Str(query)),
        CommandsView::Download(id) => Some(item_json(id)),
        CommandsView::Delete(id) => Some(item_json(id)),
        CommandsView::Star(id) => Some(item_json(id)),
        CommandsView::PlaylistDownload(id) => Some(item_json(id)),
        CommandsView::PlaylistUpload(id) => Some(item_json(id)),
        CommandsView::PlaylistNew { name } => Some(
            Json::Obj(no_members().insert("name"@, Json::Str(name))),
        ),
        CommandsView::PlaylistAddTo { playlist, id } => Some(playlist_entry_json(playlist, id)),
        CommandsView::PlaylistRemoveFrom { playlist, id } => Some(
            playlist_entry_json(playlist, id),
        ),
        CommandsView::PlaylistDelete(id) => Some(item_json(id)),
        CommandsView::SongInfo(id) => Some(item_json(id)),
        CommandsView::AlbumInfo(id) => Some(item_json(id)),
        _ => None,
    }
}

/// The document that stands for a command: its name alone where it carries
/// nothing, else an object whose one member is the payload under that name.
pub open spec fn command_json(c: CommandsView) -> Json {
    match command_payload(c) {
        None => Json::Str(command_tag(c)),
        Some(payload) => Json::Obj(no_members().insert(command_tag(c), payload)),
    }
}

pub fn item_value(item: &Item) -> (v: Value)
    ensures
        value_model(v) == item_json(item@),
{
    let mut members = object_new();
    object_insert(&mut members, "name", value_str(item.name.as_str()));
    object_insert(&mut members, "id", value_str(item.id.as_str()));
    object_insert(&mut members, "image_path", value_str(item.image_path.as_str()));
    value_object(members)
}

pub fn items_value(items: &Vec<Item>) -> (v: Value)
    ensures
        value_model(v) == items_json(item_views(items@)),
{
    let mut out: Vec<Value> = Vec::new();
    let mut k: usize = 0;
    while k < items.len()
        invariant
            k <= items.len(),
            out@.len() == k,
            forall|j: int| 0 <= j < k ==> value_model(#[trigger] out@[j]) == item_json(items@[j]@),
        decreases items.len() - k,
    {
        out.push(item_value(&items[k]));
        k += 1;
    }
    proof {
        let views = item_views(items@);
        assert(models(out@) =~= Seq::new(views.len(), |k: int| item_json(views[k])));
    }
    value_array(out)
}

pub fn bytes_value(bytes: &[u8]) -> (v: Value)
    ensures
        value_model(v) == bytes_json(bytes@),
{
    let mut out: Vec<Value> = Vec::new();
    let mut k: usize = 0;
    while k < bytes.len()
        invariant
            k <= bytes.len(),
            out@.len() == k,
            forall|j: int| 0 <= j < k ==> value_model(#[trigger] out@[j]) == Json::Uint(bytes@[j] as u64),
        decreases bytes.len() - k,
    {
        out.push(value_u64(bytes[k] as u64));
        k += 1;
    }
    proof {
        assert(models(out@) =~= Seq::new(bytes@.len(), |k: int| Json::Uint(bytes@[k] as u64)));
    }
    value_array(out)
}

pub fn status_value(status: &Status) -> (v: Value)
    ensures
        value_model(v) == status_json(status@),
{
    let mut members = object_new();
    object_insert(&mut members, "playing", value_bool(status.playing));
    let current = match &status.current_song {
        Some(item) => item_value(item),
        None => value_null(),
    };
    object_insert(&mut members, "current_song", current);
    object_insert(&mut members, "queue", items_value(&status.queue));
    value_object(members)
}

pub fn length_value(length: Length) -> (v: Value)
    ensures
        value_model(v) == length_json(length),
{
    let mut members = object_new();
    object_insert(&mut members, "secs", value_u64(length.secs));
    object_insert(&mut members, "nanos", value_u64(length.nanos as u64));
    value_object(members)
}

pub fn song_info_value(info: &SongInfo) -> (v: Value)
    ensures
        value_model(v) == song_info_json(info@),
{
    let mut members = object_new();
    object_insert(&mut members, "length", length_value(info.length));
    object_insert(&mut members, "album", item_value(&info.album));
    object_insert(&mut members, "artist", value_str(info.artist.as_str()));
    value_object(members)
}

pub fn album_info_value(info: &AlbumInfo) -> (v: Value)
    ensures
        value_model(v) == album_info_json(info@),
{
    let mut members = object_new();
    object_insert(&mut members, "songs", items_value(&info.songs));
    object_insert(&mut members, "artist", value_str(info.artist.as_str()));
    value_object(members)
}

/// Builds the document that stands for a reply.
pub fn reply_value(reply: &Reply) -> (v: Value)
    ensures
        value_model(v) == reply_json(reply@),
{
    match reply {
        Reply::Identity(bytes) => bytes_value(bytes.as_slice()),
        Reply::Done(done) => value_bool(*done),
        Reply::Items(items) => items_value(items),
        Reply::Status(status) => status_value(status),
        Reply::SongInfo(Some(info)) => song_info_value(info),
        Reply::SongInfo(None) => value_null(),
        Reply::AlbumInfo(Some(info)) => album_info_value(info),
        Reply::AlbumInfo(None) => value_null(),
    }
}

/// The object with one member.
fn tagged(tag: &str, payload: Value) -> (v: Value)
    ensures
        value_model(v) == Json::Obj(no_members().insert(tag@, value_model(payload))),
{
    let mut members = object_new();
    object_insert(&mut members, tag, payload);
    value_object(members)
}

fn playlist_entry_value(playlist: &Item, id: &Item) -> (v: Value)
    ensures
        value_model(v) == playlist_entry_json(playlist@, id@),
{
    let mut members = object_new();
    object_insert(&mut members, "playlist", item_value(playlist));
    object_insert(&mut members, "id", item_value(id));
    value_object(members)
}

/// Builds the document that stands for a command.
pub fn command_value(command: &Commands) -> (v: Value)
    ensures
        value_model(v) == command_json(command@),
{
    match command {
        Commands::Verify => value_str("Verify"),
        Commands::Shutdown => value_str("Shutdown"),
        Commands::FetchArtists => value_str("FetchArtists"),
        Commands::FetchAlbums => value_str("FetchAlbums"),
        Commands::FetchPlaylists => value_str("FetchPlaylists"),
        Commands::FetchSongs => value_str("FetchSongs"),
        Commands::Scan => value_str("Scan"),
        Commands::Status => value_str("Status"),
        Commands::Restart => value_str("Restart"),
        Commands::Play => value_str("Play"),
        Commands::Stop => value_str("Stop"),
        Commands::Pause => value_str("Pause"),
        Commands::Skip => value_str("Skip"),
        Commands::QueueAdd { id, position } => {
            let mut members = object_new();
            object_insert(&mut members, "id", item_value(id));
            object_insert(&mut members, "position", value_u64(*position as u64));
            tagged("QueueAdd", value_object(members))
        },
        Commands::QueueRemove(id) => tagged("QueueRemove", item_value(id)),
        Commands::VolumeAdjust(amount) => tagged("VolumeAdjust", value_u64(*amount as u64)),
        Commands::VolumeSet(amount) => tagged("VolumeSet", value_u64(*amount as u64)),
        Commands::Search(query) => tagged("Search", value_str(query.as_str())),
        Commands::Download(id) => tagged("Download", item_value(id)),
        Commands::Delete(id) => tagged("Delete", item_value(id)),
        Commands::Star(id) => tagged("Star", item_value(id)),
        Commands::PlaylistDownload(id) => tagged("PlaylistDownload", item_value(id)),
        Commands::PlaylistUpload(id) => tagged("PlaylistUpload", item_value(id)),
        Commands::PlaylistNew { name } => {
            let mut members = object_new();
            object_insert(&mut members, "name", value_str(name.as_str()));
            tagged("PlaylistNew", value_object(members))
        },
        Commands::PlaylistAddTo { playlist, id } => tagged(
            "PlaylistAddTo",
            playlist_entry_value(playlist, id),
        ),
        Commands::PlaylistRemoveFrom { playlist, id } => tagged(
            "PlaylistRemoveFrom",
            playlist_entry_value(playlist, id),
        ),
        Commands::PlaylistDelete(id) => tagged("PlaylistDelete", item_value(id)),
        Commands::SongInfo(id) => tagged("SongInfo", item_value(id)),
        Commands::AlbumInfo(id) => tagged("AlbumInfo", item_value(id)),
    }
}

/// The text of a document.
fn text_of(v: &Value) -> (s: String)
    ensures
        s@ == json_text(value_model(*v)),
        !s@.contains('\n'),
{
    match value_to_text(v) {
        Ok(s) => s,
        Err(_) => String::new(),
    }
}

/// Encodes a command as the payload of a record: the compact text of its
/// document, which holds no line break.
pub fn encode_command(command: &Commands) -> (s: String)
    ensures
        s@ == json_text(command_json(command@)),
        !s@.contains('\n'),
{
    let v = command_value(command);
    text_of(&v)
}

/// Encodes a reply as the payload of a record: the compact text of its
/// document, which holds no line break.
pub fn encode_reply(reply: &Reply) -> (s: String)
    ensures
        s@ == json_text(reply_json(reply@)),
        !s@.contains('\n'),
{
    let v = reply_value(reply);
    text_of(&v)
}

} // verus!
