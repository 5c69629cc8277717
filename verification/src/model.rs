//! The messages of the protocol: the commands a client may send and the
//! values the daemon answers with. Each type has a view that holds its
//! strings and vectors as sequences; the contracts speak of the views.

use vstd::prelude::*;

verus! {

/// The view of what an optional value holds.
pub open spec fn viewed<T: View>(o: Option<T>) -> Option<T::V> {
    match o {
        Some(x) => Some(x@),
        None => None,
    }
}

/// A library entity: a song, an album, an artist or a playlist.
#[derive(Debug, PartialEq, Eq, Clone)]
pub struct Item {
    pub name: String,
    pub id: String,
    /// The path of the artwork; empty where there is none.
    pub image_path: String,
}

pub struct ItemView {
    pub name: Seq<char>,
    pub id: Seq<char>,
    pub image_path: Seq<char>,
}

impl View for Item {
    type V = ItemView;

    open spec fn view(&self) -> ItemView {
        ItemView { name: self.name@, id: self.id@, image_path: self.image_path@ }
    }
}

impl Item {
    /// A copy of the item.
    pub fn copy(&self) -> (r: Item)
        ensures
            r@ == self@,
    {
        Item {
            name: self.name.clone(),
            id: self.id.clone(),
            image_path: self.image_path.clone(),
        }
    }
}

/// A copy of a list of items, in the same order.
pub fn copy_items(items: &Vec<Item>) -> (r: Vec<Item>)
    ensures
        item_views(r@) == item_views(items@),
{
    let mut out: Vec<Item> = Vec::new();
    let mut k: usize = 0;
    while k < items.len()
        invariant
            k <= items.len(),
            out@.len() == k,
            forall|j: int| 0 <= j < k ==> (#[trigger] out@[j])@ == items@[j]@,
        decreases items.len() - k,
    {
        out.push(items[k].copy());
        k += 1;
    }
    proof {
        assert(item_views(out@) =~= item_views(items@));
    }
    out
}

/// The views of a sequence of items, in order.
pub open spec fn item_views(items: Seq<Item>) -> Seq<ItemView> {
    Seq::new(items.len(), |i: int| items[i]@)
}

/// A snapshot of playback. The queue is in play order.
#[derive(Debug, PartialEq, Eq, Clone)]
pub struct Status {
    pub playing: bool,
    pub current_song: Option<Item>,
    pub queue: Vec<Item>,
}

pub struct StatusView {
    pub playing: bool,
    pub current_song: Option<ItemView>,
    pub queue: Seq<ItemView>,
}

impl View for Status {
    type V = StatusView;

    open spec fn view(&self) -> StatusView {
        StatusView {
            playing: self.playing,
            current_song: viewed(self.current_song),
            queue: item_views(self.queue@),
        }
    }
}

impl Status {
    /// A copy of the snapshot.
    pub fn copy(&self) -> (r: Status)
        ensures
            r@ == self@,
    {
        let current_song = match &self.current_song {
            Some(item) => Some(item.copy()),
            None => None,
        };
        Status { playing: self.playing, current_song, queue: copy_items(&self.queue) }
    }
}

/// How long a song plays: whole seconds and the nanoseconds beyond them.
#[derive(Debug, PartialEq, Eq, Clone, Copy)]
pub struct Length {
    pub secs: u64,
    pub nanos: u32,
}

/// What is known of a song.
#[derive(Debug, PartialEq, Eq)]
pub struct SongInfo {
    pub length: Length,
    pub album: Item,
    pub artist: String,
}

pub struct SongInfoView {
    pub length: Length,
    pub album: ItemView,
    pub artist: Seq<char>,
}

impl View for SongInfo {
    type V = SongInfoView;

    open spec fn view(&self) -> SongInfoView {
        SongInfoView { length: self.length, album: self.album@, artist: self.artist@ }
    }
}

/// What is known of an album. The songs are in track order.
#[derive(Debug, PartialEq, Eq)]
pub struct AlbumInfo {
    pub songs: Vec<Item>,
    pub artist: String,
}

pub struct AlbumInfoView {
    pub songs: Seq<ItemView>,
    pub artist: Seq<char>,
}

impl View for AlbumInfo {
    type V = AlbumInfoView;

    open spec fn view(&self) -> AlbumInfoView {
        AlbumInfoView { songs: item_views(self.songs@), artist: self.artist@ }
    }
}

/// One request to the daemon.
#[derive(Debug, PartialEq, Eq)]
pub enum Commands {
    /// Ask for the daemon's build identity.
    Verify,
    /// Shut the daemon down.
    Shutdown,
    /// Return all artists.
    FetchArtists,
    /// Return all albums.
    FetchAlbums,
    /// Return all playlists.
    FetchPlaylists,
    /// Return all songs.
    FetchSongs,
    /// Tell the media server to rescan.
    Scan,
    /// Get the status of playback.
    Status,
    /// Restart the song that is playing.
    Restart,
    /// Resume playback.
    Play,
    /// Stop and clear the queue.
    Stop,
    /// Pause playback.
    Pause,
    /// Skip the song that is playing.
    Skip,
    /// Add a song to the queue.
    QueueAdd { id: Item, position: u8 },
    /// Remove a song from the queue.
    QueueRemove(Item),
    /// Adjust the volume by a percentage.
    VolumeAdjust(u8),
    /// Set the volume to a percentage.
    VolumeSet(u8),
    /// Search for a query.
    Search(String),
    /// Download a song for offline playback.
    Download(Item),
    /// Delete a song from offline playback.
    Delete(Item),
    /// Mark a song as a favourite.
    Star(Item),
    /// Download all the songs of a playlist.
    PlaylistDownload(Item),
    /// Upload the changes of a local playlist.
    PlaylistUpload(Item),
    /// Create a local playlist.
    PlaylistNew { name: String },
    /// Add a song to a local playlist.
    PlaylistAddTo { playlist: Item, id: Item },
    /// Remove a song from a local playlist.
    PlaylistRemoveFrom { playlist: Item, id: Item },
    /// Delete a local playlist.
    PlaylistDelete(Item),
    /// Get what is known of a song.
    SongInfo(Item),
    /// Get what is known of an album.
    AlbumInfo(Item),
}

pub enum CommandsView {
    Verify,
    Shutdown,
    FetchArtists,
    FetchAlbums,
    FetchPlaylists,
    FetchSongs,
    Scan,
    Status,
    Restart,
    Play,
    Stop,
    Pause,
    Skip,
    QueueAdd { id: ItemView, position: u8 },
    QueueRemove(ItemView),
    VolumeAdjust(u8),
    VolumeSet(u8),
    Search(Seq<char>),
    Download(ItemView),
    Delete(ItemView),
    Star(ItemView),
    PlaylistDownload(ItemView),
    PlaylistUpload(ItemView),
    PlaylistNew { name: Seq<char> },
    PlaylistAddTo { playlist: ItemView, id: ItemView },
    PlaylistRemoveFrom { playlist: ItemView, id: ItemView },
    PlaylistDelete(ItemView),
    SongInfo(ItemView),
    AlbumInfo(ItemView),
}

impl View for Commands {
    type V = CommandsView;

    open spec fn view(&self) -> CommandsView {
        match *self {
            Commands::Verify => CommandsView::Verify,
            Commands::Shutdown => CommandsView::Shutdown,
            Commands::FetchArtists => CommandsView::FetchArtists,
            Commands::FetchAlbums => CommandsView::FetchAlbums,
            Commands::FetchPlaylists => CommandsView::FetchPlaylists,
            Commands::FetchSongs => CommandsView::FetchSongs,
            Commands::Scan => CommandsView::Scan,
            Commands::Status => CommandsView::Status,
            Commands::Restart => CommandsView::Restart,
            Commands::Play => CommandsView::Play,
            Commands::Stop => CommandsView::Stop,
            Commands::Pause => CommandsView::Pause,
            Commands::Skip => CommandsView::Skip,
            Commands::QueueAdd { id, position } => CommandsView::QueueAdd { id: id@, position },
            Commands::QueueRemove(id) => CommandsView::QueueRemove(id@),
            Commands::VolumeAdjust(amount) => CommandsView::VolumeAdjust(amount),
            Commands::VolumeSet(amount) => CommandsView::VolumeSet(amount),
            Commands::Search(query) => CommandsView::Search(query@),
            Commands::Download(id) => CommandsView::Download(id@),
            Commands::Delete(id) => CommandsView::Delete(id@),
            Commands::Star(id) => CommandsView::Star(id@),
            Commands::PlaylistDownload(id) => CommandsView::PlaylistDownload(id@),
            Commands::PlaylistUpload(id) => CommandsView::PlaylistUpload(id@),
            Commands::PlaylistNew { name } => CommandsView::PlaylistNew { name: name@ },
            Commands::PlaylistAddTo { playlist, id } => CommandsView::PlaylistAddTo {
                playlist: playlist@,
                id: id@,
            },
            Commands::PlaylistRemoveFrom { playlist, id } => CommandsView::PlaylistRemoveFrom {
                playlist: playlist@,
                id: id@,
            },
            Commands::PlaylistDelete(id) => CommandsView::PlaylistDelete(id@),
            Commands::SongInfo(id) => CommandsView::SongInfo(id@),
            Commands::AlbumInfo(id) => CommandsView::AlbumInfo(id@),
        }
    }
}

/// The answer to one command, before it is encoded.
#[derive(Debug, PartialEq, Eq)]
pub enum Reply {
    /// The daemon's build identity.
    Identity(Vec<u8>),
    /// Whether an operation succeeded.
    Done(bool),
    /// A list of entities, in the daemon's order.
    Items(Vec<Item>),
    /// A snapshot of playback.
    Status(Status),
    /// What is known of a song, if anything.
    SongInfo(Option<SongInfo>),
    /// What is known of an album, if anything.
    AlbumInfo(Option<AlbumInfo>),
}

pub enum ReplyView {
    Identity(Seq<u8>),
    Done(bool),
    Items(Seq<ItemView>),
    Status(StatusView),
    SongInfo(Option<SongInfoView>),
    AlbumInfo(Option<AlbumInfoView>),
}

impl View for Reply {
    type V = ReplyView;

    open spec fn view(&self) -> ReplyView {
        match *self {
            Reply::Identity(bytes) => ReplyView::Identity(bytes@),
            Reply::Done(done) => ReplyView::Done(done),
            Reply::Items(items) => ReplyView::Items(item_views(items@)),
            Reply::Status(status) => ReplyView::Status(status@),
            Reply::SongInfo(info) => ReplyView::SongInfo(viewed(info)),
            Reply::AlbumInfo(info) => ReplyView::AlbumInfo(viewed(info)),
        }
    }
}

/// The kinds of reply.
#[derive(Debug, PartialEq, Eq, Clone, Copy)]
pub enum ReplyKind {
    Identity,
    Done,
    Items,
    Status,
    SongInfo,
    AlbumInfo,
}

/// The kind of a reply.
pub open spec fn kind_of_reply(r: ReplyView) -> ReplyKind {
    match r {
        ReplyView::Identity(_) => ReplyKind::Identity,
        ReplyView::Done(_) => ReplyKind::Done,
        ReplyView::Items(_) => ReplyKind::Items,
        ReplyView::Status(_) => ReplyKind::Status,
        ReplyView::SongInfo(_) => ReplyKind::SongInfo,
        ReplyView::AlbumInfo(_) => ReplyKind::AlbumInfo,
    }
}

/// The kind of reply that a command is answered with.
pub open spec fn kind_of_command(c: CommandsView) -> ReplyKind {
    match c {
        CommandsView::Verify => ReplyKind::Identity,
        CommandsView::FetchArtists => ReplyKind::Items,
        CommandsView::FetchAlbums => ReplyKind::Items,
        CommandsView::FetchPlaylists => ReplyKind::Items,
        CommandsView::FetchSongs => ReplyKind::Items,
        CommandsView::Search(_) => ReplyKind::Items,
        CommandsView::Status => ReplyKind::Status,
        CommandsView::SongInfo(_) => ReplyKind::SongInfo,
        CommandsView::AlbumInfo(_) => ReplyKind::AlbumInfo,
        _ => ReplyKind::Done,
    }
}

impl Commands {
    /// The kind of reply that the command is answered with.
    pub fn reply_kind(&self) -> (k: ReplyKind)
        ensures
            k == kind_of_command(self@),
    {
        match self {
            Commands::Verify => ReplyKind::Identity,
            Commands::FetchArtists => ReplyKind::Items,
            Commands::FetchAlbums => ReplyKind::Items,
            Commands::FetchPlaylists => ReplyKind::Items,
            Commands::FetchSongs => ReplyKind::Items,
            Commands::Search(_) => ReplyKind::Items,
            Commands::Status => ReplyKind::Status,
            Commands::SongInfo(_) => ReplyKind::SongInfo,
            Commands::AlbumInfo(_) => ReplyKind::AlbumInfo,
            _ => ReplyKind::Done,
        }
    }
}

/// What can go wrong on either side of the protocol.
#[derive(Debug, PartialEq, Eq)]
pub enum SlibError {
    /// A command that the daemon does not know, by its number.
    InvalidCommand(u8),
    /// A record that is no well-formed encoding of what was expected.
    InvalidRecord,
    /// The connection to the daemon could not be made, written or read.
    TransportFailed,
    /// The daemon was built from other sources: the identity it reported.
    InvalidServerHash(Vec<u8>),
}

} // verus!
