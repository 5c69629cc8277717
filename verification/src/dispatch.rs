//! The dispatcher: the operations that a daemon offers, and the function that
//! answers one command by the one operation that belongs to it.

use crate::encode::{encode_reply, reply_json};
use crate::json::json_text;
use crate::model::{
    item_views, kind_of_command, kind_of_reply, viewed, AlbumInfo, Commands, CommandsView, Item,
    Reply, ReplyView, SongInfo, Status,
};
use vstd::prelude::*;

verus! {

/// That a reply is of the kind that the command is answered with.
pub open spec fn reply_fits(c: CommandsView, r: ReplyView) -> bool {
    kind_of_reply(r) == kind_of_command(c)
}

/// That `r` is an answer to `c` for a daemon of the given build: of the kind
/// that belongs to the command, and for `Verify` the build identity itself.
pub open spec fn answers(c: CommandsView, identity: Seq<u8>, r: ReplyView) -> bool {
    reply_fits(c, r) && (c is Verify ==> r == ReplyView::Identity(identity))
}

/// The bytes of a build identity as a vector.
pub fn identity_bytes(identity: &[u8; 32]) -> (bytes: Vec<u8>)
    ensures
        bytes@ == identity@,
{
    let mut bytes: Vec<u8> = Vec::new();
    let mut k: usize = 0;
    while k < 32
        invariant
            k <= 32,
            bytes@.len() == k,
            forall|j: int| 0 <= j < k ==> bytes@[j] == identity@[j],
        decreases 32 - k,
    {
        bytes.push(identity[k]);
        k += 1;
    }
    proof {
        assert(bytes@ =~= identity@);
    }
    bytes
}

/// The operations of a daemon, one for each command but `Verify`. An
/// operation reports failure by `false` or `None`.
pub trait Daemon {
    /// Asks the daemon to stop; `true` allows the session loop to end.
    fn shutdown(&self) -> bool;

    /// Return all artists.
    fn fetch_artists(&self) -> Vec<Item>;

    /// Return all albums.
    fn fetch_albums(&self) -> Vec<Item>;

    /// Return all playlists.
    fn fetch_playlists(&self) -> Vec<Item>;

    /// Return all songs.
    fn fetch_songs(&self) -> Vec<Item>;

    /// Tell the media server to rescan.
    fn scan(&self) -> bool;

    /// Get the status of playback.
    fn status(&self) -> &Status;

    /// Restart the song that is playing.
    fn restart(&self) -> bool;

    /// Resume playback.
    fn play(&self) -> bool;

    /// Stop and clear the queue.
    fn stop(&self) -> bool;

    /// Pause playback.
    fn pause(&self) -> bool;

    /// Skip the song that is playing.
    fn skip(&self) -> bool;

    /// Add a song to the queue.
    fn queue_add(&self, id: Item, position: u8) -> bool;

    /// Remove a song from the queue.
    fn queue_remove(&self, id: Item) -> bool;

    /// Adjust the volume by a percentage.
    fn volume_adjust(&self, amount: u8) -> bool;

    /// Set the volume to a percentage.
    fn volume_set(&self, amount: u8) -> bool;

    /// Search for a query.
    fn search(&self, query: String) -> Vec<Item>;

    /// Download a song for offline playback.
    fn download(&self, id: Item) -> bool;

    /// Delete a song from offline playback.
    fn delete(&self, id: Item) -> bool;

    /// Mark a song as a favourite.
    fn star(&self, id: Item) -> bool;

    /// Download all the songs of a playlist.
    fn playlist_download(&self, id: Item) -> bool;

    /// Upload the changes of a local playlist.
    fn playlist_upload(&self, id: Item) -> bool;

    /// Create a local playlist.
    fn playlist_new(&self, name: String) -> bool;

    /// Add a song to a local playlist.
    fn playlist_add_to(&self, playlist: Item, id: Item) -> bool;

    /// Remove a song from a local playlist.
    fn playlist_remove_from(&self, playlist: Item, id: Item) -> bool;

    /// Delete a local playlist.
    fn playlist_delete(&self, id: Item) -> bool;

    /// Get what is known of a song.
    fn song_info(&self, id: Item) -> Option<SongInfo>;

    /// Get what is known of an album.
    fn album_info(&self, id: Item) -> Option<AlbumInfo>;

    /// Answers one command: calls the one operation that belongs to it with
    /// what the command carries, unchanged and in its order, and hands back
    /// what the operation returned. `Verify` is answered with the build
    /// identity, without the daemon.
    fn answer(&self, c: Commands, identity: &[u8; 32]) -> (r: Reply)
        ensures
            answers(c@, identity@, r@),
            (c matches Commands::Shutdown ==> exists|b: bool| #[trigger]
                call_ensures(Self::shutdown, (self,), b) && r@ == ReplyView::Done(b)),
            (c matches Commands::FetchArtists ==> exists|v: Vec<Item>| #[trigger]
                call_ensures(Self::fetch_artists, (self,), v) && r@ == ReplyView::Items(item_views(v@))),
            (c matches Commands::FetchAlbums ==> exists|v: Vec<Item>| #[trigger]
                call_ensures(Self::fetch_albums, (self,), v) && r@ == ReplyView::Items(item_views(v@))),
            (c matches Commands::FetchPlaylists ==> exists|v: Vec<Item>| #[trigger]
                call_ensures(Self::fetch_playlists, (self,), v) && r@ == ReplyView::Items(item_views(v@))),
            (c matches Commands::FetchSongs ==> exists|v: Vec<Item>| #[trigger]
                call_ensures(Self::fetch_songs, (self,), v) && r@ == ReplyView::Items(item_views(v@))),
            (c matches Commands::Scan ==> exists|b: bool| #[trigger]
                call_ensures(Self::scan, (self,), b) && r@ == ReplyView::Done(b)),
            (c matches Commands::Status ==> exists|s: &Status| #[trigger]
                call_ensures(Self::status, (self,), s) && r@ == ReplyView::Status(s@)),
            (c matches Commands::Restart ==> exists|b: bool| #[trigger]
                call_ensures(Self::restart, (self,), b) && r@ == ReplyView::Done(b)),
            (c matches Commands::Play ==> exists|b: bool| #[trigger]
                call_ensures(Self::play, (self,), b) && r@ == ReplyView::Done(b)),
            (c matches Commands::Stop ==> exists|b: bool| #[trigger]
                call_ensures(Self::stop, (self,), b) && r@ == ReplyView::Done(b)),
            (c matches Commands::Pause ==> exists|b: bool| #[trigger]
                call_ensures(Self::pause, (self,), b) && r@ == ReplyView::Done(b)),
            (c matches Commands::Skip ==> exists|b: bool| #[trigger]
                call_ensures(Self::skip, (self,), b) && r@ == ReplyView::Done(b)),
            (c matches Commands::QueueAdd { id, position } ==> exists|b: bool| #[trigger]
                call_ensures(Self::queue_add, (self, id, position), b) && r@ == ReplyView::Done(b)),
            (c matches Commands::QueueRemove(id) ==> exists|b: bool| #[trigger]
                call_ensures(Self::queue_remove, (self, id), b) && r@ == ReplyView::Done(b)),
            (c matches Commands::VolumeAdjust(amount) ==> exists|b: bool| #[trigger]
                call_ensures(Self::volume_adjust, (self, amount), b) && r@ == ReplyView::Done(b)),
            (c matches Commands::VolumeSet(amount) ==> exists|b: bool| #[trigger]
                call_ensures(Self::volume_set, (self, amount), b) && r@ == ReplyView::Done(b)),
            (c matches Commands::Search(query) ==> exists|v: Vec<Item>| #[trigger]
                call_ensures(Self::search, (self, query), v) && r@ == ReplyView::Items(item_views(v@))),
            (c matches Commands::Download(id) ==> exists|b: bool| #[trigger]
                call_ensures(Self::download, (self, id), b) && r@ == ReplyView::Done(b)),
            (c matches Commands::Delete(id) ==> exists|b: bool| #[trigger]
                call_ensures(Self::delete, (self, id), b) && r@ == ReplyView::Done(b)),
            (c matches Commands::Star(id) ==> exists|b: bool| #[trigger]
                call_ensures(Self::star, (self, id), b) && r@ == ReplyView::Done(b)),
            (c matches Commands::PlaylistDownload(id) ==> exists|b: bool| #[trigger]
                call_ensures(Self::playlist_download, (self, id), b) && r@ == ReplyView::Done(b)),
            (c matches Commands::PlaylistUpload(id) ==> exists|b: bool| #[trigger]
                call_ensures(Self::playlist_upload, (self, id), b) && r@ == ReplyView::Done(b)),
            (c matches Commands::PlaylistNew { name } ==> exists|b: bool| #[trigger]
                call_ensures(Self::playlist_new, (self, name), b) && r@ == ReplyView::Done(b)),
            (c matches Commands::PlaylistAddTo { playlist, id } ==> exists|b: bool| #[trigger]
                call_ensures(Self::playlist_add_to, (self, playlist, id), b) && r@ == ReplyView::Done(b)),
            (c matches Commands::PlaylistRemoveFrom { playlist, id } ==> exists|b: bool| #[trigger]
                call_ensures(Self::playlist_remove_from, (self, playlist, id), b) && r@ == ReplyView::Done(b)),
            (c matches Commands::PlaylistDelete(id) ==> exists|b: bool| #[trigger]
                call_ensures(Self::playlist_delete, (self, id), b) && r@ == ReplyView::Done(b)),
            (c matches Commands::SongInfo(id) ==> exists|o: Option<SongInfo>| #[trigger]
                call_ensures(Self::song_info, (self, id), o) && r@ == ReplyView::SongInfo(viewed(o))),
            (c matches Commands::AlbumInfo(id) ==> exists|o: Option<AlbumInfo>| #[trigger]
                call_ensures(Self::album_info, (self, id), o) && r@ == ReplyView::AlbumInfo(viewed(o))),
    {
        match c {
            Commands::Verify => Reply::Identity(identity_bytes(identity)),
            Commands::Shutdown => Reply::Done(self.shutdown()),
            Commands::FetchArtists => Reply::Items(self.fetch_artists()),
            Commands::FetchAlbums => Reply::Items(self.fetch_albums()),
            Commands::FetchPlaylists => Reply::Items(self.fetch_playlists()),
            Commands::FetchSongs => Reply::Items(self.fetch_songs()),
            Commands::Scan => Reply::Done(self.scan()),
            Commands::Status => Reply::Status(self.status().copy()),
            Commands::Restart => Reply::Done(self.restart()),
            Commands::Play => Reply::Done(self.play()),
            Commands::Stop => Reply::Done(self.stop()),
            Commands::Pause => Reply::Done(self.pause()),
            Commands::Skip => Reply::Done(self.skip()),
            Commands::QueueAdd { id, position } => Reply::Done(self.queue_add(id, position)),
            Commands::QueueRemove(id) => Reply::Done(self.queue_remove(id)),
            Commands::VolumeAdjust(amount) => Reply::Done(self.volume_adjust(amount)),
            Commands::VolumeSet(amount) => Reply::Done(self.volume_set(amount)),
            Commands::Search(query) => Reply::Items(self.search(query)),
            Commands::Download(id) => Reply::Done(self.download(id)),
            Commands::Delete(id) => Reply::Done(self.delete(id)),
            Commands::Star(id) => Reply::Done(self.star(id)),
            Commands::PlaylistDownload(id) => Reply::Done(self.playlist_download(id)),
            Commands::PlaylistUpload(id) => Reply::Done(self.playlist_upload(id)),
            Commands::PlaylistNew { name } => Reply::Done(self.playlist_new(name)),
            Commands::PlaylistAddTo { playlist, id } => Reply::Done(
                self.playlist_add_to(playlist, id),
            ),
            Commands::PlaylistRemoveFrom { playlist, id } => Reply::Done(
                self.playlist_remove_from(playlist, id),
            ),
            Commands::PlaylistDelete(id) => Reply::Done(self.playlist_delete(id)),
            Commands::SongInfo(id) => Reply::SongInfo(self.song_info(id)),
            Commands::AlbumInfo(id) => Reply::AlbumInfo(self.album_info(id)),
        }
    }

    /// Answers one command and encodes the answer as the payload of a
    /// record: the text is the encoding of what the command's operation
    /// returned, and for `Verify` that of the build identity.
    fn interpert_command(&self, c: Commands, identity: &[u8; 32]) -> (text: String)
        ensures
            !text@.contains('\n'),
            c matches Commands::Verify ==> text@ == json_text(
                reply_json(ReplyView::Identity(identity@)),
            ),
            (c matches Commands::Shutdown ==> exists|b: bool| #[trigger]
                call_ensures(Self::shutdown, (self,), b) && text@ == json_text(reply_json(ReplyView::Done(b)))),
            (c matches Commands::FetchArtists ==> exists|v: Vec<Item>| #[trigger]
                call_ensures(Self::fetch_artists, (self,), v) && text@ == json_text(reply_json(ReplyView::Items(item_views(v@))))),
            (c matches Commands::FetchAlbums ==> exists|v: Vec<Item>| #[trigger]
                call_ensures(Self::fetch_albums, (self,), v) && text@ == json_text(reply_json(ReplyView::Items(item_views(v@))))),
            (c matches Commands::FetchPlaylists ==> exists|v: Vec<Item>| #[trigger]
                call_ensures(Self::fetch_playlists, (self,), v) && text@ == json_text(reply_json(ReplyView::Items(item_views(v@))))),
            (c matches Commands::FetchSongs ==> exists|v: Vec<Item>| #[trigger]
                call_ensures(Self::fetch_songs, (self,), v) && text@ == json_text(reply_json(ReplyView::Items(item_views(v@))))),
            (c matches Commands::Scan ==> exists|b: bool| #[trigger]
                call_ensures(Self::scan, (self,), b) && text@ == json_text(reply_json(ReplyView::Done(b)))),
            (c matches Commands::Status ==> exists|s: &Status| #[trigger]
                call_ensures(Self::status, (self,), s) && text@ == json_text(reply_json(ReplyView::Status(s@)))),
            (c matches Commands::Restart ==> exists|b: bool| #[trigger]
                call_ensures(Self::restart, (self,), b) && text@ == json_text(reply_json(ReplyView::Done(b)))),
            (c matches Commands::Play ==> exists|b: bool| #[trigger]
                call_ensures(Self::play, (self,), b) && text@ == json_text(reply_json(ReplyView::Done(b)))),
            (c matches Commands::Stop ==> exists|b: bool| #[trigger]
                call_ensures(Self::stop, (self,), b) && text@ == json_text(reply_json(ReplyView::Done(b)))),
            (c matches Commands::Pause ==> exists|b: bool| #[trigger]
                call_ensures(Self::pause, (self,), b) && text@ == json_text(reply_json(ReplyView::Done(b)))),
            (c matches Commands::Skip ==> exists|b: bool| #[trigger]
                call_ensures(Self::skip, (self,), b) && text@ == json_text(reply_json(ReplyView::Done(b)))),
            (c matches Commands::QueueAdd { id, position } ==> exists|b: bool| #[trigger]
                call_ensures(Self::queue_add, (self, id, position), b) && text@ == json_text(reply_json(ReplyView::Done(b)))),
            (c matches Commands::QueueRemove(id) ==> exists|b: bool| #[trigger]
                call_ensures(Self::queue_remove, (self, id), b) && text@ == json_text(reply_json(ReplyView::Done(b)))),
            (c matches Commands::VolumeAdjust(amount) ==> exists|b: bool| #[trigger]
                call_ensures(Self::volume_adjust, (self, amount), b) && text@ == json_text(reply_json(ReplyView::Done(b)))),
            (c matches Commands::VolumeSet(amount) ==> exists|b: bool| #[trigger]
                call_ensures(Self::volume_set, (self, amount), b) && text@ == json_text(reply_json(ReplyView::Done(b)))),
            (c matches Commands::Search(query) ==> exists|v: Vec<Item>| #[trigger]
                call_ensures(Self::search, (self, query), v) && text@ == json_text(reply_json(ReplyView::Items(item_views(v@))))),
            (c matches Commands::Download(id) ==> exists|b: bool| #[trigger]
                call_ensures(Self::download, (self, id), b) && text@ == json_text(reply_json(ReplyView::Done(b)))),
            (c matches Commands::Delete(id) ==> exists|b: bool| #[trigger]
                call_ensures(Self::delete, (self, id), b) && text@ == json_text(reply_json(ReplyView::Done(b)))),
            (c matches Commands::Star(id) ==> exists|b: bool| #[trigger]
                call_ensures(Self::star, (self, id), b) && text@ == json_text(reply_json(ReplyView::Done(b)))),
            (c matches Commands::PlaylistDownload(id) ==> exists|b: bool| #[trigger]
                call_ensures(Self::playlist_download, (self, id), b) && text@ == json_text(reply_json(ReplyView::Done(b)))),
            (c matches Commands::PlaylistUpload(id) ==> exists|b: bool| #[trigger]
                call_ensures(Self::playlist_upload, (self, id), b) && text@ == json_text(reply_json(ReplyView::Done(b)))),
            (c matches Commands::PlaylistNew { name } ==> exists|b: bool| #[trigger]
                call_ensures(Self::playlist_new, (self, name), b) && text@ == json_text(reply_json(ReplyView::Done(b)))),
            (c matches Commands::PlaylistAddTo { playlist, id } ==> exists|b: bool| #[trigger]
                call_ensures(Self::playlist_add_to, (self, playlist, id), b) && text@ == json_text(reply_json(ReplyView::Done(b)))),
            (c matches Commands::PlaylistRemoveFrom { playlist, id } ==> exists|b: bool| #[trigger]
                call_ensures(Self::playlist_remove_from, (self, playlist, id), b) && text@ == json_text(reply_json(ReplyView::Done(b)))),
            (c matches Commands::PlaylistDelete(id) ==> exists|b: bool| #[trigger]
                call_ensures(Self::playlist_delete, (self, id), b) && text@ == json_text(reply_json(ReplyView::Done(b)))),
            (c matches Commands::SongInfo(id) ==> exists|o: Option<SongInfo>| #[trigger]
                call_ensures(Self::song_info, (self, id), o) && text@ == json_text(reply_json(ReplyView::SongInfo(viewed(o))))),
            (c matches Commands::AlbumInfo(id) ==> exists|o: Option<AlbumInfo>| #[trigger]
                call_ensures(Self::album_info, (self, id), o) && text@ == json_text(reply_json(ReplyView::AlbumInfo(viewed(o))))),
    {
        let reply = self.answer(c, identity);
        encode_reply(&reply)
    }
}

/// That `r` is the answer of the daemon `d` to the command `c`: what the
/// one operation that belongs to `c` returned when it was handed what `c`
/// carries, unchanged and in its order. `Verify` is answered with the build
/// identity, whatever the daemon is.
pub open spec fn dispatched<D: Daemon>(d: &D, c: Commands, identity: Seq<u8>, r: ReplyView) -> bool {
    match c {
        Commands::Verify => r == ReplyView::Identity(identity),
        Commands::Shutdown => exists|b: bool| #[trigger]
            call_ensures(D::shutdown, (d,), b) && r == ReplyView::Done(b),
        Commands::FetchArtists => exists|v: Vec<Item>| #[trigger]
            call_ensures(D::fetch_artists, (d,), v) && r == ReplyView::Items(item_views(v@)),
        Commands::FetchAlbums => exists|v: Vec<Item>| #[trigger]
            call_ensures(D::fetch_albums, (d,), v) && r == ReplyView::Items(item_views(v@)),
        Commands::FetchPlaylists => exists|v: Vec<Item>| #[trigger]
            call_ensures(D::fetch_playlists, (d,), v) && r == ReplyView::Items(item_views(v@)),
        Commands::FetchSongs => exists|v: Vec<Item>| #[trigger]
            call_ensures(D::fetch_songs, (d,), v) && r == ReplyView::Items(item_views(v@)),
        Commands::Scan => exists|b: bool| #[trigger]
            call_ensures(D::scan, (d,), b) && r == ReplyView::Done(b),
        Commands::Status => exists|s: &Status| #[trigger]
            call_ensures(D::status, (d,), s) && r == ReplyView::Status(s@),
        Commands::Restart => exists|b: bool| #[trigger]
            call_ensures(D::restart, (d,), b) && r == ReplyView::Done(b),
        Commands::Play => exists|b: bool| #[trigger]
            call_ensures(D::play, (d,), b) && r == ReplyView::Done(b),
        Commands::Stop => exists|b: bool| #[trigger]
            call_ensures(D::stop, (d,), b) && r == ReplyView::Done(b),
        Commands::Pause => exists|b: bool| #[trigger]
            call_ensures(D::pause, (d,), b) && r == ReplyView::Done(b),
        Commands::Skip => exists|b: bool| #[trigger]
            call_ensures(D::skip, (d,), b) && r == ReplyView::Done(b),
        Commands::QueueAdd { id, position } => exists|b: bool| #[trigger]
            call_ensures(D::queue_add, (d, id, position), b) && r == ReplyView::Done(b),
        Commands::QueueRemove(id) => exists|b: bool| #[trigger]
            call_ensures(D::queue_remove, (d, id), b) && r == ReplyView::Done(b),
        Commands::VolumeAdjust(amount) => exists|b: bool| #[trigger]
            call_ensures(D::volume_adjust, (d, amount), b) && r == ReplyView::Done(b),
        Commands::VolumeSet(amount) => exists|b: bool| #[trigger]
            call_ensures(D::volume_set, (d, amount), b) && r == ReplyView::Done(b),
        Commands::Search(query) => exists|v: Vec<Item>| #[trigger]
            call_ensures(D::search, (d, query), v) && r == ReplyView::Items(item_views(v@)),
        Commands::Download(id) => exists|b: bool| #[trigger]
            call_ensures(D::download, (d, id), b) && r == ReplyView::Done(b),
        Commands::Delete(id) => exists|b: bool| #[trigger]
            call_ensures(D::delete, (d, id), b) && r == ReplyView::Done(b),
        Commands::Star(id) => exists|b: bool| #[trigger]
            call_ensures(D::star, (d, id), b) && r == ReplyView::Done(b),
        Commands::PlaylistDownload(id) => exists|b: bool| #[trigger]
            call_ensures(D::playlist_download, (d, id), b) && r == ReplyView::Done(b),
        Commands::PlaylistUpload(id) => exists|b: bool| #[trigger]
            call_ensures(D::playlist_upload, (d, id), b) && r == ReplyView::Done(b),
        Commands::PlaylistNew { name } => exists|b: bool| #[trigger]
            call_ensures(D::playlist_new, (d, name), b) && r == ReplyView::Done(b),
        Commands::PlaylistAddTo { playlist, id } => exists|b: bool| #[trigger]
            call_ensures(D::playlist_add_to, (d, playlist, id), b) && r == ReplyView::Done(b),
        Commands::PlaylistRemoveFrom { playlist, id } => exists|b: bool| #[trigger]
            call_ensures(D::playlist_remove_from, (d, playlist, id), b) && r == ReplyView::Done(b),
        Commands::PlaylistDelete(id) => exists|b: bool| #[trigger]
            call_ensures(D::playlist_delete, (d, id), b) && r == ReplyView::Done(b),
        Commands::SongInfo(id) => exists|o: Option<SongInfo>| #[trigger]
            call_ensures(D::song_info, (d, id), o) && r == ReplyView::SongInfo(viewed(o)),
        Commands::AlbumInfo(id) => exists|o: Option<AlbumInfo>| #[trigger]
            call_ensures(D::album_info, (d, id), o) && r == ReplyView::AlbumInfo(viewed(o)),
    }
}

} // verus!
