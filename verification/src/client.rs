//! The client's side of a session: the record to send for a command, the
//! reply read back, the identity handshake that a client starts with, and
//! the calls that a client offers, one for each command.

use crate::decode::{decode_reply, reply_of_text};
use crate::encode::{command_json, encode_command};
use crate::json::json_text;
use crate::model::{
    item_views, kind_of_command, kind_of_reply, viewed, AlbumInfo, Commands, CommandsView, Item,
    Reply, ReplyKind, ReplyView, SlibError, SongInfo, Status,
};
use crate::session::{frame, payload_of, record_of, unframe};
use vstd::prelude::*;

verus! {

/// The reply of a given kind that a line holds, if it is the record of one.
pub open spec fn reply_of_line(kind: ReplyKind, line: Seq<char>) -> Option<ReplyView> {
    match payload_of(line) {
        Some(payload) => reply_of_text(kind, payload),
        None => None,
    }
}

/// Tells whether a reported identity is that of this build: of the same
/// length, and equal byte for byte.
pub fn same_identity(own: &[u8; 32], reported: &Vec<u8>) -> (same: bool)
    ensures
        same == (reported@ == own@),
{
    if reported.len() != 32 {
        return false;
    }
    let mut k: usize = 0;
    while k < 32
        invariant
            k <= 32,
            reported@.len() == 32,
            forall|j: int| 0 <= j < k ==> reported@[j] == own@[j],
        decreases 32 - k,
    {
        if reported[k] != own[k] {
            return false;
        }
        k += 1;
    }
    proof {
        assert(reported@ =~= own@);
    }
    true
}

/// What the handshake comes to for a reported identity: success where it is
/// the client's own, of the same length and equal byte for byte, and a
/// refusal that carries the reported identity for any other.
pub open spec fn checked(own: Seq<u8>, reported: Vec<u8>) -> Result<(), SlibError> {
    if reported@ == own {
        Ok(())
    } else {
        Err(SlibError::InvalidServerHash(reported))
    }
}

/// Accepts a daemon that reported the identity of this build, and refuses
/// any other with the identity it reported.
pub fn check_identity(own: &[u8; 32], reported: Vec<u8>) -> (r: Result<(), SlibError>)
    ensures
        r == checked(own@, reported),
{
    if same_identity(own, &reported) {
        Ok(())
    } else {
        Err(SlibError::InvalidServerHash(reported))
    }
}

/// The record to send for a command: one line that frames the encoding of
/// the command.
pub fn request(c: &Commands) -> (record: String)
    ensures
        record@ == record_of(json_text(command_json(c@))),
        payload_of(record@) == Some(json_text(command_json(c@))),
{
    let record = frame(encode_command(c));
    proof {
        let text = json_text(command_json(c@));
        assert(text.push('\n').drop_last() =~= text);
    }
    record
}

/// What a call of the command `c` comes to when the exchange came back with
/// `got`: a transport failure where nothing came back, an invalid record
/// where the line holds no reply of the command's kind, else that reply.
pub open spec fn outcome(c: CommandsView, got: Option<Seq<char>>) -> Result<ReplyView, SlibError> {
    match got {
        None => Err(SlibError::TransportFailed),
        Some(line) => match reply_of_line(kind_of_command(c), line) {
            Some(reply) => Ok(reply),
            None => Err(SlibError::InvalidRecord),
        },
    }
}

/// The view of what a call came to.
pub open spec fn reply_viewed(r: Result<Reply, SlibError>) -> Result<ReplyView, SlibError> {
    match r {
        Ok(reply) => Ok(reply@),
        Err(e) => Err(e),
    }
}

/// Reads the reply to a command from what the exchange came back with.
pub fn read_reply(c: &Commands, got: Option<String>) -> (r: Result<Reply, SlibError>)
    ensures
        reply_viewed(r) == outcome(c@, viewed(got)),
{
    let line = match got {
        Some(line) => line,
        None => {
            return Err(SlibError::TransportFailed);
        },
    };
    let payload = match unframe(line.as_str()) {
        Some(payload) => payload,
        None => {
            return Err(SlibError::InvalidRecord);
        },
    };
    decode_reply(c.reply_kind(), payload.as_str())
}

/// A client that has found the daemon to be of its own build: there is no
/// other way to make one than the handshake of `new`. It reaches the daemon
/// through its exchange, which opens a connection, writes the record it is
/// given, reads one line and hands it back, or `None` where the connection
/// failed.
pub struct Client<F: Fn(String) -> Option<String>> {
    exchange: F,
}

/// That the exchange was handed the record of the command `c`, and nothing
/// else, and came back with `got`.
pub open spec fn handed<F: Fn(String) -> Option<String>>(
    exchange: F,
    c: CommandsView,
    got: Option<String>,
) -> bool {
    exists|record: String|
        record@ == record_of(json_text(command_json(c))) && #[trigger] exchange.ensures(
            (record,),
            got,
        )
}

impl<F: Fn(String) -> Option<String>> Client<F> {
    /// The exchange that the client was made with.
    pub closed spec fn wire(&self) -> F {
        self.exchange
    }

    /// The exchange of a client takes every record.
    #[verifier::type_invariant]
    spec fn ready(&self) -> bool {
        forall|record: String| self.exchange.requires((record,))
    }

    /// That `r` is what one exchange for the command `c` came to.
    pub open spec fn answer(&self, c: CommandsView, r: Result<ReplyView, SlibError>) -> bool {
        exists|got: Option<String>| #[trigger]
            handed(self.wire(), c, got) && r == outcome(c, viewed(got))
    }

    pub open spec fn done_answer(&self, c: CommandsView, r: Result<bool, SlibError>) -> bool {
        self.answer(
            c,
            match r {
                Ok(done) => Ok(ReplyView::Done(done)),
                Err(e) => Err(e),
            },
        )
    }

    pub open spec fn items_answer(&self, c: CommandsView, r: Result<Vec<Item>, SlibError>) -> bool {
        self.answer(
            c,
            match r {
                Ok(items) => Ok(ReplyView::Items(item_views(items@))),
                Err(e) => Err(e),
            },
        )
    }

    pub open spec fn status_answer(&self, c: CommandsView, r: Result<Status, SlibError>) -> bool {
        self.answer(
            c,
            match r {
                Ok(status) => Ok(ReplyView::Status(status@)),
                Err(e) => Err(e),
            },
        )
    }

    pub open spec fn song_info_answer(
        &self,
        c: CommandsView,
        r: Result<Option<SongInfo>, SlibError>,
    ) -> bool {
        self.answer(
            c,
            match r {
                Ok(info) => Ok(ReplyView::SongInfo(viewed(info))),
                Err(e) => Err(e),
            },
        )
    }

    pub open spec fn album_info_answer(
        &self,
        c: CommandsView,
        r: Result<Option<AlbumInfo>, SlibError>,
    ) -> bool {
        self.answer(
            c,
            match r {
                Ok(info) => Ok(ReplyView::AlbumInfo(viewed(info))),
                Err(e) => Err(e),
            },
        )
    }

    /// What making a client comes to when the exchange came back with `got`:
    /// a client with that exchange where the line reports the identity `own`,
    /// a refusal with the reported identity where it reports another, else
    /// the failure of the call.
    pub open spec fn made(
        own: Seq<u8>,
        exchange: F,
        got: Option<Seq<char>>,
        r: Result<Client<F>, SlibError>,
    ) -> bool {
        match outcome(CommandsView::Verify, got) {
            Ok(ReplyView::Identity(reported)) => if reported == own {
                match r {
                    Ok(client) => client.wire() == exchange,
                    Err(_) => false,
                }
            } else {
                match r {
                    Err(SlibError::InvalidServerHash(bytes)) => bytes@ == reported,
                    _ => false,
                }
            },
            Ok(_) => false,
            Err(e) => r == Err::<Client<F>, SlibError>(e),
        }
    }

    /// Makes a client: asks the daemon for its identity through `exchange`
    /// and holds it against `own`. A daemon of another build is refused with
    /// the identity it reported.
    pub fn new(own: &[u8; 32], exchange: F) -> (r: Result<Client<F>, SlibError>)
        requires
            forall|record: String| exchange.requires((record,)),
        ensures
            exists|got: Option<String>| #[trigger]
                handed(exchange, CommandsView::Verify, got) && Client::made(
                    own@,
                    exchange,
                    viewed(got),
                    r,
                ),
    {
        let client = Client { exchange };
        match client.send_command(&Commands::Verify) {
            Ok(Reply::Identity(reported)) => match check_identity(own, reported) {
                Ok(_) => Ok(client),
                Err(e) => Err(e),
            },
            Ok(_) => Err(SlibError::InvalidRecord),
            Err(e) => Err(e),
        }
    }

    /// One session: hands the record of the command to the exchange and
    /// reads the reply from what comes back.
    pub fn send_command(&self, c: &Commands) -> (r: Result<Reply, SlibError>)
        ensures
            self.answer(c@, reply_viewed(r)),
            r matches Ok(reply) ==> kind_of_reply(reply@) == kind_of_command(c@),
    {
        proof {
            use_type_invariant(self);
        }
        let record = request(c);
        let got = (self.exchange)(record);
        let r = read_reply(c, got);
        proof {
            assert(self.exchange.ensures((record,), got));
            assert(handed(self.wire(), c@, got));
        }
        r
    }

    fn done_of(reply: Result<Reply, SlibError>) -> (r: Result<bool, SlibError>)
        requires
            reply matches Ok(x) ==> x is Done,
        ensures
            reply_viewed(reply) == match r {
                Ok(done) => Ok::<ReplyView, SlibError>(ReplyView::Done(done)),
                Err(e) => Err(e),
            },
    {
        match reply {
            Ok(Reply::Done(done)) => Ok(done),
            Ok(_) => Err(SlibError::InvalidRecord),
            Err(e) => Err(e),
        }
    }

    fn items_of(reply: Result<Reply, SlibError>) -> (r: Result<Vec<Item>, SlibError>)
        requires
            reply matches Ok(x) ==> x is Items,
        ensures
            reply_viewed(reply) == match r {
                Ok(items) => Ok::<ReplyView, SlibError>(ReplyView::Items(item_views(items@))),
                Err(e) => Err(e),
            },
    {
        match reply {
            Ok(Reply::Items(items)) => Ok(items),
            Ok(_) => Err(SlibError::InvalidRecord),
            Err(e) => Err(e),
        }
    }

    fn status_of(reply: Result<Reply, SlibError>) -> (r: Result<Status, SlibError>)
        requires
            reply matches Ok(x) ==> x is Status,
        ensures
            reply_viewed(reply) == match r {
                Ok(status) => Ok::<ReplyView, SlibError>(ReplyView::Status(status@)),
                Err(e) => Err(e),
            },
    {
        match reply {
            Ok(Reply::Status(status)) => Ok(status),
            Ok(_) => Err(SlibError::InvalidRecord),
            Err(e) => Err(e),
        }
    }

    fn song_info_of(reply: Result<Reply, SlibError>) -> (r: Result<Option<SongInfo>, SlibError>)
        requires
            reply matches Ok(x) ==> x is SongInfo,
        ensures
            reply_viewed(reply) == match r {
                Ok(info) => Ok::<ReplyView, SlibError>(ReplyView::SongInfo(viewed(info))),
                Err(e) => Err(e),
            },
    {
        match reply {
            Ok(Reply::SongInfo(info)) => Ok(info),
            Ok(_) => Err(SlibError::InvalidRecord),
            Err(e) => Err(e),
        }
    }

    fn album_info_of(reply: Result<Reply, SlibError>) -> (r: Result<Option<AlbumInfo>, SlibError>)
        requires
            reply matches Ok(x) ==> x is AlbumInfo,
        ensures
            reply_viewed(reply) == match r {
                Ok(info) => Ok::<ReplyView, SlibError>(ReplyView::AlbumInfo(viewed(info))),
                Err(e) => Err(e),
            },
    {
        match reply {
            Ok(Reply::AlbumInfo(info)) => Ok(info),
            Ok(_) => Err(SlibError::InvalidRecord),
            Err(e) => Err(e),
        }
    }

    /// Asks the daemon to shut down.
    pub fn shutdown(&self) -> (r: Result<bool, SlibError>)
        ensures
            self.done_answer(CommandsView::Shutdown, r),
    {
        let c = Commands::Shutdown;
        let reply = self.send_command(&c);
        Client::<F>::done_of(reply)
    }

    /// Tells the media server to rescan.
    pub fn scan(&self) -> (r: Result<bool, SlibError>)
        ensures
            self.done_answer(CommandsView::Scan, r),
    {
        let c = Commands::Scan;
        let reply = self.send_command(&c);
        Client::<F>::done_of(reply)
    }

    /// Restarts the song that is playing.
    pub fn restart(&self) -> (r: Result<bool, SlibError>)
        ensures
            self.done_answer(CommandsView::Restart, r),
    {
        let c = Commands::Restart;
        let reply = self.send_command(&c);
        Client::<F>::done_of(reply)
    }

    /// Resumes playback.
    pub fn play(&self) -> (r: Result<bool, SlibError>)
        ensures
            self.done_answer(CommandsView::Play, r),
    {
        let c = Commands::Play;
        let reply = self.send_command(&c);
        Client::<F>::done_of(reply)
    }

    /// Stops playback and clears the queue.
    pub fn stop(&self) -> (r: Result<bool, SlibError>)
        ensures
            self.done_answer(CommandsView::Stop, r),
    {
        let c = Commands::Stop;
        let reply = self.send_command(&c);
        Client::<F>::done_of(reply)
    }

    /// Pauses playback.
    pub fn pause(&self) -> (r: Result<bool, SlibError>)
        ensures
            self.done_answer(CommandsView::Pause, r),
    {
        let c = Commands::Pause;
        let reply = self.send_command(&c);
        Client::<F>::done_of(reply)
    }

    /// Skips the song that is playing.
    pub fn skip(&self) -> (r: Result<bool, SlibError>)
        ensures
            self.done_answer(CommandsView::Skip, r),
    {
        let c = Commands::Skip;
        let reply = self.send_command(&c);
        Client::<F>::done_of(reply)
    }

    /// Adds a song to the queue.
    pub fn queue_add(&self, id: Item, position: u8) -> (r: Result<bool, SlibError>)
        ensures
            self.done_answer((CommandsView::QueueAdd { id: id@, position }), r),
    {
        let c = Commands::QueueAdd { id, position };
        let reply = self.send_command(&c);
        Client::<F>::done_of(reply)
    }

    /// Removes a song from the queue.
    pub fn queue_remove(&self, id: Item) -> (r: Result<bool, SlibError>)
        ensures
            self.done_answer(CommandsView::QueueRemove(id@), r),
    {
        let c = Commands::QueueRemove(id);
        let reply = self.send_command(&c);
        Client::<F>::done_of(reply)
    }

    /// Adjusts the volume by a percentage.
    pub fn volume_adjust(&self, amount: u8) -> (r: Result<bool, SlibError>)
        ensures
            self.done_answer(CommandsView::VolumeAdjust(amount), r),
    {
        let c = Commands::VolumeAdjust(amount);
        let reply = self.send_command(&c);
        Client::<F>::done_of(reply)
    }

    /// Sets the volume to a percentage.
    pub fn volume_set(&self, amount: u8) -> (r: Result<bool, SlibError>)
        ensures
            self.done_answer(CommandsView::VolumeSet(amount), r),
    {
        let c = Commands::VolumeSet(amount);
        let reply = self.send_command(&c);
        Client::<F>::done_of(reply)
    }

    /// Downloads a song for offline playback.
    pub fn download(&self, id: Item) -> (r: Result<bool, SlibError>)
        ensures
            self.done_answer(CommandsView::Download(id@), r),
    {
        let c = Commands::Download(id);
        let reply = self.send_command(&c);
        Client::<F>::done_of(reply)
    }

    /// Deletes a song from offline playback.
    pub fn delete(&self, id: Item) -> (r: Result<bool, SlibError>)
        ensures
            self.done_answer(CommandsView::Delete(id@), r),
    {
        let c = Commands::Delete(id);
        let reply = self.send_command(&c);
        Client::<F>::done_of(reply)
    }

    /// Marks a song as a favourite.
    pub fn star(&self, id: Item) -> (r: Result<bool, SlibError>)
        ensures
            self.done_answer(CommandsView::Star(id@), r),
    {
        let c = Commands::Star(id);
        let reply = self.send_command(&c);
        Client::<F>::done_of(reply)
    }

    /// Downloads all the songs of a playlist.
    pub fn playlist_download(&self, id: Item) -> (r: Result<bool, SlibError>)
        ensures
            self.done_answer(CommandsView::PlaylistDownload(id@), r),
    {
        let c = Commands::PlaylistDownload(id);
        let reply = self.send_command(&c);
        Client::<F>::done_of(reply)
    }

    /// Uploads the changes of a local playlist.
    pub fn playlist_upload(&self, id: Item) -> (r: Result<bool, SlibError>)
        ensures
            self.done_answer(CommandsView::PlaylistUpload(id@), r),
    {
        let c = Commands::PlaylistUpload(id);
        let reply = self.send_command(&c);
        Client::<F>::done_of(reply)
    }

    /// Creates a local playlist.
    pub fn playlist_new(&self, name: String) -> (r: Result<bool, SlibError>)
        ensures
            self.done_answer((CommandsView::PlaylistNew { name: name@ }), r),
    {
        let c = Commands::PlaylistNew { name };
        let reply = self.send_command(&c);
        Client::<F>::done_of(reply)
    }

    /// Adds a song to a local playlist.
    pub fn playlist_add_to(&self, playlist: Item, id: Item) -> (r: Result<bool, SlibError>)
        ensures
            self.done_answer((CommandsView::PlaylistAddTo { playlist: playlist@, id: id@ }), r),
    {
        let c = Commands::PlaylistAddTo { playlist, id };
        let reply = self.send_command(&c);
        Client::<F>::done_of(reply)
    }

    /// Removes a song from a local playlist.
    pub fn playlist_remove_from(&self, playlist: Item, id: Item) -> (r: Result<bool, SlibError>)
        ensures
            self.done_answer((CommandsView::PlaylistRemoveFrom { playlist: playlist@, id: id@ }), r),
    {
        let c = Commands::PlaylistRemoveFrom { playlist, id };
        let reply = self.send_command(&c);
        Client::<F>::done_of(reply)
    }

    /// Deletes a local playlist.
    pub fn playlist_delete(&self, id: Item) -> (r: Result<bool, SlibError>)
        ensures
            self.done_answer(CommandsView::PlaylistDelete(id@), r),
    {
        let c = Commands::PlaylistDelete(id);
        let reply = self.send_command(&c);
        Client::<F>::done_of(reply)
    }

    /// Fetches all artists.
    pub fn fetch_artist(&self) -> (r: Result<Vec<Item>, SlibError>)
        ensures
            self.items_answer(CommandsView::FetchArtists, r),
    {
        let c = Commands::FetchArtists;
        let reply = self.send_command(&c);
        Client::<F>::items_of(reply)
    }

    /// Fetches all albums.
    pub fn fetch_albums(&self) -> (r: Result<Vec<Item>, SlibError>)
        ensures
            self.items_answer(CommandsView::FetchAlbums, r),
    {
        let c = Commands::FetchAlbums;
        let reply = self.send_command(&c);
        Client::<F>::items_of(reply)
    }

    /// Fetches all playlists.
    pub fn fetch_playlists(&self) -> (r: Result<Vec<Item>, SlibError>)
        ensures
            self.items_answer(CommandsView::FetchPlaylists, r),
    {
        let c = Commands::FetchPlaylists;
        let reply = self.send_command(&c);
        Client::<F>::items_of(reply)
    }

    /// Fetches all songs.
    pub fn fetch_songs(&self) -> (r: Result<Vec<Item>, SlibError>)
        ensures
            self.items_answer(CommandsView::FetchSongs, r),
    {
        let c = Commands::FetchSongs;
        let reply = self.send_command(&c);
        Client::<F>::items_of(reply)
    }

    /// Searches for a query.
    pub fn search(&self, query: String) -> (r: Result<Vec<Item>, SlibError>)
        ensures
            self.items_answer(CommandsView::Search(query@), r),
    {
        let c = Commands::Search(query);
        let reply = self.send_command(&c);
        Client::<F>::items_of(reply)
    }

    /// Gets the status of playback.
    pub fn status(&self) -> (r: Result<Status, SlibError>)
        ensures
            self.status_answer(CommandsView::Status, r),
    {
        let c = Commands::Status;
        let reply = self.send_command(&c);
        Client::<F>::status_of(reply)
    }

    /// Gets what is known of a song.
    pub fn song_info(&self, id: Item) -> (r: Result<Option<SongInfo>, SlibError>)
        ensures
            self.song_info_answer(CommandsView::SongInfo(id@), r),
    {
        let c = Commands::SongInfo(id);
        let reply = self.send_command(&c);
        Client::<F>::song_info_of(reply)
    }

    /// Gets what is known of an album.
    pub fn album_info(&self, id: Item) -> (r: Result<Option<AlbumInfo>, SlibError>)
        ensures
            self.album_info_answer(CommandsView::AlbumInfo(id@), r),
    {
        let c = Commands::AlbumInfo(id);
        let reply = self.send_command(&c);
        Client::<F>::album_info_of(reply)
    }
}

} // verus!
