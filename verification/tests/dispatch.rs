use slib::decode::decode_reply;
use slib::dispatch::Daemon;
use slib::model::{AlbumInfo, Commands, Item, Length, Reply, ReplyKind, SongInfo, Status};
use std::cell::Cell;

fn identity() -> [u8; 32] {
    [9u8; 32]
}

fn item(id: &str) -> Item {
    Item { name: String::new(), id: id.to_string(), image_path: String::new() }
}

/// A daemon whose operations answer `true` only when they are handed what
/// they expect, and that counts how often each kind of operation is called.
struct Picky {
    willing: bool,
    status: Status,
    calls: Cell<u32>,
}

impl Picky {
    fn new(willing: bool) -> Picky {
        Picky {
            willing,
            status: Status {
                playing: true,
                current_song: Some(item("now")),
                queue: vec![item("next"), item("last")],
            },
            calls: Cell::new(0),
        }
    }

    fn called(&self) {
        self.calls.set(self.calls.get() + 1);
    }
}

impl Daemon for Picky {
    fn shutdown(&self) -> bool {
        self.called();
        self.willing
    }

    fn fetch_artists(&self) -> Vec<Item> {
        self.called();
        vec![item("artist")]
    }

    fn fetch_albums(&self) -> Vec<Item> {
        self.called();
        vec![item("album")]
    }

    fn fetch_playlists(&self) -> Vec<Item> {
        self.called();
        vec![item("playlist")]
    }

    fn fetch_songs(&self) -> Vec<Item> {
        self.called();
        vec![item("song")]
    }

    fn scan(&self) -> bool {
        self.called();
        false
    }

    fn status(&self) -> &Status {
        self.called();
        &self.status
    }

    fn restart(&self) -> bool {
        self.called();
        false
    }

    fn play(&self) -> bool {
        self.called();
        false
    }

    fn stop(&self) -> bool {
        self.called();
        false
    }

    fn pause(&self) -> bool {
        self.called();
        false
    }

    fn skip(&self) -> bool {
        self.called();
        false
    }

    fn queue_add(&self, id: Item, position: u8) -> bool {
        self.called();
        id.id == "7" && position == 3
    }

    fn queue_remove(&self, id: Item) -> bool {
        self.called();
        id.id == "7"
    }

    fn volume_adjust(&self, amount: u8) -> bool {
        self.called();
        amount == 5
    }

    fn volume_set(&self, amount: u8) -> bool {
        self.called();
        amount == 100
    }

    fn search(&self, query: String) -> Vec<Item> {
        self.called();
        if query == "jazz" {
            vec![
                Item { name: "A".to_string(), id: "1".to_string(), image_path: String::new() },
                Item { name: "B".to_string(), id: "2".to_string(), image_path: String::new() },
            ]
        } else {
            vec![]
        }
    }

    fn download(&self, _id: Item) -> bool {
        self.called();
        false
    }

    fn delete(&self, _id: Item) -> bool {
        self.called();
        false
    }

    fn star(&self, _id: Item) -> bool {
        self.called();
        false
    }

    fn playlist_download(&self, _id: Item) -> bool {
        self.called();
        false
    }

    fn playlist_upload(&self, _id: Item) -> bool {
        self.called();
        false
    }

    fn playlist_new(&self, name: String) -> bool {
        self.called();
        name == "mix"
    }

    fn playlist_add_to(&self, _playlist: Item, _id: Item) -> bool {
        self.called();
        false
    }

    fn playlist_remove_from(&self, playlist: Item, id: Item) -> bool {
        self.called();
        playlist.id == "p" && id.id == "s"
    }

    fn playlist_delete(&self, _id: Item) -> bool {
        self.called();
        false
    }

    fn song_info(&self, id: Item) -> Option<SongInfo> {
        self.called();
        if id.id == "known" {
            Some(SongInfo {
                length: Length { secs: 3, nanos: 4 },
                album: item("album"),
                artist: "X".to_string(),
            })
        } else {
            None
        }
    }

    fn album_info(&self, id: Item) -> Option<AlbumInfo> {
        self.called();
        if id.id == "known" {
            Some(AlbumInfo { songs: vec![item("a"), item("b")], artist: "X".to_string() })
        } else {
            None
        }
    }
}

fn ask(d: &Picky, c: Commands) -> Reply {
    let kind = c.reply_kind();
    let before = d.calls.get();
    let text = d.interpert_command(c, &identity());
    assert_eq!(d.calls.get(), before + 1);
    decode_reply(kind, &text).unwrap()
}

#[test]
fn playlist_remove_from_hands_on_playlist_and_song_in_that_order() {
    let d = Picky::new(true);
    assert_eq!(
        ask(&d, Commands::PlaylistRemoveFrom { playlist: item("p"), id: item("s") }),
        Reply::Done(true)
    );
    assert_eq!(
        ask(&d, Commands::PlaylistRemoveFrom { playlist: item("s"), id: item("p") }),
        Reply::Done(false)
    );
    assert_eq!(
        ask(&d, Commands::PlaylistAddTo { playlist: item("p"), id: item("s") }),
        Reply::Done(false)
    );
}

#[test]
fn search_is_answered_with_what_the_daemon_found() {
    let d = Picky::new(true);
    assert_eq!(
        ask(&d, Commands::Search(String::from("jazz"))),
        Reply::Items(vec![
            Item { name: "A".to_string(), id: "1".to_string(), image_path: String::new() },
            Item { name: "B".to_string(), id: "2".to_string(), image_path: String::new() },
        ])
    );
    assert_eq!(ask(&d, Commands::Search(String::from("rock"))), Reply::Items(vec![]));
    assert_eq!(ask(&d, Commands::FetchArtists), Reply::Items(vec![item("artist")]));
    assert_eq!(ask(&d, Commands::FetchAlbums), Reply::Items(vec![item("album")]));
    assert_eq!(ask(&d, Commands::FetchPlaylists), Reply::Items(vec![item("playlist")]));
    assert_eq!(ask(&d, Commands::FetchSongs), Reply::Items(vec![item("song")]));
}

#[test]
fn queue_add_hands_on_item_and_position() {
    let d = Picky::new(true);
    assert_eq!(ask(&d, Commands::QueueAdd { id: item("7"), position: 3 }), Reply::Done(true));
    assert_eq!(ask(&d, Commands::QueueAdd { id: item("7"), position: 4 }), Reply::Done(false));
    assert_eq!(ask(&d, Commands::QueueAdd { id: item("8"), position: 3 }), Reply::Done(false));
    assert_eq!(ask(&d, Commands::QueueRemove(item("7"))), Reply::Done(true));
    assert_eq!(ask(&d, Commands::VolumeAdjust(5)), Reply::Done(true));
    assert_eq!(ask(&d, Commands::VolumeSet(5)), Reply::Done(false));
    assert_eq!(ask(&d, Commands::VolumeSet(100)), Reply::Done(true));
    assert_eq!(ask(&d, Commands::PlaylistNew { name: "mix".to_string() }), Reply::Done(true));
}

#[test]
fn shutdown_is_answered_with_the_daemons_word() {
    assert_eq!(ask(&Picky::new(true), Commands::Shutdown), Reply::Done(true));
    assert_eq!(ask(&Picky::new(false), Commands::Shutdown), Reply::Done(false));
    assert_eq!(Picky::new(true).interpert_command(Commands::Shutdown, &identity()), "true");
    assert_eq!(Picky::new(false).interpert_command(Commands::Shutdown, &identity()), "false");
}

#[test]
fn an_unknown_song_is_answered_with_none() {
    let d = Picky::new(true);
    assert_eq!(ask(&d, Commands::SongInfo(item("x"))), Reply::SongInfo(None));
    assert_eq!(
        ask(&d, Commands::SongInfo(item("known"))),
        Reply::SongInfo(Some(SongInfo {
            length: Length { secs: 3, nanos: 4 },
            album: item("album"),
            artist: "X".to_string(),
        }))
    );
    assert_eq!(ask(&d, Commands::AlbumInfo(item("x"))), Reply::AlbumInfo(None));
    assert_eq!(
        ask(&d, Commands::AlbumInfo(item("known"))),
        Reply::AlbumInfo(Some(AlbumInfo {
            songs: vec![item("a"), item("b")],
            artist: "X".to_string()
        }))
    );
}

#[test]
fn status_is_answered_with_the_daemons_snapshot() {
    let d = Picky::new(true);
    let reply = ask(&d, Commands::Status);
    assert_eq!(reply, Reply::Status(d.status.copy()));
    assert_eq!(
        d.status,
        Status {
            playing: true,
            current_song: Some(item("now")),
            queue: vec![item("next"), item("last")],
        }
    );
}

#[test]
fn verify_asks_the_daemon_nothing() {
    let d = Picky::new(true);
    let text = d.interpert_command(Commands::Verify, &identity());
    assert_eq!(d.calls.get(), 0);
    assert_eq!(decode_reply(ReplyKind::Identity, &text), Ok(Reply::Identity(vec![9u8; 32])));
}
