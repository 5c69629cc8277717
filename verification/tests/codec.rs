use slib::decode::{
    bytes_of_value, command_of_value, decode_command, decode_reply, item_of_value, u8_of_value,
};
use slib::encode::{encode_command, encode_reply};
use slib::model::{AlbumInfo, Commands, Item, Length, Reply, ReplyKind, SlibError, SongInfo, Status};

fn item(id: &str, name: &str) -> Item {
    Item { name: name.to_string(), id: id.to_string(), image_path: String::new() }
}

fn every_command() -> Vec<Commands> {
    vec![
        Commands::Verify,
        Commands::Shutdown,
        Commands::FetchArtists,
        Commands::FetchAlbums,
        Commands::FetchPlaylists,
        Commands::FetchSongs,
        Commands::Scan,
        Commands::Status,
        Commands::Restart,
        Commands::Play,
        Commands::Stop,
        Commands::Pause,
        Commands::Skip,
        Commands::QueueAdd { id: item("7", "seven"), position: 3 },
        Commands::QueueRemove(item("8", "eight")),
        Commands::VolumeAdjust(0),
        Commands::VolumeSet(255),
        Commands::Search("line\nbreak \"quoted\" \\ caf\u{e9} \u{1f3b5}".to_string()),
        Commands::Download(item("1", "a")),
        Commands::Delete(item("2", "b")),
        Commands::Star(item("3", "c")),
        Commands::PlaylistDownload(item("4", "d")),
        Commands::PlaylistUpload(item("5", "e")),
        Commands::PlaylistNew { name: "mix".to_string() },
        Commands::PlaylistAddTo { playlist: item("p", "list"), id: item("s", "song") },
        Commands::PlaylistRemoveFrom { playlist: item("p", "list"), id: item("s", "song") },
        Commands::PlaylistDelete(item("6", "f")),
        Commands::SongInfo(item("9", "g")),
        Commands::AlbumInfo(item("10", "h")),
    ]
}

#[test]
fn every_command_round_trips() {
    let commands = every_command();
    assert_eq!(commands.len(), 29);
    for command in commands {
        let text = encode_command(&command);
        assert!(!text.contains('\n'));
        assert_eq!(decode_command(&text), Ok(command));
    }
}

#[test]
fn commands_without_payload_are_bare_names() {
    assert_eq!(encode_command(&Commands::Verify), "\"Verify\"");
    assert_eq!(encode_command(&Commands::Shutdown), "\"Shutdown\"");
    assert_eq!(encode_command(&Commands::FetchPlaylists), "\"FetchPlaylists\"");
    assert_eq!(encode_command(&Commands::Skip), "\"Skip\"");
}

#[test]
fn commands_with_payload_are_objects_of_one_member() {
    assert_eq!(encode_command(&Commands::VolumeSet(40)), "{\"VolumeSet\":40}");
    assert_eq!(encode_command(&Commands::Search("jazz".to_string())), "{\"Search\":\"jazz\"}");
    assert_eq!(
        encode_command(&Commands::PlaylistNew { name: "mix".to_string() }),
        "{\"PlaylistNew\":{\"name\":\"mix\"}}"
    );
    assert_eq!(
        encode_command(&Commands::QueueAdd { id: item("7", "x"), position: 3 }),
        "{\"QueueAdd\":{\"id\":{\"id\":\"7\",\"image_path\":\"\",\"name\":\"x\"},\"position\":3}}"
    );
    assert_eq!(
        encode_command(&Commands::Star(item("7", "x"))),
        "{\"Star\":{\"id\":\"7\",\"image_path\":\"\",\"name\":\"x\"}}"
    );
}

#[test]
fn members_are_read_in_any_order_and_spacing() {
    let text = " { \"QueueAdd\" : { \"position\" : 3, \"id\" : { \"name\" : \"x\", \"id\" : \"7\", \"image_path\" : \"\" } } } ";
    assert_eq!(decode_command(text), Ok(Commands::QueueAdd { id: item("7", "x"), position: 3 }));
}

#[test]
fn members_that_are_not_asked_for_are_passed_over() {
    let text = "{\"Star\":{\"id\":\"7\",\"image_path\":\"\",\"name\":\"x\",\"year\":1959}}";
    assert_eq!(decode_command(text), Ok(Commands::Star(item("7", "x"))));
}

#[test]
fn malformed_commands_are_refused() {
    // no JSON at all, or cut short
    assert_eq!(decode_command(""), Err(SlibError::InvalidRecord));
    assert_eq!(decode_command("{\"VolumeSet\":"), Err(SlibError::InvalidRecord));
    assert_eq!(decode_command("\"Verify"), Err(SlibError::InvalidRecord));
    // an unknown name
    assert_eq!(decode_command("\"Rewind\""), Err(SlibError::InvalidRecord));
    assert_eq!(decode_command("{\"Rewind\":1}"), Err(SlibError::InvalidRecord));
    // a name in the wrong case
    assert_eq!(decode_command("\"verify\""), Err(SlibError::InvalidRecord));
    // a payload where none belongs, and none where one belongs
    assert_eq!(decode_command("{\"Verify\":true}"), Err(SlibError::InvalidRecord));
    assert_eq!(decode_command("{\"Verify\":{}}"), Err(SlibError::InvalidRecord));
    assert_eq!(decode_command("{\"VolumeSet\":null}"), Err(SlibError::InvalidRecord));
    assert_eq!(decode_command("{\"Star\":null}"), Err(SlibError::InvalidRecord));
    assert_eq!(decode_command("{\"Rewind\":null}"), Err(SlibError::InvalidRecord));
    assert_eq!(decode_command("\"VolumeSet\""), Err(SlibError::InvalidRecord));
    // a payload of the wrong type
    assert_eq!(decode_command("{\"VolumeSet\":\"loud\"}"), Err(SlibError::InvalidRecord));
    assert_eq!(decode_command("{\"VolumeSet\":-1}"), Err(SlibError::InvalidRecord));
    assert_eq!(decode_command("{\"VolumeSet\":1.5}"), Err(SlibError::InvalidRecord));
    assert_eq!(decode_command("{\"Search\":5}"), Err(SlibError::InvalidRecord));
    assert_eq!(decode_command("{\"Star\":\"7\"}"), Err(SlibError::InvalidRecord));
    // a missing member
    assert_eq!(decode_command("{\"Star\":{\"id\":\"7\",\"name\":\"x\"}}"), Err(SlibError::InvalidRecord));
    assert_eq!(decode_command("{\"QueueAdd\":{\"position\":3}}"), Err(SlibError::InvalidRecord));
    assert_eq!(decode_command("{\"PlaylistNew\":{}}"), Err(SlibError::InvalidRecord));
    // more than one member, or none
    assert_eq!(decode_command("{\"VolumeSet\":1,\"VolumeAdjust\":2}"), Err(SlibError::InvalidRecord));
    assert_eq!(decode_command("{}"), Err(SlibError::InvalidRecord));
    // other documents
    assert_eq!(decode_command("true"), Err(SlibError::InvalidRecord));
    assert_eq!(decode_command("null"), Err(SlibError::InvalidRecord));
    assert_eq!(decode_command("[\"Verify\"]"), Err(SlibError::InvalidRecord));
    assert_eq!(decode_command("7"), Err(SlibError::InvalidRecord));
}

#[test]
fn a_byte_is_at_most_255() {
    assert_eq!(decode_command("{\"VolumeSet\":255}"), Ok(Commands::VolumeSet(255)));
    assert_eq!(decode_command("{\"VolumeSet\":256}"), Err(SlibError::InvalidRecord));
    assert_eq!(decode_command("{\"VolumeAdjust\":0}"), Ok(Commands::VolumeAdjust(0)));
    assert_eq!(decode_command("{\"VolumeAdjust\":18446744073709551615}"), Err(SlibError::InvalidRecord));
    let v: serde_json::Value = serde_json::from_str("255").unwrap();
    assert_eq!(u8_of_value(&v), Some(255));
    let v: serde_json::Value = serde_json::from_str("256").unwrap();
    assert_eq!(u8_of_value(&v), None);
}

#[test]
fn documents_are_read_as_commands() {
    let v: serde_json::Value = serde_json::from_str("\"Pause\"").unwrap();
    assert_eq!(command_of_value(&v), Some(Commands::Pause));
    let v: serde_json::Value = serde_json::from_str("{\"Search\":\"jazz\"}").unwrap();
    assert_eq!(command_of_value(&v), Some(Commands::Search("jazz".to_string())));
    let v: serde_json::Value = serde_json::from_str("{\"Search\":\"jazz\",\"Play\":1}").unwrap();
    assert_eq!(command_of_value(&v), None);
    let v: serde_json::Value =
        serde_json::from_str("{\"id\":\"1\",\"name\":\"A\",\"image_path\":\"a.png\"}").unwrap();
    assert_eq!(
        item_of_value(&v),
        Some(Item { name: "A".to_string(), id: "1".to_string(), image_path: "a.png".to_string() })
    );
    let v: serde_json::Value = serde_json::from_str("[0,1,255]").unwrap();
    assert_eq!(bytes_of_value(&v), Some(vec![0, 1, 255]));
    let v: serde_json::Value = serde_json::from_str("[0,1,256]").unwrap();
    assert_eq!(bytes_of_value(&v), None);
}

fn song_info() -> SongInfo {
    SongInfo {
        length: Length { secs: 10, nanos: 0 },
        album: Item {
            id: String::from("1234"),
            image_path: String::from("none"),
            name: String::from("Some Album"),
        },
        artist: String::from("Some Artist"),
    }
}

fn every_kind_of_reply() -> Vec<Reply> {
    vec![
        Reply::Identity(vec![]),
        Reply::Identity((0..=255).collect()),
        Reply::Done(true),
        Reply::Done(false),
        Reply::Items(vec![]),
        Reply::Items(vec![item("1", "A"), item("2", "B")]),
        Reply::Status(Status { playing: false, current_song: None, queue: vec![] }),
        Reply::Status(Status {
            playing: true,
            current_song: Some(item("1", "A")),
            queue: vec![item("2", "B"), item("3", "C")],
        }),
        Reply::SongInfo(None),
        Reply::SongInfo(Some(song_info())),
        Reply::SongInfo(Some(SongInfo {
            length: Length { secs: u64::MAX, nanos: u32::MAX },
            album: item("", ""),
            artist: String::new(),
        })),
        Reply::AlbumInfo(None),
        Reply::AlbumInfo(Some(AlbumInfo {
            songs: vec![item("1", "A"), item("2", "B")],
            artist: "Some Artist".to_string(),
        })),
    ]
}

fn kind_of(reply: &Reply) -> ReplyKind {
    match reply {
        Reply::Identity(_) => ReplyKind::Identity,
        Reply::Done(_) => ReplyKind::Done,
        Reply::Items(_) => ReplyKind::Items,
        Reply::Status(_) => ReplyKind::Status,
        Reply::SongInfo(_) => ReplyKind::SongInfo,
        Reply::AlbumInfo(_) => ReplyKind::AlbumInfo,
    }
}

#[test]
fn every_kind_of_reply_round_trips() {
    for reply in every_kind_of_reply() {
        let text = encode_reply(&reply);
        assert!(!text.contains('\n'));
        assert_eq!(decode_reply(kind_of(&reply), &text), Ok(reply));
    }
}

#[test]
fn replies_have_their_exact_text() {
    assert_eq!(encode_reply(&Reply::Done(true)), "true");
    assert_eq!(encode_reply(&Reply::Done(false)), "false");
    assert_eq!(encode_reply(&Reply::Identity(vec![0, 7, 255])), "[0,7,255]");
    assert_eq!(encode_reply(&Reply::Items(vec![])), "[]");
    assert_eq!(encode_reply(&Reply::SongInfo(None)), "null");
    assert_eq!(encode_reply(&Reply::AlbumInfo(None)), "null");
    assert_eq!(
        encode_reply(&Reply::Items(vec![item("1", "A")])),
        "[{\"id\":\"1\",\"image_path\":\"\",\"name\":\"A\"}]"
    );
    assert_eq!(
        encode_reply(&Reply::Status(Status {
            playing: true,
            current_song: None,
            queue: vec![]
        })),
        "{\"current_song\":null,\"playing\":true,\"queue\":[]}"
    );
    assert_eq!(
        encode_reply(&Reply::SongInfo(Some(song_info()))),
        "{\"album\":{\"id\":\"1234\",\"image_path\":\"none\",\"name\":\"Some Album\"},\"artist\":\"Some Artist\",\"length\":{\"nanos\":0,\"secs\":10}}"
    );
    assert_eq!(
        encode_reply(&Reply::AlbumInfo(Some(AlbumInfo { songs: vec![], artist: "X".to_string() }))),
        "{\"artist\":\"X\",\"songs\":[]}"
    );
}

#[test]
fn a_reply_of_another_kind_is_refused() {
    assert_eq!(decode_reply(ReplyKind::Done, "[]"), Err(SlibError::InvalidRecord));
    assert_eq!(decode_reply(ReplyKind::Done, "null"), Err(SlibError::InvalidRecord));
    assert_eq!(decode_reply(ReplyKind::Done, "1"), Err(SlibError::InvalidRecord));
    assert_eq!(decode_reply(ReplyKind::Items, "true"), Err(SlibError::InvalidRecord));
    assert_eq!(decode_reply(ReplyKind::Items, "[1]"), Err(SlibError::InvalidRecord));
    assert_eq!(decode_reply(ReplyKind::Identity, "[1,2,300]"), Err(SlibError::InvalidRecord));
    assert_eq!(decode_reply(ReplyKind::Identity, "\"abc\""), Err(SlibError::InvalidRecord));
    assert_eq!(decode_reply(ReplyKind::Status, "{\"playing\":true}"), Err(SlibError::InvalidRecord));
    assert_eq!(decode_reply(ReplyKind::SongInfo, "{}"), Err(SlibError::InvalidRecord));
    assert_eq!(
        decode_reply(
            ReplyKind::SongInfo,
            "{\"album\":{\"id\":\"1\",\"image_path\":\"\",\"name\":\"A\"},\"artist\":\"X\",\"length\":{\"nanos\":4294967296,\"secs\":1}}"
        ),
        Err(SlibError::InvalidRecord)
    );
    assert_eq!(decode_reply(ReplyKind::AlbumInfo, "{\"artist\":\"X\"}"), Err(SlibError::InvalidRecord));
    assert_eq!(decode_reply(ReplyKind::AlbumInfo, "tru"), Err(SlibError::InvalidRecord));
}

#[test]
fn the_kind_of_reply_follows_the_command() {
    assert_eq!(Commands::Verify.reply_kind(), ReplyKind::Identity);
    assert_eq!(Commands::Shutdown.reply_kind(), ReplyKind::Done);
    assert_eq!(Commands::FetchSongs.reply_kind(), ReplyKind::Items);
    assert_eq!(Commands::Search(String::new()).reply_kind(), ReplyKind::Items);
    assert_eq!(Commands::Status.reply_kind(), ReplyKind::Status);
    assert_eq!(Commands::SongInfo(item("1", "A")).reply_kind(), ReplyKind::SongInfo);
    assert_eq!(Commands::AlbumInfo(item("1", "A")).reply_kind(), ReplyKind::AlbumInfo);
    assert_eq!(Commands::VolumeSet(3).reply_kind(), ReplyKind::Done);
}

#[test]
fn copies_are_equal() {
    let i = Item { name: "A".to_string(), id: "1".to_string(), image_path: "p".to_string() };
    assert_eq!(i.copy(), i);
    let s = Status { playing: true, current_song: Some(i.copy()), queue: vec![i.copy(), item("2", "B")] };
    assert_eq!(s.copy(), s);
}

#[test]
fn members_in_the_order_of_the_fields_are_read() {
    assert_eq!(
        decode_reply(
            ReplyKind::SongInfo,
            "{\"length\":{\"secs\":10,\"nanos\":0},\"album\":{\"name\":\"Some Album\",\"id\":\"1234\",\"image_path\":\"none\"},\"artist\":\"Some Artist\"}"
        ),
        Ok(Reply::SongInfo(Some(song_info())))
    );
    assert_eq!(
        decode_reply(
            ReplyKind::Status,
            "{\"playing\":false,\"current_song\":{\"name\":\"A\",\"id\":\"1\",\"image_path\":\"\"},\"queue\":[{\"name\":\"B\",\"id\":\"2\",\"image_path\":\"\"}]}"
        ),
        Ok(Reply::Status(Status {
            playing: false,
            current_song: Some(item("1", "A")),
            queue: vec![item("2", "B")],
        }))
    );
    assert_eq!(
        decode_reply(
            ReplyKind::AlbumInfo,
            "{\"songs\":[{\"name\":\"A\",\"id\":\"1\",\"image_path\":\"\"}],\"artist\":\"X\"}"
        ),
        Ok(Reply::AlbumInfo(Some(AlbumInfo { songs: vec![item("1", "A")], artist: "X".to_string() })))
    );
    assert_eq!(
        decode_command(
            "{\"PlaylistAddTo\":{\"playlist\":{\"name\":\"list\",\"id\":\"p\",\"image_path\":\"\"},\"id\":{\"name\":\"song\",\"id\":\"s\",\"image_path\":\"\"}}}"
        ),
        Ok(Commands::PlaylistAddTo { playlist: item("p", "list"), id: item("s", "song") })
    );
}

#[test]
fn a_command_without_payload_may_be_an_object_with_a_null_member() {
    assert_eq!(decode_command("{\"Verify\":null}"), Ok(Commands::Verify));
    assert_eq!(decode_command("{\"Shutdown\":null}"), Ok(Commands::Shutdown));
    assert_eq!(decode_command("{ \"FetchPlaylists\" : null }"), Ok(Commands::FetchPlaylists));
    assert_eq!(decode_command("{\"Skip\":null}"), Ok(Commands::Skip));
    assert_eq!(decode_command("{\"Stop\":null}"), Ok(Commands::Stop));
    assert_eq!(
        decode_command("{\"Skip\":null,\"Stop\":null}"),
        Err(SlibError::InvalidRecord)
    );
    let v: serde_json::Value = serde_json::from_str("{\"Status\":null}").unwrap();
    assert_eq!(command_of_value(&v), Some(Commands::Status));
}

#[test]
fn a_status_may_leave_out_the_song_that_plays() {
    assert_eq!(
        decode_reply(ReplyKind::Status, "{\"playing\":true,\"queue\":[]}"),
        Ok(Reply::Status(Status { playing: true, current_song: None, queue: vec![] }))
    );
    assert_eq!(
        decode_reply(ReplyKind::Status, "{\"playing\":true,\"current_song\":7,\"queue\":[]}"),
        Err(SlibError::InvalidRecord)
    );
    assert_eq!(
        decode_reply(ReplyKind::Status, "{\"playing\":true,\"current_song\":null}"),
        Err(SlibError::InvalidRecord)
    );
}

#[test]
fn records_may_be_arrays_of_their_fields_in_order() {
    assert_eq!(
        decode_command("{\"Star\":[\"x\",\"7\",\"\"]}"),
        Ok(Commands::Star(item("7", "x")))
    );
    assert_eq!(
        decode_command("{\"QueueAdd\":[{\"name\":\"x\",\"id\":\"7\",\"image_path\":\"\"},3]}"),
        Ok(Commands::QueueAdd { id: item("7", "x"), position: 3 })
    );
    assert_eq!(
        decode_command("{\"QueueAdd\":[[\"x\",\"7\",\"\"],3]}"),
        Ok(Commands::QueueAdd { id: item("7", "x"), position: 3 })
    );
    assert_eq!(
        decode_command("{\"PlaylistNew\":[\"mix\"]}"),
        Ok(Commands::PlaylistNew { name: "mix".to_string() })
    );
    assert_eq!(
        decode_command("{\"PlaylistRemoveFrom\":[[\"list\",\"p\",\"\"],[\"song\",\"s\",\"\"]]}"),
        Ok(Commands::PlaylistRemoveFrom { playlist: item("p", "list"), id: item("s", "song") })
    );
    assert_eq!(
        decode_reply(ReplyKind::Status, "[true,null,[[\"B\",\"2\",\"\"]]]"),
        Ok(Reply::Status(Status {
            playing: true,
            current_song: None,
            queue: vec![item("2", "B")]
        }))
    );
    assert_eq!(
        decode_reply(
            ReplyKind::SongInfo,
            "[[10,0],[\"Some Album\",\"1234\",\"none\"],\"Some Artist\"]"
        ),
        Ok(Reply::SongInfo(Some(song_info())))
    );
    assert_eq!(
        decode_reply(ReplyKind::AlbumInfo, "[[[\"A\",\"1\",\"\"]],\"X\"]"),
        Ok(Reply::AlbumInfo(Some(AlbumInfo { songs: vec![item("1", "A")], artist: "X".to_string() })))
    );
    assert_eq!(
        decode_reply(ReplyKind::Items, "[[\"A\",\"1\",\"\"],{\"name\":\"B\",\"id\":\"2\",\"image_path\":\"\"}]"),
        Ok(Reply::Items(vec![item("1", "A"), item("2", "B")]))
    );
}

#[test]
fn an_array_of_another_length_is_no_record() {
    assert_eq!(decode_command("{\"Star\":[\"x\",\"7\"]}"), Err(SlibError::InvalidRecord));
    assert_eq!(decode_command("{\"Star\":[\"x\",\"7\",\"\",\"\"]}"), Err(SlibError::InvalidRecord));
    assert_eq!(decode_command("{\"Star\":[\"x\",7,\"\"]}"), Err(SlibError::InvalidRecord));
    assert_eq!(decode_command("{\"Star\":[]}"), Err(SlibError::InvalidRecord));
    assert_eq!(decode_command("{\"QueueAdd\":[3]}"), Err(SlibError::InvalidRecord));
    assert_eq!(decode_command("{\"PlaylistNew\":[]}"), Err(SlibError::InvalidRecord));
    assert_eq!(decode_command("{\"PlaylistNew\":[\"a\",\"b\"]}"), Err(SlibError::InvalidRecord));
    assert_eq!(decode_reply(ReplyKind::Status, "[true,[]]"), Err(SlibError::InvalidRecord));
    assert_eq!(decode_reply(ReplyKind::SongInfo, "[[10],[\"a\",\"b\",\"c\"],\"X\"]"), Err(SlibError::InvalidRecord));
    assert_eq!(decode_reply(ReplyKind::AlbumInfo, "[[]]"), Err(SlibError::InvalidRecord));
}
