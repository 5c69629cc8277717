//! What holds of the parts together: a value that is written as a document
//! is read back from that document unchanged, the dispatcher answers with
//! what the daemon returned, the session loop ends on the daemon's word
//! alone, and the handshake tells builds apart.

use crate::client::{checked, reply_of_line};
use crate::decode::{
    album_info_of_json, bytes_of_json, command_names, command_of_json, command_of_text,
    item_of_json, items_of_json, length_of_json, reply_of_json, reply_of_text,
    song_info_of_json, status_of_json,
};
use crate::dispatch::{answers, dispatched, reply_fits, Daemon};
use crate::encode::{
    album_info_json, bytes_json, command_json, item_json, items_json, length_json, reply_json,
    song_info_json, status_json,
};
use crate::json::{has_size, json_parse, json_text, no_members, Json};
use crate::model::{
    kind_of_command, kind_of_reply, AlbumInfoView, Commands, CommandsView, ItemView, Length,
    ReplyView, SlibError, SongInfoView, StatusView,
};
use crate::session::{
    command_of_line, payload_of, record_of, serves, state_after, turn, LoopState, Served,
};
use vstd::prelude::*;

verus! {

/// The lengths and first letters of the member names.
proof fn member_names()
    ensures
        "name"@.len() == 4,
        "name"@[0] == 'n',
        "id"@.len() == 2,
        "id"@[0] == 'i',
        "image_path"@.len() == 10,
        "image_path"@[0] == 'i',
        "playing"@.len() == 7,
        "playing"@[0] == 'p',
        "current_song"@.len() == 12,
        "current_song"@[0] == 'c',
        "queue"@.len() == 5,
        "queue"@[0] == 'q',
        "secs"@.len() == 4,
        "secs"@[0] == 's',
        "nanos"@.len() == 5,
        "nanos"@[0] == 'n',
        "length"@.len() == 6,
        "length"@[0] == 'l',
        "album"@.len() == 5,
        "album"@[0] == 'a',
        "artist"@.len() == 6,
        "artist"@[0] == 'a',
        "songs"@.len() == 5,
        "songs"@[0] == 's',
        "position"@.len() == 8,
        "position"@[0] == 'p',
        "playlist"@.len() == 8,
        "playlist"@[0] == 'p',
{
    reveal_strlit("name");
    reveal_strlit("id");
    reveal_strlit("image_path");
    reveal_strlit("playing");
    reveal_strlit("current_song");
    reveal_strlit("queue");
    reveal_strlit("secs");
    reveal_strlit("nanos");
    reveal_strlit("length");
    reveal_strlit("album");
    reveal_strlit("artist");
    reveal_strlit("songs");
    reveal_strlit("position");
    reveal_strlit("playlist");
}

/// An object of one member has one member.
proof fn one_member(key: Seq<char>, j: Json)
    ensures
        has_size(no_members().insert(key, j), 1),
        no_members().insert(key, j).dom().choose() == key,
{
    let m = no_members().insert(key, j);
    assert(m.dom() =~= set![key]);
    Set::lemma_is_singleton(m.dom());
    assert(m.dom().contains(key));
}

/// An item is read back from its document.
pub proof fn item_round_trip(i: ItemView)
    ensures
        item_of_json(item_json(i)) == Some(i),
{
    member_names();
}

/// A list of items is read back from its document, in the same order.
pub proof fn items_round_trip(items: Seq<ItemView>)
    ensures
        items_of_json(items_json(items)) == Some(items),
{
    let a = Seq::new(items.len(), |k: int| item_json(items[k]));
    assert forall|k: int| 0 <= k < a.len() implies item_of_json(#[trigger] a[k]) == Some(
        items[k],
    ) by {
        item_round_trip(items[k]);
    }
    assert(Seq::new(a.len(), |k: int| item_of_json(a[k])->Some_0) =~= items);
}

/// A byte sequence is read back from its document.
pub proof fn bytes_round_trip(bytes: Seq<u8>)
    ensures
        bytes_of_json(bytes_json(bytes)) == Some(bytes),
{
    let a = Seq::new(bytes.len(), |k: int| Json::Uint(bytes[k] as u64));
    assert forall|k: int| 0 <= k < a.len() implies crate::decode::u8_of_json(#[trigger] a[k])
        == Some(bytes[k]) by {}
    assert(Seq::new(a.len(), |k: int| crate::decode::u8_of_json(a[k])->Some_0) =~= bytes);
}

/// A playback snapshot is read back from its document.
pub proof fn status_round_trip(s: StatusView)
    ensures
        status_of_json(status_json(s)) == Some(s),
{
    member_names();
    items_round_trip(s.queue);
    if let Some(i) = s.current_song {
        item_round_trip(i);
    }
}

/// A length is read back from its document.
pub proof fn length_round_trip(l: Length)
    ensures
        length_of_json(length_json(l)) == Some(l),
{
    member_names();
}

/// What is known of a song is read back from its document.
pub proof fn song_info_round_trip(s: SongInfoView)
    ensures
        song_info_of_json(song_info_json(s)) == Some(s),
{
    member_names();
    length_round_trip(s.length);
    item_round_trip(s.album);
}

/// What is known of an album is read back from its document.
pub proof fn album_info_round_trip(a: AlbumInfoView)
    ensures
        album_info_of_json(album_info_json(a)) == Some(a),
{
    member_names();
    items_round_trip(a.songs);
}

/// Every reply is read back from its document as a reply of its own kind.
pub proof fn reply_round_trip(r: ReplyView)
    ensures
        reply_of_json(kind_of_reply(r), reply_json(r)) == Some(r),
{
    match r {
        ReplyView::Identity(bytes) => bytes_round_trip(bytes),
        ReplyView::Done(_) => {},
        ReplyView::Items(items) => items_round_trip(items),
        ReplyView::Status(status) => status_round_trip(status),
        ReplyView::SongInfo(Some(info)) => song_info_round_trip(info),
        ReplyView::SongInfo(None) => {},
        ReplyView::AlbumInfo(Some(info)) => album_info_round_trip(info),
        ReplyView::AlbumInfo(None) => {},
    }
}

/// Every command is read back from its document.
pub proof fn command_round_trip(c: CommandsView)
    ensures
        command_of_json(command_json(c)) == Some(c),
{
    command_names();
    member_names();
    match crate::encode::command_payload(c) {
        None => {},
        Some(payload) => {
            one_member(crate::encode::command_tag(c), payload);
            match c {
                CommandsView::QueueAdd { id, position } => item_round_trip(id),
                CommandsView::QueueRemove(id) => item_round_trip(id),
                CommandsView::Download(id) => item_round_trip(id),
                CommandsView::Delete(id) => item_round_trip(id),
                CommandsView::Star(id) => item_round_trip(id),
                CommandsView::PlaylistDownload(id) => item_round_trip(id),
                CommandsView::PlaylistUpload(id) => item_round_trip(id),
                CommandsView::PlaylistAddTo { playlist, id } => {
                    item_round_trip(playlist);
                    item_round_trip(id);
                },
                CommandsView::PlaylistRemoveFrom { playlist, id } => {
                    item_round_trip(playlist);
                    item_round_trip(id);
                },
                CommandsView::PlaylistDelete(id) => item_round_trip(id),
                CommandsView::SongInfo(id) => item_round_trip(id),
                CommandsView::AlbumInfo(id) => item_round_trip(id),
                _ => {},
            }
        },
    }
}

/// A payload without a line break is taken back out of its record.
pub proof fn frame_round_trip(payload: Seq<char>)
    requires
        !payload.contains('\n'),
    ensures
        payload_of(record_of(payload)) == Some(payload),
{
    assert(payload.push('\n').drop_last() =~= payload);
}

/// That the JSON text of a document is one line and is read back as that
/// document.
pub open spec fn reads_back(j: Json) -> bool {
    !json_text(j).contains('\n') && json_parse(json_text(j)) == Some(j)
}

/// A command that was encoded and framed is decoded from that record,
/// wherever the JSON text of its document is one line that is read back as
/// that document.
pub proof fn command_record_round_trip(c: CommandsView)
    ensures
        reads_back(command_json(c)) ==> command_of_text(json_text(command_json(c))) == Some(c),
        reads_back(command_json(c)) ==> command_of_line(record_of(json_text(command_json(c))))
            == Some(c),
{
    command_round_trip(c);
    if reads_back(command_json(c)) {
        frame_round_trip(json_text(command_json(c)));
    }
}

/// A reply that was encoded and framed is decoded from that record by the
/// client that sent a command of its kind, wherever the JSON text of its
/// document is one line that is read back as that document.
pub proof fn reply_record_round_trip(c: CommandsView, r: ReplyView)
    requires
        reply_fits(c, r),
    ensures
        reads_back(reply_json(r)) ==> reply_of_text(kind_of_command(c), json_text(reply_json(r)))
            == Some(r),
        reads_back(reply_json(r)) ==> reply_of_line(
            kind_of_command(c),
            record_of(json_text(reply_json(r))),
        ) == Some(r),
{
    reply_round_trip(r);
    if reads_back(reply_json(r)) {
        frame_round_trip(json_text(reply_json(r)));
    }
}

/// What the dispatcher hands back is a reply of the kind that belongs to the
/// command, and for `Verify` the build identity.
pub proof fn dispatched_answers<D: Daemon>(d: &D, c: Commands, identity: Seq<u8>, r: ReplyView)
    requires
        dispatched(d, c, identity, r),
    ensures
        answers(c@, identity, r),
{
}

/// The record written for `Shutdown` holds what the daemon's `shutdown`
/// returned, and the loop ends exactly where that was `true`.
pub proof fn shutdown_is_the_daemons_word<D: Daemon>(
    d: &D,
    identity: Seq<u8>,
    record: Seq<char>,
    state: LoopState,
)
    requires
        serves(d, CommandsView::Shutdown, identity, record, state),
    ensures
        exists|b: bool| #[trigger]
            call_ensures(D::shutdown, (d,), b) && record == record_of(
                json_text(reply_json(ReplyView::Done(b))),
            ) && (state == LoopState::Terminated <==> b),
{
    let (command, r) = choose|command: Commands, r: ReplyView| #[trigger]
        dispatched(d, command, identity, r) && command@ == CommandsView::Shutdown && answers(
            CommandsView::Shutdown,
            identity,
            r,
        ) && record == record_of(json_text(reply_json(r))) && payload_of(record) == Some(
            json_text(reply_json(r)),
        ) && state == state_after(CommandsView::Shutdown, r);
    assert(command matches Commands::Shutdown);
    let b = choose|b: bool| #[trigger]
        call_ensures(D::shutdown, (d,), b) && r == ReplyView::Done(b);
    assert(call_ensures(D::shutdown, (d,), b) && record == record_of(
        json_text(reply_json(ReplyView::Done(b))),
    ) && (state == LoopState::Terminated <==> b));
}

/// The answer to `Verify` is the build identity, whatever the daemon is.
pub proof fn verify_answers_the_identity(identity: Seq<u8>, r: ReplyView)
    requires
        answers(CommandsView::Verify, identity, r),
    ensures
        r == ReplyView::Identity(identity),
{
}

/// The session loop ends after a command exactly where the command was
/// `Shutdown` and the answer was `true`; after anything else it listens.
pub proof fn loop_ends_on_affirmed_shutdown_only(c: CommandsView, r: ReplyView)
    ensures
        state_after(c, r) == LoopState::Terminated <==> c == CommandsView::Shutdown && r
            == ReplyView::Done(true),
        state_after(c, r) != LoopState::Terminated ==> state_after(c, r) == LoopState::Listening,
{
}

/// A line that is no record of a command gets no reply and leaves the loop
/// listening, so that the next line is served like any other.
pub proof fn malformed_line_is_dropped<D: Daemon>(
    d: &D,
    identity: Seq<u8>,
    line: Seq<char>,
    served: Served,
    state: LoopState,
)
    requires
        turn(d, identity, line, served, state),
        command_of_line(line) is None,
    ensures
        served == Served::Dropped,
        state == LoopState::Listening,
{
}

/// A daemon whose identity differs from the client's in one byte is refused
/// with the identity it reported, and so is one whose identity has another
/// length; a daemon with the client's identity is accepted.
pub proof fn handshake_tells_builds_apart(own: Seq<u8>, reported: Vec<u8>)
    ensures
        reported@ == own ==> checked(own, reported) is Ok,
        reported@.len() != own.len() ==> checked(own, reported) == Err::<(), SlibError>(
            SlibError::InvalidServerHash(reported),
        ),
        (exists|k: int| 0 <= k < own.len() && k < reported@.len() && reported@[k] != own[k])
            ==> checked(own, reported) == Err::<(), SlibError>(
            SlibError::InvalidServerHash(reported),
        ),
{
}

} // verus!
