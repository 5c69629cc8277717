//! The server's side of a session: how a payload is framed as a record, and
//! what the session loop does with one record it has read.

use crate::decode::{command_of_text, decode_command};
use crate::dispatch::{answers, dispatched, Daemon};
use crate::encode::{encode_reply, reply_json};
use crate::json::json_text;
use crate::model::{viewed, Commands, CommandsView, Reply, ReplyView};
use vstd::prelude::*;
use vstd::std_specs::iter::IteratorSpec;
use vstd::string::{StrSliceExecFns, StringExecFns};

verus! {

/// A record is its payload and one line break after it.
pub open spec fn record_of(payload: Seq<char>) -> Seq<char> {
    payload.push('\n')
}

/// The payload of a line that ends in its one line break; any other line is
/// no record.
pub open spec fn payload_of(line: Seq<char>) -> Option<Seq<char>> {
    if line.len() > 0 && line.last() == '\n' && !line.drop_last().contains('\n') {
        Some(line.drop_last())
    } else {
        None
    }
}

/// Tells whether a text holds a line break.
pub fn has_line_break(text: &str) -> (found: bool)
    ensures
        found == text@.contains('\n'),
{
    broadcast use {vstd::string::next_postcondition, vstd::string::axiom_spec_iter};

    let mut rest = text.chars();
    let ghost mut seen: int = 0;
    loop
        invariant
            0 <= seen <= text@.len(),
            rest.obeys_prophetic_iter_laws(),
            rest.remaining() == text@.subrange(seen, text@.len() as int),
            forall|j: int| 0 <= j < seen ==> text@[j] != '\n',
        decreases text@.len() - seen,
    {
        match rest.next() {
            Some(c) => {
                if c == '\n' {
                    proof {
                        assert(text@[seen] == '\n');
                    }
                    return true;
                }
                proof {
                    assert(text@.subrange(seen, text@.len() as int).drop_first()
                        =~= text@.subrange(seen + 1, text@.len() as int));
                    seen = seen + 1;
                }
            },
            None => {
                return false;
            },
        }
    }
}

/// Frames a payload as a record.
pub fn frame(payload: String) -> (record: String)
    ensures
        record@ == record_of(payload@),
{
    let record = payload.concat("\n");
    proof {
        reveal_strlit("\n");
        assert("\n"@ =~= seq!['\n']);
        assert(record@ =~= payload@.push('\n'));
    }
    record
}

/// Takes the payload out of a line as it was read; `None` where the line
/// does not end in a line break.
pub fn unframe(line: &str) -> (payload: Option<String>)
    ensures
        viewed(payload) == payload_of(line@),
{
    let n: usize = line.unicode_len();
    if n == 0 {
        return None;
    }
    if line.get_char(n - 1) != '\n' {
        return None;
    }
    let body = line.substring_char(0, n - 1);
    proof {
        assert(body@ =~= line@.drop_last());
    }
    if has_line_break(body) {
        return None;
    }
    Some(String::from_str(body))
}

/// The states of the session loop.
#[derive(Debug, PartialEq, Eq, Clone, Copy)]
pub enum LoopState {
    /// The loop accepts the next connection.
    Listening,
    /// The loop has ended and accepts nothing more.
    Terminated,
}

/// The state of the loop after a command was answered: it ends where the
/// command was `Shutdown` and the answer was `true`, and only there.
pub open spec fn state_after(c: CommandsView, r: ReplyView) -> LoopState {
    if c == CommandsView::Shutdown && r == ReplyView::Done(true) {
        LoopState::Terminated
    } else {
        LoopState::Listening
    }
}

/// The state of the loop after a command was answered.
pub fn next_state(c: &Commands, r: &Reply) -> (s: LoopState)
    ensures
        s == state_after(c@, r@),
{
    match (c, r) {
        (Commands::Shutdown, Reply::Done(true)) => LoopState::Terminated,
        _ => LoopState::Listening,
    }
}

/// What the loop does with a connection after it has read one line from it.
#[derive(Debug, PartialEq, Eq)]
pub enum Served {
    /// The line was no record of a command: the connection is closed without
    /// a reply.
    Dropped,
    /// The record to write before the connection is closed.
    Replied { record: String },
}

/// The command that a line holds, if it is the record of one.
pub open spec fn command_of_line(line: Seq<char>) -> Option<CommandsView> {
    match payload_of(line) {
        Some(payload) => command_of_text(payload),
        None => None,
    }
}

/// That the daemon `d` of the given build answers a command of view `c`
/// with the record `record` and is then in `state`: the record is one line
/// that frames the encoding of what the command's operation returned, and
/// the loop ends where that was the `true` of `shutdown`, and nowhere else.
pub open spec fn serves<D: Daemon>(
    d: &D,
    c: CommandsView,
    identity: Seq<u8>,
    record: Seq<char>,
    state: LoopState,
) -> bool {
    exists|command: Commands, r: ReplyView| #[trigger]
        dispatched(d, command, identity, r) && command@ == c && answers(c, identity, r)
            && record == record_of(json_text(reply_json(r))) && payload_of(record) == Some(
            json_text(reply_json(r)),
        ) && state == state_after(c, r)
}

/// What one turn of the session loop comes to on a line: a line that is no
/// record of a command is dropped and the loop keeps listening; the record
/// of a command is answered by the daemon.
pub open spec fn turn<D: Daemon>(
    d: &D,
    identity: Seq<u8>,
    line: Seq<char>,
    served: Served,
    state: LoopState,
) -> bool {
    match command_of_line(line) {
        None => served == Served::Dropped && state == LoopState::Listening,
        Some(c) => match served {
            Served::Replied { record } => serves(d, c, identity, record@, state),
            Served::Dropped => false,
        },
    }
}

/// One turn of the session loop on the line read from a connection. A line
/// that is no record of a command is dropped and the loop keeps listening.
/// A command is answered by the daemon, the answer framed as a record.
pub fn serve<D: Daemon>(daemon: &D, identity: &[u8; 32], line: &str) -> (out: (Served, LoopState))
    ensures
        turn(daemon, identity@, line@, out.0, out.1),
{
    let payload = match unframe(line) {
        Some(payload) => payload,
        None => {
            return (Served::Dropped, LoopState::Listening);
        },
    };
    let command = match decode_command(payload.as_str()) {
        Ok(command) => command,
        Err(_) => {
            return (Served::Dropped, LoopState::Listening);
        },
    };
    let ghost asked = command;
    let shutdown = match command {
        Commands::Shutdown => true,
        _ => false,
    };
    let reply = daemon.answer(command, identity);
    let state = if shutdown {
        next_state(&Commands::Shutdown, &reply)
    } else {
        LoopState::Listening
    };
    let record = frame(encode_reply(&reply));
    proof {
        let text = json_text(reply_json(reply@));
        assert(text.push('\n').drop_last() =~= text);
        assert(dispatched(daemon, asked, identity@, reply@) && answers(asked@, identity@, reply@)
            && record@ == record_of(text) && payload_of(record@) == Some(text) && state
            == state_after(asked@, reply@));
    }
    (Served::Replied { record }, state)
}

} // verus!
