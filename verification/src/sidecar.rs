//! The bridge itself: what it knows of the worker, the ids it has handed
//! out and the calls that wait.
//!
//! The bridge decides; the embedding program acts. It launches the worker and
//! reports the outcome to [`Sidecar::spawn`]; it writes the line that
//! [`Sidecar::call`] hands out and awaits the receiver that comes with it; it
//! feeds every line of worker output to [`Sidecar::dispatch_line`]; and when
//! [`Sidecar::kill`] says there is a worker, it closes the pipe to it, kills
//! it and reaps it.

use tokio::sync::oneshot::error::RecvError;
use tokio::sync::oneshot::{Receiver, Sender};
use vstd::prelude::*;
use crate::error::{CallError, SpawnError};
use crate::ids::{next_after, IdCounter};
use crate::pending::{Delivery, PendingTable};
use crate::wire::{
    answers, decode_response, encode_request, request_for, request_prints, response_id,
    single_line,
};

verus! {

/// What became of an attempt to launch the worker.
#[derive(Debug, PartialEq, Eq)]
pub enum Launch {
    /// The executable could not be launched; the text is the system's reason.
    Failed(String),
    /// The worker runs; the flags say which of its pipes could be taken.
    Started {
        /// Whether the pipe to the worker's standard input was there.
        stdin: bool,
        /// Whether the pipe from the worker's standard output was there.
        stdout: bool,
    },
}

/// A call that has been given its id and its slot in the table.
#[derive(Debug)]
pub struct IssuedCall {
    /// The id of the request.
    pub id: u64,
    /// The request, to be written to the worker followed by a line feed.
    pub line: String,
    /// Yields the worker's answer once the dispatcher has delivered it.
    pub receiver: Receiver<serde_json::Value>,
}

/// Where one line of worker output is to go.
#[derive(Debug)]
pub enum Routed {
    /// Nowhere: the line is no JSON or names no id.
    Discarded,
    /// Nowhere: the line answers this id, under which no call waits.
    Unknown(u64),
    /// To the caller whose sending end the delivery holds.
    Claimed(Delivery),
}

/// What the dispatcher did with one line of worker output.
#[derive(Debug, Clone, Copy, PartialEq, Eq, Structural)]
pub enum Dispatch {
    /// The line was no JSON or named no id, and was thrown away.
    Discarded,
    /// The line answered this id, under which no call waited; it was dropped.
    Unknown(u64),
    /// The line answered this id, and its payload went to the waiting call.
    Delivered(u64),
}

/// The table after a line of worker output has been dispatched: the entry
/// that the line answers is gone, all others are as before.
pub open spec fn after_line(
    table: Map<u64, Sender<serde_json::Value>>,
    line: Seq<char>,
) -> Map<u64, Sender<serde_json::Value>> {
    match response_id(line) {
        Some(id) => table.remove(id),
        None => table,
    }
}

/// What dispatching a line does, given the table that the line meets.
pub open spec fn dispatch_of(
    table: Map<u64, Sender<serde_json::Value>>,
    line: Seq<char>,
) -> Dispatch {
    match response_id(line) {
        Some(id) => if table.contains_key(id) {
            Dispatch::Delivered(id)
        } else {
            Dispatch::Unknown(id)
        },
        None => Dispatch::Discarded,
    }
}

/// The table after some lines of worker output have been dispatched in
/// order.
pub open spec fn after_lines(
    table: Map<u64, Sender<serde_json::Value>>,
    lines: Seq<Seq<char>>,
) -> Map<u64, Sender<serde_json::Value>>
    decreases lines.len(),
{
    if lines.len() == 0 {
        table
    } else {
        after_line(after_lines(table, lines.drop_last()), lines.last())
    }
}

/// What dispatching some lines in order does with each of them.
pub open spec fn outcomes_of(
    table: Map<u64, Sender<serde_json::Value>>,
    lines: Seq<Seq<char>>,
) -> Seq<Dispatch>
    decreases lines.len(),
{
    if lines.len() == 0 {
        Seq::empty()
    } else {
        outcomes_of(table, lines.drop_last()).push(
            dispatch_of(after_lines(table, lines.drop_last()), lines.last()),
        )
    }
}

/// The texts of some lines.
pub open spec fn texts(lines: Seq<String>) -> Seq<Seq<char>> {
    lines.map_values(|line: String| line@)
}

/// The request/response bridge to one worker process.
#[derive(Debug)]
pub struct Sidecar {
    child: bool,
    stdin: bool,
    pending: PendingTable,
    ids: IdCounter,
}

impl Sidecar {
    /// Whether the bridge holds a worker that has not been killed.
    pub closed spec fn has_child(&self) -> bool {
        self.child
    }

    /// Whether the bridge holds a pipe to a worker's input.
    pub closed spec fn has_stdin(&self) -> bool {
        self.stdin
    }

    /// Whether the bridge can reach a worker: it holds one, and a pipe to
    /// its input.
    pub open spec fn is_active(&self) -> bool {
        self.has_child() && self.has_stdin()
    }

    /// The id that the next call gets.
    pub closed spec fn next_id(&self) -> u64 {
        self.ids.peek()
    }

    /// The calls that wait for an answer: for each id the sending end that
    /// the call registered.
    pub closed spec fn pending(&self) -> Map<u64, Sender<serde_json::Value>> {
        self.pending@
    }

    /// A bridge without a worker: no call waits, and the first id is 1.
    pub fn new() -> (bridge: Sidecar)
        ensures
            !bridge.has_child(),
            !bridge.has_stdin(),
            bridge.next_id() == 1,
            bridge.pending() == Map::<u64, Sender<serde_json::Value>>::empty(),
    {
        Sidecar { child: false, stdin: false, pending: PendingTable::new(), ids: IdCounter::new() }
    }

    /// Whether the bridge holds a worker that has not been killed.
    pub fn is_alive(&self) -> (alive: bool)
        ensures
            alive == self.has_child(),
    {
        self.child
    }

    /// Whether the bridge holds a pipe to a worker's input.
    pub fn is_running(&self) -> (running: bool)
        ensures
            running == self.has_stdin(),
    {
        self.stdin
    }

    /// The number of calls that wait for an answer.
    pub fn pending_count(&self) -> (count: usize)
        ensures
            count == self.pending().len(),
    {
        self.pending.len()
    }

    /// Whether a call waits for an answer under this id.
    pub fn is_pending(&self, id: u64) -> (waiting: bool)
        ensures
            waiting == self.pending().contains_key(id),
    {
        self.pending.is_pending(id)
    }

    /// Takes note of a launch. The bridge has a worker from now on if and
    /// only if the launch succeeded and both pipes could be taken; a launch
    /// that failed, and then a missing pipe to the input, and then a missing
    /// pipe from the output, is reported and leaves the bridge as it was.
    pub fn spawn(&mut self, launch: Launch) -> (outcome: Result<(), SpawnError>)
        ensures
            final(self).next_id() == old(self).next_id(),
            final(self).pending() == old(self).pending(),
            match launch {
                Launch::Failed(reason) => outcome matches Err(SpawnError::Launch(text)) && text
                    == reason,
                Launch::Started { stdin: false, stdout: _ } => outcome matches Err(
                    SpawnError::NoStdin,
                ),
                Launch::Started { stdin: true, stdout: false } => outcome matches Err(
                    SpawnError::NoStdout,
                ),
                Launch::Started { stdin: true, stdout: true } => outcome is Ok,
            },
            outcome is Ok ==> final(self).has_child() && final(self).has_stdin(),
            outcome is Err ==> final(self).has_child() == old(self).has_child(),
            outcome is Err ==> final(self).has_stdin() == old(self).has_stdin(),
    {
        match launch {
            Launch::Failed(reason) => Err(SpawnError::Launch(reason)),
            Launch::Started { stdin, stdout } => {
                if !stdin {
                    Err(SpawnError::NoStdin)
                } else if !stdout {
                    Err(SpawnError::NoStdout)
                } else {
                    self.stdin = true;
                    self.child = true;
                    Ok(())
                }
            },
        }
    }

    /// Starts a call: takes the next id, opens a slot for the answer under
    /// it, and frames the request.
    ///
    /// The id is used up and the slot stays in the table whatever the
    /// outcome. Without a worker, or without a pipe to it, the call fails
    /// with [`CallError::NotRunning`] and hands out nothing to write. With
    /// both, the outcome is the request line with the receiver to await, if
    /// and only if `serde_json` prints the method name and the parameters.
    pub fn call(&mut self, method: &str, params: serde_json::Value) -> (issued: Result<
        IssuedCall,
        CallError,
    >)
        ensures
            final(self).next_id() == next_after(old(self).next_id()),
            final(self).has_child() == old(self).has_child(),
            final(self).has_stdin() == old(self).has_stdin(),
            final(self).pending() == old(self).pending().insert(
                old(self).next_id(),
                final(self).pending()[old(self).next_id()],
            ),
            !old(self).is_active() ==> issued matches Err(CallError::NotRunning),
            old(self).is_active() ==> (issued is Ok <==> request_prints(method@, params)),
            old(self).is_active() ==> match issued {
                Ok(call) => {
                    &&& call.id == old(self).next_id()
                    &&& call.line@ == request_for(call.id, method@, params)
                    &&& single_line(call.line@)
                },
                Err(error) => error is Encode,
            },
    {
        let id: u64 = self.ids.allocate();
        let receiver = self.pending.register(id);
        if !self.child || !self.stdin {
            return Err(CallError::NotRunning);
        }
        match encode_request(id, method, &params) {
            Ok(line) => Ok(IssuedCall { id, line, receiver }),
            Err(error) => Err(error),
        }
    }

    /// Ends a call with what awaiting its receiver gave: the answer, or
    /// [`CallError::Disconnected`] where the slot was given up before an
    /// answer came.
    pub fn complete(received: Result<serde_json::Value, RecvError>) -> (outcome: Result<
        serde_json::Value,
        CallError,
    >)
        ensures
            match received {
                Ok(value) => outcome == Ok::<serde_json::Value, CallError>(value),
                Err(_) => outcome matches Err(CallError::Disconnected),
            },
    {
        match received {
            Ok(value) => Ok(value),
            Err(_) => Err(CallError::Disconnected),
        }
    }

    /// Decides where one line of worker output goes, and takes the entry of
    /// the call that it answers out of the table.
    ///
    /// The line is routed by its id alone. Where a call waits under that id,
    /// the outcome pairs the payload that the line carries with the sending
    /// end that this call registered. Every other entry stays as it is; a
    /// line that answers no waiting call changes nothing.
    pub fn route_line(&mut self, line: &str) -> (routed: Routed)
        ensures
            final(self).pending() == after_line(old(self).pending(), line@),
            final(self).next_id() == old(self).next_id(),
            final(self).has_child() == old(self).has_child(),
            final(self).has_stdin() == old(self).has_stdin(),
            match routed {
                Routed::Discarded => dispatch_of(old(self).pending(), line@) == Dispatch::Discarded,
                Routed::Unknown(id) => dispatch_of(old(self).pending(), line@) == Dispatch::Unknown(
                    id,
                ),
                Routed::Claimed(delivery) => {
                    &&& dispatch_of(old(self).pending(), line@) == Dispatch::Delivered(delivery.id)
                    &&& delivery.sender == old(self).pending()[delivery.id]
                    &&& answers(line@, delivery.id, delivery.payload)
                },
            },
            !(routed is Claimed) ==> final(self).pending() == old(self).pending(),
    {
        match decode_response(line) {
            Some(response) => {
                let id: u64 = response.id;
                match self.pending.claim(id, response.payload) {
                    Some(delivery) => Routed::Claimed(delivery),
                    None => Routed::Unknown(id),
                }
            },
            None => Routed::Discarded,
        }
    }

    /// Handles one line of worker output: routes it, and sends the payload
    /// to the call that waits for it. A line that cannot be decoded is thrown
    /// away, and so is a response that no call waits for; neither touches a
    /// waiting call.
    pub fn dispatch_line(&mut self, line: &str) -> (done: Dispatch)
        ensures
            done == dispatch_of(old(self).pending(), line@),
            final(self).pending() == after_line(old(self).pending(), line@),
            !(done is Delivered) ==> final(self).pending() == old(self).pending(),
            final(self).next_id() == old(self).next_id(),
            final(self).has_child() == old(self).has_child(),
            final(self).has_stdin() == old(self).has_stdin(),
    {
        match self.route_line(line) {
            Routed::Discarded => Dispatch::Discarded,
            Routed::Unknown(id) => Dispatch::Unknown(id),
            Routed::Claimed(delivery) => {
                let id: u64 = delivery.id;
                let _ = delivery.send();
                Dispatch::Delivered(id)
            },
        }
    }

    /// Handles some lines of worker output in order, and says for each what
    /// was done with it. No line stops the ones behind it from being
    /// handled.
    pub fn dispatch_lines(&mut self, lines: &Vec<String>) -> (done: Vec<Dispatch>)
        ensures
            done@ == outcomes_of(old(self).pending(), texts(lines@)),
            final(self).pending() == after_lines(old(self).pending(), texts(lines@)),
            final(self).next_id() == old(self).next_id(),
            final(self).has_child() == old(self).has_child(),
            final(self).has_stdin() == old(self).has_stdin(),
    {
        let ghost table = self.pending();
        let ghost next = self.next_id();
        let ghost child = self.has_child();
        let ghost stdin = self.has_stdin();
        let mut done: Vec<Dispatch> = Vec::new();
        let mut i: usize = 0;
        while i < lines.len()
            invariant
                i <= lines.len(),
                done@ == outcomes_of(table, texts(lines@).take(i as int)),
                self.pending() == after_lines(table, texts(lines@).take(i as int)),
                self.next_id() == next,
                self.has_child() == child,
                self.has_stdin() == stdin,
            decreases lines.len() - i,
        {
            let outcome = self.dispatch_line(lines[i].as_str());
            done.push(outcome);
            proof {
                let seen = texts(lines@).take(i as int + 1);
                assert(seen.drop_last() =~= texts(lines@).take(i as int));
            }
            i += 1;
        }
        assert(texts(lines@).take(i as int) =~= texts(lines@));
        done
    }

    /// Gives up the worker and the pipe to its input. Says whether there was
    /// a worker to kill and reap; a second call finds none. From now on a
    /// call fails with [`CallError::NotRunning`] until a worker is started
    /// again.
    ///
    /// The calls that wait are left in the table: a line that the worker
    /// wrote before it died is still delivered, and a call that no line
    /// answers goes on waiting until the bridge itself is dropped.
    pub fn kill(&mut self) -> (had_child: bool)
        ensures
            had_child == old(self).has_child(),
            !final(self).has_child(),
            !final(self).has_stdin(),
            final(self).next_id() == old(self).next_id(),
            final(self).pending() == old(self).pending(),
    {
        let had_child = self.child;
        self.child = false;
        self.stdin = false;
        had_child
    }
}

} // verus!
