use vstd::prelude::*;

use crate::data::Ticket;
use crate::data::TicketDraft;
use crate::store::TicketId;
use crate::store::TicketStore;
use crate::store::next_id;
use crate::store::store_get;
use crate::store::store_insert;

verus! {

/// A request for the server loop. In the running system each command travels
/// with a fresh one-shot reply slot; that slot is an I/O resource held by the
/// unverified shell, so the verified core sees only the operation's input.
pub enum Command {
    Insert { draft: TicketDraft },
    Get { id: TicketId },
}

/// The reply the server loop sends back for one command: the identifier
/// assigned to an inserted draft, or the outcome of a lookup. An unknown
/// identifier answers `Found(None)` — absence is a normal result, not an
/// error.
#[derive(Debug, PartialEq)]
pub enum Response {
    Inserted(TicketId),
    Found(Option<Ticket>),
}

/// The state of the server loop: it runs until the command queue is closed
/// for good, and `Terminated` has no further transitions.
#[derive(Clone, Copy, Debug, PartialEq, Eq, Structural)]
pub enum ServerState {
    Running,
    Terminated,
}

/// What one blocking receive on the command queue can yield: a command, or
/// the signal that every sending handle is gone and no command will ever
/// arrive again.
pub enum Event {
    Received(Command),
    Closed,
}

/// The failure a caller can see: the command queue's sending side is closed
/// (the server loop terminated), or a reply was never delivered. Recoverable
/// by the caller; never fatal to the loop.
#[derive(Clone, Copy, Debug, PartialEq, Eq, Structural)]
pub enum TransportError {
    ChannelClosed,
    ReplyDropped,
}

/// The reply owed for `cmd` by a server whose store holds `s`.
pub open spec fn command_reply(s: Seq<Ticket>, cmd: Command) -> Response {
    match cmd {
        Command::Insert { draft } => Response::Inserted(next_id(s)),
        Command::Get { id } => Response::Found(store_get(s, id)),
    }
}

/// The store contents after a server whose store holds `s` executes `cmd`:
/// an insert appends, a lookup changes nothing.
pub open spec fn command_effect(s: Seq<Ticket>, cmd: Command) -> Seq<Ticket> {
    match cmd {
        Command::Insert { draft } => store_insert(s, draft),
        Command::Get { id } => s,
    }
}

/// Executes one command against the store the server owns and produces the
/// reply owed for it. The store mutates exactly as `command_effect` says and
/// the reply is exactly `command_reply`.
pub fn handle_command(store: &mut TicketStore, cmd: Command) -> (resp: Response)
    requires
        old(store)@.len() < u64::MAX,
    ensures
        final(store)@ == command_effect(old(store)@, cmd),
        resp == command_reply(old(store)@, cmd),
        old(store).wf() ==> final(store).wf(),
{
    match cmd {
        Command::Insert { draft } => {
            let id = store.add_ticket(draft);
            Response::Inserted(id)
        },
        Command::Get { id } => {
            let found = match store.get(id) {
                Some(ticket) => Some(ticket.clone()),
                None => None,
            };
            Response::Found(found)
        },
    }
}

/// One turn of the server loop's state machine, taken while `Running`: a
/// received command is executed and earns exactly one reply, and the loop
/// keeps running; a closed queue moves the loop to `Terminated` with no
/// reply and no further store mutation. `Terminated` has no transitions, so
/// no turn can be taken from it.
pub fn server_step(state: ServerState, store: &mut TicketStore, event: Event) -> (r: (
    ServerState,
    Option<Response>,
))
    requires
        state is Running,
        old(store)@.len() < u64::MAX,
    ensures
        (match event {
            Event::Received(cmd) => {
                &&& r.0 is Running
                &&& r.1 == Some(command_reply(old(store)@, cmd))
                &&& final(store)@ == command_effect(old(store)@, cmd)
            },
            Event::Closed => {
                &&& r.0 is Terminated
                &&& r.1 is None
                &&& final(store)@ == old(store)@
            },
        }),
        old(store).wf() ==> final(store).wf(),
{
    match event {
        Event::Received(cmd) => {
            let resp = handle_command(store, cmd);
            (ServerState::Running, Some(resp))
        },
        Event::Closed => (ServerState::Terminated, None),
    }
}

} // verus!
