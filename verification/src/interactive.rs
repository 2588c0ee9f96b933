//! The event-multiplexed variant of the interactive session: a dispatch
//! table maps multiplexer event tokens back to the source they stand for —
//! the local standard input or the channel socket.
//!
//! Registering file descriptors with the multiplexer and waiting on it are a
//! caller's business; the bookkeeping that decides which source an event
//! belongs to lives here.

use vstd::prelude::*;
use vstd::string::StringExecFns;

verus! {

/// What can go wrong in the event-multiplexed session.
pub enum Error {
    EpollWait(&'static str),
    EpollCreate(&'static str),
    EpollAdd(&'static str),
    SocketWrite(&'static str),
    StdioErr(&'static str),
    InvalidState,
}

/// The human-readable account of each failure.
pub open spec fn error_message_spec(e: Error) -> Seq<char> {
    match e {
        Error::EpollWait(msg) => "epoll wait failed: "@ + msg@,
        Error::EpollCreate(msg) => "epoll create failed: "@ + msg@,
        Error::EpollAdd(msg) => "epoll add failed: "@ + msg@,
        Error::SocketWrite(msg) => "socket write failed: "@ + msg@,
        Error::StdioErr(msg) => "stdio error: "@ + msg@,
        Error::InvalidState => "invalid state"@,
    }
}

impl Error {
    /// Renders the failure for the user.
    pub fn message(&self) -> (r: String)
        ensures
            r@ == error_message_spec(*self),
    {
        let mut out = String::new();
        match self {
            Error::EpollWait(msg) => {
                out.append("epoll wait failed: ");
                out.append(msg);
            },
            Error::EpollCreate(msg) => {
                out.append("epoll create failed: ");
                out.append(msg);
            },
            Error::EpollAdd(msg) => {
                out.append("epoll add failed: ");
                out.append(msg);
            },
            Error::SocketWrite(msg) => {
                out.append("socket write failed: ");
                out.append(msg);
            },
            Error::StdioErr(msg) => {
                out.append("stdio error: ");
                out.append(msg);
            },
            Error::InvalidState => {
                out.append("invalid state");
            },
        }
        proof {
            assert(out@ =~= error_message_spec(*self));
        }
        out
    }
}

/// The source a multiplexer event stands for.
#[derive(Clone, Copy, PartialEq, Eq, Structural, Debug)]
pub enum EpollDispatch {
    Stdin,
    ServerSock,
}

/// The dispatch bookkeeping of the multiplexed session: each registered
/// source gets the next free token, and events carry the token back.
pub struct EpollPlan {
    pub dispatch_table: Vec<EpollDispatch>,
    pub stdin_index: u64,
}

impl EpollPlan {
    /// An empty plan with nothing registered.
    pub fn new() -> (p: Self)
        ensures
            p.dispatch_table@ == Seq::<EpollDispatch>::empty(),
            p.stdin_index == 0,
    {
        let table: Vec<EpollDispatch> = Vec::new();
        proof {
            assert(table@ =~= Seq::<EpollDispatch>::empty());
        }
        EpollPlan { dispatch_table: table, stdin_index: 0 }
    }

    /// Registers the channel socket; the returned token is what the caller
    /// hands to the multiplexer for it.
    pub fn register_server(&mut self) -> (idx: u64)
        ensures
            final(self).dispatch_table@ == old(self).dispatch_table@.push(
                EpollDispatch::ServerSock,
            ),
            final(self).stdin_index == old(self).stdin_index,
            idx == old(self).dispatch_table@.len(),
    {
        let idx = self.dispatch_table.len() as u64;
        self.dispatch_table.push(EpollDispatch::ServerSock);
        idx
    }

    /// Registers the local standard input and remembers its token.
    pub fn register_stdin(&mut self) -> (idx: u64)
        ensures
            final(self).dispatch_table@ == old(self).dispatch_table@.push(EpollDispatch::Stdin),
            final(self).stdin_index == old(self).dispatch_table@.len(),
            idx == old(self).dispatch_table@.len(),
    {
        let idx = self.dispatch_table.len() as u64;
        self.dispatch_table.push(EpollDispatch::Stdin);
        self.stdin_index = idx;
        idx
    }

    /// Maps an event token back to its source; a token never handed out maps
    /// to nothing.
    pub fn dispatch(&self, index: usize) -> (d: Option<EpollDispatch>)
        ensures
            d == (if index < self.dispatch_table@.len() {
                Some(self.dispatch_table@[index as int])
            } else {
                None::<EpollDispatch>
            }),
    {
        if index < self.dispatch_table.len() {
            Some(self.dispatch_table[index])
        } else {
            None
        }
    }
}

} // verus!
