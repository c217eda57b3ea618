//! One client connection, as the handlers see it.
//!
//! A handler does not write to a socket. It queues what it wants delivered, and the
//! surrounding program delivers the queue once the handler has returned. A connection that has
//! been closed takes no further message: an attempt fails, and the handler that made it learns
//! of the failure at once.
//!
//! This is the only failure that a handler sees. If the transport fails on an open
//! connection, the surrounding program learns of it when it delivers the queue: the handler
//! has returned by then, and what it did stays done.
use vstd::prelude::*;
use crate::error::{Error, Res};
use crate::messages::{OutMessage, OutMessageView, Outbound, OutboundView};

verus! {

/// One client connection.
pub struct Connection {
    peer: u64,
    open: bool,
    outbox: Vec<Outbound>,
}

/// A connection, as a mathematical value.
pub struct ConnectionView {
    /// Who is at the other end.
    pub peer: u64,
    /// Whether the connection still takes messages.
    pub open: bool,
    /// What has been queued, oldest first.
    pub outbox: Seq<OutboundView>,
}

impl ConnectionView {
    /// What an attempt to queue a message returns.
    pub open spec fn attempt(self) -> Res<()> {
        if self.open {
            Ok(())
        } else {
            Err(Error::Transport)
        }
    }

    /// The connection after an attempt to queue `msg` for its peer.
    pub open spec fn send(self, msg: OutMessageView) -> ConnectionView {
        if self.open {
            ConnectionView { outbox: self.outbox.push(OutboundView::Send(msg)), ..self }
        } else {
            self
        }
    }

    /// The connection after an attempt to queue `msg` for every client.
    pub open spec fn broadcast(self, msg: OutMessageView) -> ConnectionView {
        if self.open {
            ConnectionView { outbox: self.outbox.push(OutboundView::Broadcast(msg)), ..self }
        } else {
            self
        }
    }

    /// The connection after it was closed.
    pub open spec fn close(self) -> ConnectionView {
        ConnectionView { open: false, ..self }
    }
}

impl View for Connection {
    type V = ConnectionView;

    closed spec fn view(&self) -> ConnectionView {
        ConnectionView {
            peer: self.peer,
            open: self.open,
            outbox: Seq::new(self.outbox@.len(), |i: int| self.outbox@[i]@),
        }
    }
}

impl Connection {
    /// An open connection to `peer`, with nothing queued.
    pub fn new(peer: u64) -> (c: Connection)
        ensures
            c@ == (ConnectionView { peer, open: true, outbox: Seq::empty() }),
    {
        let c = Connection { peer, open: true, outbox: Vec::new() };
        assert(c@.outbox =~= Seq::<OutboundView>::empty());
        c
    }

    /// Who is at the other end.
    pub fn peer_addr(&self) -> (peer: u64)
        ensures
            peer == self@.peer,
    {
        self.peer
    }

    /// Whether the connection still takes messages.
    pub fn is_open(&self) -> (open: bool)
        ensures
            open == self@.open,
    {
        self.open
    }

    /// Queues `msg` for the peer of this connection. Fails, and queues nothing, if the
    /// connection is closed.
    pub fn send(&mut self, msg: OutMessage) -> (r: Res<()>)
        ensures
            final(self)@ == old(self)@.send(msg@),
            r == old(self)@.attempt(),
    {
        if !self.open {
            return Err(Error::Transport);
        }
        self.outbox.push(Outbound::Send(msg));
        assert(self@.outbox =~= old(self)@.outbox.push(OutboundView::Send(msg@)));
        Ok(())
    }

    /// Queues `msg` for every client. Fails, and queues nothing, if the connection is closed.
    pub fn broadcast(&mut self, msg: OutMessage) -> (r: Res<()>)
        ensures
            final(self)@ == old(self)@.broadcast(msg@),
            r == old(self)@.attempt(),
    {
        if !self.open {
            return Err(Error::Transport);
        }
        self.outbox.push(Outbound::Broadcast(msg));
        assert(self@.outbox =~= old(self)@.outbox.push(OutboundView::Broadcast(msg@)));
        Ok(())
    }

    /// Closes the connection. What is queued stays queued: it was accepted before the close.
    pub fn close_conn(&mut self)
        ensures
            final(self)@ == old(self)@.close(),
    {
        self.open = false;
    }

    /// Hands over what has been queued, oldest first, and leaves the queue empty.
    pub fn take_outbox(&mut self) -> (queued: Vec<Outbound>)
        ensures
            Seq::new(queued@.len(), |i: int| queued@[i]@) == old(self)@.outbox,
            final(self)@ == (ConnectionView { outbox: Seq::empty(), ..old(self)@ }),
    {
        let mut queued: Vec<Outbound> = Vec::new();
        std::mem::swap(&mut queued, &mut self.outbox);
        assert(self@.outbox =~= Seq::<OutboundView>::empty());
        queued
    }
}

} // verus!
