//! The duplex channel: two byte queues that stand in for the socket between
//! the client and the server. What one side writes, the other side reads, in
//! the order it was written.

use crate::harness::Mode;
use std::collections::VecDeque;
use vstd::prelude::*;

verus! {

/// What a read reports when nothing is waiting: not the end of the stream and
/// not a failure, only that the peer has sent nothing yet.
#[derive(Clone, Copy, Debug, PartialEq, Eq)]
pub struct WouldBlock;

/// The channel as mathematics: the bytes in flight in each direction, oldest
/// first.
pub struct ChannelView {
    pub client_to_server: Seq<u8>,
    pub server_to_client: Seq<u8>,
}

impl ChannelView {
    /// The channel with nothing in flight.
    pub open spec fn empty() -> ChannelView {
        ChannelView { client_to_server: Seq::empty(), server_to_client: Seq::empty() }
    }

    /// The bytes `role` has written that its peer has not read yet.
    pub open spec fn outbound(self, role: Mode) -> Seq<u8> {
        match role {
            Mode::Client => self.client_to_server,
            Mode::Server => self.server_to_client,
        }
    }

    /// The bytes waiting for `role` to read: its peer's outbound queue.
    pub open spec fn inbound(self, role: Mode) -> Seq<u8> {
        self.outbound(role.inverse())
    }

    /// The channel after `role` has written `bytes`.
    pub open spec fn write(self, role: Mode, bytes: Seq<u8>) -> ChannelView {
        match role {
            Mode::Client => ChannelView {
                client_to_server: self.client_to_server + bytes,
                ..self
            },
            Mode::Server => ChannelView {
                server_to_client: self.server_to_client + bytes,
                ..self
            },
        }
    }

    /// How many bytes a read by `role` into room for `capacity` bytes takes.
    pub open spec fn readable(self, role: Mode, capacity: nat) -> nat {
        if self.inbound(role).len() <= capacity {
            self.inbound(role).len()
        } else {
            capacity
        }
    }

    /// The bytes such a read hands over: the oldest ones waiting.
    pub open spec fn delivered(self, role: Mode, capacity: nat) -> Seq<u8> {
        self.inbound(role).take(self.readable(role, capacity) as int)
    }

    /// The channel after such a read: what was handed over is gone.
    pub open spec fn read(self, role: Mode, capacity: nat) -> ChannelView {
        let rest = self.inbound(role).skip(self.readable(role, capacity) as int);
        match role {
            Mode::Client => ChannelView { server_to_client: rest, ..self },
            Mode::Server => ChannelView { client_to_server: rest, ..self },
        }
    }
}

/// Both endpoints of the channel in one place. An endpoint is named by the
/// role that uses it; the peer's endpoint is the one named by the inverse
/// role, and it sees the same two queues the other way round.
#[derive(Debug)]
pub struct ConnectedBuffer {
    client_to_server: VecDeque<u8>,
    server_to_client: VecDeque<u8>,
}

impl View for ConnectedBuffer {
    type V = ChannelView;

    closed spec fn view(&self) -> ChannelView {
        ChannelView {
            client_to_server: self.client_to_server@,
            server_to_client: self.server_to_client@,
        }
    }
}

/// Appends all of `src` to the back of `queue`.
fn push_all(queue: &mut VecDeque<u8>, src: &[u8])
    ensures
        final(queue)@ == old(queue)@ + src@,
{
    let mut i: usize = 0;
    while i < src.len()
        invariant
            i <= src@.len(),
            queue@ == old(queue)@ + src@.take(i as int),
        decreases src@.len() - i,
    {
        queue.push_back(src[i]);
        assert(src@.take(i + 1) == src@.take(i as int).push(src@[i as int]));
        i += 1;
    }
    assert(src@.take(i as int) == src@);
}

/// Moves bytes from the front of `queue` into the front of `dest` until one
/// of them is exhausted, and returns how many were moved.
fn drain_into(queue: &mut VecDeque<u8>, dest: &mut [u8]) -> (count: usize)
    ensures
        count <= old(queue)@.len(),
        count <= old(dest)@.len(),
        count == old(queue)@.len() || count == old(dest)@.len(),
        final(queue)@ == old(queue)@.skip(count as int),
        final(dest)@ == old(queue)@.take(count as int) + old(dest)@.skip(count as int),
{
    let mut count: usize = 0;
    while count < dest.len() && queue.len() > 0
        invariant
            dest@.len() == old(dest)@.len(),
            count <= dest@.len(),
            count <= old(queue)@.len(),
            queue@ == old(queue)@.skip(count as int),
            dest@ == old(queue)@.take(count as int) + old(dest)@.skip(count as int),
        decreases dest@.len() - count,
    {
        let ghost before = dest@;
        match queue.pop_front() {
            Some(byte) => {
                dest[count] = byte;
                assert(dest@ == before.update(count as int, byte));
                assert(dest@ =~= old(queue)@.take(count + 1) + old(dest)@.skip(count + 1));
                assert(queue@ =~= old(queue)@.skip(count + 1));
                count += 1;
            },
            None => {},
        }
    }
    count
}

impl ConnectedBuffer {
    /// A channel with nothing in flight in either direction.
    pub fn new() -> (buffer: Self)
        ensures
            buffer@ == ChannelView::empty(),
    {
        ConnectedBuffer { client_to_server: VecDeque::new(), server_to_client: VecDeque::new() }
    }

    /// Queues `src` for the peer of `role` and returns how many bytes were
    /// taken, which is all of them: a write never has to wait.
    pub fn write(&mut self, role: Mode, src: &[u8]) -> (count: usize)
        ensures
            count == src@.len(),
            final(self)@ == old(self)@.write(role, src@),
    {
        match role {
            Mode::Client => push_all(&mut self.client_to_server, src),
            Mode::Server => push_all(&mut self.server_to_client, src),
        }
        src.len()
    }

    /// Makes what `role` has written visible to its peer. Every write already
    /// is, so nothing is left to do.
    pub fn flush(&mut self, role: Mode)
        ensures
            final(self)@ == old(self)@,
    {
    }

    /// Hands `role` the oldest bytes waiting for it, as many as fit in `dest`,
    /// and returns their number. When not one byte can be handed over the
    /// answer is `WouldBlock`, never a count of zero.
    pub fn read(&mut self, role: Mode, dest: &mut [u8]) -> (result: Result<usize, WouldBlock>)
        ensures
            match result {
                Ok(count) => count > 0 && count == old(self)@.readable(role, old(dest)@.len()),
                Err(_) => old(self)@.readable(role, old(dest)@.len()) == 0,
            },
            final(self)@ == old(self)@.read(role, old(dest)@.len()),
            final(dest)@ == old(self)@.delivered(role, old(dest)@.len()) + old(dest)@.skip(
                old(self)@.readable(role, old(dest)@.len()) as int,
            ),
    {
        let count = match role {
            Mode::Client => drain_into(&mut self.server_to_client, dest),
            Mode::Server => drain_into(&mut self.client_to_server, dest),
        };
        if count == 0 {
            Err(WouldBlock)
        } else {
            Ok(count)
        }
    }

    /// How many bytes are waiting for `role` to read.
    pub fn pending(&self, role: Mode) -> (count: usize)
        ensures
            count == self@.inbound(role).len(),
    {
        match role {
            Mode::Client => self.server_to_client.len(),
            Mode::Server => self.client_to_server.len(),
        }
    }
}

/// One use of the channel, as it appears in a history of uses.
pub enum ChannelOp {
    /// `role` writes `bytes`.
    Write { role: Mode, bytes: Seq<u8> },
    /// `role` reads into room for `capacity` bytes.
    Read { role: Mode, capacity: nat },
}

impl ChannelView {
    /// The channel after one use.
    pub open spec fn apply(self, op: ChannelOp) -> ChannelView {
        match op {
            ChannelOp::Write { role, bytes } => self.write(role, bytes),
            ChannelOp::Read { role, capacity } => self.read(role, capacity),
        }
    }

    /// The channel after a whole history of uses, earliest first.
    pub open spec fn run(self, ops: Seq<ChannelOp>) -> ChannelView
        decreases ops.len(),
    {
        if ops.len() == 0 {
            self
        } else {
            self.run(ops.drop_last()).apply(ops.last())
        }
    }

    /// Everything the reads of `role` handed over in the course of `ops`, in
    /// the order the reads were made.
    pub open spec fn received(self, ops: Seq<ChannelOp>, role: Mode) -> Seq<u8>
        decreases ops.len(),
    {
        if ops.len() == 0 {
            Seq::empty()
        } else {
            let earlier = self.received(ops.drop_last(), role);
            match ops.last() {
                ChannelOp::Read { role: reader, capacity } if reader == role => earlier
                    + self.run(ops.drop_last()).delivered(role, capacity),
                _ => earlier,
            }
        }
    }
}

/// Everything `role` wrote in the course of `ops`, in the order of the writes.
pub open spec fn written(ops: Seq<ChannelOp>, role: Mode) -> Seq<u8>
    decreases ops.len(),
{
    if ops.len() == 0 {
        Seq::empty()
    } else {
        let earlier = written(ops.drop_last(), role);
        match ops.last() {
            ChannelOp::Write { role: writer, bytes } if writer == role => earlier + bytes,
            _ => earlier,
        }
    }
}

/// First in, first out. Whatever the two roles do on the channel and in
/// whatever order, the bytes a role's peer has read so far, followed by the
/// bytes still in flight towards it, are exactly the bytes that were in
/// flight at the start followed by the bytes the role has written since. A
/// read may split what was written, but nothing is lost, repeated or
/// reordered.
pub proof fn lemma_fifo(channel: ChannelView, ops: Seq<ChannelOp>, role: Mode)
    ensures
        channel.received(ops, role.inverse()) + channel.run(ops).outbound(role)
            == channel.outbound(role) + written(ops, role),
    decreases ops.len(),
{
    let peer = role.inverse();
    if ops.len() == 0 {
        assert(channel.received(ops, peer) + channel.run(ops).outbound(role)
            =~= channel.outbound(role) + written(ops, role));
    } else {
        let earlier = ops.drop_last();
        let before = channel.run(earlier);
        lemma_fifo(channel, earlier, role);
        match ops.last() {
            ChannelOp::Write { role: writer, bytes } => {
                if writer == role {
                    assert(channel.received(ops, peer) + channel.run(ops).outbound(role)
                        =~= (channel.received(earlier, peer) + before.outbound(role)) + bytes);
                    assert(channel.outbound(role) + written(ops, role) =~= (channel.outbound(role)
                        + written(earlier, role)) + bytes);
                }
            },
            ChannelOp::Read { role: reader, capacity } => {
                if reader == peer {
                    let count = before.readable(peer, capacity) as int;
                    assert(before.inbound(peer) == before.outbound(role));
                    assert(before.outbound(role) =~= before.outbound(role).take(count)
                        + before.outbound(role).skip(count));
                    assert(channel.received(ops, peer) + channel.run(ops).outbound(role)
                        =~= channel.received(earlier, peer) + (before.outbound(role).take(count)
                        + before.outbound(role).skip(count)));
                }
            },
        }
    }
}

/// On a channel with nothing in flight, what a role's peer reads is always
/// the beginning of what the role has written.
pub proof fn lemma_received_is_prefix_of_written(ops: Seq<ChannelOp>, role: Mode)
    ensures
        ChannelView::empty().received(ops, role.inverse()).is_prefix_of(written(ops, role)),
{
    let channel = ChannelView::empty();
    lemma_fifo(channel, ops, role);
    assert(channel.outbound(role) + written(ops, role) =~= written(ops, role));
    let got = channel.received(ops, role.inverse());
    let rest = channel.run(ops).outbound(role);
    assert((got + rest).subrange(0, got.len() as int) =~= got);
}

/// A write followed by a read of the same length on the peer's endpoint, with
/// nothing else in flight that way, hands over exactly what was written and
/// leaves nothing behind.
pub proof fn lemma_write_then_read_round_trip(channel: ChannelView, role: Mode, data: Seq<u8>)
    requires
        channel.outbound(role).len() == 0,
    ensures
        channel.write(role, data).delivered(role.inverse(), data.len()) == data,
        channel.write(role, data).read(role.inverse(), data.len()).outbound(role) == Seq::<
            u8,
        >::empty(),
        channel.write(role, data).read(role.inverse(), data.len()).inbound(role)
            == channel.inbound(role),
{
    let sent = channel.write(role, data);
    assert(sent.outbound(role) =~= data);
    assert(sent.delivered(role.inverse(), data.len()) =~= data);
    assert(sent.read(role.inverse(), data.len()).outbound(role) =~= Seq::<u8>::empty());
}

} // verus!
