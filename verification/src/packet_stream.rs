use vstd::prelude::*;

use crate::byte_stream::ByteStream;
use crate::clipboard::ClipboardStage;
use crate::error::PacketError;
use crate::packet::{
    decode_payload, encode_packet, packet_result_matches, parse_packet, wire_encodable, Packet,
};
use crate::packet_io::{be32_at, frame_ready, PacketReader, PacketWriter};

verus! {

/// Reads and writes whole Barrier messages over a byte transport.
pub struct PacketStream<S: PacketReader + PacketWriter> {
    stream: S,
}

impl<S: PacketReader + PacketWriter> PacketStream<S> {
    /// Bytes delivered by the transport so far.
    pub closed spec fn spec_input(&self) -> Seq<u8> {
        self.stream.stream()
    }

    /// How many delivered bytes have been consumed.
    pub closed spec fn spec_rpos(&self) -> int {
        self.stream.rpos()
    }

    /// Bytes handed to the transport so far.
    pub closed spec fn spec_sink(&self) -> Seq<u8> {
        self.stream.sink()
    }

    pub closed spec fn wf(&self) -> bool {
        self.stream.r_wf()
    }

    pub fn new(stream: S) -> (r: PacketStream<S>)
        ensures
            r.spec_input() == stream.stream(),
            r.spec_rpos() == stream.rpos(),
            r.spec_sink() == stream.sink(),
            stream.r_wf() ==> r.wf(),
    {
        PacketStream { stream }
    }

    /// Reads one framed message.
    ///
    /// While no complete frame has arrived, nothing is consumed and
    /// `InsufficientDataError` asks the caller for more bytes.  Once a
    /// frame is there, exactly its length prefix plus its declared length
    /// is consumed, whatever the outcome: a declared length under four is
    /// answered with `PacketTooSmall` after its payload is discarded, and
    /// anything else is decoded under the declared-length budget.
    pub fn read(&mut self, stage: &mut ClipboardStage) -> (r: Result<Packet, PacketError>)
        requires
            old(self).wf(),
        ensures
            final(self).wf(),
            final(self).spec_input() == old(self).spec_input(),
            !frame_ready(old(self).spec_input(), old(self).spec_rpos()) ==> r == Err::<
                Packet,
                PacketError,
            >(PacketError::InsufficientDataError) && final(self).spec_rpos() == old(
                self,
            ).spec_rpos() && *final(stage) == *old(stage),
            frame_ready(old(self).spec_input(), old(self).spec_rpos()) ==> {
                let size = be32_at(old(self).spec_input(), old(self).spec_rpos());
                let payload = old(self).spec_input().subrange(
                    old(self).spec_rpos() + 4,
                    old(self).spec_rpos() + 4 + size,
                );
                &&& final(self).spec_rpos() == old(self).spec_rpos() + 4 + size
                &&& (size < 4 ==> r == Err::<Packet, PacketError>(PacketError::PacketTooSmall)
                    && *final(stage) == *old(stage))
                &&& (size >= 4 ==> *final(stage) == decode_payload(payload, *old(stage)).0
                    && packet_result_matches(r, decode_payload(payload, *old(stage)).1))
            },
    {
        if !self.stream.has_frame() {
            return Err(PacketError::InsufficientDataError);
        }
        let size = match self.stream.read_packet_size() {
            Ok(s) => s,
            Err(e) => {
                proof {
                    assert(false);
                }
                return Err(e);
            },
        };
        if size < 4 {
            match self.stream.discard_exact(size as usize) {
                Ok(()) => Err(PacketError::PacketTooSmall),
                Err(e) => {
                    proof {
                        assert(false);
                    }
                    Err(e)
                },
            }
        } else {
            let payload = match self.stream.read_bytes_exact(size as usize) {
                Ok(p) => p,
                Err(e) => {
                    proof {
                        assert(false);
                    }
                    return Err(e);
                },
            };
            parse_packet(&payload, stage)
        }
    }

    /// Emits one message onto the transport.
    pub fn write(&mut self, packet: Packet) -> (r: Result<(), PacketError>)
        requires
            !(packet is Unknown),
        ensures
            r is Ok,
            wire_encodable(packet@) ==> final(self).spec_sink() == old(self).spec_sink()
                + encode_packet(packet@),
            !wire_encodable(packet@) ==> final(self).spec_sink() == old(self).spec_sink(),
    {
        packet.write_wire(&mut self.stream)
    }
}

impl PacketStream<ByteStream> {
    /// Appends bytes received from the network.
    pub fn feed(&mut self, data: &[u8])
        requires
            old(self).wf(),
        ensures
            final(self).wf(),
            final(self).spec_input() == old(self).spec_input() + data@,
            final(self).spec_rpos() == old(self).spec_rpos(),
            final(self).spec_sink() == old(self).spec_sink(),
    {
        self.stream.feed(data);
    }

    /// Hands back the bytes to send and clears the send buffer.
    pub fn take_output(&mut self) -> (r: Vec<u8>)
        ensures
            r@ == old(self).spec_sink(),
            final(self).spec_sink() == Seq::<u8>::empty(),
            final(self).spec_input() == old(self).spec_input(),
            final(self).spec_rpos() == old(self).spec_rpos(),
            old(self).wf() ==> final(self).wf(),
    {
        self.stream.take_output()
    }

    /// True when a whole frame waits to be read.
    pub fn ready(&self) -> (r: bool)
        requires
            self.wf(),
        ensures
            r == frame_ready(self.spec_input(), self.spec_rpos()),
    {
        self.stream.has_frame()
    }

    /// How many input bytes have been consumed.
    pub fn consumed(&self) -> (r: usize)
        ensures
            r == self.spec_rpos(),
    {
        self.stream.consumed()
    }
}

} // verus!
