//! Inbound receiver: the decision core of the receive loop. The loop's I/O
//! shell reads header-sized and payload-sized chunks from the channel and
//! feeds them in as events; the verified step function validates the frame
//! header, enforces both layers of address filtering, decodes the bus packet
//! and says what to do next. End-of-stream between frames is a clean stop;
//! a short or failed read, or a header mismatch, is fatal.

use vstd::prelude::*;

use crate::header::{
    lemma_header_round_trip, spec_new_header, spec_parse, spec_serialize, ParseError,
    QemuI2cChardevHeader, QEMU_I2C_HEADER_LEN,
};
use crate::i2c::{
    decode_bus, lemma_bus_encode_dest, lemma_bus_round_trip, spec_bus_decode, spec_bus_dest,
    spec_bus_encode, I2C_MAX_FRAGMENT,
};
use crate::sender::spec_frame_for;

verus! {

/// Addressing configuration of the inbound path: the local bus address and
/// the parity toggle.
#[derive(Clone, Copy, Debug, PartialEq, Eq, Structural)]
pub struct QemuI2cTransportReceiver {
    pub own_addr: u8,
    pub pec: bool,
}

/// Why a frame was discarded; all of these are recoverable and the loop
/// goes on with the next frame.
#[derive(Clone, Copy, Debug, PartialEq, Eq, Structural)]
pub enum DropReason {
    /// The chardev header names another destination address.
    WrongDest,
    /// The bus codec rejected the payload.
    DecodeFailed,
    /// The decoded bus packet names another destination address.
    WrongBusDest,
}

/// Why the receive loop stopped; stopping is final.
#[derive(Clone, Copy, Debug, PartialEq, Eq, Structural)]
pub enum StopReason {
    /// The peer closed the channel between frames.
    CleanShutdown,
    /// A read failed or ended mid-frame: the stream is desynchronized.
    ReadFailed,
    /// A frame header failed validation: the stream is desynchronized.
    BadHeader(ParseError),
}

/// What became of one complete frame.
pub enum FrameDisposition {
    /// The decoded fragment and the sender's bus address, to be handed to
    /// the protocol engine's inbound path.
    Accept(Vec<u8>, u8),
    /// The frame was discarded.
    Dropped(DropReason),
}

/// Mathematical image of a frame disposition.
pub enum SpecFrameDisposition {
    Accept(Seq<u8>, u8),
    Dropped(DropReason),
}

impl View for FrameDisposition {
    type V = SpecFrameDisposition;

    open spec fn view(&self) -> SpecFrameDisposition {
        match self {
            FrameDisposition::Accept(pkt, src) => SpecFrameDisposition::Accept(pkt@, *src),
            FrameDisposition::Dropped(r) => SpecFrameDisposition::Dropped(*r),
        }
    }
}

/// What the receiver does with one complete frame: a frame for another
/// chardev destination is dropped; otherwise the payload is decoded by the
/// bus codec and dropped on failure; otherwise the bus packet's own
/// destination field is re-checked and a mismatch is dropped; what remains
/// is accepted.
pub open spec fn spec_handle_frame(
    own_addr: u8,
    pec: bool,
    header: QemuI2cChardevHeader,
    payload: Seq<u8>,
) -> SpecFrameDisposition {
    if header.dst_addr != own_addr {
        SpecFrameDisposition::Dropped(DropReason::WrongDest)
    } else {
        match spec_bus_decode(payload, pec) {
            None => SpecFrameDisposition::Dropped(DropReason::DecodeFailed),
            Some(d) => if spec_bus_dest(payload) != own_addr {
                SpecFrameDisposition::Dropped(DropReason::WrongBusDest)
            } else {
                SpecFrameDisposition::Accept(d.0, d.1)
            },
        }
    }
}

/// Receiver control state: reading a header, reading the payload a header
/// announced, or stopped for good.
#[derive(Clone, Copy, Debug, PartialEq, Eq, Structural)]
pub enum RxState {
    WantHeader,
    WantPayload(QemuI2cChardevHeader),
    Stopped(StopReason),
}

/// One read outcome handed in by the loop's I/O shell: the requested bytes
/// in full, a clean end-of-stream (zero bytes because the peer closed), or
/// any other failure including a short read.
pub enum RxEvent {
    Data(Vec<u8>),
    CleanEof,
    ReadError,
}

/// Mathematical image of a read outcome.
pub enum SpecRxEvent {
    Data(Seq<u8>),
    CleanEof,
    ReadError,
}

impl View for RxEvent {
    type V = SpecRxEvent;

    open spec fn view(&self) -> SpecRxEvent {
        match self {
            RxEvent::Data(b) => SpecRxEvent::Data(b@),
            RxEvent::CleanEof => SpecRxEvent::CleanEof,
            RxEvent::ReadError => SpecRxEvent::ReadError,
        }
    }
}

/// What the loop's shell must do after a step.
pub enum RxAction {
    /// Keep going: read for the new state.
    Advance,
    /// Hand this decoded fragment and source address to the protocol
    /// engine's inbound path, then keep going.
    Deliver(Vec<u8>, u8),
    /// Log the discarded frame, then keep going.
    Dropped(DropReason),
    /// Stop the loop for this reason.
    Halt(StopReason),
}

/// Mathematical image of a step action.
pub enum SpecRxAction {
    Advance,
    Deliver(Seq<u8>, u8),
    Dropped(DropReason),
    Halt(StopReason),
}

impl View for RxAction {
    type V = SpecRxAction;

    open spec fn view(&self) -> SpecRxAction {
        match self {
            RxAction::Advance => SpecRxAction::Advance,
            RxAction::Deliver(pkt, src) => SpecRxAction::Deliver(pkt@, *src),
            RxAction::Dropped(r) => SpecRxAction::Dropped(*r),
            RxAction::Halt(r) => SpecRxAction::Halt(*r),
        }
    }
}

/// The receiver's whole per-iteration decision. Waiting for a header: a
/// clean end-of-stream stops cleanly, any other read failure or short read
/// is fatal, and a delivered buffer is parsed, a bad magic or version being
/// fatal. Waiting for a payload: any end-of-stream, failure or short read
/// is fatal; a complete payload goes through frame handling and the
/// receiver reads the next header. A stopped receiver stays stopped.
pub open spec fn spec_step(
    own_addr: u8,
    pec: bool,
    state: RxState,
    event: SpecRxEvent,
) -> (RxState, SpecRxAction) {
    match state {
        RxState::Stopped(r) => (state, SpecRxAction::Halt(r)),
        RxState::WantHeader => match event {
            SpecRxEvent::CleanEof => (
                RxState::Stopped(StopReason::CleanShutdown),
                SpecRxAction::Halt(StopReason::CleanShutdown),
            ),
            SpecRxEvent::ReadError => (
                RxState::Stopped(StopReason::ReadFailed),
                SpecRxAction::Halt(StopReason::ReadFailed),
            ),
            SpecRxEvent::Data(bytes) => if bytes.len() != QEMU_I2C_HEADER_LEN {
                (
                    RxState::Stopped(StopReason::ReadFailed),
                    SpecRxAction::Halt(StopReason::ReadFailed),
                )
            } else {
                match spec_parse(bytes) {
                    Err(e) => (
                        RxState::Stopped(StopReason::BadHeader(e)),
                        SpecRxAction::Halt(StopReason::BadHeader(e)),
                    ),
                    Ok(h) => (RxState::WantPayload(h), SpecRxAction::Advance),
                }
            },
        },
        RxState::WantPayload(h) => match event {
            SpecRxEvent::CleanEof => (
                RxState::Stopped(StopReason::ReadFailed),
                SpecRxAction::Halt(StopReason::ReadFailed),
            ),
            SpecRxEvent::ReadError => (
                RxState::Stopped(StopReason::ReadFailed),
                SpecRxAction::Halt(StopReason::ReadFailed),
            ),
            SpecRxEvent::Data(bytes) => if bytes.len() as int != h.len as int {
                (
                    RxState::Stopped(StopReason::ReadFailed),
                    SpecRxAction::Halt(StopReason::ReadFailed),
                )
            } else {
                match spec_handle_frame(own_addr, pec, h, bytes) {
                    SpecFrameDisposition::Accept(pkt, src) => (
                        RxState::WantHeader,
                        SpecRxAction::Deliver(pkt, src),
                    ),
                    SpecFrameDisposition::Dropped(r) => (
                        RxState::WantHeader,
                        SpecRxAction::Dropped(r),
                    ),
                }
            },
        },
    }
}

impl QemuI2cTransportReceiver {
    /// Applies the two-layer validation of one complete frame: the chardev
    /// header's destination, then bus decoding, then the bus packet's own
    /// destination field.
    pub fn handle_frame(&self, header: &QemuI2cChardevHeader, payload: &[u8]) -> (d:
        FrameDisposition)
        ensures
            d@ == spec_handle_frame(self.own_addr, self.pec, *header, payload@),
    {
        if header.dst_addr != self.own_addr {
            return FrameDisposition::Dropped(DropReason::WrongDest);
        }
        match decode_bus(self.own_addr, payload, self.pec) {
            Err(_) => FrameDisposition::Dropped(DropReason::DecodeFailed),
            Ok((pkt, src)) => {
                assert(payload@.len() >= 1);
                if payload[0] >> 1 != self.own_addr {
                    FrameDisposition::Dropped(DropReason::WrongBusDest)
                } else {
                    FrameDisposition::Accept(pkt, src)
                }
            },
        }
    }

    /// One iteration of the receive loop on the current state and the read
    /// outcome the shell observed.
    pub fn step(&self, state: RxState, event: RxEvent) -> (r: (RxState, RxAction))
        ensures
            r.0 == spec_step(self.own_addr, self.pec, state, event@).0,
            r.1@ == spec_step(self.own_addr, self.pec, state, event@).1,
    {
        match state {
            RxState::Stopped(reason) => (state, RxAction::Halt(reason)),
            RxState::WantHeader => match event {
                RxEvent::CleanEof => (
                    RxState::Stopped(StopReason::CleanShutdown),
                    RxAction::Halt(StopReason::CleanShutdown),
                ),
                RxEvent::ReadError => (
                    RxState::Stopped(StopReason::ReadFailed),
                    RxAction::Halt(StopReason::ReadFailed),
                ),
                RxEvent::Data(bytes) => {
                    if bytes.len() != QEMU_I2C_HEADER_LEN {
                        return (
                            RxState::Stopped(StopReason::ReadFailed),
                            RxAction::Halt(StopReason::ReadFailed),
                        );
                    }
                    match QemuI2cChardevHeader::parse(bytes.as_slice()) {
                        Err(e) => (
                            RxState::Stopped(StopReason::BadHeader(e)),
                            RxAction::Halt(StopReason::BadHeader(e)),
                        ),
                        Ok(h) => (RxState::WantPayload(h), RxAction::Advance),
                    }
                },
            },
            RxState::WantPayload(h) => match event {
                RxEvent::CleanEof => (
                    RxState::Stopped(StopReason::ReadFailed),
                    RxAction::Halt(StopReason::ReadFailed),
                ),
                RxEvent::ReadError => (
                    RxState::Stopped(StopReason::ReadFailed),
                    RxAction::Halt(StopReason::ReadFailed),
                ),
                RxEvent::Data(bytes) => {
                    if bytes.len() != h.len as usize {
                        return (
                            RxState::Stopped(StopReason::ReadFailed),
                            RxAction::Halt(StopReason::ReadFailed),
                        );
                    }
                    match self.handle_frame(&h, bytes.as_slice()) {
                        FrameDisposition::Accept(pkt, src) => (
                            RxState::WantHeader,
                            RxAction::Deliver(pkt, src),
                        ),
                        FrameDisposition::Dropped(r) => (
                            RxState::WantHeader,
                            RxAction::Dropped(r),
                        ),
                    }
                },
            },
        }
    }
}

/// Address filtering: a frame whose chardev destination is not the local
/// address is dropped before any decoding; one whose decoded bus packet
/// names another destination is dropped too; a frame is accepted only when
/// both layers name the local address.
pub proof fn lemma_address_filtering(
    own_addr: u8,
    pec: bool,
    header: QemuI2cChardevHeader,
    payload: Seq<u8>,
)
    ensures
        header.dst_addr != own_addr ==> spec_handle_frame(own_addr, pec, header, payload)
            == SpecFrameDisposition::Dropped(DropReason::WrongDest),
        header.dst_addr == own_addr && spec_bus_decode(payload, pec) is Some && spec_bus_dest(
            payload,
        ) != own_addr ==> spec_handle_frame(own_addr, pec, header, payload)
            == SpecFrameDisposition::Dropped(DropReason::WrongBusDest),
        spec_handle_frame(own_addr, pec, header, payload) is Accept ==> header.dst_addr == own_addr
            && spec_bus_dest(payload) == own_addr,
{
}

/// A receiver step delivers a packet to the inbound path only from a
/// complete frame that names the local address at both layers; in every
/// other case nothing reaches the protocol engine.
pub proof fn lemma_deliver_only_matching(
    own_addr: u8,
    pec: bool,
    state: RxState,
    event: SpecRxEvent,
)
    ensures
        spec_step(own_addr, pec, state, event).1 is Deliver ==> ({
            &&& state matches RxState::WantPayload(h)
            &&& h.dst_addr == own_addr
            &&& event matches SpecRxEvent::Data(b) && spec_bus_dest(b) == own_addr
        }),
{
}

/// Wire coherence: a frame the sender builds for a seven-bit peer address
/// is taken by that peer's receiver. Its first six bytes parse back to the
/// frame's header, and handling the remaining bytes as the payload accepts
/// them and delivers exactly the carried fragment together with the
/// sender's six-bit bus address.
pub proof fn lemma_built_frame_is_accepted(
    own_addr: u8,
    dst_addr: u8,
    pec: bool,
    fragment: Seq<u8>,
)
    requires
        fragment.len() <= I2C_MAX_FRAGMENT,
        dst_addr < 0x80,
    ensures
        ({
            let frame = spec_frame_for(own_addr, dst_addr, pec, fragment);
            let header = spec_new_header(
                spec_bus_encode(own_addr, dst_addr, fragment, pec).len() as u16,
                own_addr,
                dst_addr,
            );
            &&& spec_parse(frame.subrange(0, QEMU_I2C_HEADER_LEN as int)) == Ok::<
                QemuI2cChardevHeader,
                ParseError,
            >(header)
            &&& spec_handle_frame(dst_addr, pec, header, frame.skip(QEMU_I2C_HEADER_LEN as int))
                == SpecFrameDisposition::Accept(fragment, (own_addr & 0x3f) as u8)
        }),
{
    let bus = spec_bus_encode(own_addr, dst_addr, fragment, pec);
    let header = spec_new_header(bus.len() as u16, own_addr, dst_addr);
    let frame = spec_frame_for(own_addr, dst_addr, pec, fragment);
    assert(frame.subrange(0, QEMU_I2C_HEADER_LEN as int) =~= spec_serialize(header));
    lemma_header_round_trip(bus.len() as u16, own_addr, dst_addr);
    assert(frame.skip(QEMU_I2C_HEADER_LEN as int) =~= bus);
    lemma_bus_round_trip(own_addr, dst_addr, fragment, pec);
    lemma_bus_encode_dest(own_addr, dst_addr, fragment, pec);
    assert(dst_addr & 0x7f == dst_addr) by (bit_vector)
        requires
            dst_addr < 0x80,
    ;
}

/// Clean shutdown: end-of-stream while waiting for a header stops the
/// receiver without error; end-of-stream, a failed read or a short read
/// once a header has been read stops it with a fatal error rather than
/// silently truncating the frame; and a stopped receiver stays stopped.
pub proof fn lemma_shutdown(own_addr: u8, pec: bool, header: QemuI2cChardevHeader)
    ensures
        spec_step(own_addr, pec, RxState::WantHeader, SpecRxEvent::CleanEof) == (
            RxState::Stopped(StopReason::CleanShutdown),
            SpecRxAction::Halt(StopReason::CleanShutdown),
        ),
        spec_step(own_addr, pec, RxState::WantPayload(header), SpecRxEvent::CleanEof) == (
            RxState::Stopped(StopReason::ReadFailed),
            SpecRxAction::Halt(StopReason::ReadFailed),
        ),
        forall|b: Seq<u8>|
            b.len() as int != header.len as int ==> #[trigger] spec_step(
                own_addr,
                pec,
                RxState::WantPayload(header),
                SpecRxEvent::Data(b),
            ) == (RxState::Stopped(StopReason::ReadFailed), SpecRxAction::Halt(StopReason::ReadFailed)),
        forall|reason: StopReason, ev: SpecRxEvent|
            (#[trigger] spec_step(own_addr, pec, RxState::Stopped(reason), ev)).0
                == RxState::Stopped(reason),
{
}

} // verus!
