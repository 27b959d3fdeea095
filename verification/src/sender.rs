//! Outbound sender: drains the protocol engine's fragment producer and turns
//! each fragment into one addressed, framed bus packet. The frames carry the
//! configured peer address as destination and the local address as source,
//! and the concatenation of the fragments' message bytes is exactly the
//! message that was handed in.

use vstd::prelude::*;

use crate::fragment::{frag_done, frag_first, frag_used, fragment_pull, FragPull};
use crate::header::{spec_new_header, spec_serialize, QemuI2cChardevHeader};
use crate::i2c::{encode_bus, spec_bus_encode, I2C_MAX_FRAGMENT};

verus! {

/// Addressing configuration of the outbound path: the local bus address,
/// the single peer's bus address, and the parity toggle.
#[derive(Clone, Copy, Debug, PartialEq, Eq, Structural)]
pub struct QemuI2cTransportSender {
    pub own_addr: u8,
    pub dst_addr: u8,
    pub pec: bool,
}

/// The one frame a sender emits for a fragment: a chardev header whose
/// length field is the encoded bus packet's byte length, followed by that
/// bus packet.
pub open spec fn spec_frame_for(
    own_addr: u8,
    dst_addr: u8,
    pec: bool,
    fragment: Seq<u8>,
) -> Seq<u8> {
    spec_serialize(
        spec_new_header(
            spec_bus_encode(own_addr, dst_addr, fragment, pec).len() as u16,
            own_addr,
            dst_addr,
        ),
    ) + spec_bus_encode(own_addr, dst_addr, fragment, pec)
}

/// Message bytes a fragment carries: what follows its transport header,
/// which takes one extra leading byte on the first fragment of a message.
pub open spec fn spec_fragment_data(pkt: Seq<u8>, first: bool) -> Seq<u8> {
    pkt.skip(
        4 + (if first {
            1int
        } else {
            0int
        }),
    )
}

/// Message bytes carried by a whole run of fragments, in order.
pub open spec fn spec_fragments_data(pkts: Seq<Seq<u8>>, first: bool) -> Seq<u8>
    decreases pkts.len(),
{
    if pkts.len() == 0 {
        Seq::empty()
    } else {
        spec_fragment_data(pkts[0], first) + spec_fragments_data(pkts.skip(1), false)
    }
}

/// Appending one fragment to a run appends its message bytes.
proof fn lemma_fragments_data_push(pkts: Seq<Seq<u8>>, first: bool, x: Seq<u8>)
    ensures
        spec_fragments_data(pkts.push(x), first) == spec_fragments_data(pkts, first)
            + spec_fragment_data(x, first && pkts.len() == 0),
    decreases pkts.len(),
{
    if pkts.len() == 0 {
        assert(pkts.push(x) =~= seq![x]);
        assert(pkts.push(x)[0] == x);
        assert(pkts.push(x).skip(1) =~= Seq::<Seq<u8>>::empty());
        assert(spec_fragments_data(Seq::<Seq<u8>>::empty(), false) == Seq::<u8>::empty());
        assert(spec_fragments_data(pkts.push(x), first) =~= spec_fragments_data(pkts, first)
            + spec_fragment_data(x, first && pkts.len() == 0));
    } else {
        lemma_fragments_data_push(pkts.skip(1), false, x);
        assert(pkts.push(x).skip(1) =~= pkts.skip(1).push(x));
        assert(pkts.push(x)[0] == pkts[0]);
        assert(spec_fragments_data(pkts.push(x), first) =~= spec_fragments_data(pkts, first)
            + spec_fragment_data(x, first && pkts.len() == 0));
    }
}

/// One run of fragments matching one run of frames: frame by frame, each is
/// the framed bus encoding of its fragment, and every fragment fits the bus.
pub open spec fn spec_frames_match(
    s: QemuI2cTransportSender,
    pkts: Seq<Seq<u8>>,
    frames: Seq<Vec<u8>>,
) -> bool {
    &&& pkts.len() == frames.len()
    &&& forall|i: int|
        0 <= i < pkts.len() ==> #[trigger] frames[i]@ == spec_frame_for(
            s.own_addr,
            s.dst_addr,
            s.pec,
            pkts[i],
        )
    &&& forall|i: int| 0 <= i < pkts.len() ==> #[trigger] pkts[i].len() <= I2C_MAX_FRAGMENT
}

/// There is a run of fragments that these frames carry, frame by frame.
pub open spec fn spec_frames_framed(s: QemuI2cTransportSender, frames: Seq<Vec<u8>>) -> bool {
    exists|pkts: Seq<Seq<u8>>| spec_frames_match(s, pkts, frames)
}

/// There is a run of at least one fragment that these frames carry, whose
/// message bytes concatenate back to exactly `payload`.
pub open spec fn spec_frames_carry(
    s: QemuI2cTransportSender,
    frames: Seq<Vec<u8>>,
    payload: Seq<u8>,
) -> bool {
    exists|pkts: Seq<Seq<u8>>|
        ({
            &&& spec_frames_match(s, pkts, frames)
            &&& pkts.len() >= 1
            &&& spec_fragments_data(pkts, true) == payload
        })
}

/// Relies on `mctp_estack::i2c::MCTP_I2C_MAXMTU`: the bus codec's maximum
/// transmission unit is 254 bytes.
#[verifier::external_body]
fn i2c_max_mtu() -> (r: usize)
    ensures
        r == I2C_MAX_FRAGMENT,
{
    mctp_estack::i2c::MCTP_I2C_MAXMTU
}

impl QemuI2cTransportSender {
    /// The fixed maximum fragment size this sender advertises to the
    /// fragment producer.
    pub fn get_mtu(&self) -> (r: usize)
        ensures
            r == I2C_MAX_FRAGMENT,
    {
        i2c_max_mtu()
    }

    /// Builds the one frame that carries `fragment`: the bus encoding of the
    /// fragment addressed to the configured peer, behind a chardev header
    /// whose length field equals the encoded packet's byte length. Fails
    /// exactly when the fragment is larger than the bus maximum.
    pub fn build_frame(&self, fragment: &[u8]) -> (r: Result<Vec<u8>, mctp::Error>)
        ensures
            r is Err <==> fragment@.len() > I2C_MAX_FRAGMENT,
            r matches Ok(v) ==> v@ == spec_frame_for(
                self.own_addr,
                self.dst_addr,
                self.pec,
                fragment@,
            ),
    {
        let mut pkt = match encode_bus(self.own_addr, self.dst_addr, fragment, self.pec) {
            Ok(p) => p,
            Err(e) => { return Err(e) },
        };
        let header = QemuI2cChardevHeader::new(pkt.len() as u16, self.own_addr, self.dst_addr);
        let mut out = header.serialize();
        out.append(&mut pkt);
        Ok(out)
    }

    /// Drains the fragment producer for one message and returns every frame
    /// to be written, in order, with the producer's transfer tag; a producer
    /// error is passed on unchanged. On a producer freshly started for
    /// `payload` this always succeeds, emits one frame per fragment, and the
    /// fragments' message bytes concatenate back to exactly `payload`.
    #[verifier::loop_isolation(false)]
    pub fn send_frames(
        &self,
        fragmenter: &mut mctp_estack::fragment::Fragmenter,
        payload: &[u8],
    ) -> (r: Result<(Vec<Vec<u8>>, mctp::Tag), mctp::Error>)
        ensures
            r matches Ok(out) ==> spec_frames_framed(*self, out.0@),
            (frag_first(*old(fragmenter)) && !frag_done(*old(fragmenter)) && frag_used(
                *old(fragmenter),
            ) == 0) ==> r is Ok,
            (frag_first(*old(fragmenter)) && !frag_done(*old(fragmenter)) && frag_used(
                *old(fragmenter),
            ) == 0) ==> (r matches Ok(out) ==> spec_frames_carry(*self, out.0@, payload@)),
    {
        let ghost fresh = frag_first(*fragmenter) && !frag_done(*fragmenter) && frag_used(
            *fragmenter,
        ) == 0;
        let mut frames: Vec<Vec<u8>> = Vec::new();
        let ghost mut pkts: Seq<Seq<u8>> = Seq::empty();
        loop
            invariant
                frames@.len() == pkts.len(),
                spec_frames_match(*self, pkts, frames@),
                fresh ==> ({
                    &&& frag_used(*fragmenter) <= payload@.len()
                    &&& (frag_first(*fragmenter) <==> pkts.len() == 0)
                    &&& (frag_done(*fragmenter) ==> frag_used(*fragmenter) == payload@.len())
                    &&& (pkts.len() == 0 ==> !frag_done(*fragmenter))
                    &&& spec_fragments_data(pkts, true) == payload@.subrange(
                        0,
                        frag_used(*fragmenter) as int,
                    )
                }),
            decreases (if frag_done(*fragmenter) {
                0int
            } else {
                1 + 2 * (if frag_used(*fragmenter) <= payload@.len() {
                    payload@.len() - frag_used(*fragmenter)
                } else {
                    0int
                }) + (if frag_first(*fragmenter) {
                    1int
                } else {
                    0int
                })
            }),
        {
            let ghost prev = *fragmenter;
            match fragment_pull(fragmenter, payload) {
                FragPull::Complete(tag) => {
                    proof {
                        assert(spec_frames_framed(*self, frames@)) by {
                            assert(spec_frames_match(*self, pkts, frames@));
                        }
                        if fresh {
                            assert(frag_used(prev) == payload@.len());
                            assert(payload@.subrange(0, payload@.len() as int) =~= payload@);
                            assert(pkts.len() >= 1);
                            assert(spec_frames_carry(*self, frames@, payload@)) by {
                                assert(spec_frames_match(*self, pkts, frames@) && pkts.len() >= 1
                                    && spec_fragments_data(pkts, true) == payload@);
                            }
                        }
                    }
                    return Ok((frames, tag));
                },
                FragPull::Failed(e) => { return Err(e) },
                FragPull::Packet(v) => {
                    let frame = match self.build_frame(v.as_slice()) {
                        Ok(fr) => fr,
                        Err(e) => { return Err(e) },
                    };
                    frames.push(frame);
                    proof {
                        let ghost first_one = frag_first(prev);
                        lemma_fragments_data_push(pkts, true, v@);
                        if fresh {
                            assert(first_one <==> pkts.len() == 0);
                            assert(spec_fragment_data(v@, first_one) == payload@.subrange(
                                frag_used(prev) as int,
                                frag_used(*fragmenter) as int,
                            ));
                            assert(payload@.subrange(0, frag_used(prev) as int) + payload@.subrange(
                                frag_used(prev) as int,
                                frag_used(*fragmenter) as int,
                            ) =~= payload@.subrange(0, frag_used(*fragmenter) as int));
                        }
                        pkts = pkts.push(v@);
                    }
                },
            }
        }
    }
}

} // verus!
