//! Boundary to the protocol engine's fragment producer. The producer owns
//! the fragmentation state; what the library needs of that state is named
//! here, and the one pulling call is trusted with a contract that the
//! producer's source shows: each pull yields the next bus-sized slice of the
//! message, then the transfer tag, and it makes progress on every step.

use vstd::prelude::*;

verus! {

#[verifier::external_type_specification]
#[verifier::external_body]
pub struct ExFragmenter(mctp_estack::fragment::Fragmenter);

#[verifier::external_type_specification]
#[verifier::external_body]
pub struct ExTag(mctp::Tag);

/// How many bytes of the message the producer has already handed out.
pub uninterp spec fn frag_used(f: mctp_estack::fragment::Fragmenter) -> nat;

/// Whether the producer has handed out the whole message.
pub uninterp spec fn frag_done(f: mctp_estack::fragment::Fragmenter) -> bool;

/// Whether the next fragment would be the first of the message; the first
/// fragment carries one extra leading byte (the message type) after its
/// transport header.
pub uninterp spec fn frag_first(f: mctp_estack::fragment::Fragmenter) -> bool;

/// One outcome of pulling the fragment producer.
pub enum FragPull {
    /// The next fragment of the message, ready for bus encoding.
    Packet(Vec<u8>),
    /// The whole message has been handed out; the transfer tag is final.
    Complete(mctp::Tag),
    /// The producer failed; its error is passed on unchanged.
    Failed(mctp::Error),
}

/// Relies on `mctp_estack::fragment::Fragmenter::fragment`: once the message
/// is exhausted it reports completion with the transfer tag and leaves the
/// producer untouched; it fails only when handed a shorter message than it
/// has already consumed; otherwise it copies the next message bytes behind a
/// transport header (plus a type byte on the first fragment) and strictly
/// advances, so that pulling terminates.
#[verifier::external_body]
pub fn fragment_pull(f: &mut mctp_estack::fragment::Fragmenter, payload: &[u8]) -> (r: FragPull)
    ensures
        r is Complete <==> frag_done(*old(f)),
        r is Failed <==> !frag_done(*old(f)) && frag_used(*old(f)) > payload@.len(),
        r is Packet <==> !frag_done(*old(f)) && frag_used(*old(f)) <= payload@.len(),
        r is Complete ==> frag_done(*final(f)) && frag_used(*final(f)) == frag_used(*old(f)),
        r matches FragPull::Packet(v) ==> ({
            let overhead = 4 + (if frag_first(*old(f)) {
                1int
            } else {
                0int
            });
            &&& !frag_first(*final(f))
            &&& frag_used(*old(f)) <= frag_used(*final(f)) <= payload@.len()
            &&& (frag_done(*final(f)) <==> frag_used(*final(f)) == payload@.len())
            &&& overhead <= v@.len() <= crate::i2c::I2C_MAX_FRAGMENT
            &&& v@.skip(overhead) == payload@.subrange(
                frag_used(*old(f)) as int,
                frag_used(*final(f)) as int,
            )
            &&& (frag_done(*final(f)) || 2 * (payload@.len() - frag_used(*final(f))) < 2 * (
            payload@.len() - frag_used(*old(f))) + (if frag_first(*old(f)) {
                1int
            } else {
                0int
            }))
        }),
{
    let mut buf = [0u8; 254];
    match f.fragment(payload, &mut buf) {
        mctp_estack::fragment::SendOutput::Packet(p) => FragPull::Packet(p.to_vec()),
        mctp_estack::fragment::SendOutput::Complete { tag, cookie: _ } => FragPull::Complete(tag),
        mctp_estack::fragment::SendOutput::Error { err, cookie: _ } => FragPull::Failed(err),
    }
}

} // verus!
