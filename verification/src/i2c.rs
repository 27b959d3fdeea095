//! Bus-encapsulation codec boundary: a fragment is wrapped into a bus packet
//! carrying a four-byte SMBus header (destination, command code, byte count,
//! source) and an optional trailing parity byte, and unwrapped again on the
//! way in. The encoding and decoding calls are trusted; their byte-level
//! contracts are stated here and everything built on them is verified.

use vstd::prelude::*;

verus! {

/// Command code identifying an MCTP packet on the SMBus link.
pub const SMBUS_MCTP_COMMAND: u8 = 0x0F;

/// Width of the SMBus header at the front of every bus packet.
pub const SMBUS_HEADER_LEN: usize = 4;

/// Largest fragment the bus codec accepts.
pub const I2C_MAX_FRAGMENT: usize = 254;

#[verifier::external_type_specification]
#[verifier::external_body]
pub struct ExMctpError(mctp::Error);

/// Parity (PEC) byte the bus codec computes over a packet's bytes. The
/// checksum depends on those bytes alone; its algorithm is not restated here.
pub uninterp spec fn pec_of(data: Seq<u8>) -> u8;

/// The four SMBus header bytes for a packet from `src` to `dst` whose byte
/// count field holds `count`: destination address in the upper seven bits of
/// the first byte, command code, byte count, then the source address shifted
/// over an always-set low bit.
pub open spec fn spec_bus_header(src: u8, dst: u8, count: u8) -> Seq<u8> {
    seq![((dst & 0x7f) << 1) as u8, SMBUS_MCTP_COMMAND, count, (((src & 0x3f) << 1) | 1) as u8]
}

/// A fragment encoded for the bus: SMBus header, fragment bytes, and a
/// parity byte over both when parity is on. The byte count field counts the
/// fragment plus one source-address byte.
pub open spec fn spec_bus_encode(src: u8, dst: u8, fragment: Seq<u8>, pec: bool) -> Seq<u8> {
    let base = spec_bus_header(src, dst, ((fragment.len() + 1) % 256) as u8) + fragment;
    if pec {
        base + seq![pec_of(base)]
    } else {
        base
    }
}

/// Removes and checks the trailing parity byte; fails on an empty packet or
/// a parity mismatch.
pub open spec fn spec_strip_pec(packet: Seq<u8>) -> Option<Seq<u8>> {
    if packet.len() == 0 {
        None
    } else if packet.last() == pec_of(packet.drop_last()) {
        Some(packet.drop_last())
    } else {
        None
    }
}

/// Decodes a parity-free bus packet: the header must be present, its byte
/// count must equal the remaining length plus the one source-address byte,
/// and the command code must match; the result is the carried fragment and
/// the six-bit source address.
pub open spec fn spec_bus_decode_raw(p: Seq<u8>) -> Option<(Seq<u8>, u8)> {
    if p.len() < SMBUS_HEADER_LEN {
        None
    } else if p[2] as int != p.len() - SMBUS_HEADER_LEN + 1 {
        None
    } else if p[1] != SMBUS_MCTP_COMMAND {
        None
    } else {
        Some((p.skip(SMBUS_HEADER_LEN as int), ((p[3] >> 1) & 0x3f) as u8))
    }
}

/// Full decoding of a received bus packet, stripping the parity byte first
/// when parity is on.
pub open spec fn spec_bus_decode(packet: Seq<u8>, pec: bool) -> Option<(Seq<u8>, u8)> {
    if pec {
        match spec_strip_pec(packet) {
            Some(p) => spec_bus_decode_raw(p),
            None => None,
        }
    } else {
        spec_bus_decode_raw(packet)
    }
}

/// Destination bus address a bus packet names, held in the upper seven bits
/// of its first byte.
pub open spec fn spec_bus_dest(packet: Seq<u8>) -> u8 {
    (packet[0] >> 1) as u8
}

/// Relies on `mctp_estack::i2c::MctpI2cEncap::new` and `::encode`: writes the
/// four-byte SMBus header, copies the fragment, appends a parity byte when
/// asked, and rejects only a fragment longer than the bus maximum.
#[verifier::external_body]
pub fn encode_bus(own_addr: u8, dst_addr: u8, fragment: &[u8], pec: bool) -> (r: Result<
    Vec<u8>,
    mctp::Error,
>)
    ensures
        r is Err <==> fragment@.len() > I2C_MAX_FRAGMENT,
        r matches Ok(v) ==> v@ == spec_bus_encode(own_addr, dst_addr, fragment@, pec),
        r matches Ok(v) ==> (pec ==> v@.len() > 0 && v@.last() == pec_of(v@.drop_last())),
{
    let codec = mctp_estack::i2c::MctpI2cEncap::new(own_addr);
    let mut buf = vec![0u8; fragment.len() + SMBUS_HEADER_LEN + 1];
    match codec.encode(dst_addr, fragment, &mut buf, pec) {
        Ok(out) => Ok(out.to_vec()),
        Err(e) => Err(e),
    }
}

/// Relies on `mctp_estack::i2c::MctpI2cEncap::new` and `::decode`: checks and
/// strips the parity byte when parity is on, validates the SMBus header, and
/// returns the carried fragment with the packet's source address.
#[verifier::external_body]
pub fn decode_bus(own_addr: u8, packet: &[u8], pec: bool) -> (r: Result<
    (Vec<u8>, u8),
    mctp::Error,
>)
    ensures
        r is Err <==> spec_bus_decode(packet@, pec) is None,
        r matches Ok(p) ==> spec_bus_decode(packet@, pec) matches Some(d) && p.0@ == d.0 && p.1
            == d.1,
{
    let codec = mctp_estack::i2c::MctpI2cEncap::new(own_addr);
    match codec.decode(packet, pec) {
        Ok((fragment, src)) => Ok((fragment.to_vec(), src)),
        Err(e) => Err(e),
    }
}

/// Bus codec round-trip: decoding an encoded fragment yields the fragment
/// back together with the sender's six-bit bus address, with or without
/// parity, for every fragment the codec accepts.
pub proof fn lemma_bus_round_trip(src: u8, dst: u8, fragment: Seq<u8>, pec: bool)
    requires
        fragment.len() <= I2C_MAX_FRAGMENT,
    ensures
        spec_bus_decode(spec_bus_encode(src, dst, fragment, pec), pec) == Some(
            (fragment, (src & 0x3f) as u8),
        ),
{
    let base = spec_bus_header(src, dst, ((fragment.len() + 1) % 256) as u8) + fragment;
    if pec {
        let e = spec_bus_encode(src, dst, fragment, pec);
        assert(e.drop_last() =~= base);
        assert(e.last() == pec_of(base));
    }
    assert(base[2] == ((fragment.len() + 1) % 256) as u8);
    assert(base[1] == SMBUS_MCTP_COMMAND);
    assert(base[3] == (((src & 0x3f) << 1) | 1) as u8);
    assert((((((src & 0x3f) << 1) | 1) as u8 >> 1) & 0x3f) == src & 0x3f) by (bit_vector);
    assert(base.skip(SMBUS_HEADER_LEN as int) =~= fragment);
}

/// The destination field of an encoded packet is the seven-bit destination
/// it was encoded for: sending to an address is what makes a receiver at
/// that address accept the frame.
pub proof fn lemma_bus_encode_dest(src: u8, dst: u8, fragment: Seq<u8>, pec: bool)
    ensures
        spec_bus_dest(spec_bus_encode(src, dst, fragment, pec)) == dst & 0x7f,
{
    let e = spec_bus_encode(src, dst, fragment, pec);
    assert(e[0] == ((dst & 0x7f) << 1) as u8);
    assert(((((dst & 0x7f) << 1) as u8) >> 1) == dst & 0x7f) by (bit_vector);
}

} // verus!
