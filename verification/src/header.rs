//! Fixed-layout frame header describing one bus transaction on the byte
//! stream: magic, version, payload length (little-endian u16), source and
//! destination bus address, in this order and with no padding.

use vstd::prelude::*;

verus! {

/// First byte of every frame on the stream.
pub const QEMU_I2C_MAGIC: u8 = 0xCD;

/// Second byte of every frame on the stream.
pub const QEMU_I2C_VERSION: u8 = 0x01;

/// Serialized width of the header in bytes.
pub const QEMU_I2C_HEADER_LEN: usize = 6;

/// Header of one frame as carried over the chardev socket.
#[derive(Clone, Copy, Debug, PartialEq, Eq, Structural)]
pub struct QemuI2cChardevHeader {
    pub magic: u8,
    pub version: u8,
    pub len: u16,
    pub src_addr: u8,
    pub dst_addr: u8,
}

/// Why a byte buffer was rejected as a frame header.
#[derive(Clone, Copy, Debug, PartialEq, Eq, Structural)]
pub enum ParseError {
    BadMagic,
    BadVersion,
}

/// The header a sender builds for a payload of `len` bytes.
pub open spec fn spec_new_header(len: u16, src_addr: u8, dst_addr: u8) -> QemuI2cChardevHeader {
    QemuI2cChardevHeader {
        magic: QEMU_I2C_MAGIC,
        version: QEMU_I2C_VERSION,
        len,
        src_addr,
        dst_addr,
    }
}

/// Byte layout of a header: magic, version, length low byte, length high
/// byte, source address, destination address.
pub open spec fn spec_serialize(h: QemuI2cChardevHeader) -> Seq<u8> {
    seq![
        h.magic,
        h.version,
        (h.len % 256) as u8,
        (h.len / 256) as u8,
        h.src_addr,
        h.dst_addr,
    ]
}

/// What `parse` returns on a header-sized buffer: the magic byte is checked
/// first, then the version byte; no other validation happens here.
pub open spec fn spec_parse(bytes: Seq<u8>) -> Result<QemuI2cChardevHeader, ParseError>
    recommends
        bytes.len() == QEMU_I2C_HEADER_LEN,
{
    if bytes[0] != QEMU_I2C_MAGIC {
        Err(ParseError::BadMagic)
    } else if bytes[1] != QEMU_I2C_VERSION {
        Err(ParseError::BadVersion)
    } else {
        Ok(
            QemuI2cChardevHeader {
                magic: bytes[0],
                version: bytes[1],
                len: (bytes[2] as int + 256 * (bytes[3] as int)) as u16,
                src_addr: bytes[4],
                dst_addr: bytes[5],
            },
        )
    }
}

impl QemuI2cChardevHeader {
    /// A header for a payload of `len` bytes, carrying the configured magic
    /// and version constants.
    pub fn new(len: u16, src_addr: u8, dst_addr: u8) -> (h: QemuI2cChardevHeader)
        ensures
            h == spec_new_header(len, src_addr, dst_addr),
    {
        QemuI2cChardevHeader {
            magic: QEMU_I2C_MAGIC,
            version: QEMU_I2C_VERSION,
            len,
            src_addr,
            dst_addr,
        }
    }

    /// Serializes the header into its fixed six-byte wire form.
    pub fn serialize(&self) -> (out: Vec<u8>)
        ensures
            out@ == spec_serialize(*self),
            out@.len() == QEMU_I2C_HEADER_LEN,
    {
        let mut out: Vec<u8> = Vec::new();
        out.push(self.magic);
        out.push(self.version);
        out.push((self.len % 256) as u8);
        out.push((self.len / 256) as u8);
        out.push(self.src_addr);
        out.push(self.dst_addr);
        proof {
            assert(out@ =~= spec_serialize(*self));
        }
        out
    }

    /// Parses a header-sized buffer, rejecting a wrong magic byte and then a
    /// wrong version byte; length and address semantics are the caller's.
    pub fn parse(bytes: &[u8]) -> (r: Result<QemuI2cChardevHeader, ParseError>)
        requires
            bytes@.len() == QEMU_I2C_HEADER_LEN,
        ensures
            r == spec_parse(bytes@),
    {
        if bytes[0] != QEMU_I2C_MAGIC {
            Err(ParseError::BadMagic)
        } else if bytes[1] != QEMU_I2C_VERSION {
            Err(ParseError::BadVersion)
        } else {
            let len: u16 = bytes[2] as u16 + 256 * (bytes[3] as u16);
            Ok(QemuI2cChardevHeader::new(len, bytes[4], bytes[5]))
        }
    }
}

/// Header round-trip: parsing a serialized header yields the header back,
/// for every length and every pair of addresses.
pub proof fn lemma_header_round_trip(len: u16, src_addr: u8, dst_addr: u8)
    ensures
        spec_parse(spec_serialize(spec_new_header(len, src_addr, dst_addr))) == Ok::<
            QemuI2cChardevHeader,
            ParseError,
        >(spec_new_header(len, src_addr, dst_addr)),
{
    assert(len % 256 + 256 * (len / 256) == len) by (nonlinear_arith);
}

/// Magic and version rejection: any header-sized buffer whose first byte is
/// not the magic constant fails with `BadMagic`; one whose first byte matches
/// but whose second byte is not the version constant fails with `BadVersion`;
/// parsing never succeeds unless both constants match. A serialized header
/// carries the constants in those two positions, so flipping any bit of
/// either byte makes parsing fail with the corresponding error.
pub proof fn lemma_header_rejection(bytes: Seq<u8>)
    requires
        bytes.len() == QEMU_I2C_HEADER_LEN,
    ensures
        bytes[0] != QEMU_I2C_MAGIC ==> spec_parse(bytes) == Err::<
            QemuI2cChardevHeader,
            ParseError,
        >(ParseError::BadMagic),
        bytes[0] == QEMU_I2C_MAGIC && bytes[1] != QEMU_I2C_VERSION ==> spec_parse(bytes) == Err::<
            QemuI2cChardevHeader,
            ParseError,
        >(ParseError::BadVersion),
        spec_parse(bytes) is Ok ==> bytes[0] == QEMU_I2C_MAGIC && bytes[1] == QEMU_I2C_VERSION,
{
}

} // verus!
