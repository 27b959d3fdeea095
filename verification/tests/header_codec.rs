use i2c_qemu_chardev_mctp_tools::header::{ParseError, QemuI2cChardevHeader};

#[test]
fn header_serialize_exact() {
    let h = QemuI2cChardevHeader::new(0x1234, 0x20, 0x10);
    let bytes = h.serialize();
    assert_eq!(bytes, vec![0xCD, 0x01, 0x34, 0x12, 0x20, 0x10]);
}

#[test]
fn header_round_trip() {
    for len in [0u16, 1, 255, 256, 0x1234, u16::MAX] {
        for (src, dst) in [(0x20u8, 0x10u8), (0x10, 0x20), (0, 0xFF)] {
            let h = QemuI2cChardevHeader::new(len, src, dst);
            let bytes = h.serialize();
            let parsed = QemuI2cChardevHeader::parse(bytes.as_slice()).unwrap();
            assert_eq!(parsed, h);
            assert_eq!(parsed.len, len);
            assert_eq!(parsed.src_addr, src);
            assert_eq!(parsed.dst_addr, dst);
        }
    }
}

#[test]
fn reject_bad_magic_any_bit() {
    let h = QemuI2cChardevHeader::new(42, 0x20, 0x10);
    let bytes = h.serialize();
    for bit in 0..8 {
        let mut corrupt = bytes.clone();
        corrupt[0] ^= 1u8 << bit;
        let r = QemuI2cChardevHeader::parse(corrupt.as_slice());
        assert_eq!(r, Err(ParseError::BadMagic));
    }
}

#[test]
fn reject_bad_version_any_bit() {
    let h = QemuI2cChardevHeader::new(42, 0x20, 0x10);
    let bytes = h.serialize();
    for bit in 0..8 {
        let mut corrupt = bytes.clone();
        corrupt[1] ^= 1u8 << bit;
        let r = QemuI2cChardevHeader::parse(corrupt.as_slice());
        assert_eq!(r, Err(ParseError::BadVersion));
    }
}

#[test]
fn magic_checked_before_version() {
    let h = QemuI2cChardevHeader::new(7, 1, 2);
    let mut bytes = h.serialize();
    bytes[0] = 0x00;
    bytes[1] = 0x7F;
    assert_eq!(
        QemuI2cChardevHeader::parse(bytes.as_slice()),
        Err(ParseError::BadMagic)
    );
}
