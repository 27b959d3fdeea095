use i2c_qemu_chardev_mctp_tools::receiver::{
    DropReason, FrameDisposition, RxAction, RxEvent, RxState, StopReason,
};
use i2c_qemu_chardev_mctp_tools::{
    ParseError, QemuI2cChardevHeader, QemuI2cTransportReceiver, QemuI2cTransportSender,
};

fn sender() -> QemuI2cTransportSender {
    QemuI2cTransportSender {
        own_addr: 0x20,
        dst_addr: 0x10,
        pec: false,
    }
}

fn receiver(own_addr: u8, pec: bool) -> QemuI2cTransportReceiver {
    QemuI2cTransportReceiver { own_addr, pec }
}

#[test]
fn build_frame_exact_bytes() {
    let frame = sender().build_frame(b"Hello World!").unwrap();
    let mut expected = vec![
        0xCD, 0x01, 16, 0, 0x20, 0x10, // chardev header, 16-byte payload
        0x20, 0x0F, 13, 0x41, // SMBus header: dst<<1, command, count, src<<1|1
    ];
    expected.extend_from_slice(b"Hello World!");
    assert_eq!(frame, expected);
}

#[test]
fn build_frame_with_pec_round_trips() {
    let s = QemuI2cTransportSender {
        own_addr: 0x20,
        dst_addr: 0x10,
        pec: true,
    };
    let frame = s.build_frame(b"Hello World!").unwrap();
    let header = QemuI2cChardevHeader::parse(&frame[..6]).unwrap();
    assert_eq!(header.len as usize, 4 + 12 + 1);
    assert_eq!(frame.len(), 6 + header.len as usize);
    let rx = receiver(0x10, true);
    match rx.handle_frame(&header, &frame[6..]) {
        FrameDisposition::Accept(pkt, src) => {
            assert_eq!(pkt, b"Hello World!".to_vec());
            assert_eq!(src, 0x20);
        }
        FrameDisposition::Dropped(r) => panic!("dropped: {:?}", r),
    }
}

#[test]
fn corrupted_parity_is_dropped() {
    let s = QemuI2cTransportSender {
        own_addr: 0x20,
        dst_addr: 0x10,
        pec: true,
    };
    let frame = s.build_frame(b"Hello World!").unwrap();
    let header = QemuI2cChardevHeader::parse(&frame[..6]).unwrap();
    let mut payload = frame[6..].to_vec();
    let last = payload.len() - 1;
    payload[last] ^= 0xFF;
    let rx = receiver(0x10, true);
    match rx.handle_frame(&header, &payload) {
        FrameDisposition::Dropped(DropReason::DecodeFailed) => {}
        other => panic!("expected decode failure, got {:?}", disposition_name(&other)),
    }
}

fn disposition_name(d: &FrameDisposition) -> &'static str {
    match d {
        FrameDisposition::Accept(..) => "Accept",
        FrameDisposition::Dropped(DropReason::WrongDest) => "Dropped(WrongDest)",
        FrameDisposition::Dropped(DropReason::DecodeFailed) => "Dropped(DecodeFailed)",
        FrameDisposition::Dropped(DropReason::WrongBusDest) => "Dropped(WrongBusDest)",
    }
}

#[test]
fn build_frame_rejects_oversized_fragment() {
    let too_big = vec![0u8; 255];
    assert!(sender().build_frame(&too_big).is_err());
    let just_fits = vec![0u8; 254];
    assert!(sender().build_frame(&just_fits).is_ok());
}

#[test]
fn get_mtu_is_bus_maximum() {
    assert_eq!(sender().get_mtu(), 254);
}

#[test]
fn frame_with_wrong_dest_is_dropped() {
    let frame = sender().build_frame(b"Hello World!").unwrap();
    let header = QemuI2cChardevHeader::parse(&frame[..6]).unwrap();
    // A receiver at a different bus address never accepts the frame.
    let rx = receiver(0x30, false);
    match rx.handle_frame(&header, &frame[6..]) {
        FrameDisposition::Dropped(DropReason::WrongDest) => {}
        other => panic!("expected WrongDest, got {}", disposition_name(&other)),
    }
}

#[test]
fn undecodable_payload_is_dropped() {
    let header = QemuI2cChardevHeader::new(3, 0x20, 0x10);
    let rx = receiver(0x10, false);
    match rx.handle_frame(&header, &[1, 2, 3]) {
        FrameDisposition::Dropped(DropReason::DecodeFailed) => {}
        other => panic!("expected DecodeFailed, got {}", disposition_name(&other)),
    }
}

#[test]
fn bus_level_dest_mismatch_is_dropped() {
    // Encoded for bus address 0x30, but framed to chardev destination 0x10:
    // the first filter passes, the re-check of the bus packet's own
    // destination field drops it.
    let s = QemuI2cTransportSender {
        own_addr: 0x20,
        dst_addr: 0x30,
        pec: false,
    };
    let frame = s.build_frame(b"misrouted").unwrap();
    let mut header = QemuI2cChardevHeader::parse(&frame[..6]).unwrap();
    header.dst_addr = 0x10;
    let rx = receiver(0x10, false);
    match rx.handle_frame(&header, &frame[6..]) {
        FrameDisposition::Dropped(DropReason::WrongBusDest) => {}
        other => panic!("expected WrongBusDest, got {}", disposition_name(&other)),
    }
}

#[test]
fn matching_frame_is_accepted() {
    let frame = sender().build_frame(b"Hello World!").unwrap();
    let header = QemuI2cChardevHeader::parse(&frame[..6]).unwrap();
    let rx = receiver(0x10, false);
    match rx.handle_frame(&header, &frame[6..]) {
        FrameDisposition::Accept(pkt, src) => {
            assert_eq!(pkt, b"Hello World!".to_vec());
            assert_eq!(src, 0x20);
        }
        other => panic!("expected Accept, got {}", disposition_name(&other)),
    }
}

#[test]
fn clean_eof_between_frames_stops_cleanly() {
    let rx = receiver(0x10, false);
    let (state, action) = rx.step(RxState::WantHeader, RxEvent::CleanEof);
    assert_eq!(state, RxState::Stopped(StopReason::CleanShutdown));
    assert!(matches!(action, RxAction::Halt(StopReason::CleanShutdown)));
}

#[test]
fn eof_mid_frame_is_fatal() {
    let rx = receiver(0x10, false);
    let header = QemuI2cChardevHeader::new(16, 0x20, 0x10);
    let (state, action) = rx.step(RxState::WantPayload(header), RxEvent::CleanEof);
    assert_eq!(state, RxState::Stopped(StopReason::ReadFailed));
    assert!(matches!(action, RxAction::Halt(StopReason::ReadFailed)));
}

#[test]
fn short_payload_read_is_fatal() {
    let rx = receiver(0x10, false);
    let header = QemuI2cChardevHeader::new(16, 0x20, 0x10);
    let (state, _) = rx.step(RxState::WantPayload(header), RxEvent::Data(vec![0u8; 5]));
    assert_eq!(state, RxState::Stopped(StopReason::ReadFailed));
}

#[test]
fn bad_magic_header_is_fatal() {
    let rx = receiver(0x10, false);
    let (state, action) = rx.step(
        RxState::WantHeader,
        RxEvent::Data(vec![0xCC, 0x01, 0, 0, 0x20, 0x10]),
    );
    assert_eq!(
        state,
        RxState::Stopped(StopReason::BadHeader(ParseError::BadMagic))
    );
    assert!(matches!(
        action,
        RxAction::Halt(StopReason::BadHeader(ParseError::BadMagic))
    ));
}

#[test]
fn stopped_receiver_stays_stopped() {
    let rx = receiver(0x10, false);
    let (state, _) = rx.step(
        RxState::Stopped(StopReason::CleanShutdown),
        RxEvent::Data(vec![0u8; 6]),
    );
    assert_eq!(state, RxState::Stopped(StopReason::CleanShutdown));
}

#[test]
fn full_frame_is_delivered_through_steps() {
    let frame = sender().build_frame(b"Hello World!").unwrap();
    let rx = receiver(0x10, false);
    let (state, action) = rx.step(RxState::WantHeader, RxEvent::Data(frame[..6].to_vec()));
    assert!(matches!(action, RxAction::Advance));
    let header = match state {
        RxState::WantPayload(h) => h,
        other => panic!("expected WantPayload, got {:?}", other),
    };
    assert_eq!(header.len as usize, frame.len() - 6);
    let (state, action) = rx.step(RxState::WantPayload(header), RxEvent::Data(frame[6..].to_vec()));
    assert_eq!(state, RxState::WantHeader);
    match action {
        RxAction::Deliver(pkt, src) => {
            assert_eq!(pkt, b"Hello World!".to_vec());
            assert_eq!(src, 0x20);
        }
        _ => panic!("expected Deliver"),
    }
}

#[test]
fn frame_for_other_address_never_delivered_through_steps() {
    let frame = sender().build_frame(b"not for you").unwrap();
    let rx = receiver(0x42, false);
    let (state, _) = rx.step(RxState::WantHeader, RxEvent::Data(frame[..6].to_vec()));
    let header = match state {
        RxState::WantPayload(h) => h,
        other => panic!("expected WantPayload, got {:?}", other),
    };
    let (state, action) = rx.step(RxState::WantPayload(header), RxEvent::Data(frame[6..].to_vec()));
    assert_eq!(state, RxState::WantHeader);
    assert!(matches!(action, RxAction::Dropped(DropReason::WrongDest)));
}
