use ailurus_kernel::pic::{
    ChainedPics, CMD_END_OF_INTERRUPT, CMD_INIT, MODE_8086, PIC1_INTERRUPT_OFFSET,
    PIC2_INTERRUPT_OFFSET,
};
use ailurus_kernel::port::{InOut, PortRead, PortWidth, PortWrite, UnsafePort};

fn byte(port: u16, value: u8) -> PortWrite {
    PortWrite { port, width: PortWidth::Byte, value: value as u32 }
}

#[test]
fn default_offsets_are_adjacent() {
    assert_eq!(PIC1_INTERRUPT_OFFSET, 32);
    assert_eq!(PIC2_INTERRUPT_OFFSET, 40);
    assert_eq!(CMD_INIT, 0x11);
    assert_eq!(CMD_END_OF_INTERRUPT, 0x20);
    assert_eq!(MODE_8086, 0x01);
}

#[test]
fn handles_interrupt_covers_both_controllers() {
    let pics = ChainedPics::new(32, 40);
    assert!(!pics.handles_interrupt(31));
    assert!(pics.handles_interrupt(32));
    assert!(pics.handles_interrupt(39));
    assert!(pics.handles_interrupt(40));
    assert!(pics.handles_interrupt(47));
    assert!(!pics.handles_interrupt(48));
    assert!(!pics.handles_interrupt(0));
    assert!(!pics.handles_interrupt(255));
}

#[test]
fn handles_interrupt_near_the_top_does_not_wrap() {
    let pics = ChainedPics::new(240, 250);
    assert!(!pics.handles_interrupt(239));
    assert!(pics.handles_interrupt(240));
    assert!(pics.handles_interrupt(247));
    assert!(!pics.handles_interrupt(248));
    assert!(pics.handles_interrupt(250));
    assert!(pics.handles_interrupt(255));
    assert!(!pics.handles_interrupt(0));
    assert!(!pics.handles_interrupt(1));
}

#[test]
fn end_of_interrupt_for_secondary_goes_to_both() {
    let mut pics = ChainedPics::new(32, 40);
    assert_eq!(pics.notify_end_of_interrupt(45), vec![byte(0xA0, 0x20), byte(0x20, 0x20)]);
    assert_eq!(pics.notify_end_of_interrupt(40), vec![byte(0xA0, 0x20), byte(0x20, 0x20)]);
    assert_eq!(pics.notify_end_of_interrupt(47), vec![byte(0xA0, 0x20), byte(0x20, 0x20)]);
}

#[test]
fn end_of_interrupt_for_primary_goes_to_primary_only() {
    let mut pics = ChainedPics::new(32, 40);
    assert_eq!(pics.notify_end_of_interrupt(35), vec![byte(0x20, 0x20)]);
    assert_eq!(pics.notify_end_of_interrupt(32), vec![byte(0x20, 0x20)]);
    assert_eq!(pics.notify_end_of_interrupt(39), vec![byte(0x20, 0x20)]);
}

#[test]
fn end_of_interrupt_for_foreign_vector_does_nothing() {
    let mut pics = ChainedPics::new(32, 40);
    assert_eq!(pics.notify_end_of_interrupt(31), vec![]);
    assert_eq!(pics.notify_end_of_interrupt(48), vec![]);
    assert_eq!(pics.notify_end_of_interrupt(0), vec![]);
}

#[test]
fn masks_are_read_from_the_data_ports() {
    let mut pics = ChainedPics::new(32, 40);
    assert_eq!(
        pics.read_masks(),
        [
            PortRead { port: 0x21, width: PortWidth::Byte },
            PortRead { port: 0xA1, width: PortWidth::Byte },
        ]
    );
}

#[test]
fn initialize_sends_the_handshake_and_restores_the_masks() {
    let mut pics = ChainedPics::new(32, 40);
    let writes = pics.initialize(0xb8, 0x8e);
    assert_eq!(
        writes,
        vec![
            byte(0x20, 0x11),
            byte(0x80, 0),
            byte(0xA0, 0x11),
            byte(0x80, 0),
            byte(0x21, 32),
            byte(0x80, 0),
            byte(0xA1, 40),
            byte(0x80, 0),
            byte(0x21, 4),
            byte(0x80, 0),
            byte(0xA1, 2),
            byte(0x80, 0),
            byte(0x21, 1),
            byte(0x80, 0),
            byte(0xA1, 1),
            byte(0x80, 0),
            byte(0x21, 0xb8),
            byte(0xA1, 0x8e),
        ]
    );
    assert!(pics.handles_interrupt(32));
    assert!(pics.handles_interrupt(47));
}

#[test]
fn initialize_uses_the_configured_offsets() {
    let mut pics = ChainedPics::new(0x70, 0x78);
    let writes = pics.initialize(0, 0xff);
    assert_eq!(writes.len(), 18);
    assert_eq!(writes[4], byte(0x21, 0x70));
    assert_eq!(writes[6], byte(0xA1, 0x78));
    assert_eq!(writes[16], byte(0x21, 0));
    assert_eq!(writes[17], byte(0xA1, 0xff));
}

#[test]
fn ports_describe_their_accesses() {
    let bytes: UnsafePort<u8> = UnsafePort::new(0x60);
    assert_eq!(bytes.read(), PortRead { port: 0x60, width: PortWidth::Byte });
    assert_eq!(bytes.write(0xab), PortWrite { port: 0x60, width: PortWidth::Byte, value: 0xab });
    let words: UnsafePort<u16> = UnsafePort::new(0x1f0);
    assert_eq!(words.read(), PortRead { port: 0x1f0, width: PortWidth::Word });
    assert_eq!(
        words.write(0xabcd),
        PortWrite { port: 0x1f0, width: PortWidth::Word, value: 0xabcd }
    );
    let longs: UnsafePort<u32> = UnsafePort::new(0xcf8);
    assert_eq!(longs.read(), PortRead { port: 0xcf8, width: PortWidth::Long });
    assert_eq!(
        longs.write(0x8000_0000),
        PortWrite { port: 0xcf8, width: PortWidth::Long, value: 0x8000_0000 }
    );
}

#[test]
fn port_values_describe_their_accesses() {
    assert_eq!(<u8 as InOut>::port_in(0x21), PortRead { port: 0x21, width: PortWidth::Byte });
    assert_eq!(
        <u8 as InOut>::port_out(0x21, 0xff),
        PortWrite { port: 0x21, width: PortWidth::Byte, value: 0xff }
    );
    assert_eq!(<u16 as InOut>::port_in(1), PortRead { port: 1, width: PortWidth::Word });
    assert_eq!(
        <u16 as InOut>::port_out(1, 0xffff),
        PortWrite { port: 1, width: PortWidth::Word, value: 0xffff }
    );
    assert_eq!(<u32 as InOut>::port_in(2), PortRead { port: 2, width: PortWidth::Long });
    assert_eq!(
        <u32 as InOut>::port_out(2, u32::MAX),
        PortWrite { port: 2, width: PortWidth::Long, value: u32::MAX }
    );
}
