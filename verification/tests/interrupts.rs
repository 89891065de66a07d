use os::interrupts::{
    echo_unicode, handle_scancode, init_idt, returns_to_caller, EchoOutcome, HandlerKind,
    InterruptIndex, KeyboardDecoder, Pics, PIC_1_OFFSET, PIC_2_OFFSET,
};
use os::vga_buffer::{ColourCode, VGAColour, Writer};

fn fresh_writer() -> Writer {
    Writer::new(ColourCode::new(VGAColour::Black, VGAColour::White))
}

#[test]
fn interrupt_index_vectors() {
    assert_eq!(PIC_1_OFFSET, 32);
    assert_eq!(PIC_2_OFFSET, 40);
    assert_eq!(InterruptIndex::Timer.as_u8(), 32);
    assert_eq!(InterruptIndex::Keyboard.as_u8(), 33);
    assert_eq!(InterruptIndex::Timer.as_usize(), 32);
    assert_eq!(InterruptIndex::Keyboard.as_usize(), 33);
}

#[test]
fn init_idt_binds_exactly_the_five_handlers() {
    let t = init_idt(7);
    assert_eq!(t.double_fault_stack(), 7);
    for v in 0..=255u8 {
        let expected = match v {
            3 => Some(HandlerKind::Breakpoint),
            8 => Some(HandlerKind::DoubleFault),
            14 => Some(HandlerKind::PageFault),
            32 => Some(HandlerKind::Timer),
            33 => Some(HandlerKind::Keyboard),
            _ => None,
        };
        assert_eq!(t.handler(v), expected);
    }
}

#[test]
fn handler_return_contracts() {
    assert!(returns_to_caller(HandlerKind::Breakpoint));
    assert!(returns_to_caller(HandlerKind::Timer));
    assert!(returns_to_caller(HandlerKind::Keyboard));
    assert!(!returns_to_caller(HandlerKind::DoubleFault));
    assert!(!returns_to_caller(HandlerKind::PageFault));
}

#[test]
fn pics_vector_ranges() {
    let pics = Pics::new(PIC_1_OFFSET, PIC_2_OFFSET);
    assert!(!pics.handles_interrupt(31));
    assert!(pics.handles_interrupt(32));
    assert!(pics.handles_interrupt(39));
    assert!(pics.handles_interrupt(40));
    assert!(pics.handles_interrupt(47));
    assert!(!pics.handles_interrupt(48));
}

#[test]
fn eoi_goes_to_the_owning_controllers() {
    let pics = Pics::new(PIC_1_OFFSET, PIC_2_OFFSET);
    // primary-range vector: primary only
    assert_eq!(pics.eoi_targets(33), (true, false));
    // secondary-range vector: both, the chain passes the signal through
    assert_eq!(pics.eoi_targets(41), (true, true));
    // unowned vector: neither
    assert_eq!(pics.eoi_targets(100), (false, false));
}

#[test]
fn keyboard_scancode_echoes_decoded_character() {
    let mut kb = KeyboardDecoder::new();
    let mut w = fresh_writer();
    // scancode set 1: 0x1E is the press of the key that decodes to 'a'
    assert_eq!(handle_scancode(&mut kb, &mut w, 0x1E), EchoOutcome::Text('a'));
    assert_eq!(w.char_at(24, 0).ascii_char, b'a');
    assert_eq!(w.column_position(), 1);
    // the corresponding release produces no character
    assert_eq!(handle_scancode(&mut kb, &mut w, 0x9E), EchoOutcome::NoEvent);
    assert_eq!(w.column_position(), 1);
}

#[test]
fn extended_prefix_byte_alone_writes_nothing() {
    let mut kb = KeyboardDecoder::new();
    let mut w = fresh_writer();
    assert_eq!(handle_scancode(&mut kb, &mut w, 0xE0), EchoOutcome::NoEvent);
    assert_eq!(w.column_position(), 0);
    for col in 0..80 {
        assert_eq!(w.char_at(24, col).ascii_char, b' ');
    }
}

#[test]
fn modifier_key_is_echoed_by_its_name() {
    let mut kb = KeyboardDecoder::new();
    let mut w = fresh_writer();
    // scancode set 1: 0x2A is the press of the left shift key
    assert_eq!(handle_scancode(&mut kb, &mut w, 0x2A), EchoOutcome::RawKey);
    let written: Vec<u8> = (0..w.column_position())
        .map(|col| w.char_at(24, col).ascii_char)
        .collect();
    assert_eq!(written, b"LShift");
}

#[test]
fn echo_printable_and_newline() {
    let mut w = fresh_writer();
    echo_unicode(&mut w, 'A');
    assert_eq!(w.char_at(24, 0).ascii_char, b'A');
    assert_eq!(w.column_position(), 1);
    echo_unicode(&mut w, '\n');
    assert_eq!(w.column_position(), 0);
    assert_eq!(w.char_at(23, 0).ascii_char, b'A');
}

#[test]
fn echo_non_ascii_writes_one_sentinel_per_utf8_byte() {
    let mut w = fresh_writer();
    echo_unicode(&mut w, '\u{e9}');
    assert_eq!(w.column_position(), 2);
    assert_eq!(w.char_at(24, 0).ascii_char, 0xFE);
    assert_eq!(w.char_at(24, 1).ascii_char, 0xFE);
    echo_unicode(&mut w, '\u{7}');
    assert_eq!(w.char_at(24, 2).ascii_char, 0xFE);
}
