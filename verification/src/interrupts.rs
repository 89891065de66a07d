//! Interrupt vector table and interrupt controller bridge.
//!
//! The vector table is modelled as 256 handler slots built once at boot; the
//! surrounding binary installs it into the CPU and binds the double-fault
//! handler to the dedicated emergency stack index recorded here. The bridge
//! decides, for a vector, which of the two chained controllers must be sent
//! the end-of-interrupt signal; the port writes themselves are hardware work
//! done outside this crate. The keyboard path feeds raw scancode bytes to the
//! external decoder and echoes printable results to the console driver.

use vstd::prelude::*;
use vstd::string::StringSliceAdditionalSpecFns;
use crate::vga_buffer::{printable, step, steps, vga_bytes, Writer, UNKNOWN_GLYPH};

verus! {

/// First vector of the remapped primary controller: past the 32 vectors the
/// architecture reserves for exceptions.
pub const PIC_1_OFFSET: u8 = 32;

/// First vector of the remapped secondary controller.
pub const PIC_2_OFFSET: u8 = PIC_1_OFFSET + 8;

/// The hardware-IRQ vectors this core binds.
#[derive(Clone, Copy, PartialEq, Eq, Structural, Debug)]
pub enum InterruptIndex {
    Timer,
    Keyboard,
}

pub open spec fn spec_vector(i: InterruptIndex) -> u8 {
    match i {
        InterruptIndex::Timer => PIC_1_OFFSET,
        InterruptIndex::Keyboard => (PIC_1_OFFSET + 1) as u8,
    }
}

impl InterruptIndex {
    pub fn as_u8(self) -> (r: u8)
        ensures
            r == spec_vector(self),
    {
        match self {
            InterruptIndex::Timer => PIC_1_OFFSET,
            InterruptIndex::Keyboard => PIC_1_OFFSET + 1,
        }
    }

    pub fn as_usize(self) -> (r: usize)
        ensures
            r == spec_vector(self),
    {
        self.as_u8() as usize
    }
}

/// The handlers this core registers; `returns_to_caller` records each one's
/// "returns" versus "never returns" contract.
#[derive(Clone, Copy, PartialEq, Eq, Structural, Debug)]
pub enum HandlerKind {
    /// Non-fatal trap: logs the context and resumes at the trap site.
    Breakpoint,
    /// Fatal by design: a fault during a fault leaves nothing trustworthy.
    DoubleFault,
    /// Fatal, logged: no demand paging exists, so every page fault is terminal.
    PageFault,
    /// Acknowledges and returns; carries no payload in this core.
    Timer,
    /// Reads one scancode, echoes any decoded character, acknowledges.
    Keyboard,
}

pub open spec fn spec_returns_to_caller(k: HandlerKind) -> bool {
    match k {
        HandlerKind::Breakpoint => true,
        HandlerKind::DoubleFault => false,
        HandlerKind::PageFault => false,
        HandlerKind::Timer => true,
        HandlerKind::Keyboard => true,
    }
}

/// Whether a handler's contract lets it return to the interrupted code.
pub fn returns_to_caller(k: HandlerKind) -> (r: bool)
    ensures
        r == spec_returns_to_caller(k),
{
    match k {
        HandlerKind::Breakpoint => true,
        HandlerKind::DoubleFault => false,
        HandlerKind::PageFault => false,
        HandlerKind::Timer => true,
        HandlerKind::Keyboard => true,
    }
}

/// The interrupt vector table: one optional handler per vector, built once
/// at boot and immutable afterwards, plus the dedicated stack index the
/// double-fault handler must run on.
pub struct InterruptTable {
    handlers: Vec<Option<HandlerKind>>,
    double_fault_stack_index: u16,
}

impl InterruptTable {
    /// The handler bound to each of the 256 vectors.
    pub closed spec fn slots(&self) -> Seq<Option<HandlerKind>> {
        self.handlers@
    }

    /// The emergency stack index the double-fault handler is bound to.
    pub closed spec fn spec_double_fault_stack(&self) -> u16 {
        self.double_fault_stack_index
    }

    pub open spec fn wf(&self) -> bool {
        self.slots().len() == 256
    }

    /// The handler for a vector.
    pub fn handler(&self, vector: u8) -> (r: Option<HandlerKind>)
        requires
            self.wf(),
        ensures
            r == self.slots()[vector as int],
    {
        self.handlers[vector as usize]
    }

    /// The stack index handed to `init_idt`.
    pub fn double_fault_stack(&self) -> (r: u16)
        ensures
            r == self.spec_double_fault_stack(),
    {
        self.double_fault_stack_index
    }
}

/// Build the 256-entry vector table: breakpoint, double fault (bound to the
/// given dedicated stack index), page fault, timer and keyboard, exactly one
/// handler per bound vector and nothing anywhere else. The caller installs
/// the result into the CPU exactly once at boot, after the segment setup has
/// supplied the stack index.
pub fn init_idt(double_fault_stack_index: u16) -> (t: InterruptTable)
    ensures
        t.wf(),
        t.spec_double_fault_stack() == double_fault_stack_index,
        t.slots()[3] == Some(HandlerKind::Breakpoint),
        t.slots()[8] == Some(HandlerKind::DoubleFault),
        t.slots()[14] == Some(HandlerKind::PageFault),
        t.slots()[PIC_1_OFFSET as int] == Some(HandlerKind::Timer),
        t.slots()[PIC_1_OFFSET + 1] == Some(HandlerKind::Keyboard),
        forall|v: int|
            0 <= v < 256 && v != 3 && v != 8 && v != 14 && v != PIC_1_OFFSET && v != PIC_1_OFFSET
                + 1 ==> t.slots()[v] is None,
{
    let mut handlers: Vec<Option<HandlerKind>> = Vec::new();
    let mut i: usize = 0;
    while i < 256
        invariant
            i <= 256,
            handlers@.len() == i,
            forall|j: int| 0 <= j < i ==> handlers@[j] is None,
        decreases 256 - i,
    {
        handlers.push(None);
        i += 1;
    }
    handlers.set(3, Some(HandlerKind::Breakpoint));
    handlers.set(8, Some(HandlerKind::DoubleFault));
    handlers.set(14, Some(HandlerKind::PageFault));
    handlers.set(PIC_1_OFFSET as usize, Some(HandlerKind::Timer));
    handlers.set(PIC_1_OFFSET as usize + 1, Some(HandlerKind::Keyboard));
    InterruptTable { handlers, double_fault_stack_index }
}

/// Whether a controller remapped to `offset` owns a vector: each controller
/// serves eight consecutive vectors from its offset.
pub open spec fn pic_handles(offset: u8, vector: u8) -> bool {
    offset <= vector < offset + 8
}

/// The bridge over the two chained interrupt controllers: their remapped
/// base offsets, chosen once at init so that both eight-vector ranges land
/// outside the reserved 0..32 range.
pub struct Pics {
    pub primary_offset: u8,
    pub secondary_offset: u8,
}

impl Pics {
    pub open spec fn wf(&self) -> bool {
        32 <= self.primary_offset <= 247 && 32 <= self.secondary_offset <= 247
    }

    /// Record the two remap offsets. The hardware remap commands that make
    /// the controllers deliver on these vectors are issued by the caller,
    /// once, with these same offsets.
    pub fn new(primary_offset: u8, secondary_offset: u8) -> (r: Pics)
        requires
            32 <= primary_offset <= 247,
            32 <= secondary_offset <= 247,
        ensures
            r.wf(),
            r.primary_offset == primary_offset,
            r.secondary_offset == secondary_offset,
    {
        Pics { primary_offset, secondary_offset }
    }

    /// Whether either controller owns the vector.
    pub fn handles_interrupt(&self, vector: u8) -> (r: bool)
        requires
            self.wf(),
        ensures
            r == (pic_handles(self.primary_offset, vector) || pic_handles(
                self.secondary_offset,
                vector,
            )),
    {
        (self.primary_offset <= vector && vector < self.primary_offset + 8) || (
        self.secondary_offset <= vector && vector < self.secondary_offset + 8)
    }

    /// Which controllers must be sent the end-of-interrupt signal to
    /// acknowledge a vector: the secondary exactly when it owns the vector,
    /// the primary whenever either does (the chain passes the signal
    /// through), and neither for a vector outside both ranges. Every
    /// hardware-IRQ handler must have this acknowledgement performed exactly
    /// once, after its device work, or the controller stalls.
    pub fn eoi_targets(&self, vector: u8) -> (r: (bool, bool))
        requires
            self.wf(),
        ensures
            r.0 == (pic_handles(self.primary_offset, vector) || pic_handles(
                self.secondary_offset,
                vector,
            )),
            r.1 == pic_handles(self.secondary_offset, vector),
    {
        let secondary = self.secondary_offset <= vector && vector < self.secondary_offset + 8;
        let handled = (self.primary_offset <= vector && vector < self.primary_offset + 8)
            || secondary;
        (handled, secondary)
    }
}

#[verifier::external_type_specification]
#[verifier::external_body]
pub struct ExKeyEvent(pc_keyboard::KeyEvent);

#[verifier::external_type_specification]
#[verifier::external_body]
pub struct ExKeyCode(pc_keyboard::KeyCode);

#[verifier::external_type_specification]
#[verifier::external_body]
pub struct ExPcKeyboardError(pc_keyboard::Error);

/// A decoded key, as this core distinguishes it: a character to echo, or a
/// non-character key carried through opaquely.
pub enum DecodedInput {
    Text(char),
    Raw(pc_keyboard::KeyCode),
}

/// The stateful scancode decoder for the US 104-key layout, scancode set 1:
/// it accumulates multi-byte sequences and modifier state between bytes. It
/// holds pc_keyboard's generic decoder, whose declaration Verus refuses, so
/// the whole struct is opaque and its methods are the trusted boundary.
#[verifier::external_body]
pub struct KeyboardDecoder {
    inner: pc_keyboard::Keyboard<pc_keyboard::layouts::Us104Key, pc_keyboard::ScancodeSet1>,
}

/// Relies on pc_keyboard::Keyboard::add_byte to advance the scancode state
/// machine by one raw byte, yielding a key event when a sequence completes.
#[verifier::external_body]
fn keyboard_add_byte(
    kb: &mut KeyboardDecoder,
    scancode: u8,
) -> Result<Option<pc_keyboard::KeyEvent>, pc_keyboard::Error> {
    kb.inner.add_byte(scancode)
}

/// Relies on pc_keyboard::Keyboard::process_keyevent to apply modifier state
/// and map a key event to a decoded key, if any; the two variants of the
/// result are carried over one for one.
#[verifier::external_body]
fn keyboard_decode_event(
    kb: &mut KeyboardDecoder,
    event: pc_keyboard::KeyEvent,
) -> Option<DecodedInput> {
    match kb.inner.process_keyevent(event) {
        Some(pc_keyboard::DecodedKey::Unicode(c)) => Some(DecodedInput::Text(c)),
        Some(pc_keyboard::DecodedKey::RawKey(k)) => Some(DecodedInput::Raw(k)),
        None => None,
    }
}

/// Relies on the Debug formatting of pc_keyboard::KeyCode for the name a
/// non-character key is echoed as: the enum's variants carry no fields, so
/// the output is the variant's identifier, printable ASCII throughout.
#[verifier::external_body]
fn raw_key_label(key: pc_keyboard::KeyCode) -> (r: String)
    ensures
        forall|i: int|
            0 <= i < vstd::utf8::encode_utf8(r@).len() ==> printable(
                #[trigger] vstd::utf8::encode_utf8(r@)[i],
            ),
{
    format!("{:?}", key)
}

impl KeyboardDecoder {
    /// A fresh decoder, as built once at boot. Relies on
    /// pc_keyboard::Keyboard::new, with control-key mapping ignored.
    #[verifier::external_body]
    pub fn new() -> KeyboardDecoder {
        KeyboardDecoder {
            inner: pc_keyboard::Keyboard::new(
                pc_keyboard::ScancodeSet1::new(),
                pc_keyboard::layouts::Us104Key,
                pc_keyboard::HandleControl::Ignore,
            ),
        }
    }
}

/// The number of bytes the UTF-8 encoding of a character takes, and so the
/// number of unknown-glyph cells a non-ASCII character occupies when echoed.
pub open spec fn utf8_len_of(c: char) -> nat {
    if (c as u32) < 0x80 {
        1
    } else if (c as u32) < 0x800 {
        2
    } else if (c as u32) < 0x10000 {
        3
    } else {
        4
    }
}

/// What echoing a decoded character writes to the console, byte for byte of
/// its UTF-8 encoding: a newline scrolls, a printable character is stored as
/// itself, and every other byte is substituted with the unknown glyph.
pub open spec fn echo_bytes(c: char) -> Seq<u8> {
    if c == '\n' {
        seq![0x0Au8]
    } else if 0x20 <= (c as u32) && (c as u32) <= 0x7E {
        seq![c as u8]
    } else if (c as u32) < 0x80 {
        seq![UNKNOWN_GLYPH]
    } else {
        Seq::new(utf8_len_of(c), |i: int| UNKNOWN_GLYPH)
    }
}

/// Echo one decoded character to the console.
pub fn echo_unicode(writer: &mut Writer, c: char)
    requires
        old(writer).wf(),
    ensures
        final(writer).wf(),
        final(writer)@ == steps(old(writer)@, echo_bytes(c)),
{
    let u = c as u32;
    if c == '\n' {
        writer.write_byte(0x0A);
        proof {
            crate::vga_buffer::lemma_steps_one(old(writer)@, 0x0A);
        }
    } else if 0x20 <= u && u <= 0x7E {
        writer.write_byte(c as u8);
        proof {
            crate::vga_buffer::lemma_steps_one(old(writer)@, c as u8);
        }
    } else if u < 0x80 {
        writer.write_byte(UNKNOWN_GLYPH);
        proof {
            crate::vga_buffer::lemma_steps_one(old(writer)@, UNKNOWN_GLYPH);
        }
    } else {
        let n: usize = if u < 0x800 {
            2
        } else if u < 0x10000 {
            3
        } else {
            4
        };
        assert(n == utf8_len_of(c));
        let mut i: usize = 0;
        proof {
            assert(Seq::new(0, |j: int| UNKNOWN_GLYPH) =~= Seq::<u8>::empty());
        }
        while i < n
            invariant
                i <= n,
                n == utf8_len_of(c),
                writer.wf(),
                writer@ == steps(old(writer)@, Seq::new(i as nat, |j: int| UNKNOWN_GLYPH)),
            decreases n - i,
        {
            writer.write_byte(UNKNOWN_GLYPH);
            proof {
                let q = Seq::new(i as nat, |j: int| UNKNOWN_GLYPH);
                let q1 = Seq::new((i + 1) as nat, |j: int| UNKNOWN_GLYPH);
                assert(q1.drop_last() =~= q);
                assert(q1.last() == UNKNOWN_GLYPH);
                assert(steps(old(writer)@, q1) == step(steps(old(writer)@, q), UNKNOWN_GLYPH));
            }
            i += 1;
        }
        proof {
            assert(Seq::new(n as nat, |j: int| UNKNOWN_GLYPH) =~= echo_bytes(c));
        }
    }
}

/// What one scancode byte led to at the console: no completed or decodable
/// key event, a decoded character, or a non-character key echoed by name.
#[derive(Clone, Copy, PartialEq, Eq, Structural, Debug)]
pub enum EchoOutcome {
    NoEvent,
    Text(char),
    RawKey,
}

/// Feed one raw scancode byte from the keyboard data port to the decoder
/// and, if a complete key event results, echo its decoded form to the
/// console: a character through the byte-substituting write path, any other
/// key by its name. The outcome says what happened: on `NoEvent` the console
/// is untouched, on `Text(c)` it advanced by exactly the character's
/// substituted bytes, and on `RawKey` by the key's name; either way it only
/// ever advances by legal writes, keeps its colour, and stays well formed.
/// The caller must acknowledge the interrupt afterwards regardless.
pub fn handle_scancode(kb: &mut KeyboardDecoder, writer: &mut Writer, scancode: u8) -> (r:
    EchoOutcome)
    requires
        old(writer).wf(),
    ensures
        final(writer).wf(),
        final(writer)@.colour == old(writer)@.colour,
        (r is NoEvent ==> final(writer)@ == old(writer)@),
        (forall|c: char|
            r == EchoOutcome::Text(c) ==> final(writer)@ == steps(old(writer)@, echo_bytes(c))),
        (r is RawKey ==> exists|bs: Seq<u8>|
            (forall|i: int| 0 <= i < bs.len() ==> printable(#[trigger] bs[i])) && final(writer)@
                == steps(old(writer)@, bs)),
        (exists|bs: Seq<u8>| final(writer)@ == steps(old(writer)@, bs)),
{
    match keyboard_add_byte(kb, scancode) {
        Ok(Some(event)) => {
            match keyboard_decode_event(kb, event) {
                Some(DecodedInput::Text(c)) => {
                    echo_unicode(writer, c);
                    proof {
                        crate::vga_buffer::lemma_steps_preserve(old(writer)@, echo_bytes(c));
                        assert(writer@ == steps(old(writer)@, echo_bytes(c)));
                    }
                    EchoOutcome::Text(c)
                },
                Some(DecodedInput::Raw(key)) => {
                    let label = raw_key_label(key);
                    let text = label.as_str();
                    writer.write_string(text);
                    proof {
                        let bs = vga_bytes(text.spec_bytes());
                        crate::vga_buffer::lemma_steps_preserve(old(writer)@, bs);
                        assert(text.spec_bytes() == vstd::utf8::encode_utf8(label@));
                        assert forall|i: int| 0 <= i < bs.len() implies printable(
                            #[trigger] bs[i],
                        ) by {
                            assert(bs[i] == crate::vga_buffer::vga_byte(text.spec_bytes()[i]));
                            assert(printable(text.spec_bytes()[i]));
                        }
                    }
                    EchoOutcome::RawKey
                },
                None => {
                    proof {
                        assert(writer@ == steps(old(writer)@, Seq::<u8>::empty()));
                    }
                    EchoOutcome::NoEvent
                },
            }
        },
        _ => {
            proof {
                assert(writer@ == steps(old(writer)@, Seq::<u8>::empty()));
            }
            EchoOutcome::NoEvent
        },
    }
}

} // verus!
