//! The interrupt gateway's vector table: 256 gate descriptors, all
//! unused except the double-fault exception and the two device vectors
//! (timer and keyboard) that the interrupt controller is remapped to.
//! Loading the table into the CPU and programming the controller are
//! hardware steps left to the caller.
use vstd::prelude::*;

verus! {

/// The vector of the double-fault exception.
pub const DOUBLE_FAULT_VECTOR: usize = 0x08;
/// The vector the timer device is remapped to.
pub const TIMER_VECTOR: usize = 0x20;
/// The vector the keyboard device is remapped to.
pub const KEYBOARD_VECTOR: usize = 0x21;

/// The code-segment selector every used gate carries.
pub const GATE_SELECTOR: u16 = 0x08;
/// Gate flags: present, ring 0, 32-bit interrupt gate.
pub const GATE_FLAGS: u16 = 0x8E00;

/// One entry of the interrupt vector table: a gate descriptor with the
/// handler's entry point split into a low and a high half.
#[derive(Clone, Copy, Debug, PartialEq, Eq, Structural)]
pub struct IDTEntry {
    /// The low half of the handler's entry point.
    pub offset_lo: u16,
    /// The code-segment selector.
    pub selector: u16,
    /// Present / privilege / gate-type flags.
    pub flags: u16,
    /// The high half of the handler's entry point.
    pub offset_hi: u16,
}

impl IDTEntry {
    /// A present ring-0 32-bit gate pointing at the handler entry point
    /// `offset`.
    pub fn new(offset: u32) -> (e: IDTEntry)
        ensures
            e.offset_lo == offset & 0xFFFF,
            e.offset_hi == offset >> 16,
            e.selector == GATE_SELECTOR,
            e.flags == GATE_FLAGS,
    {
        proof {
            assert(offset & 0xFFFF <= 0xFFFF) by (bit_vector);
            assert(offset >> 16 <= 0xFFFF) by (bit_vector);
        }
        IDTEntry {
            offset_lo: (offset & 0xFFFF) as u16,
            selector: GATE_SELECTOR,
            flags: GATE_FLAGS,
            offset_hi: (offset >> 16) as u16,
        }
    }

    /// An unused gate: all fields zero, not present.
    pub fn unused() -> (e: IDTEntry)
        ensures
            e == (IDTEntry { offset_lo: 0, selector: 0, flags: 0, offset_hi: 0 }),
    {
        IDTEntry { offset_lo: 0, selector: 0, flags: 0, offset_hi: 0 }
    }
}

/// What the table holds at vector `v`: the double-fault, timer and
/// keyboard vectors carry gates for the three handler entry points,
/// every other vector is unused.
pub open spec fn spec_gate(double_fault: u32, timer: u32, keyboard: u32, v: int) -> IDTEntry {
    let used = |offset: u32| IDTEntry {
        offset_lo: (offset & 0xFFFF) as u16,
        selector: GATE_SELECTOR,
        flags: GATE_FLAGS,
        offset_hi: (offset >> 16) as u16,
    };
    if v == DOUBLE_FAULT_VECTOR {
        used(double_fault)
    } else if v == TIMER_VECTOR {
        used(timer)
    } else if v == KEYBOARD_VECTOR {
        used(keyboard)
    } else {
        IDTEntry { offset_lo: 0, selector: 0, flags: 0, offset_hi: 0 }
    }
}

/// Build the 256-entry interrupt vector table for the three handler
/// entry points.
pub fn build_idt(double_fault: u32, timer: u32, keyboard: u32) -> (idt: Vec<IDTEntry>)
    ensures
        idt@.len() == 256,
        forall|v: int| 0 <= v < 256 ==> idt@[v] == spec_gate(double_fault, timer, keyboard, v),
{
    let mut idt: Vec<IDTEntry> = Vec::new();
    let mut v: usize = 0;
    while v < 256
        invariant
            v <= 256,
            idt@.len() == v,
            forall|i: int| 0 <= i < v ==> idt@[i] == (IDTEntry {
                offset_lo: 0,
                selector: 0,
                flags: 0,
                offset_hi: 0,
            }),
        decreases 256 - v,
    {
        idt.push(IDTEntry::unused());
        v += 1;
    }
    proof {
        lemma_offset_halves(double_fault);
        lemma_offset_halves(timer);
        lemma_offset_halves(keyboard);
    }
    idt[DOUBLE_FAULT_VECTOR] = IDTEntry::new(double_fault);
    idt[TIMER_VECTOR] = IDTEntry::new(timer);
    idt[KEYBOARD_VECTOR] = IDTEntry::new(keyboard);
    idt
}

/// Both halves of a split 32-bit entry point fit in 16 bits.
proof fn lemma_offset_halves(offset: u32)
    ensures
        offset & 0xFFFF <= 0xFFFF,
        offset >> 16 <= 0xFFFF,
{
    assert(offset & 0xFFFF <= 0xFFFF) by (bit_vector);
    assert(offset >> 16 <= 0xFFFF) by (bit_vector);
}

} // verus!
