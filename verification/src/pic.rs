//! The two chained 8259 programmable interrupt controllers: where their IRQ
//! lines land in the vector space, which lines stay masked, and what the
//! handler of each line does.
use vstd::prelude::*;

verus! {

/// First vector of the primary PIC: IRQ line 0 arrives here.
pub const PIC_1_OFFSET: u8 = 32;

/// First vector of the secondary PIC: IRQ line 8 arrives here.
pub const PIC_2_OFFSET: u8 = PIC_1_OFFSET + 8;

/// Number of IRQ lines of the two chained PICs together.
pub const PIC_IRQ_COUNT: u8 = 16;

/// Vectors of the PIC interrupts that have a name of their own.
#[derive(Debug, Clone, Copy)]
pub enum InterruptIndex {
    Timer,
    Keyboard,
    Pic2Start,
}

impl InterruptIndex {
    /// The vector of this interrupt.
    pub open spec fn vector(self) -> int {
        match self {
            InterruptIndex::Timer => PIC_1_OFFSET as int,
            InterruptIndex::Keyboard => PIC_1_OFFSET + 1,
            InterruptIndex::Pic2Start => PIC_2_OFFSET as int,
        }
    }

    /// The vector of this interrupt, as a byte.
    pub fn as_u8(self) -> (vector: u8)
        ensures
            vector == self.vector(),
    {
        match self {
            InterruptIndex::Timer => PIC_1_OFFSET,
            InterruptIndex::Keyboard => PIC_1_OFFSET + 1,
            InterruptIndex::Pic2Start => PIC_2_OFFSET,
        }
    }

    /// The vector of this interrupt, as an index into the descriptor table.
    pub fn as_usize(self) -> (index: usize)
        ensures
            index == self.vector(),
    {
        self.as_u8() as usize
    }
}

/// Whether `line` names one of the IRQ lines of the two PICs.
pub open spec fn is_irq_line(line: int) -> bool {
    0 <= line < PIC_IRQ_COUNT
}

/// The vector through which IRQ `line` arrives: lines 0 to 7 come from the
/// primary PIC, lines 8 to 15 from the secondary one.
pub open spec fn spec_irq_vector(line: int) -> int {
    if line < 8 {
        PIC_1_OFFSET + line
    } else {
        PIC_2_OFFSET + (line - 8)
    }
}

/// The IRQ line that arrives through `vector`, if any.
pub open spec fn spec_irq_line(vector: int) -> Option<int> {
    if PIC_1_OFFSET <= vector < PIC_1_OFFSET + 8 {
        Some(vector - PIC_1_OFFSET)
    } else if PIC_2_OFFSET <= vector < PIC_2_OFFSET + 8 {
        Some(vector - PIC_2_OFFSET + 8)
    } else {
        None
    }
}

/// The vector through which IRQ `line` arrives.
pub fn irq_vector(line: u8) -> (vector: u8)
    requires
        is_irq_line(line as int),
    ensures
        vector == spec_irq_vector(line as int),
{
    if line < 8 {
        PIC_1_OFFSET + line
    } else {
        PIC_2_OFFSET + (line - 8)
    }
}

/// The IRQ line that arrives through `vector`, or `None` for a vector that
/// no PIC delivers.
pub fn irq_line(vector: u8) -> (line: Option<u8>)
    ensures
        match line {
            Some(l) => spec_irq_line(vector as int) == Some(l as int),
            None => spec_irq_line(vector as int) is None,
        },
{
    if PIC_1_OFFSET <= vector && vector < PIC_1_OFFSET + 8 {
        Some(vector - PIC_1_OFFSET)
    } else if PIC_2_OFFSET <= vector && vector < PIC_2_OFFSET + 8 {
        Some(vector - PIC_2_OFFSET + 8)
    } else {
        None
    }
}

/// What the handler of an IRQ line does before it returns.
#[derive(Debug, Clone, Copy)]
pub struct IrqResponse {
    /// Whether the interrupt counts as one timer tick.
    pub count_tick: bool,
    /// The vector whose end of interrupt is sent to the PICs.
    pub end_of_interrupt: u8,
}

/// The handler of IRQ `line` acknowledges the vector of that line, and counts
/// a tick when that vector is the timer's.
pub open spec fn spec_irq_response(line: int) -> IrqResponse {
    IrqResponse {
        count_tick: spec_irq_vector(line) == InterruptIndex::Timer.vector(),
        end_of_interrupt: spec_irq_vector(line) as u8,
    }
}

/// What the handler of IRQ `line` does.
pub fn irq_response(line: u8) -> (response: IrqResponse)
    requires
        is_irq_line(line as int),
    ensures
        response == spec_irq_response(line as int),
{
    let vector = irq_vector(line);
    IrqResponse { count_tick: vector == InterruptIndex::Timer.as_u8(), end_of_interrupt: vector }
}

/// Interrupt masks of the two PICs: a set bit disables its line.
#[derive(Debug, Clone, Copy)]
pub struct PicMasks {
    /// Mask of the primary PIC, bit `i` for IRQ line `i`.
    pub primary: u8,
    /// Mask of the secondary PIC, bit `i` for IRQ line `8 + i`.
    pub secondary: u8,
}

/// Whether `masks` disables IRQ `line`.
pub open spec fn line_masked(masks: PicMasks, line: int) -> bool {
    if line < 8 {
        (masks.primary >> (line as u8)) & 1u8 == 1u8
    } else {
        (masks.secondary >> ((line - 8) as u8)) & 1u8 == 1u8
    }
}

/// The masks that the kernel programs at start: only the timer line stays
/// enabled, so that no other device can raise an interrupt that nothing
/// serves yet.
pub fn pic_masks() -> (masks: PicMasks)
    ensures
        masks.primary == 0xfe,
        masks.secondary == 0xff,
        forall|line: int|
            is_irq_line(line) ==> (line_masked(masks, line) <==> spec_irq_vector(line)
                != InterruptIndex::Timer.vector()),
{
    let masks = PicMasks { primary: 0b1111_1110, secondary: 0b1111_1111 };
    assert forall|l: u8| l < 8 implies (((0xfeu8 >> l) & 1u8 == 1u8) <==> l != 0) by {
        assert(l < 8 ==> (((0xfeu8 >> l) & 1u8 == 1u8) <==> l != 0)) by (bit_vector);
    }
    assert forall|l: u8| l < 8 implies (0xffu8 >> l) & 1u8 == 1u8 by {
        assert(l < 8 ==> (0xffu8 >> l) & 1u8 == 1u8) by (bit_vector);
    }
    assert forall|line: int| is_irq_line(line) implies (line_masked(masks, line) <==> spec_irq_vector(line)
        != InterruptIndex::Timer.vector()) by {
        if line < 8 {
            assert(((0xfeu8 >> (line as u8)) & 1u8 == 1u8) <==> (line as u8) != 0);
        } else {
            assert((0xffu8 >> ((line - 8) as u8)) & 1u8 == 1u8);
        }
    }
    masks
}

} // verus!
