use vstd::prelude::*;

verus! {

/// Lowest vector of the primary interrupt controller after remapping: the
/// first vector above the range the processor reserves for exceptions.
pub const PIC_1_OFFSET: u8 = 32;
/// Lowest vector of the secondary (chained) controller after remapping.
pub const PIC_2_OFFSET: u8 = PIC_1_OFFSET + 8;
/// Vectors 0..32 are reserved by the processor for exceptions.
pub const CPU_RESERVED_VECTORS: u8 = 32;
/// Hardware lines per controller unit.
pub const LINES_PER_CONTROLLER: u8 = 8;

/// The two hardware interrupt vectors this kernel uses: the first two lines of
/// the primary controller, immediately above the reserved exception range.
#[derive(Debug, Clone, Copy)]
pub enum InterruptIndex {
    Timer,
    Keyboard,
}

impl InterruptIndex {
    /// The interrupt vector this line is delivered on.
    pub open spec fn spec_vector(self) -> u8 {
        match self {
            InterruptIndex::Timer => PIC_1_OFFSET,
            InterruptIndex::Keyboard => (PIC_1_OFFSET + 1) as u8,
        }
    }

    pub fn as_u8(self) -> (v: u8)
        ensures
            v == self.spec_vector(),
    {
        match self {
            InterruptIndex::Timer => PIC_1_OFFSET,
            InterruptIndex::Keyboard => PIC_1_OFFSET + 1,
        }
    }

    pub fn as_usize(self) -> (v: usize)
        ensures
            v == self.spec_vector() as usize,
    {
        self.as_u8() as usize
    }
}

/// Base offsets of the two chained interrupt controller units. Fixed at
/// construction and never changed at runtime; every hardware interrupt vector
/// equals one of the offsets plus the line index within that unit.
#[derive(Clone, Copy, Debug, PartialEq, Eq, Structural)]
pub struct ChainedControllerConfig {
    pub primary_offset: u8,
    pub secondary_offset: u8,
}

impl ChainedControllerConfig {
    /// Well-formed when neither unit's vector range collides with the vectors
    /// the processor reserves for exceptions, the two ranges do not overlap,
    /// and both ranges fit below 256.
    pub open spec fn wf(self) -> bool {
        &&& self.primary_offset >= CPU_RESERVED_VECTORS
        &&& self.secondary_offset >= CPU_RESERVED_VECTORS
        &&& self.primary_offset + LINES_PER_CONTROLLER <= 256
        &&& self.secondary_offset + LINES_PER_CONTROLLER <= 256
        &&& (self.primary_offset + LINES_PER_CONTROLLER <= self.secondary_offset
            || self.secondary_offset + LINES_PER_CONTROLLER <= self.primary_offset)
    }

    pub fn new(primary_offset: u8, secondary_offset: u8) -> (c: Self)
        requires
            (ChainedControllerConfig { primary_offset, secondary_offset }).wf(),
        ensures
            c == (ChainedControllerConfig { primary_offset, secondary_offset }),
            c.wf(),
    {
        ChainedControllerConfig { primary_offset, secondary_offset }
    }

    /// The remapping this kernel performs: primary unit at `PIC_1_OFFSET`,
    /// secondary immediately above it.
    pub fn kernel_default() -> (c: Self)
        ensures
            c == (ChainedControllerConfig {
                primary_offset: PIC_1_OFFSET,
                secondary_offset: PIC_2_OFFSET,
            }),
            c.wf(),
    {
        ChainedControllerConfig { primary_offset: PIC_1_OFFSET, secondary_offset: PIC_2_OFFSET }
    }

    /// True of the vectors the two units can raise.
    pub open spec fn spec_handles_vector(self, vector: u8) -> bool {
        ||| self.primary_offset <= vector < self.primary_offset + LINES_PER_CONTROLLER
        ||| self.secondary_offset <= vector < self.secondary_offset + LINES_PER_CONTROLLER
    }

    pub fn handles_vector(&self, vector: u8) -> (b: bool)
        ensures
            b == self.spec_handles_vector(vector),
    {
        (self.primary_offset <= vector && (vector as u16) < self.primary_offset as u16
            + LINES_PER_CONTROLLER as u16) || (self.secondary_offset <= vector && (vector as u16)
            < self.secondary_offset as u16 + LINES_PER_CONTROLLER as u16)
    }

    /// The vector a hardware line is delivered on: offset of its unit plus its
    /// index within that unit.
    pub fn vector_for_line(&self, line: u8) -> (v: u8)
        requires
            self.wf(),
            line < 2 * LINES_PER_CONTROLLER,
        ensures
            line < LINES_PER_CONTROLLER ==> v == self.primary_offset + line,
            line >= LINES_PER_CONTROLLER ==> v == self.secondary_offset + (line
                - LINES_PER_CONTROLLER),
            self.spec_handles_vector(v),
    {
        if line < LINES_PER_CONTROLLER {
            self.primary_offset + line
        } else {
            self.secondary_offset + (line - LINES_PER_CONTROLLER)
        }
    }
}

} // verus!
