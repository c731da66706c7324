use vstd::prelude::*;
use vstd::string::StringExecFns;

verus! {

/// Columns of the text buffer.
pub const BUFFER_WIDTH: usize = 80;
/// Rows of the text buffer.
pub const BUFFER_HEIGHT: usize = 25;
/// Horizontal resolution of the graphics mode and of the embedded image.
pub const IMAGE_WIDTH: usize = 320;
/// Vertical resolution of the graphics mode and of the embedded image.
pub const IMAGE_HEIGHT: usize = 200;
/// Size in bytes of the embedded image: one palette index per pixel.
pub const IMAGE_BYTES: usize = IMAGE_WIDTH * IMAGE_HEIGHT;
/// ASCII space, the glyph of a blank cell.
pub const BLANK_GLYPH: u8 = 32;

/// One display or controller operation that an interrupt handler asks the
/// surrounding program to perform. The handlers compute sequences of these;
/// the order within a sequence is the order in which they must be performed.
#[derive(Clone, Copy, Debug, PartialEq, Eq, Structural)]
pub enum Command {
    /// Fill every visible text row with blanks.
    ClearScreen,
    /// Print the fixed menu text.
    DrawMenu,
    /// Print the processor identification report.
    ShowCpuReport,
    /// Switch the display to the pixel-addressable graphics mode.
    SetGraphicsMode,
    /// Copy the embedded image into the graphics framebuffer.
    BlitImage,
    /// Switch the display back to character mode.
    SetTextMode,
    /// Park the hardware text cursor off-screen.
    DisableCursor,
    /// Write one glyph into the text buffer cell at (column, row).
    WriteCell { column: u8, row: u8, glyph: u8 },
    /// Pulse the reset line; the actuator retries indefinitely and never returns.
    Reboot,
    /// Request platform power-off; best effort, may fall through.
    PowerOff,
    /// Send end-of-interrupt for the given vector to the interrupt controller.
    Acknowledge { vector: u8 },
}

/// One write to a hardware port: `value` is sent to `port`, as a 16-bit word
/// when `word_sized` holds and as a single byte otherwise.
#[derive(Clone, Copy, Debug, PartialEq, Eq, Structural)]
pub struct PortWrite {
    pub port: u16,
    pub value: u16,
    pub word_sized: bool,
}

/// One pixel of the graphics framebuffer: palette index `color` at (x, y).
#[derive(Clone, Copy, Debug, PartialEq, Eq, Structural)]
pub struct PixelWrite {
    pub x: usize,
    pub y: usize,
    pub color: u8,
}

/// A row is blank when it spans the buffer and holds only spaces.
pub open spec fn is_blank_row(row: Seq<u8>) -> bool {
    row.len() == BUFFER_WIDTH && forall|i: int| 0 <= i < row.len() ==> row[i] == BLANK_GLYPH
}

/// One blank text row: `BUFFER_WIDTH` spaces.
pub fn blank_row() -> (row: Vec<u8>)
    ensures
        is_blank_row(row@),
{
    let mut row: Vec<u8> = Vec::new();
    let mut i: usize = 0;
    while i < BUFFER_WIDTH
        invariant
            i <= BUFFER_WIDTH,
            row@.len() == i,
            forall|j: int| 0 <= j < i ==> row@[j] == BLANK_GLYPH,
        decreases BUFFER_WIDTH - i,
    {
        row.push(BLANK_GLYPH);
        i = i + 1;
    }
    row
}

/// The rows that clear the screen: blank rows for the full visible height,
/// independent of the current display mode.
pub fn clear_screen() -> (rows: Vec<Vec<u8>>)
    ensures
        rows@.len() == BUFFER_HEIGHT,
        forall|i: int| 0 <= i < rows@.len() ==> is_blank_row(#[trigger] rows@[i]@),
{
    let mut rows: Vec<Vec<u8>> = Vec::new();
    let mut i: usize = 0;
    while i < BUFFER_HEIGHT
        invariant
            i <= BUFFER_HEIGHT,
            rows@.len() == i,
            forall|j: int| 0 <= j < i ==> is_blank_row(#[trigger] rows@[j]@),
        decreases BUFFER_HEIGHT - i,
    {
        rows.push(blank_row());
        i = i + 1;
    }
    rows
}

/// The two register writes that park the hardware text cursor off-screen:
/// select the cursor-start register (index 0x0A) on the CRT controller index
/// port, then set its cursor-disable bit (0x20) through the data port.
pub fn disable_cursor() -> (writes: Vec<PortWrite>)
    ensures
        writes@ == seq![
            (PortWrite { port: 0x3D4, value: 0x0A, word_sized: false }),
            (PortWrite { port: 0x3D5, value: 0x20, word_sized: false }),
        ],
{
    let mut writes: Vec<PortWrite> = Vec::new();
    writes.push(PortWrite { port: 0x3D4, value: 0x0A, word_sized: false });
    writes.push(PortWrite { port: 0x3D5, value: 0x20, word_sized: false });
    proof {
        assert(writes@ =~= seq![
            (PortWrite { port: 0x3D4, value: 0x0A, word_sized: false }),
            (PortWrite { port: 0x3D5, value: 0x20, word_sized: false }),
        ]);
    }
    writes
}

/// The pulse-reset command: byte 0xFE to the keyboard controller command port.
/// The actuator issues it in an indefinite loop, so it never returns control.
pub fn reboot_pulse() -> (w: PortWrite)
    ensures
        w == (PortWrite { port: 0x64, value: 0xFE, word_sized: false }),
{
    PortWrite { port: 0x64, value: 0xFE, word_sized: false }
}

/// The best-effort power-off request: 16-bit value 0x2000 to the platform
/// power-management port. If the platform ignores it, execution falls through.
pub fn power_off_write() -> (w: PortWrite)
    ensures
        w == (PortWrite { port: 0x604, value: 0x2000, word_sized: true }),
{
    PortWrite { port: 0x604, value: 0x2000, word_sized: true }
}

/// Relies on lscpu::Cpu::new and its text rendering: the processor
/// identification is read from the machine, so nothing further can be stated
/// of the text.
#[verifier::external_body]
fn cpu_identity() -> String {
    format!("{}", lscpu::Cpu::new())
}

/// The processor report: the identification the machine gives, then the fixed
/// prompt under it telling the user how to dismiss the report.
pub fn cpu_report() -> (lines: Vec<String>)
    ensures
        lines@.len() == 2,
        lines@[1]@ == "PRESS ENTER TO CONTINUE"@,
{
    let mut lines: Vec<String> = Vec::new();
    lines.push(cpu_identity());
    lines.push(String::from_str("PRESS ENTER TO CONTINUE"));
    lines
}

/// The pixel write at position `k` of the row-major blit of `image`.
pub open spec fn pixel_write_of(image: Seq<u8>, k: int) -> PixelWrite {
    PixelWrite {
        x: (k % (IMAGE_WIDTH as int)) as usize,
        y: (k / (IMAGE_WIDTH as int)) as usize,
        color: image[k],
    }
}

/// The pixel writes that copy `image` into the graphics framebuffer: byte `k`
/// is a palette index and lands at column `k % IMAGE_WIDTH` of row
/// `k / IMAGE_WIDTH`, in row-major order.
pub fn image_pixel_writes(image: &Vec<u8>) -> (writes: Vec<PixelWrite>)
    requires
        image@.len() == IMAGE_BYTES,
    ensures
        writes@.len() == IMAGE_BYTES,
        forall|k: int| 0 <= k < writes@.len() ==> writes@[k] == pixel_write_of(image@, k),
{
    let mut writes: Vec<PixelWrite> = Vec::new();
    let mut y: usize = 0;
    let mut k: usize = 0;
    while y < IMAGE_HEIGHT
        invariant
            image@.len() == IMAGE_BYTES,
            y <= IMAGE_HEIGHT,
            k == y * IMAGE_WIDTH,
            writes@.len() == k,
            forall|j: int| 0 <= j < k ==> writes@[j] == pixel_write_of(image@, j),
        decreases IMAGE_HEIGHT - y,
    {
        let mut x: usize = 0;
        while x < IMAGE_WIDTH
            invariant
                image@.len() == IMAGE_BYTES,
                y < IMAGE_HEIGHT,
                x <= IMAGE_WIDTH,
                k == y * IMAGE_WIDTH + x,
                writes@.len() == k,
                forall|j: int| 0 <= j < k ==> writes@[j] == pixel_write_of(image@, j),
            decreases IMAGE_WIDTH - x,
        {
            proof {
                assert(k == y * IMAGE_WIDTH + x < IMAGE_BYTES) by (nonlinear_arith)
                    requires
                        y < IMAGE_HEIGHT,
                        x < IMAGE_WIDTH,
                        k == y * IMAGE_WIDTH + x,
                        IMAGE_WIDTH == 320,
                        IMAGE_HEIGHT == 200,
                        IMAGE_BYTES == 64000,
                ;
            }
            let color = image[k];
            writes.push(PixelWrite { x, y, color });
            proof {
                vstd::arithmetic::div_mod::lemma_fundamental_div_mod_converse(
                    k as int,
                    IMAGE_WIDTH as int,
                    y as int,
                    x as int,
                );
                assert(writes@[k as int] == pixel_write_of(image@, k as int));
            }
            x = x + 1;
            k = k + 1;
        }
        y = y + 1;
        proof {
            assert(k == y * IMAGE_WIDTH) by (nonlinear_arith)
                requires
                    k == (y - 1) * IMAGE_WIDTH + IMAGE_WIDTH,
            ;
        }
    }
    writes
}

} // verus!
