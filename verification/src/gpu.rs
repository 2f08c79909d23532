//! The picture unit: a four-phase machine that is driven by the clock cycles
//! the processor spends, draws one scanline of the background at the end of
//! each video-memory phase, and hands a finished frame over when the last
//! visible line is done.

use vstd::prelude::*;
use crate::isa::TimeIncrement;
use crate::memory::{bus_read, bus_write, BusState, MemoryAccess};
use crate::tiles::{
    pixel_color, shade, spec_shade, spec_tile_color, spec_tile_row_address, TILE_DATA,
};

verus! {

/// The width of the screen in pixels.
pub const SCREEN_WIDTH: usize = 160;

/// The height of the screen in pixels: the number of visible scanlines.
pub const SCREEN_HEIGHT: usize = 144;

/// The number of pixels in a frame.
pub const SCREEN_PIXELS: usize = 23040;

/// The address at which the current scanline is published.
pub const LINE_REGISTER: u16 = 0xFF44;

/// The address of the vertical scroll offset.
pub const SCROLL_Y_REGISTER: u16 = 0xFF42;

/// The address of the background tile map: 32 by 32 tile numbers.
pub const TILE_MAP: u16 = 0x9800;

/// The clock cycles of the object-memory scan of a line.
pub const OAM_CYCLES: usize = 80;

/// The clock cycles of the video-memory phase of a line.
pub const VRAM_CYCLES: usize = 172;

/// The clock cycles of the horizontal blank of a line.
pub const HBLANK_CYCLES: usize = 204;

/// The clock cycles of the vertical blank: ten lines' worth.
pub const VBLANK_CYCLES: usize = 4560;

/// One pixel.
#[derive(Clone, Copy, Debug, PartialEq, Eq, Structural)]
pub struct Rgba {
    pub r: u8,
    pub g: u8,
    pub b: u8,
    pub a: u8,
}

impl Default for Rgba {
    /// The transparent black pixel.
    fn default() -> (pixel: Rgba)
        ensures
            pixel == (Rgba { r: 0, g: 0, b: 0, a: 0 }),
    {
        Rgba { r: 0, g: 0, b: 0, a: 0 }
    }
}

/// The pixels of a picture, row by row.
#[derive(Debug, Clone)]
pub struct Framebuffer(pub Vec<Rgba>);

impl View for Framebuffer {
    type V = Seq<Rgba>;

    open spec fn view(&self) -> Seq<Rgba> {
        self.0@
    }
}

/// The phase of the picture unit within a line or a frame.
#[derive(Clone, Copy, Debug, PartialEq, Eq, Structural)]
pub enum ScanMode {
    AccessOam,
    AccessVram,
    HorizontalBlank,
    VerticalBlank,
}

/// Where the picture unit is in time: its phase, the clock cycles spent in
/// it, and the scanline.
pub ghost struct Phase {
    pub scan_mode: ScanMode,
    pub mode_clock: int,
    pub line: int,
}

/// The state of the picture unit.
pub ghost struct PictureState {
    pub phase: Phase,
    pub pixels: Seq<Rgba>,
    pub scroll_x: u8,
    pub scroll_y: u8,
}

/// The clock cycles after which a phase ends.
pub open spec fn budget(scan_mode: ScanMode) -> int {
    match scan_mode {
        ScanMode::AccessOam => OAM_CYCLES as int,
        ScanMode::AccessVram => VRAM_CYCLES as int,
        ScanMode::HorizontalBlank => HBLANK_CYCLES as int,
        ScanMode::VerticalBlank => VBLANK_CYCLES as int,
    }
}

impl Phase {
    /// The clock of a phase is below its budget; the line is a visible one,
    /// except in the vertical blank, where it stays at 144.
    pub open spec fn wf(self) -> bool {
        &&& 0 <= self.mode_clock < budget(self.scan_mode)
        &&& if self.scan_mode == ScanMode::VerticalBlank {
            self.line == SCREEN_HEIGHT
        } else {
            0 <= self.line < SCREEN_HEIGHT
        }
    }

    /// Whether `clock_cycles` more cycles end the phase.
    pub open spec fn ends(self, clock_cycles: int) -> bool {
        self.mode_clock + clock_cycles >= budget(self.scan_mode)
    }

    /// Whether `clock_cycles` more cycles end the video-memory phase, at
    /// which the line is drawn.
    pub open spec fn draws(self, clock_cycles: int) -> bool {
        self.scan_mode == ScanMode::AccessVram && self.ends(clock_cycles)
    }

    /// Whether `clock_cycles` more cycles end the horizontal blank of the
    /// last visible line, at which the frame is handed over.
    pub open spec fn completes_frame(self, clock_cycles: int) -> bool {
        self.scan_mode == ScanMode::HorizontalBlank && self.ends(clock_cycles) && self.line + 1
            == SCREEN_HEIGHT
    }

    /// The phase after `clock_cycles` more cycles: the same phase with a
    /// later clock, or the next phase with its clock at 0. At most one
    /// phase ends, however many cycles are given.
    pub open spec fn after(self, clock_cycles: int) -> Phase {
        if !self.ends(clock_cycles) {
            Phase { mode_clock: self.mode_clock + clock_cycles, ..self }
        } else {
            match self.scan_mode {
                ScanMode::AccessOam => Phase {
                    scan_mode: ScanMode::AccessVram,
                    mode_clock: 0,
                    line: self.line,
                },
                ScanMode::AccessVram => Phase {
                    scan_mode: ScanMode::HorizontalBlank,
                    mode_clock: 0,
                    line: self.line,
                },
                ScanMode::HorizontalBlank => if self.line + 1 == SCREEN_HEIGHT {
                    Phase {
                        scan_mode: ScanMode::VerticalBlank,
                        mode_clock: 0,
                        line: self.line + 1,
                    }
                } else {
                    Phase { scan_mode: ScanMode::AccessOam, mode_clock: 0, line: self.line + 1 }
                },
                ScanMode::VerticalBlank => Phase {
                    scan_mode: ScanMode::AccessOam,
                    mode_clock: 0,
                    line: 0,
                },
            }
        }
    }

    /// The clock cycles that are still to be spent, at the least, before a
    /// frame is handed over: the rest of the current line, of 456 cycles,
    /// and the visible lines after it; from the vertical blank, the rest of
    /// it and all 144 visible lines.
    pub open spec fn cycles_to_frame(self) -> int {
        match self.scan_mode {
            ScanMode::AccessOam => 456 * (144 - self.line) - self.mode_clock,
            ScanMode::AccessVram => 456 * (144 - self.line) - 80 - self.mode_clock,
            ScanMode::HorizontalBlank => 456 * (144 - self.line) - 252 - self.mode_clock,
            ScanMode::VerticalBlank => 4560 - self.mode_clock + 456 * 144,
        }
    }
}

impl PictureState {
    /// The phase is well formed, and the picture holds the lines drawn so
    /// far: all lines before the current one, and the current one too once
    /// the horizontal blank has begun.
    pub open spec fn wf(self) -> bool {
        &&& self.phase.wf()
        &&& self.pixels.len() == 160 * match self.phase.scan_mode {
            ScanMode::AccessOam => self.phase.line,
            ScanMode::AccessVram => self.phase.line,
            ScanMode::HorizontalBlank => self.phase.line + 1,
            ScanMode::VerticalBlank => 0,
        }
    }
}

/// The pixel of one of the four colours: a grey from white for 0 to black
/// for 3, opaque.
pub open spec fn spec_rgba(color: int) -> Rgba {
    Rgba { r: spec_shade(color), g: spec_shade(color), b: spec_shade(color), a: 255 }
}

/// The pixel at column `pixel_x` and row `pixel_y` of the tile that the
/// background tile map names at column `tile_x` and row `tile_y`.
pub open spec fn spec_read_tile_map(
    bus: BusState,
    tile_x: int,
    tile_y: int,
    pixel_x: int,
    pixel_y: int,
) -> Rgba {
    let tile = bus_read(bus, (TILE_MAP + tile_x + 32 * tile_y) as u16);
    spec_rgba(spec_tile_color(bus, spec_tile_row_address(tile as int, pixel_y), pixel_x))
}

/// The pixel of the screen at column `column` of scanline `line`: the pixel
/// of the background, which is 256 pixels wide and high and wraps, at the
/// place that the two scroll offsets move it to.
pub open spec fn spec_screen_pixel(
    bus: BusState,
    line: int,
    scroll_x: u8,
    scroll_y: u8,
    column: int,
) -> Rgba {
    let x = (column + scroll_x) % 256;
    let y = (line + scroll_y) % 256;
    spec_read_tile_map(bus, x / 8, y / 8, x % 8, y % 8)
}

/// The pixels of scanline `line`, left to right.
pub open spec fn spec_scanline(bus: BusState, line: int, scroll_x: u8, scroll_y: u8) -> Seq<Rgba> {
    Seq::new(
        SCREEN_WIDTH as nat,
        |column: int| spec_screen_pixel(bus, line, scroll_x, scroll_y, column),
    )
}

/// The state of the picture unit after `clock_cycles` more cycles. Where
/// the video-memory phase ends, the current line is drawn from the bus and
/// appended to the picture; where the frame is complete, the picture starts
/// again empty.
pub open spec fn spec_step_mode(state: PictureState, bus: BusState, clock_cycles: int) -> PictureState {
    PictureState {
        phase: state.phase.after(clock_cycles),
        pixels: if state.phase.draws(clock_cycles) {
            state.pixels + spec_scanline(bus, state.phase.line, state.scroll_x, state.scroll_y)
        } else if state.phase.completes_frame(clock_cycles) {
            Seq::empty()
        } else {
            state.pixels
        },
        ..state
    }
}

/// The frame that is handed over after `clock_cycles` more cycles, if one
/// is.
pub open spec fn spec_frame(state: PictureState, clock_cycles: int) -> Option<Seq<Rgba>> {
    if state.phase.completes_frame(clock_cycles) {
        Some(state.pixels)
    } else {
        None
    }
}

/// The bus after the picture unit has published its scanline and its
/// vertical scroll offset.
pub open spec fn spec_apply_memory_map(state: PictureState, bus: BusState) -> BusState {
    bus_write(
        bus_write(bus, LINE_REGISTER, state.phase.line as u8),
        SCROLL_Y_REGISTER,
        state.scroll_y,
    )
}

/// The state of the picture unit after it has taken the vertical scroll
/// offset from the bus.
pub open spec fn spec_read_memory_mapped_registers(
    state: PictureState,
    bus: BusState,
) -> PictureState {
    PictureState { scroll_y: bus_read(bus, SCROLL_Y_REGISTER), ..state }
}

/// The picture unit.
#[derive(Debug)]
pub struct Gpu {
    scan_mode: ScanMode,
    mode_clock: usize,
    line: u8,
    framebuffer: Framebuffer,
    scroll_x: u8,
    scroll_y: u8,
}

impl View for Gpu {
    type V = PictureState;

    closed spec fn view(&self) -> PictureState {
        PictureState {
            phase: Phase {
                scan_mode: self.scan_mode,
                mode_clock: self.mode_clock as int,
                line: self.line as int,
            },
            pixels: self.framebuffer@,
            scroll_x: self.scroll_x,
            scroll_y: self.scroll_y,
        }
    }
}

/// The pixel of one of the four colours.
pub fn rgba(color: u8) -> (pixel: Rgba)
    requires
        color <= 3,
    ensures
        pixel == spec_rgba(color as int),
{
    let level: u8 = shade(color);
    Rgba { r: level, g: level, b: level, a: 255 }
}

/// Publishes the scanline and the vertical scroll offset at their
/// addresses.
pub fn apply_memory_map<M: MemoryAccess>(gpu: &Gpu, memory: &mut M)
    ensures
        final(memory).bus() == spec_apply_memory_map(gpu@, old(memory).bus()),
{
    memory.write_byte(LINE_REGISTER, gpu.line);
    memory.write_byte(SCROLL_Y_REGISTER, gpu.scroll_y);
}

/// Takes the vertical scroll offset from its address. The scanline is the
/// picture unit's own and is never read back.
pub fn read_memory_mapped_registers<M: MemoryAccess>(gpu: &mut Gpu, memory: &M)
    ensures
        final(gpu)@ == spec_read_memory_mapped_registers(old(gpu)@, memory.bus()),
{
    gpu.scroll_y = memory.read_byte(SCROLL_Y_REGISTER);
}

/// Looks one pixel up: the tile number in the background tile map, then
/// the two bytes of the tile's row, then the two bits of the pixel.
pub fn read_tile_map<M: MemoryAccess>(
    memory: &M,
    tile_x: u8,
    tile_y: u8,
    pixel_x: u8,
    pixel_y: u8,
) -> (pixel: Rgba)
    requires
        pixel_x <= 7,
    ensures
        pixel == spec_read_tile_map(
            memory.bus(),
            tile_x as int,
            tile_y as int,
            pixel_x as int,
            pixel_y as int,
        ),
{
    let tile_map_index: u8 = memory.read_byte(TILE_MAP + (tile_x as u16) + 32 * (tile_y as u16));
    let row_address: u16 = TILE_DATA + 16 * (tile_map_index as u16) + 2 * (pixel_y as u16);
    let low: u8 = memory.read_byte(row_address);
    let high: u8 = memory.read_byte(row_address.wrapping_add(1));
    rgba(pixel_color(low, high, pixel_x))
}

/// Draws the current scanline and appends it to the picture.
pub fn render_scan<M: MemoryAccess>(gpu: &mut Gpu, memory: &M)
    ensures
        final(gpu)@ == (PictureState {
            pixels: old(gpu)@.pixels + spec_scanline(
                memory.bus(),
                old(gpu)@.phase.line,
                old(gpu)@.scroll_x,
                old(gpu)@.scroll_y,
            ),
            ..old(gpu)@
        }),
{
    let ghost before = gpu@;
    let ghost row = spec_scanline(memory.bus(), before.phase.line, before.scroll_x, before.scroll_y);
    let y: u16 = (gpu.line as u16 + gpu.scroll_y as u16) % 256;
    let mut pixel: u16 = 0;
    while pixel < 160
        invariant
            pixel <= 160,
            y == (before.phase.line + before.scroll_y) % 256,
            row == spec_scanline(
                memory.bus(),
                before.phase.line,
                before.scroll_x,
                before.scroll_y,
            ),
            gpu@ == (PictureState {
                pixels: before.pixels + row.subrange(0, pixel as int),
                ..before
            }),
        decreases 160 - pixel,
    {
        let x: u16 = (pixel + gpu.scroll_x as u16) % 256;
        let drawn: Rgba = read_tile_map(
            memory,
            (x / 8) as u8,
            (y / 8) as u8,
            (x % 8) as u8,
            (y % 8) as u8,
        );
        gpu.framebuffer.0.push(drawn);
        assert(gpu@.pixels =~= before.pixels + row.subrange(0, pixel + 1));
        pixel += 1;
    }
    assert(row.subrange(0, 160) =~= row);
}

/// Spends the clock cycles of `time_increment`. At most one phase ends. The
/// frame is returned where the horizontal blank of the last visible line
/// ends.
pub fn step_mode<M: MemoryAccess>(
    gpu: &mut Gpu,
    memory: &M,
    time_increment: TimeIncrement,
) -> (frame: Option<Framebuffer>)
    requires
        old(gpu)@.wf(),
    ensures
        final(gpu)@.wf(),
        final(gpu)@ == spec_step_mode(old(gpu)@, memory.bus(), time_increment.t as int),
        match frame {
            Some(framebuffer) => spec_frame(old(gpu)@, time_increment.t as int) == Some(
                framebuffer@,
            ),
            None => spec_frame(old(gpu)@, time_increment.t as int).is_none(),
        },
{
    gpu.mode_clock += time_increment.t as usize;
    match gpu.scan_mode {
        ScanMode::AccessOam => {
            if gpu.mode_clock >= OAM_CYCLES {
                gpu.scan_mode = ScanMode::AccessVram;
                gpu.mode_clock = 0;
            }
            None
        },
        ScanMode::AccessVram => {
            if gpu.mode_clock >= VRAM_CYCLES {
                gpu.scan_mode = ScanMode::HorizontalBlank;
                gpu.mode_clock = 0;
                render_scan(gpu, memory);
            }
            None
        },
        ScanMode::HorizontalBlank => {
            if gpu.mode_clock >= HBLANK_CYCLES {
                gpu.line += 1;
                gpu.mode_clock = 0;
                if gpu.line == 144 {
                    gpu.scan_mode = ScanMode::VerticalBlank;
                    let mut finished: Framebuffer = Framebuffer(Vec::new());
                    std::mem::swap(&mut gpu.framebuffer, &mut finished);
                    return Some(finished);
                } else {
                    gpu.scan_mode = ScanMode::AccessOam;
                }
            }
            None
        },
        ScanMode::VerticalBlank => {
            if gpu.mode_clock >= VBLANK_CYCLES {
                gpu.mode_clock = 0;
                gpu.scan_mode = ScanMode::AccessOam;
                gpu.line = 0;
            }
            None
        },
    }
}

impl Gpu {
    /// The picture unit's state is well formed.
    pub open spec fn wf(&self) -> bool {
        self@.wf()
    }

    /// The picture unit at reset: at the start of the object-memory scan of
    /// line 0, with an empty picture and no scroll.
    pub fn initialize() -> (gpu: Gpu)
        ensures
            gpu.wf(),
            gpu@ == (PictureState {
                phase: Phase { scan_mode: ScanMode::AccessOam, mode_clock: 0, line: 0 },
                pixels: Seq::empty(),
                scroll_x: 0,
                scroll_y: 0,
            }),
    {
        Self {
            scan_mode: ScanMode::AccessOam,
            mode_clock: 0,
            line: 0,
            framebuffer: Framebuffer(Vec::new()),
            scroll_x: 0,
            scroll_y: 0,
        }
    }

    /// Spends the time of one instruction: takes the vertical scroll offset
    /// from the bus, lets at most one phase end, and publishes the scanline
    /// and the scroll offset on the bus. Returns the finished frame, of 160
    /// by 144 pixels, where the last visible line is done.
    pub fn step<M: MemoryAccess>(
        &mut self,
        time_increment: TimeIncrement,
        memory: &mut M,
    ) -> (frame: Option<Framebuffer>)
        requires
            old(self).wf(),
        ensures
            final(self).wf(),
            final(self)@ == spec_step_mode(
                spec_read_memory_mapped_registers(old(self)@, old(memory).bus()),
                old(memory).bus(),
                time_increment.t as int,
            ),
            final(memory).bus() == spec_apply_memory_map(final(self)@, old(memory).bus()),
            match frame {
                Some(framebuffer) => {
                    &&& spec_frame(old(self)@, time_increment.t as int) == Some(framebuffer@)
                    &&& framebuffer@.len() == SCREEN_PIXELS
                },
                None => spec_frame(old(self)@, time_increment.t as int).is_none(),
            },
    {
        read_memory_mapped_registers(self, memory);
        let framebuffer = step_mode(self, memory, time_increment);
        apply_memory_map(self, memory);
        framebuffer
    }

    /// The phase.
    pub fn scan_mode(&self) -> (scan_mode: ScanMode)
        ensures
            scan_mode == self@.phase.scan_mode,
    {
        self.scan_mode
    }

    /// The clock cycles spent in the phase.
    pub fn mode_clock(&self) -> (mode_clock: usize)
        ensures
            mode_clock == self@.phase.mode_clock,
    {
        self.mode_clock
    }

    /// The scanline.
    pub fn line(&self) -> (line: u8)
        ensures
            line == self@.phase.line,
    {
        self.line
    }

    /// The vertical scroll offset.
    pub fn scroll_y(&self) -> (scroll_y: u8)
        ensures
            scroll_y == self@.scroll_y,
    {
        self.scroll_y
    }

    /// The number of pixels drawn since the last frame.
    pub fn pixels_drawn(&self) -> (count: usize)
        ensures
            count == self@.pixels.len(),
    {
        self.framebuffer.0.len()
    }
}

/// The clock cycles from one frame to the next: 144 visible scanlines and
/// the vertical blank.
pub const FRAME_CYCLES: usize = 70224;

/// The picture unit at the start of a frame.
pub open spec fn frame_start() -> Phase {
    Phase { scan_mode: ScanMode::AccessOam, mode_clock: 0, line: 0 }
}

/// The phase after `steps` steps of `clock_cycles` cycles each.
pub open spec fn spec_run(phase: Phase, clock_cycles: int, steps: nat) -> Phase
    decreases steps,
{
    if steps == 0 {
        phase
    } else {
        spec_run(phase.after(clock_cycles), clock_cycles, (steps - 1) as nat)
    }
}

/// The number of frames handed over in `steps` steps of `clock_cycles`
/// cycles each.
pub open spec fn spec_frames(phase: Phase, clock_cycles: int, steps: nat) -> nat
    decreases steps,
{
    if steps == 0 {
        0
    } else {
        let first: nat = if phase.completes_frame(clock_cycles) {
            1
        } else {
            0
        };
        first + spec_frames(phase.after(clock_cycles), clock_cycles, (steps - 1) as nat)
    }
}

/// Steps can be taken in two parts.
proof fn lemma_run_split(phase: Phase, clock_cycles: int, first: nat, second: nat)
    ensures
        spec_run(phase, clock_cycles, first + second) == spec_run(
            spec_run(phase, clock_cycles, first),
            clock_cycles,
            second,
        ),
        spec_frames(phase, clock_cycles, first + second) == spec_frames(
            phase,
            clock_cycles,
            first,
        ) + spec_frames(spec_run(phase, clock_cycles, first), clock_cycles, second),
    decreases first,
{
    if first > 0 {
        lemma_run_split(phase.after(clock_cycles), clock_cycles, (first - 1) as nat, second);
        assert((first + second - 1) as nat == (first - 1) as nat + second);
    }
}

/// Steps of four cycles that do not reach the budget of the phase only move
/// its clock.
proof fn lemma_within_phase(phase: Phase, steps: nat)
    requires
        phase.mode_clock + 4 * steps < budget(phase.scan_mode),
    ensures
        spec_run(phase, 4, steps) == (Phase { mode_clock: phase.mode_clock + 4 * steps, ..phase }),
        spec_frames(phase, 4, steps) == 0,
    decreases steps,
{
    if steps > 0 {
        lemma_within_phase(phase.after(4), (steps - 1) as nat);
    }
}

/// A phase that starts at clock 0 ends with the step of four cycles that
/// reaches its budget, and not before.
proof fn lemma_whole_phase(phase: Phase)
    requires
        phase.mode_clock == 0,
    ensures
        spec_run(phase, 4, (budget(phase.scan_mode) / 4) as nat) == (Phase {
            mode_clock: budget(phase.scan_mode) - 4,
            ..phase
        }).after(4),
        spec_frames(phase, 4, (budget(phase.scan_mode) / 4) as nat) == (if phase.scan_mode
            == ScanMode::HorizontalBlank && phase.line + 1 == SCREEN_HEIGHT {
            1nat
        } else {
            0nat
        }),
{
    let steps = (budget(phase.scan_mode) / 4 - 1) as nat;
    let last = Phase { mode_clock: budget(phase.scan_mode) - 4, ..phase };
    lemma_within_phase(phase, steps);
    lemma_run_split(phase, 4, steps, 1);
    assert(spec_run(last, 4, 1) == last.after(4)) by {
        reveal_with_fuel(spec_run, 2);
    }
    assert(spec_frames(last, 4, 1) == (if last.completes_frame(4) {
        1nat
    } else {
        0nat
    })) by {
        reveal_with_fuel(spec_frames, 2);
    }
}

/// A visible scanline takes 114 steps of four cycles, and the last one
/// hands the frame over.
proof fn lemma_whole_line(line: int)
    requires
        0 <= line < SCREEN_HEIGHT,
    ensures
        spec_run(Phase { scan_mode: ScanMode::AccessOam, mode_clock: 0, line }, 4, 114) == (if line
            + 1 == SCREEN_HEIGHT {
            Phase { scan_mode: ScanMode::VerticalBlank, mode_clock: 0, line: line + 1 }
        } else {
            Phase { scan_mode: ScanMode::AccessOam, mode_clock: 0, line: line + 1 }
        }),
        spec_frames(Phase { scan_mode: ScanMode::AccessOam, mode_clock: 0, line }, 4, 114) == (
        if line + 1 == SCREEN_HEIGHT {
            1nat
        } else {
            0nat
        }),
{
    let scan = Phase { scan_mode: ScanMode::AccessOam, mode_clock: 0, line };
    let draw = Phase { scan_mode: ScanMode::AccessVram, mode_clock: 0, line };
    let blank = Phase { scan_mode: ScanMode::HorizontalBlank, mode_clock: 0, line };
    lemma_whole_phase(scan);
    lemma_whole_phase(draw);
    lemma_whole_phase(blank);
    lemma_run_split(scan, 4, 20, 43);
    lemma_run_split(scan, 4, 63, 51);
}

/// The first `lines` visible scanlines take 114 steps of four cycles each
/// and hand no frame over.
proof fn lemma_visible_lines(lines: nat)
    requires
        lines < SCREEN_HEIGHT,
    ensures
        spec_run(frame_start(), 4, 114 * lines) == (Phase {
            scan_mode: ScanMode::AccessOam,
            mode_clock: 0,
            line: lines as int,
        }),
        spec_frames(frame_start(), 4, 114 * lines) == 0,
    decreases lines,
{
    if lines > 0 {
        lemma_visible_lines((lines - 1) as nat);
        lemma_whole_line(lines - 1);
        lemma_run_split(frame_start(), 4, 114 * ((lines - 1) as nat), 114);
    }
}

/// Stepped four clock cycles at a time from the start of a frame, the
/// picture unit hands over its first frame with step 16,416, which ends the
/// last visible line, and none before; after 17,556 steps, which are 70,224
/// clock cycles, it is at the start of a frame again, on scanline 0.
pub proof fn lemma_one_frame()
    ensures
        spec_frames(frame_start(), 4, 16415) == 0,
        spec_frames(frame_start(), 4, 16416) == 1,
        spec_frames(frame_start(), 4, 17556) == 1,
        spec_run(frame_start(), 4, 17556) == frame_start(),
        4 * 17556 == FRAME_CYCLES,
        FRAME_CYCLES == (80 + 172 + 204) * 144 + 4560,
{
    let last_line = Phase { scan_mode: ScanMode::AccessOam, mode_clock: 0, line: 143 };
    let blank = Phase { scan_mode: ScanMode::VerticalBlank, mode_clock: 0, line: 144 };
    lemma_visible_lines(143);
    lemma_whole_line(143);
    lemma_run_split(frame_start(), 4, 16302, 114);
    lemma_whole_phase(blank);
    lemma_run_split(frame_start(), 4, 16416, 1140);
    // No frame comes with the steps before the last of the last line.
    lemma_run_split(frame_start(), 4, 16415, 1);
    lemma_run_split(frame_start(), 4, 16302, 113);
    let draw = Phase { scan_mode: ScanMode::AccessVram, mode_clock: 0, line: 143 };
    let wait = Phase { scan_mode: ScanMode::HorizontalBlank, mode_clock: 0, line: 143 };
    lemma_whole_phase(last_line);
    lemma_whole_phase(draw);
    lemma_within_phase(wait, 50);
    lemma_run_split(last_line, 4, 20, 43);
    lemma_run_split(last_line, 4, 63, 50);
}

/// Stepped four clock cycles at a time from the start of a frame, the
/// picture unit has handed over exactly `frames` frames after `frames` times
/// 70,224 clock cycles, and is then at the start of a frame, on scanline 0.
pub proof fn lemma_frame_cadence(frames: nat)
    ensures
        spec_frames(frame_start(), 4, 17556 * frames) == frames,
        spec_run(frame_start(), 4, 17556 * frames) == frame_start(),
    decreases frames,
{
    if frames > 0 {
        lemma_frame_cadence((frames - 1) as nat);
        lemma_one_frame();
        lemma_run_split(frame_start(), 4, 17556 * ((frames - 1) as nat), 17556);
    }
}

/// A step of at least one clock cycle keeps the phase well formed and, where
/// it hands no frame over, brings the next frame nearer.
pub proof fn lemma_step_nears_frame(phase: Phase, clock_cycles: int)
    requires
        phase.wf(),
        clock_cycles >= 1,
    ensures
        phase.after(clock_cycles).wf(),
        phase.cycles_to_frame() > 0,
        !phase.completes_frame(clock_cycles) ==> 0 < phase.after(clock_cycles).cycles_to_frame()
            < phase.cycles_to_frame(),
{
}

} // verus!
