//! The whole machine: processor, picture unit and bus, stepped in turn until
//! a frame is ready for the host.

use vstd::prelude::*;
use crate::cpu::{lemma_step_takes_time, spec_step, Cpu, DecodeError};
use crate::gpu::{
    lemma_step_nears_frame, spec_apply_memory_map, spec_read_memory_mapped_registers,
    spec_step_mode, Framebuffer, Gpu, Phase, PictureState, Rgba, ScanMode, SCREEN_PIXELS,
};
use crate::memory::{BusState, ImageError, Memory, MemoryAccess, BOOT_SIZE, CARTRIDGE_SIZE,
    GENERAL_SIZE};
use crate::registers::Registers;
use crate::tiles::{spec_tileset, TILESET_BYTES};

verus! {

/// The number of bytes in the picture that the host shows: four to the
/// pixel.
pub const SCREEN_BYTES: usize = 92160;

/// The state of the machine.
pub ghost struct MachineState {
    pub registers: Registers,
    pub bus: BusState,
    pub picture: PictureState,
    /// The last frame, as the host shows it.
    pub pixel_buffer: Seq<u8>,
    /// The picture of the tile set as it was when the last frame was done.
    pub tileset_buffer: Seq<u8>,
}

/// Byte `index` of a frame as the host shows it: red, green and blue of
/// each pixel, and an alpha of 255.
pub open spec fn spec_frame_byte(pixels: Seq<Rgba>, index: int) -> u8 {
    let pixel = pixels[index / 4];
    if index % 4 == 0 {
        pixel.r
    } else if index % 4 == 1 {
        pixel.g
    } else if index % 4 == 2 {
        pixel.b
    } else {
        255
    }
}

/// A frame as the host shows it.
pub open spec fn spec_frame_bytes(pixels: Seq<Rgba>) -> Seq<u8> {
    Seq::new(4 * pixels.len(), |index: int| spec_frame_byte(pixels, index))
}

/// The machine after the picture unit has spent the time of the
/// instruction that left `registers` and `bus`.
pub open spec fn spec_after_picture_step(
    machine: MachineState,
    registers: Registers,
    bus: BusState,
    clock_cycles: int,
) -> MachineState {
    let picture = spec_step_mode(
        spec_read_memory_mapped_registers(machine.picture, bus),
        bus,
        clock_cycles,
    );
    MachineState { registers, bus: spec_apply_memory_map(picture, bus), picture, ..machine }
}

/// What `step_until_frame` makes of the machine, and what it returns.
///
/// The processor executes one instruction, then the picture unit spends the
/// time it took, and so on in turn. An opcode without behaviour ends the
/// run with its error, and the machine stays as the last complete turn left
/// it. Otherwise the run ends with the turn in which the picture unit hands
/// a frame over.
pub open spec fn spec_step_until_frame(machine: MachineState) -> (
    MachineState,
    Result<Seq<Rgba>, DecodeError>,
)
    decreases machine.picture.phase.cycles_to_frame(),
    when machine.picture.wf()
{
    match spec_step(machine.registers, machine.bus) {
        Err(error) => (machine, Err(error)),
        Ok(step) => {
            let clock_cycles = step.time.t as int;
            let next = spec_after_picture_step(machine, step.registers, step.bus, clock_cycles);
            if machine.picture.phase.completes_frame(clock_cycles) {
                (next, Ok(machine.picture.pixels))
            } else {
                proof {
                    lemma_step_takes_time(machine.registers, machine.bus);
                    lemma_step_nears_frame(machine.picture.phase, clock_cycles);
                }
                spec_step_until_frame(next)
            }
        },
    }
}

/// What `tick` makes of the machine: the run of `step_until_frame`, after
/// which the frame is copied for the host and the tile set is drawn from
/// the bus as the run left it. After an error the two buffers are as they
/// were.
pub open spec fn spec_tick(machine: MachineState) -> (MachineState, Result<(), DecodeError>) {
    let (next, result) = spec_step_until_frame(machine);
    match result {
        Ok(pixels) => (
            MachineState {
                pixel_buffer: spec_frame_bytes(pixels),
                tileset_buffer: spec_tileset(next.bus),
                ..next
            },
            Ok(()),
        ),
        Err(error) => (next, Err(error)),
    }
}

/// The machine.
pub struct Emulator {
    cpu: Cpu,
    gpu: Gpu,
    memory: Memory,
    pixel_buffer: Vec<u8>,
    tileset_buffer: Vec<u8>,
}

impl View for Emulator {
    type V = MachineState;

    closed spec fn view(&self) -> MachineState {
        MachineState {
            registers: self.cpu@,
            bus: self.memory.bus(),
            picture: self.gpu@,
            pixel_buffer: self.pixel_buffer@,
            tileset_buffer: self.tileset_buffer@,
        }
    }
}

/// Copies a frame into the buffer that the host shows.
fn copy_frame(framebuffer: &Framebuffer, pixel_buffer: &mut Vec<u8>)
    requires
        framebuffer@.len() == SCREEN_PIXELS,
        old(pixel_buffer)@.len() == SCREEN_BYTES,
    ensures
        final(pixel_buffer)@ == spec_frame_bytes(framebuffer@),
{
    let mut i: usize = 0;
    while i < SCREEN_PIXELS
        invariant
            i <= SCREEN_PIXELS,
            framebuffer@.len() == SCREEN_PIXELS,
            pixel_buffer@.len() == SCREEN_BYTES,
            forall|k: int| 0 <= k < 4 * i ==> pixel_buffer@[k] == spec_frame_byte(framebuffer@, k),
        decreases SCREEN_PIXELS - i,
    {
        let pixel: Rgba = framebuffer.0[i];
        let offset: usize = i * 4;
        pixel_buffer[offset] = pixel.r;
        pixel_buffer[offset + 1] = pixel.g;
        pixel_buffer[offset + 2] = pixel.b;
        pixel_buffer[offset + 3] = 255;
        i += 1;
    }
    assert(pixel_buffer@ =~= spec_frame_bytes(framebuffer@));
}

impl Emulator {
    /// The picture unit is well formed and the two buffers have the sizes
    /// of their pictures.
    pub open spec fn wf(&self) -> bool {
        &&& self@.picture.wf()
        &&& self@.pixel_buffer.len() == SCREEN_BYTES
        &&& self@.tileset_buffer.len() == TILESET_BYTES
    }

    /// Builds the machine at reset from a boot image of exactly 256 bytes
    /// and a cartridge image of at least 16,384 bytes. Images of another
    /// size are refused, the boot image first, and no machine is built.
    pub fn new(boot_image: &[u8], cartridge_image: &[u8]) -> (result: Result<Emulator, ImageError>)
        ensures
            match result {
                Ok(emulator) => {
                    &&& boot_image@.len() == BOOT_SIZE
                    &&& cartridge_image@.len() >= CARTRIDGE_SIZE
                    &&& emulator.wf()
                    &&& emulator@ == (MachineState {
                        registers: Registers {
                            a: 0,
                            b: 0,
                            c: 0,
                            d: 0,
                            e: 0,
                            f: 0,
                            g: 0,
                            h: 0,
                            l: 0,
                            program_counter: 0,
                            stack_pointer: 0,
                        },
                        bus: BusState {
                            boot: boot_image@,
                            cartridge: cartridge_image@.subrange(0, CARTRIDGE_SIZE as int),
                            general: Seq::new(GENERAL_SIZE as nat, |i: int| 0u8),
                            boot_enabled: true,
                        },
                        picture: PictureState {
                            phase: Phase {
                                scan_mode: ScanMode::AccessOam,
                                mode_clock: 0,
                                line: 0,
                            },
                            pixels: Seq::empty(),
                            scroll_x: 0,
                            scroll_y: 0,
                        },
                        pixel_buffer: Seq::new(SCREEN_BYTES as nat, |i: int| 0u8),
                        tileset_buffer: Seq::new(TILESET_BYTES as nat, |i: int| 0u8),
                    })
                },
                Err(ImageError::BootImageSize(length)) => {
                    &&& boot_image@.len() != BOOT_SIZE
                    &&& length == boot_image@.len()
                },
                Err(ImageError::CartridgeImageSize(length)) => {
                    &&& boot_image@.len() == BOOT_SIZE
                    &&& cartridge_image@.len() < CARTRIDGE_SIZE
                    &&& length == cartridge_image@.len()
                },
            },
    {
        let memory = match Memory::initialize(boot_image, cartridge_image) {
            Ok(memory) => memory,
            Err(error) => {
                return Err(error);
            },
        };
        let emulator = Emulator {
            cpu: Cpu::initialize(),
            gpu: Gpu::initialize(),
            memory,
            pixel_buffer: vec![0u8; SCREEN_BYTES],
            tileset_buffer: vec![0u8; TILESET_BYTES],
        };
        assert(emulator@.pixel_buffer =~= Seq::new(SCREEN_BYTES as nat, |i: int| 0u8));
        assert(emulator@.tileset_buffer =~= Seq::new(TILESET_BYTES as nat, |i: int| 0u8));
        Ok(emulator)
    }

    /// Steps the processor and the picture unit in turn until the picture
    /// unit hands a frame over, and returns the frame: 160 by 144 pixels.
    /// An opcode without behaviour stops the run and is returned.
    pub fn step_until_frame(&mut self) -> (result: Result<Framebuffer, DecodeError>)
        requires
            old(self).wf(),
        ensures
            final(self).wf(),
            match result {
                Ok(framebuffer) => {
                    &&& spec_step_until_frame(old(self)@) == (
                        final(self)@,
                        Ok::<Seq<Rgba>, DecodeError>(framebuffer@),
                    )
                    &&& framebuffer@.len() == SCREEN_PIXELS
                },
                Err(error) => spec_step_until_frame(old(self)@) == (
                    final(self)@,
                    Err::<Seq<Rgba>, DecodeError>(error),
                ),
            },
    {
        let ghost start = self@;
        loop
            invariant
                self.wf(),
                start == old(self)@,
                start.picture.wf(),
                spec_step_until_frame(self@) == spec_step_until_frame(start),
            decreases self@.picture.phase.cycles_to_frame(),
        {
            let ghost before = self@;
            proof {
                lemma_step_takes_time(before.registers, before.bus);
            }
            let time_increment = match self.cpu.step(&mut self.memory) {
                Ok(time_increment) => time_increment,
                Err(error) => {
                    return Err(error);
                },
            };
            proof {
                lemma_step_nears_frame(before.picture.phase, time_increment.t as int);
            }
            if let Some(framebuffer) = self.gpu.step(time_increment, &mut self.memory) {
                return Ok(framebuffer);
            }
        }
    }

    /// Runs the machine until the picture unit hands a frame over, and
    /// leaves the frame and a picture of the tile set in the two buffers.
    /// An opcode without behaviour stops the run and is returned; the two
    /// buffers then keep what they held.
    pub fn tick(&mut self) -> (result: Result<(), DecodeError>)
        requires
            old(self).wf(),
        ensures
            final(self).wf(),
            (final(self)@, result) == spec_tick(old(self)@),
    {
        match self.step_until_frame() {
            Ok(framebuffer) => {
                copy_frame(&framebuffer, &mut self.pixel_buffer);
                self.memory.generate_tileset_rgba(self.tileset_buffer.as_mut_slice());
                assert(self@.tileset_buffer =~= spec_tileset(self@.bus));
                Ok(())
            },
            Err(error) => Err(error),
        }
    }

    /// The last frame: 160 by 144 pixels, row by row, four bytes to the
    /// pixel.
    pub fn framebuffer(&self) -> (bytes: &[u8])
        ensures
            bytes@ == self@.pixel_buffer,
    {
        self.pixel_buffer.as_slice()
    }

    /// The picture of the tile set: 128 by 192 pixels, row by row, four
    /// bytes to the pixel.
    pub fn tileset(&self) -> (bytes: &[u8])
        ensures
            bytes@ == self@.tileset_buffer,
    {
        self.tileset_buffer.as_slice()
    }

    /// The registers of the processor.
    pub fn registers(&self) -> (registers: Registers)
        ensures
            registers == self@.registers,
    {
        self.cpu.registers()
    }

    /// A key of the host went down. The machine has no joypad yet: nothing
    /// changes.
    pub fn key_down(&mut self, key_code: String)
        ensures
            final(self)@ == old(self)@,
    {
    }

    /// A key of the host came up. The machine has no joypad yet: nothing
    /// changes.
    pub fn key_up(&mut self, key_code: String)
        ensures
            final(self)@ == old(self)@,
    {
    }
}

} // verus!
