//! The memory bus: 65,536 byte addresses resolved to three regions.
//!
//! The boot image lies over the first 256 addresses of the cartridge until
//! the unmap register is written; the cartridge image fills the addresses
//! below 0x4000; everything above is general storage, which holds working
//! memory, video memory and the memory-mapped registers.

use vstd::prelude::*;
use crate::bits::{
    concatenate, lower_eight_bits, spec_concatenate, spec_lower_eight_bits,
    spec_upper_eight_bits, upper_eight_bits,
};
use crate::tiles::{
    drawn_before, lemma_pixel_offset, pixel_color, shade, spec_tile_row_address, spec_tileset,
    spec_tileset_byte, TILESET_BYTES, TILESET_TILES, TILE_DATA,
};

verus! {

/// The number of bytes in the boot image.
pub const BOOT_SIZE: usize = 256;

/// The number of bytes of the cartridge image that the bus maps.
pub const CARTRIDGE_SIZE: usize = 16384;

/// The number of bytes of general storage.
pub const GENERAL_SIZE: usize = 49152;

/// The address whose write removes the boot image from the address space.
pub const UNMAP_REGISTER: u16 = 0xFF50;

/// One of the three regions of the address space.
#[derive(Clone, Copy, Debug, PartialEq, Eq, Structural)]
pub enum Region {
    Boot,
    Cartridge,
    General,
}

/// Why a pair of images was refused.
#[derive(Clone, Copy, Debug, PartialEq, Eq, Structural)]
pub enum ImageError {
    /// The boot image does not have exactly 256 bytes; the field is its
    /// length.
    BootImageSize(usize),
    /// The cartridge image has fewer than 16,384 bytes; the field is its
    /// length.
    CartridgeImageSize(usize),
}

/// The contents of a bus: the bytes of each region, and whether the boot
/// image is still mapped.
pub ghost struct BusState {
    pub boot: Seq<u8>,
    pub cartridge: Seq<u8>,
    pub general: Seq<u8>,
    pub boot_enabled: bool,
}

impl BusState {
    /// Each region has its size.
    pub open spec fn wf(self) -> bool {
        &&& self.boot.len() == BOOT_SIZE
        &&& self.cartridge.len() == CARTRIDGE_SIZE
        &&& self.general.len() == GENERAL_SIZE
    }
}

/// The number of bytes in a region.
pub open spec fn region_size(region: Region) -> int {
    match region {
        Region::Boot => BOOT_SIZE as int,
        Region::Cartridge => CARTRIDGE_SIZE as int,
        Region::General => GENERAL_SIZE as int,
    }
}

/// The region that an address belongs to.
pub open spec fn spec_region(addr: u16, boot_enabled: bool) -> Region {
    if addr < BOOT_SIZE && boot_enabled {
        Region::Boot
    } else if addr < CARTRIDGE_SIZE {
        Region::Cartridge
    } else {
        Region::General
    }
}

/// The place of an address within its region.
pub open spec fn spec_offset(addr: u16, boot_enabled: bool) -> int {
    match spec_region(addr, boot_enabled) {
        Region::Boot => addr as int,
        Region::Cartridge => addr as int,
        Region::General => addr - CARTRIDGE_SIZE,
    }
}

/// The byte that a read of `addr` returns.
pub open spec fn bus_read(bus: BusState, addr: u16) -> u8 {
    let offset = spec_offset(addr, bus.boot_enabled);
    match spec_region(addr, bus.boot_enabled) {
        Region::Boot => bus.boot[offset],
        Region::Cartridge => bus.cartridge[offset],
        Region::General => bus.general[offset],
    }
}

/// The bus after `value` was written to `addr`: the byte is stored in the
/// region that `addr` resolves to, and a write to the unmap register also
/// unmaps the boot image.
pub open spec fn bus_write(bus: BusState, addr: u16, value: u8) -> BusState {
    let offset = spec_offset(addr, bus.boot_enabled);
    let stored = match spec_region(addr, bus.boot_enabled) {
        Region::Boot => BusState { boot: bus.boot.update(offset, value), ..bus },
        Region::Cartridge => BusState { cartridge: bus.cartridge.update(offset, value), ..bus },
        Region::General => BusState { general: bus.general.update(offset, value), ..bus },
    };
    if addr == UNMAP_REGISTER {
        BusState { boot_enabled: false, ..stored }
    } else {
        stored
    }
}

/// The address after `addr`, wrapping from 0xFFFF to 0.
pub open spec fn next_address(addr: u16) -> u16 {
    if addr == 0xFFFF {
        0
    } else {
        (addr + 1) as u16
    }
}

/// The little-endian word at `addr`: the low byte at `addr`, the high byte
/// at the address after it.
pub open spec fn bus_read_word(bus: BusState, addr: u16) -> u16 {
    spec_concatenate(bus_read(bus, next_address(addr)), bus_read(bus, addr))
}

/// The bus after the little-endian word `value` was written at `addr`: the
/// low byte first, then the high byte at the address after it.
pub open spec fn bus_write_word(bus: BusState, addr: u16, value: u16) -> BusState {
    bus_write(
        bus_write(bus, addr, spec_lower_eight_bits(value)),
        next_address(addr),
        spec_upper_eight_bits(value),
    )
}

/// Resolves an address to its region and its place in it.
pub fn resolve(addr: u16, boot_enabled: bool) -> (place: (Region, usize))
    ensures
        place.0 == spec_region(addr, boot_enabled),
        place.1 == spec_offset(addr, boot_enabled),
        place.1 < region_size(place.0),
{
    let index: usize = addr as usize;
    if index < BOOT_SIZE && boot_enabled {
        (Region::Boot, index)
    } else if index < CARTRIDGE_SIZE {
        (Region::Cartridge, index)
    } else {
        (Region::General, index - CARTRIDGE_SIZE)
    }
}

/// What the processor and the picture unit ask of a bus. An implementation
/// says what it holds through `bus`, and reads and writes as `bus_read` and
/// `bus_write` say.
pub trait MemoryAccess {
    /// The contents of this bus.
    spec fn bus(&self) -> BusState;

    /// Reads the byte at `addr`.
    fn read_byte(&self, addr: u16) -> (value: u8)
        ensures
            value == bus_read(self.bus(), addr),
    ;

    /// Reads the little-endian word at `addr`.
    fn read_word(&self, addr: u16) -> (value: u16)
        ensures
            value == bus_read_word(self.bus(), addr),
    ;

    /// Writes `value` at `addr`.
    fn write_byte(&mut self, addr: u16, value: u8)
        ensures
            final(self).bus() == bus_write(old(self).bus(), addr, value),
    ;

    /// Writes the little-endian word `value` at `addr`.
    fn write_word(&mut self, addr: u16, value: u16)
        ensures
            final(self).bus() == bus_write_word(old(self).bus(), addr, value),
    ;

    /// Draws the tile set into `buffer` for a host to show: 128 by 192
    /// pixels, row by row, four bytes to the pixel. The bus is not changed,
    /// and bytes of `buffer` after the picture are left as they are.
    fn generate_tileset_rgba(&self, buffer: &mut [u8])
        requires
            old(buffer)@.len() >= TILESET_BYTES,
        ensures
            final(buffer)@ == spec_tileset(self.bus()) + old(buffer)@.subrange(
                TILESET_BYTES as int,
                old(buffer)@.len() as int,
            ),
    {
        let ghost before = buffer@;
        let ghost bus = self.bus();
        let mut tile: usize = 0;
        while tile < TILESET_TILES
            invariant
                tile <= TILESET_TILES,
                bus == self.bus(),
                buffer@.len() == before.len(),
                before.len() >= TILESET_BYTES,
                forall|i: int| TILESET_BYTES <= i < before.len() ==> buffer@[i] == before[i],
                forall|i: int|
                    0 <= i < TILESET_BYTES && drawn_before(i, tile as int, 0, 0) ==> buffer@[i]
                        == spec_tileset_byte(bus, i),
            decreases TILESET_TILES - tile,
        {
            let base_x: usize = (tile % 16) * 8;
            let base_y: usize = (tile / 16) * 8;
            let mut row: usize = 0;
            while row < 8
                invariant
                    tile < TILESET_TILES,
                    row <= 8,
                    base_x == (tile % 16) * 8,
                    base_y == (tile / 16) * 8,
                    bus == self.bus(),
                    buffer@.len() == before.len(),
                    before.len() >= TILESET_BYTES,
                    forall|i: int| TILESET_BYTES <= i < before.len() ==> buffer@[i] == before[i],
                    forall|i: int|
                        0 <= i < TILESET_BYTES && drawn_before(i, tile as int, row as int, 0)
                            ==> buffer@[i] == spec_tileset_byte(bus, i),
                decreases 8 - row,
            {
                let row_address: u16 = TILE_DATA + 16 * (tile as u16) + 2 * (row as u16);
                let low: u8 = self.read_byte(row_address);
                let high: u8 = self.read_byte(row_address.wrapping_add(1));
                let y: usize = base_y + row;
                let mut column: usize = 0;
                while column < 8
                    invariant
                        tile < TILESET_TILES,
                        row < 8,
                        column <= 8,
                        base_x == (tile % 16) * 8,
                        y == (tile / 16) * 8 + row,
                        row_address == spec_tile_row_address(tile as int, row as int),
                        low == bus_read(bus, row_address),
                        high == bus_read(bus, next_address(row_address)),
                        buffer@.len() == before.len(),
                        before.len() >= TILESET_BYTES,
                        forall|i: int| TILESET_BYTES <= i < before.len() ==> buffer@[i] == before[i],
                        forall|i: int|
                            0 <= i < TILESET_BYTES && drawn_before(
                                i,
                                tile as int,
                                row as int,
                                column as int,
                            ) ==> buffer@[i] == spec_tileset_byte(bus, i),
                    decreases 8 - column,
                {
                    let level: u8 = shade(pixel_color(low, high, column as u8));
                    let x: usize = base_x + column;
                    let at: usize = (y * 128 + x) * 4;
                    let ghost earlier = buffer@;
                    proof {
                        lemma_pixel_offset(at as int, tile as int, row as int, column as int);
                    }
                    buffer[at] = level;
                    buffer[at + 1] = level;
                    buffer[at + 2] = level;
                    buffer[at + 3] = 255;
                    proof {
                        assert forall|i: int|
                            0 <= i < TILESET_BYTES && drawn_before(
                                i,
                                tile as int,
                                row as int,
                                column + 1,
                            ) implies buffer@[i] == spec_tileset_byte(bus, i) by {
                            lemma_pixel_offset(i, tile as int, row as int, column as int);
                            if !(at <= i < at + 4) {
                                assert(buffer@[i] == earlier[i]);
                            }
                        }
                    }
                    column += 1;
                }
                row += 1;
            }
            tile += 1;
        }
        proof {
            assert forall|i: int| 0 <= i < TILESET_BYTES implies drawn_before(
                i,
                TILESET_TILES as int,
                0,
                0,
            ) by {
                assert(i / 4 / 128 < 192);
            }
            assert(buffer@ =~= spec_tileset(bus) + before.subrange(
                TILESET_BYTES as int,
                before.len() as int,
            ));
        }
    }
}

/// The bus of the machine.
pub struct Memory {
    bios: [u8; 256],
    rom: [u8; 16384],
    the_rest: [u8; 49152],
    bios_enabled: bool,
}

impl Memory {
    /// Builds the bus from a boot image of exactly 256 bytes and a cartridge
    /// image of at least 16,384 bytes, of which the first 16,384 are mapped.
    /// General storage starts as zeros and the boot image starts mapped.
    /// Images of another size are refused, the boot image first.
    pub fn initialize(boot_image: &[u8], cartridge_image: &[u8]) -> (result: Result<
        Memory,
        ImageError,
    >)
        ensures
            match result {
                Ok(memory) => {
                    &&& boot_image@.len() == BOOT_SIZE
                    &&& cartridge_image@.len() >= CARTRIDGE_SIZE
                    &&& memory.bus() == (BusState {
                        boot: boot_image@,
                        cartridge: cartridge_image@.subrange(0, CARTRIDGE_SIZE as int),
                        general: Seq::new(GENERAL_SIZE as nat, |i: int| 0u8),
                        boot_enabled: true,
                    })
                },
                Err(ImageError::BootImageSize(length)) => {
                    &&& boot_image@.len() != BOOT_SIZE
                    &&& length == boot_image@.len()
                },
                Err(ImageError::CartridgeImageSize(length)) => {
                    &&& boot_image@.len() == BOOT_SIZE
                    &&& cartridge_image@.len() < CARTRIDGE_SIZE
                    &&& length == cartridge_image@.len()
                },
            },
    {
        if boot_image.len() != BOOT_SIZE {
            return Err(ImageError::BootImageSize(boot_image.len()));
        }
        if cartridge_image.len() < CARTRIDGE_SIZE {
            return Err(ImageError::CartridgeImageSize(cartridge_image.len()));
        }
        let mut bios: [u8; 256] = [0u8; 256];
        let mut i: usize = 0;
        while i < BOOT_SIZE
            invariant
                i <= BOOT_SIZE,
                boot_image@.len() == BOOT_SIZE,
                forall|k: int| 0 <= k < i ==> bios@[k] == boot_image@[k],
            decreases BOOT_SIZE - i,
        {
            bios[i] = boot_image[i];
            i += 1;
        }
        let mut rom: [u8; 16384] = [0u8; 16384];
        let mut j: usize = 0;
        while j < CARTRIDGE_SIZE
            invariant
                j <= CARTRIDGE_SIZE,
                cartridge_image@.len() >= CARTRIDGE_SIZE,
                forall|k: int| 0 <= k < j ==> rom@[k] == cartridge_image@[k],
            decreases CARTRIDGE_SIZE - j,
        {
            rom[j] = cartridge_image[j];
            j += 1;
        }
        let memory = Memory { bios, rom, the_rest: [0u8; 49152], bios_enabled: true };
        assert(memory.bus().boot =~= boot_image@);
        assert(memory.bus().cartridge =~= cartridge_image@.subrange(0, CARTRIDGE_SIZE as int));
        assert(memory.bus().general =~= Seq::new(GENERAL_SIZE as nat, |i: int| 0u8));
        Ok(memory)
    }

    /// Every region of this bus has its size.
    pub proof fn lemma_bus_wf(&self)
        ensures
            self.bus().wf(),
    {
    }
}

impl MemoryAccess for Memory {
    closed spec fn bus(&self) -> BusState {
        BusState {
            boot: self.bios@,
            cartridge: self.rom@,
            general: self.the_rest@,
            boot_enabled: self.bios_enabled,
        }
    }

    fn read_byte(&self, addr: u16) -> (value: u8) {
        let (region, offset) = resolve(addr, self.bios_enabled);
        match region {
            Region::Boot => self.bios[offset],
            Region::Cartridge => self.rom[offset],
            Region::General => self.the_rest[offset],
        }
    }

    fn read_word(&self, addr: u16) -> (value: u16) {
        let low: u8 = self.read_byte(addr);
        let high: u8 = self.read_byte(addr.wrapping_add(1));
        concatenate(high, low)
    }

    fn write_byte(&mut self, addr: u16, value: u8) {
        let (region, offset) = resolve(addr, self.bios_enabled);
        match region {
            Region::Boot => {
                self.bios[offset] = value;
            },
            Region::Cartridge => {
                self.rom[offset] = value;
            },
            Region::General => {
                self.the_rest[offset] = value;
            },
        }
        if addr == UNMAP_REGISTER {
            self.bios_enabled = false;
        }
    }

    fn write_word(&mut self, addr: u16, value: u16) {
        self.write_byte(addr, lower_eight_bits(value));
        self.write_byte(addr.wrapping_add(1), upper_eight_bits(value));
    }
}

/// Every address resolves to one place, inside its region, and two addresses
/// never resolve to the same place.
pub proof fn lemma_regions_partition(first: u16, second: u16, boot_enabled: bool)
    ensures
        0 <= spec_offset(first, boot_enabled) < region_size(spec_region(first, boot_enabled)),
        first != second ==> spec_region(first, boot_enabled) != spec_region(second, boot_enabled)
            || spec_offset(first, boot_enabled) != spec_offset(second, boot_enabled),
{
}

/// A byte that was written is the byte read at the same address.
pub proof fn lemma_write_then_read_byte(bus: BusState, addr: u16, value: u8)
    requires
        bus.wf(),
    ensures
        bus_write(bus, addr, value).wf(),
        bus_read(bus_write(bus, addr, value), addr) == value,
{
}

/// A write leaves the byte at every other address as it was, unless the
/// write unmaps the boot image and the other address lies under it.
pub proof fn lemma_write_keeps_other_bytes(bus: BusState, addr: u16, value: u8, other: u16)
    requires
        bus.wf(),
        other != addr,
        addr != UNMAP_REGISTER || other >= BOOT_SIZE || !bus.boot_enabled,
    ensures
        bus_read(bus_write(bus, addr, value), other) == bus_read(bus, other),
{
}

/// A word that was written is the word read at the same address, wherever
/// the two bytes fall.
pub proof fn lemma_write_then_read_word(bus: BusState, addr: u16, value: u16)
    requires
        bus.wf(),
    ensures
        bus_write_word(bus, addr, value).wf(),
        bus_read_word(bus_write_word(bus, addr, value), addr) == value,
{
    let low = spec_lower_eight_bits(value);
    let high = spec_upper_eight_bits(value);
    let after_low = bus_write(bus, addr, low);
    let after_high = bus_write(after_low, next_address(addr), high);
    lemma_write_then_read_byte(bus, addr, low);
    lemma_write_then_read_byte(after_low, next_address(addr), high);
    assert(bus_read(after_high, addr) == low);
}

} // verus!
