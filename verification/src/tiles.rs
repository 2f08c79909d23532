//! Tile data: eight rows of eight pixels, two bytes to the row, two bits to
//! the pixel; and the picture of the whole tile set that a host can show.
//!
//! The first byte of a row holds the low bit of each pixel's colour, the
//! second byte the high bit; bit 7 is the leftmost pixel.

use vstd::prelude::*;
use crate::bits::{read_bit, spec_read_bit};
use crate::memory::{bus_read, next_address, BusState};

verus! {

/// The address of the first tile's pixel data. A tile takes 16 bytes.
pub const TILE_DATA: u16 = 0x8000;

/// The number of tiles in the tile set picture.
pub const TILESET_TILES: usize = 384;

/// The width of the tile set picture in pixels: 16 tiles.
pub const TILESET_WIDTH: usize = 128;

/// The height of the tile set picture in pixels: 24 tiles.
pub const TILESET_HEIGHT: usize = 192;

/// The number of bytes in the tile set picture: four to the pixel.
pub const TILESET_BYTES: usize = 98304;

/// The brightness of one of the four colours: 0 is white, 3 is black.
pub open spec fn spec_shade(color: int) -> u8 {
    (255 - 85 * color) as u8
}

/// The colour, 0 to 3, of the pixel in column `column` of the tile row whose
/// two bytes start at `row_address`.
pub open spec fn spec_tile_color(bus: BusState, row_address: u16, column: int) -> int {
    let low = bus_read(bus, row_address);
    let high = bus_read(bus, next_address(row_address));
    let bit = (7 - column) as u8;
    (if spec_read_bit(high, bit) {
        2int
    } else {
        0
    }) + (if spec_read_bit(low, bit) {
        1int
    } else {
        0
    })
}

/// The address of the two bytes that hold row `row` of tile `tile`.
pub open spec fn spec_tile_row_address(tile: int, row: int) -> u16 {
    (TILE_DATA + 16 * tile + 2 * row) as u16
}

/// The colour of the pixel at (`x`, `y`) of the tile set picture, in which
/// the tiles stand sixteen to the row in the order of their numbers.
pub open spec fn spec_tileset_color(bus: BusState, x: int, y: int) -> int {
    spec_tile_color(bus, spec_tile_row_address((y / 8) * 16 + x / 8, y % 8), x % 8)
}

/// Byte `index` of the tile set picture: the pixels row by row, each as
/// red, green, blue and an alpha of 255.
pub open spec fn spec_tileset_byte(bus: BusState, index: int) -> u8 {
    let pixel = index / 4;
    if index % 4 == 3 {
        255
    } else {
        spec_shade(
            spec_tileset_color(bus, pixel % 128, pixel / 128),
        )
    }
}

/// The tile set picture.
pub open spec fn spec_tileset(bus: BusState) -> Seq<u8> {
    Seq::new(TILESET_BYTES as nat, |index: int| spec_tileset_byte(bus, index))
}

/// The tile that holds the pixel of byte `index` of the tile set picture.
pub open spec fn tile_at(index: int) -> int {
    (index / 4 / 128 / 8) * 16 + index / 4 % 128 / 8
}

/// The row within its tile of the pixel of byte `index`.
pub open spec fn row_at(index: int) -> int {
    index / 4 / 128 % 8
}

/// The column within its tile of the pixel of byte `index`.
pub open spec fn column_at(index: int) -> int {
    index / 4 % 128 % 8
}

/// The index of the first of the four bytes of a pixel, given its tile, its
/// row and its column within the tile.
pub open spec fn pixel_offset(tile: int, row: int, column: int) -> int {
    (((tile / 16) * 8 + row) * 128 + (tile % 16) * 8 + column) * 4
}

/// Whether byte `index` of the tile set picture belongs to a pixel that comes
/// before column `column` of row `row` of tile `tile`, going tile by tile,
/// row by row and column by column.
pub open spec fn drawn_before(index: int, tile: int, row: int, column: int) -> bool {
    tile_at(index) < tile || (tile_at(index) == tile && (row_at(index) < row || (row_at(index)
        == row && column_at(index) < column)))
}

/// The four bytes at a pixel's offset are the bytes of that pixel and of no
/// other.
pub proof fn lemma_pixel_offset(index: int, tile: int, row: int, column: int)
    requires
        0 <= index,
        0 <= tile < 384,
        0 <= row < 8,
        0 <= column < 8,
    ensures
        0 <= pixel_offset(tile, row, column),
        pixel_offset(tile, row, column) + 4 <= 98304,
        (pixel_offset(tile, row, column) <= index < pixel_offset(tile, row, column) + 4) <==> (
        tile_at(index) == tile && row_at(index) == row && column_at(index) == column),
        pixel_offset(tile, row, column) <= index < pixel_offset(tile, row, column) + 4 ==> index
            % 4 == index - pixel_offset(tile, row, column),
{
    let p = index / 4;
    let x = p % 128;
    let y = p / 128;
    let tx = tile % 16;
    let ty = tile / 16;
    assert(p == y * 128 + x);
    assert(x == (x / 8) * 8 + x % 8);
    assert(y == (y / 8) * 8 + y % 8);
    assert(tile == ty * 16 + tx);
    if tile_at(index) == tile && row_at(index) == row && column_at(index) == column {
        assert(y / 8 == ty && x / 8 == tx);
    }
    if pixel_offset(tile, row, column) <= index < pixel_offset(tile, row, column) + 4 {
        assert(p == (ty * 8 + row) * 128 + tx * 8 + column);
        assert(x == tx * 8 + column);
        assert(y == ty * 8 + row);
    }
}

/// The brightness of a colour.
pub fn shade(color: u8) -> (level: u8)
    requires
        color <= 3,
    ensures
        level == spec_shade(color as int),
{
    255 - 85 * color
}

/// The colour of one pixel of a tile row, given the row's two bytes.
pub fn pixel_color(low: u8, high: u8, column: u8) -> (color: u8)
    requires
        column <= 7,
    ensures
        color <= 3,
        color == (if spec_read_bit(high, (7 - column) as u8) {
            2int
        } else {
            0
        }) + (if spec_read_bit(low, (7 - column) as u8) {
            1int
        } else {
            0
        }),
{
    let bit: u8 = 7 - column;
    let mut color: u8 = 0;
    if read_bit(high, bit) {
        color = color + 2;
    }
    if read_bit(low, bit) {
        color = color + 1;
    }
    color
}

} // verus!
