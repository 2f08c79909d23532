use gameboy_core::gpu::{
    apply_memory_map, read_memory_mapped_registers, read_tile_map, render_scan, rgba, step_mode,
    Framebuffer, Gpu, Rgba, ScanMode,
};
use gameboy_core::isa::TimeIncrement;
use gameboy_core::memory::{Memory, MemoryAccess};
use gameboy_core::tiles::{pixel_color, shade};

const WHITE: Rgba = Rgba { r: 255, g: 255, b: 255, a: 255 };
const LIGHT: Rgba = Rgba { r: 170, g: 170, b: 170, a: 255 };
const DARK: Rgba = Rgba { r: 85, g: 85, b: 85, a: 255 };
const BLACK: Rgba = Rgba { r: 0, g: 0, b: 0, a: 255 };

fn picture_bus() -> Memory {
    Memory::initialize(&vec![0u8; 256], &vec![0u8; 16384]).unwrap()
}

fn picture_time(t: u8) -> TimeIncrement {
    TimeIncrement { m: t / 4, t }
}

/// Steps until a frame comes, and returns it with the number of steps taken.
fn picture_frame(gpu: &mut Gpu, memory: &mut Memory, t: u8) -> (Framebuffer, usize) {
    let mut steps = 0;
    loop {
        steps += 1;
        if let Some(frame) = gpu.step(picture_time(t), memory) {
            return (frame, steps);
        }
        assert!(steps < 1_000_000);
    }
}

#[test]
fn picture_unit_starts_in_the_object_scan_of_line_zero() {
    let gpu = Gpu::initialize();
    assert_eq!(gpu.scan_mode(), ScanMode::AccessOam);
    assert_eq!(gpu.mode_clock(), 0);
    assert_eq!(gpu.line(), 0);
    assert_eq!(gpu.scroll_y(), 0);
    assert_eq!(gpu.pixels_drawn(), 0);
}

#[test]
fn eighty_cycles_end_the_object_scan() {
    let mut gpu = Gpu::initialize();
    let mut memory = picture_bus();
    let frame = gpu.step(picture_time(80), &mut memory);
    assert!(frame.is_none());
    assert_eq!(gpu.scan_mode(), ScanMode::AccessVram);
    assert_eq!(gpu.mode_clock(), 0);
    assert_eq!(gpu.line(), 0);
}

#[test]
fn seventy_nine_cycles_do_not_end_the_object_scan() {
    let mut gpu = Gpu::initialize();
    let mut memory = picture_bus();
    let frame = gpu.step(picture_time(79), &mut memory);
    assert!(frame.is_none());
    assert_eq!(gpu.scan_mode(), ScanMode::AccessOam);
    assert_eq!(gpu.mode_clock(), 79);
    // One more cycle reaches the budget.
    gpu.step(picture_time(1), &mut memory);
    assert_eq!(gpu.scan_mode(), ScanMode::AccessVram);
    assert_eq!(gpu.mode_clock(), 0);
}

#[test]
fn at_most_one_phase_ends_in_a_step() {
    let mut gpu = Gpu::initialize();
    let mut memory = picture_bus();
    gpu.step(picture_time(255), &mut memory);
    assert_eq!(gpu.scan_mode(), ScanMode::AccessVram);
    assert_eq!(gpu.mode_clock(), 0);
    gpu.step(picture_time(255), &mut memory);
    assert_eq!(gpu.scan_mode(), ScanMode::HorizontalBlank);
    assert_eq!(gpu.mode_clock(), 0);
    assert_eq!(gpu.pixels_drawn(), 160);
    gpu.step(picture_time(255), &mut memory);
    assert_eq!(gpu.scan_mode(), ScanMode::AccessOam);
    assert_eq!(gpu.mode_clock(), 0);
    assert_eq!(gpu.line(), 1);
}

#[test]
fn phases_of_a_line_take_their_budgets() {
    let mut gpu = Gpu::initialize();
    let mut memory = picture_bus();
    for _ in 0..19 {
        gpu.step(picture_time(4), &mut memory);
        assert_eq!(gpu.scan_mode(), ScanMode::AccessOam);
    }
    gpu.step(picture_time(4), &mut memory);
    assert_eq!(gpu.scan_mode(), ScanMode::AccessVram);
    for _ in 0..42 {
        gpu.step(picture_time(4), &mut memory);
        assert_eq!(gpu.scan_mode(), ScanMode::AccessVram);
        assert_eq!(gpu.pixels_drawn(), 0);
    }
    gpu.step(picture_time(4), &mut memory);
    assert_eq!(gpu.scan_mode(), ScanMode::HorizontalBlank);
    assert_eq!(gpu.pixels_drawn(), 160);
    for _ in 0..50 {
        gpu.step(picture_time(4), &mut memory);
        assert_eq!(gpu.scan_mode(), ScanMode::HorizontalBlank);
        assert_eq!(gpu.line(), 0);
    }
    gpu.step(picture_time(4), &mut memory);
    assert_eq!(gpu.scan_mode(), ScanMode::AccessOam);
    assert_eq!(gpu.line(), 1);
    assert_eq!(gpu.mode_clock(), 0);
}

#[test]
fn one_frame_comes_every_70224_cycles() {
    let mut gpu = Gpu::initialize();
    let mut memory = picture_bus();
    for period in 0..3 {
        let mut frames = 0;
        for step in 1..=17556 {
            let frame = gpu.step(picture_time(4), &mut memory);
            if let Some(frame) = frame {
                frames += 1;
                assert_eq!(step, 16416, "period {}", period);
                assert_eq!(frame.0.len(), 160 * 144);
                assert_eq!(gpu.scan_mode(), ScanMode::VerticalBlank);
                assert_eq!(gpu.line(), 144);
                assert_eq!(gpu.pixels_drawn(), 0);
            }
            assert!(gpu.line() <= 153);
        }
        assert_eq!(frames, 1);
        assert_eq!(gpu.line(), 0);
        assert_eq!(gpu.scan_mode(), ScanMode::AccessOam);
        assert_eq!(gpu.mode_clock(), 0);
        assert_eq!(4 * 17556, (80 + 172 + 204) * 144 + 4560);
    }
}

#[test]
fn vertical_blank_takes_4560_cycles() {
    let mut gpu = Gpu::initialize();
    let mut memory = picture_bus();
    picture_frame(&mut gpu, &mut memory, 4);
    for _ in 0..1139 {
        gpu.step(picture_time(4), &mut memory);
        assert_eq!(gpu.scan_mode(), ScanMode::VerticalBlank);
        assert_eq!(gpu.line(), 144);
    }
    assert_eq!(gpu.mode_clock(), 4556);
    gpu.step(picture_time(4), &mut memory);
    assert_eq!(gpu.scan_mode(), ScanMode::AccessOam);
    assert_eq!(gpu.line(), 0);
}

#[test]
fn frame_of_empty_video_memory_is_white() {
    let mut gpu = Gpu::initialize();
    let mut memory = picture_bus();
    let (frame, _) = picture_frame(&mut gpu, &mut memory, 4);
    assert_eq!(frame.0.len(), 23040);
    assert!(frame.0.iter().all(|pixel| *pixel == WHITE));
}

#[test]
fn frames_have_the_same_size_with_uneven_steps() {
    let mut gpu = Gpu::initialize();
    let mut memory = picture_bus();
    for t in [1u8, 7, 12, 24, 255] {
        let (frame, _) = picture_frame(&mut gpu, &mut memory, t);
        assert_eq!(frame.0.len(), 23040);
    }
}

#[test]
fn scanline_is_published_on_the_bus() {
    let mut gpu = Gpu::initialize();
    let mut memory = picture_bus();
    memory.write_byte(0xFF44, 0x99);
    gpu.step(picture_time(4), &mut memory);
    assert_eq!(memory.read_byte(0xFF44), 0);
    for _ in 0..113 {
        gpu.step(picture_time(4), &mut memory);
    }
    assert_eq!(gpu.line(), 1);
    assert_eq!(memory.read_byte(0xFF44), 1);
    picture_frame(&mut gpu, &mut memory, 4);
    assert_eq!(memory.read_byte(0xFF44), 144);
}

#[test]
fn scanline_is_not_taken_from_the_bus() {
    let mut gpu = Gpu::initialize();
    let mut memory = picture_bus();
    memory.write_byte(0xFF44, 200);
    gpu.step(picture_time(4), &mut memory);
    assert_eq!(gpu.line(), 0);
    assert_eq!(memory.read_byte(0xFF44), 0);
}

#[test]
fn vertical_scroll_is_taken_from_the_bus() {
    let mut gpu = Gpu::initialize();
    let mut memory = picture_bus();
    memory.write_byte(0xFF42, 5);
    gpu.step(picture_time(4), &mut memory);
    assert_eq!(gpu.scroll_y(), 5);
    assert_eq!(memory.read_byte(0xFF42), 5);
    memory.write_byte(0xFF42, 9);
    gpu.step(picture_time(4), &mut memory);
    assert_eq!(gpu.scroll_y(), 9);
    assert_eq!(memory.read_byte(0xFF42), 9);
}

#[test]
fn register_helpers_read_and_publish() {
    let mut gpu = Gpu::initialize();
    let mut memory = picture_bus();
    memory.write_byte(0xFF42, 0x21);
    memory.write_byte(0xFF44, 0x77);
    read_memory_mapped_registers(&mut gpu, &memory);
    assert_eq!(gpu.scroll_y(), 0x21);
    assert_eq!(gpu.line(), 0);
    memory.write_byte(0xFF42, 0);
    apply_memory_map(&gpu, &mut memory);
    assert_eq!(memory.read_byte(0xFF42), 0x21);
    assert_eq!(memory.read_byte(0xFF44), 0);
}

#[test]
fn shades_of_the_four_colours() {
    assert_eq!(shade(0), 255);
    assert_eq!(shade(1), 170);
    assert_eq!(shade(2), 85);
    assert_eq!(shade(3), 0);
    assert_eq!(rgba(0), WHITE);
    assert_eq!(rgba(1), LIGHT);
    assert_eq!(rgba(2), DARK);
    assert_eq!(rgba(3), BLACK);
    assert_eq!(Rgba::default(), Rgba { r: 0, g: 0, b: 0, a: 0 });
}

#[test]
fn pixel_colour_takes_one_bit_of_each_byte() {
    assert_eq!(pixel_color(0x80, 0x00, 0), 1);
    assert_eq!(pixel_color(0x00, 0x80, 0), 2);
    assert_eq!(pixel_color(0x80, 0x80, 0), 3);
    assert_eq!(pixel_color(0x7F, 0x7F, 0), 0);
    assert_eq!(pixel_color(0x01, 0x00, 7), 1);
    assert_eq!(pixel_color(0x00, 0x01, 7), 2);
    assert_eq!(pixel_color(0xFE, 0xFE, 7), 0);
    assert_eq!(pixel_color(0b0001_0000, 0b0001_0000, 3), 3);
}

#[test]
fn tile_map_lookup() {
    let mut memory = picture_bus();
    // The cell at column 3, row 2 of the tile map names tile 5.
    memory.write_byte(0x9800 + 3 + 2 * 32, 5);
    // Row 4 of tile 5: column 0 has colour 1, column 1 colour 2, column 7 colour 3.
    memory.write_byte(0x8000 + 5 * 16 + 8, 0b1000_0001);
    memory.write_byte(0x8000 + 5 * 16 + 9, 0b0100_0001);
    assert_eq!(read_tile_map(&memory, 3, 2, 0, 4), LIGHT);
    assert_eq!(read_tile_map(&memory, 3, 2, 1, 4), DARK);
    assert_eq!(read_tile_map(&memory, 3, 2, 7, 4), BLACK);
    assert_eq!(read_tile_map(&memory, 3, 2, 2, 4), WHITE);
    assert_eq!(read_tile_map(&memory, 3, 2, 0, 3), WHITE);
    // Every other cell names tile 0, which is empty.
    assert_eq!(read_tile_map(&memory, 2, 2, 0, 4), WHITE);
    assert_eq!(read_tile_map(&memory, 3, 3, 0, 4), WHITE);
    assert_eq!(read_tile_map(&memory, 31, 31, 7, 7), WHITE);
}

#[test]
fn tile_map_rows_are_thirty_two_cells_wide() {
    let mut memory = picture_bus();
    memory.write_byte(0x9800 + 32, 1);
    memory.write_byte(0x8000 + 16, 0x80);
    assert_eq!(read_tile_map(&memory, 0, 1, 0, 0), LIGHT);
    assert_eq!(read_tile_map(&memory, 1, 0, 0, 0), WHITE);
    assert_eq!(read_tile_map(&memory, 0, 0, 0, 0), WHITE);
}

#[test]
fn render_scan_draws_line_zero() {
    let mut gpu = Gpu::initialize();
    let mut memory = picture_bus();
    memory.write_byte(0x9800, 1);
    memory.write_byte(0x9800 + 19, 2);
    memory.write_byte(0x8000 + 16, 0b1100_0000);
    memory.write_byte(0x8000 + 17, 0b0100_0000);
    memory.write_byte(0x8000 + 32, 0b0000_0001);
    render_scan(&mut gpu, &memory);
    assert_eq!(gpu.pixels_drawn(), 160);
    assert_eq!(gpu.line(), 0);
    assert_eq!(gpu.scan_mode(), ScanMode::AccessOam);
}

#[test]
fn frame_shows_the_background() {
    let mut gpu = Gpu::initialize();
    let mut memory = picture_bus();
    // Cell (0, 0) names tile 1, cell (19, 17) names tile 2.
    memory.write_byte(0x9800, 1);
    memory.write_byte(0x9800 + 19 + 17 * 32, 2);
    // Tile 1, row 0: colours 1, 3, 0, ...; row 7: colour 2 in column 7.
    memory.write_byte(0x8000 + 16, 0b1100_0000);
    memory.write_byte(0x8000 + 17, 0b0100_0000);
    memory.write_byte(0x8000 + 16 + 15, 0b0000_0001);
    // Tile 2, row 3: colour 1 in column 4.
    memory.write_byte(0x8000 + 32 + 6, 0b0000_1000);
    let (frame, _) = picture_frame(&mut gpu, &mut memory, 4);
    let at = |x: usize, y: usize| frame.0[y * 160 + x];
    assert_eq!(at(0, 0), LIGHT);
    assert_eq!(at(1, 0), BLACK);
    assert_eq!(at(2, 0), WHITE);
    assert_eq!(at(7, 7), DARK);
    assert_eq!(at(8, 0), WHITE);
    assert_eq!(at(0, 8), WHITE);
    assert_eq!(at(19 * 8 + 4, 17 * 8 + 3), LIGHT);
    assert_eq!(at(159, 143), WHITE);
    let drawn = frame.0.iter().filter(|pixel| **pixel != WHITE).count();
    assert_eq!(drawn, 4);
}

#[test]
fn vertical_scroll_moves_the_background_up() {
    let mut gpu = Gpu::initialize();
    let mut memory = picture_bus();
    memory.write_byte(0x9800, 1);
    // Tile 1, row 3, column 0: colour 3.
    memory.write_byte(0x8000 + 16 + 6, 0x80);
    memory.write_byte(0x8000 + 16 + 7, 0x80);
    memory.write_byte(0xFF42, 3);
    let (frame, _) = picture_frame(&mut gpu, &mut memory, 4);
    assert_eq!(frame.0[0], BLACK);
    assert_eq!(frame.0[3 * 160], WHITE);
}

#[test]
fn vertical_scroll_wraps_at_256_lines() {
    let mut gpu = Gpu::initialize();
    let mut memory = picture_bus();
    memory.write_byte(0x9800, 1);
    memory.write_byte(0x8000 + 16, 0x80);
    // With a scroll of 250, screen line 6 shows background line 0.
    memory.write_byte(0xFF42, 250);
    let (frame, _) = picture_frame(&mut gpu, &mut memory, 4);
    assert_eq!(frame.0[6 * 160], LIGHT);
    assert_eq!(frame.0[0], WHITE);
    let drawn = frame.0.iter().filter(|pixel| **pixel != WHITE).count();
    assert_eq!(drawn, 1);
}

#[test]
fn scanline_depends_only_on_line_scroll_and_bus() {
    let mut memory = picture_bus();
    for cell in 0..1024u16 {
        memory.write_byte(0x9800 + cell, (cell % 7) as u8);
    }
    for byte in 0..(7 * 16u16) {
        memory.write_byte(0x8000 + byte, (byte as u8).wrapping_mul(37));
    }
    memory.write_byte(0xFF42, 17);
    let mut first = Gpu::initialize();
    let (one, _) = picture_frame(&mut first, &mut memory, 4);
    let mut second = Gpu::initialize();
    let (two, _) = picture_frame(&mut second, &mut memory, 12);
    assert_eq!(one.0, two.0);
}

#[test]
fn step_mode_does_not_touch_the_bus_registers() {
    let mut gpu = Gpu::initialize();
    let mut memory = picture_bus();
    memory.write_byte(0xFF44, 0x55);
    let frame = step_mode(&mut gpu, &memory, picture_time(80));
    assert!(frame.is_none());
    assert_eq!(gpu.scan_mode(), ScanMode::AccessVram);
    assert_eq!(memory.read_byte(0xFF44), 0x55);
}
