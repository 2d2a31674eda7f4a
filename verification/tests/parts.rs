use chip8_emu_backend::{
    ticks_per_frame, Chip8Variant, DisplayMode, FrameBuffer, Opcode, Quirks, SCREEN_HEIGHT,
    SCREEN_WIDTH,
};

fn lit_in(fb: &FrameBuffer) -> Vec<(usize, usize)> {
    let mut lit = Vec::new();
    for y in 0..fb.height() {
        for x in 0..fb.width() {
            if fb.pixel(x, y) {
                lit.push((x, y));
            }
        }
    }
    lit
}

#[test]
fn quirks_of_the_base_variant() {
    let quirks = Quirks::new_variant(Chip8Variant::Chip8);
    assert!(quirks.vf_reset);
    assert!(quirks.memory);
    assert!(!quirks.shifting);
    assert!(!quirks.jumping);
}

#[test]
fn quirks_of_the_extended_variant() {
    let quirks = Quirks::new_variant(Chip8Variant::SuperChip);
    assert!(!quirks.vf_reset);
    assert!(!quirks.memory);
    assert!(quirks.shifting);
    assert!(quirks.jumping);
}

#[test]
fn steps_per_frame_by_variant() {
    assert_eq!(ticks_per_frame(Chip8Variant::Chip8), 8);
    assert_eq!(ticks_per_frame(Chip8Variant::SuperChip), 16);
}

#[test]
fn display_mode_dimensions() {
    assert_eq!(DisplayMode::LoRes.width(), 64);
    assert_eq!(DisplayMode::LoRes.height(), 32);
    assert_eq!(DisplayMode::HiRes.width(), 128);
    assert_eq!(DisplayMode::HiRes.height(), 64);
    assert_eq!(SCREEN_WIDTH, 64);
    assert_eq!(SCREEN_HEIGHT, 32);
}

#[test]
fn opcode_fields() {
    let fields = Opcode::decode(0xD123);
    assert_eq!(fields.raw, 0xD123);
    assert_eq!(fields.family, 0xD);
    assert_eq!(fields.x, 0x1);
    assert_eq!(fields.y, 0x2);
    assert_eq!(fields.n, 0x3);
    assert_eq!(fields.nn, 0x23);
    assert_eq!(fields.nnn, 0x123);
}

#[test]
fn opcode_fields_at_the_extremes() {
    let fields = Opcode::decode(0xFFFF);
    assert_eq!(
        (fields.family, fields.x, fields.y, fields.n, fields.nn, fields.nnn),
        (0xF, 0xF, 0xF, 0xF, 0xFF, 0xFFF)
    );
    let fields = Opcode::decode(0x0000);
    assert_eq!(
        (fields.family, fields.x, fields.y, fields.n, fields.nn, fields.nnn),
        (0, 0, 0, 0, 0, 0)
    );
}

#[test]
fn opcode_words_are_big_endian() {
    assert_eq!(Opcode::join(0x12, 0x34), 0x1234);
    assert_eq!(Opcode::join(0x00, 0xFF), 0x00FF);
    assert_eq!(Opcode::join(0xFF, 0x00), 0xFF00);
}

#[test]
fn a_new_framebuffer_is_blank() {
    let fb = FrameBuffer::new(DisplayMode::HiRes);
    assert_eq!(fb.mode(), DisplayMode::HiRes);
    assert_eq!(fb.width(), 128);
    assert_eq!(fb.height(), 64);
    assert_eq!(fb.cells().len(), 128 * 64);
    assert!(fb.cells().iter().all(|cell| !*cell));
}

#[test]
fn framebuffer_draw_sets_cells_in_row_major_order() {
    let mut fb = FrameBuffer::new(DisplayMode::LoRes);
    // 1010_0001 at (2, 1)
    assert!(!fb.draw(2, 1, &[0xA1], false));
    assert_eq!(lit_in(&fb), vec![(2, 1), (4, 1), (9, 1)]);
    assert!(fb.cells()[64 + 2]);
    assert!(fb.cells()[64 + 4]);
    assert!(fb.cells()[64 + 9]);
    assert_eq!(fb.cells().iter().filter(|cell| **cell).count(), 3);
}

#[test]
fn framebuffer_draw_reports_a_collision_only_for_cells_turned_off() {
    let mut fb = FrameBuffer::new(DisplayMode::LoRes);
    assert!(!fb.draw(0, 0, &[0xF0], false));
    // 0x0F touches none of the set cells
    assert!(!fb.draw(0, 0, &[0x0F], false));
    assert_eq!(lit_in(&fb).len(), 8);
    // 0x18 lies over two set cells and turns both off
    assert!(fb.draw(0, 0, &[0x18], false));
    assert_eq!(lit_in(&fb), vec![(0, 0), (1, 0), (2, 0), (5, 0), (6, 0), (7, 0)]);
}

#[test]
fn framebuffer_draw_twice_restores() {
    let mut fb = FrameBuffer::new(DisplayMode::HiRes);
    fb.draw(10, 10, &[0xFFFF, 0x8001, 0xFFFF], true);
    let before = fb.cells().to_vec();
    let rows = [0x1234, 0xFFFF, 0x0F0F, 0x8000];
    let first = fb.draw(5, 9, &rows, true);
    assert!(first);
    assert_ne!(fb.cells().to_vec(), before);
    let second = fb.draw(5, 9, &rows, true);
    assert!(second);
    assert_eq!(fb.cells().to_vec(), before);
}

#[test]
fn framebuffer_draw_wide_rows_use_sixteen_bits() {
    let mut fb = FrameBuffer::new(DisplayMode::HiRes);
    assert!(!fb.draw(0, 0, &[0x8001], true));
    assert_eq!(lit_in(&fb), vec![(0, 0), (15, 0)]);
}

#[test]
fn framebuffer_draw_narrow_rows_use_the_low_byte() {
    let mut fb = FrameBuffer::new(DisplayMode::LoRes);
    assert!(!fb.draw(0, 0, &[0xFF81], false));
    assert_eq!(lit_in(&fb), vec![(0, 0), (7, 0)]);
}

#[test]
fn framebuffer_draw_clips_and_never_wraps() {
    let mut fb = FrameBuffer::new(DisplayMode::LoRes);
    assert!(!fb.draw(60, 31, &[0xFF, 0xFF, 0xFF], false));
    assert_eq!(lit_in(&fb), vec![(60, 31), (61, 31), (62, 31), (63, 31)]);
}

#[test]
fn framebuffer_draw_off_screen_changes_nothing() {
    let mut fb = FrameBuffer::new(DisplayMode::LoRes);
    assert!(!fb.draw(64, 0, &[0xFF], false));
    assert!(!fb.draw(0, 32, &[0xFF], false));
    assert!(!fb.draw(0, 0, &[], false));
    assert!(lit_in(&fb).is_empty());
}

#[test]
fn framebuffer_clear_and_mode_change() {
    let mut fb = FrameBuffer::new(DisplayMode::LoRes);
    fb.draw(0, 0, &[0xFF], false);
    fb.clear();
    assert_eq!(fb.mode(), DisplayMode::LoRes);
    assert_eq!(fb.cells().len(), 64 * 32);
    assert!(lit_in(&fb).is_empty());
    fb.draw(0, 0, &[0xFF], false);
    fb.set_mode(DisplayMode::HiRes);
    assert_eq!(fb.mode(), DisplayMode::HiRes);
    assert_eq!(fb.cells().len(), 128 * 64);
    assert!(lit_in(&fb).is_empty());
    fb.draw(0, 0, &[0xFF], false);
    fb.set_mode(DisplayMode::HiRes);
    assert!(lit_in(&fb).is_empty());
}
