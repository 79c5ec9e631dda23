use chip8::display::{Coordinates, Display};
use chip8::emulator::{Address, Chip8State, Register};
use chip8::opcodes::{ClearScreen, DisplayDraw, OpCodeData, OpCodeReader};

fn render(display: &Display) -> Vec<String> {
    display
        .pixels
        .iter()
        .map(|row| row.iter().map(|p| if *p { '█' } else { ' ' }).collect())
        .collect()
}

fn row_with(start: usize, pattern: &str) -> String {
    let len = pattern.chars().count();
    let mut row = " ".repeat(start);
    row.push_str(pattern);
    row.push_str(&" ".repeat(64 - start - len));
    row
}

fn expected_rows(overrides: &[(usize, usize, &str)]) -> Vec<String> {
    let mut rows: Vec<String> = (0..32).map(|_| " ".repeat(64)).collect();
    for (y, start, pattern) in overrides {
        rows[*y] = row_with(*start, pattern);
    }
    rows
}

fn get_draw_state() -> Chip8State {
    let display = {
        let mut display = Display::default();
        display.flip_all(Coordinates::new(52, 10), Coordinates::new(61, 19));
        display
    };
    let state = Chip8State::new()
        .with_display(display)
        .with_index_register(Address(0x300))
        .with_register(Register(56), 2) // Stores X
        .with_register(Register(8), 3) // Stores Y
        // The sprite we store (all sprites are 8 pixels in width):
        // ████ ███  (0b11110111 = 0xF7)
        // █  █  ██  (0b10010011 = 0x93)
        // ██ █████  (0b11011111 = 0xDF)
        .with_memory_set(&[0xF7, 0x93, 0xDF], Address(0x300))
        // "random" data to ensure we don't read past end
        .with_memory_set(&[0xAB, 0x41, 0x9A], Address(0x303));

    // Currently we have a box of 10x10 starting at 52,10
    let expected = expected_rows(&[
        (10, 52, "██████████"),
        (11, 52, "██████████"),
        (12, 52, "██████████"),
        (13, 52, "██████████"),
        (14, 52, "██████████"),
        (15, 52, "██████████"),
        (16, 52, "██████████"),
        (17, 52, "██████████"),
        (18, 52, "██████████"),
        (19, 52, "██████████"),
    ]);
    assert_eq!(render(&state.display), expected);

    state
}

#[test]
fn test_clear_screen() {
    let cs_reader = ClearScreen;
    let mut state = Chip8State::new();
    for row in state.display.pixels.iter_mut() {
        for pixel in row.iter_mut() {
            *pixel = rand::random();
        }
    }
    cs_reader.execute(&mut state, OpCodeData::decode(0x00e0));
    let blank: Vec<String> = (0..32).map(|_| " ".repeat(64)).collect();
    assert_eq!(render(&state.display), blank);
}

#[test]
fn test_display_draw_basic() {
    let mut state = get_draw_state();
    let d_reader = DisplayDraw;
    // Basic case: draw from 56,8 and confirm the sprite lands XORed onto the
    // box.
    d_reader.execute(&mut state, OpCodeData::decode(0xD233));

    let after = expected_rows(&[
        (8, 56, "████ ███"),
        (9, 56, "█  █  ██"),
        (10, 52, "████  █   ██"),
        (11, 52, "██████████"),
        (12, 52, "██████████"),
        (13, 52, "██████████"),
        (14, 52, "██████████"),
        (15, 52, "██████████"),
        (16, 52, "██████████"),
        (17, 52, "██████████"),
        (18, 52, "██████████"),
        (19, 52, "██████████"),
    ]);
    assert_eq!(render(&state.display), after);
}

#[test]
fn test_display_draw_coordinate_wraps() {
    let d_reader = DisplayDraw;
    // This time we draw from x=120 (120 = 56 + 64), and y = 136 (8 + 4*32).
    // Should draw the exact same diagram.
    let mut state = get_draw_state()
        .with_register(Register(120), 2) // x
        .with_register(Register(136), 3); // y

    d_reader.execute(&mut state, OpCodeData::decode(0xD233));

    let after = expected_rows(&[
        (8, 56, "████ ███"),
        (9, 56, "█  █  ██"),
        (10, 52, "████  █   ██"),
        (11, 52, "██████████"),
        (12, 52, "██████████"),
        (13, 52, "██████████"),
        (14, 52, "██████████"),
        (15, 52, "██████████"),
        (16, 52, "██████████"),
        (17, 52, "██████████"),
        (18, 52, "██████████"),
        (19, 52, "██████████"),
    ]);
    assert_eq!(render(&state.display), after);
}

#[test]
fn test_display_draw_sprite_truncates() {
    let d_reader = DisplayDraw;
    let mut state = get_draw_state()
        .with_register(Register(57), 2) // x coordinate
        .with_register(Register(8), 3); // y coordinate

    // We draw from 57,8, so the sprite truncates at the right edge instead
    // of wrapping.
    d_reader.execute(&mut state, OpCodeData::decode(0xD233));

    let after = expected_rows(&[
        (8, 57, "████ ██"),
        (9, 57, "█  █  █"),
        (10, 52, "█████  █  ██"),
        (11, 52, "██████████"),
        (12, 52, "██████████"),
        (13, 52, "██████████"),
        (14, 52, "██████████"),
        (15, 52, "██████████"),
        (16, 52, "██████████"),
        (17, 52, "██████████"),
        (18, 52, "██████████"),
        (19, 52, "██████████"),
    ]);
    assert_eq!(render(&state.display), after);
}

#[test]
fn test_display_draw_bottom_truncates() {
    let d_reader = DisplayDraw;
    // Anchored on the last row: only the first sprite row may land, the rest
    // falls off the bottom edge and is cut, not wrapped.
    let mut state = get_draw_state()
        .with_register(Register(4), 2) // x coordinate
        .with_register(Register(31), 3); // y coordinate

    d_reader.execute(&mut state, OpCodeData::decode(0xD233));

    let mut after = expected_rows(&[
        (10, 52, "██████████"),
        (11, 52, "██████████"),
        (12, 52, "██████████"),
        (13, 52, "██████████"),
        (14, 52, "██████████"),
        (15, 52, "██████████"),
        (16, 52, "██████████"),
        (17, 52, "██████████"),
        (18, 52, "██████████"),
        (19, 52, "██████████"),
    ]);
    after[31] = row_with(4, "████ ███");
    assert_eq!(render(&state.display), after);
}

#[test]
fn test_clear_all_pixels_off() {
    let mut display = Display::default();
    display.flip_all(Coordinates::new(3, 5), Coordinates::new(40, 20));
    display.clear();
    for y in 0..32 {
        for x in 0..64 {
            assert!(!display.pixels[y][x]);
        }
    }
}

#[test]
fn test_sprite_draw_is_xor_involution() {
    let mut display = Display::default();
    display.flip_all(Coordinates::new(52, 10), Coordinates::new(61, 19));
    let before = display.clone();
    let sprite = [0xF7u8, 0x93, 0xDF];
    display.apply_sprite(&sprite, Coordinates::new(56, 8));
    assert_ne!(display, before);
    display.apply_sprite(&sprite, Coordinates::new(56, 8));
    assert_eq!(display, before);
}

#[test]
fn test_sprite_zero_bits_leave_pixels() {
    // A sprite byte of 0x00 must not blank out pixels that are already on.
    let mut display = Display::default();
    display.flip_all(Coordinates::new(0, 0), Coordinates::new(7, 0));
    let before = display.clone();
    display.apply_sprite(&[0x00], Coordinates::new(0, 0));
    assert_eq!(display, before);
}
