use chip8::emulator::{Address, Chip8State, Register};
use chip8::opcodes::{
    AddIndexRegister, AddRegisterConst, AddRegisters, BinaryAnd, BinaryOr, BinaryXor,
    DecimalDecoding, GetKey, Jump, JumpOffset, LoadMemory, OpCodeData, OpCodeReader,
    ReadDelayTimer, ReadFontCharacter, SetDelayTimer, SetIndexRegister, SetRegisterConst,
    SetRegisterRegister, SetSoundTimer, ShiftRegisterLeft, ShiftRegisterRight, SkipConstEqual,
    SkipConstNotEqual, SkipIfKey, SkipIfNotKey, SkipRegistersEqual, SkipRegistersNotEqual,
    StoreMemory, SubroutineCall, SubroutineReturn, SubtractRegisters, SubtractRegistersReverse,
};
use std::collections::VecDeque;

#[test]
fn opcodes_test_decode() {
    let decoded = OpCodeData::decode(0x1B3D);

    assert_eq!(
        decoded,
        OpCodeData {
            full_opcode: 0x1B3D,
            x: 0x0B,
            y: 0x03,
            n: 0x0D,
            nn: 0x3D,
            nnn: 0xB3D,
        }
    );
}

#[test]
fn test_jump() {
    let jump_reader = Jump;
    let mut state = Chip8State::new().with_pc(Address(100));
    let correct_state = state.clone().with_pc(Address(0x1de));
    jump_reader.execute(&mut state, OpCodeData::decode(0x11de));
    assert_eq!(state, correct_state);
}

#[test]
fn test_set_register_const() {
    let sr_reader = SetRegisterConst;
    let mut state = Chip8State::new().with_register(Register(0xef), 2);
    let correct_state = state.clone().with_register(Register(0x12), 2);
    sr_reader.execute(&mut state, OpCodeData::decode(0x6212));
    assert_eq!(state, correct_state);
}

#[test]
fn test_add_register_const() {
    let ar_reader = AddRegisterConst;
    let mut state = Chip8State::new().with_register(Register(0x43), 0x0a);
    let correct_state = state.clone().with_register(Register(0x7d), 0x0a);
    ar_reader.execute(&mut state, OpCodeData::decode(0x7a3a));
    assert_eq!(state, correct_state);
}

#[test]
fn test_set_index_register() {
    let sir_reader = SetIndexRegister;
    let mut state = Chip8State::new().with_index_register(Address(0x001));
    let correct_state = state.clone().with_index_register(Address(0x0123));
    sir_reader.execute(&mut state, OpCodeData::decode(0xA123));
    assert_eq!(state, correct_state);
}

#[test]
fn test_subroutine_call() {
    let subroutine_call_reader = SubroutineCall;
    let mut state = Chip8State::new().with_pc(Address(0x100));
    let correct_state = state
        .clone()
        .with_pc(Address(0x123))
        .with_stack([Address(0x100)].into_iter().collect());
    subroutine_call_reader.execute(&mut state, OpCodeData::decode(0x2123));
    assert_eq!(state, correct_state);
}

#[test]
fn test_subroutine_return() {
    let subroutine_return_reader = SubroutineReturn;
    let mut state = Chip8State::new()
        .with_pc(Address(0x123))
        .with_stack([Address(0x100)].into_iter().collect());
    let correct_state = state
        .clone()
        .with_pc(Address(0x100))
        .with_stack(VecDeque::default());
    subroutine_return_reader.execute(&mut state, OpCodeData::decode(0x00EE));
    assert_eq!(state, correct_state);
}

#[test]
fn test_skip_const_equal() {
    let skip_const_equal_reader = SkipConstEqual;
    let original_state = Chip8State::new()
        .with_pc(Address(0x100))
        .with_register(Register(0x5A), 0x3);
    let skip_state = original_state.clone().with_pc(Address(0x102));

    // Case with skip
    {
        let mut state = original_state.clone();
        skip_const_equal_reader.execute(&mut state, OpCodeData::decode(0x335A));
        assert_eq!(state, skip_state);
    }

    // Case without skip
    {
        let mut state = original_state.clone();
        skip_const_equal_reader.execute(&mut state, OpCodeData::decode(0x334A));
        assert_eq!(state, original_state);
    }
}

#[test]
fn test_skip_const_not_equal() {
    let skip_const_not_equal_reader = SkipConstNotEqual;
    let original_state = Chip8State::new()
        .with_pc(Address(0x100))
        .with_register(Register(0x5A), 0x3);
    let skip_state = original_state.clone().with_pc(Address(0x102));

    // Case with skip
    {
        let mut state = original_state.clone();
        skip_const_not_equal_reader.execute(&mut state, OpCodeData::decode(0x434A));
        assert_eq!(state, skip_state);
    }

    // Case without skip
    {
        let mut state = original_state.clone();
        skip_const_not_equal_reader.execute(&mut state, OpCodeData::decode(0x435A));
        assert_eq!(state, original_state);
    }
}

#[test]
fn test_skip_registers_equal() {
    let skip_registers_equal_reader = SkipRegistersEqual;
    let original_state = Chip8State::new()
        .with_pc(Address(0x100))
        .with_register(Register(0x5A), 0x3)
        .with_register(Register(0x5A), 0x4)
        .with_register(Register(0x4B), 0x5);
    let skip_state = original_state.clone().with_pc(Address(0x102));

    // Case with skip
    {
        let mut state = original_state.clone();
        skip_registers_equal_reader.execute(&mut state, OpCodeData::decode(0x5340));
        assert_eq!(state, skip_state);
    }

    // Case without skip
    {
        let mut state = original_state.clone();
        skip_registers_equal_reader.execute(&mut state, OpCodeData::decode(0x5350));
        assert_eq!(state, original_state);
    }
}

#[test]
fn test_skip_registers_not_equal() {
    let skip_registers_not_equal_reader = SkipRegistersNotEqual;
    let original_state = Chip8State::new()
        .with_pc(Address(0x100))
        .with_register(Register(0x5A), 0x3)
        .with_register(Register(0x5A), 0x4)
        .with_register(Register(0x4B), 0x5);
    let skip_state = original_state.clone().with_pc(Address(0x102));

    // Case with skip
    {
        let mut state = original_state.clone();
        skip_registers_not_equal_reader.execute(&mut state, OpCodeData::decode(0x9350));
        assert_eq!(state, skip_state);
    }

    // Case without skip
    {
        let mut state = original_state.clone();
        skip_registers_not_equal_reader.execute(&mut state, OpCodeData::decode(0x9340));
        assert_eq!(state, original_state);
    }
}

#[test]
fn test_set_register_register() {
    let set_register_register_reader = SetRegisterRegister;
    let mut state = Chip8State::new()
        .with_pc(Address(0x100))
        .with_register(Register(0x9C), 0x2)
        .with_register(Register(0xC6), 0x3);
    let correct_state = state.clone().with_register(Register(0xC6), 0x02);
    set_register_register_reader.execute(&mut state, OpCodeData::decode(0x8230));
    assert_eq!(state, correct_state);
}

#[test]
fn test_binary_or() {
    let binary_or_reader = BinaryOr;
    let mut state = Chip8State::new()
        .with_pc(Address(0x100))
        .with_register(Register(0x9C), 0x2)
        .with_register(Register(0xC6), 0x3);
    let correct_state = state.clone().with_register(Register(0xDE), 0x02);
    binary_or_reader.execute(&mut state, OpCodeData::decode(0x8231));
    assert_eq!(state, correct_state);
}

#[test]
fn test_binary_and() {
    let binary_and_reader = BinaryAnd;
    let mut state = Chip8State::new()
        .with_pc(Address(0x100))
        .with_register(Register(0x9C), 0x2)
        .with_register(Register(0xC6), 0x3);
    let correct_state = state.clone().with_register(Register(0x84), 0x02);
    binary_and_reader.execute(&mut state, OpCodeData::decode(0x8232));
    assert_eq!(state, correct_state);
}

#[test]
fn test_binary_xor() {
    let binary_xor_reader = BinaryXor;
    let mut state = Chip8State::new()
        .with_pc(Address(0x100))
        .with_register(Register(0x9C), 0x2)
        .with_register(Register(0xC6), 0x3);
    let correct_state = state.clone().with_register(Register(0x5A), 0x02);
    binary_xor_reader.execute(&mut state, OpCodeData::decode(0x8233));
    assert_eq!(state, correct_state);
}

fn check_add_registers(a: u8, b: u8, result: u8, overflows: bool, vf_value: u8) {
    let add_registers_reader = AddRegisters;
    let mut state = Chip8State::new()
        .with_pc(Address(0x100))
        .with_register(Register(a), 0x2)
        .with_register(Register(b), 0x3)
        .with_register(Register(vf_value), 0xf);
    let correct_state = state
        .clone()
        .with_register(Register(result), 0x2)
        .with_register(Register(if overflows { 0x01 } else { 0x00 }), 0xF);
    add_registers_reader.execute(&mut state, OpCodeData::decode(0x8234));
    assert_eq!(state, correct_state);
}

#[test]
fn test_add_registers() {
    check_add_registers(0x4B, 0x17, 0x62, false, 0x00);
    check_add_registers(0xA2, 0x7F, 0x21, true, 0x00);
    check_add_registers(0x4B, 0x17, 0x62, false, 0xDF);
    check_add_registers(0xA2, 0x7F, 0x21, true, 0xDF);
}

// Note here that result should be a = a - b (aka X = X - Y)
fn check_subtract_registers(a: u8, b: u8, result: u8, underflows: bool, vf_value: u8) {
    let subtract_registers_reader = SubtractRegisters;
    let mut state = Chip8State::new()
        .with_pc(Address(0x100))
        .with_register(Register(a), 0x2)
        .with_register(Register(b), 0x3)
        .with_register(Register(vf_value), 0xf);
    let correct_state = state
        .clone()
        .with_register(Register(result), 0x2)
        .with_register(Register(if underflows { 0x01 } else { 0x00 }), 0xF);
    subtract_registers_reader.execute(&mut state, OpCodeData::decode(0x8235));
    assert_eq!(state, correct_state);
}

#[test]
fn test_subtract_registers() {
    check_subtract_registers(0xC3, 0x4D, 0x76, true, 0x00);
    check_subtract_registers(0x11, 0xCA, 0x47, false, 0x00);
    check_subtract_registers(0xC3, 0x4D, 0x76, true, 0xDF);
    check_subtract_registers(0x11, 0xCA, 0x47, false, 0xDF);
}

// Note here that result should be a = b - a (aka X = Y - X)
fn check_subtract_registers_reverse(a: u8, b: u8, result: u8, underflows: bool, vf_value: u8) {
    let subtract_registers_reverse_reader = SubtractRegistersReverse;
    let mut state = Chip8State::new()
        .with_pc(Address(0x100))
        .with_register(Register(a), 0x2)
        .with_register(Register(b), 0x3)
        .with_register(Register(vf_value), 0xf);
    let correct_state = state
        .clone()
        .with_register(Register(result), 0x2)
        .with_register(Register(if underflows { 0x01 } else { 0x00 }), 0xF);
    subtract_registers_reverse_reader.execute(&mut state, OpCodeData::decode(0x8237));
    assert_eq!(state, correct_state);
}

#[test]
fn test_subtract_registers_reverse() {
    check_subtract_registers_reverse(0x4D, 0xC3, 0x76, true, 0x00);
    check_subtract_registers_reverse(0xCA, 0x11, 0x47, false, 0x00);
    check_subtract_registers_reverse(0x4D, 0xC3, 0x76, true, 0xDF);
    check_subtract_registers_reverse(0xCA, 0x11, 0x47, false, 0xDF);
}

fn check_shift_register_right(val: u8, result: u8, bit_shifted: bool, vf_value: u8) {
    let shift_register_right_reader = ShiftRegisterRight;
    let mut state = Chip8State::new()
        .with_register(Register(val), 0x7)
        .with_register(Register(vf_value), 0xf);
    let correct_state = state
        .clone()
        .with_register(Register(result), 0x7)
        .with_register(Register(if bit_shifted { 0x01 } else { 0x00 }), 0xF);
    shift_register_right_reader.execute(&mut state, OpCodeData::decode(0x8706));
    assert_eq!(state, correct_state);
}

#[test]
fn test_shift_register_right() {
    check_shift_register_right(0x9C, 0x4E, false, 0x00);
    check_shift_register_right(0x59, 0x2C, true, 0x00);
    check_shift_register_right(0x9C, 0x4E, false, 0xDF);
    check_shift_register_right(0x59, 0x2C, true, 0xDF);
}

fn check_shift_register_left(val: u8, result: u8, bit_shifted: bool, vf_value: u8) {
    let shift_register_left_reader = ShiftRegisterLeft;
    let mut state = Chip8State::new()
        .with_register(Register(val), 0x7)
        .with_register(Register(vf_value), 0xf);
    let correct_state = state
        .clone()
        .with_register(Register(result), 0x7)
        .with_register(Register(if bit_shifted { 0x01 } else { 0x00 }), 0xF);
    shift_register_left_reader.execute(&mut state, OpCodeData::decode(0x870E));
    assert_eq!(state, correct_state);
}

#[test]
fn test_shift_register_left() {
    check_shift_register_left(0x59, 0xB2, false, 0x00);
    check_shift_register_left(0x9C, 0x38, true, 0x00);
    check_shift_register_left(0x59, 0xB2, false, 0xDF);
    check_shift_register_left(0x9C, 0x38, true, 0xDF);
}

#[test]
fn test_jump_offset() {
    let jump_offset_reader = JumpOffset;
    let mut state = Chip8State::new()
        .with_pc(Address(0x100))
        .with_register(Register(0x12), 0x0);
    let correct_state = state.clone().with_pc(Address(0x266));
    jump_offset_reader.execute(&mut state, OpCodeData::decode(0xB154));
    assert_eq!(state, correct_state);
}

fn check_skip_if_key(key_pressed: u8, key_checked: u8, expected_pc: u16) {
    let skip_if_key_reader = SkipIfKey;
    let mut state = Chip8State::new()
        .with_pc(Address(0x100))
        .with_key_pressed(key_pressed)
        .with_register(Register(key_checked), 0x5);
    let correct_state = state.clone().with_pc(Address(expected_pc));
    skip_if_key_reader.execute(&mut state, OpCodeData::decode(0xE59E));
    assert_eq!(state, correct_state);
}

#[test]
fn test_skip_if_key() {
    check_skip_if_key(0xA, 0x1, 0x100);
    check_skip_if_key(0xF, 0xF, 0x102);
}

fn check_skip_if_not_key(key_pressed: u8, key_checked: u8, expected_pc: u16) {
    let skip_if_not_key_reader = SkipIfNotKey;
    let mut state = Chip8State::new()
        .with_pc(Address(0x100))
        .with_key_pressed(key_pressed)
        .with_register(Register(key_checked), 0x5);
    let correct_state = state.clone().with_pc(Address(expected_pc));
    skip_if_not_key_reader.execute(&mut state, OpCodeData::decode(0xE5A1));
    assert_eq!(state, correct_state);
}

#[test]
fn test_skip_if_not_key() {
    check_skip_if_not_key(0xA, 0x1, 0x102);
    check_skip_if_not_key(0xF, 0xF, 0x100);
}

#[test]
fn test_read_delay_timer() {
    let read_delay_timer_reader = ReadDelayTimer;
    let mut state = Chip8State::new().with_delay_timer(Register(0x9F));
    let correct_state = state.clone().with_register(Register(0x9F), 0x5);
    read_delay_timer_reader.execute(&mut state, OpCodeData::decode(0xF507));
    assert_eq!(state, correct_state);
}

#[test]
fn test_set_delay_timer() {
    let set_delay_timer_reader = SetDelayTimer;
    let mut state = Chip8State::new().with_register(Register(0x9F), 0x4);
    let correct_state = state.clone().with_delay_timer(Register(0x9F));
    set_delay_timer_reader.execute(&mut state, OpCodeData::decode(0xF415));
    assert_eq!(state, correct_state);
}

#[test]
fn test_set_sound_timer() {
    let set_sound_timer_reader = SetSoundTimer;
    let mut state = Chip8State::new().with_register(Register(0x9F), 0x2);
    let correct_state = state.clone().with_sound_timer(Register(0x9F));
    set_sound_timer_reader.execute(&mut state, OpCodeData::decode(0xF218));
    assert_eq!(state, correct_state);
}

fn check_add_index_register(idx_val: u16, register_val: u8, result: u16, overflows: bool) {
    let add_index_register_reader = AddIndexRegister;
    let mut state = Chip8State::new()
        .with_register(Register(register_val), 0xA)
        .with_index_register(Address(idx_val));
    let correct_state = state
        .clone()
        .with_index_register(Address(result))
        .with_register(Register(if overflows { 0x1 } else { 0x0 }), 0xF);
    add_index_register_reader.execute(&mut state, OpCodeData::decode(0xFA1E));
    assert_eq!(state, correct_state);
}

#[test]
fn test_add_index_register() {
    check_add_index_register(0x11F, 0xA5, 0x1C4, false);
    check_add_index_register(0xFAF, 0xA5, 0x1054, true);
}

fn check_get_key(pressed_key: u8, checked_key: u8, expected_pc: u16) {
    let get_key_reader = GetKey;
    let mut state = Chip8State::new()
        .with_pc(Address(0x100))
        .with_key_pressed(pressed_key)
        .with_register(Register(checked_key), 0xD);
    let correct_state = state.clone().with_pc(Address(expected_pc));
    get_key_reader.execute(&mut state, OpCodeData::decode(0xFD0A));
    assert_eq!(state, correct_state);
}

#[test]
fn test_get_key() {
    check_get_key(0xD, 0x2, 0xFE);
    check_get_key(0x5, 0x5, 0x100);
}

#[test]
fn test_read_font_character() {
    let read_font_character_reader = ReadFontCharacter;
    let mut state = Chip8State::new().with_register(Register(0x7), 0xB);
    // We expect our font to be loaded starting at address 0x50, and each
    // "character" is 5 bytes long, so 0x50 + (0x7 * 0x5) = 0x73
    let correct_state = state.clone().with_index_register(Address(0x073));
    read_font_character_reader.execute(&mut state, OpCodeData::decode(0xFB29));
    assert_eq!(state, correct_state);
}

fn check_decimal_decoding(value: u8, digits: &[u8; 3], address: u16) {
    let decimal_decoding_reader = DecimalDecoding;
    let mut state = Chip8State::new()
        .with_register(Register(value), 0x8)
        .with_index_register(Address(address));
    let correct_state = state.clone().with_memory_set(digits, Address(address));
    decimal_decoding_reader.execute(&mut state, OpCodeData::decode(0xF833));
    assert_eq!(state, correct_state);
}

#[test]
fn test_decimal_decoding() {
    check_decimal_decoding(255, &[2, 5, 5], 0x123);
    check_decimal_decoding(13, &[0, 1, 3], 0x200);
    check_decimal_decoding(9, &[0, 0, 9], 0xDFF);
}

const SAMPLE_DATA: &[u8] = &[
    0xDE, 0x11, 0x22, 0x33, 0x44, 0x55, 0x66, 0x77, 0x88, 0x99, 0xAA, 0xBB, 0xCC, 0xDD, 0xEE,
    0xFF,
];

fn check_store_memory(address: u16, register: u8) {
    let store_memory_reader = StoreMemory;
    let mut state = Chip8State::new()
        .with_index_register(Address(address))
        .with_register(Register(0xDE), 0x0)
        .with_register(Register(0x11), 0x1)
        .with_register(Register(0x22), 0x2)
        .with_register(Register(0x33), 0x3)
        .with_register(Register(0x44), 0x4)
        .with_register(Register(0x55), 0x5)
        .with_register(Register(0x66), 0x6)
        .with_register(Register(0x77), 0x7)
        .with_register(Register(0x88), 0x8)
        .with_register(Register(0x99), 0x9)
        .with_register(Register(0xAA), 0xA)
        .with_register(Register(0xBB), 0xB)
        .with_register(Register(0xCC), 0xC)
        .with_register(Register(0xDD), 0xD)
        .with_register(Register(0xEE), 0xE)
        .with_register(Register(0xFF), 0xF);
    let correct_state = state
        .clone()
        .with_memory_set(&SAMPLE_DATA[..=usize::from(register)], Address(address));
    store_memory_reader.execute(
        &mut state,
        OpCodeData::decode(0xF055 + u16::from(register) * 0x100),
    );
    assert_eq!(state, correct_state);
}

#[test]
fn test_store_memory() {
    check_store_memory(0x123, 0x5);
    check_store_memory(0x500, 0xF);
    check_store_memory(0xFFF, 0x0);
}

fn check_load_memory(address: u16, register: u8) {
    let load_memory_reader = LoadMemory;
    let mut state = Chip8State::new()
        .with_memory_set(&SAMPLE_DATA[..=usize::from(register)], Address(address))
        .with_index_register(Address(address));
    let mut correct_state = state.clone();
    for reg in 0..=register {
        correct_state = correct_state.with_register(Register(SAMPLE_DATA[usize::from(reg)]), reg);
    }
    load_memory_reader.execute(
        &mut state,
        OpCodeData::decode(0xF065 + u16::from(register) * 0x100),
    );
    assert_eq!(state, correct_state);
}

#[test]
fn test_load_memory() {
    check_load_memory(0x123, 0x5);
    check_load_memory(0xFFF, 0x0);
    check_load_memory(0x500, 0xF);
}

#[test]
fn test_jump_offset_wraps_at_16_bits() {
    // Address arithmetic wraps at 16 bits, not at the 12-bit architectural
    // address space.
    let jump_offset_reader = JumpOffset;
    let mut state = Chip8State::new()
        .with_pc(Address(0xF000))
        .with_register(Register(0xFF), 0x0);
    let correct_state = state.clone().with_pc(Address(0x00FE));
    jump_offset_reader.execute(&mut state, OpCodeData::decode(0xBFFF));
    assert_eq!(state, correct_state);
}

#[test]
fn test_get_key_rewind_wraps_at_16_bits() {
    let get_key_reader = GetKey;
    let mut state = Chip8State::new()
        .with_pc(Address(0x0000))
        .with_register(Register(0x4), 0x1);
    let correct_state = state.clone().with_pc(Address(0xFFFE));
    get_key_reader.execute(&mut state, OpCodeData::decode(0xF10A));
    assert_eq!(state, correct_state);
}
