//! Rules of the front end that need no window: which key of the keyboard is
//! which key of the keypad, what a file holds, and when a debugger stops.

use crate::cpu::Breakpoint;
use crate::cpu::CPU;
use crate::cpu::pattern_matches;
use vstd::prelude::*;
use vstd::slice::slice_subrange;
use vstd::slice::slice_to_vec;
use vstd::string::*;

verus! {

/// Largest size of a file that is read at all.
pub const MAX_FILE_SIZE: u32 = 75535;

/// The key of the keypad that the key with scancode `scancode` stands for.
/// The keys `1234`, `QWER`, `ASDF` and `ZXCV` of the keyboard, by their
/// place and not their letter, are the rows `123C`, `456D`, `789E` and
/// `A0BF` of the keypad.
pub open spec fn spec_keypad_key(scancode: u32) -> Option<usize> {
    if scancode == 2 {
        Some(1usize)
    } else if scancode == 3 {
        Some(2usize)
    } else if scancode == 4 {
        Some(3usize)
    } else if scancode == 5 {
        Some(0xCusize)
    } else if scancode == 16 {
        Some(4usize)
    } else if scancode == 17 {
        Some(5usize)
    } else if scancode == 18 {
        Some(6usize)
    } else if scancode == 19 {
        Some(0xDusize)
    } else if scancode == 30 {
        Some(7usize)
    } else if scancode == 31 {
        Some(8usize)
    } else if scancode == 32 {
        Some(9usize)
    } else if scancode == 33 {
        Some(0xEusize)
    } else if scancode == 44 {
        Some(0xAusize)
    } else if scancode == 45 {
        Some(0usize)
    } else if scancode == 46 {
        Some(0xBusize)
    } else if scancode == 47 {
        Some(0xFusize)
    } else {
        None
    }
}

/// The key of the keypad that the key with scancode `scancode` stands for.
pub fn keypad_key(scancode: u32) -> (r: Option<usize>)
    ensures
        r == spec_keypad_key(scancode),
        r matches Some(key) ==> key < 16,
{
    match scancode {
        2 => Some(1),
        3 => Some(2),
        4 => Some(3),
        5 => Some(0xC),
        16 => Some(4),
        17 => Some(5),
        18 => Some(6),
        19 => Some(0xD),
        30 => Some(7),
        31 => Some(8),
        32 => Some(9),
        33 => Some(0xE),
        44 => Some(0xA),
        45 => Some(0),
        46 => Some(0xB),
        47 => Some(0xF),
        _ => None,
    }
}

/// Takes the press or release of the key with scancode `scancode` into the
/// state of the keypad.
pub fn handle_input(input: &mut [bool; 16], scancode: u32, pressed: bool)
    ensures
        final(input)@ == match spec_keypad_key(scancode) {
            Some(key) => old(input)@.update(key as int, pressed),
            None => old(input)@,
        },
{
    match keypad_key(scancode) {
        Some(key) => {
            input[key] = pressed;
        },
        None => {},
    }
}

/// What the emulator has loaded.
pub enum LoadedType {
    Nothing,
    Rom(Vec<u8>),
    State(Vec<u8>),
}

/// The three bytes that a state file starts with: `p8s`.
pub open spec fn state_magic() -> Seq<u8> {
    seq![0x70u8, 0x38u8, 0x73u8]
}

/// What a file with the bytes `file` holds: a state behind the bytes `p8s`,
/// else a ROM.
pub open spec fn spec_classify(file: Seq<u8>) -> (bool, Seq<u8>) {
    if file.len() >= 3 && file.subrange(0, 3) == state_magic() {
        (true, file.subrange(3, file.len() as int))
    } else {
        (false, file)
    }
}

/// What a file with the bytes `file` holds.
pub fn classify_file(file: &[u8]) -> (r: LoadedType)
    ensures
        match r {
            LoadedType::State(state) => spec_classify(file@) == (true, state@),
            LoadedType::Rom(rom) => spec_classify(file@) == (false, rom@),
            LoadedType::Nothing => false,
        },
{
    if file.len() >= 3 && file[0] == 0x70 && file[1] == 0x38 && file[2] == 0x73 {
        assert(file@.subrange(0, 3) =~= state_magic());
        LoadedType::State(slice_to_vec(slice_subrange(file, 3, file.len())))
    } else {
        assert(file@.len() >= 3 ==> file@.subrange(0, 3)[0] == file@[0] && file@.subrange(0, 3)[1]
            == file@[1] && file@.subrange(0, 3)[2] == file@[2]);
        LoadedType::Rom(slice_to_vec(file))
    }
}

/// The bytes of a state file that holds `state`: `p8s`, then the state.
pub fn frame_state(state: &[u8]) -> (r: Vec<u8>)
    ensures
        r@ == state_magic() + state@,
        spec_classify(r@) == (true, state@),
{
    let mut r: Vec<u8> = Vec::new();
    r.push(0x70);
    r.push(0x38);
    r.push(0x73);
    assert(r@ =~= state_magic());
    let n = state.len();
    let mut i: usize = 0;
    while i < n
        invariant
            i <= n,
            n == state@.len(),
            r@ == state_magic() + state@.subrange(0, i as int),
        decreases n - i,
    {
        r.push(state[i]);
        assert(r@ =~= state_magic() + state@.subrange(0, i + 1));
        i += 1;
    }
    assert(state@.subrange(0, n as int) =~= state@);
    assert(r@.subrange(0, 3) =~= state_magic());
    assert(r@.subrange(3, r@.len() as int) =~= state@);
    r
}

/// The breakpoints of a debugger as the user typed them: for the program
/// counter and the index register a number in hexadecimal digits, for the
/// opcode a pattern, each with a switch.
pub struct Breakpoints {
    pub flag_pc: bool,
    pub pc: String,
    pub flag_i: bool,
    pub i: String,
    pub flag_opcode: bool,
    pub opcode: String,
}

/// The value of the hexadecimal digit `c`, in either case, or nothing
/// where `c` is no such digit.
pub open spec fn hex_digit_value(c: char) -> Option<int> {
    if c == '0' {
        Some(0int)
    } else if c == '1' {
        Some(1int)
    } else if c == '2' {
        Some(2int)
    } else if c == '3' {
        Some(3int)
    } else if c == '4' {
        Some(4int)
    } else if c == '5' {
        Some(5int)
    } else if c == '6' {
        Some(6int)
    } else if c == '7' {
        Some(7int)
    } else if c == '8' {
        Some(8int)
    } else if c == '9' {
        Some(9int)
    } else if c == 'a' || c == 'A' {
        Some(10int)
    } else if c == 'b' || c == 'B' {
        Some(11int)
    } else if c == 'c' || c == 'C' {
        Some(12int)
    } else if c == 'd' || c == 'D' {
        Some(13int)
    } else if c == 'e' || c == 'E' {
        Some(14int)
    } else if c == 'f' || c == 'F' {
        Some(15int)
    } else {
        None
    }
}

/// The number that the hexadecimal digits `digits` stand for, or nothing
/// where one of them is no digit. No digits stand for 0.
pub open spec fn digits_value(digits: Seq<char>) -> Option<int>
    decreases digits.len(),
{
    if digits.len() == 0 {
        Some(0int)
    } else {
        match (digits_value(digits.drop_last()), hex_digit_value(digits.last())) {
            (Some(value), Some(digit)) => Some(16 * value + digit),
            _ => None,
        }
    }
}

/// The number below 2^16 that `text` stands for: a `+` or nothing, then one
/// or more hexadecimal digits. Any other text stands for nothing.
pub open spec fn hex_u16(text: Seq<char>) -> Option<u16> {
    let digits = if text.len() > 0 && text[0] == '+' {
        text.subrange(1, text.len() as int)
    } else {
        text
    };
    if digits.len() == 0 {
        None
    } else {
        match digits_value(digits) {
            Some(value) => if value <= 0xFFFF {
                Some(value as u16)
            } else {
                None
            },
            None => None,
        }
    }
}

/// The value of the hexadecimal digit `c`.
fn digit_value(c: char) -> (r: Option<u32>)
    ensures
        match r {
            Some(value) => hex_digit_value(c) == Some(value as int) && value < 16,
            None => hex_digit_value(c) is None,
        },
{
    match c {
        '0' => Some(0),
        '1' => Some(1),
        '2' => Some(2),
        '3' => Some(3),
        '4' => Some(4),
        '5' => Some(5),
        '6' => Some(6),
        '7' => Some(7),
        '8' => Some(8),
        '9' => Some(9),
        'a' | 'A' => Some(10),
        'b' | 'B' => Some(11),
        'c' | 'C' => Some(12),
        'd' | 'D' => Some(13),
        'e' | 'E' => Some(14),
        'f' | 'F' => Some(15),
        _ => None,
    }
}

/// Reads a number in hexadecimal digits.
pub fn parse_hex_u16(text: &str) -> (r: Option<u16>)
    ensures
        r == hex_u16(text@),
{
    let n = text.unicode_len();
    let start: usize = if n > 0 && text.get_char(0) == '+' {
        1
    } else {
        0
    };
    if start == n {
        return None;
    }
    let ghost digits = text@.subrange(start as int, n as int);
    assert(start == 0 ==> digits =~= text@);
    assert(start == 0 ==> text@[0] != '+');
    assert(digits.subrange(0, 0) =~= Seq::<char>::empty());
    // The value read so far, or 0x10000 where it is that or more.
    let mut value: u32 = 0;
    let mut i: usize = start;
    while i < n
        invariant
            start <= i <= n,
            n == text@.len(),
            digits == text@.subrange(start as int, n as int),
            start < n,
            start == 0 || (start == 1 && text@[0] == '+'),
            start == 0 ==> digits == text@ && text@[0] != '+',
            value <= 0x10000,
            match digits_value(digits.subrange(0, i - start)) {
                Some(read) => value == if read < 0x10000 {
                    read
                } else {
                    0x10000
                },
                None => false,
            },
        decreases n - i,
    {
        let ghost before = digits.subrange(0, i - start);
        let ghost next = digits.subrange(0, i - start + 1);
        proof {
            assert(next.drop_last() =~= before);
            assert(next.last() == text@[i as int]);
        }
        match digit_value(text.get_char(i)) {
            None => {
                proof {
                    assert(digits[i - start] == text@[i as int]);
                    lemma_bad_digit(digits, i - start);
                }
                return None;
            },
            Some(digit) => {
                value = 16 * value + digit;
                if value > 0x10000 {
                    value = 0x10000;
                }
            },
        }
        i += 1;
    }
    assert(digits.subrange(0, n - start) =~= digits);
    if value <= 0xFFFF {
        Some(value as u16)
    } else {
        None
    }
}

/// Digits with one among them that is none stand for nothing.
proof fn lemma_bad_digit(digits: Seq<char>, k: int)
    requires
        0 <= k < digits.len(),
        hex_digit_value(digits[k]) is None,
    ensures
        digits_value(digits) is None,
    decreases digits.len(),
{
    if k < digits.len() - 1 {
        lemma_bad_digit(digits.drop_last(), k);
    }
}

/// Whether a machine in state `cpu` has reached a breakpoint: one that is
/// switched on and, for the program counter and the index register, given
/// as a number that the register equals, or, for the opcode, as a pattern
/// that the next opcode matches.
pub open spec fn reached(
    cpu: crate::cpu::CpuView,
    flag_pc: bool,
    pc: Option<u16>,
    flag_i: bool,
    i: Option<u16>,
    flag_opcode: bool,
    opcode: Seq<char>,
) -> bool {
    ||| flag_pc && pc == Some(cpu.pc)
    ||| flag_i && i == Some(cpu.i)
    ||| flag_opcode && pattern_matches(opcode, cpu.next_opcode)
}

/// Whether `cpu` has reached one of the breakpoints given as numbers and a
/// pattern.
pub fn breakpoint_reached(
    cpu: &CPU,
    flag_pc: bool,
    pc: Option<u16>,
    flag_i: bool,
    i: Option<u16>,
    flag_opcode: bool,
    opcode: &String,
) -> (r: bool)
    ensures
        r == reached(cpu@, flag_pc, pc, flag_i, i, flag_opcode, opcode@),
{
    if flag_pc {
        if let Some(bp) = pc {
            if cpu.check_breakpoint(Breakpoint::PC(bp)) {
                return true;
            }
        }
    }
    if flag_i {
        if let Some(bp) = i {
            if cpu.check_breakpoint(Breakpoint::I(bp)) {
                return true;
            }
        }
    }
    if flag_opcode && cpu.check_breakpoint(Breakpoint::Opcode(opcode.clone())) {
        return true;
    }
    false
}

/// Whether `cpu` has reached one of the breakpoints that are switched on.
/// A breakpoint whose text stands for no number is never reached.
pub fn check_breakpoints(cpu: &CPU, breakpoints: &Breakpoints) -> (r: bool)
    ensures
        r == reached(
            cpu@,
            breakpoints.flag_pc,
            hex_u16(breakpoints.pc@),
            breakpoints.flag_i,
            hex_u16(breakpoints.i@),
            breakpoints.flag_opcode,
            breakpoints.opcode@,
        ),
{
    let pc = parse_hex_u16(breakpoints.pc.as_str());
    let i = parse_hex_u16(breakpoints.i.as_str());
    breakpoint_reached(
        cpu,
        breakpoints.flag_pc,
        pc,
        breakpoints.flag_i,
        i,
        breakpoints.flag_opcode,
        &breakpoints.opcode,
    )
}

} // verus!
