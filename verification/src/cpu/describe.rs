//! Disassembly: the one-line text that describes an instruction in the
//! state in which it is about to run.

use vstd::prelude::*;
use vstd::string::*;

verus! {

/// The upper-case hexadecimal digit for `n` in `0..16`.
pub open spec fn hex_char(n: int) -> char {
    if n == 0 {
        '0'
    } else if n == 1 {
        '1'
    } else if n == 2 {
        '2'
    } else if n == 3 {
        '3'
    } else if n == 4 {
        '4'
    } else if n == 5 {
        '5'
    } else if n == 6 {
        '6'
    } else if n == 7 {
        '7'
    } else if n == 8 {
        '8'
    } else if n == 9 {
        '9'
    } else if n == 10 {
        'A'
    } else if n == 11 {
        'B'
    } else if n == 12 {
        'C'
    } else if n == 13 {
        'D'
    } else if n == 14 {
        'E'
    } else {
        'F'
    }
}

/// The last `digits` upper-case hexadecimal digits of `value`, most
/// significant first, zero-padded.
pub open spec fn hex(value: int, digits: nat) -> Seq<char>
    decreases digits,
{
    if digits == 0 {
        Seq::empty()
    } else {
        hex(value / 16, (digits - 1) as nat).push(hex_char(value % 16))
    }
}

/// Decimal text of `value` in `0..100`, without padding.
pub open spec fn dec(value: int) -> Seq<char> {
    if value < 10 {
        seq![hex_char(value)]
    } else {
        seq![hex_char(value / 10), hex_char(value % 10)]
    }
}

/// `V` and the register's number.
pub open spec fn reg_name(x: int) -> Seq<char> {
    "V"@ + hex(x, 1)
}

/// A register's name with its value in brackets.
pub open spec fn reg(x: int, vx: u8) -> Seq<char> {
    reg_name(x) + " ("@ + hex(vx as int, 2) + ")"@
}

/// Text of the instruction `opcode`, fetched at `pc` and followed in memory
/// by the word `ext`, on a machine with registers `v`, delay timer `dt`, the
/// display in HiRes mode or not, and the given shift and jump quirks.
#[verifier::opaque]
pub open spec fn describe(
    opcode: u16,
    ext: u16,
    pc: u16,
    v: Seq<u8>,
    dt: u8,
    hires: bool,
    quirk_shift: bool,
    quirk_jump: bool,
) -> Seq<char> {
    let h = opcode as int / 0x1000;
    let x = opcode as int / 0x100 % 16;
    let y = opcode as int / 0x10 % 16;
    let n = opcode as int % 16;
    let nn = opcode as int % 0x100;
    let nnn = opcode as int % 0x1000;
    let rx = reg(x, v[x]);
    let ry = reg(y, v[y]);
    if h == 0 {
        if x == 0 && y == 0xC {
            "SCD "@ + dec(n)
        } else if x == 0 && y == 0xD {
            "SCU [XO-CHIP]"@
        } else if x == 0 && y == 0xE && n == 0 {
            "CLS"@
        } else if x == 0 && y == 0xE && n == 0xE {
            "RET"@
        } else if x == 0 && y == 0xF && n == 0xB {
            "SCR [S-CHIP]"@
        } else if x == 0 && y == 0xF && n == 0xC {
            "SCL [S-CHIP]"@
        } else if x == 0 && y == 0xF && n == 0xD {
            "EXIT [S-CHIP]"@
        } else if x == 0 && y == 0xF && n == 0xE {
            "LOW [S-CHIP]"@
        } else if x == 0 && y == 0xF && n == 0xF {
            "HIGH [S-CHIP]"@
        } else if x == 2 && y == 3 && n == 0 {
            if hires {
                "CLS [HiRes]"@
            } else {
                "SYS "@ + hex(nnn, 3) + " (Ignored)"@
            }
        } else {
            "Invalid"@
        }
    } else if h == 1 {
        if x == 2 && y == 6 && n == 0 && pc == 0x200 {
            "HIRES [HiRes]"@
        } else {
            "JP "@ + hex(nnn, 3)
        }
    } else if h == 2 {
        "CALL "@ + hex(nnn, 3)
    } else if h == 3 {
        "SE "@ + rx + ", "@ + hex(nn, 2)
    } else if h == 4 {
        "SNE "@ + rx + ", "@ + hex(nn, 2)
    } else if h == 5 {
        if n == 0 {
            "SE "@ + rx + ", "@ + ry
        } else if n == 2 {
            "LD [I], "@ + reg_name(x) + ", "@ + reg_name(y) + " [XO-CHIP]"@
        } else if n == 3 {
            "LD "@ + reg_name(x) + ", "@ + reg_name(y) + ", [I] [XO-CHIP]"@
        } else {
            "Invalid"@
        }
    } else if h == 6 {
        "LD "@ + reg_name(x) + ", "@ + hex(nn, 2)
    } else if h == 7 {
        "ADD "@ + rx + ", "@ + hex(nn, 2)
    } else if h == 8 {
        if n == 0 {
            "LD "@ + reg_name(x) + ", "@ + ry
        } else if n == 1 {
            "OR "@ + rx + ", "@ + ry
        } else if n == 2 {
            "AND "@ + rx + ", "@ + ry
        } else if n == 3 {
            "XOR "@ + rx + ", "@ + ry
        } else if n == 4 {
            "ADD "@ + rx + ", "@ + ry
        } else if n == 5 {
            "SUB "@ + rx + ", "@ + ry
        } else if n == 6 {
            if quirk_shift {
                "SHR "@ + rx
            } else {
                "SHR "@ + reg_name(x) + ", "@ + ry
            }
        } else if n == 7 {
            "SUBN "@ + rx + ", "@ + ry
        } else if n == 0xE {
            if quirk_shift {
                "SHL "@ + rx
            } else {
                "SHL "@ + reg_name(x) + ", "@ + ry
            }
        } else {
            "Invalid"@
        }
    } else if h == 9 {
        if n == 0 {
            "SNE "@ + rx + ", "@ + ry
        } else {
            "Invalid"@
        }
    } else if h == 0xA {
        "LD I, "@ + hex(nnn, 3)
    } else if h == 0xB {
        if quirk_jump {
            "JP "@ + reg_name(x) + " ("@ + hex(v[x] as int, 3) + "), "@ + hex(nnn, 3)
        } else {
            "JP "@ + reg(0, v[0]) + ", "@ + hex(nnn, 3)
        }
    } else if h == 0xC {
        "RND "@ + reg_name(x) + ", "@ + hex(nn, 2)
    } else if h == 0xD {
        "DRW "@ + rx + ", "@ + ry + ", "@ + hex(n, 1)
    } else if h == 0xE {
        if y == 9 && n == 0xE {
            "SKP "@ + rx
        } else if y == 0xA && n == 1 {
            "SKNP "@ + rx
        } else {
            "Invalid"@
        }
    } else {
        if x == 0 && y == 0 && n == 0 {
            "LD I, "@ + hex(ext as int, 4) + " [XO-CHIP]"@
        } else if y == 0 && n == 1 {
            "PLANE "@ + dec(x) + " [XO-CHIP]"@
        } else if x == 0 && y == 0 && n == 2 {
            "AUDIO [XO-CHIP]"@
        } else if y == 0 && n == 7 {
            "LD "@ + reg_name(x) + ", DT ("@ + hex(dt as int, 2) + ")"@
        } else if y == 0 && n == 0xA {
            "LD "@ + reg_name(x) + ", K"@
        } else if y == 1 && n == 5 {
            "LD DT, "@ + rx
        } else if y == 1 && n == 8 {
            "LD ST, "@ + rx
        } else if y == 1 && n == 0xE {
            "ADD I, "@ + rx
        } else if y == 2 && n == 9 {
            "LD F, "@ + rx
        } else if y == 3 && n == 0 {
            "LD F, "@ + rx + " [S-CHIP]"@
        } else if y == 3 && n == 3 {
            "LD B, "@ + rx
        } else if y == 5 && n == 5 {
            "LD [I], "@ + reg_name(x)
        } else if y == 6 && n == 5 {
            "LD "@ + reg_name(x) + ", [I]"@
        } else if y == 7 && n == 5 {
            "LD R, "@ + reg_name(x) + " [S-CHIP]"@
        } else if y == 8 && n == 5 {
            "LD "@ + reg_name(x) + ", R [S-CHIP]"@
        } else {
            "Invalid"@
        }
    }
}

/// The hexadecimal digit for `n` as a character.
pub fn hex_digit(n: u8) -> (c: char)
    requires
        n < 16,
    ensures
        c == hex_char(n as int),
{
    match n {
        0 => '0',
        1 => '1',
        2 => '2',
        3 => '3',
        4 => '4',
        5 => '5',
        6 => '6',
        7 => '7',
        8 => '8',
        9 => '9',
        10 => 'A',
        11 => 'B',
        12 => 'C',
        13 => 'D',
        14 => 'E',
        _ => 'F',
    }
}

/// The hexadecimal digit for `n` as a string of one character.
fn hex_digit_str(n: u8) -> (s: &'static str)
    requires
        n < 16,
    ensures
        s@ == seq![hex_char(n as int)],
{
    proof {
        reveal_strlit("0");
        reveal_strlit("1");
        reveal_strlit("2");
        reveal_strlit("3");
        reveal_strlit("4");
        reveal_strlit("5");
        reveal_strlit("6");
        reveal_strlit("7");
        reveal_strlit("8");
        reveal_strlit("9");
        reveal_strlit("A");
        reveal_strlit("B");
        reveal_strlit("C");
        reveal_strlit("D");
        reveal_strlit("E");
        reveal_strlit("F");
    }
    let s = match n {
        0 => "0",
        1 => "1",
        2 => "2",
        3 => "3",
        4 => "4",
        5 => "5",
        6 => "6",
        7 => "7",
        8 => "8",
        9 => "9",
        10 => "A",
        11 => "B",
        12 => "C",
        13 => "D",
        14 => "E",
        _ => "F",
    };
    assert(s@ =~= seq![hex_char(n as int)]);
    s
}

/// Appends the last `digits` hexadecimal digits of `value`.
fn push_hex(s: &mut String, value: u16, digits: usize)
    requires
        1 <= digits <= 4,
    ensures
        final(s)@ == old(s)@ + hex(value as int, digits as nat),
{
    reveal_with_fuel(hex, 5);
    if digits >= 4 {
        s.append(hex_digit_str((value / 0x1000 % 16) as u8));
    }
    if digits >= 3 {
        s.append(hex_digit_str((value / 0x100 % 16) as u8));
    }
    if digits >= 2 {
        s.append(hex_digit_str((value / 0x10 % 16) as u8));
    }
    s.append(hex_digit_str((value % 16) as u8));
    assert(s@ =~= old(s)@ + hex(value as int, digits as nat));
}

/// Appends `value`, below 100, in decimal.
fn push_dec(s: &mut String, value: u8)
    requires
        value < 100,
    ensures
        final(s)@ == old(s)@ + dec(value as int),
{
    if value >= 10 {
        s.append(hex_digit_str(value / 10));
    }
    s.append(hex_digit_str(value % 10));
    assert(s@ =~= old(s)@ + dec(value as int));
}

/// Appends a register's name.
fn push_reg_name(s: &mut String, x: usize)
    requires
        x < 16,
    ensures
        final(s)@ == old(s)@ + reg_name(x as int),
{
    s.append("V");
    push_hex(s, x as u16, 1);
    assert(s@ =~= old(s)@ + reg_name(x as int));
}

/// Appends a register's name with its value in brackets.
fn push_reg(s: &mut String, x: usize, vx: u8)
    requires
        x < 16,
    ensures
        final(s)@ == old(s)@ + reg(x as int, vx),
{
    push_reg_name(s, x);
    s.append(" (");
    push_hex(s, vx as u16, 2);
    s.append(")");
    assert(s@ =~= old(s)@ + reg(x as int, vx));
}

/// `name`, then a register with its value.
fn text_reg(name: &str, x: usize, vx: u8) -> (s: String)
    requires
        x < 16,
    ensures
        s@ == name@ + reg(x as int, vx),
{
    let mut s = String::from_str(name);
    push_reg(&mut s, x, vx);
    s
}

/// `name`, then a register with its value, a comma and a byte.
fn text_reg_byte(name: &str, x: usize, vx: u8, nn: u8) -> (s: String)
    requires
        x < 16,
    ensures
        s@ == name@ + reg(x as int, vx) + ", "@ + hex(nn as int, 2),
{
    let mut s = text_reg(name, x, vx);
    s.append(", ");
    push_hex(&mut s, nn as u16, 2);
    s
}

/// `name`, then two registers with their values.
fn text_reg_reg(name: &str, x: usize, vx: u8, y: usize, vy: u8) -> (s: String)
    requires
        x < 16,
        y < 16,
    ensures
        s@ == name@ + reg(x as int, vx) + ", "@ + reg(y as int, vy),
{
    let mut s = text_reg(name, x, vx);
    s.append(", ");
    push_reg(&mut s, y, vy);
    s
}

/// `name`, then a register's name, a comma and a second register with its
/// value.
fn text_name_reg(name: &str, x: usize, y: usize, vy: u8) -> (s: String)
    requires
        x < 16,
        y < 16,
    ensures
        s@ == name@ + reg_name(x as int) + ", "@ + reg(y as int, vy),
{
    let mut s = String::from_str(name);
    push_reg_name(&mut s, x);
    s.append(", ");
    push_reg(&mut s, y, vy);
    s
}

/// `name`, then a 12-bit address.
fn text_addr(name: &str, nnn: u16) -> (s: String)
    ensures
        s@ == name@ + hex(nnn as int, 3),
{
    let mut s = String::from_str(name);
    push_hex(&mut s, nnn, 3);
    s
}

/// `name`, a register's name, then `tail`.
fn text_name(name: &str, x: usize, tail: &str) -> (s: String)
    requires
        x < 16,
    ensures
        s@ == name@ + reg_name(x as int) + tail@,
{
    let mut s = String::from_str(name);
    push_reg_name(&mut s, x);
    s.append(tail);
    s
}

/// Text of the instruction `opcode` in the given state.
pub fn describe_opcode(
    opcode: u16,
    ext: u16,
    pc: u16,
    v: &[u8; 16],
    dt: u8,
    hires: bool,
    quirk_shift: bool,
    quirk_jump: bool,
) -> (s: String)
    ensures
        s@ == describe(opcode, ext, pc, v@, dt, hires, quirk_shift, quirk_jump),
{
    reveal(describe);
    let h = (opcode / 0x1000) as usize;
    let x = (opcode / 0x100 % 16) as usize;
    let y = (opcode / 0x10 % 16) as usize;
    let n = (opcode % 16) as u8;
    let nn = (opcode % 0x100) as u8;
    let nnn = opcode % 0x1000;
    let vx = v[x];
    let vy = v[y];
    match (h, x, y, n) {
        (0, 0, 0xC, _) => {
            let mut s = String::from_str("SCD ");
            push_dec(&mut s, n);
            s
        },
        (0, 0, 0xD, _) => String::from_str("SCU [XO-CHIP]"),
        (0, 0, 0xE, 0) => String::from_str("CLS"),
        (0, 0, 0xE, 0xE) => String::from_str("RET"),
        (0, 0, 0xF, 0xB) => String::from_str("SCR [S-CHIP]"),
        (0, 0, 0xF, 0xC) => String::from_str("SCL [S-CHIP]"),
        (0, 0, 0xF, 0xD) => String::from_str("EXIT [S-CHIP]"),
        (0, 0, 0xF, 0xE) => String::from_str("LOW [S-CHIP]"),
        (0, 0, 0xF, 0xF) => String::from_str("HIGH [S-CHIP]"),
        (0, 2, 3, 0) => if hires {
            String::from_str("CLS [HiRes]")
        } else {
            let mut s = text_addr("SYS ", nnn);
            s.append(" (Ignored)");
            s
        },
        (1, 2, 6, 0) => if pc == 0x200 {
            String::from_str("HIRES [HiRes]")
        } else {
            text_addr("JP ", nnn)
        },
        (1, _, _, _) => text_addr("JP ", nnn),
        (2, _, _, _) => text_addr("CALL ", nnn),
        (3, _, _, _) => text_reg_byte("SE ", x, vx, nn),
        (4, _, _, _) => text_reg_byte("SNE ", x, vx, nn),
        (5, _, _, 0) => text_reg_reg("SE ", x, vx, y, vy),
        (5, _, _, 2) => {
            let mut s = text_name("LD [I], ", x, ", ");
            push_reg_name(&mut s, y);
            s.append(" [XO-CHIP]");
            s
        },
        (5, _, _, 3) => {
            let mut s = text_name("LD ", x, ", ");
            push_reg_name(&mut s, y);
            s.append(", [I] [XO-CHIP]");
            s
        },
        (6, _, _, _) => {
            let mut s = text_name("LD ", x, ", ");
            push_hex(&mut s, nn as u16, 2);
            s
        },
        (7, _, _, _) => text_reg_byte("ADD ", x, vx, nn),
        (8, _, _, 0) => text_name_reg("LD ", x, y, vy),
        (8, _, _, 1) => text_reg_reg("OR ", x, vx, y, vy),
        (8, _, _, 2) => text_reg_reg("AND ", x, vx, y, vy),
        (8, _, _, 3) => text_reg_reg("XOR ", x, vx, y, vy),
        (8, _, _, 4) => text_reg_reg("ADD ", x, vx, y, vy),
        (8, _, _, 5) => text_reg_reg("SUB ", x, vx, y, vy),
        (8, _, _, 6) => if quirk_shift {
            text_reg("SHR ", x, vx)
        } else {
            text_name_reg("SHR ", x, y, vy)
        },
        (8, _, _, 7) => text_reg_reg("SUBN ", x, vx, y, vy),
        (8, _, _, 0xE) => if quirk_shift {
            text_reg("SHL ", x, vx)
        } else {
            text_name_reg("SHL ", x, y, vy)
        },
        (9, _, _, 0) => text_reg_reg("SNE ", x, vx, y, vy),
        (0xA, _, _, _) => text_addr("LD I, ", nnn),
        (0xB, _, _, _) => if quirk_jump {
            let mut s = text_name("JP ", x, " (");
            push_hex(&mut s, vx as u16, 3);
            s.append("), ");
            push_hex(&mut s, nnn, 3);
            s
        } else {
            let mut s = text_reg("JP ", 0, v[0]);
            s.append(", ");
            push_hex(&mut s, nnn, 3);
            s
        },
        (0xC, _, _, _) => {
            let mut s = text_name("RND ", x, ", ");
            push_hex(&mut s, nn as u16, 2);
            s
        },
        (0xD, _, _, _) => {
            let mut s = text_reg_reg("DRW ", x, vx, y, vy);
            s.append(", ");
            push_hex(&mut s, n as u16, 1);
            s
        },
        (0xE, _, 9, 0xE) => text_reg("SKP ", x, vx),
        (0xE, _, 0xA, 1) => text_reg("SKNP ", x, vx),
        (0xF, 0, 0, 0) => {
            let mut s = String::from_str("LD I, ");
            push_hex(&mut s, ext, 4);
            s.append(" [XO-CHIP]");
            s
        },
        (0xF, _, 0, 1) => {
            let mut s = String::from_str("PLANE ");
            push_dec(&mut s, x as u8);
            s.append(" [XO-CHIP]");
            s
        },
        (0xF, 0, 0, 2) => String::from_str("AUDIO [XO-CHIP]"),
        (0xF, _, 0, 7) => {
            let mut s = text_name("LD ", x, ", DT (");
            push_hex(&mut s, dt as u16, 2);
            s.append(")");
            s
        },
        (0xF, _, 0, 0xA) => text_name("LD ", x, ", K"),
        (0xF, _, 1, 5) => text_reg("LD DT, ", x, vx),
        (0xF, _, 1, 8) => text_reg("LD ST, ", x, vx),
        (0xF, _, 1, 0xE) => text_reg("ADD I, ", x, vx),
        (0xF, _, 2, 9) => text_reg("LD F, ", x, vx),
        (0xF, _, 3, 0) => {
            let mut s = text_reg("LD F, ", x, vx);
            s.append(" [S-CHIP]");
            s
        },
        (0xF, _, 3, 3) => text_reg("LD B, ", x, vx),
        (0xF, _, 5, 5) => {
            let mut s = String::from_str("LD [I], ");
            push_reg_name(&mut s, x);
            s
        },
        (0xF, _, 6, 5) => text_name("LD ", x, ", [I]"),
        (0xF, _, 7, 5) => text_name("LD R, ", x, " [S-CHIP]"),
        (0xF, _, 8, 5) => text_name("LD ", x, ", R [S-CHIP]"),
        _ => String::from_str("Invalid"),
    }
}

} // verus!
