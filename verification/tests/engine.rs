use pich8::cpu::data::BOOTROM;
use pich8::cpu::Breakpoint;
use pich8::cpu::CpuState;
use pich8::cpu::Error;
use pich8::cpu::RomError;
use pich8::cpu::CPU;
use pich8::video_memory::Plane;
use pich8::video_memory::VideoMode;

const NO_KEYS: [bool; 16] = [false; 16];

fn change(cpu: &mut CPU, f: impl FnOnce(&mut CpuState)) {
    let mut state = cpu.save_state().unwrap();
    f(&mut state);
    *cpu = CPU::from_state(state).unwrap();
}

fn with_rom(rom: &[u8]) -> CPU {
    let mut cpu = CPU::new();
    assert_eq!(cpu.load_rom(rom), Ok(()));
    cpu
}

#[test]
fn load_immediate_sets_register_and_advances_by_two() {
    for x in 0..16u8 {
        for nn in [0u8, 1, 0x7F, 0xAB, 0xFF] {
            let mut cpu = with_rom(&[0x60 | x, nn]);
            assert_eq!(cpu.tick(&NO_KEYS), Ok(()));
            assert_eq!(cpu.V()[x as usize], nn);
            assert_eq!(cpu.PC(), 0x202);
        }
    }
}

#[test]
fn clear_screen_clears_the_active_plane() {
    let mut cpu = with_rom(&[0x00, 0xE0]);
    change(&mut cpu, |s| s.vmem1 = vec![true; 8192]);
    assert_eq!(cpu.tick(&NO_KEYS), Ok(()));
    for i in 0..128 * 64 {
        assert_eq!(cpu.vmem().get_index_plane(Plane::First, i), false);
    }
    assert!(cpu.draw());
    assert_eq!(cpu.PC(), 0x202);
}

#[test]
fn skips_advance_by_four_when_taken_and_by_two_otherwise() {
    // (opcode, V0, V1, taken)
    let cases: [([u8; 2], u8, u8, bool); 8] = [
        ([0x30, 0x12], 0x12, 0, true),
        ([0x30, 0x12], 0x13, 0, false),
        ([0x40, 0x12], 0x13, 0, true),
        ([0x40, 0x12], 0x12, 0, false),
        ([0x50, 0x10], 7, 7, true),
        ([0x50, 0x10], 7, 8, false),
        ([0x90, 0x10], 7, 8, true),
        ([0x90, 0x10], 7, 7, false),
    ];
    for (rom, v0, v1, taken) in cases {
        let mut cpu = with_rom(&rom);
        change(&mut cpu, |s| {
            s.V[0] = v0;
            s.V[1] = v1;
        });
        assert_eq!(cpu.tick(&NO_KEYS), Ok(()));
        assert_eq!(cpu.PC(), if taken { 0x204 } else { 0x202 });
    }
}

#[test]
fn add_with_carry() {
    let mut cpu = with_rom(&[0x80, 0x14]);
    change(&mut cpu, |s| {
        s.V[0] = 0xFF;
        s.V[1] = 1;
    });
    cpu.tick(&NO_KEYS).unwrap();
    assert_eq!((cpu.V()[0], cpu.V()[0xF]), (0, 1));

    let mut cpu = with_rom(&[0x80, 0x14]);
    change(&mut cpu, |s| {
        s.V[0] = 0xFE;
        s.V[1] = 1;
    });
    cpu.tick(&NO_KEYS).unwrap();
    assert_eq!((cpu.V()[0], cpu.V()[0xF]), (0xFF, 0));
}

#[test]
fn shift_right_reads_vx_with_the_quirk_and_vy_without() {
    for quirk in [true, false] {
        let mut cpu = with_rom(&[0x80, 0x16]);
        cpu.set_quirk_shift(quirk);
        change(&mut cpu, |s| {
            s.V[0] = 0b0000_0101;
            s.V[1] = 0b1111_0000;
        });
        cpu.tick(&NO_KEYS).unwrap();
        if quirk {
            assert_eq!((cpu.V()[0], cpu.V()[0xF]), (0b0000_0010, 1));
        } else {
            assert_eq!((cpu.V()[0], cpu.V()[0xF]), (0b0111_1000, 0));
        }
    }
}

#[test]
fn flag_write_order_decides_when_the_target_is_vf() {
    // 8F14: VF = VF + V1, which also is the flag's register.
    for (quirk, expected) in [(true, 0u8), (false, 0x30)] {
        let mut cpu = with_rom(&[0x8F, 0x14]);
        cpu.set_quirk_vf_order(quirk);
        change(&mut cpu, |s| {
            s.V[0xF] = 0x10;
            s.V[1] = 0x20;
        });
        cpu.tick(&NO_KEYS).unwrap();
        assert_eq!(cpu.V()[0xF], expected);
    }
}

#[test]
fn sprite_draws_by_exclusive_or() {
    let mut cpu = with_rom(&[0xD0, 0x15, 0xD0, 0x15]);
    change(&mut cpu, |s| {
        s.V[0] = 7;
        s.V[1] = 2;
        s.I = 0x300;
        s.mem[0x300..0x305].copy_from_slice(&[0xFF; 5]);
    });
    cpu.tick(&NO_KEYS).unwrap();
    assert_eq!(cpu.V()[0xF], 0);
    for y in 0..32 {
        for x in 0..64 {
            let inside = (7..15).contains(&x) && (2..7).contains(&y);
            assert_eq!(cpu.vmem().get_plane(Plane::First, x, y), inside);
            assert_eq!(cpu.vmem().get_plane(Plane::Second, x, y), false);
        }
    }
    cpu.tick(&NO_KEYS).unwrap();
    assert_eq!(cpu.V()[0xF], 1);
    for i in 0..128 * 64 {
        assert_eq!(cpu.vmem().get_index_plane(Plane::First, i), false);
    }
}

#[test]
fn sprite_rows_for_the_second_plane_follow_those_for_the_first() {
    // F301: both planes; D012: two rows at (V0, V1).
    let mut cpu = with_rom(&[0xF3, 0x01, 0xD0, 0x12]);
    change(&mut cpu, |s| {
        s.I = 0x300;
        s.mem[0x300..0x304].copy_from_slice(&[0x80, 0x00, 0x00, 0x80]);
    });
    cpu.tick(&NO_KEYS).unwrap();
    cpu.tick(&NO_KEYS).unwrap();
    assert_eq!(cpu.vmem().get_plane(Plane::First, 0, 0), true);
    assert_eq!(cpu.vmem().get_plane(Plane::First, 0, 1), false);
    assert_eq!(cpu.vmem().get_plane(Plane::Second, 0, 0), false);
    assert_eq!(cpu.vmem().get_plane(Plane::Second, 0, 1), true);
    assert_eq!(cpu.I(), 0x300);
}

#[test]
fn wide_sprite_takes_two_bytes_a_row() {
    let mut cpu = with_rom(&[0xD0, 0x10]);
    cpu.set_quirk_draw(true);
    change(&mut cpu, |s| {
        s.I = 0x300;
        s.mem[0x300] = 0x80;
        s.mem[0x301] = 0x01;
    });
    cpu.tick(&NO_KEYS).unwrap();
    assert_eq!(cpu.vmem().get_plane(Plane::First, 0, 0), true);
    assert_eq!(cpu.vmem().get_plane(Plane::First, 15, 0), true);
    assert_eq!(cpu.vmem().get_plane(Plane::First, 1, 0), false);
    assert_eq!(cpu.vmem().get_plane(Plane::First, 8, 0), false);

    // Without the quirk a sprite of height 0 is 8 wide and 16 high.
    let mut cpu = with_rom(&[0xD0, 0x10]);
    cpu.set_quirk_draw(false);
    change(&mut cpu, |s| {
        s.I = 0x300;
        s.mem[0x300] = 0x80;
        s.mem[0x301] = 0x01;
    });
    cpu.tick(&NO_KEYS).unwrap();
    assert_eq!(cpu.vmem().get_plane(Plane::First, 0, 0), true);
    assert_eq!(cpu.vmem().get_plane(Plane::First, 15, 0), false);
    assert_eq!(cpu.vmem().get_plane(Plane::First, 7, 1), true);
}

#[test]
fn store_and_load_round_trip() {
    let values = [0x12, 0x34, 0x56, 0x78, 0x9A, 0xFF];
    for quirk in [true, false] {
        // F555 stores, A300 sets I back, F565 loads.
        let mut cpu = with_rom(&[0xF5, 0x55, 0xA3, 0x00, 0xF5, 0x65]);
        cpu.set_quirk_load_store(quirk);
        change(&mut cpu, |s| {
            s.I = 0x300;
            s.V[..6].copy_from_slice(&values);
        });
        cpu.tick(&NO_KEYS).unwrap();
        assert_eq!(cpu.I(), if quirk { 0x300 } else { 0x306 });
        change(&mut cpu, |s| s.V = [0; 16]);
        cpu.tick(&NO_KEYS).unwrap();
        cpu.tick(&NO_KEYS).unwrap();
        assert_eq!(&cpu.V()[..6], &values);
        assert_eq!(cpu.I(), if quirk { 0x300 } else { 0x306 });
    }
}

#[test]
fn opcode_breakpoint_matches_by_pattern() {
    let cpu = with_rom(&[0x30, 0x12]);
    assert!(cpu.check_breakpoint(Breakpoint::Opcode("30**".to_string())));
    assert!(cpu.check_breakpoint(Breakpoint::Opcode("3012".to_string())));
    assert!(cpu.check_breakpoint(Breakpoint::Opcode("****".to_string())));
    assert!(!cpu.check_breakpoint(Breakpoint::Opcode("30*".to_string())));
    assert!(!cpu.check_breakpoint(Breakpoint::Opcode("30***".to_string())));
    let cpu = with_rom(&[0x30, 0xFF]);
    assert!(cpu.check_breakpoint(Breakpoint::Opcode("30**".to_string())));
    assert!(cpu.check_breakpoint(Breakpoint::Opcode("30FF".to_string())));
    assert!(!cpu.check_breakpoint(Breakpoint::Opcode("30ff".to_string())));
    let cpu = with_rom(&[0x40, 0x12]);
    assert!(!cpu.check_breakpoint(Breakpoint::Opcode("30**".to_string())));
    assert!(cpu.check_breakpoint(Breakpoint::PC(0x200)));
    assert!(!cpu.check_breakpoint(Breakpoint::PC(0x202)));
    assert!(cpu.check_breakpoint(Breakpoint::I(0)));
    assert!(!cpu.check_breakpoint(Breakpoint::I(1)));
}

#[test]
fn program_counter_overflow_reloads_the_bootstrap_program() {
    let mut cpu = CPU::new();
    change(&mut cpu, |s| s.PC = 0xFFFE);
    assert_eq!(cpu.tick(&NO_KEYS), Err(Error::ProgramCounterOverflow));
    assert_eq!(cpu.PC(), 0x200);
    assert_eq!(&cpu.mem()[0x200..0x200 + BOOTROM.len()], &BOOTROM[..]);
    assert_eq!(cpu.next_opcode(), 0x00E0);
}

#[test]
fn running_off_the_end_of_memory_overflows() {
    let mut cpu = with_rom(&vec![0u8; 0x10000 - 0x200]);
    let mut ticks = 0;
    loop {
        match cpu.tick(&NO_KEYS) {
            Ok(()) => ticks += 1,
            Err(e) => {
                assert_eq!(e, Error::ProgramCounterOverflow);
                break;
            }
        }
        assert!(ticks < 40000);
    }
    // The instructions at 0x200, 0x202, ... 0xFFFA ran; the one at 0xFFFC
    // ran too, and the fetch at 0xFFFE failed.
    assert_eq!(ticks, (0xFFFC - 0x200) / 2);
    assert_eq!(cpu.PC(), 0x200);
}

#[test]
fn rom_too_large_leaves_the_bootstrap_program() {
    let mut cpu = CPU::new();
    let rom = vec![0xAAu8; 0x10000 - 0x200 + 1];
    assert_eq!(cpu.load_rom(&rom), Err(RomError::RomTooLarge));
    assert_eq!(&cpu.mem()[0x200..0x200 + BOOTROM.len()], &BOOTROM[..]);
    assert_eq!(cpu.mem()[0x200 + BOOTROM.len()], 0);
    assert_eq!(cpu.PC(), 0x200);
    // The largest ROM that fits is taken.
    let rom = vec![0xAAu8; 0x10000 - 0x200];
    assert_eq!(cpu.load_rom(&rom), Ok(()));
    assert_eq!(cpu.mem()[0xFFFF], 0xAA);
}

#[test]
fn load_rom_resets_the_video_mode() {
    let mut cpu = with_rom(&[0x00, 0xFF]);
    cpu.tick(&NO_KEYS).unwrap();
    assert_eq!(cpu.vmem().video_mode(), VideoMode::Extended);
    cpu.load_rom(&[0x00, 0xE0]).unwrap();
    assert_eq!(cpu.vmem().video_mode(), VideoMode::Default);
    assert_eq!(cpu.next_opcode(), 0x00E0);
    assert_eq!(cpu.next_opcode_description(), "CLS");
}

#[test]
fn bootstrap_program_draws_and_loops() {
    let mut cpu = CPU::new();
    cpu.load_bootrom();
    for _ in 0..100 {
        assert_eq!(cpu.tick(&NO_KEYS), Ok(()));
    }
    assert_eq!(cpu.PC(), 0x214);
    assert!(cpu.draw());
    let mut set = 0;
    for y in 0..32 {
        for x in 0..64 {
            if cpu.vmem().get_plane(Plane::First, x, y) {
                set += 1;
            }
        }
    }
    assert!(set > 0);
}

#[test]
fn key_wait_takes_the_lowest_pressed_key() {
    let mut cpu = with_rom(&[0xF5, 0x0A, 0x61, 0x07]);
    cpu.tick(&NO_KEYS).unwrap();
    assert!(cpu.key_wait());
    assert_eq!(cpu.PC(), 0x202);
    // No key: the machine goes on waiting and runs nothing.
    cpu.tick(&NO_KEYS).unwrap();
    assert!(cpu.key_wait());
    assert_eq!(cpu.PC(), 0x202);
    assert_eq!(cpu.V()[1], 0);
    // Keys 9 and 3: key 3 is taken, and no instruction runs in this tick.
    let mut keys = NO_KEYS;
    keys[9] = true;
    keys[3] = true;
    cpu.tick(&keys).unwrap();
    assert!(!cpu.key_wait());
    assert_eq!(cpu.V()[5], 3);
    assert_eq!(cpu.PC(), 0x202);
    assert_eq!(cpu.V()[1], 0);
    assert_eq!(cpu.keys(), keys);
    // The next tick runs the next instruction.
    cpu.tick(&NO_KEYS).unwrap();
    assert_eq!(cpu.V()[1], 7);
    assert_eq!(cpu.PC(), 0x204);
}

#[test]
fn timers_count_down_to_zero() {
    let mut cpu = CPU::new();
    change(&mut cpu, |s| {
        s.DT = 2;
        s.ST = 1;
    });
    cpu.update_timers();
    assert_eq!((cpu.DT(), cpu.ST()), (1, 0));
    cpu.update_timers();
    assert_eq!((cpu.DT(), cpu.ST()), (0, 0));
    cpu.update_timers();
    assert_eq!((cpu.DT(), cpu.ST()), (0, 0));
}

#[test]
fn call_and_return() {
    // 2204: call 0x204; 0000; 00EE: return.
    let mut cpu = with_rom(&[0x22, 0x04, 0x00, 0x00, 0x00, 0xEE]);
    cpu.tick(&NO_KEYS).unwrap();
    assert_eq!((cpu.PC(), cpu.sp(), cpu.stack()[0]), (0x204, 1, 0x200));
    cpu.tick(&NO_KEYS).unwrap();
    assert_eq!((cpu.PC(), cpu.sp()), (0x202, 0));
}

#[test]
fn stack_overflow_and_underflow_are_errors() {
    // 2200: call itself, for ever.
    let mut cpu = with_rom(&[0x22, 0x00]);
    for depth in 1..=16 {
        assert_eq!(cpu.tick(&NO_KEYS), Ok(()));
        assert_eq!(cpu.sp(), depth);
    }
    let before = cpu.save_state().unwrap();
    assert_eq!(cpu.tick(&NO_KEYS), Err(Error::StackOverflow));
    assert_eq!(cpu.sp(), 16);
    assert_eq!(cpu.PC(), 0x200);
    assert_eq!(cpu.stack(), before.stack);

    let mut cpu = with_rom(&[0x00, 0xEE]);
    assert_eq!(cpu.tick(&NO_KEYS), Err(Error::StackUnderflow));
    assert_eq!(cpu.sp(), 0);
    assert_eq!(cpu.PC(), 0x200);
}

#[test]
fn memory_behind_its_end_is_an_error() {
    let cases: [&[u8]; 6] = [
        &[0xF0, 0x33],
        &[0xF5, 0x55],
        &[0xF5, 0x65],
        &[0x50, 0x52],
        &[0xF0, 0x02],
        &[0xD0, 0x05],
    ];
    for rom in cases {
        let mut cpu = with_rom(rom);
        change(&mut cpu, |s| s.I = 0xFFFE);
        let before = cpu.save_state().unwrap();
        assert_eq!(cpu.tick(&NO_KEYS), Err(Error::MemoryOutOfBounds));
        assert_eq!(cpu.PC(), 0x200);
        assert_eq!(cpu.V(), before.V);
        assert_eq!(cpu.mem(), &before.mem[..]);
    }
    // The last bytes of memory can be used.
    let mut cpu = with_rom(&[0xF0, 0x33]);
    change(&mut cpu, |s| {
        s.I = 0xFFFD;
        s.V[0] = 255;
    });
    assert_eq!(cpu.tick(&NO_KEYS), Ok(()));
    assert_eq!(&cpu.mem()[0xFFFD..], &[2, 5, 5]);
}

#[test]
fn keys_and_flag_registers_out_of_range_are_errors() {
    let mut cpu = with_rom(&[0xE0, 0x9E]);
    change(&mut cpu, |s| s.V[0] = 16);
    assert_eq!(cpu.tick(&NO_KEYS), Err(Error::InvalidKey));
    let mut cpu = with_rom(&[0xE0, 0xA1]);
    change(&mut cpu, |s| s.V[0] = 200);
    assert_eq!(cpu.tick(&NO_KEYS), Err(Error::InvalidKey));
    let mut cpu = with_rom(&[0xF8, 0x75]);
    assert_eq!(cpu.tick(&NO_KEYS), Err(Error::InvalidFlagRegister));
    let mut cpu = with_rom(&[0xF8, 0x85]);
    assert_eq!(cpu.tick(&NO_KEYS), Err(Error::InvalidFlagRegister));
    let mut cpu = with_rom(&[0xF7, 0x75]);
    assert_eq!(cpu.tick(&NO_KEYS), Ok(()));
}

#[test]
fn index_register_wraps_and_sets_the_flag() {
    let mut cpu = with_rom(&[0xF0, 0x1E]);
    change(&mut cpu, |s| {
        s.I = 0xFFFF;
        s.V[0] = 2;
    });
    cpu.tick(&NO_KEYS).unwrap();
    assert_eq!(cpu.I(), 1);
    assert_eq!(cpu.V()[0xF], 1);

    let mut cpu = with_rom(&[0xF0, 0x1E]);
    change(&mut cpu, |s| {
        s.I = 0xFFF0;
        s.V[0] = 2;
        s.V[0xF] = 7;
    });
    cpu.tick(&NO_KEYS).unwrap();
    assert_eq!(cpu.I(), 0xFFF2);
    assert_eq!(cpu.V()[0xF], 7);
}

#[test]
fn hires_mode_is_entered_only_by_the_first_instruction() {
    let mut cpu = with_rom(&[0x12, 0x60]);
    cpu.tick(&NO_KEYS).unwrap();
    assert_eq!(cpu.vmem().video_mode(), VideoMode::HiRes);
    assert_eq!(cpu.PC(), 0x2C0);

    // 1204, then 1260 at 0x204: a jump.
    let mut cpu = with_rom(&[0x12, 0x04, 0x00, 0x00, 0x12, 0x60]);
    cpu.tick(&NO_KEYS).unwrap();
    cpu.tick(&NO_KEYS).unwrap();
    assert_eq!(cpu.vmem().video_mode(), VideoMode::Default);
    assert_eq!(cpu.PC(), 0x260);
}

#[test]
fn random_byte_is_masked() {
    let mut seen = [false; 256];
    for _ in 0..2000 {
        let mut cpu = with_rom(&[0xC0, 0xFF]);
        cpu.tick(&NO_KEYS).unwrap();
        seen[cpu.V()[0] as usize] = true;
        let mut cpu = with_rom(&[0xC0, 0x0F]);
        cpu.tick(&NO_KEYS).unwrap();
        assert!(cpu.V()[0] < 16);
    }
    // A generator that is one has given more than a few values.
    assert!(seen.iter().filter(|s| **s).count() > 50);
    // With the byte given the result is known.
    let mut cpu = with_rom(&[0xC3, 0x3C]);
    cpu.tick_with(&NO_KEYS, 0xA5).unwrap();
    assert_eq!(cpu.V()[3], 0x24);
    let mut cpu = with_rom(&[0xC3, 0x3C]);
    cpu.emulate_cycle_with(0xFF).unwrap();
    assert_eq!(cpu.V()[3], 0x3C);
}

#[test]
fn descriptions() {
    let cases: [(&[u8], &str); 14] = [
        (&[0x00, 0xC5], "SCD 5"),
        (&[0x00, 0xCF], "SCD 15"),
        (&[0x00, 0xEE], "RET"),
        (&[0x02, 0x30], "SYS 230 (Ignored)"),
        (&[0x12, 0x60], "HIRES [HiRes]"),
        (&[0x1A, 0xBC], "JP ABC"),
        (&[0x3A, 0x0F], "SE VA (00), 0F"),
        (&[0x5A, 0xB2], "LD [I], VA, VB [XO-CHIP]"),
        (&[0x80, 0x16], "SHR V0 (00)"),
        (&[0xB1, 0x23], "JP V1 (000), 123"),
        (&[0xD1, 0x2F], "DRW V1 (00), V2 (00), F"),
        (&[0xF0, 0x00, 0xFE, 0xDC], "LD I, FEDC [XO-CHIP]"),
        (&[0xFC, 0x01], "PLANE 12 [XO-CHIP]"),
        (&[0x51, 0x21], "Invalid"),
    ];
    for (rom, text) in cases {
        let cpu = with_rom(rom);
        assert_eq!(cpu.next_opcode_description(), text);
    }
    let mut cpu = with_rom(&[0x6A, 0x5C, 0x3A, 0x0F]);
    cpu.tick(&NO_KEYS).unwrap();
    assert_eq!(cpu.opcode(), 0x6A5C);
    assert_eq!(cpu.opcode_description(), "LD VA, 5C");
    assert_eq!(cpu.next_opcode_description(), "SE VA (5C), 0F");
    cpu.set_quirk_shift(false);
    cpu.set_quirk_jump(false);
    cpu.load_rom(&[0x80, 0x1E]).unwrap();
    assert_eq!(cpu.next_opcode_description(), "SHL V0, V1 (00)");
    cpu.load_rom(&[0xB1, 0x23]).unwrap();
    assert_eq!(cpu.next_opcode_description(), "JP V0 (00), 123");
}

#[test]
fn error_messages() {
    assert_eq!(
        Error::ProgramCounterOverflow.message(),
        "Program counter overflow!"
    );
    assert_eq!(
        Error::StackOverflow.message(),
        "Stack overflow occurred! The ROM might be invalid or different quirk settings required."
    );
    assert_eq!(
        Error::LoadStateError.message(),
        "Load state error: Failed to deserialize state!"
    );
    assert_eq!(
        Error::SaveStateError.message(),
        "Save state error: Failed to serialize state!"
    );
    assert_eq!(RomError::RomTooLarge.message(), "Invalid ROM!");
    for e in [
        Error::StackUnderflow,
        Error::MemoryOutOfBounds,
        Error::InvalidKey,
        Error::InvalidFlagRegister,
    ] {
        assert!(!e.message().is_empty());
    }
}

#[test]
fn state_round_trip_and_refusal() {
    let mut cpu = with_rom(&[0x6A, 0x5C, 0xA1, 0x23, 0xD0, 0x05]);
    for _ in 0..3 {
        cpu.tick(&NO_KEYS).unwrap();
    }
    let state = cpu.save_state().unwrap();
    let copy = CPU::from_state(state).unwrap();
    assert_eq!(copy.mem(), cpu.mem());
    assert_eq!(copy.V(), cpu.V());
    assert_eq!(copy.I(), 0x123);
    assert_eq!(copy.PC(), cpu.PC());
    assert_eq!(copy.next_opcode(), cpu.next_opcode());
    assert_eq!(copy.opcode_description(), cpu.opcode_description());
    assert_eq!(copy.vmem().first_plane(), cpu.vmem().first_plane());
    assert_eq!(copy.draw(), true);

    let refused = |f: fn(&mut CpuState)| {
        let mut state = CPU::new().save_state().unwrap();
        f(&mut state);
        match CPU::from_state(state) {
            Ok(_) => panic!("a state that is no machine was taken"),
            Err(e) => assert_eq!(e, Error::LoadStateError),
        }
    };
    refused(|s| s.mem.push(0));
    refused(|s| s.mem.clear());
    refused(|s| s.vmem1.truncate(4096));
    refused(|s| s.vmem2.push(false));
    refused(|s| s.sp = 17);
    refused(|s| s.key_reg = 16);
    let mut state = CPU::new().save_state().unwrap();
    state.sp = 16;
    state.key_reg = 15;
    assert!(CPU::from_state(state).is_ok());
}

#[test]
fn scrolling_in_default_mode_moves_by_half_pixels() {
    // 00C1: scroll down one row of cells.
    let mut cpu = with_rom(&[0x00, 0xC1, 0x00, 0xC1, 0x00, 0xFB]);
    change(&mut cpu, |s| {
        for (dx, dy) in [(0, 0), (1, 0), (0, 1), (1, 1)] {
            s.vmem1[dy * 128 + dx] = true;
        }
    });
    assert!(cpu.vmem().get_plane(Plane::First, 0, 0));
    cpu.tick(&NO_KEYS).unwrap();
    // The block now covers the cell rows 1 and 2: half of pixel (0, 0)
    // and half of pixel (0, 1).
    assert!(!cpu.vmem().get_index_plane(Plane::First, 0));
    assert!(cpu.vmem().get_index_plane(Plane::First, 128));
    assert!(cpu.vmem().get_index_plane(Plane::First, 2 * 128 + 1));
    assert!(!cpu.vmem().get_index_plane(Plane::First, 3 * 128));
    cpu.tick(&NO_KEYS).unwrap();
    assert!(!cpu.vmem().get_plane(Plane::First, 0, 0));
    assert!(cpu.vmem().get_plane(Plane::First, 0, 1));
    cpu.tick(&NO_KEYS).unwrap();
    assert!(!cpu.vmem().get_plane(Plane::First, 0, 1));
    assert!(cpu.vmem().get_plane(Plane::First, 2, 1));
}

#[test]
fn four_byte_instruction_at_the_end_of_memory() {
    // A fetch of F000 from the last three bytes would read behind memory.
    let mut cpu = CPU::new();
    change(&mut cpu, |s| {
        s.mem[0xFFFD] = 0xF0;
        s.mem[0xFFFE] = 0x00;
        s.PC = 0xFFFD;
    });
    assert_eq!(
        cpu.prefetch_next_opcode(),
        Err(Error::ProgramCounterOverflow)
    );
    assert_eq!(cpu.PC(), 0x200);
    let mut cpu = CPU::new();
    change(&mut cpu, |s| {
        s.mem[0xFFFD] = 0x60;
        s.mem[0xFFFE] = 0x11;
        s.PC = 0xFFFD;
    });
    assert_eq!(cpu.prefetch_next_opcode(), Ok(()));
    assert_eq!(cpu.next_opcode(), 0x6011);
}
