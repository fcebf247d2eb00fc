use chip8::{keycode_to_index, Cpu, CpuError};

fn words(program: &[u16]) -> Vec<u8> {
    let mut bytes = Vec::new();
    for w in program {
        bytes.push((w >> 8) as u8);
        bytes.push((w & 0xFF) as u8);
    }
    bytes
}

fn machine(program: &[u16]) -> Cpu {
    let mut cpu = Cpu::new();
    cpu.load_rom(&words(program));
    cpu
}

fn run(cpu: &mut Cpu, steps: usize) {
    for _ in 0..steps {
        cpu.execute_inst_with(0).unwrap();
    }
}

fn pixel(cpu: &Cpu, x: usize, y: usize) -> bool {
    cpu.read_framebuffer()[64 * y + x]
}

#[test]
fn end_to_end_three_instructions() {
    let mut cpu = machine(&[0x6005, 0x600A, 0x7003]);
    run(&mut cpu, 3);
    assert_eq!(cpu.register(0), 0x0D);
    assert_eq!(cpu.pc(), 0x206);
}

#[test]
fn load_rom_places_program_at_0x200() {
    let cpu = machine(&[0x1234, 0xABCD]);
    assert_eq!(cpu.pc(), 0x200);
    assert_eq!(cpu.memory_at(0x200), 0x12);
    assert_eq!(cpu.memory_at(0x201), 0x34);
    assert_eq!(cpu.memory_at(0x202), 0xAB);
    assert_eq!(cpu.memory_at(0x203), 0xCD);
    assert_eq!(cpu.memory_at(0x204), 0);
}

#[test]
fn new_machine_holds_font() {
    let cpu = Cpu::new();
    assert_eq!(cpu.memory_at(0), 0xF0);
    assert_eq!(cpu.memory_at(5), 0x20);
    assert_eq!(cpu.memory_at(79), 0x80);
    assert_eq!(cpu.memory_at(80), 0);
    assert_eq!(cpu.stack_depth(), 0);
    assert!(!cpu.read_framebuffer().iter().any(|&p| p));
}

#[test]
fn add_reg_reg_all_pairs() {
    let mut cpu = Cpu::new();
    for a in 0..=255u16 {
        for b in 0..=255u16 {
            cpu.load_rom(&words(&[0x6100 | a, 0x6200 | b, 0x8124]));
            run(&mut cpu, 3);
            assert_eq!(cpu.register(1) as u16, (a + b) % 256);
            assert_eq!(cpu.register(15), if a + b > 255 { 1 } else { 0 });
        }
    }
}

#[test]
fn sub_and_subn_all_pairs() {
    let mut cpu = Cpu::new();
    for a in 0..=255u16 {
        for b in 0..=255u16 {
            cpu.load_rom(&words(&[0x6100 | a, 0x6200 | b, 0x8125]));
            run(&mut cpu, 3);
            assert_eq!(cpu.register(1) as u16, (a + 256 - b) % 256);
            assert_eq!(cpu.register(15), if a >= b { 1 } else { 0 });

            cpu.load_rom(&words(&[0x6100 | a, 0x6200 | b, 0x8127]));
            run(&mut cpu, 3);
            assert_eq!(cpu.register(1) as u16, (b + 256 - a) % 256);
            assert_eq!(cpu.register(15), if b >= a { 1 } else { 0 });
        }
    }
}

#[test]
fn shr_all_values() {
    let mut cpu = Cpu::new();
    for a in 0..=255u16 {
        cpu.load_rom(&words(&[0x6300 | a, 0x8306]));
        run(&mut cpu, 2);
        assert_eq!(cpu.register(15) as u16, a & 1);
        assert_eq!(cpu.register(3) as u16, a >> 1);
    }
}

#[test]
fn shl_all_values() {
    let mut cpu = Cpu::new();
    for a in 0..=255u16 {
        cpu.load_rom(&words(&[0x6300 | a, 0x830E]));
        run(&mut cpu, 2);
        assert_eq!(cpu.register(15) as u16, a >> 7);
        assert_eq!(cpu.register(3) as u16, (a << 1) & 0xFF);
    }
}

#[test]
fn flag_register_as_destination_keeps_result() {
    let mut cpu = machine(&[0x6FF0, 0x6120, 0x8F14]);
    run(&mut cpu, 3);
    assert_eq!(cpu.register(15), 0x10);
}

#[test]
fn add_byte_wraps_without_flag() {
    let mut cpu = machine(&[0x6F07, 0x60FF, 0x7002]);
    run(&mut cpu, 3);
    assert_eq!(cpu.register(0), 1);
    assert_eq!(cpu.register(15), 7);
}

#[test]
fn logic_ops() {
    let mut cpu = machine(&[0x610C, 0x620A, 0x8121, 0x630C, 0x8322, 0x640C, 0x8423, 0x8520]);
    run(&mut cpu, 8);
    assert_eq!(cpu.register(1), 0x0E);
    assert_eq!(cpu.register(3), 0x08);
    assert_eq!(cpu.register(4), 0x06);
    assert_eq!(cpu.register(5), 0x0A);
}

#[test]
fn draw_twice_restores_framebuffer() {
    // I := font glyph for 0, draw it at (0, 0) twice.
    let mut cpu = machine(&[0x6000, 0x6100, 0xA000, 0xD015, 0xD015]);
    run(&mut cpu, 3);
    let before = cpu.read_framebuffer();
    run(&mut cpu, 1);
    assert_eq!(cpu.register(15), 0);
    assert!(pixel(&cpu, 0, 0));
    run(&mut cpu, 1);
    assert_eq!(cpu.read_framebuffer(), before);
    // On a blank screen the second draw erases lit pixels: a collision.
    assert_eq!(cpu.register(15), 1);
}

#[test]
fn draw_twice_over_lit_pixels_reports_no_second_collision() {
    // Draw once to light the glyph, then draw twice more: the first of these
    // erases (collision), the second relights (no collision).
    let mut cpu = machine(&[0xA000, 0xD005, 0xD005, 0xD005]);
    run(&mut cpu, 2);
    let lit = cpu.read_framebuffer();
    run(&mut cpu, 1);
    assert_eq!(cpu.register(15), 1);
    run(&mut cpu, 1);
    assert_eq!(cpu.register(15), 0);
    assert_eq!(cpu.read_framebuffer(), lit);
}

#[test]
fn draw_wraps_horizontally_on_same_row() {
    // Sprite row 0b0100_0000 at x = 63, y = 0: the set bit lands on x = 0.
    let mut cpu = Cpu::new();
    let mut rom = words(&[0xA300, 0x603F, 0x6100, 0xD011]);
    rom.resize(0x100, 0);
    rom.push(0x40);
    cpu.load_rom(&rom);
    run(&mut cpu, 4);
    assert!(pixel(&cpu, 0, 0));
    assert!(!pixel(&cpu, 63, 0));
    assert!(!pixel(&cpu, 0, 1));
    assert_eq!(cpu.read_framebuffer().iter().filter(|&&p| p).count(), 1);
}

#[test]
fn draw_wraps_vertically() {
    // Glyph 0 (5 rows) at (10, 30): rows 30, 31, 0, 1, 2.
    let mut cpu = machine(&[0xA000, 0x600A, 0x611E, 0xD015]);
    run(&mut cpu, 4);
    assert!(pixel(&cpu, 10, 30));
    assert!(pixel(&cpu, 10, 31));
    assert!(pixel(&cpu, 10, 0));
    assert!(pixel(&cpu, 10, 2));
    assert!(pixel(&cpu, 13, 2));
    assert!(!pixel(&cpu, 11, 1));
}

#[test]
fn draw_sets_redraw_flag_and_cls_clears() {
    let mut cpu = machine(&[0xA000, 0xD005, 0x00E0]);
    assert!(!cpu.take_redraw_flag());
    run(&mut cpu, 2);
    assert!(cpu.take_redraw_flag());
    assert!(!cpu.take_redraw_flag());
    run(&mut cpu, 1);
    assert!(cpu.take_redraw_flag());
    assert!(!cpu.read_framebuffer().iter().any(|&p| p));
}

#[test]
fn call_ret_returns_after_call_at_every_depth() {
    for depth in 1..=16u16 {
        let mut program = Vec::new();
        for k in 0..depth {
            program.push(0x2000 | (0x200 + 2 * (k + 1)));
        }
        program.push(0x00EE);
        let mut cpu = machine(&program);
        run(&mut cpu, depth as usize);
        assert_eq!(cpu.stack_depth() as u16, depth);
        let pc_after_call = cpu.pc();
        run(&mut cpu, 1);
        // The innermost call stood at pc_after_call - 2.
        assert_eq!(cpu.pc(), pc_after_call);
        assert_eq!(cpu.pc(), 0x200 + 2 * (depth - 1) + 2);
        assert_eq!(cpu.stack_depth() as u16, depth - 1);
    }
}

#[test]
fn call_and_return_to_caller() {
    let mut program = vec![0x2300, 0x6107];
    program.resize(0x80, 0);
    program.push(0x00EE);
    let mut cpu = machine(&program);
    run(&mut cpu, 1);
    assert_eq!(cpu.pc(), 0x300);
    run(&mut cpu, 2);
    assert_eq!(cpu.pc(), 0x204);
    assert_eq!(cpu.register(1), 7);
}

#[test]
fn call_at_depth_sixteen_overflows() {
    let mut program = Vec::new();
    for k in 0..17u16 {
        program.push(0x2000 | (0x200 + 2 * (k + 1)));
    }
    let mut cpu = machine(&program);
    run(&mut cpu, 16);
    assert_eq!(cpu.stack_depth(), 16);
    let pc = cpu.pc();
    assert_eq!(cpu.execute_inst_with(0), Err(CpuError::StackOverflow));
    assert_eq!(cpu.pc(), pc);
    assert_eq!(cpu.stack_depth(), 16);
}

#[test]
fn ret_on_empty_stack_underflows() {
    let mut cpu = machine(&[0x00EE]);
    assert_eq!(cpu.execute_inst_with(0), Err(CpuError::StackUnderflow));
    assert_eq!(cpu.pc(), 0x200);
}

#[test]
fn bcd_of_234() {
    let mut cpu = machine(&[0x60EA, 0xA300, 0xF033]);
    run(&mut cpu, 3);
    assert_eq!(cpu.memory_at(0x300), 2);
    assert_eq!(cpu.memory_at(0x301), 3);
    assert_eq!(cpu.memory_at(0x302), 4);
    assert_eq!(cpu.index(), 0x300);
}

#[test]
fn bcd_of_small_values() {
    let mut cpu = machine(&[0x6007, 0xA300, 0xF033]);
    run(&mut cpu, 3);
    assert_eq!(cpu.memory_at(0x300), 0);
    assert_eq!(cpu.memory_at(0x301), 0);
    assert_eq!(cpu.memory_at(0x302), 7);
}

#[test]
fn sprite_address_of_digit_a() {
    let mut cpu = machine(&[0x600A, 0xF029]);
    run(&mut cpu, 2);
    assert_eq!(cpu.index(), 50);
    let glyph: Vec<u8> = (50..55).map(|a| cpu.memory_at(a)).collect();
    assert_eq!(glyph, vec![0xF0, 0x90, 0xF0, 0x90, 0x90]);
}

#[test]
fn sprite_address_out_of_range() {
    let mut cpu = machine(&[0x6010, 0xF029]);
    run(&mut cpu, 1);
    assert_eq!(cpu.execute_inst_with(0), Err(CpuError::DigitOutOfRange { digit: 16 }));
    assert_eq!(cpu.index(), 0);
}

#[test]
fn timer_decays_once_per_ten_cycles_at_600_hz() {
    // V0 := 5, DT := V0, then spin on a jump.
    let mut cpu = machine(&[0x6005, 0xF015, 0x1204]);
    let mut decays = Vec::new();
    let mut last = 0u8;
    for cycle in 1..=40u32 {
        cpu.execute_inst_with(0).unwrap();
        cpu.update_timers(600);
        let dt = cpu.delay_timer();
        if cycle > 2 && dt != last {
            assert_eq!(dt + 1, last);
            decays.push(cycle);
        }
        last = dt;
    }
    assert_eq!(decays, vec![10, 20, 30, 40]);
    assert_eq!(cpu.delay_timer(), 1);
}

#[test]
fn timers_stop_at_zero() {
    let mut cpu = machine(&[0x6001, 0xF018]);
    run(&mut cpu, 2);
    assert_eq!(cpu.sound_timer(), 1);
    assert!(cpu.sound_active());
    for _ in 0..5 {
        cpu.update_timers(60);
    }
    assert_eq!(cpu.sound_timer(), 0);
    assert_eq!(cpu.delay_timer(), 0);
    assert!(!cpu.sound_active());
}

#[test]
fn delay_timer_read_back() {
    let mut cpu = machine(&[0x6009, 0xF015, 0xF307]);
    run(&mut cpu, 3);
    assert_eq!(cpu.register(3), 9);
}

#[test]
fn skip_instructions() {
    // SE taken, SNE not taken, SE reg taken, SNE reg not taken.
    let mut cpu = machine(&[0x6105, 0x3105, 0x0000, 0x4105, 0x6205, 0x5120, 0x0000, 0x9120]);
    run(&mut cpu, 2);
    assert_eq!(cpu.pc(), 0x206);
    run(&mut cpu, 1);
    assert_eq!(cpu.pc(), 0x208);
    run(&mut cpu, 2);
    assert_eq!(cpu.pc(), 0x20E);
    run(&mut cpu, 1);
    assert_eq!(cpu.pc(), 0x210);
}

#[test]
fn key_skips_follow_keyboard() {
    let mut cpu = machine(&[0x6007, 0xE09E, 0xE0A1]);
    cpu.set_keyboard(7, true);
    run(&mut cpu, 2);
    assert_eq!(cpu.pc(), 0x206);
    let mut cpu = machine(&[0x6007, 0xE0A1]);
    run(&mut cpu, 2);
    assert_eq!(cpu.pc(), 0x206);
}

#[test]
fn key_skip_out_of_range() {
    let mut cpu = machine(&[0x6011, 0xE09E]);
    run(&mut cpu, 1);
    assert_eq!(cpu.execute_inst_with(0), Err(CpuError::KeyOutOfRange { key: 0x11 }));
    assert_eq!(cpu.pc(), 0x202);
}

#[test]
fn wait_for_key_blocks_then_takes_lowest() {
    let mut cpu = machine(&[0xF30A]);
    run(&mut cpu, 3);
    assert_eq!(cpu.pc(), 0x200);
    cpu.set_keyboard(0xB, true);
    cpu.set_keyboard(0x4, true);
    run(&mut cpu, 1);
    assert_eq!(cpu.register(3), 4);
    assert_eq!(cpu.pc(), 0x202);
}

#[test]
fn store_and_load_registers_leave_index() {
    let mut cpu = machine(&[0x6011, 0x6122, 0x6233, 0xA400, 0xF255, 0x6000, 0x6100, 0x6200, 0x63FF, 0xF265]);
    run(&mut cpu, 5);
    assert_eq!(cpu.memory_at(0x400), 0x11);
    assert_eq!(cpu.memory_at(0x401), 0x22);
    assert_eq!(cpu.memory_at(0x402), 0x33);
    assert_eq!(cpu.memory_at(0x403), 0);
    assert_eq!(cpu.index(), 0x400);
    run(&mut cpu, 5);
    assert_eq!(cpu.register(0), 0x11);
    assert_eq!(cpu.register(1), 0x22);
    assert_eq!(cpu.register(2), 0x33);
    assert_eq!(cpu.register(3), 0xFF);
    assert_eq!(cpu.index(), 0x400);
}

#[test]
fn store_past_memory_end_fails() {
    let mut cpu = machine(&[0xAFFE, 0xF255]);
    run(&mut cpu, 1);
    assert_eq!(cpu.execute_inst_with(0), Err(CpuError::AddressOutOfRange));
    assert_eq!(cpu.memory_at(0xFFE), 0);
    assert_eq!(cpu.pc(), 0x202);
}

#[test]
fn bcd_past_memory_end_fails() {
    let mut cpu = machine(&[0xAFFE, 0xF033]);
    run(&mut cpu, 1);
    assert_eq!(cpu.execute_inst_with(0), Err(CpuError::AddressOutOfRange));
}

#[test]
fn draw_past_memory_end_fails() {
    let mut cpu = machine(&[0xAFFD, 0xD005]);
    run(&mut cpu, 1);
    assert_eq!(cpu.execute_inst_with(0), Err(CpuError::AddressOutOfRange));
    assert!(!cpu.take_redraw_flag());
}

#[test]
fn fetch_past_memory_end_fails() {
    let mut cpu = machine(&[0x1FFF]);
    run(&mut cpu, 1);
    assert_eq!(cpu.pc(), 0xFFF);
    assert_eq!(cpu.execute_inst_with(0), Err(CpuError::AddressOutOfRange));
}

#[test]
fn add_index_overflow_fails() {
    let mut cpu = machine(&[0x60FF, 0xAFFF, 0xF01E, 0x1204]);
    run(&mut cpu, 2);
    let mut result = Ok(());
    for _ in 0..1000 {
        result = cpu.execute_inst_with(0);
        if result.is_err() {
            break;
        }
    }
    assert_eq!(result, Err(CpuError::AddressOutOfRange));
    assert!(cpu.index() as u32 + 0xFF > 0xFFFF);
}

#[test]
fn add_index_adds() {
    let mut cpu = machine(&[0x6010, 0xA100, 0xF01E]);
    run(&mut cpu, 3);
    assert_eq!(cpu.index(), 0x110);
}

#[test]
fn invalid_opcodes_are_reported() {
    for op in [0x0123u16, 0x8008, 0xE000, 0xF000] {
        let mut cpu = machine(&[op]);
        assert_eq!(cpu.execute_inst_with(0), Err(CpuError::InvalidOpcode { opcode: op, addr: 0x200 }));
        assert_eq!(cpu.pc(), 0x200);
    }
}

#[test]
fn jumps() {
    let mut cpu = machine(&[0x1300]);
    run(&mut cpu, 1);
    assert_eq!(cpu.pc(), 0x300);
    let mut cpu = machine(&[0x6004, 0xB300]);
    run(&mut cpu, 2);
    assert_eq!(cpu.pc(), 0x304);
}

#[test]
fn random_byte_is_masked() {
    let mut cpu = machine(&[0xC500, 0xC60F, 0xC7FF]);
    cpu.execute_inst_with(0xAB).unwrap();
    assert_eq!(cpu.register(5), 0);
    cpu.execute_inst_with(0xAB).unwrap();
    assert_eq!(cpu.register(6), 0x0B);
    cpu.execute_inst_with(0xAB).unwrap();
    assert_eq!(cpu.register(7), 0xAB);
}

#[test]
fn random_instruction_with_generator() {
    let mut cpu = machine(&[0xC500, 0xC60F]);
    cpu.execute_inst().unwrap();
    assert_eq!(cpu.register(5), 0);
    cpu.execute_inst().unwrap();
    assert!(cpu.register(6) <= 0x0F);
    assert_eq!(cpu.pc(), 0x204);
}

#[test]
fn keypad_layout() {
    assert_eq!(keycode_to_index('1'), Some(0x1));
    assert_eq!(keycode_to_index('4'), Some(0xC));
    assert_eq!(keycode_to_index('q'), Some(0x4));
    assert_eq!(keycode_to_index('r'), Some(0xD));
    assert_eq!(keycode_to_index('x'), Some(0x0));
    assert_eq!(keycode_to_index('z'), Some(0xA));
    assert_eq!(keycode_to_index('v'), Some(0xF));
    assert_eq!(keycode_to_index('p'), None);
    let mut seen = [false; 16];
    for c in "1234qwerasdfzxcv".chars() {
        let k = keycode_to_index(c).unwrap();
        assert!(!seen[k]);
        seen[k] = true;
    }
}
