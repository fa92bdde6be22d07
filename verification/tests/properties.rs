use risc_v::assembler;
use risc_v::bus::{Bus, MappedDevice};
use risc_v::cpu::cpu::{MCAUSE, MEPC, MTVEC, SATP};
use risc_v::cpu::{Address, CPU, INSTRUCTION, INTERRUPT, MachineFault, PrivilegeMode, RawInstruction};
use risc_v::devices::keyboard::{key_to_ascii, HostKey};
use risc_v::devices::screen::{CONTROL_REG, STATUS_REG};
use risc_v::devices::{Device, Keyboard, Memory, MmioDevice, Screen, Timer, UART};
use risc_v::interrupt::InterruptController;
use risc_v::machine::{init_vm, Machine};

fn run_one(vm: &mut Machine, word: u32) {
    let pc = vm.cpu.pc.0;
    vm.bus.write32(Address(pc), word);
    vm.cpu.step(&mut vm.bus).unwrap();
}

#[test]
fn decode_of_assembled_r_type_gives_it_back() {
    match CPU::decode(RawInstruction(assembler::assemble_remu(5, 6, 7))) {
        Some(INSTRUCTION::REMU(rd, rs1, rs2)) => {
            assert_eq!((rd.0, rs1.0, rs2.0), (5, 6, 7));
        }
        other => panic!("unexpected decode {:?}", other),
    }
}

#[test]
fn decode_of_assembled_addi_sign_extends() {
    match CPU::decode(RawInstruction(assembler::assemble_addi(1, 2, 0xFFF))) {
        Some(INSTRUCTION::ADDI(rd, rs1, imm)) => {
            assert_eq!((rd.0, rs1.0, imm.0), (1, 2, -1));
        }
        other => panic!("unexpected decode {:?}", other),
    }
}

#[test]
fn decode_of_assembled_bne_keeps_negative_offset() {
    match CPU::decode(RawInstruction(assembler::assemble_bne(3, 4, -8))) {
        Some(INSTRUCTION::BNE(rs1, rs2, imm)) => {
            assert_eq!((rs1.0, rs2.0, imm.0), (3, 4, -8));
        }
        other => panic!("unexpected decode {:?}", other),
    }
}

#[test]
fn decode_of_assembled_srai_and_sw() {
    match CPU::decode(RawInstruction(assembler::assemble_srai(1, 2, 35))) {
        Some(INSTRUCTION::SRAI(rd, rs1, sh)) => assert_eq!((rd.0, rs1.0, sh.0), (1, 2, 3)),
        other => panic!("unexpected decode {:?}", other),
    }
    match CPU::decode(RawInstruction(assembler::assemble_sw(2, 1, 0x804))) {
        Some(INSTRUCTION::SW(rs1, rs2, imm)) => assert_eq!((rs1.0, rs2.0, imm.0), (2, 1, -2044)),
        other => panic!("unexpected decode {:?}", other),
    }
}

#[test]
fn unknown_encoding_does_not_decode() {
    assert!(CPU::decode(RawInstruction(0xFFFF_FFFF)).is_none());
    assert!(CPU::decode(RawInstruction(assembler::assemble_ecall())).is_some());
}

#[test]
fn bus_word_write_reads_back_and_leaves_neighbours() {
    let mut bus = Bus::new();
    bus.add_device(MappedDevice(Address(0), Address(0xFFFF), MmioDevice::Memory(Memory::new())));
    bus.write32(Address(0x100), 0xA1B2_C3D4);
    bus.write8(Address(0x104), 0x77);
    assert_eq!(bus.read32(Address(0x100)), 0xA1B2_C3D4);
    assert_eq!(bus.read8(Address(0x101)), 0xC3);
    assert_eq!(bus.read16(Address(0x102)), 0xA1B2);
    assert_eq!(bus.read8(Address(0x104)), 0x77);
}

#[test]
fn bus_accessibility_and_first_mapping_wins() {
    let mut bus = Bus::new();
    bus.add_device(MappedDevice(Address(0x1000), Address(0x10FF), MmioDevice::Uart(UART::new())));
    bus.add_device(MappedDevice(Address(0x1000), Address(0x1FFF), MmioDevice::Memory(Memory::new())));
    assert!(bus.is_accessible(Address(0x1000)));
    assert!(!bus.is_accessible(Address(0x1001)));
    assert!(bus.is_accessible(Address(0x1100)));
    assert!(!bus.is_accessible(Address(0x2000)));
    assert_eq!(bus.check_access(Address(0x1000), 4), Some(MachineFault::BadRegister(0x1001)));
    assert_eq!(bus.check_access(Address(0x1FFE), 4), Some(MachineFault::Unmapped(0x2000)));
    assert_eq!(bus.check_access(Address(0x1100), 4), None);
}

#[test]
fn timer_byte_write_reads_back_and_status_acknowledges() {
    let mut timer = Timer::new();
    let mut ic = InterruptController::new();
    timer.write8(Address(4), 2);
    timer.write8(Address(7), 0);
    assert_eq!(timer.read8(Address(4)), 2);
    assert_eq!(timer.read8(Address(8)), 0);
    timer.tick(&mut ic);
    assert_eq!(timer.read8(Address(8)), 0);
    timer.tick(&mut ic);
    assert_eq!(timer.read8(Address(8)), 1);
    assert_eq!(ic.next_interrupt(), Some(INTERRUPT::TIMER));
    timer.write8(Address(8), 0xAB);
    assert_eq!(timer.read8(Address(8)), 0);
    assert_eq!(timer.read8(Address(0)), 2);
}

#[test]
fn interrupt_controller_is_fifo_without_duplicates() {
    let mut ic = InterruptController::new();
    ic.add_interrupt(INTERRUPT::UART);
    ic.add_interrupt(INTERRUPT::TIMER);
    ic.add_interrupt(INTERRUPT::UART);
    assert_eq!(ic.next_interrupt(), Some(INTERRUPT::UART));
    assert_eq!(ic.next_interrupt(), Some(INTERRUPT::TIMER));
    assert_eq!(ic.next_interrupt(), None);
}

#[test]
fn x0_stays_zero() {
    let mut vm = init_vm();
    run_one(&mut vm, assembler::assemble_addi(0, 0, 5));
    assert_eq!(vm.cpu.registers[0], 0);
}

#[test]
fn division_edge_cases() {
    let cases: [(u32, u32, u32, u32, u32, u32); 4] = [
        // a, b, div, divu, rem, remu
        (7, 0, 0xFFFF_FFFF, 0xFFFF_FFFF, 7, 7),
        (0x8000_0000, 0xFFFF_FFFF, 0x8000_0000, 0, 0, 0x8000_0000),
        ((-7i32) as u32, 2, (-3i32) as u32, 0x7FFF_FFFC, (-1i32) as u32, 1),
        (7, (-2i32) as u32, (-3i32) as u32, 0, 1, 7),
    ];
    for (a, b, div, divu, rem, remu) in cases {
        let mut vm = init_vm();
        vm.cpu.registers[1] = a;
        vm.cpu.registers[2] = b;
        run_one(&mut vm, assembler::assemble_div(3, 1, 2));
        run_one(&mut vm, assembler::assemble_divu(4, 1, 2));
        run_one(&mut vm, assembler::assemble_rem(5, 1, 2));
        run_one(&mut vm, assembler::assemble_remu(6, 1, 2));
        assert_eq!(vm.cpu.registers[3], div);
        assert_eq!(vm.cpu.registers[4], divu);
        assert_eq!(vm.cpu.registers[5], rem);
        assert_eq!(vm.cpu.registers[6], remu);
    }
}

#[test]
fn multiply_high_words() {
    let mut vm = init_vm();
    vm.cpu.registers[1] = 0xFFFF_FFFF;
    vm.cpu.registers[2] = 0xFFFF_FFFF;
    run_one(&mut vm, assembler::assemble_mulh(3, 1, 2));
    run_one(&mut vm, assembler::assemble_mulhu(4, 1, 2));
    run_one(&mut vm, assembler::assemble_mulhsu(5, 1, 2));
    run_one(&mut vm, assembler::assemble_mul(6, 1, 2));
    assert_eq!(vm.cpu.registers[3], 0);
    assert_eq!(vm.cpu.registers[4], 0xFFFF_FFFE);
    assert_eq!(vm.cpu.registers[5], 0xFFFF_FFFF);
    assert_eq!(vm.cpu.registers[6], 1);
}

#[test]
fn shifts_use_low_five_bits_and_sra_keeps_sign() {
    let mut vm = init_vm();
    vm.cpu.registers[1] = 0x8000_0010;
    vm.cpu.registers[2] = 36;
    run_one(&mut vm, assembler::assemble_sra(3, 1, 2));
    run_one(&mut vm, assembler::assemble_srl(4, 1, 2));
    run_one(&mut vm, assembler::assemble_sll(5, 1, 2));
    run_one(&mut vm, assembler::assemble_slt(6, 1, 2));
    assert_eq!(vm.cpu.registers[3], 0xF800_0001);
    assert_eq!(vm.cpu.registers[4], 0x0800_0001);
    assert_eq!(vm.cpu.registers[5], 0x0000_0100);
    assert_eq!(vm.cpu.registers[6], 1);
}

#[test]
fn loads_extend_and_stores_truncate() {
    let mut vm = init_vm();
    vm.cpu.registers[2] = 0x200;
    vm.cpu.registers[1] = 0x1234_80F0;
    // SH x1, 0(x2); then LB/LBU/LH from the stored bytes.
    run_one(&mut vm, assembler::assemble_s_type(0b0100011, 0b001, 2, 1, 0));
    run_one(&mut vm, assembler::assemble_i_type(0b0000011, 0b000, 3, 2, 0));
    run_one(&mut vm, assembler::assemble_i_type(0b0000011, 0b100, 4, 2, 0));
    run_one(&mut vm, assembler::assemble_i_type(0b0000011, 0b001, 5, 2, 0));
    run_one(&mut vm, assembler::assemble_i_type(0b0000011, 0b101, 6, 2, 0));
    run_one(&mut vm, assembler::assemble_lw(7, 2, 0));
    assert_eq!(vm.cpu.registers[3], 0xFFFF_FFF0);
    assert_eq!(vm.cpu.registers[4], 0xF0);
    assert_eq!(vm.cpu.registers[5], 0xFFFF_80F0);
    assert_eq!(vm.cpu.registers[6], 0x80F0);
    assert_eq!(vm.cpu.registers[7], 0x80F0);
}

#[test]
fn jal_and_jalr_link_and_jump() {
    let mut vm = init_vm();
    vm.cpu.pc = Address(0x100);
    // JAL x1, +16
    run_one(&mut vm, 0x010000EF);
    assert_eq!(vm.cpu.registers[1], 0x104);
    assert_eq!(vm.cpu.pc.0, 0x110);
    // JALR x2, 1(x1): target 0x105 with bit 0 cleared.
    run_one(&mut vm, assembler::assemble_i_type(0b1100111, 0, 2, 1, 1));
    assert_eq!(vm.cpu.registers[2], 0x114);
    assert_eq!(vm.cpu.pc.0, 0x104);
}

#[test]
fn taken_bne_goes_backwards() {
    let mut vm = init_vm();
    vm.cpu.pc = Address(0x40);
    vm.cpu.registers[1] = 1;
    run_one(&mut vm, assembler::assemble_bne(1, 0, -0x20));
    assert_eq!(vm.cpu.pc.0, 0x20);
    run_one(&mut vm, assembler::assemble_bne(0, 0, -0x20));
    assert_eq!(vm.cpu.pc.0, 0x24);
}

#[test]
fn csr_immediate_forms() {
    let mut vm = init_vm();
    vm.cpu.csr_file.write(0x340, 0xF0);
    run_one(&mut vm, assembler::assemble_i_type(0b1110011, 0b110, 1, 0x0F, 0x340));
    assert_eq!(vm.cpu.registers[1], 0xF0);
    assert_eq!(vm.cpu.csr_file.read(0x340), 0xFF);
    run_one(&mut vm, assembler::assemble_i_type(0b1110011, 0b111, 2, 0x03, 0x340));
    assert_eq!(vm.cpu.registers[2], 0xFF);
    assert_eq!(vm.cpu.csr_file.read(0x340), 0xFC);
    run_one(&mut vm, assembler::assemble_i_type(0b1110011, 0b101, 3, 0x1F, 0x340));
    assert_eq!(vm.cpu.registers[3], 0xFC);
    assert_eq!(vm.cpu.csr_file.read(0x340), 0x1F);
}

#[test]
fn supervisor_ecall_cause_and_mret_undoes_trap() {
    let mut vm = init_vm();
    vm.cpu.mode = PrivilegeMode::Supervisor;
    vm.cpu.csr_file.set_mie(true);
    vm.cpu.csr_file.write(MTVEC, 0x800);
    vm.bus.write32(Address(0x800), assembler::assemble_mret());
    vm.cpu.pc = Address(0x40);
    run_one(&mut vm, assembler::assemble_ecall());
    assert_eq!(vm.cpu.csr_file.read(MCAUSE), 9);
    assert_eq!(vm.cpu.csr_file.read(MEPC), 0x40);
    assert_eq!(vm.cpu.mode, PrivilegeMode::Machine);
    assert!(!vm.cpu.csr_file.mie_enabled());
    assert_eq!(vm.cpu.csr_file.mpp(), 1);
    vm.cpu.step(&mut vm.bus).unwrap();
    assert_eq!(vm.cpu.pc.0, 0x40);
    assert_eq!(vm.cpu.mode, PrivilegeMode::Supervisor);
    assert!(vm.cpu.csr_file.mie_enabled());
}

#[test]
fn masked_interrupt_is_dropped() {
    let mut vm = init_vm();
    vm.bus.write32(Address(0), 0x00000013);
    vm.int_controller.add_interrupt(INTERRUPT::UART);
    vm.step().unwrap();
    assert_eq!(vm.cpu.pc.0, 4);
    assert_eq!(vm.int_controller.next_interrupt(), None);
    assert_eq!(vm.cpu.csr_file.read(MCAUSE), 0);
}

#[test]
fn page_offset_survives_translation() {
    let mut vm = init_vm();
    // Root entry 0 points to a leaf table at 0x2000; leaf entry 1 maps page 0x3000, R|W|X|U.
    vm.bus.write32(Address(0x1000), ((0x2000 >> 12) << 10) | 1);
    vm.bus.write32(Address(0x2004), ((0x3000 >> 12) << 10) | 0b11111);
    vm.bus.write32(Address(0x3234), 0xCAFE_F00D);
    vm.bus.write32(Address(0x3000), assembler::assemble_lw(1, 2, 0x234));
    vm.cpu.registers[2] = 0x1000;
    vm.cpu.mode = PrivilegeMode::User;
    vm.cpu.csr_file.write(SATP, (1 << 31) | 1);
    vm.cpu.pc = Address(0x1000);
    vm.step().unwrap();
    assert_eq!(vm.cpu.registers[1], 0xCAFE_F00D);
    assert_eq!(vm.cpu.pc.0, 0x1004);
}

#[test]
fn faults_stop_the_machine() {
    let mut vm = init_vm();
    vm.cpu.pc = Address(0x2000_0000);
    assert_eq!(vm.step(), Err(MachineFault::Unmapped(0x2000_0000)));

    let mut vm = init_vm();
    vm.bus.write32(Address(0), 0xFFFF_FFFF);
    assert_eq!(vm.step(), Err(MachineFault::UnknownInstruction(0xFFFF_FFFF)));

    let mut vm = init_vm();
    vm.bus.add_device(MappedDevice(
        Address(0x1000_0000),
        Address(0x1000_00FF),
        MmioDevice::Uart(UART::new()),
    ));
    vm.cpu.registers[2] = 0x1000_0000;
    vm.bus.write32(Address(0), assembler::assemble_lw(1, 2, 0));
    assert_eq!(vm.step(), Err(MachineFault::BadRegister(0x1000_0001)));
}

#[test]
fn uart_transmits_to_host_and_receives_in_order() {
    let mut uart = UART::new();
    uart.write8(Address(0), b'o');
    uart.write8(Address(0), b'k');
    uart.write8(Address(4), b'x');
    assert_eq!(uart.take_output(), vec![b'o', b'k']);
    assert_eq!(uart.take_output(), Vec::<u8>::new());
    uart.receive_byte(1);
    uart.receive_byte(2);
    assert_eq!(uart.read8(Address(0)), 1);
    assert_eq!(uart.read8(Address(4)), 1);
    assert_eq!(uart.read8(Address(0)), 2);
    assert_eq!(uart.read8(Address(0)), 0);
    assert_eq!(uart.read8(Address(8)), 0);
}

#[test]
fn keyboard_raises_interrupt_while_enabled_and_waiting() {
    let mut kbd = Keyboard::new();
    let mut ic = InterruptController::new();
    kbd.push_key(b'Q');
    kbd.tick(&mut ic);
    assert_eq!(ic.next_interrupt(), None);
    kbd.write8(Address(8), 1);
    assert_eq!(kbd.read8(Address(8)), 1);
    kbd.tick(&mut ic);
    assert_eq!(ic.next_interrupt(), Some(INTERRUPT::KEYBOARD));
    assert_eq!(kbd.read8(Address(4)), 1);
    assert_eq!(kbd.read8(Address(0)), b'Q');
    assert_eq!(kbd.read8(Address(4)), 0);
    kbd.tick(&mut ic);
    assert_eq!(ic.next_interrupt(), None);
}

#[test]
fn screen_swaps_at_frame_boundary() {
    let mut screen = Screen::new(4, 2);
    let mut ic = InterruptController::new();
    screen.write8(Address(10), 0x55);
    assert_eq!(screen.read8(Address(10)), 0x55);
    assert_eq!(screen.get_data()[10], 0);
    screen.write8(Address(CONTROL_REG), 1);
    assert_eq!(screen.read8(Address(STATUS_REG)), 1);
    screen.tick(&mut ic);
    assert_eq!(screen.get_data()[10], 0);
    screen.tick(&mut ic);
    assert_eq!(screen.get_data()[10], 0x55);
    assert_eq!(screen.read8(Address(STATUS_REG)), 0);
    assert_eq!(screen.read8(Address(CONTROL_REG)), 0);
}

#[test]
fn host_keys_map_to_ascii() {
    assert_eq!(key_to_ascii(HostKey::A), Some(b'A'));
    assert_eq!(key_to_ascii(HostKey::Key7), Some(b'7'));
    assert_eq!(key_to_ascii(HostKey::Enter), Some(b'\n'));
    assert_eq!(key_to_ascii(HostKey::Backspace), Some(8));
    assert_eq!(key_to_ascii(HostKey::Other), None);
}

#[test]
fn device_access_by_index() {
    let mut vm = init_vm();
    vm.bus.add_device(MappedDevice(
        Address(0x2000_0000),
        Address(0x2000_00FF),
        MmioDevice::Keyboard(Keyboard::new()),
    ));
    assert_eq!(vm.bus.device_count(), 2);
    if let MmioDevice::Keyboard(k) = vm.bus.device_mut(1) {
        k.push_key(b'z');
    }
    assert_eq!(vm.bus.read8(Address(0x2000_0000)), b'z');
    assert!(matches!(vm.bus.device(0), MmioDevice::Memory(_)));
}

#[test]
fn halfword_and_word_writes_to_ram_touch_only_their_bytes() {
    let mut vm = init_vm();
    vm.bus.write8(Address(0x1FF), 0xAA);
    vm.bus.write8(Address(0x206), 0xBB);
    vm.bus.write16(Address(0x200), 0xBEEF);
    vm.bus.write32(Address(0x202), 0x1234_5678);
    assert_eq!(vm.bus.read8(Address(0x200)), 0xEF);
    assert_eq!(vm.bus.read8(Address(0x201)), 0xBE);
    assert_eq!(vm.bus.read8(Address(0x202)), 0x78);
    assert_eq!(vm.bus.read8(Address(0x205)), 0x12);
    assert_eq!(vm.bus.read16(Address(0x200)), 0xBEEF);
    assert_eq!(vm.bus.read32(Address(0x202)), 0x1234_5678);
    assert_eq!(vm.bus.read8(Address(0x1FF)), 0xAA);
    assert_eq!(vm.bus.read8(Address(0x206)), 0xBB);
}

#[test]
fn screen_serves_pixels_whatever_the_host_does_to_the_front_buffer() {
    let mut screen = Screen::new(4, 2);
    screen.front_buffer.clear();
    screen.write8(Address(10), 7);
    assert_eq!(screen.read8(Address(10)), 7);
    assert!(screen.accepts_offset(10));
    assert!(screen.accepts_offset(STATUS_REG));
}

#[test]
fn address_addition_adds_offsets() {
    assert_eq!((Address(0x100) + Address(4)).0, 0x104);
    assert_eq!((Address(0xFFFF_FFF0) + Address(0xF)).0, 0xFFFF_FFFF);
}
