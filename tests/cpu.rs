use kosmetic_zx::bus::BusMessage;
use kosmetic_zx::common::Fault;
use kosmetic_zx::cpu::instructions::instruction_defs::{inc_b, inc_bc, ld_bc_a, ld_bc_imm, nop};
use kosmetic_zx::cpu::instructions::instruction_map::{Handler, InstructionMap, MapObj};
use kosmetic_zx::cpu::instructions::meta_instructions::{bytes_to_dword, dec, dword_to_bytes, inc, ld};
use kosmetic_zx::cpu::instructions::run;
use kosmetic_zx::cpu::{fetch_reply, CPUModifiable, Cpu};

#[test]
fn compose_then_decompose_gives_the_pair() {
    for h in 0..=255u8 {
        for l in 0..=255u8 {
            assert_eq!(dword_to_bytes(bytes_to_dword((h, l))), (h, l));
        }
    }
}

#[test]
fn register_pairs_read_and_write_through() {
    let mut cpu = Cpu::new();
    cpu.set_BC(0x1234);
    assert_eq!((cpu.B, cpu.C, cpu.BC()), (0x12, 0x34, 0x1234));
    cpu.set_AF(0xABCD);
    assert_eq!((cpu.A, cpu.F, cpu.AF()), (0xAB, 0xCD, 0xABCD));
    cpu.set_DE(0x00FF);
    assert_eq!((cpu.D, cpu.E, cpu.DE()), (0x00, 0xFF, 0x00FF));
    cpu.set_HL(0xFF00);
    assert_eq!((cpu.H, cpu.L, cpu.HL()), (0xFF, 0x00, 0xFF00));
    cpu.B = 0x56;
    assert_eq!(cpu.BC(), 0x5634);
}

#[test]
fn operand_helpers_work_at_both_widths() {
    let mut b: u8 = 0xFF;
    inc(&mut b);
    assert_eq!(b, 0);
    dec(&mut b);
    assert_eq!(b, 0xFF);
    let mut w: u16 = 0xFFFF;
    inc(&mut w);
    assert_eq!(w, 0);
    dec(&mut w);
    assert_eq!(w, 0xFFFF);
    let mut target: u8 = 0;
    ld(&mut target, 0x1234u16);
    assert_eq!(target, 0x34);
    let mut wide: u16 = 0;
    ld(&mut wide, 0x80u8);
    assert_eq!(wide, 0x0080);
    assert_eq!(0x1234u16.get8(), 0x34);
    assert_eq!(0x12u8.get16(), 0x0012);
    let mut x: u16 = 0xFFFF;
    x.set8(0x01);
    assert_eq!(x, 0x0001);
    let mut y: u8 = 0;
    y.set16(0x1FF);
    assert_eq!(y, 0xFF);
    assert_eq!(bytes_to_dword((0x1234u16, 0x5678u16)), 0x3478);
}

#[test]
fn handlers_update_registers_and_report_cost() {
    let mut cpu = Cpu::new();
    assert_eq!(nop(&mut cpu, [0, 0, 0, 0]), (4, 1));
    assert_eq!(cpu, Cpu::new());
    assert_eq!(ld_bc_imm(&mut cpu, [1, 0x12, 0x34, 0]), (10, 3));
    assert_eq!(cpu.BC(), 0x1234);
    cpu.A = 0x9A;
    assert_eq!(ld_bc_a(&mut cpu, [2, 0, 0, 0]), (7, 1));
    assert_eq!(cpu.BC(), 0x9A00);
    cpu.set_BC(0xFFFF);
    assert_eq!(inc_bc(&mut cpu, [3, 0, 0, 0]), (6, 1));
    assert_eq!(cpu.BC(), 0x0000);
    cpu.B = 0xFF;
    cpu.C = 0x77;
    assert_eq!(inc_b(&mut cpu, [4, 0, 0, 0]), (4, 1));
    assert_eq!((cpu.B, cpu.C), (0x00, 0x77));
}

#[test]
fn dispatch_table_decodes_base_opcodes() {
    let map = InstructionMap::new();
    assert_eq!(map.get(&[0x00, 0, 0, 0]), Ok(Handler::Nop));
    assert_eq!(map.get(&[0x01, 0, 0, 0]), Ok(Handler::LdBcImm));
    assert_eq!(map.get(&[0x02, 0, 0, 0]), Ok(Handler::LdBcA));
    assert_eq!(map.get(&[0x03, 0, 0, 0]), Ok(Handler::IncBc));
    assert_eq!(map.get(&[0x04, 0, 0, 0]), Ok(Handler::IncB));
    assert_eq!(map.get(&[0xCB, 0x00, 0, 0]), Err(Fault::NotImplemented));
}

#[test]
fn unknown_opcode_is_not_implemented_and_changes_nothing() {
    let map = InstructionMap::new();
    let mut cpu = Cpu::new();
    cpu.A = 3;
    let before = cpu;
    assert_eq!(run(&mut cpu, &map, [0x40, 0, 0, 0]), Err(Fault::NotImplemented));
    assert_eq!(cpu, before);
    assert_eq!(cpu.execute(&map, [0xFF, 0, 0, 0]), Err(Fault::NotImplemented));
    assert_eq!(cpu, before);
}

#[test]
fn execute_advances_pc_and_sets_remaining_cycles() {
    let map = InstructionMap::new();
    let mut cpu = Cpu::new();
    assert_eq!(cpu.execute(&map, [0x01, 0xBE, 0xEF, 0]), Ok(10));
    assert_eq!((cpu.PC, cpu.count, cpu.BC()), (3, 9, 0xBEEF));
    cpu.PC = 0xFFFF;
    cpu.count = 0;
    assert_eq!(cpu.execute(&map, [0x00, 0, 0, 0]), Ok(4));
    assert_eq!((cpu.PC, cpu.count), (0x0000, 3));
}

#[test]
fn ticks_count_down_before_next_fetch() {
    let map = InstructionMap::new();
    let mut cpu = Cpu::new();
    assert!(cpu.tick());
    assert_eq!(cpu.execute(&map, [0x00, 0, 0, 0]), Ok(4));
    assert!(!cpu.tick());
    assert!(!cpu.tick());
    assert!(!cpu.tick());
    assert_eq!(cpu.count, 0);
    assert!(cpu.tick());
}

#[test]
fn fetch_reply_classifies_answers() {
    assert_eq!(fetch_reply(&BusMessage::MemReadOk(0x3E)), Ok(0x3E));
    assert_eq!(fetch_reply(&BusMessage::Error), Err(Fault::AddressFault));
    assert_eq!(fetch_reply(&BusMessage::MemWriteOk), Err(Fault::ProtocolViolation));
    assert_eq!(fetch_reply(&BusMessage::IOReadOk(1)), Err(Fault::ProtocolViolation));
}

#[test]
fn prefixed_opcodes_walk_one_table_per_byte() {
    let mut map = InstructionMap::new();
    let prefix = map.add_table();
    assert_eq!(prefix, 1);
    map.set(0, 0xCB, MapObj::SubMap(prefix));
    map.set(prefix, 0x10, MapObj::Func(Handler::IncB));
    assert_eq!(map.get(&[0xCB, 0x10, 0, 0]), Ok(Handler::IncB));
    assert_eq!(map.get(&[0xCB, 0x11, 0, 0]), Err(Fault::NotImplemented));
    map.set(0, 0xDD, MapObj::SubMap(7));
    assert_eq!(map.get(&[0xDD, 0x00, 0, 0]), Err(Fault::NotImplemented));
    map.set(prefix, 0x20, MapObj::SubMap(prefix));
    assert_eq!(map.get(&[0xCB, 0x20, 0x20, 0x20]), Err(Fault::NotImplemented));
    let mut cpu = Cpu::new();
    cpu.B = 0x41;
    assert_eq!(cpu.execute(&map, [0xCB, 0x10, 0, 0]), Ok(4));
    assert_eq!(cpu.B, 0x42);
}
