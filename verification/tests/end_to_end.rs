//! Round-trip tests: assemble, disassemble, and execute.

#![allow(non_snake_case)]

use rs6502::Assembler;
use rs6502::Cpu;
use rs6502::Disassembler;

#[test]
fn INTEGRATION_can_assemble_disassemble_basic_opcodes() {
    let source = "LDA $4400";

    let mut assembler = Assembler::new();
    let disassembler = Disassembler::with_code_only();

    let bytecode = assembler.assemble_string(source, None).unwrap();
    let disassembled = Disassembler::clean_asm(&disassembler.disassemble(&bytecode[0].code));

    assert_eq!(source, disassembled.join("\n"));
}

#[test]
fn INTEGRATION_can_assemble_disassemble_clearmem_implementation() {
    let source = "
            CLRMEM  LDA #$00
                    TAY             
            CLRM1   STA ($FF),Y
                    INY             
                    DEX             
                    BNE CLRM1
                    RTS             
    ";

    let mut assembler = Assembler::new();
    let disassembler = Disassembler::with_code_only();

    let bytecode = assembler.assemble_string(source, None).unwrap();
    let disassembled = Disassembler::clean_asm(&disassembler.disassemble(&bytecode[0].code));

    let clean_disassembled = disassembled.join("\n");

    assert_eq!(Disassembler::clean_asm("
        LDA #$00
        TAY
        STA ($FF),Y
        INY
        DEX
        BNE $0003
        RTS
    ")
                   .join("\n"),
               clean_disassembled);
}

#[test]
fn INTEGRATION_can_add_basic_numbers_in_accumulator() {
    let source = "
        LDA #$20
        ADC #$10    ; A register should equal 48
    ";

    let mut cpu = Cpu::new();
    let mut assembler = Assembler::new();

    let bytecode = assembler.assemble_string(source, None).unwrap();
    let _ = cpu.load(&bytecode[0].code, None);
    cpu.reset();

    let _ = cpu.step();
    let _ = cpu.step();

    assert_eq!(0x30, cpu.registers.A);
}

#[test]
fn INTEGRATION_can_add_binary_coded_decimal_numbers_in_accumulator() {
    let source = "
        SED
        LDA #$20
        ADC #$05    ; A register should equal 0x25
    ";

    let mut cpu = Cpu::new();
    let mut assembler = Assembler::new();

    let bytecode = assembler.assemble_string(source, None).unwrap();
    let _ = cpu.load(&bytecode[0].code, None);
    cpu.reset();

    let _ = cpu.step();
    let _ = cpu.step();
    let _ = cpu.step();

    assert_eq!(0x25, cpu.registers.A);
}

#[test]
fn INTEGRATION_can_add_mixed_mode_numbers_in_accumulator() {
    let source = "
        LDA #$20
        ADC #10    ; A register should equal 0x2A
    ";

    let mut cpu = Cpu::new();
    let mut assembler = Assembler::new();

    let bytecode = assembler.assemble_string(source, None).unwrap();
    let _ = cpu.load(&bytecode[0].code, None);
    cpu.reset();

    let _ = cpu.step();
    let _ = cpu.step();

    assert_eq!(0x2A, cpu.registers.A);
}
