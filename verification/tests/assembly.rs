//! Assembly/disassembly round-trip tests over code segments.

#![allow(non_snake_case)]

use rs6502::Assembler;
use rs6502::Disassembler;

#[test]
#[allow(non_snake_case)]
fn INTEGRATION_ASSEMBLY_can_assemble_disassemble_basic_opcodes() {
    let source = "LDA $4400";

    let mut assembler = Assembler::new();
    let disassembler = Disassembler::with_code_only();

    let segments = assembler.assemble_string(source, None).unwrap();
    println!("Found {} segments", segments.len());
    let disassembled =
        Disassembler::clean_asm(&disassembler.disassemble(&segments[0].code));

    assert_eq!(source, disassembled.join("\n"));
}

#[test]
#[allow(non_snake_case)]
fn INTEGRATION_ASSEMBLY_can_assemble_disassemble_clearmem_implementation() {
    let source = "
            CLRMEM  LDA #$00
                    TAY             
            CLRM1   STA ($FF),Y
                    INY             
                    DEX             
                    BNE CLRM1
                    RTS             
    ";

    let mut assembler = Assembler::new();
    let disassembler = Disassembler::with_code_only();

    let segments = assembler.assemble_string(source, None).unwrap();
    let disassembled = Disassembler::clean_asm(&disassembler.disassemble(&segments[0].code));

    let clean_disassembled = disassembled.join("\n");

    assert_eq!(Disassembler::clean_asm("
        LDA #$00
        TAY
        STA ($FF),Y
        INY
        DEX
        BNE $0003
        RTS
    ")
                   .join("\n"),
               clean_disassembled);
}

#[test]
#[allow(non_snake_case)]
fn INTEGRATION_ASSEMBLY_can_assemble_disassemble_random_memory_segments() {
    let source = "
        .ORG $D006
        .BYTE #$10, #$D0
    ";

    let mut assembler = Assembler::new();
    let disassembler = Disassembler::new();

    let segments = assembler.assemble_string(source, None).unwrap();
    let disassembled = Disassembler::clean_asm(&disassembler.disassemble(&segments[0].code));

    let clean_disassembled = disassembled.join("\n");

    assert_eq!(Disassembler::clean_asm("
        0000 BPL $00D0
    ")
                   .join("\n"),
               clean_disassembled);
}
