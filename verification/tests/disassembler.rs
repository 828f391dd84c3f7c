//! The disassembler's tests.

use rs6502::Disassembler;

#[test]
fn can_disassemble_basic_instructions() {
    let dasm = Disassembler::new();
    let code: Vec<u8> = vec![0xA9, 0x20, 0x8D, 0x00, 0x44];
    let source = dasm.disassemble(&code);

    assert_eq!(Disassembler::clean_asm("
        
            0000 LDA #$20
            0002 STA $4400

        "),
               Disassembler::clean_asm(&source));
}

#[test]
fn can_disassemble_indirect_jmp() {
    let dasm = Disassembler::new();
    let code: Vec<u8> = vec![0x6C, 0x00, 0x44];
    let source = dasm.disassemble(&code);

    assert_eq!(Disassembler::clean_asm("
        
            0000 JMP ($4400)

        "),
               Disassembler::clean_asm(&source));
}

#[test]
fn can_disassemble_relative_addressing() {
    let dasm = Disassembler::new();
    let code: Vec<u8> = vec![0xA9, 0x20, 0x69, 0x10, 0xD0, 0xFA];
    let source = dasm.disassemble(&code);

    assert_eq!(Disassembler::clean_asm("
        
            0000 LDA #$20
            0002 ADC #$10
            0004 BNE $0000

        "),
               Disassembler::clean_asm(&source));
}

#[test]
fn can_disassemble_zero_page_addressing() {
    let dasm = Disassembler::new();
    let code: Vec<u8> = vec![0xA5, 0x35];
    let source = dasm.disassemble(&code);

    assert_eq!(Disassembler::clean_asm("
        
            0000 LDA $35

        "),
               Disassembler::clean_asm(&source));
}

#[test]
fn can_disassemble_zero_page_indexed_addressing() {
    let dasm = Disassembler::new();
    let code: Vec<u8> = vec![0x95, 0x44, 0x96, 0xFE];
    let source = dasm.disassemble(&code);

    assert_eq!(Disassembler::clean_asm("
        
            0000 STA $44,X
            0002 STX $FE,Y

        "),
               Disassembler::clean_asm(&source));
}

#[test]
fn can_disassemble_absolute_addressing() {
    let dasm = Disassembler::new();
    let code: Vec<u8> = vec![0x8D, 0x00, 0x44];
    let source = dasm.disassemble(&code);

    assert_eq!(Disassembler::clean_asm("
        
            0000 STA $4400

        "),
               Disassembler::clean_asm(&source));
}

#[test]
fn can_disassemble_absolute_indexed_addressing() {
    let dasm = Disassembler::new();
    let code: Vec<u8> = vec![0x9D, 0x00, 0x44, 0x99, 0xFE, 0xFF];
    let source = dasm.disassemble(&code);

    assert_eq!(Disassembler::clean_asm("
        
            0000 STA $4400,X
            0003 STA $FFFE,Y

        "),
               Disassembler::clean_asm(&source));
}

#[test]
fn can_disassemble_indirect_indexed_addressing() {
    let dasm = Disassembler::new();
    let code: Vec<u8> = vec![0x81, 0x44, 0x91, 0xFE];
    let source = dasm.disassemble(&code);

    assert_eq!(Disassembler::clean_asm("
        
            0000 STA ($44,X)
            0002 STA ($FE),Y

        "),
               Disassembler::clean_asm(&source));
}

#[test]
fn can_disassemble_without_byte_offsets() {
    let dasm = Disassembler::with_code_only();
    let code: Vec<u8> = vec![0x81, 0x35, 0x91, 0xFE];
    let source = dasm.disassemble(&code);

    assert_eq!(Disassembler::clean_asm("
        
            STA ($35,X)
            STA ($FE),Y

        "),
               Disassembler::clean_asm(&source));
}

#[test]
fn move_memory_down_test() {
    let dasm = Disassembler::new();
    let code: Vec<u8> = vec![0xA0, 0x00, 0xAE, 0x00, 0x00, 0xF0, 0x10, 0xB1, 0x02, 0x91, 0x03,
                             0xC8, 0xD0, 0xF9, 0xEE, 0x02, 0x00, 0xEE, 0x03, 0x00, 0xCA, 0xD0,
                             0xF0, 0xAE, 0x01, 0x00, 0xF0, 0x08, 0xB1, 0x02, 0x91, 0x03, 0xC8,
                             0xCA, 0xD0, 0xF8, 0x60];

    let source = dasm.disassemble(&code);

    assert_eq!(Disassembler::clean_asm("

            0000 LDY #$00
            0002 LDX $0000
            0005 BEQ $0017
            0007 LDA ($02),Y
            0009 STA ($03),Y
            000B INY
            000C BNE $0007
            000E INC $0002
            0011 INC $0003
            0014 DEX
            0015 BNE $0007
            0017 LDX $0001
            001A BEQ $0024
            001C LDA ($02),Y
            001E STA ($03),Y
            0020 INY
            0021 DEX
            0022 BNE $001C
            0024 RTS

        "),
               Disassembler::clean_asm(&source));
}

#[test]
fn test_memset_implementation() {
    let dasm = Disassembler::new();
    let code: Vec<u8> = vec![0xA9, 0x00, 0xA8, 0x91, 0xFF, 0xC8, 0xCA, 0xD0, 0xFA, 0x60];
    let source = dasm.disassemble(&code);

    assert_eq!(Disassembler::clean_asm("

            0000 LDA #$00
            0002 TAY
            0003 STA ($FF),Y
            0005 INY
            0006 DEX
            0007 BNE $0003
            0009 RTS

        "),
               Disassembler::clean_asm(&source));
}
