//! The assembler driver's tests: end-to-end assembly of small programs.

use rs6502::Assembler;

#[test]
fn can_assemble_basic_code() {
    let mut assembler = Assembler::new();
    let segments = assembler.assemble_string("
            LDA $4400
        ",
                         None)
        .unwrap();

    assert_eq!(&[0xAD, 0x00, 0x44], &segments[0].code[..]);
}

#[test]
fn can_jump_to_label_behind() {
    let mut assembler = Assembler::new();
    let segments = assembler.assemble_string("
            MAIN LDA $4400
            PHA
            JMP MAIN
        ",
                         None)
        .unwrap();

    assert_eq!(&[0xAD, 0x00, 0x44, 0x48, 0x4C, 0x00, 0x00],
               &segments[0].code[..]);
}

#[test]
fn can_jump_to_label_with_colon_behind() {
    let mut assembler = Assembler::new();
    let segments = assembler.assemble_string("
            MAIN:
                LDA $4400
                PHA
                JMP MAIN
        ",
                         None)
        .unwrap();

    assert_eq!(&[0xAD, 0x00, 0x44, 0x48, 0x4C, 0x00, 0x00],
               &segments[0].code[..]);
}

#[test]
fn can_jump_to_label_ahead() {
    let mut assembler = Assembler::new();
    let segments = assembler.assemble_string("
            JMP MAIN
            PHA
            LDX #15
            MAIN LDA $4400
            RTS
        ",
                         None)
        .unwrap();

    assert_eq!(&[0x4C, 0x06, 0x00, 0x48, 0xA2, 0x0F, 0xAD, 0x00, 0x44, 0x60],
               &segments[0].code[..]);
}

#[test]
fn can_use_variables() {
    let mut assembler = Assembler::new();
    let segments = assembler.assemble_string("
            MAIN_ADDRESS = $0000
            MAIN:
            LDX #15
            JMP MAIN_ADDRESS
        ",
                         None)
        .unwrap();

    assert_eq!(&[0xA2, 0x0F, 0x4C, 0x00, 0x00], &segments[0].code[..]);
}

#[test]
fn can_use_variables_assigned_to_variables() {
    let mut assembler = Assembler::new();
    let segments = assembler.assemble_string("
            MAIN_ADDRESS = $0000
            MAIN_ADDRESS_INDIRECT_ONE = MAIN_ADDRESS
            MAIN_ADDRESS_INDIRECT_TWO = MAIN_ADDRESS_INDIRECT_ONE
            MAIN:
            LDX #15
            JMP MAIN_ADDRESS_INDIRECT_TWO
        ",
                         None)
        .unwrap();

    assert_eq!(&[0xA2, 0x0F, 0x4C, 0x00, 0x00], &segments[0].code[..]);
}

#[test]
fn can_assemble_clearmem_implementation() {
    let mut assembler = Assembler::new();
    let segments = assembler.assemble_string("
            CLRMEM  LDA #$00
                    TAY             
            CLRM1   STA ($FF),Y
                    INY             
                    DEX             
                    BNE CLRM1       
                    RTS             
        ",
                         None)
        .unwrap();

    assert_eq!(&[0xA9, 0x00, 0xA8, 0x91, 0xFF, 0xC8, 0xCA, 0xD0, 0xFA, 0x60],
               &segments[0].code[..]);
}

#[test]
fn can_assemble_clearmem_implementation_that_jumps_forward_and_is_lowercase() {
    let mut assembler = Assembler::new();
    let segments = assembler.assemble_string("
            jmp     clrmem
            lda     #$00
            beq     clrm1
            nop
            nop
            clrm1   sta ($ff),y
                    iny             
                    dex             
                    bne clrm1       
                    rts             
            clrmem  lda #$00
                    tay             
            jmp     clrm1
        ",
                         None)
        .unwrap();

    assert_eq!(&[0x4C, 0x10, 0x00, 0xA9, 0x00, 0xF0, 0x02, 0xEA, 0xEA, 0x91, 0xFF, 0xC8,
                 0xCA, 0xD0, 0xFA, 0x60, 0xA9, 0x00, 0xA8, 0x4C, 0x09, 0x00],
               &segments[0].code[..]);
}

#[test]
fn can_assemble_clearmem_implementation_that_jumps_forward() {
    let mut assembler = Assembler::new();
    let segments = assembler.assemble_string("
            JMP     CLRMEM
            LDA     #$00
            BEQ     CLRM1
            NOP
            NOP
            BRK
            CLRM1   STA ($FF),Y
                    INY             
                    DEX             
                    BNE CLRM1       
                    RTS             
            CLRMEM  LDA #$00
                    TAY             
            JMP     CLRM1
        ",
                         None)
        .unwrap();

    assert_eq!(&[0x4C, 0x11, 0x00, 0xA9, 0x00, 0xF0, 0x03, 0xEA, 0xEA, 0x00, 0x91, 0xFF,
                 0xC8, 0xCA, 0xD0, 0xFA, 0x60, 0xA9, 0x00, 0xA8, 0x4C, 0x0A, 0x00],
               &segments[0].code[..]);
}

#[test]
fn can_use_variables_for_indirect_addressing() {
    let mut assembler = Assembler::new();
    let segments = assembler.assemble_string("
            MAIN_ADDRESS = $0000
            MAIN:
            LDX #15
            LDA (MAIN_ADDRESS),Y
        ",
                         None)
        .unwrap();

    assert_eq!(&[0xA2, 0x0F, 0xB1, 0x00, 0x00], &segments[0].code[..]);
}

#[test]
fn can_assign_code_segments_to_different_memory_addresses() {
    let mut assembler = Assembler::new();
    let segments = assembler.assemble_string("
            .ORG $C000
            LDA #$FF
            STA $2000

            .ORG $100
            LDA #$AA
            STA $2001
        ",
                         None)
        .unwrap();

    assert_eq!(0xC000, segments[0].address);
    assert_eq!(0x0100, segments[1].address);
}

#[test]
fn can_jump_between_code_segments() {
    let mut assembler = Assembler::new();
    let segments = assembler.assemble_string("
            .ORG $C000
            JMP CALLBACK

            .ORG $2000
            LDA #$AA
            STA $2001

            CALLBACK
            LDX #$0A
        ",
                         None)
        .unwrap();

    assert_eq!(0xC000, segments[0].address);
    assert_eq!(0x2000, segments[1].address);

    assert_eq!(0x05, segments[0].code[0x01]);
    assert_eq!(0x20, segments[0].code[0x02]);
}

#[test]
fn can_dump_raw_bytes() {
    let mut assembler = Assembler::new();
    let segments = assembler.assemble_string("
            .ORG $C000

            .BYTE #$40, #10, #$0A
        ",
                         None)
        .unwrap();

    assert_eq!(&[64, 10, 10], &segments[0].code[..]);
}

#[test]
fn can_dump_single_raw_byte() {
    let mut assembler = Assembler::new();
    let segments = assembler.assemble_string("
            .ORG $C000

            .BYTE #$FF
        ",
                         None)
        .unwrap();

    assert_eq!(&[255], &segments[0].code[..]);
}

#[test]
fn can_dump_bytes_with_other_code() {
    let mut assembler = Assembler::new();
    let segments = assembler.assemble_string("
            .ORG $C000
            JMP CALLBACK
            .BYTE #$0A

            .ORG $2000
            LDA #$AA
            STA $2001
            .BYTE #$FE, #$CB

            CALLBACK
            LDX #$0A
        ",
                         None)
        .unwrap();

    assert_eq!(0x0A, segments[0].code[3]);
    assert_eq!(&[0xFE, 0xCB], &segments[1].code[5..7]);

    assert_eq!(0xC000, segments[0].address);
    assert_eq!(0x2000, segments[1].address);

    assert_eq!(0x05, segments[0].code[0x01]);
    assert_eq!(0x20, segments[0].code[0x02]);
}
