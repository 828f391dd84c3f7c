//! Tests of the library's stated properties on concrete values: the
//! opcode table's consistency, branch-range limits, flag discipline,
//! stack reversal, and the error values of each failure kind.

use rs6502::AddressingMode;
use rs6502::Assembler;
use rs6502::AssemblerError;
use rs6502::Cpu;
use rs6502::CpuError;
use rs6502::Disassembler;
use rs6502::Lexer;
use rs6502::LexerError;
use rs6502::Mnemonic;
use rs6502::OpCode;
use rs6502::Parser;
use rs6502::ParserError;
use rs6502::Stack;

#[test]
fn opcode_table_maps_raw_bytes_back_to_entries() {
    let entry = OpCode::from_raw_byte(0xAD).unwrap();
    assert_eq!(Mnemonic::LDA, entry.mnemonic);
    assert_eq!(AddressingMode::Absolute, entry.mode);
    assert_eq!(3, entry.length);
    assert_eq!(0xAD, entry.code);

    let same = OpCode::from_mnemonic_and_addressing_mode("LDA", AddressingMode::Absolute).unwrap();
    assert_eq!(entry, same);
}

#[test]
fn opcode_table_lengths_match_modes() {
    for byte in 0..=0xFFu8 {
        if let Some(entry) = OpCode::from_raw_byte(byte) {
            assert_eq!(byte, entry.code);
            assert_eq!(OpCode::mode_length(entry.mode), entry.length);
            assert!(entry.length >= 1 && entry.length <= 3);
            let again =
                OpCode::by_mnemonic_and_mode(entry.mnemonic, entry.mode).unwrap();
            assert_eq!(entry, again);
        }
    }
}

#[test]
fn opcode_table_has_every_documented_instruction() {
    let mut count = 0;
    for byte in 0..=0xFFu8 {
        if OpCode::from_raw_byte(byte).is_some() {
            count += 1;
        }
    }
    assert_eq!(151, count);
}

#[test]
fn mnemonic_lookup_is_case_insensitive() {
    assert_eq!(Some(Mnemonic::LDA), OpCode::from_mnemonic("lda"));
    assert_eq!(Some(Mnemonic::LDA), OpCode::from_mnemonic("LdA"));
    assert_eq!(None, OpCode::from_mnemonic("XYZ"));
    assert_eq!(None, OpCode::from_mnemonic("LD"));
}

#[test]
fn backward_branch_within_range_assembles() {
    // 63 bytes of padding put the branch 65 back from the
    // instruction's end: well inside the signed 8-bit range.
    let mut source = String::from("START\n");
    for _ in 0..63 {
        source.push_str("    NOP\n");
    }
    source.push_str("    BNE START\n");
    let mut assembler = Assembler::new();
    let segments = assembler.assemble_string(&source, None).unwrap();
    let code = &segments[0].code;
    assert_eq!(0x100 - 65, code[code.len() - 1] as usize);
}

#[test]
fn backward_branch_past_the_range_fails() {
    let mut source = String::from("START\n");
    for _ in 0..127 {
        source.push_str("    NOP\n");
    }
    source.push_str("    BNE START\n");
    let mut assembler = Assembler::new();
    let result = assembler.assemble_string(&source, None);
    assert!(result.is_err());
}

#[test]
fn forward_branch_past_the_range_fails() {
    let mut source = String::from("    BNE TARGET\n");
    for _ in 0..128 {
        source.push_str("    NOP\n");
    }
    source.push_str("TARGET NOP\n");
    let mut assembler = Assembler::new();
    let result = assembler.assemble_string(&source, None);
    assert!(result.is_err());
}

#[test]
fn unknown_label_reports_its_name() {
    let mut assembler = Assembler::new();
    let result = assembler.assemble_string("    JMP NOWHERE\n", None);
    assert!(result.is_err());
    assert_eq!("Unknown label: 'NOWHERE'", result.unwrap_err().message);
}

#[test]
fn flag_discipline_tracks_the_loaded_byte() {
    let mut cpu = Cpu::new();
    let code = vec![0xA9, 0x00, 0xA9, 0x80, 0xA9, 0x01];
    let _ = cpu.load(&code, None);
    cpu.reset();

    let _ = cpu.step();
    assert!(cpu.flags.zero);
    assert!(!cpu.flags.sign);

    let _ = cpu.step();
    assert!(!cpu.flags.zero);
    assert!(cpu.flags.sign);

    let _ = cpu.step();
    assert!(!cpu.flags.zero);
    assert!(!cpu.flags.sign);
}

#[test]
fn stack_reverses_a_sequence_of_u16_values() {
    let mut stack_area = vec![0u8; 0x100];
    let mut stack = Stack::new();

    let _ = stack.push_u16(&mut stack_area, 0x1234);
    let _ = stack.push_u16(&mut stack_area, 0x5678);
    let _ = stack.push_u16(&mut stack_area, 0x9ABC);

    assert_eq!(0x9ABC, stack.pop_u16(&stack_area).unwrap());
    assert_eq!(0x5678, stack.pop_u16(&stack_area).unwrap());
    assert_eq!(0x1234, stack.pop_u16(&stack_area).unwrap());
    assert_eq!(0xFF, stack.pointer);
}

#[test]
fn emulator_adds_binary_numbers_after_a_reset() {
    let mut cpu = Cpu::new();
    let code = vec![0xA9, 0x20, 0x69, 0x10];
    let _ = cpu.load(&code, Some(0xC000));
    cpu.reset();
    cpu.reset();
    let _ = cpu.step();
    let _ = cpu.step();
    assert_eq!(0x30, cpu.registers.A);
    assert_eq!(false, cpu.flags.carry);
}

#[test]
fn emulator_adds_decimal_numbers() {
    let mut cpu = Cpu::new();
    let code = vec![0xF8, 0xA9, 0x20, 0x69, 0x05];
    let _ = cpu.load(&code, None);
    cpu.reset();
    let _ = cpu.step_n(3);
    assert_eq!(0x25, cpu.registers.A);
}

#[test]
fn emulator_wraps_and_carries() {
    let mut cpu = Cpu::new();
    let code = vec![0xA9, 0xFD, 0x69, 0x05];
    let _ = cpu.load(&code, None);
    cpu.reset();
    let _ = cpu.step_n(2);
    assert_eq!(0x02, cpu.registers.A);
    assert_eq!(true, cpu.flags.carry);
}

#[test]
fn lexer_rejects_an_address_of_five_digits() {
    let mut lexer = Lexer::new();
    let result = lexer.lex_string("LDA $12345");
    assert_eq!(
        Err(LexerError::out_of_bounds("12345", 1, 5)),
        result
    );
}

#[test]
fn lexer_rejects_a_bare_number_introducer() {
    let mut lexer = Lexer::new();
    let result = lexer.lex_string("LDA #");
    assert_eq!(Err(LexerError::unexpected_eof()), result);
}

#[test]
fn parser_rejects_an_unknown_directive() {
    let mut parser = Parser::new();
    let mut lexer = Lexer::new();
    let tokens = lexer.lex_string(".WORD $1234").unwrap();
    let result = parser.parse(tokens);
    assert_eq!(Err(ParserError::unknown_identifier(1)), result);
}

#[test]
fn parser_rejects_an_oversized_immediate() {
    let mut parser = Parser::new();
    let mut lexer = Lexer::new();
    let tokens = lexer.lex_string(".BYTE #$1FF").unwrap();
    let result = parser.parse(tokens);
    assert_eq!(Err(ParserError::cannot_parse_immediate(1)), result);
}

#[test]
fn parser_rejects_a_missing_org_address() {
    let mut parser = Parser::new();
    let mut lexer = Lexer::new();
    let tokens = lexer.lex_string(".ORG").unwrap();
    let result = parser.parse(tokens);
    assert_eq!(Err(ParserError::expected_address(1)), result);
}

#[test]
fn parser_rejects_a_dangling_comma_after_an_address() {
    let mut parser = Parser::new();
    let mut lexer = Lexer::new();
    let tokens = lexer.lex_string("LDA $44,").unwrap();
    let result = parser.parse(tokens);
    assert_eq!(Err(ParserError::unexpected_eol(1)), result);
}

#[test]
fn byte_directive_resolves_constants_to_immediates() {
    let mut assembler = Assembler::new();
    let segments = assembler
        .assemble_string("FILL = #$40\n.BYTE FILL, #2\n", None)
        .unwrap();
    assert_eq!(&[0x40, 0x02], &segments[0].code[..]);
}

#[test]
fn constant_chains_that_run_in_a_circle_are_unknown() {
    let mut assembler = Assembler::new();
    let result = assembler.assemble_string("A1 = B1\nB1 = A1\n.BYTE A1\n", None);
    assert!(result.is_err());
}

#[test]
fn step_reports_a_stack_overflow_and_changes_nothing() {
    let mut cpu = Cpu::new();
    let code = vec![0x48];
    let _ = cpu.load(&code, None);
    cpu.reset();
    cpu.stack.pointer = 0;
    let result = cpu.step();
    assert_eq!(Err(CpuError::stack_overflow(0xC000)), result);
    assert_eq!(0xC000, cpu.registers.PC);
}

#[test]
fn step_reports_a_stack_underflow_on_an_empty_pop() {
    let mut cpu = Cpu::new();
    let code = vec![0x68];
    let _ = cpu.load(&code, None);
    cpu.reset();
    let result = cpu.step();
    assert_eq!(Err(CpuError::stack_underflow(0xC000)), result);
}

#[test]
fn load_reports_the_segment_error_value() {
    let err = CpuError::code_segment_out_of_range(0xFFF0);
    assert_eq!("CODE segment out of bounds", err.message);
}

#[test]
fn relative_offset_error_names_label_and_address() {
    let err = AssemblerError::relative_offset_too_large("LOOP", 0xC012);
    assert_eq!(
        "Branch too far: Attempted jump to LOOP at C012",
        err.message
    );
}

#[test]
fn get_code_returns_the_most_recent_load() {
    let mut cpu = Cpu::new();
    let first = vec![0x01, 0x02];
    let second = vec![0x03, 0x04, 0x05];
    let _ = cpu.load(&first, Some(0x1000));
    let _ = cpu.load(&second, Some(0x2000));
    assert_eq!(vec![0x03, 0x04, 0x05], cpu.get_code());
}

#[test]
fn reset_returns_to_the_first_loaded_segment() {
    let mut cpu = Cpu::new();
    let first = vec![0xEA];
    let second = vec![0xEA];
    let _ = cpu.load(&first, Some(0x1234));
    let _ = cpu.load(&second, Some(0x2000));
    cpu.reset();
    assert_eq!(0x1234, cpu.registers.PC);
}

#[test]
fn verbose_disassembly_shows_offsets_and_raw_bytes() {
    let dasm = Disassembler::with_verbose_output();
    let code: Vec<u8> = vec![0xA9, 0x20, 0x8D, 0x00, 0x44];
    let text = dasm.disassemble(&code);
    assert_eq!(
        Disassembler::clean_asm("
            0000 A9 20    LDA #$20
            0002 8D 00 44 STA $4400
        "),
        Disassembler::clean_asm(&text)
    );
}

#[test]
fn reassembling_disassembled_code_reproduces_the_bytes() {
    let source = "
        LDA #$20
        STA $4400
        ASL
        JMP ($1234)
        RTS
    ";
    let mut assembler = Assembler::new();
    let segments = assembler.assemble_string(source, None).unwrap();

    let disassembler = Disassembler::with_code_only();
    let text = disassembler.disassemble(&segments[0].code);

    let mut second = Assembler::new();
    let again = second.assemble_string(&text, None).unwrap();
    assert_eq!(segments[0].code, again[0].code);
}

#[test]
fn labels_compare_case_insensitively() {
    let mut assembler = Assembler::new();
    let segments = assembler
        .assemble_string("main LDA $4400\nPHA\nJMP MAIN\n", None)
        .unwrap();
    assert_eq!(
        &[0xAD, 0x00, 0x44, 0x48, 0x4C, 0x00, 0x00],
        &segments[0].code[..]
    );
}

#[test]
fn constants_compare_case_insensitively() {
    let mut assembler = Assembler::new();
    let segments = assembler
        .assemble_string("spot = $2000\nSTA SPOT\n", None)
        .unwrap();
    assert_eq!(&[0x8D, 0x00, 0x20], &segments[0].code[..]);
}

#[test]
fn identifiers_lex_to_their_upper_case_form() {
    let mut lexer = Lexer::new();
    let tokens = lexer.lex_string("lda _tmp9").unwrap();
    assert_eq!(
        &[
            rs6502::LexerToken::Ident("LDA".into()),
            rs6502::LexerToken::Ident("_TMP9".into()),
        ],
        &tokens[0][..]
    );
}

#[test]
fn a_label_may_open_with_an_underscore() {
    let mut assembler = Assembler::new();
    let segments = assembler
        .assemble_string("_START NOP\nJMP _START\n", None)
        .unwrap();
    assert_eq!(&[0xEA, 0x4C, 0x00, 0x00], &segments[0].code[..]);
}

#[test]
fn verbose_disassembly_gives_implied_rows_their_opcode_byte() {
    let dasm = Disassembler::with_verbose_output();
    let code: Vec<u8> = vec![0xA8, 0xA9, 0x01];
    let text = dasm.disassemble(&code);
    assert_eq!(
        Disassembler::clean_asm("
            0000 A8       TAY
            0001 A9 01    LDA #$01
        "),
        Disassembler::clean_asm(&text)
    );
}

#[test]
fn overflow_flag_clears_on_a_same_sign_addition_without_overflow() {
    let mut cpu = Cpu::new();
    // 0x7F + 1 overflows into the sign bit; the following 1 + 1 does
    // not, and clears the flag again.
    let code = vec![0xA9, 0x7F, 0x69, 0x01, 0xA9, 0x01, 0x69, 0x01];
    let _ = cpu.load(&code, None);
    cpu.reset();
    let _ = cpu.step_n(2);
    assert!(cpu.flags.overflow);
    let _ = cpu.step_n(2);
    assert!(!cpu.flags.overflow);
}

#[test]
fn overflow_flag_stays_clear_on_mixed_sign_addition() {
    let mut cpu = Cpu::new();
    // 0x80 + 0x7F: the inputs disagree in sign, so no signed overflow.
    let code = vec![0xA9, 0x80, 0x69, 0x7F];
    let _ = cpu.load(&code, None);
    cpu.reset();
    let _ = cpu.step_n(2);
    assert!(!cpu.flags.overflow);
}
