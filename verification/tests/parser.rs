//! The parser's tests: addressing-mode disambiguation, labels,
//! constants and directives.

use rs6502::AddressingMode;
use rs6502::LexerToken;
use rs6502::OpCode;
use rs6502::Parser;
use rs6502::ParserError;
use rs6502::ParserToken;

#[test]
fn can_parse_labels_via_lonely_label() {
    let tokens = vec![vec![LexerToken::Ident("MAIN".into())],
                      vec![LexerToken::Ident("START".into())]];

    let mut parser = Parser::new();
    let result = parser.parse(tokens).unwrap();

    assert_eq!(&[ParserToken::Label("MAIN".into()), ParserToken::Label("START".into())],
               &result[..]);
}

#[test]
fn can_parse_labels_via_colon_terminator() {
    let tokens = vec![vec![LexerToken::Ident("MAIN".into())], vec![LexerToken::Colon]];

    let mut parser = Parser::new();
    let result = parser.parse(tokens).unwrap();

    assert_eq!(&[ParserToken::Label("MAIN".into())], &result[..]);
}

#[test]
fn can_parse_opcodes_after_labels_on_one_line() {
    let tokens = vec![vec![LexerToken::Ident("MAIN".into()),
                           LexerToken::Ident("LDA".into()),
                           LexerToken::Address("4400".into())]];

    let mut parser = Parser::new();
    let result = parser.parse(tokens).unwrap();

    assert_eq!(&[ParserToken::Label("MAIN".into()),
                 ParserToken::OpCode(OpCode::from_mnemonic_and_addressing_mode("LDA", AddressingMode::Absolute).unwrap()),
                 ParserToken::RawByte(0),
                 ParserToken::RawByte(68)],
               &result[..]);
}

#[test]
fn can_parse_double_labels_on_one_line() {
    let tokens = vec![vec![LexerToken::Ident("MAIN".into()),
                           LexerToken::Ident("START".into())]];

    let mut parser = Parser::new();
    let result = parser.parse(tokens);

    assert_eq!(Err(ParserError::expected_instruction(1)), result);
}

#[test]
fn can_parse_opcode_with_implied_addressing_mode() {
    let tokens = vec![vec![LexerToken::Ident("CLC".into())]];

    let mut parser = Parser::new();
    let result = parser.parse(tokens).unwrap();

    assert_eq!(&[ParserToken::OpCode(OpCode::from_mnemonic_and_addressing_mode("CLC", AddressingMode::Implied).unwrap())], &result[..]);
}

#[test]
fn can_parse_opcode_with_correct_absolute_x_addressing_mode() {
    let tokens = vec![vec![LexerToken::Ident("MAIN".into()),
                           LexerToken::Ident("LDA".into()),
                           LexerToken::Address("4400".into()),
                           LexerToken::Comma,
                           LexerToken::Ident("X".into())]];

    let mut parser = Parser::new();
    let result = parser.parse(tokens).unwrap();

    assert_eq!(&[ParserToken::Label("MAIN".into()),
                 ParserToken::OpCode(OpCode::from_mnemonic_and_addressing_mode("LDA", AddressingMode::AbsoluteX).unwrap()),
                 ParserToken::RawByte(0),
                 ParserToken::RawByte(68)],
               &result[..]);
}

#[test]
fn errors_on_incorrect_zero_page_y_usage() {
    // LDA does not support the ZeroPageY addressing mode
    let tokens = vec![vec![LexerToken::Ident("LDA".into()),
                           LexerToken::Address("44".into()),
                           LexerToken::Comma,
                           LexerToken::Ident("Y".into())]];

    let mut parser = Parser::new();
    let result = parser.parse(tokens);

    assert_eq!(Err(ParserError::invalid_opcode_addressing_mode_combination(1)),
               result);
}

#[test]
fn can_handle_correct_zero_page_y_usage() {
    // LDX does support the ZeroPageY addressing mode
    let tokens = vec![vec![LexerToken::Ident("LDX".into()),
                           LexerToken::Address("44".into()),
                           LexerToken::Comma,
                           LexerToken::Ident("Y".into())]];

    let mut parser = Parser::new();
    let result = parser.parse(tokens).unwrap();

    assert_eq!(&[
                 ParserToken::OpCode(OpCode::from_mnemonic_and_addressing_mode("LDX", AddressingMode::ZeroPageY).unwrap()),
                 ParserToken::RawByte(68)],
               &result[..]);
}

#[test]
fn can_parse_indirect_x_addressing() {
    let tokens = vec![vec![LexerToken::Ident("LDA".into()),
                           LexerToken::OpenParenthesis,
                           LexerToken::Address("44".into()),
                           LexerToken::Comma,
                           LexerToken::Ident("X".into()),
                           LexerToken::CloseParenthesis]];

    let mut parser = Parser::new();
    let result = parser.parse(tokens).unwrap();

    assert_eq!(&[
                 ParserToken::OpCode(OpCode::from_mnemonic_and_addressing_mode("LDA", AddressingMode::IndirectX).unwrap()),
                 ParserToken::RawByte(68)],
               &result[..]);
}

#[test]
fn errors_on_incorrect_indirect_x_addressing() {
    let tokens = vec![vec![LexerToken::Ident("LDA".into()),
                           LexerToken::OpenParenthesis,
                           LexerToken::Address("44".into()),
                           LexerToken::Comma,
                           LexerToken::Ident("B".into()),
                           LexerToken::CloseParenthesis]];

    let mut parser = Parser::new();
    let result = parser.parse(tokens);

    assert_eq!(Err(ParserError::unexpected_token(1)), result);
}

#[test]
fn errors_on_indirect_addressing_early_eol() {
    let tokens = vec![vec![LexerToken::Ident("LDA".into()),
                           LexerToken::OpenParenthesis,
                           LexerToken::Address("44".into()),
                           LexerToken::Comma,
                           LexerToken::Ident("X".into())]];

    let mut parser = Parser::new();
    let result = parser.parse(tokens);

    assert_eq!(Err(ParserError::unexpected_eol(1)), result);
}

#[test]
fn can_parse_indirect_jump_instruction() {
    let tokens = vec![vec![LexerToken::Ident("JMP".into()),
                           LexerToken::OpenParenthesis,
                           LexerToken::Address("4400".into()),
                           LexerToken::CloseParenthesis]];

    let mut parser = Parser::new();
    let result = parser.parse(tokens).unwrap();

    assert_eq!(&[
                 ParserToken::OpCode(OpCode::from_mnemonic_and_addressing_mode("JMP", AddressingMode::Indirect).unwrap()),
                 ParserToken::RawByte(0),
                 ParserToken::RawByte(68)],
               &result[..]);
}

#[test]
fn errors_on_eight_bit_indirect_jump_instruction() {
    let tokens = vec![vec![LexerToken::Ident("JMP".into()),
                           LexerToken::OpenParenthesis,
                           LexerToken::Address("44".into()),
                           LexerToken::CloseParenthesis]];

    let mut parser = Parser::new();
    let result = parser.parse(tokens);

    assert_eq!(Err(ParserError::address_out_of_bounds(1)), result);
}

#[test]
fn can_parse_implied_stack_instructions() {
    let tokens = vec![vec![LexerToken::Ident("PHA".into())]];

    let mut parser = Parser::new();
    let result = parser.parse(tokens).unwrap();

    assert_eq!(&[
                 ParserToken::OpCode(OpCode::from_mnemonic_and_addressing_mode("PHA", AddressingMode::Implied).unwrap())],
               &result[..]);
}

#[test]
fn errors_on_incorrect_opcode_addressing_mode_with_variable() {
    let tokens = vec![vec![LexerToken::Ident("MAIN_ADDRESS".into()),
                           LexerToken::Assignment,
                           LexerToken::Address("00".into())],
                      vec![LexerToken::Ident("JMP".into()),
                           LexerToken::Ident("MAIN_ADDRESS".into())]];

    let mut parser = Parser::new();
    let result = parser.parse(tokens);

    assert_eq!(Err(ParserError::invalid_opcode_addressing_mode_combination(2)),
               result);
}

#[test]
fn can_parse_directives() {
    let tokens = vec![vec![LexerToken::Period,
                           LexerToken::Ident("ORG".into()),
                           LexerToken::Address("C000".into())]];

    let mut parser = Parser::new();
    let result = parser.parse(tokens).unwrap();

    assert_eq!(&[ParserToken::OrgDirective(0xC000)], &result[..]);
}
