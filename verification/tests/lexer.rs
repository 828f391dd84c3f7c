//! The lexer's tests.

use rs6502::ImmediateBase;
use rs6502::Lexer;
use rs6502::LexerError;
use rs6502::LexerToken;

#[test]
fn can_lex_basic_opcode_and_addressing_mode() {
    let mut lexer = Lexer::new();
    let tokens = lexer.lex_string("
            LDA $4400
        ")
        .unwrap();

    assert_eq!(&[LexerToken::Ident("LDA".into()), LexerToken::Address("4400".into())],
               &tokens[0][..]);
}

#[test]
fn can_lex_variable_assignment() {
    let mut lexer = Lexer::new();
    let tokens = lexer.lex_string("
            MY_VARIABLE = #$20
        ")
        .unwrap();

    assert_eq!(&[LexerToken::Ident("MY_VARIABLE".into()),
                 LexerToken::Assignment,
                 LexerToken::Immediate("20".into(), ImmediateBase::Base16)],
               &tokens[0][..]);
}

#[test]
fn can_lex_base_ten_variable_assignment() {
    let mut lexer = Lexer::new();
    let tokens = lexer.lex_string("
            MY_VARIABLE = #50
        ")
        .unwrap();

    assert_eq!(&[LexerToken::Ident("MY_VARIABLE".into()),
                 LexerToken::Assignment,
                 LexerToken::Immediate("50".into(), ImmediateBase::Base10)],
               &tokens[0][..]);
}

#[test]
fn can_lex_absolute_addressing() {
    let mut lexer = Lexer::new();
    let tokens = lexer.lex_string("
            LDA $4400,X
        ")
        .unwrap();

    assert_eq!(&[LexerToken::Ident("LDA".into()),
                 LexerToken::Address("4400".into()),
                 LexerToken::Comma,
                 LexerToken::Ident("X".into())],
               &tokens[0][..]);
}

#[test]
fn can_lex_indirect_y_addressing() {
    let mut lexer = Lexer::new();
    let tokens = lexer.lex_string("
            LDA ($FF),Y
        ")
        .unwrap();

    assert_eq!(&[LexerToken::Ident("LDA".into()),
                 LexerToken::OpenParenthesis,
                 LexerToken::Address("FF".into()),
                 LexerToken::CloseParenthesis,
                 LexerToken::Comma,
                 LexerToken::Ident("Y".into())],
               &tokens[0][..]);
}

#[test]
fn can_lex_indirect_x_addressing() {
    let mut lexer = Lexer::new();
    let tokens = lexer.lex_string("
            LDA ($FF,X)
        ")
        .unwrap();

    assert_eq!(&[LexerToken::Ident("LDA".into()),
                 LexerToken::OpenParenthesis,
                 LexerToken::Address("FF".into()),
                 LexerToken::Comma,
                 LexerToken::Ident("X".into()),
                 LexerToken::CloseParenthesis],
               &tokens[0][..]);
}

#[test]
fn errors_on_unexpected_token() {
    let mut lexer = Lexer::new();
    let tokens = lexer.lex_string("
            LDA ($F-----F,X)
        ");

    assert_eq!(Err(LexerError::unexpected_token(2, 20)), tokens);
}

#[test]
fn errors_on_unexpected_token_square_bracket() {
    let mut lexer = Lexer::new();
    let tokens = lexer.lex_string("
            LDA ($FF],X)
        ");

    assert_eq!(Err(LexerError::unexpected_token(2, 21)), tokens);
}

#[test]
fn can_handle_lots_of_whitespace() {
    let mut lexer = Lexer::new();
    let tokens = lexer.lex_string("
            LDA (    $FF      ,   X                             )
        ")
        .unwrap();

    assert_eq!(&[LexerToken::Ident("LDA".into()),
                 LexerToken::OpenParenthesis,
                 LexerToken::Address("FF".into()),
                 LexerToken::Comma,
                 LexerToken::Ident("X".into()),
                 LexerToken::CloseParenthesis],
               &tokens[0][..]);
}
