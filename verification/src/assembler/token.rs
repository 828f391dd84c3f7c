//! The token vocabulary shared by the lexer, the parser and the
//! assembler driver.

use vstd::prelude::*;
use crate::opcodes::OpCode;

verus! {

/// The base an immediate literal was written in.
#[derive(Clone, Copy, Debug, PartialEq, Eq, Structural)]
pub enum ImmediateBase {
    Base10,
    Base16,
}

/// One lexical token of a source line.
#[derive(Clone, Debug, PartialEq)]
pub enum LexerToken {
    Ident(String),
    Assignment,
    Address(String),
    OpenParenthesis,
    CloseParenthesis,
    Comma,
    Period,
    Immediate(String, ImmediateBase),
    Colon,
}

/// The mathematical shape of a `LexerToken`: its text as a character
/// sequence.
pub enum LexerTokenView {
    Ident(Seq<char>),
    Assignment,
    Address(Seq<char>),
    OpenParenthesis,
    CloseParenthesis,
    Comma,
    Period,
    Immediate(Seq<char>, ImmediateBase),
    Colon,
}

impl LexerToken {
    /// A copy of the token whose view is known to match.
    pub fn duplicate(&self) -> (r: LexerToken)
        ensures
            r@ == self@,
    {
        match self {
            LexerToken::Ident(s) => LexerToken::Ident(s.clone()),
            LexerToken::Assignment => LexerToken::Assignment,
            LexerToken::Address(s) => LexerToken::Address(s.clone()),
            LexerToken::OpenParenthesis => LexerToken::OpenParenthesis,
            LexerToken::CloseParenthesis => LexerToken::CloseParenthesis,
            LexerToken::Comma => LexerToken::Comma,
            LexerToken::Period => LexerToken::Period,
            LexerToken::Immediate(s, b) => LexerToken::Immediate(s.clone(), *b),
            LexerToken::Colon => LexerToken::Colon,
        }
    }
}

impl View for LexerToken {
    type V = LexerTokenView;

    open spec fn view(&self) -> LexerTokenView {
        match self {
            LexerToken::Ident(s) => LexerTokenView::Ident(s@),
            LexerToken::Assignment => LexerTokenView::Assignment,
            LexerToken::Address(s) => LexerTokenView::Address(s@),
            LexerToken::OpenParenthesis => LexerTokenView::OpenParenthesis,
            LexerToken::CloseParenthesis => LexerTokenView::CloseParenthesis,
            LexerToken::Comma => LexerTokenView::Comma,
            LexerToken::Period => LexerTokenView::Period,
            LexerToken::Immediate(s, b) => LexerTokenView::Immediate(s@, *b),
            LexerToken::Colon => LexerTokenView::Colon,
        }
    }
}

impl DeepView for LexerToken {
    type V = LexerTokenView;

    open spec fn deep_view(&self) -> LexerTokenView {
        self.view()
    }
}

/// One semantic unit of a parsed program, as the code generator walks
/// them.
#[derive(Clone, Debug, PartialEq)]
pub enum ParserToken {
    Label(String),
    LabelArg(String),
    OpCode(OpCode),
    RawByte(u8),
    RawBytes(Vec<u8>),
    OrgDirective(u16),
}

/// The mathematical shape of a `ParserToken`.
pub enum ParserTokenView {
    Label(Seq<char>),
    LabelArg(Seq<char>),
    OpCode(OpCode),
    RawByte(u8),
    RawBytes(Seq<u8>),
    OrgDirective(u16),
}

impl View for ParserToken {
    type V = ParserTokenView;

    open spec fn view(&self) -> ParserTokenView {
        match self {
            ParserToken::Label(s) => ParserTokenView::Label(s@),
            ParserToken::LabelArg(s) => ParserTokenView::LabelArg(s@),
            ParserToken::OpCode(op) => ParserTokenView::OpCode(*op),
            ParserToken::RawByte(b) => ParserTokenView::RawByte(*b),
            ParserToken::RawBytes(bs) => ParserTokenView::RawBytes(bs@),
            ParserToken::OrgDirective(a) => ParserTokenView::OrgDirective(*a),
        }
    }
}

impl DeepView for ParserToken {
    type V = ParserTokenView;

    open spec fn deep_view(&self) -> ParserTokenView {
        self.view()
    }
}

} // verus!
