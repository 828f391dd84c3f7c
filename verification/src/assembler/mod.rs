//! The assembler pipeline: lexer, parser and the two-pass code
//! generator.

pub mod assembler;
pub mod lexer;
pub mod parser;
pub mod token;

pub use assembler::Assembler;
pub use assembler::AssemblerError;
pub use assembler::CodeSegment;
pub use assembler::Label;
pub use lexer::Lexer;
pub use lexer::LexerError;
pub use parser::Parser;
pub use parser::ParserError;
pub use parser::Variable;
pub use token::ImmediateBase;
pub use token::LexerToken;
pub use token::LexerTokenView;
pub use token::ParserToken;
pub use token::ParserTokenView;
