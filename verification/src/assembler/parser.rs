//! The parser: line-grouped lexer tokens to a flat sequence of semantic
//! instructions, with addressing-mode disambiguation, variable
//! substitution, and opcode validity checking.

use vstd::prelude::*;
use vstd::string::StringExecFns;
use vstd::string::StrSliceExecFns;
use crate::opcodes::AddressingMode;
use crate::opcodes::Mnemonic;
use crate::opcodes::OpCode;
use crate::opcodes::spec_from_mnemonic;
use crate::opcodes::spec_opcode;
use crate::opcodes::spec_upper_char;
use crate::opcodes::upper_char;
use crate::assembler::token::ImmediateBase;
use crate::assembler::token::LexerToken;
use crate::assembler::token::LexerTokenView;
use crate::assembler::token::ParserToken;
use crate::assembler::token::ParserTokenView;
use crate::text::push_dec;
use crate::text::spec_dec_text;
use crate::text::spec_all_dec;
use crate::text::spec_all_hex;
use crate::text::spec_dec_value;
use crate::text::spec_hex_value;

verus! {

/// A parsing failure, with a human-readable message naming the line it
/// arose at.
#[derive(Debug, PartialEq)]
pub struct ParserError {
    pub message: String,
}

impl View for ParserError {
    type V = Seq<char>;

    open spec fn view(&self) -> Seq<char> {
        self.message@
    }
}

/// The message of `ParserError::expected_immediate`.
pub open spec fn spec_msg_expected_immediate(line: int) -> Seq<char> {
    "Immediate value expected. Line "@ + spec_dec_text(line)
}

/// The message of `ParserError::expected_instruction`.
pub open spec fn spec_msg_expected_instruction(line: int) -> Seq<char> {
    "Instruction expected. Line "@ + spec_dec_text(line)
}

/// The message of `ParserError::invalid_opcode_addressing_mode_combination`.
pub open spec fn spec_msg_invalid_combination(line: int) -> Seq<char> {
    "Invalid addressing mode for opcode. Line "@ + spec_dec_text(line)
}

/// The message of `ParserError::unexpected_eol`.
pub open spec fn spec_msg_unexpected_eol(line: int) -> Seq<char> {
    "Unexpected end of line. Line "@ + spec_dec_text(line)
}

/// The message of `ParserError::expected_eol`.
pub open spec fn spec_msg_expected_eol(line: int) -> Seq<char> {
    "Expected end of line. Line "@ + spec_dec_text(line)
}

/// The message of `ParserError::cannot_parse_address`.
pub open spec fn spec_msg_cannot_parse_address(line: int) -> Seq<char> {
    "Unable to parse address. Line "@ + spec_dec_text(line)
}

/// The message of `ParserError::unexpected_token`.
pub open spec fn spec_msg_parser_unexpected_token(line: int) -> Seq<char> {
    "Unexpected token. Line "@ + spec_dec_text(line)
}

/// The message of `ParserError::address_out_of_bounds`.
pub open spec fn spec_msg_address_out_of_bounds(line: int) -> Seq<char> {
    "Address too large. Line "@ + spec_dec_text(line)
}

/// The message of `ParserError::expected_address`.
pub open spec fn spec_msg_expected_address(line: int) -> Seq<char> {
    "Unexpected token, expected address. Line "@ + spec_dec_text(line)
}

/// The message of `ParserError::cannot_parse_immediate`.
pub open spec fn spec_msg_cannot_parse_immediate(line: int) -> Seq<char> {
    "Unable to parse immediate value. Line "@ + spec_dec_text(line)
}

/// The message of `ParserError::unknown_identifier`.
pub open spec fn spec_msg_unknown_identifier(line: int) -> Seq<char> {
    "Unknown identifier. Line "@ + spec_dec_text(line)
}

impl ParserError {
    /// Something other than an immediate where one was required.
    pub fn expected_immediate(line: u32) -> (r: ParserError)
        ensures
            r@ == spec_msg_expected_immediate(line as int),
    {
        let mut message = String::from_str("Immediate value expected. Line ");
        push_dec(&mut message, line);
        ParserError { message }
    }

    /// Something other than an instruction after a label.
    pub fn expected_instruction(line: u32) -> (r: ParserError)
        ensures
            r@ == spec_msg_expected_instruction(line as int),
    {
        let mut message = String::from_str("Instruction expected. Line ");
        push_dec(&mut message, line);
        ParserError { message }
    }

    /// A (mnemonic, addressing mode) pair the 6502 does not support.
    pub fn invalid_opcode_addressing_mode_combination(line: u32) -> (r: ParserError)
        ensures
            r@ == spec_msg_invalid_combination(line as int),
    {
        let mut message = String::from_str("Invalid addressing mode for opcode. Line ");
        push_dec(&mut message, line);
        ParserError { message }
    }

    /// A line that ends where more tokens were required.
    pub fn unexpected_eol(line: u32) -> (r: ParserError)
        ensures
            r@ == spec_msg_unexpected_eol(line as int),
    {
        let mut message = String::from_str("Unexpected end of line. Line ");
        push_dec(&mut message, line);
        ParserError { message }
    }

    /// A line that carries tokens where it should end.
    pub fn expected_eol(line: u32) -> (r: ParserError)
        ensures
            r@ == spec_msg_expected_eol(line as int),
    {
        let mut message = String::from_str("Expected end of line. Line ");
        push_dec(&mut message, line);
        ParserError { message }
    }

    /// An address literal that is no well-formed 16-bit address.
    pub fn cannot_parse_address(line: u32) -> (r: ParserError)
        ensures
            r@ == spec_msg_cannot_parse_address(line as int),
    {
        let mut message = String::from_str("Unable to parse address. Line ");
        push_dec(&mut message, line);
        ParserError { message }
    }

    /// A token that fits no rule at this position.
    pub fn unexpected_token(line: u32) -> (r: ParserError)
        ensures
            r@ == spec_msg_parser_unexpected_token(line as int),
    {
        let mut message = String::from_str("Unexpected token. Line ");
        push_dec(&mut message, line);
        ParserError { message }
    }

    /// An address wider than 16 bits.
    pub fn address_out_of_bounds(line: u32) -> (r: ParserError)
        ensures
            r@ == spec_msg_address_out_of_bounds(line as int),
    {
        let mut message = String::from_str("Address too large. Line ");
        push_dec(&mut message, line);
        ParserError { message }
    }

    /// Something other than an address where one was required.
    pub fn expected_address(line: u32) -> (r: ParserError)
        ensures
            r@ == spec_msg_expected_address(line as int),
    {
        let mut message = String::from_str("Unexpected token, expected address. Line ");
        push_dec(&mut message, line);
        ParserError { message }
    }

    /// An immediate literal that is no well-formed byte.
    pub fn cannot_parse_immediate(line: u32) -> (r: ParserError)
        ensures
            r@ == spec_msg_cannot_parse_immediate(line as int),
    {
        let mut message = String::from_str("Unable to parse immediate value. Line ");
        push_dec(&mut message, line);
        ParserError { message }
    }

    /// A name that no constant definition covers.
    pub fn unknown_identifier(line: u32) -> (r: ParserError)
        ensures
            r@ == spec_msg_unknown_identifier(line as int),
    {
        let mut message = String::from_str("Unknown identifier. Line ");
        push_dec(&mut message, line);
        ParserError { message }
    }
}

/// The value a constant name is bound to: the token of its `NAME = value`
/// line.
#[derive(Clone, Debug, PartialEq)]
pub struct Variable(pub LexerToken);

/// The mathematical shape of the constant table: name/value pairs in the
/// order they were defined; a later definition of a name shadows an
/// earlier one.
pub type ConstTable = Seq<(Seq<char>, LexerTokenView)>;

/// The view of an executable constant table.
pub open spec fn spec_table_view(t: Seq<(String, Variable)>) -> ConstTable {
    Seq::new(t.len(), |i: int| (t[i].0@, t[i].1.0@))
}

/// The value bound to a name: the latest definition wins. Names arrive
/// upper-cased from the lexer, so lookups on assembled programs are
/// case-insensitive.
pub open spec fn spec_tbl_lookup(tbl: ConstTable, name: Seq<char>) -> Option<LexerTokenView>
    decreases tbl.len(),
{
    if tbl.len() == 0 {
        None
    } else if tbl.last().0 == name {
        Some(tbl.last().1)
    } else {
        spec_tbl_lookup(tbl.drop_last(), name)
    }
}

/// Follows a chain of constants bound to other constants, for at most
/// `fuel` steps; a chain that runs in a circle exhausts the fuel and
/// resolves to nothing.
pub open spec fn spec_resolve(tbl: ConstTable, name: Seq<char>, fuel: nat) -> Option<
    LexerTokenView,
>
    decreases fuel,
{
    if fuel == 0 {
        None
    } else {
        match spec_tbl_lookup(tbl, name) {
            None => None,
            Some(v) => match v {
                LexerTokenView::Ident(n2) => spec_resolve(tbl, n2, (fuel - 1) as nat),
                _ => Some(v),
            },
        }
    }
}

/// The byte value of an immediate literal in the given base: all digits
/// of the base, non-empty, value at most 255.
pub open spec fn spec_parse_imm(s: Seq<char>, base: ImmediateBase) -> Option<u8> {
    match base {
        ImmediateBase::Base10 => if s.len() == 0 || !spec_all_dec(s) || spec_dec_value(s) > 255 {
            None
        } else {
            Some(spec_dec_value(s) as u8)
        },
        ImmediateBase::Base16 => if s.len() == 0 || !spec_all_hex(s) || spec_hex_value(s) > 255 {
            None
        } else {
            Some(spec_hex_value(s) as u8)
        },
    }
}

/// The operand bytes of an address literal: one byte for a one- or
/// two-digit literal (zero page), else two bytes little-endian. Nothing
/// for a literal that is empty, not hexadecimal, or over 16 bits.
pub open spec fn spec_address_bytes(s: Seq<char>) -> Option<Seq<u8>> {
    if s.len() == 0 || !spec_all_hex(s) || spec_hex_value(s) > 0xFFFF {
        None
    } else if s.len() <= 2 {
        Some(seq![spec_hex_value(s) as u8])
    } else {
        Some(seq![(spec_hex_value(s) % 256) as u8, (spec_hex_value(s) / 256) as u8])
    }
}

/// The 16-bit value of an address literal, if it is one.
pub open spec fn spec_address_value(s: Seq<char>) -> Option<u16> {
    if s.len() == 0 || !spec_all_hex(s) || spec_hex_value(s) > 0xFFFF {
        None
    } else {
        Some(spec_hex_value(s) as u16)
    }
}

/// An opcode token followed by its operand bytes.
pub open spec fn spec_op_with_bytes(op: OpCode, bytes: Seq<u8>) -> Seq<ParserTokenView>
    decreases bytes.len(),
{
    seq![ParserTokenView::OpCode(op)] + bytes.map_values(|b: u8| ParserTokenView::RawByte(b))
}

/// The uppercase form of a name, for case-insensitive comparisons.
pub open spec fn spec_upper(s: Seq<char>) -> Seq<char> {
    s.map_values(|c: char| spec_upper_char(c))
}

/// What a mnemonic line's operand tokens denote, starting at position
/// `k` of the line (just past the mnemonic). Produces the opcode token
/// and operand byte tokens, or the first error.
pub open spec fn spec_consume_opcode(
    line: Seq<LexerTokenView>,
    k: int,
    mn: Mnemonic,
    tbl: ConstTable,
    lineno: int,
) -> Result<Seq<ParserTokenView>, Seq<char>> {
    if k >= line.len() {
        // No operand: implied, or accumulator for the shift instructions.
        match spec_opcode(mn, AddressingMode::Implied) {
            Some(op) => Ok(seq![ParserTokenView::OpCode(op)]),
            None => match spec_opcode(mn, AddressingMode::Accumulator) {
                Some(op) => Ok(seq![ParserTokenView::OpCode(op)]),
                None => Err(spec_msg_invalid_combination(lineno)),
            },
        }
    } else {
        match line[k] {
            LexerTokenView::Ident(name) => match spec_resolve(tbl, name, tbl.len() + 1) {
                Some(v) => spec_consume_operand(line, k, v, mn, tbl, lineno),
                None => {
                    // Not a constant: a label argument. Jumps take the
                    // label as an absolute address, branches as a
                    // relative offset.
                    let mode = if mn == Mnemonic::JMP || mn == Mnemonic::JSR {
                        AddressingMode::Absolute
                    } else {
                        AddressingMode::Relative
                    };
                    match spec_opcode(mn, mode) {
                        Some(op) => Ok(
                            seq![
                                ParserTokenView::OpCode(op),
                                ParserTokenView::LabelArg(name),
                            ],
                        ),
                        None => Err(spec_msg_invalid_combination(lineno)),
                    }
                },
            },
            _ => spec_consume_operand(line, k, line[k], mn, tbl, lineno),
        }
    }
}

/// What an operand token `t` (at position `k`, possibly substituted for a
/// constant name) denotes.
pub open spec fn spec_consume_operand(
    line: Seq<LexerTokenView>,
    k: int,
    t: LexerTokenView,
    mn: Mnemonic,
    tbl: ConstTable,
    lineno: int,
) -> Result<Seq<ParserTokenView>, Seq<char>> {
    match t {
        LexerTokenView::Address(a) => spec_consume_address(line, k, a, mn, lineno),
        LexerTokenView::OpenParenthesis => spec_consume_indirect(line, k, mn, tbl, lineno),
        LexerTokenView::Immediate(v, base) => match spec_parse_imm(v, base) {
            Some(val) => match spec_opcode(mn, AddressingMode::Immediate) {
                Some(op) => Ok(spec_op_with_bytes(op, seq![val])),
                None => Err(spec_msg_invalid_combination(lineno)),
            },
            None => Err(spec_msg_cannot_parse_immediate(lineno)),
        },
        _ => Err(spec_msg_expected_address(lineno)),
    }
}

/// A direct address operand: zero page or absolute, optionally indexed
/// by X or Y through a comma.
pub open spec fn spec_consume_address(
    line: Seq<LexerTokenView>,
    k: int,
    a: Seq<char>,
    mn: Mnemonic,
    lineno: int,
) -> Result<Seq<ParserTokenView>, Seq<char>> {
    if a.len() > 4 {
        Err(spec_msg_cannot_parse_address(lineno))
    } else {
        let zp = a.len() <= 2;
        match spec_address_bytes(a) {
            None => Err(spec_msg_cannot_parse_address(lineno)),
            Some(bytes) => if k + 1 >= line.len() {
                let mode = if zp {
                    AddressingMode::ZeroPage
                } else {
                    AddressingMode::Absolute
                };
                match spec_opcode(mn, mode) {
                    Some(op) => Ok(spec_op_with_bytes(op, bytes)),
                    None => Err(spec_msg_invalid_combination(lineno)),
                }
            } else if line[k + 1] is Comma {
                if k + 2 >= line.len() {
                    Err(spec_msg_unexpected_eol(lineno))
                } else {
                    match line[k + 2] {
                        LexerTokenView::Ident(reg) => {
                            let up = spec_upper(reg);
                            if up == "X"@ {
                                let mode = if zp {
                                    AddressingMode::ZeroPageX
                                } else {
                                    AddressingMode::AbsoluteX
                                };
                                match spec_opcode(mn, mode) {
                                    Some(op) => Ok(spec_op_with_bytes(op, bytes)),
                                    None => Err(spec_msg_invalid_combination(lineno)),
                                }
                            } else if up == "Y"@ {
                                let mode = if zp {
                                    AddressingMode::ZeroPageY
                                } else {
                                    AddressingMode::AbsoluteY
                                };
                                match spec_opcode(mn, mode) {
                                    Some(op) => Ok(spec_op_with_bytes(op, bytes)),
                                    None => Err(spec_msg_invalid_combination(lineno)),
                                }
                            } else {
                                Err(spec_msg_parser_unexpected_token(lineno))
                            }
                        },
                        _ => Err(spec_msg_parser_unexpected_token(lineno)),
                    }
                }
            } else {
                Err(spec_msg_parser_unexpected_token(lineno))
            },
        }
    }
}

/// An indirect operand: `($hhhh)`, `($hh,X)` or `($hh),Y`, with constant
/// substitution inside the parentheses.
pub open spec fn spec_consume_indirect(
    line: Seq<LexerTokenView>,
    k: int,
    mn: Mnemonic,
    tbl: ConstTable,
    lineno: int,
) -> Result<Seq<ParserTokenView>, Seq<char>> {
    if k + 1 >= line.len() {
        Err(spec_msg_unexpected_eol(lineno))
    } else {
        let t2 = match line[k + 1] {
            LexerTokenView::Ident(name) => match spec_resolve(tbl, name, tbl.len() + 1) {
                Some(v) => v,
                None => line[k + 1],
            },
            _ => line[k + 1],
        };
        match t2 {
            LexerTokenView::Address(a) => if a.len() > 4 {
                Err(spec_msg_address_out_of_bounds(lineno))
            } else {
                match spec_address_bytes(a) {
                    None => Err(spec_msg_cannot_parse_address(lineno)),
                    Some(bytes) => if k + 2 >= line.len() {
                        Err(spec_msg_unexpected_eol(lineno))
                    } else if line[k + 2] is Comma {
                        spec_consume_indirect_x(line, k, bytes, mn, lineno)
                    } else if line[k + 2] is CloseParenthesis {
                        spec_consume_indirect_y(line, k, a, bytes, mn, lineno)
                    } else {
                        Err(spec_msg_parser_unexpected_token(lineno))
                    },
                }
            },
            _ => Err(spec_msg_cannot_parse_address(lineno)),
        }
    }
}

/// The tail of a `($hh,X)` operand, from the comma at `k + 2` on.
pub open spec fn spec_consume_indirect_x(
    line: Seq<LexerTokenView>,
    k: int,
    bytes: Seq<u8>,
    mn: Mnemonic,
    lineno: int,
) -> Result<Seq<ParserTokenView>, Seq<char>> {
    if k + 3 >= line.len() {
        Err(spec_msg_unexpected_eol(lineno))
    } else {
        match line[k + 3] {
            LexerTokenView::Ident(reg) => if spec_upper(reg) != "X"@ {
                Err(spec_msg_parser_unexpected_token(lineno))
            } else if k + 4 >= line.len() {
                Err(spec_msg_unexpected_eol(lineno))
            } else if line[k + 4] is CloseParenthesis {
                match spec_opcode(mn, AddressingMode::IndirectX) {
                    Some(op) => Ok(spec_op_with_bytes(op, seq![bytes[0]])),
                    None => Err(spec_msg_invalid_combination(lineno)),
                }
            } else {
                Err(spec_msg_parser_unexpected_token(lineno))
            },
            _ => Err(spec_msg_parser_unexpected_token(lineno)),
        }
    }
}

/// The tail of a `($hhhh)` or `($hh),Y` operand, from the closing
/// parenthesis at `k + 2` on.
pub open spec fn spec_consume_indirect_y(
    line: Seq<LexerTokenView>,
    k: int,
    a: Seq<char>,
    bytes: Seq<u8>,
    mn: Mnemonic,
    lineno: int,
) -> Result<Seq<ParserTokenView>, Seq<char>> {
    if k + 3 >= line.len() {
        // The operand ends at the closing parenthesis: an indirect jump.
        match spec_opcode(mn, AddressingMode::Indirect) {
            Some(op) => if a.len() != 4 {
                Err(spec_msg_address_out_of_bounds(lineno))
            } else {
                Ok(spec_op_with_bytes(op, bytes))
            },
            None => Err(spec_msg_invalid_combination(lineno)),
        }
    } else if line[k + 3] is Comma {
        if k + 4 >= line.len() {
            Err(spec_msg_unexpected_eol(lineno))
        } else {
            match line[k + 4] {
                LexerTokenView::Ident(reg) => if spec_upper(reg) != "Y"@ {
                    Err(spec_msg_parser_unexpected_token(lineno))
                } else {
                    match spec_opcode(mn, AddressingMode::IndirectY) {
                        Some(op) => Ok(spec_op_with_bytes(op, bytes)),
                        None => Err(spec_msg_invalid_combination(lineno)),
                    }
                },
                _ => Err(spec_msg_parser_unexpected_token(lineno)),
            }
        }
    } else {
        Err(spec_msg_parser_unexpected_token(lineno))
    }
}

/// The bytes of a `.BYTE` argument list from position `k` on: immediates
/// or constants resolving to immediates, separated by commas. A token
/// other than a comma after an immediate ends the list.
pub open spec fn spec_consume_byte_args(
    line: Seq<LexerTokenView>,
    k: int,
    tbl: ConstTable,
    lineno: int,
) -> Result<Seq<u8>, Seq<char>>
    decreases line.len() - k,
{
    if k >= line.len() {
        Err(spec_msg_expected_immediate(lineno))
    } else {
        let imm = match line[k] {
            LexerTokenView::Ident(name) => match spec_resolve(tbl, name, tbl.len() + 1) {
                None => Err(spec_msg_unknown_identifier(lineno)),
                Some(v) => match v {
                    LexerTokenView::Immediate(s, base) => Ok((s, base)),
                    _ => Err(spec_msg_expected_immediate(lineno)),
                },
            },
            LexerTokenView::Immediate(s, base) => Ok((s, base)),
            _ => Err(spec_msg_expected_immediate(lineno)),
        };
        match imm {
            Err(e) => Err(e),
            Ok((s, base)) => match spec_parse_imm(s, base) {
                None => Err(spec_msg_cannot_parse_immediate(lineno)),
                Some(val) => if k + 1 >= line.len() {
                    Ok(seq![val])
                } else if line[k + 1] is Comma {
                    match spec_consume_byte_args(line, k + 2, tbl, lineno) {
                        Ok(rest) => Ok(seq![val] + rest),
                        Err(e) => Err(e),
                    }
                } else {
                    Ok(seq![val])
                },
            },
        }
    }
}

/// What one line of tokens contributes: the parser tokens it emits and
/// the constant table it leaves behind.
pub open spec fn spec_parse_line(
    line: Seq<LexerTokenView>,
    tbl: ConstTable,
    lineno: int,
) -> Result<(Seq<ParserTokenView>, ConstTable), Seq<char>> {
    if line.len() == 0 {
        Ok((seq![], tbl))
    } else {
        match line[0] {
            LexerTokenView::Ident(name) => match spec_from_mnemonic(name) {
                Some(mn) => match spec_consume_opcode(line, 1, mn, tbl, lineno) {
                    Ok(ts) => Ok((ts, tbl)),
                    Err(e) => Err(e),
                },
                None => spec_parse_after_ident(line, name, tbl, lineno),
            },
            LexerTokenView::Period => spec_parse_directive(line, tbl, lineno),
            _ => Ok((seq![], tbl)),
        }
    }
}

/// A line that opens with an identifier that is no mnemonic: a label, a
/// label before an instruction, or a constant definition.
pub open spec fn spec_parse_after_ident(
    line: Seq<LexerTokenView>,
    name: Seq<char>,
    tbl: ConstTable,
    lineno: int,
) -> Result<(Seq<ParserTokenView>, ConstTable), Seq<char>> {
    if line.len() == 1 {
        Ok((seq![ParserTokenView::Label(name)], tbl))
    } else {
        match line[1] {
            LexerTokenView::Colon => Ok((seq![ParserTokenView::Label(name)], tbl)),
            LexerTokenView::Ident(name2) => match spec_from_mnemonic(name2) {
                None => Err(spec_msg_expected_instruction(lineno)),
                Some(mn) => match spec_consume_opcode(line, 2, mn, tbl, lineno) {
                    Ok(ts) => Ok((seq![ParserTokenView::Label(name)] + ts, tbl)),
                    Err(e) => Err(e),
                },
            },
            LexerTokenView::Assignment => if line.len() == 2 {
                Err(spec_msg_unexpected_eol(lineno))
            } else {
                match line[2] {
                    LexerTokenView::Address(a) => Ok(
                        (seq![], tbl.push((name, LexerTokenView::Address(a)))),
                    ),
                    LexerTokenView::Ident(n2) => Ok(
                        (seq![], tbl.push((name, LexerTokenView::Ident(n2)))),
                    ),
                    LexerTokenView::Immediate(v, base) => Ok(
                        (seq![], tbl.push((name, LexerTokenView::Immediate(v, base)))),
                    ),
                    _ => Ok((seq![], tbl)),
                }
            },
            _ => Ok((seq![], tbl)),
        }
    }
}

/// A directive line: `.ORG $addr` or `.BYTE <imm>[, <imm>]*`.
pub open spec fn spec_parse_directive(
    line: Seq<LexerTokenView>,
    tbl: ConstTable,
    lineno: int,
) -> Result<(Seq<ParserTokenView>, ConstTable), Seq<char>> {
    if line.len() == 1 {
        Err(spec_msg_unexpected_eol(lineno))
    } else {
        match line[1] {
            LexerTokenView::Ident(d) => {
                let up = spec_upper(d);
                if up == "ORG"@ {
                    if line.len() == 2 {
                        Err(spec_msg_expected_address(lineno))
                    } else {
                        match line[2] {
                            LexerTokenView::Address(a) => match spec_address_value(a) {
                                Some(v) => Ok((seq![ParserTokenView::OrgDirective(v)], tbl)),
                                None => Err(spec_msg_cannot_parse_address(lineno)),
                            },
                            _ => Err(spec_msg_expected_address(lineno)),
                        }
                    }
                } else if up == "BYTE"@ {
                    match spec_consume_byte_args(line, 2, tbl, lineno) {
                        Ok(bytes) => Ok((seq![ParserTokenView::RawBytes(bytes)], tbl)),
                        Err(e) => Err(e),
                    }
                } else {
                    Err(spec_msg_unknown_identifier(lineno))
                }
            },
            _ => Ok((seq![], tbl)),
        }
    }
}

/// What the lines from `i` on contribute, threading the constant table
/// through, with one line number per line.
pub open spec fn spec_parse(
    lines: Seq<Seq<LexerTokenView>>,
    i: int,
    tbl: ConstTable,
    lineno: int,
) -> Result<(Seq<ParserTokenView>, ConstTable), Seq<char>>
    decreases lines.len() - i,
{
    if i >= lines.len() {
        Ok((seq![], tbl))
    } else {
        match spec_parse_line(lines[i], tbl, lineno + 1) {
            Err(e) => Err(e),
            Ok((ts, tbl2)) => match spec_parse(lines, i + 1, tbl2, lineno + 1) {
                Err(e) => Err(e),
                Ok((rest, tbl3)) => Ok((ts + rest, tbl3)),
            },
        }
    }
}


/// The monotonicity of digit-run values: extending a run of digits never
/// shrinks its value.
pub proof fn lemma_hex_prefix_le(s: Seq<char>, i: int)
    requires
        spec_all_hex(s),
        0 <= i <= s.len(),
    ensures
        0 <= spec_hex_value(s.subrange(0, i)) <= spec_hex_value(s),
    decreases s.len() - i,
{
    crate::text::lemma_hex_value_bound(s.subrange(0, i));
    if i < s.len() {
        lemma_hex_prefix_le(s, i + 1);
        assert(s.subrange(0, i + 1).drop_last() =~= s.subrange(0, i));
        assert(0 <= crate::text::spec_hex_digit_val(s.subrange(0, i + 1).last()) < 16);
    } else {
        assert(s.subrange(0, i) =~= s);
    }
}

/// The same for decimal runs.
pub proof fn lemma_dec_prefix_le(s: Seq<char>, i: int)
    requires
        spec_all_dec(s),
        0 <= i <= s.len(),
    ensures
        0 <= spec_dec_value(s.subrange(0, i)) <= spec_dec_value(s),
    decreases s.len() - i,
{
    if i < s.len() {
        lemma_dec_prefix_le(s, i + 1);
        assert(s.subrange(0, i + 1).drop_last() =~= s.subrange(0, i));
        assert(0 <= crate::text::spec_dec_digit_val(s.subrange(0, i + 1).last()) < 10);
        lemma_dec_nonneg(s.subrange(0, i));
    } else {
        assert(s.subrange(0, i) =~= s);
        lemma_dec_nonneg(s);
    }
}

/// A decimal run's value is never negative.
pub proof fn lemma_dec_nonneg(s: Seq<char>)
    requires
        spec_all_dec(s),
    ensures
        0 <= spec_dec_value(s),
    decreases s.len(),
{
    if s.len() > 0 {
        lemma_dec_nonneg(s.drop_last());
    }
}

/// The value of a run of digits, bounded by a cap: `None` when some digit
/// is not of the base, the run is empty, or the value is over the cap.
fn bounded_digits_value(s: &str, base: ImmediateBase, cap: u32) -> (r: Option<u32>)
    requires
        cap <= 0xFFFF,
    ensures
        match base {
            ImmediateBase::Base10 => match r {
                Some(v) => spec_all_dec(s@) && s@.len() > 0 && spec_dec_value(s@) == v && v
                    <= cap,
                None => s@.len() == 0 || !spec_all_dec(s@) || spec_dec_value(s@) > cap,
            },
            ImmediateBase::Base16 => match r {
                Some(v) => spec_all_hex(s@) && s@.len() > 0 && spec_hex_value(s@) == v && v
                    <= cap,
                None => s@.len() == 0 || !spec_all_hex(s@) || spec_hex_value(s@) > cap,
            },
        },
{
    let len = s.unicode_len();
    if len == 0 {
        return None;
    }
    let mut acc: u32 = 0;
    let mut i: usize = 0;
    while i < len
        invariant
            0 <= i <= len,
            len == s@.len(),
            cap <= 0xFFFF,
            acc <= cap,
            match base {
                ImmediateBase::Base10 => spec_all_dec(s@.subrange(0, i as int)) && acc
                    == spec_dec_value(s@.subrange(0, i as int)),
                ImmediateBase::Base16 => spec_all_hex(s@.subrange(0, i as int)) && acc
                    == spec_hex_value(s@.subrange(0, i as int)),
            },
        decreases len - i,
    {
        let c = s.get_char(i);
        let ghost pre = s@.subrange(0, i as int);
        let ghost pre1 = s@.subrange(0, i + 1);
        proof {
            assert(pre1.drop_last() =~= pre);
            assert(pre1.last() == s@[i as int]);
        }
        let step = match base {
            ImmediateBase::Base10 => {
                if !crate::text::is_dec_digit(c) {
                    proof {
                        assert(!spec_all_dec(s@));
                    }
                    return None;
                }
                let d = crate::text::dec_digit_val(c);
                acc * 10 + (d as u32)
            },
            ImmediateBase::Base16 => {
                if !crate::text::is_hex_digit(c) {
                    proof {
                        assert(!spec_all_hex(s@));
                    }
                    return None;
                }
                let d = crate::text::hex_digit_val(c);
                acc * 16 + (d as u32)
            },
        };
        if step > cap {
            proof {
                match base {
                    ImmediateBase::Base10 => {
                        assert(spec_all_dec(pre1));
                        if spec_all_dec(s@) {
                            lemma_dec_prefix_le(s@, i + 1);
                        }
                    },
                    ImmediateBase::Base16 => {
                        assert(spec_all_hex(pre1));
                        if spec_all_hex(s@) {
                            lemma_hex_prefix_le(s@, i + 1);
                        }
                    },
                }
            }
            return None;
        }
        acc = step;
        i = i + 1;
    }
    proof {
        assert(s@.subrange(0, len as int) =~= s@);
    }
    Some(acc)
}

/// The byte value of an immediate literal in the given base.
fn parse_imm_u8(s: &str, base: ImmediateBase) -> (r: Option<u8>)
    ensures
        r == spec_parse_imm(s@, base),
{
    match bounded_digits_value(s, base, 255) {
        Some(v) => Some(v as u8),
        None => None,
    }
}

/// The 16-bit value of an address literal.
fn parse_address_u16(s: &str) -> (r: Option<u16>)
    ensures
        r == spec_address_value(s@),
{
    match bounded_digits_value(s, ImmediateBase::Base16, 0xFFFF) {
        Some(v) => Some(v as u16),
        None => None,
    }
}

/// Whether the upper-case form of `s` is the (already upper-case)
/// pattern `pat`.
fn upper_is(s: &str, pat: &str) -> (r: bool)
    ensures
        r == (spec_upper(s@) == pat@),
{
    let n = s.unicode_len();
    if n != pat.unicode_len() {
        proof {
            assert(spec_upper(s@).len() == s@.len());
        }
        return false;
    }
    let mut i: usize = 0;
    while i < n
        invariant
            0 <= i <= n,
            n == s@.len() == pat@.len(),
            forall|k: int| 0 <= k < i ==> spec_upper(s@)[k] == pat@[k],
        decreases n - i,
    {
        let c = upper_char(s.get_char(i));
        if c != pat.get_char(i) {
            proof {
                assert(spec_upper(s@)[i as int] != pat@[i as int]);
            }
            return false;
        }
        i = i + 1;
    }
    proof {
        assert(spec_upper(s@) =~= pat@);
    }
    true
}

/// An opcode token followed by its operand bytes, as a token vector.
fn op_with_bytes(op: OpCode, bytes: &Vec<u8>) -> (r: Vec<ParserToken>)
    ensures
        r.deep_view() == spec_op_with_bytes(op, bytes@),
{
    let mut r: Vec<ParserToken> = Vec::new();
    r.push(ParserToken::OpCode(op));
    proof {
        assert(r.deep_view() =~= seq![ParserTokenView::OpCode(op)]);
    }
    let mut i: usize = 0;
    while i < bytes.len()
        invariant
            0 <= i <= bytes.len(),
            r.deep_view() =~= seq![ParserTokenView::OpCode(op)] + bytes@.subrange(
                0,
                i as int,
            ).map_values(|b: u8| ParserTokenView::RawByte(b)),
        decreases bytes.len() - i,
    {
        let ghost dv0 = r.deep_view();
        r.push(ParserToken::RawByte(bytes[i]));
        proof {
            assert(bytes@.subrange(0, i + 1).drop_last() =~= bytes@.subrange(0, i as int));
            assert forall|k: int| 0 <= k < r.deep_view().len() implies r.deep_view()[k]
                == dv0.push(ParserTokenView::RawByte(bytes@[i as int]))[k] by {
                assert(r.deep_view()[k] == r@[k].deep_view());
            }
            assert(r.deep_view() =~= dv0.push(ParserTokenView::RawByte(bytes@[i as int])));
            assert(r.deep_view() =~= seq![ParserTokenView::OpCode(op)] + bytes@.subrange(
                0,
                i + 1,
            ).map_values(|b: u8| ParserTokenView::RawByte(b)));
        }
        i = i + 1;
    }
    proof {
        assert(bytes@.subrange(0, bytes@.len() as int) =~= bytes@);
        assert(r.deep_view() =~= spec_op_with_bytes(op, bytes@));
    }
    r
}

/// A single byte as a one-entry operand vector.
fn one_byte_vec(b: u8) -> (r: Vec<u8>)
    ensures
        r@ == seq![b],
{
    let mut r: Vec<u8> = Vec::new();
    r.push(b);
    assert(r@ =~= seq![b]);
    r
}

/// The operand bytes of an address literal, or the address error.
fn address_bytes(s: &str, lineno: u32) -> (r: Result<Vec<u8>, ParserError>)
    ensures
        match r {
            Ok(v) => spec_address_bytes(s@) == Some(v@),
            Err(e) => spec_address_bytes(s@) == None::<Seq<u8>> && e@
                == spec_msg_cannot_parse_address(lineno as int),
        },
{
    match parse_address_u16(s) {
        None => Err(ParserError::cannot_parse_address(lineno)),
        Some(v) => {
            proof {
                crate::text::lemma_hex_value_bound(s@);
            }
            let mut bytes: Vec<u8> = Vec::new();
            if s.unicode_len() <= 2 {
                proof {
                    crate::text::lemma_hex_value_bound(s@);
                    assert(crate::text::pow16(s@.len()) <= 256) by {
                        assert(crate::text::pow16(0) == 1);
                        assert(crate::text::pow16(1) == 16);
                        assert(crate::text::pow16(2) == 256);
                    }
                }
                bytes.push(v as u8);
                assert(bytes@ =~= seq![(spec_hex_value(s@) as u8)]);
            } else {
                bytes.push((v % 256) as u8);
                bytes.push((v / 256) as u8);
                assert(bytes@ =~= seq![
                    ((spec_hex_value(s@) % 256) as u8),
                    ((spec_hex_value(s@) / 256) as u8),
                ]);
            }
            Ok(bytes)
        },
    }
}

/// The value bound to a name in the constant table up to entry `j`,
/// latest definition first.
fn tbl_lookup_upto(table: &Vec<(String, Variable)>, j: usize, name: &String) -> (r: Option<
    LexerToken,
>)
    requires
        j <= table@.len(),
    ensures
        match r {
            Some(t) => spec_tbl_lookup(spec_table_view(table@).take(j as int), name@) == Some(
                t@,
            ),
            None => spec_tbl_lookup(spec_table_view(table@).take(j as int), name@)
                == None::<LexerTokenView>,
        },
    decreases j,
{
    let ghost tv = spec_table_view(table@).take(j as int);
    if j == 0 {
        None
    } else {
        proof {
            assert(tv.last() == (table@[j - 1].0@, table@[j - 1].1.0@));
            assert(tv.drop_last() =~= spec_table_view(table@).take(j - 1));
        }
        if table[j - 1].0 == *name {
            Some(table[j - 1].1.0.duplicate())
        } else {
            tbl_lookup_upto(table, j - 1, name)
        }
    }
}

/// The value bound to a name, following chains of constants bound to
/// constants for at most as many steps as the table has entries.
fn resolve_variable(table: &Vec<(String, Variable)>, name: &String, fuel: usize) -> (r: Option<
    LexerToken,
>)
    ensures
        match r {
            Some(t) => spec_resolve(spec_table_view(table@), name@, fuel as nat) == Some(t@),
            None => spec_resolve(spec_table_view(table@), name@, fuel as nat)
                == None::<LexerTokenView>,
        },
    decreases fuel,
{
    if fuel == 0 {
        return None;
    }
    proof {
        assert(spec_table_view(table@).take(table@.len() as int) =~= spec_table_view(table@));
    }
    match tbl_lookup_upto(table, table.len(), name) {
        None => None,
        Some(t) => match t {
            LexerToken::Ident(n2) => resolve_variable(table, &n2, fuel - 1),
            _ => Some(t),
        },
    }
}


/// A one-token vector.
fn one_token(a: ParserToken) -> (r: Vec<ParserToken>)
    ensures
        r.deep_view() == seq![a@],
{
    let ghost av = a@;
    let mut r: Vec<ParserToken> = Vec::new();
    r.push(a);
    assert(r.deep_view() =~= seq![av]);
    r
}

/// A two-token vector.
fn two_tokens(a: ParserToken, b: ParserToken) -> (r: Vec<ParserToken>)
    ensures
        r.deep_view() == seq![a@, b@],
{
    let ghost av = a@;
    let ghost bv = b@;
    let mut r: Vec<ParserToken> = Vec::new();
    r.push(a);
    r.push(b);
    assert(r.deep_view() =~= seq![av, bv]);
    r
}

/// The operand tokens of a mnemonic line from position `k` on; see
/// `spec_consume_opcode`.
fn consume_opcode(
    line: &Vec<LexerToken>,
    k: usize,
    mn: Mnemonic,
    table: &Vec<(String, Variable)>,
    lineno: u32,
) -> (r: Result<Vec<ParserToken>, ParserError>)
    requires
        table@.len() < usize::MAX,
    ensures
        match r {
            Ok(v) => spec_consume_opcode(
                line.deep_view(),
                k as int,
                mn,
                spec_table_view(table@),
                lineno as int,
            ) == Ok::<Seq<ParserTokenView>, Seq<char>>(v.deep_view()),
            Err(e) => spec_consume_opcode(
                line.deep_view(),
                k as int,
                mn,
                spec_table_view(table@),
                lineno as int,
            ) == Err::<Seq<ParserTokenView>, Seq<char>>(e@),
        },
{
    if k >= line.len() {
        match OpCode::by_mnemonic_and_mode(mn, AddressingMode::Implied) {
            Some(op) => Ok(one_token(ParserToken::OpCode(op))),
            None => match OpCode::by_mnemonic_and_mode(mn, AddressingMode::Accumulator) {
                Some(op) => Ok(one_token(ParserToken::OpCode(op))),
                None => Err(ParserError::invalid_opcode_addressing_mode_combination(lineno)),
            },
        }
    } else {
        assert(line.deep_view()[k as int] == line@[k as int]@);
        match &line[k] {
            LexerToken::Ident(name) => {
                match resolve_variable(table, name, table.len() + 1) {
                    Some(v) => consume_operand(line, k, &v, mn, table, lineno),
                    None => {
                        let mode = if mn == Mnemonic::JMP || mn == Mnemonic::JSR {
                            AddressingMode::Absolute
                        } else {
                            AddressingMode::Relative
                        };
                        match OpCode::by_mnemonic_and_mode(mn, mode) {
                            Some(op) => Ok(
                                two_tokens(
                                    ParserToken::OpCode(op),
                                    ParserToken::LabelArg(name.clone()),
                                ),
                            ),
                            None => Err(
                                ParserError::invalid_opcode_addressing_mode_combination(lineno),
                            ),
                        }
                    },
                }
            },
            _ => {
                let t = line[k].duplicate();
                consume_operand(line, k, &t, mn, table, lineno)
            },
        }
    }
}

/// One operand token (possibly substituted for a constant name); see
/// `spec_consume_operand`.
fn consume_operand(
    line: &Vec<LexerToken>,
    k: usize,
    t: &LexerToken,
    mn: Mnemonic,
    table: &Vec<(String, Variable)>,
    lineno: u32,
) -> (r: Result<Vec<ParserToken>, ParserError>)
    requires
        k < line@.len(),
        table@.len() < usize::MAX,
    ensures
        match r {
            Ok(v) => spec_consume_operand(
                line.deep_view(),
                k as int,
                t@,
                mn,
                spec_table_view(table@),
                lineno as int,
            ) == Ok::<Seq<ParserTokenView>, Seq<char>>(v.deep_view()),
            Err(e) => spec_consume_operand(
                line.deep_view(),
                k as int,
                t@,
                mn,
                spec_table_view(table@),
                lineno as int,
            ) == Err::<Seq<ParserTokenView>, Seq<char>>(e@),
        },
{
    match t {
        LexerToken::Address(a) => consume_address(line, k, a, mn, lineno),
        LexerToken::OpenParenthesis => consume_indirect(line, k, mn, table, lineno),
        LexerToken::Immediate(v, base) => match parse_imm_u8(v.as_str(), *base) {
            Some(val) => match OpCode::by_mnemonic_and_mode(mn, AddressingMode::Immediate) {
                Some(op) => {
                    let bytes = one_byte_vec(val);
                    Ok(op_with_bytes(op, &bytes))
                },
                None => Err(ParserError::invalid_opcode_addressing_mode_combination(lineno)),
            },
            None => Err(ParserError::cannot_parse_immediate(lineno)),
        },
        _ => Err(ParserError::expected_address(lineno)),
    }
}

/// A direct address operand; see `spec_consume_address`.
fn consume_address(line: &Vec<LexerToken>, k: usize, a: &String, mn: Mnemonic, lineno: u32) -> (r:
    Result<Vec<ParserToken>, ParserError>)
    requires
        k < line@.len(),
    ensures
        match r {
            Ok(v) => spec_consume_address(
                line.deep_view(),
                k as int,
                a@,
                mn,
                lineno as int,
            ) == Ok::<Seq<ParserTokenView>, Seq<char>>(v.deep_view()),
            Err(e) => spec_consume_address(
                line.deep_view(),
                k as int,
                a@,
                mn,
                lineno as int,
            ) == Err::<Seq<ParserTokenView>, Seq<char>>(e@),
        },
{
    if a.as_str().unicode_len() > 4 {
        return Err(ParserError::cannot_parse_address(lineno));
    }
    let zp = a.as_str().unicode_len() <= 2;
    let bytes = match address_bytes(a.as_str(), lineno) {
        Ok(bytes) => bytes,
        Err(e) => {
            return Err(e);
        },
    };
    if line.len() - k == 1 {
        let mode = if zp {
            AddressingMode::ZeroPage
        } else {
            AddressingMode::Absolute
        };
        match OpCode::by_mnemonic_and_mode(mn, mode) {
            Some(op) => Ok(op_with_bytes(op, &bytes)),
            None => Err(ParserError::invalid_opcode_addressing_mode_combination(lineno)),
        }
    } else {
        assert(line.deep_view()[k + 1] == line@[k + 1]@);
        match &line[k + 1] {
            LexerToken::Comma => {
                if line.len() - k == 2 {
                    return Err(ParserError::unexpected_eol(lineno));
                }
                assert(line.deep_view()[k + 2] == line@[k + 2]@);
                match &line[k + 2] {
                    LexerToken::Ident(reg) => {
                        if upper_is(reg.as_str(), "X") {
                            let mode = if zp {
                                AddressingMode::ZeroPageX
                            } else {
                                AddressingMode::AbsoluteX
                            };
                            match OpCode::by_mnemonic_and_mode(mn, mode) {
                                Some(op) => Ok(op_with_bytes(op, &bytes)),
                                None => Err(
                                    ParserError::invalid_opcode_addressing_mode_combination(
                                        lineno,
                                    ),
                                ),
                            }
                        } else if upper_is(reg.as_str(), "Y") {
                            let mode = if zp {
                                AddressingMode::ZeroPageY
                            } else {
                                AddressingMode::AbsoluteY
                            };
                            match OpCode::by_mnemonic_and_mode(mn, mode) {
                                Some(op) => Ok(op_with_bytes(op, &bytes)),
                                None => Err(
                                    ParserError::invalid_opcode_addressing_mode_combination(
                                        lineno,
                                    ),
                                ),
                            }
                        } else {
                            Err(ParserError::unexpected_token(lineno))
                        }
                    },
                    _ => Err(ParserError::unexpected_token(lineno)),
                }
            },
            _ => Err(ParserError::unexpected_token(lineno)),
        }
    }
}

/// An indirect operand; see `spec_consume_indirect`.
fn consume_indirect(
    line: &Vec<LexerToken>,
    k: usize,
    mn: Mnemonic,
    table: &Vec<(String, Variable)>,
    lineno: u32,
) -> (r: Result<Vec<ParserToken>, ParserError>)
    requires
        k < line@.len(),
        table@.len() < usize::MAX,
    ensures
        match r {
            Ok(v) => spec_consume_indirect(
                line.deep_view(),
                k as int,
                mn,
                spec_table_view(table@),
                lineno as int,
            ) == Ok::<Seq<ParserTokenView>, Seq<char>>(v.deep_view()),
            Err(e) => spec_consume_indirect(
                line.deep_view(),
                k as int,
                mn,
                spec_table_view(table@),
                lineno as int,
            ) == Err::<Seq<ParserTokenView>, Seq<char>>(e@),
        },
{
    if line.len() - k == 1 {
        return Err(ParserError::unexpected_eol(lineno));
    }
    assert(line.deep_view()[k + 1] == line@[k + 1]@);
    let t2 = match &line[k + 1] {
        LexerToken::Ident(name) => match resolve_variable(table, name, table.len() + 1) {
            Some(v) => v,
            None => line[k + 1].duplicate(),
        },
        _ => line[k + 1].duplicate(),
    };
    match &t2 {
        LexerToken::Address(a) => {
            if a.as_str().unicode_len() > 4 {
                return Err(ParserError::address_out_of_bounds(lineno));
            }
            let bytes = match address_bytes(a.as_str(), lineno) {
                Ok(bytes) => bytes,
                Err(e) => {
                    return Err(e);
                },
            };
            if line.len() - k == 2 {
                return Err(ParserError::unexpected_eol(lineno));
            }
            assert(line.deep_view()[k + 2] == line@[k + 2]@);
            match &line[k + 2] {
                LexerToken::Comma => consume_indirect_x(line, k, &bytes, mn, lineno),
                LexerToken::CloseParenthesis => consume_indirect_y(
                    line,
                    k,
                    a,
                    &bytes,
                    mn,
                    lineno,
                ),
                _ => Err(ParserError::unexpected_token(lineno)),
            }
        },
        _ => Err(ParserError::cannot_parse_address(lineno)),
    }
}

/// The tail of a `($hh,X)` operand; see `spec_consume_indirect_x`.
fn consume_indirect_x(
    line: &Vec<LexerToken>,
    k: usize,
    bytes: &Vec<u8>,
    mn: Mnemonic,
    lineno: u32,
) -> (r: Result<Vec<ParserToken>, ParserError>)
    requires
        k + 2 < line@.len(),
        bytes@.len() > 0,
    ensures
        match r {
            Ok(v) => spec_consume_indirect_x(
                line.deep_view(),
                k as int,
                bytes@,
                mn,
                lineno as int,
            ) == Ok::<Seq<ParserTokenView>, Seq<char>>(v.deep_view()),
            Err(e) => spec_consume_indirect_x(
                line.deep_view(),
                k as int,
                bytes@,
                mn,
                lineno as int,
            ) == Err::<Seq<ParserTokenView>, Seq<char>>(e@),
        },
{
    if line.len() - k == 3 {
        return Err(ParserError::unexpected_eol(lineno));
    }
    assert(line.deep_view()[k + 3] == line@[k + 3]@);
    match &line[k + 3] {
        LexerToken::Ident(reg) => {
            if !upper_is(reg.as_str(), "X") {
                return Err(ParserError::unexpected_token(lineno));
            }
            if line.len() - k == 4 {
                return Err(ParserError::unexpected_eol(lineno));
            }
            assert(line.deep_view()[k + 4] == line@[k + 4]@);
            match &line[k + 4] {
                LexerToken::CloseParenthesis => {
                    match OpCode::by_mnemonic_and_mode(mn, AddressingMode::IndirectX) {
                        Some(op) => {
                            let first = one_byte_vec(bytes[0]);
                            Ok(op_with_bytes(op, &first))
                        },
                        None => Err(
                            ParserError::invalid_opcode_addressing_mode_combination(lineno),
                        ),
                    }
                },
                _ => Err(ParserError::unexpected_token(lineno)),
            }
        },
        _ => Err(ParserError::unexpected_token(lineno)),
    }
}

/// The tail of a `($hhhh)` or `($hh),Y` operand; see
/// `spec_consume_indirect_y`.
fn consume_indirect_y(
    line: &Vec<LexerToken>,
    k: usize,
    a: &String,
    bytes: &Vec<u8>,
    mn: Mnemonic,
    lineno: u32,
) -> (r: Result<Vec<ParserToken>, ParserError>)
    requires
        k + 2 < line@.len(),
    ensures
        match r {
            Ok(v) => spec_consume_indirect_y(
                line.deep_view(),
                k as int,
                a@,
                bytes@,
                mn,
                lineno as int,
            ) == Ok::<Seq<ParserTokenView>, Seq<char>>(v.deep_view()),
            Err(e) => spec_consume_indirect_y(
                line.deep_view(),
                k as int,
                a@,
                bytes@,
                mn,
                lineno as int,
            ) == Err::<Seq<ParserTokenView>, Seq<char>>(e@),
        },
{
    if line.len() - k == 3 {
        return match OpCode::by_mnemonic_and_mode(mn, AddressingMode::Indirect) {
            Some(op) => if a.as_str().unicode_len() != 4 {
                Err(ParserError::address_out_of_bounds(lineno))
            } else {
                Ok(op_with_bytes(op, bytes))
            },
            None => Err(ParserError::invalid_opcode_addressing_mode_combination(lineno)),
        };
    }
    assert(line.deep_view()[k + 3] == line@[k + 3]@);
    match &line[k + 3] {
        LexerToken::Comma => {
            if line.len() - k == 4 {
                return Err(ParserError::unexpected_eol(lineno));
            }
            assert(line.deep_view()[k + 4] == line@[k + 4]@);
            match &line[k + 4] {
                LexerToken::Ident(reg) => {
                    if !upper_is(reg.as_str(), "Y") {
                        return Err(ParserError::unexpected_token(lineno));
                    }
                    match OpCode::by_mnemonic_and_mode(mn, AddressingMode::IndirectY) {
                        Some(op) => Ok(op_with_bytes(op, bytes)),
                        None => Err(
                            ParserError::invalid_opcode_addressing_mode_combination(lineno),
                        ),
                    }
                },
                _ => Err(ParserError::unexpected_token(lineno)),
            }
        },
        _ => Err(ParserError::unexpected_token(lineno)),
    }
}

/// The bytes of a `.BYTE` argument list; see `spec_consume_byte_args`.
fn consume_byte_args(
    line: &Vec<LexerToken>,
    k: usize,
    table: &Vec<(String, Variable)>,
    lineno: u32,
) -> (r: Result<Vec<u8>, ParserError>)
    requires
        table@.len() < usize::MAX,
    ensures
        match r {
            Ok(v) => spec_consume_byte_args(
                line.deep_view(),
                k as int,
                spec_table_view(table@),
                lineno as int,
            ) == Ok::<Seq<u8>, Seq<char>>(v@),
            Err(e) => spec_consume_byte_args(
                line.deep_view(),
                k as int,
                spec_table_view(table@),
                lineno as int,
            ) == Err::<Seq<u8>, Seq<char>>(e@),
        },
    decreases line@.len() - k,
{
    if k >= line.len() {
        return Err(ParserError::expected_immediate(lineno));
    }
    assert(line.deep_view()[k as int] == line@[k as int]@);
    let imm = match &line[k] {
        LexerToken::Ident(name) => match resolve_variable(table, name, table.len() + 1) {
            None => {
                return Err(ParserError::unknown_identifier(lineno));
            },
            Some(v) => match v {
                LexerToken::Immediate(s, base) => (s, base),
                _ => {
                    return Err(ParserError::expected_immediate(lineno));
                },
            },
        },
        LexerToken::Immediate(s, base) => (s.clone(), *base),
        _ => {
            return Err(ParserError::expected_immediate(lineno));
        },
    };
    let val = match parse_imm_u8(imm.0.as_str(), imm.1) {
        None => {
            return Err(ParserError::cannot_parse_immediate(lineno));
        },
        Some(val) => val,
    };
    if line.len() - k == 1 {
        return Ok(one_byte_vec(val));
    }
    assert(line.deep_view()[k + 1] == line@[k + 1]@);
    match &line[k + 1] {
        LexerToken::Comma => {
            let rest = consume_byte_args(line, k + 2, table, lineno)?;
            let ghost restv = rest@;
            let mut out = rest;
            out.insert(0, val);
            assert(out@ =~= seq![val] + restv);
            Ok(out)
        },
        _ => Ok(one_byte_vec(val)),
    }
}


/// One line of tokens: the parser tokens it emits, with the constant
/// table updated in place; see `spec_parse_line`.
fn parse_line(line: &Vec<LexerToken>, table: &mut Vec<(String, Variable)>, lineno: u32) -> (r:
    Result<Vec<ParserToken>, ParserError>)
    requires
        old(table)@.len() < usize::MAX - 1,
    ensures
        match r {
            Ok(v) => spec_parse_line(
                line.deep_view(),
                spec_table_view(old(table)@),
                lineno as int,
            ) == Ok::<(Seq<ParserTokenView>, ConstTable), Seq<char>>(
                (v.deep_view(), spec_table_view(final(table)@)),
            ) && final(table)@.len() <= old(table)@.len() + 1,
            Err(e) => spec_parse_line(
                line.deep_view(),
                spec_table_view(old(table)@),
                lineno as int,
            ) == Err::<(Seq<ParserTokenView>, ConstTable), Seq<char>>(e@) && final(table)@
                == old(table)@,
        },
{
    if line.len() == 0 {
        let r: Vec<ParserToken> = Vec::new();
        assert(r.deep_view() =~= Seq::<ParserTokenView>::empty());
        return Ok(r);
    }
    assert(line.deep_view()[0] == line@[0]@);
    match &line[0] {
        LexerToken::Ident(name) => match OpCode::from_mnemonic(name.as_str()) {
            Some(mn) => consume_opcode(line, 1, mn, table, lineno),
            None => parse_after_ident(line, name, table, lineno),
        },
        LexerToken::Period => parse_directive(line, table, lineno),
        _ => {
            let r: Vec<ParserToken> = Vec::new();
            assert(r.deep_view() =~= Seq::<ParserTokenView>::empty());
            Ok(r)
        },
    }
}

/// A line that opens with an identifier that is no mnemonic; see
/// `spec_parse_after_ident`. `name` is that identifier, `line[0]`.
fn parse_after_ident(
    line: &Vec<LexerToken>,
    name: &String,
    table: &mut Vec<(String, Variable)>,
    lineno: u32,
) -> (r: Result<Vec<ParserToken>, ParserError>)
    requires
        old(table)@.len() < usize::MAX - 1,
        line@.len() >= 1,
    ensures
        match r {
            Ok(v) => spec_parse_after_ident(
                line.deep_view(),
                name@,
                spec_table_view(old(table)@),
                lineno as int,
            ) == Ok::<(Seq<ParserTokenView>, ConstTable), Seq<char>>(
                (v.deep_view(), spec_table_view(final(table)@)),
            ) && final(table)@.len() <= old(table)@.len() + 1,
            Err(e) => spec_parse_after_ident(
                line.deep_view(),
                name@,
                spec_table_view(old(table)@),
                lineno as int,
            ) == Err::<(Seq<ParserTokenView>, ConstTable), Seq<char>>(e@) && final(table)@
                == old(table)@,
        },
{
    if line.len() == 1 {
        return Ok(one_token(ParserToken::Label(name.clone())));
    }
    assert(line.deep_view()[1] == line@[1]@);
    match &line[1] {
        LexerToken::Colon => Ok(one_token(ParserToken::Label(name.clone()))),
        LexerToken::Ident(name2) => match OpCode::from_mnemonic(name2.as_str()) {
            None => Err(ParserError::expected_instruction(lineno)),
            Some(mn) => {
                let ts = consume_opcode(line, 2, mn, table, lineno)?;
                let ghost tsv = ts.deep_view();
                let mut out = one_token(ParserToken::Label(name.clone()));
                let mut rest = ts;
                out.append(&mut rest);
                proof {
                    assert forall|j: int| 0 <= j < out.deep_view().len() implies out.deep_view()[j]
                        == (seq![ParserTokenView::Label(name@)] + tsv)[j] by {
                        assert(out.deep_view()[j] == out@[j].deep_view());
                    }
                    assert(out.deep_view() =~= seq![ParserTokenView::Label(name@)] + tsv);
                }
                Ok(out)
            },
        },
        LexerToken::Assignment => {
            if line.len() == 2 {
                return Err(ParserError::unexpected_eol(lineno));
            }
            assert(line.deep_view()[2] == line@[2]@);
            let ghost tv0 = spec_table_view(table@);
            let recorded = match &line[2] {
                LexerToken::Address(a) => {
                    table.push((name.clone(), Variable(LexerToken::Address(a.clone()))));
                    true
                },
                LexerToken::Ident(n2) => {
                    table.push((name.clone(), Variable(LexerToken::Ident(n2.clone()))));
                    true
                },
                LexerToken::Immediate(v, base) => {
                    table.push(
                        (name.clone(), Variable(LexerToken::Immediate(v.clone(), *base))),
                    );
                    true
                },
                _ => false,
            };
            proof {
                if recorded {
                    assert forall|j: int|
                        0 <= j < spec_table_view(table@).len() implies spec_table_view(table@)[j]
                        == tv0.push((name@, line@[2]@))[j] by {}
                    assert(spec_table_view(table@) =~= tv0.push((name@, line@[2]@)));
                }
            }
            let r: Vec<ParserToken> = Vec::new();
            assert(r.deep_view() =~= Seq::<ParserTokenView>::empty());
            Ok(r)
        },
        _ => {
            let r: Vec<ParserToken> = Vec::new();
            assert(r.deep_view() =~= Seq::<ParserTokenView>::empty());
            Ok(r)
        },
    }
}

/// A directive line; see `spec_parse_directive`.
fn parse_directive(
    line: &Vec<LexerToken>,
    table: &Vec<(String, Variable)>,
    lineno: u32,
) -> (r: Result<Vec<ParserToken>, ParserError>)
    requires
        line@.len() >= 1,
        table@.len() < usize::MAX,
    ensures
        match r {
            Ok(v) => spec_parse_directive(
                line.deep_view(),
                spec_table_view(table@),
                lineno as int,
            ) == Ok::<(Seq<ParserTokenView>, ConstTable), Seq<char>>(
                (v.deep_view(), spec_table_view(table@)),
            ),
            Err(e) => spec_parse_directive(
                line.deep_view(),
                spec_table_view(table@),
                lineno as int,
            ) == Err::<(Seq<ParserTokenView>, ConstTable), Seq<char>>(e@),
        },
{
    if line.len() == 1 {
        return Err(ParserError::unexpected_eol(lineno));
    }
    assert(line.deep_view()[1] == line@[1]@);
    match &line[1] {
        LexerToken::Ident(d) => {
            if upper_is(d.as_str(), "ORG") {
                if line.len() == 2 {
                    return Err(ParserError::expected_address(lineno));
                }
                assert(line.deep_view()[2] == line@[2]@);
                match &line[2] {
                    LexerToken::Address(a) => match parse_address_u16(a.as_str()) {
                        Some(v) => Ok(one_token(ParserToken::OrgDirective(v))),
                        None => Err(ParserError::cannot_parse_address(lineno)),
                    },
                    _ => Err(ParserError::expected_address(lineno)),
                }
            } else if upper_is(d.as_str(), "BYTE") {
                match consume_byte_args(line, 2, table, lineno) {
                    Ok(bytes) => Ok(one_token(ParserToken::RawBytes(bytes))),
                    Err(e) => Err(e),
                }
            } else {
                Err(ParserError::unknown_identifier(lineno))
            }
        },
        _ => {
            let r: Vec<ParserToken> = Vec::new();
            assert(r.deep_view() =~= Seq::<ParserTokenView>::empty());
            Ok(r)
        },
    }
}

/// Prepends already-parsed tokens to the outcome of parsing the rest.
pub open spec fn spec_prepend_parse(
    acc: Seq<ParserTokenView>,
    r: Result<(Seq<ParserTokenView>, ConstTable), Seq<char>>,
) -> Result<(Seq<ParserTokenView>, ConstTable), Seq<char>> {
    match r {
        Ok((rest, tbl)) => Ok((acc + rest, tbl)),
        Err(e) => Err(e),
    }
}

/// Parser turns lists of lexer tokens into a flat sequence of semantic
/// instructions, recording `NAME = value` constants in its table as it
/// goes. The table and the line counter persist across calls.
pub struct Parser {
    /// The constants defined so far, in definition order; a later
    /// definition of a name shadows an earlier one.
    pub symbol_table: Vec<(String, Variable)>,
    /// The number of lines parsed so far; error messages continue from
    /// it.
    pub line: u32,
}

impl Parser {
    /// A parser with an empty constant table.
    pub fn new() -> (r: Parser)
        ensures
            r.symbol_table@.len() == 0,
            r.line == 0,
    {
        Parser { symbol_table: Vec::new(), line: 0 }
    }

    /// Turns line-grouped lexer tokens into parser tokens: labels, opcode
    /// references with their operand bytes, raw bytes and directives, or
    /// the first error. On an error the constant table is cleared.
    pub fn parse(&mut self, tokens: Vec<Vec<LexerToken>>) -> (r: Result<
        Vec<ParserToken>,
        ParserError,
    >)
        requires
            old(self).line + tokens@.len() < 0x1_0000_0000,
            old(self).symbol_table@.len() + tokens@.len() < usize::MAX - 1,
        ensures
            match r {
                Ok(v) => spec_parse(
                    tokens.deep_view(),
                    0,
                    spec_table_view(old(self).symbol_table@),
                    old(self).line as int,
                ) == Ok::<(Seq<ParserTokenView>, ConstTable), Seq<char>>(
                    (v.deep_view(), spec_table_view(final(self).symbol_table@)),
                ) && final(self).line == old(self).line + tokens@.len(),
                Err(e) => spec_parse(
                    tokens.deep_view(),
                    0,
                    spec_table_view(old(self).symbol_table@),
                    old(self).line as int,
                ) == Err::<(Seq<ParserTokenView>, ConstTable), Seq<char>>(e@)
                    && final(self).symbol_table@.len() == 0
                    && final(self).line == old(self).line,
            },
    {
        let ghost ld = tokens.deep_view();
        let ghost tbl0 = spec_table_view(old(self).symbol_table@);
        let ghost line0 = self.line as int;
        let mut table: Vec<(String, Variable)> = Vec::new();
        core::mem::swap(&mut table, &mut self.symbol_table);
        let mut line: u32 = self.line;
        let mut result: Vec<ParserToken> = Vec::new();
        let mut i: usize = 0;
        assert(result.deep_view() =~= Seq::<ParserTokenView>::empty());
        assert(Seq::<ParserTokenView>::empty() + Seq::<ParserTokenView>::empty()
            =~= Seq::<ParserTokenView>::empty());
        while i < tokens.len()
            invariant
                0 <= i <= tokens@.len(),
                ld == tokens.deep_view(),
                tbl0 == spec_table_view(old(self).symbol_table@),
                line0 == old(self).line as int,
                self.line == old(self).line,
                line == line0 + i,
                line0 + tokens@.len() < 0x1_0000_0000,
                line0 >= 0,
                table@.len() <= tbl0.len() + i,
                tbl0.len() + tokens@.len() < usize::MAX - 1,
                self.symbol_table@.len() == 0,
                spec_parse(ld, 0, tbl0, line0) == spec_prepend_parse(
                    result.deep_view(),
                    spec_parse(ld, i as int, spec_table_view(table@), line0 + i),
                ),
            decreases tokens@.len() - i,
        {
            assert(ld[i as int] == tokens@[i as int].deep_view());
            line = line + 1;
            let ghost dv0 = result.deep_view();
            match parse_line(&tokens[i], &mut table, line) {
                Ok(ts) => {
                    let ghost tsv = ts.deep_view();
                    let mut rest = ts;
                    result.append(&mut rest);
                    proof {
                        assert forall|j: int|
                            0 <= j < result.deep_view().len() implies result.deep_view()[j] == (
                            dv0 + tsv)[j] by {
                            assert(result.deep_view()[j] == result@[j].deep_view());
                        }
                        assert(result.deep_view() =~= dv0 + tsv);
                        let r2 = spec_parse(ld, i + 1, spec_table_view(table@), line0 + i + 1);
                        if r2 is Ok {
                            assert(dv0 + (tsv + r2->Ok_0.0) =~= (dv0 + tsv) + r2->Ok_0.0);
                        }
                    }
                },
                Err(e) => {
                    proof {
                        assert(spec_parse_line(ld[i as int], spec_table_view(table@), line0 + i
                            + 1) == Err::<(Seq<ParserTokenView>, ConstTable), Seq<char>>(e@));
                        assert(spec_parse(ld, i as int, spec_table_view(table@), line0 + i)
                            == Err::<(Seq<ParserTokenView>, ConstTable), Seq<char>>(e@));
                        assert(spec_parse(ld, 0, tbl0, line0) == Err::<
                            (Seq<ParserTokenView>, ConstTable),
                            Seq<char>,
                        >(e@));
                    }
                    return Err(e);
                },
            }
            i = i + 1;
        }
        assert(result.deep_view() + Seq::<ParserTokenView>::empty() =~= result.deep_view());
        core::mem::swap(&mut table, &mut self.symbol_table);
        self.line = line;
        Ok(result)
    }
}

} // verus!
