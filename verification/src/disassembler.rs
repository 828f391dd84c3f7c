//! The disassembler: raw 6502 machine code back to readable assembly,
//! one instruction per line, with optional byte-offset and raw-byte
//! columns.

use vstd::prelude::*;
use vstd::string::StringExecFns;
use vstd::string::StrSliceExecFns;
use crate::opcodes::OpCode;
use crate::opcodes::AddressingMode;
use crate::opcodes::spec_from_raw_byte;
use crate::opcodes::spec_mnemonic_text;
use crate::assembler::lexer::run_end;
use crate::assembler::lexer::lemma_run_end_at_least;
use crate::assembler::lexer::lemma_run_end_is;
use crate::assembler::lexer::spec_content_end;
use crate::assembler::lexer::spec_line_end;
use crate::assembler::lexer::spec_next_line;
use crate::text::push_hex2;
use crate::text::push_hex4;
use crate::text::spec_hex2;
use crate::text::spec_hex4;
use crate::text::is_space;
use crate::text::spec_is_space;

verus! {

/// A run of spaces.
pub open spec fn spec_spaces(n: int) -> Seq<char>
    decreases n,
{
    if n <= 0 {
        Seq::empty()
    } else {
        spec_spaces(n - 1) + seq![' ']
    }
}

/// A column left-justified to eight characters.
pub open spec fn spec_pad8(s: Seq<char>) -> Seq<char> {
    if s.len() >= 8 {
        s
    } else {
        s + spec_spaces(8 - s.len())
    }
}

/// The raw-byte column and the operand text of one instruction, given
/// its operand bytes `b1` and `b2` (only as many as its mode reads) and
/// its position `i` in the stream.
pub open spec fn spec_operand_text(op: OpCode, b1: u8, b2: u8, i: int) -> (Seq<char>, Seq<char>) {
    let cc = spec_hex2(op.code);
    match op.mode {
        AddressingMode::Immediate => (
            cc + " "@ + spec_hex2(b1),
            " #$"@ + spec_hex2(b1),
        ),
        AddressingMode::Indirect => (
            cc + " "@ + spec_hex2(b1) + " "@ + spec_hex2(b2),
            " ($"@ + spec_hex4((b1 + b2 * 0x100) as u16) + ")"@,
        ),
        AddressingMode::Relative => (
            cc + " "@ + spec_hex2(b1),
            " $"@ + spec_rel_target(i, b1),
        ),
        AddressingMode::ZeroPage => (cc + " "@ + spec_hex2(b1), " $"@ + spec_hex2(b1)),
        AddressingMode::ZeroPageX => (
            cc + " "@ + spec_hex2(b1),
            " $"@ + spec_hex2(b1) + ",X"@,
        ),
        AddressingMode::ZeroPageY => (
            cc + " "@ + spec_hex2(b1),
            " $"@ + spec_hex2(b1) + ",Y"@,
        ),
        AddressingMode::Absolute => (
            cc + " "@ + spec_hex2(b1) + " "@ + spec_hex2(b2),
            " $"@ + spec_hex4((b1 + b2 * 0x100) as u16),
        ),
        AddressingMode::AbsoluteX => (
            cc + " "@ + spec_hex2(b1) + " "@ + spec_hex2(b2),
            " $"@ + spec_hex4((b1 + b2 * 0x100) as u16) + ",X"@,
        ),
        AddressingMode::AbsoluteY => (
            cc + " "@ + spec_hex2(b1) + " "@ + spec_hex2(b2),
            " $"@ + spec_hex4((b1 + b2 * 0x100) as u16) + ",Y"@,
        ),
        AddressingMode::IndirectX => (
            cc + " "@ + spec_hex2(b1),
            " ($"@ + spec_hex2(b1) + ",X)"@,
        ),
        AddressingMode::IndirectY => (
            cc + " "@ + spec_hex2(b1),
            " ($"@ + spec_hex2(b1) + "),Y"@,
        ),
        _ => (cc, Seq::empty()),
    }
}

/// The target text of a relative branch at position `i` with offset
/// byte `b1`: the address two past the branch plus the signed offset,
/// wrapped to 16 bits. A backward branch that would point before the
/// start of the byte stream renders as the zero-extended offset byte
/// instead.
pub open spec fn spec_rel_target(i: int, b1: u8) -> Seq<char> {
    let delta: int = if b1 >= 0x80 {
        b1 - 0x100
    } else {
        b1 as int
    };
    if i + 2 + delta < 0 {
        "00"@ + spec_hex2(b1)
    } else {
        spec_hex4(((i + 2 + delta) % 0x10000) as u16)
    }
}

/// The columns in front of the assembly text: the optional byte offset
/// and the optional raw-byte column, each followed by a space.
pub open spec fn spec_line_prefix(
    offsets: bool,
    opcodes: bool,
    i: int,
    bytes_col: Seq<char>,
) -> Seq<char> {
    if offsets {
        if opcodes {
            spec_hex4((i % 0x10000) as u16) + " "@ + spec_pad8(bytes_col) + " "@
        } else {
            spec_hex4((i % 0x10000) as u16) + " "@
        }
    } else {
        if opcodes {
            spec_pad8(bytes_col) + " "@
        } else {
            Seq::empty()
        }
    }
}

/// One output line, assembled from the optional offset column, the
/// optional raw-byte column, the mnemonic and the operand text.
pub open spec fn spec_line(
    offsets: bool,
    opcodes: bool,
    i: int,
    bytes_col: Seq<char>,
    mn_text: Seq<char>,
    operand: Seq<char>,
) -> Seq<char> {
    spec_line_prefix(offsets, opcodes, i, bytes_col) + mn_text + operand + "\n"@
}

/// The operand bytes an instruction at `i` reads: zero, one or two,
/// depending on its encoded length.
pub open spec fn spec_b1(raw: Seq<u8>, i: int, op: OpCode) -> u8 {
    if op.length >= 2 {
        raw[i + 1]
    } else {
        0
    }
}

/// The second operand byte, for three-byte instructions.
pub open spec fn spec_b2(raw: Seq<u8>, i: int, op: OpCode) -> u8 {
    if op.length >= 3 {
        raw[i + 2]
    } else {
        0
    }
}

/// The disassembly text of the byte stream from position `i` on. A byte
/// outside the opcode table, or an instruction whose operand bytes run
/// past the end of the stream, renders as a `???` line and one byte is
/// skipped.
pub open spec fn spec_disassemble(raw: Seq<u8>, offsets: bool, opcodes: bool, i: int) -> Seq<char>
    decreases raw.len() - i when 0 <= i <= raw.len()
{
    if i >= raw.len() {
        Seq::empty()
    } else {
        match spec_from_raw_byte(raw[i]) {
            Some(op) => if i + op.length <= raw.len() {
                let cols = spec_operand_text(op, spec_b1(raw, i, op), spec_b2(raw, i, op), i);
                spec_line(offsets, opcodes, i, cols.0, spec_mnemonic_text(op.mnemonic), cols.1)
                    + spec_disassemble(raw, offsets, opcodes, i + op.length)
            } else {
                spec_line(offsets, opcodes, i, spec_hex2(raw[i]), "???"@, Seq::empty())
                    + spec_disassemble(raw, offsets, opcodes, i + 1)
            },
            None => spec_line(offsets, opcodes, i, spec_hex2(raw[i]), "???"@, Seq::empty())
                + spec_disassemble(raw, offsets, opcodes, i + 1),
        }
    }
}

/// One line of `clean_asm` output: the line with its leading and
/// trailing blanks removed.
pub open spec fn spec_trimmed(s: Seq<char>, from: int, ce: int) -> Seq<char> {
    let a = run_end(s, from, |ch: char| spec_is_space(ch));
    if a >= ce {
        Seq::empty()
    } else {
        let b = spec_trim_end(s, a, ce);
        s.subrange(a, b)
    }
}

/// The end of a line once trailing blanks are dropped: the least index
/// at or after `a` from which everything up to `ce` is blank.
pub open spec fn spec_trim_end(s: Seq<char>, a: int, ce: int) -> int
    decreases ce - a when a <= ce
{
    if a >= ce {
        a
    } else if spec_is_space(s[ce - 1]) {
        spec_trim_end(s, a, ce - 1)
    } else {
        ce
    }
}

/// The non-blank lines of a text, each trimmed of surrounding blanks.
pub open spec fn spec_clean_asm(s: Seq<char>, from: int) -> Seq<Seq<char>>
    decreases s.len() - from when 0 <= from <= s.len() via spec_clean_asm_decreases
{
    if from >= s.len() {
        Seq::empty()
    } else {
        let t = spec_trimmed(s, from, spec_content_end(s, from));
        let rest = spec_clean_asm(s, spec_next_line(s, from));
        if t.len() == 0 {
            rest
        } else {
            seq![t] + rest
        }
    }
}

#[via_fn]
proof fn spec_clean_asm_decreases(s: Seq<char>, from: int) {
    if 0 <= from < s.len() {
        crate::assembler::lexer::lemma_next_line_bounds(s, from);
    }
}

/// A 6502 instruction disassembler. The two switches leave out the
/// byte-offset column and the raw-byte column of each line.
pub struct Disassembler {
    pub disable_offsets: bool,
    pub disable_opcodes: bool,
}

impl Disassembler {
    /// A disassembler that prints byte offsets but not raw opcode
    /// bytes.
    pub fn new() -> (r: Disassembler)
        ensures
            !r.disable_offsets && r.disable_opcodes,
    {
        Disassembler { disable_offsets: false, disable_opcodes: true }
    }

    /// A disassembler that prints the bare assembly text only.
    pub fn with_code_only() -> (r: Disassembler)
        ensures
            r.disable_offsets && r.disable_opcodes,
    {
        Disassembler { disable_offsets: true, disable_opcodes: true }
    }

    /// A disassembler that prints byte offsets and raw opcode bytes.
    pub fn with_verbose_output() -> (r: Disassembler)
        ensures
            !r.disable_offsets && !r.disable_opcodes,
    {
        Disassembler { disable_offsets: false, disable_opcodes: false }
    }

    /// Renders a byte stream as assembly text, one instruction per
    /// line; see `spec_disassemble`.
    #[verifier::rlimit(100)]
    pub fn disassemble(&self, raw: &Vec<u8>) -> (r: String)
        requires
            raw@.len() <= 0x10000,
        ensures
            r@ == spec_disassemble(raw@, !self.disable_offsets, !self.disable_opcodes, 0),
    {
        let offsets = !self.disable_offsets;
        let opcodes = !self.disable_opcodes;
        let mut out = String::new();
        let mut i: usize = 0;
        while i < raw.len()
            invariant
                0 <= i <= raw@.len() <= 0x10000,
                out@ + spec_disassemble(raw@, offsets, opcodes, i as int) == spec_disassemble(
                    raw@,
                    offsets,
                    opcodes,
                    0,
                ),
                offsets == !self.disable_offsets,
                opcodes == !self.disable_opcodes,
            decreases raw@.len() - i,
        {
            let ghost pre = out@;
            let byte = raw[i];
            let ghost mut line: Seq<char> = Seq::empty();
            let step: usize = match OpCode::from_raw_byte(byte) {
                Some(op) => if i + op.length as usize <= raw.len() {
                    let b1: u8 = if op.length >= 2 {
                        raw[i + 1]
                    } else {
                        0
                    };
                    let b2: u8 = if op.length >= 3 {
                        raw[i + 2]
                    } else {
                        0
                    };
                    let mut bytes_col = String::new();
                    let mut operand = String::new();
                    Self::push_operand_text(&mut bytes_col, &mut operand, &op, b1, b2, i);
                    Self::push_line(
                        &mut out,
                        offsets,
                        opcodes,
                        i,
                        bytes_col.as_str(),
                        op.mnemonic.text(),
                        operand.as_str(),
                    );
                    proof {
                        let cols = spec_operand_text(op, b1, b2, i as int);
                        line = spec_line(
                            offsets,
                            opcodes,
                            i as int,
                            cols.0,
                            spec_mnemonic_text(op.mnemonic),
                            cols.1,
                        );
                    }
                    op.length as usize
                } else {
                    Self::push_unknown(&mut out, offsets, opcodes, i, byte);
                    proof {
                        line = spec_line(
                            offsets,
                            opcodes,
                            i as int,
                            spec_hex2(raw@[i as int]),
                            "???"@,
                            Seq::empty(),
                        );
                    }
                    1
                },
                None => {
                    Self::push_unknown(&mut out, offsets, opcodes, i, byte);
                    proof {
                        line = spec_line(
                            offsets,
                            opcodes,
                            i as int,
                            spec_hex2(raw@[i as int]),
                            "???"@,
                            Seq::empty(),
                        );
                    }
                    1
                },
            };
            proof {
                let rest = spec_disassemble(raw@, offsets, opcodes, i + step);
                assert(out@ == pre + line);
                assert(spec_disassemble(raw@, offsets, opcodes, i as int) == line + rest);
                vstd::seq_lib::lemma_concat_associative(pre, line, rest);
            }
            i = i + step;
        }
        proof {
            assert(out@ + Seq::<char>::empty() =~= out@);
        }
        out
    }

    /// Appends one `???` line for a byte that renders as no
    /// instruction.
    fn push_unknown(out: &mut String, offsets: bool, opcodes: bool, i: usize, byte: u8)
        requires
            i <= 0xFFFF,
        ensures
            final(out)@ == old(out)@ + spec_line(
                offsets,
                opcodes,
                i as int,
                spec_hex2(byte),
                "???"@,
                Seq::empty(),
            ),
    {
        let mut col = String::new();
        push_hex2(&mut col, byte);
        Self::push_line(out, offsets, opcodes, i, col.as_str(), "???", "");
        proof {
            reveal_strlit("");
            assert(""@ =~= Seq::<char>::empty());
        }
    }

    /// Appends the column prefix of one line; see `spec_line_prefix`.
    #[verifier::rlimit(100)]
    #[verifier::spinoff_prover]
    fn push_line_prefix(out: &mut String, offsets: bool, opcodes: bool, i: usize, bytes_col: &str)
        requires
            i <= 0xFFFF,
        ensures
            final(out)@ == old(out)@ + spec_line_prefix(
                offsets,
                opcodes,
                i as int,
                bytes_col@,
            ),
    {
        let ghost g0 = out@;
        let ghost hx = spec_hex4((i as int % 0x10000) as u16);
        let ghost pad = spec_pad8(bytes_col@);
        if offsets {
            push_hex4(out, i as u16);
            out.append(" ");
        }
        if opcodes {
            Self::append_pad8(out, bytes_col);
            out.append(" ");
        }
        proof {
            if offsets {
                vstd::seq_lib::lemma_concat_associative(g0, hx, " "@);
                if opcodes {
                    vstd::seq_lib::lemma_concat_associative(g0, hx + " "@, pad);
                    vstd::seq_lib::lemma_concat_associative(g0, hx + " "@ + pad, " "@);
                }
            } else {
                if opcodes {
                    vstd::seq_lib::lemma_concat_associative(g0, pad, " "@);
                } else {
                    assert(g0 + Seq::<char>::empty() =~= g0);
                }
            }
        }
    }

    /// Appends one formatted output line; see `spec_line`.
    fn push_line(
        out: &mut String,
        offsets: bool,
        opcodes: bool,
        i: usize,
        bytes_col: &str,
        mn_text: &str,
        operand: &str,
    )
        requires
            i <= 0xFFFF,
        ensures
            final(out)@ == old(out)@ + spec_line(
                offsets,
                opcodes,
                i as int,
                bytes_col@,
                mn_text@,
                operand@,
            ),
    {
        let ghost g0 = out@;
        let ghost prefix = spec_line_prefix(offsets, opcodes, i as int, bytes_col@);
        Self::push_line_prefix(out, offsets, opcodes, i, bytes_col);
        out.append(mn_text);
        out.append(operand);
        out.append("\n");
        proof {
            vstd::seq_lib::lemma_concat_associative(g0, prefix, mn_text@);
            vstd::seq_lib::lemma_concat_associative(g0, prefix + mn_text@, operand@);
            vstd::seq_lib::lemma_concat_associative(
                g0,
                prefix + mn_text@ + operand@,
                "\n"@,
            );
        }
    }

    /// Appends a column left-justified to eight characters.
    fn append_pad8(out: &mut String, s: &str)
        ensures
            final(out)@ == old(out)@ + spec_pad8(s@),
    {
        out.append(s);
        let n = s.unicode_len();
        if n < 8 {
            let mut k: usize = n;
            while k < 8
                invariant
                    n <= k <= 8,
                    n == s@.len() < 8,
                    out@ == old(out)@ + s@ + spec_spaces(k - n),
                decreases 8 - k,
            {
                out.append(" ");
                proof {
                    reveal_strlit(" ");
                    assert(out@ =~= old(out)@ + s@ + spec_spaces(k + 1 - n));
                }
                k = k + 1;
            }
        } else {
            assert(out@ =~= old(out)@ + spec_pad8(s@));
        }
    }

    /// Appends the raw-byte column and the operand text of one
    /// instruction; see `spec_operand_text`.
    fn push_operand_text(
        bytes_col: &mut String,
        operand: &mut String,
        op: &OpCode,
        b1: u8,
        b2: u8,
        i: usize,
    )
        requires
            old(bytes_col)@.len() == 0,
            old(operand)@.len() == 0,
            i <= 0xFFFF,
        ensures
            ({
                let cols = spec_operand_text(*op, b1, b2, i as int);
                final(bytes_col)@ == cols.0 && final(operand)@ == cols.1
            }),
    {
        proof {
            reveal_strlit(" ");
            reveal_strlit(" #$");
            reveal_strlit(" ($");
            reveal_strlit(")");
            reveal_strlit(" $");
            reveal_strlit(",X");
            reveal_strlit(",Y");
            reveal_strlit(",X)");
            reveal_strlit("),Y");
            reveal_strlit("");
            reveal_strlit("00");
        }
        match op.mode {
            AddressingMode::Implied | AddressingMode::Accumulator => {
                push_hex2(bytes_col, op.code);
                assert(bytes_col@ =~= spec_operand_text(*op, b1, b2, i as int).0);
                assert(operand@ =~= spec_operand_text(*op, b1, b2, i as int).1);
            },
            AddressingMode::Immediate => {
                push_hex2(bytes_col, op.code);
                bytes_col.append(" ");
                push_hex2(bytes_col, b1);
                operand.append(" #$");
                push_hex2(operand, b1);
                assert(bytes_col@ =~= spec_operand_text(*op, b1, b2, i as int).0);
                assert(operand@ =~= spec_operand_text(*op, b1, b2, i as int).1);
            },
            AddressingMode::Relative => {
                push_hex2(bytes_col, op.code);
                bytes_col.append(" ");
                push_hex2(bytes_col, b1);
                operand.append(" $");
                Self::push_rel_target(operand, i, b1);
                assert(bytes_col@ =~= spec_operand_text(*op, b1, b2, i as int).0);
                assert(operand@ =~= spec_operand_text(*op, b1, b2, i as int).1);
            },
            AddressingMode::ZeroPage => {
                push_hex2(bytes_col, op.code);
                bytes_col.append(" ");
                push_hex2(bytes_col, b1);
                operand.append(" $");
                push_hex2(operand, b1);
                assert(bytes_col@ =~= spec_operand_text(*op, b1, b2, i as int).0);
                assert(operand@ =~= spec_operand_text(*op, b1, b2, i as int).1);
            },
            AddressingMode::ZeroPageX => {
                push_hex2(bytes_col, op.code);
                bytes_col.append(" ");
                push_hex2(bytes_col, b1);
                operand.append(" $");
                push_hex2(operand, b1);
                operand.append(",X");
                assert(bytes_col@ =~= spec_operand_text(*op, b1, b2, i as int).0);
                assert(operand@ =~= spec_operand_text(*op, b1, b2, i as int).1);
            },
            AddressingMode::ZeroPageY => {
                push_hex2(bytes_col, op.code);
                bytes_col.append(" ");
                push_hex2(bytes_col, b1);
                operand.append(" $");
                push_hex2(operand, b1);
                operand.append(",Y");
                assert(bytes_col@ =~= spec_operand_text(*op, b1, b2, i as int).0);
                assert(operand@ =~= spec_operand_text(*op, b1, b2, i as int).1);
            },
            AddressingMode::Absolute => {
                push_hex2(bytes_col, op.code);
                bytes_col.append(" ");
                push_hex2(bytes_col, b1);
                bytes_col.append(" ");
                push_hex2(bytes_col, b2);
                operand.append(" $");
                push_hex4(operand, b1 as u16 + b2 as u16 * 0x100);
                assert(bytes_col@ =~= spec_operand_text(*op, b1, b2, i as int).0);
                assert(operand@ =~= spec_operand_text(*op, b1, b2, i as int).1);
            },
            AddressingMode::AbsoluteX => {
                push_hex2(bytes_col, op.code);
                bytes_col.append(" ");
                push_hex2(bytes_col, b1);
                bytes_col.append(" ");
                push_hex2(bytes_col, b2);
                operand.append(" $");
                push_hex4(operand, b1 as u16 + b2 as u16 * 0x100);
                operand.append(",X");
                assert(bytes_col@ =~= spec_operand_text(*op, b1, b2, i as int).0);
                assert(operand@ =~= spec_operand_text(*op, b1, b2, i as int).1);
            },
            AddressingMode::AbsoluteY => {
                push_hex2(bytes_col, op.code);
                bytes_col.append(" ");
                push_hex2(bytes_col, b1);
                bytes_col.append(" ");
                push_hex2(bytes_col, b2);
                operand.append(" $");
                push_hex4(operand, b1 as u16 + b2 as u16 * 0x100);
                operand.append(",Y");
                assert(bytes_col@ =~= spec_operand_text(*op, b1, b2, i as int).0);
                assert(operand@ =~= spec_operand_text(*op, b1, b2, i as int).1);
            },
            AddressingMode::Indirect => {
                push_hex2(bytes_col, op.code);
                bytes_col.append(" ");
                push_hex2(bytes_col, b1);
                bytes_col.append(" ");
                push_hex2(bytes_col, b2);
                operand.append(" ($");
                push_hex4(operand, b1 as u16 + b2 as u16 * 0x100);
                operand.append(")");
                assert(bytes_col@ =~= spec_operand_text(*op, b1, b2, i as int).0);
                assert(operand@ =~= spec_operand_text(*op, b1, b2, i as int).1);
            },
            AddressingMode::IndirectX => {
                push_hex2(bytes_col, op.code);
                bytes_col.append(" ");
                push_hex2(bytes_col, b1);
                operand.append(" ($");
                push_hex2(operand, b1);
                operand.append(",X)");
                assert(bytes_col@ =~= spec_operand_text(*op, b1, b2, i as int).0);
                assert(operand@ =~= spec_operand_text(*op, b1, b2, i as int).1);
            },
            AddressingMode::IndirectY => {
                push_hex2(bytes_col, op.code);
                bytes_col.append(" ");
                push_hex2(bytes_col, b1);
                operand.append(" ($");
                push_hex2(operand, b1);
                operand.append("),Y");
                assert(bytes_col@ =~= spec_operand_text(*op, b1, b2, i as int).0);
                assert(operand@ =~= spec_operand_text(*op, b1, b2, i as int).1);
            },
        }
    }

    /// Appends the target text of a relative branch; see
    /// `spec_rel_target`.
    fn push_rel_target(out: &mut String, i: usize, b1: u8)
        requires
            i <= 0xFFFF,
        ensures
            final(out)@ == old(out)@ + spec_rel_target(i as int, b1),
    {
        if b1 >= 0x80 {
            let back = 0x100 - b1 as usize;
            if i + 2 < back {
                out.append("00");
                push_hex2(out, b1);
                proof {
                    reveal_strlit("00");
                    assert(out@ =~= old(out)@ + spec_rel_target(i as int, b1));
                }
            } else {
                push_hex4(out, ((i + 2 - back) % 0x10000) as u16);
            }
        } else {
            push_hex4(out, ((i + 2 + b1 as usize) % 0x10000) as u16);
        }
    }

    /// The non-empty lines of a text, each with its leading and
    /// trailing whitespace removed; see `spec_clean_asm`.
    pub fn clean_asm(input: &str) -> (r: Vec<String>)
        ensures
            r.deep_view() == spec_clean_asm(input@, 0),
    {
        let ghost s = input@;
        let len = input.unicode_len();
        let mut out: Vec<String> = Vec::new();
        let mut from: usize = 0;
        assert(out.deep_view() =~= Seq::<Seq<char>>::empty());
        while from < len
            invariant
                0 <= from <= len,
                len == s.len(),
                s == input@,
                spec_clean_asm(s, 0) == out.deep_view() + spec_clean_asm(s, from as int),
            decreases len - from,
        {
            let ghost dv0 = out.deep_view();
            let line_end = Self::scan_newline(input, from, len);
            let content_end = if line_end > from && input.get_char(line_end - 1) == '\r' {
                line_end - 1
            } else {
                line_end
            };
            proof {
                assert(spec_line_end(s, from as int) == line_end);
                assert(spec_content_end(s, from as int) == content_end);
            }
            let mut a = from;
            while a < content_end && is_space(input.get_char(a))
                invariant
                    from <= a <= content_end <= s.len(),
                    s == input@,
                    forall|k: int| from <= k < a ==> spec_is_space(#[trigger] s[k]),
                decreases content_end - a,
            {
                a = a + 1;
            }
            proof {
                if a < content_end {
                    lemma_run_end_is(s, from as int, a as int, |ch: char| spec_is_space(ch));
                } else {
                    lemma_run_end_at_least(s, from as int, a as int, |ch: char| spec_is_space(
                        ch,
                    ));
                }
            }
            if a < content_end {
                let mut b = content_end;
                while b > a && is_space(input.get_char(b - 1))
                    invariant
                        a <= b <= content_end <= s.len(),
                        s == input@,
                        forall|k: int| b <= k < content_end ==> spec_is_space(#[trigger] s[k]),
                        spec_trim_end(s, a as int, content_end as int) == spec_trim_end(
                            s,
                            a as int,
                            b as int,
                        ),
                    decreases b - a,
                {
                    b = b - 1;
                }
                proof {
                    assert(spec_trim_end(s, a as int, b as int) == b);
                }
                let t = input.substring_char(a, b).to_owned();
                out.push(t);
                proof {
                    assert forall|k: int| 0 <= k < out.deep_view().len() implies out.deep_view()[k]
                        == dv0.push(s.subrange(a as int, b as int))[k] by {
                        assert(out.deep_view()[k] == out@[k]@);
                    }
                    assert(out.deep_view() =~= dv0.push(s.subrange(a as int, b as int)));
                    assert(dv0.push(s.subrange(a as int, b as int)) =~= dv0 + seq![
                        s.subrange(a as int, b as int),
                    ]);
                    assert(spec_trimmed(s, from as int, content_end as int) == s.subrange(
                        a as int,
                        b as int,
                    ));
                }
            } else {
                proof {
                    assert(spec_trimmed(s, from as int, content_end as int).len() == 0);
                }
            }
            let ghost from0 = from as int;
            from = if line_end < len {
                line_end + 1
            } else {
                len
            };
            proof {
                assert(spec_next_line(s, from0) == from as int);
                let t = spec_trimmed(s, from0, spec_content_end(s, from0));
                let rest = spec_clean_asm(s, from as int);
                if t.len() != 0 {
                    assert(dv0 + (seq![t] + rest) =~= (dv0 + seq![t]) + rest);
                }
            }
        }
        assert(out.deep_view() + Seq::<Seq<char>>::empty() =~= out.deep_view());
        out
    }

    /// The index of the first newline at or after `from`, or `len`.
    fn scan_newline(s: &str, from: usize, len: usize) -> (r: usize)
        requires
            from <= len,
            len == s@.len(),
        ensures
            from <= r <= len,
            r == run_end(s@, from as int, |ch: char| ch != '\n'),
    {
        let mut j = from;
        while j < len && s.get_char(j) != '\n'
            invariant
                from <= j <= len,
                len == s@.len(),
                forall|k: int| from <= k < j ==> #[trigger] s@[k] != '\n',
            decreases len - j,
        {
            j = j + 1;
        }
        proof {
            lemma_run_end_is(s@, from as int, j as int, |ch: char| ch != '\n');
        }
        j
    }
}

} // verus!
